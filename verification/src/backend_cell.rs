//! The places that hold the current connections to backends.

use arc_swap::ArcSwapOption;
use std::sync::Arc;
use vstd::prelude::*;

verus! {

/// Holds the number of the current connection, or nothing while the backend is
/// disconnected. The number is swapped atomically.
#[verifier::external_body]
pub struct BackendCell {
    cell: ArcSwapOption<u64>,
}

/// What a cell holds: the number of a connection, or nothing.
pub uninterp spec fn held(c: BackendCell) -> Seq<u64>;

/// An optional number as a sequence.
pub open spec fn as_held(connection: Option<u64>) -> Seq<u64> {
    match connection {
        Some(number) => seq![number],
        None => Seq::empty(),
    }
}

/// `ArcSwapOption::from_pointee`: a cell that holds what it was made with.
#[verifier::external_body]
fn new_cell(connection: Option<u64>) -> (r: BackendCell)
    ensures
        held(r) == as_held(connection),
{
    BackendCell { cell: ArcSwapOption::from_pointee(connection) }
}

/// `ArcSwapOption::store`: later loads give the new value.
#[verifier::external_body]
fn store(c: &mut BackendCell, connection: Option<u64>)
    ensures
        held(*final(c)) == as_held(connection),
{
    c.cell.store(connection.map(Arc::new));
}

/// `ArcSwapOption::load`: the value that was stored last.
#[verifier::external_body]
fn load(c: &BackendCell) -> (r: Option<u64>)
    ensures
        held(*c) == as_held(r),
{
    c.cell.load().as_deref().copied()
}

/// The current connections to all backends, each in a slot of its own. Whoever
/// knows a slot sees what anyone else has put there.
pub struct Backends {
    cells: Vec<BackendCell>,
}

impl View for Backends {
    type V = Seq<Seq<u64>>;

    closed spec fn view(&self) -> Seq<Seq<u64>> {
        self.cells@.map_values(|c: BackendCell| held(c))
    }
}

impl Backends {
    /// What is in a slot: the number of a connection, or nothing. There is
    /// nothing in a slot that was never taken.
    pub open spec fn at(self, slot: usize) -> Seq<u64> {
        if slot < self@.len() {
            self@[slot as int]
        } else {
            Seq::empty()
        }
    }

    /// No slot is taken.
    pub fn new() -> (r: Self)
        ensures
            r@ == Seq::<Seq<u64>>::empty(),
    {
        let r = Backends { cells: Vec::new() };
        assert(r@ =~= Seq::<Seq<u64>>::empty());
        r
    }

    /// Takes a new slot, and puts a connection there.
    pub fn add(&mut self, connection: Option<u64>) -> (slot: usize)
        ensures
            slot == old(self)@.len(),
            final(self)@ == old(self)@.push(as_held(connection)),
    {
        let ghost before = self@;
        let slot: usize = self.cells.len();
        self.cells.push(new_cell(connection));
        assert(self@ =~= before.push(as_held(connection)));
        slot
    }

    /// Puts a connection in a slot that was taken, or clears it.
    pub fn put(&mut self, slot: usize, connection: Option<u64>)
        ensures
            final(self)@ == (if slot < old(self)@.len() {
                old(self)@.update(slot as int, as_held(connection))
            } else {
                old(self)@
            }),
    {
        if slot < self.cells.len() {
            let ghost before = self@;
            store(&mut self.cells[slot], connection);
            assert(self@ =~= before.update(slot as int, as_held(connection)));
        }
    }

    /// The number of the connection in a slot.
    pub fn get(&self, slot: usize) -> (r: Option<u64>)
        ensures
            as_held(r) == self.at(slot),
    {
        if slot < self.cells.len() {
            load(&self.cells[slot])
        } else {
            None
        }
    }
}

/// A slot that was given a connection holds its number; one that was cleared
/// holds nothing.
pub proof fn slot_holds_what_was_put_there(number: u64)
    ensures
        as_held(Some(number)).len() == 1,
        as_held(Some(number))[0] == number,
        as_held(None).len() == 0,
{
}

/// A slot that was never taken holds nothing, and every other one what is there.
pub proof fn slots_are_found_by_their_number(backends: Backends, slot: usize)
    ensures
        slot < backends@.len() ==> backends.at(slot) == backends@[slot as int],
        slot >= backends@.len() ==> backends.at(slot).len() == 0,
{
}

/// A slot that is taken is a new one, and holds the connection that it was given.
/// All others are left alone.
pub proof fn new_slot_holds_its_connection(connection: Option<u64>, slot: usize, other: usize)
    ensures
        forall|b: &mut Backends|
            #![trigger call_ensures(Backends::add, (b, connection), slot)]
            call_ensures(Backends::add, (b, connection), slot) ==> {
                &&& slot >= (*b)@.len()
                &&& slot < final(b)@.len()
                &&& connection is Some ==> final(b).at(slot) == seq![connection->0]
                &&& connection is None ==> final(b).at(slot).len() == 0
                &&& other != slot ==> final(b).at(other) == (*b).at(other)
            },
{
}

/// What is put in a slot that was taken is there, and all other slots are left
/// alone.
pub proof fn slots_are_independent(slot: usize, connection: Option<u64>, other: usize)
    ensures
        forall|b: &mut Backends|
            #![trigger call_ensures(Backends::put, (b, slot, connection), ())]
            call_ensures(Backends::put, (b, slot, connection), ()) ==> {
                &&& final(b)@.len() == (*b)@.len()
                &&& slot < (*b)@.len() && connection is Some ==> final(b).at(slot)
                    == seq![connection->0]
                &&& connection is None ==> final(b).at(slot).len() == 0
                &&& other != slot ==> final(b).at(other) == (*b).at(other)
            },
{
}

/// The number in a slot is the one that was put there; from an empty slot comes
/// none.
pub proof fn slot_gives_what_it_holds(backends: &Backends, slot: usize, r: Option<u64>)
    requires
        call_ensures(Backends::get, (backends, slot), r),
    ensures
        r is None <==> backends.at(slot).len() == 0,
        r is Some ==> backends.at(slot) == seq![r->0],
{
}

} // verus!
