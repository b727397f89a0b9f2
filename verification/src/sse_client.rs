//! A client for server-sent events: its first connection, and what is said of
//! it.

use vstd::prelude::*;

use crate::text::{concat2, concat3, decimal, frames, number_text, texts};
use crate::tools::{client_tool_lines, list_client_tools, ShownTool};

verus! {

/// How often the first connection is tried.
pub const MAX_INITIAL_RETRIES: u32 = 3;

/// The wait before the second try, in seconds.
pub const INITIAL_BACKOFF_SECS: u64 = 2;

/// The longest wait between two tries of the first connection, in seconds.
pub const MAX_INITIAL_BACKOFF_SECS: u64 = 4;

/// How long one try may take, in seconds.
pub const CONNECT_TIMEOUT_SECS: u64 = 15;

/// What came of a try.
#[derive(Clone, Debug)]
pub enum ConnectOutcome {
    Connected,
    /// It failed, for this reason.
    Failed(String),
    TimedOut,
}

/// The message for a try that failed.
pub open spec fn connect_error(outcome: ConnectOutcome) -> Seq<char> {
    match outcome {
        ConnectOutcome::Connected => Seq::empty(),
        ConnectOutcome::Failed(reason) => "Backend connection failed: "@ + reason@,
        ConnectOutcome::TimedOut => "Backend connection timeout ("@ + decimal(
            CONNECT_TIMEOUT_SECS as nat,
        ) + "s)"@,
    }
}

/// The tries of the first connection.
#[derive(Clone, Copy, Debug, PartialEq, Eq, Structural)]
pub struct InitialConnect {
    /// The number of the current try, from one.
    attempt: u32,
    /// The wait after it.
    backoff_secs: u64,
}

/// What is done after a try.
#[derive(Clone, Debug)]
pub enum ConnectStep {
    /// The backend is connected.
    Done,
    /// Wait, and try again. The notice is shown to the user.
    Retry { next: InitialConnect, wait_secs: u64, notice: Option<String> },
    /// Give up with this message.
    GiveUp { message: String },
}

/// The line that is shown before another try.
pub open spec fn retry_notice(attempt: nat, wait_secs: nat) -> Seq<char> {
    "⚠️ Connection attempt "@ + decimal(attempt) + "/"@ + decimal(MAX_INITIAL_RETRIES as nat)
        + " failed, retrying in "@ + decimal(wait_secs) + "s..."@
}

/// The wait after a try of the first connection, in seconds.
pub open spec fn initial_wait(attempt: nat) -> nat {
    if attempt == 1 {
        INITIAL_BACKOFF_SECS as nat
    } else {
        MAX_INITIAL_BACKOFF_SECS as nat
    }
}

/// How far the first connection has come.
pub enum InitialState {
    /// The try of this number is under way.
    Trying(nat),
    /// The backend is connected.
    Connected,
    /// There are no more tries; this message says why the last one failed.
    GaveUp(Seq<char>),
}

impl InitialState {
    /// After one more try.
    pub open spec fn after(self, outcome: ConnectOutcome) -> InitialState {
        match self {
            InitialState::Trying(number) => if outcome is Connected {
                InitialState::Connected
            } else if number >= MAX_INITIAL_RETRIES {
                InitialState::GaveUp(connect_error(outcome))
            } else {
                InitialState::Trying(number + 1)
            },
            _ => self,
        }
    }
}

impl ConnectStep {
    /// How far the first connection has come with this step.
    pub open spec fn state(self) -> InitialState {
        match self {
            ConnectStep::Done => InitialState::Connected,
            ConnectStep::Retry { next, .. } => InitialState::Trying(next.number()),
            ConnectStep::GiveUp { message } => InitialState::GaveUp(message@),
        }
    }
}

impl InitialConnect {
    /// The number of the current try.
    pub closed spec fn number(self) -> nat {
        self.attempt as nat
    }

    #[verifier::type_invariant]
    spec fn wf(self) -> bool {
        &&& 1 <= self.attempt <= MAX_INITIAL_RETRIES
        &&& self.backoff_secs == initial_wait(self.attempt as nat)
    }

    /// The first try.
    pub fn first() -> (r: Self)
        ensures
            r.number() == 1,
    {
        InitialConnect { attempt: 1, backoff_secs: INITIAL_BACKOFF_SECS }
    }

    /// What is done after a try.
    pub fn after(self, outcome: &ConnectOutcome, quiet: bool) -> (r: ConnectStep)
        ensures
            r.state() == InitialState::Trying(self.number()).after(*outcome),
            match r {
                ConnectStep::Retry { wait_secs, notice, .. } => {
                    &&& wait_secs == initial_wait(self.number())
                    &&& notice is Some == !quiet
                    &&& notice is Some ==> notice->0@ == retry_notice(
                        self.number(),
                        wait_secs as nat,
                    )
                },
                _ => true,
            },
    {
        proof {
            use_type_invariant(self);
        }
        let message: String = match outcome {
            ConnectOutcome::Connected => {
                return ConnectStep::Done;
            },
            ConnectOutcome::Failed(reason) => concat2(
                "Backend connection failed: ",
                reason.as_str(),
            ),
            ConnectOutcome::TimedOut => concat3(
                "Backend connection timeout (",
                number_text(CONNECT_TIMEOUT_SECS).as_str(),
                "s)",
            ),
        };
        if self.attempt >= MAX_INITIAL_RETRIES {
            return ConnectStep::GiveUp { message };
        }
        let wait_secs: u64 = self.backoff_secs;
        let doubled: u64 = wait_secs * 2;
        let next_backoff: u64 = if doubled <= MAX_INITIAL_BACKOFF_SECS {
            doubled
        } else {
            MAX_INITIAL_BACKOFF_SECS
        };
        let notice: Option<String> = if quiet {
            None
        } else {
            let mut n: String = "⚠️ Connection attempt ".to_owned();
            n.append(number_text(self.attempt as u64).as_str());
            n.append("/");
            n.append(number_text(MAX_INITIAL_RETRIES as u64).as_str());
            n.append(" failed, retrying in ");
            n.append(number_text(wait_secs).as_str());
            n.append("s...");
            Some(n)
        };
        ConnectStep::Retry {
            next: InitialConnect { attempt: self.attempt + 1, backoff_secs: next_backoff },
            wait_secs,
            notice,
        }
    }
}

/// How far the first connection has come after some tries.
pub open spec fn initial_run(outcomes: Seq<ConnectOutcome>) -> InitialState
    decreases outcomes.len(),
{
    if outcomes.len() == 0 {
        InitialState::Trying(1)
    } else {
        initial_run(outcomes.drop_last()).after(outcomes.last())
    }
}

/// The first connection is tried three times: after that it is given up, with
/// the reason of the last try. It is not tried again once it is connected.
pub proof fn first_connection_is_tried_three_times(outcomes: Seq<ConnectOutcome>)
    ensures
        match initial_run(outcomes) {
            InitialState::Trying(number) => {
                &&& number == outcomes.len() + 1 <= MAX_INITIAL_RETRIES
                &&& forall|i: int| 0 <= i < outcomes.len() ==> !(#[trigger] outcomes[i] is Connected)
            },
            InitialState::Connected => exists|i: int|
                0 <= i < outcomes.len() && i < MAX_INITIAL_RETRIES && (
                #[trigger] outcomes[i]) is Connected,
            InitialState::GaveUp(message) => {
                &&& outcomes.len() >= MAX_INITIAL_RETRIES
                &&& message == connect_error(outcomes[MAX_INITIAL_RETRIES - 1])
                &&& forall|i: int|
                    0 <= i < MAX_INITIAL_RETRIES ==> !(#[trigger] outcomes[i] is Connected)
            },
        },
    decreases outcomes.len(),
{
    if outcomes.len() > 0 {
        let before = outcomes.drop_last();
        first_connection_is_tried_three_times(before);
        assert(forall|i: int| 0 <= i < before.len() ==> before[i] == #[trigger] outcomes[i]);
        assert(outcomes.last() == outcomes[outcomes.len() - 1]);
        if initial_run(before) is Connected {
            let i = choose|i: int|
                0 <= i < before.len() && i < MAX_INITIAL_RETRIES && (
                #[trigger] before[i]) is Connected;
            assert(outcomes[i] is Connected);
        }
    }
}

/// The lines on the tools of a backend, or on why they could not be listed.
pub open spec fn tool_report(tools: Result<Vec<ShownTool>, String>) -> Seq<Seq<char>> {
    match tools {
        Ok(list) => client_tool_lines(list@),
        Err(reason) => seq!["⚠️  Failed to list tools: "@ + reason@],
    }
}

/// The lines on the tools of a backend, or on why they could not be listed.
pub fn print_sse_tools(tools: &Result<Vec<ShownTool>, String>) -> (r: Vec<String>)
    ensures
        texts(r@) == tool_report(*tools),
{
    match tools {
        Ok(list) => list_client_tools(list),
        Err(reason) => {
            let line: String = concat2("⚠️  Failed to list tools: ", reason.as_str());
            let mut r: Vec<String> = Vec::new();
            r.push(line);
            assert(texts(r@) =~= seq![line@]);
            r
        },
    }
}

/// The line on the pings by which a connection is watched.
pub open spec fn ping_line(interval: u64, timeout: u64) -> Seq<char> {
    "💓 Health ping: every "@ + decimal(interval as nat) + "s (timeout "@ + decimal(timeout as nat)
        + "s)"@
}

/// The lines that a user sees when the backend is connected.
pub open spec fn connected_report(
    tools: Result<Vec<ShownTool>, String>,
    ping_interval: u64,
    ping_timeout: u64,
) -> Seq<Seq<char>> {
    let lines = seq!["✅ Backend connected successfully"@] + tool_report(tools);
    if ping_interval > 0 {
        lines.push(ping_line(ping_interval, ping_timeout))
    } else {
        lines
    }
}

/// The lines that a user sees when the backend is connected.
pub fn connected_lines(
    tools: &Result<Vec<ShownTool>, String>,
    ping_interval: u64,
    ping_timeout: u64,
) -> (r: Vec<String>)
    ensures
        texts(r@) == connected_report(*tools, ping_interval, ping_timeout),
{
    let mut r: Vec<String> = Vec::new();
    r.push("✅ Backend connected successfully".to_owned());
    let mut lines: Vec<String> = print_sse_tools(tools);
    let ghost first = texts(r@);
    let ghost more = texts(lines@);
    r.append(&mut lines);
    assert(texts(r@) =~= first + more);
    assert(first =~= seq!["✅ Backend connected successfully"@]);
    if ping_interval > 0 {
        let ghost before = texts(r@);
        let mut line: String = "💓 Health ping: every ".to_owned();
        line.append(number_text(ping_interval).as_str());
        line.append("s (timeout ");
        line.append(number_text(ping_timeout).as_str());
        line.append("s)");
        r.push(line);
        assert(texts(r@) =~= before.push(line@));
    }
    r
}

/// The wait after the first try is two seconds, and four after the second. The
/// line that is shown then gives the number of the try and of all tries, and the
/// wait.
pub proof fn waits_between_tries_double(wait_secs: nat, attempt: nat)
    ensures
        initial_wait(1) == 2,
        initial_wait(2) == 2 * initial_wait(1),
        frames(
            retry_notice(attempt, wait_secs),
            "⚠️ Connection attempt "@,
            decimal(attempt),
            "/"@ + decimal(3) + " failed, retrying in "@ + decimal(wait_secs) + "s..."@,
        ),
{
}

/// After three tries that failed the first connection is given up, with the whole
/// reason of the last one; it is tried again after the first and the second; and
/// a try that connects is the last.
pub proof fn third_failure_is_final(number: nat, outcome: ConnectOutcome)
    ensures
        ({
            let next = InitialState::Trying(number).after(outcome);
            &&& outcome is Connected ==> next is Connected
            &&& outcome !is Connected && number < 3 ==> next == InitialState::Trying(number + 1)
            &&& outcome !is Connected && number >= 3 ==> next is GaveUp
            &&& outcome is Failed && number >= 3 ==> frames(
                next->GaveUp_0,
                "Backend connection failed: "@,
                outcome->Failed_0@,
                Seq::empty(),
            )
            &&& outcome is TimedOut && number >= 3 ==> frames(
                next->GaveUp_0,
                "Backend connection timeout ("@,
                decimal(15),
                "s)"@,
            )
        }),
{
}

/// Nothing changes a first connection that has been made or given up.
pub proof fn ended_connection_stays_ended(state: InitialState, outcome: ConnectOutcome)
    requires
        !(state is Trying),
    ensures
        state.after(outcome) == state,
{
}

/// What is shown when the backend is connected: that it is, a line for each of its
/// tools or the whole reason why they could not be listed, and how it is watched
/// where it is.
pub proof fn connection_is_reported_in_full(
    tools: Result<Vec<ShownTool>, String>,
    ping_interval: u64,
    ping_timeout: u64,
)
    ensures
        ({
            let lines = connected_report(tools, ping_interval, ping_timeout);
            let of_tools = match tools {
                Ok(list) => client_tool_lines(list@).len(),
                Err(_) => 1,
            };
            &&& lines.len() == 1 + of_tools + if ping_interval > 0 {
                1nat
            } else {
                0nat
            }
            &&& lines[0] == "✅ Backend connected successfully"@
            &&& tools is Ok ==> lines.subrange(1, 1 + of_tools as int) == client_tool_lines(
                tools->Ok_0@,
            )
            &&& tools is Err ==> frames(
                lines[1],
                "⚠️  Failed to list tools: "@,
                tools->Err_0@,
                Seq::empty(),
            )
            &&& ping_interval > 0 ==> frames(
                lines.last(),
                "💓 Health ping: every "@,
                decimal(ping_interval as nat),
                "s (timeout "@ + decimal(ping_timeout as nat) + "s)"@,
            )
        }),
{
    let lines = connected_report(tools, ping_interval, ping_timeout);
    if tools is Ok {
        let of_tools = client_tool_lines(tools->Ok_0@);
        assert(lines.subrange(1, 1 + of_tools.len() as int) =~= of_tools);
    }
}

/// The first connection makes the tries of a run: each outcome brings it to where
/// the run is, with a wait of two seconds after the first try and of four after
/// the second, and with a line for a user who wants to see it.
pub proof fn first_connection_makes_the_tries_of_a_run(
    state: InitialConnect,
    outcomes: Seq<ConnectOutcome>,
    outcome: &ConnectOutcome,
    quiet: bool,
    first: InitialConnect,
    r: ConnectStep,
)
    requires
        initial_run(outcomes) == InitialState::Trying(state.number()),
        call_ensures(InitialConnect::first, (), first),
        call_ensures(InitialConnect::after, (state, outcome, quiet), r),
    ensures
        initial_run(Seq::empty()) == InitialState::Trying(first.number()),
        r.state() == initial_run(outcomes.push(*outcome)),
        r is Done <==> *outcome is Connected,
        r is Retry ==> {
            &&& r->next.number() == state.number() + 1
            &&& r->wait_secs == 2 * state.number()
            &&& r->notice is Some <==> !quiet
            &&& !quiet ==> frames(
                r->notice->0@,
                "⚠️ Connection attempt "@,
                decimal(state.number()),
                "/"@ + decimal(3) + " failed, retrying in "@ + decimal(r->wait_secs as nat)
                    + "s..."@,
            )
        },
        r is GiveUp && *outcome is Failed ==> frames(
            r->message@,
            "Backend connection failed: "@,
            outcome->Failed_0@,
            Seq::empty(),
        ),
{
    assert(outcomes.push(*outcome).drop_last() =~= outcomes);
    first_connection_is_tried_three_times(outcomes);
    waits_between_tries_double(r->wait_secs as nat, state.number());
}

/// The lines on a connection are those of its report.
pub proof fn connected_lines_are_those_of_the_report(
    tools: &Result<Vec<ShownTool>, String>,
    ping_interval: u64,
    ping_timeout: u64,
    r: Vec<String>,
)
    requires
        call_ensures(connected_lines, (tools, ping_interval, ping_timeout), r),
    ensures
        r@.len() > 0 && r@[0]@ == "✅ Backend connected successfully"@,
        *tools is Ok ==> r@.len() == 1 + client_tool_lines(tools->Ok_0@).len() + if ping_interval
            > 0 {
            1nat
        } else {
            0nat
        },
        *tools is Err ==> frames(
            r@[1]@,
            "⚠️  Failed to list tools: "@,
            tools->Err_0@,
            Seq::empty(),
        ),
        ping_interval > 0 ==> frames(
            r@.last()@,
            "💓 Health ping: every "@,
            decimal(ping_interval as nat),
            "s (timeout "@ + decimal(ping_timeout as nat) + "s)"@,
        ),
{
    connection_is_reported_in_full(*tools, ping_interval, ping_timeout);
    assert(texts(r@).len() == r@.len());
    assert(texts(r@)[0] == r@[0]@);
    assert(texts(r@)[r@.len() - 1] == r@[r@.len() - 1]@);
    if *tools is Err {
        assert(texts(r@)[1] == r@[1]@);
    }
}

} // verus!
