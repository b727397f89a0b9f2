//! Sessions that end when the backend reconnects.
//!
//! Each session is tied to the version of the backend connection under which it
//! was created. When the backend has reconnected, the sessions from before are
//! not found any more, and their clients create new ones.

use dashmap::DashMap;
use vstd::prelude::*;

use crate::time::{Duration, NANOS_PER_SEC};

verus! {

/// A concurrent hash map.
#[verifier::external_type_specification]
#[verifier::external_body]
#[verifier::reject_recursive_types(K)]
#[verifier::reject_recursive_types(V)]
#[verifier::reject_recursive_types(S)]
pub struct ExDashMap<K, V, S>(DashMap<K, V, S>);

/// The entries of a map from sessions to versions.
pub uninterp spec fn session_entries(m: DashMap<String, u64>) -> Map<Seq<char>, u64>;

/// [`DashMap::new`]: a map without entries.
#[verifier::external_body]
fn new_versions() -> (r: DashMap<String, u64>)
    ensures
        session_entries(r).dom() == Set::<Seq<char>>::empty(),
{
    DashMap::new()
}

/// [`DashMap::insert`]: the key has the value from now on; the other entries
/// stay.
#[verifier::external_body]
fn insert_version(m: &mut DashMap<String, u64>, key: String, value: u64)
    ensures
        session_entries(*final(m)) == session_entries(*old(m)).insert(key@, value),
{
    m.insert(key, value);
}

/// [`DashMap::remove`]: the key has no value from now on; the other entries
/// stay.
#[verifier::external_body]
fn remove_version(m: &mut DashMap<String, u64>, key: &str)
    ensures
        session_entries(*final(m)) == session_entries(*old(m)).remove(key@),
{
    m.remove(key);
}

/// [`DashMap::get`]: the value of the key, where it has one.
#[verifier::external_body]
fn get_version(m: &DashMap<String, u64>, key: &str) -> (r: Option<u64>)
    ensures
        match r {
            Some(value) => session_entries(*m).contains_key(key@) && value == session_entries(
                *m,
            )[key@],
            None => !session_entries(*m).contains_key(key@),
        },
{
    match m.get(key) {
        Some(value) => Some(*value),
        None => None,
    }
}

/// The backend connection at some moment.
#[derive(Clone, Copy, Debug, PartialEq, Eq, Structural)]
pub struct BackendState {
    /// A request can be sent to it.
    pub available: bool,
    /// Goes up with every reconnect.
    pub version: u64,
}

/// What is done with a request in a session.
#[derive(Clone, Copy, Debug, PartialEq, Eq, Structural)]
pub enum Verdict {
    /// It goes on to the session.
    Forward,
    /// The client is told that there is no such session.
    NotFound,
    /// The session is closed, and the client is told that there is none.
    CloseAndNotFound,
}

/// The session was created under the version that the backend has now, or it
/// is not known when it was created.
pub open spec fn is_current(versions: Map<Seq<char>, u64>, id: Seq<char>, version: u64) -> bool {
    versions.contains_key(id) ==> versions[id] == version
}

/// What is done with a request that needs the backend.
pub open spec fn verdict(
    versions: Map<Seq<char>, u64>,
    id: Seq<char>,
    backend: BackendState,
) -> Verdict {
    if backend.available && is_current(versions, id, backend.version) {
        Verdict::Forward
    } else {
        Verdict::NotFound
    }
}

/// What is done with a request to resume a session. One from before a reconnect
/// is closed.
pub open spec fn resume_verdict(
    versions: Map<Seq<char>, u64>,
    id: Seq<char>,
    backend: BackendState,
) -> Verdict {
    if !is_current(versions, id, backend.version) {
        Verdict::CloseAndNotFound
    } else if backend.available {
        Verdict::Forward
    } else {
        Verdict::NotFound
    }
}

/// The sessions after a request to resume one.
pub open spec fn after_resume(
    versions: Map<Seq<char>, u64>,
    id: Seq<char>,
    backend: BackendState,
) -> Map<Seq<char>, u64> {
    if is_current(versions, id, backend.version) {
        versions
    } else {
        versions.remove(id)
    }
}

/// Which sessions there are, and under which version of the backend connection
/// each was created.
pub struct ProxyAwareSessionManager {
    keep_alive: Duration,
    session_versions: DashMap<String, u64>,
}

impl ProxyAwareSessionManager {
    /// How long a session is kept without a message, in seconds.
    pub const DEFAULT_SESSION_KEEP_ALIVE_SECS: u64 = 30 * 60;

    /// The sessions and their versions.
    pub closed spec fn versions(self) -> Map<Seq<char>, u64> {
        session_entries(self.session_versions)
    }

    /// How long a session is kept without a message.
    pub closed spec fn idle_limit(self) -> Duration {
        self.keep_alive
    }

    /// A manager that keeps sessions for half an hour.
    pub fn new() -> (r: Self)
        ensures
            r.versions() == Map::<Seq<char>, u64>::empty(),
            r.idle_limit()@ == 30 * 60 * NANOS_PER_SEC,
    {
        Self::with_keep_alive(Duration::from_secs(Self::DEFAULT_SESSION_KEEP_ALIVE_SECS))
    }

    /// A manager that keeps sessions for `keep_alive`.
    pub fn with_keep_alive(keep_alive: Duration) -> (r: Self)
        ensures
            r.versions() == Map::<Seq<char>, u64>::empty(),
            r.idle_limit() == keep_alive,
    {
        let r = ProxyAwareSessionManager { keep_alive, session_versions: new_versions() };
        assert(r.versions() =~= Map::<Seq<char>, u64>::empty());
        r
    }

    /// How long a session is kept without a message.
    pub fn keep_alive(&self) -> (r: Duration)
        ensures
            r == self.idle_limit(),
    {
        self.keep_alive
    }

    /// Whether the session was created under the version that the backend has
    /// now, or is not known.
    pub fn check_backend_version(&self, session_id: &str, current_version: u64) -> (r: bool)
        ensures
            r == is_current(self.versions(), session_id@, current_version),
    {
        match get_version(&self.session_versions, session_id) {
            Some(version) => version == current_version,
            None => true,
        }
    }

    /// Notes that a session has been created.
    pub fn create_session(&mut self, session_id: String, current_version: u64)
        ensures
            final(self).versions() == old(self).versions().insert(session_id@, current_version),
            final(self).idle_limit() == old(self).idle_limit(),
    {
        insert_version(&mut self.session_versions, session_id, current_version);
    }

    /// What is done with the first message of a session.
    pub fn initialize_session(&self, id: &str, backend: BackendState) -> (r: Verdict)
        ensures
            r == verdict(self.versions(), id@, backend),
    {
        if backend.available && self.check_backend_version(id, backend.version) {
            Verdict::Forward
        } else {
            Verdict::NotFound
        }
    }

    /// What is done with the question whether there is a session. It is not
    /// there where it is from before a reconnect; else the session store
    /// knows.
    pub fn has_session(&self, id: &str, current_version: u64) -> (r: Verdict)
        ensures
            r == (if is_current(self.versions(), id@, current_version) {
                Verdict::Forward
            } else {
                Verdict::NotFound
            }),
    {
        if self.check_backend_version(id, current_version) {
            Verdict::Forward
        } else {
            Verdict::NotFound
        }
    }

    /// Notes that a session is being closed.
    pub fn close_session(&mut self, id: &str)
        ensures
            final(self).versions() == old(self).versions().remove(id@),
            final(self).idle_limit() == old(self).idle_limit(),
    {
        remove_version(&mut self.session_versions, id);
    }

    /// What is done with a request that is answered by a stream.
    pub fn create_stream(&self, id: &str, backend: BackendState) -> (r: Verdict)
        ensures
            r == verdict(self.versions(), id@, backend),
    {
        if backend.available && self.check_backend_version(id, backend.version) {
            Verdict::Forward
        } else {
            Verdict::NotFound
        }
    }

    /// What is done with a message that is not answered.
    pub fn accept_message(&self, id: &str, backend: BackendState) -> (r: Verdict)
        ensures
            r == verdict(self.versions(), id@, backend),
    {
        if backend.available && self.check_backend_version(id, backend.version) {
            Verdict::Forward
        } else {
            Verdict::NotFound
        }
    }

    /// What is done with a request for a stream of its own. It needs no backend.
    pub fn create_standalone_stream(&self) -> (r: Verdict)
        ensures
            r == Verdict::Forward,
    {
        Verdict::Forward
    }

    /// What is done with a request to resume a session. One from before a
    /// reconnect is forgotten.
    pub fn resume(&mut self, id: &str, backend: BackendState) -> (r: Verdict)
        ensures
            r == resume_verdict(old(self).versions(), id@, backend),
            final(self).versions() == after_resume(old(self).versions(), id@, backend),
            final(self).idle_limit() == old(self).idle_limit(),
    {
        if !self.check_backend_version(id, backend.version) {
            remove_version(&mut self.session_versions, id);
            return Verdict::CloseAndNotFound;
        }
        if backend.available {
            Verdict::Forward
        } else {
            Verdict::NotFound
        }
    }
}

/// A session that was created under one version is served under that version,
/// while the backend is available, and under no other.
pub proof fn sessions_live_until_the_backend_reconnects(
    versions: Map<Seq<char>, u64>,
    id: Seq<char>,
    created_under: u64,
    backend: BackendState,
)
    ensures
        ({
            let created = versions.insert(id, created_under);
            let served = backend.available && backend.version == created_under;
            &&& verdict(created, id, backend) == Verdict::Forward <==> served
            &&& resume_verdict(created, id, backend) == Verdict::Forward <==> served
            &&& is_current(created, id, backend.version) <==> backend.version == created_under
        }),
{
}

/// A session from before a reconnect is closed when a client resumes it, and is
/// not known afterwards.
pub proof fn resuming_an_old_session_forgets_it(
    versions: Map<Seq<char>, u64>,
    id: Seq<char>,
    backend: BackendState,
)
    requires
        versions.contains_key(id),
        versions[id] != backend.version,
    ensures
        resume_verdict(versions, id, backend) == Verdict::CloseAndNotFound,
        !after_resume(versions, id, backend).contains_key(id),
{
}

/// Creating, resuming or closing a session leaves the others alone.
pub proof fn sessions_are_independent(
    versions: Map<Seq<char>, u64>,
    id: Seq<char>,
    other: Seq<char>,
    version: u64,
    backend: BackendState,
)
    requires
        id != other,
    ensures
        verdict(versions.insert(other, version), id, backend) == verdict(versions, id, backend),
        verdict(versions.remove(other), id, backend) == verdict(versions, id, backend),
        verdict(after_resume(versions, other, backend), id, backend) == verdict(
            versions,
            id,
            backend,
        ),
{
}

/// Without a backend no request is served.
pub proof fn nothing_is_served_without_a_backend(
    versions: Map<Seq<char>, u64>,
    id: Seq<char>,
    version: u64,
)
    ensures
        ({
            let backend = BackendState { available: false, version };
            &&& verdict(versions, id, backend) == Verdict::NotFound
            &&& resume_verdict(versions, id, backend) != Verdict::Forward
        }),
{
}

/// A request is served exactly where the backend can be reached and has not
/// reconnected since the session was created. A session of which nothing is known
/// counts as a current one. Resuming closes a session exactly where the backend
/// has reconnected since, and leaves every other one as it is.
pub proof fn reconnects_decide_what_is_served(
    versions: Map<Seq<char>, u64>,
    id: Seq<char>,
    backend: BackendState,
)
    ensures
        ({
            let outdated = versions.contains_key(id) && versions[id] != backend.version;
            &&& is_current(versions, id, backend.version) <==> !outdated
            &&& outdated || !backend.available ==> verdict(versions, id, backend)
                == Verdict::NotFound
            &&& !outdated && backend.available ==> verdict(versions, id, backend)
                == Verdict::Forward && resume_verdict(versions, id, backend) == Verdict::Forward
            &&& outdated ==> resume_verdict(versions, id, backend) == Verdict::CloseAndNotFound
            &&& !outdated && !backend.available ==> resume_verdict(versions, id, backend)
                == Verdict::NotFound
            &&& !outdated ==> after_resume(versions, id, backend) == versions
            &&& outdated ==> !after_resume(versions, id, backend).contains_key(id)
        }),
{
}

/// Resuming a session never changes what is known of another.
pub proof fn resuming_leaves_the_others_alone(
    versions: Map<Seq<char>, u64>,
    id: Seq<char>,
    other: Seq<char>,
    backend: BackendState,
)
    requires
        id != other,
    ensures
        after_resume(versions, id, backend).contains_key(other) <==> versions.contains_key(other),
        versions.contains_key(other) ==> after_resume(versions, id, backend)[other]
            == versions[other],
{
}

/// A session is looked at alike whatever it is asked for: it is served where the
/// backend can be reached and has not reconnected since. Whether it is there is
/// answered without the backend, and a stream of its own is always served.
pub proof fn every_request_is_treated_alike(
    manager: &ProxyAwareSessionManager,
    id: &str,
    backend: BackendState,
    current: bool,
    there: Verdict,
    first: Verdict,
    stream: Verdict,
    message: Verdict,
    standalone: Verdict,
)
    requires
        call_ensures(
            ProxyAwareSessionManager::check_backend_version,
            (manager, id, backend.version),
            current,
        ),
        call_ensures(
            ProxyAwareSessionManager::has_session,
            (manager, id, backend.version),
            there,
        ),
        call_ensures(ProxyAwareSessionManager::initialize_session, (manager, id, backend), first),
        call_ensures(ProxyAwareSessionManager::create_stream, (manager, id, backend), stream),
        call_ensures(ProxyAwareSessionManager::accept_message, (manager, id, backend), message),
        call_ensures(ProxyAwareSessionManager::create_standalone_stream, (manager,), standalone),
    ensures
        ({
            let outdated = manager.versions().contains_key(id@) && manager.versions()[id@]
                != backend.version;
            let served = if backend.available && !outdated {
                Verdict::Forward
            } else {
                Verdict::NotFound
            };
            &&& current <==> !outdated
            &&& there == if outdated {
                Verdict::NotFound
            } else {
                Verdict::Forward
            }
            &&& first == served
            &&& stream == served
            &&& message == served
            &&& standalone == Verdict::Forward
        }),
{
}

/// What is known of a session is the same before and after.
pub open spec fn is_left_alone(
    before: ProxyAwareSessionManager,
    after: ProxyAwareSessionManager,
    id: Seq<char>,
) -> bool {
    &&& after.versions().contains_key(id) <==> before.versions().contains_key(id)
    &&& before.versions().contains_key(id) ==> after.versions()[id] == before.versions()[id]
}

/// A session that is created is known under the version that the backend has
/// then, and every other session is left alone.
pub proof fn created_session_is_known(id: String, version: u64, other: Seq<char>)
    ensures
        forall|m: &mut ProxyAwareSessionManager|
            #![trigger call_ensures(ProxyAwareSessionManager::create_session, (m, id, version), ())]
            call_ensures(ProxyAwareSessionManager::create_session, (m, id, version), ()) ==> {
                &&& final(m).versions().contains_key(id@)
                &&& final(m).versions()[id@] == version
                &&& other != id@ ==> is_left_alone(*m, *final(m), other)
                &&& final(m).idle_limit() == (*m).idle_limit()
            },
{
}

/// A session that is closed is not known any more, and every other session is
/// left alone.
pub proof fn closed_session_is_forgotten(id: &str, other: Seq<char>)
    ensures
        forall|m: &mut ProxyAwareSessionManager|
            #![trigger call_ensures(ProxyAwareSessionManager::close_session, (m, id), ())]
            call_ensures(ProxyAwareSessionManager::close_session, (m, id), ()) ==> {
                &&& !final(m).versions().contains_key(id@)
                &&& other != id@ ==> is_left_alone(*m, *final(m), other)
                &&& final(m).idle_limit() == (*m).idle_limit()
            },
{
}

/// A client that resumes a session from before a reconnect is told that there is
/// none, and the session is forgotten. Any other session is left alone, and served
/// where the backend can be reached.
pub proof fn resumed_session_is_served_or_forgotten(
    id: &str,
    backend: BackendState,
    r: Verdict,
    other: Seq<char>,
)
    ensures
        forall|m: &mut ProxyAwareSessionManager|
            #![trigger call_ensures(ProxyAwareSessionManager::resume, (m, id, backend), r)]
            call_ensures(ProxyAwareSessionManager::resume, (m, id, backend), r) ==> {
                let outdated = (*m).versions().contains_key(id@) && (*m).versions()[id@]
                    != backend.version;
                &&& r == Verdict::CloseAndNotFound <==> outdated
                &&& r == Verdict::Forward <==> !outdated && backend.available
                &&& outdated ==> !final(m).versions().contains_key(id@)
                &&& !outdated ==> is_left_alone(*m, *final(m), id@)
                &&& other != id@ ==> is_left_alone(*m, *final(m), other)
                &&& final(m).idle_limit() == (*m).idle_limit()
            },
{
}

/// A new manager knows no session. It keeps sessions for half an hour, or for as
/// long as it is told.
pub proof fn new_manager_knows_no_session(
    usual: ProxyAwareSessionManager,
    keep_alive: Duration,
    told: ProxyAwareSessionManager,
    id: Seq<char>,
)
    requires
        call_ensures(ProxyAwareSessionManager::new, (), usual),
        call_ensures(ProxyAwareSessionManager::with_keep_alive, (keep_alive,), told),
    ensures
        !usual.versions().contains_key(id),
        !told.versions().contains_key(id),
        usual.idle_limit()@ == 1_800_000_000_000,
        told.idle_limit() == keep_alive,
{
}

} // verus!
