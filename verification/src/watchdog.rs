//! The watchdog of a client for server-sent events: it watches the connection to
//! the backend, and makes it again whenever it is lost.
//!
//! The watchdog decides; its caller acts. It takes the events of the connection
//! one by one, and answers each with what is shown to the user and with the next
//! action.

use vstd::prelude::*;

use crate::backoff::least;
use crate::text::{concat2, concat3, decimal, number_text};

verus! {

/// The longest wait between two attempts to reconnect, in seconds.
pub const MAX_BACKOFF_SECS: u64 = 30;

/// What is known of an attempt to reconnect that failed.
#[derive(Clone, Debug)]
pub struct Failure {
    /// The kind of error.
    pub kind: String,
    /// The error in short.
    pub summary: String,
    /// The error in full.
    pub detail: String,
}

/// The texts of a failure.
pub struct FailureView {
    pub kind: Seq<char>,
    pub summary: Seq<char>,
    pub detail: Seq<char>,
}

impl View for Failure {
    type V = FailureView;

    open spec fn view(&self) -> FailureView {
        FailureView { kind: self.kind@, summary: self.summary@, detail: self.detail@ }
    }
}

/// What is told of a connection for diagnosis.
#[derive(Clone, Debug)]
pub struct Diagnostic {
    /// How long the connection lived, in seconds.
    pub alive_secs: u64,
    /// Why it ended.
    pub reason: String,
    /// The kind of error, where one ended the attempts.
    pub error_kind: Option<String>,
}

/// The texts of a diagnosis.
pub struct DiagnosticView {
    pub alive_secs: u64,
    pub reason: Seq<char>,
    pub error_kind: Option<Seq<char>>,
}

impl View for Diagnostic {
    type V = DiagnosticView;

    open spec fn view(&self) -> DiagnosticView {
        DiagnosticView {
            alive_secs: self.alive_secs,
            reason: self.reason@,
            error_kind: match self.error_kind {
                Some(kind) => Some(kind@),
                None => None,
            },
        }
    }
}

/// What the user is told.
#[derive(Clone, Debug)]
pub enum Notice {
    /// A line.
    Line(String),
    /// A report for diagnosis.
    Report(Diagnostic),
}

/// The texts of a notice.
pub enum NoticeView {
    Line(Seq<char>),
    Report(DiagnosticView),
}

impl View for Notice {
    type V = NoticeView;

    open spec fn view(&self) -> NoticeView {
        match self {
            Notice::Line(line) => NoticeView::Line(line@),
            Notice::Report(report) => NoticeView::Report(report@),
        }
    }
}

/// The texts of a list of notices.
pub open spec fn notices(list: Seq<Notice>) -> Seq<NoticeView> {
    list.map_values(|n: Notice| n@)
}

/// How the watchdog treats its user, and how often it tries.
#[derive(Clone, Copy, Debug, PartialEq, Eq, Structural)]
pub struct WatchdogOptions {
    /// How many attempts there are; none is no limit.
    pub max_retries: u32,
    pub verbose: bool,
    pub quiet: bool,
}

/// What has happened to the connection.
#[derive(Clone, Debug)]
pub enum WatchEvent {
    /// It was lost, for this reason.
    Lost { reason: String },
    /// The handler has been told that it has no backend; the connection had lived
    /// for so many seconds.
    Disconnected { alive_secs: u64 },
    /// An attempt has connected.
    Connected,
    /// The handler has been given the new connection.
    Installed,
    /// An attempt has failed.
    Failed(Failure),
    /// The wait is over.
    Waited,
}

/// What has happened to the connection, with the texts that go with it.
pub enum WatchEventView {
    Lost { reason: Seq<char> },
    Disconnected { alive_secs: u64 },
    Connected,
    Installed,
    Failed(FailureView),
    Waited,
}

impl View for WatchEvent {
    type V = WatchEventView;

    open spec fn view(&self) -> WatchEventView {
        match self {
            WatchEvent::Lost { reason } => WatchEventView::Lost { reason: reason@ },
            WatchEvent::Disconnected { alive_secs } => WatchEventView::Disconnected {
                alive_secs: *alive_secs,
            },
            WatchEvent::Connected => WatchEventView::Connected,
            WatchEvent::Installed => WatchEventView::Installed,
            WatchEvent::Failed(failure) => WatchEventView::Failed(failure@),
            WatchEvent::Waited => WatchEventView::Waited,
        }
    }
}

/// What is to be done next.
#[derive(Clone, Copy, Debug, PartialEq, Eq, Structural)]
pub enum WatchAction {
    /// Watch the connection until it is lost.
    Monitor,
    /// Tell the handler that it has no backend.
    MarkDisconnected,
    /// Try to connect.
    Connect,
    /// Give the handler the new connection.
    Install,
    /// Wait.
    Sleep { secs: u64 },
    /// Give up.
    Stop,
}

/// What the user is told, and what is done after that.
#[derive(Clone, Debug)]
pub struct WatchStep {
    pub said: Vec<Notice>,
    pub action: WatchAction,
}

/// The texts of a step.
pub struct WatchStepView {
    pub said: Seq<NoticeView>,
    pub action: WatchAction,
}

impl View for WatchStep {
    type V = WatchStepView;

    open spec fn view(&self) -> WatchStepView {
        WatchStepView { said: notices(self.said@), action: self.action }
    }
}

/// What the watchdog waits for.
enum Phase {
    Monitoring { first: bool },
    Marking { first: bool, reason: String },
    Connecting,
    Installing,
    Waiting,
    Stopped,
}

/// What the watchdog waits for.
pub enum PhaseView {
    /// That the connection is lost. The first is the one that it was given.
    Monitoring { first: bool },
    /// That the handler knows of the loss.
    Marking { first: bool, reason: Seq<char> },
    /// How an attempt ends.
    Connecting,
    /// That the handler has the new connection.
    Installing,
    /// That the wait is over.
    Waiting,
    /// Nothing: it has given up.
    Stopped,
}

impl Phase {
    spec fn shape(self) -> PhaseView {
        match self {
            Phase::Monitoring { first } => PhaseView::Monitoring { first },
            Phase::Marking { first, reason } => PhaseView::Marking { first, reason: reason@ },
            Phase::Connecting => PhaseView::Connecting,
            Phase::Installing => PhaseView::Installing,
            Phase::Waiting => PhaseView::Waiting,
            Phase::Stopped => PhaseView::Stopped,
        }
    }
}

/// Reconnects a client whenever its connection is lost.
pub struct Watchdog {
    options: WatchdogOptions,
    attempt: u32,
    backoff_secs: u64,
    phase: Phase,
}

/// How far a watchdog has come.
pub struct WatchdogView {
    pub options: WatchdogOptions,
    /// The attempts so far.
    pub attempt: nat,
    /// The next wait, in seconds.
    pub backoff_secs: nat,
    pub phase: PhaseView,
}

impl View for Watchdog {
    type V = WatchdogView;

    closed spec fn view(&self) -> WatchdogView {
        WatchdogView {
            options: self.options,
            attempt: self.attempt as nat,
            backoff_secs: self.backoff_secs as nat,
            phase: self.phase.shape(),
        }
    }
}

/// The watchdog gives up when the attempt of this number fails.
pub open spec fn is_last(attempt: nat, max_retries: u32) -> bool {
    max_retries > 0 && attempt >= max_retries
}

/// The line on an attempt that begins.
pub open spec fn attempt_line(attempt: nat) -> Seq<char> {
    "🔗 Reconnecting (attempt #"@ + decimal(attempt) + ")..."@
}

/// The line on a connection that was lost.
pub open spec fn lost_line(reason: Seq<char>) -> Seq<char> {
    "⚠️ [EVENT_DISCONNECTED] Connection disconnected: "@ + reason
}

/// The line on a connection that was made again.
pub open spec fn reconnected_line() -> Seq<char> {
    "✅ [EVENT_RECONNECTED] Reconnected, proxy service resumed"@
}

/// The line on an attempt that failed.
pub open spec fn backoff_line(
    failure: FailureView,
    max_retries: u32,
    attempt: nat,
    backoff_secs: nat,
) -> Seq<char> {
    "⚠️ [EVENT_RETRY_BACKOFF] Connection failed ["@ + failure.kind + "]: "@ + failure.summary
        + "; retrying in "@ + decimal(backoff_secs) + if max_retries == 0 {
        "s (attempt #"@ + decimal(attempt) + ")..."@
    } else {
        "s ("@ + decimal(attempt) + "/"@ + decimal(max_retries as nat) + ")..."@
    }
}

/// Lines, for a user who wants to see them.
pub open spec fn shown(lines: Seq<Seq<char>>, options: WatchdogOptions) -> Seq<NoticeView> {
    if options.quiet {
        Seq::empty()
    } else {
        lines.map_values(|line: Seq<char>| NoticeView::Line(line))
    }
}

/// The lines on an attempt that failed and is followed by another.
pub open spec fn retry_lines(
    failure: FailureView,
    options: WatchdogOptions,
    attempt: nat,
    backoff_secs: nat,
) -> Seq<Seq<char>> {
    let line = backoff_line(failure, options.max_retries, attempt, backoff_secs);
    if options.verbose {
        seq![line, "   Full error: "@ + failure.detail]
    } else {
        seq![line]
    }
}

/// The lines when the watchdog gives up.
pub open spec fn gave_up_lines(failure: FailureView, max_retries: u32) -> Seq<Seq<char>> {
    seq![
        "❌ Connection failed, max retries reached ("@ + decimal(max_retries as nat) + ")"@,
        "   Error type: "@ + failure.kind,
        "   Error detail: "@ + failure.detail,
    ]
}

/// What is told of a connection that was lost.
pub open spec fn lost_report(alive_secs: u64, reason: Seq<char>) -> NoticeView {
    NoticeView::Report(DiagnosticView { alive_secs, reason, error_kind: None })
}

/// What is told when the watchdog gives up.
pub open spec fn gave_up_report(failure: FailureView) -> NoticeView {
    NoticeView::Report(
        DiagnosticView {
            alive_secs: 0,
            reason: "Connection failed: max retries reached"@,
            error_kind: Some(failure.kind),
        },
    )
}

impl WatchdogView {
    /// A watchdog that has been given a connection.
    pub open spec fn initial(options: WatchdogOptions) -> WatchdogView {
        WatchdogView {
            options,
            attempt: 0,
            backoff_secs: 1,
            phase: PhaseView::Monitoring { first: true },
        }
    }

    /// The event is one that the watchdog waits for.
    pub open spec fn awaits(self, event: WatchEventView) -> bool {
        match self.phase {
            PhaseView::Monitoring { .. } => event is Lost,
            PhaseView::Marking { .. } => event is Disconnected,
            PhaseView::Connecting => event is Connected || event is Failed,
            PhaseView::Installing => event is Installed,
            PhaseView::Waiting => event is Waited,
            PhaseView::Stopped => false,
        }
    }

    /// Begins an attempt, after it has said this.
    pub open spec fn connect(self, said: Seq<NoticeView>) -> (WatchdogView, WatchStepView) {
        (
            WatchdogView {
                attempt: self.attempt + 1,
                phase: PhaseView::Connecting,
                ..self
            },
            WatchStepView {
                said: said + shown(seq![attempt_line(self.attempt + 1)], self.options),
                action: WatchAction::Connect,
            },
        )
    }

    /// Waits, after it has said this. The wait after that is twice as long, up to
    /// a limit.
    pub open spec fn sleep(self, said: Seq<NoticeView>) -> (WatchdogView, WatchStepView) {
        (
            WatchdogView {
                backoff_secs: least(2 * self.backoff_secs, MAX_BACKOFF_SECS as nat),
                phase: PhaseView::Waiting,
                ..self
            },
            WatchStepView { said, action: WatchAction::Sleep { secs: self.backoff_secs as u64 } },
        )
    }

    /// What the watchdog becomes by an event that it waits for, and what it does.
    pub open spec fn next(self, event: WatchEventView) -> (WatchdogView, WatchStepView) {
        match event {
            WatchEventView::Lost { reason } => (
                WatchdogView {
                    phase: PhaseView::Marking { first: self.phase->Monitoring_first, reason },
                    ..self
                },
                WatchStepView { said: Seq::empty(), action: WatchAction::MarkDisconnected },
            ),
            WatchEventView::Disconnected { alive_secs } => {
                let reason = self.phase->reason;
                let said = shown(seq![lost_line(reason)], self.options).push(
                    lost_report(alive_secs, reason),
                );
                // The connection that was given is made again at once.
                if self.phase->Marking_first {
                    self.connect(said)
                } else {
                    self.sleep(said)
                }
            },
            WatchEventView::Connected => (
                WatchdogView { phase: PhaseView::Installing, ..self },
                WatchStepView { said: Seq::empty(), action: WatchAction::Install },
            ),
            WatchEventView::Installed => (
                WatchdogView {
                    backoff_secs: 1,
                    phase: PhaseView::Monitoring { first: false },
                    ..self
                },
                WatchStepView {
                    said: shown(seq![reconnected_line()], self.options),
                    action: WatchAction::Monitor,
                },
            ),
            WatchEventView::Failed(failure) => if is_last(
                self.attempt,
                self.options.max_retries,
            ) {
                (
                    WatchdogView { phase: PhaseView::Stopped, ..self },
                    WatchStepView {
                        said: shown(
                            gave_up_lines(failure, self.options.max_retries),
                            self.options,
                        ).push(gave_up_report(failure)),
                        action: WatchAction::Stop,
                    },
                )
            } else {
                self.sleep(
                    shown(
                        retry_lines(failure, self.options, self.attempt, self.backoff_secs),
                        self.options,
                    ),
                )
            },
            WatchEventView::Waited => self.connect(Seq::empty()),
        }
    }
}

/// Says a line to a user who wants to see it.
fn say(said: &mut Vec<Notice>, line: String, quiet: bool)
    ensures
        notices(final(said)@) == (if quiet {
            notices(old(said)@)
        } else {
            notices(old(said)@).push(NoticeView::Line(line@))
        }),
{
    if !quiet {
        let ghost before = said@;
        said.push(Notice::Line(line));
        assert(notices(said@) =~= notices(before).push(NoticeView::Line(line@)));
    }
}

fn tell(said: &mut Vec<Notice>, report: Diagnostic)
    ensures
        notices(final(said)@) == notices(old(said)@).push(NoticeView::Report(report@)),
{
    let ghost before = said@;
    said.push(Notice::Report(report));
    assert(notices(said@) =~= notices(before).push(NoticeView::Report(report@)));
}

/// The line on an attempt that failed.
fn backoff_text(
    failure: &Failure,
    max_retries: u32,
    attempt: u32,
    backoff_secs: u64,
) -> (r: String)
    ensures
        r@ == backoff_line(failure@, max_retries, attempt as nat, backoff_secs as nat),
{
    let mut tail: String = String::new();
    if max_retries == 0 {
        tail.append("s (attempt #");
        tail.append(number_text(attempt as u64).as_str());
        tail.append(")...");
        assert(tail@ =~= "s (attempt #"@ + decimal(attempt as nat) + ")..."@);
    } else {
        tail.append("s (");
        tail.append(number_text(attempt as u64).as_str());
        tail.append("/");
        tail.append(number_text(max_retries as u64).as_str());
        tail.append(")...");
        assert(tail@ =~= "s ("@ + decimal(attempt as nat) + "/"@ + decimal(max_retries as nat)
            + ")..."@);
    }
    let mut line: String = "⚠️ [EVENT_RETRY_BACKOFF] Connection failed [".to_owned();
    line.append(failure.kind.as_str());
    line.append("]: ");
    line.append(failure.summary.as_str());
    line.append("; retrying in ");
    line.append(number_text(backoff_secs).as_str());
    line.append(tail.as_str());
    line
}

/// A watchdog that has been given a connection, and the first thing to do.
pub fn watchdog_begin(options: WatchdogOptions) -> (r: (Watchdog, WatchStep))
    ensures
        r.0@ == WatchdogView::initial(options),
        r.1@ == (WatchStepView { said: Seq::empty(), action: WatchAction::Monitor }),
{
    let said: Vec<Notice> = Vec::new();
    assert(notices(said@) =~= Seq::empty());
    (
        Watchdog {
            options,
            attempt: 0,
            backoff_secs: 1,
            phase: Phase::Monitoring { first: true },
        },
        WatchStep { said, action: WatchAction::Monitor },
    )
}

/// What the watchdog becomes by an event that it waits for, and what it does.
pub fn watchdog_step(state: Watchdog, event: &WatchEvent) -> (r: (Watchdog, WatchStep))
    requires
        state@.awaits(event@),
        event is Waited ==> state@.attempt < u32::MAX,
    ensures
        (r.0@, r.1@) == state@.next(event@),
{
    proof {
        use_type_invariant(&state);
    }
    let ghost before = state@;
    let said: Vec<Notice> = Vec::new();
    assert(notices(said@) =~= Seq::empty());
    match event {
        WatchEvent::Lost { reason } => {
            let first: bool = match state.phase {
                Phase::Monitoring { first } => first,
                _ => false,
            };
            (
                Watchdog {
                    options: state.options,
                    attempt: state.attempt,
                    backoff_secs: state.backoff_secs,
                    phase: Phase::Marking { first, reason: reason.clone() },
                },
                WatchStep { said, action: WatchAction::MarkDisconnected },
            )
        },
        WatchEvent::Disconnected { alive_secs } => state.disconnected(*alive_secs),
        WatchEvent::Connected => (
            Watchdog {
                options: state.options,
                attempt: state.attempt,
                backoff_secs: state.backoff_secs,
                phase: Phase::Installing,
            },
            WatchStep { said, action: WatchAction::Install },
        ),
        WatchEvent::Installed => {
            let mut said: Vec<Notice> = said;
            say(
                &mut said,
                "✅ [EVENT_RECONNECTED] Reconnected, proxy service resumed".to_owned(),
                state.options.quiet,
            );
            assert(notices(said@) =~= shown(seq![reconnected_line()], state.options));
            (
                Watchdog {
                    options: state.options,
                    attempt: state.attempt,
                    backoff_secs: 1,
                    phase: Phase::Monitoring { first: false },
                },
                WatchStep { said, action: WatchAction::Monitor },
            )
        },
        WatchEvent::Failed(failure) => state.failed(failure),
        WatchEvent::Waited => {
            let r = state.begin_attempt(said);
            assert(r.1@.said =~= before.next(event@).1.said);
            r
        },
    }
}

impl Watchdog {
    #[verifier::type_invariant]
    spec fn wf(self) -> bool {
        &&& 1 <= self.backoff_secs <= MAX_BACKOFF_SECS
        &&& match self.phase {
            Phase::Monitoring { first } => first ==> self.attempt == 0,
            Phase::Marking { first, .. } => first ==> self.attempt == 0,
            _ => true,
        }
    }

    /// Whether the event is one that the watchdog waits for.
    pub fn expects(&self, event: &WatchEvent) -> (r: bool)
        ensures
            r == self@.awaits(event@),
    {
        match (&self.phase, event) {
            (Phase::Monitoring { .. }, WatchEvent::Lost { .. }) => true,
            (Phase::Marking { .. }, WatchEvent::Disconnected { .. }) => true,
            (Phase::Connecting, WatchEvent::Connected) => true,
            (Phase::Connecting, WatchEvent::Failed(_)) => true,
            (Phase::Installing, WatchEvent::Installed) => true,
            (Phase::Waiting, WatchEvent::Waited) => true,
            _ => false,
        }
    }

    /// The attempts so far.
    pub fn attempts(&self) -> (r: u32)
        ensures
            r == self@.attempt,
    {
        self.attempt
    }

    fn begin_attempt(self, said: Vec<Notice>) -> (r: (Watchdog, WatchStep))
        requires
            self@.attempt < u32::MAX,
        ensures
            (r.0@, r.1@) == self@.connect(notices(said@)),
    {
        proof {
            use_type_invariant(&self);
        }
        let ghost told = notices(said@);
        let attempt: u32 = self.attempt + 1;
        let line: String = concat3(
            "🔗 Reconnecting (attempt #",
            number_text(attempt as u64).as_str(),
            ")...",
        );
        let mut said: Vec<Notice> = said;
        say(&mut said, line, self.options.quiet);
        assert(notices(said@) =~= told + shown(seq![attempt_line(attempt as nat)], self.options));
        (
            Watchdog {
                options: self.options,
                attempt,
                backoff_secs: self.backoff_secs,
                phase: Phase::Connecting,
            },
            WatchStep { said, action: WatchAction::Connect },
        )
    }

    fn wait(self, said: Vec<Notice>) -> (r: (Watchdog, WatchStep))
        ensures
            (r.0@, r.1@) == self@.sleep(notices(said@)),
    {
        proof {
            use_type_invariant(&self);
        }
        let doubled: u64 = self.backoff_secs * 2;
        let longer: u64 = if doubled <= MAX_BACKOFF_SECS {
            doubled
        } else {
            MAX_BACKOFF_SECS
        };
        (
            Watchdog {
                options: self.options,
                attempt: self.attempt,
                backoff_secs: longer,
                phase: Phase::Waiting,
            },
            WatchStep { said, action: WatchAction::Sleep { secs: self.backoff_secs } },
        )
    }

    fn disconnected(self, alive_secs: u64) -> (r: (Watchdog, WatchStep))
        requires
            self@.phase is Marking,
        ensures
            (r.0@, r.1@) == self@.next(WatchEventView::Disconnected { alive_secs }),
    {
        proof {
            use_type_invariant(&self);
        }
        let (first, reason): (bool, String) = match &self.phase {
            Phase::Marking { first, reason } => (*first, reason.clone()),
            _ => (false, String::new()),
        };
        let line: String = concat2(
            "⚠️ [EVENT_DISCONNECTED] Connection disconnected: ",
            reason.as_str(),
        );
        let mut said: Vec<Notice> = Vec::new();
        say(&mut said, line, self.options.quiet);
        tell(&mut said, Diagnostic { alive_secs, reason, error_kind: None });
        assert(notices(said@) =~= shown(seq![lost_line(reason@)], self.options).push(
            lost_report(alive_secs, reason@),
        ));
        if first {
            self.begin_attempt(said)
        } else {
            self.wait(said)
        }
    }

    fn failed(self, failure: &Failure) -> (r: (Watchdog, WatchStep))
        ensures
            (r.0@, r.1@) == self@.next(WatchEventView::Failed(failure@)),
    {
        proof {
            use_type_invariant(&self);
        }
        let options: WatchdogOptions = self.options;
        let quiet: bool = options.quiet;
        let max_retries: u32 = options.max_retries;
        let mut said: Vec<Notice> = Vec::new();
        if max_retries > 0 && self.attempt >= max_retries {
            let limit: String = number_text(max_retries as u64);
            say(
                &mut said,
                concat3("❌ Connection failed, max retries reached (", limit.as_str(), ")"),
                quiet,
            );
            say(&mut said, concat2("   Error type: ", failure.kind.as_str()), quiet);
            say(&mut said, concat2("   Error detail: ", failure.detail.as_str()), quiet);
            let report = Diagnostic {
                alive_secs: 0,
                reason: "Connection failed: max retries reached".to_owned(),
                error_kind: Some(failure.kind.clone()),
            };
            tell(&mut said, report);
            assert(notices(said@) =~= shown(gave_up_lines(failure@, max_retries), options).push(
                gave_up_report(failure@),
            ));
            (
                Watchdog {
                    options,
                    attempt: self.attempt,
                    backoff_secs: self.backoff_secs,
                    phase: Phase::Stopped,
                },
                WatchStep { said, action: WatchAction::Stop },
            )
        } else {
            let line: String = backoff_text(
                failure,
                max_retries,
                self.attempt,
                self.backoff_secs,
            );
            say(&mut said, line, quiet);
            if options.verbose {
                say(&mut said, concat2("   Full error: ", failure.detail.as_str()), quiet);
            }
            assert(notices(said@) =~= shown(
                retry_lines(failure@, options, self@.attempt, self@.backoff_secs),
                options,
            ));
            self.wait(said)
        }
    }
}

/// Events and notices carry their texts whole.
pub proof fn texts_are_carried_whole(
    reason: String,
    alive_secs: u64,
    failure: Failure,
    report: Diagnostic,
)
    ensures
        (WatchEvent::Lost { reason })@ == (WatchEventView::Lost { reason: reason@ }),
        (WatchEvent::Disconnected { alive_secs })@ == (WatchEventView::Disconnected {
            alive_secs,
        }),
        WatchEvent::Failed(failure)@ is Failed,
        WatchEvent::Failed(failure)@->Failed_0.kind == failure.kind@,
        WatchEvent::Failed(failure)@->Failed_0.summary == failure.summary@,
        WatchEvent::Failed(failure)@->Failed_0.detail == failure.detail@,
        WatchEvent::Connected@ is Connected,
        WatchEvent::Installed@ is Installed,
        WatchEvent::Waited@ is Waited,
        Notice::Line(reason)@ == NoticeView::Line(reason@),
        Notice::Report(report)@ is Report,
        Notice::Report(report)@->Report_0.alive_secs == report.alive_secs,
        Notice::Report(report)@->Report_0.reason == report.reason@,
        Notice::Report(report)@->Report_0.error_kind is Some <==> report.error_kind is Some,
        report.error_kind is Some ==> Notice::Report(report)@->Report_0.error_kind->0
            == report.error_kind->0@,
{
}

} // verus!
