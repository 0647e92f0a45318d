//! The lifecycle of a tunnel: the state that the tunnel's controller keeps
//! about its `frpc` child process, how each occurrence (a start, a line of
//! output, the child's exit, a stop) changes it, and which events are
//! reported. The process itself, its output streams and the configuration
//! file are handled by the caller, which hands the child and the file's path
//! to this state and takes them back when they must be killed or removed.
use vstd::prelude::*;
use crate::event_sink::{EventView, RecordedEvent, events_view};
use crate::frpc_log::{
    classify, classify_frpc_line, is_minecraft_proxy_started, minecraft_proxy_started,
    FrpcSignal, SignalView,
};
use crate::models::{
    MINECRAFT_PROXY_NAME, opt_view, start_error, status_name, FrpBinaryStatus, SettingsView, TunnelLogPayload,
    TunnelSettings, TunnelStatusKind, TunnelStatusPayload,
};
use crate::text::{clone_opt, i32_decimal, int_decimal, is_blank, owned, trim};

verus! {

// ---------------------------------------------------------------------
// Events
// ---------------------------------------------------------------------

/// A status change to `kind`, explained by `detail`.
pub open spec fn status_event(kind: TunnelStatusKind, detail: Seq<char>) -> EventView {
    EventView::Status { status: status_name(kind), detail: Some(detail) }
}

/// A log line at `level`.
pub open spec fn log_event(level: Seq<char>, message: Seq<char>) -> EventView {
    EventView::Log { level, message }
}

/// The report of a status change to `kind`, explained by `detail`.
pub fn status_report(kind: TunnelStatusKind, detail: String) -> (r: RecordedEvent)
    ensures
        r@ == status_event(kind, detail@),
{
    RecordedEvent::Status(TunnelStatusPayload { status: owned(kind.as_str()), detail: Some(detail) })
}

/// The report of a log line at `level`.
pub fn log_report(level: &str, message: String) -> (r: RecordedEvent)
    ensures
        r@ == log_event(level@, message@),
{
    RecordedEvent::Log(TunnelLogPayload { level: owned(level), message })
}

// ---------------------------------------------------------------------
// Exit of the child
// ---------------------------------------------------------------------

/// What becomes of the tunnel when `frpc` exits, and what is reported.
#[derive(Debug, PartialEq, Eq)]
pub struct ExitOutcome {
    pub status: TunnelStatusKind,
    pub detail: String,
    pub log_level: &'static str,
    pub log_message: String,
    pub should_emit: bool,
}

/// An exit outcome as a mathematical value.
pub struct OutcomeView {
    pub status: TunnelStatusKind,
    pub detail: Seq<char>,
    pub log_level: Seq<char>,
    pub log_message: Seq<char>,
    pub should_emit: bool,
}

impl View for ExitOutcome {
    type V = OutcomeView;

    open spec fn view(&self) -> OutcomeView {
        OutcomeView {
            status: self.status,
            detail: self.detail@,
            log_level: self.log_level@,
            log_message: self.log_message@,
            should_emit: self.should_emit,
        }
    }
}

/// How an exit with `exit_code` is explained.
pub open spec fn exit_code_detail(exit_code: Option<i32>) -> Seq<char> {
    match exit_code {
        Some(code) => "frpc exited with code "@ + int_decimal(code as int) + "."@,
        None => "frpc exited unexpectedly."@,
    }
}

/// The outcome of `frpc` exiting. A requested stop ends quietly in
/// `Stopped`. A tunnel already in `Error` stays there quietly, explained by
/// its last error or else its exit code. A clean exit of a tunnel that was
/// ready ends in `Stopped` and is reported. Every other exit is an `Error`,
/// explained by the last error, or else by an exit before the tunnel was
/// ready (clean exit) or the exit code, and is reported.
pub open spec fn exit_outcome(
    status_before_exit: TunnelStatusKind,
    stop_requested: bool,
    ready: bool,
    success: bool,
    exit_code: Option<i32>,
    last_error: Option<Seq<char>>,
) -> OutcomeView {
    if stop_requested {
        OutcomeView {
            status: TunnelStatusKind::Stopped,
            detail: "Tunnel stopped."@,
            log_level: "info"@,
            log_message: "Tunnel stopped."@,
            should_emit: false,
        }
    } else if status_before_exit == TunnelStatusKind::Error {
        let detail = match last_error {
            Some(e) => e,
            None => exit_code_detail(exit_code),
        };
        OutcomeView {
            status: TunnelStatusKind::Error,
            detail,
            log_level: "error"@,
            log_message: detail,
            should_emit: false,
        }
    } else if success && ready {
        OutcomeView {
            status: TunnelStatusKind::Stopped,
            detail: "Tunnel stopped."@,
            log_level: "info"@,
            log_message: "Tunnel stopped."@,
            should_emit: true,
        }
    } else {
        let detail = match last_error {
            Some(e) => e,
            None => if success {
                "frpc exited before the tunnel became ready."@
            } else {
                exit_code_detail(exit_code)
            },
        };
        OutcomeView {
            status: TunnelStatusKind::Error,
            detail,
            log_level: "error"@,
            log_message: detail,
            should_emit: true,
        }
    }
}

fn exit_code_message(exit_code: Option<i32>) -> (r: String)
    ensures
        r@ == exit_code_detail(exit_code),
{
    match exit_code {
        Some(code) => {
            let mut r = owned("frpc exited with code ");
            let digits = i32_decimal(code);
            r.append(digits.as_str());
            r.append(".");
            r
        },
        None => owned("frpc exited unexpectedly."),
    }
}

/// Decides what becomes of the tunnel when `frpc` exits.
pub fn decide_exit_outcome(
    status_before_exit: TunnelStatusKind,
    stop_requested: bool,
    ready: bool,
    success: bool,
    exit_code: Option<i32>,
    last_error: Option<String>,
) -> (r: ExitOutcome)
    ensures
        r@ == exit_outcome(
            status_before_exit,
            stop_requested,
            ready,
            success,
            exit_code,
            opt_view(last_error),
        ),
{
    if stop_requested {
        return ExitOutcome {
            status: TunnelStatusKind::Stopped,
            detail: owned("Tunnel stopped."),
            log_level: "info",
            log_message: owned("Tunnel stopped."),
            should_emit: false,
        };
    }
    if status_before_exit == TunnelStatusKind::Error {
        let detail = match last_error {
            Some(e) => e,
            None => exit_code_message(exit_code),
        };
        return ExitOutcome {
            status: TunnelStatusKind::Error,
            detail: detail.clone(),
            log_level: "error",
            log_message: detail,
            should_emit: false,
        };
    }
    if success && ready {
        return ExitOutcome {
            status: TunnelStatusKind::Stopped,
            detail: owned("Tunnel stopped."),
            log_level: "info",
            log_message: owned("Tunnel stopped."),
            should_emit: true,
        };
    }
    let detail = match last_error {
        Some(e) => e,
        None => if success {
            owned("frpc exited before the tunnel became ready.")
        } else {
            exit_code_message(exit_code)
        },
    };
    ExitOutcome {
        status: TunnelStatusKind::Error,
        detail: detail.clone(),
        log_level: "error",
        log_message: detail,
        should_emit: true,
    }
}

// ---------------------------------------------------------------------
// The tunnel's state
// ---------------------------------------------------------------------

/// What can be seen of the tunnel's state from outside.
#[derive(Debug, PartialEq, Eq)]
pub struct TunnelSnapshot {
    pub status: TunnelStatusKind,
    pub has_child: bool,
    pub stop_requested: bool,
    pub login_confirmed: bool,
    pub proxy_confirmed: bool,
    pub last_error: Option<String>,
}

/// The tunnel's state as a mathematical value.
pub struct RuntimeView {
    pub status: TunnelStatusKind,
    pub has_child: bool,
    pub has_config: bool,
    pub stop_requested: bool,
    pub login_confirmed: bool,
    pub proxy_confirmed: bool,
    pub last_error: Option<Seq<char>>,
}

/// The state that a tunnel's controller keeps: the running `frpc` child
/// (`C`), the path of its configuration file (`P`), the status, whether a
/// stop was asked for, whether `frpc` confirmed the login and the Minecraft
/// proxy, and the last error.
pub struct TunnelRuntime<C, P> {
    child: Option<C>,
    config_path: Option<P>,
    status: TunnelStatusKind,
    stop_requested: bool,
    login_confirmed: bool,
    proxy_confirmed: bool,
    last_error: Option<String>,
}

impl<C, P> View for TunnelRuntime<C, P> {
    type V = RuntimeView;

    closed spec fn view(&self) -> RuntimeView {
        RuntimeView {
            status: self.status,
            has_child: self.child is Some,
            has_config: self.config_path is Some,
            stop_requested: self.stop_requested,
            login_confirmed: self.login_confirmed,
            proxy_confirmed: self.proxy_confirmed,
            last_error: opt_view(self.last_error),
        }
    }
}

/// The state of a controller that has not started anything.
pub open spec fn fresh() -> RuntimeView {
    RuntimeView {
        status: TunnelStatusKind::Stopped,
        has_child: false,
        has_config: false,
        stop_requested: false,
        login_confirmed: false,
        proxy_confirmed: false,
        last_error: None,
    }
}

/// A start: refused with the settings' error if they are invalid, then
/// refused while a child is running; otherwise the tunnel is `Starting` with
/// every flag cleared, and that is reported.
pub open spec fn start_step(v: RuntimeView, s: SettingsView) -> (RuntimeView, Result<
    Seq<EventView>,
    Seq<char>,
>) {
    if start_error(s) is Some {
        (v, Err(start_error(s)->0))
    } else if v.has_child {
        (v, Err("Tunnel is already running."@))
    } else {
        (
            RuntimeView {
                status: TunnelStatusKind::Starting,
                has_child: false,
                has_config: false,
                stop_requested: false,
                login_confirmed: false,
                proxy_confirmed: false,
                last_error: None,
            },
            Ok(
                seq![
                    status_event(
                        TunnelStatusKind::Starting,
                        "Preparing frpc and opening the tunnel..."@,
                    ),
                ],
            ),
        )
    }
}

/// `frpc` was spawned: the tunnel keeps the child and its configuration file,
/// is `Starting`, and that is logged.
pub open spec fn launch_step(v: RuntimeView) -> (RuntimeView, Seq<EventView>) {
    (
        RuntimeView {
            status: TunnelStatusKind::Starting,
            has_child: true,
            has_config: true,
            ..v
        },
        seq![log_event("info"@, "frpc launched. Waiting for the tunnel to come online."@)],
    )
}

/// Starting failed with `error`: no child, no configuration file, every flag
/// cleared, `Error` with `error` as last error; the error is logged and
/// reported.
pub open spec fn fail_start_step(v: RuntimeView, error: Seq<char>) -> (RuntimeView, Seq<
    EventView,
>) {
    (
        RuntimeView {
            status: TunnelStatusKind::Error,
            has_child: false,
            has_config: false,
            stop_requested: false,
            login_confirmed: false,
            proxy_confirmed: false,
            last_error: Some(error),
        },
        seq![log_event("error"@, error), status_event(TunnelStatusKind::Error, error)],
    )
}

/// The state after a stop or a cleanup: `Stopped`, stop requested, no child,
/// no configuration file, no confirmation, no error.
pub open spec fn stopped_state() -> RuntimeView {
    RuntimeView {
        status: TunnelStatusKind::Stopped,
        has_child: false,
        has_config: false,
        stop_requested: true,
        login_confirmed: false,
        proxy_confirmed: false,
        last_error: None,
    }
}

/// What a stop reports.
pub open spec fn stop_events() -> Seq<EventView> {
    seq![
        log_event("info"@, "Tunnel stopped."@),
        status_event(TunnelStatusKind::Stopped, "Tunnel stopped."@),
    ]
}

/// The view of an optional event as a sequence of at most one event.
pub open spec fn opt_events(o: Option<EventView>) -> Seq<EventView> {
    match o {
        Some(e) => seq![e],
        None => seq![],
    }
}

/// The signal's own effect on the state, with the status change and the log
/// line it asks for.
pub open spec fn signal_effect(v: RuntimeView, sg: SignalView) -> (
    RuntimeView,
    Option<EventView>,
    Option<EventView>,
) {
    match sg {
        SignalView::Connecting => if v.status != TunnelStatusKind::Error {
            (
                RuntimeView { status: TunnelStatusKind::Starting, ..v },
                Some(status_event(TunnelStatusKind::Starting, "Connecting to your VPS..."@)),
                None,
            )
        } else {
            (v, None, None)
        },
        SignalView::LoginSuccess => if v.status != TunnelStatusKind::Error {
            (
                RuntimeView { status: TunnelStatusKind::Starting, login_confirmed: true, ..v },
                Some(
                    status_event(
                        TunnelStatusKind::Starting,
                        "Authenticated with frps. Opening the Minecraft port..."@,
                    ),
                ),
                None,
            )
        } else {
            (RuntimeView { login_confirmed: true, ..v }, None, None)
        },
        SignalView::ProxyStarted { proxy_name } => if minecraft_proxy_started(sg) {
            (RuntimeView { proxy_confirmed: true, ..v }, None, None)
        } else {
            (v, None, None)
        },
        SignalView::StartError { detail } => (
            RuntimeView { status: TunnelStatusKind::Error, last_error: Some(detail), ..v },
            Some(status_event(TunnelStatusKind::Error, detail)),
            Some(log_event("error"@, detail)),
        ),
        SignalView::LoginFailed { detail } => (
            RuntimeView { status: TunnelStatusKind::Error, last_error: Some(detail), ..v },
            Some(status_event(TunnelStatusKind::Error, detail)),
            Some(log_event("error"@, detail)),
        ),
    }
}

/// A signal from `frpc`'s output. Ignored once a stop was asked for.
/// Otherwise the signal takes effect, and when afterwards the tunnel is not
/// in `Error` and both the login and the Minecraft proxy are confirmed, it is
/// `Running`, which is logged and reported in place of the signal's own
/// reports. The log line comes before the status change.
pub open spec fn signal_step(v: RuntimeView, sg: SignalView) -> (RuntimeView, Seq<EventView>) {
    if v.stop_requested {
        (v, seq![])
    } else {
        let (w, status_ev, log_ev) = signal_effect(v, sg);
        if w.status != TunnelStatusKind::Error && w.login_confirmed && w.proxy_confirmed {
            (
                RuntimeView { status: TunnelStatusKind::Running, ..w },
                seq![
                    log_event("info"@, "Tunnel started."@),
                    status_event(
                        TunnelStatusKind::Running,
                        "Tunnel is live. Share the join address with your friends."@,
                    ),
                ],
            )
        } else {
            (w, opt_events(log_ev) + opt_events(status_ev))
        }
    }
}

/// An error noticed while the tunnel runs: ignored once a stop was asked for,
/// otherwise the tunnel is in `Error` with `detail` as last error, which is
/// reported.
pub open spec fn mark_error_step(v: RuntimeView, detail: Seq<char>) -> (RuntimeView, Seq<
    EventView,
>) {
    if v.stop_requested {
        (v, seq![])
    } else {
        (
            RuntimeView { status: TunnelStatusKind::Error, last_error: Some(detail), ..v },
            seq![status_event(TunnelStatusKind::Error, detail)],
        )
    }
}

/// How a failure to read `frpc`'s output is explained.
pub open spec fn read_failure_detail(error: Seq<char>) -> Seq<char> {
    "Failed to read frpc output: "@ + error
}

/// How a failure to watch the `frpc` process is explained.
pub open spec fn monitor_failure_detail(error: Seq<char>) -> Seq<char> {
    "Failed to monitor frpc: "@ + error
}

/// `frpc`'s output could not be read: marked as an error, then logged
/// whether or not a stop was asked for.
pub open spec fn read_failure_step(v: RuntimeView, error: Seq<char>) -> (RuntimeView, Seq<
    EventView,
>) {
    let detail = read_failure_detail(error);
    let (w, events) = mark_error_step(v, detail);
    (w, events.push(log_event("error"@, detail)))
}

/// A line of `frpc`'s output, read from a stream logged at `level`: blank
/// lines are skipped; any other line is logged as it is, then what it
/// signals, if anything, takes effect.
pub open spec fn line_step(v: RuntimeView, line: Seq<char>, level: Seq<char>) -> (
    RuntimeView,
    Seq<EventView>,
) {
    if trim(line).len() == 0 {
        (v, seq![])
    } else {
        match classify(line) {
            None => (v, seq![log_event(level, line)]),
            Some(sg) => {
                let (w, events) = signal_step(v, sg);
                (w, seq![log_event(level, line)] + events)
            },
        }
    }
}

/// The state after the child is gone: no child, no configuration file, no
/// flag, no error, and the given status.
pub open spec fn ended_state(status: TunnelStatusKind) -> RuntimeView {
    RuntimeView {
        status,
        has_child: false,
        has_config: false,
        stop_requested: false,
        login_confirmed: false,
        proxy_confirmed: false,
        last_error: None,
    }
}

/// `frpc` exited: the tunnel takes the status of the exit's outcome, and
/// the outcome is logged and reported when it should be.
pub open spec fn exit_step(v: RuntimeView, success: bool, exit_code: Option<i32>) -> (
    RuntimeView,
    Seq<EventView>,
) {
    let o = exit_outcome(
        v.status,
        v.stop_requested,
        v.login_confirmed && v.proxy_confirmed,
        success,
        exit_code,
        v.last_error,
    );
    (
        ended_state(o.status),
        if o.should_emit {
            seq![log_event(o.log_level, o.log_message), status_event(o.status, o.detail)]
        } else {
            seq![]
        },
    )
}

/// The `frpc` process could not be watched: the tunnel ends in `Error`,
/// which is logged and reported.
pub open spec fn monitor_failure_step(v: RuntimeView, error: Seq<char>) -> (RuntimeView, Seq<
    EventView,
>) {
    let detail = monitor_failure_detail(error);
    (
        ended_state(TunnelStatusKind::Error),
        seq![log_event("error"@, detail), status_event(TunnelStatusKind::Error, detail)],
    )
}

impl<C, P> TunnelRuntime<C, P> {
    /// The running child, if any.
    pub closed spec fn child(&self) -> Option<C> {
        self.child
    }

    /// The path of the configuration file in use, if any.
    pub closed spec fn config_path(&self) -> Option<P> {
        self.config_path
    }

    /// A controller that has not started anything.
    pub fn new() -> (r: Self)
        ensures
            r@ == fresh(),
    {
        TunnelRuntime {
            child: None,
            config_path: None,
            status: TunnelStatusKind::Stopped,
            stop_requested: false,
            login_confirmed: false,
            proxy_confirmed: false,
            last_error: None,
        }
    }

    /// What can be seen of the state.
    pub fn snapshot(&self) -> (r: TunnelSnapshot)
        ensures
            r.status == self@.status,
            r.has_child == self@.has_child,
            r.stop_requested == self@.stop_requested,
            r.login_confirmed == self@.login_confirmed,
            r.proxy_confirmed == self@.proxy_confirmed,
            opt_view(r.last_error) == self@.last_error,
    {
        TunnelSnapshot {
            status: self.status,
            has_child: self.child.is_some(),
            stop_requested: self.stop_requested,
            login_confirmed: self.login_confirmed,
            proxy_confirmed: self.proxy_confirmed,
            last_error: clone_opt(&self.last_error),
        }
    }

    /// Begins a start with `settings`. On `Ok` the caller makes `frpc`
    /// available, writes its configuration and spawns it, then calls
    /// `launched` or `fail_start`. A configuration file that was kept is
    /// forgotten, not removed.
    pub fn begin_start(&mut self, settings: &TunnelSettings) -> (r: Result<
        Vec<RecordedEvent>,
        String,
    >)
        ensures
            final(self)@ == start_step(old(self)@, settings@).0,
            match (r, start_step(old(self)@, settings@).1) {
                (Ok(events), Ok(expected)) => events_view(events@) == expected,
                (Err(e), Err(expected)) => e@ == expected,
                _ => false,
            },
            start_step(old(self)@, settings@).1 is Err ==> final(self).child() == old(self).child()
                && final(self).config_path() == old(self).config_path(),
    {
        match settings.validate_for_start() {
            Ok(()) => {},
            Err(e) => return Err(e),
        }
        if self.child.is_some() {
            return Err(owned("Tunnel is already running."));
        }
        self.status = TunnelStatusKind::Starting;
        self.stop_requested = false;
        self.login_confirmed = false;
        self.proxy_confirmed = false;
        self.last_error = None;
        self.config_path = None;
        let events = vec![
            status_report(
                TunnelStatusKind::Starting,
                owned("Preparing frpc and opening the tunnel..."),
            ),
        ];
        assert(events_view(events@) =~= start_step(old(self)@, settings@).1->Ok_0);
        Ok(events)
    }

    /// `frpc` was spawned as `child` with the configuration file at
    /// `config_path`.
    pub fn launched(&mut self, child: C, config_path: P) -> (r: Vec<RecordedEvent>)
        ensures
            final(self)@ == launch_step(old(self)@).0,
            events_view(r@) == launch_step(old(self)@).1,
            final(self).child() == Some(child),
            final(self).config_path() == Some(config_path),
    {
        self.config_path = Some(config_path);
        self.child = Some(child);
        self.status = TunnelStatusKind::Starting;
        let events = vec![
            log_report("info", owned("frpc launched. Waiting for the tunnel to come online.")),
        ];
        assert(events_view(events@) =~= launch_step(old(self)@).1);
        events
    }

    /// Starting failed with `error`. Returns the configuration file's path,
    /// to be removed.
    pub fn fail_start(&mut self, error: String) -> (r: (Option<P>, Vec<RecordedEvent>))
        ensures
            final(self)@ == fail_start_step(old(self)@, error@).0,
            events_view(r.1@) == fail_start_step(old(self)@, error@).1,
            r.0 == old(self).config_path(),
    {
        self.child = None;
        self.status = TunnelStatusKind::Error;
        self.stop_requested = false;
        self.login_confirmed = false;
        self.proxy_confirmed = false;
        self.last_error = Some(error.clone());
        let config_path = self.config_path.take();
        let events = vec![
            log_report("error", error.clone()),
            status_report(TunnelStatusKind::Error, error),
        ];
        assert(events_view(events@) =~= fail_start_step(old(self)@, error@).1);
        (config_path, events)
    }

    /// Stops the tunnel. Returns the child, to be killed and waited for, and
    /// the configuration file's path, to be removed.
    pub fn stop(&mut self) -> (r: (Option<C>, Option<P>, Vec<RecordedEvent>))
        ensures
            final(self)@ == stopped_state(),
            events_view(r.2@) == stop_events(),
            r.0 == old(self).child(),
            r.1 == old(self).config_path(),
    {
        let (child, config_path) = self.cleanup();
        let events = vec![
            log_report("info", owned("Tunnel stopped.")),
            status_report(TunnelStatusKind::Stopped, owned("Tunnel stopped.")),
        ];
        assert(events_view(events@) =~= stop_events());
        (child, config_path, events)
    }

    /// Stops the tunnel without reporting it. Returns the child, to be killed
    /// and waited for, and the configuration file's path, to be removed.
    pub fn cleanup(&mut self) -> (r: (Option<C>, Option<P>))
        ensures
            final(self)@ == stopped_state(),
            r.0 == old(self).child(),
            r.1 == old(self).config_path(),
    {
        self.stop_requested = true;
        self.status = TunnelStatusKind::Stopped;
        self.login_confirmed = false;
        self.proxy_confirmed = false;
        self.last_error = None;
        (self.child.take(), self.config_path.take())
    }

    /// Applies a signal from `frpc`'s output.
    pub fn handle_signal(&mut self, signal: FrpcSignal) -> (r: Vec<RecordedEvent>)
        ensures
            final(self)@ == signal_step(old(self)@, signal@).0,
            events_view(r@) == signal_step(old(self)@, signal@).1,
            final(self).child() == old(self).child(),
            final(self).config_path() == old(self).config_path(),
    {
        if self.stop_requested {
            let events: Vec<RecordedEvent> = Vec::new();
            assert(events_view(events@) =~= seq![]);
            return events;
        }
        let minecraft = is_minecraft_proxy_started(&signal);
        let mut status_ev: Option<RecordedEvent> = None;
        let mut log_ev: Option<RecordedEvent> = None;
        match signal {
            FrpcSignal::Connecting => {
                if self.status != TunnelStatusKind::Error {
                    self.status = TunnelStatusKind::Starting;
                    status_ev = Some(
                        status_report(
                            TunnelStatusKind::Starting,
                            owned("Connecting to your VPS..."),
                        ),
                    );
                }
            },
            FrpcSignal::LoginSuccess => {
                self.login_confirmed = true;
                if self.status != TunnelStatusKind::Error {
                    self.status = TunnelStatusKind::Starting;
                    status_ev = Some(
                        status_report(
                            TunnelStatusKind::Starting,
                            owned("Authenticated with frps. Opening the Minecraft port..."),
                        ),
                    );
                }
            },
            FrpcSignal::ProxyStarted { .. } => {
                if minecraft {
                    self.proxy_confirmed = true;
                }
            },
            FrpcSignal::StartError { detail } => {
                self.last_error = Some(detail.clone());
                self.status = TunnelStatusKind::Error;
                status_ev = Some(status_report(TunnelStatusKind::Error, detail.clone()));
                log_ev = Some(log_report("error", detail));
            },
            FrpcSignal::LoginFailed { detail } => {
                self.last_error = Some(detail.clone());
                self.status = TunnelStatusKind::Error;
                status_ev = Some(status_report(TunnelStatusKind::Error, detail.clone()));
                log_ev = Some(log_report("error", detail));
            },
        }
        let mut events: Vec<RecordedEvent> = Vec::new();
        if self.status != TunnelStatusKind::Error && self.login_confirmed && self.proxy_confirmed {
            self.status = TunnelStatusKind::Running;
            events.push(log_report("info", owned("Tunnel started.")));
            events.push(
                status_report(
                    TunnelStatusKind::Running,
                    owned("Tunnel is live. Share the join address with your friends."),
                ),
            );
            assert(events_view(events@) =~= signal_step(old(self)@, signal@).1);
        } else {
            match log_ev {
                Some(e) => events.push(e),
                None => {},
            }
            match status_ev {
                Some(e) => events.push(e),
                None => {},
            }
            assert(events_view(events@) =~= signal_step(old(self)@, signal@).1);
        }
        events
    }

    /// Notes an error while the tunnel runs.
    pub fn mark_error(&mut self, detail: String) -> (r: Vec<RecordedEvent>)
        ensures
            final(self)@ == mark_error_step(old(self)@, detail@).0,
            events_view(r@) == mark_error_step(old(self)@, detail@).1,
            final(self).child() == old(self).child(),
            final(self).config_path() == old(self).config_path(),
    {
        let mut events: Vec<RecordedEvent> = Vec::new();
        if self.stop_requested {
            assert(events_view(events@) =~= seq![]);
            return events;
        }
        self.last_error = Some(detail.clone());
        self.status = TunnelStatusKind::Error;
        events.push(status_report(TunnelStatusKind::Error, detail));
        assert(events_view(events@) =~= mark_error_step(old(self)@, detail@).1);
        events
    }

    /// Notes that `frpc`'s output could not be read, `error` saying why.
    pub fn read_failed(&mut self, error: &str) -> (r: Vec<RecordedEvent>)
        ensures
            final(self)@ == read_failure_step(old(self)@, error@).0,
            events_view(r@) == read_failure_step(old(self)@, error@).1,
            final(self).child() == old(self).child(),
            final(self).config_path() == old(self).config_path(),
    {
        let mut detail = owned("Failed to read frpc output: ");
        detail.append(error);
        let mut events = self.mark_error(detail.clone());
        let ghost before = events@;
        events.push(log_report("error", detail));
        assert(events_view(events@) =~= events_view(before).push(
            log_event("error"@, read_failure_detail(error@)),
        ));
        events
    }

    /// Takes in a line of `frpc`'s output from a stream logged at `level`.
    pub fn handle_line(&mut self, line: &str, level: &str) -> (r: Vec<RecordedEvent>)
        ensures
            final(self)@ == line_step(old(self)@, line@, level@).0,
            events_view(r@) == line_step(old(self)@, line@, level@).1,
            final(self).child() == old(self).child(),
            final(self).config_path() == old(self).config_path(),
    {
        let mut events: Vec<RecordedEvent> = Vec::new();
        if is_blank(line) {
            assert(events_view(events@) =~= seq![]);
            return events;
        }
        events.push(log_report(level, owned(line)));
        match classify_frpc_line(line) {
            Some(signal) => {
                let mut more = self.handle_signal(signal);
                let ghost first = events@;
                let ghost rest = more@;
                events.append(&mut more);
                assert(events_view(events@) =~= events_view(first) + events_view(rest));
            },
            None => {
                assert(events_view(events@) =~= seq![log_event(level@, line@)]);
            },
        }
        events
    }

    /// Takes the child out to look at it; `restore_child` puts it back.
    pub fn take_child(&mut self) -> (r: Option<C>)
        ensures
            r == old(self).child(),
            final(self).child() is None,
            final(self).config_path() == old(self).config_path(),
            final(self)@ == (RuntimeView { has_child: false, ..old(self)@ }),
    {
        self.child.take()
    }

    /// Puts back a child taken out with `take_child`.
    pub fn restore_child(&mut self, child: C) -> (r: Option<C>)
        ensures
            r == old(self).child(),
            final(self).child() == Some(child),
            final(self).config_path() == old(self).config_path(),
            final(self)@ == (RuntimeView { has_child: true, ..old(self)@ }),
    {
        let previous = self.child.take();
        self.child = Some(child);
        previous
    }

    /// `frpc` exited, cleanly or not, with `exit_code` if it has one. Returns
    /// the configuration file's path, to be removed.
    pub fn child_exited(&mut self, success: bool, exit_code: Option<i32>) -> (r: (
        Option<P>,
        Vec<RecordedEvent>,
    ))
        ensures
            final(self)@ == exit_step(old(self)@, success, exit_code).0,
            events_view(r.1@) == exit_step(old(self)@, success, exit_code).1,
            r.0 == old(self).config_path(),
    {
        let outcome = decide_exit_outcome(
            self.status,
            self.stop_requested,
            self.login_confirmed && self.proxy_confirmed,
            success,
            exit_code,
            clone_opt(&self.last_error),
        );
        let config_path = self.config_path.take();
        self.child = None;
        self.status = outcome.status;
        self.stop_requested = false;
        self.login_confirmed = false;
        self.proxy_confirmed = false;
        self.last_error = None;
        let mut events: Vec<RecordedEvent> = Vec::new();
        if outcome.should_emit {
            events.push(log_report(outcome.log_level, outcome.log_message));
            events.push(status_report(outcome.status, outcome.detail));
        }
        assert(events_view(events@) =~= exit_step(old(self)@, success, exit_code).1);
        (config_path, events)
    }

    /// The `frpc` process could not be watched, `error` saying why. Returns
    /// the configuration file's path, to be removed.
    pub fn monitor_failed(&mut self, error: &str) -> (r: (Option<P>, Vec<RecordedEvent>))
        ensures
            final(self)@ == monitor_failure_step(old(self)@, error@).0,
            events_view(r.1@) == monitor_failure_step(old(self)@, error@).1,
            r.0 == old(self).config_path(),
    {
        let mut detail = owned("Failed to monitor frpc: ");
        detail.append(error);
        let config_path = self.config_path.take();
        self.child = None;
        self.status = TunnelStatusKind::Error;
        self.stop_requested = false;
        self.login_confirmed = false;
        self.proxy_confirmed = false;
        self.last_error = None;
        let events = vec![
            log_report("error", detail.clone()),
            status_report(TunnelStatusKind::Error, detail),
        ];
        assert(events_view(events@) =~= monitor_failure_step(old(self)@, error@).1);
        (config_path, events)
    }
}

/// The path of the `frpc` binary that a resolution found.
pub fn resolution_path(resolution: &FrpBinaryStatus) -> (r: Result<String, String>)
    ensures
        match r {
            Ok(p) => resolution.path == Some(p),
            Err(e) => resolution.path is None && e@ == "frpc binary path is unavailable."@,
        },
{
    match &resolution.path {
        Some(p) => Ok(p.clone()),
        None => Err(owned("frpc binary path is unavailable.")),
    }
}

// ---------------------------------------------------------------------
// Laws of the lifecycle
// ---------------------------------------------------------------------

/// Every occurrence that changes the tunnel's state.
pub enum RuntimeInput {
    Start(SettingsView),
    Launch,
    FailStart(Seq<char>),
    Stop,
    Cleanup,
    Signal(SignalView),
    MarkError(Seq<char>),
    ReadFailure(Seq<char>),
    Line(Seq<char>, Seq<char>),
    Exit(bool, Option<i32>),
    MonitorFailure(Seq<char>),
    TakeChild,
    RestoreChild,
}

/// The state after an occurrence.
pub open spec fn next(v: RuntimeView, input: RuntimeInput) -> RuntimeView {
    match input {
        RuntimeInput::Start(s) => start_step(v, s).0,
        RuntimeInput::Launch => launch_step(v).0,
        RuntimeInput::FailStart(e) => fail_start_step(v, e).0,
        RuntimeInput::Stop => stopped_state(),
        RuntimeInput::Cleanup => stopped_state(),
        RuntimeInput::Signal(sg) => signal_step(v, sg).0,
        RuntimeInput::MarkError(d) => mark_error_step(v, d).0,
        RuntimeInput::ReadFailure(e) => read_failure_step(v, e).0,
        RuntimeInput::Line(line, level) => line_step(v, line, level).0,
        RuntimeInput::Exit(success, code) => exit_step(v, success, code).0,
        RuntimeInput::MonitorFailure(e) => monitor_failure_step(v, e).0,
        RuntimeInput::TakeChild => RuntimeView { has_child: false, ..v },
        RuntimeInput::RestoreChild => RuntimeView { has_child: true, ..v },
    }
}

/// The tunnel is `Running` only when `frpc` confirmed both the login and the
/// Minecraft proxy.
pub open spec fn running_confirmed(v: RuntimeView) -> bool {
    v.status == TunnelStatusKind::Running ==> v.login_confirmed && v.proxy_confirmed
}

/// A controller that has not started anything is not `Running` unconfirmed.
pub proof fn law_fresh_is_not_running()
    ensures
        running_confirmed(fresh()),
        fresh().status == TunnelStatusKind::Stopped,
{
}

/// No occurrence makes the tunnel `Running` unless `frpc` confirmed both the
/// login and the Minecraft proxy: the property holds of every state that a
/// controller reaches.
pub proof fn law_running_only_when_confirmed(v: RuntimeView, input: RuntimeInput)
    requires
        running_confirmed(v),
    ensures
        running_confirmed(next(v, input)),
{
    match input {
        RuntimeInput::Line(line, level) => {
            if trim(line).len() != 0 {
                match classify(line) {
                    Some(sg) => {},
                    None => {},
                }
            }
        },
        _ => {},
    }
}

/// Once the login and the Minecraft proxy are both confirmed, in either
/// order, a tunnel that is not in `Error` and not being stopped is `Running`,
/// and that is reported.
pub proof fn law_confirmations_make_running(v: RuntimeView)
    requires
        !v.stop_requested,
        v.status != TunnelStatusKind::Error,
    ensures
        ({
            let proxy = SignalView::ProxyStarted { proxy_name: MINECRAFT_PROXY_NAME@ };
            let a = signal_step(signal_step(v, SignalView::LoginSuccess).0, proxy);
            let b = signal_step(signal_step(v, proxy).0, SignalView::LoginSuccess);
            &&& a.0.status == TunnelStatusKind::Running
            &&& b.0.status == TunnelStatusKind::Running
            &&& a.1.last() == status_event(
                TunnelStatusKind::Running,
                "Tunnel is live. Share the join address with your friends."@,
            )
            &&& b.1.last() == a.1.last()
        }),
{
}

/// A single signal never makes a tunnel `Running` that has neither
/// confirmation yet.
pub proof fn law_one_confirmation_is_not_enough(v: RuntimeView, sg: SignalView)
    requires
        running_confirmed(v),
        !v.login_confirmed,
        !v.proxy_confirmed,
    ensures
        signal_step(v, sg).0.status != TunnelStatusKind::Running,
{
}

/// A tunnel in `Error` stays in `Error` whatever `frpc` prints afterwards,
/// and whatever other error is noticed.
pub proof fn law_error_is_kept(v: RuntimeView, sg: SignalView, line: Seq<char>, level: Seq<char>, detail: Seq<char>)
    requires
        v.status == TunnelStatusKind::Error,
    ensures
        signal_step(v, sg).0.status == TunnelStatusKind::Error,
        line_step(v, line, level).0.status == TunnelStatusKind::Error,
        mark_error_step(v, detail).0.status == TunnelStatusKind::Error,
{
    if trim(line).len() != 0 {
        match classify(line) {
            Some(s) => {},
            None => {},
        }
    }
}

/// Once a stop was asked for, signals and noticed errors change nothing and
/// report nothing.
pub proof fn law_stop_silences_the_tunnel(v: RuntimeView, sg: SignalView, detail: Seq<char>)
    requires
        v.stop_requested,
    ensures
        signal_step(v, sg) == (v, Seq::<EventView>::empty()),
        mark_error_step(v, detail) == (v, Seq::<EventView>::empty()),
{
}

/// A stop always ends in `Stopped`, with no child and no configuration file,
/// whatever the state was.
pub proof fn law_stop_always_stops(v: RuntimeView)
    ensures
        next(v, RuntimeInput::Stop).status == TunnelStatusKind::Stopped,
        !next(v, RuntimeInput::Stop).has_child,
        !next(v, RuntimeInput::Stop).has_config,
        next(v, RuntimeInput::Cleanup) == next(v, RuntimeInput::Stop),
{
}

/// When `frpc` exits after a stop was asked for, the tunnel is `Stopped` and
/// nothing is reported: a stop is never reported as an error.
pub proof fn law_exit_after_stop_is_quiet(v: RuntimeView, success: bool, exit_code: Option<i32>)
    requires
        v.stop_requested,
    ensures
        exit_step(v, success, exit_code) == (
            ended_state(TunnelStatusKind::Stopped),
            Seq::<EventView>::empty(),
        ),
{
}

/// When `frpc` exits on its own, the tunnel ends `Stopped` exactly when the
/// exit was clean and the tunnel had been confirmed; otherwise it ends in
/// `Error`. Either way the child and its configuration file are gone.
pub proof fn law_exit_ends_the_tunnel(v: RuntimeView, success: bool, exit_code: Option<i32>)
    requires
        !v.stop_requested,
    ensures
        ({
            let w = exit_step(v, success, exit_code).0;
            &&& !w.has_child && !w.has_config && !w.login_confirmed && !w.proxy_confirmed
            &&& (w.status == TunnelStatusKind::Stopped) == (v.status != TunnelStatusKind::Error
                && success && v.login_confirmed && v.proxy_confirmed)
            &&& (w.status != TunnelStatusKind::Stopped ==> w.status == TunnelStatusKind::Error)
        }),
{
}

/// A start while a child runs is refused and changes nothing.
pub proof fn law_one_child_at_a_time(v: RuntimeView, s: SettingsView)
    requires
        v.has_child,
    ensures
        start_step(v, s).0 == v,
        start_step(v, s).1 is Err,
{
}

/// A start error or a failed login reported by `frpc` always puts a tunnel
/// that is not being stopped in `Error`, with the reported detail as its last
/// error, and that is logged as an error and then reported as the status,
/// whatever the tunnel's state was; nothing else about the state changes.
pub proof fn law_frpc_failures_are_reported(v: RuntimeView, detail: Seq<char>)
    requires
        !v.stop_requested,
    ensures
        signal_step(v, SignalView::StartError { detail }) == (
            RuntimeView { status: TunnelStatusKind::Error, last_error: Some(detail), ..v },
            seq![
                EventView::Log { level: "error"@, message: detail },
                EventView::Status { status: "Error"@, detail: Some(detail) },
            ],
        ),
        signal_step(v, SignalView::LoginFailed { detail }) == (
            RuntimeView { status: TunnelStatusKind::Error, last_error: Some(detail), ..v },
            seq![
                EventView::Log { level: "error"@, message: detail },
                EventView::Status { status: "Error"@, detail: Some(detail) },
            ],
        ),
{
    assert(opt_events(Some(log_event("error"@, detail))) + opt_events(
        Some(status_event(TunnelStatusKind::Error, detail)),
    ) =~= seq![
        EventView::Log { level: "error"@, message: detail },
        EventView::Status { status: "Error"@, detail: Some(detail) },
    ]);
}

/// A line of `frpc`'s output that signals a start error or a failed login
/// is logged as it is, and then the failure is logged as an error and
/// reported as the `Error` status, leaving the tunnel in `Error` with that
/// detail as its last error.
pub proof fn law_failure_lines_are_reported(
    v: RuntimeView,
    line: Seq<char>,
    level: Seq<char>,
    detail: Seq<char>,
)
    requires
        !v.stop_requested,
        trim(line).len() != 0,
        classify(line) == Some(SignalView::StartError { detail }) || classify(line) == Some(
            SignalView::LoginFailed { detail },
        ),
    ensures
        line_step(v, line, level) == (
            RuntimeView { status: TunnelStatusKind::Error, last_error: Some(detail), ..v },
            seq![
                EventView::Log { level, message: line },
                EventView::Log { level: "error"@, message: detail },
                EventView::Status { status: "Error"@, detail: Some(detail) },
            ],
        ),
{
    law_frpc_failures_are_reported(v, detail);
    let sg = classify(line)->0;
    assert(seq![log_event(level, line)] + signal_step(v, sg).1 =~= seq![
        EventView::Log { level, message: line },
        EventView::Log { level: "error"@, message: detail },
        EventView::Status { status: "Error"@, detail: Some(detail) },
    ]);
}

/// When `frpc` exits while no stop was asked for and the tunnel was not
/// already in `Error`, the exit is always reported: an outcome that is to be
/// reported is exactly one of those. The report is a log line, at `info`
/// for a `Stopped` tunnel and at `error` for an `Error`, followed by the
/// tunnel's new status.
pub proof fn law_unrequested_exit_is_reported(
    status_before_exit: TunnelStatusKind,
    stop_requested: bool,
    ready: bool,
    success: bool,
    exit_code: Option<i32>,
    last_error: Option<Seq<char>>,
)
    ensures
        exit_outcome(status_before_exit, stop_requested, ready, success, exit_code, last_error).should_emit
            == (!stop_requested && status_before_exit != TunnelStatusKind::Error),
        ({
            let o = exit_outcome(status_before_exit, stop_requested, ready, success, exit_code, last_error);
            &&& o.status == TunnelStatusKind::Stopped || o.status == TunnelStatusKind::Error
            &&& o.status == TunnelStatusKind::Stopped ==> o.log_level == "info"@
            &&& o.status == TunnelStatusKind::Error ==> o.log_level == "error"@ && o.log_message == o.detail
        }),
{
}

/// When `frpc` exits on its own while the tunnel is not in `Error`, the
/// tunnel's state afterwards is logged and then reported as its status: two
/// events, the second naming the new status. When a stop was asked for, or
/// the tunnel was already in `Error`, nothing is reported.
pub proof fn law_exit_reports(v: RuntimeView, success: bool, exit_code: Option<i32>)
    ensures
        !v.stop_requested && v.status != TunnelStatusKind::Error ==> {
            let (w, events) = exit_step(v, success, exit_code);
            &&& events.len() == 2
            &&& events[0] is Log
            &&& events[1] matches EventView::Status { status, .. } && status == status_name(w.status)
        },
        v.stop_requested || v.status == TunnelStatusKind::Error ==> exit_step(v, success, exit_code).1
            == Seq::<EventView>::empty(),
{
}

/// An accepted start always leaves a fresh `Starting` tunnel: no stop asked
/// for, no confirmation, no error, no child and no configuration file yet,
/// whatever the state before; in particular a start after a stop is not
/// silenced.
pub proof fn law_accepted_start_is_fresh(v: RuntimeView, s: SettingsView)
    requires
        start_step(v, s).1 is Ok,
    ensures
        !start_step(v, s).0.stop_requested,
        start_step(v, s).0.status == TunnelStatusKind::Starting,
        !start_step(v, s).0.login_confirmed,
        !start_step(v, s).0.proxy_confirmed,
        start_step(v, s).0.last_error is None,
        !start_step(v, s).0.has_child,
        !start_step(v, s).0.has_config,
{
}

/// A tunnel that was stopped and started again with valid settings, once
/// `frpc` is launched and confirms the login and then the Minecraft proxy,
/// is `Running`, and that is logged and reported.
pub proof fn law_restart_after_stop_runs(v: RuntimeView, s: SettingsView)
    requires
        start_error(s) is None,
    ensures
        ({
            let stopped = next(v, RuntimeInput::Stop);
            let started = start_step(stopped, s);
            let launched = launch_step(started.0).0;
            let logged_in = signal_step(launched, SignalView::LoginSuccess);
            let proxied = signal_step(
                logged_in.0,
                SignalView::ProxyStarted { proxy_name: MINECRAFT_PROXY_NAME@ },
            );
            &&& started.1 is Ok
            &&& proxied.0.status == TunnelStatusKind::Running
            &&& proxied.1 == seq![
                EventView::Log { level: "info"@, message: "Tunnel started."@ },
                EventView::Status {
                    status: "Running"@,
                    detail: Some("Tunnel is live. Share the join address with your friends."@),
                },
            ]
        }),
{
    let stopped = next(v, RuntimeInput::Stop);
    let launched = launch_step(start_step(stopped, s).0).0;
    law_confirmations_make_running(launched);
}

} // verus!
