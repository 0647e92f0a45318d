//! The decisions of the terminal front end: merging settings given on the
//! command line with the saved ones, masking the token, cleaning terminal
//! escape sequences out of `frpc` output, and the text it prints.
use vstd::prelude::*;
use crate::models::{
    opt_view, sanitize, trimmed_nonempty, FrpBinaryStatus, FrpcDownloadPayload, SettingsView,
    TunnelLogPayload, TunnelSettings, TunnelStatusKind, TunnelStatusPayload,
};
use crate::event_sink::{receives_in_order, AppEventSink, RecordedEvent};
use crate::process_manager::TunnelSnapshot;
use crate::text::{
    chars_of, clone_opt, decimal, lemma_trim_idempotent, owned, push_char, str_eq,
    string_of_range, trim, trim_bounds, trim_str, u16_decimal,
};

verus! {

// ---------------------------------------------------------------------
// Settings given on the command line
// ---------------------------------------------------------------------

/// Settings given on the command line; each one given replaces the saved one.
#[derive(Debug)]
pub struct SettingsOverrides {
    pub server_addr: Option<String>,
    pub server_port: Option<u16>,
    pub token: Option<String>,
    pub local_port: Option<u16>,
    pub remote_port: Option<u16>,
    pub frpc_path_override: Option<String>,
}

/// Overrides as mathematical values.
pub struct OverridesView {
    pub server_addr: Option<Seq<char>>,
    pub server_port: Option<u16>,
    pub token: Option<Seq<char>>,
    pub local_port: Option<u16>,
    pub remote_port: Option<u16>,
    pub frpc_path_override: Option<Seq<char>>,
}

impl View for SettingsOverrides {
    type V = OverridesView;

    open spec fn view(&self) -> OverridesView {
        OverridesView {
            server_addr: opt_view(self.server_addr),
            server_port: self.server_port,
            token: opt_view(self.token),
            local_port: self.local_port,
            remote_port: self.remote_port,
            frpc_path_override: opt_view(self.frpc_path_override),
        }
    }
}

impl Default for SettingsOverrides {
    fn default() -> (r: Self)
        ensures
            r@ == (OverridesView {
                server_addr: None,
                server_port: None,
                token: None,
                local_port: None,
                remote_port: None,
                frpc_path_override: None,
            }),
    {
        SettingsOverrides {
            server_addr: None,
            server_port: None,
            token: None,
            local_port: None,
            remote_port: None,
            frpc_path_override: None,
        }
    }
}

/// `given` when it is there, `saved` otherwise.
pub open spec fn pick<T>(given: Option<T>, saved: T) -> T {
    match given {
        Some(v) => v,
        None => saved,
    }
}

/// The saved settings with every given override in place; a cleared binary
/// override is dropped whatever was given for it.
pub open spec fn overridden(v: SettingsView, o: OverridesView, clear_frpc_path_override: bool) -> SettingsView {
    SettingsView {
        server_addr: pick(o.server_addr, v.server_addr),
        server_port: pick(o.server_port, v.server_port),
        token: pick(o.token, v.token),
        local_port: pick(o.local_port, v.local_port),
        remote_port: pick(o.remote_port, v.remote_port),
        frpc_path_override: if clear_frpc_path_override {
            None
        } else {
            match o.frpc_path_override {
                Some(p) => Some(p),
                None => v.frpc_path_override,
            }
        },
    }
}

/// Whether any setting was given.
pub open spec fn any_override(o: OverridesView) -> bool {
    ||| o.server_addr is Some
    ||| o.server_port is Some
    ||| o.token is Some
    ||| o.local_port is Some
    ||| o.remote_port is Some
    ||| o.frpc_path_override is Some
}

/// Whether any setting was given on the command line.
pub fn has_overrides(overrides: &SettingsOverrides) -> (r: bool)
    ensures
        r == any_override(overrides@),
{
    overrides.server_addr.is_some() || overrides.server_port.is_some() || overrides.token.is_some()
        || overrides.local_port.is_some() || overrides.remote_port.is_some()
        || overrides.frpc_path_override.is_some()
}

/// The saved settings with the given overrides in place, sanitized.
pub fn apply_overrides(
    settings: TunnelSettings,
    overrides: &SettingsOverrides,
    clear_frpc_path_override: bool,
) -> (r: TunnelSettings)
    ensures
        r@ == sanitize(overridden(settings@, overrides@, clear_frpc_path_override)),
{
    let mut settings = settings;
    match &overrides.server_addr {
        Some(server_addr) => settings.server_addr = server_addr.clone(),
        None => {},
    }
    match overrides.server_port {
        Some(server_port) => settings.server_port = server_port,
        None => {},
    }
    match &overrides.token {
        Some(token) => settings.token = token.clone(),
        None => {},
    }
    match overrides.local_port {
        Some(local_port) => settings.local_port = local_port,
        None => {},
    }
    match overrides.remote_port {
        Some(remote_port) => settings.remote_port = remote_port,
        None => {},
    }
    if clear_frpc_path_override {
        settings.frpc_path_override = None;
    } else {
        match &overrides.frpc_path_override {
            Some(frpc_path_override) => settings.frpc_path_override = Some(
                frpc_path_override.clone(),
            ),
            None => {},
        }
    }
    settings.sanitized()
}

/// Refuses to change the saved settings when nothing was given.
pub fn check_config_changes(overrides: &SettingsOverrides, clear_frpc_path_override: bool) -> (r:
    Result<(), String>)
    ensures
        r is Ok <==> (any_override(overrides@) || clear_frpc_path_override),
        r matches Err(e) ==> e@ == "No config changes were provided."@,
{
    if !has_overrides(overrides) && !clear_frpc_path_override {
        return Err(owned("No config changes were provided."));
    }
    Ok(())
}

/// The binary override to use: the one given on the command line, trimmed,
/// unless it is missing or blank; the saved one otherwise.
pub fn resolve_override_path(settings: &TunnelSettings, explicit_override: Option<String>) -> (r:
    Option<String>)
    ensures
        opt_view(r) == match trimmed_nonempty(opt_view(explicit_override)) {
            Some(p) => Some(p),
            None => settings@.frpc_path_override,
        },
{
    match explicit_override {
        Some(value) => {
            let trimmed = trim_str(value.as_str());
            if !trimmed.as_str().is_empty() {
                return Some(trimmed);
            }
        },
        None => {},
    }
    clone_opt(&settings.frpc_path_override)
}

// ---------------------------------------------------------------------
// Masking the token
// ---------------------------------------------------------------------

/// `n` asterisks.
pub open spec fn stars(n: nat) -> Seq<char> {
    Seq::new(n, |i: int| '*')
}

/// The token as shown: `<not set>` when it is blank; otherwise every
/// character of the trimmed token but the last four is shown as `*`, and
/// the last four characters are shown as they are.
pub open spec fn masked(token: Seq<char>) -> Seq<char> {
    let t = trim(token);
    if t.len() == 0 {
        "<not set>"@
    } else if t.len() <= 4 {
        stars(t.len())
    } else {
        stars((t.len() - 4) as nat) + t.subrange(t.len() - 4, t.len() as int)
    }
}

fn push_stars(s: &mut String, n: usize)
    ensures
        final(s)@ == old(s)@ + stars(n as nat),
{
    let mut i: usize = 0;
    while i < n
        invariant
            i <= n,
            s@ == old(s)@ + stars(i as nat),
        decreases n - i,
    {
        push_char(s, '*');
        assert(old(s)@ + stars((i + 1) as nat) =~= (old(s)@ + stars(i as nat)).push('*'));
        i = i + 1;
    }
}

/// The token as shown: all but its last four characters hidden.
pub fn mask_token(token: &str) -> (r: String)
    ensures
        r@ == masked(token@),
{
    let all = chars_of(token);
    let (lo, hi) = trim_bounds(&all);
    let n = hi - lo;
    if n == 0 {
        return owned("<not set>");
    }
    let mut r = String::new();
    if n <= 4 {
        push_stars(&mut r, n);
        assert(r@ =~= masked(token@));
        return r;
    }
    push_stars(&mut r, n - 4);
    let tail = string_of_range(&all, hi - 4, hi);
    r.append(tail.as_str());
    assert(trim(token@).subrange(n - 4, n as int) =~= all@.subrange(hi - 4, hi as int));
    r
}

// ---------------------------------------------------------------------
// Terminal escape sequences
// ---------------------------------------------------------------------

/// The escape character that starts a terminal control sequence.
pub open spec fn is_escape(c: char) -> bool {
    c as u32 == 0x1b
}

/// A character that ends a control sequence (`@` to `~`).
pub open spec fn ends_sequence(c: char) -> bool {
    0x40 <= c as u32 <= 0x7e
}

/// Where the control sequence whose parameters begin at `i` ends: just after
/// its final character, or at the end of `s`.
pub open spec fn sequence_end(s: Seq<char>, i: int) -> int
    decreases s.len() - i,
{
    if i < 0 || i >= s.len() {
        s.len() as int
    } else if ends_sequence(s[i]) {
        i + 1
    } else {
        sequence_end(s, i + 1)
    }
}

pub proof fn lemma_sequence_end_after(s: Seq<char>, i: int)
    requires
        0 <= i,
    ensures
        i < sequence_end(s, i) || (i >= s.len() && sequence_end(s, i) == s.len()),
        sequence_end(s, i) <= s.len() || i > s.len(),
    decreases s.len() - i,
{
    if i < s.len() && !ends_sequence(s[i]) {
        lemma_sequence_end_after(s, i + 1);
    }
}

/// `s` from position `i` on, without its `ESC [` control sequences.
pub open spec fn strip_from(s: Seq<char>, i: int) -> Seq<char>
    decreases s.len() - i,
{
    if i < 0 || i >= s.len() {
        seq![]
    } else if is_escape(s[i]) && i + 1 < s.len() && s[i + 1] == '[' {
        proof {
            lemma_sequence_end_after(s, i + 2);
        }
        strip_from(s, sequence_end(s, i + 2))
    } else {
        seq![s[i]] + strip_from(s, i + 1)
    }
}

/// `s` without its `ESC [` control sequences (each running to its final
/// character `@`..`~`, or to the end), trimmed.
pub open spec fn strip_ansi_spec(s: Seq<char>) -> Seq<char> {
    trim(strip_from(s, 0))
}

/// `value` without terminal control sequences, trimmed.
pub fn strip_ansi(value: &str) -> (r: String)
    ensures
        r@ == strip_ansi_spec(value@),
{
    let s = chars_of(value);
    let mut cleaned: Vec<char> = Vec::new();
    let mut i: usize = 0;
    while i < s.len()
        invariant
            i <= s@.len(),
            cleaned@ + strip_from(s@, i as int) == strip_from(s@, 0),
        decreases s@.len() - i,
    {
        let ch = s[i];
        if ch as u32 == 0x1b && i + 1 < s.len() && s[i + 1] == '[' {
            let mut j = i + 2;
            proof {
                lemma_sequence_end_after(s@, (i + 2) as int);
            }
            while j < s.len() && !(0x40 <= s[j] as u32 && s[j] as u32 <= 0x7e)
                invariant
                    i + 2 <= j <= s@.len(),
                    sequence_end(s@, (i + 2) as int) == sequence_end(s@, j as int),
                decreases s@.len() - j,
            {
                j = j + 1;
            }
            if j < s.len() {
                j = j + 1;
            }
            i = j;
        } else {
            let ghost before = cleaned@;
            cleaned.push(ch);
            assert(before + strip_from(s@, i as int) =~= cleaned@ + strip_from(s@, i + 1));
            i = i + 1;
        }
    }
    assert(cleaned@ =~= strip_from(s@, 0));
    let (lo, hi) = trim_bounds(&cleaned);
    string_of_range(&cleaned, lo, hi)
}

// ---------------------------------------------------------------------
// Small text helpers
// ---------------------------------------------------------------------

/// `value`, or `fallback` when `value` is empty.
pub fn empty_fallback<'a>(value: &'a str, fallback: &'a str) -> (r: &'a str)
    ensures
        r@ == if value@.len() == 0 {
            fallback@
        } else {
            value@
        },
{
    if value.is_empty() {
        fallback
    } else {
        value
    }
}

/// `yes` or `no`.
pub fn yes_no(value: bool) -> (r: &'static str)
    ensures
        r@ == if value {
            "yes"@
        } else {
            "no"@
        },
{
    if value {
        "yes"
    } else {
        "no"
    }
}

// ---------------------------------------------------------------------
// What the terminal front end prints
// ---------------------------------------------------------------------

/// The views of lines of text.
pub open spec fn lines_view(lines: Seq<String>) -> Seq<Seq<char>> {
    lines.map_values(|l: String| l@)
}

/// The address friends join: `<server>:<remote port>`.
pub open spec fn join_address_of(v: SettingsView) -> Seq<char> {
    v.server_addr + ":"@ + decimal(v.remote_port as nat)
}

/// The address friends join.
pub fn join_address(settings: &TunnelSettings) -> (r: String)
    ensures
        r@ == join_address_of(settings@),
{
    let mut r = settings.server_addr.clone();
    r.append(":");
    r.append(u16_decimal(settings.remote_port).as_str());
    r
}

/// What is printed before a tunnel starts.
pub open spec fn start_banner_of(v: SettingsView) -> Seq<Seq<char>> {
    seq![
        "Server: "@ + v.server_addr + ":"@ + decimal(v.server_port as nat),
        "Tunnel: 127.0.0.1:"@ + decimal(v.local_port as nat) + " -> "@ + v.server_addr + ":"@
            + decimal(v.remote_port as nat),
        "Press Ctrl+C to stop."@,
    ]
}

/// What is printed before a tunnel starts.
pub fn start_banner(settings: &TunnelSettings) -> (r: Vec<String>)
    ensures
        lines_view(r@) == start_banner_of(settings@),
{
    let mut server = owned("Server: ");
    server.append(settings.server_addr.as_str());
    server.append(":");
    server.append(u16_decimal(settings.server_port).as_str());
    let mut tunnel = owned("Tunnel: 127.0.0.1:");
    tunnel.append(u16_decimal(settings.local_port).as_str());
    tunnel.append(" -> ");
    tunnel.append(settings.server_addr.as_str());
    tunnel.append(":");
    tunnel.append(u16_decimal(settings.remote_port).as_str());
    let r = vec![server, tunnel, owned("Press Ctrl+C to stop.")];
    assert(lines_view(r@) =~= start_banner_of(settings@));
    r
}

/// The settings as printed, sanitized: the token is masked unless
/// `show_token`, and blank values read `<not set>` or `<auto>`.
pub open spec fn settings_lines_of(v: SettingsView, show_token: bool) -> Seq<Seq<char>> {
    let s = sanitize(v);
    seq![
        "server_addr: "@ + if s.server_addr.len() == 0 {
            "<not set>"@
        } else {
            s.server_addr
        },
        "server_port: "@ + decimal(s.server_port as nat),
        "token: "@ + if show_token {
            if s.token.len() == 0 {
                "<not set>"@
            } else {
                s.token
            }
        } else {
            masked(s.token)
        },
        "local_port: "@ + decimal(s.local_port as nat),
        "remote_port: "@ + decimal(s.remote_port as nat),
        "frpc_path_override: "@ + match s.frpc_path_override {
            Some(p) => if p.len() == 0 {
                "<auto>"@
            } else {
                p
            },
            None => "<auto>"@,
        },
    ]
}

fn prefixed(prefix: &str, value: &str) -> (r: String)
    ensures
        r@ == prefix@ + value@,
{
    let mut r = owned(prefix);
    r.append(value);
    r
}

/// The settings as printed.
pub fn settings_lines(settings: &TunnelSettings, show_token: bool) -> (r: Vec<String>)
    ensures
        lines_view(r@) == settings_lines_of(settings@, show_token),
{
    let sanitized = settings.sanitized();
    proof {
        lemma_trim_idempotent(settings@.token);
    }
    let token_display = if show_token {
        owned(empty_fallback(sanitized.token.as_str(), "<not set>"))
    } else {
        mask_token(sanitized.token.as_str())
    };
    let override_display = match &sanitized.frpc_path_override {
        Some(p) => owned(empty_fallback(p.as_str(), "<auto>")),
        None => owned("<auto>"),
    };
    let r = vec![
        prefixed("server_addr: ", empty_fallback(sanitized.server_addr.as_str(), "<not set>")),
        prefixed("server_port: ", u16_decimal(sanitized.server_port).as_str()),
        prefixed("token: ", token_display.as_str()),
        prefixed("local_port: ", u16_decimal(sanitized.local_port).as_str()),
        prefixed("remote_port: ", u16_decimal(sanitized.remote_port).as_str()),
        prefixed("frpc_path_override: ", override_display.as_str()),
    ];
    assert(lines_view(r@) =~= settings_lines_of(settings@, show_token));
    r
}

/// A line printed on the terminal, on standard error or standard output.
pub struct ConsoleLine {
    pub to_stderr: bool,
    pub text: String,
}

/// The views of printed lines: whether each goes to standard error, and its
/// text.
pub open spec fn console_view(lines: Seq<ConsoleLine>) -> Seq<(bool, Seq<char>)> {
    lines.map_values(|l: ConsoleLine| (l.to_stderr, l.text@))
}

/// What the terminal front end remembers of the events it printed: the join
/// address to announce, whether it was announced, and the last error
/// reported.
pub struct ConsoleState {
    join_address: Option<String>,
    running_announced: bool,
    latest_error_detail: Option<String>,
}

/// The terminal front end's memory as mathematical values.
pub struct ConsoleView {
    pub join_address: Option<Seq<char>>,
    pub running_announced: bool,
    pub latest_error_detail: Option<Seq<char>>,
}

impl View for ConsoleState {
    type V = ConsoleView;

    closed spec fn view(&self) -> ConsoleView {
        ConsoleView {
            join_address: opt_view(self.join_address),
            running_announced: self.running_announced,
            latest_error_detail: opt_view(self.latest_error_detail),
        }
    }
}

/// A status's explanation as printed: cleaned of control sequences, and
/// dropped when nothing is left.
pub open spec fn shown_detail(detail: Option<Seq<char>>) -> Option<Seq<char>> {
    match detail {
        Some(d) => if strip_ansi_spec(d).len() == 0 {
            None
        } else {
            Some(strip_ansi_spec(d))
        },
        None => None,
    }
}

/// Printing a status change: the line `[status] <status>`, followed by
/// ` - <detail>` when there is one; an error's detail is remembered; the
/// first `Running` is followed by the join address, once.
pub open spec fn status_printed(c: ConsoleView, status: Seq<char>, detail: Option<Seq<char>>) -> (
    ConsoleView,
    Seq<(bool, Seq<char>)>,
) {
    let d = shown_detail(detail);
    let line = match d {
        Some(text) => "[status] "@ + status + " - "@ + text,
        None => "[status] "@ + status,
    };
    let latest = if status == "Error"@ {
        d
    } else {
        c.latest_error_detail
    };
    if status == "Running"@ && !c.running_announced {
        (
            ConsoleView { running_announced: true, latest_error_detail: latest, ..c },
            match c.join_address {
                Some(j) => seq![(false, line), (false, "[join] "@ + j)],
                None => seq![(false, line)],
            },
        )
    } else {
        (ConsoleView { latest_error_detail: latest, ..c }, seq![(false, line)])
    }
}

impl ConsoleState {
    /// A terminal front end that will announce `join_address` once the
    /// tunnel runs.
    pub fn new(join_address: Option<String>) -> (r: Self)
        ensures
            r@ == (ConsoleView {
                join_address: opt_view(join_address),
                running_announced: false,
                latest_error_detail: None,
            }),
    {
        ConsoleState { join_address, running_announced: false, latest_error_detail: None }
    }

    /// The last error detail printed.
    pub fn latest_error_detail(&self) -> (r: Option<String>)
        ensures
            opt_view(r) == self@.latest_error_detail,
    {
        clone_opt(&self.latest_error_detail)
    }

    /// The lines that print a status change.
    pub fn status_lines(&mut self, payload: &TunnelStatusPayload) -> (r: Vec<ConsoleLine>)
        ensures
            (final(self)@, console_view(r@)) == status_printed(
                old(self)@,
                payload.status@,
                opt_view(payload.detail),
            ),
    {
        let detail = match &payload.detail {
            Some(d) => {
                let cleaned = strip_ansi(d.as_str());
                if cleaned.as_str().is_empty() {
                    None
                } else {
                    Some(cleaned)
                }
            },
            None => None,
        };
        if str_eq(payload.status.as_str(), "Error") {
            self.latest_error_detail = clone_opt(&detail);
        }
        let mut line = owned("[status] ");
        line.append(payload.status.as_str());
        match &detail {
            Some(d) => {
                line.append(" - ");
                line.append(d.as_str());
            },
            None => {},
        }
        let mut r = vec![ConsoleLine { to_stderr: false, text: line }];
        if str_eq(payload.status.as_str(), "Running") && !self.running_announced {
            match &self.join_address {
                Some(j) => r.push(ConsoleLine { to_stderr: false, text: prefixed("[join] ", j.as_str()) }),
                None => {},
            }
            self.running_announced = true;
        }
        assert(console_view(r@) =~= status_printed(old(self)@, payload.status@, opt_view(payload.detail)).1);
        r
    }
}

/// The line that prints a log line: `[<level>] <message>`, the message
/// cleaned of control sequences, on standard error for `error` and `warn`.
pub fn log_line(payload: &TunnelLogPayload) -> (r: ConsoleLine)
    ensures
        r.to_stderr == (payload.level@ == "error"@ || payload.level@ == "warn"@),
        r.text@ == "["@ + payload.level@ + "] "@ + strip_ansi_spec(payload.message@),
{
    let message = strip_ansi(payload.message.as_str());
    let mut text = owned("[");
    text.append(payload.level.as_str());
    text.append("] ");
    text.append(message.as_str());
    let to_stderr = str_eq(payload.level.as_str(), "error") || str_eq(payload.level.as_str(), "warn");
    ConsoleLine { to_stderr, text }
}

/// The lines that print a download step: `[frpc:<stage>] <message>`, then
/// `[frpc:path] <path>` when there is a path.
pub fn download_lines(payload: &FrpcDownloadPayload) -> (r: Vec<ConsoleLine>)
    ensures
        console_view(r@) == seq![(false, "[frpc:"@ + payload.stage@ + "] "@ + payload.message@)]
            + match payload.path {
            Some(p) => seq![(false, "[frpc:path] "@ + p@)],
            None => Seq::<(bool, Seq<char>)>::empty(),
        },
{
    let mut text = owned("[frpc:");
    text.append(payload.stage.as_str());
    text.append("] ");
    text.append(payload.message.as_str());
    let mut r = vec![ConsoleLine { to_stderr: false, text }];
    match &payload.path {
        Some(p) => r.push(ConsoleLine { to_stderr: false, text: prefixed("[frpc:path] ", p.as_str()) }),
        None => {},
    }
    assert(console_view(r@) =~= seq![(false, "[frpc:"@ + payload.stage@ + "] "@ + payload.message@)]
        + match payload.path {
        Some(p) => seq![(false, "[frpc:path] "@ + p@)],
        None => Seq::<(bool, Seq<char>)>::empty(),
    });
    r
}

/// A receiver that turns events into the lines the terminal front end
/// prints, kept until they are taken.
pub struct ConsoleEventSink {
    state: ConsoleState,
    pending: Vec<ConsoleLine>,
}

impl ConsoleEventSink {
    /// What the receiver remembers of the events.
    pub closed spec fn memory(&self) -> ConsoleView {
        self.state@
    }

    /// The lines not yet taken.
    pub closed spec fn pending(&self) -> Seq<(bool, Seq<char>)> {
        console_view(self.pending@)
    }

    /// A receiver that will announce `join_address` once the tunnel runs.
    pub fn new(join_address: Option<String>) -> (r: Self)
        ensures
            r.memory() == (ConsoleView {
                join_address: opt_view(join_address),
                running_announced: false,
                latest_error_detail: None,
            }),
            r.pending() == Seq::<(bool, Seq<char>)>::empty(),
    {
        let r = ConsoleEventSink { state: ConsoleState::new(join_address), pending: Vec::new() };
        assert(console_view(r.pending@) =~= Seq::<(bool, Seq<char>)>::empty());
        r
    }

    /// The last error detail printed.
    pub fn latest_error_detail(&self) -> (r: Option<String>)
        ensures
            opt_view(r) == self.memory().latest_error_detail,
    {
        self.state.latest_error_detail()
    }

    /// Takes the lines to print, in order.
    pub fn take_lines(&mut self) -> (r: Vec<ConsoleLine>)
        ensures
            console_view(r@) == old(self).pending(),
            final(self).pending() == Seq::<(bool, Seq<char>)>::empty(),
            final(self).memory() == old(self).memory(),
    {
        let mut r: Vec<ConsoleLine> = Vec::new();
        std::mem::swap(&mut r, &mut self.pending);
        assert(console_view(self.pending@) =~= Seq::<(bool, Seq<char>)>::empty());
        r
    }

    fn queue(&mut self, lines: Vec<ConsoleLine>)
        ensures
            final(self).pending() == old(self).pending() + console_view(lines@),
            final(self).memory() == old(self).memory(),
    {
        let mut lines = lines;
        let ghost before = self.pending@;
        let ghost added = lines@;
        self.pending.append(&mut lines);
        assert(console_view(self.pending@) =~= console_view(before) + console_view(added));
    }
}

impl AppEventSink for ConsoleEventSink {
    /// A status change is remembered and printed as `status_printed` says;
    /// a log line is printed as one line, a download step as the lines of
    /// `download_lines`, and neither changes what is remembered.
    open spec fn receives(before: &Self, after: &Self, event: RecordedEvent) -> bool {
        match event {
            RecordedEvent::Status(p) => {
                let printed = status_printed(before.memory(), p.status@, opt_view(p.detail));
                &&& after.memory() == printed.0
                &&& after.pending() == before.pending() + printed.1
            },
            RecordedEvent::Log(p) => {
                &&& after.memory() == before.memory()
                &&& after.pending() == before.pending().push(
                    (
                        p.level@ == "error"@ || p.level@ == "warn"@,
                        "["@ + p.level@ + "] "@ + strip_ansi_spec(p.message@),
                    ),
                )
            },
            RecordedEvent::Download(p) => {
                &&& after.memory() == before.memory()
                &&& after.pending() == before.pending() + seq![
                    (false, "[frpc:"@ + p.stage@ + "] "@ + p.message@),
                ] + match p.path {
                    Some(path) => seq![(false, "[frpc:path] "@ + path@)],
                    None => Seq::<(bool, Seq<char>)>::empty(),
                }
            },
        }
    }

    fn emit_status(&mut self, payload: TunnelStatusPayload)
        ensures
            final(self).memory() == status_printed(
                old(self).memory(),
                payload.status@,
                opt_view(payload.detail),
            ).0,
            final(self).pending() == old(self).pending() + status_printed(
                old(self).memory(),
                payload.status@,
                opt_view(payload.detail),
            ).1,
    {
        let lines = self.state.status_lines(&payload);
        self.queue(lines);
    }

    fn emit_log(&mut self, payload: TunnelLogPayload)
        ensures
            final(self).memory() == old(self).memory(),
            final(self).pending() == old(self).pending().push(
                (
                    payload.level@ == "error"@ || payload.level@ == "warn"@,
                    "["@ + payload.level@ + "] "@ + strip_ansi_spec(payload.message@),
                ),
            ),
    {
        let line = log_line(&payload);
        let ghost shown = (line.to_stderr, line.text@);
        self.queue(vec![line]);
        assert(console_view(seq![line]) =~= seq![shown]);
        assert(self.pending() =~= old(self).pending().push(
            (
                payload.level@ == "error"@ || payload.level@ == "warn"@,
                "["@ + payload.level@ + "] "@ + strip_ansi_spec(payload.message@),
            ),
        ));
    }

    fn emit_download(&mut self, payload: FrpcDownloadPayload)
        ensures
            final(self).memory() == old(self).memory(),
            final(self).pending() == old(self).pending() + seq![
                (false, "[frpc:"@ + payload.stage@ + "] "@ + payload.message@),
            ] + match payload.path {
                Some(p) => seq![(false, "[frpc:path] "@ + p@)],
                None => Seq::<(bool, Seq<char>)>::empty(),
            },
    {
        let lines = download_lines(&payload);
        self.queue(lines);
        assert(old(self).pending() + (seq![(false, "[frpc:"@ + payload.stage@ + "] "@ + payload.message@)]
            + match payload.path {
            Some(p) => seq![(false, "[frpc:path] "@ + p@)],
            None => Seq::<(bool, Seq<char>)>::empty(),
        }) =~= old(self).pending() + seq![(false, "[frpc:"@ + payload.stage@ + "] "@ + payload.message@)]
            + match payload.path {
            Some(p) => seq![(false, "[frpc:path] "@ + p@)],
            None => Seq::<(bool, Seq<char>)>::empty(),
        });
    }
}

/// What waiting for a tunnel decides after looking at its state.
pub enum WaitStep {
    /// Keep waiting.
    Wait,
    /// The tunnel is over, with this result.
    Done(Result<(), String>),
}

/// After looking at the tunnel: keep waiting while a child runs or the
/// tunnel is starting or running; otherwise done, cleanly when `Stopped`,
/// and in `Error` with the last error printed, else the last error kept,
/// else an unknown error.
pub fn after_snapshot(snapshot: &TunnelSnapshot, latest_error_detail: Option<String>) -> (r: WaitStep)
    ensures
        snapshot.has_child ==> r is Wait,
        !snapshot.has_child && snapshot.status == TunnelStatusKind::Stopped ==> r matches WaitStep::Done(Ok(())),
        !snapshot.has_child && (snapshot.status == TunnelStatusKind::Starting || snapshot.status == TunnelStatusKind::Running) ==> r is Wait,
        !snapshot.has_child && snapshot.status == TunnelStatusKind::Error ==> (r matches WaitStep::Done(Err(e)) && e@ == match latest_error_detail {
            Some(d) => d@,
            None => match snapshot.last_error {
                Some(l) => l@,
                None => "Tunnel exited with an unknown error."@,
            },
        }),
{
    if snapshot.has_child {
        return WaitStep::Wait;
    }
    match snapshot.status {
        TunnelStatusKind::Stopped => WaitStep::Done(Ok(())),
        TunnelStatusKind::Error => {
            let detail = match latest_error_detail {
                Some(d) => d,
                None => match &snapshot.last_error {
                    Some(l) => l.clone(),
                    None => owned("Tunnel exited with an unknown error."),
                },
            };
            WaitStep::Done(Err(detail))
        },
        _ => WaitStep::Wait,
    }
}

/// What probing prints: readiness, version, source, path and message.
pub fn probe_lines(probe: &FrpBinaryStatus) -> (r: Vec<String>)
    ensures
        lines_view(r@) == seq![
            "frpc ready: "@ + if probe.ready { "yes"@ } else { "no"@ },
            "version: "@ + probe.version@,
            "source: "@ + match probe.source { Some(s) => s@, None => "none"@ },
            "path: "@ + match probe.path { Some(p) => p@, None => "<not available>"@ },
            "message: "@ + probe.display_message@,
        ],
{
    let source = match &probe.source {
        Some(s) => s.clone(),
        None => owned("none"),
    };
    let path = match &probe.path {
        Some(p) => p.clone(),
        None => owned("<not available>"),
    };
    let r = vec![
        prefixed("frpc ready: ", yes_no(probe.ready)),
        prefixed("version: ", probe.version.as_str()),
        prefixed("source: ", source.as_str()),
        prefixed("path: ", path.as_str()),
        prefixed("message: ", probe.display_message.as_str()),
    ];
    assert(lines_view(r@) =~= seq![
        "frpc ready: "@ + if probe.ready { "yes"@ } else { "no"@ },
        "version: "@ + probe.version@,
        "source: "@ + match probe.source { Some(s) => s@, None => "none"@ },
        "path: "@ + match probe.path { Some(p) => p@, None => "<not available>"@ },
        "message: "@ + probe.display_message@,
    ]);
    r
}

/// What making `frpc` available prints: readiness and path.
pub fn ensure_lines(resolution: &FrpBinaryStatus) -> (r: Vec<String>)
    ensures
        lines_view(r@) == seq![
            "frpc ready: "@ + if resolution.ready { "yes"@ } else { "no"@ },
            "path: "@ + match resolution.path { Some(p) => p@, None => "<not available>"@ },
        ],
{
    let path = match &resolution.path {
        Some(p) => p.clone(),
        None => owned("<not available>"),
    };
    let r = vec![
        prefixed("frpc ready: ", yes_no(resolution.ready)),
        prefixed("path: ", path.as_str()),
    ];
    assert(lines_view(r@) =~= seq![
        "frpc ready: "@ + if resolution.ready { "yes"@ } else { "no"@ },
        "path: "@ + match resolution.path { Some(p) => p@, None => "<not available>"@ },
    ]);
    r
}

// ---------------------------------------------------------------------
// Laws of the terminal front end
// ---------------------------------------------------------------------

/// The line that prints a status change: `[status] <status>`, followed by
/// ` - <detail>` when there is a detail to show.
pub open spec fn status_line(status: Seq<char>, detail: Option<Seq<char>>) -> (bool, Seq<char>) {
    match shown_detail(detail) {
        Some(text) => (false, "[status] "@ + status + " - "@ + text),
        None => (false, "[status] "@ + status),
    }
}

/// The status lines of `statuses`, one each, in order.
pub open spec fn plain_status_lines(statuses: Seq<(Seq<char>, Option<Seq<char>>)>) -> Seq<
    (bool, Seq<char>),
> {
    statuses.map_values(|s: (Seq<char>, Option<Seq<char>>)| status_line(s.0, s.1))
}

/// The line that announces `join_address`, when there is one.
pub open spec fn join_lines(join_address: Option<Seq<char>>) -> Seq<(bool, Seq<char>)> {
    match join_address {
        Some(j) => seq![(false, "[join] "@ + j)],
        None => Seq::<(bool, Seq<char>)>::empty(),
    }
}

/// What is remembered and printed after the status changes `statuses`, in
/// order, starting from `c`.
pub open spec fn statuses_printed(
    c: ConsoleView,
    statuses: Seq<(Seq<char>, Option<Seq<char>>)>,
) -> (ConsoleView, Seq<(bool, Seq<char>)>)
    decreases statuses.len(),
{
    if statuses.len() == 0 {
        (c, Seq::<(bool, Seq<char>)>::empty())
    } else {
        let before = statuses_printed(c, statuses.drop_last());
        let step = status_printed(before.0, statuses.last().0, statuses.last().1);
        (step.0, before.1 + step.1)
    }
}

/// `k` is the place of the first `Running` among `statuses`.
pub open spec fn first_running(statuses: Seq<(Seq<char>, Option<Seq<char>>)>, k: int) -> bool {
    &&& 0 <= k < statuses.len()
    &&& statuses[k].0 == "Running"@
    &&& forall|i: int| 0 <= i < k ==> statuses[i].0 != "Running"@
}

proof fn lemma_plain_push(s: Seq<(Seq<char>, Option<Seq<char>>)>)
    requires
        s.len() > 0,
    ensures
        plain_status_lines(s) == plain_status_lines(s.drop_last()).push(
            status_line(s.last().0, s.last().1),
        ),
{
    assert(plain_status_lines(s) =~= plain_status_lines(s.drop_last()).push(
        status_line(s.last().0, s.last().1),
    ));
}

/// Printing status changes keeps the join address; once `Running` has been
/// announced, each change prints its status line alone.
proof fn lemma_statuses_after_announced(c: ConsoleView, s: Seq<(Seq<char>, Option<Seq<char>>)>)
    requires
        c.running_announced,
    ensures
        statuses_printed(c, s).0.running_announced,
        statuses_printed(c, s).0.join_address == c.join_address,
        statuses_printed(c, s).1 == plain_status_lines(s),
    decreases s.len(),
{
    if s.len() == 0 {
        assert(plain_status_lines(s) =~= Seq::<(bool, Seq<char>)>::empty());
    } else {
        lemma_statuses_after_announced(c, s.drop_last());
        lemma_plain_push(s);
    }
}

proof fn lemma_statuses_before_announced(c: ConsoleView, s: Seq<(Seq<char>, Option<Seq<char>>)>)
    requires
        !c.running_announced,
    ensures
        statuses_printed(c, s).0.join_address == c.join_address,
        (forall|i: int| 0 <= i < s.len() ==> s[i].0 != "Running"@) ==> {
            &&& !statuses_printed(c, s).0.running_announced
            &&& statuses_printed(c, s).1 == plain_status_lines(s)
        },
        forall|k: int| first_running(s, k) ==> {
            &&& statuses_printed(c, s).0.running_announced
            &&& statuses_printed(c, s).1 == plain_status_lines(s.take(k + 1)) + join_lines(
                c.join_address,
            ) + plain_status_lines(s.skip(k + 1))
        },
    decreases s.len(),
{
    if s.len() == 0 {
        assert(plain_status_lines(s) =~= Seq::<(bool, Seq<char>)>::empty());
    } else {
        let p = s.drop_last();
        let n = s.len() - 1;
        lemma_statuses_before_announced(c, p);
        lemma_plain_push(s);
        let before = statuses_printed(c, p);
        assert forall|k: int| first_running(s, k) implies {
            &&& statuses_printed(c, s).0.running_announced
            &&& statuses_printed(c, s).1 == plain_status_lines(s.take(k + 1)) + join_lines(
                c.join_address,
            ) + plain_status_lines(s.skip(k + 1))
        } by {
            if k < n {
                assert(first_running(p, k)) by {
                    assert forall|i: int| 0 <= i < k implies p[i].0 != "Running"@ by {
                        assert(p[i] == s[i]);
                    }
                    assert(p[k] == s[k]);
                }
                assert(p.take(k + 1) =~= s.take(k + 1));
                assert(s.skip(k + 1).drop_last() =~= p.skip(k + 1));
                assert(s.skip(k + 1).last() == s.last());
                lemma_plain_push(s.skip(k + 1));
                assert(statuses_printed(c, s).1 =~= plain_status_lines(s.take(k + 1)) + join_lines(
                    c.join_address,
                ) + plain_status_lines(s.skip(k + 1)));
            } else {
                assert forall|i: int| 0 <= i < p.len() implies p[i].0 != "Running"@ by {
                    assert(p[i] == s[i]);
                }
                assert(s.take(k + 1) =~= s);
                assert(s.skip(k + 1) =~= Seq::<(Seq<char>, Option<Seq<char>>)>::empty());
                assert(plain_status_lines(s.skip(k + 1)) =~= Seq::<(bool, Seq<char>)>::empty());
                assert(statuses_printed(c, s).1 =~= plain_status_lines(s.take(k + 1)) + join_lines(
                    c.join_address,
                ) + plain_status_lines(s.skip(k + 1)));
            }
        }
        if forall|i: int| 0 <= i < s.len() ==> s[i].0 != "Running"@ {
            assert forall|i: int| 0 <= i < p.len() implies p[i].0 != "Running"@ by {
                assert(p[i] == s[i]);
            }
        }
    }
}

/// What a receiver that prints to the terminal makes of status changes
/// received one after another: what it remembers and prints follows
/// `statuses_printed`.
proof fn lemma_console_receives_statuses(
    before: &ConsoleEventSink,
    after: &ConsoleEventSink,
    events: Seq<RecordedEvent>,
)
    requires
        receives_in_order(before, after, events),
        forall|i: int| 0 <= i < events.len() ==> #[trigger] events[i] is Status,
    ensures
        after.memory() == statuses_printed(before.memory(), status_changes(events)).0,
        after.pending() == before.pending() + statuses_printed(before.memory(), status_changes(events)).1,
    decreases events.len(),
{
    if events.len() == 0 {
        assert(before.pending() + Seq::<(bool, Seq<char>)>::empty() =~= before.pending());
    } else {
        let mid = choose|mid: &ConsoleEventSink|
            receives_in_order(before, mid, events.drop_last()) && #[trigger] ConsoleEventSink::receives(
                mid,
                after,
                events.last(),
            );
        assert forall|i: int| 0 <= i < events.drop_last().len() implies #[trigger] events.drop_last()[i] is Status by {
            assert(events.drop_last()[i] == events[i]);
        }
        lemma_console_receives_statuses(before, mid, events.drop_last());
        assert(events[events.len() - 1] is Status);
        assert(status_changes(events).drop_last() =~= status_changes(events.drop_last()));
        let pm = statuses_printed(before.memory(), status_changes(events.drop_last()));
        let step = status_printed(pm.0, status_changes(events).last().0, status_changes(events).last().1);
        assert(after.pending() =~= before.pending() + (pm.1 + step.1));
    }
}

/// The status changes among `events`, each as its status and detail.
pub open spec fn status_changes(events: Seq<RecordedEvent>) -> Seq<(Seq<char>, Option<Seq<char>>)> {
    events.map_values(
        |e: RecordedEvent|
            match e {
                RecordedEvent::Status(p) => (p.status@, opt_view(p.detail)),
                _ => (Seq::<char>::empty(), None),
            },
    )
}

/// A new receiver that prints to the terminal, handed status changes one
/// after another, prints one status line for each, and announces its join
/// address at most once in its life: right after the line of the first
/// `Running`, and not at all when no `Running` comes or there is no address.
pub proof fn law_join_announced_once(
    join_address: Option<Seq<char>>,
    before: &ConsoleEventSink,
    after: &ConsoleEventSink,
    events: Seq<RecordedEvent>,
)
    requires
        before.memory() == (ConsoleView {
            join_address,
            running_announced: false,
            latest_error_detail: None,
        }),
        before.pending() == Seq::<(bool, Seq<char>)>::empty(),
        receives_in_order(before, after, events),
        forall|i: int| 0 <= i < events.len() ==> #[trigger] events[i] is Status,
    ensures
        (forall|i: int| 0 <= i < events.len() ==> status_changes(events)[i].0 != "Running"@) ==> after.pending()
            == plain_status_lines(status_changes(events)),
        forall|k: int|
            first_running(status_changes(events), k) ==> after.pending() == plain_status_lines(
                status_changes(events).take(k + 1),
            ) + join_lines(join_address) + plain_status_lines(status_changes(events).skip(k + 1)),
{
    lemma_console_receives_statuses(before, after, events);
    lemma_statuses_before_announced(before.memory(), status_changes(events));
    assert(before.pending() + statuses_printed(before.memory(), status_changes(events)).1
        =~= statuses_printed(before.memory(), status_changes(events)).1);
}

/// A binary override given on the command line, when the override is not
/// cleared, becomes the saved override, trimmed, and is dropped only when it
/// is blank; when none is given the saved one is kept, trimmed likewise.
pub proof fn law_given_binary_override_is_used(v: SettingsView, o: OverridesView, p: Seq<char>)
    ensures
        o.frpc_path_override == Some(p) ==> sanitize(overridden(v, o, false)).frpc_path_override == (
        if trim(p).len() == 0 {
            None
        } else {
            Some(trim(p))
        }),
        o.frpc_path_override is None ==> sanitize(overridden(v, o, false)).frpc_path_override
            == trimmed_nonempty(v.frpc_path_override),
        sanitize(overridden(v, o, true)).frpc_path_override is None,
{
}

/// The join address is the server's address, a colon and the decimal digits
/// of the remote port, the port opened on the server, so it does not depend
/// on the local port nor on any other setting.
pub proof fn law_join_address_uses_remote_port(v: SettingsView, w: SettingsView)
    ensures
        join_address_of(v) == v.server_addr + seq![':'] + decimal(v.remote_port as nat),
        v.server_addr == w.server_addr && v.remote_port == w.remote_port ==> join_address_of(v)
            == join_address_of(w),
{
    reveal_strlit(":");
}

/// Overriding replaces exactly the settings that were given: every other
/// setting keeps its saved value (sanitized), and clearing the binary
/// override removes it.
pub proof fn law_overrides_touch_only_given_fields(
    v: SettingsView,
    o: OverridesView,
    clear_frpc_path_override: bool,
)
    ensures
        ({
            let r = sanitize(overridden(v, o, clear_frpc_path_override));
            &&& r.server_addr == trim(pick(o.server_addr, v.server_addr))
            &&& r.server_port == pick(o.server_port, v.server_port)
            &&& r.token == trim(pick(o.token, v.token))
            &&& r.local_port == pick(o.local_port, v.local_port)
            &&& r.remote_port == pick(o.remote_port, v.remote_port)
            &&& clear_frpc_path_override ==> r.frpc_path_override is None
            &&& !clear_frpc_path_override && o.frpc_path_override is None ==> r.frpc_path_override
                == trimmed_nonempty(v.frpc_path_override)
        }),
{
}

/// A token longer than four characters, once trimmed, is shown as stars
/// followed by its last four characters, as long as the trimmed token.
pub proof fn law_mask_keeps_last_four(token: Seq<char>)
    requires
        trim(token).len() > 4,
    ensures
        masked(token).len() == trim(token).len(),
        masked(token).subrange(trim(token).len() - 4, trim(token).len() as int) == trim(
            token,
        ).subrange(trim(token).len() - 4, trim(token).len() as int),
        forall|i: int| 0 <= i < trim(token).len() - 4 ==> masked(token)[i] == '*',
{
    let t = trim(token);
    let n = t.len();
    assert(masked(token).subrange(n - 4, n as int) =~= t.subrange(n - 4, n as int));
}

proof fn lemma_strip_plain_from(s: Seq<char>, i: int)
    requires
        0 <= i <= s.len(),
        forall|j: int| 0 <= j < s.len() ==> !is_escape(#[trigger] s[j]),
    ensures
        strip_from(s, i) == s.subrange(i, s.len() as int),
    decreases s.len() - i,
{
    if i < s.len() {
        lemma_strip_plain_from(s, i + 1);
        assert(!is_escape(s[i]));
        assert(s.subrange(i, s.len() as int) =~= seq![s[i]] + s.subrange(i + 1, s.len() as int));
    } else {
        assert(s.subrange(i, s.len() as int) =~= seq![]);
    }
}

/// Text without escape characters is only trimmed.
pub proof fn law_plain_text_is_only_trimmed(s: Seq<char>)
    requires
        forall|j: int| 0 <= j < s.len() ==> !is_escape(#[trigger] s[j]),
    ensures
        strip_ansi_spec(s) == trim(s),
{
    lemma_strip_plain_from(s, 0);
    assert(s.subrange(0, s.len() as int) =~= s);
}

} // verus!
