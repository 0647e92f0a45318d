//! Settings of a tunnel, its status kinds and the payloads of the events the
//! library reports.
use vstd::prelude::*;
use crate::text::{clone_opt, lemma_trim_idempotent, owned, trim, trim_str};

verus! {

/// Name of the application; the name of its configuration and data folders.
pub const APP_NAME: &'static str = "FlyTunnel";

/// Release tag of the official `frp` binaries that are used.
pub const FRP_VERSION_TAG: &'static str = "v0.67.0";

/// Version number of the official `frp` binaries that are used.
pub const FRP_VERSION_NUMBER: &'static str = "0.67.0";

/// Name of the TCP proxy that carries the Minecraft world.
pub const MINECRAFT_PROXY_NAME: &'static str = "minecraft-lan";

/// What the user configures for a tunnel.
#[derive(Debug)]
pub struct TunnelSettings {
    pub server_addr: String,
    pub server_port: u16,
    pub token: String,
    pub local_port: u16,
    pub remote_port: u16,
    pub frpc_path_override: Option<String>,
}

/// The settings as mathematical values.
pub struct SettingsView {
    pub server_addr: Seq<char>,
    pub server_port: u16,
    pub token: Seq<char>,
    pub local_port: u16,
    pub remote_port: u16,
    pub frpc_path_override: Option<Seq<char>>,
}

/// The view of an optional string.
pub open spec fn opt_view(o: Option<String>) -> Option<Seq<char>> {
    match o {
        Some(s) => Some(s@),
        None => None,
    }
}

impl View for TunnelSettings {
    type V = SettingsView;

    open spec fn view(&self) -> SettingsView {
        SettingsView {
            server_addr: self.server_addr@,
            server_port: self.server_port,
            token: self.token@,
            local_port: self.local_port,
            remote_port: self.remote_port,
            frpc_path_override: opt_view(self.frpc_path_override),
        }
    }
}

/// An optional path trimmed, and dropped when nothing is left of it.
pub open spec fn trimmed_nonempty(o: Option<Seq<char>>) -> Option<Seq<char>> {
    match o {
        Some(p) => if trim(p).len() == 0 {
            None
        } else {
            Some(trim(p))
        },
        None => None,
    }
}

/// The settings with surrounding whitespace removed from the texts and an
/// empty binary override dropped.
pub open spec fn sanitize(v: SettingsView) -> SettingsView {
    SettingsView {
        server_addr: trim(v.server_addr),
        server_port: v.server_port,
        token: trim(v.token),
        local_port: v.local_port,
        remote_port: v.remote_port,
        frpc_path_override: trimmed_nonempty(v.frpc_path_override),
    }
}

/// Why the settings cannot start a tunnel, if they cannot: the first failed
/// check in the order host, token, control port, local port, remote port.
pub open spec fn start_error(v: SettingsView) -> Option<Seq<char>> {
    let s = sanitize(v);
    if s.server_addr.len() == 0 {
        Some("VPS host / IP is required."@)
    } else if s.token.len() == 0 {
        Some("Token is required."@)
    } else if s.server_port == 0 {
        Some("control port must be between 1 and 65535."@)
    } else if s.local_port == 0 {
        Some("local port must be between 1 and 65535."@)
    } else if s.remote_port == 0 {
        Some("remote port must be between 1 and 65535."@)
    } else {
        None
    }
}

/// The settings of a fresh installation.
pub open spec fn default_settings() -> SettingsView {
    SettingsView {
        server_addr: Seq::empty(),
        server_port: 7000,
        token: Seq::empty(),
        local_port: 25565,
        remote_port: 25565,
        frpc_path_override: None,
    }
}

impl Clone for TunnelSettings {
    fn clone(&self) -> (r: Self)
        ensures
            r == *self,
    {
        TunnelSettings {
            server_addr: self.server_addr.clone(),
            server_port: self.server_port,
            token: self.token.clone(),
            local_port: self.local_port,
            remote_port: self.remote_port,
            frpc_path_override: clone_opt(&self.frpc_path_override),
        }
    }
}

impl Default for TunnelSettings {
    fn default() -> (r: Self)
        ensures
            r@ == default_settings(),
    {
        TunnelSettings {
            server_addr: String::new(),
            server_port: 7000,
            token: String::new(),
            local_port: 25565,
            remote_port: 25565,
            frpc_path_override: None,
        }
    }
}

impl TunnelSettings {
    /// The settings with surrounding whitespace trimmed from the texts and an
    /// empty binary override dropped.
    pub fn sanitized(&self) -> (r: Self)
        ensures
            r@ == sanitize(self@),
    {
        let frpc_path_override = match &self.frpc_path_override {
            Some(value) => {
                let trimmed = trim_str(value.as_str());
                if trimmed.as_str().is_empty() {
                    None
                } else {
                    Some(trimmed)
                }
            },
            None => None,
        };
        TunnelSettings {
            server_addr: trim_str(self.server_addr.as_str()),
            server_port: self.server_port,
            token: trim_str(self.token.as_str()),
            local_port: self.local_port,
            remote_port: self.remote_port,
            frpc_path_override,
        }
    }

    /// Checks that the settings can start a tunnel: a host and a token are
    /// given and no port is 0.
    pub fn validate_for_start(&self) -> (r: Result<(), String>)
        ensures
            match r {
                Ok(()) => start_error(self@) is None,
                Err(e) => start_error(self@) == Some(e@),
            },
    {
        let sanitized = self.sanitized();
        if sanitized.server_addr.as_str().is_empty() {
            return Err(owned("VPS host / IP is required."));
        }
        if sanitized.token.as_str().is_empty() {
            return Err(owned("Token is required."));
        }
        if sanitized.server_port == 0 {
            return Err(owned("control port must be between 1 and 65535."));
        }
        if sanitized.local_port == 0 {
            return Err(owned("local port must be between 1 and 65535."));
        }
        if sanitized.remote_port == 0 {
            return Err(owned("remote port must be between 1 and 65535."));
        }
        Ok(())
    }
}

/// The lifecycle states of a tunnel.
#[derive(Debug, Clone, Copy, PartialEq, Eq, Structural)]
pub enum TunnelStatusKind {
    Stopped,
    Starting,
    Running,
    Error,
}

/// The name under which a status is reported.
pub open spec fn status_name(k: TunnelStatusKind) -> Seq<char> {
    match k {
        TunnelStatusKind::Stopped => "Stopped"@,
        TunnelStatusKind::Starting => "Starting"@,
        TunnelStatusKind::Running => "Running"@,
        TunnelStatusKind::Error => "Error"@,
    }
}

impl TunnelStatusKind {
    /// The name under which the status is reported.
    pub fn as_str(self) -> (r: &'static str)
        ensures
            r@ == status_name(self),
    {
        match self {
            TunnelStatusKind::Stopped => "Stopped",
            TunnelStatusKind::Starting => "Starting",
            TunnelStatusKind::Running => "Running",
            TunnelStatusKind::Error => "Error",
        }
    }
}

/// A change of the tunnel's status, with an optional explanation.
#[derive(Debug, PartialEq, Eq)]
pub struct TunnelStatusPayload {
    pub status: String,
    pub detail: Option<String>,
}

/// A line of the tunnel's log, with its level (`info`, `warn` or `error`).
#[derive(Debug, PartialEq, Eq)]
pub struct TunnelLogPayload {
    pub level: String,
    pub message: String,
}

/// A step of locating or downloading the `frpc` binary.
#[derive(Debug, PartialEq, Eq)]
pub struct FrpcDownloadPayload {
    pub stage: String,
    pub message: String,
    pub path: Option<String>,
}

/// Whether an `frp` binary is ready to run, where it is and where it came from.
#[derive(Debug, PartialEq, Eq)]
pub struct FrpBinaryStatus {
    pub ready: bool,
    pub path: Option<String>,
    pub source: Option<String>,
    pub version: String,
    pub display_message: String,
}

/// What probing for `frpc` reports.
pub type FrpcProbe = FrpBinaryStatus;

/// What making `frpc` available reports.
pub type FrpcResolution = FrpBinaryStatus;

impl Clone for TunnelStatusPayload {
    fn clone(&self) -> (r: Self)
        ensures
            r == *self,
    {
        TunnelStatusPayload { status: self.status.clone(), detail: clone_opt(&self.detail) }
    }
}

impl Clone for TunnelLogPayload {
    fn clone(&self) -> (r: Self)
        ensures
            r == *self,
    {
        TunnelLogPayload { level: self.level.clone(), message: self.message.clone() }
    }
}

impl Clone for FrpcDownloadPayload {
    fn clone(&self) -> (r: Self)
        ensures
            r == *self,
    {
        FrpcDownloadPayload {
            stage: self.stage.clone(),
            message: self.message.clone(),
            path: clone_opt(&self.path),
        }
    }
}

impl Clone for FrpBinaryStatus {
    fn clone(&self) -> (r: Self)
        ensures
            r == *self,
    {
        FrpBinaryStatus {
            ready: self.ready,
            path: clone_opt(&self.path),
            source: clone_opt(&self.source),
            version: self.version.clone(),
            display_message: self.display_message.clone(),
        }
    }
}

// ---------------------------------------------------------------------
// Laws of sanitizing
// ---------------------------------------------------------------------

/// Sanitizing settings that are already sanitized changes nothing.
pub proof fn law_sanitize_idempotent(v: SettingsView)
    ensures
        sanitize(sanitize(v)) == sanitize(v),
{
    lemma_trim_idempotent(v.server_addr);
    lemma_trim_idempotent(v.token);
    if let Some(p) = v.frpc_path_override {
        lemma_trim_idempotent(p);
    }
}

/// Whether settings may start a tunnel does not change by sanitizing them
/// first, and neither does the reason they may not.
pub proof fn law_start_error_ignores_sanitizing(v: SettingsView)
    ensures
        start_error(sanitize(v)) == start_error(v),
{
    law_sanitize_idempotent(v);
}

/// The settings of a fresh installation cannot start a tunnel: the host is
/// missing.
pub proof fn law_default_settings_need_a_host()
    ensures
        start_error(default_settings()) == Some("VPS host / IP is required."@),
{
    assert(trim(Seq::<char>::empty()) == Seq::<char>::empty());
}

} // verus!
