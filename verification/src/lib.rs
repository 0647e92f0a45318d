//! Decision logic of a tunnel manager that exposes a local Minecraft LAN
//! world through an `frp` client: settings, the `frpc` configuration model,
//! classification of `frpc` log lines, binary resolution and the tunnel's
//! lifecycle state machine.
pub mod text;
pub mod models;
pub mod frpc_log;
pub mod event_sink;
pub mod process_manager;
pub mod frpc_resolver;
pub mod frpc_config;
pub mod cli;
