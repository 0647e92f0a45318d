use flytunnel::cli::{apply_overrides, has_overrides, mask_token, strip_ansi, SettingsOverrides};
use flytunnel::frpc_config::render_config;
use flytunnel::frpc_log::{classify_frpc_line, is_minecraft_proxy_started, FrpcSignal};
use flytunnel::frpc_resolver::{asset_for, ArchiveKind, FrpBinaryKind};
use flytunnel::models::{TunnelSettings, TunnelStatusKind};
use flytunnel::process_manager::decide_exit_outcome;

#[test]
fn applies_partial_overrides_without_touching_other_fields() {
    let base = TunnelSettings {
        server_addr: "1.2.3.4".into(),
        server_port: 7000,
        token: "secret-token".into(),
        local_port: 25565,
        remote_port: 25565,
        frpc_path_override: None,
    };
    let overrides = SettingsOverrides {
        server_addr: Some("mc.example.com".into()),
        remote_port: Some(25570),
        ..SettingsOverrides::default()
    };

    let merged = apply_overrides(base, &overrides, false);

    assert_eq!(merged.server_addr, "mc.example.com");
    assert_eq!(merged.server_port, 7000);
    assert_eq!(merged.remote_port, 25570);
    assert_eq!(merged.local_port, 25565);
}

#[test]
fn clear_frpc_path_override_removes_saved_override() {
    let base = TunnelSettings {
        frpc_path_override: Some("C:/tools/frpc.exe".into()),
        ..TunnelSettings::default()
    };

    let merged = apply_overrides(base, &SettingsOverrides::default(), true);

    assert!(merged.frpc_path_override.is_none());
}

#[test]
fn detects_when_no_overrides_are_present() {
    assert!(!has_overrides(&SettingsOverrides::default()));
}

#[test]
fn masks_token_but_keeps_last_four_characters() {
    assert_eq!(mask_token("abcdefghijkl"), "********ijkl");
    assert_eq!(mask_token("abcd"), "****");
    assert_eq!(mask_token(""), "<not set>");
}

#[test]
fn strips_simple_ansi_sequences() {
    assert_eq!(
        strip_ansi("\u{1b}[1;34mhello\u{1b}[0m world"),
        "hello world"
    );
}

#[test]
fn parses_success_transition_lines() {
    assert_eq!(
        classify_frpc_line("[I] [service.go:295] try to connect to server..."),
        Some(FrpcSignal::Connecting)
    );
    assert_eq!(
        classify_frpc_line("[I] [service.go:287] login to server success, get run id [abcd]"),
        Some(FrpcSignal::LoginSuccess)
    );
    let signal = classify_frpc_line(
        "[I] [proxy/proxy_manager.go:173] [minecraft-lan] start proxy success",
    )
    .expect("proxy start should be detected");
    assert!(is_minecraft_proxy_started(&signal));
}

#[test]
fn parses_error_lines() {
    assert_eq!(
        classify_frpc_line("[W] token in login doesn't match token from configuration"),
        Some(FrpcSignal::LoginFailed {
            detail: "[W] token in login doesn't match token from configuration".into(),
        })
    );
    assert_eq!(
        classify_frpc_line(
            "[E] [proxy/proxy_manager.go:160] [minecraft-lan] start error: remote port already used"
        ),
        Some(FrpcSignal::StartError {
            detail: "start error: remote port already used".into(),
        })
    );
}

#[test]
fn maps_client_windows_asset() {
    let asset = asset_for(FrpBinaryKind::Client, "windows", "x86_64").expect("asset should exist");
    assert_eq!(asset.archive_name, "frp_0.67.0_windows_amd64.zip");
    assert_eq!(asset.binary_name, "frpc.exe");
    assert_eq!(asset.archive_kind, ArchiveKind::Zip);
}

#[test]
fn maps_server_macos_asset() {
    let asset = asset_for(FrpBinaryKind::Server, "macos", "aarch64").expect("asset should exist");
    assert_eq!(asset.archive_name, "frp_0.67.0_darwin_arm64.tar.gz");
    assert_eq!(asset.binary_name, "frps");
    assert_eq!(asset.archive_kind, ArchiveKind::TarGz);
}

#[test]
fn validates_required_fields() {
    let settings = TunnelSettings::default();
    assert!(settings.validate_for_start().is_err());
}

#[test]
fn accepts_valid_minecraft_defaults() {
    let settings = TunnelSettings {
        server_addr: "127.0.0.1".into(),
        token: "secret".into(),
        ..TunnelSettings::default()
    };

    assert!(settings.validate_for_start().is_ok());
}

#[test]
fn stop_requested_does_not_emit_false_error() {
    let outcome = decide_exit_outcome(TunnelStatusKind::Stopped, true, true, false, Some(1), None);
    assert_eq!(outcome.status, TunnelStatusKind::Stopped);
    assert!(!outcome.should_emit);
}

#[test]
fn premature_exit_becomes_error() {
    let outcome = decide_exit_outcome(
        TunnelStatusKind::Starting,
        false,
        false,
        false,
        Some(1),
        None,
    );
    assert_eq!(outcome.status, TunnelStatusKind::Error);
    assert_eq!(outcome.log_level, "error");
    assert!(outcome.detail.contains("code 1"));
}

#[test]
fn renders_expected_minecraft_toml() {
    let settings = TunnelSettings {
        server_addr: "mc.example.com".into(),
        token: "secret".into(),
        local_port: 25570,
        remote_port: 25580,
        ..TunnelSettings::default()
    };

    let rendered = render_config(&settings).expect("config should render");

    assert!(rendered.contains("serverAddr = \"mc.example.com\""));
    assert!(rendered.contains("token = \"secret\""));
    assert!(rendered.contains("localIP = \"127.0.0.1\""));
    assert!(rendered.contains("localPort = 25570"));
    assert!(rendered.contains("remotePort = 25580"));
}
