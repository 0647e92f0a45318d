use flytunnel::cli::{
    after_snapshot, check_config_changes, download_lines, ensure_lines, join_address, log_line,
    mask_token, probe_lines, resolve_override_path, settings_lines, start_banner, strip_ansi,
    ConsoleEventSink, ConsoleState, SettingsOverrides, WaitStep,
};
use flytunnel::event_sink::{deliver, deliver_all, AppEventSink, MemoryEventSink, NoopEventSink, RecordedEvent};
use flytunnel::frpc_config::{config_table, finish_render, frpc_config, render_config};
use flytunnel::frpc_log::{classify_frpc_line, is_minecraft_proxy_started, FrpcSignal};
use flytunnel::frpc_resolver::{
    archive_entry_matches, asset_for, binary_not_found, download_url, ensure_cached,
    ensure_checking, ensure_downloaded, ensure_downloading, ensure_extracting, ensure_override,
    normalize_override_path, probe_cached, probe_override, ArchiveKind, BinaryEnsure, EnsureAction,
    EnsureEvent, FrpBinaryKind,
};
use flytunnel::models::{
    FrpBinaryStatus, FrpcDownloadPayload, TunnelLogPayload, TunnelSettings, TunnelStatusKind,
    TunnelStatusPayload,
};
use flytunnel::process_manager::{decide_exit_outcome, resolution_path, TunnelRuntime};
use flytunnel::text::{i32_decimal, trim_str};

fn valid_settings() -> TunnelSettings {
    TunnelSettings {
        server_addr: " mc.example.com ".into(),
        token: " secret ".into(),
        ..TunnelSettings::default()
    }
}

fn status(kind: &str, detail: &str) -> RecordedEvent {
    RecordedEvent::Status(TunnelStatusPayload { status: kind.into(), detail: Some(detail.into()) })
}

fn log(level: &str, message: &str) -> RecordedEvent {
    RecordedEvent::Log(TunnelLogPayload { level: level.into(), message: message.into() })
}

// ------------------------------------------------------------------ settings

#[test]
fn sanitizing_trims_and_drops_blank_override() {
    let settings = TunnelSettings {
        server_addr: "\t host \n".into(),
        token: "\u{3000}tok\u{a0}".into(),
        frpc_path_override: Some("   ".into()),
        ..TunnelSettings::default()
    };
    let s = settings.sanitized();
    assert_eq!(s.server_addr, "host");
    assert_eq!(s.token, "tok");
    assert_eq!(s.frpc_path_override, None);
    let again = s.sanitized();
    assert_eq!(again.server_addr, s.server_addr);
    assert_eq!(again.token, s.token);

    let kept = TunnelSettings { frpc_path_override: Some(" /bin/frpc ".into()), ..TunnelSettings::default() };
    assert_eq!(kept.sanitized().frpc_path_override, Some("/bin/frpc".to_string()));
}

#[test]
fn default_settings_are_minecraft_ports() {
    let s = TunnelSettings::default();
    assert_eq!(s.server_port, 7000);
    assert_eq!(s.local_port, 25565);
    assert_eq!(s.remote_port, 25565);
    assert_eq!(s.validate_for_start(), Err("VPS host / IP is required.".to_string()));
}

#[test]
fn validation_reports_each_missing_field() {
    let mut s = valid_settings();
    assert_eq!(s.validate_for_start(), Ok(()));
    s.token = "   ".into();
    assert_eq!(s.validate_for_start(), Err("Token is required.".to_string()));
    let mut s = valid_settings();
    s.server_port = 0;
    assert_eq!(s.validate_for_start(), Err("control port must be between 1 and 65535.".to_string()));
    let mut s = valid_settings();
    s.local_port = 0;
    assert_eq!(s.validate_for_start(), Err("local port must be between 1 and 65535.".to_string()));
    let mut s = valid_settings();
    s.remote_port = 0;
    assert_eq!(s.validate_for_start(), Err("remote port must be between 1 and 65535.".to_string()));
    let mut s = valid_settings();
    s.server_addr = " ".into();
    s.server_port = 0;
    assert_eq!(s.validate_for_start(), Err("VPS host / IP is required.".to_string()));
}

#[test]
fn status_names() {
    assert_eq!(TunnelStatusKind::Stopped.as_str(), "Stopped");
    assert_eq!(TunnelStatusKind::Starting.as_str(), "Starting");
    assert_eq!(TunnelStatusKind::Running.as_str(), "Running");
    assert_eq!(TunnelStatusKind::Error.as_str(), "Error");
}

#[test]
fn config_model_for_minecraft() {
    let settings = TunnelSettings {
        server_addr: " mc.example.com".into(),
        token: "secret ".into(),
        local_port: 25570,
        remote_port: 25580,
        ..TunnelSettings::default()
    };
    let c = frpc_config(&settings);
    assert_eq!(c.server_addr, "mc.example.com");
    assert_eq!(c.server_port, 7000);
    assert!(c.login_fail_exit);
    assert_eq!(c.auth.method, "token");
    assert_eq!(c.auth.token, "secret");
    assert_eq!(c.transport.protocol, "tcp");
    assert_eq!(c.proxies.len(), 1);
    assert_eq!(c.proxies[0].name, "minecraft-lan");
    assert_eq!(c.proxies[0].proxy_type, "tcp");
    assert_eq!(c.proxies[0].local_ip, "127.0.0.1");
    assert_eq!(c.proxies[0].local_port, 25570);
    assert_eq!(c.proxies[0].remote_port, 25580);
}

// ------------------------------------------------------------------ text

#[test]
fn text_helpers() {
    assert_eq!(trim_str("\u{2003} a b \u{2029}"), "a b");
    assert_eq!(i32_decimal(0), "0");
    assert_eq!(i32_decimal(-7), "-7");
    assert_eq!(i32_decimal(i32::MIN), "-2147483648");
    assert_eq!(i32_decimal(i32::MAX), "2147483647");
}

// ------------------------------------------------------------------ log lines

#[test]
fn classification_ignores_case_and_surrounding_whitespace() {
    assert_eq!(classify_frpc_line("   "), None);
    assert_eq!(classify_frpc_line(""), None);
    assert_eq!(classify_frpc_line("  TRY TO CONNECT TO SERVER  "), Some(FrpcSignal::Connecting));
    assert_eq!(classify_frpc_line("Login To Server Success"), Some(FrpcSignal::LoginSuccess));
    assert_eq!(classify_frpc_line("hello"), None);
    let line = "[E] authentication failed: bad";
    assert_eq!(
        classify_frpc_line(&format!("  {line} \n")),
        Some(FrpcSignal::LoginFailed { detail: line.into() })
    );
    assert_eq!(
        classify_frpc_line("login to the server failed: x"),
        Some(FrpcSignal::LoginFailed { detail: "login to the server failed: x".into() })
    );
    assert_eq!(
        classify_frpc_line("Authorization Failed"),
        Some(FrpcSignal::LoginFailed { detail: "Authorization Failed".into() })
    );
}

#[test]
fn proxy_events_need_a_bracketed_name() {
    let other = classify_frpc_line("[I] [other] Start Proxy Success").expect("signal");
    assert_eq!(other, FrpcSignal::ProxyStarted { proxy_name: "other".into() });
    assert!(!is_minecraft_proxy_started(&other));
    assert_eq!(classify_frpc_line("start proxy success"), None);
    assert_eq!(classify_frpc_line("[x start proxy success"), None);
    assert_eq!(classify_frpc_line("[a] b start proxy success"), None);
    assert_eq!(
        classify_frpc_line("[mc]   start error: boom  "),
        Some(FrpcSignal::StartError { detail: "start error: boom".into() })
    );
    assert!(!is_minecraft_proxy_started(&FrpcSignal::Connecting));
}

// ------------------------------------------------------------------ resolver

#[test]
fn assets_for_every_platform() {
    let cases = [
        ("windows", "aarch64", "frp_0.67.0_windows_arm64.zip", ArchiveKind::Zip),
        ("macos", "x86_64", "frp_0.67.0_darwin_amd64.tar.gz", ArchiveKind::TarGz),
        ("linux", "x86_64", "frp_0.67.0_linux_amd64.tar.gz", ArchiveKind::TarGz),
        ("linux", "aarch64", "frp_0.67.0_linux_arm64.tar.gz", ArchiveKind::TarGz),
    ];
    for (os, arch, name, kind) in cases {
        let a = asset_for(FrpBinaryKind::Client, os, arch).expect("supported");
        assert_eq!(a.archive_name, name);
        assert_eq!(a.archive_kind, kind);
    }
    assert_eq!(asset_for(FrpBinaryKind::Server, "windows", "aarch64").unwrap().binary_name, "frps.exe");
    assert_eq!(
        asset_for(FrpBinaryKind::Client, "freebsd", "x86_64"),
        Err("Unsupported platform for official frp binary auto-download: freebsd/x86_64".to_string())
    );
    assert_eq!(FrpBinaryKind::Client.binary_name("windows"), "frpc.exe");
    assert_eq!(FrpBinaryKind::Server.binary_name("linux"), "frps");
    assert_eq!(FrpBinaryKind::Server.label(), "frps");
    let a = asset_for(FrpBinaryKind::Client, "linux", "x86_64").unwrap();
    assert_eq!(
        download_url(&a),
        "https://github.com/fatedier/frp/releases/download/v0.67.0/frp_0.67.0_linux_amd64.tar.gz"
    );
}

#[test]
fn archive_entries_match_by_file_name() {
    assert!(archive_entry_matches(ArchiveKind::Zip, Some("FRPC.EXE"), "frpc.exe"));
    assert!(!archive_entry_matches(ArchiveKind::TarGz, Some("FRPC"), "frpc"));
    assert!(archive_entry_matches(ArchiveKind::TarGz, Some("frpc"), "frpc"));
    assert!(!archive_entry_matches(ArchiveKind::Zip, None, "frpc"));
}

#[test]
fn probing_and_override_normalization() {
    assert_eq!(normalize_override_path(Some("  ")), None);
    assert_eq!(normalize_override_path(None), None);
    assert_eq!(normalize_override_path(Some(" /x/frpc ")), Some("/x/frpc".to_string()));

    let ready = probe_override(FrpBinaryKind::Client, "/x/frpc".into(), true);
    assert_eq!(
        ready,
        FrpBinaryStatus {
            ready: true,
            path: Some("/x/frpc".into()),
            source: Some("manual".into()),
            version: "v0.67.0".into(),
            display_message: "Using manually selected frpc binary.".into(),
        }
    );
    let missing = probe_override(FrpBinaryKind::Client, "/x/frpc".into(), false);
    assert!(!missing.ready);
    assert_eq!(missing.path, None);
    assert_eq!(
        missing.display_message,
        "Saved frpc path was not found. FlyTunnel will download the official binary when you start."
    );
    let cached = probe_cached(FrpBinaryKind::Client, "/c/frpc".into(), true);
    assert_eq!(cached.source, Some("cached".to_string()));
    assert_eq!(cached.display_message, "Using cached official frpc 0.67.0 binary.");
    let absent = probe_cached(FrpBinaryKind::Client, "/c/frpc".into(), false);
    assert!(!absent.ready);
    assert_eq!(absent.display_message, "Official frpc 0.67.0 will be downloaded when you start the tunnel.");
}

#[test]
fn ensuring_reports_each_step() {
    assert_eq!(
        ensure_checking(FrpBinaryKind::Client),
        RecordedEvent::Download(FrpcDownloadPayload {
            stage: "checking".into(),
            message: "Checking frpc availability...".into(),
            path: None,
        })
    );
    let (status, event) = ensure_override(FrpBinaryKind::Client, "/o".into(), true);
    assert_eq!(status.unwrap().source, Some("manual".to_string()));
    assert_eq!(
        event,
        RecordedEvent::Download(FrpcDownloadPayload {
            stage: "ready".into(),
            message: "Using manually selected frpc binary.".into(),
            path: Some("/o".into()),
        })
    );
    let (status, event) = ensure_override(FrpBinaryKind::Client, "/o".into(), false);
    assert!(status.is_none());
    assert_eq!(
        event,
        RecordedEvent::Download(FrpcDownloadPayload {
            stage: "missing".into(),
            message: "Saved frpc override was not found. Falling back to official download.".into(),
            path: None,
        })
    );
    assert!(ensure_cached(FrpBinaryKind::Client, "/c".into(), false).is_none());
    let (status, event) = ensure_cached(FrpBinaryKind::Server, "/c".into(), true).unwrap();
    assert_eq!(status.display_message, "Using cached official frps 0.67.0 binary.");
    assert_eq!(
        event,
        RecordedEvent::Download(FrpcDownloadPayload {
            stage: "cached".into(),
            message: "Using cached frps binary.".into(),
            path: Some("/c".into()),
        })
    );
    let spec = asset_for(FrpBinaryKind::Client, "macos", "x86_64").unwrap();
    assert_eq!(
        ensure_downloading(FrpBinaryKind::Client, &spec),
        RecordedEvent::Download(FrpcDownloadPayload {
            stage: "downloading".into(),
            message: "Downloading official frpc frp_0.67.0_darwin_amd64.tar.gz...".into(),
            path: None,
        })
    );
    assert_eq!(
        ensure_extracting(FrpBinaryKind::Client),
        RecordedEvent::Download(FrpcDownloadPayload {
            stage: "extracting".into(),
            message: "Extracting frpc binary...".into(),
            path: None,
        })
    );
    let (status, event) = ensure_downloaded(FrpBinaryKind::Client, "/d/frpc".into());
    assert_eq!(status.source, Some("downloaded".to_string()));
    assert_eq!(status.display_message, "Downloaded official frpc 0.67.0 for this machine.");
    assert_eq!(
        event,
        RecordedEvent::Download(FrpcDownloadPayload {
            stage: "ready".into(),
            message: "frpc is ready to use.".into(),
            path: Some("/d/frpc".into()),
        })
    );
    assert_eq!(binary_not_found(FrpBinaryKind::Server), "frps binary was not found inside the downloaded archive.");
}

// ------------------------------------------------------------------ sinks

#[test]
fn memory_sink_keeps_events_in_order() {
    let mut sink = MemoryEventSink::new();
    let events = vec![status("Starting", "a"), log("info", "b"), status("Running", "c")];
    deliver_all(&mut sink, events.clone());
    assert_eq!(sink.snapshot(), events);
    let mut noop = NoopEventSink;
    deliver_all(&mut noop, events);
    assert!(MemoryEventSink::shared().snapshot().is_empty());
    let _ = NoopEventSink::shared();
}

// ------------------------------------------------------------------ lifecycle

#[test]
fn tunnel_runs_only_after_login_and_proxy() {
    let mut rt: TunnelRuntime<u32, String> = TunnelRuntime::new();
    let events = rt.begin_start(&valid_settings()).expect("start");
    assert_eq!(events, vec![status("Starting", "Preparing frpc and opening the tunnel...")]);
    assert_eq!(
        rt.launched(7, "/tmp/frpc.toml".into()),
        vec![log("info", "frpc launched. Waiting for the tunnel to come online.")]
    );
    let line = "[I] [service.go:295] try to connect to server...";
    assert_eq!(
        rt.handle_line(line, "info"),
        vec![log("info", line), status("Starting", "Connecting to your VPS...")]
    );
    let line = "[I] [proxy/proxy_manager.go:173] [minecraft-lan] start proxy success";
    assert_eq!(rt.handle_line(line, "info"), vec![log("info", line)]);
    assert_eq!(rt.snapshot().status, TunnelStatusKind::Starting);
    let line = "login to server success";
    assert_eq!(
        rt.handle_line(line, "warn"),
        vec![
            log("warn", line),
            log("info", "Tunnel started."),
            status("Running", "Tunnel is live. Share the join address with your friends."),
        ]
    );
    let snap = rt.snapshot();
    assert_eq!(snap.status, TunnelStatusKind::Running);
    assert!(snap.has_child && snap.login_confirmed && snap.proxy_confirmed);
    assert_eq!(rt.handle_line("   ", "info"), vec![]);

    assert_eq!(
        rt.begin_start(&valid_settings()),
        Err("Tunnel is already running.".to_string())
    );

    let (child, config, events) = rt.stop();
    assert_eq!(child, Some(7));
    assert_eq!(config, Some("/tmp/frpc.toml".to_string()));
    assert_eq!(events, vec![log("info", "Tunnel stopped."), status("Stopped", "Tunnel stopped.")]);
    let snap = rt.snapshot();
    assert_eq!(snap.status, TunnelStatusKind::Stopped);
    assert!(snap.stop_requested && !snap.has_child);
    assert_eq!(rt.handle_signal(FrpcSignal::LoginSuccess), vec![]);
    assert_eq!(rt.mark_error("x".into()), vec![]);
    let (config, events) = rt.child_exited(false, Some(1));
    assert_eq!(config, None);
    assert!(events.is_empty());
    assert_eq!(rt.snapshot().status, TunnelStatusKind::Stopped);
}

#[test]
fn errors_stick_until_the_child_exits() {
    let mut rt: TunnelRuntime<u8, u8> = TunnelRuntime::new();
    rt.begin_start(&valid_settings()).unwrap();
    rt.launched(1, 2);
    let detail = "[W] token in login doesn't match token from configuration";
    assert_eq!(
        rt.handle_signal(FrpcSignal::LoginFailed { detail: detail.into() }),
        vec![log("error", detail), status("Error", detail)]
    );
    assert_eq!(rt.handle_signal(FrpcSignal::Connecting), vec![]);
    assert_eq!(rt.handle_signal(FrpcSignal::LoginSuccess), vec![]);
    assert_eq!(rt.handle_signal(FrpcSignal::ProxyStarted { proxy_name: "minecraft-lan".into() }), vec![]);
    assert_eq!(rt.snapshot().status, TunnelStatusKind::Error);
    let (config, events) = rt.child_exited(false, Some(1));
    assert_eq!(config, Some(2));
    assert!(events.is_empty());
    let snap = rt.snapshot();
    assert_eq!(snap.status, TunnelStatusKind::Error);
    assert_eq!(snap.last_error, None);
    assert!(!snap.has_child);
}

#[test]
fn failed_starts_and_monitoring() {
    let mut rt: TunnelRuntime<u8, &str> = TunnelRuntime::new();
    let mut bad = valid_settings();
    bad.token = String::new();
    assert_eq!(rt.begin_start(&bad), Err("Token is required.".to_string()));
    assert_eq!(rt.snapshot().status, TunnelStatusKind::Stopped);
    rt.begin_start(&valid_settings()).unwrap();
    let (config, events) = rt.fail_start("boom".into());
    assert_eq!(config, None);
    assert_eq!(events, vec![log("error", "boom"), status("Error", "boom")]);
    assert_eq!(rt.snapshot().last_error, Some("boom".to_string()));

    rt.begin_start(&valid_settings()).unwrap();
    rt.launched(3, "cfg");
    assert_eq!(
        rt.read_failed("broken pipe"),
        vec![
            status("Error", "Failed to read frpc output: broken pipe"),
            log("error", "Failed to read frpc output: broken pipe"),
        ]
    );
    let taken = rt.take_child();
    assert_eq!(taken, Some(3));
    assert!(!rt.snapshot().has_child);
    rt.restore_child(3);
    assert!(rt.snapshot().has_child);
    let (config, events) = rt.monitor_failed("gone");
    assert_eq!(config, Some("cfg"));
    assert_eq!(
        events,
        vec![log("error", "Failed to monitor frpc: gone"), status("Error", "Failed to monitor frpc: gone")]
    );
    assert_eq!(rt.cleanup(), (None, None));
    assert_eq!(
        resolution_path(&probe_cached(FrpBinaryKind::Client, "/p".into(), false)),
        Err("frpc binary path is unavailable.".to_string())
    );
    assert_eq!(resolution_path(&probe_cached(FrpBinaryKind::Client, "/p".into(), true)), Ok("/p".to_string()));
}

#[test]
fn exit_outcomes() {
    let o = decide_exit_outcome(TunnelStatusKind::Running, false, true, true, Some(0), None);
    assert_eq!(o.status, TunnelStatusKind::Stopped);
    assert!(o.should_emit);
    assert_eq!(o.detail, "Tunnel stopped.");
    let o = decide_exit_outcome(TunnelStatusKind::Starting, false, false, true, Some(0), None);
    assert_eq!(o.detail, "frpc exited before the tunnel became ready.");
    let o = decide_exit_outcome(TunnelStatusKind::Starting, false, false, false, None, None);
    assert_eq!(o.detail, "frpc exited unexpectedly.");
    let o = decide_exit_outcome(TunnelStatusKind::Error, false, false, false, Some(-3), None);
    assert_eq!(o.detail, "frpc exited with code -3.");
    assert!(!o.should_emit);
    let o = decide_exit_outcome(TunnelStatusKind::Starting, false, true, false, Some(2), Some("last".into()));
    assert_eq!(o.status, TunnelStatusKind::Error);
    assert_eq!(o.log_message, "last");
}

// ------------------------------------------------------------------ cli

#[test]
fn masking_counts_characters() {
    assert_eq!(mask_token("  abc  "), "***");
    assert_eq!(mask_token("   "), "<not set>");
    assert_eq!(mask_token("ééééé"), "*éééé");
    assert_eq!(mask_token("abcde"), "*bcde");
    assert_eq!(mask_token(" x€𝄞éb "), "*€𝄞éb");
    assert_eq!(mask_token("€𝄞"), "**");
}

#[test]
fn ansi_stripping_edges() {
    assert_eq!(strip_ansi("a\u{1b}"), "a\u{1b}");
    assert_eq!(strip_ansi("\u{1b}[31"), "");
    assert_eq!(strip_ansi("x\u{1b}[2Ky"), "xy");
    assert_eq!(strip_ansi("  plain  "), "plain");
}

#[test]
fn override_resolution_and_config_changes() {
    let saved = TunnelSettings { frpc_path_override: Some("/saved".into()), ..TunnelSettings::default() };
    assert_eq!(resolve_override_path(&saved, Some(" /given ".into())), Some("/given".to_string()));
    assert_eq!(resolve_override_path(&saved, Some("  ".into())), Some("/saved".to_string()));
    assert_eq!(resolve_override_path(&saved, None), Some("/saved".to_string()));
    assert_eq!(
        check_config_changes(&SettingsOverrides::default(), false),
        Err("No config changes were provided.".to_string())
    );
    assert_eq!(check_config_changes(&SettingsOverrides::default(), true), Ok(()));
    let o = SettingsOverrides { token: Some("t".into()), ..SettingsOverrides::default() };
    assert_eq!(check_config_changes(&o, false), Ok(()));
}

#[test]
fn printed_text() {
    let s = TunnelSettings {
        server_addr: "host".into(),
        token: "abcdefgh".into(),
        ..TunnelSettings::default()
    };
    assert_eq!(join_address(&s), "host:25565");
    assert_eq!(
        start_banner(&s),
        vec![
            "Server: host:7000".to_string(),
            "Tunnel: 127.0.0.1:25565 -> host:25565".to_string(),
            "Press Ctrl+C to stop.".to_string(),
        ]
    );
    assert_eq!(
        settings_lines(&s, false),
        vec![
            "server_addr: host".to_string(),
            "server_port: 7000".to_string(),
            "token: ****efgh".to_string(),
            "local_port: 25565".to_string(),
            "remote_port: 25565".to_string(),
            "frpc_path_override: <auto>".to_string(),
        ]
    );
    assert_eq!(settings_lines(&TunnelSettings::default(), true)[2], "token: <not set>");
    assert_eq!(settings_lines(&TunnelSettings::default(), true)[0], "server_addr: <not set>");
}

#[test]
fn console_announces_join_address_once() {
    let mut console = ConsoleState::new(Some("host:25565".into()));
    let running = TunnelStatusPayload { status: "Running".into(), detail: Some("\u{1b}[1mlive\u{1b}[0m".into()) };
    let lines = console.status_lines(&running);
    assert_eq!(lines.len(), 2);
    assert_eq!(lines[0].text, "[status] Running - live");
    assert_eq!(lines[1].text, "[join] host:25565");
    assert_eq!(console.status_lines(&running).len(), 1);
    let error = TunnelStatusPayload { status: "Error".into(), detail: Some("bad".into()) };
    assert_eq!(console.status_lines(&error)[0].text, "[status] Error - bad");
    assert_eq!(console.latest_error_detail(), Some("bad".to_string()));
    let bare = TunnelStatusPayload { status: "Stopped".into(), detail: Some("  ".into()) };
    assert_eq!(console.status_lines(&bare)[0].text, "[status] Stopped");

    let warn = log_line(&TunnelLogPayload { level: "warn".into(), message: "x".into() });
    assert!(warn.to_stderr);
    assert_eq!(warn.text, "[warn] x");
    assert!(!log_line(&TunnelLogPayload { level: "info".into(), message: "y".into() }).to_stderr);
    let lines = download_lines(&FrpcDownloadPayload { stage: "ready".into(), message: "m".into(), path: Some("/p".into()) });
    assert_eq!(lines.len(), 2);
    assert_eq!(lines[0].text, "[frpc:ready] m");
    assert_eq!(lines[1].text, "[frpc:path] /p");
}

#[test]
fn waiting_ends_with_the_tunnel() {
    let mut rt: TunnelRuntime<u8, u8> = TunnelRuntime::new();
    assert!(matches!(after_snapshot(&rt.snapshot(), None), WaitStep::Done(Ok(()))));
    rt.begin_start(&valid_settings()).unwrap();
    assert!(matches!(after_snapshot(&rt.snapshot(), None), WaitStep::Wait));
    rt.launched(1, 1);
    rt.mark_error("kept".into());
    assert!(matches!(after_snapshot(&rt.snapshot(), None), WaitStep::Wait));
    rt.take_child();
    match after_snapshot(&rt.snapshot(), None) {
        WaitStep::Done(Err(e)) => assert_eq!(e, "kept"),
        _ => panic!("expected an error"),
    }
    match after_snapshot(&rt.snapshot(), Some("printed".into())) {
        WaitStep::Done(Err(e)) => assert_eq!(e, "printed"),
        _ => panic!("expected an error"),
    }
    let status = probe_cached(FrpBinaryKind::Client, "/p".into(), true);
    assert_eq!(probe_lines(&status)[0], "frpc ready: yes");
    assert_eq!(probe_lines(&status)[2], "source: cached");
    assert_eq!(ensure_lines(&probe_cached(FrpBinaryKind::Client, "/p".into(), false))[1], "path: <not available>");
}

#[test]
fn console_sink_queues_lines_until_taken() {
    let mut sink = ConsoleEventSink::new(Some("h:1".into()));
    sink.emit_status(TunnelStatusPayload { status: "Running".into(), detail: None });
    sink.emit_log(TunnelLogPayload { level: "error".into(), message: "\u{1b}[31mbad\u{1b}[0m".into() });
    sink.emit_download(FrpcDownloadPayload { stage: "checking".into(), message: "m".into(), path: None });
    let lines = sink.take_lines();
    let texts: Vec<(bool, String)> = lines.into_iter().map(|l| (l.to_stderr, l.text)).collect();
    assert_eq!(
        texts,
        vec![
            (false, "[status] Running".to_string()),
            (false, "[join] h:1".to_string()),
            (true, "[error] bad".to_string()),
            (false, "[frpc:checking] m".to_string()),
        ]
    );
    assert!(sink.take_lines().is_empty());
    sink.emit_status(TunnelStatusPayload { status: "Error".into(), detail: Some("x".into()) });
    assert_eq!(sink.latest_error_detail(), Some("x".to_string()));
}

#[test]
fn delivered_events_reach_the_method_that_fits_them() {
    let mut sink = ConsoleEventSink::new(None);
    deliver(
        &mut sink,
        RecordedEvent::Download(FrpcDownloadPayload {
            stage: "ready".into(),
            message: "ok".into(),
            path: Some("/d/frpc".into()),
        }),
    );
    deliver_all(
        &mut sink,
        vec![
            RecordedEvent::Log(TunnelLogPayload { level: "warn".into(), message: "w".into() }),
            RecordedEvent::Status(TunnelStatusPayload { status: "Error".into(), detail: Some("boom".into()) }),
        ],
    );
    let texts: Vec<(bool, String)> = sink.take_lines().into_iter().map(|l| (l.to_stderr, l.text)).collect();
    assert_eq!(texts[0], (false, "[frpc:ready] ok".to_string()));
    assert_eq!(texts[1], (false, "[frpc:path] /d/frpc".to_string()));
    assert_eq!(texts[2], (true, "[warn] w".to_string()));
    assert_eq!(sink.latest_error_detail(), Some("boom".to_string()));
}

#[test]
fn making_a_binary_available_step_by_step() {

    // the user's binary exists
    let (mut e, events, action) = BinaryEnsure::begin(FrpBinaryKind::Client, "linux", "x86_64", Some(" /u/frpc "));
    assert_eq!(events, vec![ensure_checking(FrpBinaryKind::Client)]);
    match action {
        EnsureAction::CheckOverride { path } => assert_eq!(path, "/u/frpc"),
        _ => panic!("expected a check of the user's binary"),
    }
    let (_, action) = e.step(EnsureEvent::OverrideChecked(true));
    match action {
        EnsureAction::Finish(Ok(s)) => assert_eq!(s.source, Some("manual".to_string())),
        _ => panic!("expected the user's binary"),
    }

    // the user's binary is missing, nothing cached: download and unpack
    let (mut e, _, _) = BinaryEnsure::begin(FrpBinaryKind::Client, "linux", "x86_64", Some("/u/frpc"));
    let (events, action) = e.step(EnsureEvent::OverrideChecked(false));
    assert_eq!(events.len(), 1);
    let spec = match action {
        EnsureAction::CheckInstall { spec } => spec,
        _ => panic!("expected the install folder"),
    };
    assert_eq!(spec.binary_name, "frpc");
    assert!(e.awaits(&EnsureEvent::InstallChecked { binary_path: "/b/frpc".into(), is_file: false }));
    assert!(!e.awaits(&EnsureEvent::Downloaded));
    let (events, action) = e.step(EnsureEvent::InstallChecked { binary_path: "/b/frpc".into(), is_file: false });
    assert_eq!(events, vec![ensure_downloading(FrpBinaryKind::Client, &spec)]);
    match action {
        EnsureAction::Download { url, .. } => assert_eq!(url, download_url(&spec)),
        _ => panic!("expected a download"),
    }
    let (events, action) = e.step(EnsureEvent::Downloaded);
    assert_eq!(events, vec![ensure_extracting(FrpBinaryKind::Client)]);
    assert!(matches!(action, EnsureAction::Extract { .. }));
    let (events, action) = e.step(EnsureEvent::Extracted);
    assert_eq!(events, vec![ensure_downloaded(FrpBinaryKind::Client, "/b/frpc".into()).1]);
    match action {
        EnsureAction::Finish(Ok(s)) => {
            assert_eq!(s.path, Some("/b/frpc".to_string()));
            assert_eq!(s.source, Some("downloaded".to_string()));
        }
        _ => panic!("expected a downloaded binary"),
    }

    // cached, and a failed download
    let (mut e, _, _) = BinaryEnsure::begin(FrpBinaryKind::Server, "macos", "aarch64", None);
    let (_, action) = e.step(EnsureEvent::InstallChecked { binary_path: "/b/frps".into(), is_file: true });
    assert!(matches!(action, EnsureAction::Finish(Ok(_))));
    let (mut e, _, _) = BinaryEnsure::begin(FrpBinaryKind::Server, "macos", "aarch64", None);
    e.step(EnsureEvent::InstallChecked { binary_path: "/b/frps".into(), is_file: false });
    let (events, action) = e.step(EnsureEvent::Failed("net down".into()));
    assert!(events.is_empty());
    assert!(matches!(action, EnsureAction::Finish(Err(ref m)) if m == "net down"));

    // unsupported platform
    let (_, _, action) = BinaryEnsure::begin(FrpBinaryKind::Client, "haiku", "x86_64", None);
    assert!(matches!(action, EnsureAction::Finish(Err(ref m))
        if m == "Unsupported platform for official frp binary auto-download: haiku/x86_64"));
}

#[test]
fn rendered_config_is_complete_toml() {
    let settings = TunnelSettings {
        server_addr: " vps.example.net ".into(),
        server_port: 7001,
        token: "tok\"en".into(),
        ..TunnelSettings::default()
    };
    let rendered = render_config(&settings).expect("renders");
    let expected = "serverAddr = \"vps.example.net\"\nserverPort = 7001\nloginFailExit = true\n\n\
[auth]\nmethod = \"token\"\ntoken = 'tok\"en'\n\n\
[transport]\nprotocol = \"tcp\"\n\n\
[[proxies]]\nname = \"minecraft-lan\"\ntype = \"tcp\"\nlocalIP = \"127.0.0.1\"\nlocalPort = 25565\nremotePort = 25565\n";
    assert_eq!(rendered, expected);
    assert_eq!(config_table(&frpc_config(&settings)).len(), 6);
    assert_eq!(finish_render(Err("bad".into())), Err("Failed to render frpc config: bad".to_string()));
    assert_eq!(finish_render(Ok("x".into())), Ok("x".to_string()));
}
