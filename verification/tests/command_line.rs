use lamco_rdp_server::cli::args::{Args, Mode};
use lamco_rdp_server::cli::capabilities::{
    capabilities_value, kernel_version, level_str, output_capabilities_json,
    output_capabilities_text, show_capabilities, CapabilityOutput, CapabilityReport,
    DeploymentContext, OsRelease, QuirkReport, ServiceCounts, ServiceLevel, ServiceReport,
};
use lamco_rdp_server::cli::logging::{
    init_logging, log_file_path, stamped_log_file, LogFormat, LogTarget,
};
use lamco_rdp_server::cli::report::{
    grant_introduction, portal_check, run_diagnostics, show_persistence_status, Check,
    PersistenceReport,
};
use lamco_rdp_server::config::types::LoggingConfig;
use lamco_rdp_server::config::{Config, HostEnvironment};

fn args() -> Args {
    Args {
        config: None,
        listen: None,
        port: 3389,
        verbose: 0,
        log_format: "pretty".to_string(),
        log_file: None,
        grant_permission: false,
        clear_tokens: false,
        persistence_status: false,
        show_capabilities: false,
        format: "text".to_string(),
        diagnose: false,
        dbus_service: false,
        system: false,
        generate_config: false,
        vsock: false,
        vsock_port: 3389,
    }
}

fn env() -> HostEnvironment {
    HostEnvironment {
        flatpak: false,
        uid: 1000,
        config_dir: Some("/c".to_string()),
        data_dir: Some("/d".to_string()),
    }
}

#[test]
fn the_first_request_is_met() {
    let mut a = args();
    assert_eq!(a.mode(), Mode::Serve);
    a.grant_permission = true;
    assert_eq!(a.mode(), Mode::GrantPermission);
    a.clear_tokens = true;
    assert_eq!(a.mode(), Mode::ClearTokens);
    a.diagnose = true;
    assert_eq!(a.mode(), Mode::Diagnose);
    a.persistence_status = true;
    assert_eq!(a.mode(), Mode::PersistenceStatus);
    a.show_capabilities = true;
    assert_eq!(a.mode(), Mode::ShowCapabilities);
    a.generate_config = true;
    assert_eq!(a.mode(), Mode::GenerateConfig);
}

#[test]
fn documents_are_printed_quietly() {
    let mut a = args();
    a.format = "json".to_string();
    assert!(!a.quiet());
    a.show_capabilities = true;
    assert!(a.quiet());
    a.format = "text".to_string();
    assert!(!a.quiet());
}

#[test]
fn configuration_files_are_looked_for() {
    let mut a = args();
    assert_eq!(a.candidate(&env()).unwrap(), "/c/lamco-rdp-server/config.toml");
    assert_eq!(a.config_path(&env(), true), "/c/lamco-rdp-server/config.toml");
    assert_eq!(
        a.config_path(&env(), false),
        "/etc/lamco-rdp-server/config.toml"
    );
    a.config = Some("x.toml".to_string());
    assert!(a.candidate(&env()).is_none());
    assert_eq!(a.config_path(&env(), true), "x.toml");
}

#[test]
fn the_command_line_is_applied() {
    let mut a = args();
    a.port = 4000;
    a.vsock = true;
    a.vsock_port = 5;
    let c = a.apply(
        Config::default_config(&env()).ok().unwrap(),
        Some("0.0.0.0".to_string()),
    );
    assert_eq!(c.server.listen_addr, "0.0.0.0:4000");
    assert!(c.server.use_vsock);
    assert_eq!(c.server.vsock_port, 5);

    // A configured virtual socket needs no argument.
    let mut configured = Config::default_config(&env()).ok().unwrap();
    configured.server.use_vsock = true;
    configured.server.vsock_port = 3390;
    let c = args().apply(configured, None);
    assert!(c.server.use_vsock);
    assert_eq!(c.server.vsock_port, 3390);
    assert_eq!(c.server.listen_addr, "0.0.0.0:3389");
}

#[test]
fn log_levels() {
    let mut a = args();
    let mut l = LoggingConfig::default();
    let level = |a: &Args, l: &LoggingConfig, quiet: bool| init_logging(a, l, &env(), quiet).level;
    l.level = "warn".to_string();
    assert_eq!(level(&a, &l, false), "warn");
    l.level = "loud".to_string();
    assert_eq!(level(&a, &l, false), "info");
    a.verbose = 1;
    assert_eq!(level(&a, &l, false), "debug");
    a.verbose = 3;
    assert_eq!(level(&a, &l, false), "trace");
    assert_eq!(level(&a, &l, true), "error");
    assert_eq!(
        init_logging(&a, &l, &env(), false).filter,
        "lamco=trace,lamco_portal=trace,lamco_rdp=trace,lamco_video=trace,\
         ironrdp_cliprdr=trace,ironrdp_egfx=trace,ironrdp_dvc=trace,ironrdp_server=trace,\
         ironrdp=info,ashpd=trace,zbus=info,warn"
    );
}

#[test]
fn log_formats() {
    let mut a = args();
    let l = LoggingConfig::default();
    let p = init_logging(&a, &l, &env(), false);
    assert_eq!((p.console, p.file), (LogFormat::Pretty, LogFormat::Full));
    a.log_format = "json".to_string();
    let p = init_logging(&a, &l, &env(), false);
    assert_eq!((p.console, p.file), (LogFormat::Json, LogFormat::Json));
    a.log_format = "compact".to_string();
    let p = init_logging(&a, &l, &env(), false);
    assert_eq!((p.console, p.file), (LogFormat::Compact, LogFormat::Compact));
}

#[test]
fn log_targets() {
    let mut a = args();
    let mut l = LoggingConfig::default();
    let target = |a: &Args, l: &LoggingConfig, e: &HostEnvironment| init_logging(a, l, e, false).target;
    assert!(matches!(target(&a, &l, &env()), LogTarget::ConsoleOnly));
    let sandbox = HostEnvironment {
        flatpak: true,
        ..env()
    };
    match target(&a, &l, &sandbox) {
        LogTarget::Directory(d) => assert_eq!(d, "/d/logs"),
        other => panic!("{other:?}"),
    }
    l.log_dir = Some("/var/log".to_string());
    match target(&a, &l, &env()) {
        LogTarget::Directory(d) => assert_eq!(d, "/var/log"),
        other => panic!("{other:?}"),
    }
    a.log_file = Some("/x.log".to_string());
    match target(&a, &l, &sandbox) {
        LogTarget::File(p) => assert_eq!(p, "/x.log"),
        other => panic!("{other:?}"),
    }
}

#[test]
fn log_files_are_named_after_the_time() {
    assert_eq!(
        stamped_log_file("/l", "20260101-120000"),
        "/l/lamco-rdp-server-20260101-120000.log"
    );
    assert_ne!(
        stamped_log_file("/l", "20260101-120000"),
        stamped_log_file("/l", "20260101-120001")
    );
    assert_eq!(log_file_path(&LogTarget::ConsoleOnly, true), None);
    let file = LogTarget::File("/x".to_string());
    assert_eq!(log_file_path(&file, false), Some("/x".to_string()));
    let dir = LogTarget::Directory("/l".to_string());
    assert_eq!(log_file_path(&dir, false), None);
    let path = log_file_path(&dir, true).unwrap();
    let stamp = path
        .strip_prefix("/l/lamco-rdp-server-")
        .and_then(|p| p.strip_suffix(".log"))
        .unwrap();
    assert_eq!(stamp.len(), 15);
    assert_eq!(stamp.as_bytes()[8], b'-');
    let part = |from: usize, to: usize| stamp[from..to].parse::<u32>().unwrap();
    assert!(part(0, 4) >= 1970);
    assert!((1..=12).contains(&part(4, 6)));
    assert!((1..=31).contains(&part(6, 8)));
    assert!(part(9, 11) <= 23 && part(11, 13) <= 59 && part(13, 15) <= 60);
}

fn report() -> CapabilityReport {
    CapabilityReport {
        compositor: "GNOME 46".to_string(),
        compositor_version: Some("46".to_string()),
        os_release: Some(OsRelease {
            pretty_name: "Fedora".to_string(),
            version_id: "40".to_string(),
        }),
        kernel_version: "6.8".to_string(),
        portal_version: 5,
        portal_backend: None,
        supports_screencast: true,
        supports_remote_desktop: true,
        supports_clipboard: false,
        deployment: DeploymentContext::SystemdUser {
            linger_enabled: true,
        },
        deployment_text: "systemd user service".to_string(),
        runtime_dir: None,
        storage_method: "Secret Service".to_string(),
        encryption: "AES".to_string(),
        accessible: true,
        quirks: vec![QuirkReport {
            id: "ForceAvc420".to_string(),
            description: "old driver".to_string(),
        }],
        services: vec![
            ServiceReport {
                id: "VideoCapture".to_string(),
                name: "Video".to_string(),
                level: ServiceLevel::Guaranteed,
                wayland_source: Some("portal".to_string()),
                rdp_capability: None,
                notes: Some("n".to_string()),
            },
            ServiceReport {
                id: "Clip".to_string(),
                name: "Clipboard".to_string(),
                level: ServiceLevel::BestEffort,
                wayland_source: None,
                rdp_capability: Some("cliprdr".to_string()),
                notes: None,
            },
        ],
        counts: ServiceCounts {
            guaranteed: 1,
            best_effort: 1,
            degraded: 2,
            unavailable: 3,
        },
        dma_buf: true,
    }
}

#[test]
fn the_document_says_what_was_found() {
    let v = capabilities_value(&report());
    assert_eq!(v["system"]["compositor"], "GNOME 46");
    assert_eq!(v["system"]["compositor_version"], "46");
    assert_eq!(v["system"]["distribution"], "Fedora 40");
    assert_eq!(v["system"]["kernel"], "6.8");
    assert_eq!(v["portals"]["version"], 5);
    assert!(v["portals"]["backend"].is_null());
    assert_eq!(v["portals"]["screencast_version"], 5);
    assert_eq!(v["portals"]["remote_desktop_version"], 5);
    assert_eq!(v["portals"]["secret_version"], 1);
    assert_eq!(v["deployment"]["context"], "systemd-user");
    assert_eq!(v["deployment"]["xdg_runtime_dir"], "/run/user/1000");
    assert_eq!(v["deployment"]["linger"], true);
    assert_eq!(v["persistence"]["strategy"], "Secret Service");
    assert_eq!(v["persistence"]["notes"][0], "Credential storage accessible");
    assert_eq!(v["quirks"][0]["id"], "ForceAvc420");
    assert_eq!(v["quirks"][0]["impact"], "workaround");
    assert_eq!(v["services"][0]["level"], "guaranteed");
    assert_eq!(v["services"][0]["notes"][0], "n");
    assert!(v["services"][0]["rdp_capability"].is_null());
    assert_eq!(v["services"][1]["level"], "best_effort");
    assert_eq!(v["services"][1]["notes"].as_array().unwrap().len(), 0);
    assert_eq!(v["summary"]["unavailable"], 3);
    assert_eq!(v["hints"]["recommended_fps"], 30);
    assert_eq!(v["hints"]["recommended_codec"], "avc420");
    assert_eq!(v["hints"]["zero_copy"], true);
    assert_eq!(v.as_object().unwrap().len(), 8);

    let mut r = report();
    r.accessible = false;
    r.dma_buf = false;
    r.os_release = None;
    r.deployment = DeploymentContext::InitD;
    let v = capabilities_value(&r);
    assert!(v["portals"]["secret_version"].is_null());
    assert!(v["deployment"]["linger"].is_null());
    assert_eq!(v["deployment"]["context"], "initd");
    assert_eq!(v["system"]["distribution"], "Unknown");
    assert_eq!(v["hints"]["recommended_codec"], "bitmap");
    assert_eq!(
        v["persistence"]["notes"][0],
        "Credential storage locked or unavailable"
    );
}

#[test]
fn the_document_can_be_read_back() {
    let text = output_capabilities_json(&report());
    let v: serde_json::Value = serde_json::from_str(&text).unwrap();
    assert_eq!(v, capabilities_value(&report()));
    assert!(text.starts_with("{\n"));
    match show_capabilities("json", &report()) {
        CapabilityOutput::Document(d) => assert_eq!(d, text),
        CapabilityOutput::Lines(_) => panic!("a document was asked for"),
    }
}

#[test]
fn the_text_says_what_was_found() {
    let lines = output_capabilities_text(&report());
    assert_eq!(lines.len(), 19);
    assert_eq!(lines[4], "Compositor: GNOME 46");
    assert_eq!(lines[5], "  Version: 46");
    assert_eq!(lines[7], "Portal: version 5");
    assert_eq!(lines[8], "  ScreenCast: ✅");
    assert_eq!(lines[10], "  Clipboard: ❌");
    assert_eq!(lines[11], "  Restore tokens: ✅ Supported");
    assert_eq!(lines[15], "Credential Storage: Secret Service");
    let mut r = report();
    r.portal_version = 3;
    r.compositor_version = None;
    let lines = output_capabilities_text(&r);
    assert_eq!(lines[5], "  Version: unknown");
    assert_eq!(lines[11], "  Restore tokens: ❌ Not supported (v < 4)");
    match show_capabilities("text", &r) {
        CapabilityOutput::Lines(l) => assert_eq!(l, lines),
        CapabilityOutput::Document(_) => panic!("a text was asked for"),
    }
}

#[test]
fn kernel_versions() {
    assert_eq!(
        kernel_version(Some("Linux version 6.8.9-300.fc40.x86_64 (mockbuild)")),
        "6.8.9-300.fc40.x86_64"
    );
    assert_eq!(kernel_version(Some("Linux version")), "unknown");
    assert_eq!(kernel_version(None), "unknown");
    assert_eq!(level_str(ServiceLevel::Degraded), "degraded");
    assert_eq!(level_str(ServiceLevel::Unavailable), "unavailable");
}

#[test]
fn kept_sessions_are_reported() {
    let mut p = PersistenceReport {
        deployment: "Native".to_string(),
        storage_method: "File".to_string(),
        encryption: "AES".to_string(),
        has_token: true,
    };
    let lines = show_persistence_status(&p);
    assert_eq!(lines.len(), 9);
    assert_eq!(lines[5], "Storage: File (AES)");
    assert_eq!(lines[6], "Token Status: ✅ Available");
    assert_eq!(lines[8], "✅ Server can start without permission dialog");
    p.has_token = false;
    let lines = show_persistence_status(&p);
    assert_eq!(lines.len(), 10);
    assert_eq!(lines[6], "Token Status: ❌ Not found");
    assert_eq!(grant_introduction().len(), 12);
}

#[test]
fn checks_are_reported() {
    let checks = [
        Check::Wayland(true),
        Check::Wayland(false),
        Check::Bus(None),
        Check::Bus(Some("no bus".to_string())),
        Check::Compositor(Some("KDE".to_string())),
        Check::Compositor(None),
        portal_check(4, true, true),
        portal_check(4, true, false),
        Check::PortalFailed("gone".to_string()),
        Check::Deployment("Native".to_string()),
        Check::Storage {
            method: "File".to_string(),
            encryption: "AES".to_string(),
            accessible: true,
        },
        Check::Storage {
            method: "File".to_string(),
            encryption: "AES".to_string(),
            accessible: false,
        },
        Check::Token(true),
        Check::Token(false),
        Check::MachineId {
            usual: true,
            fallback: false,
        },
        Check::MachineId {
            usual: false,
            fallback: true,
        },
        Check::MachineId {
            usual: false,
            fallback: false,
        },
    ];
    let want = [
        "[  ] Wayland session... ✅",
        "[  ] Wayland session... ❌ Not in Wayland session",
        "[  ] D-Bus session bus... ✅",
        "[  ] D-Bus session bus... ❌ no bus",
        "[  ] Compositor identification... ✅ KDE",
        "[  ] Compositor identification... ⚠️  Unknown (using generic support)",
        "[  ] Portal connection... ✅ v4",
        "[  ] Portal connection... ⚠️  Partial support",
        "[  ] Portal connection... ❌ gone",
        "[  ] Deployment context... ✅ Native",
        "[  ] Credential storage... ✅ File (AES)",
        "[  ] Credential storage... ⚠️  File (locked)",
        "[  ] Restore token... ✅ Available",
        "[  ] Restore token... ❌ Not found",
        "[  ] Machine ID... ✅ Available",
        "[  ] Machine ID... ✅ Available (fallback location)",
        "[  ] Machine ID... ⚠️  Not found (will use hostname)",
    ];
    let lines = run_diagnostics(&checks);
    assert_eq!(lines.len(), checks.len() + 8);
    for (i, line) in want.iter().enumerate() {
        assert_eq!(&lines[i + 4], line);
    }
    assert_eq!(lines[lines.len() - 3], "SUMMARY:");
}
