use lamco_rdp_server::config::commented::{with_comments, Note};
use lamco_rdp_server::config::overlay::{
    apply_env_overrides, infer_toml_value, parse_integer, EnvVar,
};
use lamco_rdp_server::config::types::{default_cursor_mode, default_handshake_timeout};
use lamco_rdp_server::config::{
    default_cert_path, default_config_version, default_key_path, get_cert_config_dir, is_flatpak,
    portal_cursor_mode, resolve_log_dir, Config, ConfigError, CursorMode, HostEnvironment,
    HostFacts, LoadStep, PortalSettings, ProtocolVars,
};

fn native() -> HostEnvironment {
    HostEnvironment {
        flatpak: false,
        uid: 1000,
        config_dir: Some("/home/u/.config".to_string()),
        data_dir: Some("/home/u/.local/share".to_string()),
    }
}

fn sound() -> HostFacts {
    HostFacts {
        listen_addr_valid: true,
        cert_exists: true,
        key_exists: true,
    }
}

fn var(key: &str, value: &str) -> EnvVar {
    EnvVar {
        key: key.to_string(),
        value: value.to_string(),
    }
}

fn default_config() -> Config {
    match Config::default_config(&native()) {
        Ok(c) => c,
        Err(e) => panic!("{}", e.message()),
    }
}

fn problem(c: &Config, facts: HostFacts) -> Option<String> {
    c.validate(facts).err().map(|e| e.message())
}

#[test]
fn test_default_config() {
    let config = default_config();
    assert_eq!(config.server.listen_addr, "0.0.0.0:3389");
    assert!(config.server.use_portals);
    assert_eq!(config.video.target_fps, 30);
}

#[test]
fn test_config_validation_invalid_address() {
    let mut config = default_config();
    config.server.listen_addr = "invalid".to_string();
    let facts = HostFacts {
        listen_addr_valid: false,
        ..sound()
    };
    assert!(config.validate(facts).is_err());
    assert_eq!(
        problem(&config, facts).unwrap(),
        "Invalid listen address"
    );
}

#[test]
fn test_config_validation_invalid_cursor_mode() {
    let mut config = default_config();
    config.video.cursor_mode = "invalid_mode".to_string();
    assert!(config.validate(sound()).is_err());
    assert_eq!(
        problem(&config, sound()).unwrap(),
        "Invalid cursor mode: invalid_mode"
    );
}

#[test]
fn test_infer_toml_value_bool() {
    assert_eq!(infer_toml_value("true"), toml::Value::Boolean(true));
    assert_eq!(infer_toml_value("false"), toml::Value::Boolean(false));
}

#[test]
fn test_infer_toml_value_integer() {
    assert_eq!(infer_toml_value("42"), toml::Value::Integer(42));
    assert_eq!(infer_toml_value("0"), toml::Value::Integer(0));
    assert_eq!(infer_toml_value("-1"), toml::Value::Integer(-1));
}

#[test]
fn test_infer_toml_value_float() {
    assert_eq!(infer_toml_value("3.14"), toml::Value::Float(3.14));
}

#[test]
fn test_infer_toml_value_string() {
    assert_eq!(
        infer_toml_value("hello"),
        toml::Value::String("hello".into())
    );
    assert_eq!(
        infer_toml_value("0.0.0.0:3389"),
        toml::Value::String("0.0.0.0:3389".into())
    );
}

#[test]
fn test_infer_toml_value_ordering() {
    // "0" parses as integer, not bool or string
    assert_eq!(infer_toml_value("0"), toml::Value::Integer(0));
    // "1" parses as integer, not bool
    assert_eq!(infer_toml_value("1"), toml::Value::Integer(1));
    // "1.0" parses as float, not string
    assert_eq!(infer_toml_value("1.0"), toml::Value::Float(1.0));
    // IP:port stays string (colon prevents numeric parse)
    assert!(matches!(
        infer_toml_value("127.0.0.1:3389"),
        toml::Value::String(_)
    ));
}

#[test]
fn odd_numbers_are_read_as_the_standard_library_reads_them() {
    for s in [
        "+7", "-7", "+", "-", "", "007", "9223372036854775807", "9223372036854775808",
        "-9223372036854775808", "-9223372036854775809", "1_000", " 1", "0x10", "\u{0661}",
    ] {
        assert_eq!(parse_integer(s), s.parse::<i64>().ok(), "{s:?}");
    }
    for s in [
        "1.", ".5", ".", "1e5", "1E-5", "1e", "e5", "+1.5", "--1", "inf", "-Infinity", "NaN", "nan ",
        "1.5.2", "12e+3", "1e+", "infinit", "",
    ] {
        let value = infer_toml_value(s);
        if s.parse::<i64>().is_err() {
            assert_eq!(
                matches!(value, toml::Value::Float(_)),
                s.parse::<f64>().is_ok(),
                "{s:?}"
            );
        }
    }
}

#[test]
fn variables_override_the_file() {
    let mut table: toml::Table = "[server]\nlisten_addr = \"a\"\nmax_connections = 3\n"
        .parse()
        .unwrap();
    let vars = [
        var("LAMCO_SERVER__LISTEN_ADDR", "0.0.0.0:3390"),
        var("LAMCO_EGFX__ENABLED", "false"),
        var("HOME", "/home/u"),
        var("LAMCO_VIDEO__TARGET_FPS", "60"),
        var("LAMCO_Plain", "x"),
    ];
    let keys = apply_env_overrides(&mut table, &vars).unwrap();
    assert_eq!(
        keys,
        vec![
            "LAMCO_SERVER__LISTEN_ADDR",
            "LAMCO_EGFX__ENABLED",
            "LAMCO_VIDEO__TARGET_FPS",
            "LAMCO_Plain",
        ]
    );
    assert_eq!(
        table["server"]["listen_addr"],
        toml::Value::String("0.0.0.0:3390".into())
    );
    assert_eq!(table["server"]["max_connections"], toml::Value::Integer(3));
    assert_eq!(table["egfx"]["enabled"], toml::Value::Boolean(false));
    assert_eq!(table["video"]["target_fps"], toml::Value::Integer(60));
    assert_eq!(table["plain"], toml::Value::String("x".into()));
    assert!(!table.contains_key("home"));
}

#[test]
fn the_last_variable_of_a_setting_holds() {
    let mut table: toml::Table = "[video]\ntarget_fps = 30\n".parse().unwrap();
    let vars = [
        var("LAMCO_VIDEO__TARGET_FPS", "60"),
        var("LAMCO_video__target_fps", "fast"),
    ];
    apply_env_overrides(&mut table, &vars).unwrap();
    assert_eq!(table["video"]["target_fps"], toml::Value::String("fast".into()));
}

#[test]
fn a_value_is_no_table() {
    let mut table: toml::Table = "server = 5\n".parse().unwrap();
    let vars = [var("LAMCO_SERVER__PORT", "1")];
    assert_eq!(
        apply_env_overrides(&mut table, &vars),
        Err("LAMCO_SERVER__PORT".to_string())
    );
}

#[test]
fn tables_are_loaded_with_and_without_variables() {
    let vars = [var("LAMCO_VIDEO__TARGET_FPS", "60")];
    let tables = Config::load_tables(Some("[video]\ntarget_fps = 30\n"), &vars)
        .ok()
        .unwrap();
    assert_eq!(tables.base["video"]["target_fps"], toml::Value::Integer(30));
    assert_eq!(
        tables.table["video"]["target_fps"],
        toml::Value::Integer(60)
    );
    assert_eq!(tables.overrides, vec!["LAMCO_VIDEO__TARGET_FPS"]);

    let empty = Config::load_tables(None, &[]).ok().unwrap();
    assert!(empty.base.is_empty() && empty.table.is_empty() && empty.overrides.is_empty());

    let unreadable = Config::load_tables(Some("= nonsense"), &[]).err().unwrap();
    assert!(matches!(unreadable, ConfigError::Unreadable(_)));
    assert_eq!(unreadable.message(), "Failed to parse config file");

    let conflict = Config::load_tables(Some("video = 1\n"), &vars).err().unwrap();
    assert_eq!(
        conflict.message(),
        "Config path conflict for env var LAMCO_VIDEO__TARGET_FPS"
    );
}

#[test]
fn an_error_of_the_variables_is_not_held_against_the_file() {
    let keys = ["LAMCO_A".to_string()];
    assert_eq!(Config::load_step(true, &keys), LoadStep::Use);
    assert_eq!(Config::load_step(false, &keys), LoadStep::WithoutOverrides);
    assert_eq!(Config::load_step(true, &[]), LoadStep::Use);
    assert_eq!(Config::load_step(false, &[]), LoadStep::Fail);
}

#[test]
fn older_settings_are_brought_up_to_date() {
    let mut config = default_config();
    config.config_version = 0;
    config.security.enable_nla = true;
    config.migrate();
    assert_eq!(config.security.security_mode, "hybrid");
    assert_eq!(config.config_version, 1);
    config.migrate();
    assert_eq!(config.security.security_mode, "hybrid");

    let mut explicit = default_config();
    explicit.security.enable_nla = true;
    explicit.security.security_mode = "tls".to_string();
    explicit.migrate();
    assert_eq!(explicit.security.security_mode, "tls");
    assert_eq!(default_config_version(), 1);
}

#[test]
fn loading_ends_with_a_check() {
    let mut config = default_config();
    config.security.enable_nla = true;
    let loaded = config.finish_load(sound()).ok().unwrap();
    assert_eq!(loaded.security.security_mode, "hybrid");

    let refused = default_config()
        .finish_load(HostFacts {
            cert_exists: false,
            ..sound()
        })
        .err()
        .unwrap();
    assert_eq!(
        refused.message(),
        "Certificate not found: /home/u/.config/lamco-rdp-server/cert.pem"
    );
}

#[test]
fn each_problem_has_its_words() {
    assert_eq!(problem(&default_config(), sound()), None);

    let no_key = HostFacts {
        key_exists: false,
        ..sound()
    };
    assert_eq!(
        problem(&default_config(), no_key).unwrap(),
        "Private key not found: /home/u/.config/lamco-rdp-server/key.pem"
    );

    let mut c = default_config();
    c.security.auth_method = "ldap".to_string();
    assert_eq!(
        problem(&c, sound()).unwrap(),
        "Invalid auth_method: ldap (expected none or pam)"
    );

    let mut c = default_config();
    c.security.security_mode = "rdp".to_string();
    assert_eq!(
        problem(&c, sound()).unwrap(),
        "Invalid security mode: rdp (expected tls, hybrid, or auto)"
    );

    let mut c = default_config();
    c.security.auth_method = "pam".to_string();
    assert_eq!(
        problem(&c, sound()).unwrap(),
        "auth_method=pam requires security_mode=tls (CredSSP/Hybrid is \
         incompatible with PAM authentication)"
    );
    c.security.security_mode = "tls".to_string();
    assert_eq!(problem(&c, sound()), None);

    let mut c = default_config();
    c.cursor.mode = "x".to_string();
    assert_eq!(problem(&c, sound()).unwrap(), "Invalid cursor strategy mode: x");
    c.cursor.mode = "predictive".to_string();
    assert_eq!(problem(&c, sound()), None);

    let mut c = default_config();
    c.egfx.zgfx_compression = "x".to_string();
    assert_eq!(problem(&c, sound()).unwrap(), "Invalid ZGFX compression mode: x");

    let mut c = default_config();
    c.egfx.codec = "x".to_string();
    assert_eq!(problem(&c, sound()).unwrap(), "Invalid EGFX codec: x");

    let mut c = default_config();
    c.damage_tracking.method = "x".to_string();
    assert_eq!(problem(&c, sound()).unwrap(), "Invalid damage tracking method: x");

    let mut c = default_config();
    c.hardware_encoding.quality_preset = "x".to_string();
    assert_eq!(problem(&c, sound()).unwrap(), "Invalid quality preset: x");

    let mut c = default_config();
    c.egfx.qp_min = 41;
    assert_eq!(
        problem(&c, sound()).unwrap(),
        "qp_min (41) cannot be greater than qp_max (40)"
    );

    let mut c = default_config();
    c.egfx.qp_default = 9;
    assert_eq!(
        problem(&c, sound()).unwrap(),
        "qp_default (9) must be between qp_min (10) and qp_max (40)"
    );
}

#[test]
fn certificates_come_in_pairs() {
    let c = default_config();
    assert!(matches!(c.check_certificates(true, true), Ok(true)));
    assert!(matches!(c.check_certificates(false, false), Ok(false)));
    assert_eq!(
        c.check_certificates(true, false).err().unwrap().message(),
        "Certificate exists but private key is missing: /home/u/.config/lamco-rdp-server/key.pem"
    );
    assert_eq!(
        c.check_certificates(false, true).err().unwrap().message(),
        "Private key exists but certificate is missing: /home/u/.config/lamco-rdp-server/cert.pem"
    );
}

#[test]
fn directories_follow_the_host() {
    let env = native();
    assert_eq!(get_cert_config_dir(&env), "/home/u/.config/lamco-rdp-server");
    assert_eq!(
        default_cert_path(&env),
        "/home/u/.config/lamco-rdp-server/cert.pem"
    );
    assert_eq!(
        default_key_path(&env),
        "/home/u/.config/lamco-rdp-server/key.pem"
    );
    assert_eq!(
        resolve_log_dir(&env, &None),
        "/home/u/.local/share/lamco-rdp-server/logs"
    );
    assert_eq!(resolve_log_dir(&env, &Some("/var/log".to_string())), "/var/log");

    let root = HostEnvironment { uid: 0, ..native() };
    assert_eq!(get_cert_config_dir(&root), "/etc/lamco-rdp-server");

    let bare = HostEnvironment {
        config_dir: None,
        data_dir: None,
        ..native()
    };
    assert_eq!(get_cert_config_dir(&bare), "/etc/lamco-rdp-server");
    assert_eq!(resolve_log_dir(&bare, &None), "/tmp/lamco-rdp-server");

    let sandbox = HostEnvironment {
        flatpak: true,
        ..native()
    };
    assert_eq!(get_cert_config_dir(&sandbox), "/home/u/.config");
    assert_eq!(
        resolve_log_dir(&sandbox, &Some("/var/log".to_string())),
        "/home/u/.local/share/logs"
    );
    let bare_sandbox = HostEnvironment {
        flatpak: true,
        config_dir: None,
        data_dir: None,
        uid: 0,
    };
    assert_eq!(get_cert_config_dir(&bare_sandbox), "/app/config");
    assert_eq!(resolve_log_dir(&bare_sandbox, &None), "/app/data/logs");

    assert!(is_flatpak(true, false) && is_flatpak(false, true) && !is_flatpak(false, false));
}

#[test]
fn protocol_variables_follow_the_settings() {
    let unset = ProtocolVars {
        capture_protocol: false,
        capture_no_fallback: false,
        capture_timeout: false,
        clipboard_protocol: false,
        clipboard_no_fallback: false,
    };
    let mut c = default_config();
    assert!(c.export_protocol_env_vars(unset).is_empty());
    c.capture.protocol = "ext".to_string();
    c.capture.allow_fallback = false;
    c.capture.handshake_timeout_ms = 250;
    c.clipboard.protocol = "wlr".to_string();
    c.clipboard.allow_fallback = false;
    let vars: Vec<(String, String)> = c
        .export_protocol_env_vars(unset)
        .into_iter()
        .map(|v| (v.key, v.value))
        .collect();
    let want = [
        ("XDP_GENERIC_CAPTURE_PROTOCOL", "ext"),
        ("XDP_GENERIC_CAPTURE_NO_FALLBACK", "1"),
        ("XDP_GENERIC_CAPTURE_TIMEOUT_MS", "250"),
        ("XDP_GENERIC_CLIPBOARD_PROTOCOL", "wlr"),
        ("XDP_GENERIC_CLIPBOARD_NO_FALLBACK", "1"),
    ];
    assert_eq!(vars.len(), want.len());
    for (have, (key, value)) in vars.iter().zip(want) {
        assert_eq!((have.0.as_str(), have.1.as_str()), (key, value));
    }
    let set = ProtocolVars {
        capture_protocol: true,
        ..unset
    };
    assert_eq!(c.export_protocol_env_vars(set).len(), 4);
    assert_eq!(default_handshake_timeout(), 5000);
}

#[test]
fn command_line_addresses_replace_the_configured_one() {
    let c = default_config().with_overrides(Some("10.0.0.1".to_string()), 4000, None);
    assert_eq!(c.server.listen_addr, "10.0.0.1:4000");
    let c = default_config().with_overrides(None, 4000, Some("0.0.0.0".to_string()));
    assert_eq!(c.server.listen_addr, "0.0.0.0:4000");
    let c = default_config().with_overrides(None, 4000, Some("[::1]".to_string()));
    assert_eq!(c.server.listen_addr, "[::1]:4000");
    let c = default_config().with_overrides(None, 4000, None);
    assert_eq!(c.server.listen_addr, "0.0.0.0:3389");
}

#[test]
fn virtual_socket_port_is_kept_where_unused() {
    let before = default_config().server.vsock_port;
    let c = default_config().with_vsock(false, 9);
    assert!(!c.server.use_vsock);
    assert_eq!(c.server.vsock_port, before);
    let c = default_config().with_vsock(true, 9);
    assert!(c.server.use_vsock);
    assert_eq!(c.server.vsock_port, 9);
}

#[test]
fn portal_settings_follow_the_configuration() {
    let mut c = default_config();
    c.video.cursor_mode = "EMBEDDED".to_string();
    c.input.enable_touch = true;
    c.multimon.enabled = true;
    assert_eq!(
        c.to_portal_config(),
        PortalSettings {
            cursor_mode: CursorMode::Embedded,
            keyboard: true,
            pointer: true,
            touchscreen: true,
            monitors: true,
            windows: true,
            allow_multiple: true,
        }
    );
    assert_eq!(portal_cursor_mode("hidden"), CursorMode::Hidden);
    assert_eq!(portal_cursor_mode("metadata"), CursorMode::Metadata);
    assert_eq!(portal_cursor_mode("HIDDEN"), CursorMode::Metadata);
    assert_eq!(default_cursor_mode(), "metadata");
}

fn note(section: &str, key: &str, text: &str) -> Note {
    Note {
        section: section.to_string(),
        key: key.to_string(),
        text: text.to_string(),
    }
}

#[test]
fn settings_stand_below_their_comments() {
    let text = "version = 1\n\n[server]\nport = 3389\ntypes = [\n    \"a\",\n]\n\n[server.log]\nport = 2\n";
    let notes = [
        note("", "version", "The format"),
        note("server", "", "Where to listen"),
        note("server", "port", "The port\n- any number"),
        note("server", "port", "Never shown"),
        note("server.log", "port", "Another port"),
        note("elsewhere", "types", "Never shown"),
    ];
    let commented = with_comments(text, &notes);
    assert_eq!(
        commented,
        "# The format\nversion = 1\n\n# Where to listen\n[server]\n# The port\n# - any number\n\
         port = 3389\ntypes = [\n    \"a\",\n]\n\n[server.log]\n# Another port\nport = 2\n"
    );
    let kept: Vec<&str> = commented.split('\n').filter(|l| !l.starts_with('#')).collect();
    assert_eq!(kept, text.split('\n').collect::<Vec<&str>>());
    let before: toml::Table = text.parse().unwrap();
    let after: toml::Table = commented.parse().unwrap();
    assert_eq!(before, after);
}

#[test]
fn nothing_is_noted_of_an_empty_file() {
    assert_eq!(with_comments("", &[note("", "", "Nothing")]), "");
    assert_eq!(with_comments("[a]", &[note("a", "", "")]), "# \n[a]");
    assert_eq!(with_comments("a=1\n]", &[note("", "a", "x")]), "a=1\n]");
}
