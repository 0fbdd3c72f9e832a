use lamco_rdp_server::compositor::CompositorType;
use lamco_rdp_server::config::types::InputConfig;

#[test]
fn input_protocol_auto_selects_libei_for_gnome() {
    let config = InputConfig::default();
    let gnome = CompositorType::Gnome {
        version: Some("46.0".to_string()),
    };
    assert!(config.resolve_for_compositor(&gnome));
}

#[test]
fn input_protocol_auto_selects_wlr_for_wlroots() {
    let config = InputConfig::default();
    let sway = CompositorType::Sway {
        version: Some("1.10".to_string()),
    };
    let labwc = CompositorType::Wlroots {
        name: "labwc".to_string(),
    };
    let niri = CompositorType::Niri {
        version: Some("0.1.9".to_string()),
    };
    assert!(!config.resolve_for_compositor(&sway));
    assert!(!config.resolve_for_compositor(&labwc));
    assert!(!config.resolve_for_compositor(&niri));
}

#[test]
fn input_protocol_auto_selects_libei_for_kde() {
    let config = InputConfig::default();
    let kde = CompositorType::Kde {
        version: Some("6.6".to_string()),
    };
    assert!(config.resolve_for_compositor(&kde));
}

#[test]
fn input_protocol_explicit_overrides_auto() {
    let mut config = InputConfig::default();

    config.input_protocol = "wlr".to_string();
    let gnome = CompositorType::Gnome { version: None };
    assert!(!config.resolve_for_compositor(&gnome));

    config.input_protocol = "libei".to_string();
    let sway = CompositorType::Sway { version: None };
    assert!(config.resolve_for_compositor(&sway));
}

#[test]
fn legacy_use_libei_migration() {
    let config = InputConfig {
        input_protocol: "auto".to_string(),
        use_libei: Some(true),
        keyboard_layout: "auto".to_string(),
        enable_touch: false,
    };
    assert_eq!(config.effective_protocol(), "libei");
    assert!(config.prefers_libei());

    let config = InputConfig {
        input_protocol: "auto".to_string(),
        use_libei: Some(false),
        keyboard_layout: "auto".to_string(),
        enable_touch: false,
    };
    assert_eq!(config.effective_protocol(), "wlr");
    assert!(!config.prefers_libei());

    let config = InputConfig::default();
    assert_eq!(config.effective_protocol(), "auto");
}

#[test]
fn unknown_compositor_gets_virtual_input() {
    let config = InputConfig::default();
    let unknown = CompositorType::Unknown { session_info: None };
    assert!(!config.resolve_for_compositor(&unknown));
}
