use ironrdp_pdu::rdp::capability_sets::CodecProperty;
use lamco_rdp_server::compositor::CompositorType;
use lamco_rdp_server::config::types::{ClipboardConfig, Single};
use lamco_rdp_server::config::{Config, CursorMode, HostEnvironment};
use lamco_rdp_server::server::accept::{
    bind_vsock, connection_failure, error_notice, on_disconnect, quit_reason,
    resolve_security_mode, security_label, shutting_down, AfterClient, CleanupStep,
    ConnectionFailure, LamcoRdpServer, OverallHealth, SessionHealth, Transport, VsockAddress,
};
use lamco_rdp_server::server::clipboard_setup::{
    check_provider, choose_provider, orchestrator_settings, own_clipboard, own_provider,
    plan_clipboard, portal_clipboard, portal_session_id, unavailable, ClipboardSource,
    PortalClipboard, Provider, ProviderOptions, Subsystem,
};
use lamco_rdp_server::server::port::{
    find_process_by_inode, held_message, in_use_message, look_further, port_uses, process_name,
    Probe, ProcEntry,
};
use lamco_rdp_server::server::setup::{
    best_cursor_mode, bitmap_codecs, choose_strategy, compression_from_lower, connection_security,
    frame_source, is_self_sufficient, mode_name, monitors, plan_media, screencast_streams,
    session_failed, takes_input, video_request, Compression, ConnectionSecurity, FailedSession,
    FrameSource, PipeWireAccess, PortalStream, SessionType, SetupError, StrategyChoice, StreamInfo,
    VideoRequest,
};

fn config() -> Config {
    let env = HostEnvironment {
        flatpak: false,
        uid: 1000,
        config_dir: None,
        data_dir: None,
    };
    Config::default_config(&env).ok().unwrap()
}

const EVERY_SESSION: [SessionType; 6] = [
    SessionType::Portal,
    SessionType::Mutter,
    SessionType::Libei,
    SessionType::WlrDirect,
    SessionType::PortalGeneric,
    SessionType::ScreenCastOnly,
];

#[test]
fn strategy_follows_settings_and_compositor() {
    let gnome = CompositorType::Gnome { version: None };
    let sway = CompositorType::Sway { version: None };
    let mut c = config();
    assert_eq!(
        choose_strategy(&c, &gnome),
        StrategyChoice::Select { prefers_libei: true }
    );
    assert_eq!(
        choose_strategy(&c, &sway),
        StrategyChoice::Select { prefers_libei: false }
    );
    c.server.view_only = true;
    assert_eq!(choose_strategy(&c, &gnome), StrategyChoice::ScreenCastOnly);
}

#[test]
fn failed_session_falls_back_to_pictures() {
    assert!(matches!(session_failed("e", true), FailedSession::TryScreenCast));
    match session_failed("no bus", false) {
        FailedSession::GiveUp(e) => assert_eq!(
            e.message(),
            "Primary strategy failed and ScreenCast-only unavailable: no bus"
        ),
        FailedSession::TryScreenCast => panic!("nothing to fall back to"),
    }
}

#[test]
fn each_setup_error_has_its_words() {
    let e = "x".to_string();
    assert_eq!(
        SetupError::Probe(e.clone()).message(),
        "Failed to probe compositor capabilities: x"
    );
    assert_eq!(
        SetupError::OpenTokens(e.clone()).message(),
        "Failed to create Tokens: x"
    );
    assert_eq!(
        SetupError::LoadToken(e.clone()).message(),
        "Failed to load restore token: x"
    );
    assert_eq!(
        SetupError::SelectStrategy(e.clone()).message(),
        "Failed to select session strategy: x"
    );
    assert_eq!(
        SetupError::FallbackFailed(e.clone()).message(),
        "ScreenCast-only fallback also failed: x"
    );
    assert_eq!(
        SetupError::NoStreams.message(),
        "No streams from ScreenCast for input-only video"
    );
    assert_eq!(
        SetupError::Codecs(e).message(),
        "Failed to create codec capabilities: x"
    );
    assert_eq!(
        SetupError::InvalidListenAddress.message(),
        "Invalid listen address"
    );
}

#[test]
fn sessions_for_input_alone_need_a_screen_cast() {
    let modes = [CursorMode::Hidden, CursorMode::Embedded];
    for t in EVERY_SESSION {
        let want = if t == SessionType::Libei || t == SessionType::WlrDirect {
            VideoRequest::OwnScreenCast {
                cursor_mode: CursorMode::Embedded,
            }
        } else {
            VideoRequest::FromSession
        };
        assert_eq!(video_request(t, &modes), want);
    }
    assert_eq!(best_cursor_mode(&[]), CursorMode::Hidden);
    assert_eq!(
        best_cursor_mode(&[CursorMode::Embedded, CursorMode::Metadata]),
        CursorMode::Metadata
    );
}

#[test]
fn streams_are_taken_over_from_the_portal() {
    assert!(matches!(screencast_streams(&[]), Err(SetupError::NoStreams)));
    let streams = screencast_streams(&[
        PortalStream {
            node_id: 5,
            size: Some((1280, 720)),
            position: Some((-100, 20)),
        },
        PortalStream {
            node_id: 6,
            size: Some((-1, i32::MIN)),
            position: None,
        },
        PortalStream {
            node_id: 7,
            size: None,
            position: None,
        },
    ])
    .ok()
    .unwrap();
    assert_eq!(
        streams,
        vec![
            StreamInfo {
                node_id: 5,
                position: (-100, 20),
                size: (1280, 720),
            },
            StreamInfo {
                node_id: 6,
                position: (0, 0),
                size: (u32::MAX, 0x8000_0000),
            },
            StreamInfo {
                node_id: 7,
                position: (0, 0),
                size: (0, 0),
            },
        ]
    );
}

#[test]
fn frames_come_the_way_the_session_says() {
    assert_eq!(
        frame_source(PipeWireAccess::FileDescriptor(9)),
        FrameSource::Descriptor(9)
    );
    assert_eq!(frame_source(PipeWireAccess::NodeId(4)), FrameSource::Daemon);
    assert_eq!(
        frame_source(PipeWireAccess::DirectChannel),
        FrameSource::Direct
    );
}

#[test]
fn some_sessions_need_no_portal() {
    let names = ["portal", "portal", "portal", "wlr-direct", "portal-generic", "view-only"];
    for (t, name) in EVERY_SESSION.into_iter().zip(names) {
        assert_eq!(is_self_sufficient(t), name != "portal");
        assert_eq!(mode_name(t), name);
        assert_eq!(takes_input(t), name != "view-only");
    }
}

#[test]
fn media_follow_the_first_stream() {
    let mut c = config();
    c.egfx.zgfx_compression = "Always".to_string();
    let stream = StreamInfo {
        node_id: 42,
        position: (0, 0),
        size: (65_536 + 800, 600),
    };
    let plan = plan_media(&c, &[stream], true);
    assert_eq!((plan.width, plan.height), (800, 600));
    assert_eq!(plan.compression, Compression::Always);
    assert_eq!(plan.primary_stream_id, 42);
    assert_eq!(plan.audio_node_id, Some(42));
    assert!(plan.force_avc420_only);
    assert_eq!(plan.max_frames_in_flight, c.egfx.max_frames_in_flight);

    let bare = plan_media(&config(), &[], false);
    assert_eq!((bare.width, bare.height), (1920, 1080));
    assert_eq!(bare.primary_stream_id, 0);
    assert_eq!(bare.audio_node_id, None);
    assert_eq!(bare.compression, Compression::Never);

    assert_eq!(compression_from_lower("auto"), Compression::Auto);
    assert_eq!(compression_from_lower("ALWAYS"), Compression::Never);
}

#[test]
fn each_stream_has_a_monitor() {
    let s = |x: i32| StreamInfo {
        node_id: 1,
        position: (x, 7),
        size: (640, 480),
    };
    let m = monitors(&[s(0), s(-1)]);
    assert_eq!(m.len(), 2);
    assert_eq!((m[0].id, m[0].name.as_str(), m[0].is_primary), (0, "Monitor 0", true));
    assert_eq!((m[1].id, m[1].name.as_str(), m[1].is_primary), (1, "Monitor 1", false));
    assert_eq!((m[1].x, m[1].y, m[1].stream_x, m[1].stream_y), (-1, 7, u32::MAX, 7));
    assert_eq!((m[1].width, m[1].stream_height), (640, 480));
    assert_eq!(m[0].dpi, Single { bits: 96.0f32.to_bits() });
    assert_eq!(m[0].scale_factor, Single { bits: 1.0f32.to_bits() });
}

#[test]
fn codecs_are_announced() {
    let codecs = bitmap_codecs().ok().unwrap();
    assert_eq!(codecs.0.len(), 2);
    assert!(matches!(codecs.0[0].property, CodecProperty::RemoteFx(_)));
    assert!(matches!(codecs.0[1].property, CodecProperty::ImageRemoteFx(_)));
}

#[test]
fn network_level_authentication_needs_a_public_key() {
    assert_eq!(connection_security("hybrid", true), ConnectionSecurity::Hybrid);
    assert_eq!(connection_security("hybrid", false), ConnectionSecurity::Tls);
    assert_eq!(connection_security("auto", true), ConnectionSecurity::Tls);
}

#[test]
fn clipboard_settings_follow_the_allowed_types() {
    let mut c = ClipboardConfig::default();
    c.max_size = 77;
    c.rate_limit_ms = 5;
    c.kde_syncselection_hint = true;
    let all = orchestrator_settings(&c);
    assert!(all.enable_images && all.enable_files && all.enable_html && all.enable_rtf);
    assert_eq!((all.max_data_size, all.rate_limit_ms), (77, 5));
    assert!(all.kde_syncselection_hint);
    assert_eq!((all.chunk_size, all.timeout_ms), (65_536, 5000));

    c.allowed_types = vec!["text/plain".to_string(), "image/png".to_string()];
    let some = orchestrator_settings(&c);
    assert!(some.enable_images && !some.enable_files && !some.enable_html && !some.enable_rtf);

    c.allowed_types = vec!["x-special/gnome-copied-files".to_string()];
    let files = orchestrator_settings(&c);
    assert!(files.enable_files && !files.enable_images);
    c.allowed_types = vec!["application/rtf".to_string(), "text/html;x".to_string()];
    let rich = orchestrator_settings(&c);
    assert!(rich.enable_rtf && rich.enable_html && !rich.enable_files);
}

#[test]
fn own_clipboards_and_their_providers() {
    let mut c = ClipboardConfig::default();
    for t in EVERY_SESSION {
        let own = t == SessionType::WlrDirect || t == SessionType::PortalGeneric;
        assert_eq!(own_clipboard(t, &c).is_some(), own);
    }
    c.enabled = false;
    assert!(own_clipboard(SessionType::WlrDirect, &c).is_none());
    assert_eq!(
        own_provider(SessionType::PortalGeneric, ClipboardSource::DataControl, false),
        Some(Provider::DataControl)
    );
    assert_eq!(
        own_provider(SessionType::PortalGeneric, ClipboardSource::Portal, true),
        None
    );
    assert_eq!(
        own_provider(SessionType::WlrDirect, ClipboardSource::Nothing, true),
        Some(Provider::WlClipboard)
    );
    assert_eq!(
        own_provider(SessionType::WlrDirect, ClipboardSource::Nothing, false),
        None
    );
}

#[test]
fn what_a_session_lacks_is_reported() {
    assert_eq!(
        unavailable(SessionType::ScreenCastOnly, false),
        vec![Subsystem::Input, Subsystem::Clipboard]
    );
    assert_eq!(
        unavailable(SessionType::WlrDirect, false),
        vec![Subsystem::Clipboard]
    );
    assert!(unavailable(SessionType::PortalGeneric, true).is_empty());
    assert!(unavailable(SessionType::Portal, false).is_empty());
    assert_eq!(Subsystem::Input.name(), "input");
    assert_eq!(Subsystem::Clipboard.name(), "clipboard");
}

#[test]
fn separate_portal_sessions() {
    assert_eq!(
        portal_clipboard(ClipboardSource::Portal, SessionType::Libei, true),
        PortalClipboard::FromStrategy
    );
    assert_eq!(
        portal_clipboard(ClipboardSource::Nothing, SessionType::Libei, false),
        PortalClipboard::Separate { with_clipboard: false }
    );
    assert_eq!(
        portal_clipboard(ClipboardSource::Mutter, SessionType::Mutter, true),
        PortalClipboard::NotNeeded
    );
    assert_eq!(
        portal_clipboard(ClipboardSource::DataControl, SessionType::Libei, true),
        PortalClipboard::NotNeeded
    );
    let id = portal_session_id();
    assert_eq!(id.len(), "lamco-rdp-input-clipboard-".len() + 36);
    assert!(id.starts_with("lamco-rdp-input-clipboard-"));
    assert_ne!(id, portal_session_id());
}

#[test]
fn provider_choice() {
    let o = |source, data_control, portal_ready, wl_clipboard| ProviderOptions {
        source,
        data_control,
        portal_ready,
        wl_clipboard,
    };
    assert_eq!(choose_provider(o(ClipboardSource::Portal, false, true, true)), Some(Provider::Portal));
    assert_eq!(choose_provider(o(ClipboardSource::Portal, true, true, true)), Some(Provider::WlClipboard));
    assert_eq!(choose_provider(o(ClipboardSource::Portal, true, true, false)), Some(Provider::Portal));
    assert_eq!(choose_provider(o(ClipboardSource::Portal, true, false, true)), None);
    assert_eq!(choose_provider(o(ClipboardSource::Mutter, false, false, true)), Some(Provider::Mutter));
    assert_eq!(choose_provider(o(ClipboardSource::Mutter, true, false, true)), Some(Provider::WlClipboard));
    assert_eq!(choose_provider(o(ClipboardSource::Mutter, true, true, false)), Some(Provider::Portal));
    assert_eq!(choose_provider(o(ClipboardSource::DataControl, true, true, true)), Some(Provider::DataControl));
    assert_eq!(choose_provider(o(ClipboardSource::Nothing, true, false, false)), None);
    assert_eq!(choose_provider(o(ClipboardSource::Nothing, false, true, true)), Some(Provider::Portal));
    assert_eq!(choose_provider(o(ClipboardSource::Nothing, false, false, true)), None);

    let wl = Some(Provider::WlClipboard);
    let opts = o(ClipboardSource::Nothing, true, true, true);
    assert_eq!(check_provider(wl, opts, true, false), Some(Provider::Portal));
    assert_eq!(check_provider(wl, opts, false, false), wl);
    assert_eq!(check_provider(wl, opts, true, true), wl);
    assert_eq!(check_provider(wl, o(ClipboardSource::Nothing, true, false, true), true, false), wl);
}

#[test]
fn switched_off_clipboard_is_connected_to_nothing() {
    let mut c = ClipboardConfig::default();
    let on = plan_clipboard(&c, false);
    assert!(on.connected && on.mount_fuse);
    assert_eq!(on.settings.max_data_size, 10_485_760);
    assert!(!plan_clipboard(&c, true).mount_fuse);
    c.enabled = false;
    let off = plan_clipboard(&c, false);
    assert!(!off.connected && !off.mount_fuse);
    assert_eq!(off.settings.max_data_size, 16_777_216);
}

#[test]
fn security_modes_resolve() {
    assert!(resolve_security_mode("hybrid", "none"));
    assert!(resolve_security_mode("auto", "pam"));
    assert!(!resolve_security_mode("auto", "none"));
    assert!(!resolve_security_mode("tls", "pam"));
    assert!(!resolve_security_mode("other", "pam"));
    assert_eq!(security_label("hybrid"), "Hybrid (NLA/CredSSP)");
    assert_eq!(security_label("auto"), "Auto");
    assert_eq!(security_label("tls"), "TLS");
}

#[test]
fn a_client_comes_and_goes() {
    let mut c = config();
    c.security.auth_method = "pam".to_string();
    let mut server = LamcoRdpServer::new(c, true, true);
    assert!(!server.is_running());
    let start = server.run(true, "none", true);
    assert!(start.plan.use_pam && start.plan.hybrid);
    assert_eq!(start.plan.transport, Transport::Tcp);
    assert_eq!(start.security_label, "Auto");
    assert_eq!(start.status.old, "starting");
    assert_eq!(start.status.new, "running");
    assert_eq!(start.status.message, "Listening on 0.0.0.0:3389");

    let accepted = server.accepted("10.0.0.9:555", 77).unwrap();
    assert!(accepted.note_peer);
    assert!(accepted.event.client_id.starts_with("rdp-"));
    assert_eq!(accepted.event.client_id.len(), 40);
    assert_eq!(accepted.event.peer_address, "10.0.0.9:555");
    assert_eq!(accepted.event.timestamp, 77);

    let ended = server
        .connection_ended(Some("os error 104"), 2_500_000_000)
        .unwrap();
    assert_eq!(ended.failure, Some(ConnectionFailure::SessionLost));
    assert_eq!(ended.event.client_id, accepted.event.client_id);
    assert_eq!(ended.event.reason, "Connection ended");
    assert_eq!(ended.event.duration_seconds, 2);
    assert!(ended.forget_stale);
    assert!(server.connection_ended(None, 0).is_none());

    assert!(server.disconnect_handled(true).is_none());
    assert!(server.is_running());
    let second = server.accepted("10.0.0.9:556", 80).unwrap();
    assert_ne!(second.event.client_id, accepted.event.client_id);
    assert!(server.connection_ended(None, 0).unwrap().failure.is_none());
    let stop = server.disconnect_handled(false).unwrap();
    assert_eq!((stop.old.as_str(), stop.new.as_str()), ("running", "stopped"));
    assert_eq!(stop.message, "Session invalidated by compositor");
    assert!(!server.is_running());
}

#[test]
fn one_client_at_a_time_and_none_after_the_end() {
    let mut server = LamcoRdpServer::new(config(), false, false);
    assert!(server.accepted("early:1", 0).is_none());
    server.run(false, "none", false);

    assert!(server.accepted("first:1", 1).is_some());
    assert!(server.accepted("second:1", 2).is_none());
    assert!(server.shutdown_requested().is_none());
    assert!(server.disconnect_handled(false).is_none());
    assert!(server.is_running());

    assert!(server.connection_ended(None, 0).is_some());
    assert!(server.accepted("second:1", 3).is_none());
    assert!(server.shutdown_requested().is_none());
    let lost = SessionHealth { session_failed: true, overall: OverallHealth::Invalid };
    let accepts_more = on_disconnect(Some(lost)).accepts_more();
    assert!(server.disconnect_handled(accepts_more).is_some());

    assert!(!server.is_running());
    assert!(server.accepted("second:1", 4).is_none());
    assert!(server.connection_ended(None, 0).is_none());
    assert!(server.disconnect_handled(false).is_none());
    assert!(server.shutdown_requested().is_none());
}

#[test]
fn a_stop_between_clients_ends_the_run() {
    let mut server = LamcoRdpServer::new(config(), false, false);
    server.run(false, "none", false);
    assert!(server.accepted("first:1", 1).is_some());
    assert!(server.connection_ended(None, 0).is_some());
    assert!(server.disconnect_handled(true).is_none());
    let stop = server.shutdown_requested().unwrap();
    assert_eq!((stop.old.as_str(), stop.new.as_str()), ("running", "stopped"));
    assert!(server.shutdown_requested().is_none());
    assert!(server.accepted("second:1", 2).is_none());
}

#[test]
fn unavailable_modules_are_replaced() {
    let mut c = config();
    c.security.auth_method = "pam".to_string();
    c.server.use_vsock = true;
    let mut server = LamcoRdpServer::new(c, false, false);
    let start = server.run(false, "none", true);
    assert_eq!(start.plan.auth_method, "none");
    assert!(!start.plan.use_pam && !start.plan.hybrid);
    assert_eq!(start.plan.transport, Transport::Vsock);
    assert!(!server.accepted("vsock", 0).unwrap().note_peer);
    assert!(!server.connection_ended(None, 0).unwrap().forget_stale);
    assert!(server.disconnect_handled(true).is_none());
    assert!(server.is_running());
    assert!(server.shutdown_requested().is_none());
    assert!(!server.is_running());

    let start = server.run(true, "none", false);
    assert_eq!(start.plan.transport, Transport::Tcp);
    assert_eq!(server.shutdown_requested().unwrap().message, "Shutdown requested");
}

#[test]
fn resets_are_told_apart() {
    let reset = "read: Connection reset by peer";
    assert_eq!(connection_failure(reset, 999_999_999), ConnectionFailure::Probe);
    assert_eq!(connection_failure(reset, 1_000_000_000), ConnectionFailure::SessionLost);
    assert_eq!(connection_failure("tls alert", 1), ConnectionFailure::Error);
}

#[test]
fn only_a_lost_session_ends_the_server() {
    let h = |session_failed, overall| {
        Some(SessionHealth {
            session_failed,
            overall,
        })
    };
    assert_eq!(on_disconnect(None), AfterClient::Ready);
    assert_eq!(on_disconnect(h(false, OverallHealth::Healthy)), AfterClient::Ready);
    assert_eq!(on_disconnect(h(false, OverallHealth::Degraded)), AfterClient::Impaired);
    assert_eq!(on_disconnect(h(false, OverallHealth::Invalid)), AfterClient::Restart);
    assert_eq!(on_disconnect(h(true, OverallHealth::Healthy)), AfterClient::Stop);
    assert!(AfterClient::Restart.accepts_more() && !AfterClient::Stop.accepts_more());
}

#[test]
fn cleaning_up_happens_once() {
    let mut server = LamcoRdpServer::new(config(), true, true);
    assert_eq!(
        server.cleanup_resources(),
        vec![
            CleanupStep::AnnounceStop,
            CleanupStep::Broadcast,
            CleanupStep::Wait,
            CleanupStep::StopClipboard,
            CleanupStep::StopPipeWire,
            CleanupStep::ClosePortalSession,
        ]
    );
    assert!(server.cleanup_resources().is_empty());
    let mut bare = LamcoRdpServer::new(config(), false, false);
    assert_eq!(bare.cleanup_resources().len(), 4);
    assert_eq!(bare.signal_shutdown(), "Shutdown requested");
    assert_eq!(shutting_down().message, "Server shutting down");
    assert_eq!(quit_reason("SIGTERM"), "SIGTERM received");
}

#[test]
fn errors_are_shown_on_the_desktop_of_a_sandbox() {
    let mut c = config();
    c.notifications.on_error = true;
    let n = error_notice(&c, true, "boom").unwrap();
    assert_eq!((n.id.as_str(), n.title.as_str()), ("server-error", "RDP Server Error"));
    assert_eq!(n.body, "boom");
    assert!(n.high_priority);
    assert!(error_notice(&c, false, "boom").is_none());
    c.notifications.on_error = false;
    assert!(error_notice(&c, true, "boom").is_none());
}

#[test]
fn virtual_sockets_must_be_built_in() {
    assert_eq!(
        bind_vsock(true, 3389),
        Ok(VsockAddress {
            cid: u32::MAX,
            port: 3389,
        })
    );
    assert_eq!(
        bind_vsock(false, 3389),
        Err("vsock support not compiled in. Rebuild with --features vsock".to_string())
    );
}

#[test]
fn the_kernel_table_names_who_holds_a_port() {
    let table = "  sl  local_address rem_address   st tx_queue rx_queue tr tm->when retrnsmt   uid  timeout inode\n\
   0: 00000000:0D3D 00000000:0000 0A 00000000:00000000 00:00000000 00000000  1000        0 12345 1 0 100 0 0 10 0\n\
   1: 0100007F:0D3D 0100007F:9999 01 00000000:00000000 00:00000000 00000000  1000        0 777 1\n\
   2: 0100007F:1F90 0100007F:9999 01 0:0 0:0 0 0 0 1 1\n\
   3: too short :0D3D\n\
   4: 00000000:0D3D 00000000:0000 0B 00000000:00000000 00:00000000 00000000  1000        0 5\n";
    let uses = port_uses(table, 3389);
    let got: Vec<(&str, &str)> = uses
        .iter()
        .map(|u| (u.state.as_str(), u.inode.as_str()))
        .collect();
    assert_eq!(
        got,
        vec![("LISTEN", "12345"), ("ESTABLISHED", "777"), ("0B", "5")]
    );
    assert!(port_uses(table, 1).is_empty());
    assert!(port_uses("", 3389).is_empty());
    // Without its heading the first line would be taken for one.
    assert!(port_uses("0: 0:0D3D 0:0 06 a b c d e 9\n", 3389).is_empty());
    assert_eq!(port_uses("h\n0: 0:0D3D 0:0 06 a b c d e 9\n", 3389)[0].state, "TIME_WAIT");
    assert_eq!(port_uses("h\n0: 0:0D3D 0:0 08 a b c d e 9\n", 3389)[0].state, "CLOSE_WAIT");
    assert_eq!(port_uses("h\n0: 0:FFFF 0:0 08 a b c d e 9\n", 65_535).len(), 1);
    assert_eq!(port_uses("h\n0: 0:000A 0:0 08 a b c d e 9\n", 10).len(), 1);
}

#[test]
fn processes_are_found_by_their_sockets() {
    let e = |name: &str, links: &[&str]| ProcEntry {
        name: name.to_string(),
        links: links.iter().map(|l| l.to_string()).collect(),
    };
    let entries = [
        e("self", &["socket:[5]"]),
        e("-4", &["socket:[5]"]),
        e("4294967296", &["socket:[5]"]),
        e("12", &["/dev/null", "socket:[55]"]),
        e("34", &["/dev/null", "socket:[5]"]),
        e("56", &["socket:[5]"]),
    ];
    assert_eq!(find_process_by_inode(&entries, "5"), Some(34));
    assert_eq!(find_process_by_inode(&entries, "55"), Some(12));
    assert_eq!(find_process_by_inode(&entries, "6"), None);
    assert_eq!(process_name(" sshd: x \n"), "sshd: x");
    assert_eq!(process_name(" \n"), "");
    assert!(look_further(Probe::Connected) && look_further(Probe::Unclear));
    assert!(!look_further(Probe::Refused));
    assert_eq!(
        held_message(3389, "xrdp", 34, "LISTEN"),
        "Port 3389 is held by process 'xrdp' (PID 34) in state LISTEN"
    );
    assert_eq!(
        in_use_message(3389, "LISTEN", "5"),
        "Port 3389 is in use (state: LISTEN, inode: 5)"
    );
}
