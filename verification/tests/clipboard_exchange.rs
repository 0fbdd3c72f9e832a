use lamco_rdp_server::clipboard::core_calls::FileDescriptor;
use lamco_rdp_server::clipboard::error::ExchangeError;
use lamco_rdp_server::clipboard::formats::{lookup_format_id_for_mime, ClipboardFormat};
use lamco_rdp_server::clipboard::manager::{
    ClipboardAction, ClipboardEvent, ClipboardHealth, ClipboardOrchestrator,
    ClipboardOrchestratorConfig, ConvertedFormat, Cooperation, DataResponseAction, FileListStep,
    FormatListStep, FuseResponse,
    LoopSettings, PendingRequest, PortalFormatsStep, PortalSyncDecision, ProviderEvent, RdpMessage,
    SendOutcome, TransferSettings, EAGER_FETCH_SERIAL,
};
use lamco_rdp_server::clipboard::reannounce::sort_ids;
use lamco_rdp_server::clipboard::transfer::{
    copied_files_list, download_dir, join_path, to_file_uri, ChunkStep, FileTransferState,
    LocalFile,
};

fn orchestrator() -> ClipboardOrchestrator {
    ClipboardOrchestrator::new(
        ClipboardOrchestratorConfig::default(),
        Some("/home/u".to_string()),
    )
}

fn paste(o: &mut ClipboardOrchestrator, serial: u32, mime: &str) {
    match o.provider_event(ProviderEvent::SelectionTransfer {
        serial,
        mime_type: mime.to_string(),
    }) {
        ClipboardEvent::PortalDataRequest(m) => assert_eq!(m, mime),
        _ => panic!("a paste asks for data"),
    }
}

fn serials(o: &ClipboardOrchestrator) -> Vec<u32> {
    o.pending_portal_requests.iter().map(|p| p.serial).collect()
}

fn utf16(s: &str) -> Vec<u8> {
    s.encode_utf16().flat_map(|u| u.to_le_bytes()).collect()
}

/// A group descriptor that announces files by name and size.
fn group(files: &[(&str, Option<u64>)]) -> Vec<u8> {
    let mut d = (files.len() as u32).to_le_bytes().to_vec();
    for (name, size) in files {
        let mut f = vec![0u8; 592];
        if let Some(n) = size {
            f[0] = 0x40;
            f[64..68].copy_from_slice(&((n >> 32) as u32).to_le_bytes());
            f[68..72].copy_from_slice(&(*n as u32).to_le_bytes());
        }
        let units = utf16(name);
        f[72..72 + units.len()].copy_from_slice(&units);
        d.extend(f);
    }
    d
}

fn receive(o: &mut ClipboardOrchestrator, data: Vec<u8>, fuse: bool) -> DataResponseAction {
    o.handle_rdp_data_response(data, true, true, fuse, true)
}

#[test]
fn settings_of_a_new_exchange() {
    let mut c = ClipboardOrchestratorConfig::default();
    assert_eq!(
        c.transfer_settings(),
        TransferSettings {
            chunk_size: 65_536,
            max_size: 16_777_216,
            timeout_ms: 5000,
            verify_integrity: true,
        }
    );
    assert_eq!(
        c.loop_settings(),
        LoopSettings {
            window_ms: 500,
            max_history: 10,
            enable_content_hashing: true,
            rate_limit_ms: Some(200),
        }
    );
    c.rate_limit_ms = 0;
    assert_eq!(c.loop_settings().rate_limit_ms, None);
    assert_eq!(
        orchestrator().file_transfer_state.download_dir,
        "/home/u/Downloads"
    );
    assert_eq!(download_dir(None), "/tmp");
}

#[test]
fn formats_are_announced_again_when_the_channel_is_ready() {
    let mut o = orchestrator();
    assert!(matches!(
        o.handle_event(ClipboardEvent::RdpReady, true),
        ClipboardAction::Done
    ));
    o.advertise(vec![
        ConvertedFormat {
            format_id: 13,
            format_name: String::new(),
        },
        ConvertedFormat {
            format_id: 0xc001,
            format_name: "HTML Format".to_string(),
        },
    ]);
    match o.handle_event(ClipboardEvent::RdpReady, true) {
        ClipboardAction::Send(RdpMessage::InitiateCopy(f)) => {
            assert_eq!(f.len(), 2);
            assert_eq!(f[0].name, None);
            assert_eq!(f[1].name.as_deref(), Some("HTML Format"));
        }
        _ => panic!("formats are announced"),
    }
}

#[test]
fn announced_formats_reach_the_provider() {
    let mut o = orchestrator();
    let formats = vec![ClipboardFormat::with_name(13, "CF_UNICODETEXT".to_string())];
    assert!(matches!(
        o.handle_event(ClipboardEvent::RdpFormatList(formats), true),
        ClipboardAction::SyncRdpFormats
    ));
    assert_eq!(o.current_rdp_formats.len(), 1);
    let mimes = || Ok(vec!["text/plain".to_string()]);
    assert!(matches!(
        o.rdp_formats_synced(false, mimes(), true),
        FormatListStep::Skip
    ));
    assert!(matches!(
        o.rdp_formats_synced(true, Ok(vec![]), true),
        FormatListStep::Skip
    ));
    assert!(matches!(
        o.rdp_formats_synced(true, Err(ExchangeError::NotInitialized), true),
        FormatListStep::Fail(ExchangeError::NotInitialized)
    ));
    match o.rdp_formats_synced(true, mimes(), true) {
        FormatListStep::Announce(m) => assert_eq!(m, vec!["text/plain"]),
        _ => panic!("the types are announced"),
    }
    o.config.kde_syncselection_hint = true;
    match o.rdp_formats_synced(true, mimes(), true) {
        FormatListStep::Announce(m) => {
            assert_eq!(m, vec!["text/plain", "application/x-kde-syncselection"]);
        }
        _ => panic!("the types are announced"),
    }
}

#[test]
fn text_is_fetched_at_once_where_the_provider_needs_it() {
    let mut o = orchestrator();
    o.current_rdp_formats = vec![ClipboardFormat::new(13)];
    let mimes = ["text/plain;charset=utf-8".to_string()];
    match o.formats_announced(&mimes, Err("gone".to_string()), true) {
        Err(ExchangeError::PortalError(m)) => {
            assert_eq!(m, "Provider announce_formats failed: gone");
        }
        _ => panic!("the provider refused"),
    }
    assert!(matches!(o.formats_announced(&mimes, Ok(()), false), Ok(None)));
    assert!(matches!(
        o.formats_announced(&["image/png".to_string()], Ok(()), true),
        Ok(None)
    ));
    assert!(serials(&o).is_empty());
    assert!(matches!(
        o.formats_announced(&mimes, Ok(()), true),
        Ok(Some(RdpMessage::InitiatePaste(13)))
    ));
    assert_eq!(serials(&o), vec![EAGER_FETCH_SERIAL]);
    o.eager_fetch_sent(SendOutcome::Sent);
    assert_eq!(serials(&o).len(), 1);
    match receive(&mut o, utf16("hi\r\n"), false) {
        DataResponseAction::ProvideText(t) => assert_eq!(t, b"hi\n"),
        _ => panic!("the text is handed over"),
    }
    assert!(serials(&o).is_empty());

    // A request that was not sent leaves no trace.
    paste(&mut o, 4, "text/plain");
    assert!(o.formats_announced(&mimes, Ok(()), true).is_ok());
    o.eager_fetch_sent(SendOutcome::NoSender);
    assert_eq!(serials(&o), vec![4]);
}

#[test]
fn requests_are_answered_from_the_cache_first() {
    let mut o = orchestrator();
    match ClipboardOrchestrator::klipper_formats() {
        RdpMessage::InitiateCopy(f) => {
            assert_eq!(f.iter().map(|x| x.id).collect::<Vec<_>>(), vec![13, 1]);
        }
        _ => panic!("formats are announced"),
    }
    o.klipper_content_updated("no", SendOutcome::Failed);
    assert!(matches!(
        o.handle_event(ClipboardEvent::RdpDataRequest(13), true),
        ClipboardAction::ReadFormat { format_id: 13 }
    ));
    o.klipper_content_updated("hi", SendOutcome::Sent);
    match o.handle_event(ClipboardEvent::RdpDataRequest(13), true) {
        ClipboardAction::ServeCached { format_id: 13, data } => {
            assert_eq!(data, utf16("hi\0"));
        }
        _ => panic!("the cache answers"),
    }
    match o.handle_event(ClipboardEvent::RdpDataRequest(1), true) {
        ClipboardAction::ServeCached { format_id: 1, data } => assert_eq!(data, b"hi\0"),
        _ => panic!("the cache answers"),
    }
    assert!(matches!(
        o.handle_event(ClipboardEvent::RdpDataRequest(8), true),
        ClipboardAction::ReadFormat { format_id: 8 }
    ));
}

#[test]
fn requests_for_files_are_told_apart() {
    let mut o = orchestrator();
    o.advertise(vec![ConvertedFormat {
        format_id: 0xc0de,
        format_name: "FileGroupDescriptorW".to_string(),
    }]);
    assert!(matches!(o.continue_data_request(0xc0de), ClipboardAction::ListFiles));
    // 0 stands for any format with a name.
    assert!(matches!(o.continue_data_request(0), ClipboardAction::ListFiles));
    assert!(matches!(
        o.continue_data_request(5),
        ClipboardAction::ReadFormat { format_id: 5 }
    ));
    match o.data_request_reply(13, Some("text/plain".to_string()), Some(b"x".to_vec())) {
        Ok(RdpMessage::FormatData(d)) => assert_eq!(d, vec![b'x', 0, 0, 0]),
        _ => panic!("the data is sent"),
    }
    assert!(matches!(
        o.data_request_reply(13, None, Some(vec![])),
        Ok(RdpMessage::FormatDataError)
    ));
    assert!(matches!(
        o.data_request_reply(8, Some("image/png".to_string()), Some(vec![1])),
        Err(ExchangeError::Core(_))
    ));
    assert!(matches!(
        ClipboardOrchestrator::group_descriptor_reply(None),
        RdpMessage::FormatDataError
    ));
}

#[test]
fn the_oldest_paste_is_answered() {
    let mut o = orchestrator();
    paste(&mut o, 1, "text/plain");
    paste(&mut o, 2, "text/html");
    paste(&mut o, 3, "text/plain");
    assert!(matches!(
        o.handle_rdp_data_response(utf16("x"), false, true, false, true),
        DataResponseAction::Ignore
    ));
    assert!(matches!(
        o.handle_rdp_data_response(utf16("x"), true, false, false, true),
        DataResponseAction::Ignore
    ));
    assert_eq!(serials(&o), vec![1, 2, 3]);
    match receive(&mut o, utf16("x"), false) {
        DataResponseAction::Deliver { request, data } => {
            assert_eq!(request.serial, 1);
            assert_eq!(data, b"x");
        }
        _ => panic!("the data is delivered"),
    }
    assert_eq!(serials(&o), vec![2, 3]);
    let given_up = o.transfer_delivered(1);
    assert_eq!(given_up.iter().map(|p| p.serial).collect::<Vec<_>>(), vec![2, 3]);
    assert!(serials(&o).is_empty());

    paste(&mut o, 8, "a");
    paste(&mut o, 9, "a");
    o.transfer_failed(8);
    assert_eq!(serials(&o), vec![9]);
    match o.handle_event(ClipboardEvent::RdpDataError, true) {
        ClipboardAction::Cancel(v) => assert_eq!(v[0].serial, 9),
        _ => panic!("waiting pastes fail"),
    }
    assert!(matches!(receive(&mut o, vec![], false), DataResponseAction::Ignore));
}

#[test]
fn pasted_files_are_offered_in_the_virtual_file_system() {
    let mut o = orchestrator();
    paste(&mut o, 7, "text/uri-list");
    let data = group(&[("a/b.txt", Some(5)), ("..", None)]);
    let (request, descriptors) = match receive(&mut o, data, true) {
        DataResponseAction::OfferFuse {
            request,
            files,
            descriptors,
            clip_data_id,
        } => {
            assert_eq!(clip_data_id, 1);
            assert_eq!(files[0].filename, "a_b.txt");
            assert_eq!(files[0].size, 5);
            assert_eq!(files[1].filename, "_unnamed_");
            assert_eq!(files[1].size, 0);
            (request, descriptors)
        }
        _ => panic!("virtual files are offered"),
    };
    match o.fuse_files_made(request, descriptors, Some(b"copy\n".to_vec()), true) {
        DataResponseAction::DeliverFiles { serial, data } => {
            assert_eq!(serial, 7);
            assert_eq!(data, b"copy\n");
        }
        _ => panic!("the list is delivered"),
    }
}

#[test]
fn pasted_files_are_received_part_by_part() {
    let mut o = orchestrator();
    paste(&mut o, 7, "x-special/gnome-copied-files");
    let big: u64 = 0x400_0000 + 10;
    let plan = match receive(&mut o, group(&[("a b", Some(big)), ("c", Some(3))]), false) {
        DataResponseAction::Stage { plan, clip_data_id } => {
            assert_eq!(clip_data_id, 1);
            plan
        }
        _ => panic!("the files are received"),
    };
    assert_eq!(plan[0].stream_id, 1);
    assert_eq!(plan[0].temp_path, "/home/u/Downloads/.a b.1.tmp");
    assert_eq!(plan[1].temp_path, "/home/u/Downloads/.c.2.tmp");
    let first = o.start_incoming(&plan[0]);
    assert_eq!((first.position, first.requested_size), (0, 0x400_0000));
    let small = o.start_incoming(&plan[1]);
    assert_eq!((small.index, small.requested_size, small.data_id), (1, 3, Some(1)));

    // Meanwhile another paste of files is turned away.
    paste(&mut o, 8, "text/uri-list");
    assert!(matches!(
        receive(&mut o, group(&[("d", None)]), false),
        DataResponseAction::Cancel(PendingRequest { serial: 8, .. })
    ));

    match o.handle_event(
        ClipboardEvent::RdpFileContentsResponse {
            stream_id: 1,
            data: vec![1],
            is_error: false,
        },
        true,
    ) {
        ClipboardAction::StoreChunk { stream_id: 1, temp_path, data } => {
            assert_eq!(temp_path, "/home/u/Downloads/.a b.1.tmp");
            assert_eq!(data, vec![1]);
        }
        _ => panic!("the part is stored"),
    }
    match o.chunk_stored(1, 0x400_0000) {
        ChunkStep::Request(r) => {
            assert_eq!((r.position, r.requested_size), (0x400_0000, 10));
        }
        _ => panic!("the rest is asked for"),
    }
    assert!(matches!(o.chunk_stored(1, 10), ChunkStep::Finish));
    assert!(matches!(o.chunk_stored(99, 10), ChunkStep::Unknown));
    let done = o.file_flushed(1).unwrap();
    assert_eq!(done.final_path, "/home/u/Downloads/a b");
    assert!(!done.all_complete);
    assert!(matches!(o.chunk_stored(2, 3), ChunkStep::Finish));
    let done = o.file_flushed(2).unwrap();
    assert!(done.all_complete);
    let (serial, list) = o.deliver_files(&done).unwrap();
    assert_eq!(serial, 7);
    assert_eq!(
        String::from_utf8(list).unwrap(),
        "copy\nfile:///home/u/Downloads/a%20b\nfile:///home/u/Downloads/c\0"
    );
    assert!(o.file_flushed(2).is_none());
}

#[test]
fn a_failed_file_is_given_up() {
    let mut o = orchestrator();
    paste(&mut o, 7, "text/uri-list");
    let plan = match receive(&mut o, group(&[("a", None)]), false) {
        DataResponseAction::Stage { plan, .. } => plan,
        _ => panic!("the file is received"),
    };
    let r = o.start_incoming(&plan[0]);
    // A file of unknown size is asked for in one large part.
    assert_eq!(r.requested_size, 0x400_0000);
    assert!(matches!(o.chunk_stored(1, 5), ChunkStep::Wait));
    match o.handle_event(
        ClipboardEvent::RdpFileContentsResponse {
            stream_id: 1,
            data: vec![],
            is_error: true,
        },
        true,
    ) {
        ClipboardAction::Abandon { partial_file, serial } => {
            assert_eq!(partial_file.as_deref(), Some("/home/u/Downloads/.a.1.tmp"));
            assert_eq!(serial, Some(7));
        }
        _ => panic!("the file is given up"),
    }
    assert!(o.file_transfer_state.incoming_files.is_empty());
    // Without a channel the paste fails at once.
    paste(&mut o, 9, "text/uri-list");
    assert!(matches!(
        o.handle_rdp_data_response(group(&[("a", None)]), true, true, false, false),
        DataResponseAction::Cancel(PendingRequest { serial: 9, .. })
    ));
}

#[test]
fn a_broken_list_of_files_is_passed_on_as_it_is() {
    let mut o = orchestrator();
    paste(&mut o, 1, "text/uri-list");
    match receive(&mut o, vec![9, 0, 0, 0, 1], false) {
        DataResponseAction::Deliver { data, .. } => assert_eq!(data, vec![9, 0, 0, 0, 1]),
        _ => panic!("the data is delivered"),
    }
}

#[test]
fn offered_files_are_read_by_the_remote_client() {
    let mut o = orchestrator();
    let f = |path: &str, size| LocalFile {
        path: path.to_string(),
        file_name: None,
        size,
    };
    assert!(!o.offer_files(&[]));
    assert!(o.offer_files(&[f("/gone", None), f("/here", Some(12))]));
    assert_eq!(o.file_transfer_state.outgoing_files.len(), 1);
    assert_eq!(o.file_transfer_state.outgoing_files[0].list_index, 1);
    assert_eq!(o.file_transfer_state.outgoing_files[0].filename, "unknown");
    let request = |list_index, is_size_request| ClipboardEvent::RdpFileContentsRequest {
        stream_id: 3,
        list_index,
        position: 4,
        size: 5,
        is_size_request,
    };
    assert!(matches!(
        o.handle_event(request(0, true), true),
        ClipboardAction::Send(RdpMessage::FileSize { stream_id: 3, size: 12 })
    ));
    match o.handle_event(request(0, false), true) {
        ClipboardAction::ReadChunk { stream_id, path, position, size } => {
            assert_eq!((stream_id, path.as_str(), position, size), (3, "/here", 4, 5));
        }
        _ => panic!("a part is read"),
    }
    match o.handle_event(request(1, true), true) {
        ClipboardAction::Fail(ExchangeError::InvalidState(m)) => {
            assert_eq!(m, "File index 1 not found");
        }
        _ => panic!("there is no such file"),
    }
    assert!(matches!(
        o.handle_event(request(0, true), false),
        ClipboardAction::Fail(ExchangeError::NotInitialized)
    ));
    assert!(matches!(
        ClipboardOrchestrator::file_chunk_reply(3, None),
        RdpMessage::FileError { stream_id: 3 }
    ));
}

#[test]
fn formats_are_announced_anew_at_most_twice() {
    let mut o = orchestrator();
    let k = PortalSyncDecision::KlipperReannounce;
    assert!(matches!(
        o.handle_portal_formats(PortalSyncDecision::Allow, 0),
        PortalFormatsStep::Convert
    ));
    assert!(matches!(
        o.handle_portal_formats(PortalSyncDecision::Block, 0),
        PortalFormatsStep::Skip
    ));
    o.current_rdp_formats = vec![ClipboardFormat::new(13), ClipboardFormat::new(1)];
    assert!(matches!(o.handle_portal_formats(k, 0), PortalFormatsStep::Reannounce(_)));
    o.reannounced(0);
    assert!(matches!(o.handle_portal_formats(k, 499_999_999), PortalFormatsStep::Skip));
    // The order of the formats does not matter.
    o.current_rdp_formats.reverse();
    assert!(matches!(
        o.handle_portal_formats(k, 500_000_000),
        PortalFormatsStep::Reannounce(_)
    ));
    assert!(matches!(
        o.handle_portal_formats(k, 9_000_000_000),
        PortalFormatsStep::Skip
    ));
    o.current_rdp_formats = vec![ClipboardFormat::new(8)];
    assert!(matches!(
        o.handle_portal_formats(k, 9_000_000_000),
        PortalFormatsStep::Reannounce(_)
    ));
    // A clock that was set back does not hold it up.
    o.reannounced(9_000_000_000);
    assert!(matches!(o.handle_portal_formats(k, 1), PortalFormatsStep::Reannounce(_)));
    assert_eq!(
        sort_ids(&[ClipboardFormat::new(3), ClipboardFormat::new(1), ClipboardFormat::new(2)]),
        vec![1, 2, 3]
    );
}

#[test]
fn formats_are_looked_up_by_type() {
    let f = [
        ClipboardFormat::new(1),
        ClipboardFormat::with_name(0xc004, "FileGroupDescriptorW".to_string()),
        ClipboardFormat::new(8),
    ];
    let names = [None, Some("text/uri-list".to_string()), None];
    assert_eq!(lookup_format_id_for_mime(&f, &names, "text/plain"), Some(1));
    assert_eq!(lookup_format_id_for_mime(&f, &names, "text/uri-list"), Some(0xc004));
    assert_eq!(
        lookup_format_id_for_mime(&f, &names, "x-special/gnome-copied-files"),
        Some(0xc004)
    );
    assert_eq!(lookup_format_id_for_mime(&f, &names, "image/png"), Some(8));
    assert_eq!(lookup_format_id_for_mime(&f, &names, "audio/wav"), None);
    let both = [ClipboardFormat::new(1), ClipboardFormat::new(13)];
    assert_eq!(
        lookup_format_id_for_mime(&both, &[None, None], "text/plain;charset=utf-8"),
        Some(13)
    );

    let mut o = orchestrator();
    o.current_rdp_formats = f.into_iter().collect();
    assert!(matches!(
        o.handle_portal_data_request("image/png", &names, Err(ExchangeError::NotInitialized)),
        Ok(RdpMessage::InitiatePaste(8))
    ));
    assert!(matches!(
        o.handle_portal_data_request("audio/wav", &names, Ok(12)),
        Ok(RdpMessage::InitiatePaste(12))
    ));
    assert!(matches!(
        o.handle_portal_data_request("audio/wav", &names, Err(ExchangeError::NotInitialized)),
        Err(ExchangeError::NotInitialized)
    ));
}

#[test]
fn every_standard_format_has_its_type() {
    let types = [
        (13, "text/plain;charset=utf-8"),
        (1, "text/plain;charset=utf-8"),
        (7, "text/plain;charset=utf-8"),
        (0xd010, "text/html"),
        (0xd014, "text/rtf"),
        (8, "image/png"),
        (17, "image/png"),
        (0xd011, "image/png"),
        (0xd012, "image/jpeg"),
        (0xd013, "image/gif"),
        (15, "text/uri-list"),
        (49430, "text/uri-list"),
        (12, "audio/wav"),
        (11, "audio/wav"),
    ];
    for (id, mime) in types {
        // A lone format is found by its type; text is also found by preference.
        assert_eq!(
            lookup_format_id_for_mime(&[ClipboardFormat::new(id)], &[None], mime),
            Some(id)
        );
    }
    assert_eq!(
        lookup_format_id_for_mime(&[ClipboardFormat::new(2)], &[None], "image/png"),
        None
    );
}

#[test]
fn provider_events_become_clipboard_events() {
    let mut o = orchestrator();
    match o.provider_event(ProviderEvent::SelectionChanged {
        mime_types: vec!["a".to_string()],
        force: true,
    }) {
        ClipboardEvent::PortalFormatsAvailable(m, true) => assert_eq!(m, vec!["a"]),
        _ => panic!("types are available"),
    }
    match o.handle_event(
        ClipboardEvent::PortalFormatsAvailable(vec!["a".to_string()], false),
        true,
    ) {
        ClipboardAction::SyncPortalFormats { mime_types, force: false } => {
            assert_eq!(mime_types, vec!["a"]);
        }
        _ => panic!("the types are compared"),
    }
    assert!(matches!(
        o.handle_event(ClipboardEvent::PortalDataResponse(vec![1]), true),
        ClipboardAction::Done
    ));
    match o.handle_event(ClipboardEvent::RdpDataResponse(vec![1, 2]), true) {
        ClipboardAction::CheckContent(d) => assert_eq!(d, vec![1, 2]),
        _ => panic!("the content is checked"),
    }
}

#[test]
fn reads_of_virtual_files_wait_for_their_answers() {
    let mut o = orchestrator();
    let r = o.fuse_request(2, 30, 40, Some(1));
    assert_eq!((r.stream_id, r.index, r.position, r.requested_size), (1, 2, 30, 40));
    assert!(o.fuse_request_sent(1, SendOutcome::Sent).is_none());
    match o.deliver_fuse_response(1, vec![5], false) {
        Some(FuseResponse::Data(d)) => assert_eq!(d, vec![5]),
        _ => panic!("the read is answered"),
    }
    assert!(o.deliver_fuse_response(1, vec![5], false).is_none());
    let ids: Vec<u32> = (0..3).map(|_| o.fuse_request(0, 0, 1, None).stream_id).collect();
    assert_eq!(ids, vec![2, 3, 4]);
    match o.fuse_request_sent(2, SendOutcome::Failed) {
        Some(FuseResponse::Error(m)) => assert_eq!(m, "Failed to send RDP request"),
        _ => panic!("the read fails"),
    }
    match o.fuse_request_sent(3, SendOutcome::NoSender) {
        Some(FuseResponse::Error(m)) => assert_eq!(m, "RDP not connected"),
        _ => panic!("the read fails"),
    }
    match o.deliver_fuse_response(4, vec![], true) {
        Some(FuseResponse::Error(m)) => assert_eq!(m, "RDP error"),
        _ => panic!("the read fails"),
    }
}

#[test]
fn repeated_failures_are_reported() {
    let mut o = orchestrator();
    let e = || Some("x".to_string());
    assert!(o.event_handled(e(), true).is_none());
    assert!(o.event_handled(e(), true).is_none());
    match o.event_handled(e(), true) {
        Some(ClipboardHealth::Failed { reason }) => assert_eq!(reason, "3 consecutive errors: x"),
        _ => panic!("the third failure is reported"),
    }
    assert!(matches!(o.event_handled(None, true), Some(ClipboardHealth::Recovered)));
    assert!(o.event_handled(None, true).is_none());
    match o.event_handled(Some("Session invalid".to_string()), true) {
        Some(ClipboardHealth::Failed { reason }) => {
            assert_eq!(reason, "1 consecutive errors: Session invalid");
        }
        _ => panic!("an invalid session is reported at once"),
    }
    assert!(o.event_handled(Some("session invalid".to_string()), false).is_none());
}

#[test]
fn transfer_state_on_its_own() {
    let mut s = FileTransferState::new("/d/".to_string());
    assert!(!s.all_files_complete());
    s.set_pending_descriptors(vec![FileDescriptor {
        name: "n".to_string(),
        size: None,
    }]);
    assert_eq!(s.pending_descriptors.len(), 1);
    s.clear_pending_descriptors();
    assert!(s.pending_descriptors.is_empty());
    s.next_stream_id = u32::MAX;
    assert_eq!(s.allocate_stream_id(), u32::MAX);
    assert_eq!(s.allocate_stream_id(), 0);
    let plan = s.begin_incoming(
        5,
        vec![FileDescriptor {
            name: "f".to_string(),
            size: Some(2),
        }],
    );
    assert_eq!(plan[0].temp_path, "/d/.f.1.tmp");
    s.start_incoming(&plan[0]);
    assert!(!s.all_files_complete());
    s.record_chunk(1, 2);
    assert!(s.all_files_complete());
    assert_eq!(s.temp_path_of(1).as_deref(), Some("/d/.f.1.tmp"));
    s.clear_incoming();
    assert!(s.incoming_files.is_empty() && s.portal_serial.is_none());
}

#[test]
fn paths_and_addresses_of_files() {
    assert_eq!(join_path("/a", "b"), "/a/b");
    assert_eq!(join_path("/a/", "b"), "/a/b");
    assert_eq!(join_path("/a", "/b"), "/b");
    assert_eq!(join_path("", "b"), "b");
    assert_eq!(
        to_file_uri("/t/a b%\u{e9}#?{}`<>\"~"),
        "file:///t/a%20b%25%C3%A9%23%3F%7B%7D%60%3C%3E%22~"
    );
    assert_eq!(copied_files_list(&[]), b"copy\n\0");
}

#[test]
fn events_are_logged_without_their_data() {
    assert_eq!(ClipboardEvent::RdpReady.summary(), "RdpReady");
    assert_eq!(
        ClipboardEvent::RdpFormatList(vec![ClipboardFormat::new(13)]).summary(),
        "RdpFormatList(1 formats)"
    );
    assert_eq!(ClipboardEvent::RdpDataRequest(8).summary(), "RdpDataRequest(8)");
    let response = ClipboardEvent::RdpDataResponse(vec![1, 2, 3]);
    assert_eq!(response.summary(), "RdpDataResponse(3 bytes)");
    let other = ClipboardEvent::RdpDataResponse(vec![9, 9, 9]);
    assert_eq!(response.summary(), other.summary());
    assert_eq!(ClipboardEvent::RdpDataError.summary(), "RdpDataError");
    let request = ClipboardEvent::RdpFileContentsRequest {
        stream_id: 7,
        list_index: 1,
        position: 64,
        size: 10,
        is_size_request: true,
    };
    assert_eq!(
        request.summary(),
        "RdpFileContentsRequest(stream=7, index=1, size=10, size_req=true)"
    );
    let part = ClipboardEvent::RdpFileContentsResponse {
        stream_id: 7,
        data: vec![0; 5],
        is_error: false,
    };
    assert_eq!(part.summary(), "RdpFileContentsResponse(stream=7, 5 bytes, error=false)");
    let mimes = vec!["text/plain".to_string(), "a\"b".to_string()];
    assert_eq!(
        ClipboardEvent::PortalFormatsAvailable(mimes, true).summary(),
        "PortalFormatsAvailable([\"text/plain\", \"a\\\"b\"], force=true)"
    );
    assert_eq!(
        ClipboardEvent::PortalDataRequest("text/html".to_string()).summary(),
        "PortalDataRequest(text/html)"
    );
    assert_eq!(
        ClipboardEvent::PortalDataResponse(vec![]).summary(),
        "PortalDataResponse(0 bytes)"
    );
}

#[test]
fn the_file_managers_list_comes_first() {
    assert!(matches!(
        ClipboardOrchestrator::copied_files_read(Some(vec![1])),
        FileListStep::Parse(d) if d == vec![1]
    ));
    assert!(matches!(
        ClipboardOrchestrator::copied_files_read(Some(vec![])),
        FileListStep::ReadUriList
    ));
    assert!(matches!(
        ClipboardOrchestrator::copied_files_read(None),
        FileListStep::ReadUriList
    ));
    assert!(matches!(
        ClipboardOrchestrator::uri_list_read(Some(vec![])),
        FileListStep::Parse(d) if d.is_empty()
    ));
    assert!(matches!(
        ClipboardOrchestrator::uri_list_read(None),
        FileListStep::Refuse(RdpMessage::FormatDataError)
    ));
}

#[test]
fn cooperation_needs_a_connection() {
    assert_eq!(
        ClipboardOrchestrator::initialize_strategy(false, true),
        Cooperation::NotNeeded
    );
    assert_eq!(ClipboardOrchestrator::initialize_strategy(true, true), Cooperation::Active);
    assert_eq!(
        ClipboardOrchestrator::initialize_strategy(true, false),
        Cooperation::Reannounce
    );
}

#[test]
fn an_unreadable_bitmap_is_taken_out_of_the_queue() {
    let mut bitmap = vec![0u8; 44];
    bitmap[0] = 40;
    bitmap[4..8].copy_from_slice(&i32::MAX.to_le_bytes());
    bitmap[8..12].copy_from_slice(&i32::MAX.to_le_bytes());
    bitmap[12] = 1;
    bitmap[14] = 24;

    let mut o = orchestrator();
    assert!(o.take_unreadable(&bitmap, true, true).is_none());
    paste(&mut o, 1, "image/png");
    paste(&mut o, 2, "text/plain");
    assert!(o.take_unreadable(&bitmap, false, true).is_none());
    assert!(o.take_unreadable(&bitmap, true, false).is_none());
    assert!(o.take_unreadable(b"abc", true, true).is_none());
    assert_eq!(serials(&o), vec![1, 2]);
    let request = o.take_unreadable(&bitmap, true, true).unwrap();
    assert_eq!((request.serial, request.mime_type.as_str()), (1, "image/png"));
    assert_eq!(serials(&o), vec![2]);
    assert!(o.take_unreadable(&bitmap, true, true).is_none());

    let mut eager = orchestrator();
    paste(&mut eager, EAGER_FETCH_SERIAL, "image/png");
    assert!(eager.take_unreadable(&bitmap, true, true).is_none());
}
