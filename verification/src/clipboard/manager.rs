//! The clipboard orchestrator: what each clipboard event changes, and what is to
//! be done about it.
//!
//! The orchestrator holds the state of the exchange. Each method takes an event,
//! or the outcome of what an earlier method asked for, and returns what to do
//! next. The caller talks to the remote client, to the clipboard provider of the
//! compositor and to the file system.

use std::collections::{HashSet, VecDeque};
use vstd::prelude::*;
use vstd::string::StringExecFns;
use crate::clipboard::bytes::read_le32;
use crate::clipboard::convert::{
    ansi_bytes, bitmap_readable, cached_bytes, is_bitmap_readable, linux_text, portal_data,
    rdp_data, to_ansi_bytes, to_cached_bytes, to_linux_text, to_portal_data, to_rdp_data,
    too_small_for_bitmap, CF_TEXT, CF_UNICODETEXT,
};
use crate::clipboard::core_calls::{
    group_count, group_name, group_size, group_well_formed, linux_filename,
    parse_group_descriptor, FileDescriptor,
};
use crate::clipboard::error::ExchangeError;
use crate::clipboard::formats::{
    copy_formats, format_for, format_views, has_format, lookup_format_id_for_mime, offers,
    opt_view, opt_views, ClipboardFormat, FormatView,
};
use crate::clipboard::reannounce::{
    count_for, count_reannouncement, counted, counts_of, sort_ids, sorted_ids, ReannounceEntry,
    MAX_REANNOUNCEMENTS,
};
use crate::clipboard::transfer::{
    chunk_step, copied_files, copied_files_list, descriptor_views, finished, grown, outgoing_of,
    path_in, plan_of, planned_views, size_or_zero, started_file, stream_after,
    ChunkStep, DescriptorView, FileContentsRequest, FileTransferState, FinishedFile, LocalFile,
    PlannedFile, TransferView, CLIP_DATA_ID,
};
use crate::text::{
    contains, decimal, decimal_text, has_text, joined, occurs_in, same_text, starts_with, views,
};
use crate::utf16::decode_lossy;

verus! {

broadcast use vstd::std_specs::hash::group_hash_axioms;

/// Settings of the clipboard orchestrator, made from the user's settings when
/// the server starts.
pub struct ClipboardOrchestratorConfig {
    /// Largest amount of clipboard data, in bytes.
    pub max_data_size: usize,
    /// Whether images are exchanged.
    pub enable_images: bool,
    /// Whether files are exchanged.
    pub enable_files: bool,
    /// Whether HTML is exchanged.
    pub enable_html: bool,
    /// Whether rich text is exchanged.
    pub enable_rtf: bool,
    /// Size of the parts of a transfer.
    pub chunk_size: usize,
    /// Time limit of a transfer in milliseconds.
    pub timeout_ms: u64,
    /// Time in milliseconds within which a loop is recognised.
    pub loop_detection_window_ms: u64,
    /// Least time in milliseconds between two clipboard events, 0 for no limit.
    pub rate_limit_ms: u64,
    /// Whether KDE's clipboard manager is asked to leave the clipboard alone.
    pub kde_syncselection_hint: bool,
}

/// The settings that hold where nothing else is said.
pub open spec fn default_settings() -> ClipboardOrchestratorConfig {
    ClipboardOrchestratorConfig {
        max_data_size: 16_777_216,
        enable_images: true,
        enable_files: true,
        enable_html: true,
        enable_rtf: true,
        chunk_size: 65_536,
        timeout_ms: 5000,
        loop_detection_window_ms: 500,
        rate_limit_ms: 200,
        kde_syncselection_hint: false,
    }
}

impl Default for ClipboardOrchestratorConfig {
    fn default() -> (r: Self)
        ensures
            r == default_settings(),
    {
        ClipboardOrchestratorConfig {
            max_data_size: 16_777_216,
            enable_images: true,
            enable_files: true,
            enable_html: true,
            enable_rtf: true,
            chunk_size: 65_536,
            timeout_ms: 5000,
            loop_detection_window_ms: 500,
            rate_limit_ms: 200,
            kde_syncselection_hint: false,
        }
    }
}

/// How transfers are split up and limited.
#[derive(Clone, Copy, Debug, PartialEq, Eq, Structural)]
pub struct TransferSettings {
    pub chunk_size: usize,
    pub max_size: usize,
    pub timeout_ms: u64,
    pub verify_integrity: bool,
}

/// How an announcement is recognised that only comes back.
#[derive(Clone, Copy, Debug, PartialEq, Eq, Structural)]
pub struct LoopSettings {
    pub window_ms: u64,
    pub max_history: usize,
    pub enable_content_hashing: bool,
    /// Least time between two events; none for no limit.
    pub rate_limit_ms: Option<u64>,
}

impl ClipboardOrchestratorConfig {
    /// How transfers are split up and limited.
    pub fn transfer_settings(&self) -> (r: TransferSettings)
        ensures
            r == (TransferSettings {
                chunk_size: self.chunk_size,
                max_size: self.max_data_size,
                timeout_ms: self.timeout_ms,
                verify_integrity: true,
            }),
    {
        TransferSettings {
            chunk_size: self.chunk_size,
            max_size: self.max_data_size,
            timeout_ms: self.timeout_ms,
            verify_integrity: true,
        }
    }

    /// How an announcement is recognised that only comes back.
    pub fn loop_settings(&self) -> (r: LoopSettings)
        ensures
            r == (LoopSettings {
                window_ms: self.loop_detection_window_ms,
                max_history: 10,
                enable_content_hashing: true,
                rate_limit_ms: if self.rate_limit_ms > 0 {
                    Some(self.rate_limit_ms)
                } else {
                    None
                },
            }),
    {
        LoopSettings {
            window_ms: self.loop_detection_window_ms,
            max_history: 10,
            enable_content_hashing: true,
            rate_limit_ms: if self.rate_limit_ms > 0 {
                Some(self.rate_limit_ms)
            } else {
                None
            },
        }
    }
}

/// The serial of the request that fetches text before anybody asks for it. The
/// serials of a compositor are small.
pub const EAGER_FETCH_SERIAL: u32 = u32::MAX;

/// The least time between two repeated announcements, in nanoseconds.
pub const REANNOUNCE_GUARD: u128 = 500_000_000;

/// How many failures in a row are reported.
pub const ERROR_THRESHOLD: u32 = 3;

/// A paste that waits for data of the remote client.
pub struct PendingRequest {
    pub serial: u32,
    pub mime_type: String,
}

impl View for PendingRequest {
    type V = (u32, Seq<char>);

    open spec fn view(&self) -> (u32, Seq<char>) {
        (self.serial, self.mime_type@)
    }
}

/// What a list of waiting pastes holds.
pub open spec fn pending_views(v: Seq<PendingRequest>) -> Seq<(u32, Seq<char>)> {
    v.map_values(|p: PendingRequest| p@)
}

/// The waiting pastes whose serial is not `serial`.
pub open spec fn without_serial(pending: Seq<(u32, Seq<char>)>, serial: u32) -> Seq<
    (u32, Seq<char>),
>
    decreases pending.len(),
{
    if pending.len() == 0 {
        Seq::empty()
    } else if pending.last().0 == serial {
        without_serial(pending.drop_last(), serial)
    } else {
        without_serial(pending.drop_last(), serial).push(pending.last())
    }
}

/// Clipboard events of the remote client and of the compositor.
pub enum ClipboardEvent {
    /// The clipboard channel of the remote client is ready.
    RdpReady,
    /// The remote client announced the formats it has.
    RdpFormatList(Vec<ClipboardFormat>),
    /// The remote client wants data in a format.
    RdpDataRequest(u32),
    /// The remote client sent data that was asked for.
    RdpDataResponse(Vec<u8>),
    /// The remote client has no data for what was asked.
    RdpDataError,
    /// The remote client wants the size or a part of an offered file.
    RdpFileContentsRequest {
        stream_id: u32,
        list_index: u32,
        position: u64,
        size: u32,
        is_size_request: bool,
    },
    /// The remote client sent a part of a file.
    RdpFileContentsResponse { stream_id: u32, data: Vec<u8>, is_error: bool },
    /// The compositor announced MIME types; the flag says that the announcement
    /// holds against the remote client.
    PortalFormatsAvailable(Vec<String>, bool),
    /// The compositor wants data of a MIME type.
    PortalDataRequest(String),
    /// The compositor sent data.
    PortalDataResponse(Vec<u8>),
}

/// A message to the remote client.
pub enum RdpMessage {
    /// Announces formats.
    InitiateCopy(Vec<ClipboardFormat>),
    /// Asks for data in a format.
    InitiatePaste(u32),
    /// Answers a request for data.
    FormatData(Vec<u8>),
    /// Refuses a request for data.
    FormatDataError,
    /// Locks the remote clipboard under a number.
    LockClipboard(u32),
    /// Asks for a part of a file.
    FileContentsRequest(FileContentsRequest),
    /// Answers with the size of a file.
    FileSize { stream_id: u32, size: u64 },
    /// Answers with a part of a file.
    FileData { stream_id: u32, data: Vec<u8> },
    /// Refuses a request for a file.
    FileError { stream_id: u32 },
}

/// What became of a message to the remote client.
#[derive(Clone, Copy, PartialEq, Eq, Structural)]
pub enum SendOutcome {
    /// The message was taken.
    Sent,
    /// The channel is closed.
    Failed,
    /// There is no channel yet.
    NoSender,
}

/// What a clipboard event asks for.
pub enum ClipboardAction {
    /// Nothing.
    Done,
    /// Send a message; a failure is only noted.
    Send(RdpMessage),
    /// Ask whether the announced formats are to be synchronised, and continue with
    /// `rdp_formats_synced`.
    SyncRdpFormats,
    /// Send cached data; if that fails, continue with `continue_data_request`.
    ServeCached { format_id: u32, data: Vec<u8> },
    /// Read the list of copied files, and continue with `copied_files_read`.
    ListFiles,
    /// Find the MIME type of the format, read the data, and continue with
    /// `data_request_reply`.
    ReadFormat { format_id: u32 },
    /// Ask whether the data is to be transferred, and continue with
    /// `handle_rdp_data_response`.
    CheckContent(Vec<u8>),
    /// Tell the provider that these pastes failed.
    Cancel(Vec<PendingRequest>),
    /// Read a part of a file, and continue with `file_chunk_reply`.
    ReadChunk { stream_id: u32, path: String, position: u64, size: u32 },
    /// Append the data to the file, and continue with `chunk_stored`.
    StoreChunk { stream_id: u32, temp_path: String, data: Vec<u8> },
    /// Remove the partial file and tell the provider that the paste failed.
    Abandon { partial_file: Option<String>, serial: Option<u32> },
    /// Ask how the announcement is to be treated, and continue with
    /// `handle_portal_formats`.
    SyncPortalFormats { mime_types: Vec<String>, force: bool },
    /// Find out what the format names stand for, and continue with
    /// `handle_portal_data_request`.
    RequestFormat { mime_type: String },
    /// The event failed.
    Fail(ExchangeError),
}

/// What follows when a list of copied files was read.
pub enum FileListStep {
    /// Find the files that the list names, and continue with `offer_files`.
    Parse(Vec<u8>),
    /// Read the plain list of URIs, and continue with `uri_list_read`.
    ReadUriList,
    /// Refuse the request.
    Refuse(RdpMessage),
}

/// How the exchange works together with KDE's clipboard manager.
#[derive(Clone, Copy, Debug, PartialEq, Eq, Structural)]
pub enum Cooperation {
    /// It is not asked for.
    NotNeeded,
    /// The clipboard manager is watched, and its text is served.
    Active,
    /// It is asked for, but there is no connection: formats are announced anew.
    Reannounce,
}

/// What follows when the formats of the remote client are synchronised.
pub enum FormatListStep {
    /// Nothing.
    Skip,
    /// Announce these MIME types to the provider, and continue with
    /// `formats_announced`.
    Announce(Vec<String>),
    /// The formats could not be converted.
    Fail(ExchangeError),
}

/// A file that appears in the virtual file system.
pub struct FuseFile {
    pub filename: String,
    pub size: u64,
}

/// What a list of virtual files holds.
pub open spec fn fuse_views(v: Seq<FuseFile>) -> Seq<(Seq<char>, u64)> {
    v.map_values(|f: FuseFile| (f.filename@, f.size))
}

/// What data of the remote client leads to.
pub enum DataResponseAction {
    /// Nothing.
    Ignore,
    /// Hand this text to the provider as `text/plain`, with and without charset.
    ProvideText(Vec<u8>),
    /// Tell the provider that the paste failed.
    Cancel(PendingRequest),
    /// Lock the remote clipboard under `clip_data_id`, make the virtual files, and
    /// continue with `fuse_files_made`.
    OfferFuse {
        request: PendingRequest,
        files: Vec<FuseFile>,
        descriptors: Vec<FileDescriptor>,
        clip_data_id: u32,
    },
    /// Hand the list of virtual files to the provider.
    DeliverFiles { serial: u32, data: Vec<u8> },
    /// Lock the remote clipboard under `clip_data_id`, make a place for each file,
    /// and continue with `start_incoming` for each that was made.
    Stage { plan: Vec<PlannedFile>, clip_data_id: u32 },
    /// Hand the data to the provider, and continue with `transfer_delivered` or
    /// `transfer_failed`.
    Deliver { request: PendingRequest, data: Vec<u8> },
    /// The data could not be converted.
    Fail(ExchangeError),
}

/// How an announcement of the compositor is to be treated.
#[derive(Clone, Copy, PartialEq, Eq, Structural)]
pub enum PortalSyncDecision {
    /// Announce it to the remote client.
    Allow,
    /// Ignore it.
    Block,
    /// A clipboard manager took over: announce the remote formats anew.
    KlipperReannounce,
}

/// What follows when the compositor announced MIME types.
pub enum PortalFormatsStep {
    /// Nothing.
    Skip,
    /// Convert the MIME types, and continue with `advertise`.
    Convert,
    /// Announce these formats to the provider again, and continue with
    /// `reannounced` if that succeeds.
    Reannounce(Vec<ClipboardFormat>),
}

/// A format as the MIME conversion gives it; an empty name stands for none.
pub struct ConvertedFormat {
    pub format_id: u32,
    pub format_name: String,
}

/// What a converted format announces.
pub open spec fn announced_format(f: ConvertedFormat) -> FormatView {
    FormatView {
        id: f.format_id,
        name: if f.format_name@.len() == 0 {
            None
        } else {
            Some(f.format_name@)
        },
    }
}

/// What a list of converted formats announces.
pub open spec fn announced_formats(v: Seq<ConvertedFormat>) -> Seq<FormatView> {
    v.map_values(|f: ConvertedFormat| announced_format(f))
}

/// Events of the clipboard provider.
pub enum ProviderEvent {
    /// The compositor's clipboard changed.
    SelectionChanged { mime_types: Vec<String>, force: bool },
    /// A local program pastes what the remote client owns.
    SelectionTransfer { serial: u32, mime_type: String },
}

/// The answer to a read of a virtual file.
pub enum FuseResponse {
    Data(Vec<u8>),
    Error(String),
}

/// Reports on the health of the clipboard.
pub enum ClipboardHealth {
    Failed { reason: String },
    Recovered,
}

/// State of the clipboard exchange.
pub struct ClipboardOrchestrator {
    pub config: ClipboardOrchestratorConfig,
    /// Pastes that wait for data of the remote client, oldest first.
    pub pending_portal_requests: VecDeque<PendingRequest>,
    /// Files on the way.
    pub file_transfer_state: FileTransferState,
    /// Stream numbers of the reads of virtual files that wait for an answer.
    pub pending_fuse_responses: HashSet<u32>,
    /// The formats that the remote client announced last.
    pub current_rdp_formats: Vec<ClipboardFormat>,
    /// The formats that were announced to the remote client last.
    pub local_advertised_formats: Vec<ClipboardFormat>,
    /// When formats were announced anew, in nanoseconds since the Unix epoch.
    pub last_reannounce_time: Option<u128>,
    /// How often formats were announced anew.
    pub reannounce_count: Vec<ReannounceEntry>,
    /// Text that a clipboard manager handed over, as UTF-16 bytes.
    pub cooperation_content_cache: Option<Vec<u8>>,
    /// How many events failed in a row.
    pub consecutive_errors: u32,
}

/// What the orchestrator holds.
#[verifier::ext_equal]
pub struct OrchestratorView {
    pub config: ClipboardOrchestratorConfig,
    pub pending: Seq<(u32, Seq<char>)>,
    pub transfer: TransferView,
    pub fuse_pending: Set<u32>,
    pub rdp_formats: Seq<FormatView>,
    pub advertised: Seq<FormatView>,
    pub last_reannounce: Option<u128>,
    pub counts: Map<Seq<u32>, u32>,
    pub cache: Option<Seq<u8>>,
    pub consecutive_errors: u32,
}

/// The bytes in an optional vector.
pub open spec fn opt_bytes(v: Option<Vec<u8>>) -> Option<Seq<u8>> {
    match v {
        Some(b) => Some(b@),
        None => None,
    }
}

impl View for ClipboardOrchestrator {
    type V = OrchestratorView;

    open spec fn view(&self) -> OrchestratorView {
        OrchestratorView {
            config: self.config,
            pending: pending_views(self.pending_portal_requests@),
            transfer: self.file_transfer_state@,
            fuse_pending: self.pending_fuse_responses@,
            rdp_formats: format_views(self.current_rdp_formats@),
            advertised: format_views(self.local_advertised_formats@),
            last_reannounce: self.last_reannounce_time,
            counts: counts_of(self.reannounce_count@),
            cache: opt_bytes(self.cooperation_content_cache),
            consecutive_errors: self.consecutive_errors,
        }
    }
}

/// The cached text is served in these formats.
pub open spec fn cache_serves(v: OrchestratorView, format_id: u32) -> bool {
    v.cache is Some && (format_id == CF_UNICODETEXT || format_id == CF_TEXT)
}

/// What the cached text is served as.
pub open spec fn cached_reply(v: OrchestratorView, format_id: u32) -> Seq<u8> {
    if format_id == CF_TEXT {
        ansi_bytes(v.cache->0)
    } else {
        v.cache->0
    }
}

/// An advertised format answers to `format_id`; 0 stands for any named format.
pub open spec fn answers_to(f: FormatView, format_id: u32) -> bool {
    f.id == format_id || (format_id == 0 && f.name is Some)
}

/// The name of the first advertised format that answers to `format_id`.
pub open spec fn advertised_name(advertised: Seq<FormatView>, format_id: u32) -> Option<Seq<char>>
    decreases advertised.len(),
{
    if advertised.len() == 0 {
        None
    } else if answers_to(advertised[0], format_id) {
        advertised[0].name
    } else {
        advertised_name(advertised.drop_first(), format_id)
    }
}

/// The remote client asks for the list of copied files.
pub open spec fn wants_file_list(v: OrchestratorView, format_id: u32) -> bool {
    advertised_name(v.advertised, format_id) == Some("FileGroupDescriptorW"@)
}

/// A MIME type of a list of files.
pub open spec fn is_file_mime(mime: Seq<char>) -> bool {
    mime == "text/uri-list"@ || mime == "x-special/gnome-copied-files"@
}

/// What a group descriptor says of the files it announces.
pub open spec fn group_views(d: Seq<u8>) -> Seq<DescriptorView> {
    Seq::new(
        group_count(d) as nat,
        |i: int|
            DescriptorView { name: decode_lossy(group_name(d, i)), size: group_size(d, i) },
    )
}

/// The virtual files for a list of offered files.
pub open spec fn fuse_files_of(descriptors: Seq<DescriptorView>) -> Seq<(Seq<char>, u64)> {
    descriptors.map_values(
        |d: DescriptorView| (linux_filename(d.name), size_or_zero(d.size)),
    )
}

/// The state after the files of `descriptors` began to be received.
pub open spec fn staged(v: OrchestratorView, serial: u32, descriptors: Seq<DescriptorView>) -> OrchestratorView {
    OrchestratorView {
        transfer: TransferView {
            incoming: Map::empty(),
            descriptors,
            portal_serial: Some(serial),
            next_stream_id: stream_after(v.transfer.next_stream_id, descriptors.len() as int),
            completed: Seq::empty(),
            ..v.transfer
        },
        ..v
    }
}

/// `r` begins to receive the files of `descriptors`, or cancels the paste where
/// the remote client cannot be reached. `v` is the state before, `n` after.
pub open spec fn stages(
    v: OrchestratorView,
    n: OrchestratorView,
    request: (u32, Seq<char>),
    descriptors: Seq<DescriptorView>,
    has_sender: bool,
    r: DataResponseAction,
) -> bool {
    if has_sender {
        &&& n == staged(v, request.0, descriptors)
        &&& r matches DataResponseAction::Stage { plan, clip_data_id } && planned_views(plan@)
            == plan_of(v.transfer.download_dir, v.transfer.next_stream_id, descriptors)
            && clip_data_id == CLIP_DATA_ID
    } else {
        &&& n == v
        &&& r matches DataResponseAction::Cancel(q) && q@ == request
    }
}

/// `r` hands over the data `d` as `mime`, or fails where it cannot be converted.
pub open spec fn delivers(request: (u32, Seq<char>), d: Seq<u8>, r: DataResponseAction) -> bool {
    match portal_data(request.1, d) {
        Some(b) => r matches DataResponseAction::Deliver { request: q, data } && q@ == request
            && data@ == b,
        None => r matches DataResponseAction::Fail(e) && (if too_small_for_bitmap(request.1, d) {
            e matches ExchangeError::ImageDecode(m) && m@ == "Data too small for bitmap"@
        } else {
            e is Core
        }),
    }
}

/// The state without the paste that has waited longest.
pub open spec fn popped(v: OrchestratorView) -> OrchestratorView {
    OrchestratorView { pending: v.pending.drop_first(), ..v }
}

/// Whether `d` would be converted for a paste and is a bitmap that cannot be read.
pub open spec fn unreadable(
    v: OrchestratorView,
    d: Seq<u8>,
    should_transfer: bool,
    has_provider: bool,
) -> bool {
    &&& should_transfer
    &&& has_provider
    &&& v.pending.len() > 0
    &&& v.pending[0].0 != EAGER_FETCH_SERIAL
    &&& !bitmap_readable(v.pending[0].1, d)
}

/// What data of the remote client leads to. `v` is the state before, `n` after.
pub open spec fn response_handled(
    v: OrchestratorView,
    n: OrchestratorView,
    d: Seq<u8>,
    should_transfer: bool,
    has_provider: bool,
    fuse_available: bool,
    has_sender: bool,
    r: DataResponseAction,
) -> bool {
    if !should_transfer || !has_provider || v.pending.len() == 0 {
        n == v && r is Ignore
    } else if v.pending[0].0 == EAGER_FETCH_SERIAL {
        &&& n == popped(v)
        &&& if d.len() >= 2 {
            r matches DataResponseAction::ProvideText(b) && b@ == linux_text(d)
        } else {
            r is Ignore
        }
    } else if is_file_mime(v.pending[0].1) && group_well_formed(d) {
        if v.transfer.incoming.dom().len() > 0 {
            &&& n == popped(v)
            &&& r matches DataResponseAction::Cancel(q) && q@ == v.pending[0]
        } else if fuse_available {
            &&& n == popped(v)
            &&& r matches DataResponseAction::OfferFuse { request, files, descriptors, clip_data_id }
                && request@ == v.pending[0] && descriptor_views(descriptors@) == group_views(d)
                && fuse_views(files@) == fuse_files_of(group_views(d)) && clip_data_id
                == CLIP_DATA_ID
        } else {
            stages(popped(v), n, v.pending[0], group_views(d), has_sender, r)
        }
    } else {
        n == popped(v) && delivers(v.pending[0], d, r)
    }
}

/// The formats were announced anew less than half a second ago. A clock that
/// went backwards does not count.
pub open spec fn too_soon(last: Option<u128>, now: u128) -> bool {
    last matches Some(t) && t <= now && now - t < REANNOUNCE_GUARD
}

/// The MIME types to announce, with the hint for KDE's clipboard manager where
/// it is wanted.
pub open spec fn announced_mimes(mimes: Seq<Seq<char>>, hint: bool) -> Seq<Seq<char>> {
    if hint && !mimes.contains("application/x-kde-syncselection"@) {
        mimes.push("application/x-kde-syncselection"@)
    } else {
        mimes
    }
}

/// Text is to be fetched as soon as the formats are announced.
pub open spec fn fetches_eagerly(
    v: OrchestratorView,
    mimes: Seq<Seq<char>>,
    requires_upfront_data: bool,
) -> bool {
    &&& requires_upfront_data
    &&& exists|i: int| 0 <= i < mimes.len() && "text/plain"@.is_prefix_of(#[trigger] mimes[i])
    &&& offers(v.rdp_formats, CF_UNICODETEXT)
}

/// An error message says that the session is gone.
pub open spec fn says_session_invalid(message: Seq<char>) -> bool {
    occurs_in(message, "session invalid"@) || occurs_in(message, "Session invalid"@)
}

fn has_plain_text(mimes: &[String]) -> (r: bool)
    ensures
        r == exists|i: int|
            0 <= i < views(mimes@).len() && "text/plain"@.is_prefix_of(
                #[trigger] views(mimes@)[i],
            ),
{
    let mut i: usize = 0;
    while i < mimes.len()
        invariant
            i <= mimes.len(),
            forall|k: int|
                0 <= k < i ==> !"text/plain"@.is_prefix_of(#[trigger] views(mimes@)[k]),
        decreases mimes.len() - i,
    {
        assert(views(mimes@)[i as int] == mimes@[i as int]@);
        if starts_with(mimes[i].as_str(), "text/plain") {
            return true;
        }
        i += 1;
    }
    false
}

fn keep_other_serials(pending: &mut VecDeque<PendingRequest>, serial: u32)
    ensures
        pending_views(final(pending)@) == without_serial(pending_views(old(pending)@), serial),
{
    let mut kept: VecDeque<PendingRequest> = VecDeque::new();
    let ghost all = pending@;
    let ghost mut n: int = 0;
    assert(all.skip(0) =~= all);
    assert(pending_views(all).take(0) =~= Seq::empty());
    assert(pending_views(kept@) =~= Seq::empty());
    while pending.len() > 0
        invariant
            0 <= n <= all.len(),
            pending@ == all.skip(n),
            pending_views(kept@) == without_serial(pending_views(all).take(n), serial),
        decreases all.len() - n,
    {
        let ghost before = pending_views(kept@);
        if let Some(p) = pending.pop_front() {
            proof {
                assert(p == all[n]);
                let t = pending_views(all).take(n + 1);
                assert(t.drop_last() =~= pending_views(all).take(n));
                assert(t.last() == p@);
            }
            if p.serial != serial {
                kept.push_back(p);
                assert(pending_views(kept@) =~= before.push(p@));
            }
            proof {
                n = n + 1;
                assert(pending@ =~= all.skip(n));
            }
        }
    }
    assert(pending_views(all).take(n) =~= pending_views(all));
    *pending = kept;
}

fn drain_pending(pending: &mut VecDeque<PendingRequest>) -> (r: Vec<PendingRequest>)
    ensures
        final(pending)@.len() == 0,
        r@ == old(pending)@,
{
    let mut out: Vec<PendingRequest> = Vec::new();
    let ghost all = pending@;
    let ghost mut n: int = 0;
    assert(all.skip(0) =~= all);
    assert(all.take(0) =~= Seq::empty());
    while pending.len() > 0
        invariant
            0 <= n <= all.len(),
            pending@ == all.skip(n),
            out@ == all.take(n),
        decreases all.len() - n,
    {
        if let Some(p) = pending.pop_front() {
            out.push(p);
            proof {
                n = n + 1;
                assert(pending@ =~= all.skip(n));
                assert(out@ =~= all.take(n));
            }
        }
    }
    assert(out@ =~= all);
    out
}

fn parse_files(data: &[u8]) -> (r: Option<Vec<FileDescriptor>>)
    ensures
        match r {
            Some(v) => group_well_formed(data@) && descriptor_views(v@) == group_views(data@),
            None => !group_well_formed(data@),
        },
{
    if data.len() >= 4 {
        let count: u32 = read_le32(data, 0);
        let needed: u64 = 4 + 592 * (count as u64);
        if needed > usize::MAX as u64 {
            return None;
        }
    }
    match parse_group_descriptor(data) {
        Ok(v) => {
            assert(descriptor_views(v@) =~= group_views(data@)) by {
                assert forall|i: int| 0 <= i < v@.len() implies descriptor_views(v@)[i]
                    == group_views(data@)[i] by {
                    assert(v@[i]@ == descriptor_views(v@)[i]);
                }
            }
            Some(v)
        },
        Err(_) => None,
    }
}

fn fuse_files(descriptors: &[FileDescriptor]) -> (r: Vec<FuseFile>)
    ensures
        fuse_views(r@) == fuse_files_of(descriptor_views(descriptors@)),
{
    let mut r: Vec<FuseFile> = Vec::new();
    let ghost want = fuse_files_of(descriptor_views(descriptors@));
    let mut i: usize = 0;
    while i < descriptors.len()
        invariant
            i <= descriptors.len(),
            want == fuse_files_of(descriptor_views(descriptors@)),
            fuse_views(r@) == want.take(i as int),
        decreases descriptors.len() - i,
    {
        let ghost before = fuse_views(r@);
        let filename = lamco_clipboard_core::sanitize::sanitize_filename_for_linux(
            descriptors[i].name.as_str(),
        );
        let size: u64 = match descriptors[i].size {
            Some(n) => n,
            None => 0,
        };
        let f = FuseFile { filename, size };
        r.push(f);
        i += 1;
        assert(fuse_views(r@) =~= before.push((f.filename@, f.size)));
        assert(fuse_views(r@) =~= want.take(i as int));
    }
    assert(fuse_views(r@) =~= want);
    r
}

impl ClipboardOrchestrator {
    /// An orchestrator without content that receives files into the download
    /// directory of `home`.
    pub fn new(config: ClipboardOrchestratorConfig, home: Option<String>) -> (r: Self)
        ensures
            r@ == (OrchestratorView {
                config,
                pending: Seq::empty(),
                transfer: TransferView {
                    incoming: Map::empty(),
                    outgoing: Seq::empty(),
                    descriptors: Seq::empty(),
                    download_dir: match home {
                        Some(h) => path_in(h@, "Downloads"@),
                        None => "/tmp"@,
                    },
                    portal_serial: None,
                    next_stream_id: 1,
                    completed: Seq::empty(),
                },
                fuse_pending: Set::empty(),
                rdp_formats: Seq::empty(),
                advertised: Seq::empty(),
                last_reannounce: None,
                counts: Map::empty(),
                cache: None,
                consecutive_errors: 0,
            }),
    {
        let dir = crate::clipboard::transfer::download_dir(home);
        let r = ClipboardOrchestrator {
            config,
            pending_portal_requests: VecDeque::new(),
            file_transfer_state: FileTransferState::new(dir),
            pending_fuse_responses: HashSet::new(),
            current_rdp_formats: Vec::new(),
            local_advertised_formats: Vec::new(),
            last_reannounce_time: None,
            reannounce_count: Vec::new(),
            cooperation_content_cache: None,
            consecutive_errors: 0,
        };
        assert(r@.pending =~= Seq::empty());
        assert(r@.rdp_formats =~= Seq::empty());
        assert(r@.advertised =~= Seq::empty());
        r
    }

    /// Handles a clipboard event: returns what to do about it.
    pub fn handle_event(&mut self, event: ClipboardEvent, has_sender: bool) -> (r: ClipboardAction)
        ensures
            event_answered(old(self)@, final(self)@, event, has_sender, r),
    {
        match event {
            ClipboardEvent::RdpReady => {
                if self.local_advertised_formats.len() > 0 {
                    ClipboardAction::Send(
                        RdpMessage::InitiateCopy(copy_formats(&self.local_advertised_formats)),
                    )
                } else {
                    ClipboardAction::Done
                }
            },
            ClipboardEvent::RdpFormatList(formats) => {
                self.current_rdp_formats = formats;
                ClipboardAction::SyncRdpFormats
            },
            ClipboardEvent::RdpDataRequest(format_id) => self.handle_rdp_data_request(format_id),
            ClipboardEvent::RdpDataResponse(data) => ClipboardAction::CheckContent(data),
            ClipboardEvent::RdpDataError => {
                let failed = drain_pending(&mut self.pending_portal_requests);
                assert(self@.pending =~= Seq::empty());
                ClipboardAction::Cancel(failed)
            },
            ClipboardEvent::RdpFileContentsRequest {
                stream_id,
                list_index,
                position,
                size,
                is_size_request,
            } => self.handle_rdp_file_contents_request(
                stream_id,
                list_index,
                position,
                size,
                is_size_request,
                has_sender,
            ),
            ClipboardEvent::RdpFileContentsResponse { stream_id, data, is_error } => {
                if is_error {
                    let (partial_file, serial) = self.file_transfer_state.abandon(stream_id);
                    ClipboardAction::Abandon { partial_file, serial }
                } else {
                    match self.file_transfer_state.temp_path_of(stream_id) {
                        Some(temp_path) => ClipboardAction::StoreChunk { stream_id, temp_path, data },
                        None => ClipboardAction::Done,
                    }
                }
            },
            ClipboardEvent::PortalFormatsAvailable(mime_types, force) => {
                ClipboardAction::SyncPortalFormats { mime_types, force }
            },
            ClipboardEvent::PortalDataRequest(mime_type) => {
                ClipboardAction::RequestFormat { mime_type }
            },
            ClipboardEvent::PortalDataResponse(_) => ClipboardAction::Done,
        }
    }

    /// Decides what to announce to the provider after the remote client announced
    /// its formats. `mime_types` are the MIME types they stand for.
    pub fn rdp_formats_synced(
        &self,
        should_sync: bool,
        mime_types: Result<Vec<String>, ExchangeError>,
        klipper_detected: bool,
    ) -> (r: FormatListStep)
        ensures
            if !should_sync {
                r is Skip
            } else {
                match mime_types {
                    Err(e) => r == FormatListStep::Fail(e),
                    Ok(m) => if m@.len() == 0 {
                        r is Skip
                    } else {
                        r matches FormatListStep::Announce(a) && views(a@) == announced_mimes(
                            views(m@),
                            self@.config.kde_syncselection_hint && klipper_detected,
                        )
                    },
                }
            },
    {
        if !should_sync {
            return FormatListStep::Skip;
        }
        match mime_types {
            Err(e) => FormatListStep::Fail(e),
            Ok(m) => {
                if m.len() == 0 {
                    return FormatListStep::Skip;
                }
                let mut m = m;
                let ghost before = views(m@);
                if self.config.kde_syncselection_hint && klipper_detected && !has_text(
                    &m,
                    "application/x-kde-syncselection",
                ) {
                    m.push("application/x-kde-syncselection".to_owned());
                    assert(views(m@) =~= before.push("application/x-kde-syncselection"@));
                }
                FormatListStep::Announce(m)
            },
        }
    }

    /// Decides, after the provider took the announcement, whether text is fetched
    /// at once. Its outcome is handed to `eager_fetch_sent`.
    pub fn formats_announced(
        &mut self,
        mime_types: &[String],
        announced: Result<(), String>,
        requires_upfront_data: bool,
    ) -> (r: Result<Option<RdpMessage>, ExchangeError>)
        ensures
            announcement_followed(
                old(self)@,
                final(self)@,
                views(mime_types@),
                announced,
                requires_upfront_data,
                r,
            ),
    {
        match announced {
            Err(e) => Err(
                ExchangeError::PortalError(joined("Provider announce_formats failed: ", e.as_str())),
            ),
            Ok(()) => {
                if requires_upfront_data && has_plain_text(mime_types) && has_format(
                    &self.current_rdp_formats,
                    CF_UNICODETEXT,
                ) {
                    let p = PendingRequest {
                        serial: EAGER_FETCH_SERIAL,
                        mime_type: "text/plain".to_owned(),
                    };
                    self.pending_portal_requests.push_back(p);
                    assert(self@.pending =~= old(self)@.pending.push(p@));
                    Ok(Some(RdpMessage::InitiatePaste(CF_UNICODETEXT)))
                } else {
                    Ok(None)
                }
            },
        }
    }

    /// Notes what became of the request that fetches text at once: where it was
    /// not sent, nothing waits for it.
    pub fn eager_fetch_sent(&mut self, outcome: SendOutcome)
        ensures
            final(self)@ == (if outcome is Sent {
                old(self)@
            } else {
                OrchestratorView {
                    pending: without_serial(old(self)@.pending, EAGER_FETCH_SERIAL),
                    ..old(self)@
                }
            }),
    {
        match outcome {
            SendOutcome::Sent => {},
            _ => {
                keep_other_serials(&mut self.pending_portal_requests, EAGER_FETCH_SERIAL);
            },
        }
    }

    /// Decides where the data for a request of the remote client comes from.
    fn handle_rdp_data_request(&self, format_id: u32) -> (r: ClipboardAction)
        ensures
            if cache_serves(self@, format_id) {
                r matches ClipboardAction::ServeCached { format_id: id, data } && id == format_id
                    && data@ == cached_reply(self@, format_id)
            } else {
                self_serves(self@, format_id, r)
            },
    {
        if let Some(cached) = &self.cooperation_content_cache {
            if format_id == CF_UNICODETEXT {
                let data = cached.clone();
                assert(data@ =~= cached@);
                return ClipboardAction::ServeCached { format_id, data };
            }
            if format_id == CF_TEXT {
                let data = to_ansi_bytes(cached);
                return ClipboardAction::ServeCached { format_id, data };
            }
        }
        self.continue_data_request(format_id)
    }

    /// Decides where the data for a request of the remote client comes from when
    /// no cached text was sent.
    pub fn continue_data_request(&self, format_id: u32) -> (r: ClipboardAction)
        ensures
            self_serves(self@, format_id, r),
    {
        let mut i: usize = 0;
        assert(self@.advertised.skip(0) =~= self@.advertised);
        while i < self.local_advertised_formats.len()
            invariant
                i <= self.local_advertised_formats.len(),
                advertised_name(self@.advertised, format_id) == advertised_name(
                    self@.advertised.skip(i as int),
                    format_id,
                ),
            decreases self.local_advertised_formats.len() - i,
        {
            let f = &self.local_advertised_formats[i];
            let ghost rest = self@.advertised.skip(i as int);
            assert(rest[0] == f@);
            assert(rest.drop_first() =~= self@.advertised.skip(i + 1));
            if f.id == format_id || (format_id == 0 && f.name.is_some()) {
                if let Some(name) = &f.name {
                    if same_text(name.as_str(), "FileGroupDescriptorW") {
                        return ClipboardAction::ListFiles;
                    }
                }
                return ClipboardAction::ReadFormat { format_id };
            }
            i += 1;
        }
        assert(self@.advertised.skip(i as int) =~= Seq::empty());
        ClipboardAction::ReadFormat { format_id }
    }

    /// The answer to a request for data. `mime_type` is the MIME type of the
    /// format, if it has one, and `data` what the provider gave for it.
    pub fn data_request_reply(
        &self,
        format_id: u32,
        mime_type: Option<String>,
        data: Option<Vec<u8>>,
    ) -> (r: Result<RdpMessage, ExchangeError>)
        ensures
            request_replied(format_id, opt_view(mime_type), opt_bytes(data), r),
    {
        match (mime_type, data) {
            (Some(m), Some(d)) => match to_rdp_data(format_id, m.as_str(), d) {
                Ok(v) => Ok(RdpMessage::FormatData(v)),
                Err(e) => Err(e),
            },
            _ => Ok(RdpMessage::FormatDataError),
        }
    }

    /// Decides how the exchange works together with KDE's clipboard manager.
    pub fn initialize_strategy(uses_cooperation: bool, has_connection: bool) -> (r: Cooperation)
        ensures
            r == (if !uses_cooperation {
                Cooperation::NotNeeded
            } else if has_connection {
                Cooperation::Active
            } else {
                Cooperation::Reannounce
            }),
    {
        if !uses_cooperation {
            Cooperation::NotNeeded
        } else if has_connection {
            Cooperation::Active
        } else {
            Cooperation::Reannounce
        }
    }

    /// Decides what follows when the file manager's list of copied files was read:
    /// it is used unless it is empty or could not be read.
    pub fn copied_files_read(data: Option<Vec<u8>>) -> (r: FileListStep)
        ensures
            match data {
                Some(d) => if d@.len() > 0 {
                    r matches FileListStep::Parse(v) && v@ == d@
                } else {
                    r is ReadUriList
                },
                None => r is ReadUriList,
            },
    {
        match data {
            Some(d) => {
                if d.len() > 0 {
                    FileListStep::Parse(d)
                } else {
                    FileListStep::ReadUriList
                }
            },
            None => FileListStep::ReadUriList,
        }
    }

    /// Decides what follows when the plain list of URIs was read.
    pub fn uri_list_read(data: Option<Vec<u8>>) -> (r: FileListStep)
        ensures
            match data {
                Some(d) => r matches FileListStep::Parse(v) && v@ == d@,
                None => r matches FileListStep::Refuse(m) && m is FormatDataError,
            },
    {
        match data {
            Some(d) => FileListStep::Parse(d),
            None => FileListStep::Refuse(RdpMessage::FormatDataError),
        }
    }

    /// Notes the copied files that were found, and says whether there are any to
    /// offer. The answer is made by `group_descriptor_reply`.
    pub fn offer_files(&mut self, files: &[LocalFile]) -> (r: bool)
        ensures
            r == (files@.len() > 0),
            final(self)@ == (if files@.len() > 0 {
                OrchestratorView {
                    transfer: TransferView { outgoing: outgoing_of(files@), ..old(self)@.transfer },
                    ..old(self)@
                }
            } else {
                old(self)@
            }),
    {
        if files.len() == 0 {
            return false;
        }
        self.file_transfer_state.store_outgoing(files);
        true
    }

    /// The answer to a request for the list of copied files: the list, or a
    /// refusal where none could be made.
    pub fn group_descriptor_reply(descriptor: Option<Vec<u8>>) -> (r: RdpMessage)
        ensures
            match descriptor {
                Some(d) => r matches RdpMessage::FormatData(v) && v@ == d@,
                None => r is FormatDataError,
            },
    {
        match descriptor {
            Some(d) => RdpMessage::FormatData(d),
            None => RdpMessage::FormatDataError,
        }
    }

    /// Takes out the paste that `data` would be converted for, if it is a bitmap that
    /// cannot be read.
    pub fn take_unreadable(
        &mut self,
        data: &[u8],
        should_transfer: bool,
        has_provider: bool,
    ) -> (r: Option<PendingRequest>)
        ensures
            r is Some == unreadable(old(self)@, data@, should_transfer, has_provider),
            match r {
                Some(p) => {
                    &&& p@ == old(self)@.pending[0]
                    &&& final(self)@ == popped(old(self)@)
                },
                None => final(self)@ == old(self)@,
            },
    {
        if !should_transfer || !has_provider || self.pending_portal_requests.len() == 0 {
            return None;
        }
        let first = &self.pending_portal_requests[0];
        assert(first@ == self@.pending[0]);
        if first.serial == EAGER_FETCH_SERIAL || is_bitmap_readable(
            first.mime_type.as_str(),
            data,
        ) {
            return None;
        }
        let ghost all = self@.pending;
        let request = self.pending_portal_requests.pop_front();
        assert(self@.pending =~= all.drop_first());
        request
    }

    /// Decides what data of the remote client is for, and converts it.
    pub fn handle_rdp_data_response(
        &mut self,
        data: Vec<u8>,
        should_transfer: bool,
        has_provider: bool,
        fuse_available: bool,
        has_sender: bool,
    ) -> (r: DataResponseAction)
        requires
            !unreadable(old(self)@, data@, should_transfer, has_provider),
        ensures
            response_handled(
                old(self)@,
                final(self)@,
                data@,
                should_transfer,
                has_provider,
                fuse_available,
                has_sender,
                r,
            ),
    {
        if !should_transfer || !has_provider {
            return DataResponseAction::Ignore;
        }
        let ghost all = self@.pending;
        let request = match self.pending_portal_requests.pop_front() {
            Some(p) => p,
            None => {
                return DataResponseAction::Ignore;
            },
        };
        proof {
            assert(request@ == all[0]);
            assert(self@.pending =~= all.drop_first());
        }
        if request.serial == EAGER_FETCH_SERIAL {
            if data.len() >= 2 {
                return DataResponseAction::ProvideText(to_linux_text(&data));
            }
            return DataResponseAction::Ignore;
        }
        if same_text(request.mime_type.as_str(), "text/uri-list") || same_text(
            request.mime_type.as_str(),
            "x-special/gnome-copied-files",
        ) {
            if let Some(descriptors) = parse_files(&data) {
                assert(self@.transfer.incoming.dom()
                    =~= self.file_transfer_state.incoming_files@.dom());
                if self.file_transfer_state.incoming_files.len() > 0 {
                    return DataResponseAction::Cancel(request);
                }
                if fuse_available {
                    let files = fuse_files(&descriptors);
                    return DataResponseAction::OfferFuse {
                        request,
                        files,
                        descriptors,
                        clip_data_id: CLIP_DATA_ID,
                    };
                }
                return self.stage(request, descriptors, has_sender);
            }
        }
        match to_portal_data(request.mime_type.as_str(), data) {
            Ok(data) => DataResponseAction::Deliver { request, data },
            Err(e) => DataResponseAction::Fail(e),
        }
    }

    fn stage(
        &mut self,
        request: PendingRequest,
        descriptors: Vec<FileDescriptor>,
        has_sender: bool,
    ) -> (r: DataResponseAction)
        ensures
            stages(
                old(self)@,
                final(self)@,
                request@,
                descriptor_views(descriptors@),
                has_sender,
                r,
            ),
    {
        if !has_sender {
            return DataResponseAction::Cancel(request);
        }
        let plan = self.file_transfer_state.begin_incoming(request.serial, descriptors);
        DataResponseAction::Stage { plan, clip_data_id: CLIP_DATA_ID }
    }

    /// Decides how a paste of files goes on after the virtual files were made.
    /// `content` is the list of their paths; where there are none, the files are
    /// received at once.
    pub fn fuse_files_made(
        &mut self,
        request: PendingRequest,
        descriptors: Vec<FileDescriptor>,
        content: Option<Vec<u8>>,
        has_sender: bool,
    ) -> (r: DataResponseAction)
        ensures
            match content {
                Some(c) => {
                    &&& final(self)@ == old(self)@
                    &&& r matches DataResponseAction::DeliverFiles { serial, data } && serial
                        == request.serial && data@ == c@
                },
                None => stages(
                    old(self)@,
                    final(self)@,
                    request@,
                    descriptor_views(descriptors@),
                    has_sender,
                    r,
                ),
            },
    {
        match content {
            Some(data) => DataResponseAction::DeliverFiles { serial: request.serial, data },
            None => self.stage(request, descriptors, has_sender),
        }
    }

    /// Notes that a planned file has a place, and asks for its first part.
    pub fn start_incoming(&mut self, plan: &PlannedFile) -> (r: FileContentsRequest)
        ensures
            final(self)@ == (OrchestratorView {
                transfer: TransferView {
                    incoming: old(self)@.transfer.incoming.insert(
                        plan.stream_id,
                        started_file(plan@),
                    ),
                    ..old(self)@.transfer
                },
                ..old(self)@
            }),
            r == (FileContentsRequest {
                stream_id: plan.stream_id,
                index: plan.file_index,
                position: 0,
                requested_size: crate::clipboard::transfer::first_request_size(
                    plan.total_size,
                ) as u32,
                data_id: Some(CLIP_DATA_ID),
            }),
    {
        self.file_transfer_state.start_incoming(plan)
    }

    /// Notes that the provider took the data of the paste `serial`: the other
    /// waiting pastes are given up and returned.
    pub fn transfer_delivered(&mut self, serial: u32) -> (r: Vec<PendingRequest>)
        ensures
            final(self)@ == (OrchestratorView { pending: Seq::empty(), ..old(self)@ }),
            pending_views(r@) == without_serial(old(self)@.pending, serial),
    {
        keep_other_serials(&mut self.pending_portal_requests, serial);
        let r = drain_pending(&mut self.pending_portal_requests);
        assert(self@.pending =~= Seq::empty());
        r
    }

    /// Notes that the provider refused the data of the paste `serial`.
    pub fn transfer_failed(&mut self, serial: u32)
        ensures
            final(self)@ == (OrchestratorView {
                pending: without_serial(old(self)@.pending, serial),
                ..old(self)@
            }),
    {
        keep_other_serials(&mut self.pending_portal_requests, serial);
    }

    /// Decides what an announcement of the compositor leads to. `now` is the time
    /// in nanoseconds since the Unix epoch.
    pub fn handle_portal_formats(&mut self, decision: PortalSyncDecision, now: u128) -> (r:
        PortalFormatsStep)
        ensures
            announcement_treated(old(self)@, final(self)@, decision, now, r),
    {
        match decision {
            PortalSyncDecision::Allow => PortalFormatsStep::Convert,
            PortalSyncDecision::Block => PortalFormatsStep::Skip,
            PortalSyncDecision::KlipperReannounce => {
                if let Some(t) = self.last_reannounce_time {
                    if t <= now && now - t < REANNOUNCE_GUARD {
                        return PortalFormatsStep::Skip;
                    }
                }
                let ids = sort_ids(&self.current_rdp_formats);
                if !count_reannouncement(&mut self.reannounce_count, ids) {
                    return PortalFormatsStep::Skip;
                }
                if self.current_rdp_formats.len() == 0 {
                    return PortalFormatsStep::Skip;
                }
                PortalFormatsStep::Reannounce(copy_formats(&self.current_rdp_formats))
            },
        }
    }

    /// Notes that the formats were announced anew at `now`.
    pub fn reannounced(&mut self, now: u128)
        ensures
            final(self)@ == (OrchestratorView { last_reannounce: Some(now), ..old(self)@ }),
    {
        self.last_reannounce_time = Some(now);
    }

    /// Announces the formats that the compositor's MIME types were converted to.
    pub fn advertise(&mut self, formats: Vec<ConvertedFormat>) -> (r: RdpMessage)
        ensures
            final(self)@ == (OrchestratorView {
                advertised: announced_formats(formats@),
                ..old(self)@
            }),
            r matches RdpMessage::InitiateCopy(f) && format_views(f@) == announced_formats(formats@),
    {
        let mut list: Vec<ClipboardFormat> = Vec::new();
        let ghost want = announced_formats(formats@);
        let mut i: usize = 0;
        while i < formats.len()
            invariant
                i <= formats.len(),
                want == announced_formats(formats@),
                format_views(list@) == want.take(i as int),
            decreases formats.len() - i,
        {
            let ghost before = format_views(list@);
            let name = if formats[i].format_name.as_str().is_empty() {
                None
            } else {
                Some(formats[i].format_name.clone())
            };
            let f = ClipboardFormat { id: formats[i].format_id, name };
            list.push(f);
            i += 1;
            assert(f@ == announced_format(formats@[i - 1]));
            assert(format_views(list@) =~= before.push(f@));
            assert(format_views(list@) =~= want.take(i as int));
        }
        assert(format_views(list@) =~= want);
        let message = RdpMessage::InitiateCopy(copy_formats(&list));
        self.local_advertised_formats = list;
        message
    }

    /// The request for data of `mime_type`. `name_mimes` holds what the name of
    /// each announced format stands for, `fallback` the standard format of the
    /// MIME type.
    pub fn handle_portal_data_request(
        &self,
        mime_type: &str,
        name_mimes: &[Option<String>],
        fallback: Result<u32, ExchangeError>,
    ) -> (r: Result<RdpMessage, ExchangeError>)
        requires
            name_mimes@.len() == self@.rdp_formats.len(),
        ensures
            paste_requested(
                self@.rdp_formats,
                opt_views(name_mimes@),
                mime_type@,
                fallback,
                r,
            ),
    {
        match lookup_format_id_for_mime(&self.current_rdp_formats, name_mimes, mime_type) {
            Some(id) => Ok(RdpMessage::InitiatePaste(id)),
            None => match fallback {
                Ok(id) => Ok(RdpMessage::InitiatePaste(id)),
                Err(e) => Err(e),
            },
        }
    }

    fn handle_rdp_file_contents_request(
        &self,
        stream_id: u32,
        list_index: u32,
        position: u64,
        requested_size: u32,
        is_size_request: bool,
        has_sender: bool,
    ) -> (r: ClipboardAction)
        ensures
            file_request_answered(
                self@,
                stream_id,
                list_index,
                position,
                requested_size,
                is_size_request,
                has_sender,
                r,
            ),
    {
        if !has_sender {
            return ClipboardAction::Fail(ExchangeError::NotInitialized);
        }
        let files = &self.file_transfer_state.outgoing_files;
        if (list_index as u64) >= files.len() as u64 {
            let mut m = joined("File index ", decimal_text(list_index as u64).as_str());
            m.append(" not found");
            return ClipboardAction::Fail(ExchangeError::InvalidState(m));
        }
        let f = &files[list_index as usize];
        assert(self@.transfer.outgoing[list_index as int] == f@);
        if is_size_request {
            ClipboardAction::Send(RdpMessage::FileSize { stream_id, size: f.size })
        } else {
            ClipboardAction::ReadChunk {
                stream_id,
                path: f.path.clone(),
                position,
                size: requested_size,
            }
        }
    }

    /// The answer to a request for a part of a file: the data that was read, or a
    /// refusal.
    pub fn file_chunk_reply(stream_id: u32, data: Option<Vec<u8>>) -> (r: RdpMessage)
        ensures
            match data {
                Some(d) => r matches RdpMessage::FileData { stream_id: id, data: v } && id
                    == stream_id && v@ == d@,
                None => r matches RdpMessage::FileError { stream_id: id } && id == stream_id,
            },
    {
        match data {
            Some(data) => RdpMessage::FileData { stream_id, data },
            None => RdpMessage::FileError { stream_id },
        }
    }

    /// Notes that `len` bytes of a file were stored, and says what follows.
    pub fn chunk_stored(&mut self, stream_id: u32, len: u64) -> (r: ChunkStep)
        requires
            old(self)@.transfer.incoming.contains_key(stream_id) ==> old(
                self,
            )@.transfer.incoming[stream_id].received_size + len <= u64::MAX,
        ensures
            r == chunk_step(old(self)@.transfer, stream_id, len),
            final(self)@ == (if old(self)@.transfer.incoming.contains_key(stream_id) {
                OrchestratorView {
                    transfer: TransferView {
                        incoming: old(self)@.transfer.incoming.insert(
                            stream_id,
                            grown(old(self)@.transfer.incoming[stream_id], len),
                        ),
                        ..old(self)@.transfer
                    },
                    ..old(self)@
                }
            } else {
                old(self)@
            }),
    {
        self.file_transfer_state.record_chunk(stream_id, len)
    }

    /// Notes that a file has arrived. It is to be moved to its place; if it was
    /// the last one, `deliver_files` makes the list to hand over.
    pub fn file_flushed(&mut self, stream_id: u32) -> (r: Option<FinishedFile>)
        ensures
            match r {
                None => !old(self)@.transfer.incoming.contains_key(stream_id) && final(self)@
                    == old(self)@,
                Some(f) => {
                    let t = old(self)@.transfer;
                    &&& t.incoming.contains_key(stream_id)
                    &&& final(self)@ == (OrchestratorView {
                        transfer: finished(t, stream_id),
                        ..old(self)@
                    })
                    &&& f.temp_path@ == t.incoming[stream_id].temp_path
                    &&& f.final_path@ == path_in(t.download_dir, t.incoming[stream_id].filename)
                    &&& f.all_complete == (finished(t, stream_id).incoming.dom().len() == 0)
                    &&& f.portal_serial == t.portal_serial
                    &&& views(f.completed_files@) == finished(t, stream_id).completed
                },
            },
    {
        self.file_transfer_state.finish_file(stream_id)
    }

    /// Closes the transfer after the last file was moved to its place: returns
    /// the paste that waits and the list of files for it.
    pub fn deliver_files(&mut self, f: &FinishedFile) -> (r: Option<(u32, Vec<u8>)>)
        ensures
            final(self)@ == (OrchestratorView {
                transfer: TransferView {
                    portal_serial: None,
                    completed: Seq::empty(),
                    ..old(self)@.transfer
                },
                ..old(self)@
            }),
            match f.portal_serial {
                Some(serial) => r matches Some((s, data)) && s == serial && data@
                    == vstd::utf8::encode_utf8(copied_files(views(f.completed_files@))),
                None => r is None,
            },
    {
        self.file_transfer_state.close_transfer();
        match f.portal_serial {
            Some(serial) => Some((serial, copied_files_list(&f.completed_files))),
            None => None,
        }
    }

    /// The announcement to the remote client when a clipboard manager hands over
    /// text.
    pub fn klipper_formats() -> (r: RdpMessage)
        ensures
            r matches RdpMessage::InitiateCopy(f) && format_views(f@) == seq![
                FormatView { id: CF_UNICODETEXT, name: None },
                FormatView { id: CF_TEXT, name: None },
            ],
    {
        let mut f: Vec<ClipboardFormat> = Vec::new();
        f.push(ClipboardFormat::new(CF_UNICODETEXT));
        f.push(ClipboardFormat::new(CF_TEXT));
        assert(format_views(f@) =~= seq![
            FormatView { id: CF_UNICODETEXT, name: None },
            FormatView { id: CF_TEXT, name: None },
        ]);
        RdpMessage::InitiateCopy(f)
    }

    /// Keeps text of a clipboard manager if its announcement was sent.
    pub fn klipper_content_updated(&mut self, content: &str, outcome: SendOutcome)
        ensures
            final(self)@ == (if outcome is Sent {
                OrchestratorView { cache: Some(cached_bytes(content@)), ..old(self)@ }
            } else {
                old(self)@
            }),
    {
        match outcome {
            SendOutcome::Sent => {
                self.cooperation_content_cache = Some(to_cached_bytes(content));
            },
            _ => {},
        }
    }

    /// Takes an event of the clipboard provider: a paste is added to those that
    /// wait. Returns the clipboard event that it stands for.
    pub fn provider_event(&mut self, event: ProviderEvent) -> (r: ClipboardEvent)
        ensures
            match event {
                ProviderEvent::SelectionChanged { mime_types, force } => {
                    &&& final(self)@ == old(self)@
                    &&& r matches ClipboardEvent::PortalFormatsAvailable(m, f) && m@ == mime_types@
                        && f == force
                },
                ProviderEvent::SelectionTransfer { serial, mime_type } => {
                    &&& final(self)@ == (OrchestratorView {
                        pending: old(self)@.pending.push((serial, mime_type@)),
                        ..old(self)@
                    })
                    &&& r matches ClipboardEvent::PortalDataRequest(m) && m@ == mime_type@
                },
            },
    {
        match event {
            ProviderEvent::SelectionChanged { mime_types, force } => {
                ClipboardEvent::PortalFormatsAvailable(mime_types, force)
            },
            ProviderEvent::SelectionTransfer { serial, mime_type } => {
                let p = PendingRequest { serial, mime_type: mime_type.clone() };
                self.pending_portal_requests.push_back(p);
                assert(self@.pending =~= old(self)@.pending.push(p@));
                ClipboardEvent::PortalDataRequest(mime_type)
            },
        }
    }

    /// The request to the remote client for a read of a virtual file. The read
    /// waits for the answer under the stream number of the request.
    pub fn fuse_request(
        &mut self,
        file_index: u32,
        offset: u64,
        size: u32,
        clip_data_id: Option<u32>,
    ) -> (r: FileContentsRequest)
        ensures
            final(self)@ == (OrchestratorView {
                transfer: TransferView {
                    next_stream_id: stream_after(old(self)@.transfer.next_stream_id, 1),
                    ..old(self)@.transfer
                },
                fuse_pending: old(self)@.fuse_pending.insert(old(self)@.transfer.next_stream_id),
                ..old(self)@
            }),
            r == (FileContentsRequest {
                stream_id: old(self)@.transfer.next_stream_id,
                index: file_index,
                position: offset,
                requested_size: size,
                data_id: clip_data_id,
            }),
    {
        let stream_id = self.file_transfer_state.allocate_stream_id();
        self.pending_fuse_responses.insert(stream_id);
        FileContentsRequest {
            stream_id,
            index: file_index,
            position: offset,
            requested_size: size,
            data_id: clip_data_id,
        }
    }

    /// Notes what became of the request for a read of a virtual file: where it
    /// was not sent, the read fails.
    pub fn fuse_request_sent(&mut self, stream_id: u32, outcome: SendOutcome) -> (r: Option<
        FuseResponse,
    >)
        ensures
            if outcome is Sent {
                final(self)@ == old(self)@ && r is None
            } else {
                &&& final(self)@ == (OrchestratorView {
                    fuse_pending: old(self)@.fuse_pending.remove(stream_id),
                    ..old(self)@
                })
                &&& if !old(self)@.fuse_pending.contains(stream_id) {
                    r is None
                } else if outcome is Failed {
                    r matches Some(FuseResponse::Error(m)) && m@ == "Failed to send RDP request"@
                } else {
                    r matches Some(FuseResponse::Error(m)) && m@ == "RDP not connected"@
                }
            },
    {
        match outcome {
            SendOutcome::Sent => None,
            SendOutcome::Failed => {
                if self.pending_fuse_responses.remove(&stream_id) {
                    Some(FuseResponse::Error("Failed to send RDP request".to_owned()))
                } else {
                    assert(self@.fuse_pending =~= old(self)@.fuse_pending.remove(stream_id));
                    None
                }
            },
            SendOutcome::NoSender => {
                if self.pending_fuse_responses.remove(&stream_id) {
                    Some(FuseResponse::Error("RDP not connected".to_owned()))
                } else {
                    assert(self@.fuse_pending =~= old(self)@.fuse_pending.remove(stream_id));
                    None
                }
            },
        }
    }

    /// Answers the read of a virtual file that waits for stream `stream_id`, if
    /// one does.
    pub fn deliver_fuse_response(&mut self, stream_id: u32, data: Vec<u8>, is_error: bool) -> (r:
        Option<FuseResponse>)
        ensures
            final(self)@ == (OrchestratorView {
                fuse_pending: old(self)@.fuse_pending.remove(stream_id),
                ..old(self)@
            }),
            if !old(self)@.fuse_pending.contains(stream_id) {
                r is None
            } else if is_error {
                r matches Some(FuseResponse::Error(m)) && m@ == "RDP error"@
            } else {
                r matches Some(FuseResponse::Data(d)) && d@ == data@
            },
    {
        if self.pending_fuse_responses.remove(&stream_id) {
            if is_error {
                Some(FuseResponse::Error("RDP error".to_owned()))
            } else {
                Some(FuseResponse::Data(data))
            }
        } else {
            assert(self@.fuse_pending =~= old(self)@.fuse_pending.remove(stream_id));
            None
        }
    }

    /// Counts the failures in a row, and returns what to report. An invalid
    /// session is reported at once, other failures from the third on; the first
    /// success after a reported failure is reported too.
    pub fn event_handled(&mut self, error: Option<String>, has_reporter: bool) -> (r: Option<
        ClipboardHealth,
    >)
        requires
            error is Some ==> old(self)@.consecutive_errors < u32::MAX,
        ensures
            health_reported(old(self)@, final(self)@, opt_view(error), has_reporter, r),
    {
        match error {
            Some(e) => {
                self.consecutive_errors = self.consecutive_errors + 1;
                let invalid = contains(e.as_str(), "session invalid") || contains(
                    e.as_str(),
                    "Session invalid",
                );
                if (invalid || self.consecutive_errors >= ERROR_THRESHOLD) && has_reporter {
                    let mut reason = decimal_text(self.consecutive_errors as u64);
                    reason.append(" consecutive errors: ");
                    reason.append(e.as_str());
                    Some(ClipboardHealth::Failed { reason })
                } else {
                    None
                }
            },
            None => {
                let recovered = self.consecutive_errors >= ERROR_THRESHOLD && has_reporter;
                self.consecutive_errors = 0;
                if recovered {
                    Some(ClipboardHealth::Recovered)
                } else {
                    None
                }
            },
        }
    }
}

/// The request is answered from the clipboard of the compositor.
pub open spec fn self_serves(v: OrchestratorView, format_id: u32, r: ClipboardAction) -> bool {
    if wants_file_list(v, format_id) {
        r is ListFiles
    } else {
        r matches ClipboardAction::ReadFormat { format_id: id } && id == format_id
    }
}

/// Where the data of stream `stream_id` is received.
pub open spec fn temp_path_of(v: OrchestratorView, stream_id: u32) -> Option<Seq<char>> {
    if v.transfer.incoming.contains_key(stream_id) {
        Some(v.transfer.incoming[stream_id].temp_path)
    } else {
        None
    }
}

/// The state after the file of stream `stream_id` was given up.
pub open spec fn abandoned(v: OrchestratorView, stream_id: u32) -> OrchestratorView {
    OrchestratorView {
        transfer: TransferView {
            incoming: v.transfer.incoming.remove(stream_id),
            portal_serial: None,
            ..v.transfer
        },
        ..v
    }
}

/// `r` answers the request of the remote client for a file.
pub open spec fn file_request_answered(
    v: OrchestratorView,
    stream_id: u32,
    list_index: u32,
    position: u64,
    size: u32,
    is_size_request: bool,
    has_sender: bool,
    r: ClipboardAction,
) -> bool {
    if !has_sender {
        r matches ClipboardAction::Fail(e) && e is NotInitialized
    } else if list_index >= v.transfer.outgoing.len() {
        r matches ClipboardAction::Fail(ExchangeError::InvalidState(m)) && m@ == "File index "@
            + decimal(list_index as nat) + " not found"@
    } else if is_size_request {
        r matches ClipboardAction::Send(RdpMessage::FileSize { stream_id: id, size: s }) && id
            == stream_id && s == v.transfer.outgoing[list_index as int].size
    } else {
        r matches ClipboardAction::ReadChunk { stream_id: id, path, position: p, size: s } && id
            == stream_id && path@ == v.transfer.outgoing[list_index as int].path && p == position
            && s == size
    }
}

/// `r` is what the clipboard event asks for. `v` is the state before, `n` after.
pub open spec fn event_answered(
    v: OrchestratorView,
    n: OrchestratorView,
    event: ClipboardEvent,
    has_sender: bool,
    r: ClipboardAction,
) -> bool {
    match event {
        ClipboardEvent::RdpReady => n == v && (if v.advertised.len() == 0 {
            r is Done
        } else {
            r matches ClipboardAction::Send(RdpMessage::InitiateCopy(f)) && format_views(f@)
                == v.advertised
        }),
        ClipboardEvent::RdpFormatList(formats) => n == (OrchestratorView {
            rdp_formats: format_views(formats@),
            ..v
        }) && r is SyncRdpFormats,
        ClipboardEvent::RdpDataRequest(format_id) => n == v && (
        if cache_serves(v, format_id) {
            r matches ClipboardAction::ServeCached { format_id: id, data } && id == format_id
                && data@ == cached_reply(v, format_id)
        } else {
            self_serves(v, format_id, r)
        }),
        ClipboardEvent::RdpDataResponse(data) => {
            &&& n == v
            &&& r matches ClipboardAction::CheckContent(d) && d@ == data@
        },
        ClipboardEvent::RdpDataError => {
            &&& n == (OrchestratorView { pending: Seq::empty(), ..v })
            &&& r matches ClipboardAction::Cancel(all) && pending_views(all@) == v.pending
        },
        ClipboardEvent::RdpFileContentsRequest {
            stream_id,
            list_index,
            position,
            size,
            is_size_request,
        } => n == v && file_request_answered(
            v,
            stream_id,
            list_index,
            position,
            size,
            is_size_request,
            has_sender,
            r,
        ),
        ClipboardEvent::RdpFileContentsResponse { stream_id, data, is_error } => if is_error {
            &&& n == abandoned(v, stream_id)
            &&& r matches ClipboardAction::Abandon { partial_file, serial } && opt_view(
                partial_file,
            ) == temp_path_of(v, stream_id) && serial == v.transfer.portal_serial
        } else {
            &&& n == v
            &&& match temp_path_of(v, stream_id) {
                Some(p) => r matches ClipboardAction::StoreChunk {
                    stream_id: id,
                    temp_path,
                    data: d,
                } && id == stream_id && temp_path@ == p && d@ == data@,
                None => r is Done,
            }
        },
        ClipboardEvent::PortalFormatsAvailable(mime_types, force) => {
            &&& n == v
            &&& r matches ClipboardAction::SyncPortalFormats { mime_types: m, force: f }
                && m@ == mime_types@ && f == force
        },
        ClipboardEvent::PortalDataRequest(mime_type) => {
            &&& n == v
            &&& r matches ClipboardAction::RequestFormat { mime_type: m } && m@
                == mime_type@
        },
        ClipboardEvent::PortalDataResponse(_) => n == v && r is Done,
    }
}

/// `r` is what follows when the provider took or refused an announcement. `v` is the
/// state before, `n` after.
pub open spec fn announcement_followed(
    v: OrchestratorView,
    n: OrchestratorView,
    mimes: Seq<Seq<char>>,
    announced: Result<(), String>,
    requires_upfront_data: bool,
    r: Result<Option<RdpMessage>, ExchangeError>,
) -> bool {
    match announced {
        Err(e) => {
            &&& n == v
            &&& r matches Err(ExchangeError::PortalError(m)) && m@
                == "Provider announce_formats failed: "@ + e@
        },
        Ok(()) => if fetches_eagerly(v, mimes, requires_upfront_data) {
            &&& n == (OrchestratorView {
                pending: v.pending.push((EAGER_FETCH_SERIAL, "text/plain"@)),
                ..v
            })
            &&& r matches Ok(Some(RdpMessage::InitiatePaste(id))) && id == CF_UNICODETEXT
        } else {
            n == v && r matches Ok(None)
        },
    }
}

/// `r` answers the request of the remote client for data in a format. `mime` is the
/// MIME type of the format, if it has one, and `data` what the provider gave for it.
pub open spec fn request_replied(
    format_id: u32,
    mime: Option<Seq<char>>,
    data: Option<Seq<u8>>,
    r: Result<RdpMessage, ExchangeError>,
) -> bool {
    match (mime, data) {
        (Some(m), Some(d)) => match rdp_data(format_id, m, d) {
            Some(b) => r matches Ok(RdpMessage::FormatData(v)) && v@ == b,
            None => r matches Err(e) && e is Core,
        },
        _ => r matches Ok(RdpMessage::FormatDataError),
    }
}

/// `r` asks the remote client for data of the MIME type `mime`. `name_mimes` holds what
/// the name of each of its formats stands for.
pub open spec fn paste_requested(
    formats: Seq<FormatView>,
    name_mimes: Seq<Option<Seq<char>>>,
    mime: Seq<char>,
    fallback: Result<u32, ExchangeError>,
    r: Result<RdpMessage, ExchangeError>,
) -> bool {
    match format_for(formats, name_mimes, mime) {
        Some(id) => r matches Ok(RdpMessage::InitiatePaste(i)) && i == id,
        None => match fallback {
            Ok(id) => r matches Ok(RdpMessage::InitiatePaste(i)) && i == id,
            Err(e) => r matches Err(f) && f == e,
        },
    }
}

/// `r` is what an announcement of the compositor leads to at `now`. `v` is the state
/// before, `n` after.
pub open spec fn announcement_treated(
    v: OrchestratorView,
    n: OrchestratorView,
    decision: PortalSyncDecision,
    now: u128,
    r: PortalFormatsStep,
) -> bool {
    match decision {
        PortalSyncDecision::Allow => n == v && r is Convert,
        PortalSyncDecision::Block => n == v && r is Skip,
        PortalSyncDecision::KlipperReannounce => {
            let key = sorted_ids(v.rdp_formats);
            let count = count_for(v.counts, key);
            if too_soon(v.last_reannounce, now) || count >= MAX_REANNOUNCEMENTS {
                n == v && r is Skip
            } else {
                &&& n == (OrchestratorView {
                    counts: counted(v.counts, key),
                    ..v
                })
                &&& if v.rdp_formats.len() == 0 {
                    r is Skip
                } else {
                    r matches PortalFormatsStep::Reannounce(f) && format_views(f@) == v.rdp_formats
                }
            }
        },
    }
}

/// `r` is what is reported after an event failed or succeeded. `v` is the state before,
/// `n` after.
pub open spec fn health_reported(
    v: OrchestratorView,
    n: OrchestratorView,
    error: Option<Seq<char>>,
    has_reporter: bool,
    r: Option<ClipboardHealth>,
) -> bool {
    match error {
        Some(e) => {
            let count = v.consecutive_errors + 1;
            &&& n == (OrchestratorView {
                consecutive_errors: count as u32,
                ..v
            })
            &&& if has_reporter && (says_session_invalid(e) || count >= ERROR_THRESHOLD) {
                r matches Some(ClipboardHealth::Failed { reason }) && reason@ == decimal(
                    count as nat,
                ) + " consecutive errors: "@ + e
            } else {
                r is None
            }
        },
        None => {
            &&& n == (OrchestratorView { consecutive_errors: 0, ..v })
            &&& if has_reporter && v.consecutive_errors >= ERROR_THRESHOLD {
                r matches Some(ClipboardHealth::Recovered)
            } else {
                r is None
            }
        },
    }
}

} // verus!
