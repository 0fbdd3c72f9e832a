//! How a session is set up.
//!
//! Setting up takes many calls of the desktop: for its capabilities, a session, its
//! streams. What is asked next and what is made of the answers is decided here.

use vstd::prelude::*;
use crate::compositor::CompositorType;
use crate::config::types::{uses_libei, Single};
use crate::config::{Config, CursorMode};
use crate::text::{decimal, decimal_text, joined, same_text};
use crate::unicode::{lowercase, to_lower};

verus! {

#[verifier::external_type_specification]
#[verifier::external_body]
pub struct ExBitmapCodecs(ironrdp_pdu::rdp::capability_sets::BitmapCodecs);

/// Which of the desktop's interfaces a session goes through.
#[derive(Clone, Copy, Debug, PartialEq, Eq, Structural)]
pub enum SessionType {
    /// The remote desktop portal.
    Portal,
    /// GNOME's own interface.
    Mutter,
    /// Input through libei.
    Libei,
    /// Input through the virtual input protocols.
    WlrDirect,
    /// The embedded portal backend.
    PortalGeneric,
    /// Pictures alone.
    ScreenCastOnly,
}

/// Why a session could not be set up.
#[derive(Clone, Debug)]
pub enum SetupError {
    Probe(String),
    OpenTokens(String),
    LoadToken(String),
    SelectStrategy(String),
    /// The strategy failed, and there is nothing to fall back to.
    NoFallback(String),
    FallbackFailed(String),
    NoStreams,
    Codecs(String),
    InvalidListenAddress,
}

impl SetupError {
    /// The words that tell a user what is wrong.
    pub open spec fn text(&self) -> Seq<char> {
        match self {
            SetupError::Probe(e) => "Failed to probe compositor capabilities: "@ + e@,
            SetupError::OpenTokens(e) => "Failed to create Tokens: "@ + e@,
            SetupError::LoadToken(e) => "Failed to load restore token: "@ + e@,
            SetupError::SelectStrategy(e) => "Failed to select session strategy: "@ + e@,
            SetupError::NoFallback(e) =>
                "Primary strategy failed and ScreenCast-only unavailable: "@ + e@,
            SetupError::FallbackFailed(e) => "ScreenCast-only fallback also failed: "@ + e@,
            SetupError::NoStreams => "No streams from ScreenCast for input-only video"@,
            SetupError::Codecs(e) => "Failed to create codec capabilities: "@ + e@,
            SetupError::InvalidListenAddress => "Invalid listen address"@,
        }
    }

    /// The words that tell a user what is wrong.
    pub fn message(&self) -> (r: String)
        ensures
            r@ == self.text(),
    {
        match self {
            SetupError::Probe(e) => joined(
                "Failed to probe compositor capabilities: ",
                e.as_str(),
            ),
            SetupError::OpenTokens(e) => joined("Failed to create Tokens: ", e.as_str()),
            SetupError::LoadToken(e) => joined("Failed to load restore token: ", e.as_str()),
            SetupError::SelectStrategy(e) => joined(
                "Failed to select session strategy: ",
                e.as_str(),
            ),
            SetupError::NoFallback(e) => joined(
                "Primary strategy failed and ScreenCast-only unavailable: ",
                e.as_str(),
            ),
            SetupError::FallbackFailed(e) => joined(
                "ScreenCast-only fallback also failed: ",
                e.as_str(),
            ),
            SetupError::NoStreams => "No streams from ScreenCast for input-only video".to_owned(),
            SetupError::Codecs(e) => joined("Failed to create codec capabilities: ", e.as_str()),
            SetupError::InvalidListenAddress => "Invalid listen address".to_owned(),
        }
    }
}

/// Which strategy opens the session.
#[derive(Clone, Copy, Debug, PartialEq, Eq, Structural)]
pub enum StrategyChoice {
    /// Pictures alone, since the user wants no more.
    ScreenCastOnly,
    /// The best that the desktop offers.
    Select {
        /// Whether input goes through libei.
        prefers_libei: bool,
    },
}

/// Which strategy opens the session.
pub open spec fn strategy_for(c: &Config, compositor: &CompositorType) -> StrategyChoice {
    if c.server.view_only {
        StrategyChoice::ScreenCastOnly
    } else {
        StrategyChoice::Select { prefers_libei: uses_libei(&c.input, compositor) }
    }
}

/// Decides which strategy opens the session.
pub fn choose_strategy(config: &Config, compositor: &CompositorType) -> (r: StrategyChoice)
    ensures
        r == strategy_for(config, compositor),
{
    if config.server.view_only {
        StrategyChoice::ScreenCastOnly
    } else {
        StrategyChoice::Select { prefers_libei: config.input.resolve_for_compositor(compositor) }
    }
}

/// What follows when a strategy could not open a session.
#[derive(Clone, Debug)]
pub enum FailedSession {
    /// Try pictures alone.
    TryScreenCast,
    GiveUp(SetupError),
}

/// Decides what follows when the chosen strategy could not open a session.
pub fn session_failed(error: &str, screencast_available: bool) -> (r: FailedSession)
    ensures
        match r {
            FailedSession::TryScreenCast => screencast_available,
            FailedSession::GiveUp(e) => !screencast_available && e.text()
                == "Primary strategy failed and ScreenCast-only unavailable: "@ + error@,
        },
{
    if screencast_available {
        FailedSession::TryScreenCast
    } else {
        FailedSession::GiveUp(SetupError::NoFallback(error.to_owned()))
    }
}

/// Where a session's pictures come from.
#[derive(Clone, Copy, Debug, PartialEq, Eq, Structural)]
pub enum VideoRequest {
    /// A screen cast of its own.
    OwnScreenCast { cursor_mode: CursorMode },
    /// The session itself.
    FromSession,
}

/// Whether a session takes input alone.
pub open spec fn input_only(t: SessionType) -> bool {
    t == SessionType::WlrDirect || t == SessionType::Libei
}

/// The best cursor mode on offer: one with the cursor's data, else one with the
/// cursor drawn into the picture, else none.
pub open spec fn best_mode(available: Seq<CursorMode>) -> CursorMode {
    if available.contains(CursorMode::Metadata) {
        CursorMode::Metadata
    } else if available.contains(CursorMode::Embedded) {
        CursorMode::Embedded
    } else {
        CursorMode::Hidden
    }
}

fn offers_mode(available: &[CursorMode], wanted: CursorMode) -> (r: bool)
    ensures
        r == available@.contains(wanted),
{
    let mut i: usize = 0;
    while i < available.len()
        invariant
            i <= available@.len(),
            forall|k: int| 0 <= k < i ==> available@[k] != wanted,
        decreases available@.len() - i,
    {
        if available[i] == wanted {
            return true;
        }
        i += 1;
    }
    false
}

/// The best cursor mode on offer.
pub fn best_cursor_mode(available: &[CursorMode]) -> (r: CursorMode)
    ensures
        r == best_mode(available@),
{
    if offers_mode(available, CursorMode::Metadata) {
        CursorMode::Metadata
    } else if offers_mode(available, CursorMode::Embedded) {
        CursorMode::Embedded
    } else {
        CursorMode::Hidden
    }
}

/// Decides where a session's pictures come from: a session for input alone has
/// none.
pub fn video_request(session: SessionType, available: &[CursorMode]) -> (r: VideoRequest)
    ensures
        r == (if input_only(session) {
            VideoRequest::OwnScreenCast { cursor_mode: best_mode(available@) }
        } else {
            VideoRequest::FromSession
        }),
{
    match session {
        SessionType::WlrDirect | SessionType::Libei => VideoRequest::OwnScreenCast {
            cursor_mode: best_cursor_mode(available),
        },
        _ => VideoRequest::FromSession,
    }
}

/// A stream as the screen cast portal describes it.
#[derive(Clone, Copy, Debug, PartialEq, Eq)]
pub struct PortalStream {
    pub node_id: u32,
    pub size: Option<(i32, i32)>,
    pub position: Option<(i32, i32)>,
}

/// A stream of pictures of one monitor.
#[derive(Clone, Copy, Debug, PartialEq, Eq)]
pub struct StreamInfo {
    pub node_id: u32,
    pub position: (i32, i32),
    pub size: (u32, u32),
}

/// The number whose lowest 32 bits are those of `n`.
pub open spec fn unsigned32(n: i32) -> u32 {
    if n >= 0 {
        n as u32
    } else {
        (n + 0x1_0000_0000) as u32
    }
}

fn to_unsigned32(n: i32) -> (r: u32)
    ensures
        r == unsigned32(n),
{
    let r = #[verifier::truncate] (n as u32);
    if n < 0 {
        assert(r == n + 0x1_0000_0000) by (bit_vector)
            requires
                n < 0,
                r == n as u32,
        ;
    }
    r
}

/// The lowest 16 bits of `n`.
pub open spec fn low16(n: u32) -> u16 {
    (n % 0x1_0000) as u16
}

fn to_low16(n: u32) -> (r: u16)
    ensures
        r == low16(n),
{
    (n % 0x1_0000) as u16
}

/// What is known of a stream; a size or position that the portal leaves out is 0.
pub open spec fn stream_of(s: PortalStream) -> StreamInfo {
    StreamInfo {
        node_id: s.node_id,
        position: match s.position {
            Some(p) => p,
            None => (0, 0),
        },
        size: match s.size {
            Some((w, h)) => (unsigned32(w), unsigned32(h)),
            None => (0, 0),
        },
    }
}

/// The streams of a screen cast.
pub fn screencast_streams(portal: &[PortalStream]) -> (r: Result<Vec<StreamInfo>, SetupError>)
    ensures
        match r {
            Ok(streams) => portal@.len() > 0 && streams@ == portal@.map_values(
                |s: PortalStream| stream_of(s),
            ),
            Err(e) => portal@.len() == 0 && e is NoStreams,
        },
{
    if portal.len() == 0 {
        return Err(SetupError::NoStreams);
    }
    let mut streams: Vec<StreamInfo> = Vec::new();
    let mut i: usize = 0;
    while i < portal.len()
        invariant
            i <= portal@.len(),
            streams@.len() == i,
            forall|k: int| 0 <= k < i ==> #[trigger] streams@[k] == stream_of(portal@[k]),
        decreases portal@.len() - i,
    {
        let s = portal[i];
        let position = match s.position {
            Some(p) => p,
            None => (0, 0),
        };
        let size = match s.size {
            Some((w, h)) => (to_unsigned32(w), to_unsigned32(h)),
            None => (0, 0),
        };
        streams.push(StreamInfo { node_id: s.node_id, position, size });
        i += 1;
    }
    assert(streams@ =~= portal@.map_values(|s: PortalStream| stream_of(s)));
    Ok(streams)
}

/// How a session hands out its pictures.
#[derive(Clone, Copy, Debug, PartialEq, Eq, Structural)]
pub enum PipeWireAccess {
    FileDescriptor(i32),
    /// A node of the desktop's own PipeWire daemon.
    NodeId(u32),
    /// Frames without PipeWire.
    DirectChannel,
}

/// How frames reach the display.
#[derive(Clone, Copy, Debug, PartialEq, Eq, Structural)]
pub enum FrameSource {
    /// Through this descriptor.
    Descriptor(i32),
    /// Through a connection to the PipeWire daemon, to be made.
    Daemon,
    /// Through a channel, without PipeWire.
    Direct,
}

/// How frames reach the display.
pub fn frame_source(access: PipeWireAccess) -> (r: FrameSource)
    ensures
        r == match access {
            PipeWireAccess::FileDescriptor(fd) => FrameSource::Descriptor(fd),
            PipeWireAccess::NodeId(_) => FrameSource::Daemon,
            PipeWireAccess::DirectChannel => FrameSource::Direct,
        },
{
    match access {
        PipeWireAccess::FileDescriptor(fd) => FrameSource::Descriptor(fd),
        PipeWireAccess::NodeId(_) => FrameSource::Daemon,
        PipeWireAccess::DirectChannel => FrameSource::Direct,
    }
}

/// Whether a session needs no remote desktop portal beside it.
pub open spec fn self_sufficient(t: SessionType) -> bool {
    t == SessionType::ScreenCastOnly || t == SessionType::WlrDirect || t
        == SessionType::PortalGeneric
}

/// Whether a session needs no remote desktop portal beside it.
pub fn is_self_sufficient(session: SessionType) -> (r: bool)
    ensures
        r == self_sufficient(session),
{
    match session {
        SessionType::ScreenCastOnly | SessionType::WlrDirect | SessionType::PortalGeneric => true,
        _ => false,
    }
}

/// How pictures are compressed.
#[derive(Clone, Copy, Debug, PartialEq, Eq, Structural)]
pub enum Compression {
    Never,
    Auto,
    Always,
}

/// The compression that a name in lower case stands for; any other text stands for
/// none.
pub open spec fn compression_named(name: Seq<char>) -> Compression {
    if name == "auto"@ {
        Compression::Auto
    } else if name == "always"@ {
        Compression::Always
    } else {
        Compression::Never
    }
}

/// The compression that a name in lower case stands for.
pub fn compression_from_lower(name: &str) -> (r: Compression)
    ensures
        r == compression_named(name@),
{
    if same_text(name, "auto") {
        Compression::Auto
    } else if same_text(name, "always") {
        Compression::Always
    } else {
        Compression::Never
    }
}

/// A monitor for the input handler.
#[derive(Clone, Debug)]
pub struct MonitorInfo {
    pub id: u32,
    pub name: String,
    pub x: i32,
    pub y: i32,
    pub width: u32,
    pub height: u32,
    pub dpi: Single,
    pub scale_factor: Single,
    pub stream_x: u32,
    pub stream_y: u32,
    pub stream_width: u32,
    pub stream_height: u32,
    pub is_primary: bool,
}

/// What a monitor is.
#[verifier::ext_equal]
pub struct MonitorView {
    pub id: u32,
    pub name: Seq<char>,
    pub x: i32,
    pub y: i32,
    pub width: u32,
    pub height: u32,
    pub dpi: Single,
    pub scale_factor: Single,
    pub stream_x: u32,
    pub stream_y: u32,
    pub stream_width: u32,
    pub stream_height: u32,
    pub is_primary: bool,
}

impl View for MonitorInfo {
    type V = MonitorView;

    open spec fn view(&self) -> MonitorView {
        MonitorView {
            id: self.id,
            name: self.name@,
            x: self.x,
            y: self.y,
            width: self.width,
            height: self.height,
            dpi: self.dpi,
            scale_factor: self.scale_factor,
            stream_x: self.stream_x,
            stream_y: self.stream_y,
            stream_width: self.stream_width,
            stream_height: self.stream_height,
            is_primary: self.is_primary,
        }
    }
}

/// The monitor of the stream at `i`: 96 dots per inch, scale 1, and the first one is
/// the primary one.
pub open spec fn monitor_of(i: int, s: StreamInfo) -> MonitorView {
    MonitorView {
        id: (i % 0x1_0000_0000) as u32,
        name: "Monitor "@ + decimal(i as nat),
        x: s.position.0,
        y: s.position.1,
        width: s.size.0,
        height: s.size.1,
        dpi: Single { bits: 0x42C0_0000 },
        scale_factor: Single { bits: 0x3F80_0000 },
        stream_x: unsigned32(s.position.0),
        stream_y: unsigned32(s.position.1),
        stream_width: s.size.0,
        stream_height: s.size.1,
        is_primary: i == 0,
    }
}

/// What monitors are.
pub open spec fn monitor_views(m: Seq<MonitorInfo>) -> Seq<MonitorView> {
    m.map_values(|x: MonitorInfo| x@)
}

/// The monitors of a session, one for each stream.
pub open spec fn monitors_of(streams: Seq<StreamInfo>) -> Seq<MonitorView> {
    Seq::new(streams.len(), |i: int| monitor_of(i, streams[i]))
}

/// The monitors of a session.
pub fn monitors(streams: &[StreamInfo]) -> (r: Vec<MonitorInfo>)
    ensures
        monitor_views(r@) == monitors_of(streams@),
{
    let mut r: Vec<MonitorInfo> = Vec::new();
    let mut i: usize = 0;
    while i < streams.len()
        invariant
            i <= streams@.len(),
            r@.len() == i,
            forall|k: int| 0 <= k < i ==> (#[trigger] r@[k])@ == monitor_of(k, streams@[k]),
        decreases streams@.len() - i,
    {
        let s = streams[i];
        let id: u32 = (i as u64 % 0x1_0000_0000) as u32;
        let m = MonitorInfo {
            id,
            name: joined("Monitor ", decimal_text(i as u64).as_str()),
            x: s.position.0,
            y: s.position.1,
            width: s.size.0,
            height: s.size.1,
            dpi: Single { bits: 0x42C0_0000 },
            scale_factor: Single { bits: 0x3F80_0000 },
            stream_x: to_unsigned32(s.position.0),
            stream_y: to_unsigned32(s.position.1),
            stream_width: s.size.0,
            stream_height: s.size.1,
            is_primary: i == 0,
        };
        assert(m@ =~= monitor_of(i as int, s));
        r.push(m);
        i += 1;
    }
    assert(monitor_views(r@) =~= monitors_of(streams@));
    r
}

/// How pictures and sound are made from a session's streams.
#[derive(Clone, Copy, Debug, PartialEq, Eq, Structural)]
pub struct MediaPlan {
    /// Size of the desktop at first.
    pub width: u16,
    pub height: u16,
    /// Whether the costlier of the two codecs is left out.
    pub force_avc420_only: bool,
    pub max_frames_in_flight: u32,
    pub compression: Compression,
    /// Node of the first stream, 0 without one.
    pub primary_stream_id: u32,
    /// Node to capture sound from.
    pub audio_node_id: Option<u32>,
}

/// How pictures and sound are made: the first stream gives size and nodes, and
/// without one the size is 1920 by 1080.
pub open spec fn media_of(
    c: &Config,
    streams: Seq<StreamInfo>,
    force_avc420_only: bool,
) -> MediaPlan {
    let primary = if streams.len() > 0 {
        streams[0].node_id
    } else {
        0
    };
    MediaPlan {
        width: if streams.len() > 0 {
            low16(streams[0].size.0)
        } else {
            1920
        },
        height: if streams.len() > 0 {
            low16(streams[0].size.1)
        } else {
            1080
        },
        force_avc420_only,
        max_frames_in_flight: c.egfx.max_frames_in_flight,
        compression: compression_named(lowercase(c.egfx.zgfx_compression@)),
        primary_stream_id: primary,
        audio_node_id: if primary > 0 {
            Some(primary)
        } else {
            None
        },
    }
}

/// Decides how pictures and sound are made from a session's streams.
pub fn plan_media(config: &Config, streams: &[StreamInfo], force_avc420_only: bool) -> (r: MediaPlan)
    ensures
        r == media_of(config, streams@, force_avc420_only),
{
    let name = to_lower(config.egfx.zgfx_compression.as_str());
    let compression = compression_from_lower(name.as_str());
    let mut width: u16 = 1920;
    let mut height: u16 = 1080;
    let mut primary: u32 = 0;
    if streams.len() > 0 {
        width = to_low16(streams[0].size.0);
        height = to_low16(streams[0].size.1);
        primary = streams[0].node_id;
    }
    MediaPlan {
        width,
        height,
        force_avc420_only,
        max_frames_in_flight: config.egfx.max_frames_in_flight,
        compression,
        primary_stream_id: primary,
        audio_node_id: if primary > 0 {
            Some(primary)
        } else {
            None
        },
    }
}

/// A way to compress pictures that the server announces.
#[derive(Clone, Copy, Debug, PartialEq, Eq, Structural)]
pub enum CodecKind {
    /// RemoteFX for a stream of pictures.
    RemoteFx,
    /// RemoteFX for single pictures.
    ImageRemoteFx,
    Other,
}

/// The codecs in a list, in order.
pub uninterp spec fn codecs_held(
    list: ironrdp_pdu::rdp::capability_sets::BitmapCodecs,
) -> Seq<CodecKind>;

/// `ironrdp_pdu::rdp::capability_sets::server_codecs_capabilities` for one setting: by
/// `remotefx` both forms of RemoteFX are announced, and no other codec is built in.
/// Nothing is claimed of other settings.
#[verifier::external_body]
fn server_codecs(setting: &str) -> (r: Result<
    ironrdp_pdu::rdp::capability_sets::BitmapCodecs,
    String,
>)
    ensures
        setting@ == "remotefx"@ ==> r is Ok,
        setting@ == "remotefx"@ ==> codecs_held(r->Ok_0) == seq![
            CodecKind::RemoteFx,
            CodecKind::ImageRemoteFx,
        ],
{
    ironrdp_pdu::rdp::capability_sets::server_codecs_capabilities(&[setting])
}

/// The codecs that the server announces: RemoteFX in both its forms.
pub fn bitmap_codecs() -> (r: Result<ironrdp_pdu::rdp::capability_sets::BitmapCodecs, SetupError>)
    ensures
        r matches Ok(list) && codecs_held(list) == seq![
            CodecKind::RemoteFx,
            CodecKind::ImageRemoteFx,
        ],
{
    match server_codecs("remotefx") {
        Ok(codecs) => Ok(codecs),
        Err(e) => Err(SetupError::Codecs(e)),
    }
}

/// How connections are secured.
#[derive(Clone, Copy, Debug, PartialEq, Eq, Structural)]
pub enum ConnectionSecurity {
    /// Network-level authentication inside TLS.
    Hybrid,
    Tls,
}

/// Decides how connections are secured: network-level authentication needs the
/// public key of the certificate.
pub fn connection_security(security_mode: &str, has_public_key: bool) -> (r: ConnectionSecurity)
    ensures
        r == (if security_mode@ == "hybrid"@ && has_public_key {
            ConnectionSecurity::Hybrid
        } else {
            ConnectionSecurity::Tls
        }),
{
    if same_text(security_mode, "hybrid") && has_public_key {
        ConnectionSecurity::Hybrid
    } else {
        ConnectionSecurity::Tls
    }
}

/// The name of a kind of session, for the log.
pub fn mode_name(session: SessionType) -> (r: String)
    ensures
        r@ == match session {
            SessionType::PortalGeneric => "portal-generic"@,
            SessionType::WlrDirect => "wlr-direct"@,
            SessionType::ScreenCastOnly => "view-only"@,
            _ => "portal"@,
        },
{
    match session {
        SessionType::PortalGeneric => "portal-generic".to_owned(),
        SessionType::WlrDirect => "wlr-direct".to_owned(),
        SessionType::ScreenCastOnly => "view-only".to_owned(),
        _ => "portal".to_owned(),
    }
}

/// Whether the client's input is taken: not where pictures alone are shown.
pub fn takes_input(session: SessionType) -> (r: bool)
    ensures
        r == (session != SessionType::ScreenCastOnly),
{
    match session {
        SessionType::ScreenCastOnly => false,
        _ => true,
    }
}

/// Each stream has a monitor, and exactly the first of them is the primary one.
pub proof fn one_monitor_is_primary(streams: Seq<StreamInfo>, i: int)
    requires
        0 <= i < streams.len(),
    ensures
        monitors_of(streams).len() == streams.len(),
        monitors_of(streams)[i].is_primary <==> i == 0,
{
}

/// The cursor mode that is asked for is one that is on offer, if any but the hidden
/// one is.
pub proof fn cursor_mode_is_on_offer(available: Seq<CursorMode>)
    requires
        available.contains(CursorMode::Metadata) || available.contains(CursorMode::Embedded),
    ensures
        available.contains(best_mode(available)),
{
}

/// Who asks for pictures alone gets a session that takes no choice of the desktop.
pub proof fn view_only_wins(c: &Config, a: &CompositorType, b: &CompositorType)
    requires
        c.server.view_only,
    ensures
        strategy_for(c, a) == strategy_for(c, b),
        strategy_for(c, a) == StrategyChoice::ScreenCastOnly,
{
}

/// The desktop's size, its input and its sound come from the monitor that is marked as
/// the primary one, and further monitors change nothing of that.
pub proof fn plan_follows_the_primary_monitor(
    c: &Config,
    streams: Seq<StreamInfo>,
    more: Seq<StreamInfo>,
    force_avc420_only: bool,
    i: int,
)
    requires
        0 <= i < streams.len(),
        monitors_of(streams)[i].is_primary,
    ensures
        ({
            let p = media_of(c, streams, force_avc420_only);
            &&& i == 0
            &&& p.primary_stream_id == streams[i].node_id
            &&& p.width == streams[0].size.0 % 0x1_0000
            &&& p.height == streams[0].size.1 % 0x1_0000
            &&& p.width == monitors_of(streams)[i].width % 0x1_0000
            &&& p.height == monitors_of(streams)[i].height % 0x1_0000
            &&& p.audio_node_id == (if streams[0].node_id == 0 {
                None
            } else {
                Some(streams[0].node_id)
            })
            &&& media_of(c, streams + more, force_avc420_only) == p
        }),
{
    assert((streams + more)[0] == streams[0]);
}

/// Without a stream the desktop has the usual size and nothing is captured.
pub proof fn usual_size_without_streams(c: &Config, force_avc420_only: bool)
    ensures
        ({
            let p = media_of(c, Seq::empty(), force_avc420_only);
            p.width == 1920 && p.height == 1080 && p.primary_stream_id == 0 && p.audio_node_id is None
        }),
{
}

/// Codec, frames on the way and compression follow the settings, whatever the streams.
pub proof fn plan_follows_the_settings(
    c: &Config,
    streams: Seq<StreamInfo>,
    force_avc420_only: bool,
)
    ensures
        ({
            let p = media_of(c, streams, force_avc420_only);
            let name = lowercase(c.egfx.zgfx_compression@);
            &&& p.force_avc420_only == force_avc420_only
            &&& p.max_frames_in_flight == c.egfx.max_frames_in_flight
            &&& p.compression == Compression::Auto <==> name == "auto"@
            &&& p.compression == Compression::Always <==> name == "always"@
            &&& p.compression == Compression::Never <==> name != "auto"@ && name != "always"@
        }),
{
    reveal_strlit("auto");
    reveal_strlit("always");
    assert("auto"@.len() != "always"@.len());
}

/// Each monitor lies where its stream lies and has its size, and monitors are numbered
/// and named in the order of the streams.
pub proof fn monitors_lie_where_their_streams_do(streams: Seq<StreamInfo>, i: int)
    requires
        0 <= i < streams.len() <= 0x1_0000_0000,
    ensures
        ({
            let m = monitors_of(streams)[i];
            &&& m.id == i
            &&& m.name == "Monitor "@ + decimal(i as nat)
            &&& (m.x, m.y) == streams[i].position
            &&& (m.width, m.height) == streams[i].size
            &&& (m.stream_width, m.stream_height) == streams[i].size
            &&& (m.stream_x - m.x) % 0x1_0000_0000 == 0
            &&& (m.stream_y - m.y) % 0x1_0000_0000 == 0
            &&& m.x >= 0 ==> m.stream_x == m.x
            &&& m.y >= 0 ==> m.stream_y == m.y
        }),
{
}

/// A stream of the portal keeps its node, its position and its size; what the portal
/// leaves out is zero.
pub proof fn streams_keep_what_the_portal_says(s: PortalStream)
    ensures
        stream_of(s).node_id == s.node_id,
        s.position matches Some(p) ==> stream_of(s).position == p,
        s.position is None ==> stream_of(s).position == (0i32, 0i32),
        s.size matches Some((w, h)) ==> w >= 0 && h >= 0 ==> stream_of(s).size.0 == w && stream_of(
            s,
        ).size.1 == h,
        s.size matches Some((w, h)) ==> (stream_of(s).size.0 - w) % 0x1_0000_0000 == 0 && (stream_of(
            s,
        ).size.1 - h) % 0x1_0000_0000 == 0,
        s.size is None ==> stream_of(s).size == (0u32, 0u32),
{
}

/// The cursor's data are asked for wherever they are on offer, a drawn cursor where
/// only that is, and none where neither is.
pub proof fn best_cursor_is_asked_for(available: Seq<CursorMode>)
    ensures
        available.contains(CursorMode::Metadata) <==> best_mode(available) == CursorMode::Metadata,
        best_mode(available) == CursorMode::Embedded <==> available.contains(CursorMode::Embedded)
            && !available.contains(CursorMode::Metadata),
        best_mode(available) == CursorMode::Hidden <==> !available.contains(CursorMode::Embedded)
            && !available.contains(CursorMode::Metadata),
{
}

/// Who wants more than pictures gets a session that takes input as the settings ask:
/// through libei where that is named, not where the virtual input protocols are, and
/// else by the desktop.
pub proof fn input_goes_as_the_settings_ask(c: &Config, compositor: &CompositorType)
    requires
        !c.server.view_only,
    ensures
        strategy_for(c, compositor) matches StrategyChoice::Select { prefers_libei } && {
            &&& c.input.input_protocol@ == "libei"@ ==> prefers_libei
            &&& c.input.input_protocol@ == "wlr"@ ==> !prefers_libei
            &&& c.input.input_protocol@ == "auto"@ && c.input.use_libei == Some(true)
                ==> prefers_libei
            &&& c.input.input_protocol@ == "auto"@ && c.input.use_libei == Some(false)
                ==> !prefers_libei
            &&& c.input.input_protocol@ == "auto"@ && c.input.use_libei is None ==> (prefers_libei
                <==> compositor is Gnome || compositor is Kde)
        },
{
    reveal_strlit("libei");
    reveal_strlit("wlr");
    reveal_strlit("auto");
    assert("libei"@.len() == 5 && "wlr"@.len() == 3 && "auto"@.len() == 4);
}

/// Exactly the sessions for input alone have a screen cast of their own, and exactly
/// those beside a portal need one.
pub proof fn sessions_are_told_apart(t: SessionType)
    ensures
        input_only(t) <==> match t {
            SessionType::Libei | SessionType::WlrDirect => true,
            SessionType::Portal | SessionType::Mutter | SessionType::PortalGeneric => false,
            SessionType::ScreenCastOnly => false,
        },
        self_sufficient(t) <==> match t {
            SessionType::ScreenCastOnly | SessionType::WlrDirect => true,
            SessionType::PortalGeneric => true,
            SessionType::Portal | SessionType::Mutter | SessionType::Libei => false,
        },
{
}

/// Sizes of 16 bits are kept, and larger ones lose what lies beyond.
pub proof fn sizes_of_sixteen_bits_are_kept(n: u32)
    ensures
        n <= 0xffff ==> low16(n) == n,
        n > 0xffff ==> low16(n) == low16((n - 0x1_0000) as u32),
{
}

} // verus!
