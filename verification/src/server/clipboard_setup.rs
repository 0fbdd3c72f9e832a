//! Which clipboard a session gets, and through what.

use vstd::prelude::*;
use crate::clipboard::manager::{default_settings, ClipboardOrchestratorConfig};
use crate::config::types::ClipboardConfig;
use crate::security::session_token::{is_random_id, random_id};
use crate::server::setup::{self_sufficient, SessionType};
use crate::text::{contains, joined, occurs_in};

verus! {

/// Whether one of `patterns` occurs in one of the allowed types; no type given
/// allows all.
pub open spec fn allows(allowed: Seq<String>, patterns: Seq<Seq<char>>) -> bool {
    allowed.len() == 0 || exists|i: int, j: int|
        0 <= i < allowed.len() && 0 <= j < patterns.len() && #[trigger] occurs_in(
            allowed[i]@,
            patterns[j],
        )
}

fn allows_one(allowed: &[String], pattern: &str) -> (r: bool)
    ensures
        r <==> exists|i: int| 0 <= i < allowed@.len() && #[trigger] occurs_in(allowed@[i]@, pattern@),
{
    let mut i: usize = 0;
    while i < allowed.len()
        invariant
            i <= allowed@.len(),
            forall|k: int| 0 <= k < i ==> !#[trigger] occurs_in(allowed@[k]@, pattern@),
        decreases allowed@.len() - i,
    {
        if contains(allowed[i].as_str(), pattern) {
            return true;
        }
        i += 1;
    }
    false
}

/// The settings of the clipboard that the user's settings ask for.
pub open spec fn settings_for(c: &ClipboardConfig) -> ClipboardOrchestratorConfig {
    ClipboardOrchestratorConfig {
        max_data_size: c.max_size,
        enable_images: allows(c.allowed_types@, seq!["image/"@]),
        enable_files: allows(c.allowed_types@, seq!["uri-list"@, "file"@, "x-special"@]),
        enable_html: allows(c.allowed_types@, seq!["text/html"@]),
        enable_rtf: allows(c.allowed_types@, seq!["rtf"@]),
        rate_limit_ms: c.rate_limit_ms,
        kde_syncselection_hint: c.kde_syncselection_hint,
        ..default_settings()
    }
}

/// The settings of the clipboard that the user's settings ask for.
pub fn orchestrator_settings(config: &ClipboardConfig) -> (r: ClipboardOrchestratorConfig)
    ensures
        r == settings_for(config),
{
    let allowed = config.allowed_types.as_slice();
    let all = allowed.len() == 0;
    let images = allows_one(allowed, "image/");
    let uris = allows_one(allowed, "uri-list");
    let files = allows_one(allowed, "file");
    let special = allows_one(allowed, "x-special");
    let html = allows_one(allowed, "text/html");
    let rtf = allows_one(allowed, "rtf");
    proof {
        let a = config.allowed_types@;
        lemma_allows_one(a, "image/"@);
        lemma_allows_one(a, "text/html"@);
        lemma_allows_one(a, "rtf"@);
        lemma_allows_three(a, "uri-list"@, "file"@, "x-special"@);
    }
    ClipboardOrchestratorConfig {
        max_data_size: config.max_size,
        enable_images: all || images,
        enable_files: all || uris || files || special,
        enable_html: all || html,
        enable_rtf: all || rtf,
        rate_limit_ms: config.rate_limit_ms,
        kde_syncselection_hint: config.kde_syncselection_hint,
        ..ClipboardOrchestratorConfig::default()
    }
}

proof fn lemma_allows_one(allowed: Seq<String>, p: Seq<char>)
    ensures
        allows(allowed, seq![p]) <==> allowed.len() == 0 || exists|i: int|
            0 <= i < allowed.len() && #[trigger] occurs_in(allowed[i]@, p),
{
    let ps = seq![p];
    if exists|i: int| 0 <= i < allowed.len() && #[trigger] occurs_in(allowed[i]@, p) {
        let i = choose|i: int| 0 <= i < allowed.len() && #[trigger] occurs_in(allowed[i]@, p);
        assert(occurs_in(allowed[i]@, ps[0]));
    }
}

proof fn lemma_allows_three(allowed: Seq<String>, p: Seq<char>, q: Seq<char>, s: Seq<char>)
    ensures
        allows(allowed, seq![p, q, s]) <==> {
            ||| allowed.len() == 0
            ||| exists|i: int| 0 <= i < allowed.len() && #[trigger] occurs_in(allowed[i]@, p)
            ||| exists|i: int| 0 <= i < allowed.len() && #[trigger] occurs_in(allowed[i]@, q)
            ||| exists|i: int| 0 <= i < allowed.len() && #[trigger] occurs_in(allowed[i]@, s)
        },
{
    let ps = seq![p, q, s];
    if exists|i: int| 0 <= i < allowed.len() && #[trigger] occurs_in(allowed[i]@, p) {
        let i = choose|i: int| 0 <= i < allowed.len() && #[trigger] occurs_in(allowed[i]@, p);
        assert(occurs_in(allowed[i]@, ps[0]));
    }
    if exists|i: int| 0 <= i < allowed.len() && #[trigger] occurs_in(allowed[i]@, q) {
        let i = choose|i: int| 0 <= i < allowed.len() && #[trigger] occurs_in(allowed[i]@, q);
        assert(occurs_in(allowed[i]@, ps[1]));
    }
    if exists|i: int| 0 <= i < allowed.len() && #[trigger] occurs_in(allowed[i]@, s) {
        let i = choose|i: int| 0 <= i < allowed.len() && #[trigger] occurs_in(allowed[i]@, s);
        assert(occurs_in(allowed[i]@, ps[2]));
    }
}

/// The clipboard that a session's strategy brings along.
#[derive(Clone, Copy, Debug, PartialEq, Eq, Structural)]
pub enum ClipboardSource {
    /// That of the portal session.
    Portal,
    /// That of GNOME's own interface.
    Mutter,
    /// That of the embedded portal backend.
    DataControl,
    /// None at all.
    Nothing,
}

/// What reads and sets the desktop's clipboard.
#[derive(Clone, Copy, Debug, PartialEq, Eq, Structural)]
pub enum Provider {
    Portal,
    /// The data-control protocol, through a connection of its own.
    WlClipboard,
    Mutter,
    /// The data-control protocol, through the embedded portal backend.
    DataControl,
}

/// Whether a session brings all that its clipboard needs.
pub open spec fn has_own_clipboard(t: SessionType) -> bool {
    t == SessionType::WlrDirect || t == SessionType::PortalGeneric
}

/// The clipboard settings of a session that needs no portal, if it has a clipboard.
pub fn own_clipboard(session: SessionType, config: &ClipboardConfig) -> (r: Option<
    ClipboardOrchestratorConfig,
>)
    ensures
        r == (if has_own_clipboard(session) && config.enabled {
            Some(settings_for(config))
        } else {
            None
        }),
{
    match session {
        SessionType::WlrDirect | SessionType::PortalGeneric => if config.enabled {
            Some(orchestrator_settings(config))
        } else {
            None
        },
        _ => None,
    }
}

/// What reads and sets the clipboard of a session that needs no portal.
pub fn own_provider(session: SessionType, source: ClipboardSource, wl_clipboard: bool) -> (r: Option<
    Provider,
>)
    ensures
        r == (if session == SessionType::PortalGeneric && source == ClipboardSource::DataControl {
            Some(Provider::DataControl)
        } else if session == SessionType::WlrDirect && wl_clipboard {
            Some(Provider::WlClipboard)
        } else {
            None
        }),
{
    if session == SessionType::PortalGeneric && source == ClipboardSource::DataControl {
        Some(Provider::DataControl)
    } else if session == SessionType::WlrDirect && wl_clipboard {
        Some(Provider::WlClipboard)
    } else {
        None
    }
}

/// A part of the server that a session may lack.
#[derive(Clone, Copy, Debug, PartialEq, Eq, Structural)]
pub enum Subsystem {
    Input,
    Clipboard,
}

impl Subsystem {
    /// The name under which it is reported.
    pub fn name(&self) -> (r: String)
        ensures
            r@ == match self {
                Subsystem::Input => "input"@,
                Subsystem::Clipboard => "clipboard"@,
            },
    {
        match self {
            Subsystem::Input => "input".to_owned(),
            Subsystem::Clipboard => "clipboard".to_owned(),
        }
    }
}

/// What a session lacks: pictures alone come without input and clipboard; a session
/// with a clipboard of its own lacks it where it is switched off or failed.
pub open spec fn lacks(session: SessionType, has_clipboard: bool) -> Seq<Subsystem> {
    if session == SessionType::ScreenCastOnly {
        seq![Subsystem::Input, Subsystem::Clipboard]
    } else if has_own_clipboard(session) && !has_clipboard {
        seq![Subsystem::Clipboard]
    } else {
        Seq::empty()
    }
}

/// What to report as not available in a session.
pub fn unavailable(session: SessionType, has_clipboard: bool) -> (r: Vec<Subsystem>)
    ensures
        r@ == lacks(session, has_clipboard),
{
    let mut r: Vec<Subsystem> = Vec::new();
    match session {
        SessionType::ScreenCastOnly => {
            r.push(Subsystem::Input);
            r.push(Subsystem::Clipboard);
        },
        SessionType::WlrDirect | SessionType::PortalGeneric => {
            if !has_clipboard {
                r.push(Subsystem::Clipboard);
            }
        },
        _ => {},
    }
    assert(r@ =~= lacks(session, has_clipboard));
    r
}

/// Which portal session the clipboard goes through.
#[derive(Clone, Copy, Debug, PartialEq, Eq, Structural)]
pub enum PortalClipboard {
    /// That of the strategy.
    FromStrategy,
    /// A session of its own, which also takes the input.
    Separate {
        /// Whether the portal can do clipboards at all.
        with_clipboard: bool,
    },
    /// None.
    NotNeeded,
}

/// Which portal session the clipboard goes through.
pub open spec fn portal_clipboard_for(
    source: ClipboardSource,
    session: SessionType,
    supported: bool,
) -> PortalClipboard {
    if source == ClipboardSource::Portal {
        PortalClipboard::FromStrategy
    } else if source != ClipboardSource::DataControl && (session == SessionType::Libei || session
        == SessionType::WlrDirect) {
        PortalClipboard::Separate { with_clipboard: supported }
    } else {
        PortalClipboard::NotNeeded
    }
}

/// Decides which portal session the clipboard goes through.
pub fn portal_clipboard(source: ClipboardSource, session: SessionType, supported: bool) -> (r:
    PortalClipboard)
    ensures
        r == portal_clipboard_for(source, session, supported),
{
    match source {
        ClipboardSource::Portal => PortalClipboard::FromStrategy,
        ClipboardSource::Mutter | ClipboardSource::Nothing => {
            if session == SessionType::Libei || session == SessionType::WlrDirect {
                PortalClipboard::Separate { with_clipboard: supported }
            } else {
                PortalClipboard::NotNeeded
            }
        },
        ClipboardSource::DataControl => PortalClipboard::NotNeeded,
    }
}

/// A name for a portal session of its own.
pub fn portal_session_id() -> (r: String)
    ensures
        exists|id: Seq<char>|
            #[trigger] is_random_id(id) && r@ == "lamco-rdp-input-clipboard-"@ + id,
{
    let id = random_id();
    joined("lamco-rdp-input-clipboard-", id.as_str())
}

/// What the choice of a provider rests on.
#[derive(Clone, Copy, Debug, PartialEq, Eq, Structural)]
pub struct ProviderOptions {
    /// The clipboard that the strategy brings along.
    pub source: ClipboardSource,
    /// Whether the data-control protocol is to be used.
    pub data_control: bool,
    /// Whether there is a portal session with a clipboard.
    pub portal_ready: bool,
    /// Whether a connection of its own for the data-control protocol can be made.
    pub wl_clipboard: bool,
}

/// What reads and sets the clipboard: the embedded backend where there is one; else,
/// where the data-control protocol is wanted, a connection of its own if it can be
/// made; else GNOME's own interface where it is there and data-control is not
/// wanted; else the portal.
pub open spec fn provider_for(o: ProviderOptions) -> Option<Provider> {
    if o.source == ClipboardSource::DataControl {
        Some(Provider::DataControl)
    } else if o.source == ClipboardSource::Mutter && !o.data_control {
        Some(Provider::Mutter)
    } else if o.data_control && o.wl_clipboard && (o.source != ClipboardSource::Portal
        || o.portal_ready) {
        Some(Provider::WlClipboard)
    } else if o.portal_ready {
        Some(Provider::Portal)
    } else {
        None
    }
}

/// Decides what reads and sets the clipboard.
pub fn choose_provider(o: ProviderOptions) -> (r: Option<Provider>)
    ensures
        r == provider_for(o),
{
    match o.source {
        ClipboardSource::Portal => {
            if o.portal_ready {
                if o.data_control && o.wl_clipboard {
                    Some(Provider::WlClipboard)
                } else {
                    Some(Provider::Portal)
                }
            } else {
                None
            }
        },
        ClipboardSource::DataControl => Some(Provider::DataControl),
        ClipboardSource::Mutter | ClipboardSource::Nothing => {
            if o.source == ClipboardSource::Mutter && !o.data_control {
                Some(Provider::Mutter)
            } else if o.data_control && o.wl_clipboard {
                Some(Provider::WlClipboard)
            } else if o.portal_ready {
                Some(Provider::Portal)
            } else {
                None
            }
        },
    }
}

/// The provider after its first check: where data-control was wanted and does not
/// work, the portal takes its place if that is allowed and possible.
pub open spec fn provider_after_check(
    chosen: Option<Provider>,
    o: ProviderOptions,
    fallback_to_portal: bool,
    healthy: bool,
) -> Option<Provider> {
    if o.data_control && !healthy && fallback_to_portal && o.portal_ready {
        Some(Provider::Portal)
    } else {
        chosen
    }
}

/// The provider after its first check.
pub fn check_provider(
    chosen: Option<Provider>,
    o: ProviderOptions,
    fallback_to_portal: bool,
    healthy: bool,
) -> (r: Option<Provider>)
    ensures
        r == provider_after_check(chosen, o, fallback_to_portal, healthy),
{
    if o.data_control && !healthy && fallback_to_portal && o.portal_ready {
        Some(Provider::Portal)
    } else {
        chosen
    }
}

/// The clipboard of a session beside a portal.
pub struct ClipboardPlan {
    pub settings: ClipboardOrchestratorConfig,
    /// Whether the desktop's clipboard is connected.
    pub connected: bool,
    /// Whether the file system for pasted files is mounted.
    pub mount_fuse: bool,
}

/// Plans the clipboard of a session beside a portal. One that is switched off has
/// the usual settings and is connected to nothing. A sandbox cannot mount file
/// systems.
pub fn plan_clipboard(config: &ClipboardConfig, flatpak: bool) -> (r: ClipboardPlan)
    ensures
        r == (ClipboardPlan {
            settings: if config.enabled {
                settings_for(config)
            } else {
                default_settings()
            },
            connected: config.enabled,
            mount_fuse: config.enabled && !flatpak,
        }),
{
    if config.enabled {
        ClipboardPlan {
            settings: orchestrator_settings(config),
            connected: true,
            mount_fuse: !flatpak,
        }
    } else {
        ClipboardPlan {
            settings: ClipboardOrchestratorConfig::default(),
            connected: false,
            mount_fuse: false,
        }
    }
}

/// A provider is chosen only where what it works through is there.
pub proof fn provider_has_its_backend(o: ProviderOptions)
    ensures
        match provider_for(o) {
            Some(Provider::Portal) => o.portal_ready,
            Some(Provider::WlClipboard) => o.wl_clipboard && o.data_control,
            Some(Provider::Mutter) => o.source == ClipboardSource::Mutter,
            Some(Provider::DataControl) => o.source == ClipboardSource::DataControl,
            None => !o.portal_ready,
        },
{
}

/// A check that fails never leaves a session without the provider it had, and
/// replaces it only by a portal that is there.
pub proof fn check_keeps_a_provider(
    chosen: Option<Provider>,
    o: ProviderOptions,
    fallback_to_portal: bool,
    healthy: bool,
)
    ensures
        chosen is Some ==> provider_after_check(chosen, o, fallback_to_portal, healthy) is Some,
        healthy ==> provider_after_check(chosen, o, fallback_to_portal, healthy) == chosen,
        provider_after_check(chosen, o, fallback_to_portal, healthy) == chosen || o.portal_ready,
{
}

/// Where no types are listed, everything is exchanged.
pub proof fn no_list_allows_all(c: &ClipboardConfig)
    requires
        c.allowed_types@.len() == 0,
    ensures
        settings_for(c).enable_images,
        settings_for(c).enable_files,
        settings_for(c).enable_html,
        settings_for(c).enable_rtf,
{
}

/// What a session lacks is reported: input exactly where it shows pictures alone, and
/// the clipboard wherever a session that needs no portal has none.
pub proof fn what_is_missing_is_reported(session: SessionType, has_clipboard: bool)
    ensures
        lacks(session, has_clipboard).contains(Subsystem::Input) <==> session
            == SessionType::ScreenCastOnly,
        self_sufficient(session) && !has_clipboard ==> lacks(session, has_clipboard).contains(
            Subsystem::Clipboard,
        ),
        has_own_clipboard(session) && has_clipboard ==> lacks(session, has_clipboard).len() == 0,
{
    let l = lacks(session, has_clipboard);
    if session == SessionType::ScreenCastOnly {
        assert(l[0] == Subsystem::Input);
        assert(l[1] == Subsystem::Clipboard);
    } else if has_own_clipboard(session) && !has_clipboard {
        assert(l[0] == Subsystem::Clipboard);
    }
}

/// Each kind of data is exchanged exactly where no types are listed or one of the listed
/// types names it; the size and the rate follow the settings, and the rest is as usual.
pub proof fn listed_types_are_exchanged(c: &ClipboardConfig)
    ensures
        settings_for(c).max_data_size == c.max_size,
        settings_for(c).rate_limit_ms == c.rate_limit_ms,
        settings_for(c).kde_syncselection_hint == c.kde_syncselection_hint,
        settings_for(c).chunk_size == 65_536,
        settings_for(c).timeout_ms == 5000,
        settings_for(c).loop_detection_window_ms == 500,
        settings_for(c).enable_images <==> c.allowed_types@.len() == 0 || exists|i: int|
            0 <= i < c.allowed_types@.len() && #[trigger] occurs_in(c.allowed_types@[i]@, "image/"@),
        settings_for(c).enable_html <==> c.allowed_types@.len() == 0 || exists|i: int|
            0 <= i < c.allowed_types@.len() && #[trigger] occurs_in(
                c.allowed_types@[i]@,
                "text/html"@,
            ),
        settings_for(c).enable_rtf <==> c.allowed_types@.len() == 0 || exists|i: int|
            0 <= i < c.allowed_types@.len() && #[trigger] occurs_in(c.allowed_types@[i]@, "rtf"@),
        settings_for(c).enable_files <==> {
            let a = c.allowed_types@;
            ||| a.len() == 0
            ||| exists|i: int| 0 <= i < a.len() && #[trigger] occurs_in(a[i]@, "uri-list"@)
            ||| exists|i: int| 0 <= i < a.len() && #[trigger] occurs_in(a[i]@, "file"@)
            ||| exists|i: int| 0 <= i < a.len() && #[trigger] occurs_in(a[i]@, "x-special"@)
        },
{
    let a = c.allowed_types@;
    lemma_allows_one(a, "image/"@);
    lemma_allows_one(a, "text/html"@);
    lemma_allows_one(a, "rtf"@);
    lemma_allows_three(a, "uri-list"@, "file"@, "x-special"@);
}

/// The embedded backend is preferred to all else. Where the data-control protocol is not
/// wanted, a desktop's own interface is preferred to the portal; where it is wanted, it
/// is preferred to both. Without either, the portal is used if it is ready.
pub proof fn providers_are_preferred_in_order(o: ProviderOptions)
    ensures
        provider_for(o) == Some(Provider::DataControl) <==> o.source == ClipboardSource::DataControl,
        provider_for(o) == Some(Provider::Mutter) <==> o.source == ClipboardSource::Mutter
            && !o.data_control,
        (o.source == ClipboardSource::Mutter || o.source == ClipboardSource::Nothing)
            && o.data_control && o.wl_clipboard ==> provider_for(o) == Some(Provider::WlClipboard),
        o.source == ClipboardSource::Portal && o.portal_ready ==> provider_for(o) == Some(
            if o.data_control && o.wl_clipboard {
                Provider::WlClipboard
            } else {
                Provider::Portal
            },
        ),
        o.source == ClipboardSource::Portal && !o.portal_ready ==> provider_for(o) is None,
        o.source == ClipboardSource::Nothing && !(o.data_control && o.wl_clipboard) ==> (
        provider_for(o) == Some(Provider::Portal) <==> o.portal_ready),
        o.source == ClipboardSource::Mutter && o.data_control && !o.wl_clipboard ==> (provider_for(
            o,
        ) == Some(Provider::Portal) <==> o.portal_ready),
{
}

/// A provider that failed its check gives way to the portal only where data-control was
/// wanted, falling back is allowed and the portal is ready.
pub proof fn failed_providers_give_way(
    chosen: Option<Provider>,
    o: ProviderOptions,
    fallback_to_portal: bool,
)
    ensures
        o.data_control && fallback_to_portal && o.portal_ready ==> provider_after_check(
            chosen,
            o,
            fallback_to_portal,
            false,
        ) == Some(Provider::Portal),
        !o.data_control || !fallback_to_portal || !o.portal_ready ==> provider_after_check(
            chosen,
            o,
            fallback_to_portal,
            false,
        ) == chosen,
{
}

/// The clipboard goes through the strategy's portal session where it has one; a session
/// that takes its input otherwise gets a portal session of its own, unless the embedded
/// backend serves the clipboard.
pub proof fn clipboards_go_through_a_portal(
    source: ClipboardSource,
    session: SessionType,
    supported: bool,
)
    ensures
        portal_clipboard_for(source, session, supported) == PortalClipboard::FromStrategy <==> source
            == ClipboardSource::Portal,
        source == ClipboardSource::DataControl ==> portal_clipboard_for(source, session, supported)
            == PortalClipboard::NotNeeded,
        (source == ClipboardSource::Mutter || source == ClipboardSource::Nothing) && (session
            == SessionType::Libei || session == SessionType::WlrDirect) ==> portal_clipboard_for(
            source,
            session,
            supported,
        ) == (PortalClipboard::Separate { with_clipboard: supported }),
        (source == ClipboardSource::Mutter || source == ClipboardSource::Nothing) && session
            != SessionType::Libei && session != SessionType::WlrDirect ==> portal_clipboard_for(
            source,
            session,
            supported,
        ) == PortalClipboard::NotNeeded,
{
}

/// The sessions that bring all that their clipboard needs are those through the virtual
/// input protocols and through the embedded backend. Only these, and the one that shows
/// pictures alone, can lack a clipboard.
pub proof fn sessions_with_a_clipboard(session: SessionType, has_clipboard: bool)
    ensures
        has_own_clipboard(session) <==> (session == SessionType::WlrDirect || session
            == SessionType::PortalGeneric),
        session == SessionType::Portal || session == SessionType::Mutter || session
            == SessionType::Libei ==> lacks(session, has_clipboard).len() == 0,
        lacks(SessionType::WlrDirect, false) == seq![Subsystem::Clipboard],
        lacks(SessionType::PortalGeneric, false) == seq![Subsystem::Clipboard],
        lacks(SessionType::ScreenCastOnly, has_clipboard) == seq![
            Subsystem::Input,
            Subsystem::Clipboard,
        ],
{
}

/// Where nothing is said, every kind of data is exchanged, up to 16 MiB at once and no
/// more often than five times a second, and KDE's clipboard manager is left alone.
pub proof fn usual_clipboard_settings()
    ensures
        default_settings().enable_images && default_settings().enable_files,
        default_settings().enable_html && default_settings().enable_rtf,
        default_settings().max_data_size == 16 * 1024 * 1024,
        default_settings().chunk_size == 64 * 1024,
        default_settings().timeout_ms == 5000,
        default_settings().loop_detection_window_ms == 500,
        default_settings().rate_limit_ms * 5 == 1000,
        !default_settings().kde_syncselection_hint,
{
}

} // verus!
