//! What the desktop can do, as a document and as a text.

use vstd::prelude::*;
use vstd::string::StringExecFns;
use crate::cli::json::{
    boolean_json, json_document, json_model, json_models, list_value, member, new_members,
    no_members, null_json, number_json, object_value, optional_text, optional_text_json,
    pretty_document, put_member, text_json, JsonModel,
};
use crate::text::{
    decimal, decimal_text, is_space, joined, same_text, views, white_space_parts_words, words,
    words_of,
};

verus! {

/// How well a service works.
#[derive(Clone, Copy, Debug, PartialEq, Eq, Structural)]
pub enum ServiceLevel {
    Unavailable,
    Degraded,
    BestEffort,
    Guaranteed,
}

/// The word for a level.
pub open spec fn level_word(level: ServiceLevel) -> Seq<char> {
    match level {
        ServiceLevel::Guaranteed => "guaranteed"@,
        ServiceLevel::BestEffort => "best_effort"@,
        ServiceLevel::Degraded => "degraded"@,
        ServiceLevel::Unavailable => "unavailable"@,
    }
}

/// The word for a level.
pub fn level_str(level: ServiceLevel) -> (r: String)
    ensures
        r@ == level_word(level),
{
    match level {
        ServiceLevel::Guaranteed => "guaranteed".to_owned(),
        ServiceLevel::BestEffort => "best_effort".to_owned(),
        ServiceLevel::Degraded => "degraded".to_owned(),
        ServiceLevel::Unavailable => "unavailable".to_owned(),
    }
}

/// How the server was installed.
#[derive(Clone, Copy, Debug, PartialEq, Eq, Structural)]
pub enum DeploymentContext {
    Native,
    Flatpak,
    /// By the user's service manager.
    SystemdUser {
        /// Whether it goes on when the user has logged out.
        linger_enabled: bool,
    },
    SystemdSystem,
    InitD,
}

/// The word for a deployment.
pub open spec fn deployment_word(d: DeploymentContext) -> Seq<char> {
    match d {
        DeploymentContext::Native => "native"@,
        DeploymentContext::Flatpak => "flatpak"@,
        DeploymentContext::SystemdUser { .. } => "systemd-user"@,
        DeploymentContext::SystemdSystem => "systemd-system"@,
        DeploymentContext::InitD => "initd"@,
    }
}

/// A service that the server offers.
#[derive(Clone, Debug)]
pub struct ServiceReport {
    pub id: String,
    pub name: String,
    pub level: ServiceLevel,
    pub wayland_source: Option<String>,
    pub rdp_capability: Option<String>,
    pub notes: Option<String>,
}

/// Something that has to be worked around.
#[derive(Clone, Debug)]
pub struct QuirkReport {
    pub id: String,
    pub description: String,
}

/// How many services work how well.
#[derive(Clone, Copy, Debug, PartialEq, Eq, Structural)]
pub struct ServiceCounts {
    pub guaranteed: u64,
    pub best_effort: u64,
    pub degraded: u64,
    pub unavailable: u64,
}

/// The name and version of the operating system.
#[derive(Clone, Debug)]
pub struct OsRelease {
    pub pretty_name: String,
    pub version_id: String,
}

/// What was found out about the desktop.
#[derive(Clone, Debug)]
pub struct CapabilityReport {
    /// Name of the compositor.
    pub compositor: String,
    pub compositor_version: Option<String>,
    pub os_release: Option<OsRelease>,
    /// Version of the kernel.
    pub kernel_version: String,
    /// Version of the portal.
    pub portal_version: u32,
    pub portal_backend: Option<String>,
    pub supports_screencast: bool,
    pub supports_remote_desktop: bool,
    pub supports_clipboard: bool,
    pub deployment: DeploymentContext,
    /// The deployment in words.
    pub deployment_text: String,
    /// Directory for files of the running session.
    pub runtime_dir: Option<String>,
    /// How credentials are stored, in words.
    pub storage_method: String,
    /// How they are encrypted, in words.
    pub encryption: String,
    /// Whether the store can be opened.
    pub accessible: bool,
    pub quirks: Vec<QuirkReport>,
    pub services: Vec<ServiceReport>,
    pub counts: ServiceCounts,
    /// Whether pictures are best passed on without copying.
    pub dma_buf: bool,
}

/// The version of the kernel in what it says of itself: the third word.
pub open spec fn kernel_of(text: Option<Seq<char>>) -> Seq<char> {
    match text {
        Some(t) => if words_of(t).len() > 2 {
            words_of(t)[2]
        } else {
            "unknown"@
        },
        None => "unknown"@,
    }
}

/// The version of the kernel in what it says of itself.
pub fn kernel_version(text: Option<&str>) -> (r: String)
    ensures
        r@ == kernel_of(
            match text {
                Some(t) => Some(t@),
                None => None,
            },
        ),
{
    if let Some(t) = text {
        let w = words(t);
        assert(views(w@).len() == w@.len());
        if w.len() > 2 {
            assert(views(w@)[2] == w@[2]@);
            return w[2].clone();
        }
    }
    "unknown".to_owned()
}

/// The operating system in words.
pub open spec fn distribution_of(os: Option<OsRelease>) -> Seq<char> {
    match os {
        Some(o) => o.pretty_name@ + " "@ + o.version_id@,
        None => "Unknown"@,
    }
}

fn distribution(os: &Option<OsRelease>) -> (r: String)
    ensures
        r@ == distribution_of(*os),
{
    match os {
        Some(o) => {
            let mut s = joined(o.pretty_name.as_str(), " ");
            s.append(o.version_id.as_str());
            s
        },
        None => "Unknown".to_owned(),
    }
}

/// A service in the document.
pub open spec fn service_model(s: ServiceReport) -> JsonModel {
    JsonModel::Object(
        no_members().insert("id"@, JsonModel::Text(s.id@)).insert(
            "name"@,
            JsonModel::Text(s.name@),
        ).insert("level"@, JsonModel::Text(level_word(s.level))).insert(
            "wayland_source"@,
            optional_text(s.wayland_source),
        ).insert("rdp_capability"@, optional_text(s.rdp_capability)).insert(
            "notes"@,
            JsonModel::List(
                match s.notes {
                    Some(n) => seq![JsonModel::Text(n@)],
                    None => Seq::empty(),
                },
            ),
        ),
    )
}

fn service_json(s: &ServiceReport) -> (r: serde_json::Value)
    ensures
        json_model(r) == service_model(*s),
{
    let mut notes: Vec<serde_json::Value> = Vec::new();
    if let Some(n) = &s.notes {
        notes.push(text_json(n.as_str()));
    }
    proof {
        match &s.notes {
            Some(n) => {
                assert(json_models(notes@) =~= seq![JsonModel::Text(n@)]);
            },
            None => {
                assert(json_models(notes@) =~= Seq::empty());
            },
        }
    }
    let mut m = new_members();
    put_member(&mut m, "id", text_json(s.id.as_str()));
    put_member(&mut m, "name", text_json(s.name.as_str()));
    put_member(&mut m, "level", text_json(level_str(s.level).as_str()));
    put_member(&mut m, "wayland_source", optional_text_json(&s.wayland_source));
    put_member(&mut m, "rdp_capability", optional_text_json(&s.rdp_capability));
    put_member(&mut m, "notes", list_value(notes));
    object_value(m)
}

/// A quirk in the document.
pub open spec fn quirk_model(q: QuirkReport) -> JsonModel {
    JsonModel::Object(
        no_members().insert("id"@, JsonModel::Text(q.id@)).insert(
            "description"@,
            JsonModel::Text(q.description@),
        ).insert("impact"@, JsonModel::Text("workaround"@)),
    )
}

fn quirk_json(q: &QuirkReport) -> (r: serde_json::Value)
    ensures
        json_model(r) == quirk_model(*q),
{
    let mut m = new_members();
    put_member(&mut m, "id", text_json(q.id.as_str()));
    put_member(&mut m, "description", text_json(q.description.as_str()));
    put_member(&mut m, "impact", text_json("workaround"));
    object_value(m)
}

/// The part of the document on the system.
pub open spec fn system_model(r: &CapabilityReport) -> JsonModel {
    JsonModel::Object(
        no_members().insert("compositor"@, JsonModel::Text(r.compositor@)).insert(
            "compositor_version"@,
            optional_text(r.compositor_version),
        ).insert("distribution"@, JsonModel::Text(distribution_of(r.os_release))).insert(
            "kernel"@,
            JsonModel::Text(r.kernel_version@),
        ),
    )
}

/// The part of the document on the portals, which all have the version of the first.
pub open spec fn portals_model(r: &CapabilityReport) -> JsonModel {
    let version = JsonModel::Number(r.portal_version as u64);
    JsonModel::Object(
        no_members().insert("version"@, version).insert(
            "backend"@,
            optional_text(r.portal_backend),
        ).insert("screencast_version"@, version).insert("remote_desktop_version"@, version).insert(
            "secret_version"@,
            if r.accessible {
                JsonModel::Number(1)
            } else {
                JsonModel::Null
            },
        ),
    )
}

/// The part of the document on the deployment.
pub open spec fn deployment_model(r: &CapabilityReport) -> JsonModel {
    JsonModel::Object(
        no_members().insert("context"@, JsonModel::Text(deployment_word(r.deployment))).insert(
            "xdg_runtime_dir"@,
            JsonModel::Text(
                match r.runtime_dir {
                    Some(d) => d@,
                    None => "/run/user/1000"@,
                },
            ),
        ).insert(
            "linger"@,
            match r.deployment {
                DeploymentContext::SystemdUser { linger_enabled } => JsonModel::Boolean(
                    linger_enabled,
                ),
                _ => JsonModel::Null,
            },
        ),
    )
}

/// The part of the document on kept sessions.
pub open spec fn persistence_model(r: &CapabilityReport) -> JsonModel {
    JsonModel::Object(
        no_members().insert("strategy"@, JsonModel::Text(r.storage_method@)).insert(
            "notes"@,
            JsonModel::List(
                seq![
                    JsonModel::Text(
                        if r.accessible {
                            "Credential storage accessible"@
                        } else {
                            "Credential storage locked or unavailable"@
                        },
                    ),
                ],
            ),
        ),
    )
}

/// The part of the document that counts the services.
pub open spec fn summary_model(c: ServiceCounts) -> JsonModel {
    JsonModel::Object(
        no_members().insert("guaranteed"@, JsonModel::Number(c.guaranteed)).insert(
            "best_effort"@,
            JsonModel::Number(c.best_effort),
        ).insert("degraded"@, JsonModel::Number(c.degraded)).insert(
            "unavailable"@,
            JsonModel::Number(c.unavailable),
        ),
    )
}

/// The part of the document with advice.
pub open spec fn hints_model(r: &CapabilityReport) -> JsonModel {
    JsonModel::Object(
        no_members().insert("recommended_fps"@, JsonModel::Number(30)).insert(
            "recommended_codec"@,
            JsonModel::Text(
                if r.dma_buf {
                    "avc420"@
                } else {
                    "bitmap"@
                },
            ),
        ).insert("zero_copy"@, JsonModel::Boolean(r.dma_buf)),
    )
}

/// The document on what the desktop can do.
pub open spec fn report_model(r: &CapabilityReport) -> JsonModel {
    JsonModel::Object(
        no_members().insert("system"@, system_model(r)).insert("portals"@, portals_model(r)).insert(
            "deployment"@,
            deployment_model(r),
        ).insert("persistence"@, persistence_model(r)).insert(
            "quirks"@,
            JsonModel::List(r.quirks@.map_values(|q: QuirkReport| quirk_model(q))),
        ).insert(
            "services"@,
            JsonModel::List(r.services@.map_values(|s: ServiceReport| service_model(s))),
        ).insert("summary"@, summary_model(r.counts)).insert("hints"@, hints_model(r)),
    )
}

fn system_json(r: &CapabilityReport) -> (v: serde_json::Value)
    ensures
        json_model(v) == system_model(r),
{
    let mut m = new_members();
    put_member(&mut m, "compositor", text_json(r.compositor.as_str()));
    put_member(&mut m, "compositor_version", optional_text_json(&r.compositor_version));
    put_member(&mut m, "distribution", text_json(distribution(&r.os_release).as_str()));
    put_member(&mut m, "kernel", text_json(r.kernel_version.as_str()));
    object_value(m)
}

fn portals_json(r: &CapabilityReport) -> (v: serde_json::Value)
    ensures
        json_model(v) == portals_model(r),
{
    let secret = if r.accessible {
        number_json(1)
    } else {
        null_json()
    };
    let mut m = new_members();
    put_member(&mut m, "version", number_json(r.portal_version as u64));
    put_member(&mut m, "backend", optional_text_json(&r.portal_backend));
    put_member(&mut m, "screencast_version", number_json(r.portal_version as u64));
    put_member(&mut m, "remote_desktop_version", number_json(r.portal_version as u64));
    put_member(&mut m, "secret_version", secret);
    object_value(m)
}

fn deployment_json(r: &CapabilityReport) -> (v: serde_json::Value)
    ensures
        json_model(v) == deployment_model(r),
{
    let (word, linger) = match r.deployment {
        DeploymentContext::Native => ("native", null_json()),
        DeploymentContext::Flatpak => ("flatpak", null_json()),
        DeploymentContext::SystemdUser { linger_enabled } => (
            "systemd-user",
            boolean_json(linger_enabled),
        ),
        DeploymentContext::SystemdSystem => ("systemd-system", null_json()),
        DeploymentContext::InitD => ("initd", null_json()),
    };
    let dir = match &r.runtime_dir {
        Some(d) => d.clone(),
        None => "/run/user/1000".to_owned(),
    };
    let mut m = new_members();
    put_member(&mut m, "context", text_json(word));
    put_member(&mut m, "xdg_runtime_dir", text_json(dir.as_str()));
    put_member(&mut m, "linger", linger);
    object_value(m)
}

fn persistence_json(r: &CapabilityReport) -> (v: serde_json::Value)
    ensures
        json_model(v) == persistence_model(r),
{
    let note = if r.accessible {
        text_json("Credential storage accessible")
    } else {
        text_json("Credential storage locked or unavailable")
    };
    let mut notes: Vec<serde_json::Value> = Vec::new();
    notes.push(note);
    assert(json_models(notes@) =~= seq![json_model(note)]);
    let mut m = new_members();
    put_member(&mut m, "strategy", text_json(r.storage_method.as_str()));
    put_member(&mut m, "notes", list_value(notes));
    object_value(m)
}

fn summary_json(c: &ServiceCounts) -> (v: serde_json::Value)
    ensures
        json_model(v) == summary_model(*c),
{
    let mut m = new_members();
    put_member(&mut m, "guaranteed", number_json(c.guaranteed));
    put_member(&mut m, "best_effort", number_json(c.best_effort));
    put_member(&mut m, "degraded", number_json(c.degraded));
    put_member(&mut m, "unavailable", number_json(c.unavailable));
    object_value(m)
}

fn hints_json(r: &CapabilityReport) -> (v: serde_json::Value)
    ensures
        json_model(v) == hints_model(r),
{
    let codec = if r.dma_buf {
        text_json("avc420")
    } else {
        text_json("bitmap")
    };
    let mut m = new_members();
    put_member(&mut m, "recommended_fps", number_json(30));
    put_member(&mut m, "recommended_codec", codec);
    put_member(&mut m, "zero_copy", boolean_json(r.dma_buf));
    object_value(m)
}

/// The document on what the desktop can do, as a value.
pub fn capabilities_value(r: &CapabilityReport) -> (v: serde_json::Value)
    ensures
        json_model(v) == report_model(r),
{
    let mut quirks: Vec<serde_json::Value> = Vec::new();
    let mut i: usize = 0;
    while i < r.quirks.len()
        invariant
            i <= r.quirks@.len(),
            quirks@.len() == i,
            forall|k: int| 0 <= k < i ==> json_model(#[trigger] quirks@[k]) == quirk_model(
                r.quirks@[k],
            ),
        decreases r.quirks@.len() - i,
    {
        quirks.push(quirk_json(&r.quirks[i]));
        i += 1;
    }
    let mut services: Vec<serde_json::Value> = Vec::new();
    let mut k: usize = 0;
    while k < r.services.len()
        invariant
            k <= r.services@.len(),
            services@.len() == k,
            forall|j: int| 0 <= j < k ==> json_model(#[trigger] services@[j]) == service_model(
                r.services@[j],
            ),
        decreases r.services@.len() - k,
    {
        services.push(service_json(&r.services[k]));
        k += 1;
    }
    assert(json_models(quirks@) =~= r.quirks@.map_values(|q: QuirkReport| quirk_model(q)));
    assert(json_models(services@) =~= r.services@.map_values(|s: ServiceReport| service_model(s)));
    let mut m = new_members();
    put_member(&mut m, "system", system_json(r));
    put_member(&mut m, "portals", portals_json(r));
    put_member(&mut m, "deployment", deployment_json(r));
    put_member(&mut m, "persistence", persistence_json(r));
    put_member(&mut m, "quirks", list_value(quirks));
    put_member(&mut m, "services", list_value(services));
    put_member(&mut m, "summary", summary_json(&r.counts));
    put_member(&mut m, "hints", hints_json(r));
    object_value(m)
}

/// The document on what the desktop can do.
pub fn output_capabilities_json(r: &CapabilityReport) -> (text: String)
    ensures
        text@ == json_document(report_model(r)),
{
    let v = capabilities_value(r);
    pretty_document(&v).unwrap()
}

/// A mark for what is there, and one for what is not.
pub open spec fn mark(there: bool) -> Seq<char> {
    if there {
        "✅"@
    } else {
        "❌"@
    }
}

fn mark_text(there: bool) -> (r: String)
    ensures
        r@ == mark(there),
{
    if there {
        "✅".to_owned()
    } else {
        "❌".to_owned()
    }
}

/// The lines on what the desktop can do.
pub open spec fn capability_lines(r: &CapabilityReport) -> Seq<Seq<char>> {
    seq![
        "╔════════════════════════════════════════════════════════╗"@,
        "║         Capability Detection Report                    ║"@,
        "╚════════════════════════════════════════════════════════╝"@,
        ""@,
        "Compositor: "@ + r.compositor@,
        "  Version: "@ + match r.compositor_version {
            Some(v) => v@,
            None => "unknown"@,
        },
        ""@,
        "Portal: version "@ + decimal(r.portal_version as nat),
        "  ScreenCast: "@ + mark(r.supports_screencast),
        "  RemoteDesktop: "@ + mark(r.supports_remote_desktop),
        "  Clipboard: "@ + mark(r.supports_clipboard),
        "  Restore tokens: "@ + if r.portal_version >= 4 {
            "✅ Supported"@
        } else {
            "❌ Not supported (v < 4)"@
        },
        ""@,
        "Deployment: "@ + r.deployment_text@,
        ""@,
        "Credential Storage: "@ + r.storage_method@,
        "  Encryption: "@ + r.encryption@,
        "  Accessible: "@ + mark(r.accessible),
        ""@,
    ]
}

/// The lines on what the desktop can do.
pub fn output_capabilities_text(r: &CapabilityReport) -> (v: Vec<String>)
    ensures
        views(v@) == capability_lines(r),
{
    let version = match &r.compositor_version {
        Some(v) => v.clone(),
        None => "unknown".to_owned(),
    };
    let mut v: Vec<String> = Vec::new();
    v.push("╔════════════════════════════════════════════════════════╗".to_owned());
    v.push("║         Capability Detection Report                    ║".to_owned());
    v.push("╚════════════════════════════════════════════════════════╝".to_owned());
    v.push("".to_owned());
    v.push(joined("Compositor: ", r.compositor.as_str()));
    v.push(joined("  Version: ", version.as_str()));
    v.push("".to_owned());
    v.push(joined("Portal: version ", decimal_text(r.portal_version as u64).as_str()));
    v.push(joined("  ScreenCast: ", mark_text(r.supports_screencast).as_str()));
    v.push(joined("  RemoteDesktop: ", mark_text(r.supports_remote_desktop).as_str()));
    v.push(joined("  Clipboard: ", mark_text(r.supports_clipboard).as_str()));
    if r.portal_version >= 4 {
        v.push(joined("  Restore tokens: ", "✅ Supported"));
    } else {
        v.push(joined("  Restore tokens: ", "❌ Not supported (v < 4)"));
    }
    v.push("".to_owned());
    v.push(joined("Deployment: ", r.deployment_text.as_str()));
    v.push("".to_owned());
    v.push(joined("Credential Storage: ", r.storage_method.as_str()));
    v.push(joined("  Encryption: ", r.encryption.as_str()));
    v.push(joined("  Accessible: ", mark_text(r.accessible).as_str()));
    v.push("".to_owned());
    assert(views(v@) =~= capability_lines(r));
    v
}

/// What to print: a document where one is asked for, else lines.
pub enum CapabilityOutput {
    Document(String),
    Lines(Vec<String>),
}

/// What the desktop can do, in the form that was asked for.
pub fn show_capabilities(format: &str, r: &CapabilityReport) -> (out: CapabilityOutput)
    ensures
        match out {
            CapabilityOutput::Document(d) => format@ == "json"@ && d@ == json_document(
                report_model(r),
            ),
            CapabilityOutput::Lines(v) => format@ != "json"@ && views(v@) == capability_lines(r),
        },
{
    if same_text(format, "json") {
        CapabilityOutput::Document(output_capabilities_json(r))
    } else {
        CapabilityOutput::Lines(output_capabilities_text(r))
    }
}

/// The document has a member for each part of what was found out.
pub proof fn documents_have_all_their_parts(r: &CapabilityReport)
    ensures
        member(report_model(r), "system"@) == Some(system_model(r)),
        member(report_model(r), "portals"@) == Some(portals_model(r)),
        member(report_model(r), "deployment"@) == Some(deployment_model(r)),
        member(report_model(r), "persistence"@) == Some(persistence_model(r)),
        member(report_model(r), "summary"@) == Some(summary_model(r.counts)),
        member(report_model(r), "hints"@) == Some(hints_model(r)),
        member(report_model(r), "quirks"@) matches Some(JsonModel::List(q)) && q.len()
            == r.quirks@.len() && forall|i: int|
            0 <= i < q.len() ==> #[trigger] q[i] == quirk_model(r.quirks@[i]),
        member(report_model(r), "services"@) matches Some(JsonModel::List(s)) && s.len()
            == r.services@.len() && forall|i: int|
            0 <= i < s.len() ==> #[trigger] s[i] == service_model(r.services@[i]),
{
    reveal_strlit("system");
    reveal_strlit("portals");
    reveal_strlit("deployment");
    reveal_strlit("persistence");
    reveal_strlit("quirks");
    reveal_strlit("services");
    reveal_strlit("summary");
    reveal_strlit("hints");
    assert("system"@.len() == 6 && "quirks"@.len() == 6 && "system"@[0] == 's' && "quirks"@[0]
        == 'q');
    assert("portals"@.len() == 7 && "summary"@.len() == 7 && "portals"@[0] == 'p' && "summary"@[0]
        == 's');
    assert("deployment"@.len() == 10 && "persistence"@.len() == 11 && "services"@.len() == 8
        && "hints"@.len() == 5);
}

/// The part on the system tells the compositor, the distribution and the kernel.
pub proof fn documents_describe_the_system(r: &CapabilityReport)
    ensures
        member(system_model(r), "compositor"@) == Some(JsonModel::Text(r.compositor@)),
        member(system_model(r), "compositor_version"@) == Some(optional_text(r.compositor_version)),
        member(system_model(r), "kernel"@) == Some(JsonModel::Text(r.kernel_version@)),
        r.os_release matches Some(o) ==> member(system_model(r), "distribution"@) == Some(
            JsonModel::Text(o.pretty_name@ + seq![' '] + o.version_id@),
        ),
        r.os_release is None ==> member(system_model(r), "distribution"@) == Some(
            JsonModel::Text("Unknown"@),
        ),
{
    reveal_strlit("compositor");
    reveal_strlit("compositor_version");
    reveal_strlit("distribution");
    reveal_strlit("kernel");
    reveal_strlit(" ");
    assert(" "@ =~= seq![' ']);
    assert("compositor"@.len() == 10 && "compositor_version"@.len() == 18 && "distribution"@.len()
        == 12 && "kernel"@.len() == 6);
}

/// The part on the portals gives one version for all of them, and one for the store of
/// secrets where that can be opened.
pub proof fn documents_describe_the_portals(r: &CapabilityReport)
    ensures
        ({
            let version = JsonModel::Number(r.portal_version as u64);
            &&& member(portals_model(r), "version"@) == Some(version)
            &&& member(portals_model(r), "screencast_version"@) == Some(version)
            &&& member(portals_model(r), "remote_desktop_version"@) == Some(version)
        }),
        member(portals_model(r), "backend"@) == Some(optional_text(r.portal_backend)),
        member(portals_model(r), "secret_version"@) == Some(JsonModel::Number(1)) <==> r.accessible,
        member(portals_model(r), "secret_version"@) == Some(JsonModel::Null) <==> !r.accessible,
{
    reveal_strlit("version");
    reveal_strlit("backend");
    reveal_strlit("screencast_version");
    reveal_strlit("remote_desktop_version");
    reveal_strlit("secret_version");
    assert("version"@.len() == 7 && "backend"@.len() == 7 && "version"@[0] == 'v' && "backend"@[0]
        == 'b');
    assert("screencast_version"@.len() == 18 && "remote_desktop_version"@.len() == 22
        && "secret_version"@.len() == 14);
}

/// The part on the deployment names it, and tells whether it goes on without the user
/// only where the user's service manager runs the server.
pub proof fn documents_describe_the_deployment(r: &CapabilityReport, linger: bool)
    ensures
        r.deployment == DeploymentContext::Native ==> member(deployment_model(r), "context"@)
            == Some(JsonModel::Text("native"@)),
        r.deployment == DeploymentContext::Flatpak ==> member(deployment_model(r), "context"@)
            == Some(JsonModel::Text("flatpak"@)),
        r.deployment == DeploymentContext::SystemdSystem ==> member(deployment_model(r), "context"@)
            == Some(JsonModel::Text("systemd-system"@)),
        r.deployment == DeploymentContext::InitD ==> member(deployment_model(r), "context"@) == Some(
            JsonModel::Text("initd"@),
        ),
        r.deployment == (DeploymentContext::SystemdUser { linger_enabled: linger }) ==> member(
            deployment_model(r),
            "context"@,
        ) == Some(JsonModel::Text("systemd-user"@)) && member(deployment_model(r), "linger"@)
            == Some(JsonModel::Boolean(linger)),
        !(r.deployment is SystemdUser) ==> member(deployment_model(r), "linger"@) == Some(
            JsonModel::Null,
        ),
        r.runtime_dir matches Some(d) ==> member(deployment_model(r), "xdg_runtime_dir"@) == Some(
            JsonModel::Text(d@),
        ),
        r.runtime_dir is None ==> member(deployment_model(r), "xdg_runtime_dir"@) == Some(
            JsonModel::Text("/run/user/1000"@),
        ),
{
    reveal_strlit("context");
    reveal_strlit("xdg_runtime_dir");
    reveal_strlit("linger");
    assert("context"@.len() == 7 && "xdg_runtime_dir"@.len() == 15 && "linger"@.len() == 6);
}

/// The parts on kept sessions, on the number of services and with advice.
pub proof fn documents_sum_up(r: &CapabilityReport, c: ServiceCounts)
    ensures
        member(persistence_model(r), "strategy"@) == Some(JsonModel::Text(r.storage_method@)),
        member(persistence_model(r), "notes"@) == Some(
            JsonModel::List(
                seq![
                    JsonModel::Text(
                        if r.accessible {
                            "Credential storage accessible"@
                        } else {
                            "Credential storage locked or unavailable"@
                        },
                    ),
                ],
            ),
        ),
        member(summary_model(c), "guaranteed"@) == Some(JsonModel::Number(c.guaranteed)),
        member(summary_model(c), "best_effort"@) == Some(JsonModel::Number(c.best_effort)),
        member(summary_model(c), "degraded"@) == Some(JsonModel::Number(c.degraded)),
        member(summary_model(c), "unavailable"@) == Some(JsonModel::Number(c.unavailable)),
        member(hints_model(r), "recommended_fps"@) == Some(JsonModel::Number(30)),
        member(hints_model(r), "recommended_codec"@) == Some(
            JsonModel::Text(
                if r.dma_buf {
                    "avc420"@
                } else {
                    "bitmap"@
                },
            ),
        ),
        member(hints_model(r), "zero_copy"@) == Some(JsonModel::Boolean(r.dma_buf)),
{
    reveal_strlit("strategy");
    reveal_strlit("notes");
    reveal_strlit("guaranteed");
    reveal_strlit("best_effort");
    reveal_strlit("degraded");
    reveal_strlit("unavailable");
    reveal_strlit("recommended_fps");
    reveal_strlit("recommended_codec");
    reveal_strlit("zero_copy");
    assert("strategy"@.len() == 8 && "notes"@.len() == 5);
    assert("guaranteed"@.len() == 10 && "degraded"@.len() == 8 && "best_effort"@.len() == 11
        && "unavailable"@.len() == 11 && "best_effort"@[0] == 'b' && "unavailable"@[0] == 'u');
    assert("recommended_fps"@.len() == 15 && "recommended_codec"@.len() == 17 && "zero_copy"@.len()
        == 9);
}

/// A service is described by what it is, how well it works and where it comes from; a
/// quirk by what it is.
pub proof fn documents_describe_services_and_quirks(s: ServiceReport, q: QuirkReport)
    ensures
        member(service_model(s), "id"@) == Some(JsonModel::Text(s.id@)),
        member(service_model(s), "name"@) == Some(JsonModel::Text(s.name@)),
        member(service_model(s), "level"@) == Some(JsonModel::Text(level_word(s.level))),
        member(service_model(s), "wayland_source"@) == Some(optional_text(s.wayland_source)),
        member(service_model(s), "rdp_capability"@) == Some(optional_text(s.rdp_capability)),
        s.notes matches Some(n) ==> member(service_model(s), "notes"@) == Some(
            JsonModel::List(seq![JsonModel::Text(n@)]),
        ),
        s.notes is None ==> member(service_model(s), "notes"@) == Some(JsonModel::List(Seq::empty())),
        member(quirk_model(q), "id"@) == Some(JsonModel::Text(q.id@)),
        member(quirk_model(q), "description"@) == Some(JsonModel::Text(q.description@)),
        member(quirk_model(q), "impact"@) == Some(JsonModel::Text("workaround"@)),
{
    reveal_strlit("id");
    reveal_strlit("name");
    reveal_strlit("level");
    reveal_strlit("wayland_source");
    reveal_strlit("rdp_capability");
    reveal_strlit("notes");
    reveal_strlit("description");
    reveal_strlit("impact");
    assert("id"@.len() == 2 && "name"@.len() == 4 && "level"@.len() == 5 && "notes"@.len() == 5
        && "level"@[0] == 'l' && "notes"@[0] == 'n');
    assert("wayland_source"@.len() == 14 && "rdp_capability"@.len() == 14 && "wayland_source"@[0]
        == 'w' && "rdp_capability"@[0] == 'r');
    assert("description"@.len() == 11 && "impact"@.len() == 6);
}

/// Each level has a word of its own.
pub proof fn levels_have_their_words(a: ServiceLevel, b: ServiceLevel)
    ensures
        level_word(ServiceLevel::Guaranteed) == "guaranteed"@,
        level_word(ServiceLevel::BestEffort) == "best_effort"@,
        level_word(ServiceLevel::Degraded) == "degraded"@,
        level_word(ServiceLevel::Unavailable) == "unavailable"@,
        level_word(a) == level_word(b) ==> a == b,
{
    reveal_strlit("guaranteed");
    reveal_strlit("best_effort");
    reveal_strlit("degraded");
    reveal_strlit("unavailable");
    assert("guaranteed"@[0] == 'g' && "best_effort"@[0] == 'b' && "degraded"@[0] == 'd'
        && "unavailable"@[0] == 'u');
}

/// The kernel's version is the third word of what it says of itself, whatever follows.
pub proof fn the_third_word_is_the_version(
    a: Seq<char>,
    b: Seq<char>,
    c: Seq<char>,
    rest: Seq<char>,
    text: Seq<char>,
)
    requires
        a.len() > 0,
        b.len() > 0,
        c.len() > 0,
        forall|i: int| 0 <= i < a.len() ==> !is_space(#[trigger] a[i]),
        forall|i: int| 0 <= i < b.len() ==> !is_space(#[trigger] b[i]),
        forall|i: int| 0 <= i < c.len() ==> !is_space(#[trigger] c[i]),
    ensures
        kernel_of(
            Some(a + seq![' '] + (b + seq![' '] + (c + seq![' '] + rest))),
        ) == c,
        words_of(text).len() < 3 ==> kernel_of(Some(text)) == "unknown"@,
        kernel_of(None) == "unknown"@,
{
    white_space_parts_words(c, ' ', rest);
    white_space_parts_words(b, ' ', c + seq![' '] + rest);
    white_space_parts_words(a, ' ', b + seq![' '] + (c + seq![' '] + rest));
    let w = words_of(a + seq![' '] + (b + seq![' '] + (c + seq![' '] + rest)));
    assert(w == seq![a] + (seq![b] + (seq![c] + words_of(rest))));
    assert(w[2] == c);
}

/// The lines tell what the portal can do: a mark for each part of it, and restore tokens
/// from its fourth version on.
pub proof fn the_portal_is_described_in_lines(r: &CapabilityReport)
    ensures
        capability_lines(r).len() == 19,
        capability_lines(r)[4] == "Compositor: "@ + r.compositor@,
        r.compositor_version matches Some(v) ==> capability_lines(r)[5] == "  Version: "@ + v@,
        r.compositor_version is None ==> capability_lines(r)[5] == "  Version: "@ + "unknown"@,
        capability_lines(r)[7] == "Portal: version "@ + decimal(r.portal_version as nat),
        capability_lines(r)[8] == "  ScreenCast: "@ + mark(r.supports_screencast),
        capability_lines(r)[9] == "  RemoteDesktop: "@ + mark(r.supports_remote_desktop),
        capability_lines(r)[10] == "  Clipboard: "@ + mark(r.supports_clipboard),
        r.portal_version >= 4 ==> capability_lines(r)[11] == "  Restore tokens: "@
            + "✅ Supported"@,
        r.portal_version < 4 ==> capability_lines(r)[11] == "  Restore tokens: "@
            + "❌ Not supported (v < 4)"@,
        capability_lines(r)[13] == "Deployment: "@ + r.deployment_text@,
        capability_lines(r)[15] == "Credential Storage: "@ + r.storage_method@,
        capability_lines(r)[16] == "  Encryption: "@ + r.encryption@,
        capability_lines(r)[17] == "  Accessible: "@ + mark(r.accessible),
        mark(true) == "✅"@ && mark(false) == "❌"@,
{
}

} // verus!
