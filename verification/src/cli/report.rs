//! Reports on the set-up.

use vstd::prelude::*;
use vstd::string::StringExecFns;
use crate::text::{decimal, decimal_text, joined, views};

verus! {

/// What is known of kept sessions.
#[derive(Clone, Debug)]
pub struct PersistenceReport {
    pub deployment: String,
    pub storage_method: String,
    pub encryption: String,
    /// Whether a session was kept.
    pub has_token: bool,
}

/// The lines on kept sessions.
pub open spec fn persistence_lines(p: &PersistenceReport) -> Seq<Seq<char>> {
    seq![
        "╔════════════════════════════════════════════════════════╗"@,
        "║         Session Persistence Status                     ║"@,
        "╚════════════════════════════════════════════════════════╝"@,
        ""@,
        "Deployment: "@ + p.deployment@,
        "Storage: "@ + p.storage_method@ + " ("@ + p.encryption@ + ")"@,
        "Token Status: "@ + if p.has_token {
            "✅ Available"@
        } else {
            "❌ Not found"@
        },
        ""@,
    ] + if p.has_token {
        seq!["✅ Server can start without permission dialog"@]
    } else {
        seq![
            "⚠️  Server will show permission dialog on next start"@,
            "   Run with --grant-permission to obtain token"@,
        ]
    }
}

/// The lines on kept sessions.
pub fn show_persistence_status(p: &PersistenceReport) -> (v: Vec<String>)
    ensures
        views(v@) == persistence_lines(p),
{
    let mut storage = joined("Storage: ", p.storage_method.as_str());
    storage.append(" (");
    storage.append(p.encryption.as_str());
    storage.append(")");
    let mut v: Vec<String> = Vec::new();
    v.push("╔════════════════════════════════════════════════════════╗".to_owned());
    v.push("║         Session Persistence Status                     ║".to_owned());
    v.push("╚════════════════════════════════════════════════════════╝".to_owned());
    v.push("".to_owned());
    v.push(joined("Deployment: ", p.deployment.as_str()));
    v.push(storage);
    if p.has_token {
        v.push(joined("Token Status: ", "✅ Available"));
    } else {
        v.push(joined("Token Status: ", "❌ Not found"));
    }
    v.push("".to_owned());
    if p.has_token {
        v.push("✅ Server can start without permission dialog".to_owned());
    } else {
        v.push("⚠️  Server will show permission dialog on next start".to_owned());
        v.push("   Run with --grant-permission to obtain token".to_owned());
    }
    assert(views(v@) =~= persistence_lines(p));
    v
}

/// The lines that introduce the request for the permission to keep sessions.
pub open spec fn grant_lines() -> Seq<Seq<char>> {
    seq![
        "╔════════════════════════════════════════════════════════╗"@,
        "║         Permission Grant Flow                          ║"@,
        "╚════════════════════════════════════════════════════════╝"@,
        ""@,
        "This will:"@,
        "  1. Trigger portal permission dialog"@,
        "  2. Obtain restore token after you grant permission"@,
        "  3. Store token securely for future use"@,
        "  4. Exit (server will not start)"@,
        ""@,
        "When the dialog appears, click 'Allow' to grant permission."@,
        ""@,
    ]
}

/// The lines that introduce the request for the permission to keep sessions.
pub fn grant_introduction() -> (v: Vec<String>)
    ensures
        views(v@) == grant_lines(),
{
    let mut v: Vec<String> = Vec::new();
    v.push("╔════════════════════════════════════════════════════════╗".to_owned());
    v.push("║         Permission Grant Flow                          ║".to_owned());
    v.push("╚════════════════════════════════════════════════════════╝".to_owned());
    v.push("".to_owned());
    v.push("This will:".to_owned());
    v.push("  1. Trigger portal permission dialog".to_owned());
    v.push("  2. Obtain restore token after you grant permission".to_owned());
    v.push("  3. Store token securely for future use".to_owned());
    v.push("  4. Exit (server will not start)".to_owned());
    v.push("".to_owned());
    v.push("When the dialog appears, click 'Allow' to grant permission.".to_owned());
    v.push("".to_owned());
    assert(views(v@) =~= grant_lines());
    v
}

/// One check of the set-up and what it found.
#[derive(Clone, Debug)]
pub enum Check {
    /// Whether a Wayland session runs.
    Wayland(bool),
    /// Why the session's bus cannot be reached, if it cannot.
    Bus(Option<String>),
    /// Name of the compositor, if it is known.
    Compositor(Option<String>),
    /// The portal can do all that is needed.
    PortalFull { version: u32 },
    /// The portal can do a part of it.
    PortalPartial,
    /// The portal cannot be reached.
    PortalFailed(String),
    /// The deployment in words.
    Deployment(String),
    /// How credentials are stored, and whether the store can be opened.
    Storage { method: String, encryption: String, accessible: bool },
    /// Whether a session was kept.
    Token(bool),
    /// Whether the machine's identifier is in its usual place, or in the older one.
    MachineId { usual: bool, fallback: bool },
}

/// What is shown before a check is made.
pub open spec fn check_label(c: &Check) -> Seq<char> {
    match c {
        Check::Wayland(_) => "[  ] Wayland session... "@,
        Check::Bus(_) => "[  ] D-Bus session bus... "@,
        Check::Compositor(_) => "[  ] Compositor identification... "@,
        Check::PortalFull { .. } | Check::PortalPartial | Check::PortalFailed(_) =>
            "[  ] Portal connection... "@,
        Check::Deployment(_) => "[  ] Deployment context... "@,
        Check::Storage { .. } => "[  ] Credential storage... "@,
        Check::Token(_) => "[  ] Restore token... "@,
        Check::MachineId { .. } => "[  ] Machine ID... "@,
    }
}

/// What is shown of a check that was made.
pub open spec fn check_result(c: &Check) -> Seq<char> {
    match c {
        Check::Wayland(true) => "✅"@,
        Check::Wayland(false) => "❌ Not in Wayland session"@,
        Check::Bus(None) => "✅"@,
        Check::Bus(Some(e)) => "❌ "@ + e@,
        Check::Compositor(Some(name)) => "✅ "@ + name@,
        Check::Compositor(None) => "⚠️  Unknown (using generic support)"@,
        Check::PortalFull { version } => "✅ v"@ + decimal(*version as nat),
        Check::PortalPartial => "⚠️  Partial support"@,
        Check::PortalFailed(e) => "❌ "@ + e@,
        Check::Deployment(d) => "✅ "@ + d@,
        Check::Storage { method, encryption, accessible } => if *accessible {
            "✅ "@ + method@ + " ("@ + encryption@ + ")"@
        } else {
            "⚠️  "@ + method@ + " (locked)"@
        },
        Check::Token(true) => "✅ Available"@,
        Check::Token(false) => "❌ Not found"@,
        Check::MachineId { usual, fallback } => if *usual {
            "✅ Available"@
        } else if *fallback {
            "✅ Available (fallback location)"@
        } else {
            "⚠️  Not found (will use hostname)"@
        },
    }
}

impl Check {
    /// What is shown of this check: its name and what it found.
    pub fn line(&self) -> (r: String)
        ensures
            r@ == check_label(self) + check_result(self),
    {
        match self {
            Check::Wayland(there) => if *there {
                joined("[  ] Wayland session... ", "✅")
            } else {
                joined("[  ] Wayland session... ", "❌ Not in Wayland session")
            },
            Check::Bus(error) => match error {
                None => joined("[  ] D-Bus session bus... ", "✅"),
                Some(e) => joined(
                    "[  ] D-Bus session bus... ",
                    joined("❌ ", e.as_str()).as_str(),
                ),
            },
            Check::Compositor(name) => match name {
                Some(n) => joined(
                    "[  ] Compositor identification... ",
                    joined("✅ ", n.as_str()).as_str(),
                ),
                None => joined(
                    "[  ] Compositor identification... ",
                    "⚠️  Unknown (using generic support)",
                ),
            },
            Check::PortalFull { version } => joined(
                "[  ] Portal connection... ",
                joined("✅ v", decimal_text(*version as u64).as_str()).as_str(),
            ),
            Check::PortalPartial => joined("[  ] Portal connection... ", "⚠️  Partial support"),
            Check::PortalFailed(e) => joined(
                "[  ] Portal connection... ",
                joined("❌ ", e.as_str()).as_str(),
            ),
            Check::Deployment(d) => joined(
                "[  ] Deployment context... ",
                joined("✅ ", d.as_str()).as_str(),
            ),
            Check::Storage { method, encryption, accessible } => {
                let mut found = if *accessible {
                    joined("✅ ", method.as_str())
                } else {
                    joined("⚠️  ", method.as_str())
                };
                if *accessible {
                    found.append(" (");
                    found.append(encryption.as_str());
                    found.append(")");
                } else {
                    found.append(" (locked)");
                }
                joined("[  ] Credential storage... ", found.as_str())
            },
            Check::Token(there) => if *there {
                joined("[  ] Restore token... ", "✅ Available")
            } else {
                joined("[  ] Restore token... ", "❌ Not found")
            },
            Check::MachineId { usual, fallback } => if *usual {
                joined("[  ] Machine ID... ", "✅ Available")
            } else if *fallback {
                joined("[  ] Machine ID... ", "✅ Available (fallback location)")
            } else {
                joined("[  ] Machine ID... ", "⚠️  Not found (will use hostname)")
            },
        }
    }
}

/// What a portal that can be reached is good for.
pub fn portal_check(version: u32, screencast: bool, remote_desktop: bool) -> (r: Check)
    ensures
        r == (if screencast && remote_desktop {
            Check::PortalFull { version }
        } else {
            Check::PortalPartial
        }),
{
    if screencast && remote_desktop {
        Check::PortalFull { version }
    } else {
        Check::PortalPartial
    }
}

/// The lines before, between and after the checks of the set-up.
pub open spec fn diagnostic_lines(checks: Seq<Check>) -> Seq<Seq<char>> {
    seq![
        "╔════════════════════════════════════════════════════════╗"@,
        "║         Diagnostic Report                              ║"@,
        "╚════════════════════════════════════════════════════════╝"@,
        ""@,
    ] + checks.map_values(|c: Check| check_label(&c) + check_result(&c)) + seq![
        ""@,
        "SUMMARY:"@,
        "  Run --show-capabilities for detailed capability report"@,
        "  Run --persistence-status for session persistence details"@,
    ]
}

/// The report on the checks of the set-up.
pub fn run_diagnostics(checks: &[Check]) -> (v: Vec<String>)
    ensures
        views(v@) == diagnostic_lines(checks@),
{
    let ghost head = seq![
        "╔════════════════════════════════════════════════════════╗"@,
        "║         Diagnostic Report                              ║"@,
        "╚════════════════════════════════════════════════════════╝"@,
        ""@,
    ];
    let mut v: Vec<String> = Vec::new();
    v.push("╔════════════════════════════════════════════════════════╗".to_owned());
    v.push("║         Diagnostic Report                              ║".to_owned());
    v.push("╚════════════════════════════════════════════════════════╝".to_owned());
    v.push("".to_owned());
    let ghost found = checks@.map_values(|c: Check| check_label(&c) + check_result(&c));
    assert(views(v@) =~= head + found.take(0));
    let mut i: usize = 0;
    while i < checks.len()
        invariant
            i <= checks@.len(),
            found == checks@.map_values(|c: Check| check_label(&c) + check_result(&c)),
            views(v@) == head + found.take(i as int),
        decreases checks@.len() - i,
    {
        let ghost before = views(v@);
        let line = checks[i].line();
        v.push(line);
        i += 1;
        assert(views(v@) =~= before.push(line@));
        assert(views(v@) =~= head + found.take(i as int));
    }
    assert(found.take(i as int) =~= found);
    v.push("".to_owned());
    v.push("SUMMARY:".to_owned());
    v.push("  Run --show-capabilities for detailed capability report".to_owned());
    v.push("  Run --persistence-status for session persistence details".to_owned());
    assert(views(v@) =~= diagnostic_lines(checks@));
    v
}

/// Each check is reported on a line of its own, in the order in which it was made.
pub proof fn each_check_has_its_line(checks: Seq<Check>, i: int)
    requires
        0 <= i < checks.len(),
    ensures
        diagnostic_lines(checks).len() == checks.len() + 8,
        diagnostic_lines(checks)[i + 4] == check_label(&checks[i]) + check_result(&checks[i]),
{
}

/// A check that found all well is marked so, one that found something wrong is not: each
/// result begins with a mark, and only what is there and can be used has the good one.
pub proof fn good_results_are_marked(c: &Check)
    ensures
        check_result(c).len() > 0,
        check_result(c)[0] == '✅' <==> match c {
            Check::Wayland(there) => *there,
            Check::Bus(error) => error is None,
            Check::Compositor(name) => name is Some,
            Check::PortalFull { .. } => true,
            Check::PortalPartial => false,
            Check::PortalFailed(_) => false,
            Check::Deployment(_) => true,
            Check::Storage { method, encryption, accessible } => *accessible,
            Check::Token(there) => *there,
            Check::MachineId { usual, fallback } => *usual || *fallback,
        },
{
    reveal_strlit("✅");
    reveal_strlit("❌ Not in Wayland session");
    reveal_strlit("❌ ");
    reveal_strlit("✅ ");
    reveal_strlit("⚠️  Unknown (using generic support)");
    reveal_strlit("✅ v");
    reveal_strlit("⚠️  Partial support");
    reveal_strlit("⚠️  ");
    reveal_strlit("✅ Available");
    reveal_strlit("❌ Not found");
    reveal_strlit("✅ Available (fallback location)");
    reveal_strlit("⚠️  Not found (will use hostname)");
    assert("✅"@[0] == '✅');
    assert("❌ Not in Wayland session"@[0] == '❌');
    assert("❌ "@[0] == '❌');
    assert("✅ "@[0] == '✅');
    assert("⚠️  Unknown (using generic support)"@[0] == '⚠');
    assert("✅ v"@[0] == '✅');
    assert("⚠️  Partial support"@[0] == '⚠');
    assert("⚠️  "@[0] == '⚠');
    assert("✅ Available"@[0] == '✅');
    assert("❌ Not found"@[0] == '❌');
    assert("✅ Available (fallback location)"@[0] == '✅');
    assert("⚠️  Not found (will use hostname)"@[0] == '⚠');
}

/// What a check found is told: the reason of a failure, the name of what is there, and
/// how credentials are kept.
pub proof fn results_tell_what_was_found(text: String, encryption: String, version: u32)
    ensures
        check_result(&Check::Bus(Some(text))) == "❌ "@ + text@,
        check_result(&Check::PortalFailed(text)) == "❌ "@ + text@,
        check_result(&Check::Compositor(Some(text))) == "✅ "@ + text@,
        check_result(&Check::Deployment(text)) == "✅ "@ + text@,
        check_result(&Check::PortalFull { version }) == "✅ v"@ + decimal(version as nat),
        check_result(&Check::Storage { method: text, encryption, accessible: true }) == "✅ "@
            + text@ + " ("@ + encryption@ + ")"@,
        check_result(&Check::Storage { method: text, encryption, accessible: false }) == "⚠️  "@
            + text@ + " (locked)"@,
{
}

/// The report says whether the server can start without asking, and only where it cannot
/// how to make it so.
pub proof fn status_tells_what_the_next_start_does(p: &PersistenceReport)
    ensures
        persistence_lines(p)[4] == "Deployment: "@ + p.deployment@,
        persistence_lines(p)[5] == "Storage: "@ + p.storage_method@ + " ("@ + p.encryption@ + ")"@,
        p.has_token ==> persistence_lines(p).len() == 9 && persistence_lines(p)[6]
            == "Token Status: "@ + "✅ Available"@ && persistence_lines(p)[8]
            == "✅ Server can start without permission dialog"@,
        !p.has_token ==> persistence_lines(p).len() == 10 && persistence_lines(p)[6]
            == "Token Status: "@ + "❌ Not found"@ && persistence_lines(p)[8]
            == "⚠️  Server will show permission dialog on next start"@ && persistence_lines(p)[9]
            == "   Run with --grant-permission to obtain token"@,
{
}

} // verus!
