//! The arguments of the command line.

use vstd::prelude::*;
use crate::clipboard::transfer::{join_path, path_in};
use crate::config::types::ServerConfig;
use crate::config::{cert_dir, get_cert_config_dir, Config, HostEnvironment};
use crate::text::{decimal, same_text};

verus! {

/// The arguments of the command line.
#[derive(Clone, Debug)]
pub struct Args {
    /// Path of the configuration file.
    pub config: Option<String>,
    /// Address to listen on.
    pub listen: Option<String>,
    /// Port to listen on.
    pub port: u16,
    /// How much more is logged.
    pub verbose: u8,
    /// Form of the log: `json`, `pretty` or `compact`.
    pub log_format: String,
    /// File that the log also goes to.
    pub log_file: Option<String>,
    /// Ask for the permission to keep sessions, and end.
    pub grant_permission: bool,
    /// Forget the kept sessions, and end.
    pub clear_tokens: bool,
    /// Show what is known of kept sessions, and end.
    pub persistence_status: bool,
    /// Show what the desktop can do, and end.
    pub show_capabilities: bool,
    /// Form in which that is shown: `text` or `json`.
    pub format: String,
    /// Check the set-up, and end.
    pub diagnose: bool,
    /// Offer the management interface on the bus.
    pub dbus_service: bool,
    /// Use the system's bus in place of the session's.
    pub system: bool,
    /// Print a configuration file, and end.
    pub generate_config: bool,
    /// Listen on a virtual socket.
    pub vsock: bool,
    /// Port of the virtual socket.
    pub vsock_port: u16,
}

/// What the program is asked to do.
#[derive(Clone, Copy, Debug, PartialEq, Eq, Structural)]
pub enum Mode {
    GenerateConfig,
    ShowCapabilities,
    PersistenceStatus,
    Diagnose,
    ClearTokens,
    GrantPermission,
    Serve,
}

/// What the program is asked to do. Of several requests the first of this list is
/// met.
pub open spec fn mode_of(a: &Args) -> Mode {
    if a.generate_config {
        Mode::GenerateConfig
    } else if a.show_capabilities {
        Mode::ShowCapabilities
    } else if a.persistence_status {
        Mode::PersistenceStatus
    } else if a.diagnose {
        Mode::Diagnose
    } else if a.clear_tokens {
        Mode::ClearTokens
    } else if a.grant_permission {
        Mode::GrantPermission
    } else {
        Mode::Serve
    }
}

/// Whether nothing but the answer is printed, for other programs to read.
pub open spec fn is_quiet(a: &Args) -> bool {
    a.show_capabilities && a.format@ == "json"@
}

/// The configuration file where none is given: the one in the usual directory if it
/// is there, else the one of the system.
pub open spec fn usual_config_path(env: &HostEnvironment, exists: bool) -> Seq<char> {
    if exists {
        path_in(cert_dir(env), "config.toml"@)
    } else {
        "/etc/lamco-rdp-server/config.toml"@
    }
}

/// `r` is the configuration `c` with what the command line says instead.
pub open spec fn is_applied(a: &Args, c: Config, host: Option<String>, r: Config) -> bool {
    &&& r == (Config {
        server: ServerConfig {
            listen_addr: r.server.listen_addr,
            use_vsock: c.server.use_vsock || a.vsock,
            vsock_port: if a.vsock {
                a.vsock_port
            } else {
                c.server.vsock_port
            },
            ..c.server
        },
        ..c
    })
    &&& r.server.listen_addr@ == match (a.listen, host) {
        (Some(l), _) => l@ + ":"@ + decimal(a.port as nat),
        (None, Some(h)) => h@ + ":"@ + decimal(a.port as nat),
        (None, None) => c.server.listen_addr@,
    }
}

impl Args {
    /// What the program is asked to do.
    pub fn mode(&self) -> (r: Mode)
        ensures
            r == mode_of(self),
    {
        if self.generate_config {
            Mode::GenerateConfig
        } else if self.show_capabilities {
            Mode::ShowCapabilities
        } else if self.persistence_status {
            Mode::PersistenceStatus
        } else if self.diagnose {
            Mode::Diagnose
        } else if self.clear_tokens {
            Mode::ClearTokens
        } else if self.grant_permission {
            Mode::GrantPermission
        } else {
            Mode::Serve
        }
    }

    /// Whether nothing but the answer is printed.
    pub fn quiet(&self) -> (r: bool)
        ensures
            r == is_quiet(self),
    {
        self.show_capabilities && same_text(self.format.as_str(), "json")
    }

    /// The file to look for where no configuration file is given.
    pub fn candidate(&self, env: &HostEnvironment) -> (r: Option<String>)
        ensures
            match r {
                Some(path) => self.config is None && path@ == path_in(
                    cert_dir(env),
                    "config.toml"@,
                ),
                None => self.config is Some,
            },
    {
        match &self.config {
            Some(_) => None,
            None => Some(join_path(get_cert_config_dir(env).as_str(), "config.toml")),
        }
    }

    /// The path of the configuration file.
    pub fn config_path(&self, env: &HostEnvironment, candidate_exists: bool) -> (r: String)
        ensures
            r@ == match self.config {
                Some(path) => path@,
                None => usual_config_path(env, candidate_exists),
            },
    {
        match &self.config {
            Some(path) => path.clone(),
            None => if candidate_exists {
                join_path(get_cert_config_dir(env).as_str(), "config.toml")
            } else {
                "/etc/lamco-rdp-server/config.toml".to_owned()
            },
        }
    }

    /// The configuration with what the command line says instead. A virtual socket
    /// that is configured stays in use where the command line asks for none. `host`
    /// is the address part of the configured listen address, where that is an
    /// address.
    pub fn apply(&self, config: Config, host: Option<String>) -> (r: Config)
        ensures
            is_applied(self, config, host, r),
    {
        let listen = match &self.listen {
            Some(l) => Some(l.clone()),
            None => None,
        };
        let addressed = config.with_overrides(listen, self.port, host);
        if self.vsock {
            addressed.with_vsock(true, self.vsock_port)
        } else {
            addressed
        }
    }
}

/// Printing a configuration file comes before everything else.
pub proof fn generating_wins(a: &Args)
    requires
        a.generate_config,
    ensures
        mode_of(a) == Mode::GenerateConfig,
{
}

/// The server starts only where nothing else is asked for.
pub proof fn serving_is_the_rest(a: &Args)
    ensures
        mode_of(a) == Mode::Serve <==> !a.generate_config && !a.show_capabilities
            && !a.persistence_status && !a.diagnose && !a.clear_tokens && !a.grant_permission,
{
}

/// Each request is met where it is made and none before it in the list is.
pub proof fn requests_are_met_in_order(a: &Args)
    ensures
        mode_of(a) == Mode::GenerateConfig <==> a.generate_config,
        mode_of(a) == Mode::ShowCapabilities <==> a.show_capabilities && !a.generate_config,
        mode_of(a) == Mode::PersistenceStatus <==> a.persistence_status && !a.generate_config
            && !a.show_capabilities,
        mode_of(a) == Mode::Diagnose <==> a.diagnose && !a.generate_config && !a.show_capabilities
            && !a.persistence_status,
        mode_of(a) == Mode::ClearTokens <==> a.clear_tokens && !a.generate_config
            && !a.show_capabilities && !a.persistence_status && !a.diagnose,
        mode_of(a) == Mode::GrantPermission <==> a.grant_permission && !a.generate_config
            && !a.show_capabilities && !a.persistence_status && !a.diagnose && !a.clear_tokens,
{
}

/// Only a report of the capabilities for other programs is printed without anything
/// else.
pub proof fn only_reports_for_programs_are_quiet(a: &Args)
    ensures
        is_quiet(a) <==> a.show_capabilities && a.format@ == seq!['j', 's', 'o', 'n'],
{
    reveal_strlit("json");
    assert("json"@ =~= seq!['j', 's', 'o', 'n']);
}

/// A configuration file in the usual directory is preferred to that of the system.
pub proof fn own_configuration_files_come_first(env: &HostEnvironment)
    ensures
        usual_config_path(env, true) == path_in(cert_dir(env), "config.toml"@),
        usual_config_path(env, false) == "/etc/lamco-rdp-server/config.toml"@,
{
}

/// The command line wins over the configuration in the address, the port and the virtual
/// socket, and leaves all the rest alone. It cannot switch off a virtual socket.
pub proof fn the_command_line_wins(
    a: &Args,
    c: Config,
    l: String,
    h: String,
    host: Option<String>,
    r: Config,
)
    requires
        is_applied(a, c, host, r),
    ensures
        r.server.use_vsock <==> c.server.use_vsock || a.vsock,
        a.vsock ==> r.server.vsock_port == a.vsock_port,
        !a.vsock ==> r.server.vsock_port == c.server.vsock_port,
        a.listen == Some(l) ==> r.server.listen_addr@ == l@ + seq![':'] + decimal(a.port as nat),
        a.listen is None && host == Some(h) ==> r.server.listen_addr@ == h@ + seq![':'] + decimal(
            a.port as nat,
        ),
        a.listen is None && host is None ==> r.server.listen_addr@ == c.server.listen_addr@,
        r == (Config {
            server: ServerConfig {
                listen_addr: r.server.listen_addr,
                use_vsock: r.server.use_vsock,
                vsock_port: r.server.vsock_port,
                ..c.server
            },
            ..c
        }),
{
    reveal_strlit(":");
    assert(":"@ =~= seq![':']);
}

} // verus!
