//! How clients are served one after the other until the server stops.

use vstd::prelude::*;
use crate::config::Config;
use crate::security::rate_limit::SECOND;
use crate::security::session_token::{is_random_id, random_id};
use crate::text::{contains, joined, occurs_at, occurs_in, same_text};

verus! {

/// The words for a security mode in the log.
pub open spec fn label_of(security_mode: Seq<char>) -> Seq<char> {
    if security_mode == "hybrid"@ {
        "Hybrid (NLA/CredSSP)"@
    } else if security_mode == "auto"@ {
        "Auto"@
    } else {
        "TLS"@
    }
}

/// The words for a security mode in the log.
pub fn security_label(security_mode: &str) -> (r: String)
    ensures
        r@ == label_of(security_mode@),
{
    if same_text(security_mode, "hybrid") {
        "Hybrid (NLA/CredSSP)".to_owned()
    } else if same_text(security_mode, "auto") {
        "Auto".to_owned()
    } else {
        "TLS".to_owned()
    }
}

/// Whether network-level authentication is in effect: where it is asked for, and by
/// `auto` where users are authenticated.
pub open spec fn hybrid_in_effect(security_mode: Seq<char>, auth_method: Seq<char>) -> bool {
    security_mode == "hybrid"@ || security_mode == "auto"@ && auth_method != "none"@
}

/// Whether network-level authentication is in effect.
pub fn resolve_security_mode(security_mode: &str, effective_auth_method: &str) -> (r: bool)
    ensures
        r == hybrid_in_effect(security_mode@, effective_auth_method@),
{
    if same_text(security_mode, "hybrid") {
        true
    } else if same_text(security_mode, "auto") {
        !same_text(effective_auth_method, "none")
    } else {
        false
    }
}

/// The authentication method in effect: the configured one, but the recommended one
/// where the authentication modules are wanted and not available.
pub open spec fn auth_in_effect(
    configured: Seq<char>,
    pam_available: bool,
    recommended: Seq<char>,
) -> Seq<char> {
    if configured == "pam"@ && !pam_available {
        recommended
    } else {
        configured
    }
}

/// How the server authenticates and what it listens on.
#[derive(Clone, Debug)]
pub struct ServicePlan {
    pub auth_method: String,
    /// Whether network-level authentication is in effect.
    pub hybrid: bool,
    /// Whether credentials go to the authentication modules.
    pub use_pam: bool,
    pub transport: Transport,
}

/// What clients connect through.
#[derive(Clone, Copy, Debug, PartialEq, Eq, Structural)]
pub enum Transport {
    Tcp,
    /// A virtual socket.
    Vsock,
}

/// How the server authenticates and what it listens on. A virtual socket is used
/// only where support for it is built in.
pub open spec fn is_plan(
    p: ServicePlan,
    config: Config,
    pam_available: bool,
    recommended: Seq<char>,
    vsock_built_in: bool,
) -> bool {
    &&& p.auth_method@ == auth_in_effect(config.security.auth_method@, pam_available, recommended)
    &&& p.hybrid == hybrid_in_effect(config.security.security_mode@, p.auth_method@)
    &&& p.use_pam == (p.auth_method@ == "pam"@)
    &&& p.transport == (if vsock_built_in && config.server.use_vsock {
        Transport::Vsock
    } else {
        Transport::Tcp
    })
}

/// Decides how the server authenticates and what it listens on.
pub fn plan_service(
    config: &Config,
    pam_available: bool,
    recommended: &str,
    vsock_built_in: bool,
) -> (r: ServicePlan)
    ensures
        is_plan(r, *config, pam_available, recommended@, vsock_built_in),
{
    let configured = config.security.auth_method.as_str();
    let auth_method = if same_text(configured, "pam") && !pam_available {
        recommended.to_owned()
    } else {
        configured.to_owned()
    };
    let hybrid = resolve_security_mode(
        config.security.security_mode.as_str(),
        auth_method.as_str(),
    );
    let use_pam = same_text(auth_method.as_str(), "pam");
    let transport = if vsock_built_in && config.server.use_vsock {
        Transport::Vsock
    } else {
        Transport::Tcp
    };
    ServicePlan { auth_method, hybrid, use_pam, transport }
}

/// A change of the server's state that others are told of.
#[derive(Clone, Debug)]
pub struct StatusChange {
    pub old: String,
    pub new: String,
    pub message: String,
}

/// The server starts to listen.
pub fn listening(config: &Config) -> (r: StatusChange)
    ensures
        r@ == start_event(*config),
{
    StatusChange {
        old: "starting".to_owned(),
        new: "running".to_owned(),
        message: joined("Listening on ", config.server.listen_addr.as_str()),
    }
}

fn stopped(message: &str) -> (r: StatusChange)
    ensures
        r@ == stop_event(message@),
{
    StatusChange {
        old: "running".to_owned(),
        new: "stopped".to_owned(),
        message: message.to_owned(),
    }
}

/// What others are told while the server runs.
pub enum RunEvent {
    Status { old: Seq<char>, new: Seq<char>, message: Seq<char> },
    /// A client with this name has connected.
    Connected(Seq<char>),
    /// The client with this name has gone.
    Disconnected(Seq<char>),
}

impl View for StatusChange {
    type V = RunEvent;

    open spec fn view(&self) -> RunEvent {
        RunEvent::Status { old: self.old@, new: self.new@, message: self.message@ }
    }
}

/// A client has connected.
#[derive(Clone, Debug)]
pub struct ClientConnected {
    pub client_id: String,
    pub peer_address: String,
    /// Seconds since the epoch.
    pub timestamp: u64,
}

/// A client has gone.
#[derive(Clone, Debug)]
pub struct ClientDisconnected {
    pub client_id: String,
    pub reason: String,
    pub duration_seconds: u64,
}

impl View for ClientConnected {
    type V = RunEvent;

    open spec fn view(&self) -> RunEvent {
        RunEvent::Connected(self.client_id@)
    }
}

impl View for ClientDisconnected {
    type V = RunEvent;

    open spec fn view(&self) -> RunEvent {
        RunEvent::Disconnected(self.client_id@)
    }
}

/// A name for a client: a prefix and a random identifier.
pub open spec fn is_client_id(s: Seq<char>) -> bool {
    exists|id: Seq<char>| #[trigger] is_random_id(id) && s == "rdp-"@ + id
}

/// How a connection failed.
#[derive(Clone, Copy, Debug, PartialEq, Eq, Structural)]
pub enum ConnectionFailure {
    /// Reset within a second, as by a client that only probes.
    Probe,
    /// Reset later: a session was lost.
    SessionLost,
    Error,
}

/// Whether an error says that the peer reset the connection.
pub open spec fn says_reset(message: Seq<char>) -> bool {
    occurs_in(message, "Connection reset by peer"@) || occurs_in(message, "os error 104"@)
}

/// How a connection failed that lasted `nanos` nanoseconds.
pub open spec fn failure_of(message: Seq<char>, nanos: u128) -> ConnectionFailure {
    if says_reset(message) && nanos < SECOND {
        ConnectionFailure::Probe
    } else if says_reset(message) {
        ConnectionFailure::SessionLost
    } else {
        ConnectionFailure::Error
    }
}

/// Decides how a connection failed that lasted `nanos` nanoseconds.
pub fn connection_failure(message: &str, nanos: u128) -> (r: ConnectionFailure)
    ensures
        r == failure_of(message@, nanos),
{
    let is_reset = contains(message, "Connection reset by peer") || contains(
        message,
        "os error 104",
    );
    if is_reset && nanos < SECOND {
        ConnectionFailure::Probe
    } else if is_reset {
        ConnectionFailure::SessionLost
    } else {
        ConnectionFailure::Error
    }
}

/// What follows when a client was accepted.
pub struct Accepted {
    pub event: ClientConnected,
    /// Whether the peer's address is noted, for the limit on failed attempts.
    pub note_peer: bool,
}

/// What follows when a connection has ended.
pub struct Ended {
    /// How it failed, if it did.
    pub failure: Option<ConnectionFailure>,
    pub event: ClientDisconnected,
    /// Whether long past failed attempts are forgotten.
    pub forget_stale: bool,
}

/// The server: what it was set up with, and where it stands.
pub struct LamcoRdpServer {
    config: Config,
    has_clipboard: bool,
    has_portal_session: bool,
    transport: Transport,
    use_pam: bool,
    client: Option<String>,
    leaving: bool,
    running: bool,
    cleanup_done: bool,
}

/// Where the server stands.
#[verifier::ext_equal]
pub struct ServerView {
    pub config: Config,
    /// Whether there is a clipboard to stop at the end.
    pub has_clipboard: bool,
    /// Whether there is a portal session to close at the end.
    pub has_portal_session: bool,
    pub transport: Transport,
    /// Whether credentials go to the authentication modules.
    pub use_pam: bool,
    /// The client that is served.
    pub client: Option<Seq<char>>,
    /// Whether a client has gone and is still to be cleaned up after.
    pub leaving: bool,
    /// Whether clients are accepted.
    pub running: bool,
    pub cleanup_done: bool,
}

impl View for LamcoRdpServer {
    type V = ServerView;

    closed spec fn view(&self) -> ServerView {
        ServerView {
            config: self.config,
            has_clipboard: self.has_clipboard,
            has_portal_session: self.has_portal_session,
            transport: self.transport,
            use_pam: self.use_pam,
            client: match self.client {
                Some(id) => Some(id@),
                None => None,
            },
            leaving: self.leaving,
            running: self.running,
            cleanup_done: self.cleanup_done,
        }
    }
}

/// Where a server stands that begins to run by the plan `p`.
pub open spec fn begun(v: ServerView, p: ServicePlan) -> ServerView {
    ServerView {
        transport: p.transport,
        use_pam: p.use_pam,
        client: None,
        leaving: false,
        running: true,
        ..v
    }
}

/// What happens first when the server runs.
pub struct RunStart {
    pub plan: ServicePlan,
    /// The words for the security mode in the log.
    pub security_label: String,
    pub status: StatusChange,
}

impl LamcoRdpServer {
    /// A server that was set up and does not run yet.
    pub fn new(config: Config, has_clipboard: bool, has_portal_session: bool) -> (r: Self)
        ensures
            r@ == (ServerView {
                config,
                has_clipboard,
                has_portal_session,
                transport: Transport::Tcp,
                use_pam: false,
                client: None,
                leaving: false,
                running: false,
                cleanup_done: false,
            }),
    {
        LamcoRdpServer {
            config,
            has_clipboard,
            has_portal_session,
            transport: Transport::Tcp,
            use_pam: false,
            client: None,
            leaving: false,
            running: false,
            cleanup_done: false,
        }
    }

    /// The server begins to run.
    pub fn run(&mut self, pam_available: bool, recommended: &str, vsock_built_in: bool) -> (r:
        RunStart)
        ensures
            is_plan(r.plan, old(self)@.config, pam_available, recommended@, vsock_built_in),
            r.security_label@ == label_of(old(self)@.config.security.security_mode@),
            r.status@ == start_event(old(self)@.config),
            final(self)@ == begun(old(self)@, r.plan),
            takes_client(final(self)@),
    {
        let plan = plan_service(&self.config, pam_available, recommended, vsock_built_in);
        self.transport = plan.transport;
        self.use_pam = plan.use_pam;
        self.client = None;
        self.leaving = false;
        self.running = true;
        RunStart {
            plan,
            security_label: security_label(self.config.security.security_mode.as_str()),
            status: listening(&self.config),
        }
    }

    /// Whether clients are served. Once they no longer are, the run ends without an
    /// error.
    pub fn is_running(&self) -> (r: bool)
        ensures
            r == self@.running,
    {
        self.running
    }

    /// A client asks to be served. It is turned away unless the server runs and has
    /// no other client.
    pub fn accepted(&mut self, peer: &str, timestamp: u64) -> (r: Option<Accepted>)
        ensures
            client_answered(old(self)@, final(self)@, peer@, timestamp, r),
    {
        if !self.running || self.leaving || self.client.is_some() {
            return None;
        }
        let id = random_id();
        let client_id = joined("rdp-", id.as_str());
        assert(is_client_id(client_id@)) by {
            assert(is_random_id(id@));
        }
        self.client = Some(client_id.clone());
        Some(
            Accepted {
                event: ClientConnected { client_id, peer_address: peer.to_owned(), timestamp },
                note_peer: self.use_pam && self.transport == Transport::Tcp,
            },
        )
    }

    /// The client's connection has ended after `nanos` nanoseconds, with an error or
    /// without. Nothing follows if no client is served.
    pub fn connection_ended(&mut self, error: Option<&str>, nanos: u128) -> (r: Option<Ended>)
        requires
            nanos / SECOND <= u64::MAX,
        ensures
            final(self)@ == loop_state(old(self)@, LoopCall::Ended),
            end_followed(
                old(self)@,
                match error {
                    Some(message) => Some(message@),
                    None => None,
                },
                nanos,
                r,
            ),
    {
        let client = self.client.take();
        match client {
            None => None,
            Some(client_id) => {
                self.leaving = true;
                let failure = match error {
                    Some(message) => Some(connection_failure(message, nanos)),
                    None => None,
                };
                let duration_seconds: u64 = (nanos / SECOND) as u64;
                Some(
                    Ended {
                        failure,
                        event: ClientDisconnected {
                            client_id,
                            reason: "Connection ended".to_owned(),
                            duration_seconds,
                        },
                        forget_stale: self.use_pam && self.transport == Transport::Tcp,
                    },
                )
            },
        }
    }

    /// What a client left behind was cleaned up; the loop goes on if further clients
    /// can be served.
    pub fn disconnect_handled(&mut self, accepts_more: bool) -> (r: Option<StatusChange>)
        ensures
            final(self)@ == loop_state(old(self)@, LoopCall::Handled { accepts_more }),
            match r {
                Some(change) => loop_event(old(self)@, LoopCall::Handled { accepts_more }) == Some(
                    change@,
                ),
                None => loop_event(old(self)@, LoopCall::Handled { accepts_more }) is None,
            },
    {
        if !self.leaving {
            return None;
        }
        self.leaving = false;
        if accepts_more {
            None
        } else {
            self.running = false;
            Some(stopped("Session invalidated by compositor"))
        }
    }

    /// The server is told to stop. That is heard between two clients; others are told
    /// of it where clients connect by TCP.
    pub fn shutdown_requested(&mut self) -> (r: Option<StatusChange>)
        ensures
            final(self)@ == loop_state(old(self)@, LoopCall::Shutdown),
            match r {
                Some(change) => loop_event(old(self)@, LoopCall::Shutdown) == Some(change@),
                None => loop_event(old(self)@, LoopCall::Shutdown) is None,
            },
    {
        if !self.running || self.leaving || self.client.is_some() {
            return None;
        }
        self.running = false;
        match self.transport {
            Transport::Tcp => Some(stopped("Shutdown requested")),
            Transport::Vsock => None,
        }
    }
}

/// What a client that asks to be served is answered: where the server takes none, it is
/// turned away and nothing changes.
pub open spec fn client_answered(
    before: ServerView,
    after: ServerView,
    peer: Seq<char>,
    timestamp: u64,
    r: Option<Accepted>,
) -> bool {
    match r {
        None => !takes_client(before) && after == before,
        Some(a) => {
            let call = LoopCall::Accepted(a.event.client_id@);
            &&& takes_client(before)
            &&& after == loop_state(before, call)
            &&& loop_event(before, call) == Some(a.event@)
            &&& is_client_id(a.event.client_id@)
            &&& a.event.peer_address@ == peer
            &&& a.event.timestamp == timestamp
            &&& a.note_peer == (before.use_pam && before.transport == Transport::Tcp)
        },
    }
}

/// What follows when a connection has ended after `nanos` nanoseconds.
pub open spec fn end_followed(
    before: ServerView,
    error: Option<Seq<char>>,
    nanos: u128,
    r: Option<Ended>,
) -> bool {
    match r {
        None => loop_event(before, LoopCall::Ended) is None,
        Some(e) => {
            &&& loop_event(before, LoopCall::Ended) == Some(e.event@)
            &&& e.event.reason@ == "Connection ended"@
            &&& e.event.duration_seconds == nanos / SECOND
            &&& e.failure == (match error {
                Some(message) => Some(failure_of(message, nanos)),
                None => None,
            })
            &&& e.forget_stale == (before.use_pam && before.transport == Transport::Tcp)
        },
    }
}

/// What happens to a running server.
pub enum LoopCall {
    /// A client asks to be served, and would get this name.
    Accepted(Seq<char>),
    /// The connection has ended.
    Ended,
    /// The client was cleaned up after.
    Handled { accepts_more: bool },
    /// The server is told to stop.
    Shutdown,
}

/// Whether a client can be served: the server runs, and is done with the last one.
pub open spec fn takes_client(v: ServerView) -> bool {
    v.running && !v.leaving && v.client is None
}

/// What the server says when it stops.
pub open spec fn stop_event(message: Seq<char>) -> RunEvent {
    RunEvent::Status { old: "running"@, new: "stopped"@, message }
}

/// Where the server stands afterwards.
pub open spec fn loop_state(v: ServerView, call: LoopCall) -> ServerView {
    match call {
        LoopCall::Accepted(id) => if takes_client(v) {
            ServerView { client: Some(id), ..v }
        } else {
            v
        },
        LoopCall::Ended => if v.client is Some {
            ServerView { client: None, leaving: true, ..v }
        } else {
            v
        },
        LoopCall::Handled { accepts_more } => if v.leaving {
            ServerView { leaving: false, running: v.running && accepts_more, ..v }
        } else {
            v
        },
        LoopCall::Shutdown => if takes_client(v) {
            ServerView { running: false, ..v }
        } else {
            v
        },
    }
}

/// What others are told of it.
pub open spec fn loop_event(v: ServerView, call: LoopCall) -> Option<RunEvent> {
    match call {
        LoopCall::Accepted(id) => if takes_client(v) {
            Some(RunEvent::Connected(id))
        } else {
            None
        },
        LoopCall::Ended => match v.client {
            Some(id) => Some(RunEvent::Disconnected(id)),
            None => None,
        },
        LoopCall::Handled { accepts_more } => if v.leaving && !accepts_more {
            Some(stop_event("Session invalidated by compositor"@))
        } else {
            None
        },
        LoopCall::Shutdown => if takes_client(v) && v.transport == Transport::Tcp {
            Some(stop_event("Shutdown requested"@))
        } else {
            None
        },
    }
}

/// Where the server stands after all of `calls`.
pub open spec fn state_after(v: ServerView, calls: Seq<LoopCall>) -> ServerView
    decreases calls.len(),
{
    if calls.len() == 0 {
        v
    } else {
        loop_state(state_after(v, calls.drop_last()), calls.last())
    }
}

/// What others are told in the course of `calls`, in order.
pub open spec fn events_of(v: ServerView, calls: Seq<LoopCall>) -> Seq<RunEvent>
    decreases calls.len(),
{
    if calls.len() == 0 {
        Seq::empty()
    } else {
        let before = events_of(v, calls.drop_last());
        match loop_event(state_after(v, calls.drop_last()), calls.last()) {
            Some(e) => before.push(e),
            None => before,
        }
    }
}

/// What others are told when a run begins.
pub open spec fn start_event(c: Config) -> RunEvent {
    RunEvent::Status {
        old: "starting"@,
        new: "running"@,
        message: "Listening on "@ + c.server.listen_addr@,
    }
}

/// What others are told of a run until the clean-up begins: its beginning, and what
/// happens in the course of `calls`. `v` is where the server stands when it begins.
pub open spec fn run_events(v: ServerView, calls: Seq<LoopCall>) -> Seq<RunEvent> {
    seq![start_event(v.config)] + events_of(v, calls)
}

/// How a part of the session is.
#[derive(Clone, Copy, Debug, PartialEq, Eq, Structural)]
pub enum OverallHealth {
    Healthy,
    Degraded,
    Invalid,
}

/// What is known of a session's health.
#[derive(Clone, Copy, Debug, PartialEq, Eq, Structural)]
pub struct SessionHealth {
    /// Whether the desktop has destroyed the session.
    pub session_failed: bool,
    pub overall: OverallHealth,
}

/// How the server goes on after a client has left.
#[derive(Clone, Copy, Debug, PartialEq, Eq, Structural)]
pub enum AfterClient {
    /// It takes the next client.
    Ready,
    /// It takes the next client, though parts of the session are impaired.
    Impaired,
    /// It takes the next client, whose connection restarts what has failed.
    Restart,
    /// The session is gone for good.
    Stop,
}

impl AfterClient {
    /// Whether another client can be served.
    pub open spec fn accepts(&self) -> bool {
        *self != AfterClient::Stop
    }

    /// Whether another client can be served.
    pub fn accepts_more(&self) -> (r: bool)
        ensures
            r == self.accepts(),
    {
        match self {
            AfterClient::Stop => false,
            _ => true,
        }
    }
}

/// How the server goes on after a client has left: only a session that the desktop
/// has destroyed cannot be used again.
pub open spec fn after_client(health: Option<SessionHealth>) -> AfterClient {
    match health {
        None => AfterClient::Ready,
        Some(h) => if h.session_failed {
            AfterClient::Stop
        } else {
            match h.overall {
                OverallHealth::Invalid => AfterClient::Restart,
                OverallHealth::Degraded => AfterClient::Impaired,
                OverallHealth::Healthy => AfterClient::Ready,
            }
        },
    }
}

/// Decides how the server goes on after a client has left.
pub fn on_disconnect(health: Option<SessionHealth>) -> (r: AfterClient)
    ensures
        r == after_client(health),
{
    match health {
        None => AfterClient::Ready,
        Some(h) => {
            if h.session_failed {
                return AfterClient::Stop;
            }
            match h.overall {
                OverallHealth::Invalid => AfterClient::Restart,
                OverallHealth::Degraded => AfterClient::Impaired,
                OverallHealth::Healthy => AfterClient::Ready,
            }
        },
    }
}

/// One step of the clean-up.
#[derive(Clone, Copy, Debug, PartialEq, Eq, Structural)]
pub enum CleanupStep {
    /// Tell others that the server stops.
    AnnounceStop,
    /// Tell every task to end.
    Broadcast,
    /// Give the tasks a tenth of a second.
    Wait,
    /// A failure here is noted, and the clean-up goes on.
    StopClipboard,
    StopPipeWire,
    ClosePortalSession,
}

/// The steps of the clean-up, in order.
pub open spec fn cleanup_order(has_clipboard: bool, has_portal_session: bool) -> Seq<CleanupStep> {
    seq![CleanupStep::AnnounceStop, CleanupStep::Broadcast, CleanupStep::Wait] + if has_clipboard {
        seq![CleanupStep::StopClipboard]
    } else {
        Seq::empty()
    } + seq![CleanupStep::StopPipeWire] + if has_portal_session {
        seq![CleanupStep::ClosePortalSession]
    } else {
        Seq::empty()
    }
}

impl LamcoRdpServer {
    /// The steps of the clean-up, in order: none the second time.
    pub fn cleanup_resources(&mut self) -> (r: Vec<CleanupStep>)
        ensures
            final(self)@ == (ServerView { cleanup_done: true, ..old(self)@ }),
            r@ == (if old(self)@.cleanup_done {
                Seq::empty()
            } else {
                cleanup_order(old(self)@.has_clipboard, old(self)@.has_portal_session)
            }),
    {
        let mut steps: Vec<CleanupStep> = Vec::new();
        if self.cleanup_done {
            return steps;
        }
        self.cleanup_done = true;
        steps.push(CleanupStep::AnnounceStop);
        steps.push(CleanupStep::Broadcast);
        steps.push(CleanupStep::Wait);
        if self.has_clipboard {
            steps.push(CleanupStep::StopClipboard);
        }
        steps.push(CleanupStep::StopPipeWire);
        if self.has_portal_session {
            steps.push(CleanupStep::ClosePortalSession);
        }
        assert(steps@ =~= cleanup_order(self.has_clipboard, self.has_portal_session));
        steps
    }

    /// The words with which the connection is ended when the server is told to stop.
    pub fn signal_shutdown(&self) -> (r: String)
        ensures
            r@ == "Shutdown requested"@,
    {
        "Shutdown requested".to_owned()
    }
}

/// What is announced when the clean-up begins.
pub fn shutting_down() -> (r: StatusChange)
    ensures
        r@ == stop_event("Server shutting down"@),
{
    stopped("Server shutting down")
}

/// The words with which the connection is ended on a signal.
pub fn quit_reason(signal_name: &str) -> (r: String)
    ensures
        r@ == signal_name@ + " received"@,
{
    joined(signal_name, " received")
}

/// A message for the user's desktop.
#[derive(Clone, Debug)]
pub struct Notice {
    pub id: String,
    pub title: String,
    pub body: String,
    pub high_priority: bool,
}

/// The message for the user's desktop when the server ends with an error. Only a
/// sandbox has nothing better to show it with.
pub fn error_notice(config: &Config, flatpak: bool, error: &str) -> (r: Option<Notice>)
    ensures
        match r {
            Some(n) => config.notifications.on_error && flatpak && n.id@ == "server-error"@
                && n.title@ == "RDP Server Error"@ && n.body@ == error@ && n.high_priority,
            None => !(config.notifications.on_error && flatpak),
        },
{
    if config.notifications.on_error && flatpak {
        Some(
            Notice {
                id: "server-error".to_owned(),
                title: "RDP Server Error".to_owned(),
                body: error.to_owned(),
                high_priority: true,
            },
        )
    } else {
        None
    }
}

/// The address of a virtual socket.
#[derive(Clone, Copy, Debug, PartialEq, Eq, Structural)]
pub struct VsockAddress {
    /// Context; this one stands for any.
    pub cid: u32,
    pub port: u32,
}

/// The address to bind a virtual socket to: any context may connect. Fails where
/// support for virtual sockets is not built in.
pub fn bind_vsock(built_in: bool, port: u32) -> (r: Result<VsockAddress, String>)
    ensures
        match r {
            Ok(a) => built_in && a == (VsockAddress { cid: u32::MAX, port }),
            Err(e) => !built_in && e@
                == "vsock support not compiled in. Rebuild with --features vsock"@,
        },
{
    if built_in {
        Ok(VsockAddress { cid: u32::MAX, port })
    } else {
        Err("vsock support not compiled in. Rebuild with --features vsock".to_owned())
    }
}

/// Credentials go to the authentication modules only where these are available, as
/// long as they are not recommended where they are not.
pub proof fn pam_is_used_only_where_available(
    p: ServicePlan,
    config: Config,
    pam_available: bool,
    recommended: Seq<char>,
    vsock_built_in: bool,
)
    requires
        is_plan(p, config, pam_available, recommended, vsock_built_in),
        recommended != "pam"@,
    ensures
        p.use_pam ==> pam_available,
{
}

/// Only the loss of the session itself stops the server; failed pictures or input do
/// not.
pub proof fn only_a_lost_session_stops(health: Option<SessionHealth>)
    ensures
        after_client(health).accepts() <==> !(health matches Some(h) && h.session_failed),
{
}

/// The clipboard is stopped before the portal session that it works through is
/// closed, and the tasks are told to end before either.
pub proof fn cleanup_goes_from_the_outside_in(
    has_clipboard: bool,
    has_portal_session: bool,
    told: int,
    i: int,
    j: int,
)
    requires
        0 <= told < cleanup_order(has_clipboard, has_portal_session).len(),
        0 <= i < cleanup_order(has_clipboard, has_portal_session).len(),
        0 <= j < cleanup_order(has_clipboard, has_portal_session).len(),
        cleanup_order(has_clipboard, has_portal_session)[told] == CleanupStep::Broadcast,
    ensures
        cleanup_order(has_clipboard, has_portal_session)[i] == CleanupStep::StopClipboard ==> told
            < i,
        cleanup_order(has_clipboard, has_portal_session)[j] == CleanupStep::ClosePortalSession
            ==> told < j,
        cleanup_order(has_clipboard, has_portal_session)[i] == CleanupStep::StopClipboard
            && cleanup_order(has_clipboard, has_portal_session)[j]
            == CleanupStep::ClosePortalSession ==> i < j,
{
}

/// What others are told of a run is in order, whatever happens and however often. It
/// begins with the change from starting to running. A connected client's name is
/// followed by nothing but its own disconnection, which comes once; only a client
/// that is still served has none yet. After the server said that it stopped, nothing
/// follows but the clean-up.
pub proof fn run_is_told_in_order(v: ServerView, calls: Seq<LoopCall>, i: int)
    requires
        takes_client(v),
        0 <= i < run_events(v, calls).len(),
    ensures
        run_events(v, calls)[0] == start_event(v.config),
        ({
            let e = run_events(v, calls);
            &&& e[i] matches RunEvent::Connected(id) ==> if i + 1 < e.len() {
                e[i + 1] == RunEvent::Disconnected(id)
            } else {
                state_after(v, calls).client == Some(id)
            }
            &&& e[i] matches RunEvent::Disconnected(id) ==> i > 0 && e[i - 1]
                == RunEvent::Connected(id)
            &&& i > 0 && e[i] is Status ==> i + 1 == e.len() && !state_after(v, calls).running
        }),
    decreases calls.len(),
{
    lemma_run_state(v, calls);
    let e = run_events(v, calls);
    if calls.len() > 0 {
        let rest = calls.drop_last();
        let f = run_events(v, rest);
        lemma_run_state(v, rest);
        assert(e == f || e =~= f.push(loop_event(state_after(v, rest), calls.last())->0));
        if i < f.len() {
            run_is_told_in_order(v, rest, i);
        }
    }
}

/// The last event tells where the server stands.
proof fn lemma_run_state(v: ServerView, calls: Seq<LoopCall>)
    requires
        takes_client(v),
    ensures
        ({
            let s = state_after(v, calls);
            let e = run_events(v, calls);
            &&& e.len() > 0
            &&& s.client matches Some(id) ==> s.running && !s.leaving && e.last()
                == RunEvent::Connected(id)
            &&& s.client is None ==> !(e.last() is Connected)
            &&& s.leaving ==> s.running
            &&& e.last() is Status && e.len() > 1 ==> !s.running
            &&& s.transport == v.transport
        }),
    decreases calls.len(),
{
    if calls.len() > 0 {
        let rest = calls.drop_last();
        lemma_run_state(v, rest);
        let e = run_events(v, calls);
        let f = run_events(v, rest);
        assert(e == f || e =~= f.push(loop_event(state_after(v, rest), calls.last())->0));
    }
}

/// Once every client has gone, each that connected has disconnected.
pub proof fn no_client_is_left_open(v: ServerView, calls: Seq<LoopCall>)
    requires
        takes_client(v),
        state_after(v, calls).client is None,
    ensures
        !(run_events(v, calls).last() is Connected),
{
    lemma_run_state(v, calls);
}

/// A session that is lost when a client has left ends the run: the server says that
/// it stopped, and whatever happens afterwards nobody is served and nothing more is
/// told before the clean-up.
pub proof fn lost_session_ends_the_run(
    v: ServerView,
    calls: Seq<LoopCall>,
    health: SessionHealth,
    more: Seq<LoopCall>,
)
    requires
        takes_client(v),
        state_after(v, calls).leaving,
        health.session_failed,
    ensures
        ({
            let call = LoopCall::Handled { accepts_more: after_client(Some(health)).accepts() };
            let ended = calls.push(call);
            &&& run_events(v, ended) == run_events(v, calls).push(
                stop_event("Session invalidated by compositor"@),
            )
            &&& !state_after(v, ended).running
            &&& !takes_client(state_after(v, ended + more))
            &&& run_events(v, ended + more) == run_events(v, ended)
        }),
{
    lemma_run_state(v, calls);
    let call = LoopCall::Handled { accepts_more: after_client(Some(health)).accepts() };
    let ended = calls.push(call);
    assert(ended.drop_last() =~= calls);
    assert(run_events(v, ended) =~= run_events(v, calls).push(
        stop_event("Session invalidated by compositor"@),
    ));
    lemma_stopped(v, ended, more);
}

/// A server that is told to stop between two clients serves nobody afterwards.
pub proof fn shutdown_ends_the_run(v: ServerView, calls: Seq<LoopCall>, more: Seq<LoopCall>)
    requires
        takes_client(v),
        takes_client(state_after(v, calls)),
    ensures
        ({
            let ended = calls.push(LoopCall::Shutdown);
            &&& v.transport == Transport::Tcp ==> run_events(v, ended) == run_events(v, calls).push(
                stop_event("Shutdown requested"@),
            )
            &&& !takes_client(state_after(v, ended + more))
            &&& run_events(v, ended + more) == run_events(v, ended)
        }),
{
    lemma_run_state(v, calls);
    let ended = calls.push(LoopCall::Shutdown);
    assert(ended.drop_last() =~= calls);
    if v.transport == Transport::Tcp {
        assert(run_events(v, ended) =~= run_events(v, calls).push(
            stop_event("Shutdown requested"@),
        ));
    }
    lemma_stopped(v, ended, more);
}

proof fn lemma_stopped(v: ServerView, calls: Seq<LoopCall>, more: Seq<LoopCall>)
    requires
        !state_after(v, calls).running,
        !state_after(v, calls).leaving,
        state_after(v, calls).client is None,
    ensures
        state_after(v, calls + more) == state_after(v, calls),
        events_of(v, calls + more) == events_of(v, calls),
    decreases more.len(),
{
    if more.len() == 0 {
        assert(calls + more =~= calls);
    } else {
        lemma_stopped(v, calls, more.drop_last());
        assert((calls + more).drop_last() =~= calls + more.drop_last());
    }
}

/// An explicit security mode does not depend on how users are authenticated.
pub proof fn explicit_mode_is_kept(mode: Seq<char>, a: Seq<char>, b: Seq<char>)
    requires
        mode == "hybrid"@ || mode == "tls"@,
    ensures
        hybrid_in_effect(mode, a) == hybrid_in_effect(mode, b),
        hybrid_in_effect(mode, a) <==> mode == "hybrid"@,
{
    reveal_strlit("tls");
    reveal_strlit("auto");
    reveal_strlit("hybrid");
    assert("tls"@.len() != "auto"@.len());
    assert("tls"@.len() != "hybrid"@.len());
}

/// A client is taken exactly where the server runs, has cleaned up after the last one
/// and serves no other. It is then the one that is served, under a name that begins with
/// `rdp-`, and its address is noted where failed attempts are counted.
pub proof fn one_client_at_a_time(
    before: ServerView,
    after: ServerView,
    peer: Seq<char>,
    timestamp: u64,
    r: Option<Accepted>,
)
    requires
        client_answered(before, after, peer, timestamp, r),
    ensures
        r is Some <==> before.running && !before.leaving && before.client is None,
        r is None ==> after == before,
        r matches Some(a) ==> {
            &&& after == (ServerView { client: Some(a.event.client_id@), ..before })
            &&& a.event.peer_address@ == peer && a.event.timestamp == timestamp
            &&& a.event.client_id@.len() == 40
            &&& a.event.client_id@.take(4) == "rdp-"@
            &&& a.note_peer <==> before.use_pam && before.transport == Transport::Tcp
        },
{
    reveal_strlit("rdp-");
    if let Some(a) = r {
        let s = a.event.client_id@;
        let id = choose|id: Seq<char>| #[trigger] is_random_id(id) && s == "rdp-"@ + id;
        assert(s.take(4) =~= "rdp-"@);
    }
}

/// When a connection ends, the client that was served is reported as gone, with the
/// whole seconds that it stayed. A connection that ended without an error did not fail.
pub proof fn ended_connections_are_reported(
    before: ServerView,
    error: Option<Seq<char>>,
    nanos: u128,
    r: Option<Ended>,
)
    requires
        end_followed(before, error, nanos, r),
    ensures
        r is Some <==> before.client is Some,
        r matches Some(e) ==> {
            &&& e.event.client_id@ == before.client->0
            &&& e.event.duration_seconds * 1_000_000_000 <= nanos < (e.event.duration_seconds + 1)
                * 1_000_000_000
            &&& e.event.reason@ == "Connection ended"@
            &&& e.failure is Some <==> error is Some
            &&& error matches Some(m) ==> e.failure == Some(failure_of(m, nanos))
            &&& e.forget_stale <==> before.use_pam && before.transport == Transport::Tcp
        },
{
}

/// Each call changes the state in its own way: a client is taken, then leaves, then is
/// cleaned up after, and only between two clients can the server be stopped. All the
/// rest stays.
pub proof fn clients_come_and_go(v: ServerView, id: Seq<char>, more: bool)
    ensures
        v.running && !v.leaving && v.client is None ==> {
            &&& loop_state(v, LoopCall::Accepted(id)) == (ServerView { client: Some(id), ..v })
            &&& loop_event(v, LoopCall::Accepted(id)) == Some(RunEvent::Connected(id))
            &&& loop_state(v, LoopCall::Shutdown) == (ServerView { running: false, ..v })
        },
        !v.running || v.leaving || v.client is Some ==> {
            &&& loop_state(v, LoopCall::Accepted(id)) == v
            &&& loop_event(v, LoopCall::Accepted(id)) is None
            &&& loop_state(v, LoopCall::Shutdown) == v
            &&& loop_event(v, LoopCall::Shutdown) is None
        },
        v.client matches Some(c) ==> {
            &&& loop_state(v, LoopCall::Ended) == (ServerView { client: None, leaving: true, ..v })
            &&& loop_event(v, LoopCall::Ended) == Some(RunEvent::Disconnected(c))
        },
        v.client is None ==> loop_state(v, LoopCall::Ended) == v && loop_event(
            v,
            LoopCall::Ended,
        ) is None,
        v.leaving ==> loop_state(v, LoopCall::Handled { accepts_more: true }) == (ServerView {
            leaving: false,
            ..v
        }) && loop_state(v, LoopCall::Handled { accepts_more: false }) == (ServerView {
            leaving: false,
            running: false,
            ..v
        }),
        !v.leaving ==> loop_state(v, LoopCall::Handled { accepts_more: more }) == v,
        loop_event(v, LoopCall::Handled { accepts_more: more }) is Some <==> v.leaving && !more,
        loop_event(v, LoopCall::Shutdown) is Some <==> v.running && !v.leaving && v.client is None
            && v.transport == Transport::Tcp,
{
}

/// A server that begins to run by a plan takes clients, and keeps what it was set up
/// with.
pub proof fn runs_begin_with_nobody(v: ServerView, p: ServicePlan)
    ensures
        begun(v, p).running && !begun(v, p).leaving && begun(v, p).client is None,
        begun(v, p).transport == p.transport && begun(v, p).use_pam == p.use_pam,
        begun(v, p).config == v.config && begun(v, p).cleanup_done == v.cleanup_done,
        begun(v, p).has_clipboard == v.has_clipboard && begun(v, p).has_portal_session
            == v.has_portal_session,
{
}

/// What others are told at the beginning and the end of a run.
pub proof fn status_changes_are_told(c: Config, message: Seq<char>)
    ensures
        start_event(c) == (RunEvent::Status {
            old: "starting"@,
            new: "running"@,
            message: "Listening on "@ + c.server.listen_addr@,
        }),
        stop_event(message) == (RunEvent::Status { old: "running"@, new: "stopped"@, message }),
{
}

/// Users are authenticated as the settings say. Only where the authentication modules
/// are named and missing, the recommended method takes their place. Network-level
/// authentication is in effect where `hybrid` is set, and by `auto` wherever users are
/// authenticated at all. A virtual socket is used where it is asked for and built in.
pub proof fn service_follows_the_settings(
    p: ServicePlan,
    config: Config,
    pam_available: bool,
    recommended: Seq<char>,
    vsock_built_in: bool,
)
    requires
        is_plan(p, config, pam_available, recommended, vsock_built_in),
    ensures
        config.security.auth_method@ != "pam"@ || pam_available ==> p.auth_method@
            == config.security.auth_method@,
        config.security.auth_method@ == "pam"@ && !pam_available ==> p.auth_method@ == recommended,
        p.use_pam <==> p.auth_method@ == "pam"@,
        config.security.security_mode@ == "hybrid"@ ==> p.hybrid,
        config.security.security_mode@ == "auto"@ ==> (p.hybrid <==> p.auth_method@ != "none"@),
        config.security.security_mode@ != "hybrid"@ && config.security.security_mode@ != "auto"@
            ==> !p.hybrid,
        p.transport == Transport::Vsock <==> vsock_built_in && config.server.use_vsock,
{
    reveal_strlit("auto");
    reveal_strlit("hybrid");
    assert("auto"@.len() != "hybrid"@.len());
}

/// The log names the security mode: `TLS` for whatever is neither `hybrid` nor `auto`.
pub proof fn security_modes_are_named(mode: Seq<char>)
    ensures
        mode == "hybrid"@ ==> label_of(mode) == "Hybrid (NLA/CredSSP)"@,
        mode == "auto"@ ==> label_of(mode) == "Auto"@,
        mode != "hybrid"@ && mode != "auto"@ ==> label_of(mode) == "TLS"@,
{
    reveal_strlit("auto");
    reveal_strlit("hybrid");
    assert("auto"@.len() != "hybrid"@.len());
}

/// A connection that the peer reset within a second was a probe, one that it reset later
/// a lost session, whatever else the message says; any other failure is an error.
pub proof fn resets_are_told_from_errors(a: Seq<char>, b: Seq<char>, message: Seq<char>, nanos: u128)
    ensures
        nanos < 1_000_000_000 ==> failure_of(a + "Connection reset by peer"@ + b, nanos)
            == ConnectionFailure::Probe && failure_of(a + "os error 104"@ + b, nanos)
            == ConnectionFailure::Probe,
        nanos >= 1_000_000_000 ==> failure_of(a + "Connection reset by peer"@ + b, nanos)
            == ConnectionFailure::SessionLost && failure_of(a + "os error 104"@ + b, nanos)
            == ConnectionFailure::SessionLost,
        !occurs_in(message, "Connection reset by peer"@) && !occurs_in(message, "os error 104"@)
            ==> failure_of(message, nanos) == ConnectionFailure::Error,
{
    lemma_part_occurs(a, "Connection reset by peer"@, b);
    lemma_part_occurs(a, "os error 104"@, b);
}

proof fn lemma_part_occurs(a: Seq<char>, part: Seq<char>, b: Seq<char>)
    ensures
        occurs_in(a + part + b, part),
{
    let s = a + part + b;
    let at = a.len() as int;
    assert(s.subrange(at, at + part.len()) =~= part);
    assert(occurs_at(s, part, at));
}

/// After a client has left, the server stops where the desktop has destroyed the
/// session, and otherwise goes on as well as the session's health allows.
pub proof fn health_decides_what_follows(overall: OverallHealth)
    ensures
        after_client(None) == AfterClient::Ready,
        after_client(Some(SessionHealth { session_failed: true, overall })) == AfterClient::Stop,
        ({
            let r = after_client(Some(SessionHealth { session_failed: false, overall }));
            &&& r == AfterClient::Ready <==> overall == OverallHealth::Healthy
            &&& r == AfterClient::Impaired <==> overall == OverallHealth::Degraded
            &&& r == AfterClient::Restart <==> overall == OverallHealth::Invalid
            &&& r.accepts()
        }),
{
}

/// The clean-up tells others and the tasks, waits, and then stops what there is: the
/// clipboard if there is one, the pictures always, the portal session if there is one.
pub proof fn cleanup_stops_what_there_is(has_clipboard: bool, has_portal_session: bool)
    ensures
        ({
            let s = cleanup_order(has_clipboard, has_portal_session);
            &&& s[0] == CleanupStep::AnnounceStop && s[1] == CleanupStep::Broadcast && s[2]
                == CleanupStep::Wait
            &&& s.contains(CleanupStep::StopPipeWire)
            &&& s.contains(CleanupStep::StopClipboard) <==> has_clipboard
            &&& s.contains(CleanupStep::ClosePortalSession) <==> has_portal_session
            &&& has_portal_session ==> s.last() == CleanupStep::ClosePortalSession
            &&& s.no_duplicates()
        }),
{
    let s = cleanup_order(has_clipboard, has_portal_session);
    if has_clipboard {
        assert(s[3] == CleanupStep::StopClipboard);
        assert(s[4] == CleanupStep::StopPipeWire);
    } else {
        assert(s[3] == CleanupStep::StopPipeWire);
    }
    if has_portal_session {
        assert(s.last() == CleanupStep::ClosePortalSession);
        assert(s.contains(s.last()));
    }
}

} // verus!
