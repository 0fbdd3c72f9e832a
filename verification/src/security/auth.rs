//! Authentication against the accounts of the system.

use vstd::prelude::*;
use vstd::utf8::*;
use crate::security::rate_limit::{
    lockout_left, pruned, with_failure, Attempts, PeerAddr, RateLimiter,
};
use crate::text::{chars_of, joined, same_text};
use crate::unicode::{alphanumeric, is_alphanumeric, lowercase, to_lower};

verus! {

/// How users are authenticated.
#[derive(Clone, Copy, Debug, PartialEq, Eq, Structural)]
pub enum AuthMethod {
    /// Pluggable authentication modules.
    Pam,
    /// Not at all.
    Disabled,
}

/// The method that a setting names, whatever its case; any other text stands for
/// none.
pub open spec fn method_of(s: Seq<char>) -> AuthMethod {
    if lowercase(s) == "pam"@ {
        AuthMethod::Pam
    } else {
        AuthMethod::Disabled
    }
}

impl AuthMethod {
    /// The method that a setting names.
    pub fn from_str(s: &str) -> (r: Self)
        ensures
            r == method_of(s@),
    {
        let name = to_lower(s);
        AuthMethod::from_lower(name.as_str())
    }

    /// The method that a name in lower case stands for.
    pub fn from_lower(name: &str) -> (r: Self)
        ensures
            r == (if name@ == "pam"@ {
                AuthMethod::Pam
            } else {
                AuthMethod::Disabled
            }),
    {
        if same_text(name, "pam") {
            AuthMethod::Pam
        } else {
            AuthMethod::Disabled
        }
    }
}

/// Why a user could not be authenticated.
#[derive(Debug)]
pub enum AuthError {
    /// The transaction could not be started.
    PamStart(String),
    EmptyUsername,
    UsernameTooLong,
    InvalidCharacters,
}

impl AuthError {
    /// The words that tell a user what is wrong.
    pub fn message(&self) -> (r: String)
        ensures
            r@ == match self {
                AuthError::PamStart(e) => "Failed to start PAM transaction: "@ + e@,
                AuthError::EmptyUsername => "Username cannot be empty"@,
                AuthError::UsernameTooLong => "Username too long (max 32 characters)"@,
                AuthError::InvalidCharacters => "Username contains invalid characters"@,
            },
    {
        match self {
            AuthError::PamStart(e) => joined("Failed to start PAM transaction: ", e.as_str()),
            AuthError::EmptyUsername => "Username cannot be empty".to_owned(),
            AuthError::UsernameTooLong => "Username too long (max 32 characters)".to_owned(),
            AuthError::InvalidCharacters => "Username contains invalid characters".to_owned(),
        }
    }
}

/// What is asked of the authentication modules.
#[derive(Debug)]
pub struct PamRequest {
    /// The service whose rules apply.
    pub service_name: String,
    /// The user; also the answer to a visible prompt.
    pub username: String,
    /// The answer to a masked prompt.
    pub password: String,
}

/// What the authentication modules answered.
#[derive(Debug)]
pub enum PamOutcome {
    /// The transaction could not be started.
    StartFailed(String),
    /// The password was refused.
    Rejected,
    /// The password was accepted, but the account is expired or locked.
    AccountInvalid,
    /// The user may enter.
    Accepted,
}

/// Whether a user may enter, by what the authentication modules answered.
pub open spec fn is_verdict(outcome: PamOutcome, r: Result<bool, AuthError>) -> bool {
    match outcome {
        PamOutcome::StartFailed(e) => r matches Err(AuthError::PamStart(s)) && s@ == e@,
        PamOutcome::Rejected | PamOutcome::AccountInvalid => r == Ok::<bool, AuthError>(false),
        PamOutcome::Accepted => r == Ok::<bool, AuthError>(true),
    }
}

/// Whether a user may enter, by what the authentication modules answered.
pub fn pam_verdict(outcome: &PamOutcome) -> (r: Result<bool, AuthError>)
    ensures
        is_verdict(*outcome, r),
{
    match outcome {
        PamOutcome::StartFailed(e) => Err(AuthError::PamStart(e.clone())),
        PamOutcome::Rejected => Ok(false),
        PamOutcome::AccountInvalid => Ok(false),
        PamOutcome::Accepted => Ok(true),
    }
}

/// The service whose rules apply where none is given.
pub open spec fn service_or_usual(service_name: Option<String>) -> Seq<char> {
    match service_name {
        Some(s) => s@,
        None => "lamco-rdp-server"@,
    }
}

fn usual_service(service_name: Option<String>) -> (r: String)
    ensures
        r@ == service_or_usual(service_name),
{
    match service_name {
        Some(s) => s,
        None => "lamco-rdp-server".to_owned(),
    }
}

/// Checks the credentials of connecting clients, with a limit on the rate of failed
/// attempts for each peer.
pub struct PamValidator {
    service_name: String,
    rate_limiter: RateLimiter,
    peer_ip: Option<PeerAddr>,
}

impl PamValidator {
    /// The service whose rules apply.
    pub closed spec fn service(&self) -> Seq<char> {
        self.service_name@
    }

    /// The failed attempts of each peer.
    pub closed spec fn attempts(&self) -> Map<PeerAddr, Attempts> {
        self.rate_limiter@
    }

    /// The clock by which failed attempts are timed.
    pub closed spec fn clock(&self) -> std::time::Instant {
        self.rate_limiter.clock()
    }

    /// The peer that is connecting.
    pub closed spec fn peer(&self) -> Option<PeerAddr> {
        self.peer_ip
    }

    pub closed spec fn wf(&self) -> bool {
        self.rate_limiter.wf()
    }

    pub fn new(service_name: Option<String>) -> (r: Self)
        ensures
            r.wf(),
            r.service() == service_or_usual(service_name),
            r.attempts() == Map::<PeerAddr, Attempts>::empty(),
            r.peer() is None,
    {
        PamValidator {
            service_name: usual_service(service_name),
            rate_limiter: RateLimiter::new(),
            peer_ip: None,
        }
    }

    /// Sets the peer that is connecting.
    pub fn set_peer_ip(&mut self, ip: PeerAddr)
        requires
            old(self).wf(),
        ensures
            final(self).wf(),
            final(self).peer() == Some(ip),
            final(self).service() == old(self).service(),
            final(self).clock() == old(self).clock(),
            final(self).attempts() == old(self).attempts(),
    {
        self.peer_ip = Some(ip);
    }

    /// Forgets the peers whose last failure is longer past than the longest lockout.
    pub fn prune_stale_entries(&mut self)
        requires
            old(self).wf(),
        ensures
            final(self).wf(),
            exists|now: u128| final(self).attempts() == #[trigger] pruned(old(self).attempts(), now),
            final(self).service() == old(self).service(),
            final(self).clock() == old(self).clock(),
            final(self).peer() == old(self).peer(),
    {
        let now = self.rate_limiter.now();
        self.rate_limiter.prune_stale_at(now);
        assert(self.attempts() == pruned(old(self).attempts(), now));
    }

    /// What is left of the connecting peer's lockout, in nanoseconds; none if it may
    /// try.
    pub fn lockout(&self) -> (r: Option<u128>)
        requires
            self.wf(),
        ensures
            self.peer() is None ==> r is None,
            self.peer() matches Some(ip) ==> exists|now: u128|
                match r {
                    Some(left) => #[trigger] lockout_left(self.attempts(), ip, now) == Some(
                        left as nat,
                    ),
                    None => lockout_left(self.attempts(), ip, now) is None,
                },
    {
        match self.peer_ip {
            Some(ip) => {
                let now = self.rate_limiter.now();
                let left = self.rate_limiter.check_at(ip, now);
                assert(lockout_left(self.attempts(), ip, now) == lockout_left(
                    self.rate_limiter@,
                    ip,
                    now,
                ));
                left
            },
            None => None,
        }
    }

    /// What to ask of the authentication modules.
    pub fn pam_request(&self, username: &str, password: &str) -> (r: PamRequest)
        ensures
            r.service_name@ == self.service(),
            r.username@ == username@,
            r.password@ == password@,
    {
        PamRequest {
            service_name: self.service_name.clone(),
            username: username.to_owned(),
            password: password.to_owned(),
        }
    }

    /// How many attempts of the connecting peer have failed.
    pub fn failures(&self) -> (r: u32)
        requires
            self.wf(),
        ensures
            r == match self.peer() {
                Some(ip) => if self.attempts().contains_key(ip) {
                    self.attempts()[ip].failures
                } else {
                    0
                },
                None => 0,
            },
    {
        match self.peer_ip {
            Some(ip) => self.rate_limiter.failures(ip),
            None => 0,
        }
    }

    /// Records the outcome of the connecting peer's attempt: a success forgets its
    /// failures.
    pub fn attempt_finished(&mut self, accepted: bool)
        requires
            old(self).wf(),
            old(self).peer() matches Some(ip) ==> !accepted && old(self).attempts().contains_key(ip)
                ==> old(self).attempts()[ip].failures < u32::MAX,
        ensures
            final(self).wf(),
            final(self).service() == old(self).service(),
            final(self).clock() == old(self).clock(),
            final(self).peer() == old(self).peer(),
            match old(self).peer() {
                None => final(self).attempts() == old(self).attempts(),
                Some(ip) => if accepted {
                    final(self).attempts() == old(self).attempts().remove(ip)
                } else {
                    exists|now: u128|
                        final(self).attempts() == #[trigger] with_failure(
                            old(self).attempts(),
                            ip,
                            now,
                        )
                },
            },
    {
        if let Some(ip) = self.peer_ip {
            if accepted {
                self.rate_limiter.clear(ip);
            } else {
                let now = self.rate_limiter.now();
                self.rate_limiter.record_failure_at(ip, now);
                assert(self.attempts() == with_failure(old(self).attempts(), ip, now));
            }
        }
    }
}

/// Authenticates users by one method.
pub struct UserAuthenticator {
    method: AuthMethod,
    service_name: String,
}

impl UserAuthenticator {
    pub closed spec fn method(&self) -> AuthMethod {
        self.method
    }

    /// The service whose rules apply.
    pub closed spec fn service(&self) -> Seq<char> {
        self.service_name@
    }

    pub fn new(method: AuthMethod, service_name: Option<String>) -> (r: Self)
        ensures
            r.method() == method,
            r.service() == service_or_usual(service_name),
    {
        UserAuthenticator { method, service_name: usual_service(service_name) }
    }

    /// Authenticates a user without the help of authentication modules: everybody
    /// enters where no authentication is asked for, and nobody where it is.
    pub fn authenticate(&self, username: &str, password: &str) -> (r: Result<bool, AuthError>)
        ensures
            r == Ok::<bool, AuthError>(self.method() == AuthMethod::Disabled),
    {
        match self.method {
            AuthMethod::Pam => Ok(false),
            AuthMethod::Disabled => Ok(true),
        }
    }

    /// Authenticates a user by what the authentication modules answered. The answer
    /// counts only where they are to be asked.
    pub fn authenticate_pam(&self, outcome: &PamOutcome) -> (r: Result<bool, AuthError>)
        ensures
            match (self.method(), outcome) {
                (AuthMethod::Disabled, _) => r == Ok::<bool, AuthError>(true),
                (AuthMethod::Pam, PamOutcome::StartFailed(e)) => r matches Err(AuthError::PamStart(s))
                    && s@ == e@,
                (AuthMethod::Pam, _) => r == Ok::<bool, AuthError>(outcome is Accepted),
            },
            self.method() == AuthMethod::Pam ==> is_verdict(*outcome, r),
    {
        match self.method {
            AuthMethod::Pam => pam_verdict(outcome),
            AuthMethod::Disabled => Ok(true),
        }
    }

    /// What to ask of the authentication modules, if they are to be asked.
    pub fn pam_request(&self, username: &str, password: &str) -> (r: Option<PamRequest>)
        ensures
            match r {
                Some(q) => self.method() == AuthMethod::Pam && q.service_name@ == self.service()
                    && q.username@ == username@ && q.password@ == password@,
                None => self.method() == AuthMethod::Disabled,
            },
    {
        match self.method {
            AuthMethod::Pam => Some(
                PamRequest {
                    service_name: self.service_name.clone(),
                    username: username.to_owned(),
                    password: password.to_owned(),
                },
            ),
            AuthMethod::Disabled => None,
        }
    }
}

/// A character that a user name may hold; dots, `\` and `@` occur in names with a
/// domain.
pub open spec fn username_char(c: char) -> bool {
    alphanumeric(c) || c == '_' || c == '-' || c == '.' || c == '\\' || c == '@'
}

fn is_username_char(c: char) -> (r: bool)
    ensures
        r == username_char(c),
{
    is_alphanumeric(c) || c == '_' || c == '-' || c == '.' || c == '\\' || c == '@'
}

/// What the check of a user name's form gives.
pub open spec fn is_username_checked(name: Seq<char>, r: Result<(), AuthError>) -> bool {
    if name.len() == 0 {
        r matches Err(AuthError::EmptyUsername)
    } else if encode_utf8(name).len() > 32 {
        r matches Err(AuthError::UsernameTooLong)
    } else if forall|i: int| 0 <= i < name.len() ==> username_char(#[trigger] name[i]) {
        r is Ok
    } else {
        r matches Err(AuthError::InvalidCharacters)
    }
}

/// Checks the form of a user name.
pub fn validate_username(username: &str) -> (r: Result<(), AuthError>)
    ensures
        is_username_checked(username@, r),
{
    let chars = chars_of(username);
    if chars.len() == 0 {
        return Err(AuthError::EmptyUsername);
    }
    if username.as_bytes().len() > 32 {
        return Err(AuthError::UsernameTooLong);
    }
    let mut i: usize = 0;
    while i < chars.len()
        invariant
            chars@ == username@,
            i <= chars@.len(),
            chars@.len() > 0,
            encode_utf8(username@).len() <= 32,
            forall|j: int| 0 <= j < i ==> username_char(#[trigger] username@[j]),
        decreases chars@.len() - i,
    {
        if !is_username_char(chars[i]) {
            assert(!username_char(username@[i as int]));
            return Err(AuthError::InvalidCharacters);
        }
        i += 1;
    }
    Ok(())
}

/// Only a user whom the authentication modules have accepted may enter; one whom they
/// refused, or whose account is no longer valid, is turned away, and what kept them from
/// answering is passed on.
pub proof fn only_accepted_users_enter(outcome: PamOutcome, r: Result<bool, AuthError>)
    requires
        is_verdict(outcome, r),
    ensures
        (r matches Ok(b) && b) <==> outcome == PamOutcome::Accepted,
        (r matches Ok(b) && !b) <==> outcome == PamOutcome::Rejected || outcome
            == PamOutcome::AccountInvalid,
        outcome matches PamOutcome::StartFailed(e) ==> (r matches Err(AuthError::PamStart(s)) && s@
            == e@),
{
}

/// A user name is good exactly if it is not empty, has at most 32 bytes, and holds
/// nothing but letters, digits and the five signs `_`, `-`, `.`, `\` and `@`.
pub proof fn good_usernames(name: Seq<char>, r: Result<(), AuthError>, at: int)
    requires
        is_username_checked(name, r),
    ensures
        r is Ok ==> 0 < name.len() && encode_utf8(name).len() <= 32,
        r is Ok && 0 <= at < name.len() && !alphanumeric(name[at]) ==> (name[at] == '_' || name[at]
            == '-' || name[at] == '.' || name[at] == '\\' || name[at] == '@'),
        0 < name.len() && encode_utf8(name).len() <= 32 && (forall|i: int|
            0 <= i < name.len() ==> alphanumeric(#[trigger] name[i]) || name[i] == '_' || name[i]
                == '-' || name[i] == '.' || name[i] == '\\' || name[i] == '@') ==> r is Ok,
        r matches Err(AuthError::EmptyUsername) <==> name.len() == 0,
        r matches Err(AuthError::UsernameTooLong) <==> name.len() > 0 && encode_utf8(name).len() > 32,
        r is Err ==> (r matches Err(AuthError::EmptyUsername) || r matches Err(
            AuthError::UsernameTooLong,
        ) || r matches Err(AuthError::InvalidCharacters)),
{
    if r is Ok && 0 <= at < name.len() {
        assert(username_char(name[at]));
    }
}

/// Authentication modules are used where `pam` is written, in whatever case, and nowhere
/// else.
pub proof fn pam_is_used_where_it_is_named(s: Seq<char>, t: Seq<char>)
    ensures
        method_of(s) == AuthMethod::Pam <==> lowercase(s) == seq!['p', 'a', 'm'],
        lowercase(s) == lowercase(t) ==> method_of(s) == method_of(t),
        method_of(s) != AuthMethod::Pam ==> method_of(s) == AuthMethod::Disabled,
{
    reveal_strlit("pam");
    assert("pam"@ =~= seq!['p', 'a', 'm']);
}

} // verus!
