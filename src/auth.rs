//! The OAuth2 device-authorization handshake and the refresh-token exchange:
//! request forms, reading the token endpoint's answer, and the polling
//! decisions of the handshake.
use vstd::prelude::*;
use crate::token::{Token, issued};

verus! {

/// Token endpoint of the authorization server.
pub const TOKEN_URL: &'static str = "https://login.yotoplay.com/oauth/token";

/// Device-code endpoint of the authorization server.
pub const AUTH_URL: &'static str = "https://login.yotoplay.com/oauth/device/code";

/// The audience: base address of the service's API.
pub const BASE_URL: &'static str = "https://api.yotoplay.com";

/// Seconds added to the polling interval on each "slow down" answer.
pub const SLOW_DOWN_STEP: u64 = 5;

/// What the device-code endpoint hands out for one login attempt.
#[derive(Debug, Clone)]
pub struct AuthorizationRequest {
    pub device_code: String,
    pub user_code: String,
    pub verification_uri: String,
    pub verification_uri_complete: String,
    pub expires_in: i64,
    pub interval: u64,
}

/// A grant presented to the token endpoint.
#[derive(Debug, Clone)]
pub enum GrantType {
    DeviceCode(String),
    RefreshToken(String),
}

/// Why the token endpoint gave no credential.
#[derive(Debug, Clone, Copy, PartialEq, Eq)]
pub enum AuthError {
    Pending,
    SlowDown,
    Failed,
}

/// A form field as a pair of views.
pub open spec fn field(k: &str, v: Seq<char>) -> (Seq<char>, Seq<char>) {
    (k@, v)
}

/// The views of a form's fields, in order.
pub open spec fn form_view(f: Seq<(String, String)>) -> Seq<(Seq<char>, Seq<char>)> {
    f.map_values(|p: (String, String)| (p.0@, p.1@))
}

/// The fields of the device-code request.
pub open spec fn device_code_fields(client_id: Seq<char>) -> Seq<(Seq<char>, Seq<char>)> {
    seq![field("client_id", client_id), field("scope", "profile"@), field("audience", BASE_URL@)]
}

/// The fields of a token request for `grant`.
pub open spec fn token_fields(client_id: Seq<char>, grant: GrantType) -> Seq<(Seq<char>, Seq<char>)> {
    match grant {
        GrantType::DeviceCode(code) => seq![
            field("client_id", client_id),
            field("grant_type", "urn:ietf:params:oauth:grant-type:device_code"@),
            field("device_code", code@),
            field("audience", BASE_URL@),
        ],
        GrantType::RefreshToken(token) => seq![
            field("client_id", client_id),
            field("grant_type", "refresh_token"@),
            field("refresh_token", token@),
        ],
    }
}

/// The error that a token-endpoint answer with `status` and error code
/// `error` (when its body held one) stands for.
pub open spec fn rejection_of(status: u16, error: Option<Seq<char>>) -> AuthError {
    if status == 403 && error == Some("authorization_pending"@) {
        AuthError::Pending
    } else if status == 403 && error == Some("slow_down"@) {
        AuthError::SlowDown
    } else {
        AuthError::Failed
    }
}

fn pair(k: &str, v: &str) -> (r: (String, String))
    ensures
        r.0@ == k@,
        r.1@ == v@,
{
    (k.to_owned(), v.to_owned())
}

/// The form posted to the device-code endpoint.
pub fn device_code_form(client_id: &str) -> (r: Vec<(String, String)>)
    ensures
        form_view(r@) == device_code_fields(client_id@),
{
    let r = vec![pair("client_id", client_id), pair("scope", "profile"), pair("audience", BASE_URL)];
    assert(form_view(r@) =~= device_code_fields(client_id@));
    r
}

/// The form posted to the token endpoint for `grant`.
pub fn token_form(client_id: &str, grant: &GrantType) -> (r: Vec<(String, String)>)
    ensures
        form_view(r@) == token_fields(client_id@, *grant),
{
    match grant {
        GrantType::DeviceCode(code) => {
            let r = vec![
                pair("client_id", client_id),
                pair("grant_type", "urn:ietf:params:oauth:grant-type:device_code"),
                pair("device_code", code.as_str()),
                pair("audience", BASE_URL),
            ];
            assert(form_view(r@) =~= token_fields(client_id@, *grant));
            r
        },
        GrantType::RefreshToken(token) => {
            let r = vec![
                pair("client_id", client_id),
                pair("grant_type", "refresh_token"),
                pair("refresh_token", token.as_str()),
            ];
            assert(form_view(r@) =~= token_fields(client_id@, *grant));
            r
        },
    }
}

/// Reads a token-endpoint answer that carried no credential: its HTTP status,
/// and the `error` field of its body where the body could be read.
pub fn classify_rejection(status: u16, error: Option<&str>) -> (r: AuthError)
    ensures
        r == rejection_of(status, match error { Some(e) => Some(e@), None => None }),
{
    if status != 403 {
        return AuthError::Failed;
    }
    match error {
        Some(e) => {
            if e.to_owned() == "authorization_pending".to_owned() {
                AuthError::Pending
            } else if e.to_owned() == "slow_down".to_owned() {
                AuthError::SlowDown
            } else {
                AuthError::Failed
            }
        },
        None => AuthError::Failed,
    }
}

/// `a + b`, or `u64::MAX` where the sum does not fit.
pub open spec fn capped_sum(a: u64, b: u64) -> u64 {
    if a + b > u64::MAX {
        u64::MAX
    } else {
        (a + b) as u64
    }
}

/// Progress of one device-authorization handshake: the current polling
/// interval in seconds, when the handshake started (Unix seconds), and the
/// server's expiry window for the device code in seconds.
#[derive(Debug, Clone, Copy, PartialEq, Eq)]
pub struct DeviceFlow {
    pub interval: u64,
    pub started: i64,
    pub window: i64,
}

/// What the handshake asks of its driver after an answer of the token endpoint.
#[derive(Debug, Clone)]
pub enum FlowAction {
    /// Sleep this many seconds, then poll again.
    Sleep(u64),
    /// The handshake is over with this credential.
    Granted(Token),
    /// The handshake is over without a credential.
    Fail,
}

impl DeviceFlow {
    /// Whether the server's window for the device code is over at `now`.
    pub open spec fn window_spent(self, now: int) -> bool {
        now >= self.started + self.window
    }

    /// The handshake for `req`, started at `now`, before its first poll.
    pub fn new(req: &AuthorizationRequest, now: i64) -> (r: DeviceFlow)
        ensures
            r.interval == req.interval,
            r.started == now,
            r.window == req.expires_in,
    {
        DeviceFlow { interval: req.interval, started: now, window: req.expires_in }
    }

    /// Decides on one answer of the token endpoint, received at `now`.
    /// A credential ends the handshake; "pending" sleeps the current interval;
    /// "slow down" first widens the interval for good; an answer of either
    /// kind once the server's window is over, or any other error, fails.
    pub fn step(&mut self, reply: Result<Token, AuthError>, now: i64) -> (a: FlowAction)
        ensures
            match reply {
                Ok(t) => a == FlowAction::Granted(issued(t, now as int)) && *final(self) == *old(self),
                Err(AuthError::Failed) => a is Fail && *final(self) == *old(self),
                Err(AuthError::Pending) => if old(self).window_spent(now as int) {
                    a is Fail && *final(self) == *old(self)
                } else {
                    a == FlowAction::Sleep(old(self).interval) && *final(self) == *old(self)
                },
                Err(AuthError::SlowDown) => if old(self).window_spent(now as int) {
                    a is Fail && *final(self) == *old(self)
                } else {
                    final(self).interval == capped_sum(old(self).interval, SLOW_DOWN_STEP)
                        && a == FlowAction::Sleep(final(self).interval)
                        && final(self).started == old(self).started
                        && final(self).window == old(self).window
                },
            },
    {
        match reply {
            Ok(t) => FlowAction::Granted(t.issued_at(now)),
            Err(AuthError::Failed) => FlowAction::Fail,
            Err(e) => {
                if (now as i128) >= (self.started as i128) + (self.window as i128) {
                    return FlowAction::Fail;
                }
                if matches!(e, AuthError::SlowDown) {
                    self.interval = self.interval.saturating_add(SLOW_DOWN_STEP);
                }
                FlowAction::Sleep(self.interval)
            },
        }
    }
}

} // verus!
