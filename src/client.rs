//! The client session: the one credential it holds, the decisions of the
//! refresh exchange, and what every authenticated call is built from.
use vstd::prelude::*;
use crate::auth::{AuthError, BASE_URL};
use crate::token::{Token, expired_at, issued};

verus! {

/// Endpoint listing the account's devices.
pub const DEVICES_ENDPOINT: &'static str = "/device-v2/devices/mine";

/// Endpoint listing the account's cards.
pub const CARDS_ENDPOINT: &'static str = "/content/mine";

/// Endpoint listing the family's images.
pub const FAMILY_IMAGES_ENDPOINT: &'static str = "/media/family/images";

/// Why an authenticated call gave nothing.
#[derive(Debug, Clone, Copy, PartialEq, Eq)]
pub enum ClientError {
    /// The resource does not exist.
    NotFound,
    /// The transport failed, or the answer could not be read.
    Failed,
    /// No credential is held, or the one held is expired.
    Unauthenticated,
}

/// Outcome of bringing the held credential up to date.
#[derive(Debug, Clone, Copy, PartialEq, Eq)]
pub enum RefreshStatus {
    AlreadyValid,
    Refreshed,
    Failed,
}

/// What bringing the held credential up to date takes.
#[derive(Debug, Clone)]
pub enum RefreshPlan {
    /// Nothing: the credential is still usable.
    AlreadyValid,
    /// Exchanging this refresh token at the token endpoint.
    Exchange(String),
    /// Nothing can be done: no credential is held.
    Failed,
}

/// A session of one user with the service.
#[derive(Debug, Clone)]
pub struct Client {
    pub id: String,
    pub token: Option<Token>,
}

/// Whether the session holds a credential that is usable at `now`.
pub open spec fn usable_at(token: Option<Token>, now: int) -> bool {
    token matches Some(t) && !expired_at(t.valid_until, now)
}

/// The full address of an API endpoint.
pub fn api_url(endpoint: &str) -> (r: String)
    ensures
        r@ == BASE_URL@ + endpoint@,
{
    BASE_URL.to_owned().concat(endpoint)
}

/// Endpoint of one card.
pub fn card_endpoint(id: &str) -> (r: String)
    ensures
        r@ == "/content/"@ + id@,
{
    "/content/".to_owned().concat(id)
}

/// Endpoint of one device's status.
pub fn device_status_endpoint(id: &str) -> (r: String)
    ensures
        r@ == "/device-v2/"@ + id@ + "/status"@,
{
    "/device-v2/".to_owned().concat(id).concat("/status")
}

/// Query parameters of a card request; a playable card comes with signed
/// track addresses.
pub fn card_query(playable: bool) -> (r: Vec<(String, String)>)
    ensures
        playable ==> r@.len() == 2 && r@[0].0@ == "playable"@ && r@[0].1@ == "true"@
            && r@[1].0@ == "signingType"@ && r@[1].1@ == "s3"@,
        !playable ==> r@.len() == 0,
{
    let mut r: Vec<(String, String)> = Vec::new();
    if playable {
        r.push(("playable".to_owned(), "true".to_owned()));
        r.push(("signingType".to_owned(), "s3".to_owned()));
    }
    r
}

impl Client {
    /// A session for the application `client_id`, holding `token` if any.
    pub fn new(client_id: &str, token: Option<Token>) -> (r: Client)
        ensures
            r.id@ == client_id@,
            r.token == token,
    {
        Client { id: client_id.to_owned(), token }
    }

    /// The held credential, where it is usable at `now`.
    pub fn ensure_token(&self, now: i64) -> (r: Option<&Token>)
        ensures
            usable_at(self.token, now as int) ==> r == Some(&self.token->Some_0),
            !usable_at(self.token, now as int) ==> r is None,
    {
        match &self.token {
            Some(t) => {
                if t.is_expired(now) {
                    None
                } else {
                    Some(t)
                }
            },
            None => None,
        }
    }

    /// The authorization header value of a call made at `now`: the access
    /// token as a bearer credential. No call is made without a usable one.
    pub fn authorization(&self, now: i64) -> (r: Result<String, ClientError>)
        ensures
            usable_at(self.token, now as int) ==> (r matches Ok(h)
                && h@ == "Bearer "@ + self.token->Some_0.access_token@),
            !usable_at(self.token, now as int) ==> r == Err::<String, ClientError>(
                ClientError::Unauthenticated,
            ),
    {
        match self.ensure_token(now) {
            Some(t) => Ok("Bearer ".to_owned().concat(t.access_token.as_str())),
            None => Err(ClientError::Unauthenticated),
        }
    }

    /// What bringing the credential up to date at `now` takes: nothing while
    /// it is usable, else an exchange of its refresh token.
    pub fn refresh_plan(&self, now: i64) -> (r: RefreshPlan)
        ensures
            self.token is None ==> r is Failed,
            usable_at(self.token, now as int) ==> r is AlreadyValid,
            self.token is Some && !usable_at(self.token, now as int) ==> (r
                matches RefreshPlan::Exchange(rt) && rt@ == self.token->Some_0.refresh_token@),
    {
        match &self.token {
            None => RefreshPlan::Failed,
            Some(t) => {
                if t.is_expired(now) {
                    RefreshPlan::Exchange(t.refresh_token.clone())
                } else {
                    RefreshPlan::AlreadyValid
                }
            },
        }
    }

    /// Takes the token endpoint's answer to a refresh exchange, received at
    /// `now`. A new credential replaces the old one whole; on failure the
    /// held one is kept as it was, and stays refused by `authorization`
    /// since a refresh is only needed once it has expired.
    pub fn finish_refresh(&mut self, reply: Result<Token, AuthError>, now: i64) -> (r: RefreshStatus)
        ensures
            final(self).id == old(self).id,
            reply matches Ok(t) ==> r == RefreshStatus::Refreshed
                && final(self).token == Some(issued(t, now as int)),
            reply is Err ==> r == RefreshStatus::Failed && final(self).token == old(self).token,
    {
        match reply {
            Ok(t) => {
                self.token = Some(t.issued_at(now));
                RefreshStatus::Refreshed
            },
            Err(_) => RefreshStatus::Failed,
        }
    }
}

} // verus!
