//! The client facade: the one object callers hold, the requests each
//! operation sends, and the per-operation mapping from HTTP status codes to
//! domain outcomes.
//!
//! The facade works on plain values.  For each operation there is a request
//! builder, which says exactly what is to be sent, and an interpreter under
//! the operation's own name, which maps the numeric status code (and, where
//! the operation decodes a body, the body text) to the outcome.  The
//! embedding program performs the round trip between the two.

use crate::error::{ApiError, AuthError, DecodeError};
use crate::json::{json_of_text, parse_json, spec_field};
use crate::resources::{
    decode_gfycat_info, decode_self_user, decode_user, gfy_item_fields_match, gfycat_info_decodes,
    self_user_decodes, self_user_fields_match, user_decodes, user_fields_match, CreateUser,
    GfyItem, LoadCredentials, SelfUser, UpdateOperations, User,
};
use crate::text::{format_u64, spec_dec};
use crate::token::{decode_token_response, spec_access_token, spec_expires_in, token_response_decodes, TokenType};
use vstd::prelude::*;
use vstd::string::*;

verus! {

/// An HTTP method the service uses.
#[derive(Debug, Clone, Copy, PartialEq, Eq, Structural)]
pub enum Method {
    Get,
    Post,
    Patch,
}

/// One request, ready to send: everything the transport needs, as plain
/// values.  A body is a flat JSON object, given as its fields in order.
#[derive(Debug, Clone, PartialEq, Eq)]
pub struct HttpRequest {
    pub method: Method,
    pub url: String,
    /// The `Authorization` header value, on authenticated calls.
    pub authorization: Option<String>,
    pub body: Option<Vec<(String, String)>>,
    /// A caller-supplied deadline for the round trip, in seconds, where one
    /// was asked for.
    pub deadline: Option<u64>,
}

impl HttpRequest {
    /// Stamps a caller-supplied deadline, in seconds, on the request: the
    /// transport must give the round trip up once it has waited this long.
    pub fn with_deadline(self, seconds: u64) -> (r: HttpRequest)
        ensures
            r.method == self.method,
            r.url == self.url,
            r.authorization == self.authorization,
            r.body == self.body,
            r.deadline == Some(seconds),
    {
        HttpRequest { deadline: Some(seconds), ..self }
    }
}

/// The client: the bearer token, its kind, and the instant it expires.
#[derive(Debug, Clone, PartialEq, Eq)]
pub struct Api {
    pub token_type: TokenType,
    /// The instant the token expires, in seconds on the caller's axis.
    pub expiration: u64,
    /// The full `Authorization` header value: `"Bearer "` before the access
    /// token.
    pub token: String,
}

impl Api {
    /// Whether the token is still valid at `now`: its expiration lies
    /// strictly in the future.
    pub open spec fn fresh_at(self, now: u64) -> bool {
        now < self.expiration
    }

    /// The token-freshness predicate, as executable code.
    pub fn token_fresh(&self, now: u64) -> (r: bool)
        ensures
            r == self.fresh_at(now),
    {
        now < self.expiration
    }

    /// Builds a client from the authentication endpoint's response body and
    /// the current instant.  The body must decode to a bearer-token grant;
    /// the expiration instant is `now` plus the granted lifetime, and the
    /// stored token is the access token behind `"Bearer "`.
    pub fn new(body: &str, now: u64) -> (r: Result<Api, AuthError>)
        ensures
            r is Ok <==> (json_of_text(body@) matches Some(j) && token_response_decodes(j)
                && now + spec_expires_in(j) <= u64::MAX),
            json_of_text(body@) is None ==> r == Err::<Api, AuthError>(
                AuthError::Decode(DecodeError::Syntax),
            ),
            (json_of_text(body@) matches Some(j) && !token_response_decodes(j)) ==> (r matches Err(
                AuthError::Decode(DecodeError::Field(_)),
            )),
            (json_of_text(body@) matches Some(j) && token_response_decodes(j) && now
                + spec_expires_in(j) > u64::MAX) ==> r == Err::<Api, AuthError>(
                AuthError::Expiration,
            ),
            r matches Ok(a) ==> (json_of_text(body@) matches Some(j) && {
                &&& a.token_type == TokenType::Bearer
                &&& a.expiration == now + spec_expires_in(j)
                &&& a.token@ == "Bearer "@ + spec_access_token(j)
                &&& spec_expires_in(j) > 0 ==> a.fresh_at(now)
            }),
    {
        let j = match parse_json(body) {
            Ok(j) => j,
            Err(e) => {
                return Err(AuthError::Decode(e));
            },
        };
        let resp = match decode_token_response(&j) {
            Ok(t) => t,
            Err(e) => {
                return Err(AuthError::Decode(e));
            },
        };
        resp.to_api(now)
    }

    /// Replaces the token by re-running acquisition: a declared capability
    /// that is not built yet, so it fails fast and changes nothing.
    pub fn reauthorize(&mut self) -> (r: Result<(), AuthError>)
        ensures
            r == Err::<(), AuthError>(AuthError::NotImplemented),
            *final(self) == *old(self),
    {
        Err(AuthError::NotImplemented)
    }

    /// The request of the client-credentials exchange: a POST of the
    /// identifier, the secret and the fixed grant type to the
    /// authentication endpoint, sent before any token exists.
    pub fn auth_request(client_id: &str, client_secret: &str) -> (r: HttpRequest)
        ensures
            r.method == Method::Post,
            r.url@ == "https://api.gfycat.com/v1/oauth/token"@,
            r.authorization is None,
            r.body matches Some(b) && ({
                &&& b@.len() == 3
                &&& b@[0].0@ == "client_id"@ && b@[0].1@ == client_id@
                &&& b@[1].0@ == "client_secret"@ && b@[1].1@ == client_secret@
                &&& b@[2].0@ == "grant_type"@ && b@[2].1@ == "client_credentials"@
            }),
            r.deadline is None,
    {
        let mut body: Vec<(String, String)> = Vec::new();
        body.push((String::from_str("client_id"), client_id.to_owned()));
        body.push((String::from_str("client_secret"), client_secret.to_owned()));
        body.push((String::from_str("grant_type"), String::from_str("client_credentials")));
        HttpRequest {
            method: Method::Post,
            url: String::from_str("https://api.gfycat.com/v1/oauth/token"),
            authorization: None,
            body: Some(body),
            deadline: None,
        }
    }

    /// The request of the client-credentials exchange, taken straight from
    /// loaded credentials.
    pub fn from_credentials(credentials: &LoadCredentials) -> (r: HttpRequest)
        ensures
            r.method == Method::Post,
            r.url@ == "https://api.gfycat.com/v1/oauth/token"@,
            r.authorization is None,
            r.body matches Some(b) && ({
                &&& b@.len() == 3
                &&& b@[0].0@ == "client_id"@ && b@[0].1@ == credentials.client_id@
                &&& b@[1].0@ == "client_secret"@ && b@[1].1@ == credentials.client_secret@
                &&& b@[2].0@ == "grant_type"@ && b@[2].1@ == "client_credentials"@
            }),
            r.deadline is None,
    {
        Api::auth_request(credentials.client_id.as_str(), credentials.client_secret.as_str())
    }
}

impl Default for Api {
    /// An empty client: the bearer kind, no token, expired on any axis.
    fn default() -> (r: Api)
        ensures
            r.token_type == TokenType::Bearer,
            r.expiration == 0,
            r.token@ == Seq::<char>::empty(),
    {
        Api { token_type: TokenType::Bearer, expiration: 0, token: String::new() }
    }
}

/// Acquisition never hands back an already-expired client: a client whose
/// expiration was stamped `now` plus a positive granted lifetime is fresh
/// at `now`, the instant it was built.
pub proof fn lemma_acquired_client_is_fresh(a: Api, now: u64, lifetime: u64)
    requires
        lifetime > 0,
        a.expiration == now + lifetime,
    ensures
        a.fresh_at(now),
{
}

/// The outcome the username-availability operation owes for each status
/// code: 200 means the name is taken, 404 that it is free; 401 and 422 are
/// the mapped errors, and everything else falls back to the unknown error.
pub open spec fn user_exists_outcome(status: u16) -> Result<bool, ApiError> {
    if status == 200 {
        Ok(false)
    } else if status == 404 {
        Ok(true)
    } else if status == 401 {
        Err(ApiError::Unauthorized)
    } else if status == 422 {
        Err(ApiError::InvalidValue)
    } else {
        Err(ApiError::Unknown)
    }
}

/// The outcome of the email-verified lookup for each status code.
pub open spec fn email_verified_outcome(status: u16) -> Result<bool, ApiError> {
    if status == 200 {
        Ok(true)
    } else if status == 404 {
        Ok(false)
    } else if status == 401 {
        Err(ApiError::Unauthorized)
    } else {
        Err(ApiError::Unknown)
    }
}

/// The outcome of sending a verification email for each status code: any
/// 2xx is success.
pub open spec fn send_email_verification_outcome(status: u16) -> Result<(), ApiError> {
    if 200 <= status < 300 {
        Ok(())
    } else if status == 404 {
        Err(ApiError::MissingEmail)
    } else if status == 401 {
        Err(ApiError::Unauthorized)
    } else {
        Err(ApiError::Unknown)
    }
}

/// The outcome of a password-reset request for each status code: any 2xx
/// is success.
pub open spec fn reset_password_outcome(status: u16) -> Result<(), ApiError> {
    if 200 <= status < 300 {
        Ok(())
    } else if status == 404 || status == 400 {
        Err(ApiError::InvalidValue)
    } else if status == 422 {
        Err(ApiError::MissingEmail)
    } else {
        Err(ApiError::Unknown)
    }
}

impl Api {
    /// Interprets the username-availability response.  The result reads as
    /// availability: 200 means the name is taken, so `Ok(false)`; 404 means
    /// it is free, so `Ok(true)`.
    pub fn user_exists(&self, status: u16) -> (r: Result<bool, ApiError>)
        ensures
            r == user_exists_outcome(status),
    {
        match status {
            200 => Ok(false),
            404 => Ok(true),
            401 => Err(ApiError::Unauthorized),
            422 => Err(ApiError::InvalidValue),
            _ => Err(ApiError::Unknown),
        }
    }

    /// The request of the username-availability lookup.
    pub fn user_exists_request(&self, username: &str) -> (r: HttpRequest)
        ensures
            r.method == Method::Get,
            r.url@ == "https://api.gfycat.com/v1/users/"@ + username@,
            r.authorization matches Some(t) && t@ == self.token@,
            r.body is None,
            r.deadline is None,
    {
        HttpRequest {
            method: Method::Get,
            url: String::from_str("https://api.gfycat.com/v1/users/").concat(username),
            authorization: Some(self.token.clone()),
            body: None,
            deadline: None,
        }
    }

    /// Interprets the email-verified response.
    pub fn email_verified(&self, status: u16) -> (r: Result<bool, ApiError>)
        ensures
            r == email_verified_outcome(status),
    {
        match status {
            200 => Ok(true),
            404 => Ok(false),
            401 => Err(ApiError::Unauthorized),
            _ => Err(ApiError::Unknown),
        }
    }

    /// The request of the email-verified lookup.
    pub fn email_verified_request(&self) -> (r: HttpRequest)
        ensures
            r.method == Method::Get,
            r.url@ == "https://api.gfycat.com/v1/me/email_verified"@,
            r.authorization matches Some(t) && t@ == self.token@,
            r.body is None,
            r.deadline is None,
    {
        HttpRequest {
            method: Method::Get,
            url: String::from_str("https://api.gfycat.com/v1/me/email_verified"),
            authorization: Some(self.token.clone()),
            body: None,
            deadline: None,
        }
    }

    /// Interprets the send-verification-email response.
    pub fn send_email_verification(&self, status: u16) -> (r: Result<(), ApiError>)
        ensures
            r == send_email_verification_outcome(status),
    {
        if 200 <= status && status < 300 {
            Ok(())
        } else if status == 404 {
            Err(ApiError::MissingEmail)
        } else if status == 401 {
            Err(ApiError::Unauthorized)
        } else {
            Err(ApiError::Unknown)
        }
    }

    /// The request that asks the service to send a verification email.
    pub fn send_email_verification_request(&self) -> (r: HttpRequest)
        ensures
            r.method == Method::Post,
            r.url@ == "https://api.gfycat.com/v1/me/send_verification_email"@,
            r.authorization matches Some(t) && t@ == self.token@,
            r.body is None,
            r.deadline is None,
    {
        HttpRequest {
            method: Method::Post,
            url: String::from_str("https://api.gfycat.com/v1/me/send_verification_email"),
            authorization: Some(self.token.clone()),
            body: None,
            deadline: None,
        }
    }

    /// Interprets the password-reset response.
    pub fn reset_password(&self, status: u16) -> (r: Result<(), ApiError>)
        ensures
            r == reset_password_outcome(status),
    {
        if 200 <= status && status < 300 {
            Ok(())
        } else if status == 404 || status == 400 {
            Err(ApiError::InvalidValue)
        } else if status == 422 {
            Err(ApiError::MissingEmail)
        } else {
            Err(ApiError::Unknown)
        }
    }

    /// The request of a password reset: a PATCH whose body carries the
    /// address and the fixed reset action.
    pub fn reset_password_request(&self, email: &str) -> (r: HttpRequest)
        ensures
            r.method == Method::Patch,
            r.url@ == "https://api.gfycat.com/v1/users/"@,
            r.authorization matches Some(t) && t@ == self.token@,
            r.body matches Some(b) && ({
                &&& b@.len() == 2
                &&& b@[0].0@ == "value"@ && b@[0].1@ == email@
                &&& b@[1].0@ == "action"@ && b@[1].1@ == "send_password_reset_email"@
            }),
            r.deadline is None,
    {
        let mut body: Vec<(String, String)> = Vec::new();
        body.push((String::from_str("value"), email.to_owned()));
        body.push((String::from_str("action"), String::from_str("send_password_reset_email")));
        HttpRequest {
            method: Method::Patch,
            url: String::from_str("https://api.gfycat.com/v1/users/"),
            authorization: Some(self.token.clone()),
            body: Some(body),
            deadline: None,
        }
    }

    /// Interprets the user-details response: a 200 decodes to a [`User`],
    /// any other status is the unknown error, and a 200 whose body does not
    /// decode surfaces as the distinct decode error.
    pub fn user_details(&self, status: u16, body: &str) -> (r: Result<User, ApiError>)
        ensures
            r is Ok <==> (status == 200 && (json_of_text(body@) matches Some(j) && user_decodes(j))),
            status != 200 ==> r == Err::<User, ApiError>(ApiError::Unknown),
            status == 200 && json_of_text(body@) is None ==> r == Err::<User, ApiError>(
                ApiError::Decode(DecodeError::Syntax),
            ),
            (status == 200 && (json_of_text(body@) matches Some(j) && !user_decodes(j))) ==> (
            r matches Err(ApiError::Decode(DecodeError::Field(_)))),
            r matches Ok(u) ==> (json_of_text(body@) matches Some(j) && user_fields_match(u, j)),
    {
        if status != 200 {
            return Err(ApiError::Unknown);
        }
        let j = match parse_json(body) {
            Ok(j) => j,
            Err(e) => {
                return Err(ApiError::Decode(e));
            },
        };
        match decode_user(&j) {
            Ok(u) => Ok(u),
            Err(e) => Err(ApiError::Decode(e)),
        }
    }

    /// The request of a user-details lookup by numeric identifier.
    pub fn user_details_request(&self, user_id: u64) -> (r: HttpRequest)
        ensures
            r.method == Method::Get,
            r.url@ == "https://api.gfycat.com/v1/users/"@ + spec_dec(user_id as int),
            r.authorization matches Some(t) && t@ == self.token@,
            r.body is None,
            r.deadline is None,
    {
        let id = format_u64(user_id);
        HttpRequest {
            method: Method::Get,
            url: String::from_str("https://api.gfycat.com/v1/users/").concat(id.as_str()),
            authorization: Some(self.token.clone()),
            body: None,
            deadline: None,
        }
    }

    /// Interprets the self-details response, as [`Self::user_details`] does
    /// for the authenticated account's own profile.
    pub fn self_details(&self, status: u16, body: &str) -> (r: Result<SelfUser, ApiError>)
        ensures
            r is Ok <==> (status == 200 && (json_of_text(body@) matches Some(j)
                && self_user_decodes(j))),
            status != 200 ==> r == Err::<SelfUser, ApiError>(ApiError::Unknown),
            status == 200 && json_of_text(body@) is None ==> r == Err::<SelfUser, ApiError>(
                ApiError::Decode(DecodeError::Syntax),
            ),
            (status == 200 && (json_of_text(body@) matches Some(j) && !self_user_decodes(j))) ==> (
            r matches Err(ApiError::Decode(DecodeError::Field(_)))),
            r matches Ok(u) ==> (json_of_text(body@) matches Some(j) && self_user_fields_match(
                u,
                j,
            )),
    {
        if status != 200 {
            return Err(ApiError::Unknown);
        }
        let j = match parse_json(body) {
            Ok(j) => j,
            Err(e) => {
                return Err(ApiError::Decode(e));
            },
        };
        match decode_self_user(&j) {
            Ok(u) => Ok(u),
            Err(e) => Err(ApiError::Decode(e)),
        }
    }

    /// The request of the self-details lookup.
    pub fn self_details_request(&self) -> (r: HttpRequest)
        ensures
            r.method == Method::Get,
            r.url@ == "https://api.gfycat.com/v1/me"@,
            r.authorization matches Some(t) && t@ == self.token@,
            r.body is None,
            r.deadline is None,
    {
        HttpRequest {
            method: Method::Get,
            url: String::from_str("https://api.gfycat.com/v1/me"),
            authorization: Some(self.token.clone()),
            body: None,
            deadline: None,
        }
    }

    /// Interprets the media-item-info response: a 200 whose body carries a
    /// well-formed `gfyItem` envelope yields the inner record.
    pub fn info(&self, status: u16, body: &str) -> (r: Result<GfyItem, ApiError>)
        ensures
            r is Ok <==> (status == 200 && (json_of_text(body@) matches Some(j)
                && gfycat_info_decodes(j))),
            status != 200 ==> r == Err::<GfyItem, ApiError>(ApiError::Unknown),
            status == 200 && json_of_text(body@) is None ==> r == Err::<GfyItem, ApiError>(
                ApiError::Decode(DecodeError::Syntax),
            ),
            (status == 200 && (json_of_text(body@) matches Some(j) && !gfycat_info_decodes(j))) ==> (
            r matches Err(ApiError::Decode(DecodeError::Field(_)))),
            r matches Ok(m) ==> (json_of_text(body@) matches Some(j) && spec_field(
                j,
                "gfyItem"@,
            ) matches Some(inner) && gfy_item_fields_match(m, inner)),
    {
        if status != 200 {
            return Err(ApiError::Unknown);
        }
        let j = match parse_json(body) {
            Ok(j) => j,
            Err(e) => {
                return Err(ApiError::Decode(e));
            },
        };
        match decode_gfycat_info(&j) {
            Ok(g) => Ok(g.gfy_item),
            Err(e) => Err(ApiError::Decode(e)),
        }
    }

    /// The request of a media-item-info lookup.
    pub fn info_request(&self, gfy_id: &str) -> (r: HttpRequest)
        ensures
            r.method == Method::Get,
            r.url@ == "https://api.gfycat.com/v1/gfycats/"@ + gfy_id@,
            r.authorization matches Some(t) && t@ == self.token@,
            r.body is None,
            r.deadline is None,
    {
        HttpRequest {
            method: Method::Get,
            url: String::from_str("https://api.gfycat.com/v1/gfycats/").concat(gfy_id),
            authorization: Some(self.token.clone()),
            body: None,
            deadline: None,
        }
    }
}

/// The operation catalogue the service documents beyond the calls above.
/// Each is declared so that it stays discoverable, and each fails fast with
/// the distinct not-supported outcome until it is built.
impl Api {
    /// Mutates the authenticated account's details: not built yet.
    pub fn update_details(&self, operations: UpdateOperations) -> (r: Result<(), ApiError>)
        ensures
            r == Err::<(), ApiError>(ApiError::NotImplemented),
    {
        Err(ApiError::NotImplemented)
    }

    /// Uploads a profile image: not built yet.
    pub fn profile_image(&self, bytes: &[u8]) -> (r: Result<(), ApiError>)
        ensures
            r == Err::<(), ApiError>(ApiError::NotImplemented),
    {
        Err(ApiError::NotImplemented)
    }

    /// Creates an account: not built yet.
    pub fn create_account(&self, info: CreateUser) -> (r: Result<(), ApiError>)
        ensures
            r == Err::<(), ApiError>(ApiError::NotImplemented),
    {
        Err(ApiError::NotImplemented)
    }

    /// Follows a user: not built yet.
    pub fn follow_user(&self, username: &str) -> (r: Result<(), ApiError>)
        ensures
            r == Err::<(), ApiError>(ApiError::NotImplemented),
    {
        Err(ApiError::NotImplemented)
    }

    /// Unfollows a user: not built yet.
    pub fn unfollow_user(&self, username: &str) -> (r: Result<(), ApiError>)
        ensures
            r == Err::<(), ApiError>(ApiError::NotImplemented),
    {
        Err(ApiError::NotImplemented)
    }

    /// Asks whether the account follows a user: not built yet.
    pub fn check_following(&self, username: &str) -> (r: Result<bool, ApiError>)
        ensures
            r == Err::<bool, ApiError>(ApiError::NotImplemented),
    {
        Err(ApiError::NotImplemented)
    }

    /// Lists whom the account follows: not built yet.
    pub fn list_following(&self) -> (r: Result<Vec<String>, ApiError>)
        ensures
            r == Err::<Vec<String>, ApiError>(ApiError::NotImplemented),
    {
        Err(ApiError::NotImplemented)
    }

    /// Lists the account's followers: not built yet.
    pub fn list_followers(&self) -> (r: Result<Vec<String>, ApiError>)
        ensures
            r == Err::<Vec<String>, ApiError>(ApiError::NotImplemented),
    {
        Err(ApiError::NotImplemented)
    }

    /// Lists a user's published items: not built yet.
    pub fn published(&self, user_id: u64) -> (r: Result<Vec<String>, ApiError>)
        ensures
            r == Err::<Vec<String>, ApiError>(ApiError::NotImplemented),
    {
        Err(ApiError::NotImplemented)
    }

    /// Lists the account's private feed: not built yet.
    pub fn private_feed(&self) -> (r: Result<Vec<String>, ApiError>)
        ensures
            r == Err::<Vec<String>, ApiError>(ApiError::NotImplemented),
    {
        Err(ApiError::NotImplemented)
    }

    /// Lists the account's timeline: not built yet.
    pub fn timeline(&self) -> (r: Result<Vec<String>, ApiError>)
        ensures
            r == Err::<Vec<String>, ApiError>(ApiError::NotImplemented),
    {
        Err(ApiError::NotImplemented)
    }

    /// Lists the account's folders: not built yet.
    pub fn all_folders(&self) -> (r: Result<Vec<String>, ApiError>)
        ensures
            r == Err::<Vec<String>, ApiError>(ApiError::NotImplemented),
    {
        Err(ApiError::NotImplemented)
    }

    /// Lists the account's bookmark folders: not built yet.
    pub fn bookmark_folders(&self) -> (r: Result<Vec<String>, ApiError>)
        ensures
            r == Err::<Vec<String>, ApiError>(ApiError::NotImplemented),
    {
        Err(ApiError::NotImplemented)
    }

    /// Lists one bookmark folder's contents: not built yet.
    pub fn bookmark_folders_id(&self, bookmark_id: u64) -> (r: Result<Vec<String>, ApiError>)
        ensures
            r == Err::<Vec<String>, ApiError>(ApiError::NotImplemented),
    {
        Err(ApiError::NotImplemented)
    }

    /// Lists the account's albums: not built yet.
    pub fn self_albums(&self) -> (r: Result<Vec<String>, ApiError>)
        ensures
            r == Err::<Vec<String>, ApiError>(ApiError::NotImplemented),
    {
        Err(ApiError::NotImplemented)
    }

    /// Lists an album's contents: not built yet.
    pub fn get_album_contents(&self, user_id: u64, album_id: u64) -> (r: Result<
        Vec<String>,
        ApiError,
    >)
        ensures
            r == Err::<Vec<String>, ApiError>(ApiError::NotImplemented),
    {
        Err(ApiError::NotImplemented)
    }

    /// Looks an album up by link: not built yet.
    pub fn albums_by_link(&self, user_id: u64, link: &str) -> (r: Result<(), ApiError>)
        ensures
            r == Err::<(), ApiError>(ApiError::NotImplemented),
    {
        Err(ApiError::NotImplemented)
    }

    /// Looks the account's album up by identifier: not built yet.
    pub fn self_album_id(&self, user_id: u64, album_id: u64) -> (r: Result<(), ApiError>)
        ensures
            r == Err::<(), ApiError>(ApiError::NotImplemented),
    {
        Err(ApiError::NotImplemented)
    }

    /// Creates an album: not built yet.
    pub fn create_album(&self, user_id: u64, album_id: u64) -> (r: Result<(), ApiError>)
        ensures
            r == Err::<(), ApiError>(ApiError::NotImplemented),
    {
        Err(ApiError::NotImplemented)
    }

    /// Moves an album into a folder: not built yet.
    pub fn move_album_to_folder(&self, user_id: u64, album_id: u64) -> (r: Result<(), ApiError>)
        ensures
            r == Err::<(), ApiError>(ApiError::NotImplemented),
    {
        Err(ApiError::NotImplemented)
    }
}

} // verus!

