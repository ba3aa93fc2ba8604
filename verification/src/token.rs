//! Token acquisition: decoding the authentication response and stamping the
//! expiration instant.
//!
//! Instants are plain values: seconds on an unsigned 64-bit axis.  The
//! embedding program chooses the axis (it passes the current instant in);
//! everything proved here holds for any choice.

use crate::api::Api;
use crate::error::{AuthError, DecodeError};
use crate::json::{spec_str_field, spec_u64_field, str_field, u64_field, Json};
use vstd::prelude::*;
use vstd::string::*;

verus! {

/// The kind of token the service grants.  Enumerated for forward
/// compatibility; only bearer tokens exist today.
#[derive(Debug, Clone, Copy, PartialEq, Eq, Structural)]
pub enum TokenType {
    Bearer,
}

/// The decoded body of the authentication endpoint's response.
#[derive(Debug, Clone, PartialEq, Eq)]
pub struct TokenResponse {
    pub token_type: TokenType,
    pub expires_in: u64,
    pub access_token: String,
}

/// Whether `j` is a well-formed authentication response: a `token_type` of
/// exactly `"bearer"`, an unsigned `expires_in`, and a string
/// `access_token`.
pub open spec fn token_response_decodes(j: Json) -> bool {
    &&& spec_str_field(j, "token_type"@) == Some("bearer"@)
    &&& spec_u64_field(j, "expires_in"@) is Some
    &&& spec_str_field(j, "access_token"@) is Some
}

/// The granted lifetime of a well-formed authentication response.
pub open spec fn spec_expires_in(j: Json) -> u64 {
    spec_u64_field(j, "expires_in"@)->0
}

/// The access token of a well-formed authentication response.
pub open spec fn spec_access_token(j: Json) -> Seq<char> {
    spec_str_field(j, "access_token"@)->0
}

/// Decodes an authentication response body.
pub fn decode_token_response(j: &Json) -> (r: Result<TokenResponse, DecodeError>)
    ensures
        r is Ok <==> token_response_decodes(*j),
        r matches Ok(t) ==> ({
            &&& t.token_type == TokenType::Bearer
            &&& t.expires_in == spec_expires_in(*j)
            &&& t.access_token@ == spec_access_token(*j)
        }),
        r matches Err(e) ==> e is Field,
{
    let token_type = str_field(j, "token_type")?;
    if !(token_type == String::from_str("bearer")) {
        return Err(DecodeError::Field(String::from_str("token_type")));
    }
    let expires_in = u64_field(j, "expires_in")?;
    let access_token = str_field(j, "access_token")?;
    Ok(TokenResponse { token_type: TokenType::Bearer, expires_in, access_token })
}

impl TokenResponse {
    /// Turns a decoded response into a live client, stamping the absolute
    /// expiration instant `now + expires_in`.  Where that sum overflows the
    /// instant axis the exchange fails with the expiration error instead of
    /// wrapping; a positive lifetime always yields a client that is fresh
    /// at the instant it was built.
    pub fn to_api(self, now: u64) -> (r: Result<Api, AuthError>)
        ensures
            r is Ok <==> now + self.expires_in <= u64::MAX,
            now + self.expires_in > u64::MAX <==> r == Err::<Api, AuthError>(
                AuthError::Expiration,
            ),
            r matches Ok(a) ==> ({
                &&& a.token_type == self.token_type
                &&& a.expiration == now + self.expires_in
                &&& a.token@ == "Bearer "@ + self.access_token@
                &&& self.expires_in > 0 ==> a.fresh_at(now)
            }),
    {
        if self.expires_in <= u64::MAX - now {
            Ok(Api {
                token_type: self.token_type,
                expiration: now + self.expires_in,
                token: String::from_str("Bearer ").concat(self.access_token.as_str()),
            })
        } else {
            Err(AuthError::Expiration)
        }
    }
}

} // verus!
