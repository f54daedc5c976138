//! The validators: the checks that every grant processor runs before it
//! writes anything. Each one answers with the record it looked up or with the
//! kind of error that ends the request.

use vstd::prelude::*;
use crate::error::ErrorKind;
use crate::records::{AuthorizationCode, Client, GrantKind, GrantType, RefreshToken};
use crate::store::{Datastore, StoreView};
use crate::text::str_equal;

verus! {

/// Whether the grant type is known to the datastore and enabled.
pub open spec fn grant_enabled(s: StoreView, name: Seq<char>) -> bool {
    s.grant_types.contains_key(name) && s.grant_types[name].enabled
}

/// Whether the client is registered and may use the grant type.
pub open spec fn client_permitted(s: StoreView, client_id: Seq<char>, grant: GrantKind) -> bool {
    s.clients.contains_key(client_id) && s.clients[client_id].allowed_grant_types.contains(
        grant.name(),
    )
}

/// Whether the refresh token exists, is not revoked and has not expired at
/// `now`.
pub open spec fn refresh_token_usable(s: StoreView, value: Seq<char>, now: u64) -> bool {
    &&& s.refresh_tokens.contains_key(value)
    &&& !s.refresh_tokens[value].revoked
    &&& s.refresh_tokens[value].expires_at matches Some(end) ==> now < end
}

/// Whether the authorization code can be redeemed at `now` by the given
/// client: it exists, was issued to that client, has not been redeemed, has
/// not expired, and where the request names a redirect URI it is the one the
/// code is bound to.
pub open spec fn code_redeemable(
    s: StoreView,
    code: Seq<char>,
    client_id: Seq<char>,
    redirect_uri: Option<Seq<char>>,
    now: u64,
) -> bool {
    &&& s.authorization_codes.contains_key(code)
    &&& s.authorization_codes[code].client_id == client_id
    &&& !s.authorization_codes[code].used
    &&& now < s.authorization_codes[code].expires_at
    &&& redirect_uri is Some ==> s.authorization_codes[code].redirect_uri == redirect_uri
}

/// Authenticates a client. An unknown client and a wrong secret give the same
/// error.
pub fn check_client_credentials(store: &Datastore, client_id: &str, client_secret: &str) -> (checked:
    Result<Client, ErrorKind>)
    ensures
        match checked {
            Ok(client) => store@.authenticates(client_id@, client_secret@) && client@
                == store@.clients[client_id@],
            Err(kind) => kind == ErrorKind::InvalidClient && !store@.authenticates(
                client_id@,
                client_secret@,
            ),
        },
{
    match store.find_client_by_id(client_id) {
        Some(client) => {
            if str_equal(client.secret.as_str(), client_secret) {
                Ok(client.clone())
            } else {
                Err(ErrorKind::InvalidClient)
            }
        },
        None => Err(ErrorKind::InvalidClient),
    }
}

/// Looks up a grant type that requests may use: one that is known and
/// enabled.
pub fn check_grant_type(store: &Datastore, name: &str) -> (checked: Result<GrantType, ErrorKind>)
    ensures
        match checked {
            Ok(grant_type) => grant_enabled(store@, name@) && grant_type@
                == store@.grant_types[name@],
            Err(kind) => kind == ErrorKind::UnsupportedGrantType && !grant_enabled(store@, name@),
        },
{
    match store.find_grant_type_by_name(name) {
        Some(grant_type) => {
            if grant_type.enabled {
                Ok(grant_type.clone())
            } else {
                Err(ErrorKind::UnsupportedGrantType)
            }
        },
        None => Err(ErrorKind::UnsupportedGrantType),
    }
}

/// Whether the client's registration lists the grant type.
pub fn client_may_use(client: &Client, grant: GrantKind) -> (allowed: bool)
    ensures
        allowed == client@.allowed_grant_types.contains(grant.name()),
{
    let name = grant.name_str();
    let mut i: usize = 0;
    while i < client.allowed_grant_types.len()
        invariant
            i <= client.allowed_grant_types.len(),
            name@ == grant.name(),
            forall|j: int| 0 <= j < i ==> client.allowed_grant_types[j]@ != grant.name(),
        decreases client.allowed_grant_types.len() - i,
    {
        if str_equal(client.allowed_grant_types[i].as_str(), name) {
            assert(client@.allowed_grant_types[i as int] == grant.name());
            return true;
        }
        i = i + 1;
    }
    false
}

/// Looks up a refresh token that can be used at `now`.
pub fn check_refresh_token(store: &Datastore, token: &str, now: u64) -> (checked: Result<
    RefreshToken,
    ErrorKind,
>)
    ensures
        match checked {
            Ok(row) => refresh_token_usable(store@, token@, now) && row@
                == store@.refresh_tokens[token@],
            Err(kind) => kind == ErrorKind::InvalidGrant && !refresh_token_usable(
                store@,
                token@,
                now,
            ),
        },
{
    match store.find_refresh_token_by_value(token) {
        Some(row) => {
            let expired = match row.expires_at {
                Some(end) => now >= end,
                None => false,
            };
            if row.revoked || expired {
                Err(ErrorKind::InvalidGrant)
            } else {
                Ok(row.clone())
            }
        },
        None => Err(ErrorKind::InvalidGrant),
    }
}

/// Looks up an authorization code that the client can redeem at `now`. The
/// datastore is only read: the code is not marked as redeemed.
pub fn check_authorization_code(
    store: &Datastore,
    code: &str,
    client_id: &str,
    redirect_uri: &Option<String>,
    now: u64,
) -> (checked: Result<AuthorizationCode, ErrorKind>)
    ensures
        match checked {
            Ok(row) => code_redeemable(store@, code@, client_id@, redirect_uri.deep_view(), now)
                && row@ == store@.authorization_codes[code@],
            Err(kind) => kind == ErrorKind::InvalidGrant && !code_redeemable(
                store@,
                code@,
                client_id@,
                redirect_uri.deep_view(),
                now,
            ),
        },
{
    match store.find_authorization_code(code) {
        Some(row) => {
            let redirect_matches = match redirect_uri {
                Some(named) => match &row.redirect_uri {
                    Some(bound) => str_equal(bound.as_str(), named.as_str()),
                    None => false,
                },
                None => true,
            };
            if !str_equal(row.client_id.as_str(), client_id) || row.used || now >= row.expires_at
                || !redirect_matches {
                Err(ErrorKind::InvalidGrant)
            } else {
                Ok(row.clone())
            }
        },
        None => Err(ErrorKind::InvalidGrant),
    }
}

} // verus!
