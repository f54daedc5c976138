//! The grant processors: one function for each grant type of the token
//! endpoint. A processor checks a request in a fixed order (the fields the
//! grant type requires, the client's credentials, the grant type, and then
//! what is particular to the grant) and stops at the first check that fails.
//! Nothing about the grant type is asked before the client's credentials have
//! been checked, not even whether the request names one.
//! Tokens are written only once every check has passed, so a request that is
//! rejected leaves the datastore as it was.
//!
//! Policies that the processors follow:
//! - A processor serves only requests that name its own grant type. A
//!   request that names none is an invalid request.
//! - The client-credentials grant binds the tokens to the scope as it is
//!   requested; the request only has to name at least one permission.
//! - A refresh request need not carry client credentials. Where it carries
//!   a client id and a secret, the client is authenticated before the refresh
//!   token is looked at. Where it carries a client id, with a secret or
//!   without, the refresh token must have been issued to that client. A
//!   secret without a client id is ignored.
//! - An authorization code is bound to one client and, where the
//!   authorization request named one, to a redirect URI. A request that names
//!   a redirect URI must name the one the code is bound to.
//! - A refresh token is not replaced when it is used: the response carries
//!   the token that was presented.
//! - Only the client-credentials grant issues a refresh token.

use vstd::prelude::*;
use crate::error::{error_of, oauth_error, ErrorKind, OAuth2Error, OAuth2ErrorView};
use crate::generate::{
    generate_access_token, generate_refresh_token, generate_token_response, issued_access_token,
    issued_refresh_token, token_response, with_access_token, with_refresh_token,
};
use crate::records::{
    AccessTokenRequest, AccessTokenResponse, AuthorizationCodeView, GrantKind, RequestView,
    ResponseView,
};
use crate::scope::{check_scope, names_nothing, scope_allowed, scope_is_empty};
use crate::store::{Datastore, StoreView};
use crate::text::str_equal;
use crate::validate::{
    check_authorization_code, check_client_credentials, check_grant_type, check_refresh_token,
    client_may_use, client_permitted, code_redeemable, grant_enabled, refresh_token_usable,
};

verus! {

/// How a request ends: what the caller is told, and what the datastore holds
/// afterwards.
#[verifier::ext_equal]
pub struct Outcome {
    pub result: Result<ResponseView, OAuth2ErrorView>,
    pub store: StoreView,
}

/// The outcome of a request that is rejected: the error of the given kind,
/// and the datastore as it was.
pub open spec fn rejected(s: StoreView, kind: ErrorKind) -> Outcome {
    Outcome { result: Err(error_of(kind)), store: s }
}

/// What a result holds.
pub open spec fn result_view(result: Result<AccessTokenResponse, OAuth2Error>) -> Result<
    ResponseView,
    OAuth2ErrorView,
> {
    match result {
        Ok(response) => Ok(response@),
        Err(error) => Err(error@),
    }
}

/// Whether the request lacks a field that the grant type requires.
pub open spec fn lacks_required_field(grant: GrantKind, req: RequestView) -> bool {
    match grant {
        GrantKind::AuthorizationCode => req.client_id is None || req.client_secret is None
            || req.code is None,
        GrantKind::ClientCredentials => req.client_id is None || req.client_secret is None
            || req.scope is None,
        GrantKind::RefreshToken => req.refresh_token is None || req.scope is None,
    }
}

/// Whether the request carries credentials that do not authenticate a
/// client: a client id and a secret, of which the id is unknown or the secret
/// is not the client's.
pub open spec fn presents_bad_credentials(s: StoreView, req: RequestView) -> bool {
    &&& req.client_id is Some
    &&& req.client_secret is Some
    &&& !s.authenticates(req.client_id->0, req.client_secret->0)
}

/// Whether the request names the grant type and the datastore has it
/// enabled.
pub open spec fn grant_served(s: StoreView, req: RequestView, grant: GrantKind) -> bool {
    req.grant_type == Some(grant.name()) && grant_enabled(s, grant.name())
}

/// Why a client-credentials request is rejected, if it is: the first of the
/// checks, in their order, that it fails.
pub open spec fn client_credentials_rejection(s: StoreView, req: RequestView) -> Option<ErrorKind> {
    if lacks_required_field(GrantKind::ClientCredentials, req) {
        Some(ErrorKind::InvalidRequest)
    } else if presents_bad_credentials(s, req) {
        Some(ErrorKind::InvalidClient)
    } else if req.grant_type is None {
        Some(ErrorKind::InvalidRequest)
    } else if !grant_served(s, req, GrantKind::ClientCredentials) {
        Some(ErrorKind::UnsupportedGrantType)
    } else if !client_permitted(s, req.client_id->0, GrantKind::ClientCredentials) {
        Some(ErrorKind::UnauthorizedClient)
    } else if names_nothing(req.scope->0) {
        Some(ErrorKind::InvalidScope)
    } else {
        None
    }
}

/// How a client-credentials request ends. A request that passes every check
/// gets an access token and a refresh token, both for the client and with
/// the scope exactly as requested.
pub open spec fn client_credentials_outcome(
    s: StoreView,
    req: RequestView,
    now: u64,
    access_seed: Seq<char>,
    refresh_seed: Seq<char>,
) -> Outcome {
    match client_credentials_rejection(s, req) {
        Some(kind) => rejected(s, kind),
        None => {
            let access = issued_access_token(
                s,
                req.client_id->0,
                GrantKind::ClientCredentials.name(),
                req.scope->0,
                now,
                access_seed,
            );
            let with_access = with_access_token(s, access);
            let refresh = issued_refresh_token(
                with_access,
                req.client_id->0,
                req.scope->0,
                now,
                refresh_seed,
            );
            Outcome {
                result: Ok(token_response(access, Some(refresh))),
                store: with_refresh_token(with_access, refresh),
            }
        },
    }
}

/// Whether the refresh token that the request presents can be used at `now`
/// by the one who presents it: the token exists, is not revoked and has not
/// expired, and where the request names a client, the token was issued to
/// that client.
pub open spec fn refresh_token_presentable(s: StoreView, req: RequestView, now: u64) -> bool {
    &&& refresh_token_usable(s, req.refresh_token->0, now)
    &&& req.client_id is Some ==> req.client_id->0
        == s.refresh_tokens[req.refresh_token->0].client_id
}

/// Why a refresh request is rejected, if it is: the first of the checks, in
/// their order, that it fails.
pub open spec fn refresh_token_rejection(s: StoreView, req: RequestView, now: u64) -> Option<
    ErrorKind,
> {
    if lacks_required_field(GrantKind::RefreshToken, req) {
        Some(ErrorKind::InvalidRequest)
    } else if presents_bad_credentials(s, req) {
        Some(ErrorKind::InvalidClient)
    } else if req.grant_type is None {
        Some(ErrorKind::InvalidRequest)
    } else if !grant_served(s, req, GrantKind::RefreshToken) {
        Some(ErrorKind::UnsupportedGrantType)
    } else if !refresh_token_presentable(s, req, now) {
        Some(ErrorKind::InvalidGrant)
    } else if !scope_allowed(req.scope->0, s.refresh_tokens[req.refresh_token->0].scope) {
        Some(ErrorKind::InvalidScope)
    } else if !s.clients.contains_key(s.refresh_tokens[req.refresh_token->0].client_id) {
        Some(ErrorKind::InvalidGrant)
    } else if !client_permitted(
        s,
        s.refresh_tokens[req.refresh_token->0].client_id,
        GrantKind::RefreshToken,
    ) {
        Some(ErrorKind::UnauthorizedClient)
    } else {
        None
    }
}

/// How a refresh request ends. A request that passes every check gets a new
/// access token for the client that owns the refresh token, with the scope
/// as requested, and the refresh token that it presented.
pub open spec fn refresh_token_outcome(
    s: StoreView,
    req: RequestView,
    now: u64,
    access_seed: Seq<char>,
) -> Outcome {
    match refresh_token_rejection(s, req, now) {
        Some(kind) => rejected(s, kind),
        None => {
            let presented = s.refresh_tokens[req.refresh_token->0];
            let access = issued_access_token(
                s,
                presented.client_id,
                GrantKind::RefreshToken.name(),
                req.scope->0,
                now,
                access_seed,
            );
            Outcome {
                result: Ok(token_response(access, Some(presented))),
                store: with_access_token(s, access),
            }
        },
    }
}

/// Why an authorization-code request is rejected, if it is: the first of the
/// checks, in their order, that it fails.
pub open spec fn authorization_code_rejection(s: StoreView, req: RequestView, now: u64) -> Option<
    ErrorKind,
> {
    if lacks_required_field(GrantKind::AuthorizationCode, req) {
        Some(ErrorKind::InvalidRequest)
    } else if presents_bad_credentials(s, req) {
        Some(ErrorKind::InvalidClient)
    } else if req.grant_type is None {
        Some(ErrorKind::InvalidRequest)
    } else if !grant_served(s, req, GrantKind::AuthorizationCode) {
        Some(ErrorKind::UnsupportedGrantType)
    } else if !client_permitted(s, req.client_id->0, GrantKind::AuthorizationCode) {
        Some(ErrorKind::UnauthorizedClient)
    } else if !code_redeemable(s, req.code->0, req.client_id->0, req.redirect_uri, now) {
        Some(ErrorKind::InvalidGrant)
    } else {
        None
    }
}

/// The datastore after the authorization code has been redeemed.
pub open spec fn with_code_redeemed(s: StoreView, code: Seq<char>) -> StoreView {
    StoreView {
        authorization_codes: s.authorization_codes.insert(
            code,
            AuthorizationCodeView { used: true, ..s.authorization_codes[code] },
        ),
        ..s
    }
}

/// How an authorization-code request ends. A request that passes every check
/// redeems the code and gets an access token for the client, with the scope
/// that the code is bound to, and no refresh token.
pub open spec fn authorization_code_outcome(
    s: StoreView,
    req: RequestView,
    now: u64,
    access_seed: Seq<char>,
) -> Outcome {
    match authorization_code_rejection(s, req, now) {
        Some(kind) => rejected(s, kind),
        None => {
            let redeemed = with_code_redeemed(s, req.code->0);
            let access = issued_access_token(
                redeemed,
                req.client_id->0,
                GrantKind::AuthorizationCode.name(),
                s.authorization_codes[req.code->0].scope,
                now,
                access_seed,
            );
            Outcome {
                result: Ok(token_response(access, None)),
                store: with_access_token(redeemed, access),
            }
        },
    }
}

/// Processes an `authorization_code` request: redeems a code that was issued
/// to the client for an access token. `now` is the time in seconds since the
/// epoch, and `access_seed` the unpredictable text from which the token's
/// identifier is made.
pub fn authorization_code(
    store: &mut Datastore,
    req: AccessTokenRequest,
    now: u64,
    access_seed: &str,
) -> (result: Result<AccessTokenResponse, OAuth2Error>)
    ensures
        result_view(result) == authorization_code_outcome(
            old(store)@,
            req@,
            now,
            access_seed@,
        ).result,
        final(store)@ == authorization_code_outcome(old(store)@, req@, now, access_seed@).store,
{
    proof {
        store.lemma_well_formed();
    }
    let (client_id, client_secret, code) = match (&req.client_id, &req.client_secret, &req.code) {
        (Some(client_id), Some(client_secret), Some(code)) => (client_id, client_secret, code),
        _ => {
            return Err(oauth_error(ErrorKind::InvalidRequest));
        },
    };
    let client = match check_client_credentials(store, client_id.as_str(), client_secret.as_str()) {
        Ok(client) => client,
        Err(kind) => {
            return Err(oauth_error(kind));
        },
    };
    let grant_type = match &req.grant_type {
        Some(grant_type) => grant_type,
        None => {
            return Err(oauth_error(ErrorKind::InvalidRequest));
        },
    };
    if !str_equal(grant_type.as_str(), GrantKind::AuthorizationCode.name_str()) {
        return Err(oauth_error(ErrorKind::UnsupportedGrantType));
    }
    let grant = match check_grant_type(store, grant_type.as_str()) {
        Ok(grant) => grant,
        Err(kind) => {
            return Err(oauth_error(kind));
        },
    };
    if !client_may_use(&client, GrantKind::AuthorizationCode) {
        return Err(oauth_error(ErrorKind::UnauthorizedClient));
    }
    if let Err(kind) = check_authorization_code(
        store,
        code.as_str(),
        client_id.as_str(),
        &req.redirect_uri,
        now,
    ) {
        return Err(oauth_error(kind));
    }
    match store.find_and_consume_authorization_code(code.as_str()) {
        Some(redeemed) => {
            let access = generate_access_token(
                store,
                &client,
                &grant,
                redeemed.scope.as_str(),
                now,
                access_seed,
            );
            Ok(generate_token_response(access, None))
        },
        None => Err(oauth_error(ErrorKind::InvalidGrant)),
    }
}

/// Processes a `client_credentials` request: issues an access token and a
/// refresh token to a client that authenticates itself. `now` is the time in
/// seconds since the epoch; the two seeds are the unpredictable texts from
/// which the tokens' identifiers are made.
pub fn client_credentials(
    store: &mut Datastore,
    req: AccessTokenRequest,
    now: u64,
    access_seed: &str,
    refresh_seed: &str,
) -> (result: Result<AccessTokenResponse, OAuth2Error>)
    ensures
        result_view(result) == client_credentials_outcome(
            old(store)@,
            req@,
            now,
            access_seed@,
            refresh_seed@,
        ).result,
        final(store)@ == client_credentials_outcome(
            old(store)@,
            req@,
            now,
            access_seed@,
            refresh_seed@,
        ).store,
{
    proof {
        store.lemma_well_formed();
    }
    let (client_id, client_secret, scope) = match (&req.client_id, &req.client_secret, &req.scope) {
        (Some(client_id), Some(client_secret), Some(scope)) => (client_id, client_secret, scope),
        _ => {
            return Err(oauth_error(ErrorKind::InvalidRequest));
        },
    };
    let client = match check_client_credentials(store, client_id.as_str(), client_secret.as_str()) {
        Ok(client) => client,
        Err(kind) => {
            return Err(oauth_error(kind));
        },
    };
    let grant_type = match &req.grant_type {
        Some(grant_type) => grant_type,
        None => {
            return Err(oauth_error(ErrorKind::InvalidRequest));
        },
    };
    if !str_equal(grant_type.as_str(), GrantKind::ClientCredentials.name_str()) {
        return Err(oauth_error(ErrorKind::UnsupportedGrantType));
    }
    let grant = match check_grant_type(store, grant_type.as_str()) {
        Ok(grant) => grant,
        Err(kind) => {
            return Err(oauth_error(kind));
        },
    };
    if !client_may_use(&client, GrantKind::ClientCredentials) {
        return Err(oauth_error(ErrorKind::UnauthorizedClient));
    }
    if scope_is_empty(scope.as_str()) {
        return Err(oauth_error(ErrorKind::InvalidScope));
    }
    let access = generate_access_token(store, &client, &grant, scope.as_str(), now, access_seed);
    let refresh = generate_refresh_token(store, &client, scope.as_str(), now, refresh_seed);
    Ok(generate_token_response(access, Some(refresh)))
}

/// Processes a `refresh_token` request: issues a new access token to the
/// holder of a refresh token, for the scope that was granted with it or a
/// part of that scope. `now` is the time in seconds since the epoch, and
/// `access_seed` the unpredictable text from which the token's identifier is
/// made.
pub fn refresh_token(
    store: &mut Datastore,
    req: AccessTokenRequest,
    now: u64,
    access_seed: &str,
) -> (result: Result<AccessTokenResponse, OAuth2Error>)
    ensures
        result_view(result) == refresh_token_outcome(old(store)@, req@, now, access_seed@).result,
        final(store)@ == refresh_token_outcome(old(store)@, req@, now, access_seed@).store,
{
    proof {
        store.lemma_well_formed();
    }
    let (presented, scope) = match (&req.refresh_token, &req.scope) {
        (Some(presented), Some(scope)) => (presented, scope),
        _ => {
            return Err(oauth_error(ErrorKind::InvalidRequest));
        },
    };
    match (&req.client_id, &req.client_secret) {
        (Some(client_id), Some(client_secret)) => {
            if let Err(kind) = check_client_credentials(
                store,
                client_id.as_str(),
                client_secret.as_str(),
            ) {
                return Err(oauth_error(kind));
            }
        },
        _ => {},
    }
    let grant_type = match &req.grant_type {
        Some(grant_type) => grant_type,
        None => {
            return Err(oauth_error(ErrorKind::InvalidRequest));
        },
    };
    if !str_equal(grant_type.as_str(), GrantKind::RefreshToken.name_str()) {
        return Err(oauth_error(ErrorKind::UnsupportedGrantType));
    }
    let grant = match check_grant_type(store, grant_type.as_str()) {
        Ok(grant) => grant,
        Err(kind) => {
            return Err(oauth_error(kind));
        },
    };
    let token = match check_refresh_token(store, presented.as_str(), now) {
        Ok(token) => token,
        Err(kind) => {
            return Err(oauth_error(kind));
        },
    };
    if let Some(client_id) = &req.client_id {
        if !str_equal(client_id.as_str(), token.client_id.as_str()) {
            return Err(oauth_error(ErrorKind::InvalidGrant));
        }
    }
    let scope = match check_scope(scope.clone(), token.scope.as_str()) {
        Ok(scope) => scope,
        Err(kind) => {
            return Err(oauth_error(kind));
        },
    };
    let owner = match store.find_client_by_id(token.client_id.as_str()) {
        Some(owner) => owner.clone(),
        None => {
            return Err(oauth_error(ErrorKind::InvalidGrant));
        },
    };
    if !client_may_use(&owner, GrantKind::RefreshToken) {
        return Err(oauth_error(ErrorKind::UnauthorizedClient));
    }
    let access = generate_access_token(store, &owner, &grant, scope.as_str(), now, access_seed);
    Ok(generate_token_response(access, Some(token)))
}

/// How the processor of the given grant type ends a request.
pub open spec fn processor_outcome(
    grant: GrantKind,
    s: StoreView,
    req: RequestView,
    now: u64,
    access_seed: Seq<char>,
    refresh_seed: Seq<char>,
) -> Outcome {
    match grant {
        GrantKind::AuthorizationCode => authorization_code_outcome(s, req, now, access_seed),
        GrantKind::ClientCredentials => client_credentials_outcome(
            s,
            req,
            now,
            access_seed,
            refresh_seed,
        ),
        GrantKind::RefreshToken => refresh_token_outcome(s, req, now, access_seed),
    }
}

/// How a request to the token endpoint ends: as the processor of the grant
/// type that it names says. A request that names no grant type can be handed
/// to no processor and is an invalid request, and one that names a grant type
/// without a processor asks for what is not supported.
pub open spec fn dispatch_outcome(
    s: StoreView,
    req: RequestView,
    now: u64,
    access_seed: Seq<char>,
    refresh_seed: Seq<char>,
) -> Outcome {
    if req.grant_type is None {
        rejected(s, ErrorKind::InvalidRequest)
    } else if req.grant_type->0 == GrantKind::AuthorizationCode.name() {
        authorization_code_outcome(s, req, now, access_seed)
    } else if req.grant_type->0 == GrantKind::ClientCredentials.name() {
        client_credentials_outcome(s, req, now, access_seed, refresh_seed)
    } else if req.grant_type->0 == GrantKind::RefreshToken.name() {
        refresh_token_outcome(s, req, now, access_seed)
    } else {
        rejected(s, ErrorKind::UnsupportedGrantType)
    }
}

/// Hands a request to the processor of the grant type that it names. Every
/// grant type that the endpoint knows has its processor here.
pub fn dispatch(
    store: &mut Datastore,
    req: AccessTokenRequest,
    now: u64,
    access_seed: &str,
    refresh_seed: &str,
) -> (result: Result<AccessTokenResponse, OAuth2Error>)
    ensures
        result_view(result) == dispatch_outcome(
            old(store)@,
            req@,
            now,
            access_seed@,
            refresh_seed@,
        ).result,
        final(store)@ == dispatch_outcome(old(store)@, req@, now, access_seed@, refresh_seed@).store,
{
    let kind = match &req.grant_type {
        Some(name) => GrantKind::from_name(name.as_str()),
        None => {
            return Err(oauth_error(ErrorKind::InvalidRequest));
        },
    };
    proof {
        crate::records::lemma_grant_names_distinct(
            GrantKind::AuthorizationCode,
            GrantKind::ClientCredentials,
        );
        crate::records::lemma_grant_names_distinct(
            GrantKind::AuthorizationCode,
            GrantKind::RefreshToken,
        );
        crate::records::lemma_grant_names_distinct(
            GrantKind::ClientCredentials,
            GrantKind::RefreshToken,
        );
    }
    match kind {
        Some(GrantKind::AuthorizationCode) => authorization_code(store, req, now, access_seed),
        Some(GrantKind::ClientCredentials) => client_credentials(
            store,
            req,
            now,
            access_seed,
            refresh_seed,
        ),
        Some(GrantKind::RefreshToken) => refresh_token(store, req, now, access_seed),
        None => Err(oauth_error(ErrorKind::UnsupportedGrantType)),
    }
}

} // verus!
