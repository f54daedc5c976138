//! What holds of the grant processors on every datastore and every request.
//! The laws speak of the outcome functions of [`crate::token`], which the
//! processors are proved to follow.

use vstd::prelude::*;
use crate::error::{error_of, ErrorKind};
use crate::generate::{
    issued_access_token, lemma_fresh_identifier, lemma_fresh_identifier_local, padded,
    with_access_token, MIN_IDENTIFIER_LENGTH,
};
use crate::records::{
    AuthorizationCodeView, GrantKind, RequestView, ResponseView, ACCESS_TOKEN_LIFETIME,
};
use crate::scope::{names_nothing, scope_within};
use crate::store::StoreView;
use crate::token::{
    authorization_code_outcome, client_credentials_outcome, dispatch_outcome, grant_served,
    lacks_required_field, presents_bad_credentials, processor_outcome, refresh_token_outcome,
    refresh_token_presentable, rejected, Outcome,
};
use crate::validate::client_permitted;

verus! {

/// A request that is rejected writes nothing: whatever the processor and
/// whatever the error, the datastore is left as it was.
pub proof fn law_rejection_writes_nothing(
    grant: GrantKind,
    s: StoreView,
    req: RequestView,
    now: u64,
    access_seed: Seq<char>,
    refresh_seed: Seq<char>,
)
    ensures
        processor_outcome(grant, s, req, now, access_seed, refresh_seed).result is Err
            ==> processor_outcome(grant, s, req, now, access_seed, refresh_seed).store == s,
        dispatch_outcome(s, req, now, access_seed, refresh_seed).result is Err ==> dispatch_outcome(
            s,
            req,
            now,
            access_seed,
            refresh_seed,
        ).store == s,
{
}

/// A request that lacks a field its grant type requires is rejected as an
/// invalid request, and nothing is written.
pub proof fn law_missing_field_is_invalid_request(
    grant: GrantKind,
    s: StoreView,
    req: RequestView,
    now: u64,
    access_seed: Seq<char>,
    refresh_seed: Seq<char>,
)
    requires
        lacks_required_field(grant, req),
    ensures
        processor_outcome(grant, s, req, now, access_seed, refresh_seed) == rejected(
            s,
            ErrorKind::InvalidRequest,
        ),
{
}

/// A request that has the fields its grant type requires and carries
/// credentials that do not authenticate a client is rejected as coming from
/// an invalid client, and nothing is written. That holds whatever the request
/// says of its grant type, and whether it names one at all.
pub proof fn law_bad_credentials_are_invalid_client(
    grant: GrantKind,
    s: StoreView,
    req: RequestView,
    now: u64,
    access_seed: Seq<char>,
    refresh_seed: Seq<char>,
)
    requires
        !lacks_required_field(grant, req),
        presents_bad_credentials(s, req),
    ensures
        processor_outcome(grant, s, req, now, access_seed, refresh_seed) == rejected(
            s,
            ErrorKind::InvalidClient,
        ),
{
}

/// A request that has the fields its grant type requires, carries no
/// credentials that fail, and names no grant type is rejected as an invalid
/// request, and nothing is written.
pub proof fn law_unnamed_grant_type_is_invalid_request(
    grant: GrantKind,
    s: StoreView,
    req: RequestView,
    now: u64,
    access_seed: Seq<char>,
    refresh_seed: Seq<char>,
)
    requires
        !lacks_required_field(grant, req),
        !presents_bad_credentials(s, req),
        req.grant_type is None,
    ensures
        processor_outcome(grant, s, req, now, access_seed, refresh_seed) == rejected(
            s,
            ErrorKind::InvalidRequest,
        ),
{
}

/// A wrong secret for a registered client and any secret for an unknown
/// client get the very same answer, so the answer does not tell whether a
/// client is registered. That holds whatever the two requests say of their
/// grant type.
pub proof fn law_wrong_secret_looks_like_unknown_client(
    grant: GrantKind,
    s: StoreView,
    wrong_secret: RequestView,
    unknown_client: RequestView,
    now: u64,
    access_seed: Seq<char>,
    refresh_seed: Seq<char>,
)
    requires
        !lacks_required_field(grant, wrong_secret),
        !lacks_required_field(grant, unknown_client),
        wrong_secret.client_id is Some,
        wrong_secret.client_secret is Some,
        s.clients.contains_key(wrong_secret.client_id->0),
        s.clients[wrong_secret.client_id->0].secret != wrong_secret.client_secret->0,
        unknown_client.client_id is Some,
        unknown_client.client_secret is Some,
        !s.clients.contains_key(unknown_client.client_id->0),
    ensures
        processor_outcome(grant, s, wrong_secret, now, access_seed, refresh_seed).result
            == processor_outcome(grant, s, unknown_client, now, access_seed, refresh_seed).result,
        processor_outcome(grant, s, wrong_secret, now, access_seed, refresh_seed).result == Err::<
            ResponseView,
            _,
        >(error_of(ErrorKind::InvalidClient)),
{
}

/// A client-credentials request from a client that authenticates itself and
/// may use the grant type, for an enabled grant type and a scope that names
/// something, is granted. The response carries an access token and a refresh
/// token whose identifiers were not in use before and differ from each
/// other; both tokens are stored for the client with exactly the requested
/// scope, and nothing else in the datastore changes.
pub proof fn law_client_credentials_are_granted(
    s: StoreView,
    req: RequestView,
    now: u64,
    access_seed: Seq<char>,
    refresh_seed: Seq<char>,
)
    requires
        s.well_formed(),
        !lacks_required_field(GrantKind::ClientCredentials, req),
        s.authenticates(req.client_id->0, req.client_secret->0),
        grant_served(s, req, GrantKind::ClientCredentials),
        client_permitted(s, req.client_id->0, GrantKind::ClientCredentials),
        !names_nothing(req.scope->0),
    ensures
        ({
            let outcome = client_credentials_outcome(s, req, now, access_seed, refresh_seed);
            &&& outcome.result matches Ok(response)
            &&& response.refresh_token matches Some(refresh)
            &&& !s.identifiers().contains(response.access_token)
            &&& !s.identifiers().contains(refresh)
            &&& refresh != response.access_token
            &&& response.access_token.len() >= MIN_IDENTIFIER_LENGTH
            &&& refresh.len() >= MIN_IDENTIFIER_LENGTH
            &&& response.scope == req.scope->0
            &&& response.expires_in == ACCESS_TOKEN_LIFETIME
            &&& response.token_type == "bearer"@
            &&& outcome.store.access_tokens == s.access_tokens.insert(
                response.access_token,
                outcome.store.access_tokens[response.access_token],
            )
            &&& outcome.store.access_tokens[response.access_token].token == response.access_token
            &&& outcome.store.access_tokens[response.access_token].scope == req.scope->0
            &&& outcome.store.access_tokens[response.access_token].client_id == req.client_id->0
            &&& outcome.store.access_tokens[response.access_token].issued_at == now
            &&& outcome.store.refresh_tokens == s.refresh_tokens.insert(
                refresh,
                outcome.store.refresh_tokens[refresh],
            )
            &&& outcome.store.refresh_tokens[refresh].token == refresh
            &&& outcome.store.refresh_tokens[refresh].scope == req.scope->0
            &&& outcome.store.refresh_tokens[refresh].client_id == req.client_id->0
            &&& !outcome.store.refresh_tokens[refresh].revoked
            &&& outcome.store.clients == s.clients
            &&& outcome.store.grant_types == s.grant_types
            &&& outcome.store.authorization_codes == s.authorization_codes
            &&& outcome.store.well_formed()
        }),
{
    let access = issued_access_token(
        s,
        req.client_id->0,
        GrantKind::ClientCredentials.name(),
        req.scope->0,
        now,
        access_seed,
    );
    lemma_fresh_identifier(s.identifiers(), access_seed);
    let with_access = with_access_token(s, access);
    lemma_fresh_identifier(with_access.identifiers(), refresh_seed);
}

/// Whether a refresh request passes every check that comes before the check
/// of its scope.
pub open spec fn refresh_reaches_scope_check(s: StoreView, req: RequestView, now: u64) -> bool {
    &&& !lacks_required_field(GrantKind::RefreshToken, req)
    &&& !presents_bad_credentials(s, req)
    &&& grant_served(s, req, GrantKind::RefreshToken)
    &&& refresh_token_presentable(s, req, now)
}

/// A refresh request for a scope that is not within the scope granted with
/// the refresh token is rejected for its scope, and nothing is written.
pub proof fn law_refresh_cannot_widen_scope(
    s: StoreView,
    req: RequestView,
    now: u64,
    access_seed: Seq<char>,
)
    requires
        refresh_reaches_scope_check(s, req, now),
        !scope_within(req.scope->0, s.refresh_tokens[req.refresh_token->0].scope),
    ensures
        refresh_token_outcome(s, req, now, access_seed) == rejected(s, ErrorKind::InvalidScope),
{
}

/// A refresh request for the scope granted with the refresh token, or for a
/// part of it that names something, is granted where the client that owns the
/// token is registered and may use the grant type. The response carries a new
/// access token, whose identifier was not in use before, with exactly the
/// requested scope, and the refresh token that was presented; the refresh
/// tokens in the datastore stay as they were.
pub proof fn law_refresh_within_scope_is_granted(
    s: StoreView,
    req: RequestView,
    now: u64,
    access_seed: Seq<char>,
)
    requires
        s.well_formed(),
        refresh_reaches_scope_check(s, req, now),
        client_permitted(
            s,
            s.refresh_tokens[req.refresh_token->0].client_id,
            GrantKind::RefreshToken,
        ),
        !names_nothing(req.scope->0),
        scope_within(req.scope->0, s.refresh_tokens[req.refresh_token->0].scope),
    ensures
        ({
            let outcome = refresh_token_outcome(s, req, now, access_seed);
            &&& outcome.result matches Ok(response)
            &&& response.refresh_token == req.refresh_token
            &&& !s.identifiers().contains(response.access_token)
            &&& response.access_token.len() >= MIN_IDENTIFIER_LENGTH
            &&& response.scope == req.scope->0
            &&& outcome.store.access_tokens == s.access_tokens.insert(
                response.access_token,
                outcome.store.access_tokens[response.access_token],
            )
            &&& outcome.store.access_tokens[response.access_token].scope == req.scope->0
            &&& outcome.store.access_tokens[response.access_token].client_id
                == s.refresh_tokens[req.refresh_token->0].client_id
            &&& outcome.store.refresh_tokens == s.refresh_tokens
            &&& outcome.store.clients == s.clients
            &&& outcome.store.grant_types == s.grant_types
            &&& outcome.store.authorization_codes == s.authorization_codes
        }),
{
    lemma_fresh_identifier(s.identifiers(), access_seed);
}

/// A scope is within itself, so a refresh request may ask for the very scope
/// that was granted.
pub proof fn law_scope_within_itself(scope: Seq<char>)
    ensures
        scope_within(scope, scope),
{
}

/// An authorization code is redeemed once. Where a request redeems a code,
/// the same request made again, at whatever time and with whatever seed, is
/// rejected as an invalid grant, and writes nothing.
pub proof fn law_code_is_redeemed_once(
    s: StoreView,
    req: RequestView,
    first_time: u64,
    first_seed: Seq<char>,
    second_time: u64,
    second_seed: Seq<char>,
)
    requires
        authorization_code_outcome(s, req, first_time, first_seed).result is Ok,
    ensures
        ({
            let first = authorization_code_outcome(s, req, first_time, first_seed);
            authorization_code_outcome(first.store, req, second_time, second_seed) == rejected(
                first.store,
                ErrorKind::InvalidGrant,
            )
        }),
{
    let first = authorization_code_outcome(s, req, first_time, first_seed);
    lemma_spent_code_is_refused(first.store, req, second_time, second_seed);
}

/// A request that is in order but for a code that has been redeemed is
/// rejected as an invalid grant.
proof fn lemma_spent_code_is_refused(s: StoreView, req: RequestView, now: u64, seed: Seq<char>)
    requires
        !lacks_required_field(GrantKind::AuthorizationCode, req),
        s.authenticates(req.client_id->0, req.client_secret->0),
        grant_served(s, req, GrantKind::AuthorizationCode),
        client_permitted(s, req.client_id->0, GrantKind::AuthorizationCode),
        s.authorization_codes.contains_key(req.code->0),
        s.authorization_codes[req.code->0].used,
    ensures
        authorization_code_outcome(s, req, now, seed) == rejected(s, ErrorKind::InvalidGrant),
{
}

/// No request is granted for a code that has been redeemed, whoever makes
/// it.
pub proof fn law_redeemed_code_is_never_accepted(
    s: StoreView,
    req: RequestView,
    now: u64,
    seed: Seq<char>,
)
    requires
        req.code is Some,
        s.authorization_codes.contains_key(req.code->0),
        s.authorization_codes[req.code->0].used,
    ensures
        authorization_code_outcome(s, req, now, seed).result is Err,
        authorization_code_outcome(s, req, now, seed).store == s,
{
}

/// One try at redeeming a code: when it is made, and the seed for its token.
pub struct Attempt {
    pub now: u64,
    pub seed: Seq<char>,
}

/// The datastore after the request has been tried once for each of the
/// attempts, one after the other.
pub open spec fn after_attempts(s: StoreView, req: RequestView, attempts: Seq<Attempt>) -> StoreView
    decreases attempts.len(),
{
    if attempts.len() == 0 {
        s
    } else {
        authorization_code_outcome(
            after_attempts(s, req, attempts.drop_last()),
            req,
            attempts.last().now,
            attempts.last().seed,
        ).store
    }
}

/// How the attempt at position `i` ends, after the attempts before it.
pub open spec fn attempt_outcome(s: StoreView, req: RequestView, attempts: Seq<Attempt>, i: int) -> Outcome {
    authorization_code_outcome(
        after_attempts(s, req, attempts.take(i)),
        req,
        attempts[i].now,
        attempts[i].seed,
    )
}

/// Of any number of redemptions of one code, exactly one succeeds. The
/// processor takes the datastore exclusively, so redemptions that are made at
/// the same time reach it one after the other, in some order. Whatever the
/// order: where the first to arrive is granted, every other one is rejected
/// as an invalid grant.
pub proof fn law_one_of_many_redemptions_succeeds(
    s: StoreView,
    req: RequestView,
    attempts: Seq<Attempt>,
)
    requires
        attempts.len() >= 1,
        attempt_outcome(s, req, attempts, 0).result is Ok,
    ensures
        forall|i: int|
            1 <= i < attempts.len() ==> (#[trigger] attempt_outcome(s, req, attempts, i)).result
                == Err::<ResponseView, _>(error_of(ErrorKind::InvalidGrant)),
        forall|i: int|
            0 <= i < attempts.len() ==> ((#[trigger] attempt_outcome(s, req, attempts, i)).result is Ok
                <==> i == 0),
{
    let first = authorization_code_outcome(s, req, attempts[0].now, attempts[0].seed);
    assert forall|i: int| 1 <= i < attempts.len() implies (#[trigger] attempt_outcome(
        s,
        req,
        attempts,
        i,
    )).result == Err::<ResponseView, _>(error_of(ErrorKind::InvalidGrant)) by {
        lemma_store_after_first(s, req, attempts, i);
        lemma_spent_code_is_refused(first.store, req, attempts[i].now, attempts[i].seed);
    }
}

/// After the first attempt has succeeded, further attempts leave the
/// datastore as the first one left it.
proof fn lemma_store_after_first(s: StoreView, req: RequestView, attempts: Seq<Attempt>, n: int)
    requires
        1 <= n <= attempts.len(),
        attempt_outcome(s, req, attempts, 0).result is Ok,
    ensures
        after_attempts(s, req, attempts.take(n)) == authorization_code_outcome(
            s,
            req,
            attempts[0].now,
            attempts[0].seed,
        ).store,
    decreases n,
{
    let first = authorization_code_outcome(s, req, attempts[0].now, attempts[0].seed);
    assert(attempts.take(n).drop_last() =~= attempts.take(n - 1));
    if n > 1 {
        lemma_store_after_first(s, req, attempts, n - 1);
        lemma_spent_code_is_refused(first.store, req, attempts[n - 1].now, attempts[n - 1].seed);
    }
}

/// Whether `after` holds the rows of `before` and, under `added`, one more.
pub open spec fn adds_one<V>(before: Map<Seq<char>, V>, after: Map<Seq<char>, V>, added: Seq<char>) -> bool {
    &&& !before.contains_key(added)
    &&& after.contains_key(added)
    &&& after == before.insert(added, after[added])
}

/// Tokens are written once and never changed. Whatever the request, the
/// processors leave the clients, the grant types and every token that exists
/// as they are; of an authorization code they change nothing but the mark
/// that it has been redeemed. A request that is granted adds exactly one
/// access token, the one that the response names, and a refresh token only
/// where the response names one that did not exist before. The content of the
/// datastore stays well formed.
pub proof fn law_tokens_are_written_once(
    grant: GrantKind,
    s: StoreView,
    req: RequestView,
    now: u64,
    access_seed: Seq<char>,
    refresh_seed: Seq<char>,
)
    requires
        s.well_formed(),
    ensures
        ({
            let outcome = processor_outcome(grant, s, req, now, access_seed, refresh_seed);
            &&& outcome.store.well_formed()
            &&& outcome.store.clients == s.clients
            &&& outcome.store.grant_types == s.grant_types
            &&& forall|k: Seq<char>| #[trigger]
                s.access_tokens.contains_key(k) ==> outcome.store.access_tokens.contains_key(k)
                    && outcome.store.access_tokens[k] == s.access_tokens[k]
            &&& forall|k: Seq<char>| #[trigger]
                s.refresh_tokens.contains_key(k) ==> outcome.store.refresh_tokens.contains_key(k)
                    && outcome.store.refresh_tokens[k] == s.refresh_tokens[k]
            &&& outcome.store.authorization_codes.dom() == s.authorization_codes.dom()
            &&& forall|k: Seq<char>| #[trigger]
                s.authorization_codes.contains_key(k) ==> outcome.store.authorization_codes[k]
                    == s.authorization_codes[k] || (!s.authorization_codes[k].used
                    && outcome.store.authorization_codes[k] == (AuthorizationCodeView {
                    used: true,
                    ..s.authorization_codes[k]
                }))
            &&& outcome.result matches Ok(response) ==> {
                &&& adds_one(s.access_tokens, outcome.store.access_tokens, response.access_token)
                &&& match response.refresh_token {
                    Some(refresh) => s.refresh_tokens.contains_key(refresh)
                        && outcome.store.refresh_tokens == s.refresh_tokens || adds_one(
                        s.refresh_tokens,
                        outcome.store.refresh_tokens,
                        refresh,
                    ),
                    None => outcome.store.refresh_tokens == s.refresh_tokens,
                }
            }
        }),
{
    lemma_fresh_identifier(s.identifiers(), access_seed);
    if grant == GrantKind::ClientCredentials {
        let access = issued_access_token(
            s,
            req.client_id->0,
            GrantKind::ClientCredentials.name(),
            req.scope->0,
            now,
            access_seed,
        );
        lemma_fresh_identifier(with_access_token(s, access).identifiers(), refresh_seed);
    }
}

/// Whether two tables have the same row, or both none, under a key.
pub open spec fn same_row<V>(a: Map<Seq<char>, V>, b: Map<Seq<char>, V>, key: Seq<char>) -> bool {
    a.contains_key(key) == b.contains_key(key) && (a.contains_key(key) ==> a[key] == b[key])
}

/// Whether the same of a seed's paddings are taken as token identifiers in
/// two datastores.
pub open spec fn same_paddings_taken(a: StoreView, b: StoreView, seed: Seq<char>) -> bool {
    forall|count: nat|
        a.identifiers().contains(#[trigger] padded(seed, count)) == b.identifiers().contains(
            padded(seed, count),
        )
}

/// Whether two datastores agree on all that a request can touch: the grant
/// types, the client that the request names, the refresh token and the
/// authorization code that it presents, the client that owns the refresh
/// token, and which paddings of the two seeds are taken.
pub open spec fn agree_on_request(
    a: StoreView,
    b: StoreView,
    req: RequestView,
    access_seed: Seq<char>,
    refresh_seed: Seq<char>,
) -> bool {
    &&& a.grant_types == b.grant_types
    &&& req.client_id matches Some(id) ==> same_row(a.clients, b.clients, id)
    &&& req.refresh_token matches Some(token) ==> {
        &&& same_row(a.refresh_tokens, b.refresh_tokens, token)
        &&& a.refresh_tokens.contains_key(token) ==> same_row(
            a.clients,
            b.clients,
            a.refresh_tokens[token].client_id,
        )
    }
    &&& req.code matches Some(code) ==> same_row(a.authorization_codes, b.authorization_codes, code)
    &&& same_paddings_taken(a, b, access_seed)
    &&& same_paddings_taken(a, b, refresh_seed)
}

/// A processor decides on nothing but the rows that the request can touch.
/// On two datastores that agree on those rows, a request gets the same
/// answer, and what is written for it is the same: the access token and the
/// refresh token that the response names, and the authorization code that
/// the request presents. So a request can be decided on a part of a
/// datastore, as long as the part holds those rows.
pub proof fn law_decision_reads_what_the_request_names(
    grant: GrantKind,
    a: StoreView,
    b: StoreView,
    req: RequestView,
    now: u64,
    access_seed: Seq<char>,
    refresh_seed: Seq<char>,
)
    requires
        a.well_formed(),
        b.well_formed(),
        agree_on_request(a, b, req, access_seed, refresh_seed),
    ensures
        ({
            let on_a = processor_outcome(grant, a, req, now, access_seed, refresh_seed);
            let on_b = processor_outcome(grant, b, req, now, access_seed, refresh_seed);
            &&& on_a.result == on_b.result
            &&& on_a.result matches Ok(response) ==> {
                &&& same_row(
                    on_a.store.access_tokens,
                    on_b.store.access_tokens,
                    response.access_token,
                )
                &&& response.refresh_token matches Some(refresh) ==> same_row(
                    on_a.store.refresh_tokens,
                    on_b.store.refresh_tokens,
                    refresh,
                )
                &&& req.code matches Some(code) ==> same_row(
                    on_a.store.authorization_codes,
                    on_b.store.authorization_codes,
                    code,
                )
            }
        }),
{
    lemma_fresh_identifier_local(a.identifiers(), b.identifiers(), access_seed);
    if grant == GrantKind::ClientCredentials {
        let access = issued_access_token(
            a,
            req.client_id->0,
            grant.name(),
            req.scope->0,
            now,
            access_seed,
        );
        lemma_fresh_identifier_local(
            with_access_token(a, access).identifiers(),
            with_access_token(b, access).identifiers(),
            refresh_seed,
        );
    }
}

/// The endpoint serves a request as the processor of the grant type that
/// the request names.
pub proof fn law_requests_reach_their_processor(
    grant: GrantKind,
    s: StoreView,
    req: RequestView,
    now: u64,
    access_seed: Seq<char>,
    refresh_seed: Seq<char>,
)
    requires
        req.grant_type == Some(grant.name()),
    ensures
        dispatch_outcome(s, req, now, access_seed, refresh_seed) == processor_outcome(
            grant,
            s,
            req,
            now,
            access_seed,
            refresh_seed,
        ),
{
    crate::records::lemma_grant_names_distinct(grant, GrantKind::AuthorizationCode);
    crate::records::lemma_grant_names_distinct(grant, GrantKind::ClientCredentials);
    crate::records::lemma_grant_names_distinct(grant, GrantKind::RefreshToken);
}

} // verus!
