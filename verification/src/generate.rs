//! The token generator: new access and refresh tokens under identifiers that
//! no other token has, and the response that reports them.

use vstd::prelude::*;
use vstd::string::*;
use crate::records::{
    AccessToken, AccessTokenResponse, AccessTokenView, Client, GrantType, RefreshToken,
    RefreshTokenView, ResponseView, ACCESS_TOKEN_LIFETIME,
};
use crate::store::{Datastore, StoreView};

verus! {

/// The least number of characters of a token identifier.
pub const MIN_IDENTIFIER_LENGTH: usize = 36;

/// The seed with `count` filler characters after it.
pub open spec fn padded(seed: Seq<char>, count: nat) -> Seq<char> {
    seed + Seq::new(count, |i: int| '0')
}

/// Whether `id` can name a new token: it is long enough and not taken.
pub open spec fn acceptable(used: Set<Seq<char>>, id: Seq<char>) -> bool {
    id.len() >= MIN_IDENTIFIER_LENGTH && !used.contains(id)
}

/// Whether `count` is the least number of filler characters that make the
/// seed an acceptable identifier.
pub open spec fn is_least_padding(used: Set<Seq<char>>, seed: Seq<char>, count: nat) -> bool {
    &&& acceptable(used, padded(seed, count))
    &&& forall|fewer: nat| fewer < count ==> !acceptable(used, #[trigger] padded(seed, fewer))
}

/// The identifier that a seed gives while the identifiers in `used` are
/// taken: the seed itself where it is long enough and not taken, and else the
/// seed with as few filler characters after it as make it so.
pub open spec fn fresh_identifier(used: Set<Seq<char>>, seed: Seq<char>) -> Seq<char> {
    padded(seed, choose|count: nat| is_least_padding(used, seed, count))
}

/// A bound on the lengths of the members of a finite set of texts.
pub proof fn lemma_lengths_bounded(texts: Set<Seq<char>>) -> (bound: nat)
    requires
        texts.finite(),
    ensures
        forall|t: Seq<char>| texts.contains(t) ==> t.len() <= bound,
    decreases texts.len(),
{
    if texts.len() == 0 {
        0
    } else {
        let one = texts.choose();
        let rest_bound = lemma_lengths_bounded(texts.remove(one));
        let bound = if one.len() <= rest_bound {
            rest_bound
        } else {
            one.len()
        };
        assert forall|t: Seq<char>| texts.contains(t) implies t.len() <= bound by {
            if t != one {
                assert(texts.remove(one).contains(t));
            }
        }
        bound
    }
}

/// Below an acceptable number of filler characters there is a least one.
proof fn lemma_least_padding_below(used: Set<Seq<char>>, seed: Seq<char>, count: nat)
    requires
        acceptable(used, padded(seed, count)),
    ensures
        exists|least: nat| is_least_padding(used, seed, least),
    decreases count,
{
    if forall|fewer: nat| fewer < count ==> !acceptable(used, #[trigger] padded(seed, fewer)) {
        assert(is_least_padding(used, seed, count));
    } else {
        let fewer = choose|fewer: nat| fewer < count && acceptable(used, #[trigger] padded(seed, fewer));
        lemma_least_padding_below(used, seed, fewer);
    }
}

/// The least padding is the one that `fresh_identifier` takes.
pub proof fn lemma_least_padding_taken(used: Set<Seq<char>>, seed: Seq<char>, count: nat)
    requires
        is_least_padding(used, seed, count),
    ensures
        fresh_identifier(used, seed) == padded(seed, count),
{
    let taken = choose|c: nat| is_least_padding(used, seed, c);
    if taken < count {
        assert(!acceptable(used, padded(seed, taken)));
    }
    if count < taken {
        assert(!acceptable(used, padded(seed, count)));
    }
}

/// While finitely many identifiers are taken, some number of filler
/// characters is the least that makes the seed acceptable.
pub proof fn lemma_least_padding_exists(used: Set<Seq<char>>, seed: Seq<char>) -> (count: nat)
    requires
        used.finite(),
    ensures
        is_least_padding(used, seed, count),
        fresh_identifier(used, seed) == padded(seed, count),
{
    let bound = lemma_lengths_bounded(used);
    let enough: nat = bound + 1 + MIN_IDENTIFIER_LENGTH as nat;
    assert(padded(seed, enough).len() == seed.len() + enough);
    lemma_least_padding_below(used, seed, enough);
    let count = choose|count: nat| is_least_padding(used, seed, count);
    count
}

/// While finitely many identifiers are taken, every seed gives an acceptable
/// identifier, and it begins with the seed.
pub proof fn lemma_fresh_identifier(used: Set<Seq<char>>, seed: Seq<char>)
    requires
        used.finite(),
    ensures
        acceptable(used, fresh_identifier(used, seed)),
        fresh_identifier(used, seed).len() >= seed.len(),
        fresh_identifier(used, seed).subrange(0, seed.len() as int) == seed,
        acceptable(used, seed) ==> fresh_identifier(used, seed) == seed,
{
    let count = lemma_least_padding_exists(used, seed);
    if acceptable(used, seed) {
        assert(padded(seed, 0) =~= seed);
        lemma_least_padding_taken(used, seed, 0);
    }
}

/// The identifier that a seed gives depends only on which of the seed's own
/// paddings are taken.
pub proof fn lemma_fresh_identifier_local(
    used: Set<Seq<char>>,
    other: Set<Seq<char>>,
    seed: Seq<char>,
)
    requires
        used.finite(),
        other.finite(),
        forall|count: nat|
            used.contains(#[trigger] padded(seed, count)) == other.contains(padded(seed, count)),
    ensures
        fresh_identifier(used, seed) == fresh_identifier(other, seed),
{
    let count = lemma_least_padding_exists(used, seed);
    assert(is_least_padding(other, seed, count));
    lemma_least_padding_taken(other, seed, count);
}

/// An identifier for a new token, made from `seed`, that no token of the
/// datastore has. The seed is the caller's source of unpredictability; it is
/// taken as it is wherever it is long enough and unused.
pub fn new_identifier(store: &Datastore, seed: &str) -> (id: String)
    ensures
        id@ == fresh_identifier(store@.identifiers(), seed@),
        acceptable(store@.identifiers(), id@),
{
    let ghost used = store@.identifiers();
    let ghost bound: nat;
    proof {
        store.lemma_well_formed();
        vstd::set::axiom_set_union_finite(store@.access_tokens.dom(), store@.refresh_tokens.dom());
        bound = lemma_lengths_bounded(used) + 1 + MIN_IDENTIFIER_LENGTH as nat;
    }
    let mut id = String::from_str(seed);
    let ghost mut count: nat = 0;
    loop
        invariant
            used == store@.identifiers(),
            id@ == padded(seed@, count),
            forall|fewer: nat| fewer < count ==> !acceptable(used, #[trigger] padded(seed@, fewer)),
            forall|t: Seq<char>| used.contains(t) ==> t.len() < bound,
            bound >= MIN_IDENTIFIER_LENGTH,
        decreases bound + 1 - id@.len(),
    {
        let length = id.as_str().unicode_len();
        if length >= MIN_IDENTIFIER_LENGTH && !store.identifier_in_use(id.as_str()) {
            proof {
                lemma_least_padding_taken(used, seed@, count);
            }
            return id;
        }
        proof {
            reveal_strlit("0");
            assert(padded(seed@, count) + "0"@ =~= padded(seed@, count + 1));
            count = count + 1;
        }
        id.append("0");
    }
}

/// The access token that is issued from the given state of the datastore.
pub open spec fn issued_access_token(
    s: StoreView,
    client_id: Seq<char>,
    grant_type: Seq<char>,
    scope: Seq<char>,
    now: u64,
    seed: Seq<char>,
) -> AccessTokenView {
    AccessTokenView {
        token: fresh_identifier(s.identifiers(), seed),
        client_id,
        grant_type,
        scope,
        issued_at: now,
        expires_in: ACCESS_TOKEN_LIFETIME,
    }
}

/// The refresh token that is issued from the given state of the datastore.
pub open spec fn issued_refresh_token(
    s: StoreView,
    client_id: Seq<char>,
    scope: Seq<char>,
    now: u64,
    seed: Seq<char>,
) -> RefreshTokenView {
    RefreshTokenView {
        token: fresh_identifier(s.identifiers(), seed),
        client_id,
        scope,
        issued_at: now,
        expires_at: None,
        revoked: false,
    }
}

/// The datastore with one more access token.
pub open spec fn with_access_token(s: StoreView, token: AccessTokenView) -> StoreView {
    StoreView { access_tokens: s.access_tokens.insert(token.token, token), ..s }
}

/// The datastore with one more refresh token.
pub open spec fn with_refresh_token(s: StoreView, token: RefreshTokenView) -> StoreView {
    StoreView { refresh_tokens: s.refresh_tokens.insert(token.token, token), ..s }
}

/// The response that reports an access token and, where there is one, the
/// refresh token that goes with it.
pub open spec fn token_response(access: AccessTokenView, refresh: Option<RefreshTokenView>) -> ResponseView {
    ResponseView {
        access_token: access.token,
        token_type: "bearer"@,
        expires_in: access.expires_in,
        refresh_token: match refresh {
            Some(token) => Some(token.token),
            None => None,
        },
        scope: access.scope,
    }
}

/// Issues an access token for the client, under the grant type and with the
/// scope given, and stores it. The token is valid for
/// [`ACCESS_TOKEN_LIFETIME`] seconds from `now`.
pub fn generate_access_token(
    store: &mut Datastore,
    client: &Client,
    grant_type: &GrantType,
    scope: &str,
    now: u64,
    seed: &str,
) -> (token: AccessToken)
    ensures
        token@ == issued_access_token(old(store)@, client.id@, grant_type.name@, scope@, now, seed@),
        final(store)@ == with_access_token(old(store)@, token@),
        acceptable(old(store)@.identifiers(), token.token@),
{
    let token = AccessToken {
        token: new_identifier(store, seed),
        client_id: client.id.clone(),
        grant_type: grant_type.name.clone(),
        scope: String::from_str(scope),
        issued_at: now,
        expires_in: ACCESS_TOKEN_LIFETIME,
    };
    let stored = store.insert_access_token(token.clone());
    assert(stored);
    token
}

/// Issues a refresh token for the client with the scope given, and stores
/// it. The token does not expire.
pub fn generate_refresh_token(
    store: &mut Datastore,
    client: &Client,
    scope: &str,
    now: u64,
    seed: &str,
) -> (token: RefreshToken)
    ensures
        token@ == issued_refresh_token(old(store)@, client.id@, scope@, now, seed@),
        final(store)@ == with_refresh_token(old(store)@, token@),
        acceptable(old(store)@.identifiers(), token.token@),
{
    let token = RefreshToken {
        token: new_identifier(store, seed),
        client_id: client.id.clone(),
        scope: String::from_str(scope),
        issued_at: now,
        expires_at: None,
        revoked: false,
    };
    let stored = store.insert_refresh_token(token.clone());
    assert(stored);
    token
}

/// Assembles the response for an access token and, where the caller supplies
/// one, a refresh token. Nothing is read or written.
pub fn generate_token_response(access: AccessToken, refresh: Option<RefreshToken>) -> (response:
    AccessTokenResponse)
    ensures
        response@ == token_response(
            access@,
            match refresh {
                Some(token) => Some(token@),
                None => None,
            },
        ),
{
    let refresh_token = match refresh {
        Some(token) => Some(token.token),
        None => None,
    };
    AccessTokenResponse {
        access_token: access.token,
        token_type: String::from_str("bearer"),
        expires_in: access.expires_in,
        refresh_token,
        scope: access.scope,
    }
}

} // verus!
