//! The datastore: the five tables that the token endpoint reads and writes,
//! each reached by the key of its rows.

use vstd::prelude::*;
use crate::records::{
    AccessToken, AccessTokenView, AuthorizationCode, AuthorizationCodeView, Client, ClientView,
    GrantType, GrantTypeView, RefreshToken, RefreshTokenView,
};
use crate::table::{
    find_row, insert_row, keys_distinct, lemma_table_at, lemma_table_finite, lemma_table_row,
    position, replace_row, table,
};
use crate::text::str_equal;

verus! {

/// What a datastore holds: each table as a map from the key to the row.
#[verifier::ext_equal]
pub struct StoreView {
    /// The registered clients, by client id.
    pub clients: Map<Seq<char>, ClientView>,
    /// The known grant types, by name.
    pub grant_types: Map<Seq<char>, GrantTypeView>,
    /// The access tokens issued so far, by identifier.
    pub access_tokens: Map<Seq<char>, AccessTokenView>,
    /// The refresh tokens issued so far, by identifier.
    pub refresh_tokens: Map<Seq<char>, RefreshTokenView>,
    /// The authorization codes handed out so far, by code.
    pub authorization_codes: Map<Seq<char>, AuthorizationCodeView>,
}

impl StoreView {
    /// The datastore without any row.
    pub open spec fn empty() -> StoreView {
        StoreView {
            clients: Map::empty(),
            grant_types: Map::empty(),
            access_tokens: Map::empty(),
            refresh_tokens: Map::empty(),
            authorization_codes: Map::empty(),
        }
    }

    /// The token identifiers that are taken.
    pub open spec fn identifiers(self) -> Set<Seq<char>> {
        self.access_tokens.dom().union(self.refresh_tokens.dom())
    }

    /// Whether the client exists and its secret is the given one.
    pub open spec fn authenticates(self, client_id: Seq<char>, secret: Seq<char>) -> bool {
        self.clients.contains_key(client_id) && self.clients[client_id].secret == secret
    }

    /// What holds of the content of every datastore: each table has
    /// finitely many rows, and each row is filed under its own key.
    pub open spec fn well_formed(self) -> bool {
        &&& self.clients.dom().finite()
        &&& self.grant_types.dom().finite()
        &&& self.access_tokens.dom().finite()
        &&& self.refresh_tokens.dom().finite()
        &&& self.authorization_codes.dom().finite()
        &&& forall|k: Seq<char>| #[trigger] self.clients.contains_key(k) ==> self.clients[k].id == k
        &&& forall|k: Seq<char>| #[trigger]
            self.grant_types.contains_key(k) ==> self.grant_types[k].name == k
        &&& forall|k: Seq<char>| #[trigger]
            self.access_tokens.contains_key(k) ==> self.access_tokens[k].token == k
        &&& forall|k: Seq<char>| #[trigger]
            self.refresh_tokens.contains_key(k) ==> self.refresh_tokens[k].token == k
        &&& forall|k: Seq<char>| #[trigger]
            self.authorization_codes.contains_key(k) ==> self.authorization_codes[k].code == k
    }
}

/// The tables of the token endpoint. No table holds two rows with the same
/// key.
pub struct Datastore {
    clients: Vec<Client>,
    grant_types: Vec<GrantType>,
    access_tokens: Vec<AccessToken>,
    refresh_tokens: Vec<RefreshToken>,
    authorization_codes: Vec<AuthorizationCode>,
}

impl View for Datastore {
    type V = StoreView;

    closed spec fn view(&self) -> StoreView {
        StoreView {
            clients: table(self.clients@),
            grant_types: table(self.grant_types@),
            access_tokens: table(self.access_tokens@),
            refresh_tokens: table(self.refresh_tokens@),
            authorization_codes: table(self.authorization_codes@),
        }
    }
}

impl Datastore {
    #[verifier::type_invariant]
    spec fn keys_are_distinct(self) -> bool {
        &&& keys_distinct(self.clients@)
        &&& keys_distinct(self.grant_types@)
        &&& keys_distinct(self.access_tokens@)
        &&& keys_distinct(self.refresh_tokens@)
        &&& keys_distinct(self.authorization_codes@)
    }

    /// The content of a datastore is well formed.
    pub proof fn lemma_well_formed(self)
        ensures
            self@.well_formed(),
    {
        lemma_table_finite(self.clients@);
        lemma_table_finite(self.grant_types@);
        lemma_table_finite(self.access_tokens@);
        lemma_table_finite(self.refresh_tokens@);
        lemma_table_finite(self.authorization_codes@);
        assert forall|k: Seq<char>| #[trigger] self@.clients.contains_key(k) implies self@.clients[k].id
            == k by {
            lemma_table_row(self.clients@, k);
        }
        assert forall|k: Seq<char>| #[trigger] self@.grant_types.contains_key(k) implies self@.grant_types[k].name
            == k by {
            lemma_table_row(self.grant_types@, k);
        }
        assert forall|k: Seq<char>| #[trigger] self@.access_tokens.contains_key(k) implies self@.access_tokens[k].token
            == k by {
            lemma_table_row(self.access_tokens@, k);
        }
        assert forall|k: Seq<char>| #[trigger] self@.refresh_tokens.contains_key(k) implies self@.refresh_tokens[k].token
            == k by {
            lemma_table_row(self.refresh_tokens@, k);
        }
        assert forall|k: Seq<char>| #[trigger] self@.authorization_codes.contains_key(k) implies self@.authorization_codes[k].code
            == k by {
            lemma_table_row(self.authorization_codes@, k);
        }
    }

    /// A datastore without any row.
    pub fn new() -> (store: Datastore)
        ensures
            store@ == StoreView::empty(),
    {
        Datastore {
            clients: Vec::new(),
            grant_types: Vec::new(),
            access_tokens: Vec::new(),
            refresh_tokens: Vec::new(),
            authorization_codes: Vec::new(),
        }
    }

    /// Registers a client, unless one with its id is registered already.
    pub fn insert_client(&mut self, client: Client) -> (inserted: bool)
        ensures
            inserted == !old(self)@.clients.contains_key(client.id@),
            inserted ==> final(self)@ == (StoreView {
                clients: old(self)@.clients.insert(client.id@, client@),
                ..old(self)@
            }),
            !inserted ==> final(self)@ == old(self)@,
    {
        proof {
            use_type_invariant(&*self);
        }
        let mut rows: Vec<Client> = Vec::new();
        std::mem::swap(&mut rows, &mut self.clients);
        let inserted = insert_row(&mut rows, client);
        self.clients = rows;
        inserted
    }

    /// Records a grant type, unless one with its name is recorded already.
    pub fn insert_grant_type(&mut self, grant_type: GrantType) -> (inserted: bool)
        ensures
            inserted == !old(self)@.grant_types.contains_key(grant_type.name@),
            inserted ==> final(self)@ == (StoreView {
                grant_types: old(self)@.grant_types.insert(grant_type.name@, grant_type@),
                ..old(self)@
            }),
            !inserted ==> final(self)@ == old(self)@,
    {
        proof {
            use_type_invariant(&*self);
        }
        let mut rows: Vec<GrantType> = Vec::new();
        std::mem::swap(&mut rows, &mut self.grant_types);
        let inserted = insert_row(&mut rows, grant_type);
        self.grant_types = rows;
        inserted
    }

    /// Stores an access token, unless one with its identifier is stored
    /// already.
    pub fn insert_access_token(&mut self, token: AccessToken) -> (inserted: bool)
        ensures
            inserted == !old(self)@.access_tokens.contains_key(token.token@),
            inserted ==> final(self)@ == (StoreView {
                access_tokens: old(self)@.access_tokens.insert(token.token@, token@),
                ..old(self)@
            }),
            !inserted ==> final(self)@ == old(self)@,
    {
        proof {
            use_type_invariant(&*self);
        }
        let mut rows: Vec<AccessToken> = Vec::new();
        std::mem::swap(&mut rows, &mut self.access_tokens);
        let inserted = insert_row(&mut rows, token);
        self.access_tokens = rows;
        inserted
    }

    /// Stores a refresh token, unless one with its identifier is stored
    /// already.
    pub fn insert_refresh_token(&mut self, token: RefreshToken) -> (inserted: bool)
        ensures
            inserted == !old(self)@.refresh_tokens.contains_key(token.token@),
            inserted ==> final(self)@ == (StoreView {
                refresh_tokens: old(self)@.refresh_tokens.insert(token.token@, token@),
                ..old(self)@
            }),
            !inserted ==> final(self)@ == old(self)@,
    {
        proof {
            use_type_invariant(&*self);
        }
        let mut rows: Vec<RefreshToken> = Vec::new();
        std::mem::swap(&mut rows, &mut self.refresh_tokens);
        let inserted = insert_row(&mut rows, token);
        self.refresh_tokens = rows;
        inserted
    }

    /// Stores an authorization code, unless the same code is stored already.
    pub fn insert_authorization_code(&mut self, code: AuthorizationCode) -> (inserted: bool)
        ensures
            inserted == !old(self)@.authorization_codes.contains_key(code.code@),
            inserted ==> final(self)@ == (StoreView {
                authorization_codes: old(self)@.authorization_codes.insert(code.code@, code@),
                ..old(self)@
            }),
            !inserted ==> final(self)@ == old(self)@,
    {
        proof {
            use_type_invariant(&*self);
        }
        let mut rows: Vec<AuthorizationCode> = Vec::new();
        std::mem::swap(&mut rows, &mut self.authorization_codes);
        let inserted = insert_row(&mut rows, code);
        self.authorization_codes = rows;
        inserted
    }

    /// The client with the given id.
    pub fn find_client_by_id(&self, client_id: &str) -> (found: Option<&Client>)
        ensures
            found is Some == self@.clients.contains_key(client_id@),
            found matches Some(client) ==> client@ == self@.clients[client_id@] && client.id@
                == client_id@,
    {
        find_row(&self.clients, client_id)
    }

    /// Whether the client exists and `secret` is its secret. The answer does
    /// not tell an unknown client from a wrong secret.
    pub fn verify_client_secret(&self, client_id: &str, secret: &str) -> (verified: bool)
        ensures
            verified == self@.authenticates(client_id@, secret@),
    {
        match find_row(&self.clients, client_id) {
            Some(client) => str_equal(client.secret.as_str(), secret),
            None => false,
        }
    }

    /// The grant type with the given name.
    pub fn find_grant_type_by_name(&self, name: &str) -> (found: Option<&GrantType>)
        ensures
            found is Some == self@.grant_types.contains_key(name@),
            found matches Some(grant_type) ==> grant_type@ == self@.grant_types[name@]
                && grant_type.name@ == name@,
    {
        find_row(&self.grant_types, name)
    }

    /// The access token with the given identifier.
    pub fn find_access_token_by_value(&self, value: &str) -> (found: Option<&AccessToken>)
        ensures
            found is Some == self@.access_tokens.contains_key(value@),
            found matches Some(token) ==> token@ == self@.access_tokens[value@] && token.token@
                == value@,
    {
        find_row(&self.access_tokens, value)
    }

    /// The refresh token with the given identifier.
    pub fn find_refresh_token_by_value(&self, value: &str) -> (found: Option<&RefreshToken>)
        ensures
            found is Some == self@.refresh_tokens.contains_key(value@),
            found matches Some(token) ==> token@ == self@.refresh_tokens[value@] && token.token@
                == value@,
    {
        find_row(&self.refresh_tokens, value)
    }

    /// The authorization code with the given value, whether redeemed or not.
    pub fn find_authorization_code(&self, code: &str) -> (found: Option<&AuthorizationCode>)
        ensures
            found is Some == self@.authorization_codes.contains_key(code@),
            found matches Some(row) ==> row@ == self@.authorization_codes[code@] && row.code@
                == code@,
    {
        find_row(&self.authorization_codes, code)
    }

    /// Whether an access token or a refresh token has the given identifier.
    pub fn identifier_in_use(&self, value: &str) -> (used: bool)
        ensures
            used == self@.identifiers().contains(value@),
    {
        match find_row(&self.access_tokens, value) {
            Some(_) => true,
            None => find_row(&self.refresh_tokens, value).is_some(),
        }
    }

    /// Redeems an authorization code: where the code exists and has not been
    /// redeemed, it is marked as redeemed and handed out as it was before.
    /// Finding the code and marking it are one step, so of two redemptions of
    /// one code only the first gets it.
    pub fn find_and_consume_authorization_code(&mut self, code: &str) -> (redeemed: Option<
        AuthorizationCode,
    >)
        ensures
            redeemed is Some == (old(self)@.authorization_codes.contains_key(code@) && !old(
                self,
            )@.authorization_codes[code@].used),
            redeemed matches Some(row) ==> row@ == old(self)@.authorization_codes[code@]
                && final(self)@ == (StoreView {
                authorization_codes: old(self)@.authorization_codes.insert(
                    code@,
                    AuthorizationCodeView { used: true, ..row@ },
                ),
                ..old(self)@
            }),
            redeemed is None ==> final(self)@ == old(self)@,
    {
        proof {
            use_type_invariant(&*self);
        }
        match position(&self.authorization_codes, code) {
            Some(i) => {
                proof {
                    lemma_table_at(self.authorization_codes@, code@, i as int);
                }
                if self.authorization_codes[i].used {
                    return None;
                }
                let row = self.authorization_codes[i].clone();
                let mut spent = self.authorization_codes[i].clone();
                spent.used = true;
                let mut rows: Vec<AuthorizationCode> = Vec::new();
                std::mem::swap(&mut rows, &mut self.authorization_codes);
                replace_row(&mut rows, i, spent);
                self.authorization_codes = rows;
                Some(row)
            },
            None => {
                proof {
                    crate::table::lemma_table_absent(self.authorization_codes@, code@);
                }
                None
            },
        }
    }
}

} // verus!
