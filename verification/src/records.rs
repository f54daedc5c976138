//! The records that the datastore keeps, and the request and response of the
//! token endpoint.

use vstd::prelude::*;
use crate::table::Keyed;
use crate::text::{clone_optional, clone_strings, str_equal};

verus! {

/// Seconds for which an access token is valid from its issuance.
pub const ACCESS_TOKEN_LIFETIME: u64 = 3600;

/// The grant types for which the endpoint has a processor.
#[derive(Clone, Copy, Debug, PartialEq, Eq, Structural)]
pub enum GrantKind {
    AuthorizationCode,
    ClientCredentials,
    RefreshToken,
}

impl GrantKind {
    /// The name by which requests and the datastore refer to the grant type.
    pub open spec fn name(self) -> Seq<char> {
        match self {
            GrantKind::AuthorizationCode => "authorization_code"@,
            GrantKind::ClientCredentials => "client_credentials"@,
            GrantKind::RefreshToken => "refresh_token"@,
        }
    }

    /// The name by which requests and the datastore refer to the grant type.
    pub fn name_str(self) -> (name: &'static str)
        ensures
            name@ == self.name(),
    {
        match self {
            GrantKind::AuthorizationCode => "authorization_code",
            GrantKind::ClientCredentials => "client_credentials",
            GrantKind::RefreshToken => "refresh_token",
        }
    }

    /// The grant type of the given name, if the endpoint has a processor for
    /// it.
    pub fn from_name(name: &str) -> (kind: Option<GrantKind>)
        ensures
            match kind {
                Some(k) => name@ == k.name(),
                None => forall|k: GrantKind| name@ != k.name(),
            },
    {
        if str_equal(name, GrantKind::AuthorizationCode.name_str()) {
            Some(GrantKind::AuthorizationCode)
        } else if str_equal(name, GrantKind::ClientCredentials.name_str()) {
            Some(GrantKind::ClientCredentials)
        } else if str_equal(name, GrantKind::RefreshToken.name_str()) {
            Some(GrantKind::RefreshToken)
        } else {
            None
        }
    }
}

/// Different grant types have different names.
pub proof fn lemma_grant_names_distinct(a: GrantKind, b: GrantKind)
    ensures
        a.name() == b.name() <==> a == b,
{
    reveal_strlit("authorization_code");
    reveal_strlit("client_credentials");
    reveal_strlit("refresh_token");
    if a != b && a.name() == b.name() {
        assert(a.name()[0] == b.name()[0]);
    }
}

/// A registered application. A client cannot be printed, so that its secret
/// does not reach a log.
pub struct Client {
    /// The identifier under which the client is registered.
    pub id: String,
    /// The secret with which the client authenticates.
    pub secret: String,
    /// The names of the grant types that the client may use.
    pub allowed_grant_types: Vec<String>,
    /// The scope that the registration lists for the client.
    pub allowed_scopes: String,
}

/// What a [`Client`] holds.
#[verifier::ext_equal]
pub struct ClientView {
    pub id: Seq<char>,
    pub secret: Seq<char>,
    pub allowed_grant_types: Seq<Seq<char>>,
    pub allowed_scopes: Seq<char>,
}

impl View for Client {
    type V = ClientView;

    open spec fn view(&self) -> ClientView {
        ClientView {
            id: self.id@,
            secret: self.secret@,
            allowed_grant_types: self.allowed_grant_types.deep_view(),
            allowed_scopes: self.allowed_scopes@,
        }
    }
}

impl Keyed for Client {
    open spec fn key(&self) -> Seq<char> {
        self.id@
    }

    fn key_str(&self) -> (k: &str) {
        self.id.as_str()
    }
}

impl Clone for Client {
    fn clone(&self) -> (copy: Self)
        ensures
            copy@ == self@,
    {
        Client {
            id: self.id.clone(),
            secret: self.secret.clone(),
            allowed_grant_types: clone_strings(&self.allowed_grant_types),
            allowed_scopes: self.allowed_scopes.clone(),
        }
    }
}

/// A grant type as the datastore knows it.
#[derive(Debug)]
pub struct GrantType {
    pub name: String,
    /// Whether requests of this grant type are served at all.
    pub enabled: bool,
}

/// What a [`GrantType`] holds.
#[verifier::ext_equal]
pub struct GrantTypeView {
    pub name: Seq<char>,
    pub enabled: bool,
}

impl View for GrantType {
    type V = GrantTypeView;

    open spec fn view(&self) -> GrantTypeView {
        GrantTypeView { name: self.name@, enabled: self.enabled }
    }
}

impl Keyed for GrantType {
    open spec fn key(&self) -> Seq<char> {
        self.name@
    }

    fn key_str(&self) -> (k: &str) {
        self.name.as_str()
    }
}

impl Clone for GrantType {
    fn clone(&self) -> (copy: Self)
        ensures
            copy@ == self@,
    {
        GrantType { name: self.name.clone(), enabled: self.enabled }
    }
}

/// An access token: an opaque identifier and what it was issued for.
#[derive(Debug)]
pub struct AccessToken {
    /// The identifier that the client presents.
    pub token: String,
    pub client_id: String,
    /// The name of the grant type under which the token was issued.
    pub grant_type: String,
    pub scope: String,
    /// Seconds since the epoch at which the token was issued.
    pub issued_at: u64,
    /// Seconds after `issued_at` during which the token is valid.
    pub expires_in: u64,
}

/// What an [`AccessToken`] holds.
#[verifier::ext_equal]
pub struct AccessTokenView {
    pub token: Seq<char>,
    pub client_id: Seq<char>,
    pub grant_type: Seq<char>,
    pub scope: Seq<char>,
    pub issued_at: u64,
    pub expires_in: u64,
}

impl View for AccessToken {
    type V = AccessTokenView;

    open spec fn view(&self) -> AccessTokenView {
        AccessTokenView {
            token: self.token@,
            client_id: self.client_id@,
            grant_type: self.grant_type@,
            scope: self.scope@,
            issued_at: self.issued_at,
            expires_in: self.expires_in,
        }
    }
}

impl Keyed for AccessToken {
    open spec fn key(&self) -> Seq<char> {
        self.token@
    }

    fn key_str(&self) -> (k: &str) {
        self.token.as_str()
    }
}

impl Clone for AccessToken {
    fn clone(&self) -> (copy: Self)
        ensures
            copy@ == self@,
    {
        AccessToken {
            token: self.token.clone(),
            client_id: self.client_id.clone(),
            grant_type: self.grant_type.clone(),
            scope: self.scope.clone(),
            issued_at: self.issued_at,
            expires_in: self.expires_in,
        }
    }
}

/// A refresh token: an opaque identifier with which its holder obtains new
/// access tokens.
#[derive(Debug)]
pub struct RefreshToken {
    /// The identifier that the client presents.
    pub token: String,
    pub client_id: String,
    /// The scope that was granted with the token.
    pub scope: String,
    /// Seconds since the epoch at which the token was issued.
    pub issued_at: u64,
    /// Seconds since the epoch from which the token is no longer accepted;
    /// `None` for a token that does not expire.
    pub expires_at: Option<u64>,
    pub revoked: bool,
}

/// What a [`RefreshToken`] holds.
#[verifier::ext_equal]
pub struct RefreshTokenView {
    pub token: Seq<char>,
    pub client_id: Seq<char>,
    pub scope: Seq<char>,
    pub issued_at: u64,
    pub expires_at: Option<u64>,
    pub revoked: bool,
}

impl View for RefreshToken {
    type V = RefreshTokenView;

    open spec fn view(&self) -> RefreshTokenView {
        RefreshTokenView {
            token: self.token@,
            client_id: self.client_id@,
            scope: self.scope@,
            issued_at: self.issued_at,
            expires_at: self.expires_at,
            revoked: self.revoked,
        }
    }
}

impl Keyed for RefreshToken {
    open spec fn key(&self) -> Seq<char> {
        self.token@
    }

    fn key_str(&self) -> (k: &str) {
        self.token.as_str()
    }
}

impl Clone for RefreshToken {
    fn clone(&self) -> (copy: Self)
        ensures
            copy@ == self@,
    {
        RefreshToken {
            token: self.token.clone(),
            client_id: self.client_id.clone(),
            scope: self.scope.clone(),
            issued_at: self.issued_at,
            expires_at: self.expires_at,
            revoked: self.revoked,
        }
    }
}

/// An authorization code that was handed to a client, with what it is bound
/// to. A code is redeemed at most once.
#[derive(Debug)]
pub struct AuthorizationCode {
    /// The code that the client presents.
    pub code: String,
    /// The client to which the code was issued.
    pub client_id: String,
    /// The scope that the resource owner granted.
    pub scope: String,
    /// The redirect URI of the authorization request, if it had one.
    pub redirect_uri: Option<String>,
    /// Seconds since the epoch from which the code is no longer accepted.
    pub expires_at: u64,
    /// Whether the code has been redeemed.
    pub used: bool,
}

/// What an [`AuthorizationCode`] holds.
#[verifier::ext_equal]
pub struct AuthorizationCodeView {
    pub code: Seq<char>,
    pub client_id: Seq<char>,
    pub scope: Seq<char>,
    pub redirect_uri: Option<Seq<char>>,
    pub expires_at: u64,
    pub used: bool,
}

impl View for AuthorizationCode {
    type V = AuthorizationCodeView;

    open spec fn view(&self) -> AuthorizationCodeView {
        AuthorizationCodeView {
            code: self.code@,
            client_id: self.client_id@,
            scope: self.scope@,
            redirect_uri: self.redirect_uri.deep_view(),
            expires_at: self.expires_at,
            used: self.used,
        }
    }
}

impl Keyed for AuthorizationCode {
    open spec fn key(&self) -> Seq<char> {
        self.code@
    }

    fn key_str(&self) -> (k: &str) {
        self.code.as_str()
    }
}

impl Clone for AuthorizationCode {
    fn clone(&self) -> (copy: Self)
        ensures
            copy@ == self@,
    {
        AuthorizationCode {
            code: self.code.clone(),
            client_id: self.client_id.clone(),
            scope: self.scope.clone(),
            redirect_uri: clone_optional(&self.redirect_uri),
            expires_at: self.expires_at,
            used: self.used,
        }
    }
}

/// A request to the token endpoint. Which fields must be present depends on
/// the grant type; a processor ignores the fields that its grant type does
/// not use. A request cannot be printed, so that the secret it carries does
/// not reach a log.
pub struct AccessTokenRequest {
    pub grant_type: Option<String>,
    pub client_id: Option<String>,
    pub client_secret: Option<String>,
    pub code: Option<String>,
    pub redirect_uri: Option<String>,
    pub refresh_token: Option<String>,
    pub scope: Option<String>,
}

/// What an [`AccessTokenRequest`] holds.
#[verifier::ext_equal]
pub struct RequestView {
    pub grant_type: Option<Seq<char>>,
    pub client_id: Option<Seq<char>>,
    pub client_secret: Option<Seq<char>>,
    pub code: Option<Seq<char>>,
    pub redirect_uri: Option<Seq<char>>,
    pub refresh_token: Option<Seq<char>>,
    pub scope: Option<Seq<char>>,
}

impl View for AccessTokenRequest {
    type V = RequestView;

    open spec fn view(&self) -> RequestView {
        RequestView {
            grant_type: self.grant_type.deep_view(),
            client_id: self.client_id.deep_view(),
            client_secret: self.client_secret.deep_view(),
            code: self.code.deep_view(),
            redirect_uri: self.redirect_uri.deep_view(),
            refresh_token: self.refresh_token.deep_view(),
            scope: self.scope.deep_view(),
        }
    }
}

/// What the endpoint answers to a request that it grants.
#[derive(Debug)]
pub struct AccessTokenResponse {
    pub access_token: String,
    pub token_type: String,
    /// Seconds for which the access token is valid.
    pub expires_in: u64,
    pub refresh_token: Option<String>,
    pub scope: String,
}

/// What an [`AccessTokenResponse`] holds.
#[verifier::ext_equal]
pub struct ResponseView {
    pub access_token: Seq<char>,
    pub token_type: Seq<char>,
    pub expires_in: u64,
    pub refresh_token: Option<Seq<char>>,
    pub scope: Seq<char>,
}

impl View for AccessTokenResponse {
    type V = ResponseView;

    open spec fn view(&self) -> ResponseView {
        ResponseView {
            access_token: self.access_token@,
            token_type: self.token_type@,
            expires_in: self.expires_in,
            refresh_token: self.refresh_token.deep_view(),
            scope: self.scope@,
        }
    }
}

} // verus!
