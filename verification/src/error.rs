//! The errors with which a token request is rejected.

use vstd::prelude::*;
use vstd::string::*;
use crate::text::str_equal;

verus! {

/// The reasons for which a token request is rejected.
#[derive(Clone, Copy, Debug, PartialEq, Eq, Structural)]
pub enum ErrorKind {
    /// A required field is missing or malformed.
    InvalidRequest,
    /// The client could not be authenticated. An unknown client and a wrong
    /// secret are reported alike.
    InvalidClient,
    /// The authorization code or refresh token is unknown, expired, revoked,
    /// consumed, or was issued to another client.
    InvalidGrant,
    /// The client is not permitted to use the grant type.
    UnauthorizedClient,
    /// The grant type is unknown or disabled, or not the one the processor
    /// handles.
    UnsupportedGrantType,
    /// The requested scope names no permission or exceeds what was granted.
    InvalidScope,
}

impl ErrorKind {
    /// The error code as it is sent to the caller.
    pub open spec fn code(self) -> Seq<char> {
        match self {
            ErrorKind::InvalidRequest => "invalid_request"@,
            ErrorKind::InvalidClient => "invalid_client"@,
            ErrorKind::InvalidGrant => "invalid_grant"@,
            ErrorKind::UnauthorizedClient => "unauthorized_client"@,
            ErrorKind::UnsupportedGrantType => "unsupported_grant_type"@,
            ErrorKind::InvalidScope => "invalid_scope"@,
        }
    }

    /// The description that accompanies the code. It depends on the kind
    /// alone, so it reveals nothing about the request or the datastore.
    pub open spec fn description(self) -> Seq<char> {
        match self {
            ErrorKind::InvalidRequest => "The request is missing a required parameter or is malformed."@,
            ErrorKind::InvalidClient => "Client authentication failed."@,
            ErrorKind::InvalidGrant => "The authorization code or refresh token is invalid, expired, revoked or already used."@,
            ErrorKind::UnauthorizedClient => "The client is not authorized to use this grant type."@,
            ErrorKind::UnsupportedGrantType => "The grant type is not supported."@,
            ErrorKind::InvalidScope => "The requested scope is empty or exceeds the scope granted."@,
        }
    }

    /// The error code as it is sent to the caller.
    pub fn code_str(self) -> (code: &'static str)
        ensures
            code@ == self.code(),
    {
        match self {
            ErrorKind::InvalidRequest => "invalid_request",
            ErrorKind::InvalidClient => "invalid_client",
            ErrorKind::InvalidGrant => "invalid_grant",
            ErrorKind::UnauthorizedClient => "unauthorized_client",
            ErrorKind::UnsupportedGrantType => "unsupported_grant_type",
            ErrorKind::InvalidScope => "invalid_scope",
        }
    }

    /// The description that accompanies the code.
    pub fn description_str(self) -> (text: &'static str)
        ensures
            text@ == self.description(),
    {
        match self {
            ErrorKind::InvalidRequest => "The request is missing a required parameter or is malformed.",
            ErrorKind::InvalidClient => "Client authentication failed.",
            ErrorKind::InvalidGrant => "The authorization code or refresh token is invalid, expired, revoked or already used.",
            ErrorKind::UnauthorizedClient => "The client is not authorized to use this grant type.",
            ErrorKind::UnsupportedGrantType => "The grant type is not supported.",
            ErrorKind::InvalidScope => "The requested scope is empty or exceeds the scope granted.",
        }
    }
}

/// Different kinds have different codes.
pub proof fn lemma_codes_distinct(a: ErrorKind, b: ErrorKind)
    ensures
        a.code() == b.code() <==> a == b,
{
    reveal_strlit("invalid_request");
    reveal_strlit("invalid_client");
    reveal_strlit("invalid_grant");
    reveal_strlit("unauthorized_client");
    reveal_strlit("unsupported_grant_type");
    reveal_strlit("invalid_scope");
    if a != b && a.code() == b.code() {
        assert(a.code()[8] == b.code()[8]);
    }
}

/// The error as the caller receives it.
#[derive(Debug)]
pub struct OAuth2Error {
    /// One of the codes of [`ErrorKind::code`].
    pub error: String,
    /// A description fit for the caller to read.
    pub error_description: String,
}

/// What an [`OAuth2Error`] holds.
#[verifier::ext_equal]
pub struct OAuth2ErrorView {
    pub error: Seq<char>,
    pub error_description: Seq<char>,
}

impl View for OAuth2Error {
    type V = OAuth2ErrorView;

    open spec fn view(&self) -> OAuth2ErrorView {
        OAuth2ErrorView { error: self.error@, error_description: self.error_description@ }
    }
}

/// The error that reports a rejection of the given kind.
pub open spec fn error_of(kind: ErrorKind) -> OAuth2ErrorView {
    OAuth2ErrorView { error: kind.code(), error_description: kind.description() }
}

/// Builds the error that reports a rejection of the given kind.
pub fn oauth_error(kind: ErrorKind) -> (error: OAuth2Error)
    ensures
        error@ == error_of(kind),
{
    OAuth2Error {
        error: String::from_str(kind.code_str()),
        error_description: String::from_str(kind.description_str()),
    }
}

impl OAuth2Error {
    /// The kind that the error's code stands for, if it is one of the fixed
    /// vocabulary.
    pub fn kind(&self) -> (kind: Option<ErrorKind>)
        ensures
            match kind {
                Some(k) => self.error@ == k.code(),
                None => forall|k: ErrorKind| self.error@ != k.code(),
            },
    {
        let code = self.error.as_str();
        if str_equal(code, ErrorKind::InvalidRequest.code_str()) {
            Some(ErrorKind::InvalidRequest)
        } else if str_equal(code, ErrorKind::InvalidClient.code_str()) {
            Some(ErrorKind::InvalidClient)
        } else if str_equal(code, ErrorKind::InvalidGrant.code_str()) {
            Some(ErrorKind::InvalidGrant)
        } else if str_equal(code, ErrorKind::UnauthorizedClient.code_str()) {
            Some(ErrorKind::UnauthorizedClient)
        } else if str_equal(code, ErrorKind::UnsupportedGrantType.code_str()) {
            Some(ErrorKind::UnsupportedGrantType)
        } else if str_equal(code, ErrorKind::InvalidScope.code_str()) {
            Some(ErrorKind::InvalidScope)
        } else {
            None
        }
    }
}

} // verus!
