//! The error taxonomy of the guard, its HTTP status mapping and the two
//! response envelopes.

use vstd::prelude::*;

verus! {

/// The HTTP statuses that the service answers with.
#[derive(Clone, Copy, Debug, PartialEq, Eq, Structural)]
pub enum HttpStatus {
    Success,
    BadRequest,
    Unauthorized,
    NotFound,
    InternalServerError,
}

impl HttpStatus {
    /// The numeric status code.
    pub open spec fn spec_code(self) -> u16 {
        match self {
            HttpStatus::Success => 200,
            HttpStatus::BadRequest => 400,
            HttpStatus::Unauthorized => 401,
            HttpStatus::NotFound => 404,
            HttpStatus::InternalServerError => 500,
        }
    }

    #[verifier::when_used_as_spec(spec_code)]
    pub fn code(self) -> (c: u16)
        ensures
            c == self.spec_code(),
    {
        match self {
            HttpStatus::Success => 200,
            HttpStatus::BadRequest => 400,
            HttpStatus::Unauthorized => 401,
            HttpStatus::NotFound => 404,
            HttpStatus::InternalServerError => 500,
        }
    }
}

/// Why the guard turned a request away.
#[derive(Clone, Copy, Debug, PartialEq, Eq, Structural)]
pub enum AuthError {
    /// The request carried no session cookie.
    NoToken,
    /// The token is not a well-formed signed record of claims.
    MalformedToken,
    /// The signature does not match, or the token names another algorithm.
    SignatureInvalid,
    /// The token's expiry is not in the future.
    ExpiredToken,
    /// The guard was built without a signing secret.
    ServerConfig,
    /// The store holds no user with the claimed id and name.
    IdentityNotFound,
    /// The store could not answer.
    IdentityStoreUnavailable,
}

/// Why no token was issued: the secret is structurally invalid.
#[derive(Clone, Copy, Debug, PartialEq, Eq, Structural)]
pub enum SigningError {
    /// The secret is empty.
    EmptySecret,
}

/// The service has two middlewares in front of its protected routes, one
/// wrapped as a type and one given as a function. They decide alike and
/// word two rejections differently.
#[derive(Clone, Copy, Debug, PartialEq, Eq, Structural)]
pub enum Wording {
    /// The texts of the middleware type.
    Service,
    /// The texts of the function middleware.
    Function,
}

/// How store and configuration failures are reported to the client.
#[derive(Clone, Copy, Debug, PartialEq, Eq, Structural)]
pub enum StatusPolicy {
    /// Infrastructure failures answer 500, authentication failures 401.
    Recommended,
    /// As `Recommended`, but a store that cannot answer is reported as 401.
    Baseline,
}

impl AuthError {
    /// An infrastructure failure is the server's fault, not the client's.
    pub open spec fn is_infrastructure(self) -> bool {
        self == AuthError::ServerConfig || self == AuthError::IdentityStoreUnavailable
    }

    /// The status that a rejection with this error carries under `policy`.
    pub open spec fn spec_status(self, policy: StatusPolicy) -> HttpStatus {
        match self {
            AuthError::ServerConfig => HttpStatus::InternalServerError,
            AuthError::IdentityStoreUnavailable => match policy {
                StatusPolicy::Recommended => HttpStatus::InternalServerError,
                StatusPolicy::Baseline => HttpStatus::Unauthorized,
            },
            _ => HttpStatus::Unauthorized,
        }
    }

    #[verifier::when_used_as_spec(spec_status)]
    pub fn status(self, policy: StatusPolicy) -> (s: HttpStatus)
        ensures
            s == self.spec_status(policy),
    {
        match self {
            AuthError::ServerConfig => HttpStatus::InternalServerError,
            AuthError::IdentityStoreUnavailable => match policy {
                StatusPolicy::Recommended => HttpStatus::InternalServerError,
                StatusPolicy::Baseline => HttpStatus::Unauthorized,
            },
            _ => HttpStatus::Unauthorized,
        }
    }

    /// The text that the middleware type sends to the client.
    pub open spec fn spec_message(self) -> Seq<char> {
        match self {
            AuthError::NoToken => "No accessToken cookie found"@,
            AuthError::MalformedToken => "Invalid token"@,
            AuthError::SignatureInvalid => "Token validation failed"@,
            AuthError::ExpiredToken => "Token expired"@,
            AuthError::ServerConfig => "Server configuration error"@,
            AuthError::IdentityNotFound => "User not found in database"@,
            AuthError::IdentityStoreUnavailable => "Database error during user verification"@,
        }
    }

    /// The text sent to the client under `wording`. The function
    /// middleware has its own words for a missing cookie and for missing
    /// configuration. The text depends on the kind of error and the wording
    /// alone, so no response can carry a token or the secret.
    pub open spec fn spec_message_in(self, wording: Wording) -> Seq<char> {
        match wording {
            Wording::Service => self.spec_message(),
            Wording::Function => match self {
                AuthError::NoToken => "Unauthorized: Missing accessToken cookie"@,
                AuthError::ServerConfig => "Failed to retrieve application state"@,
                _ => self.spec_message(),
            },
        }
    }

    pub fn message(self) -> (m: String)
        ensures
            m@ == self.spec_message(),
    {
        match self {
            AuthError::NoToken => "No accessToken cookie found".to_string(),
            AuthError::MalformedToken => "Invalid token".to_string(),
            AuthError::SignatureInvalid => "Token validation failed".to_string(),
            AuthError::ExpiredToken => "Token expired".to_string(),
            AuthError::ServerConfig => "Server configuration error".to_string(),
            AuthError::IdentityNotFound => "User not found in database".to_string(),
            AuthError::IdentityStoreUnavailable => {
                "Database error during user verification".to_string()
            },
        }
    }

    pub fn message_in(self, wording: Wording) -> (m: String)
        ensures
            m@ == self.spec_message_in(wording),
    {
        match wording {
            Wording::Service => self.message(),
            Wording::Function => match self {
                AuthError::NoToken => "Unauthorized: Missing accessToken cookie".to_string(),
                AuthError::ServerConfig => "Failed to retrieve application state".to_string(),
                _ => self.message(),
            },
        }
    }
}

/// The single-message envelope, `{ "errors": <string> }`.
#[derive(Debug)]
pub struct GeneralError {
    pub errors: String,
}

/// The list envelope, `{ "errors": [<string>, ...] }`, for field validation.
#[derive(Debug)]
pub struct ValidationErrorsToBeReturned {
    pub errors: Vec<String>,
}

impl GeneralError {
    /// The envelope for a rejection by the guard, in the given wording.
    pub fn from_auth(error: AuthError, wording: Wording) -> (e: GeneralError)
        ensures
            e.errors@ == error.spec_message_in(wording),
    {
        GeneralError { errors: error.message_in(wording) }
    }
}

} // verus!
