//! Failures of the service, and what a client is told about them.

use crate::status::{STATUS_BAD_REQUEST, STATUS_FORBIDDEN, STATUS_INTERNAL_SERVER_ERROR};
use vstd::prelude::*;

verus! {

pub type Result<T> = core::result::Result<T, Error>;

/// Everything that can go wrong while serving a request.
#[derive(Clone, Debug, PartialEq, Eq)]
pub enum Error {
    LoginFail,
    // Authentication.
    AuthFailNoAuthTokenCookie,
    AuthFailTokenWrongFormat,
    AuthFailCtxNotInRequestExt,
    CustomerError,
    HandlerError,
    // Stores.
    PGError { e: String },
    SqlxUuid { e: String },
    MongoParsingError { e: String },
    MongoConnectionError { e: String },
    MongoQueryError { e: String },
    MongoInvalidIDError { e: String },
    MongoSerializeBsonError { e: String },
    MongoSerializeError,
    MongoError,
    // Model.
    TicketDeleteFailIdNotFound { id: u64 },
}

/// The opaque tag a client sees in place of the failure itself.
#[derive(Clone, Copy, Debug, PartialEq, Eq, Structural)]
#[allow(non_camel_case_types)]
pub enum ClientError {
    LOGIN_FAIL,
    NO_AUTH,
    INVALID_PARAMS,
    DATABASE_ERROR,
    SERVICE_ERROR,
}

impl ClientError {
    /// The tag as it is written into a response body.
    pub open spec fn name(self) -> Seq<char> {
        match self {
            ClientError::LOGIN_FAIL => "LOGIN_FAIL"@,
            ClientError::NO_AUTH => "NO_AUTH"@,
            ClientError::INVALID_PARAMS => "INVALID_PARAMS"@,
            ClientError::DATABASE_ERROR => "DATABASE_ERROR"@,
            ClientError::SERVICE_ERROR => "SERVICE_ERROR"@,
        }
    }

    /// The tag's text: the variant's own name.
    pub fn as_ref(&self) -> (text: &'static str)
        ensures
            text@ == self.name(),
    {
        match self {
            ClientError::LOGIN_FAIL => "LOGIN_FAIL",
            ClientError::NO_AUTH => "NO_AUTH",
            ClientError::INVALID_PARAMS => "INVALID_PARAMS",
            ClientError::DATABASE_ERROR => "DATABASE_ERROR",
            ClientError::SERVICE_ERROR => "SERVICE_ERROR",
        }
    }
}

impl Error {
    /// Whether the failure is one of authentication, login aside.
    pub open spec fn is_auth_failure(&self) -> bool {
        self is AuthFailNoAuthTokenCookie || self is AuthFailTokenWrongFormat
            || self is AuthFailCtxNotInRequestExt
    }

    /// The tag shown to the client: login and authentication failures are
    /// named as such, an unknown ticket is a bad parameter, and every other
    /// failure is reported as one of the stores.
    pub open spec fn client_error(&self) -> ClientError {
        if self is LoginFail {
            ClientError::LOGIN_FAIL
        } else if self.is_auth_failure() {
            ClientError::NO_AUTH
        } else if self is TicketDeleteFailIdNotFound {
            ClientError::INVALID_PARAMS
        } else {
            ClientError::DATABASE_ERROR
        }
    }

    /// The status the client is answered with: forbidden for login and
    /// authentication failures, bad request for all others.
    pub open spec fn client_status(&self) -> u16 {
        if self is LoginFail || self.is_auth_failure() {
            STATUS_FORBIDDEN
        } else {
            STATUS_BAD_REQUEST
        }
    }

    /// Status and tag with which this failure is answered.
    pub fn client_status_and_error(&self) -> (answer: (u16, ClientError))
        ensures
            answer.0 == self.client_status(),
            answer.1 == self.client_error(),
    {
        match self {
            Error::LoginFail => (STATUS_FORBIDDEN, ClientError::LOGIN_FAIL),
            Error::AuthFailNoAuthTokenCookie
            | Error::AuthFailTokenWrongFormat
            | Error::AuthFailCtxNotInRequestExt => (STATUS_FORBIDDEN, ClientError::NO_AUTH),
            Error::CustomerError => (STATUS_BAD_REQUEST, ClientError::DATABASE_ERROR),
            Error::PGError { .. } => (STATUS_BAD_REQUEST, ClientError::DATABASE_ERROR),
            Error::HandlerError => (STATUS_BAD_REQUEST, ClientError::DATABASE_ERROR),
            Error::SqlxUuid { .. } => (STATUS_BAD_REQUEST, ClientError::DATABASE_ERROR),
            Error::MongoParsingError { .. } => (STATUS_BAD_REQUEST, ClientError::DATABASE_ERROR),
            Error::MongoConnectionError { .. } => (
                STATUS_BAD_REQUEST,
                ClientError::DATABASE_ERROR,
            ),
            Error::MongoQueryError { .. } => (STATUS_BAD_REQUEST, ClientError::DATABASE_ERROR),
            Error::MongoInvalidIDError { .. } => (STATUS_BAD_REQUEST, ClientError::DATABASE_ERROR),
            Error::MongoSerializeBsonError { .. } => (
                STATUS_BAD_REQUEST,
                ClientError::DATABASE_ERROR,
            ),
            Error::MongoSerializeError => (STATUS_BAD_REQUEST, ClientError::DATABASE_ERROR),
            Error::MongoError => (STATUS_BAD_REQUEST, ClientError::DATABASE_ERROR),
            Error::TicketDeleteFailIdNotFound { .. } => (
                STATUS_BAD_REQUEST,
                ClientError::INVALID_PARAMS,
            ),
        }
    }
}

/// A client is refused exactly where it is told of a failed login or of
/// missing authentication; every other failure is answered as a bad request.
/// No failure is left to the status for internal errors, and none is tagged
/// as an error of the service.
pub proof fn status_follows_tag(failure: Error)
    ensures
        failure.client_status() == STATUS_FORBIDDEN <==> (failure.client_error()
            == ClientError::LOGIN_FAIL || failure.client_error() == ClientError::NO_AUTH),
        failure.client_status() == STATUS_FORBIDDEN || failure.client_status()
            == STATUS_BAD_REQUEST,
        failure.client_status() != STATUS_INTERNAL_SERVER_ERROR,
        failure.client_error() != ClientError::SERVICE_ERROR,
{
}

} // verus!
