//! The typed errors the core reports to its callers. Every failure is a
//! value of one of these types; nothing is masked or silently retried.

use vstd::prelude::*;

verus! {

/// A failure inside the persistence layer.
#[derive(Debug, PartialEq, Eq, Clone)]
pub struct DatabaseError;

/// Failures of the user-lookup flow.
#[derive(Debug, PartialEq, Eq, Clone)]
pub enum GetUserError {
    /// No user carries the requested name.
    UserNotFound { name: String, source: DatabaseError },
    DatabaseError(DatabaseError),
}

/// Failures of the token-deletion flow.
#[derive(Debug, PartialEq, Eq, Clone)]
pub enum DeleteUserTokenError {
    /// No user token carries the requested token string.
    TokenNotFound { token: String, source: DatabaseError },
    /// The token belongs to another user than the requester named.
    TokenUserIdDontMatch,
    DatabaseError(DatabaseError),
}

/// Placeholder failures kept from the request surface.
#[derive(Debug, PartialEq, Eq, Clone)]
pub enum TestError {
    ItsJustForTest,
    SecondEntry,
}

/// A failure of the upload staging store.
#[derive(Debug, PartialEq, Eq, Clone)]
pub enum UploadError {
    /// A payload with this content token is already staged; identical bytes
    /// are never stored twice within one staging window.
    DuplicateUpload(String),
    /// The staged bytes could not be written to or removed from disk.
    IoError(String),
}

/// A failure of the resource locator.
#[derive(Debug, PartialEq, Eq, Clone)]
pub enum LocatorError {
    /// The declared MIME type has no known file-extension mapping, so the
    /// locator refuses to guess a content path.
    UnknownMimeType(String),
}

/// The error a request handler answers with.
#[derive(Debug, PartialEq, Eq, Clone)]
pub enum ApiError {
    Test(TestError),
    Database(DatabaseError),
    GetUser(GetUserError),
    DeleteToken(DeleteUserTokenError),
    /// An upload could not be staged.
    Uploads,
}

/// Any staging-store failure surfaces to the request layer as the one
/// upload error of the API.
pub fn to_upload_error(_e: UploadError) -> (r: ApiError)
    ensures
        r is Uploads,
{
    ApiError::Uploads
}

impl core::convert::From<TestError> for ApiError {
    fn from(e: TestError) -> (r: ApiError) {
        ApiError::Test(e)
    }
}

impl vstd::std_specs::convert::FromSpecImpl<TestError> for ApiError {
    open spec fn obeys_from_spec() -> bool {
        true
    }

    open spec fn from_spec(e: TestError) -> ApiError {
        ApiError::Test(e)
    }
}

impl core::convert::From<DatabaseError> for ApiError {
    fn from(e: DatabaseError) -> (r: ApiError) {
        ApiError::Database(e)
    }
}

impl vstd::std_specs::convert::FromSpecImpl<DatabaseError> for ApiError {
    open spec fn obeys_from_spec() -> bool {
        true
    }

    open spec fn from_spec(e: DatabaseError) -> ApiError {
        ApiError::Database(e)
    }
}

impl core::convert::From<GetUserError> for ApiError {
    fn from(e: GetUserError) -> (r: ApiError) {
        ApiError::GetUser(e)
    }
}

impl vstd::std_specs::convert::FromSpecImpl<GetUserError> for ApiError {
    open spec fn obeys_from_spec() -> bool {
        true
    }

    open spec fn from_spec(e: GetUserError) -> ApiError {
        ApiError::GetUser(e)
    }
}

impl core::convert::From<DeleteUserTokenError> for ApiError {
    fn from(e: DeleteUserTokenError) -> (r: ApiError) {
        ApiError::DeleteToken(e)
    }
}

impl vstd::std_specs::convert::FromSpecImpl<DeleteUserTokenError> for ApiError {
    open spec fn obeys_from_spec() -> bool {
        true
    }

    open spec fn from_spec(e: DeleteUserTokenError) -> ApiError {
        ApiError::DeleteToken(e)
    }
}

impl core::convert::From<DatabaseError> for GetUserError {
    fn from(e: DatabaseError) -> (r: GetUserError) {
        GetUserError::DatabaseError(e)
    }
}

impl vstd::std_specs::convert::FromSpecImpl<DatabaseError> for GetUserError {
    open spec fn obeys_from_spec() -> bool {
        true
    }

    open spec fn from_spec(e: DatabaseError) -> GetUserError {
        GetUserError::DatabaseError(e)
    }
}

impl core::convert::From<DatabaseError> for DeleteUserTokenError {
    fn from(e: DatabaseError) -> (r: DeleteUserTokenError) {
        DeleteUserTokenError::DatabaseError(e)
    }
}

impl vstd::std_specs::convert::FromSpecImpl<DatabaseError> for DeleteUserTokenError {
    open spec fn obeys_from_spec() -> bool {
        true
    }

    open spec fn from_spec(e: DatabaseError) -> DeleteUserTokenError {
        DeleteUserTokenError::DatabaseError(e)
    }
}

} // verus!
