//! Caller-facing API data: the error taxonomy requests surface, response
//! metadata, descriptive document-type responses, and the configuration
//! records the process is bootstrapped from.

use vstd::prelude::*;

use crate::repository::RepositoryError;
use crate::schema::{DocumentTypeInfo, DocumentTypeOptions};

verus! {

/// The error a request surfaces, by HTTP meaning.
#[derive(Debug)]
pub enum ApiError {
    InternalServerError(String),
    UnprocessableEntity(String),
    ConflictWithServerState(String),
    NotFound,
}

impl From<RepositoryError> for ApiError {
    /// Map each repository error onto the caller-facing taxonomy:
    /// not-found stays not-found, a validation failure is unprocessable, a
    /// uniqueness violation conflicts with server state, and a database
    /// failure is an internal error.
    fn from(value: RepositoryError) -> (r: ApiError) {
        match value {
            RepositoryError::NotFound => ApiError::NotFound,
            RepositoryError::ValidationFailed(cause) => ApiError::UnprocessableEntity(cause),
            RepositoryError::UniqueViolation(cause) => ApiError::ConflictWithServerState(cause),
            RepositoryError::DatabaseError(cause) => ApiError::InternalServerError(cause),
        }
    }
}

impl vstd::std_specs::convert::FromSpecImpl<RepositoryError> for ApiError {
    open spec fn obeys_from_spec() -> bool {
        true
    }

    open spec fn from_spec(v: RepositoryError) -> ApiError {
        match v {
            RepositoryError::NotFound => ApiError::NotFound,
            RepositoryError::ValidationFailed(cause) => ApiError::UnprocessableEntity(cause),
            RepositoryError::UniqueViolation(cause) => ApiError::ConflictWithServerState(cause),
            RepositoryError::DatabaseError(cause) => ApiError::InternalServerError(cause),
        }
    }
}

/// The data of an error response.
#[derive(Debug)]
pub struct ApiErrorData {
    pub message: String,
}

/// The generic response envelope.
#[derive(Debug)]
pub struct ApiResponseBody<T> {
    pub status_code: u16,
    pub data: T,
}

impl ApiResponseBody<ApiErrorData> {
    pub fn new_error(status_code: u16, message: String) -> (r: ApiResponseBody<ApiErrorData>)
        ensures
            r.status_code == status_code,
            r.data.message == message,
    {
        ApiResponseBody { status_code, data: ApiErrorData { message } }
    }
}

/// Result-set metadata of a list response.
#[derive(Debug, Clone, Copy, PartialEq, Eq, Structural)]
pub struct MetadataResponse {
    pub total: usize,
}

/// Descriptive metadata of one document type, as responses carry it.
#[derive(Debug)]
pub struct DocumentInfoResponse {
    pub title: String,
    pub singular_name: String,
    pub plural_name: String,
    pub description: Option<String>,
}

impl DocumentInfoResponse {
    pub fn from_info(info: &DocumentTypeInfo) -> (r: DocumentInfoResponse)
        ensures
            r.title@ == info.title@,
            r.singular_name@ == info.singular_name@,
            r.plural_name@ == info.plural_name@,
            r.description == info.description,
    {
        DocumentInfoResponse {
            title: String::from_str(info.title.as_str()),
            singular_name: String::from_str(info.singular_name.as_str()),
            plural_name: String::from_str(info.plural_name.as_str()),
            description: match &info.description {
                Some(d) => Some(d.clone()),
                None => None,
            },
        }
    }
}

/// The options of one document type, as responses carry them.
#[derive(Debug)]
pub struct DocumentOptionsResponse {
    pub draft_and_publish: bool,
    pub localizations: Vec<String>,
}

impl DocumentOptionsResponse {
    pub fn from_options(options: &DocumentTypeOptions) -> (r: DocumentOptionsResponse)
        ensures
            r.draft_and_publish == options.draft_and_publish,
            r.localizations@.map_values(|s: String| s@) == options.localizations@.map_values(
                |l: crate::ident::LocalizationId| l@,
            ),
    {
        let mut localizations: Vec<String> = Vec::new();
        let mut i: usize = 0;
        while i < options.localizations.len()
            invariant
                i <= options.localizations.len(),
                localizations@.len() == i,
                forall|j: int|
                    0 <= j < i ==> (#[trigger] localizations@[j])@ == options.localizations@[j]@,
            decreases options.localizations.len() - i,
        {
            localizations.push(String::from_str(options.localizations[i].as_str()));
            i = i + 1;
        }
        proof {
            assert(localizations@.map_values(|s: String| s@) =~= options.localizations@.map_values(
                |l: crate::ident::LocalizationId| l@,
            ));
        }
        DocumentOptionsResponse { draft_and_publish: options.draft_and_publish, localizations }
    }
}

/// How to reach and use the database: the pool is bounded by the connection
/// counts and gives up on acquisition after the timeout.
#[derive(Debug, Clone)]
pub struct DatabaseSettings {
    pub host: String,
    pub db: String,
    pub schema: String,
    pub credentials: DatabaseCredentials,
    pub connection: DatabaseConnection,
}

/// The pool bounds: between `min_connections` and `max_connections`
/// connections, and acquisition fails after the timeout rather than
/// blocking indefinitely.
#[derive(Debug, Clone, Copy, PartialEq, Eq, Structural)]
pub struct DatabaseConnection {
    pub min_connections: u32,
    pub max_connections: u32,
    pub acquire_timeout_seconds: u64,
}

/// The database credentials.
#[derive(Debug, Clone)]
pub struct DatabaseCredentials {
    pub username: String,
    pub password: String,
}

} // verus!
