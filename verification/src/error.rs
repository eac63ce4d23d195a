//! Failures of the backend, as the adapter tells them apart.

use vstd::prelude::*;
use vstd::std_specs::convert::FromSpecImpl;

verus! {

#[verifier::external_type_specification]
#[verifier::external_body]
pub struct ExBackendError(opendal::Error);

#[verifier::external_type_specification]
#[verifier::external_body]
pub struct ExTransportError(reqwest::Error);

/// The backend's classification of a failed operation.
///
/// Only `NotFound` is reported to the cache client as a missing entry; every
/// other kind is a failure of the backend.
#[derive(Clone, Copy, Debug, PartialEq, Eq, Hash, Structural)]
pub enum ErrorKind {
    /// The backend cannot tell what happened.
    Unexpected,
    /// The backend does not support the operation.
    Unsupported,
    /// The backend's configuration is invalid.
    ConfigInvalid,
    /// No entry is stored under the key.
    NotFound,
    /// The credentials do not allow the operation.
    PermissionDenied,
    /// The key names a directory.
    IsADirectory,
    /// The key does not name a directory.
    NotADirectory,
    /// An entry is already stored under the key.
    AlreadyExists,
    /// The backend asks the caller to slow down.
    RateLimited,
    /// Source and target of the operation are the same entry.
    IsSameFile,
    /// A condition attached to the operation does not hold.
    ConditionNotMatch,
    /// The requested byte range lies outside the entry.
    RangeNotSatisfied,
}

impl ErrorKind {
    /// Whether this kind says that the entry does not exist.
    pub open spec fn spec_is_not_found(self) -> bool {
        self is NotFound
    }

    /// Whether this kind says that the entry does not exist.
    #[verifier::when_used_as_spec(spec_is_not_found)]
    pub fn is_not_found(self) -> (missing: bool)
        ensures
            missing == (self is NotFound),
    {
        match self {
            ErrorKind::NotFound => true,
            _ => false,
        }
    }
}

/// Why the adapter could not start.
#[derive(Debug)]
pub enum StartupError {
    /// The HTTP transport could not be built.
    Transport(reqwest::Error),
    /// The backend refused its configuration.
    Backend(opendal::Error),
}

impl From<reqwest::Error> for StartupError {
    fn from(error: reqwest::Error) -> (failure: StartupError) {
        StartupError::Transport(error)
    }
}

impl FromSpecImpl<reqwest::Error> for StartupError {
    open spec fn obeys_from_spec() -> bool {
        true
    }

    open spec fn from_spec(error: reqwest::Error) -> StartupError {
        StartupError::Transport(error)
    }
}

impl From<opendal::Error> for StartupError {
    fn from(error: opendal::Error) -> (failure: StartupError) {
        StartupError::Backend(error)
    }
}

impl FromSpecImpl<opendal::Error> for StartupError {
    open spec fn obeys_from_spec() -> bool {
        true
    }

    open spec fn from_spec(error: opendal::Error) -> StartupError {
        StartupError::Backend(error)
    }
}

/// The kind that the backend gave an error: what `opendal::Error::kind`
/// returns for it, under the name of the same variant here. It depends on the
/// error alone.
pub uninterp spec fn kind_of(error: opendal::Error) -> ErrorKind;

/// Calls `opendal::Error::kind` and renames the kind it returns, variant for
/// variant. A kind that a later release of the backend adds is reported as
/// `Unexpected`. The result is the error's kind by definition of `kind_of`;
/// nothing is claimed of which kind a given error carries.
#[verifier::external_body]
fn error_kind(error: &opendal::Error) -> (kind: ErrorKind)
    ensures
        kind == kind_of(*error),
{
    match error.kind() {
        opendal::ErrorKind::Unexpected => ErrorKind::Unexpected,
        opendal::ErrorKind::Unsupported => ErrorKind::Unsupported,
        opendal::ErrorKind::ConfigInvalid => ErrorKind::ConfigInvalid,
        opendal::ErrorKind::NotFound => ErrorKind::NotFound,
        opendal::ErrorKind::PermissionDenied => ErrorKind::PermissionDenied,
        opendal::ErrorKind::IsADirectory => ErrorKind::IsADirectory,
        opendal::ErrorKind::NotADirectory => ErrorKind::NotADirectory,
        opendal::ErrorKind::AlreadyExists => ErrorKind::AlreadyExists,
        opendal::ErrorKind::RateLimited => ErrorKind::RateLimited,
        opendal::ErrorKind::IsSameFile => ErrorKind::IsSameFile,
        opendal::ErrorKind::ConditionNotMatch => ErrorKind::ConditionNotMatch,
        opendal::ErrorKind::RangeNotSatisfied => ErrorKind::RangeNotSatisfied,
        _ => ErrorKind::Unexpected,
    }
}

/// Replaces the backend's error by its kind and leaves a success untouched.
///
/// A success stays the same success, and a failure becomes the kind that the
/// backend gave it, no other.
pub fn observe<T>(result: Result<T, opendal::Error>) -> (outcome: Result<T, ErrorKind>)
    ensures
        result matches Ok(value) ==> outcome == Ok::<T, ErrorKind>(value),
        result matches Err(error) ==> outcome == Err::<T, ErrorKind>(kind_of(error)),
{
    match result {
        Ok(value) => Ok(value),
        Err(error) => Err(error_kind(&error)),
    }
}

} // verus!
