//! The error object of a response, and the contract by which a failure
//! supplies its three fields.

use crate::code::ErrorCode;
use crate::kinds::{CoreApiError, StorageError};
use vstd::prelude::*;

verus! {

/// Error object in a response.
#[derive(Debug)]
pub struct Error {
    pub error_type: String,
    pub code: ErrorCode,
    pub message: String,
}

/// What an [`Error`] holds, as plain values.
pub ghost struct ErrorView {
    pub error_type: Seq<char>,
    pub code: ErrorCode,
    pub message: Seq<char>,
}

impl View for Error {
    type V = ErrorView;

    open spec fn view(&self) -> ErrorView {
        ErrorView { error_type: self.error_type@, code: self.code, message: self.message@ }
    }
}

impl PartialEq for Error {
    /// Two response objects are equal when they hold the same category, the
    /// same code and the same message.
    fn eq(&self, other: &Error) -> (same: bool) {
        self.error_type == other.error_type && self.code == other.code && self.message
            == other.message
    }
}

impl vstd::std_specs::cmp::PartialEqSpecImpl for Error {
    open spec fn obeys_eq_spec() -> bool {
        true
    }

    open spec fn eq_spec(&self, other: &Error) -> bool {
        self@ == other@
    }
}

/// Trait that can be used to map custom errors to the object.
///
/// An implementer names its category tag, its code and its human-readable
/// description. The message of the response is the description unless the
/// implementer overrides `message` together with `spec_message`.
pub trait ApiError {
    /// The category tag of this failure.
    spec fn spec_error_type(&self) -> Seq<char>;

    /// The code of this failure.
    spec fn spec_code(&self) -> ErrorCode;

    /// The human-readable description of this failure.
    spec fn spec_description(&self) -> Seq<char>;

    /// The message that the response carries.
    open spec fn spec_message(&self) -> Seq<char> {
        self.spec_description()
    }

    /// The category tag of this failure.
    fn error_type(&self) -> (tag: String)
        ensures
            tag@ == self.spec_error_type(),
    ;

    /// The code of this failure.
    fn code(&self) -> (code: ErrorCode)
        ensures
            code == self.spec_code(),
    ;

    /// The human-readable description of this failure.
    fn description(&self) -> (text: String)
        ensures
            text@ == self.spec_description(),
    ;

    /// The message that the response carries.
    fn message(&self) -> (text: String)
        ensures
            text@ == self.spec_message(),
    ;
}

/// The response object that a failure is rendered as.
pub open spec fn envelope_of<T: ApiError>(t: &T) -> ErrorView {
    ErrorView {
        error_type: t.spec_error_type(),
        code: t.spec_code(),
        message: t.spec_message(),
    }
}

impl<T: ApiError> From<T> for Error {
    /// Renders any failure as a response object, asking it for its category,
    /// its code and its message, in that order.
    fn from(t: T) -> (envelope: Error)
        ensures
            envelope@ == envelope_of(&t),
    {
        Error { error_type: t.error_type(), code: t.code(), message: t.message() }
    }
}

/// What rendering returns is stated on `from` itself, over views: two
/// response objects are compared by what they hold, so no law over the
/// objects themselves is claimed here.
impl<T: ApiError> vstd::std_specs::convert::FromSpecImpl<T> for Error {
    open spec fn obeys_from_spec() -> bool {
        false
    }

    open spec fn from_spec(t: T) -> Error {
        arbitrary()
    }
}

/// Rendering is a function of the failure: two response objects made of one
/// failure hold the same category, the same code and the same message, which
/// is what `==` compares.
pub proof fn lemma_conversion_deterministic<T: ApiError>(t: T, first: Error, second: Error)
    requires
        call_ensures(<Error as From<T>>::from, (t,), first),
        call_ensures(<Error as From<T>>::from, (t,), second),
    ensures
        first@ == second@,
        first@ == envelope_of(&t),
{
}

impl Error {
    /// The response object of a failure of the persistence layer of which
    /// only a text is known.
    pub fn storage(err: &str) -> (envelope: Error)
        ensures
            envelope@ == (ErrorView {
                error_type: "storage_error"@,
                code: ErrorCode::StorageError,
                message: err@,
            }),
    {
        Error::from(StorageError::new(err))
    }

    /// The response object of a failed call to the core service of which
    /// only a text is known.
    pub fn core_api(err: &str) -> (envelope: Error)
        ensures
            envelope@ == (ErrorView {
                error_type: "core_api_error"@,
                code: ErrorCode::CoreApiError,
                message: err@,
            }),
    {
        Error::from(CoreApiError::new(err))
    }
}

} // verus!
