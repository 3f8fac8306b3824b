//! Classification of the failures of two collaborating subsystems:
//! transaction submission and fee pricing.
//!
//! Both subsystems own their failures. What this layer reads of one is which
//! of a closed set of kinds it is, and the text that describes it.

use crate::code::ErrorCode;
use crate::envelope::{envelope_of, ApiError};
use crate::kinds::StorageError;
use vstd::prelude::*;

verus! {

/// The kinds of failure that transaction submission reports.
#[derive(Clone, Copy, Debug, PartialEq, Eq, Structural)]
pub enum SubmitErrorKind {
    AccountCloseDisabled,
    InvalidParams,
    UnsupportedFastProcessing,
    IncorrectTx,
    TxAdd,
    InappropriateFeeToken,
    CommunicationCoreServer,
    Internal,
    Other,
}

impl SubmitErrorKind {
    /// The code of each kind.
    pub open spec fn code_of(self) -> ErrorCode {
        match self {
            SubmitErrorKind::AccountCloseDisabled => ErrorCode::AccountCloseDisabled,
            SubmitErrorKind::InvalidParams => ErrorCode::InvalidParams,
            SubmitErrorKind::UnsupportedFastProcessing => ErrorCode::UnsupportedFastProcessing,
            SubmitErrorKind::IncorrectTx => ErrorCode::IncorrectTx,
            SubmitErrorKind::TxAdd => ErrorCode::TxAddError,
            SubmitErrorKind::InappropriateFeeToken => ErrorCode::InappropriateFeeToken,
            SubmitErrorKind::CommunicationCoreServer => ErrorCode::CommunicationCoreServer,
            SubmitErrorKind::Internal => ErrorCode::InternalError,
            SubmitErrorKind::Other => ErrorCode::Other,
        }
    }

    /// Every kind has a code of its own: one of 600 to 607, or 60000.
    pub proof fn lemma_codes_distinct(a: SubmitErrorKind, b: SubmitErrorKind)
        ensures
            600 <= a.code_of().spec_value() <= 607 || a.code_of().spec_value() == 60_000,
            a.code_of() == b.code_of() ==> a == b,
            a.code_of().spec_value() == b.code_of().spec_value() ==> a == b,
    {
    }
}

/// A failure of transaction submission, as its owner describes it.
#[derive(Debug)]
pub struct SubmitError {
    pub kind: SubmitErrorKind,
    pub description: String,
}

impl SubmitError {
    /// A failure of the given kind with the text that its owner gives it.
    pub fn new(kind: SubmitErrorKind, description: &str) -> (failure: Self)
        ensures
            failure.kind == kind,
            failure.description@ == description@,
    {
        SubmitError { kind, description: description.to_owned() }
    }

    /// Whatever the kind and the text, the response object is tagged
    /// `submit_error`, a tag that is not empty, carries the code of the kind
    /// and repeats the text.
    pub proof fn lemma_envelope(failure: &SubmitError)
        ensures
            envelope_of(failure).error_type == "submit_error"@,
            envelope_of(failure).error_type.len() > 0,
            envelope_of(failure).code == failure.kind.code_of(),
            envelope_of(failure).message == failure.description@,
    {
        reveal_strlit("submit_error");
    }
}

impl ApiError for SubmitError {
    open spec fn spec_error_type(&self) -> Seq<char> {
        "submit_error"@
    }

    open spec fn spec_code(&self) -> ErrorCode {
        self.kind.code_of()
    }

    open spec fn spec_description(&self) -> Seq<char> {
        self.description@
    }

    fn error_type(&self) -> (tag: String) {
        "submit_error".to_owned()
    }

    fn code(&self) -> (code: ErrorCode) {
        match self.kind {
            SubmitErrorKind::AccountCloseDisabled => ErrorCode::AccountCloseDisabled,
            SubmitErrorKind::InvalidParams => ErrorCode::InvalidParams,
            SubmitErrorKind::UnsupportedFastProcessing => ErrorCode::UnsupportedFastProcessing,
            SubmitErrorKind::IncorrectTx => ErrorCode::IncorrectTx,
            SubmitErrorKind::TxAdd => ErrorCode::TxAddError,
            SubmitErrorKind::InappropriateFeeToken => ErrorCode::InappropriateFeeToken,
            SubmitErrorKind::CommunicationCoreServer => ErrorCode::CommunicationCoreServer,
            SubmitErrorKind::Internal => ErrorCode::InternalError,
            SubmitErrorKind::Other => ErrorCode::Other,
        }
    }

    fn description(&self) -> (text: String) {
        self.description.clone()
    }

    fn message(&self) -> (text: String) {
        self.description()
    }
}

/// The kinds of failure that fee pricing reports.
#[derive(Clone, Copy, Debug, PartialEq, Eq, Structural)]
pub enum PriceErrorKind {
    TokenNotFound,
    ApiError,
    DBError,
}

impl PriceErrorKind {
    /// The code of each kind.
    pub open spec fn code_of(self) -> ErrorCode {
        match self {
            PriceErrorKind::TokenNotFound => ErrorCode::TokenNotFound,
            PriceErrorKind::ApiError => ErrorCode::ExternalApiError,
            PriceErrorKind::DBError => ErrorCode::StorageError,
        }
    }

    /// Every kind has a code of its own: 500, 501 and 300.
    pub proof fn lemma_codes_distinct(a: PriceErrorKind, b: PriceErrorKind)
        ensures
            a.code_of().spec_value() == 500 || a.code_of().spec_value() == 501
                || a.code_of().spec_value() == 300,
            a.code_of() == b.code_of() ==> a == b,
    {
    }
}

/// A failure of fee pricing, as its owner describes it.
#[derive(Debug)]
pub struct PriceError {
    pub kind: PriceErrorKind,
    pub description: String,
}

impl PriceError {
    /// A failure of the given kind with the text that its owner gives it.
    pub fn new(kind: PriceErrorKind, description: &str) -> (failure: Self)
        ensures
            failure.kind == kind,
            failure.description@ == description@,
    {
        PriceError { kind, description: description.to_owned() }
    }

    /// Whatever the kind and the text, the response object is tagged
    /// `token_error`, carries the code of the kind and repeats the text.
    pub proof fn lemma_envelope(failure: &PriceError)
        ensures
            envelope_of(failure).error_type == "token_error"@,
            envelope_of(failure).code == failure.kind.code_of(),
            envelope_of(failure).message == failure.description@,
    {
    }

    /// A failure of the database under fee pricing has the code of a failure
    /// of the persistence layer: the two mean the same.
    pub proof fn lemma_database_failure_shares_code(failure: &PriceError, storage: &StorageError)
        requires
            failure.kind == PriceErrorKind::DBError,
        ensures
            envelope_of(failure).code == envelope_of(storage).code,
            envelope_of(failure).code.spec_value() == 300,
    {
    }
}

impl ApiError for PriceError {
    open spec fn spec_error_type(&self) -> Seq<char> {
        "token_error"@
    }

    open spec fn spec_code(&self) -> ErrorCode {
        self.kind.code_of()
    }

    open spec fn spec_description(&self) -> Seq<char> {
        self.description@
    }

    fn error_type(&self) -> (tag: String) {
        "token_error".to_owned()
    }

    fn code(&self) -> (code: ErrorCode) {
        match self.kind {
            PriceErrorKind::TokenNotFound => ErrorCode::TokenNotFound,
            PriceErrorKind::ApiError => ErrorCode::ExternalApiError,
            PriceErrorKind::DBError => ErrorCode::StorageError,
        }
    }

    fn description(&self) -> (text: String) {
        self.description.clone()
    }

    fn message(&self) -> (text: String) {
        self.description()
    }
}

} // verus!
