//! The failures that this layer owns.

use crate::code::ErrorCode;
use crate::envelope::{envelope_of, ApiError};
use vstd::prelude::*;

verus! {

/// Whether `part` stands somewhere in `whole`, unbroken.
pub open spec fn occurs_in(part: Seq<char>, whole: Seq<char>) -> bool {
    exists|at: int|
        0 <= at && at + part.len() <= whole.len() && #[trigger] whole.subrange(
            at,
            at + part.len(),
        ) == part
}

/// A branch that should never be taken was taken.
#[derive(Debug)]
pub struct UnreachableError;

impl UnreachableError {
    /// The fixed text that asks for a bug report.
    pub open spec fn text() -> Seq<char> {
        "Unreachable error; you should never see this message, please contact us at https://github.com/matter-labs/zksync with a report"@
    }

    /// Where the text asks that reports be sent.
    pub open spec fn contact() -> Seq<char> {
        "https://github.com/matter-labs/zksync"@
    }

    /// However the value was come by, its response object is tagged
    /// `api_error`, has the code 0 and carries the fixed text, which names
    /// the place where reports are sent.
    pub proof fn lemma_envelope(failure: &UnreachableError)
        ensures
            envelope_of(failure).error_type == "api_error"@,
            envelope_of(failure).code.spec_value() == 0,
            envelope_of(failure).message == Self::text(),
            occurs_in(Self::contact(), envelope_of(failure).message),
    {
        reveal_strlit(
            "Unreachable error; you should never see this message, please contact us at https://github.com/matter-labs/zksync with a report",
        );
        reveal_strlit("https://github.com/matter-labs/zksync");
        let part = Self::contact();
        let at: int = 75;
        assert(Self::text().subrange(at, at + part.len()) =~= part);
    }
}

impl ApiError for UnreachableError {
    open spec fn spec_error_type(&self) -> Seq<char> {
        "api_error"@
    }

    open spec fn spec_code(&self) -> ErrorCode {
        ErrorCode::UnreacheableError
    }

    open spec fn spec_description(&self) -> Seq<char> {
        UnreachableError::text()
    }

    fn error_type(&self) -> (tag: String) {
        "api_error".to_owned()
    }

    fn code(&self) -> (code: ErrorCode) {
        ErrorCode::UnreacheableError
    }

    fn description(&self) -> (text: String) {
        "Unreachable error; you should never see this message, please contact us at https://github.com/matter-labs/zksync with a report".to_owned()
    }

    fn message(&self) -> (text: String) {
        self.description()
    }
}

/// A request that named or encoded something wrongly.
///
/// Every variant has a fixed text: nothing of the request is repeated in it.
#[derive(Clone, Copy, Debug, PartialEq, Eq, Structural)]
pub enum InvalidDataError {
    TokenZeroPriceError,
    InvalidBlockPosition,
    InvalidAccountIdOrAddress,
    AccountNotFound,
    InvalidCurrency,
    TransactionNotFound,
}

impl InvalidDataError {
    /// The code of each variant.
    pub open spec fn code_of(self) -> ErrorCode {
        match self {
            InvalidDataError::TokenZeroPriceError => ErrorCode::TokenZeroPriceError,
            InvalidDataError::InvalidBlockPosition => ErrorCode::InvalidBlockPosition,
            InvalidDataError::InvalidAccountIdOrAddress => ErrorCode::InvalidAccountIdOrAddress,
            InvalidDataError::AccountNotFound => ErrorCode::AccountNotFound,
            InvalidDataError::InvalidCurrency => ErrorCode::InvalidCurrency,
            InvalidDataError::TransactionNotFound => ErrorCode::TransactionNotFound,
        }
    }

    /// The fixed text of each variant.
    pub open spec fn text_of(self) -> Seq<char> {
        match self {
            InvalidDataError::TokenZeroPriceError => "Cannot show price in zero price token"@,
            InvalidDataError::InvalidBlockPosition => "Cannot parse block position. There are only block_number, last_committed, last_finalized options"@,
            InvalidDataError::InvalidAccountIdOrAddress => "Cannot parse account id or address"@,
            InvalidDataError::AccountNotFound => "Account is not found"@,
            InvalidDataError::InvalidCurrency => "Cannot parse currency. There are only token_id, usd options"@,
            InvalidDataError::TransactionNotFound => "Transaction is not found"@,
        }
    }

    /// Every variant has a code of its own, and all of them lie between 200
    /// and 205.
    pub proof fn lemma_codes_distinct(a: InvalidDataError, b: InvalidDataError)
        ensures
            200 <= a.code_of().spec_value() <= 205,
            a.code_of() == b.code_of() ==> a == b,
            a.code_of().spec_value() == b.code_of().spec_value() ==> a == b,
    {
    }

    /// Whatever the variant, the response object is tagged
    /// `invalid_data_error` and carries the code and the fixed text of the
    /// variant.
    pub proof fn lemma_envelope(failure: &InvalidDataError)
        ensures
            envelope_of(failure).error_type == "invalid_data_error"@,
            envelope_of(failure).code == failure.code_of(),
            envelope_of(failure).message == failure.text_of(),
    {
    }
}

impl ApiError for InvalidDataError {
    open spec fn spec_error_type(&self) -> Seq<char> {
        "invalid_data_error"@
    }

    open spec fn spec_code(&self) -> ErrorCode {
        self.code_of()
    }

    open spec fn spec_description(&self) -> Seq<char> {
        self.text_of()
    }

    fn error_type(&self) -> (tag: String) {
        "invalid_data_error".to_owned()
    }

    fn code(&self) -> (code: ErrorCode) {
        match self {
            Self::TokenZeroPriceError => ErrorCode::TokenZeroPriceError,
            Self::InvalidBlockPosition => ErrorCode::InvalidBlockPosition,
            Self::InvalidAccountIdOrAddress => ErrorCode::InvalidAccountIdOrAddress,
            Self::AccountNotFound => ErrorCode::AccountNotFound,
            Self::InvalidCurrency => ErrorCode::InvalidCurrency,
            Self::TransactionNotFound => ErrorCode::TransactionNotFound,
        }
    }

    fn description(&self) -> (text: String) {
        match self {
            Self::TokenZeroPriceError => "Cannot show price in zero price token".to_owned(),
            Self::InvalidBlockPosition => "Cannot parse block position. There are only block_number, last_committed, last_finalized options".to_owned(),
            Self::InvalidAccountIdOrAddress => "Cannot parse account id or address".to_owned(),
            Self::AccountNotFound => "Account is not found".to_owned(),
            Self::InvalidCurrency => "Cannot parse currency. There are only token_id, usd options".to_owned(),
            Self::TransactionNotFound => "Transaction is not found".to_owned(),
        }
    }

    fn message(&self) -> (text: String) {
        self.description()
    }
}

/// A failure of the persistence layer, known only by its text.
#[derive(Debug)]
pub struct StorageError(String);

impl View for StorageError {
    type V = Seq<char>;

    /// The text that the failure was made with.
    closed spec fn view(&self) -> Seq<char> {
        self.0@
    }
}

impl StorageError {
    /// A failure of the persistence layer with the given text.
    pub fn new(title: &str) -> (kind: Self)
        ensures
            kind@ == title@,
    {
        Self(title.to_owned())
    }
}

impl ApiError for StorageError {
    open spec fn spec_error_type(&self) -> Seq<char> {
        "storage_error"@
    }

    open spec fn spec_code(&self) -> ErrorCode {
        ErrorCode::StorageError
    }

    open spec fn spec_description(&self) -> Seq<char> {
        self@
    }

    fn error_type(&self) -> (tag: String) {
        "storage_error".to_owned()
    }

    fn code(&self) -> (code: ErrorCode) {
        ErrorCode::StorageError
    }

    fn description(&self) -> (text: String) {
        self.0.clone()
    }

    fn message(&self) -> (text: String) {
        self.description()
    }
}

/// A failure of a call to the core service, known only by its text.
#[derive(Debug)]
pub struct CoreApiError(String);

impl View for CoreApiError {
    type V = Seq<char>;

    /// The text that the failure was made with.
    closed spec fn view(&self) -> Seq<char> {
        self.0@
    }
}

impl CoreApiError {
    /// A failure of a call to the core service with the given text.
    pub fn new(title: &str) -> (kind: Self)
        ensures
            kind@ == title@,
    {
        Self(title.to_owned())
    }
}

impl ApiError for CoreApiError {
    open spec fn spec_error_type(&self) -> Seq<char> {
        "core_api_error"@
    }

    open spec fn spec_code(&self) -> ErrorCode {
        ErrorCode::CoreApiError
    }

    open spec fn spec_description(&self) -> Seq<char> {
        self@
    }

    fn error_type(&self) -> (tag: String) {
        "core_api_error".to_owned()
    }

    fn code(&self) -> (code: ErrorCode) {
        ErrorCode::CoreApiError
    }

    fn description(&self) -> (text: String) {
        self.0.clone()
    }

    fn message(&self) -> (text: String) {
        self.description()
    }
}

} // verus!
