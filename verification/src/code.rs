//! The closed registry of numeric failure codes.

use vstd::prelude::*;

verus! {

/// A permanent identifier of one failure meaning.
///
/// The number bound to each meaning is given by [`ErrorCode::value`]; it is
/// part of the public contract and never changes.
#[derive(Clone, Copy, Debug, PartialEq, Eq, Structural)]
pub enum ErrorCode {
    UnreacheableError,
    CoreApiError,
    TokenZeroPriceError,
    InvalidCurrency,
    InvalidBlockPosition,
    InvalidAccountIdOrAddress,
    AccountNotFound,
    TransactionNotFound,
    StorageError,
    TokenNotFound,
    ExternalApiError,
    InternalError,
    AccountCloseDisabled,
    InvalidParams,
    UnsupportedFastProcessing,
    IncorrectTx,
    TxAddError,
    InappropriateFeeToken,
    CommunicationCoreServer,
    Other,
}

impl ErrorCode {
    /// The number that stands for this code on the wire.
    pub open spec fn spec_value(self) -> u16 {
        match self {
            ErrorCode::UnreacheableError => 0,
            ErrorCode::CoreApiError => 100,
            ErrorCode::TokenZeroPriceError => 200,
            ErrorCode::InvalidCurrency => 201,
            ErrorCode::InvalidBlockPosition => 202,
            ErrorCode::InvalidAccountIdOrAddress => 203,
            ErrorCode::AccountNotFound => 204,
            ErrorCode::TransactionNotFound => 205,
            ErrorCode::StorageError => 300,
            ErrorCode::TokenNotFound => 500,
            ErrorCode::ExternalApiError => 501,
            ErrorCode::InternalError => 600,
            ErrorCode::AccountCloseDisabled => 601,
            ErrorCode::InvalidParams => 602,
            ErrorCode::UnsupportedFastProcessing => 603,
            ErrorCode::IncorrectTx => 604,
            ErrorCode::TxAddError => 605,
            ErrorCode::InappropriateFeeToken => 606,
            ErrorCode::CommunicationCoreServer => 607,
            ErrorCode::Other => 60_000,
        }
    }

    /// Whether `n` is the number of some code of the registry.
    pub open spec fn is_assigned(n: u16) -> bool {
        exists|c: ErrorCode| c.spec_value() == n
    }

    /// The number that stands for this code on the wire.
    pub fn value(self) -> (n: u16)
        ensures
            n == self.spec_value(),
    {
        match self {
            ErrorCode::UnreacheableError => 0,
            ErrorCode::CoreApiError => 100,
            ErrorCode::TokenZeroPriceError => 200,
            ErrorCode::InvalidCurrency => 201,
            ErrorCode::InvalidBlockPosition => 202,
            ErrorCode::InvalidAccountIdOrAddress => 203,
            ErrorCode::AccountNotFound => 204,
            ErrorCode::TransactionNotFound => 205,
            ErrorCode::StorageError => 300,
            ErrorCode::TokenNotFound => 500,
            ErrorCode::ExternalApiError => 501,
            ErrorCode::InternalError => 600,
            ErrorCode::AccountCloseDisabled => 601,
            ErrorCode::InvalidParams => 602,
            ErrorCode::UnsupportedFastProcessing => 603,
            ErrorCode::IncorrectTx => 604,
            ErrorCode::TxAddError => 605,
            ErrorCode::InappropriateFeeToken => 606,
            ErrorCode::CommunicationCoreServer => 607,
            ErrorCode::Other => 60_000,
        }
    }

    /// The code that a number read from the wire stands for: `None` for a
    /// number that the registry has not assigned.
    pub fn from_value(n: u16) -> (code: Option<ErrorCode>)
        ensures
            code.is_some() <==> ErrorCode::is_assigned(n),
            code.is_some() ==> code.unwrap().spec_value() == n,
    {
        let code = match n {
            0 => Some(ErrorCode::UnreacheableError),
            100 => Some(ErrorCode::CoreApiError),
            200 => Some(ErrorCode::TokenZeroPriceError),
            201 => Some(ErrorCode::InvalidCurrency),
            202 => Some(ErrorCode::InvalidBlockPosition),
            203 => Some(ErrorCode::InvalidAccountIdOrAddress),
            204 => Some(ErrorCode::AccountNotFound),
            205 => Some(ErrorCode::TransactionNotFound),
            300 => Some(ErrorCode::StorageError),
            500 => Some(ErrorCode::TokenNotFound),
            501 => Some(ErrorCode::ExternalApiError),
            600 => Some(ErrorCode::InternalError),
            601 => Some(ErrorCode::AccountCloseDisabled),
            602 => Some(ErrorCode::InvalidParams),
            603 => Some(ErrorCode::UnsupportedFastProcessing),
            604 => Some(ErrorCode::IncorrectTx),
            605 => Some(ErrorCode::TxAddError),
            606 => Some(ErrorCode::InappropriateFeeToken),
            607 => Some(ErrorCode::CommunicationCoreServer),
            60_000 => Some(ErrorCode::Other),
            _ => None,
        };
        proof {
            if let Some(c) = code {
                assert(c.spec_value() == n);
            }
        }
        code
    }

    /// No two codes of the registry share a number.
    pub proof fn lemma_value_injective(a: ErrorCode, b: ErrorCode)
        requires
            a.spec_value() == b.spec_value(),
        ensures
            a == b,
    {
    }

    /// Reading the number of a code back gives that code.
    pub proof fn lemma_from_value_inverts_value(c: ErrorCode, read: Option<ErrorCode>)
        requires
            call_ensures(ErrorCode::from_value, (c.spec_value(),), read),
        ensures
            read == Some(c),
    {
        assert(ErrorCode::is_assigned(c.spec_value()));
    }

    /// Every number of the registry lies in one of the reserved bands: 0,
    /// 100, 200 to 205, 300, 500 to 501, 600 to 607, or 60000.
    pub proof fn lemma_value_in_band(c: ErrorCode)
        ensures
            c.spec_value() == 0 || c.spec_value() == 100 || 200 <= c.spec_value() <= 205
                || c.spec_value() == 300 || 500 <= c.spec_value() <= 501 || 600
                <= c.spec_value() <= 607 || c.spec_value() == 60_000,
    {
    }
}

} // verus!
