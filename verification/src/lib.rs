//! Classification of API failures into a stable wire envelope.
//!
//! Every failure that reaches the API boundary is rendered as an [`Error`]:
//! a category tag, a permanent numeric code and a human-readable message.

pub mod adapters;
pub mod code;
pub mod envelope;
pub mod kinds;

pub use adapters::{PriceError, PriceErrorKind, SubmitError, SubmitErrorKind};
pub use code::ErrorCode;
pub use envelope::{ApiError, Error};
pub use kinds::{CoreApiError, InvalidDataError, StorageError, UnreachableError};
