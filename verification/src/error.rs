//! The error type of the library.

use crate::cbor::CborError;
use crate::wire::keymint::ErrorCode;
use vstd::prelude::*;

verus! {

/// Failure of an operation of the trusted application.
#[derive(Clone, Copy, Debug, PartialEq, Eq, Structural)]
pub enum Error {
    /// A structure could not be read from, or written to, CBOR.
    Cbor(CborError),
    /// The operation failed with a code of the KeyMint interface.
    Hal(ErrorCode),
}

impl Error {
    /// The code that the host sees for this error: the code itself where the
    /// error carries one, `InvalidArgument` for a CBOR failure.
    pub open spec fn code(self) -> ErrorCode {
        match self {
            Error::Cbor(_) => ErrorCode::InvalidArgument,
            Error::Hal(code) => code,
        }
    }

    /// The code that the host sees for this error.
    pub fn error_code(self) -> (r: ErrorCode)
        ensures
            r == self.code(),
    {
        match self {
            Error::Cbor(_) => ErrorCode::InvalidArgument,
            Error::Hal(code) => code,
        }
    }
}

/// A result with the bytes it holds on success replaced by their sequence.
pub open spec fn bytes_result(r: Result<Vec<u8>, Error>) -> Result<Seq<u8>, Error> {
    match r {
        Ok(v) => Ok(v@),
        Err(e) => Err(e),
    }
}

} // verus!
