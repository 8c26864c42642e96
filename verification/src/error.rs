use vstd::prelude::*;

verus! {

/// Why an operation gave no bytes back.
#[derive(Debug, Clone, Copy, PartialEq, Eq)]
pub enum Error {
    /// The compression level is not one of 0 to 9. The codec was not called.
    InvalidArgument,
    /// The codec's forward transform ended with the status `code`, which is not zero.
    CompressionError { code: i32 },
    /// The codec's inverse transform ended with the status `code`, which is not zero.
    /// This is also what a too small expected length leads to.
    DecompressionError { code: i32 },
}

impl Error {
    /// The status that the codec reported, where the codec was the one to fail.
    pub open spec fn spec_code(self) -> Option<i32> {
        match self {
            Error::InvalidArgument => None,
            Error::CompressionError { code } => Some(code),
            Error::DecompressionError { code } => Some(code),
        }
    }

    /// The status that the codec reported, where the codec was the one to fail.
    #[verifier::when_used_as_spec(spec_code)]
    pub fn code(self) -> (code: Option<i32>)
        ensures
            code == self.spec_code(),
    {
        match self {
            Error::InvalidArgument => None,
            Error::CompressionError { code } => Some(code),
            Error::DecompressionError { code } => Some(code),
        }
    }
}

/// A result as contracts speak of it: the bytes by their view.
pub open spec fn bytes_of(result: Result<Vec<u8>, Error>) -> Result<Seq<u8>, Error> {
    match result {
        Ok(bytes) => Ok(bytes@),
        Err(error) => Err(error),
    }
}

} // verus!
