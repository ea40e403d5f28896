//! The error conditions a decode call can surface.
//!
//! Every error is fatal to the single decode call: the first failure aborts
//! immediately and is returned to the caller; nothing is retried.

use vstd::prelude::*;
use vstd::string::StringExecFns;

verus! {

/// A distinct, named failure condition of one decode call.
#[derive(Clone, Copy, Debug, PartialEq, Eq, Structural)]
pub enum HcaError {
    /// The input buffer is too small, the header is garbled, or the reported
    /// header length is out of sane bounds.
    InvalidInput,
    /// The header parsed syntactically but the decoder rejects its contents.
    UnsupportedHeader,
    /// Stream info could not be derived after a successful header parse.
    InfoExtractionFailed,
    /// Fewer blocks are available than required to reach the declared sample
    /// target: the stream is truncated.
    UnexpectedEof,
    /// A specific block failed to decode; carries the 1-based block number
    /// and the decoder's status code.
    BlockDecodeError(u32, i32),
    /// Failure while writing or finalizing the output container.
    ContainerWriteError,
}

impl HcaError {
    /// The diagnostic text of each error kind.
    pub open spec fn spec_message(self) -> Seq<char> {
        match self {
            HcaError::InvalidInput => "Invalid HCA data"@,
            HcaError::UnsupportedHeader => "Unsupported HCA header"@,
            HcaError::InfoExtractionFailed => "Failed to extract HCA header info"@,
            HcaError::UnexpectedEof => "Unable to fully decode HCA: Unexpected EOF"@,
            HcaError::BlockDecodeError(_, _) => "Failed to decode HCA block"@,
            HcaError::ContainerWriteError => "Failed to write WAV container"@,
        }
    }

    /// A human-readable diagnostic for this error. The structured details —
    /// the failing block's 1-based number and the decoder's status — stay
    /// on the `BlockDecodeError` variant itself.
    pub fn message(&self) -> (r: String)
        ensures
            r@ == self.spec_message(),
    {
        match self {
            HcaError::InvalidInput => String::from_str("Invalid HCA data"),
            HcaError::UnsupportedHeader => String::from_str("Unsupported HCA header"),
            HcaError::InfoExtractionFailed => String::from_str("Failed to extract HCA header info"),
            HcaError::UnexpectedEof => String::from_str("Unable to fully decode HCA: Unexpected EOF"),
            HcaError::BlockDecodeError(_, _) => String::from_str("Failed to decode HCA block"),
            HcaError::ContainerWriteError => String::from_str("Failed to write WAV container"),
        }
    }
}

} // verus!
