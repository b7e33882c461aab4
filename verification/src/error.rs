//! Errors raised while decoding a request packet sent by the kernel driver.

use crate::text::{decimal, decimal_digits};
use vstd::prelude::*;
use vstd::string::StringExecFns;

verus! {

/// Size in bytes of the header that opens every kernel request.
pub const HEADER_SIZE: usize = 40;

/// Why a kernel request packet could not be decoded.
#[derive(Debug, Clone, Copy, PartialEq, Eq, Structural)]
pub enum RequestError {
    /// The buffer ends before the header does; holds the number of bytes seen.
    ShortReadHeader(usize),
    /// The header names an opcode that the protocol does not define.
    UnknownOperation(u32),
    /// The buffer holds fewer bytes than the header announces:
    /// bytes present, then bytes announced.
    ShortRead(usize, usize),
    /// The arguments of the operation do not fit in the announced packet.
    InsufficientData,
}

impl RequestError {
    /// The line that describes the error.
    pub open spec fn spec_message(self) -> Seq<char> {
        match self {
            RequestError::ShortReadHeader(len) => "Short read of FUSE request header ("@
                + decimal_digits(len as nat) + " < "@ + decimal_digits(HEADER_SIZE as nat) + ")"@,
            RequestError::UnknownOperation(opcode) => "Unknown FUSE opcode ("@ + decimal_digits(
                opcode as nat,
            ) + ")"@,
            RequestError::ShortRead(len, total) => "Short read of FUSE request ("@
                + decimal_digits(len as nat) + " < "@ + decimal_digits(total as nat) + ")"@,
            RequestError::InsufficientData => "Insufficient argument data"@,
        }
    }

    /// Describes the error in one line, with the sizes that it bears.
    pub fn message(&self) -> (text: String)
        ensures
            text@ == self.spec_message(),
    {
        match self {
            RequestError::ShortReadHeader(len) => {
                let mut text = String::from_str("Short read of FUSE request header (");
                text.append(decimal(*len as u64).as_str());
                text.append(" < ");
                text.append(decimal(HEADER_SIZE as u64).as_str());
                text.append(")");
                text
            },
            RequestError::UnknownOperation(opcode) => {
                let mut text = String::from_str("Unknown FUSE opcode (");
                text.append(decimal(*opcode as u64).as_str());
                text.append(")");
                text
            },
            RequestError::ShortRead(len, total) => {
                let mut text = String::from_str("Short read of FUSE request (");
                text.append(decimal(*len as u64).as_str());
                text.append(" < ");
                text.append(decimal(*total as u64).as_str());
                text.append(")");
                text
            },
            RequestError::InsufficientData => String::from_str("Insufficient argument data"),
        }
    }
}

} // verus!
