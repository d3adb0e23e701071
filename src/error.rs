use vstd::prelude::*;

verus! {

/// Failures of frame decoding.
#[derive(Debug, Clone, Copy, PartialEq, Eq, Structural)]
pub enum Error {
    /// The header is shorter than 16 bytes, declares a header length other
    /// than 16, a total length below 16, or an unknown version or type code;
    /// or a header field does not fit its wire width when encoding.
    InvalidHeader,
    /// Fewer body bytes follow the header than its total length declares.
    IncompleteBody,
    /// The body of a compressed frame is not a valid zlib stream.
    DecompressionFailed,
    /// Endpoint discovery returned no host to connect to.
    NoServer,
}

pub type Result<T> = core::result::Result<T, Error>;

} // verus!
