use vstd::prelude::*;

verus! {

/// Every way a request can fail.
#[derive(Debug, Clone, Copy, PartialEq, Eq, Structural)]
pub enum Error {
    /// The HTTP client could not complete the exchange.
    Transport,
    /// The store answered with a status outside 2xx.
    StatusCode(u16),
    /// The source bytes could not be decoded.
    ImageDecode,
    /// The transformed image could not be encoded.
    ImageEncode,
    /// A header, body or URL had unexpected content.
    ParseError,
    /// The client configuration is invalid.
    Configuration,
}

pub type CrateResult<T> = Result<T, Error>;

} // verus!
