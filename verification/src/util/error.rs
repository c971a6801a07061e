use vstd::prelude::*;

verus! {

/// Errors of exchange operations.
#[derive(Debug, Clone, PartialEq, Eq)]
pub enum ExchangeError {
    /// The order, symbol or record asked for was not found.
    OrderNotFound,
    /// The request was refused before it was sent.
    Forbidden(String),
    /// The exchange answered with an error.
    Api(String),
    /// The exchange answered with something else than expected.
    UnexpectedResponseType(String),
    /// Any other failure.
    Other(String),
}

} // verus!
