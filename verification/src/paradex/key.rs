use vstd::prelude::*;

verus! {

/// The API key of Paradex.
#[derive(Debug, Clone)]
pub struct Key {
    pub secret_key: String,
    /// Whether the account trades through the professional API.
    pub pro: bool,
}

} // verus!
