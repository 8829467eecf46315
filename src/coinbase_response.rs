use vstd::prelude::*;

verus! {

/// A Coinbase price answer.
pub struct CoinbaseResponse {
    pub data: CoinbaseResponseData,
}

pub struct CoinbaseResponseData {
    pub amount: String,
    pub currency: String,
}

} // verus!
