//! A client for the mints of a token-issuance protocol: the URLs of a mint's endpoints, the
//! classification of the error bodies that mints send, the keyset and secret values that pass
//! through it, and the split of an amount into power-of-two denominations.
use vstd::prelude::*;

pub mod amount;
pub mod client;
pub mod error;
pub mod keyset;
pub mod mint_url;
mod outside;
pub mod secret;
pub mod utils;

verus! {

} // verus!
