//! What the host ledger holds beside a record's data.

use vstd::prelude::*;
use crate::address::Address;

verus! {

/// A record as the host ledger holds it: its address, its balance and its data.
#[derive(Clone, Debug, PartialEq, Eq)]
pub struct Account<T> {
    pub key: Address,
    pub lamports: u64,
    pub data: T,
}

/// The wallet of the party that signed the request.
#[derive(Clone, Copy, Debug, PartialEq, Eq)]
pub struct Signer {
    pub key: Address,
    pub lamports: u64,
}

} // verus!
