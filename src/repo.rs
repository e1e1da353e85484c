//! Records of the odd-even game.

use vstd::prelude::*;

verus! {

#[derive(Clone, Debug, PartialEq, Eq)]
pub struct GameInfo {
    pub amount: u64,
    pub timestamp_nanos: u64,
    pub result: String,
    pub random_hex: String,
    pub hash: String,
}

} // verus!
