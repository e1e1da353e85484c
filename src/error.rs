//! Errors of building and signing a transaction.

use vstd::prelude::*;

verus! {

#[derive(Clone, Copy, Debug, PartialEq, Eq, Structural)]
pub enum WalletError {
    /// The available outputs cannot cover the amount and the fee.
    /// `available` is the value of all of them, `required` the amount plus the fee.
    InsufficientFunds { available: u128, required: u128 },
    /// The source address is not a single-key legacy (P2PKH) address.
    UnsupportedAddressKind,
    /// The external signing service failed.
    SignerUnavailable,
    /// A signature could not be parsed or encoded.
    InvalidSignature,
    /// A signature or public key is too long for a single direct push.
    PushTooLarge,
    /// The fee did not reach a fixed point within the allowed rounds.
    FeeConvergenceFailed,
}

} // verus!
