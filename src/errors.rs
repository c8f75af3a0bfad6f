use vstd::prelude::*;

verus! {

/// Why a block was refused.
#[derive(Debug, Clone, Copy, PartialEq, Eq, Structural)]
pub enum Failure {
    /// The block is already recorded
    Duplicate,
    /// The signature is invalid, or the key or signature bytes are malformed
    Signature,
    /// The block's parent is not the head of the owner's account
    Fork,
    /// The provided proof of work is invalid
    Work,
    /// The referenced send has already been received
    Received,
    /// A send must move a nonzero amount (kept for stricter rules)
    ZeroSend,
    /// A send may not leave more than the account holds
    OverSend,
    /// A block this block references is missing
    Missing,
    /// The block is structurally invalid, e.g. an open block whose source is not a send
    Invalid,
    /// An internal invariant does not hold; the ledger is corrupt
    Unreachable,
}

} // verus!
