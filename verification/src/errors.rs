use vstd::prelude::*;

verus! {

/// Why a transition was refused. Every transition checks its guards eagerly
/// and the first failing guard aborts the whole call with no mutation.
#[derive(Clone, Copy, Debug, PartialEq, Eq, Structural)]
pub enum ErrorCode {
    /// A transfer or mint amount was not positive.
    InvalidAmount,
    /// A caller or a holding's owner does not match the expected identity.
    OwnerMismatch,
    /// A referenced holding's token type differs from the governed mint.
    MintMismatch,
    /// The epoch gate was not satisfied: the participant already claimed at
    /// the current epoch value.
    AlreadyClaimedToday,
    /// The computed claim amount, capped by the remaining supply, is zero.
    EmissionExhausted,
    /// The reconstructed authority nonce disagrees with the stored value, or
    /// no viable nonce exists for the seed combination.
    DerivationMismatch,
}

} // verus!
