use vstd::prelude::*;

use crate::identity::AccountId;

verus! {

/// The address and nonce that the runtime's authority derivation yields for
/// a program identity, a seed label, and an optional entity key; `None` in
/// the statistically improbable event that no viable nonce exists for the
/// combination. The result is a function of the three inputs alone: the same
/// inputs always yield the same output, on every machine.
pub uninterp spec fn derived_of(
    program: AccountId,
    label: Seq<char>,
    entity: Option<AccountId>,
) -> Option<(AccountId, u8)>;

/// The entity key as the derivation sees it.
pub open spec fn entity_key(entity: Option<&AccountId>) -> Option<AccountId> {
    match entity {
        Some(e) => Some(*e),
        None => None,
    }
}

/// Relies on `Pubkey::try_find_program_address` of anchor-lang: a
/// deterministic, key-less search for a program-derived address and its
/// nonce from the seed slices and the program identity; it returns `None`
/// rather than panicking when no viable nonce exists.
#[verifier::external_body]
pub(crate) fn try_derive(
    program: &AccountId,
    label: &str,
    entity: Option<&AccountId>,
) -> (r: Option<(AccountId, u8)>)
    ensures
        r == derived_of(*program, label@, entity_key(entity)),
{
    let pk = anchor_lang::prelude::Pubkey::new_from_array(program.bytes);
    let found = match entity {
        Some(e) => anchor_lang::prelude::Pubkey::try_find_program_address(
            &[label.as_bytes(), &e.bytes],
            &pk,
        ),
        None => anchor_lang::prelude::Pubkey::try_find_program_address(&[label.as_bytes()], &pk),
    };
    found.map(|(key, nonce)| (AccountId { bytes: key.to_bytes() }, nonce))
}

} // verus!
