//! The program's identity and the derivation of storage addresses.

use vstd::prelude::*;
use anchor_lang::prelude::Pubkey;

verus! {

/// A 32-byte public key. It names a principal (an owner, a signer), a program
/// or a storage address.
pub type Key = [u8; 32];

/// The address of this program on the ledger, fixed at deployment.
pub const ID: Key = [
    11, 182, 218, 230, 194, 151, 236, 116, 222, 46, 9, 27, 198, 107, 154, 141,
    60, 173, 232, 108, 166, 188, 228, 207, 27, 109, 67, 7, 201, 119, 116, 38,
];

/// The tag that separates the addresses of user records from every other
/// address of the program: the ASCII bytes of `user`.
pub const USER_SEED: [u8; 4] = [117, 115, 101, 114];

/// What the runtime's address derivation gives for a list of seeds and a
/// program: the derived address with its bump seed, or `None` where no bump
/// seed gives an address. It is a function of its arguments alone.
pub uninterp spec fn program_address(seeds: Seq<Seq<u8>>, program_id: Seq<u8>) -> Option<(Key, u8)>;

/// Calls `Pubkey::try_find_program_address` on the two seeds `first` and
/// `second`, in this order, and on `program_id`. The `Pubkey` is that of
/// `anchor_lang::prelude`, which comes from the crate `solana-pubkey`.
///
/// Trusted, not proved: the call returns, and what it returns depends on
/// the seeds and the program alone. It is the value that
/// [`program_address`] names, with the address given as its 32 bytes.
/// Nothing is claimed of which address that is.
#[verifier::external_body]
fn try_find_program_address(first: &[u8], second: &[u8], program_id: &Key) -> (found: Option<
    (Key, u8),
>)
    ensures
        found == program_address(seq![first@, second@], program_id@),
{
    match Pubkey::try_find_program_address(&[first, second], &Pubkey::new_from_array(*program_id)) {
        Some((address, bump)) => Some((address.to_bytes(), bump)),
        None => None,
    }
}

/// The storage address of the record of `owner`, with its bump seed: the
/// derivation applied to the tag and the owner's key, in this order, under
/// this program.
pub open spec fn user_address_of(owner: Key) -> Option<(Key, u8)> {
    program_address(seq![USER_SEED@, owner@], ID@)
}

/// The address part of [`user_address_of`].
pub open spec fn record_address_of(owner: Key) -> Option<Key> {
    match user_address_of(owner) {
        Some((address, _)) => Some(address),
        None => None,
    }
}

/// Derives the storage address of the record of `owner`.
///
/// Returns `None` in the improbable case that the derivation finds no
/// address for this owner.
pub fn user_address(owner: &Key) -> (found: Option<(Key, u8)>)
    ensures
        found == user_address_of(*owner),
{
    try_find_program_address(USER_SEED.as_slice(), owner.as_slice(), &ID)
}

/// Whether two keys are the same key.
pub fn keys_equal(a: &Key, b: &Key) -> (same: bool)
    ensures
        same == (*a == *b),
{
    let mut i: usize = 0;
    while i < 32
        invariant
            i <= 32,
            forall|j: int| 0 <= j < i ==> a[j] == b[j],
        decreases 32 - i,
    {
        if a[i] != b[i] {
            return false;
        }
        i += 1;
    }
    assert(*a =~= *b);
    true
}

/// The derived address depends on the owner's key and on nothing else: the
/// same owner is always given the same address and bump seed, so owners whose
/// addresses differ are different owners.
pub proof fn derivation_is_deterministic(a: Key, b: Key)
    ensures
        a@ == b@ ==> user_address_of(a) == user_address_of(b),
        record_address_of(a) != record_address_of(b) ==> a != b,
{
}

} // verus!
