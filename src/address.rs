//! Derivation of the storage account's address from its owner.

use vstd::prelude::*;

verus! {

/// What the host's program-address search yields for one seed and a program:
/// the address and the discriminator byte that produced it, or nothing when
/// no discriminator gives an address off the curve.
pub uninterp spec fn program_address_of(seed: Seq<u8>, program_id: Seq<u8>) -> Option<(Seq<u8>, u8)>;

/// A derived address together with the discriminator that authorises
/// signing on its behalf.
#[derive(Clone, Copy, Debug, PartialEq, Eq)]
pub struct DerivedAddress {
    pub address: [u8; 32],
    pub bump: u8,
}

/// Relies on `Pubkey::try_find_program_address`: the search is a hash of the
/// seeds and the program id alone, and it reports `None` instead of panicking.
#[verifier::external_body]
fn find_program_address(seed: &[u8; 32], program_id: &[u8; 32]) -> (r: Option<DerivedAddress>)
    ensures
        match program_address_of(seed@, program_id@) {
            Some((a, b)) => r matches Some(d) && d.address@ == a && d.bump == b,
            None => r is None,
        },
{
    let program = solana_program::pubkey::Pubkey::new_from_array(*program_id);
    solana_program::pubkey::Pubkey::try_find_program_address(&[&seed[..]], &program).map(
        |(a, b)| DerivedAddress { address: a.to_bytes(), bump: b },
    )
}

/// The address at which the storage account of `owner` lives under `program_id`.
pub open spec fn storage_address(owner: Seq<u8>, program_id: Seq<u8>) -> Option<(Seq<u8>, u8)> {
    program_address_of(owner, program_id)
}

/// Derives the storage account address of `owner` under `program_id`.
pub fn derive_storage_address(owner: &[u8; 32], program_id: &[u8; 32]) -> (r: Option<DerivedAddress>)
    ensures
        match storage_address(owner@, program_id@) {
            Some((a, b)) => r matches Some(d) && d.address@ == a && d.bump == b,
            None => r is None,
        },
{
    find_program_address(owner, program_id)
}

/// Whether two addresses hold the same bytes.
pub fn same_address(a: &[u8; 32], b: &[u8; 32]) -> (r: bool)
    ensures
        r == (a@ == b@),
{
    let mut i: usize = 0;
    while i < 32
        invariant
            0 <= i <= 32,
            a@.len() == 32,
            b@.len() == 32,
            forall|j: int| 0 <= j < i ==> a@[j] == b@[j],
        decreases 32 - i,
    {
        if a[i] != b[i] {
            return false;
        }
        i = i + 1;
    }
    assert(a@ =~= b@);
    true
}

} // verus!
