//! The address under which the program itself holds custody.
//!
//! It is derived from the program's identity and one fixed seed, so every
//! escrow of a program shares it. No key pair signs for it: the program signs
//! by presenting the seed and the bump seed found with the address.

use vstd::prelude::*;
use anchor_lang::prelude::Pubkey;
use crate::address::Address;
use crate::instruction::{SignerSeeds, ESCROW_SEED};

verus! {

/// What the derivation yields for one seed and a program's identity: the
/// derived address and its bump seed, or `None` where no bump seed gives an
/// address off the curve.
pub uninterp spec fn program_address(seed: Seq<u8>, program_id: Seq<u8>) -> Option<(Seq<u8>, u8)>;

/// Calls `Pubkey::try_find_program_address` with the single seed `seed`.
///
/// The search is a function of the seed and the program's identity alone; the
/// contract claims no more than that, by naming its result
/// [`program_address`].
#[verifier::external_body]
fn try_find_program_address(seed: &[u8], program_id: &Address) -> (found: Option<(Address, u8)>)
    ensures
        match found {
            Some((address, bump_seed)) => program_address(seed@, program_id@) == Some(
                (address@, bump_seed),
            ),
            None => program_address(seed@, program_id@) is None,
        },
{
    let id = Pubkey::new_from_array(program_id.bytes);
    Pubkey::try_find_program_address(&[seed], &id).map(
        |(key, bump_seed)| (Address { bytes: key.to_bytes() }, bump_seed),
    )
}

/// A derived address together with the bump seed that yields it.
#[derive(Clone, Copy, Debug, PartialEq, Eq)]
pub struct ProgramAuthority {
    /// The derived address.
    pub address: Address,
    /// The bump seed to sign with.
    pub bump_seed: u8,
}

impl ProgramAuthority {
    /// The seeds that sign for this authority.
    pub open spec fn seeds(self) -> SignerSeeds {
        SignerSeeds { seed: ESCROW_SEED, bump_seed: self.bump_seed }
    }

    /// The seeds to present when signing for this authority.
    pub fn signer_seeds(&self) -> (seeds: SignerSeeds)
        ensures
            seeds == self.seeds(),
    {
        SignerSeeds { seed: ESCROW_SEED, bump_seed: self.bump_seed }
    }
}

/// The authority of the program `program_id` over its custody accounts, if
/// one can be derived.
pub open spec fn escrow_authority(program_id: Address) -> Option<ProgramAuthority> {
    match program_address(ESCROW_SEED@, program_id@) {
        Some((bytes, bump_seed)) => Some(
            ProgramAuthority { address: Address::with_bytes(bytes), bump_seed },
        ),
        None => None,
    }
}

/// Derives the program's custody authority from the fixed seed and
/// `program_id`. Nothing is stored between calls: each use derives anew.
pub fn find_escrow_authority(program_id: &Address) -> (authority: Option<ProgramAuthority>)
    ensures
        authority == escrow_authority(*program_id),
{
    match try_find_program_address(ESCROW_SEED.as_slice(), program_id) {
        Some((address, bump_seed)) => {
            proof {
                Address::lemma_with_bytes(address);
            }
            Some(ProgramAuthority { address, bump_seed })
        },
        None => None,
    }
}

} // verus!
