use vstd::prelude::*;

use crate::codec::spec_identity_bytes;
use crate::codec::spec_identity_from;
use crate::codec::identity_from_bytes;
use crate::codec::identity_to_bytes;
use crate::errors::ErrorCode;
use crate::identity::Identity;

verus! {

/// The fixed domain-separation seed, the ASCII bytes of "escrow".
pub open spec fn escrow_seed() -> Seq<u8> {
    seq![101u8, 115u8, 99u8, 114u8, 111u8, 119u8]
}

/// The control identity and bump discriminator that the ledger derives from
/// a seed and a program identity. The derivation is a pure function of its
/// two arguments; `None` means the discriminator space was exhausted.
pub uninterp spec fn derived_authority(seed: Seq<u8>, program: Seq<u8>) -> Option<(Seq<u8>, u8)>;

/// Relies on solana_program's `Pubkey::try_find_program_address`: the
/// returned address and bump discriminator depend on the seeds and the
/// program identity alone, the address is 32 bytes, and `None` comes back
/// exactly when no bump discriminator yields a valid derived address.
#[verifier::external_body]
fn try_find_program_address(seed: &Vec<u8>, program_id: &Vec<u8>) -> (r: Option<(Vec<u8>, u8)>)
    requires
        program_id@.len() == 32,
    ensures
        match r {
            Some(p) => derived_authority(seed@, program_id@) == Some((p.0@, p.1)) && p.0@.len() == 32,
            None => derived_authority(seed@, program_id@) is None,
        },
{
    let pk = solana_program::pubkey::Pubkey::try_from(program_id.as_slice()).ok()?;
    let (addr, bump) =
        solana_program::pubkey::Pubkey::try_find_program_address(&[seed.as_slice()], &pk)?;
    Some((addr.to_bytes().to_vec(), bump))
}

/// The derived control identity for the escrow seed, as an `Identity`.
pub open spec fn spec_derived_identity(program: Identity) -> Option<Identity> {
    match derived_authority(escrow_seed(), spec_identity_bytes(program)) {
        Some(d) => Some(spec_identity_from(d.0)),
        None => None,
    }
}

/// Derives the escrow's control identity from the fixed seed and the
/// program's own identity. Both `initialize` and `exchange` call this, so
/// the two derivations agree bit for bit. `DerivationExhausted` is returned
/// exactly when the discriminator space is exhausted.
pub fn derive_escrow_authority(program_id: &Identity) -> (r: Result<(Identity, u8), ErrorCode>)
    ensures
        match spec_derived_identity(*program_id) {
            Some(id) => {
                &&& r is Ok
                &&& r->Ok_0.0 == id
                &&& Some((spec_identity_bytes(id), r->Ok_0.1))
                    == derived_authority(escrow_seed(), spec_identity_bytes(*program_id))
            },
            None => r == Err::<(Identity, u8), ErrorCode>(ErrorCode::DerivationExhausted),
        },
{
    let seed: Vec<u8> = vec![101u8, 115u8, 99u8, 114u8, 111u8, 119u8];
    proof {
        assert(seed@ =~= escrow_seed());
    }
    let program_bytes = identity_to_bytes(program_id);
    match try_find_program_address(&seed, &program_bytes) {
        Some(p) => {
            let id = identity_from_bytes(p.0.as_slice(), 0);
            proof {
                assert(p.0@.subrange(0, 32) =~= p.0@);
                crate::codec::lemma_identity_bytes_exact(p.0@);
            }
            Ok((id, p.1))
        },
        None => Err(ErrorCode::DerivationExhausted),
    }
}

} // verus!
