use vstd::prelude::*;

use crate::addr::Address;

verus! {

/// This escrow program's own identity on the ledger; every custody
/// authority is derived under it.
pub const PROGRAM_ID: [u8; 32] = [
    26, 51, 34, 255, 64, 37, 133, 39, 211, 92, 244, 7, 67, 177, 65, 175,
    106, 78, 188, 191, 129, 218, 152, 201, 13, 190, 107, 36, 49, 242, 77, 97,
];

/// What the ledger's program-address search returns for the custody
/// authority of a (guest, apartment) pair: the derived address together
/// with the bump disambiguator that completes its signing seeds, or
/// nothing in the statistically negligible case that no bump yields a
/// valid derived address. The result depends on the pair alone.
pub uninterp spec fn custody_key_of(guest: Seq<u8>, apartment_id: u64) -> Option<(Seq<u8>, u8)>;

/// Relies on Pubkey::try_find_program_address (anchor_lang's re-export of
/// the ledger's program-derived-address search): deterministic in the
/// seeds and the program id, it returns the derived address for the
/// highest bump that yields a valid one, or None if no bump does.
#[verifier::external_body]
fn find_custody_key(guest: &Address, apartment_id: u64) -> (r: Option<(Address, u8)>)
    ensures
        r is Some <==> custody_key_of(guest@, apartment_id) is Some,
        r is Some ==> (r.unwrap().0@, r.unwrap().1) == custody_key_of(guest@, apartment_id).unwrap(),
{
    let program_id = anchor_lang::prelude::Pubkey::new_from_array(PROGRAM_ID);
    let apartment_bytes = apartment_id.to_le_bytes();
    let seeds: [&[u8]; 3] = [b"escrow", &guest.bytes, &apartment_bytes];
    match anchor_lang::prelude::Pubkey::try_find_program_address(&seeds, &program_id) {
        Some((address, bump)) => Some((Address { bytes: address.to_bytes() }, bump)),
        None => None,
    }
}

/// Derive the custody authority for a (guest, apartment) pair: the
/// address that owns the custody funds, and the bump that lets the escrow
/// logic sign as that address without any stored key.
pub fn derive_authority(guest: &Address, apartment_id: u64) -> (r: Option<(Address, u8)>)
    ensures
        r is Some <==> custody_key_of(guest@, apartment_id) is Some,
        r is Some ==> (r.unwrap().0@, r.unwrap().1) == custody_key_of(guest@, apartment_id).unwrap(),
{
    find_custody_key(guest, apartment_id)
}

/// Law (authority re-derivation): deriving the custody authority for the
/// same (guest, apartment) pair at release time yields exactly the
/// address and bump chosen at creation time.
pub proof fn lemma_authority_rederivation(guest_at_create: Seq<u8>, guest_at_release: Seq<u8>, apartment_id: u64)
    requires
        guest_at_create == guest_at_release,
    ensures
        custody_key_of(guest_at_create, apartment_id) == custody_key_of(guest_at_release, apartment_id),
{
}

} // verus!
