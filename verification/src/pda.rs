use vstd::prelude::*;

use crate::addr::Address;

verus! {

/// What the ledger's address derivation returns for a list of seed byte
/// strings and a program id: the derived 32-byte address and its
/// disambiguating bump byte, or nothing when no valid derivation exists.
/// The result is a function of the seeds and the program id alone.
pub uninterp spec fn derived_address(seeds: Seq<Seq<u8>>, program_id: Seq<u8>) -> Option<(Seq<u8>, u8)>;

/// The byte strings of a list of seed buffers.
pub open spec fn view_seeds(seeds: Seq<Vec<u8>>) -> Seq<Seq<u8>> {
    seeds.map_values(|v: Vec<u8>| v@)
}

/// Relies on solana_pubkey::Pubkey::try_find_program_address: it derives an
/// address and bump from the seed bytes and the program id alone, and returns
/// None instead of panicking when no bump yields a valid derivation or when
/// the seeds break its limits.
#[verifier::external_body]
fn find_derived_address(seeds: &Vec<Vec<u8>>, program_id: &Address) -> (r: Option<(Address, u8)>)
    requires
        program_id.wf(),
    ensures
        match r {
            Some(p) => derived_address(view_seeds(seeds@), program_id@) == Some((p.0@, p.1)) && p.0.wf(),
            None => derived_address(view_seeds(seeds@), program_id@) is None,
        },
{
    let mut slices: Vec<&[u8]> = Vec::new();
    for s in seeds.iter() {
        slices.push(s.as_slice());
    }
    let pid_bytes: [u8; 32] = program_id.as_bytes().as_slice().try_into().unwrap();
    let pid = solana_pubkey::Pubkey::new_from_array(pid_bytes);
    solana_pubkey::Pubkey::try_find_program_address(&slices, &pid).map(|(key, bump)| {
        (Address::new(key.to_bytes().to_vec()).unwrap(), bump)
    })
}

/// The fixed seed string that locates a mint's resolution table:
/// the bytes of "extra-account-metas".
pub open spec fn spec_table_seed() -> Seq<u8> {
    seq![
        101u8,
        120u8,
        116u8,
        114u8,
        97u8,
        45u8,
        97u8,
        99u8,
        99u8,
        111u8,
        117u8,
        110u8,
        116u8,
        45u8,
        109u8,
        101u8,
        116u8,
        97u8,
        115u8,
    ]
}

/// The fixed seed string of the stateless authority anchor:
/// the bytes of "mint-authority".
pub open spec fn spec_authority_seed() -> Seq<u8> {
    seq![
        109u8,
        105u8,
        110u8,
        116u8,
        45u8,
        97u8,
        117u8,
        116u8,
        104u8,
        111u8,
        114u8,
        105u8,
        116u8,
        121u8,
    ]
}

/// The seed list that locates the resolution table of a mint.
pub open spec fn spec_table_seeds(mint: Seq<u8>) -> Seq<Seq<u8>> {
    seq![spec_table_seed(), mint]
}

/// The seed list of the stateless authority anchor.
pub open spec fn spec_authority_seeds() -> Seq<Seq<u8>> {
    seq![spec_authority_seed()]
}

/// The table seed string, as a byte buffer.
pub fn table_seed() -> (r: Vec<u8>)
    ensures
        r@ == spec_table_seed(),
{
    let mut v: Vec<u8> = Vec::new();
    v.push(101);
    v.push(120);
    v.push(116);
    v.push(114);
    v.push(97);
    v.push(45);
    v.push(97);
    v.push(99);
    v.push(99);
    v.push(111);
    v.push(117);
    v.push(110);
    v.push(116);
    v.push(45);
    v.push(109);
    v.push(101);
    v.push(116);
    v.push(97);
    v.push(115);
    proof {
        assert(v@ =~= spec_table_seed());
    }
    v
}

/// The authority seed string, as a byte buffer.
pub fn authority_seed() -> (r: Vec<u8>)
    ensures
        r@ == spec_authority_seed(),
{
    let mut v: Vec<u8> = Vec::new();
    v.push(109);
    v.push(105);
    v.push(110);
    v.push(116);
    v.push(45);
    v.push(97);
    v.push(117);
    v.push(116);
    v.push(104);
    v.push(111);
    v.push(114);
    v.push(105);
    v.push(116);
    v.push(121);
    proof {
        assert(v@ =~= spec_authority_seed());
    }
    v
}

/// Derives the address that a mint's resolution table is stored at, from the
/// fixed table seed and the mint's address.
pub fn derive_table_address(mint: &Address, program_id: &Address) -> (r: Option<(Address, u8)>)
    requires
        program_id.wf(),
    ensures
        match r {
            Some(p) => derived_address(spec_table_seeds(mint@), program_id@) == Some((p.0@, p.1)) && p.0.wf(),
            None => derived_address(spec_table_seeds(mint@), program_id@) is None,
        },
{
    let mut seeds: Vec<Vec<u8>> = Vec::new();
    seeds.push(table_seed());
    seeds.push(mint.to_bytes_vec());
    proof {
        assert(view_seeds(seeds@) =~= spec_table_seeds(mint@));
    }
    find_derived_address(&seeds, program_id)
}

/// Derives the stateless authority address of the module itself, from the
/// fixed authority seed.
pub fn derive_authority_address(program_id: &Address) -> (r: Option<(Address, u8)>)
    requires
        program_id.wf(),
    ensures
        match r {
            Some(p) => derived_address(spec_authority_seeds(), program_id@) == Some((p.0@, p.1)) && p.0.wf(),
            None => derived_address(spec_authority_seeds(), program_id@) is None,
        },
{
    let mut seeds: Vec<Vec<u8>> = Vec::new();
    seeds.push(authority_seed());
    proof {
        assert(view_seeds(seeds@) =~= spec_authority_seeds());
    }
    find_derived_address(&seeds, program_id)
}

} // verus!
