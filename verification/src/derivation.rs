use vstd::prelude::*;

verus! {

/// The address and disambiguation byte that the host's program-derived-address
/// search returns for three seeds under a program identity, or `None` when no
/// disambiguation byte among those it tries — 255 down to 1 — puts the
/// address off the signing curve. The search hashes its inputs and nothing
/// else, so the result is a function of the seeds and the program identity
/// alone.
pub uninterp spec fn pda_of(seed0: Seq<u8>, seed1: Seq<u8>, seed2: Seq<u8>, program: Seq<u8>) -> Option<(Seq<u8>, u8)>;

/// The fixed domain-separation tag that namespaces every escrow derivation:
/// the bytes of "escrow".
pub open spec fn escrow_tag() -> Seq<u8> {
    seq![101u8, 115u8, 99u8, 114u8, 111u8, 119u8]
}

/// The escrow custody identity for an asset and seller under a program: the
/// program-derived address of (tag, asset identity, seller identity).
pub open spec fn escrow_derivation(program: Seq<u8>, mint: Seq<u8>, seller: Seq<u8>) -> Option<
    (Seq<u8>, u8),
> {
    pda_of(escrow_tag(), mint, seller, program)
}

/// The domain-separation tag as bytes a caller can hand to the derivation.
pub fn escrow_tag_bytes() -> (r: Vec<u8>)
    ensures
        r@ == escrow_tag(),
{
    let mut v: Vec<u8> = Vec::new();
    v.push(101u8);
    v.push(115u8);
    v.push(99u8);
    v.push(114u8);
    v.push(111u8);
    v.push(119u8);
    proof {
        assert(v@ =~= escrow_tag());
    }
    v
}

/// Relies on solana_program::pubkey::Pubkey::try_find_program_address: it
/// deterministically searches disambiguation bytes from 255 down to 1 and
/// returns the first off-curve address derived from the seeds and the program
/// identity, or `None` when no byte it tries yields one.
#[verifier::external_body]
fn find_pda(tag: &Vec<u8>, seed1: &[u8; 32], seed2: &[u8; 32], program: &[u8; 32]) -> (r: Option<
    ([u8; 32], u8),
>)
    ensures
        match r {
            Some((addr, bump)) => pda_of(tag@, seed1@, seed2@, program@) == Some((addr@, bump)),
            None => pda_of(tag@, seed1@, seed2@, program@) is None,
        },
{
    let program_id = solana_program::pubkey::Pubkey::new_from_array(*program);
    let seeds: [&[u8]; 3] = [tag.as_slice(), seed1.as_slice(), seed2.as_slice()];
    match solana_program::pubkey::Pubkey::try_find_program_address(&seeds, &program_id) {
        Some((address, bump)) => Some((address.to_bytes(), bump)),
        None => None,
    }
}

/// What a derivation returned, seen at the specification level.
pub open spec fn derivation_view(r: Option<([u8; 32], u8)>) -> Option<(Seq<u8>, u8)> {
    match r {
        Some((addr, bump)) => Some((addr@, bump)),
        None => None,
    }
}

/// Derives the escrow custody address and its disambiguation byte for an
/// asset and seller under a program identity. Deterministic: the result is
/// pinned to a function of the three identities, so identical inputs always
/// yield identical outputs. `None` is the fatal case in which no
/// disambiguation byte works.
pub fn derive_escrow_address(program_id: &[u8; 32], mint: &[u8; 32], seller: &[u8; 32]) -> (r:
    Option<([u8; 32], u8)>)
    ensures
        derivation_view(r) == escrow_derivation(program_id@, mint@, seller@),
{
    let tag = escrow_tag_bytes();
    find_pda(&tag, mint, seller, program_id)
}

/// Law: derivation is deterministic. Two results that each equal the escrow
/// derivation of the same (program, asset, seller) identities are the same
/// address and the same disambiguation byte.
pub proof fn lemma_derivation_deterministic(
    r1: Option<(Seq<u8>, u8)>,
    r2: Option<(Seq<u8>, u8)>,
    program: Seq<u8>,
    mint: Seq<u8>,
    seller: Seq<u8>,
)
    requires
        r1 == escrow_derivation(program, mint, seller),
        r2 == escrow_derivation(program, mint, seller),
    ensures
        r1 == r2,
{
}

} // verus!
