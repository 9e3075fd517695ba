//! The authority of a tree: a program-derived address bound to the tree's
//! own address, and the seeds that prove the right to sign for it.

use vstd::prelude::*;
use vstd::slice::slice_to_vec;
use crate::address::{lemma_address_view_injective, Address};
use crate::error::ValidationError;

verus! {

/// The label that every tree authority is derived under: the bytes of
/// `tree_owner`.
pub const TREE_OWNER_LABEL: [u8; 10] = [116, 114, 101, 101, 95, 111, 119, 110, 101, 114];

/// A derived authority: its address, and the bump that completes its seeds.
#[derive(Clone, Copy, Debug, PartialEq, Eq)]
pub struct TreeAuthority {
    /// The derived address.
    pub address: Address,
    /// The canonical bump: the one the derivation settles on.
    pub bump: u8,
}

impl View for TreeAuthority {
    type V = (Seq<u8>, u8);

    open spec fn view(&self) -> (Seq<u8>, u8) {
        (self.address@, self.bump)
    }
}

/// What the ledger's derivation routine finds for `seeds` under the program
/// `program`: the derived address with its canonical bump, or nothing.
pub uninterp spec fn program_address(seeds: Seq<Seq<u8>>, program: Seq<u8>) -> Option<(Seq<u8>, u8)>;

/// The seeds that a tree's authority is derived from: the label, then the
/// tree's address.
pub open spec fn spec_authority_seeds(tree: Seq<u8>) -> Seq<Seq<u8>> {
    seq![TREE_OWNER_LABEL@, tree]
}

/// The seeds that sign for a tree's authority: the label, the tree's
/// address, and the bump as a seed of one byte.
pub open spec fn spec_signer_seeds(tree: Seq<u8>, bump: u8) -> Seq<Seq<u8>> {
    seq![TREE_OWNER_LABEL@, tree, seq![bump]]
}

/// The canonical authority of the tree at `tree` under `program`.
pub open spec fn spec_tree_authority(tree: Seq<u8>, program: Seq<u8>) -> Option<(Seq<u8>, u8)> {
    program_address(spec_authority_seeds(tree), program)
}

/// `found` is the canonical authority of `tree` under `program`, if there
/// is one, and nothing if there is none.
pub open spec fn is_tree_authority(
    found: Option<TreeAuthority>,
    tree: Seq<u8>,
    program: Seq<u8>,
) -> bool {
    match found {
        Some(authority) => spec_tree_authority(tree, program) == Some(authority@),
        None => spec_tree_authority(tree, program) is None,
    }
}

/// Whether a supplied address and bump are exactly the derived authority.
pub open spec fn spec_check_authority(
    derived: Option<TreeAuthority>,
    address: Address,
    bump: u8,
) -> Result<(), ValidationError> {
    match derived {
        Some(authority) if authority.address == address && authority.bump == bump => Ok(()),
        _ => Err(ValidationError::AuthorityDerivationMismatch),
    }
}

/// Builds the seeds that a tree's authority is derived from.
pub fn authority_seeds(tree: &Address) -> (seeds: Vec<Vec<u8>>)
    ensures
        seeds.deep_view() == spec_authority_seeds(tree@),
{
    let mut seeds: Vec<Vec<u8>> = Vec::new();
    seeds.push(slice_to_vec(TREE_OWNER_LABEL.as_slice()));
    seeds.push(tree.to_vec());
    proof {
        assert(seeds@[0].deep_view() =~= TREE_OWNER_LABEL@);
        assert(seeds@[1].deep_view() =~= tree@);
        assert(seeds.deep_view() =~= spec_authority_seeds(tree@));
    }
    seeds
}

/// Builds the seeds that sign for a tree's authority with the bump `bump`.
pub fn signer_seeds(tree: &Address, bump: u8) -> (seeds: Vec<Vec<u8>>)
    ensures
        seeds.deep_view() == spec_signer_seeds(tree@, bump),
{
    let mut last: Vec<u8> = Vec::new();
    last.push(bump);
    let mut seeds: Vec<Vec<u8>> = Vec::new();
    seeds.push(slice_to_vec(TREE_OWNER_LABEL.as_slice()));
    seeds.push(tree.to_vec());
    seeds.push(last);
    proof {
        assert(seeds@[0].deep_view() =~= TREE_OWNER_LABEL@);
        assert(seeds@[1].deep_view() =~= tree@);
        assert(seeds@[2].deep_view() =~= seq![bump]);
        assert(seeds.deep_view() =~= spec_signer_seeds(tree@, bump));
    }
    seeds
}

/// Calls `Pubkey::try_find_program_address` of the ledger's program library.
/// The call searches the bumps from 255 downwards for the first one with
/// which the seeds hash, under the program's identity, to an address off
/// the signing curve. The outcome is a function of the seeds and of the
/// program alone; the contract gives it the name `program_address` and
/// claims nothing else of it.
#[verifier::external_body]
fn find_program_address(seeds: &Vec<Vec<u8>>, program: &Address) -> (found: Option<(Address, u8)>)
    ensures
        match found {
            Some((address, bump)) => program_address(seeds.deep_view(), program@) == Some(
                (address@, bump),
            ),
            None => program_address(seeds.deep_view(), program@) is None,
        },
{
    let seeds: Vec<&[u8]> = seeds.iter().map(|seed| seed.as_slice()).collect();
    let program = anchor_lang::prelude::Pubkey::from(program.bytes);
    anchor_lang::prelude::Pubkey::try_find_program_address(&seeds, &program)
        .map(|(address, bump)| (Address { bytes: address.to_bytes() }, bump))
}

/// Derives the canonical authority of the tree at `tree` under `program`.
pub fn derive_tree_authority(tree: &Address, program: &Address) -> (found: Option<TreeAuthority>)
    ensures
        is_tree_authority(found, tree@, program@),
{
    let seeds = authority_seeds(tree);
    match find_program_address(&seeds, program) {
        Some((address, bump)) => Some(TreeAuthority { address, bump }),
        None => None,
    }
}

/// Accepts a supplied authority only if it is the derived one, address and
/// bump alike.
pub fn check_authority(derived: &Option<TreeAuthority>, address: &Address, bump: u8) -> (checked:
    Result<(), ValidationError>)
    ensures
        checked == spec_check_authority(*derived, *address, bump),
{
    match derived {
        Some(authority) => {
            if authority.address == *address && authority.bump == bump {
                Ok(())
            } else {
                Err(ValidationError::AuthorityDerivationMismatch)
            }
        },
        None => Err(ValidationError::AuthorityDerivationMismatch),
    }
}

/// Derivation is deterministic: any two outcomes of deriving the authority
/// of one tree under one program are the same, address and bump.
pub proof fn lemma_derivation_is_deterministic(
    tree: Address,
    program: Address,
    first: Option<TreeAuthority>,
    second: Option<TreeAuthority>,
)
    requires
        is_tree_authority(first, tree@, program@),
        is_tree_authority(second, tree@, program@),
    ensures
        first == second,
{
    if let Some(a) = first {
        let b = second->Some_0;
        lemma_address_view_injective(a.address, b.address);
    }
}

} // verus!
