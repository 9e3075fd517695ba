//! The accounts of a request, as the handler reads them.

use vstd::prelude::*;
use crate::address::Address;

verus! {

/// One account supplied with a request.
#[derive(Clone, Debug, PartialEq, Eq)]
pub struct Account {
    /// Where the account lives.
    pub address: Address,
    /// Whether the account's key has signed the request.
    pub is_signer: bool,
    /// Whether the request may write to the account.
    pub is_writable: bool,
    /// The account's storage.
    pub data: Vec<u8>,
}

/// The accounts that a request to create a tree names, in their fixed order.
#[derive(Clone, Debug, PartialEq, Eq)]
pub struct CreateTree {
    /// The blank account that the tree-logic program will structure.
    pub tree: Account,
    /// The tree's configuration account, not yet initialized.
    pub tree_config: Account,
    /// The signer that funds the new accounts.
    pub payer: Account,
    /// The derived authority that creates and owns the tree.
    pub tree_owner: Account,
    /// The tree-logic program.
    pub mpl_bubblegum_program: Account,
    /// The append-only log program.
    pub log_wrapper: Account,
    /// The data-compression program.
    pub compression_program: Account,
    /// The system program.
    pub system_program: Account,
}

/// The bump seeds that come with the accounts.
#[derive(Clone, Copy, Debug, PartialEq, Eq, Structural)]
pub struct CreateTreeBumps {
    /// The bump of the tree's authority.
    pub tree_owner: u8,
}

/// A request as the handler receives it.
#[derive(Clone, Debug, PartialEq, Eq)]
pub struct Context {
    /// The accounts that the request names.
    pub accounts: CreateTree,
    /// The bump seeds supplied with them.
    pub bumps: CreateTreeBumps,
}

/// Every byte of `data` is zero. An empty region is zero-filled.
pub open spec fn zero_filled(data: Seq<u8>) -> bool {
    forall|i: int| 0 <= i < data.len() ==> data[i] == 0
}

/// Tells whether a storage region holds nothing but zeros.
pub fn is_zero_filled(data: &Vec<u8>) -> (zeroed: bool)
    ensures
        zeroed == zero_filled(data@),
{
    let mut i: usize = 0;
    while i < data.len()
        invariant
            i <= data.len(),
            forall|j: int| 0 <= j < i ==> data@[j] == 0,
        decreases data.len() - i,
    {
        if data[i] != 0 {
            return false;
        }
        i += 1;
    }
    true
}

} // verus!
