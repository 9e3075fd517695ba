//! Why a request to create a tree fails.

use vstd::prelude::*;

verus! {

/// The part that a supplied account plays in the request.
#[derive(Clone, Copy, Debug, PartialEq, Eq, Structural)]
pub enum Role {
    /// The blank account that will hold the tree.
    Tree,
    /// The companion configuration account of the tree.
    TreeConfig,
    /// The signer that pays for the request.
    Payer,
    /// The tree-logic program.
    MplBubblegumProgram,
    /// The append-only log program.
    LogWrapper,
    /// The data-compression program.
    CompressionProgram,
    /// The system program.
    SystemProgram,
}

/// The structural expectation that an account does not meet.
#[derive(Clone, Copy, Debug, PartialEq, Eq, Structural)]
pub enum Fault {
    /// The account's storage holds a byte other than zero.
    NotZeroed,
    /// The account may not be written.
    NotWritable,
    /// The account has not signed the request.
    NotSigner,
    /// The account is not the program that the request must name.
    WrongProgram,
}

/// A failure found before the tree-logic program is called.
#[derive(Clone, Copy, Debug, PartialEq, Eq, Structural)]
pub enum ValidationError {
    /// An account does not have the shape that its role asks for.
    AccountShape { account: Role, fault: Fault },
    /// The supplied authority, address or bump, is not the one derived from
    /// the tree's address.
    AuthorityDerivationMismatch,
}

/// A failed request. `E` is the failure type of the tree-logic program.
#[derive(Clone, Debug, PartialEq, Eq)]
pub enum CreateTreeError<E> {
    /// The request was refused before any call was made.
    Validation(ValidationError),
    /// The tree-logic program was called and failed; its failure is handed
    /// on as it came.
    ExternalInvocation(E),
}

} // verus!
