//! What must hold of a request before the tree-logic program is called.

use vstd::prelude::*;
use crate::account::{is_zero_filled, zero_filled, Account, Context, CreateTree};
use crate::address::{lemma_address_view_injective, Address};
use crate::authority::{check_authority, derive_tree_authority, spec_tree_authority};
use crate::error::{Fault, Role, ValidationError};
use crate::programs::{
    MPL_BUBBLEGUM_ID,
    SPL_ACCOUNT_COMPRESSION_ID,
    SPL_NOOP_ID,
    SYSTEM_PROGRAM_ID,
};

verus! {

impl Account {
    /// Whether the account is the program with the identity `id`.
    pub open spec fn spec_is_program(&self, id: [u8; 32]) -> bool {
        self.address == (Address { bytes: id })
    }

    /// Tells whether the account is the program with the identity `id`.
    pub fn is_program(&self, id: [u8; 32]) -> (matches: bool)
        ensures
            matches == self.spec_is_program(id),
    {
        self.address == Address::new(id)
    }
}

impl CreateTree {
    /// The first structural expectation that the accounts do not meet, with
    /// the account that fails it, or nothing if they meet them all.
    ///
    /// The accounts are read in their fixed order: the tree must be
    /// zero-filled and writable; the configuration account writable and
    /// zero-filled; the payer a signer and writable; and each of the four
    /// programs the one that the request must name.
    pub open spec fn shape_fault(&self) -> Option<(Role, Fault)> {
        if !zero_filled(self.tree.data@) {
            Some((Role::Tree, Fault::NotZeroed))
        } else if !self.tree.is_writable {
            Some((Role::Tree, Fault::NotWritable))
        } else if !self.tree_config.is_writable {
            Some((Role::TreeConfig, Fault::NotWritable))
        } else if !zero_filled(self.tree_config.data@) {
            Some((Role::TreeConfig, Fault::NotZeroed))
        } else if !self.payer.is_signer {
            Some((Role::Payer, Fault::NotSigner))
        } else if !self.payer.is_writable {
            Some((Role::Payer, Fault::NotWritable))
        } else if !self.mpl_bubblegum_program.spec_is_program(MPL_BUBBLEGUM_ID) {
            Some((Role::MplBubblegumProgram, Fault::WrongProgram))
        } else if !self.log_wrapper.spec_is_program(SPL_NOOP_ID) {
            Some((Role::LogWrapper, Fault::WrongProgram))
        } else if !self.compression_program.spec_is_program(SPL_ACCOUNT_COMPRESSION_ID) {
            Some((Role::CompressionProgram, Fault::WrongProgram))
        } else if !self.system_program.spec_is_program(SYSTEM_PROGRAM_ID) {
            Some((Role::SystemProgram, Fault::WrongProgram))
        } else {
            None
        }
    }

    /// What the structural check of the accounts returns.
    pub open spec fn spec_check_shape(&self) -> Result<(), ValidationError> {
        match self.shape_fault() {
            Some((account, fault)) => Err(ValidationError::AccountShape { account, fault }),
            None => Ok(()),
        }
    }

    /// Checks the accounts against the structural expectations of their
    /// roles, and reports the first that is not met.
    pub fn check_shape(&self) -> (checked: Result<(), ValidationError>)
        ensures
            checked == self.spec_check_shape(),
    {
        if !is_zero_filled(&self.tree.data) {
            return Err(ValidationError::AccountShape { account: Role::Tree, fault: Fault::NotZeroed });
        }
        if !self.tree.is_writable {
            return Err(
                ValidationError::AccountShape { account: Role::Tree, fault: Fault::NotWritable },
            );
        }
        if !self.tree_config.is_writable {
            return Err(
                ValidationError::AccountShape {
                    account: Role::TreeConfig,
                    fault: Fault::NotWritable,
                },
            );
        }
        if !is_zero_filled(&self.tree_config.data) {
            return Err(
                ValidationError::AccountShape { account: Role::TreeConfig, fault: Fault::NotZeroed },
            );
        }
        if !self.payer.is_signer {
            return Err(
                ValidationError::AccountShape { account: Role::Payer, fault: Fault::NotSigner },
            );
        }
        if !self.payer.is_writable {
            return Err(
                ValidationError::AccountShape { account: Role::Payer, fault: Fault::NotWritable },
            );
        }
        if !self.mpl_bubblegum_program.is_program(MPL_BUBBLEGUM_ID) {
            return Err(
                ValidationError::AccountShape {
                    account: Role::MplBubblegumProgram,
                    fault: Fault::WrongProgram,
                },
            );
        }
        if !self.log_wrapper.is_program(SPL_NOOP_ID) {
            return Err(
                ValidationError::AccountShape {
                    account: Role::LogWrapper,
                    fault: Fault::WrongProgram,
                },
            );
        }
        if !self.compression_program.is_program(SPL_ACCOUNT_COMPRESSION_ID) {
            return Err(
                ValidationError::AccountShape {
                    account: Role::CompressionProgram,
                    fault: Fault::WrongProgram,
                },
            );
        }
        if !self.system_program.is_program(SYSTEM_PROGRAM_ID) {
            return Err(
                ValidationError::AccountShape {
                    account: Role::SystemProgram,
                    fault: Fault::WrongProgram,
                },
            );
        }
        Ok(())
    }
}

/// Whether the supplied authority of a request is the canonical authority
/// of its tree under the tree-logic program.
pub open spec fn authority_is_canonical(ctx: Context) -> bool {
    spec_tree_authority(ctx.accounts.tree.address@, MPL_BUBBLEGUM_ID@) == Some(
        (ctx.accounts.tree_owner.address@, ctx.bumps.tree_owner),
    )
}

/// What validation returns for a request.
pub open spec fn spec_validate(ctx: Context) -> Result<(), ValidationError> {
    match ctx.accounts.spec_check_shape() {
        Err(e) => Err(e),
        Ok(()) => if authority_is_canonical(ctx) {
            Ok(())
        } else {
            Err(ValidationError::AuthorityDerivationMismatch)
        },
    }
}

/// Validates a request: the shape of its accounts, then its authority
/// against the one derived from the tree's address under the tree-logic
/// program.
pub fn validate(ctx: &Context) -> (checked: Result<(), ValidationError>)
    ensures
        checked == spec_validate(*ctx),
{
    match ctx.accounts.check_shape() {
        Err(e) => Err(e),
        Ok(()) => {
            let program = Address::new(MPL_BUBBLEGUM_ID);
            let derived = derive_tree_authority(&ctx.accounts.tree.address, &program);
            proof {
                if let Some(authority) = derived {
                    if authority@ == (ctx.accounts.tree_owner.address@, ctx.bumps.tree_owner) {
                        lemma_address_view_injective(
                            authority.address,
                            ctx.accounts.tree_owner.address,
                        );
                    }
                }
            }
            check_authority(&derived, &ctx.accounts.tree_owner.address, ctx.bumps.tree_owner)
        },
    }
}

/// A request with a structural fault is refused with that fault, whatever
/// its authority is.
pub proof fn lemma_shape_fault_refuses_request(ctx: Context)
    requires
        ctx.accounts.shape_fault() is Some,
    ensures
        spec_validate(ctx) == Err::<(), ValidationError>(
            ValidationError::AccountShape {
                account: ctx.accounts.shape_fault()->Some_0.0,
                fault: ctx.accounts.shape_fault()->Some_0.1,
            },
        ),
{
}

/// A request whose bump is not the canonical one of its tree is refused:
/// validation fails, and with well-shaped accounts it fails as a mismatch
/// of the authority.
pub proof fn lemma_noncanonical_bump_is_rejected(ctx: Context)
    requires
        spec_tree_authority(ctx.accounts.tree.address@, MPL_BUBBLEGUM_ID@) matches Some(
            canonical,
        ) ==> ctx.bumps.tree_owner != canonical.1,
    ensures
        spec_validate(ctx) is Err,
        ctx.accounts.shape_fault() is None ==> spec_validate(ctx) == Err::<(), ValidationError>(
            ValidationError::AuthorityDerivationMismatch,
        ),
{
}

} // verus!
