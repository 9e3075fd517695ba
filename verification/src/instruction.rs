//! The call to the tree-logic program's "create tree configuration" entry
//! point, and the authorization that goes with it.

use vstd::prelude::*;
use crate::account::Context;
use crate::address::Address;
use crate::authority::{signer_seeds, spec_signer_seeds};
use crate::programs::MPL_BUBBLEGUM_ID;

verus! {

/// How a call refers to one account.
#[derive(Clone, Copy, Debug, PartialEq, Eq)]
pub struct AccountMeta {
    /// The account referred to.
    pub address: Address,
    /// Whether the call carries a signature for the account.
    pub is_signer: bool,
    /// Whether the called program may write to the account.
    pub is_writable: bool,
}

/// A call to a program: the program, the accounts it is handed, and the
/// encoded entry point with its arguments.
#[derive(Clone, Debug, PartialEq, Eq)]
pub struct Instruction {
    /// The program that is called.
    pub program_id: Address,
    /// The accounts handed to it, in the order it reads them.
    pub accounts: Vec<AccountMeta>,
    /// The entry point and its arguments, encoded.
    pub data: Vec<u8>,
}

/// A call together with the seeds that authorize it on behalf of the tree's
/// authority.
#[derive(Clone, Debug, PartialEq, Eq)]
pub struct Invocation {
    /// The call to make.
    pub instruction: Instruction,
    /// The seeds of the authority that signs the call, bump last.
    pub signer_seeds: Vec<Vec<u8>>,
}

/// The mathematical content of an [`Instruction`].
pub struct InstructionView {
    /// The program that is called.
    pub program_id: Address,
    /// The accounts handed to it, in order.
    pub accounts: Seq<AccountMeta>,
    /// The bytes of the encoded call.
    pub data: Seq<u8>,
}

/// The mathematical content of an [`Invocation`].
pub struct InvocationView {
    /// The call to make.
    pub instruction: InstructionView,
    /// The signing seeds, each as its bytes.
    pub signer_seeds: Seq<Seq<u8>>,
}

impl View for Instruction {
    type V = InstructionView;

    open spec fn view(&self) -> InstructionView {
        InstructionView { program_id: self.program_id, accounts: self.accounts@, data: self.data@ }
    }
}

impl View for Invocation {
    type V = InvocationView;

    open spec fn view(&self) -> InvocationView {
        InvocationView {
            instruction: self.instruction@,
            signer_seeds: self.signer_seeds.deep_view(),
        }
    }
}

/// The eight bytes that select the "create tree configuration" entry point.
pub const CREATE_TREE_CONFIG_DISCRIMINATOR: [u8; 8] = [165, 83, 136, 142, 89, 202, 47, 220];

/// The four bytes of `value`, least significant first.
pub open spec fn le_bytes(value: u32) -> Seq<u8> {
    seq![
        (value % 256) as u8,
        (value / 256 % 256) as u8,
        (value / 65536 % 256) as u8,
        (value / 16777216) as u8,
    ]
}

/// The number that four bytes spell, least significant first.
pub open spec fn from_le_bytes(bytes: Seq<u8>) -> int {
    bytes[0] + 256 * bytes[1] + 65536 * bytes[2] + 16777216 * bytes[3]
}

/// The encoded call: the entry point's discriminator, the two sizing
/// parameters, and one zero byte for the visibility flag that is left unset.
pub open spec fn create_tree_config_data(max_depth: u32, max_buffer_size: u32) -> Seq<u8> {
    CREATE_TREE_CONFIG_DISCRIMINATOR@ + le_bytes(max_depth) + le_bytes(max_buffer_size) + seq![0u8]
}

/// The maximum depth that an encoded call carries.
pub open spec fn encoded_max_depth(data: Seq<u8>) -> int {
    from_le_bytes(data.subrange(8, 12))
}

/// The maximum buffer size that an encoded call carries.
pub open spec fn encoded_max_buffer_size(data: Seq<u8>) -> int {
    from_le_bytes(data.subrange(12, 16))
}

/// The accounts of the call, in the order the entry point reads them, each
/// with the access it is given.
pub open spec fn create_tree_config_accounts(
    tree_config: Address,
    merkle_tree: Address,
    payer: Address,
    tree_creator: Address,
    log_wrapper: Address,
    compression_program: Address,
    system_program: Address,
) -> Seq<AccountMeta> {
    seq![
        AccountMeta { address: tree_config, is_signer: false, is_writable: true },
        AccountMeta { address: merkle_tree, is_signer: false, is_writable: true },
        AccountMeta { address: payer, is_signer: true, is_writable: true },
        AccountMeta { address: tree_creator, is_signer: true, is_writable: false },
        AccountMeta { address: log_wrapper, is_signer: false, is_writable: false },
        AccountMeta { address: compression_program, is_signer: false, is_writable: false },
        AccountMeta { address: system_program, is_signer: false, is_writable: false },
    ]
}

/// The call that a request gives rise to, with its authorization.
pub open spec fn spec_invocation(
    ctx: Context,
    max_depth: u32,
    max_buffer_size: u32,
) -> InvocationView {
    InvocationView {
        instruction: InstructionView {
            program_id: Address { bytes: MPL_BUBBLEGUM_ID },
            accounts: create_tree_config_accounts(
                ctx.accounts.tree_config.address,
                ctx.accounts.tree.address,
                ctx.accounts.payer.address,
                ctx.accounts.tree_owner.address,
                ctx.accounts.log_wrapper.address,
                ctx.accounts.compression_program.address,
                ctx.accounts.system_program.address,
            ),
            data: create_tree_config_data(max_depth, max_buffer_size),
        },
        signer_seeds: spec_signer_seeds(ctx.accounts.tree.address@, ctx.bumps.tree_owner),
    }
}

/// Calls `CreateTreeConfigBuilder::instruction` of the tree-logic program's
/// client library, with all seven accounts and both parameters set and the
/// visibility flag left unset. The contract claims what that function's
/// source shows: the call is addressed to the tree-logic program; it lists
/// the configuration account, the tree and the payer as writable, the payer
/// and the creator as signers, and the three programs read-only, in this
/// order; its data are the discriminator followed by the arguments in their
/// binary form, each parameter as four little-endian bytes and the unset
/// flag as one zero byte.
#[verifier::external_body]
fn create_tree_config_instruction(
    tree_config: &Address,
    merkle_tree: &Address,
    payer: &Address,
    tree_creator: &Address,
    log_wrapper: &Address,
    compression_program: &Address,
    system_program: &Address,
    max_depth: u32,
    max_buffer_size: u32,
) -> (instruction: Instruction)
    ensures
        instruction.program_id@ == MPL_BUBBLEGUM_ID@,
        instruction.accounts@ == create_tree_config_accounts(
            *tree_config,
            *merkle_tree,
            *payer,
            *tree_creator,
            *log_wrapper,
            *compression_program,
            *system_program,
        ),
        instruction.data@ == create_tree_config_data(max_depth, max_buffer_size),
{
    let built = mpl_bubblegum::instructions::CreateTreeConfigBuilder::new()
        .tree_config(tree_config.bytes.into())
        .merkle_tree(merkle_tree.bytes.into())
        .payer(payer.bytes.into())
        .tree_creator(tree_creator.bytes.into())
        .log_wrapper(log_wrapper.bytes.into())
        .compression_program(compression_program.bytes.into())
        .system_program(system_program.bytes.into())
        .max_depth(max_depth)
        .max_buffer_size(max_buffer_size)
        .instruction();
    let accounts = built.accounts.iter().map(|meta| AccountMeta {
        address: Address { bytes: meta.pubkey.to_bytes() }, is_signer: meta.is_signer, is_writable: meta.is_writable,
    }).collect();
    Instruction { program_id: Address { bytes: built.program_id.to_bytes() }, accounts, data: built.data }
}

/// Assembles the call for a request: the seven accounts in their roles, the
/// two parameters as they were given, and the seeds of the tree's authority
/// with the request's bump.
pub fn assemble(ctx: &Context, max_depth: u32, max_buffer_size: u32) -> (invocation: Invocation)
    ensures
        invocation@ == spec_invocation(*ctx, max_depth, max_buffer_size),
{
    let instruction = create_tree_config_instruction(
        &ctx.accounts.tree_config.address,
        &ctx.accounts.tree.address,
        &ctx.accounts.payer.address,
        &ctx.accounts.tree_owner.address,
        &ctx.accounts.log_wrapper.address,
        &ctx.accounts.compression_program.address,
        &ctx.accounts.system_program.address,
        max_depth,
        max_buffer_size,
    );
    let signer_seeds = signer_seeds(&ctx.accounts.tree.address, ctx.bumps.tree_owner);
    proof {
        assert(instruction.program_id.bytes =~= MPL_BUBBLEGUM_ID);
    }
    Invocation { instruction, signer_seeds }
}

/// The parameters reach the tree-logic program as they were given: the
/// encoded call of every request spells exactly the request's maximum
/// depth and maximum buffer size.
pub proof fn lemma_parameters_pass_through(ctx: Context, max_depth: u32, max_buffer_size: u32)
    ensures
        encoded_max_depth(spec_invocation(ctx, max_depth, max_buffer_size).instruction.data)
            == max_depth,
        encoded_max_buffer_size(spec_invocation(ctx, max_depth, max_buffer_size).instruction.data)
            == max_buffer_size,
        spec_invocation(ctx, max_depth, max_buffer_size).instruction.data.len() == 17,
{
    let data = create_tree_config_data(max_depth, max_buffer_size);
    assert(data.subrange(8, 12) =~= le_bytes(max_depth));
    assert(data.subrange(12, 16) =~= le_bytes(max_buffer_size));
}

} // verus!
