use anchor_lang::prelude::Pubkey;
use knowledge_manager::account::{Account, Context, CreateTree, CreateTreeBumps};
use knowledge_manager::address::Address;
use knowledge_manager::error::{CreateTreeError, Fault, Role, ValidationError};
use knowledge_manager::handler::{conclude, create_tree, prepare};
use knowledge_manager::instruction::{assemble, AccountMeta, Instruction, Invocation};
use knowledge_manager::programs::{
    MPL_BUBBLEGUM_ID, SPL_ACCOUNT_COMPRESSION_ID, SPL_NOOP_ID, SYSTEM_PROGRAM_ID,
};

const TREE: [u8; 32] = [7u8; 32];
const PAYER: [u8; 32] = [9u8; 32];

fn account(address: [u8; 32], is_signer: bool, is_writable: bool, data: Vec<u8>) -> Account {
    Account { address: Address::new(address), is_signer, is_writable, data }
}

fn tree_config() -> [u8; 32] {
    Pubkey::find_program_address(&[&TREE], &mpl_bubblegum::ID).0.to_bytes()
}

fn tree_owner() -> ([u8; 32], u8) {
    let (owner, bump) = Pubkey::find_program_address(&[b"tree_owner", &TREE], &mpl_bubblegum::ID);
    (owner.to_bytes(), bump)
}

fn valid_context() -> Context {
    let (owner, bump) = tree_owner();
    Context {
        accounts: CreateTree {
            tree: account(TREE, false, true, vec![0u8; 31_800]),
            tree_config: account(tree_config(), false, true, Vec::new()),
            payer: account(PAYER, true, true, Vec::new()),
            tree_owner: account(owner, false, false, Vec::new()),
            mpl_bubblegum_program: account(MPL_BUBBLEGUM_ID, false, false, vec![2, 0, 0, 0]),
            log_wrapper: account(SPL_NOOP_ID, false, false, vec![2, 0, 0, 0]),
            compression_program: account(SPL_ACCOUNT_COMPRESSION_ID, false, false, vec![2, 0, 0, 0]),
            system_program: account(SYSTEM_PROGRAM_ID, false, false, Vec::new()),
        },
        bumps: CreateTreeBumps { tree_owner: bump },
    }
}

fn meta(address: [u8; 32], is_signer: bool, is_writable: bool) -> AccountMeta {
    AccountMeta { address: Address::new(address), is_signer, is_writable }
}

fn expected_invocation(max_depth_bytes: [u8; 4], max_buffer_size_bytes: [u8; 4]) -> Invocation {
    let (owner, bump) = tree_owner();
    let mut data = vec![165u8, 83, 136, 142, 89, 202, 47, 220];
    data.extend_from_slice(&max_depth_bytes);
    data.extend_from_slice(&max_buffer_size_bytes);
    data.push(0);
    Invocation {
        instruction: Instruction {
            program_id: Address::new(MPL_BUBBLEGUM_ID),
            accounts: vec![
                meta(tree_config(), false, true),
                meta(TREE, false, true),
                meta(PAYER, true, true),
                meta(owner, true, false),
                meta(SPL_NOOP_ID, false, false),
                meta(SPL_ACCOUNT_COMPRESSION_ID, false, false),
                meta(SYSTEM_PROGRAM_ID, false, false),
            ],
            data,
        },
        signer_seeds: vec![b"tree_owner".to_vec(), TREE.to_vec(), vec![bump]],
    }
}

fn decoded_parameters(data: &[u8]) -> (u32, u32) {
    assert_eq!(data.len(), 17);
    (
        u32::from_le_bytes([data[8], data[9], data[10], data[11]]),
        u32::from_le_bytes([data[12], data[13], data[14], data[15]]),
    )
}

#[test]
fn end_to_end_success() {
    let ctx = valid_context();
    let mut calls: Vec<Invocation> = Vec::new();
    let result = create_tree(&ctx, 14, 64, |invocation| {
        calls.push(invocation);
        Ok::<(), u32>(())
    });
    assert_eq!(result, Ok(()));
    assert_eq!(calls.len(), 1);
    assert_eq!(calls[0], expected_invocation([14, 0, 0, 0], [64, 0, 0, 0]));
}

#[test]
fn parameters_pass_through() {
    let ctx = valid_context();
    let mut seen: Vec<(u32, u32)> = Vec::new();
    let result = create_tree(&ctx, 14, 64, |invocation| {
        seen.push(decoded_parameters(&invocation.instruction.data));
        Ok::<(), u32>(())
    });
    assert_eq!(result, Ok(()));
    assert_eq!(seen, vec![(14, 64)]);
}

#[test]
fn parameters_are_not_range_checked() {
    let ctx = valid_context();
    for (max_depth, max_buffer_size) in
        [(0u32, 0u32), (u32::MAX, u32::MAX), (0x0102_0304, 0xA0B0_C0D0), (30, 2048), (1, 256)]
    {
        let mut seen: Vec<(u32, u32)> = Vec::new();
        let result = create_tree(&ctx, max_depth, max_buffer_size, |invocation| {
            seen.push(decoded_parameters(&invocation.instruction.data));
            Ok::<(), u32>(())
        });
        assert_eq!(result, Ok(()));
        assert_eq!(seen, vec![(max_depth, max_buffer_size)]);
    }
}

#[test]
fn parameters_are_encoded_least_significant_byte_first() {
    let ctx = valid_context();
    let invocation = assemble(&ctx, 0x0102_0304, 0xA0B0_C0D0);
    assert_eq!(invocation, expected_invocation([4, 3, 2, 1], [0xD0, 0xC0, 0xB0, 0xA0]));
    let invocation = assemble(&ctx, u32::MAX, 256);
    assert_eq!(invocation, expected_invocation([255, 255, 255, 255], [0, 1, 0, 0]));
}

#[test]
fn assembled_call_is_the_client_library_s() {
    let ctx = valid_context();
    let (owner, _) = tree_owner();
    let built = mpl_bubblegum::instructions::CreateTreeConfigBuilder::new()
        .tree_config(Pubkey::from(tree_config()))
        .merkle_tree(Pubkey::from(TREE))
        .payer(Pubkey::from(PAYER))
        .tree_creator(Pubkey::from(owner))
        .log_wrapper(mpl_bubblegum::programs::SPL_NOOP_ID)
        .compression_program(mpl_bubblegum::programs::SPL_ACCOUNT_COMPRESSION_ID)
        .system_program(anchor_lang::system_program::ID)
        .max_depth(14)
        .max_buffer_size(64)
        .instruction();
    let invocation = assemble(&ctx, 14, 64);
    assert_eq!(invocation.instruction.program_id.bytes, built.program_id.to_bytes());
    assert_eq!(invocation.instruction.data, built.data);
    assert_eq!(invocation.instruction.accounts.len(), built.accounts.len());
    for (ours, theirs) in invocation.instruction.accounts.iter().zip(built.accounts.iter()) {
        assert_eq!(ours.address.bytes, theirs.pubkey.to_bytes());
        assert_eq!(ours.is_signer, theirs.is_signer);
        assert_eq!(ours.is_writable, theirs.is_writable);
    }
}

#[test]
fn assembled_call_names_the_request_s_accounts() {
    let mut ctx = valid_context();
    ctx.accounts.tree_config.address = Address::new([21u8; 32]);
    ctx.accounts.tree_owner.address = Address::new([22u8; 32]);
    ctx.accounts.log_wrapper.address = Address::new([23u8; 32]);
    ctx.accounts.compression_program.address = Address::new([24u8; 32]);
    ctx.accounts.system_program.address = Address::new([25u8; 32]);
    ctx.bumps.tree_owner = 3;
    let invocation = assemble(&ctx, 5, 8);
    assert_eq!(
        invocation.instruction.accounts,
        vec![
            meta([21u8; 32], false, true),
            meta(TREE, false, true),
            meta(PAYER, true, true),
            meta([22u8; 32], true, false),
            meta([23u8; 32], false, false),
            meta([24u8; 32], false, false),
            meta([25u8; 32], false, false),
        ]
    );
    assert_eq!(invocation.instruction.program_id, Address::new(MPL_BUBBLEGUM_ID));
    assert_eq!(
        invocation.signer_seeds,
        vec![b"tree_owner".to_vec(), TREE.to_vec(), vec![3u8]]
    );
}

#[test]
fn validation_failure_makes_no_call_and_changes_nothing() {
    let mut ctx = valid_context();
    ctx.accounts.tree.data[100] = 0xAB;
    ctx.accounts.tree_config.data = vec![0u8; 64];
    let before = ctx.clone();
    let mut calls = 0u32;
    let result = create_tree(&ctx, 14, 64, |_invocation| {
        calls += 1;
        Ok::<(), u32>(())
    });
    assert_eq!(
        result,
        Err(CreateTreeError::Validation(ValidationError::AccountShape {
            account: Role::Tree,
            fault: Fault::NotZeroed,
        }))
    );
    assert_eq!(calls, 0);
    assert_eq!(ctx, before);
    assert_eq!(ctx.accounts.tree.data, before.accounts.tree.data);
    assert_eq!(ctx.accounts.tree_config.data, before.accounts.tree_config.data);
}

#[test]
fn noncanonical_bump_fails_before_the_call() {
    let mut ctx = valid_context();
    ctx.bumps.tree_owner = ctx.bumps.tree_owner.wrapping_add(1);
    let mut calls = 0u32;
    let result = create_tree(&ctx, 14, 64, |_invocation| {
        calls += 1;
        Ok::<(), u32>(())
    });
    assert_eq!(
        result,
        Err(CreateTreeError::Validation(ValidationError::AuthorityDerivationMismatch))
    );
    assert_eq!(calls, 0);
    assert_eq!(
        prepare(&ctx, 14, 64),
        Err(ValidationError::AuthorityDerivationMismatch)
    );
}

#[test]
fn wrong_program_fails_before_the_call() {
    let mut ctx = valid_context();
    ctx.accounts.compression_program.address = Address::new(SPL_NOOP_ID);
    let mut calls = 0u32;
    let result = create_tree(&ctx, 14, 64, |_invocation| {
        calls += 1;
        Ok::<(), u32>(())
    });
    assert_eq!(
        result,
        Err(CreateTreeError::Validation(ValidationError::AccountShape {
            account: Role::CompressionProgram,
            fault: Fault::WrongProgram,
        }))
    );
    assert_eq!(calls, 0);
}

#[test]
fn external_failure_is_propagated_unchanged() {
    let ctx = valid_context();
    let before = ctx.clone();
    let mut calls = 0u32;
    let result = create_tree(&ctx, 14, 64, |_invocation| {
        calls += 1;
        Err::<(), String>(String::from("depth and buffer size do not go together"))
    });
    assert_eq!(
        result,
        Err(CreateTreeError::ExternalInvocation(String::from(
            "depth and buffer size do not go together"
        )))
    );
    assert_eq!(calls, 1);
    assert_eq!(ctx, before);
}

#[test]
fn external_failure_codes_are_kept() {
    let ctx = valid_context();
    for code in [0u64, 1, 6001, u64::MAX] {
        let result = create_tree(&ctx, 14, 64, |_invocation| Err::<(), u64>(code));
        assert_eq!(result, Err(CreateTreeError::ExternalInvocation(code)));
    }
}

#[test]
fn prepare_hands_out_the_call_of_a_valid_request() {
    let ctx = valid_context();
    assert_eq!(prepare(&ctx, 14, 64), Ok(expected_invocation([14, 0, 0, 0], [64, 0, 0, 0])));
    assert_eq!(prepare(&ctx, 14, 64), Ok(assemble(&ctx, 14, 64)));
}

#[test]
fn prepare_hands_out_no_call_for_an_invalid_request() {
    let mut ctx = valid_context();
    ctx.accounts.payer.is_signer = false;
    assert_eq!(
        prepare(&ctx, 14, 64),
        Err(ValidationError::AccountShape { account: Role::Payer, fault: Fault::NotSigner })
    );
}

#[test]
fn conclude_keeps_the_outcome() {
    assert_eq!(conclude(Ok::<(), u32>(())), Ok(()));
    assert_eq!(conclude(Err::<(), u32>(17)), Err(CreateTreeError::ExternalInvocation(17)));
    assert_eq!(
        conclude(Err::<(), (u8, bool)>((3, true))),
        Err(CreateTreeError::ExternalInvocation((3, true)))
    );
}
