use memo_relay::account::{AccountRef, InvokeMemoContext};
use memo_relay::relay::{
    build_memo_instruction, complete_relay, key_matches_memo_program, memo_program_id_bytes,
    send_memo, RelayError,
};

fn account(tag: u8, is_signer: bool, is_writable: bool, executable: bool) -> AccountRef {
    AccountRef { key: [tag; 32], is_signer, is_writable, executable }
}

fn memo_program_account() -> AccountRef {
    AccountRef {
        key: memo_program_id_bytes(),
        is_signer: false,
        is_writable: false,
        executable: true,
    }
}

fn valid_context(remaining: Vec<AccountRef>) -> InvokeMemoContext {
    InvokeMemoContext {
        payer: account(1, true, true, false),
        memo_program: memo_program_account(),
        remaining_accounts: remaining,
    }
}

#[test]
fn hello_with_no_extra_authorizers() {
    let ctx = valid_context(Vec::new());
    let ix = send_memo(&ctx, b"hello".to_vec()).expect("valid context must be accepted");
    assert_eq!(ix.program_id, memo_program_id_bytes());
    assert_eq!(ix.data, b"hello".to_vec());
    assert!(ix.accounts.is_empty());
}

#[test]
fn empty_payload_with_two_authorizers() {
    let a = account(10, true, false, false);
    let b = account(11, true, false, false);
    let ctx = valid_context(vec![a, b]);
    let ix = send_memo(&ctx, Vec::new()).expect("valid context must be accepted");
    assert!(ix.data.is_empty());
    assert_eq!(ix.accounts.len(), 2);
    assert_eq!(ix.accounts[0].pubkey, a.key);
    assert_eq!(ix.accounts[1].pubkey, b.key);
    for meta in &ix.accounts {
        assert!(meta.is_signer);
        assert!(!meta.is_writable);
    }
}

#[test]
fn authorizers_kept_in_order_with_duplicates() {
    let a = account(7, true, false, false);
    let b = account(8, false, true, false);
    let ctx = valid_context(vec![a, b, a]);
    let ix = send_memo(&ctx, b"x".to_vec()).expect("valid context must be accepted");
    assert_eq!(ix.accounts.len(), 3);
    assert_eq!(ix.accounts[0].pubkey, a.key);
    assert_eq!(ix.accounts[1].pubkey, b.key);
    assert_eq!(ix.accounts[2].pubkey, a.key);
    assert!(ix.accounts.iter().all(|m| m.is_signer && !m.is_writable));
}

#[test]
fn wrong_memo_target_is_refused() {
    let mut ctx = valid_context(Vec::new());
    ctx.memo_program = account(42, false, false, true);
    assert_eq!(send_memo(&ctx, b"hello".to_vec()), Err(RelayError::InvalidProgramId));
}

#[test]
fn non_executable_memo_target_is_refused() {
    let mut ctx = valid_context(Vec::new());
    ctx.memo_program.executable = false;
    assert_eq!(send_memo(&ctx, b"hello".to_vec()), Err(RelayError::InvalidProgramExecutable));
}

#[test]
fn unsigned_payer_is_refused() {
    let mut ctx = valid_context(Vec::new());
    ctx.payer.is_signer = false;
    assert_eq!(send_memo(&ctx, b"hello".to_vec()), Err(RelayError::AccountNotSigner));
}

#[test]
fn non_writable_payer_is_refused() {
    let mut ctx = valid_context(Vec::new());
    ctx.payer.is_writable = false;
    assert_eq!(send_memo(&ctx, b"hello".to_vec()), Err(RelayError::ConstraintMut));
}

#[test]
fn downstream_verdict_is_passed_through() {
    assert_eq!(complete_relay(Ok(())), Ok(()));
    assert_eq!(complete_relay(Err(7)), Err(RelayError::Downstream(7)));
}

#[test]
fn repeat_invocation_prepares_identical_call() {
    let a = account(3, true, false, false);
    let ctx = valid_context(vec![a]);
    let first = send_memo(&ctx, b"again".to_vec()).expect("valid context must be accepted");
    let second = send_memo(&ctx, b"again".to_vec()).expect("valid context must be accepted");
    assert_eq!(first, second);
}

#[test]
fn key_comparison_is_exact() {
    let mut key = memo_program_id_bytes();
    assert!(key_matches_memo_program(&key));
    key[31] = key[31].wrapping_add(1);
    assert!(!key_matches_memo_program(&key));
}

#[test]
fn builder_copies_payload_and_accounts() {
    let a = account(9, false, false, false);
    let ix = build_memo_instruction(&vec![a], b"memo body".to_vec());
    assert_eq!(ix.data, b"memo body".to_vec());
    assert_eq!(ix.accounts.len(), 1);
    assert_eq!(ix.accounts[0].pubkey, a.key);
    assert!(ix.accounts[0].is_signer);
}

#[test]
fn memo_program_identity_matches_the_real_program() {
    assert_eq!(memo_program_id_bytes(), anchor_spl::memo::ID.to_bytes());
}
