use vstd::prelude::*;

use crate::account::{AccountRef, InvokeMemoContext};

verus! {

/// The 32-byte identity of the external memo-recording program, the decoded
/// form of the address `MemoSq4gqABAXKb96qnH8TysNcWxMyWCqXgDLGmfcHr`.
pub open spec fn memo_program_id() -> Seq<u8> {
    seq![
        5u8, 74u8, 83u8, 90u8, 153u8, 41u8, 33u8, 6u8,
        77u8, 36u8, 232u8, 113u8, 96u8, 218u8, 56u8, 124u8,
        124u8, 53u8, 181u8, 221u8, 188u8, 146u8, 187u8, 129u8,
        228u8, 31u8, 168u8, 64u8, 65u8, 5u8, 68u8, 141u8,
    ]
}

/// The memo program's identity as a concrete byte array.
pub fn memo_program_id_bytes() -> (r: [u8; 32])
    ensures
        r@ == memo_program_id(),
{
    let r: [u8; 32] = [
        5u8, 74u8, 83u8, 90u8, 153u8, 41u8, 33u8, 6u8,
        77u8, 36u8, 232u8, 113u8, 96u8, 218u8, 56u8, 124u8,
        124u8, 53u8, 181u8, 221u8, 188u8, 146u8, 187u8, 129u8,
        228u8, 31u8, 168u8, 64u8, 65u8, 5u8, 68u8, 141u8,
    ];
    proof {
        assert(r@ =~= memo_program_id());
    }
    r
}

/// One account named by the downstream call, together with the flags the
/// call attaches to it.
#[derive(Clone, Copy, PartialEq, Eq, Debug)]
pub struct AccountMeta {
    pub pubkey: [u8; 32],
    pub is_signer: bool,
    pub is_writable: bool,
}

/// The complete description of one downstream call: which program to run,
/// which accounts it is handed, and its data argument.
#[derive(Clone, PartialEq, Eq, Debug)]
pub struct MemoInstruction {
    pub program_id: [u8; 32],
    pub accounts: Vec<AccountMeta>,
    pub data: Vec<u8>,
}

/// Why a relay invocation was refused, or failed downstream.
#[derive(Clone, Copy, PartialEq, Eq, Debug)]
pub enum RelayError {
    /// The payer did not authorize the current transaction.
    AccountNotSigner,
    /// The payer account is not flagged writable.
    ConstraintMut,
    /// The memo target does not carry the memo program's identity.
    InvalidProgramId,
    /// The memo target is not an executable program.
    InvalidProgramExecutable,
    /// The downstream memo program rejected the call; carries its error
    /// code unchanged.
    Downstream(u64),
}

/// How one remaining account appears in the downstream call: the same
/// address, reinterpreted as a read-only co-signer of that call.
pub open spec fn signer_meta(a: AccountRef) -> AccountMeta {
    AccountMeta { pubkey: a.key, is_signer: true, is_writable: false }
}

/// The authorizer list of the downstream call: every remaining account,
/// in order, as a read-only signer.
pub open spec fn authorizer_metas(remaining: Seq<AccountRef>) -> Seq<AccountMeta> {
    remaining.map_values(|a: AccountRef| signer_meta(a))
}

/// The payer passes the runtime's checks: an authorizing signer, writable.
pub open spec fn payer_accepted(a: AccountRef) -> bool {
    a.is_signer && a.is_writable
}

/// The memo target passes the runtime's checks: it is the memo program
/// itself, and executable.
pub open spec fn memo_program_accepted(a: AccountRef) -> bool {
    a.key@ == memo_program_id() && a.executable
}

/// Both declared accounts pass their checks; nothing is asked of the
/// remaining accounts.
pub open spec fn context_accepted(ctx: InvokeMemoContext) -> bool {
    payer_accepted(ctx.payer) && memo_program_accepted(ctx.memo_program)
}

/// Which verdict the account checks reach, in the order the runtime
/// applies them.
pub open spec fn check_outcome(ctx: InvokeMemoContext) -> Result<(), RelayError> {
    if !ctx.payer.is_signer {
        Err(RelayError::AccountNotSigner)
    } else if !ctx.payer.is_writable {
        Err(RelayError::ConstraintMut)
    } else if ctx.memo_program.key@ != memo_program_id() {
        Err(RelayError::InvalidProgramId)
    } else if !ctx.memo_program.executable {
        Err(RelayError::InvalidProgramExecutable)
    } else {
        Ok(())
    }
}

/// `ix` is exactly the downstream call that relays `memo` co-authorized by
/// `remaining`: addressed to the memo program, carrying the payload
/// unchanged, with every remaining account as a read-only signer, in order.
pub open spec fn describes_memo_call(
    ix: MemoInstruction,
    remaining: Seq<AccountRef>,
    memo: Seq<u8>,
) -> bool {
    &&& ix.program_id@ == memo_program_id()
    &&& ix.accounts@ == authorizer_metas(remaining)
    &&& ix.data@ == memo
}

/// Whether `key` is the memo program's identity, byte for byte.
pub fn key_matches_memo_program(key: &[u8; 32]) -> (r: bool)
    ensures
        r == (key@ == memo_program_id()),
{
    let expected = memo_program_id_bytes();
    let mut i: usize = 0;
    while i < 32
        invariant
            i <= 32,
            expected@ == memo_program_id(),
            forall|j: int| 0 <= j < i ==> key@[j] == expected@[j],
        decreases 32 - i,
    {
        if key[i] != expected[i] {
            return false;
        }
        i += 1;
    }
    proof {
        assert(key@ =~= memo_program_id());
    }
    true
}

/// Builds the downstream call description: the memo program's identity, the
/// remaining accounts converted one by one into read-only signer entries,
/// and the payload as the sole data argument.
pub fn build_memo_instruction(remaining: &Vec<AccountRef>, memo: Vec<u8>) -> (ix: MemoInstruction)
    ensures
        describes_memo_call(ix, remaining@, memo@),
{
    let mut metas: Vec<AccountMeta> = Vec::new();
    let mut i: usize = 0;
    while i < remaining.len()
        invariant
            i <= remaining.len(),
            metas@.len() == i,
            forall|j: int| 0 <= j < i ==> metas@[j] == signer_meta(remaining@[j]),
        decreases remaining.len() - i,
    {
        let a = remaining[i];
        metas.push(AccountMeta { pubkey: a.key, is_signer: true, is_writable: false });
        i += 1;
    }
    proof {
        assert(metas@ =~= authorizer_metas(remaining@));
    }
    MemoInstruction { program_id: memo_program_id_bytes(), accounts: metas, data: memo }
}

/// The relay's inbound operation: validate the two declared accounts as the
/// runtime would, then describe the one downstream call. Succeeds exactly
/// when both accounts pass; a refusal names the first failed check, and no
/// call description exists.
pub fn send_memo(ctx: &InvokeMemoContext, memo: Vec<u8>) -> (r: Result<MemoInstruction, RelayError>)
    ensures
        r is Ok <==> context_accepted(*ctx),
        r matches Ok(ix) ==> describes_memo_call(ix, ctx.remaining_accounts@, memo@),
        r matches Err(e) ==> check_outcome(*ctx) == Err::<(), RelayError>(e),
{
    if !ctx.payer.is_signer {
        return Err(RelayError::AccountNotSigner);
    }
    if !ctx.payer.is_writable {
        return Err(RelayError::ConstraintMut);
    }
    if !key_matches_memo_program(&ctx.memo_program.key) {
        return Err(RelayError::InvalidProgramId);
    }
    if !ctx.memo_program.executable {
        return Err(RelayError::InvalidProgramExecutable);
    }
    Ok(build_memo_instruction(&ctx.remaining_accounts, memo))
}

/// Surfaces the downstream call's verdict unchanged: the whole operation
/// succeeds exactly when the downstream memo program accepted the call, and
/// a downstream failure code is passed outward untouched.
pub fn complete_relay(downstream: Result<(), u64>) -> (r: Result<(), RelayError>)
    ensures
        r is Ok <==> downstream is Ok,
        downstream matches Err(code) ==> r == Err::<(), RelayError>(RelayError::Downstream(code)),
{
    match downstream {
        Ok(()) => Ok(()),
        Err(code) => Err(RelayError::Downstream(code)),
    }
}

/// The account checks succeed exactly when the context is accepted: the
/// ordered verdict and the acceptance predicate agree on every context.
pub proof fn lemma_checks_accept(ctx: InvokeMemoContext)
    ensures
        check_outcome(ctx) is Ok <==> context_accepted(ctx),
{
}

/// With no remaining accounts, the relayed call carries the payload and an
/// empty authorizer list: no signer beyond the payer's own transaction
/// signature is named.
pub proof fn lemma_no_extra_authorizers(
    ix: MemoInstruction,
    remaining: Seq<AccountRef>,
    memo: Seq<u8>,
)
    requires
        remaining.len() == 0,
        describes_memo_call(ix, remaining, memo),
    ensures
        ix.accounts@.len() == 0,
        ix.data@ == memo,
{
}

/// The remaining accounts pass through verbatim: the downstream call names
/// exactly as many authorizers as there are remaining accounts, each with
/// the same address in the same position, as a read-only signer — none
/// dropped, duplicated, or reordered.
pub proof fn lemma_authorizers_pass_through(
    ix: MemoInstruction,
    remaining: Seq<AccountRef>,
    memo: Seq<u8>,
)
    requires
        describes_memo_call(ix, remaining, memo),
    ensures
        ix.accounts@.len() == remaining.len(),
        forall|i: int| 0 <= i < remaining.len() ==> #[trigger] ix.accounts@[i]
            == signer_meta(remaining[i]),
{
}

/// A memo target without the memo program's identity, or one that is not
/// executable, is refused: the context is not accepted, so no call
/// description is ever produced.
pub proof fn lemma_wrong_target_refused(ctx: InvokeMemoContext)
    requires
        ctx.memo_program.key@ != memo_program_id() || !ctx.memo_program.executable,
    ensures
        !context_accepted(ctx),
        check_outcome(ctx) is Err,
{
}

/// A payer that did not authorize the transaction is refused: the context
/// is not accepted, the verdict names the missing signature, and no call
/// description is ever produced.
pub proof fn lemma_unsigned_payer_refused(ctx: InvokeMemoContext)
    requires
        !ctx.payer.is_signer,
    ensures
        !context_accepted(ctx),
        check_outcome(ctx) == Err::<(), RelayError>(RelayError::AccountNotSigner),
{
}

/// The relay holds no state: any two call descriptions built from the same
/// remaining accounts and payload are identical, so repeating an invocation
/// with the same arguments prepares the same downstream call again — each
/// invocation still issues its own call, and nothing is deduplicated.
pub proof fn lemma_repeat_prepares_same_call(
    ix1: MemoInstruction,
    ix2: MemoInstruction,
    remaining: Seq<AccountRef>,
    memo: Seq<u8>,
)
    requires
        describes_memo_call(ix1, remaining, memo),
        describes_memo_call(ix2, remaining, memo),
    ensures
        ix1.program_id@ == ix2.program_id@,
        ix1.accounts@ == ix2.accounts@,
        ix1.data@ == ix2.data@,
{
}

} // verus!
