use vstd::prelude::*;

verus! {

/// What the relay reads of one runtime account reference: its 32-byte
/// address and the flags the surrounding runtime attaches to it.
#[derive(Clone, Copy, PartialEq, Eq, Debug)]
pub struct AccountRef {
    /// The account's globally unique 32-byte address.
    pub key: [u8; 32],
    /// Whether the holder of this account authorized the current transaction.
    pub is_signer: bool,
    /// Whether the runtime may write to this account (debit fees or rent).
    pub is_writable: bool,
    /// Whether this account is an executable program.
    pub executable: bool,
}

/// The two declared accounts of one relay invocation, plus the open-ended
/// ordered list of extra accounts the caller appended.
#[derive(Clone, Debug)]
pub struct InvokeMemoContext {
    /// Pays for the memo; must have authorized the transaction and be
    /// flagged writable so the runtime can debit it.
    pub payer: AccountRef,
    /// Must be the external memo-recording program itself.
    pub memo_program: AccountRef,
    /// Passed through verbatim as extra authorizers of the downstream call;
    /// nothing about their identity, count or signer status is assumed.
    pub remaining_accounts: Vec<AccountRef>,
}

} // verus!
