use crate::address::{
    Address, ASSOCIATED_TOKEN_PROGRAM, STAKE_PROGRAM, STEP_MINT, SYSTEM_PROGRAM, TOKEN_PROGRAM,
    XSTEP_MINT,
};
use crate::derive::{associated_token_address, token_account_address};
use crate::error::ComposeError;
use solana_sdk::pubkey::Pubkey;
use spl_associated_token_account::instruction::create_associated_token_account_idempotent;
use vstd::prelude::*;

verus! {

/// An account that an instruction touches, and how.
#[derive(Clone, Copy, Debug, PartialEq, Eq)]
pub struct AccountMeta {
    pub pubkey: Address,
    pub is_signer: bool,
    pub is_writable: bool,
}

/// An account of an instruction, by its bytes.
pub struct AccountMetaView {
    pub pubkey: Seq<u8>,
    pub is_signer: bool,
    pub is_writable: bool,
}

impl View for AccountMeta {
    type V = AccountMetaView;

    open spec fn view(&self) -> AccountMetaView {
        AccountMetaView {
            pubkey: self.pubkey@,
            is_signer: self.is_signer,
            is_writable: self.is_writable,
        }
    }
}

impl DeepView for AccountMeta {
    type V = AccountMetaView;

    open spec fn deep_view(&self) -> AccountMetaView {
        self@
    }
}

/// An account that the instruction may write to.
pub open spec fn writable(pubkey: Seq<u8>, is_signer: bool) -> AccountMetaView {
    AccountMetaView { pubkey, is_signer, is_writable: true }
}

/// An account that the instruction only reads.
pub open spec fn readonly(pubkey: Seq<u8>, is_signer: bool) -> AccountMetaView {
    AccountMetaView { pubkey, is_signer, is_writable: false }
}

impl AccountMeta {
    /// An account that the instruction may write to.
    pub fn new(pubkey: Address, is_signer: bool) -> (meta: AccountMeta)
        ensures
            meta@ == writable(pubkey@, is_signer),
            meta.pubkey == pubkey,
    {
        AccountMeta { pubkey, is_signer, is_writable: true }
    }

    /// An account that the instruction only reads.
    pub fn new_readonly(pubkey: Address, is_signer: bool) -> (meta: AccountMeta)
        ensures
            meta@ == readonly(pubkey@, is_signer),
            meta.pubkey == pubkey,
    {
        AccountMeta { pubkey, is_signer, is_writable: false }
    }
}

/// A call of a program: the program, the accounts in the order in which
/// the program expects them, and the payload.
#[derive(Clone, Debug, PartialEq, Eq)]
pub struct Instruction {
    pub program_id: Address,
    pub accounts: Vec<AccountMeta>,
    pub data: Vec<u8>,
}

/// An instruction by its bytes.
pub struct InstructionView {
    pub program_id: Seq<u8>,
    pub accounts: Seq<AccountMetaView>,
    pub data: Seq<u8>,
}

impl View for Instruction {
    type V = InstructionView;

    open spec fn view(&self) -> InstructionView {
        InstructionView {
            program_id: self.program_id@,
            accounts: Seq::new(self.accounts@.len(), |i: int| self.accounts@[i]@),
            data: self.data@,
        }
    }
}

impl DeepView for Instruction {
    type V = InstructionView;

    open spec fn deep_view(&self) -> InstructionView {
        self@
    }
}

impl Instruction {
    /// The instruction that calls `program_id` on `accounts` with a copy
    /// of `data`.
    pub fn new_with_bytes(program_id: Address, data: &[u8], accounts: Vec<AccountMeta>) -> (ix:
        Instruction)
        ensures
            ix.program_id == program_id,
            ix.accounts == accounts,
            ix.data@ == data@,
    {
        Instruction { program_id, accounts, data: vstd::slice::slice_to_vec(data) }
    }
}

/// The instruction that creates the token account of `wallet` for `mint`
/// at `account`, paid by `funder`, and does nothing where the account
/// exists already.
pub open spec fn create_token_account_view(
    funder: Seq<u8>,
    account: Seq<u8>,
    wallet: Seq<u8>,
    mint: Seq<u8>,
) -> InstructionView {
    InstructionView {
        program_id: ASSOCIATED_TOKEN_PROGRAM@,
        accounts: seq![
            writable(funder, true),
            writable(account, false),
            readonly(wallet, false),
            readonly(mint, false),
            readonly(SYSTEM_PROGRAM@, false),
            readonly(TOKEN_PROGRAM@, false),
        ],
        data: seq![1u8],
    }
}

/// Builds the instruction with `create_associated_token_account_idempotent`
/// of spl-associated-token-account, under the token program.
///
/// Trusted: the instruction calls the associated token account program on
/// the funder, the wallet's token account for the mint, the wallet, the
/// mint, the system program and the token program, in this order, with the
/// one byte 1 as its payload. The outside function derives the token
/// account itself and panics where there is none: the call is made only
/// where there is one.
#[verifier::external_body]
fn create_idempotent(
    funder: &Address,
    wallet: &Address,
    mint: &Address,
    token_program: &Address,
) -> (ix: Instruction)
    requires
        token_program@ == TOKEN_PROGRAM@,
        token_account_address(wallet@, mint@) is Some,
    ensures
        ix@ == create_token_account_view(
            funder@,
            token_account_address(wallet@, mint@)->0,
            wallet@,
            mint@,
        ),
{
    let made = create_associated_token_account_idempotent(
        &Pubkey::new_from_array(funder.bytes),
        &Pubkey::new_from_array(wallet.bytes),
        &Pubkey::new_from_array(mint.bytes),
        &Pubkey::new_from_array(token_program.bytes),
    );
    let accounts = made.accounts.iter().map(|meta| AccountMeta {
        pubkey: Address { bytes: meta.pubkey.to_bytes() },
        is_signer: meta.is_signer,
        is_writable: meta.is_writable,
    }).collect();
    Instruction { program_id: Address { bytes: made.program_id.to_bytes() }, accounts, data: made.data }
}

/// What `create_token_account` returns.
pub open spec fn create_token_account_spec(funder: Seq<u8>, wallet: Seq<u8>, mint: Seq<u8>)
    -> Result<InstructionView, ComposeError> {
    match token_account_address(wallet, mint) {
        Some(account) => Ok(create_token_account_view(funder, account, wallet, mint)),
        None => Err(ComposeError::DerivationFailure),
    }
}

/// Builds the instruction that creates the token account of `wallet` for
/// `mint`, paid by `funder`. The instruction is idempotent: it succeeds
/// where the account exists already.
///
/// Fails with `DerivationFailure` exactly when the wallet has no token
/// account address for the mint.
pub fn create_token_account(funder: &Address, wallet: &Address, mint: &Address) -> (res: Result<
    Instruction,
    ComposeError,
>)
    ensures
        match res {
            Ok(ix) => create_token_account_spec(funder@, wallet@, mint@) == Ok::<
                InstructionView,
                ComposeError,
            >(ix@),
            Err(e) => create_token_account_spec(funder@, wallet@, mint@) == Err::<
                InstructionView,
                ComposeError,
            >(e),
        },
{
    match associated_token_address(wallet, mint) {
        Ok(_) => Ok(create_idempotent(funder, wallet, mint, &Address::new(TOKEN_PROGRAM))),
        Err(e) => Err(e),
    }
}

/// The stake instruction: the staking program called on the STEP mint, the
/// xSTEP mint, the staker's STEP account, the staker, who signs, the
/// vault, the staker's xSTEP account and the token program.
pub open spec fn stake_instruction_view(
    staker: Seq<u8>,
    step_account: Seq<u8>,
    xstep_account: Seq<u8>,
    vault: Seq<u8>,
    data: Seq<u8>,
) -> InstructionView {
    InstructionView {
        program_id: STAKE_PROGRAM@,
        accounts: seq![
            readonly(STEP_MINT@, false),
            writable(XSTEP_MINT@, false),
            writable(step_account, false),
            readonly(staker, true),
            writable(vault, false),
            writable(xstep_account, false),
            readonly(TOKEN_PROGRAM@, false),
        ],
        data,
    }
}

/// Builds the stake instruction for a staker, the staker's two token
/// accounts, the vault and an encoded payload.
pub fn stake_instruction(
    staker: &Address,
    step_account: &Address,
    xstep_account: &Address,
    vault: &Address,
    data: &[u8],
) -> (ix: Instruction)
    ensures
        ix@ == stake_instruction_view(staker@, step_account@, xstep_account@, vault@, data@),
{
    let mut accounts: Vec<AccountMeta> = Vec::new();
    accounts.push(AccountMeta::new_readonly(Address::new(STEP_MINT), false));
    accounts.push(AccountMeta::new(Address::new(XSTEP_MINT), false));
    accounts.push(AccountMeta::new(*step_account, false));
    accounts.push(AccountMeta::new_readonly(*staker, true));
    accounts.push(AccountMeta::new(*vault, false));
    accounts.push(AccountMeta::new(*xstep_account, false));
    accounts.push(AccountMeta::new_readonly(Address::new(TOKEN_PROGRAM), false));
    let ix = Instruction::new_with_bytes(Address::new(STAKE_PROGRAM), data, accounts);
    assert(ix@.accounts =~= stake_instruction_view(
        staker@,
        step_account@,
        xstep_account@,
        vault@,
        data@,
    ).accounts);
    ix
}

} // verus!
