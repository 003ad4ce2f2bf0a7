use crate::address::{
    parse_account, parse_mint, spec_parse_address, well_formed_address_text, Address, STEP_MINT,
    XSTEP_MINT,
};
use crate::amount::{is_decimal, normalize_amount, normalize_spec, parse_decimal, STEP_DECIMALS};
use crate::assemble::{
    assemble, assembled, lemma_swap_section_view, swap_part, swap_section_view, unsigned, views,
    SwapInstructions, UnsignedTransaction,
};
use crate::derive::{find_vault, token_account_address, vault_address};
use crate::encode::{encode_stake_data, stake_data, StakeInstructionArgs};
use crate::error::ComposeError;
use crate::instruction::{
    create_token_account, create_token_account_view, stake_instruction, stake_instruction_view,
    Instruction, InstructionView,
};
use crate::quote::{quote_request, staked_amount, staked_amount_spec, Quote, QuoteRequest};
use crate::wire::{decode_swap_instructions, swap_instructions_of, WireSwapInstructions};
use vstd::prelude::*;
use vstd::utf8::encode_utf8;

verus! {

/// A request to stake: the wallet, the amount as the staker typed it, and
/// the mint to swap from, where the amount is not in STEP itself.
#[derive(Clone, Debug, PartialEq, Eq)]
pub struct StakeAction {
    pub account: String,
    pub mint: Option<String>,
    pub amount: String,
}

/// A request that waits for the decimals of its input mint.
#[derive(Clone, Debug, PartialEq, Eq)]
pub struct MintPending {
    pub account: Address,
    pub input_mint: Address,
    pub amount: String,
}

/// A request that waits for a quote.
#[derive(Clone, Copy, Debug, PartialEq, Eq)]
pub struct QuotePending {
    pub account: Address,
    pub request: QuoteRequest,
}

/// A request that waits for the instructions of its swap.
#[derive(Clone, Copy, Debug, PartialEq, Eq)]
pub struct SwapPending {
    pub account: Address,
    /// The amount of STEP to stake, in base units.
    pub stake_amount: u64,
}

/// A finished request: the transaction for the wallet to sign, and a
/// message for the staker.
#[derive(Clone, Debug, PartialEq, Eq)]
pub struct StakeOutcome {
    pub transaction: UnsignedTransaction,
    pub message: String,
}

/// What the caller has to do next for a request.
#[derive(Clone, Debug, PartialEq, Eq)]
pub enum Step {
    /// Read the account of `input_mint` and go on with `on_mint`.
    ReadMint(MintPending),
    /// Ask the quote service what `request` says and go on with `on_quote`.
    GetQuote(QuotePending),
    /// Ask the swap service for the instructions of the quote, for the
    /// wallet `account`, and go on with `on_swap_instructions`.
    PostSwap(SwapPending),
    /// Hand the transaction out.
    Done(StakeOutcome),
    /// Report the error. Nothing more is to be done for the request.
    Failed(ComposeError),
}

/// What came of a request to a service.
#[derive(Clone, Debug, PartialEq, Eq)]
pub enum Fetched<T> {
    /// The service answered with a body of the expected shape.
    Received(T),
    /// The service could not be reached.
    Unavailable,
    /// The service answered with a body of another shape.
    Unreadable,
}

/// The instructions of the transaction that stakes `amount` for `staker`,
/// by their bytes: the creation of the staker's STEP account and of the
/// xSTEP account, both paid by the staker, the instructions of the swap,
/// and the stake with the bump seed of the vault as its nonce.
/// `DerivationFailure` where one of the three addresses cannot be derived.
pub open spec fn compose_spec(staker: Seq<u8>, amount: u64, swap: Seq<InstructionView>) -> Result<
    Seq<InstructionView>,
    ComposeError,
> {
    match (
        token_account_address(staker, STEP_MINT@),
        token_account_address(staker, XSTEP_MINT@),
        vault_address(),
    ) {
        (Some(step_account), Some(xstep_account), Some((vault, nonce))) => Ok(
            seq![
                create_token_account_view(staker, step_account, staker, STEP_MINT@),
                create_token_account_view(staker, xstep_account, staker, XSTEP_MINT@),
            ] + swap + seq![
                stake_instruction_view(
                    staker,
                    step_account,
                    xstep_account,
                    vault,
                    stake_data(nonce, amount),
                ),
            ],
        ),
        _ => Err(ComposeError::DerivationFailure),
    }
}

/// Whether a transaction is the one that `compose_spec` describes: its
/// instructions are those, and no fee payer is set.
pub open spec fn is_composed(
    tx: UnsignedTransaction,
    staker: Seq<u8>,
    amount: u64,
    swap: Seq<InstructionView>,
) -> bool {
    &&& compose_spec(staker, amount, swap) == Ok::<Seq<InstructionView>, ComposeError>(
        views(tx.instructions@),
    )
    &&& tx.fee_payer is None
}

/// Composes the transaction that stakes `amount` base units of STEP for
/// `staker`, after the swap where one is given. The instructions of the
/// swap stand in the transaction as they were given, from the third place
/// on.
///
/// Fails, with `DerivationFailure`, exactly when the staker's STEP account,
/// the staker's xSTEP account or the vault cannot be derived.
pub fn compose(staker: &Address, amount: u64, swap: Option<SwapInstructions>) -> (res: Result<
    UnsignedTransaction,
    ComposeError,
>)
    ensures
        match res {
            Ok(tx) => {
                &&& is_composed(tx, staker@, amount, views(swap_part(swap)))
                &&& tx.instructions@.len() == 3 + swap_part(swap).len()
                &&& tx.instructions@.subrange(2, tx.instructions@.len() - 1) == swap_part(swap)
            },
            Err(e) => compose_spec(staker@, amount, views(swap_part(swap))) == Err::<
                Seq<InstructionView>,
                ComposeError,
            >(e),
        },
{
    let step_mint = Address::new(STEP_MINT);
    let xstep_mint = Address::new(XSTEP_MINT);
    let create_step = match create_token_account(staker, staker, &step_mint) {
        Ok(ix) => ix,
        Err(e) => {
            return Err(e);
        },
    };
    let create_xstep = match create_token_account(staker, staker, &xstep_mint) {
        Ok(ix) => ix,
        Err(e) => {
            return Err(e);
        },
    };
    let (vault, nonce) = match find_vault() {
        Ok(found) => found,
        Err(e) => {
            return Err(e);
        },
    };
    let step_account = created_account(&create_step);
    let xstep_account = created_account(&create_xstep);
    let data = encode_stake_data(&StakeInstructionArgs { nonce, amount });
    let stake = stake_instruction(staker, &step_account, &xstep_account, &vault, data.as_slice());
    let instructions = assemble(create_step, create_xstep, swap, stake);
    proof {
        lemma_views_assembled(create_step, create_xstep, swap, stake);
    }
    Ok(unsigned(instructions))
}

/// The token account that a creating instruction creates: its second
/// account.
fn created_account(ix: &Instruction) -> (account: Address)
    requires
        ix@.accounts.len() == 6,
    ensures
        account@ == ix@.accounts[1].pubkey,
{
    ix.accounts[1].pubkey
}

/// The assembled instructions by their bytes, and where the swap lies
/// among them.
proof fn lemma_views_assembled(
    create_step: Instruction,
    create_xstep: Instruction,
    swap: Option<SwapInstructions>,
    stake: Instruction,
)
    ensures
        views(assembled(create_step, create_xstep, swap, stake)) == seq![
            create_step@,
            create_xstep@,
        ] + views(swap_part(swap)) + seq![stake@],
        assembled(create_step, create_xstep, swap, stake).len() == 3 + swap_part(swap).len(),
        assembled(create_step, create_xstep, swap, stake).subrange(
            2,
            assembled(create_step, create_xstep, swap, stake).len() - 1,
        ) == swap_part(swap),
{
    let all = assembled(create_step, create_xstep, swap, stake);
    assert(views(all) =~= seq![create_step@, create_xstep@] + views(swap_part(swap)) + seq![
        stake@,
    ]);
    assert(all.subrange(2, all.len() - 1) =~= swap_part(swap));
}

/// The message that goes with a finished transaction.
pub open spec fn success_message() -> Seq<char> {
    "Stake successfully completed"@
}

/// Whether a step ends the request as `compose_spec` says: with the
/// composed transaction and the message of success, or with the error.
pub open spec fn ends_with(step: Step, staker: Seq<u8>, amount: u64, swap: Seq<InstructionView>)
    -> bool {
    match compose_spec(staker, amount, swap) {
        Ok(_) => {
            &&& step matches Step::Done(outcome)
            &&& is_composed(outcome.transaction, staker, amount, swap)
            &&& outcome.message@ == success_message()
        },
        Err(e) => step == Step::Failed(e),
    }
}

fn finish(staker: &Address, amount: u64, swap: Option<SwapInstructions>) -> (step: Step)
    ensures
        ends_with(step, staker@, amount, views(swap_part(swap))),
        step is Done || step is Failed,
{
    match compose(staker, amount, swap) {
        Ok(transaction) => Step::Done(
            StakeOutcome { transaction, message: "Stake successfully completed".to_owned() },
        ),
        Err(e) => Step::Failed(e),
    }
}

/// Whether `step` ends a request that needs no swap: the amount is in
/// STEP, it is normalised with the decimals of STEP, and the request ends
/// with the error of that or as `compose_spec` says.
pub open spec fn ends_directly(action: StakeAction, staker: Seq<u8>, step: Step) -> bool {
    match normalize_spec(encode_utf8(action.amount@), STEP_DECIMALS) {
        Err(e) => step == Step::Failed(e),
        Ok(amount) => ends_with(step, staker, amount, Seq::<InstructionView>::empty()),
    }
}

/// Whether `step` is the first step of a request.
///
/// A wallet address that is none ends the request with `InvalidAddress`.
/// Without a mint to swap from, and with the mint of STEP itself, nothing
/// is swapped and the request ends at once. With another mint: a mint
/// address that is none ends the request with `InvalidMintAddress`, an
/// amount that is no decimal number with `InvalidAmount`; otherwise the
/// mint is to be read.
pub open spec fn is_first_step(action: StakeAction, step: Step) -> bool {
    match spec_parse_address(action.account@) {
        None => step == Step::Failed(ComposeError::InvalidAddress),
        Some(staker) => match action.mint {
            None => ends_directly(action, staker, step),
            Some(mint_text) => match spec_parse_address(mint_text@) {
                None => step == Step::Failed(ComposeError::InvalidMintAddress),
                Some(mint) => if mint == STEP_MINT@ {
                    ends_directly(action, staker, step)
                } else if parse_decimal(encode_utf8(action.amount@)) is None {
                    step == Step::Failed(ComposeError::InvalidAmount)
                } else {
                    &&& step matches Step::ReadMint(pending)
                    &&& pending.account@ == staker
                    &&& pending.input_mint@ == mint
                    &&& pending.amount@ == action.amount@
                },
            },
        },
    }
}

/// Starts a staking request.
///
/// No service has been asked anything when this returns: a request with a
/// malformed address or amount fails here, before any network call.
pub fn stake(action: &StakeAction) -> (step: Step)
    ensures
        is_first_step(*action, step),
        !well_formed_address_text(action.account@) ==> step == Step::Failed(
            ComposeError::InvalidAddress,
        ),
        step is ReadMint || step is Done || step is Failed,
{
    let staker = match parse_account(action.account.as_str()) {
        Ok(address) => address,
        Err(e) => {
            return Step::Failed(e);
        },
    };
    match &action.mint {
        Some(mint_text) => {
            let input_mint = match parse_mint(mint_text.as_str()) {
                Ok(address) => address,
                Err(e) => {
                    return Step::Failed(e);
                },
            };
            if input_mint.same(&Address::new(STEP_MINT)) {
                return stake_directly(action, &staker);
            }
            if !is_decimal(action.amount.as_str()) {
                return Step::Failed(ComposeError::InvalidAmount);
            }
            Step::ReadMint(
                MintPending { account: staker, input_mint, amount: action.amount.clone() },
            )
        },
        None => stake_directly(action, &staker),
    }
}

fn stake_directly(action: &StakeAction, staker: &Address) -> (step: Step)
    ensures
        ends_directly(*action, staker@, step),
        step is Done || step is Failed,
{
    match normalize_amount(action.amount.as_str(), STEP_DECIMALS) {
        Ok(amount) => {
            assert(views(swap_part(None)) =~= Seq::<InstructionView>::empty());
            finish(staker, amount, None)
        },
        Err(e) => Step::Failed(e),
    }
}

/// Whether `step` follows the reading of the mint: the amount is
/// normalised with the decimals of the mint; an error ends the request,
/// otherwise a quote from the input mint into STEP is to be asked for.
pub open spec fn follows_mint(pending: MintPending, decimals: u8, step: Step) -> bool {
    match normalize_spec(encode_utf8(pending.amount@), decimals) {
        Err(e) => step == Step::Failed(e),
        Ok(amount) => {
            &&& step matches Step::GetQuote(next)
            &&& next.account == pending.account
            &&& next.request.input_mint == pending.input_mint
            &&& next.request.output_mint@ == STEP_MINT@
            &&& next.request.amount == amount
            &&& next.request.slippage_bps is None
            &&& next.request.max_accounts == Some(crate::quote::MAX_ACCOUNTS)
        },
    }
}

/// Goes on with the decimals of the input mint.
pub fn on_mint(pending: MintPending, decimals: u8) -> (step: Step)
    ensures
        follows_mint(pending, decimals, step),
        step is GetQuote || step is Failed,
{
    match normalize_amount(pending.amount.as_str(), decimals) {
        Ok(amount) => Step::GetQuote(
            QuotePending {
                account: pending.account,
                request: quote_request(pending.input_mint, amount),
            },
        ),
        Err(e) => Step::Failed(e),
    }
}

/// Whether `step` follows the answer of the quote service: a service that
/// could not be reached ends the request with `ServiceUnavailable`; an
/// answer that is no quote, or a quote without a route, with
/// `QuoteNotFound`; otherwise the instructions of the swap are to be asked
/// for, and the amount to stake is what the quote promises.
pub open spec fn follows_quote(pending: QuotePending, reply: Fetched<Quote>, step: Step) -> bool {
    match reply {
        Fetched::Unavailable => step == Step::Failed(ComposeError::ServiceUnavailable),
        Fetched::Unreadable => step == Step::Failed(ComposeError::QuoteNotFound),
        Fetched::Received(quote) => match staked_amount_spec(quote) {
            Err(e) => step == Step::Failed(e),
            Ok(amount) => step == Step::PostSwap(
                SwapPending { account: pending.account, stake_amount: amount },
            ),
        },
    }
}

/// Goes on with the answer of the quote service.
pub fn on_quote(pending: QuotePending, reply: Fetched<Quote>) -> (step: Step)
    ensures
        follows_quote(pending, reply, step),
        step is PostSwap || step is Failed,
{
    match reply {
        Fetched::Unavailable => Step::Failed(ComposeError::ServiceUnavailable),
        Fetched::Unreadable => Step::Failed(ComposeError::QuoteNotFound),
        Fetched::Received(quote) => match staked_amount(&quote) {
            Ok(amount) => Step::PostSwap(
                SwapPending { account: pending.account, stake_amount: amount },
            ),
            Err(e) => Step::Failed(e),
        },
    }
}

/// Whether `step` follows the answer of the swap service: a service that
/// could not be reached ends the request with `ServiceUnavailable`; an
/// answer of another shape, or one whose instructions cannot be read, with
/// `MalformedResponse`; otherwise the request ends as `compose_spec` says
/// for the instructions received.
pub open spec fn follows_swap(
    pending: SwapPending,
    reply: Fetched<WireSwapInstructions>,
    step: Step,
) -> bool {
    match reply {
        Fetched::Unavailable => step == Step::Failed(ComposeError::ServiceUnavailable),
        Fetched::Unreadable => step == Step::Failed(ComposeError::MalformedResponse),
        Fetched::Received(wire) => match swap_instructions_of(wire) {
            None => step == Step::Failed(ComposeError::MalformedResponse),
            Some(swap) => ends_with(
                step,
                pending.account@,
                pending.stake_amount,
                swap_section_view(swap),
            ),
        },
    }
}

/// Goes on with the answer of the swap service, and ends the request.
pub fn on_swap_instructions(pending: SwapPending, reply: Fetched<WireSwapInstructions>) -> (step:
    Step)
    ensures
        follows_swap(pending, reply, step),
        step is Done || step is Failed,
{
    match reply {
        Fetched::Unavailable => Step::Failed(ComposeError::ServiceUnavailable),
        Fetched::Unreadable => Step::Failed(ComposeError::MalformedResponse),
        Fetched::Received(wire) => match decode_swap_instructions(&wire) {
            Ok(swap) => {
                proof {
                    lemma_swap_section_view(swap);
                }
                finish(&pending.account, pending.stake_amount, Some(swap))
            },
            Err(e) => Step::Failed(e),
        },
    }
}

/// What the caller brings back from the network.
#[derive(Clone, Debug, PartialEq, Eq)]
pub enum Event {
    /// The decimals of the input mint.
    Mint(u8),
    /// What came of asking for a quote.
    Quote(Fetched<Quote>),
    /// What came of asking for the instructions of the swap.
    Swap(Fetched<WireSwapInstructions>),
}

/// How many requests to the network a step is away from its end, at most.
pub open spec fn remaining(step: Step) -> nat {
    match step {
        Step::ReadMint(_) => 3,
        Step::GetQuote(_) => 2,
        Step::PostSwap(_) => 1,
        Step::Done(_) => 0,
        Step::Failed(_) => 0,
    }
}

/// Whether `event` is what `step` waits for.
pub open spec fn awaits(step: Step, event: Event) -> bool {
    match (step, event) {
        (Step::ReadMint(_), Event::Mint(_)) => true,
        (Step::GetQuote(_), Event::Quote(_)) => true,
        (Step::PostSwap(_), Event::Swap(_)) => true,
        _ => false,
    }
}

/// Whether `next` is the step after `step` and `event`: what `on_mint`,
/// `on_quote` or `on_swap_instructions` says where the step waits for the
/// event, and the step itself where it does not.
pub open spec fn is_next(step: Step, event: Event, next: Step) -> bool {
    match (step, event) {
        (Step::ReadMint(pending), Event::Mint(decimals)) => follows_mint(pending, decimals, next),
        (Step::GetQuote(pending), Event::Quote(reply)) => follows_quote(pending, reply, next),
        (Step::PostSwap(pending), Event::Swap(reply)) => follows_swap(pending, reply, next),
        _ => next == step,
    }
}

/// Takes a request one step further with what the caller brings back.
///
/// An event that the step does not wait for changes nothing. One that it
/// waits for brings the request nearer to its end, so that no request asks
/// the network more than three times.
pub fn advance(step: Step, event: Event) -> (next: Step)
    ensures
        is_next(step, event, next),
        awaits(step, event) ==> remaining(next) < remaining(step),
        !awaits(step, event) ==> next == step,
{
    match (step, event) {
        (Step::ReadMint(pending), Event::Mint(decimals)) => on_mint(pending, decimals),
        (Step::GetQuote(pending), Event::Quote(reply)) => on_quote(pending, reply),
        (Step::PostSwap(pending), Event::Swap(reply)) => on_swap_instructions(pending, reply),
        (step, _) => step,
    }
}

} // verus!
