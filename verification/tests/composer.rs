use base64::engine::general_purpose::STANDARD;
use base64::Engine;
use solana_sdk::message::Message;
use solana_sdk::pubkey::Pubkey;
use solana_sdk::transaction::Transaction;
use spl_associated_token_account::get_associated_token_address;
use std::str::FromStr;
use spl_associated_token_account::instruction::create_associated_token_account_idempotent;
use step_staking::address::{Address, STAKE_PROGRAM, STEP_MINT, XSTEP_MINT};
use step_staking::composer::{
    advance, compose, on_mint, on_quote, on_swap_instructions, stake, Event, Fetched,
    MintPending, QuotePending, StakeAction, Step, SwapPending,
};
use step_staking::derive::{associated_token_address, find_vault};
use step_staking::encode::{encode_stake_data, StakeInstructionArgs};
use step_staking::error::ComposeError;
use step_staking::instruction::{
    create_token_account, stake_instruction, AccountMeta, Instruction,
};
use step_staking::quote::{quote_request, Quote, RouteHop};
use step_staking::wire::{WireAccount, WireInstruction, WireSwapInstructions};

const WALLET: &str = "9xQeWvG816bUx9EPjHmaT23yvVM2ZWbrrpZb9PusVFin";
const USDC: &str = "EPjFWdd5AufqSSqeM2qN1xzybapC8G4wEGGkZwyTDt1v";

fn wallet() -> Address {
    Address::parse(WALLET).unwrap()
}

fn text(bytes: [u8; 32]) -> String {
    Pubkey::new_from_array(bytes).to_string()
}

fn written(mark: u8) -> WireInstruction {
    WireInstruction {
        program_id: text([mark; 32]),
        accounts: vec![WireAccount {
            pubkey: text([mark + 1; 32]),
            is_signer: false,
            is_writable: true,
        }],
        data: STANDARD.encode([mark]),
    }
}

fn read(mark: u8) -> Instruction {
    Instruction {
        program_id: Address::new([mark; 32]),
        accounts: vec![AccountMeta {
            pubkey: Address::new([mark + 1; 32]),
            is_signer: false,
            is_writable: true,
        }],
        data: vec![mark],
    }
}

fn written_swap(ledger: bool, budget: bool, setup: bool, cleanup: bool) -> WireSwapInstructions {
    WireSwapInstructions {
        token_ledger_instruction: if ledger { Some(written(10)) } else { None },
        compute_budget_instructions: if budget { vec![written(20), written(22)] } else { vec![] },
        setup_instructions: if setup { vec![written(30), written(32)] } else { vec![] },
        swap_instruction: written(40),
        cleanup_instruction: if cleanup { Some(written(50)) } else { None },
        address_lookup_table_addresses: vec![],
        prioritization_fee_lamports: 0,
    }
}

fn good_quote(out_amount: &str) -> Quote {
    Quote {
        input_mint: USDC.to_string(),
        in_amount: "2500000".to_string(),
        output_mint: "StepAscQoEioFxxWGnh2sLBDFp9d8rvKz2Yp39iDpyT".to_string(),
        out_amount: out_amount.to_string(),
        slippage_bps: 50,
        route_plan: vec![RouteHop {
            amm_key: "pool".to_string(),
            label: "Pool".to_string(),
            percent: 100,
        }],
    }
}

fn create_step() -> Instruction {
    create_token_account(&wallet(), &wallet(), &Address::new(STEP_MINT)).unwrap()
}

fn create_xstep() -> Instruction {
    create_token_account(&wallet(), &wallet(), &Address::new(XSTEP_MINT)).unwrap()
}

fn stake_of(amount: u64) -> Instruction {
    let (vault, nonce) = find_vault().unwrap();
    let step_account = associated_token_address(&wallet(), &Address::new(STEP_MINT)).unwrap();
    let xstep_account = associated_token_address(&wallet(), &Address::new(XSTEP_MINT)).unwrap();
    let data = encode_stake_data(&StakeInstructionArgs { nonce, amount });
    stake_instruction(&wallet(), &step_account, &xstep_account, &vault, &data)
}

fn direct(amount: &str) -> StakeAction {
    StakeAction { account: WALLET.to_string(), mint: None, amount: amount.to_string() }
}

fn swapping(amount: &str) -> StakeAction {
    StakeAction {
        account: WALLET.to_string(),
        mint: Some(USDC.to_string()),
        amount: amount.to_string(),
    }
}

fn sdk_instruction(ix: &Instruction) -> solana_sdk::instruction::Instruction {
    solana_sdk::instruction::Instruction {
        program_id: Pubkey::new_from_array(ix.program_id.bytes),
        accounts: ix
            .accounts
            .iter()
            .map(|m| solana_sdk::instruction::AccountMeta {
                pubkey: Pubkey::new_from_array(m.pubkey.bytes),
                is_signer: m.is_signer,
                is_writable: m.is_writable,
            })
            .collect(),
        data: ix.data.clone(),
    }
}

/// Services that count how often they are asked.
struct Services {
    mint_reads: usize,
    quote_calls: usize,
    swap_calls: usize,
    decimals: u8,
    quote: Fetched<Quote>,
    swap: Fetched<WireSwapInstructions>,
}

impl Services {
    fn new(quote: Fetched<Quote>, swap: Fetched<WireSwapInstructions>) -> Services {
        Services { mint_reads: 0, quote_calls: 0, swap_calls: 0, decimals: 6, quote, swap }
    }

    fn calls(&self) -> usize {
        self.mint_reads + self.quote_calls + self.swap_calls
    }

    fn run(&mut self, action: &StakeAction) -> Step {
        let mut step = stake(action);
        loop {
            step = match step {
                Step::ReadMint(pending) => {
                    self.mint_reads += 1;
                    on_mint(pending, self.decimals)
                }
                Step::GetQuote(pending) => {
                    self.quote_calls += 1;
                    on_quote(pending, self.quote.clone())
                }
                Step::PostSwap(pending) => {
                    self.swap_calls += 1;
                    on_swap_instructions(pending, self.swap.clone())
                }
                ended => return ended,
            };
        }
    }
}

fn working() -> Services {
    Services::new(
        Fetched::Received(good_quote("750000000")),
        Fetched::Received(written_swap(true, true, true, true)),
    )
}

#[test]
fn staking_step_directly_gives_three_instructions() {
    let step = stake(&direct("1.5"));
    let outcome = match step {
        Step::Done(outcome) => outcome,
        other => panic!("{:?}", other),
    };
    assert_eq!(
        outcome.transaction.instructions,
        vec![create_step(), create_xstep(), stake_of(1_500_000_000)]
    );
    assert_eq!(outcome.transaction.instructions.len(), 3);
    assert_eq!(outcome.transaction.fee_payer, None);
    assert_eq!(outcome.message, "Stake successfully completed");
}

#[test]
fn staking_step_directly_asks_no_service() {
    let mut services = working();
    let step = services.run(&direct("2"));
    assert!(matches!(step, Step::Done(_)));
    assert_eq!(services.calls(), 0);
}

#[test]
fn swapping_with_setup_and_cleanup_gives_every_leg_in_order() {
    let mut services = working();
    let step = services.run(&swapping("2.5"));
    let outcome = match step {
        Step::Done(outcome) => outcome,
        other => panic!("{:?}", other),
    };
    assert_eq!(
        outcome.transaction.instructions,
        vec![
            create_step(),
            create_xstep(),
            read(10),
            read(20),
            read(22),
            read(30),
            read(32),
            read(40),
            read(50),
            stake_of(750_000_000),
        ]
    );
    assert_eq!(outcome.transaction.fee_payer, None);
    assert_eq!(outcome.message, "Stake successfully completed");
    assert_eq!((services.mint_reads, services.quote_calls, services.swap_calls), (1, 1, 1));
}

#[test]
fn every_presence_of_the_optional_legs_keeps_the_order() {
    for ledger in [false, true] {
        for budget in [false, true] {
            for setup in [false, true] {
                for cleanup in [false, true] {
                    let mut services = Services::new(
                        Fetched::Received(good_quote("42")),
                        Fetched::Received(written_swap(ledger, budget, setup, cleanup)),
                    );
                    let outcome = match services.run(&swapping("1")) {
                        Step::Done(outcome) => outcome,
                        other => panic!("{:?}", other),
                    };
                    let mut expected = vec![create_step(), create_xstep()];
                    if ledger {
                        expected.push(read(10));
                    }
                    if budget {
                        expected.extend([read(20), read(22)]);
                    }
                    if setup {
                        expected.extend([read(30), read(32)]);
                    }
                    expected.push(read(40));
                    if cleanup {
                        expected.push(read(50));
                    }
                    expected.push(stake_of(42));
                    assert_eq!(outcome.transaction.instructions, expected);
                }
            }
        }
    }
}

#[test]
fn malformed_wallet_is_invalid_and_nothing_is_asked() {
    for account in [
        "",
        "abc",
        "0000000000000000000000000000000000000000000",
        "9xQeWvG816bUx9EPjHmaT23yvVM2ZWbrrpZb9PusVFl",
        "9xQeWvG816bUx9EPjHmaT23yvVM2ZWbrrpZb9PusV in",
        "9xQeWvG816bUx9EPjHmaT23yvVM2ZWbrrpZb9PusVFinn",
        "9xQeWvG816bUx9EPjHmaT23yvVM2ZWbrrpZb9PusVFin9xQeWvG816bUx9EPjHmaT23yvVM2ZWbrrpZb9PusVFin",
    ] {
        assert!(Pubkey::from_str(account).is_err());
        for mint in [None, Some(USDC.to_string()), Some("bad mint".to_string())] {
            let mut services = working();
            let action =
                StakeAction { account: account.to_string(), mint, amount: "1".to_string() };
            assert_eq!(services.run(&action), Step::Failed(ComposeError::InvalidAddress));
            assert_eq!(services.calls(), 0);
        }
    }
}

#[test]
fn malformed_mint_is_invalid_and_nothing_is_asked() {
    let mut services = working();
    let action = StakeAction {
        account: WALLET.to_string(),
        mint: Some("EPjFWdd5AufqSSqeM2qN1xzybapC8G4wEGGkZwyTDt1O".to_string()),
        amount: "1".to_string(),
    };
    assert_eq!(services.run(&action), Step::Failed(ComposeError::InvalidMintAddress));
    assert_eq!(services.calls(), 0);
}

#[test]
fn malformed_amount_is_invalid_and_nothing_is_asked() {
    for amount in ["", "one", "1e3", "1.2.3"] {
        let mut services = working();
        assert_eq!(services.run(&swapping(amount)), Step::Failed(ComposeError::InvalidAmount));
        assert_eq!(services.calls(), 0);
        assert_eq!(stake(&direct(amount)), Step::Failed(ComposeError::InvalidAmount));
    }
}

#[test]
fn amount_in_step_is_checked_at_once() {
    assert_eq!(
        stake(&direct("18446744073.709551616")),
        Step::Failed(ComposeError::AmountOverflow)
    );
    assert_eq!(stake(&direct("-1")), Step::Failed(ComposeError::AmountUnderflow));
    assert!(matches!(stake(&direct("18446744073.709551615")), Step::Done(_)));
}

#[test]
fn first_step_of_a_swap_is_to_read_the_mint() {
    let step = stake(&swapping("2.5"));
    assert_eq!(
        step,
        Step::ReadMint(MintPending {
            account: wallet(),
            input_mint: Address::parse(USDC).unwrap(),
            amount: "2.5".to_string(),
        })
    );
}

#[test]
fn after_the_mint_a_quote_is_asked_for() {
    let pending = MintPending {
        account: wallet(),
        input_mint: Address::parse(USDC).unwrap(),
        amount: "2.5".to_string(),
    };
    let step = on_mint(pending, 6);
    assert_eq!(
        step,
        Step::GetQuote(QuotePending {
            account: wallet(),
            request: quote_request(Address::parse(USDC).unwrap(), 2_500_000),
        })
    );
    match step {
        Step::GetQuote(next) => {
            assert_eq!(next.request.output_mint, Address::new(STEP_MINT));
            assert_eq!(next.request.amount, 2_500_000);
            assert_eq!(next.request.max_accounts, Some(9));
            assert_eq!(next.request.slippage_bps, None);
        }
        other => panic!("{:?}", other),
    }
}

#[test]
fn amount_is_scaled_by_the_decimals_of_the_mint() {
    for (decimals, expected) in [(0u8, 2u64), (1, 25), (6, 2_500_000), (9, 2_500_000_000)] {
        let pending = MintPending {
            account: wallet(),
            input_mint: Address::parse(USDC).unwrap(),
            amount: "2.5".to_string(),
        };
        match on_mint(pending, decimals) {
            Step::GetQuote(next) => assert_eq!(next.request.amount, expected),
            other => panic!("{:?}", other),
        }
    }
}

#[test]
fn overflow_after_the_mint_ends_before_any_quote() {
    let mut services = working();
    services.decimals = 30;
    assert_eq!(services.run(&swapping("1")), Step::Failed(ComposeError::AmountOverflow));
    assert_eq!((services.mint_reads, services.quote_calls, services.swap_calls), (1, 0, 0));
    let mut negative = working();
    assert_eq!(negative.run(&swapping("-2")), Step::Failed(ComposeError::AmountUnderflow));
    assert_eq!((negative.quote_calls, negative.swap_calls), (0, 0));
}

#[test]
fn quote_service_that_fails_is_unavailable() {
    let mut services =
        Services::new(Fetched::Unavailable, Fetched::Received(written_swap(false, false, false, false)));
    assert_eq!(services.run(&swapping("1")), Step::Failed(ComposeError::ServiceUnavailable));
    assert_eq!((services.quote_calls, services.swap_calls), (1, 0));
}

#[test]
fn quote_with_an_empty_route_is_not_found() {
    let mut empty = good_quote("1000");
    empty.route_plan = vec![];
    let mut services =
        Services::new(Fetched::Received(empty), Fetched::Received(written_swap(false, false, false, false)));
    assert_eq!(services.run(&swapping("1")), Step::Failed(ComposeError::QuoteNotFound));
    assert_eq!((services.quote_calls, services.swap_calls), (1, 0));
}

#[test]
fn answer_that_is_no_quote_is_not_found() {
    let pending = QuotePending {
        account: wallet(),
        request: quote_request(Address::parse(USDC).unwrap(), 1),
    };
    assert_eq!(on_quote(pending, Fetched::Unreadable), Step::Failed(ComposeError::QuoteNotFound));
}

#[test]
fn after_the_quote_the_swap_is_asked_for() {
    let pending = QuotePending {
        account: wallet(),
        request: quote_request(Address::parse(USDC).unwrap(), 2_500_000),
    };
    assert_eq!(
        on_quote(pending, Fetched::Received(good_quote("750000000"))),
        Step::PostSwap(SwapPending { account: wallet(), stake_amount: 750_000_000 })
    );
    assert_eq!(
        on_quote(pending, Fetched::Received(good_quote("n/a"))),
        Step::PostSwap(SwapPending { account: wallet(), stake_amount: 0 })
    );
}

#[test]
fn swap_service_that_fails_is_unavailable() {
    let mut services = Services::new(Fetched::Received(good_quote("5")), Fetched::Unavailable);
    assert_eq!(services.run(&swapping("1")), Step::Failed(ComposeError::ServiceUnavailable));
    assert_eq!((services.mint_reads, services.quote_calls, services.swap_calls), (1, 1, 1));
}

#[test]
fn swap_answer_of_another_shape_is_malformed() {
    let pending = SwapPending { account: wallet(), stake_amount: 5 };
    assert_eq!(
        on_swap_instructions(pending, Fetched::Unreadable),
        Step::Failed(ComposeError::MalformedResponse)
    );
    let mut broken = written_swap(true, true, true, true);
    broken.setup_instructions[1].data = "***".to_string();
    assert_eq!(
        on_swap_instructions(pending, Fetched::Received(broken)),
        Step::Failed(ComposeError::MalformedResponse)
    );
}

#[test]
fn stake_carries_the_bump_of_the_vault_and_the_amount() {
    let tx = compose(&wallet(), 1000, None).unwrap();
    let stake_ix = &tx.instructions[2];
    let (vault, bump) =
        Pubkey::find_program_address(&[&STEP_MINT], &Pubkey::new_from_array(STAKE_PROGRAM));
    assert_eq!(stake_ix.program_id, Address::new(STAKE_PROGRAM));
    assert_eq!(stake_ix.data[8], bump);
    assert_eq!(&stake_ix.data[9..], &1000u64.to_le_bytes());
    assert_eq!(stake_ix.accounts[4].pubkey.bytes, vault.to_bytes());
    assert_eq!(stake_ix.accounts[3].pubkey, wallet());
    let step_account = get_associated_token_address(
        &Pubkey::new_from_array(wallet().bytes),
        &Pubkey::new_from_array(STEP_MINT),
    );
    let xstep_account = get_associated_token_address(
        &Pubkey::new_from_array(wallet().bytes),
        &Pubkey::new_from_array(XSTEP_MINT),
    );
    assert_eq!(stake_ix.accounts[2].pubkey.bytes, step_account.to_bytes());
    assert_eq!(stake_ix.accounts[5].pubkey.bytes, xstep_account.to_bytes());
}

#[test]
fn composed_transaction_is_what_the_sdk_calls_build() {
    let tx = compose(&wallet(), 77, None).unwrap();
    let key = Pubkey::new_from_array(wallet().bytes);
    let first = create_associated_token_account_idempotent(
        &key,
        &key,
        &Pubkey::new_from_array(STEP_MINT),
        &spl_token::ID,
    );
    let second = create_associated_token_account_idempotent(
        &key,
        &key,
        &Pubkey::new_from_array(XSTEP_MINT),
        &spl_token::ID,
    );
    assert_eq!(sdk_instruction(&tx.instructions[0]), first);
    assert_eq!(sdk_instruction(&tx.instructions[1]), second);
}

#[test]
fn composed_instructions_compile_into_a_message_paid_by_the_staker() {
    let tx = compose(&wallet(), 77, None).unwrap();
    let instructions: Vec<solana_sdk::instruction::Instruction> =
        tx.instructions.iter().map(sdk_instruction).collect();
    let message = Message::new(&instructions, None);
    let transaction = Transaction::new_unsigned(message);
    assert_eq!(transaction.message.instructions.len(), 3);
    assert_eq!(transaction.message.account_keys[0].to_bytes(), wallet().bytes);
    assert_eq!(transaction.message.header.num_required_signatures, 1);
    assert_eq!(transaction.signatures.len(), 1);
    assert_eq!(transaction.signatures[0], solana_sdk::signature::Signature::default());
    assert_eq!(transaction.message.instructions[2].data, tx.instructions[2].data);
}

#[test]
fn composing_twice_gives_the_same_transaction() {
    assert_eq!(compose(&wallet(), 5, None), compose(&wallet(), 5, None));
    assert_ne!(compose(&wallet(), 5, None), compose(&wallet(), 6, None));
}

#[test]
fn the_mint_of_step_itself_needs_no_swap() {
    let mut services = working();
    let action = StakeAction {
        account: WALLET.to_string(),
        mint: Some("StepAscQoEioFxxWGnh2sLBDFp9d8rvKz2Yp39iDpyT".to_string()),
        amount: "1.5".to_string(),
    };
    let outcome = match services.run(&action) {
        Step::Done(outcome) => outcome,
        other => panic!("{:?}", other),
    };
    assert_eq!(
        outcome.transaction.instructions,
        vec![create_step(), create_xstep(), stake_of(1_500_000_000)]
    );
    assert_eq!(services.calls(), 0);
    assert_eq!(stake(&action), stake(&direct("1.5")));
}

#[test]
fn the_quote_is_asked_for_at_the_address_of_the_request() {
    match on_mint(
        MintPending {
            account: wallet(),
            input_mint: Address::parse(USDC).unwrap(),
            amount: "0.5".to_string(),
        },
        6,
    ) {
        Step::GetQuote(next) => assert_eq!(
            next.request.url(),
            format!(
                "https://quote-api.jup.ag/v6/quote?inputMint={}&outputMint={}&amount=500000&maxAccounts=9",
                USDC,
                Pubkey::new_from_array(STEP_MINT)
            )
        ),
        other => panic!("{:?}", other),
    }
}

#[test]
fn the_swap_is_asked_for_in_the_name_of_the_staker() {
    match on_quote(
        QuotePending { account: wallet(), request: quote_request(Address::parse(USDC).unwrap(), 1) },
        Fetched::Received(good_quote("9")),
    ) {
        Step::PostSwap(next) => assert_eq!(next.account.to_base58(), WALLET),
        other => panic!("{:?}", other),
    }
}

#[test]
fn advance_goes_the_way_of_the_single_steps() {
    let mint_pending = MintPending {
        account: wallet(),
        input_mint: Address::parse(USDC).unwrap(),
        amount: "2.5".to_string(),
    };
    let quote_pending =
        QuotePending { account: wallet(), request: quote_request(Address::parse(USDC).unwrap(), 1) };
    let swap_pending = SwapPending { account: wallet(), stake_amount: 5 };
    assert_eq!(
        advance(Step::ReadMint(mint_pending.clone()), Event::Mint(6)),
        on_mint(mint_pending, 6)
    );
    assert_eq!(
        advance(Step::GetQuote(quote_pending), Event::Quote(Fetched::Received(good_quote("8")))),
        on_quote(quote_pending, Fetched::Received(good_quote("8")))
    );
    assert_eq!(
        advance(Step::GetQuote(quote_pending), Event::Quote(Fetched::Unavailable)),
        Step::Failed(ComposeError::ServiceUnavailable)
    );
    let swap = written_swap(false, true, false, true);
    assert_eq!(
        advance(Step::PostSwap(swap_pending), Event::Swap(Fetched::Received(swap.clone()))),
        on_swap_instructions(swap_pending, Fetched::Received(swap))
    );
}

#[test]
fn an_event_that_is_not_waited_for_changes_nothing() {
    let quote_pending =
        QuotePending { account: wallet(), request: quote_request(Address::parse(USDC).unwrap(), 1) };
    let steps = [
        Step::GetQuote(quote_pending),
        Step::PostSwap(SwapPending { account: wallet(), stake_amount: 1 }),
        Step::Failed(ComposeError::QuoteNotFound),
        stake(&direct("1")),
    ];
    for step in steps {
        assert_eq!(advance(step.clone(), Event::Mint(6)), step);
    }
    let waiting = stake(&swapping("1"));
    assert_eq!(advance(waiting.clone(), Event::Quote(Fetched::Unavailable)), waiting);
    assert_eq!(advance(waiting.clone(), Event::Swap(Fetched::Unreadable)), waiting);
}

#[test]
fn a_request_ends_after_three_events_at_most() {
    let mut step = stake(&swapping("3"));
    let events = [
        Event::Mint(6),
        Event::Quote(Fetched::Received(good_quote("11"))),
        Event::Swap(Fetched::Received(written_swap(false, false, true, false))),
    ];
    let mut asked = 0;
    for event in events {
        assert!(!matches!(step, Step::Done(_) | Step::Failed(_)));
        step = advance(step, event);
        asked += 1;
    }
    assert_eq!(asked, 3);
    match step {
        Step::Done(outcome) => assert_eq!(outcome.transaction.instructions.len(), 6),
        other => panic!("{:?}", other),
    }
}
