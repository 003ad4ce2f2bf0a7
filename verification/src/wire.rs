use crate::address::{spec_parse_address, Address};
use crate::assemble::{optional_view, SwapInstructions, SwapInstructionsView};
use crate::error::ComposeError;
use crate::instruction::{AccountMeta, AccountMetaView, Instruction, InstructionView};
use base64::Engine;
use vstd::prelude::*;

verus! {

/// An account of an instruction as the swap service writes it: the
/// address in base 58.
#[derive(Clone, Debug, PartialEq, Eq)]
pub struct WireAccount {
    pub pubkey: String,
    pub is_signer: bool,
    pub is_writable: bool,
}

/// An instruction as the swap service writes it: the addresses in base 58
/// and the payload in base 64.
#[derive(Clone, Debug, PartialEq, Eq)]
pub struct WireInstruction {
    pub program_id: String,
    pub accounts: Vec<WireAccount>,
    pub data: String,
}

/// The instructions of a swap as the swap service writes them.
#[derive(Clone, Debug, PartialEq, Eq)]
pub struct WireSwapInstructions {
    pub token_ledger_instruction: Option<WireInstruction>,
    pub compute_budget_instructions: Vec<WireInstruction>,
    pub setup_instructions: Vec<WireInstruction>,
    pub swap_instruction: WireInstruction,
    pub cleanup_instruction: Option<WireInstruction>,
    pub address_lookup_table_addresses: Vec<String>,
    pub prioritization_fee_lamports: u64,
}

/// The bytes that a text stands for in base 64, with the standard alphabet
/// and padding, if it stands for any.
pub uninterp spec fn spec_base64(text: Seq<char>) -> Option<Seq<u8>>;

/// Decodes base 64 with the `STANDARD` engine of base64.
///
/// Trusted: whether the text decodes, and to which bytes, depends on the
/// text alone.
#[verifier::external_body]
fn base64_decode(text: &str) -> (res: Option<Vec<u8>>)
    ensures
        res is Some <==> spec_base64(text@) is Some,
        res matches Some(bytes) ==> spec_base64(text@) == Some(bytes@),
{
    base64::engine::general_purpose::STANDARD.decode(text).ok()
}

/// The account that a written account stands for, if its address is one.
pub open spec fn account_of(wire: WireAccount) -> Option<AccountMetaView> {
    match spec_parse_address(wire.pubkey@) {
        Some(pubkey) => Some(
            AccountMetaView { pubkey, is_signer: wire.is_signer, is_writable: wire.is_writable },
        ),
        None => None,
    }
}

/// Whether every written account stands for an account.
pub open spec fn accounts_readable(wire: Seq<WireAccount>) -> bool {
    forall|i: int| 0 <= i < wire.len() ==> (#[trigger] account_of(wire[i])) is Some
}

/// The instruction that a written instruction stands for: `None` where
/// the program or an account is no address, or the payload is not base 64.
pub open spec fn instruction_of(wire: WireInstruction) -> Option<InstructionView> {
    match (spec_parse_address(wire.program_id@), spec_base64(wire.data@)) {
        (Some(program_id), Some(data)) => if accounts_readable(wire.accounts@) {
            Some(
                InstructionView {
                    program_id,
                    accounts: Seq::new(
                        wire.accounts@.len(),
                        |i: int| account_of(wire.accounts@[i])->0,
                    ),
                    data,
                },
            )
        } else {
            None
        },
        _ => None,
    }
}

/// Reads an instruction as the swap service writes it.
///
/// Fails, with `MalformedResponse`, exactly when the program or an account
/// is no address or the payload is not base 64.
pub fn decode_instruction(wire: &WireInstruction) -> (res: Result<Instruction, ComposeError>)
    ensures
        match res {
            Ok(ix) => instruction_of(*wire) == Some(ix@),
            Err(e) => e == ComposeError::MalformedResponse && instruction_of(*wire) is None,
        },
{
    let program_id = match Address::parse(wire.program_id.as_str()) {
        Some(address) => address,
        None => {
            return Err(ComposeError::MalformedResponse);
        },
    };
    let data = match base64_decode(wire.data.as_str()) {
        Some(bytes) => bytes,
        None => {
            return Err(ComposeError::MalformedResponse);
        },
    };
    let mut accounts: Vec<AccountMeta> = Vec::new();
    let mut i: usize = 0;
    while i < wire.accounts.len()
        invariant
            i <= wire.accounts@.len(),
            accounts@.len() == i,
            forall|j: int| 0 <= j < i ==> account_of(wire.accounts@[j]) == Some(accounts@[j]@),
        decreases wire.accounts@.len() - i,
    {
        let written = &wire.accounts[i];
        match Address::parse(written.pubkey.as_str()) {
            Some(pubkey) => {
                accounts.push(
                    AccountMeta {
                        pubkey,
                        is_signer: written.is_signer,
                        is_writable: written.is_writable,
                    },
                );
            },
            None => {
                assert(account_of(wire.accounts@[i as int]) is None);
                return Err(ComposeError::MalformedResponse);
            },
        }
        i = i + 1;
    }
    let ix = Instruction { program_id, accounts, data };
    assert(ix@.accounts =~= instruction_of(*wire)->0.accounts);
    Ok(ix)
}

/// Each written instruction read, where all of them can be.
pub open spec fn instructions_of(wire: Seq<WireInstruction>) -> Option<Seq<InstructionView>> {
    if forall|i: int| 0 <= i < wire.len() ==> (#[trigger] instruction_of(wire[i])) is Some {
        Some(Seq::new(wire.len(), |i: int| instruction_of(wire[i])->0))
    } else {
        None
    }
}

/// An optional written instruction read: `None` where it is there and
/// cannot be read.
pub open spec fn optional_instruction_of(wire: Option<WireInstruction>) -> Option<
    Option<InstructionView>,
> {
    match wire {
        None => Some(None),
        Some(wire) => match instruction_of(wire) {
            Some(ix) => Some(Some(ix)),
            None => None,
        },
    }
}

/// Each written address read, where all of them can be.
pub open spec fn addresses_of(wire: Seq<String>) -> Option<Seq<Seq<u8>>> {
    if forall|i: int| 0 <= i < wire.len() ==> (#[trigger] spec_parse_address(wire[i]@)) is Some {
        Some(Seq::new(wire.len(), |i: int| spec_parse_address(wire[i]@)->0))
    } else {
        None
    }
}

/// The instructions of a swap that the written ones stand for: `None`
/// where one of the instructions or of the lookup tables cannot be read.
pub open spec fn swap_instructions_of(wire: WireSwapInstructions) -> Option<SwapInstructionsView> {
    match (
        optional_instruction_of(wire.token_ledger_instruction),
        instructions_of(wire.compute_budget_instructions@),
        instructions_of(wire.setup_instructions@),
        instruction_of(wire.swap_instruction),
        optional_instruction_of(wire.cleanup_instruction),
        addresses_of(wire.address_lookup_table_addresses@),
    ) {
        (Some(ledger), Some(budget), Some(setup), Some(swap), Some(cleanup), Some(tables)) => Some(
            SwapInstructionsView {
                token_ledger_instruction: ledger,
                compute_budget_instructions: budget,
                setup_instructions: setup,
                swap_instruction: swap,
                cleanup_instruction: cleanup,
                address_lookup_table_addresses: tables,
                prioritization_fee_lamports: wire.prioritization_fee_lamports,
            },
        ),
        _ => None,
    }
}

fn decode_instructions(wire: &Vec<WireInstruction>) -> (res: Option<Vec<Instruction>>)
    ensures
        match res {
            Some(list) => instructions_of(wire@) == Some(
                Seq::new(list@.len(), |i: int| list@[i]@),
            ),
            None => instructions_of(wire@) is None,
        },
{
    let mut list: Vec<Instruction> = Vec::new();
    let mut i: usize = 0;
    while i < wire.len()
        invariant
            i <= wire@.len(),
            list@.len() == i,
            forall|j: int| 0 <= j < i ==> instruction_of(wire@[j]) == Some(list@[j]@),
        decreases wire@.len() - i,
    {
        match decode_instruction(&wire[i]) {
            Ok(ix) => {
                list.push(ix);
            },
            Err(_) => {
                assert(instruction_of(wire@[i as int]) is None);
                return None;
            },
        }
        i = i + 1;
    }
    assert(instructions_of(wire@)->0 =~= Seq::new(list@.len(), |i: int| list@[i]@));
    Some(list)
}

fn decode_optional(wire: &Option<WireInstruction>) -> (res: Option<Option<Instruction>>)
    ensures
        match res {
            Some(ix) => optional_instruction_of(*wire) == Some(optional_view(ix)),
            None => optional_instruction_of(*wire) is None,
        },
{
    match wire {
        None => Some(None),
        Some(written) => match decode_instruction(written) {
            Ok(ix) => Some(Some(ix)),
            Err(_) => None,
        },
    }
}

fn decode_addresses(wire: &Vec<String>) -> (res: Option<Vec<Address>>)
    ensures
        match res {
            Some(list) => addresses_of(wire@) == Some(Seq::new(list@.len(), |i: int| list@[i]@)),
            None => addresses_of(wire@) is None,
        },
{
    let mut list: Vec<Address> = Vec::new();
    let mut i: usize = 0;
    while i < wire.len()
        invariant
            i <= wire@.len(),
            list@.len() == i,
            forall|j: int| 0 <= j < i ==> spec_parse_address(wire@[j]@) == Some(list@[j]@),
        decreases wire@.len() - i,
    {
        match Address::parse(wire[i].as_str()) {
            Some(address) => {
                list.push(address);
            },
            None => {
                assert(spec_parse_address(wire@[i as int]@) is None);
                return None;
            },
        }
        i = i + 1;
    }
    assert(addresses_of(wire@)->0 =~= Seq::new(list@.len(), |i: int| list@[i]@));
    Some(list)
}

/// Reads the instructions of a swap as the swap service writes them.
///
/// Fails, with `MalformedResponse`, exactly when one of the instructions
/// or of the lookup table addresses cannot be read.
pub fn decode_swap_instructions(wire: &WireSwapInstructions) -> (res: Result<
    SwapInstructions,
    ComposeError,
>)
    ensures
        match res {
            Ok(swap) => swap_instructions_of(*wire) == Some(swap@),
            Err(e) => e == ComposeError::MalformedResponse && swap_instructions_of(*wire) is None,
        },
{
    let token_ledger_instruction = match decode_optional(&wire.token_ledger_instruction) {
        Some(ix) => ix,
        None => {
            return Err(ComposeError::MalformedResponse);
        },
    };
    let compute_budget_instructions = match decode_instructions(&wire.compute_budget_instructions) {
        Some(list) => list,
        None => {
            return Err(ComposeError::MalformedResponse);
        },
    };
    let setup_instructions = match decode_instructions(&wire.setup_instructions) {
        Some(list) => list,
        None => {
            return Err(ComposeError::MalformedResponse);
        },
    };
    let swap_instruction = match decode_instruction(&wire.swap_instruction) {
        Ok(ix) => ix,
        Err(e) => {
            return Err(e);
        },
    };
    let cleanup_instruction = match decode_optional(&wire.cleanup_instruction) {
        Some(ix) => ix,
        None => {
            return Err(ComposeError::MalformedResponse);
        },
    };
    let address_lookup_table_addresses = match decode_addresses(
        &wire.address_lookup_table_addresses,
    ) {
        Some(list) => list,
        None => {
            return Err(ComposeError::MalformedResponse);
        },
    };
    let swap = SwapInstructions {
        token_ledger_instruction,
        compute_budget_instructions,
        setup_instructions,
        swap_instruction,
        cleanup_instruction,
        address_lookup_table_addresses,
        prioritization_fee_lamports: wire.prioritization_fee_lamports,
    };
    proof {
        let read = swap_instructions_of(*wire)->0;
        assert(swap@.compute_budget_instructions =~= read.compute_budget_instructions);
        assert(swap@.setup_instructions =~= read.setup_instructions);
        assert(swap@.address_lookup_table_addresses =~= read.address_lookup_table_addresses);
    }
    Ok(swap)
}

} // verus!
