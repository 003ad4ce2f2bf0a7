use crate::address::Address;
use crate::instruction::{Instruction, InstructionView};
use vstd::prelude::*;

verus! {

/// The instructions of a swap, as the aggregator hands them out.
#[derive(Clone, Debug, PartialEq, Eq)]
pub struct SwapInstructions {
    /// Records the balance before the swap, where the route needs it.
    pub token_ledger_instruction: Option<Instruction>,
    /// Set the compute budget of the transaction.
    pub compute_budget_instructions: Vec<Instruction>,
    /// Prepare the accounts that the route needs.
    pub setup_instructions: Vec<Instruction>,
    /// The swap itself.
    pub swap_instruction: Instruction,
    /// Closes what the setup opened.
    pub cleanup_instruction: Option<Instruction>,
    /// The lookup tables that a versioned transaction could use.
    pub address_lookup_table_addresses: Vec<Address>,
    /// The fee the aggregator proposes for priority.
    pub prioritization_fee_lamports: u64,
}

/// A transaction that nobody has signed yet: the instructions in the order
/// in which they run, and the fee payer where one is set.
#[derive(Clone, Debug, PartialEq, Eq)]
pub struct UnsignedTransaction {
    pub instructions: Vec<Instruction>,
    pub fee_payer: Option<Address>,
}

/// An optional instruction as a list of one or none.
pub open spec fn optional(ix: Option<Instruction>) -> Seq<Instruction> {
    match ix {
        Some(ix) => seq![ix],
        None => Seq::<Instruction>::empty(),
    }
}

/// The part of a transaction that swaps: the token ledger instruction,
/// the compute budget instructions, the setup instructions, the swap and
/// the cleanup instruction, in this order.
pub open spec fn swap_section(swap: SwapInstructions) -> Seq<Instruction> {
    optional(swap.token_ledger_instruction) + swap.compute_budget_instructions@
        + swap.setup_instructions@ + seq![swap.swap_instruction] + optional(
        swap.cleanup_instruction,
    )
}

/// The instructions of the swap, none where nothing is swapped.
pub open spec fn swap_part(swap: Option<SwapInstructions>) -> Seq<Instruction> {
    match swap {
        Some(swap) => swap_section(swap),
        None => Seq::<Instruction>::empty(),
    }
}

/// The instructions of a staking transaction, in order: the creation of
/// the STEP account, the creation of the xSTEP account, the swap where
/// there is one, the stake.
pub open spec fn assembled(
    create_step: Instruction,
    create_xstep: Instruction,
    swap: Option<SwapInstructions>,
    stake: Instruction,
) -> Seq<Instruction> {
    seq![create_step, create_xstep] + swap_part(swap) + seq![stake]
}

/// Puts the instructions of a staking transaction in their order. Every
/// instruction given is in the result once, unchanged, and nothing else.
pub fn assemble(
    create_step: Instruction,
    create_xstep: Instruction,
    swap: Option<SwapInstructions>,
    stake: Instruction,
) -> (instructions: Vec<Instruction>)
    ensures
        instructions@ == assembled(create_step, create_xstep, swap, stake),
{
    let mut instructions: Vec<Instruction> = Vec::new();
    instructions.push(create_step);
    instructions.push(create_xstep);
    match swap {
        Some(parts) => {
            let SwapInstructions {
                token_ledger_instruction,
                mut compute_budget_instructions,
                mut setup_instructions,
                swap_instruction,
                cleanup_instruction,
                address_lookup_table_addresses: _,
                prioritization_fee_lamports: _,
            } = parts;
            if let Some(ix) = token_ledger_instruction {
                instructions.push(ix);
            }
            instructions.append(&mut compute_budget_instructions);
            instructions.append(&mut setup_instructions);
            instructions.push(swap_instruction);
            if let Some(ix) = cleanup_instruction {
                instructions.push(ix);
            }
            assert(instructions@ =~= seq![create_step, create_xstep] + swap_section(parts));
        },
        None => {},
    }
    instructions.push(stake);
    assert(instructions@ =~= assembled(create_step, create_xstep, swap, stake));
    instructions
}

/// Wraps instructions in an unsigned transaction without a fee payer of
/// its own: the first signer pays.
pub fn unsigned(instructions: Vec<Instruction>) -> (tx: UnsignedTransaction)
    ensures
        tx.instructions == instructions,
        tx.fee_payer is None,
{
    UnsignedTransaction { instructions, fee_payer: None }
}

/// Each instruction by its bytes.
pub open spec fn views(instructions: Seq<Instruction>) -> Seq<InstructionView> {
    Seq::new(instructions.len(), |i: int| instructions[i]@)
}

/// An optional instruction by its bytes.
pub open spec fn optional_view(ix: Option<Instruction>) -> Option<InstructionView> {
    match ix {
        Some(ix) => Some(ix@),
        None => None,
    }
}

/// The instructions of a swap, by their bytes.
pub struct SwapInstructionsView {
    pub token_ledger_instruction: Option<InstructionView>,
    pub compute_budget_instructions: Seq<InstructionView>,
    pub setup_instructions: Seq<InstructionView>,
    pub swap_instruction: InstructionView,
    pub cleanup_instruction: Option<InstructionView>,
    pub address_lookup_table_addresses: Seq<Seq<u8>>,
    pub prioritization_fee_lamports: u64,
}

impl View for SwapInstructions {
    type V = SwapInstructionsView;

    open spec fn view(&self) -> SwapInstructionsView {
        SwapInstructionsView {
            token_ledger_instruction: optional_view(self.token_ledger_instruction),
            compute_budget_instructions: views(self.compute_budget_instructions@),
            setup_instructions: views(self.setup_instructions@),
            swap_instruction: self.swap_instruction@,
            cleanup_instruction: optional_view(self.cleanup_instruction),
            address_lookup_table_addresses: Seq::new(
                self.address_lookup_table_addresses@.len(),
                |i: int| self.address_lookup_table_addresses@[i]@,
            ),
            prioritization_fee_lamports: self.prioritization_fee_lamports,
        }
    }
}

/// An optional instruction, by its bytes, as a list of one or none.
pub open spec fn optional_bytes(ix: Option<InstructionView>) -> Seq<InstructionView> {
    match ix {
        Some(ix) => seq![ix],
        None => Seq::<InstructionView>::empty(),
    }
}

/// The part of a transaction that swaps, by its bytes, in the order of
/// `swap_section`.
pub open spec fn swap_section_view(swap: SwapInstructionsView) -> Seq<InstructionView> {
    optional_bytes(swap.token_ledger_instruction) + swap.compute_budget_instructions
        + swap.setup_instructions + seq![swap.swap_instruction] + optional_bytes(
        swap.cleanup_instruction,
    )
}

/// The bytes of the swap section are the swap section of the bytes.
pub proof fn lemma_swap_section_view(swap: SwapInstructions)
    ensures
        views(swap_section(swap)) == swap_section_view(swap@),
{
    assert(views(swap_section(swap)) =~= swap_section_view(swap@));
}

/// How many instructions an optional instruction stands for.
pub open spec fn count(ix: Option<Instruction>) -> int {
    if ix is Some {
        1
    } else {
        0
    }
}

/// The order of a staking transaction, whichever of the optional parts of
/// the swap are there: the two creations come first and the stake comes
/// last; between them, where there is a swap, stand the token ledger
/// instruction, the compute budget instructions, the setup instructions,
/// the swap and the cleanup instruction, each part in its own order, and
/// nothing else.
pub proof fn lemma_assembled_order(
    create_step: Instruction,
    create_xstep: Instruction,
    swap: Option<SwapInstructions>,
    stake: Instruction,
)
    ensures
        ({
            let all = assembled(create_step, create_xstep, swap, stake);
            &&& all[0] == create_step
            &&& all[1] == create_xstep
            &&& all[all.len() - 1] == stake
            &&& match swap {
                None => all.len() == 3,
                Some(parts) => {
                    let ledger = 2 + count(parts.token_ledger_instruction);
                    let budget = ledger + parts.compute_budget_instructions@.len();
                    let setup = budget + parts.setup_instructions@.len();
                    &&& all.len() == setup + 2 + count(parts.cleanup_instruction)
                    &&& parts.token_ledger_instruction matches Some(ix) ==> all[2] == ix
                    &&& forall|i: int|
                        0 <= i < parts.compute_budget_instructions@.len() ==> all[ledger + i]
                            == #[trigger] parts.compute_budget_instructions@[i]
                    &&& forall|i: int|
                        0 <= i < parts.setup_instructions@.len() ==> all[budget + i]
                            == #[trigger] parts.setup_instructions@[i]
                    &&& all[setup] == parts.swap_instruction
                    &&& parts.cleanup_instruction matches Some(ix) ==> all[setup + 1] == ix
                },
            }
        }),
{
}

} // verus!
