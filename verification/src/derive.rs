use crate::address::{Address, ASSOCIATED_TOKEN_PROGRAM, STAKE_PROGRAM, STEP_MINT, TOKEN_PROGRAM};
use crate::error::ComposeError;
use vstd::prelude::*;

verus! {

/// The address that a program derives from a list of seeds, where the hash
/// of the seeds and the program lies off the curve; `None` where it lies on
/// the curve, so that a signing key could exist for it, and where a seed is
/// too long or the seeds are too many.
pub uninterp spec fn spec_program_address(seeds: Seq<Seq<u8>>, program: Seq<u8>) -> Option<
    Seq<u8>,
>;

/// The bytes of each seed.
pub open spec fn seed_bytes(seeds: Seq<Vec<u8>>) -> Seq<Seq<u8>> {
    Seq::new(seeds.len(), |i: int| seeds[i]@)
}

/// The address that the seeds give together with one bump seed.
pub open spec fn bump_address(seeds: Seq<Seq<u8>>, bump: int, program: Seq<u8>) -> Option<
    Seq<u8>,
> {
    spec_program_address(seeds.push(seq![bump as u8]), program)
}

/// The search for a bump seed among `1..=from`, from the largest down: the
/// first that gives an address, with that address.
pub open spec fn search_bump(seeds: Seq<Seq<u8>>, program: Seq<u8>, from: nat) -> Option<
    (Seq<u8>, u8),
>
    decreases from,
{
    if from == 0 {
        None
    } else {
        match bump_address(seeds, from as int, program) {
            Some(address) => Some((address, from as u8)),
            None => search_bump(seeds, program, (from - 1) as nat),
        }
    }
}

/// The derived address of a program for a list of seeds, with its bump
/// seed: the search starts at 255 and ends at 1.
pub open spec fn derived_address(seeds: Seq<Seq<u8>>, program: Seq<u8>) -> Option<(Seq<u8>, u8)> {
    search_bump(seeds, program, 255)
}

/// What makes `(address, bump)` the derived address: the bump seed gives
/// the address, and no larger bump seed gives any.
pub open spec fn is_derived(
    seeds: Seq<Seq<u8>>,
    program: Seq<u8>,
    address: Seq<u8>,
    bump: u8,
) -> bool {
    &&& 1 <= bump
    &&& bump_address(seeds, bump as int, program) == Some(address)
    &&& forall|b: int| bump < b <= 255 ==> bump_address(seeds, b, program) is None
}

/// Computes the address of one candidate with
/// `Pubkey::create_program_address` of solana-program, on the seeds
/// followed by the bump seed.
///
/// Trusted: whether there is an address, and which, depends on the seeds,
/// the bump seed and the program alone.
#[verifier::external_body]
fn create_program_address(seeds: &Vec<Vec<u8>>, bump: u8, program: &Address) -> (res: Option<
    Address,
>)
    ensures
        res is Some <==> spec_program_address(
            seed_bytes(seeds@).push(seq![bump]),
            program@,
        ) is Some,
        res matches Some(a) ==> spec_program_address(
            seed_bytes(seeds@).push(seq![bump]),
            program@,
        ) == Some(a@),
{
    let bump_seed = [bump];
    let mut parts: Vec<&[u8]> = seeds.iter().map(|seed| seed.as_slice()).collect();
    parts.push(&bump_seed);
    let owner = solana_sdk::pubkey::Pubkey::new_from_array(program.bytes);
    solana_sdk::pubkey::Pubkey::create_program_address(&parts, &owner).ok().map(
        |key| Address { bytes: key.to_bytes() },
    )
}

/// Derives the address that `program` owns for `seeds`, and its bump seed.
///
/// The bump seeds are tried from 255 down to 1; the first that gives an
/// address off the curve is taken. Fails with `DerivationFailure` exactly
/// when none of them gives one.
pub fn find_program_address(seeds: &Vec<Vec<u8>>, program: &Address) -> (res: Result<
    (Address, u8),
    ComposeError,
>)
    ensures
        match res {
            Ok((address, bump)) => {
                &&& derived_address(seed_bytes(seeds@), program@) == Some((address@, bump))
                &&& is_derived(seed_bytes(seeds@), program@, address@, bump)
            },
            Err(e) => {
                &&& e == ComposeError::DerivationFailure
                &&& derived_address(seed_bytes(seeds@), program@) is None
                &&& forall|b: int|
                    1 <= b <= 255 ==> bump_address(seed_bytes(seeds@), b, program@) is None
            },
        },
{
    let ghost s = seed_bytes(seeds@);
    let mut bump: u8 = 255;
    while bump > 0
        invariant
            s == seed_bytes(seeds@),
            derived_address(s, program@) == search_bump(s, program@, bump as nat),
            forall|b: int| bump < b <= 255 ==> bump_address(s, b, program@) is None,
        decreases bump,
    {
        match create_program_address(seeds, bump, program) {
            Some(address) => {
                return Ok((address, bump));
            },
            None => {},
        }
        bump = bump - 1;
    }
    Err(ComposeError::DerivationFailure)
}

/// The seeds of the token account that a wallet holds for a mint.
pub open spec fn token_account_seeds(wallet: Seq<u8>, mint: Seq<u8>) -> Seq<Seq<u8>> {
    seq![wallet, TOKEN_PROGRAM@, mint]
}

/// The address of the token account that a wallet holds for a mint, where
/// there is one.
pub open spec fn token_account_address(wallet: Seq<u8>, mint: Seq<u8>) -> Option<Seq<u8>> {
    match derived_address(token_account_seeds(wallet, mint), ASSOCIATED_TOKEN_PROGRAM@) {
        Some((address, _)) => Some(address),
        None => None,
    }
}

/// Derives the address of the token account that `wallet` holds for `mint`
/// under the token program: the address that the associated token account
/// program owns for the seeds wallet, token program, mint.
pub fn associated_token_address(wallet: &Address, mint: &Address) -> (res: Result<
    Address,
    ComposeError,
>)
    ensures
        match res {
            Ok(address) => token_account_address(wallet@, mint@) == Some(address@),
            Err(e) => e == ComposeError::DerivationFailure && token_account_address(
                wallet@,
                mint@,
            ) is None,
        },
{
    let mut seeds: Vec<Vec<u8>> = Vec::new();
    seeds.push(wallet.to_vec());
    seeds.push(Address::new(TOKEN_PROGRAM).to_vec());
    seeds.push(mint.to_vec());
    assert(seed_bytes(seeds@) =~= token_account_seeds(wallet@, mint@));
    match find_program_address(&seeds, &Address::new(ASSOCIATED_TOKEN_PROGRAM)) {
        Ok((address, _)) => Ok(address),
        Err(e) => Err(e),
    }
}

/// The seeds of the vault of the staking program: the STEP mint.
pub open spec fn vault_seeds() -> Seq<Seq<u8>> {
    seq![STEP_MINT@]
}

/// The vault of the staking program and its bump seed, where there is one.
pub open spec fn vault_address() -> Option<(Seq<u8>, u8)> {
    derived_address(vault_seeds(), STAKE_PROGRAM@)
}

/// Derives the vault of the staking program, which holds the staked STEP,
/// and the bump seed that the stake instruction carries as its nonce.
pub fn find_vault() -> (res: Result<(Address, u8), ComposeError>)
    ensures
        match res {
            Ok((address, bump)) => vault_address() == Some((address@, bump)),
            Err(e) => e == ComposeError::DerivationFailure && vault_address() is None,
        },
{
    let mut seeds: Vec<Vec<u8>> = Vec::new();
    seeds.push(Address::new(STEP_MINT).to_vec());
    assert(seed_bytes(seeds@) =~= vault_seeds());
    find_program_address(&seeds, &Address::new(STAKE_PROGRAM))
}

/// The derived address is what the search says: its bump seed gives it,
/// and no larger one gives any address.
pub proof fn lemma_derived_is_first(seeds: Seq<Seq<u8>>, program: Seq<u8>, from: nat)
    requires
        from <= 255,
    ensures
        match search_bump(seeds, program, from) {
            Some((address, bump)) => {
                &&& 1 <= bump <= from
                &&& bump_address(seeds, bump as int, program) == Some(address)
                &&& forall|b: int| bump < b <= from ==> bump_address(seeds, b, program) is None
            },
            None => forall|b: int| 1 <= b <= from ==> bump_address(seeds, b, program) is None,
        },
    decreases from,
{
    if from > 0 && bump_address(seeds, from as int, program) is None {
        lemma_derived_is_first(seeds, program, (from - 1) as nat);
    }
}

/// Derivation is deterministic: whatever meets the description of the
/// derived address is the derived address, so two derivations from the
/// same seeds and program agree on the address and on the bump seed.
pub proof fn lemma_derivation_deterministic(
    seeds: Seq<Seq<u8>>,
    program: Seq<u8>,
    address: Seq<u8>,
    bump: u8,
    other_address: Seq<u8>,
    other_bump: u8,
)
    requires
        is_derived(seeds, program, address, bump),
        is_derived(seeds, program, other_address, other_bump),
    ensures
        address == other_address,
        bump == other_bump,
        derived_address(seeds, program) == Some((address, bump)),
{
    lemma_derived_is_first(seeds, program, 255);
    if bump < other_bump {
        assert(bump_address(seeds, other_bump as int, program) is None);
    } else if other_bump < bump {
        assert(bump_address(seeds, bump as int, program) is None);
    }
    match derived_address(seeds, program) {
        None => {
            assert(bump_address(seeds, bump as int, program) is None);
        },
        Some((_, found)) => {
            if found < bump {
                assert(bump_address(seeds, bump as int, program) is None);
            } else if bump < found {
                assert(bump_address(seeds, found as int, program) is None);
            }
        },
    }
}

/// The bump seed of a derived address, fed back with the seeds, gives that
/// address again, and so an address for which no signing key exists.
pub proof fn lemma_derived_bump_gives_address(seeds: Seq<Seq<u8>>, program: Seq<u8>)
    ensures
        derived_address(seeds, program) matches Some((address, bump)) ==> spec_program_address(
            seeds.push(seq![bump]),
            program,
        ) == Some(address),
{
    lemma_derived_is_first(seeds, program, 255);
}

} // verus!
