use solana_sdk::pubkey::Pubkey;
use spl_associated_token_account::get_associated_token_address;
use step_staking::address::{Address, STAKE_PROGRAM, STEP_MINT, XSTEP_MINT};
use step_staking::derive::{associated_token_address, find_program_address, find_vault};
use step_staking::error::ComposeError;

fn wallet(seed: u8) -> Address {
    let mut bytes = [seed; 32];
    bytes[0] = seed.wrapping_mul(31).wrapping_add(7);
    bytes[31] = seed.wrapping_add(1);
    Address::new(bytes)
}

#[test]
fn vault_is_what_the_sdk_finds() {
    let (address, bump) = find_vault().unwrap();
    let (expected, expected_bump) =
        Pubkey::find_program_address(&[&STEP_MINT], &Pubkey::new_from_array(STAKE_PROGRAM));
    assert_eq!(address.bytes, expected.to_bytes());
    assert_eq!(bump, expected_bump);
}

#[test]
fn vault_is_the_published_vault() {
    let (address, _) = find_vault().unwrap();
    let (expected, _) = Pubkey::find_program_address(
        &[&Pubkey::new_from_array(STEP_MINT).to_bytes()],
        &Pubkey::new_from_array(STAKE_PROGRAM),
    );
    assert_eq!(Pubkey::new_from_array(address.bytes), expected);
    assert_ne!(address.bytes, STEP_MINT);
    assert_ne!(address.bytes, STAKE_PROGRAM);
}

#[test]
fn derivation_is_deterministic() {
    let seeds = vec![b"vault".to_vec(), vec![1, 2, 3]];
    let program = Address::new(STAKE_PROGRAM);
    let first = find_program_address(&seeds, &program).unwrap();
    let second = find_program_address(&seeds, &program).unwrap();
    assert_eq!(first, second);
    for seed in 0..20u8 {
        let a = associated_token_address(&wallet(seed), &Address::new(STEP_MINT));
        let b = associated_token_address(&wallet(seed), &Address::new(STEP_MINT));
        assert_eq!(a, b);
    }
    assert_eq!(find_vault(), find_vault());
}

#[test]
fn derived_bump_gives_an_address_off_the_curve() {
    for seed in 0..40u8 {
        let seeds = vec![vec![seed], b"pool".to_vec()];
        let program = wallet(seed);
        let (address, bump) = find_program_address(&seeds, &program).unwrap();
        let bump_seed = [bump];
        let parts: Vec<&[u8]> = vec![&seeds[0], &seeds[1], &bump_seed];
        let again =
            Pubkey::create_program_address(&parts, &Pubkey::new_from_array(program.bytes)).unwrap();
        assert_eq!(again.to_bytes(), address.bytes);
        assert!(!again.is_on_curve());
        assert!(bump >= 1);
    }
}

#[test]
fn no_larger_bump_gives_an_address() {
    for seed in 0..40u8 {
        let seeds = vec![vec![seed, seed]];
        let program = wallet(seed);
        let (_, bump) = find_program_address(&seeds, &program).unwrap();
        let mut larger = 255u8;
        while larger > bump {
            let bump_seed = [larger];
            let parts: Vec<&[u8]> = vec![&seeds[0], &bump_seed];
            assert!(Pubkey::create_program_address(
                &parts,
                &Pubkey::new_from_array(program.bytes)
            )
            .is_err());
            larger -= 1;
        }
    }
}

#[test]
fn find_agrees_with_the_sdk() {
    for seed in 0..60u8 {
        let seeds = vec![vec![seed; (seed % 33) as usize], vec![seed.wrapping_mul(3)]];
        let program = wallet(seed);
        let ours = find_program_address(&seeds, &program).unwrap();
        let parts: Vec<&[u8]> = seeds.iter().map(|s| s.as_slice()).collect();
        let theirs =
            Pubkey::find_program_address(&parts, &Pubkey::new_from_array(program.bytes));
        assert_eq!(ours.0.bytes, theirs.0.to_bytes());
        assert_eq!(ours.1, theirs.1);
    }
}

#[test]
fn some_bump_below_255_is_found() {
    let mut below = 0;
    for seed in 0..60u8 {
        let seeds = vec![vec![seed]];
        let (_, bump) = find_program_address(&seeds, &wallet(seed)).unwrap();
        if bump < 255 {
            below += 1;
        }
    }
    assert!(below > 0);
}

#[test]
fn no_seeds_at_all_still_derive() {
    let seeds: Vec<Vec<u8>> = Vec::new();
    let program = Address::new(STAKE_PROGRAM);
    let ours = find_program_address(&seeds, &program).unwrap();
    let theirs = Pubkey::find_program_address(&[], &Pubkey::new_from_array(STAKE_PROGRAM));
    assert_eq!(ours.0.bytes, theirs.0.to_bytes());
    assert_eq!(ours.1, theirs.1);
}

#[test]
fn a_seed_that_is_too_long_fails_the_derivation() {
    let seeds = vec![vec![0u8; 33]];
    let program = Address::new(STAKE_PROGRAM);
    assert_eq!(find_program_address(&seeds, &program), Err(ComposeError::DerivationFailure));
    let parts: Vec<&[u8]> = seeds.iter().map(|s| s.as_slice()).collect();
    assert_eq!(
        Pubkey::try_find_program_address(&parts, &Pubkey::new_from_array(STAKE_PROGRAM)),
        None
    );
}

#[test]
fn too_many_seeds_fail_the_derivation() {
    let seeds = vec![vec![1u8]; 16];
    let program = Address::new(STAKE_PROGRAM);
    assert_eq!(find_program_address(&seeds, &program), Err(ComposeError::DerivationFailure));
    let fifteen = vec![vec![1u8]; 15];
    assert!(find_program_address(&fifteen, &program).is_ok());
}

#[test]
fn token_account_is_what_spl_derives() {
    for seed in 0..30u8 {
        let owner = wallet(seed);
        for mint in [STEP_MINT, XSTEP_MINT] {
            let ours = associated_token_address(&owner, &Address::new(mint)).unwrap();
            let theirs = get_associated_token_address(
                &Pubkey::new_from_array(owner.bytes),
                &Pubkey::new_from_array(mint),
            );
            assert_eq!(ours.bytes, theirs.to_bytes());
        }
    }
}

#[test]
fn token_accounts_differ_by_mint_and_by_wallet() {
    let a = associated_token_address(&wallet(1), &Address::new(STEP_MINT)).unwrap();
    let b = associated_token_address(&wallet(1), &Address::new(XSTEP_MINT)).unwrap();
    let c = associated_token_address(&wallet(2), &Address::new(STEP_MINT)).unwrap();
    assert_ne!(a, b);
    assert_ne!(a, c);
    assert_ne!(a, wallet(1));
}
