use solana_sdk::pubkey::Pubkey;
use std::str::FromStr;
use step_staking::address::{
    parse_account, parse_mint, Address, ASSOCIATED_TOKEN_PROGRAM, STAKE_PROGRAM, STEP_MINT,
    SYSTEM_PROGRAM, TOKEN_PROGRAM, XSTEP_MINT,
};
use step_staking::error::ComposeError;

fn decoded(text: &str) -> [u8; 32] {
    Pubkey::from_str(text).unwrap().to_bytes()
}

#[test]
fn stake_program_is_the_published_address() {
    assert_eq!(STAKE_PROGRAM, decoded("Stk5NCWomVN3itaFjLu382u9ibb5jMSHEsh6CuhaGjB"));
}

#[test]
fn step_mint_is_the_published_address() {
    assert_eq!(STEP_MINT, decoded("StepAscQoEioFxxWGnh2sLBDFp9d8rvKz2Yp39iDpyT"));
}

#[test]
fn xstep_mint_is_the_published_address() {
    assert_eq!(XSTEP_MINT, decoded("xStpgUCss9piqeFUk2iLVcvJEGhAdJxJQuwLkXP555G"));
}

#[test]
fn token_program_is_the_token_program_of_spl() {
    assert_eq!(TOKEN_PROGRAM, spl_token::ID.to_bytes());
    assert_eq!(TOKEN_PROGRAM, decoded("TokenkegQfeZyiNwAJbNbGKPFXCWuBvf9Ss623VQ5DA"));
}

#[test]
fn associated_token_program_is_that_of_spl() {
    assert_eq!(ASSOCIATED_TOKEN_PROGRAM, spl_associated_token_account::ID.to_bytes());
}

#[test]
fn system_program_is_all_zero() {
    assert_eq!(SYSTEM_PROGRAM, solana_sdk::system_program::ID.to_bytes());
    assert_eq!(SYSTEM_PROGRAM, [0u8; 32]);
}

#[test]
fn address_new_keeps_the_bytes() {
    let a = Address::new(STEP_MINT);
    assert_eq!(a.bytes, STEP_MINT);
    assert_eq!(a.to_vec(), STEP_MINT.to_vec());
    assert_eq!(a.to_vec().len(), 32);
}

#[test]
fn parse_reads_base58() {
    let a = Address::parse("StepAscQoEioFxxWGnh2sLBDFp9d8rvKz2Yp39iDpyT").unwrap();
    assert_eq!(a.bytes, STEP_MINT);
    let zero = Address::parse("11111111111111111111111111111111").unwrap();
    assert_eq!(zero.bytes, [0u8; 32]);
}

#[test]
fn parse_does_not_hand_the_text_back() {
    let text = "xStpgUCss9piqeFUk2iLVcvJEGhAdJxJQuwLkXP555G";
    let a = Address::parse(text).unwrap();
    assert_eq!(a.bytes, XSTEP_MINT);
    assert_ne!(&a.bytes[..], &text.as_bytes()[..32]);
}

#[test]
fn parse_agrees_with_the_sdk_on_every_outcome() {
    let texts = [
        "",
        "1",
        "11111111111111111111111111111111",
        "111111111111111111111111111111111",
        "Stk5NCWomVN3itaFjLu382u9ibb5jMSHEsh6CuhaGjB",
        "Stk5NCWomVN3itaFjLu382u9ibb5jMSHEsh6CuhaGj",
        "Stk5NCWomVN3itaFjLu382u9ibb5jMSHEsh6CuhaGjBB",
        "Stk5NCWomVN3itaFjLu382u9ibb5jMSHEsh6CuhaGjBBB",
        "Stk5NCWomVN3itaFjLu382u9ibb5jMSHEsh6Cuha0jB",
        "Stk5NCWomVN3itaFjLu382u9ibb5jMSHEsh6CuhaOjB",
        "Stk5NCWomVN3itaFjLu382u9ibb5jMSHEsh6CuhaIjB",
        "Stk5NCWomVN3itaFjLu382u9ibb5jMSHEsh6CuhaljB",
        " Stk5NCWomVN3itaFjLu382u9ibb5jMSHEsh6CuhaGjB",
        "Stk5NCWomVN3itaFjLu382u9ibb5jMSHEsh6Cuh\u{e9}GjB",
    ];
    for text in texts {
        let ours = Address::parse(text).map(|a| a.bytes);
        let theirs = Pubkey::from_str(text).ok().map(|k| k.to_bytes());
        assert_eq!(ours, theirs);
    }
}

#[test]
fn account_of_wrong_length_is_invalid() {
    assert_eq!(parse_account("abc"), Err(ComposeError::InvalidAddress));
    assert_eq!(parse_account(""), Err(ComposeError::InvalidAddress));
    assert_eq!(
        parse_account("Stk5NCWomVN3itaFjLu382u9ibb5jMSHEsh6CuhaGjBStk5NCWomVN3itaFjLu382u9ibb5jMSHEsh6CuhaGjB"),
        Err(ComposeError::InvalidAddress)
    );
}

#[test]
fn account_of_wrong_charset_is_invalid() {
    assert_eq!(
        parse_account("Stk5NCWomVN3itaFjLu382u9ibb5jMSHEsh6Cuha0jB"),
        Err(ComposeError::InvalidAddress)
    );
    assert_eq!(
        parse_account("Stk5NCWomVN3itaFjLu382u9ibb5jMSHEsh6Cuha_jB"),
        Err(ComposeError::InvalidAddress)
    );
}

#[test]
fn account_that_is_an_address_is_read() {
    let a = parse_account("Stk5NCWomVN3itaFjLu382u9ibb5jMSHEsh6CuhaGjB").unwrap();
    assert_eq!(a.bytes, STAKE_PROGRAM);
}

#[test]
fn mint_that_is_no_address_is_an_invalid_mint() {
    assert_eq!(parse_mint("not a mint"), Err(ComposeError::InvalidMintAddress));
    assert_eq!(parse_mint(""), Err(ComposeError::InvalidMintAddress));
}

#[test]
fn mint_that_is_an_address_is_read() {
    let a = parse_mint("So11111111111111111111111111111111111111112").unwrap();
    assert_eq!(
        a.bytes,
        [
            6, 155, 136, 87, 254, 171, 129, 132, 251, 104, 127, 99, 70, 24, 192, 53, 218, 196, 57,
            220, 26, 235, 59, 85, 152, 160, 240, 0, 0, 0, 0, 1
        ]
    );
}

#[test]
fn base58_is_the_text_of_the_sdk() {
    for bytes in [STEP_MINT, XSTEP_MINT, STAKE_PROGRAM, SYSTEM_PROGRAM, [255u8; 32], [1u8; 32]] {
        assert_eq!(Address::new(bytes).to_base58(), Pubkey::new_from_array(bytes).to_string());
    }
    assert_eq!(
        Address::new(STEP_MINT).to_base58(),
        "StepAscQoEioFxxWGnh2sLBDFp9d8rvKz2Yp39iDpyT"
    );
    assert_eq!(Address::new(SYSTEM_PROGRAM).to_base58(), "11111111111111111111111111111111");
}

#[test]
fn what_is_written_in_base58_is_read_back() {
    for seed in 0..50u8 {
        let mut bytes = [seed; 32];
        bytes[0] = seed / 7;
        bytes[1] = 0;
        bytes[17] = seed.wrapping_mul(13);
        let address = Address::new(bytes);
        assert_eq!(Address::parse(&address.to_base58()), Some(address));
    }
}

#[test]
fn same_compares_every_byte() {
    let a = Address::new(STEP_MINT);
    assert!(a.same(&Address::new(STEP_MINT)));
    assert!(!a.same(&Address::new(XSTEP_MINT)));
    for at in 0..32usize {
        let mut bytes = STEP_MINT;
        bytes[at] ^= 1;
        assert!(!a.same(&Address::new(bytes)));
        assert!(!Address::new(bytes).same(&a));
    }
}
