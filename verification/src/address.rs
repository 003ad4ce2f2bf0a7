use crate::error::ComposeError;
use std::str::FromStr;
use vstd::prelude::*;

verus! {

/// A 32-byte account address.
///
/// Its view is the sequence of its 32 bytes.
#[derive(Clone, Copy, Debug, PartialEq, Eq)]
pub struct Address {
    pub bytes: [u8; 32],
}

impl View for Address {
    type V = Seq<u8>;

    open spec fn view(&self) -> Seq<u8> {
        self.bytes@
    }
}

impl DeepView for Address {
    type V = Seq<u8>;

    open spec fn deep_view(&self) -> Seq<u8> {
        self.bytes@
    }
}

/// The staking program, `Stk5NCWomVN3itaFjLu382u9ibb5jMSHEsh6CuhaGjB`.
pub const STAKE_PROGRAM: [u8; 32] = [
    6, 162, 6, 158, 166, 74, 55, 67, 84, 196, 76, 245, 248, 36, 34, 131,
    251, 242, 203, 113, 195, 106, 83, 221, 44, 247, 86, 106, 101, 226, 86, 18,
];

/// The mint of STEP, the staked asset: `StepAscQoEioFxxWGnh2sLBDFp9d8rvKz2Yp39iDpyT`.
pub const STEP_MINT: [u8; 32] = [
    6, 161, 236, 91, 216, 42, 217, 192, 50, 169, 247, 212, 102, 186, 44, 114,
    139, 14, 243, 106, 139, 119, 62, 210, 25, 214, 150, 80, 211, 71, 43, 214,
];

/// The mint of xSTEP, the receipt asset: `xStpgUCss9piqeFUk2iLVcvJEGhAdJxJQuwLkXP555G`.
pub const XSTEP_MINT: [u8; 32] = [
    14, 52, 56, 236, 64, 196, 14, 227, 152, 188, 125, 28, 100, 38, 142, 95,
    214, 21, 15, 201, 2, 194, 34, 139, 159, 41, 177, 181, 160, 202, 12, 135,
];

/// The token program, `TokenkegQfeZyiNwAJbNbGKPFXCWuBvf9Ss623VQ5DA`.
pub const TOKEN_PROGRAM: [u8; 32] = [
    6, 221, 246, 225, 215, 101, 161, 147, 217, 203, 225, 70, 206, 235, 121, 172,
    28, 180, 133, 237, 95, 91, 55, 145, 58, 140, 245, 133, 126, 255, 0, 169,
];

/// The associated token account program,
/// `ATokenGPvbdGVxr1b2hvZbsiqW5xWH25efTNsLJA8knL`.
pub const ASSOCIATED_TOKEN_PROGRAM: [u8; 32] = [
    140, 151, 37, 143, 78, 36, 137, 241, 187, 61, 16, 41, 20, 142, 13, 131,
    11, 90, 19, 153, 218, 255, 16, 132, 4, 142, 123, 216, 219, 233, 248, 89,
];

/// The system program, `11111111111111111111111111111111`.
pub const SYSTEM_PROGRAM: [u8; 32] = [
    0, 0, 0, 0, 0, 0, 0, 0, 0, 0, 0, 0, 0, 0, 0, 0,
    0, 0, 0, 0, 0, 0, 0, 0, 0, 0, 0, 0, 0, 0, 0, 0,
];

/// Whether `c` belongs to the base-58 alphabet: the digits and the letters
/// without `0`, `O`, `I` and `l`.
pub open spec fn is_base58_char(c: char) -> bool {
    ||| '1' <= c <= '9'
    ||| 'A' <= c <= 'H'
    ||| 'J' <= c <= 'N'
    ||| 'P' <= c <= 'Z'
    ||| 'a' <= c <= 'k'
    ||| 'm' <= c <= 'z'
}

/// The address that a text stands for in base 58, if it stands for one.
pub uninterp spec fn spec_parse_address(text: Seq<char>) -> Option<Seq<u8>>;

/// Decodes a base-58 address with `Pubkey::from_str` of solana-program.
///
/// Trusted: whether the text decodes, and to which bytes, depends on the
/// text alone; a text that decodes has at most 44 characters, all of them
/// of the base-58 alphabet.
#[verifier::external_body]
fn pubkey_from_str(text: &str) -> (res: Option<Address>)
    ensures
        res is Some <==> spec_parse_address(text@) is Some,
        res matches Some(a) ==> spec_parse_address(text@) == Some(a@),
        res is Some ==> text@.len() <= 44,
        res is Some ==> forall|i: int|
            0 <= i < text@.len() ==> is_base58_char(#[trigger] text@[i]),
{
    solana_sdk::pubkey::Pubkey::from_str(text).ok().map(|key| Address { bytes: key.to_bytes() })
}

/// The base-58 text of an address.
pub uninterp spec fn spec_base58(bytes: Seq<u8>) -> Seq<char>;

/// Writes an address in base 58 with the `Display` of `Pubkey` of
/// solana-program.
///
/// Trusted: the text depends on the bytes alone.
#[verifier::external_body]
fn pubkey_to_string(address: &Address) -> (text: String)
    ensures
        text@ == spec_base58(address@),
{
    solana_sdk::pubkey::Pubkey::new_from_array(address.bytes).to_string()
}

/// Whether a text can be a base-58 address at all: at most 44 characters,
/// all of the alphabet. A text that fails this is never an address.
pub open spec fn well_formed_address_text(text: Seq<char>) -> bool {
    &&& text.len() <= 44
    &&& forall|i: int| 0 <= i < text.len() ==> is_base58_char(#[trigger] text[i])
}

impl Address {
    /// The address with the given bytes.
    pub fn new(bytes: [u8; 32]) -> (a: Address)
        ensures
            a.bytes == bytes,
            a@ == bytes@,
    {
        Address { bytes }
    }

    /// The bytes of the address as a vector.
    pub fn to_vec(&self) -> (v: Vec<u8>)
        ensures
            v@ == self@,
            v@.len() == 32,
    {
        vstd::slice::slice_to_vec(self.bytes.as_slice())
    }

    /// Whether two addresses are the same.
    pub fn same(&self, other: &Address) -> (res: bool)
        ensures
            res == (self@ == other@),
    {
        let mut i: usize = 0;
        while i < 32
            invariant
                i <= 32,
                forall|j: int| 0 <= j < i ==> self.bytes@[j] == other.bytes@[j],
            decreases 32 - i,
        {
            if self.bytes[i] != other.bytes[i] {
                return false;
            }
            i = i + 1;
        }
        assert(self@ =~= other@);
        true
    }

    /// The address written in base 58.
    pub fn to_base58(&self) -> (text: String)
        ensures
            text@ == spec_base58(self@),
    {
        pubkey_to_string(self)
    }

    /// Reads an address from its base-58 text.
    ///
    /// Returns `None` exactly when the text stands for no address, which is
    /// the case, among others, of every text that is longer than 44
    /// characters or holds a character outside the alphabet.
    pub fn parse(text: &str) -> (res: Option<Address>)
        ensures
            res is Some <==> spec_parse_address(text@) is Some,
            res matches Some(a) ==> spec_parse_address(text@) == Some(a@),
            !well_formed_address_text(text@) ==> res is None,
    {
        pubkey_from_str(text)
    }
}

/// Reads the wallet address of a request.
///
/// Fails with `InvalidAddress` exactly when the text stands for no address.
pub fn parse_account(text: &str) -> (res: Result<Address, ComposeError>)
    ensures
        match res {
            Ok(a) => spec_parse_address(text@) == Some(a@),
            Err(e) => e == ComposeError::InvalidAddress && spec_parse_address(text@) is None,
        },
        !well_formed_address_text(text@) ==> res == Err::<Address, ComposeError>(
            ComposeError::InvalidAddress,
        ),
{
    match Address::parse(text) {
        Some(a) => Ok(a),
        None => Err(ComposeError::InvalidAddress),
    }
}

/// Reads the input mint address of a request.
///
/// Fails with `InvalidMintAddress` exactly when the text stands for no
/// address.
pub fn parse_mint(text: &str) -> (res: Result<Address, ComposeError>)
    ensures
        match res {
            Ok(a) => spec_parse_address(text@) == Some(a@),
            Err(e) => e == ComposeError::InvalidMintAddress && spec_parse_address(text@) is None,
        },
        !well_formed_address_text(text@) ==> res == Err::<Address, ComposeError>(
            ComposeError::InvalidMintAddress,
        ),
{
    match Address::parse(text) {
        Some(a) => Ok(a),
        None => Err(ComposeError::InvalidMintAddress),
    }
}

} // verus!
