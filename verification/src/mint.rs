use solana_sdk::program_pack::Pack;
use vstd::prelude::*;

verus! {

/// The length of the account of a mint.
pub const MINT_LEN: usize = 82;

/// Whether the four bytes at `at` are the tag of an optional field: 0 or 1
/// as a 32-bit number, least significant byte first.
pub open spec fn is_option_tag(data: Seq<u8>, at: int) -> bool {
    &&& data[at] == 0 || data[at] == 1
    &&& data[at + 1] == 0
    &&& data[at + 2] == 0
    &&& data[at + 3] == 0
}

/// The decimals of the mint that an account holds, where it holds one.
///
/// The account of a mint is 82 bytes long: the optional mint authority (a
/// tag of four bytes and an address), the supply (eight bytes), the decimals
/// (one byte, at 44), the mark of an initialised mint (one byte, at 45,
/// which is 1) and the optional freeze authority (from 46 on).
pub open spec fn mint_decimals_spec(data: Seq<u8>) -> Option<u8> {
    if data.len() == 82 && is_option_tag(data, 0) && data[45] == 1 && is_option_tag(data, 46) {
        Some(data[44])
    } else {
        None
    }
}

/// Reads the account with `Mint::unpack` of spl-token and picks the
/// decimals.
///
/// Trusted: the account is accepted exactly when it is 82 bytes long, both
/// option tags are 0 or 1 and the mint is marked as initialised; the
/// decimals are the byte at 44.
#[verifier::external_body]
fn unpack_mint(data: &[u8]) -> (res: Option<u8>)
    ensures
        res == mint_decimals_spec(data@),
{
    spl_token::state::Mint::unpack(data).ok().map(|mint| mint.decimals)
}

/// The number of decimals of the mint whose account data is given, or
/// `None` where the data is not that of an initialised mint.
pub fn mint_decimals(data: &[u8]) -> (res: Option<u8>)
    ensures
        res == mint_decimals_spec(data@),
        data@.len() != 82 ==> res is None,
        res matches Some(decimals) ==> decimals == data@[44],
{
    if data.len() != MINT_LEN {
        return None;
    }
    unpack_mint(data)
}

} // verus!
