use sha2::Digest;
use vstd::prelude::*;

verus! {

/// The arguments of the staking program's `initialize_xstep` entry point.
#[derive(Clone, Copy, Debug, PartialEq, Eq, Structural)]
pub struct InitializeXstepInstructionArgs {
    pub nonce: u8,
}

/// The arguments of the staking program's `stake` entry point: the bump
/// seed of the vault and the amount of STEP to stake, in base units.
#[derive(Clone, Copy, Debug, PartialEq, Eq, Structural)]
pub struct StakeInstructionArgs {
    pub nonce: u8,
    pub amount: u64,
}

/// The ASCII bytes of `global:stake`, the qualified name of the entry
/// point, from which the discriminator is hashed.
pub const STAKE_METHOD: [u8; 12] = [103, 108, 111, 98, 97, 108, 58, 115, 116, 97, 107, 101];

/// The length of a discriminator.
pub const DISCRIMINATOR_LEN: usize = 8;

/// The SHA-256 digest of a sequence of bytes.
pub uninterp spec fn spec_sha256(data: Seq<u8>) -> Seq<u8>;

/// The eight bytes of a 64-bit number, least significant first.
pub open spec fn le_bytes(x: u64) -> Seq<u8> {
    seq![
        (x % 256) as u8,
        ((x / 0x100) % 256) as u8,
        ((x / 0x1_0000) % 256) as u8,
        ((x / 0x100_0000) % 256) as u8,
        ((x / 0x1_0000_0000) % 256) as u8,
        ((x / 0x100_0000_0000) % 256) as u8,
        ((x / 0x1_0000_0000_0000) % 256) as u8,
        ((x / 0x100_0000_0000_0000) % 256) as u8,
    ]
}

/// The arguments of `stake` as the program reads them: the nonce in one
/// byte, then the amount in eight bytes, least significant first, with no
/// length before either.
pub open spec fn stake_args_bytes(nonce: u8, amount: u64) -> Seq<u8> {
    seq![nonce] + le_bytes(amount)
}

/// The discriminator that a digest gives: its first eight bytes.
pub open spec fn discriminator_of(digest: Seq<u8>) -> Seq<u8> {
    Seq::new(8, |i: int| digest[i])
}

/// The discriminator of the `stake` entry point: the first eight bytes of
/// the digest of its qualified name.
pub open spec fn stake_discriminator() -> Seq<u8> {
    discriminator_of(spec_sha256(STAKE_METHOD@))
}

/// The payload of a stake instruction: the discriminator, then the
/// arguments.
pub open spec fn stake_data(nonce: u8, amount: u64) -> Seq<u8> {
    stake_discriminator() + stake_args_bytes(nonce, amount)
}

/// Hashes bytes with `Sha256` of sha2.
///
/// Trusted: the digest depends on the bytes alone.
#[verifier::external_body]
fn sha256(data: &[u8]) -> (digest: [u8; 32])
    ensures
        digest@ == spec_sha256(data@),
{
    let mut hasher = sha2::Sha256::new();
    hasher.update(data);
    hasher.finalize().into()
}

/// Serialises the pair of a nonce and an amount with `bincode::serialize`.
///
/// Trusted: with the settings of that function (fixed-width integers,
/// little endian, no size limit) the pair always serialises, to the nonce
/// followed by the eight bytes of the amount.
#[verifier::external_body]
fn bincode_serialize(nonce: u8, amount: u64) -> (res: Option<Vec<u8>>)
    ensures
        res is Some,
        res matches Some(bytes) ==> bytes@ == stake_args_bytes(nonce, amount),
{
    bincode::serialize(&(nonce, amount)).ok()
}

impl StakeInstructionArgs {
    /// The arguments as the program reads them, nine bytes.
    pub fn serialize(&self) -> (bytes: Vec<u8>)
        ensures
            bytes@ == stake_args_bytes(self.nonce, self.amount),
            bytes@.len() == 9,
    {
        match bincode_serialize(self.nonce, self.amount) {
            Some(bytes) => bytes,
            None => vstd::pervasive::unreached(),
        }
    }
}

/// Puts a payload together from the digest of an entry point's name and
/// the serialised arguments: the first eight bytes of the digest, then the
/// arguments.
pub fn frame_payload(digest: &[u8; 32], args: &[u8]) -> (data: Vec<u8>)
    ensures
        data@ == discriminator_of(digest@) + args@,
{
    let mut data: Vec<u8> = Vec::new();
    let mut i: usize = 0;
    while i < DISCRIMINATOR_LEN
        invariant
            i <= 8,
            data@ == digest@.subrange(0, i as int),
        decreases 8 - i,
    {
        data.push(digest[i]);
        assert(data@ =~= digest@.subrange(0, i + 1));
        i = i + 1;
    }
    assert(data@ =~= discriminator_of(digest@));
    let mut j: usize = 0;
    while j < args.len()
        invariant
            j <= args@.len(),
            data@ == discriminator_of(digest@) + args@.subrange(0, j as int),
        decreases args@.len() - j,
    {
        data.push(args[j]);
        assert(data@ =~= discriminator_of(digest@) + args@.subrange(0, j + 1));
        j = j + 1;
    }
    assert(args@.subrange(0, args@.len() as int) =~= args@);
    data
}

/// Encodes the payload of a stake instruction.
///
/// The payload depends on the arguments alone, and its first eight bytes
/// are the discriminator of `stake` whatever the arguments are.
pub fn encode_stake_data(args: &StakeInstructionArgs) -> (data: Vec<u8>)
    ensures
        data@ == stake_data(args.nonce, args.amount),
        data@.len() == 17,
        data@.subrange(0, 8) == stake_discriminator(),
{
    let digest = sha256(STAKE_METHOD.as_slice());
    let serialized = args.serialize();
    let data = frame_payload(&digest, serialized.as_slice());
    assert(data@.subrange(0, 8) =~= stake_discriminator());
    data
}

/// Whatever the arguments, a stake payload is seventeen bytes long, starts
/// with the discriminator of `stake` and goes on with the nonce and the
/// amount, least significant byte first.
pub proof fn lemma_stake_data_layout(nonce: u8, amount: u64)
    ensures
        stake_data(nonce, amount).len() == 17,
        stake_data(nonce, amount).subrange(0, 8) == stake_discriminator(),
        stake_data(nonce, amount)[8] == nonce,
        stake_data(nonce, amount).subrange(9, 17) == le_bytes(amount),
{
    assert(stake_data(nonce, amount).subrange(0, 8) =~= stake_discriminator());
    assert(stake_data(nonce, amount).subrange(9, 17) =~= le_bytes(amount));
}

/// The eight bytes of an amount give the amount back: no two amounts are
/// encoded alike.
pub proof fn lemma_le_bytes_value(x: u64)
    ensures
        le_bytes(x).len() == 8,
        x == le_bytes(x)[0] + le_bytes(x)[1] * 0x100 + le_bytes(x)[2] * 0x1_0000 + le_bytes(x)[3]
            * 0x100_0000 + le_bytes(x)[4] * 0x1_0000_0000 + le_bytes(x)[5] * 0x100_0000_0000
            + le_bytes(x)[6] * 0x1_0000_0000_0000 + le_bytes(x)[7] * 0x100_0000_0000_0000,
{
    let a: int = x as int;
    let q1 = a / 0x100;
    let q2 = q1 / 0x100;
    let q3 = q2 / 0x100;
    let q4 = q3 / 0x100;
    let q5 = q4 / 0x100;
    let q6 = q5 / 0x100;
    let q7 = q6 / 0x100;
    assert(q2 == a / 0x1_0000);
    assert(q3 == a / 0x100_0000);
    assert(q4 == a / 0x1_0000_0000);
    assert(q5 == a / 0x100_0000_0000);
    assert(q6 == a / 0x1_0000_0000_0000);
    assert(q7 == a / 0x100_0000_0000_0000);
    assert(q7 < 256);
}

} // verus!
