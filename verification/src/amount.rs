use crate::error::ComposeError;
use vstd::arithmetic::div_mod::{
    lemma_div_by_multiple, lemma_div_multiples_vanish_quotient,
    lemma_fundamental_div_mod_converse_div,
};
use vstd::arithmetic::power::{lemma_pow0, lemma_pow_adds, lemma_pow_positive, pow};
use vstd::prelude::*;
use vstd::string::StringSliceAdditionalSpecFns;

verus! {

/// The number of decimals of STEP, used when the amount is staked directly.
pub const STEP_DECIMALS: u8 = 9;

/// Whether a byte is an ASCII digit.
pub open spec fn is_digit(b: u8) -> bool {
    48 <= b <= 57
}

/// Whether every byte is an ASCII digit.
pub open spec fn all_digits(s: Seq<u8>) -> bool {
    forall|i: int| 0 <= i < s.len() ==> is_digit(#[trigger] s[i])
}

/// The number that a sequence of digits writes, most significant first.
/// No digit at all writes zero.
pub open spec fn digits_value(s: Seq<u8>) -> nat
    decreases s.len(),
{
    if s.len() == 0 {
        0
    } else {
        digits_value(s.drop_last()) * 10 + (s.last() - 48) as nat
    }
}

/// A decimal number as it is written: a sign, the digits before the point
/// and the digits after it.
pub struct Decimal {
    pub negative: bool,
    pub integer: Seq<u8>,
    pub fraction: Seq<u8>,
}

/// Whether a text starts with `+` or `-`.
pub open spec fn has_sign(text: Seq<u8>) -> bool {
    text.len() > 0 && (text[0] == 43 || text[0] == 45)
}

/// The text without its sign.
pub open spec fn unsigned_part(text: Seq<u8>) -> Seq<u8> {
    if has_sign(text) {
        text.skip(1)
    } else {
        text
    }
}

/// The number of bytes before the first point; the whole length where
/// there is no point.
pub open spec fn first_point(body: Seq<u8>) -> nat
    decreases body.len(),
{
    if body.len() == 0 || body[0] == 46 {
        0
    } else {
        1 + first_point(body.skip(1))
    }
}

/// Reads a decimal number: an optional sign, digits, and optionally a
/// point followed by digits. The digits before or after the point may be
/// missing, not both. Nothing else is a decimal number: no blank, no
/// exponent, no digit grouping.
pub open spec fn parse_decimal(text: Seq<u8>) -> Option<Decimal> {
    let body = unsigned_part(text);
    let point = first_point(body) as int;
    let integer = body.take(point);
    let fraction = if point < body.len() {
        body.skip(point + 1)
    } else {
        Seq::<u8>::empty()
    };
    if all_digits(integer) && all_digits(fraction) && integer.len() + fraction.len() > 0 {
        Some(Decimal { negative: has_sign(text) && text[0] == 45, integer, fraction })
    } else {
        None
    }
}

/// The fraction digits brought to exactly `decimals` places: cut where
/// there are more, filled with zeros where there are fewer.
pub open spec fn fraction_places(fraction: Seq<u8>, decimals: nat) -> Seq<u8> {
    Seq::new(
        decimals,
        |i: int|
            if i < fraction.len() {
                fraction[i]
            } else {
                48u8
            },
    )
}

/// The magnitude of a decimal number in base units: the point is moved
/// `decimals` places to the right, and what is still behind it is dropped.
pub open spec fn base_units(d: Decimal, decimals: nat) -> nat {
    digits_value(d.integer + fraction_places(d.fraction, decimals))
}

/// What `normalize_amount` returns for a text and a number of decimals.
///
/// The amount is scaled by ten to the power of `decimals` and truncated
/// toward zero. A text that is no decimal number gives `InvalidAmount`; a
/// result below zero gives `AmountUnderflow`; one above the largest 64-bit
/// number gives `AmountOverflow`.
pub open spec fn normalize_spec(text: Seq<u8>, decimals: u8) -> Result<u64, ComposeError> {
    match parse_decimal(text) {
        None => Err(ComposeError::InvalidAmount),
        Some(d) => {
            let units = base_units(d, decimals as nat);
            if units == 0 {
                Ok(0u64)
            } else if d.negative {
                Err(ComposeError::AmountUnderflow)
            } else if units > u64::MAX {
                Err(ComposeError::AmountOverflow)
            } else {
                Ok(units as u64)
            }
        },
    }
}

/// What `parse_base_units` returns: the value of a text of digits, with an
/// optional `+` before them, where it fits in 64 bits.
pub open spec fn parse_base_units_spec(text: Seq<u8>) -> Option<u64> {
    let digits = if text.len() > 0 && text[0] == 43 {
        text.skip(1)
    } else {
        text
    };
    if digits.len() > 0 && all_digits(digits) && digits_value(digits) <= u64::MAX {
        Some(digits_value(digits) as u64)
    } else {
        None
    }
}

/// A number whose digits are being read: `Some` holds the value so far,
/// `None` says that it has passed the largest 64-bit number.
pub open spec fn tracks(acc: Option<u64>, value: nat) -> bool {
    match acc {
        Some(x) => x == value,
        None => value > u64::MAX,
    }
}

proof fn lemma_digits_push(s: Seq<u8>, b: u8)
    ensures
        digits_value(s.push(b)) == digits_value(s) * 10 + (b - 48) as nat,
{
    assert(s.push(b).drop_last() =~= s);
}

proof fn lemma_first_point(body: Seq<u8>)
    ensures
        first_point(body) <= body.len(),
        forall|i: int| 0 <= i < first_point(body) ==> body[i] != 46,
        first_point(body) < body.len() ==> body[first_point(body) as int] == 46,
    decreases body.len(),
{
    if body.len() == 0 || body[0] == 46 {
    } else {
        let rest = body.skip(1);
        lemma_first_point(rest);
        assert forall|i: int| 0 <= i < first_point(body) implies body[i] != 46 by {
            if i > 0 {
                assert(body[i] == rest[i - 1]);
            }
        }
        if first_point(body) < body.len() {
            assert(body[first_point(body) as int] == rest[first_point(rest) as int]);
        }
    }
}

/// The first point is the only place before which there is no point and at
/// which there is one, or the text ends.
proof fn lemma_first_point_unique(body: Seq<u8>, p: int)
    requires
        0 <= p <= body.len(),
        forall|i: int| 0 <= i < p ==> body[i] != 46,
        p < body.len() ==> body[p] == 46,
    ensures
        first_point(body) == p,
{
    lemma_first_point(body);
    let q = first_point(body) as int;
    if q < p {
        assert(body[q] != 46);
    } else if p < q {
        assert(body[p] == 46);
    }
}

/// Adds one digit to a number that is being read.
fn push_digit(acc: Option<u64>, digit: u8, Ghost(value): Ghost<nat>) -> (res: Option<u64>)
    requires
        is_digit(digit),
        tracks(acc, value),
    ensures
        tracks(res, value * 10 + (digit - 48) as nat),
{
    match acc {
        None => None,
        Some(x) => match x.checked_mul(10) {
            None => None,
            Some(y) => y.checked_add((digit - 48) as u64),
        },
    }
}

/// Whether the bytes from `from` up to `to` are all digits.
fn digits_between(bytes: &[u8], from: usize, to: usize) -> (res: bool)
    requires
        from <= to <= bytes@.len(),
    ensures
        res == all_digits(bytes@.subrange(from as int, to as int)),
{
    let mut i: usize = from;
    while i < to
        invariant
            from <= i <= to <= bytes@.len(),
            all_digits(bytes@.subrange(from as int, i as int)),
        decreases to - i,
    {
        let b: u8 = bytes[i];
        if b < 48 || b > 57 {
            assert(!is_digit(bytes@.subrange(from as int, to as int)[i - from]));
            return false;
        }
        assert forall|j: int| 0 <= j < i + 1 - from implies is_digit(
            #[trigger] bytes@.subrange(from as int, i + 1)[j],
        ) by {
            if j < i - from {
                assert(bytes@.subrange(from as int, i as int)[j] == bytes@[from + j]);
            }
        }
        i = i + 1;
    }
    true
}

/// Reads the digits from `from` up to `to` as a number.
fn read_digits(bytes: &[u8], from: usize, to: usize) -> (res: Option<u64>)
    requires
        from <= to <= bytes@.len(),
        all_digits(bytes@.subrange(from as int, to as int)),
    ensures
        tracks(res, digits_value(bytes@.subrange(from as int, to as int))),
{
    let mut acc: Option<u64> = Some(0);
    let mut i: usize = from;
    while i < to
        invariant
            from <= i <= to <= bytes@.len(),
            all_digits(bytes@.subrange(from as int, to as int)),
            tracks(acc, digits_value(bytes@.subrange(from as int, i as int))),
        decreases to - i,
    {
        let b: u8 = bytes[i];
        proof {
            let done = bytes@.subrange(from as int, i as int);
            assert(bytes@.subrange(from as int, to as int)[i - from] == b);
            lemma_digits_push(done, b);
            assert(done.push(b) =~= bytes@.subrange(from as int, i + 1));
        }
        acc = push_digit(acc, b, Ghost(digits_value(bytes@.subrange(from as int, i as int))));
        i = i + 1;
    }
    acc
}

/// Converts an amount as a person writes it into base units of a mint with
/// `decimals` decimals, on the bytes of the text.
pub fn normalize_bytes(bytes: &[u8], decimals: u8) -> (res: Result<u64, ComposeError>)
    ensures
        res == normalize_spec(bytes@, decimals),
{
    let n: usize = bytes.len();
    let signed: bool = n > 0 && (bytes[0] == 43 || bytes[0] == 45);
    let negative: bool = signed && bytes[0] == 45;
    let start: usize = if signed {
        1
    } else {
        0
    };
    let ghost body = unsigned_part(bytes@);
    assert(body =~= bytes@.subrange(start as int, n as int));
    let mut point: usize = start;
    while point < n && bytes[point] != 46
        invariant
            start <= point <= n == bytes@.len(),
            forall|i: int| start <= i < point ==> bytes@[i] != 46,
        decreases n - point,
    {
        point = point + 1;
    }
    proof {
        lemma_first_point_unique(body, point - start);
    }
    let ghost integer = body.take(point - start);
    let ghost fraction = if point < n {
        body.skip(point - start + 1)
    } else {
        Seq::<u8>::empty()
    };
    assert(integer =~= bytes@.subrange(start as int, point as int));
    let fraction_start: usize = if point < n {
        point + 1
    } else {
        n
    };
    assert(fraction =~= bytes@.subrange(fraction_start as int, n as int));
    if !digits_between(bytes, start, point) || !digits_between(bytes, fraction_start, n) {
        return Err(ComposeError::InvalidAmount);
    }
    if point - start + (n - fraction_start) == 0 {
        return Err(ComposeError::InvalidAmount);
    }
    let ghost d = Decimal { negative, integer, fraction };
    assert(parse_decimal(bytes@) == Some(d));
    let mut acc: Option<u64> = read_digits(bytes, start, point);
    let mut k: u8 = 0;
    while k < decimals
        invariant
            k <= decimals,
            fraction_start <= n == bytes@.len(),
            fraction == bytes@.subrange(fraction_start as int, n as int),
            all_digits(fraction),
            tracks(acc, digits_value(integer + fraction_places(fraction, k as nat))),
        decreases decimals - k,
    {
        let digit: u8 = if (k as usize) < n - fraction_start {
            bytes[fraction_start + k as usize]
        } else {
            48
        };
        proof {
            let done = integer + fraction_places(fraction, k as nat);
            if k < fraction.len() {
                assert(fraction[k as int] == digit);
            }
            lemma_digits_push(done, digit);
            assert(done.push(digit) =~= integer + fraction_places(fraction, (k + 1) as nat));
        }
        acc = push_digit(
            acc,
            digit,
            Ghost(digits_value(integer + fraction_places(fraction, k as nat))),
        );
        k = k + 1;
    }
    assert(tracks(acc, base_units(d, decimals as nat)));
    match acc {
        Some(units) => {
            if units == 0 {
                Ok(0)
            } else if negative {
                Err(ComposeError::AmountUnderflow)
            } else {
                Ok(units)
            }
        },
        None => {
            if negative {
                Err(ComposeError::AmountUnderflow)
            } else {
                Err(ComposeError::AmountOverflow)
            }
        },
    }
}

/// Converts an amount as a person writes it ("1.5") into base units of a
/// mint with `decimals` decimals: the amount times ten to the power of
/// `decimals`, truncated toward zero.
pub fn normalize_amount(text: &str, decimals: u8) -> (res: Result<u64, ComposeError>)
    ensures
        res == normalize_spec(text.spec_bytes(), decimals),
{
    normalize_bytes(text.as_bytes(), decimals)
}

/// Whether a text is a decimal number, so that it can be normalised for
/// some number of decimals.
pub fn is_decimal(text: &str) -> (res: bool)
    ensures
        res == parse_decimal(text.spec_bytes()) is Some,
{
    match normalize_bytes(text.as_bytes(), 0) {
        Err(ComposeError::InvalidAmount) => false,
        _ => true,
    }
}

/// Reads an amount that is already in base units: digits, with an optional
/// `+` before them. Returns `None` for any other text and for a number
/// that does not fit in 64 bits.
pub fn parse_base_units(text: &str) -> (res: Option<u64>)
    ensures
        res == parse_base_units_spec(text.spec_bytes()),
{
    let bytes = text.as_bytes();
    let n: usize = bytes.len();
    let start: usize = if n > 0 && bytes[0] == 43 {
        1
    } else {
        0
    };
    let ghost digits = if bytes@.len() > 0 && bytes@[0] == 43 {
        bytes@.skip(1)
    } else {
        bytes@
    };
    assert(digits =~= bytes@.subrange(start as int, n as int));
    if n - start == 0 || !digits_between(bytes, start, n) {
        return None;
    }
    read_digits(bytes, start, n)
}

/// The digits of `a` followed by those of `b` write the number of `a`,
/// moved left by the length of `b`, plus the number of `b`.
pub proof fn lemma_digits_concat(a: Seq<u8>, b: Seq<u8>)
    ensures
        digits_value(a + b) == digits_value(a) * pow(10, b.len()) + digits_value(b),
    decreases b.len(),
{
    if b.len() == 0 {
        assert(a + b =~= a);
        lemma_pow0(10);
    } else {
        let front = b.drop_last();
        lemma_digits_concat(a, front);
        assert((a + b).drop_last() =~= a + front);
        assert((a + b).last() == b.last());
        let p = pow(10, front.len());
        assert(pow(10, b.len()) == p * 10) by {
            lemma_pow_adds(10, front.len(), 1);
            vstd::arithmetic::power::lemma_pow1(10);
            assert(front.len() + 1 == b.len());
        }
        let x = digits_value(a) as int;
        assert((x * p) * 10 == x * (p * 10)) by (nonlinear_arith);
    }
}

/// Digits write a number below ten to the power of their count.
pub proof fn lemma_digits_bound(s: Seq<u8>)
    requires
        all_digits(s),
    ensures
        digits_value(s) < pow(10, s.len()),
    decreases s.len(),
{
    if s.len() == 0 {
        lemma_pow0(10);
    } else {
        let front = s.drop_last();
        assert forall|i: int| 0 <= i < front.len() implies is_digit(#[trigger] front[i]) by {
            assert(front[i] == s[i]);
        }
        lemma_digits_bound(front);
        assert(is_digit(s[s.len() - 1]));
        let p = pow(10, front.len());
        assert(pow(10, s.len()) == p * 10) by {
            lemma_pow_adds(10, front.len(), 1);
            vstd::arithmetic::power::lemma_pow1(10);
            assert(front.len() + 1 == s.len());
        }
    }
}

/// Zeros write zero.
pub proof fn lemma_zeros_value(n: nat)
    ensures
        digits_value(Seq::new(n, |i: int| 48u8)) == 0,
    decreases n,
{
    if n > 0 {
        lemma_zeros_value((n - 1) as nat);
        assert(Seq::new(n, |i: int| 48u8).drop_last() =~= Seq::new(
            (n - 1) as nat,
            |i: int| 48u8,
        ));
    }
}

/// The base units of a decimal number are the number times ten to the
/// power of the decimals, truncated toward zero: with `n` the number that
/// all its digits write and `f` the count of digits behind the point, they
/// are `n * 10^decimals / 10^f`, rounded down.
pub proof fn lemma_base_units_truncate(d: Decimal, decimals: nat)
    requires
        all_digits(d.integer),
        all_digits(d.fraction),
    ensures
        pow(10, d.fraction.len()) > 0,
        base_units(d, decimals) == (digits_value(d.integer + d.fraction) * pow(10, decimals)) / pow(
            10,
            d.fraction.len(),
        ),
{
    let f = d.fraction.len();
    let n = digits_value(d.integer + d.fraction) as int;
    let places = fraction_places(d.fraction, decimals);
    lemma_pow_positive(10, f);
    lemma_pow_positive(10, decimals);
    if decimals >= f {
        let more = (decimals - f) as nat;
        let zeros = Seq::new(more, |i: int| 48u8);
        assert(d.integer + places =~= (d.integer + d.fraction) + zeros);
        lemma_digits_concat(d.integer + d.fraction, zeros);
        lemma_zeros_value(more);
        lemma_pow_adds(10, more, f);
        lemma_pow_positive(10, more);
        let scaled = n * pow(10, more);
        assert(n * pow(10, decimals) == scaled * pow(10, f)) by (nonlinear_arith)
            requires
                pow(10, decimals) == pow(10, more) * pow(10, f),
                scaled == n * pow(10, more),
        ;
        assert(scaled >= 0) by (nonlinear_arith)
            requires
                n >= 0,
                pow(10, more) > 0,
                scaled == n * pow(10, more),
        ;
        lemma_div_by_multiple(scaled, pow(10, f));
    } else {
        let less = (f - decimals) as nat;
        let kept = d.fraction.take(decimals as int);
        let dropped = d.fraction.skip(decimals as int);
        assert(places =~= kept);
        assert(d.integer + d.fraction =~= (d.integer + kept) + dropped);
        lemma_digits_concat(d.integer + kept, dropped);
        assert forall|i: int| 0 <= i < dropped.len() implies is_digit(#[trigger] dropped[i]) by {
            assert(dropped[i] == d.fraction[decimals + i]);
        }
        lemma_digits_bound(dropped);
        lemma_pow_adds(10, decimals, less);
        lemma_pow_positive(10, less);
        let units = digits_value(d.integer + kept) as int;
        let rest = digits_value(dropped) as int;
        let q = pow(10, less);
        assert(n == units * q + rest);
        lemma_fundamental_div_mod_converse_div(n, q, units, rest);
        lemma_div_multiples_vanish_quotient(pow(10, decimals), n, q);
        assert(n * pow(10, decimals) == pow(10, decimals) * n) by (nonlinear_arith);
    }
}

/// Without decimals nothing is scaled: an amount written with digits alone
/// is its own number of base units, or too large for 64 bits.
pub proof fn lemma_no_decimals_no_scaling(text: Seq<u8>)
    requires
        text.len() > 0,
        all_digits(text),
    ensures
        normalize_spec(text, 0) == if digits_value(text) <= u64::MAX {
            Ok::<u64, ComposeError>(digits_value(text) as u64)
        } else {
            Err::<u64, ComposeError>(ComposeError::AmountOverflow)
        },
{
    assert(is_digit(text[0]));
    assert forall|i: int| 0 <= i < text.len() implies text[i] != 46 by {
        assert(is_digit(text[i]));
    }
    lemma_first_point_unique(text, text.len() as int);
    assert(text.take(text.len() as int) =~= text);
    assert(text + fraction_places(Seq::<u8>::empty(), 0) =~= text);
}

/// An amount is never wrapped: what `normalize_spec` accepts is the exact
/// number of base units, and every number of base units above the largest
/// 64-bit number is refused.
pub proof fn lemma_normalize_exact(text: Seq<u8>, decimals: u8)
    ensures
        match normalize_spec(text, decimals) {
            Ok(units) => parse_decimal(text) matches Some(d) && units == base_units(
                d,
                decimals as nat,
            ),
            Err(e) => {
                &&& e == ComposeError::InvalidAmount <==> parse_decimal(text) is None
                &&& e == ComposeError::AmountOverflow <==> (parse_decimal(text) matches Some(d)
                    && !d.negative && base_units(d, decimals as nat) > u64::MAX)
                &&& e == ComposeError::AmountUnderflow <==> (parse_decimal(text) matches Some(d)
                    && d.negative && base_units(d, decimals as nat) > 0)
            },
        },
{
}

} // verus!
