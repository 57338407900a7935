//! Integer arithmetic, the decimal form of integers, and the floats nearest
//! to them.

use vstd::arithmetic::power2::{
    lemma2_to64, lemma2_to64_rest, lemma_pow2_adds, lemma_pow2_pos, lemma_pow2_strictly_increases,
    lemma_pow2_unfold, pow2,
};
use vstd::prelude::*;
use vstd::string::StringExecFns;

verus! {

/// The binary operations on integers that produce an integer.
#[derive(Clone, Copy, PartialEq, Eq, Debug, Structural)]
pub enum Arithmetic {
    Add,
    Div,
    Mul,
    Sub,
    Mod,
    BitwiseAnd,
    BitwiseOr,
    BitwiseXor,
    ShiftLeft,
    ShiftRight,
}

/// The comparisons of two integers.
#[derive(Clone, Copy, PartialEq, Eq, Debug, Structural)]
pub enum Comparison {
    Smaller,
    Greater,
    Equal,
}

/// The 64-bit two's complement integer that is congruent to `x` modulo 2^64.
pub open spec fn wrapped(x: int) -> i64 {
    let r = x % 0x1_0000_0000_0000_0000;
    if r > i64::MAX {
        (r - 0x1_0000_0000_0000_0000) as i64
    } else {
        r as i64
    }
}

/// The quotient of `a` by `b`, rounded towards zero.
pub open spec fn quotient(a: int, b: int) -> int {
    if a >= 0 && b > 0 {
        a / b
    } else if a < 0 && b < 0 {
        (-a) / (-b)
    } else if a < 0 {
        -((-a) / b)
    } else {
        -(a / (-b))
    }
}

/// What is left of `a` after taking out `quotient(a, b)` times `b`. It has the
/// sign of `a`.
pub open spec fn remainder(a: int, b: int) -> int {
    if a >= 0 && b > 0 {
        a % b
    } else if a < 0 && b < 0 {
        -((-a) % (-b))
    } else if a < 0 {
        -((-a) % b)
    } else {
        a % (-b)
    }
}

/// How far a shift by `b` moves the bits: the low six bits of `b`.
pub open spec fn shift_distance(b: i64) -> u32 {
    (b & 63) as u32
}

/// The result of an operation on two integers, or nothing for a division or a
/// remainder by zero. Results that do not fit in 64 bits wrap around.
pub open spec fn arithmetic(op: Arithmetic, a: i64, b: i64) -> Option<i64> {
    match op {
        Arithmetic::Add => Some(wrapped(a + b)),
        Arithmetic::Sub => Some(wrapped(a - b)),
        Arithmetic::Mul => Some(wrapped(a * b)),
        Arithmetic::Div => if b == 0 {
            None
        } else {
            Some(wrapped(quotient(a as int, b as int)))
        },
        Arithmetic::Mod => if b == 0 {
            None
        } else {
            Some(wrapped(remainder(a as int, b as int)))
        },
        Arithmetic::BitwiseAnd => Some(a & b),
        Arithmetic::BitwiseOr => Some(a | b),
        Arithmetic::BitwiseXor => Some(a ^ b),
        Arithmetic::ShiftLeft => Some(a << shift_distance(b)),
        Arithmetic::ShiftRight => Some(a >> shift_distance(b)),
    }
}

/// Whether the comparison holds of `a` and `b`.
pub open spec fn compares(comparison: Comparison, a: i64, b: i64) -> bool {
    match comparison {
        Comparison::Smaller => a < b,
        Comparison::Greater => a > b,
        Comparison::Equal => a == b,
    }
}

/// A quotient is no larger in magnitude than the dividend.
proof fn lemma_quotient_bounds(a: int, b: int)
    requires
        b != 0,
    ensures
        a >= 0 ==> -a <= quotient(a, b) <= a,
        a < 0 ==> a <= quotient(a, b) <= -a,
{
    let x = if a < 0 {
        -a
    } else {
        a
    };
    let d = if b < 0 {
        -b
    } else {
        b
    };
    assert(0 <= x / d <= x) by (nonlinear_arith)
        requires
            x >= 0,
            d > 0,
    ;
}

/// A remainder is smaller in magnitude than the divisor and has the sign of
/// the dividend.
proof fn lemma_remainder_bounds(a: int, b: int)
    requires
        b != 0,
    ensures
        a >= 0 ==> 0 <= remainder(a, b) <= a,
        a < 0 ==> a <= remainder(a, b) <= 0,
{
    let x = if a < 0 {
        -a
    } else {
        a
    };
    let d = if b < 0 {
        -b
    } else {
        b
    };
    assert(0 <= x % d <= x) by (nonlinear_arith)
        requires
            x >= 0,
            d > 0,
    ;
}

/// Wrapping a number that is at most one range away from the 64-bit integers
/// moves it by one range.
proof fn lemma_wrapped_near(x: int)
    requires
        -0x1_0000_0000_0000_0000 <= x < 0x1_0000_0000_0000_0000,
    ensures
        wrapped(x) == (if x > i64::MAX {
            x - 0x1_0000_0000_0000_0000
        } else if x < i64::MIN {
            x + 0x1_0000_0000_0000_0000
        } else {
            x
        }),
{
    if x >= 0 {
        assert(x % 0x1_0000_0000_0000_0000 == x);
    } else {
        assert(x % 0x1_0000_0000_0000_0000 == x + 0x1_0000_0000_0000_0000);
    }
}

fn distance(b: i64) -> (d: u32)
    ensures
        d == shift_distance(b),
        d < 64,
{
    let low = b & 63;
    assert(0 <= low < 64) by (bit_vector)
        requires
            low == b & 63,
    ;
    low as u32
}

/// Applies an operation to two integers.
#[verifier::rlimit(50)]
pub fn compute(op: Arithmetic, a: i64, b: i64) -> (r: Option<i64>)
    ensures
        r == arithmetic(op, a, b),
{
    match op {
        Arithmetic::Add => {
            proof {
                lemma_wrapped_near(a + b);
            }
            Some(a.wrapping_add(b))
        },
        Arithmetic::Sub => {
            proof {
                lemma_wrapped_near(a - b);
            }
            Some(a.wrapping_sub(b))
        },
        Arithmetic::Mul => Some(a.wrapping_mul(b)),
        Arithmetic::Div => {
            if b == 0 {
                None
            } else {
                proof {
                    lemma_quotient_bounds(a as int, b as int);
                    lemma_wrapped_near(quotient(a as int, b as int));
                }
                match a.checked_div(b) {
                    Some(q) => Some(q),
                    None => Some(i64::MIN),
                }
            }
        },
        Arithmetic::Mod => {
            if b == 0 {
                None
            } else {
                proof {
                    lemma_remainder_bounds(a as int, b as int);
                    lemma_wrapped_near(remainder(a as int, b as int));
                }
                match a.checked_rem(b) {
                    Some(r) => Some(r),
                    None => Some(0),
                }
            }
        },
        Arithmetic::BitwiseAnd => Some(a & b),
        Arithmetic::BitwiseOr => Some(a | b),
        Arithmetic::BitwiseXor => Some(a ^ b),
        Arithmetic::ShiftLeft => {
            let d = distance(b);
            Some(a.wrapping_shl(d))
        },
        Arithmetic::ShiftRight => {
            let d = distance(b);
            Some(a.wrapping_shr(d))
        },
    }
}

/// Compares two integers.
pub fn compare(comparison: Comparison, a: i64, b: i64) -> (r: bool)
    ensures
        r == compares(comparison, a, b),
{
    match comparison {
        Comparison::Smaller => a < b,
        Comparison::Greater => a > b,
        Comparison::Equal => a == b,
    }
}

/// The character for a decimal digit.
pub open spec fn digit_char(d: int) -> char {
    if d == 0 {
        '0'
    } else if d == 1 {
        '1'
    } else if d == 2 {
        '2'
    } else if d == 3 {
        '3'
    } else if d == 4 {
        '4'
    } else if d == 5 {
        '5'
    } else if d == 6 {
        '6'
    } else if d == 7 {
        '7'
    } else if d == 8 {
        '8'
    } else {
        '9'
    }
}

/// The decimal digits of a natural number, without leading zeros.
pub open spec fn digits(n: nat) -> Seq<char>
    decreases n,
{
    if n < 10 {
        seq![digit_char(n as int)]
    } else {
        digits(n / 10).push(digit_char((n % 10) as int))
    }
}

/// The decimal form of an integer: a minus sign if it is negative, then the
/// digits of its magnitude.
pub open spec fn decimal(i: int) -> Seq<char> {
    if i < 0 {
        seq!['-'] + digits((-i) as nat)
    } else {
        digits(i as nat)
    }
}

/// The value of a decimal digit character.
pub open spec fn digit_value(c: char) -> Option<int> {
    if c == '0' {
        Some(0)
    } else if c == '1' {
        Some(1)
    } else if c == '2' {
        Some(2)
    } else if c == '3' {
        Some(3)
    } else if c == '4' {
        Some(4)
    } else if c == '5' {
        Some(5)
    } else if c == '6' {
        Some(6)
    } else if c == '7' {
        Some(7)
    } else if c == '8' {
        Some(8)
    } else if c == '9' {
        Some(9)
    } else {
        None
    }
}

/// The natural number that a non-empty run of decimal digits denotes.
pub open spec fn parse_digits(s: Seq<char>) -> Option<int>
    decreases s.len(),
{
    if s.len() == 0 {
        None
    } else if s.len() == 1 {
        digit_value(s[0])
    } else {
        match (parse_digits(s.drop_last()), digit_value(s.last())) {
            (Some(high), Some(low)) => Some(high * 10 + low),
            _ => None,
        }
    }
}

/// The integer that an integer literal denotes: an optional minus sign
/// followed by decimal digits.
pub open spec fn parse_integer(s: Seq<char>) -> Option<int> {
    if s.len() > 0 && s[0] == '-' {
        match parse_digits(s.subrange(1, s.len() as int)) {
            Some(magnitude) => Some(-magnitude),
            None => None,
        }
    } else {
        parse_digits(s)
    }
}

/// The digits of a number start with a digit and read back as the number.
pub proof fn lemma_digits_parse(n: nat)
    ensures
        digits(n).len() > 0,
        digit_value(digits(n)[0]) is Some,
        parse_digits(digits(n)) == Some(n as int),
    decreases n,
{
    if n >= 10 {
        lemma_digits_parse(n / 10);
        let s = digits(n);
        assert(s.drop_last() =~= digits(n / 10));
        assert(s[0] == digits(n / 10)[0]);
    }
}

/// Writing an integer in decimal and reading the text back as an integer
/// literal gives the integer again.
pub proof fn lemma_decimal_round_trip(i: int)
    ensures
        parse_integer(decimal(i)) == Some(i),
{
    if i < 0 {
        let s = decimal(i);
        lemma_digits_parse((-i) as nat);
        assert(s.subrange(1, s.len() as int) =~= digits((-i) as nat));
    } else {
        lemma_digits_parse(i as nat);
    }
}

fn digit_str(d: u8) -> (s: &'static str)
    requires
        d < 10,
    ensures
        s@ == seq![digit_char(d as int)],
{
    proof {
        reveal_strlit("0");
        reveal_strlit("1");
        reveal_strlit("2");
        reveal_strlit("3");
        reveal_strlit("4");
        reveal_strlit("5");
        reveal_strlit("6");
        reveal_strlit("7");
        reveal_strlit("8");
        reveal_strlit("9");
    }
    let s = match d {
        0 => "0",
        1 => "1",
        2 => "2",
        3 => "3",
        4 => "4",
        5 => "5",
        6 => "6",
        7 => "7",
        8 => "8",
        _ => "9",
    };
    assert(s@ =~= seq![digit_char(d as int)]);
    s
}

/// The digits in `low_first`, most significant first.
spec fn high_first(low_first: Seq<u8>) -> Seq<char> {
    Seq::new(low_first.len(), |k: int| digit_char(low_first[low_first.len() - 1 - k] as int))
}

/// Appends the decimal digits of `n` to `text`.
#[verifier::rlimit(50)]
pub fn append_natural(text: &mut String, n: u64)
    ensures
        final(text)@ == old(text)@ + digits(n as nat),
{
    let mut low_first: Vec<u8> = Vec::new();
    let mut rest = n;
    assert(digits(n as nat) =~= digits(rest as nat) + high_first(low_first@));
    while rest >= 10
        invariant
            digits(n as nat) == digits(rest as nat) + high_first(low_first@),
            forall|k: int| 0 <= k < low_first@.len() ==> low_first@[k] < 10,
        decreases rest,
    {
        let ghost before = low_first@;
        let d = (rest % 10) as u8;
        low_first.push(d);
        assert(digits(rest as nat) + high_first(before) =~= digits((rest / 10) as nat) + high_first(
            low_first@,
        ));
        rest = rest / 10;
    }
    low_first.push(rest as u8);
    assert(digits(n as nat) =~= high_first(low_first@));
    let mut k = low_first.len();
    while k > 0
        invariant
            k <= low_first@.len(),
            forall|j: int| 0 <= j < low_first@.len() ==> low_first@[j] < 10,
            text@ == old(text)@ + high_first(low_first@).take(low_first@.len() - k),
        decreases k,
    {
        k = k - 1;
        text.append(digit_str(low_first[k]));
        assert(text@ =~= old(text)@ + high_first(low_first@).take(low_first@.len() - k));
    }
    assert(high_first(low_first@).take(low_first@.len() as int) =~= high_first(low_first@));
}

/// The magnitude of an integer.
fn magnitude(i: i64) -> (m: u64)
    ensures
        m == (if i < 0 {
            -i
        } else {
            i as int
        }),
{
    if i < 0 {
        ((-(i + 1)) as u64) + 1
    } else {
        i as u64
    }
}

/// The decimal form of an integer.
pub fn integer_to_string(i: i64) -> (text: String)
    ensures
        text@ == decimal(i as int),
{
    let mut text = String::new();
    if i < 0 {
        proof {
            reveal_strlit("-");
        }
        text.append("-");
        assert(text@ =~= seq!['-']);
    }
    append_natural(&mut text, magnitude(i));
    assert(text@ =~= decimal(i as int));
    text
}

/// The position of the highest set bit of a positive number.
pub open spec fn exponent(m: nat) -> nat
    decreases m,
{
    if m < 2 {
        0
    } else {
        1 + exponent(m / 2)
    }
}

/// The 53-bit significand of the double nearest to the positive number `m`.
/// A number with more than 53 significant bits is rounded to the nearest
/// multiple of the weight of the last bit kept, and to the even one of two
/// that are equally near.
pub open spec fn significand(m: nat) -> nat {
    let e = exponent(m);
    if e <= 52 {
        m * pow2((52 - e) as nat)
    } else {
        let weight = pow2((e - 52) as nat);
        let kept = m / weight;
        let dropped = m % weight;
        if 2 * dropped > weight || (2 * dropped == weight && kept % 2 == 1) {
            kept + 1
        } else {
            kept
        }
    }
}

/// The IEEE 754 double-precision bit pattern of the double nearest to the
/// integer `i`: the sign in bit 63, the biased exponent in bits 52 to 62, and
/// the significand without its leading one below.
pub open spec fn float_bits(i: int) -> u64 {
    if i == 0 {
        0
    } else {
        let m = (if i < 0 {
            -i
        } else {
            i
        }) as nat;
        let sign: int = if i < 0 {
            0x8000_0000_0000_0000
        } else {
            0
        };
        (sign + (1023 + exponent(m)) * 0x10_0000_0000_0000 + significand(m)
            - 0x10_0000_0000_0000) as u64
    }
}

proof fn lemma_exponent(m: nat, e: nat)
    requires
        pow2(e) <= m < 2 * pow2(e),
    ensures
        exponent(m) == e,
    decreases e,
{
    lemma2_to64();
    if e == 0 {
    } else {
        lemma_pow2_unfold(e);
        lemma_exponent(m / 2, (e - 1) as nat);
    }
}

/// A positive number lies between the power of two of its exponent and the
/// next power of two.
pub proof fn lemma_exponent_bounds(m: nat)
    requires
        m > 0,
    ensures
        pow2(exponent(m)) <= m < 2 * pow2(exponent(m)),
    decreases m,
{
    lemma2_to64();
    if m >= 2 {
        lemma_exponent_bounds(m / 2);
        lemma_pow2_unfold(exponent(m));
    }
}

/// The distance between two integers.
pub open spec fn distance_between(a: int, b: int) -> int {
    if a <= b {
        b - a
    } else {
        a - b
    }
}

/// The significand is that of the nearest double. A number with at most 53
/// significant bits is represented exactly. For a larger one, whose last bit
/// kept has the weight `w`, no multiple of `w` is nearer to the number than
/// the significand times `w`, and if another is as near, the significand is
/// even. The significand has 53 bits, or is the power of two above them.
#[verifier::rlimit(50)]
pub proof fn lemma_significand_is_nearest(m: nat, other: int)
    requires
        m > 0,
    ensures
        pow2(52) <= significand(m) <= pow2(53),
        exponent(m) <= 52 ==> significand(m) == m * pow2((52 - exponent(m)) as nat),
        exponent(m) > 52 ==> ({
            let w = pow2((exponent(m) - 52) as nat) as int;
            let s = significand(m) as int;
            &&& distance_between(m as int, s * w) <= distance_between(m as int, other * w)
            &&& other != s && distance_between(m as int, s * w) == distance_between(
                m as int,
                other * w,
            ) ==> s % 2 == 0
        }),
{
    let e = exponent(m);
    lemma_exponent_bounds(m);
    lemma2_to64();
    lemma2_to64_rest();
    if e <= 52 {
        let scale = pow2((52 - e) as nat);
        lemma_pow2_adds(e, (52 - e) as nat);
        lemma_pow2_pos((52 - e) as nat);
        lemma_pow2_unfold(53);
        assert(pow2(e) * scale <= m * scale < 2 * (pow2(e) * scale)) by (nonlinear_arith)
            requires
                pow2(e) <= m < 2 * pow2(e),
                scale > 0,
        ;
    } else {
        let w = pow2((e - 52) as nat) as int;
        let kept = (m / (w as nat)) as int;
        let dropped = (m % (w as nat)) as int;
        let s = significand(m) as int;
        lemma_pow2_adds(52, (e - 52) as nat);
        lemma_pow2_pos((e - 52) as nat);
        lemma_pow2_unfold(53);
        assert(m == kept * w + dropped && 0 <= dropped < w) by (nonlinear_arith)
            requires
                w > 0,
                kept == (m as int) / w,
                dropped == (m as int) % w,
        ;
        assert(pow2(52) <= kept < pow2(53)) by (nonlinear_arith)
            requires
                pow2(52) * w <= m < 2 * (pow2(52) * w),
                m == kept * w + dropped,
                0 <= dropped < w,
                pow2(53) == 2 * pow2(52),
        ;
        assert(s * w == kept * w + (s - kept) * w) by (nonlinear_arith);
        assert((s - kept) * w == (if s == kept {
            0
        } else {
            w
        })) by (nonlinear_arith)
            requires
                s == kept || s == kept + 1,
        ;
        let gap = other - s;
        assert(other * w == s * w + gap * w) by (nonlinear_arith)
            requires
                gap == other - s,
        ;
        assert(gap >= 1 ==> gap * w >= w) by (nonlinear_arith)
            requires
                w > 0,
        ;
        assert(gap <= -1 ==> gap * w <= -w) by (nonlinear_arith)
            requires
                w > 0,
        ;
        assert(gap == 0 ==> gap * w == 0) by (nonlinear_arith);
    }
}

/// A power of two with a small exponent.
fn power_of_two(e: u64) -> (p: u64)
    requires
        e <= 63,
    ensures
        p == pow2(e as nat),
{
    let mut p: u64 = 1;
    let mut k: u64 = 0;
    proof {
        lemma2_to64();
    }
    while k < e
        invariant
            k <= e <= 63,
            p == pow2(k as nat),
            p <= 0x8000_0000_0000_0000,
        decreases e - k,
    {
        proof {
            lemma_pow2_unfold((k + 1) as nat);
            lemma2_to64_rest();
            if k + 1 < 63 {
                lemma_pow2_strictly_increases((k + 1) as nat, 63);
            }
        }
        p = p * 2;
        k = k + 1;
    }
    p
}

/// The bit pattern of the double nearest to an integer.
#[verifier::rlimit(50)]
pub fn to_float_bits(i: i64) -> (bits: u64)
    ensures
        bits == float_bits(i as int),
{
    if i == 0 {
        return 0;
    }
    let m = magnitude(i);
    let mut e: u64 = 0;
    let mut p: u64 = 1;
    proof {
        lemma2_to64();
        lemma2_to64_rest();
    }
    while m / 2 >= p
        invariant
            p == pow2(e as nat),
            1 <= p <= m <= 0x8000_0000_0000_0000,
            e <= 63,
            pow2(63) == 0x8000_0000_0000_0000,
        decreases m - p,
    {
        proof {
            lemma_pow2_unfold((e + 1) as nat);
            if e + 1 > 63 {
                lemma_pow2_strictly_increases(63, (e + 1) as nat);
            }
        }
        p = p * 2;
        e = e + 1;
    }
    proof {
        lemma_exponent(m as nat, e as nat);
    }
    let sig: u64 = if e <= 52 {
        let scale = power_of_two(52 - e);
        proof {
            lemma_pow2_adds(e as nat, (52 - e) as nat);
            assert(p * scale == 0x10_0000_0000_0000);
            assert(m * scale < 2 * (p * scale)) by (nonlinear_arith)
                requires
                    m < 2 * p,
                    scale > 0,
            ;
            assert(m * scale >= p * scale) by (nonlinear_arith)
                requires
                    m >= p,
                    scale > 0,
            ;
        }
        m * scale
    } else {
        let weight = power_of_two(e - 52);
        proof {
            lemma_pow2_adds(52, (e - 52) as nat);
            lemma_pow2_pos((e - 52) as nat);
            assert(0x10_0000_0000_0000 * weight == p);
            assert(m / weight >= 0x10_0000_0000_0000 && m / weight < 0x20_0000_0000_0000)
                by (nonlinear_arith)
                requires
                    0x10_0000_0000_0000 * weight <= m < 2 * (0x10_0000_0000_0000 * weight),
                    weight > 0,
            ;
        }
        let kept = m / weight;
        let dropped = m % weight;
        if dropped > weight - dropped || (dropped == weight - dropped && kept % 2 == 1) {
            kept + 1
        } else {
            kept
        }
    };
    let sign: u64 = if i < 0 {
        0x8000_0000_0000_0000
    } else {
        0
    };
    assert(0x10_0000_0000_0000 <= sig <= 0x20_0000_0000_0000);
    sign + ((1023 + e) * 0x10_0000_0000_0000 + sig - 0x10_0000_0000_0000)
}

} // verus!
