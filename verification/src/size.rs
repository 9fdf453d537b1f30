//! Human-readable byte counts, as the cache command reports them.
//!
//! A count of at least one KiB is shown as a number of KB, MB or GB with one
//! decimal. That number is the count converted to a double-precision value
//! and divided by the unit, rounded to one decimal with ties to even, which
//! is what `{:.1}` prints for it; everything here is exact integer
//! arithmetic that reproduces it.
use vstd::prelude::*;
use crate::text::push_char;

verus! {

/// `2` raised to `k`.
pub open spec fn pow2(k: nat) -> nat
    decreases k,
{
    if k == 0 {
        1
    } else {
        2 * pow2((k - 1) as nat)
    }
}

/// The number of binary digits of `n` (zero for zero).
pub open spec fn bit_length(n: nat) -> nat
    decreases n,
{
    if n == 0 {
        0
    } else {
        1 + bit_length(n / 2)
    }
}

/// `n / d` rounded to the nearest integer, ties to the even one.
pub open spec fn round_half_even(n: nat, d: nat) -> nat
    recommends
        d > 0,
{
    let q = n / d;
    let r = n % d;
    if 2 * r > d || (2 * r == d && q % 2 == 1) {
        q + 1
    } else {
        q
    }
}

/// The value of `b` converted to a double: `b` rounded to 53 significant
/// bits, ties to even.
pub open spec fn double_value(b: nat) -> nat {
    if bit_length(b) <= 53 {
        b
    } else {
        let d = pow2((bit_length(b) - 53) as nat);
        round_half_even(b, d) * d
    }
}

/// The decimal digit `d`.
pub open spec fn digit_char(d: nat) -> char {
    seq!['0', '1', '2', '3', '4', '5', '6', '7', '8', '9'][d as int]
}

/// The decimal writing of `n`, without leading zeros.
pub open spec fn decimal(n: nat) -> Seq<char>
    decreases n,
{
    if n < 10 {
        seq![digit_char(n)]
    } else {
        decimal(n / 10).push(digit_char(n % 10))
    }
}

/// Tenths written with one decimal: `12` is `1.2`.
pub open spec fn one_decimal(tenths: nat) -> Seq<char> {
    decimal(tenths / 10).push('.').push(digit_char(tenths % 10))
}

/// How many tenths of a unit of `pow2(k)` bytes the count `b` shows.
pub open spec fn shown_tenths(b: nat, k: nat) -> nat {
    round_half_even(10 * double_value(b), pow2(k))
}

/// How a byte count is shown: in GB, MB or KB with one decimal from one
/// unit up, in plain bytes below one KB.
pub open spec fn byte_text(b: nat) -> Seq<char> {
    if b >= pow2(30) {
        one_decimal(shown_tenths(b, 30)) + seq![' ', 'G', 'B']
    } else if b >= pow2(20) {
        one_decimal(shown_tenths(b, 20)) + seq![' ', 'M', 'B']
    } else if b >= pow2(10) {
        one_decimal(shown_tenths(b, 10)) + seq![' ', 'K', 'B']
    } else {
        decimal(b) + seq![' ', 'B']
    }
}

proof fn lemma_pow2_facts(k: nat)
    ensures
        pow2(k) >= 1,
        pow2(k + 1) == 2 * pow2(k),
    decreases k,
{
    if k > 0 {
        lemma_pow2_facts((k - 1) as nat);
    }
}

proof fn lemma_pow2_add(a: nat, b: nat)
    ensures
        pow2(a + b) == pow2(a) * pow2(b),
    decreases a,
{
    if a == 0 {
        assert(pow2(0) == 1);
        assert(a + b == b);
    } else {
        lemma_pow2_add((a - 1) as nat, b);
        assert(pow2(a) == 2 * pow2((a - 1) as nat));
        assert(pow2(a + b) == 2 * pow2((a - 1 + b) as nat));
        assert(2 * (pow2((a - 1) as nat) * pow2(b)) == (2 * pow2((a - 1) as nat)) * pow2(b))
            by (nonlinear_arith);
    }
}

proof fn lemma_pow2_values()
    ensures
        pow2(10) == 1024,
        pow2(11) == 2048,
        pow2(20) == 1_048_576,
        pow2(30) == 1_073_741_824,
        pow2(53) == 0x20_0000_0000_0000,
        pow2(64) == 0x1_0000_0000_0000_0000,
{
    reveal_with_fuel(pow2, 12);
    lemma_pow2_add(10, 10);
    lemma_pow2_add(20, 10);
    lemma_pow2_add(30, 23);
    lemma_pow2_add(11, 53);
    assert(pow2(23) == 0x80_0000) by {
        lemma_pow2_add(11, 12);
        reveal_with_fuel(pow2, 13);
    }
}

proof fn lemma_pow2_mono(a: nat, b: nat)
    requires
        a <= b,
    ensures
        pow2(a) <= pow2(b),
    decreases b,
{
    lemma_pow2_facts(b);
    if a < b {
        lemma_pow2_mono(a, (b - 1) as nat);
    }
}

proof fn lemma_bit_length_bound(n: nat)
    ensures
        n < pow2(bit_length(n)),
    decreases n,
{
    if n > 0 {
        lemma_bit_length_bound(n / 2);
        lemma_pow2_facts(bit_length(n / 2));
    }
}

proof fn lemma_bit_length_mono(a: nat, b: nat)
    requires
        a <= b,
    ensures
        bit_length(a) <= bit_length(b),
    decreases b,
{
    if a > 0 {
        lemma_bit_length_mono(a / 2, b / 2);
    }
}

proof fn lemma_bit_length_u64(n: nat)
    requires
        n <= u64::MAX,
    ensures
        bit_length(n) <= 64,
{
    lemma_bit_length_mono(n, u64::MAX as nat);
    assert(bit_length(u64::MAX as nat) == 64) by {
        reveal_with_fuel(bit_length, 65);
    }
}

proof fn lemma_bit_length_lower(n: nat)
    requires
        n > 0,
    ensures
        pow2((bit_length(n) - 1) as nat) <= n,
    decreases n,
{
    if n / 2 > 0 {
        lemma_bit_length_lower(n / 2);
        lemma_pow2_facts((bit_length(n / 2) - 1) as nat);
    } else {
        assert(bit_length(n / 2) == 0);
    }
}

proof fn lemma_exact_double(b: nat)
    requires
        b < pow2(53),
    ensures
        double_value(b) == b,
{
    if b > 0 && bit_length(b) > 53 {
        lemma_bit_length_lower(b);
        lemma_pow2_mono(53, (bit_length(b) - 1) as nat);
    }
}

proof fn lemma_round_close(n: nat, d: nat)
    requires
        d > 0,
    ensures
        2 * (round_half_even(n, d) * d) <= 2 * n + d,
        2 * n <= 2 * (round_half_even(n, d) * d) + d,
{
    let q = n / d;
    let r = n % d;
    assert(q * d + r == n && 0 <= r < d) by (nonlinear_arith)
        requires
            q == n / d,
            r == n % d,
            d > 0,
    ;
    assert((q + 1) * d == q * d + d) by (nonlinear_arith);
}

/// Below one KB a count is shown exactly, in bytes. From one KB up, while
/// the count is exact as a double (below 2^53 bytes), the number shown is
/// the count in the unit rounded to the nearest tenth: it is off by at most
/// half a tenth of the unit, and the unit is KB below one MB, MB below one
/// GB, GB from there.
pub proof fn law_byte_text_rounds_to_nearest_tenth(b: nat)
    requires
        b < pow2(53),
    ensures
        b < 1024 ==> byte_text(b) == decimal(b) + seq![' ', 'B'],
        1024 <= b < 1_048_576 ==> byte_text(b) == one_decimal(shown_tenths(b, 10)) + seq![' ', 'K', 'B']
            && 2 * (shown_tenths(b, 10) * 1024) <= 20 * b + 1024
            && 20 * b <= 2 * (shown_tenths(b, 10) * 1024) + 1024,
        1_048_576 <= b < 1_073_741_824 ==> byte_text(b) == one_decimal(shown_tenths(b, 20)) + seq![' ', 'M', 'B']
            && 2 * (shown_tenths(b, 20) * 1_048_576) <= 20 * b + 1_048_576
            && 20 * b <= 2 * (shown_tenths(b, 20) * 1_048_576) + 1_048_576,
        1_073_741_824 <= b ==> byte_text(b) == one_decimal(shown_tenths(b, 30)) + seq![' ', 'G', 'B']
            && 2 * (shown_tenths(b, 30) * 1_073_741_824) <= 20 * b + 1_073_741_824
            && 20 * b <= 2 * (shown_tenths(b, 30) * 1_073_741_824) + 1_073_741_824,
{
    lemma_pow2_values();
    lemma_exact_double(b);
    lemma_round_close(10 * b, pow2(10));
    lemma_round_close(10 * b, pow2(20));
    lemma_round_close(10 * b, pow2(30));
}

/// The decimal digit `d` as a character.
fn digit(d: u128) -> (c: char)
    requires
        d < 10,
    ensures
        c == digit_char(d as nat),
{
    let digits: [char; 10] = ['0', '1', '2', '3', '4', '5', '6', '7', '8', '9'];
    let c = digits[d as usize];
    assert(digits@ == seq!['0', '1', '2', '3', '4', '5', '6', '7', '8', '9']);
    c
}

/// Appends the decimal writing of `n` to `s`.
fn push_decimal(s: &mut String, n: u128)
    ensures
        final(s)@ == old(s)@ + decimal(n as nat),
    decreases n,
{
    if n >= 10 {
        push_decimal(s, n / 10);
    }
    let c = digit(n % 10);
    push_char(s, c);
    proof {
        if n >= 10 {
            assert(decimal(n as nat) == decimal((n / 10) as nat).push(digit_char((n % 10) as nat)));
        } else {
            assert(decimal(n as nat) == seq![digit_char(n as nat)]);
        }
    }
}

/// `2` raised to `k`.
fn pow2_exec(k: u32) -> (p: u128)
    requires
        k <= 64,
    ensures
        p == pow2(k as nat),
{
    let mut p: u128 = 1;
    let mut i: u32 = 0;
    while i < k
        invariant
            i <= k <= 64,
            p == pow2(i as nat),
        decreases k - i,
    {
        proof {
            lemma_pow2_facts(i as nat);
            lemma_pow2_mono((i + 1) as nat, 64);
            lemma_pow2_values();
        }
        p = p * 2;
        i += 1;
    }
    p
}

/// The number of binary digits of `n`.
fn bit_length_exec(n: u64) -> (res: u32)
    ensures
        res == bit_length(n as nat),
        res <= 64,
{
    let mut m = n;
    let mut c: u32 = 0;
    proof {
        lemma_bit_length_u64(n as nat);
    }
    while m > 0
        invariant
            c + bit_length(m as nat) == bit_length(n as nat),
            bit_length(n as nat) <= 64,
        decreases m,
    {
        m = m / 2;
        c += 1;
    }
    c
}

/// `n / d` rounded to the nearest integer, ties to even.
fn round_half_even_exec(n: u128, d: u128) -> (res: u128)
    requires
        d > 0,
    ensures
        res == round_half_even(n as nat, d as nat),
        res <= n / d + 1,
{
    let q = n / d;
    let r = n % d;
    if r > d - r || (r == d - r && q % 2 == 1) {
        proof {
            assert(q * d + r == n) by (nonlinear_arith)
                requires
                    q == n / d,
                    r == n % d,
                    d > 0,
            ;
            assert(q * d <= n);
            assert(q < u128::MAX) by (nonlinear_arith)
                requires
                    q * d <= n,
                    d >= 2,
                    n <= u128::MAX,
            {
                if d >= 2 {
                    assert(q * 2 <= q * d);
                }
            }
        }
        q + 1
    } else {
        q
    }
}

/// The value that the count `b` has once converted to a double.
fn double_value_exec(b: u64) -> (m: u128)
    ensures
        m == double_value(b as nat),
        m <= 0x1_0000_0000_0000_0000,
{
    let n = bit_length_exec(b);
    if n <= 53 {
        return b as u128;
    }
    let d = pow2_exec(n - 53);
    proof {
        lemma_pow2_facts((n - 53) as nat);
        lemma_pow2_mono((n - 53) as nat, 11);
        lemma_pow2_values();
    }
    let q = round_half_even_exec(b as u128, d);
    proof {
        let nn = n as nat;
        let e = (n - 53) as nat;
        lemma_bit_length_bound(b as nat);
        lemma_pow2_add(53, e);
        assert(53 + e == nn);
        lemma_pow2_mono(nn, 64);
        lemma_pow2_values();
        let p53 = pow2(53);
        assert((b as nat) / (d as nat) < p53) by (nonlinear_arith)
            requires
                (b as nat) < p53 * (d as nat),
                d > 0,
        ;
        assert(q * d <= p53 * d) by (nonlinear_arith)
            requires
                q <= p53,
                d > 0,
        ;
    }
    q * d
}

/// Returns how a byte count is shown: in GB, MB or KB with one decimal from
/// one KB up (one KB being 1024 bytes), in plain bytes below that.
pub fn formatear_bytes(bytes: u64) -> (res: String)
    ensures
        res@ == byte_text(bytes as nat),
{
    proof {
        lemma_pow2_values();
    }
    let mut res = String::new();
    if bytes < 1_024 {
        push_decimal(&mut res, bytes as u128);
        res.append(" B");
        proof {
            reveal_strlit(" B");
        }
        return res;
    }
    let (k, unit): (u32, &str) = if bytes >= 1_073_741_824 {
        (30, " GB")
    } else if bytes >= 1_048_576 {
        (20, " MB")
    } else {
        (10, " KB")
    };
    let m = double_value_exec(bytes);
    let unit_size = pow2_exec(k);
    let tenths = round_half_even_exec(10 * m, unit_size);
    push_decimal(&mut res, tenths / 10);
    push_char(&mut res, '.');
    let d = digit(tenths % 10);
    push_char(&mut res, d);
    res.append(unit);
    proof {
        reveal_strlit(" GB");
        reveal_strlit(" MB");
        reveal_strlit(" KB");
    }
    res
}

} // verus!
