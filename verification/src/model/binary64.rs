//! IEEE-754 binary64 bit patterns of non-negative integers that the format
//! represents exactly (those below `2^53`).
use vstd::prelude::*;

verus! {

/// `2^e`.
pub open spec fn two_to(e: nat) -> nat
    decreases e,
{
    if e == 0 {
        1
    } else {
        2 * two_to((e - 1) as nat)
    }
}

/// The position of the most significant set bit of `n` (zero for `n <= 1`).
pub open spec fn msb(n: nat) -> nat
    decreases n,
{
    if n <= 1 {
        0
    } else {
        1 + msb(n / 2)
    }
}

/// The binary64 bit pattern of the integer `n` (`n < 2^53`): zero for zero;
/// otherwise sign bit 0, biased exponent `1023 + e` where `e` is the position
/// of the leading one of `n`, and the bits of `n` below that leading one,
/// left-aligned in the 52-bit fraction.
pub open spec fn binary64_of(n: nat) -> u64 {
    if n == 0 {
        0
    } else {
        let e = msb(n);
        ((1023 + e) * two_to(52) + (n - two_to(e)) * two_to((52 - e) as nat)) as u64
    }
}

/// The largest integer below `2^53`.
pub const MAX_EXACT_INTEGER: u64 = 0x1F_FFFF_FFFF_FFFF;

proof fn lemma_two_to_52()
    ensures
        two_to(52) == 0x10_0000_0000_0000,
        two_to(53) == 0x20_0000_0000_0000,
{
    reveal_with_fuel(two_to, 54);
}

proof fn lemma_two_to_adds(a: nat, b: nat)
    ensures
        two_to(a) * two_to(b) == two_to(a + b),
    decreases a,
{
    if a > 0 {
        let a1: nat = (a - 1) as nat;
        lemma_two_to_adds(a1, b);
        let x = two_to(a1);
        let y = two_to(b);
        assert(two_to(a) == 2 * x);
        assert(a + b > 0);
        assert(((a + b) - 1) as nat == a1 + b);
        assert(two_to(a + b) == 2 * two_to(a1 + b));
        assert((2 * x) * y == 2 * (x * y)) by (nonlinear_arith);
    } else {
        let y = two_to(b);
        assert(two_to(0) == 1);
        assert(1 * y == y);
    }
}

proof fn lemma_two_to_monotone(a: nat, b: nat)
    requires
        a <= b,
    ensures
        two_to(a) <= two_to(b),
        two_to(a) >= 1,
    decreases b,
{
    if b > 0 {
        if a < b {
            lemma_two_to_monotone(a, (b - 1) as nat);
        } else {
            lemma_two_to_monotone((a - 1) as nat, (b - 1) as nat);
        }
    }
}

proof fn lemma_msb_bounds(n: nat)
    requires
        n >= 1,
    ensures
        two_to(msb(n)) <= n < two_to(msb(n) + 1),
    decreases n,
{
    if n >= 2 {
        lemma_msb_bounds(n / 2);
        assert(msb(n) + 1 == (msb(n) + 1 - 1) as nat + 1);
    }
}

/// The binary64 bit pattern of the integer `n`, as `n as f64` gives it.
pub fn binary64_from_int(n: u64) -> (r: u64)
    requires
        n <= MAX_EXACT_INTEGER,
    ensures
        r == binary64_of(n as nat),
{
    if n == 0 {
        return 0;
    }
    let mut m: u64 = n;
    let mut e: u64 = 0;
    assert(two_to(0) == 1);
    while m > 1
        invariant
            1 <= m <= n <= MAX_EXACT_INTEGER,
            e < 53,
            msb(n as nat) == e + msb(m as nat),
            m * two_to(e as nat) <= n,
        decreases m,
    {
        proof {
            lemma_two_to_monotone(0, e as nat);
            assert(m / 2 * two_to((e + 1) as nat) <= m * two_to(e as nat)) by (nonlinear_arith)
                requires
                    two_to((e + 1) as nat) == 2 * two_to(e as nat),
                    two_to(e as nat) >= 1,
            ;
            assert(m * two_to(e as nat) >= two_to(e as nat)) by (nonlinear_arith)
                requires m >= 1, two_to(e as nat) >= 1;
            lemma_two_to_52();
            assert(m / 2 * two_to((e + 1) as nat) >= two_to((e + 1) as nat)) by (nonlinear_arith)
                requires m / 2 >= 1, two_to((e + 1) as nat) >= 1;
            lemma_two_to_monotone(0, (e + 1) as nat);
            if e + 1 >= 53 {
                lemma_two_to_monotone(53, (e + 1) as nat);
            }
        }
        m = m / 2;
        e = e + 1;
    }
    proof {
        lemma_msb_bounds(n as nat);
        lemma_two_to_52();
        if e > 52 {
            lemma_two_to_monotone(53, e as nat);
        }
    }
    let mut p: u64 = 1;
    let mut i: u64 = 0;
    while i < e
        invariant
            i <= e <= 52,
            p == two_to(i as nat),
        decreases e - i,
    {
        proof {
            lemma_two_to_monotone((i + 1) as nat, 52);
            lemma_two_to_52();
        }
        p = p * 2;
        i = i + 1;
    }
    let mut q: u64 = 1;
    let mut j: u64 = 0;
    while j < 52 - e
        invariant
            e <= 52,
            j <= 52 - e,
            q == two_to(j as nat),
        decreases 52 - e - j,
    {
        proof {
            lemma_two_to_monotone((j + 1) as nat, 52);
            lemma_two_to_52();
        }
        q = q * 2;
        j = j + 1;
    }
    proof {
        lemma_two_to_adds(e as nat, (52 - e) as nat);
        lemma_two_to_monotone(0, (52 - e) as nat);
        assert((n - p) * q < p * q) by (nonlinear_arith)
            requires n - p < p, q >= 1, n >= p;
    }
    (1023 + e) * 0x10_0000_0000_0000 + (n - p) * q
}

} // verus!
