//! Turning small integers into bit vectors and back.
use vstd::prelude::*;
use vstd::arithmetic::power2::{pow2, lemma_pow2_pos, lemma_pow2_unfold};
use vstd::arithmetic::div_mod::{lemma_div_denominator, lemma_mod_breakdown};

verus! {

/// Bit `i` of `v`.
pub open spec fn bit(v: u8, i: int) -> bool {
    (v >> (i as u8)) & 1 == 1
}

/// A bit as a number: 1 for `true`, 0 for `false`.
pub open spec fn b2n(b: bool) -> nat {
    if b { 1 } else { 0 }
}

/// Little-endian value of a bit sequence.
pub open spec fn bits_value(s: Seq<bool>) -> nat
    decreases s.len(),
{
    if s.len() == 0 {
        0
    } else {
        b2n(s[0]) + 2 * bits_value(s.drop_first())
    }
}

/// The bits `s..s+n` of `x` read back as a number: `x` shifted right by `s`,
/// modulo `2^n`.
pub proof fn lemma_bit_window(x: u8, s: nat, n: nat)
    requires
        s + n <= 8,
    ensures
        bits_value(Seq::new(n, |i: int| bit(x, s + i))) == (x as nat / pow2(s)) % pow2(n),
    decreases n,
{
    lemma_pow2_pos(s);
    lemma_pow2_pos(n);
    if n == 0 {
        assert(pow2(0) == 1) by {
            vstd::arithmetic::power2::lemma2_to64();
        }
    } else {
        let w = Seq::new(n, |i: int| bit(x, s + i));
        assert(w.drop_first() =~= Seq::new((n - 1) as nat, |i: int| bit(x, (s + 1) + i)));
        lemma_bit_window(x, s + 1, (n - 1) as nat);
        let q = x as nat / pow2(s);
        let su = s as u8;
        vstd::bits::lemma_u8_shr_is_div(x, su);
        let v = x >> su;
        assert((v & 1 == 1) == (v % 2 == 1)) by (bit_vector);
        assert(w[0] == bit(x, s as int));
        lemma_pow2_unfold(s + 1);
        lemma_div_denominator(x as int, pow2(s) as int, 2);
        lemma_pow2_unfold(n);
        lemma_pow2_pos((n - 1) as nat);
        lemma_mod_breakdown(q as int, 2, pow2((n - 1) as nat) as int);
    }
}

/// The `N` low bits of `v`, least significant first.
///
/// `v` must fit in `N` bits, and `N` can be at most 8 (the width of `v`).
pub fn u8_to_binary<const N: usize>(v: u8) -> (r: Vec<bool>)
    requires
        N <= 8,
        (v as nat) < pow2(N as nat),
    ensures
        r.len() == N,
        forall|i: int| 0 <= i < N ==> r@[i] == bit(v, i),
{
    let mut result: Vec<bool> = Vec::new();
    let mut i: usize = 0;
    while i < N
        invariant
            N <= 8,
            i <= N,
            result.len() == i,
            forall|k: int| 0 <= k < i ==> result@[k] == bit(v, k),
        decreases N - i,
    {
        result.push((v >> i) & 1 == 1);
        i = i + 1;
    }
    result
}

/// Bits `0..N/2` of `x` in positions `0..N/2`, then bits `N/2..N` of `y` in
/// positions `N/2..N` (each bit of `y` keeps its own position).
///
/// `N` can be at most 8 (the width of `x` and `y`).
pub fn coords_to_binary<const N: usize>(x: u8, y: u8) -> (r: Vec<bool>)
    requires
        N <= 8,
    ensures
        r.len() == N,
        forall|i: int| 0 <= i < N / 2 ==> r@[i] == bit(x, i),
        forall|i: int| N / 2 <= i < N ==> r@[i] == bit(y, i),
{
    let mut result: Vec<bool> = Vec::new();
    let mut i: usize = 0;
    while i < N / 2
        invariant
            N <= 8,
            i <= N / 2,
            result.len() == i,
            forall|k: int| 0 <= k < i ==> result@[k] == bit(x, k),
        decreases N / 2 - i,
    {
        result.push((x >> i) & 1 == 1);
        i = i + 1;
    }
    while i < N
        invariant
            N <= 8,
            N / 2 <= i <= N,
            result.len() == i,
            forall|k: int| 0 <= k < N / 2 ==> result@[k] == bit(x, k),
            forall|k: int| N / 2 <= k < i ==> result@[k] == bit(y, k),
        decreases N - i,
    {
        result.push((y >> i) & 1 == 1);
        i = i + 1;
    }
    result
}

/// Shifting a bit in below a byte that holds `v` modulo 256 gives
/// `b + 2 * v` modulo 256, without overflow.
proof fn lemma_shift_in(x: u8, b: bool, v: nat)
    requires
        x as nat == v % 256,
    ensures
        (x << 1u8) as nat + b2n(b) <= 255,
        ((x << 1u8) as nat + b2n(b)) == (b2n(b) + 2 * v) % 256,
{
    assert((x << 1u8) as nat == (2 * (x as nat)) % 256) by (bit_vector);
    assert((x << 1u8) < 255u8) by (bit_vector);
    assert((2 * (v % 256) + b2n(b)) % 256 == (b2n(b) + 2 * v) % 256) by (nonlinear_arith);
    assert((2 * (x as nat)) % 256 + b2n(b) == (2 * (x as nat) + b2n(b)) % 256) by (nonlinear_arith)
        requires
            (2 * (x as nat)) % 256 < 255,
            b2n(b) <= 1,
    ;
}

/// Reads back two values: `x` from the bits `0..N/2` and `y` from the bits
/// `N/2..N` of `coords`, each least significant first, modulo 256.
pub fn binary_to_coords<const N: usize>(coords: &[bool]) -> (r: [u8; 2])
    requires
        N <= coords@.len(),
    ensures
        r[0] as nat == bits_value(coords@.subrange(0, (N / 2) as int)) % 256,
        r[1] as nat == bits_value(coords@.subrange((N / 2) as int, N as int)) % 256,
{
    let mut x: u8 = 0;
    let mut y: u8 = 0;
    let mut i: usize = N / 2;
    while i > 0
        invariant
            N <= coords@.len(),
            i <= N / 2,
            x as nat == bits_value(coords@.subrange(i as int, (N / 2) as int)) % 256,
        decreases i,
    {
        let b = coords[i - 1];
        proof {
            lemma_shift_in(x, b, bits_value(coords@.subrange(i as int, (N / 2) as int)));
            assert(coords@.subrange(i - 1, (N / 2) as int).drop_first() =~= coords@.subrange(
                i as int,
                (N / 2) as int,
            ));
        }
        x = (x << 1) + if b { 1 } else { 0 };
        i = i - 1;
    }
    let mut j: usize = N;
    while j > N / 2
        invariant
            N <= coords@.len(),
            N / 2 <= j <= N,
            y as nat == bits_value(coords@.subrange(j as int, N as int)) % 256,
        decreases j,
    {
        let b = coords[j - 1];
        proof {
            lemma_shift_in(y, b, bits_value(coords@.subrange(j as int, N as int)));
            assert(coords@.subrange(j - 1, N as int).drop_first() =~= coords@.subrange(
                j as int,
                N as int,
            ));
        }
        y = (y << 1) + if b { 1 } else { 0 };
        j = j - 1;
    }
    [x, y]
}

} // verus!
