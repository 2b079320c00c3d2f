//! Little-endian integers in storage words and call payloads.

use vstd::prelude::*;

verus! {

/// `256^n`.
pub open spec fn pow256(n: nat) -> nat
    decreases n,
{
    if n == 0 { 1 } else { 256 * pow256((n - 1) as nat) }
}

/// The number whose little-endian bytes are `s`.
pub open spec fn le_value(s: Seq<u8>) -> nat
    decreases s.len(),
{
    if s.len() == 0 { 0 } else { s[0] as nat + 256 * le_value(s.drop_first()) }
}

proof fn lemma_pow256_pos(n: nat)
    ensures
        pow256(n) >= 1,
    decreases n,
{
    if n > 0 {
        lemma_pow256_pos((n - 1) as nat);
    }
}

proof fn lemma_pow256_mono(a: nat, b: nat)
    requires
        a <= b,
    ensures
        pow256(a) <= pow256(b),
    decreases b,
{
    if a < b {
        lemma_pow256_mono(a, (b - 1) as nat);
        lemma_pow256_pos((b - 1) as nat);
    }
}

proof fn lemma_pow256_values()
    ensures
        pow256(8) == 0x1_0000_0000_0000_0000,
        pow256(16) == 0x1_0000_0000_0000_0000_0000_0000_0000_0000,
{
    reveal_with_fuel(pow256, 17);
}

proof fn lemma_le_value_bound(s: Seq<u8>)
    ensures
        le_value(s) < pow256(s.len()),
    decreases s.len(),
{
    if s.len() > 0 {
        lemma_le_value_bound(s.drop_first());
        let r = le_value(s.drop_first());
        let p = pow256((s.len() - 1) as nat);
        assert(s[0] as nat + 256 * r < 256 * p) by (nonlinear_arith)
            requires
                r < p,
                s[0] < 256,
        ;
    }
}

proof fn lemma_le_value_push(s: Seq<u8>, b: u8)
    ensures
        le_value(s.push(b)) == le_value(s) + pow256(s.len()) * b,
    decreases s.len(),
{
    if s.len() > 0 {
        assert(s.push(b).drop_first() =~= s.drop_first().push(b));
        lemma_le_value_push(s.drop_first(), b);
        let p = pow256((s.len() - 1) as nat);
        assert(pow256(s.len()) == 256 * p);
        assert(s.push(b)[0] == s[0]);
        assert(le_value(s.push(b)) == s[0] as nat + 256 * le_value(s.drop_first().push(b)));
        assert(le_value(s) == s[0] as nat + 256 * le_value(s.drop_first()));
        let r = le_value(s.drop_first());
        assert(s[0] as nat + 256 * (r + p * b) == (s[0] as nat + 256 * r) + (256 * p) * b)
            by (nonlinear_arith);
    } else {
        assert(s.push(b).drop_first() =~= Seq::<u8>::empty());
        assert(le_value(s.push(b).drop_first()) == 0);
        assert(s.push(b)[0] == b);
        assert(le_value(s.push(b)) == b as nat);
        assert(le_value(s) == 0);
        assert(pow256(0) == 1);
    }
}

/// The number held little-endian in the first `width` bytes of `word`.
pub fn decode_le(word: &[u8; 32], width: usize) -> (r: u128)
    requires
        width <= 16,
    ensures
        r == le_value(word@.subrange(0, width as int)),
{
    let ghost s = word@.subrange(0, width as int);
    let mut acc: u128 = 0;
    let mut i: usize = width;
    proof {
        lemma_pow256_values();
    }
    while i > 0
        invariant
            i <= width <= 16,
            word@.len() == 32,
            s == word@.subrange(0, width as int),
            acc == le_value(s.subrange(i as int, width as int)),
            pow256(16) == 0x1_0000_0000_0000_0000_0000_0000_0000_0000,
        decreases i,
    {
        let ghost tail = s.subrange(i as int, width as int);
        proof {
            lemma_le_value_bound(tail);
            lemma_pow256_mono((width - i) as nat, 15);
            assert(s.subrange(i - 1, width as int).drop_first() =~= tail);
        }
        let b: u8 = word[i - 1];
        assert(acc * 256 + b < 0x1_0000_0000_0000_0000_0000_0000_0000_0000) by (nonlinear_arith)
            requires
                acc < pow256((width - i) as nat),
                pow256((width - i) as nat) <= pow256(15),
                256 * pow256(15) == 0x1_0000_0000_0000_0000_0000_0000_0000_0000,
                b < 256,
        ;
        acc = acc * 256 + b as u128;
        i = i - 1;
    }
    assert(s.subrange(0, width as int) =~= s);
    acc
}

/// The 64-bit number held little-endian in the first 8 bytes of `word`.
pub fn decode_le_u64(word: &[u8; 32]) -> (r: u64)
    ensures
        r == le_value(word@.subrange(0, 8)),
{
    let v: u128 = decode_le(word, 8);
    proof {
        lemma_le_value_bound(word@.subrange(0, 8));
        lemma_pow256_values();
    }
    v as u64
}

/// `v` as `width` little-endian bytes.
pub fn encode_le(v: u128, width: usize) -> (r: Vec<u8>)
    requires
        width <= 32,
        v < pow256(width as nat),
    ensures
        r@.len() == width,
        le_value(r@) == v,
{
    let mut out: Vec<u8> = Vec::new();
    let mut x: u128 = v;
    let mut i: usize = 0;
    proof {
        assert(le_value(out@) == 0);
        assert(pow256(0) == 1);
    }
    while i < width
        invariant
            i <= width <= 32,
            out@.len() == i,
            v == le_value(out@) + pow256(i as nat) * x,
            x < pow256((width - i) as nat),
        decreases width - i,
    {
        let b: u8 = (x % 256) as u8;
        let y: u128 = x / 256;
        proof {
            lemma_le_value_push(out@, b);
            let p = pow256(i as nat);
            assert(p * x == p * b + (256 * p) * y) by (nonlinear_arith)
                requires
                    x == b + 256 * y,
            ;
            let q = pow256((width - i - 1) as nat);
            assert(y < q) by (nonlinear_arith)
                requires
                    x == b + 256 * y,
                    x < 256 * q,
                    b >= 0,
            ;
        }
        out.push(b);
        x = y;
        i = i + 1;
    }
    out
}

} // verus!
