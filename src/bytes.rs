//! Little-endian integers and 32-byte account identifiers.

use vstd::prelude::*;

verus! {

/// The number that `b` encodes, least significant byte first.
pub open spec fn le_value(b: Seq<u8>) -> nat
    decreases b.len(),
{
    if b.len() == 0 {
        0
    } else {
        b[0] as nat + 256 * le_value(b.drop_first())
    }
}

/// `256` raised to the power `n`.
pub open spec fn pow256(n: nat) -> nat
    decreases n,
{
    if n == 0 {
        1
    } else {
        256 * pow256((n - 1) as nat)
    }
}

/// A value of `n` bytes is below `256^n`.
pub proof fn lemma_le_value_bound(b: Seq<u8>)
    ensures
        le_value(b) < pow256(b.len()),
    decreases b.len(),
{
    if b.len() > 0 {
        lemma_le_value_bound(b.drop_first());
        let rest = le_value(b.drop_first());
        let p = pow256((b.len() - 1) as nat);
        assert(b[0] as nat + 256 * rest < 256 * p) by (nonlinear_arith)
            requires
                rest < p,
                b[0] < 256,
        ;
    }
}

/// Peeling the lowest byte off a window of a sequence.
pub proof fn lemma_le_value_window(s: Seq<u8>, i: int, j: int)
    requires
        0 <= i < j <= s.len(),
    ensures
        le_value(s.subrange(i, j)) == s[i] as nat + 256 * le_value(s.subrange(i + 1, j)),
{
    assert(s.subrange(i, j).drop_first() =~= s.subrange(i + 1, j));
}

/// A concatenation of byte strings encodes the low part plus the shifted high part.
pub proof fn lemma_le_value_append(a: Seq<u8>, b: Seq<u8>)
    ensures
        le_value(a + b) == le_value(a) + pow256(a.len()) * le_value(b),
    decreases a.len(),
{
    if a.len() == 0 {
        assert(a + b =~= b);
        assert(le_value(a) == 0);
        assert(pow256(0) == 1);
    } else {
        assert((a + b).drop_first() =~= a.drop_first() + b);
        assert((a + b)[0] == a[0]);
        lemma_le_value_append(a.drop_first(), b);
        let x = le_value(a.drop_first());
        let p = pow256((a.len() - 1) as nat);
        let y = le_value(b);
        assert(le_value(a + b) == a[0] as nat + 256 * (x + p * y));
        assert(le_value(a) == a[0] as nat + 256 * x);
        assert(pow256(a.len()) == 256 * p);
        assert(256 * (x + p * y) == 256 * x + (256 * p) * y) by (nonlinear_arith);
    }
}

pub proof fn lemma_pow256_facts()
    ensures
        pow256(2) == 0x1_0000,
        pow256(8) == 0x1_0000_0000_0000_0000,
{
    reveal_with_fuel(pow256, 9);
}

/// Reads the `N`-byte little-endian integer that starts at `offset`.
fn read_le(data: &[u8], offset: usize, n: usize) -> (r: u64)
    requires
        1 <= n <= 8,
        offset + n <= data@.len(),
    ensures
        r as nat == le_value(data@.subrange(offset as int, offset + n)),
{
    let len = data.len();
    let mut acc: u64 = 0;
    let mut k: usize = n;
    proof {
        assert(data@.subrange(offset + n, offset + n) =~= Seq::<u8>::empty());
    }
    while k > 0
        invariant
            k <= n <= 8,
            offset + n <= data@.len(),
            len == data@.len(),
            acc as nat == le_value(data@.subrange(offset + k, offset + n)),
            acc < pow256((n - k) as nat),
        decreases k,
    {
        let byte = data[offset + (k - 1)];
        proof {
            lemma_le_value_window(data@, offset + k - 1, offset + n);
            lemma_pow256_monotone((n - k + 1) as nat, 8);
            lemma_pow256_facts();
            let p = pow256((n - k) as nat);
            assert(acc * 256 + byte < 256 * p) by (nonlinear_arith)
                requires
                    acc < p,
                    byte < 256,
            ;
        }
        acc = acc * 256 + byte as u64;
        k = k - 1;
    }
    acc
}

pub proof fn lemma_pow256_monotone(m: nat, n: nat)
    requires
        m <= n,
    ensures
        pow256(m) <= pow256(n),
    decreases n,
{
    if m < n {
        lemma_pow256_monotone(m, (n - 1) as nat);
    }
}

/// Reads the little-endian `u64` that starts at `offset`.
pub fn read_u64_le(data: &[u8], offset: usize) -> (r: u64)
    requires
        offset + 8 <= data@.len(),
    ensures
        r as nat == le_value(data@.subrange(offset as int, offset + 8)),
{
    read_le(data, offset, 8)
}

/// Reads the little-endian `u16` that starts at `offset`.
pub fn read_u16_le(data: &[u8], offset: usize) -> (r: u16)
    requires
        offset + 2 <= data@.len(),
    ensures
        r as nat == le_value(data@.subrange(offset as int, offset + 2)),
{
    let v = read_le(data, offset, 2);
    proof {
        lemma_le_value_bound(data@.subrange(offset as int, offset + 2));
        lemma_pow256_facts();
    }
    v as u16
}

/// Appends the eight little-endian bytes of `v` to `out`.
pub fn push_u64_le(out: &mut Vec<u8>, v: u64)
    ensures
        final(out)@.len() == old(out)@.len() + 8,
        final(out)@.subrange(0, old(out)@.len() as int) == old(out)@,
        le_value(final(out)@.subrange(old(out)@.len() as int, old(out)@.len() + 8int)) == v as nat,
{
    let ghost start = out@;
    let mut rest: u64 = v;
    let mut k: usize = 0;
    proof {
        assert(out@.subrange(start.len() as int, out@.len() as int) =~= Seq::<u8>::empty());
        assert(le_value(Seq::<u8>::empty()) == 0);
        assert(pow256(0) == 1);
    }
    while k < 8
        invariant
            k <= 8,
            out@.len() == start.len() + k,
            out@.subrange(0, start.len() as int) == start,
            v as nat == le_value(out@.subrange(start.len() as int, out@.len() as int)) + pow256(
                k as nat,
            ) * rest,
        decreases 8 - k,
    {
        let ghost before = out@;
        let byte = (rest % 256) as u8;
        out.push(byte);
        proof {
            let low = before.subrange(start.len() as int, before.len() as int);
            assert(out@.subrange(start.len() as int, out@.len() as int) =~= low + seq![byte]);
            assert(out@.subrange(0, start.len() as int) =~= before.subrange(0, start.len() as int));
            lemma_le_value_append(low, seq![byte]);
            assert(seq![byte].drop_first() =~= Seq::<u8>::empty());
            reveal_with_fuel(le_value, 2);
            assert(le_value(seq![byte]) == byte as nat);
            let p = pow256(k as nat);
            let r = rest as nat;
            assert(p * r == p * (r % 256) + (256 * p) * (r / 256)) by (nonlinear_arith);
        }
        rest = rest / 256;
        k = k + 1;
    }
    proof {
        lemma_pow256_facts();
        assert(rest == 0) by (nonlinear_arith)
            requires
                v as nat == le_value(out@.subrange(start.len() as int, out@.len() as int))
                    + 0x1_0000_0000_0000_0000nat * rest,
                v < 0x1_0000_0000_0000_0000nat,
        ;
        assert(out@.subrange(start.len() as int, start.len() + 8int) =~= out@.subrange(
            start.len() as int,
            out@.len() as int,
        ));
    }
}

/// Whether two account identifiers are the same.
pub fn keys_equal(a: &[u8; 32], b: &[u8; 32]) -> (r: bool)
    ensures
        r == (a@ == b@),
{
    let mut i: usize = 0;
    while i < 32
        invariant
            i <= 32,
            a@.len() == 32,
            b@.len() == 32,
            forall|j: int| 0 <= j < i ==> a@[j] == b@[j],
        decreases 32 - i,
    {
        if a[i] != b[i] {
            return false;
        }
        i = i + 1;
    }
    assert(a@ =~= b@);
    true
}

/// The 32 bytes of `data` that start at `offset`.
pub fn copy_key(data: &[u8], offset: usize) -> (r: [u8; 32])
    requires
        offset + 32 <= data@.len(),
    ensures
        r@ == data@.subrange(offset as int, offset + 32),
{
    let len = data.len();
    let mut key = [0u8; 32];
    let mut k: usize = 0;
    while k < 32
        invariant
            k <= 32,
            offset + 32 <= data@.len(),
            len == data@.len(),
            key@.len() == 32,
            forall|m: int| 0 <= m < k ==> key@[m] == data@[offset + m],
        decreases 32 - k,
    {
        key[k] = data[offset + k];
        k = k + 1;
    }
    assert(key@ =~= data@.subrange(offset as int, offset + 32));
    key
}

} // verus!
