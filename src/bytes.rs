//! Little-endian integers and fixed-size byte strings.
use vstd::prelude::*;

verus! {

/// The value of `s` read as a little-endian unsigned number.
pub open spec fn le_value(s: Seq<u8>) -> nat
    decreases s.len(),
{
    if s.len() == 0 {
        0
    } else {
        s[0] as nat + 256 * le_value(s.drop_first())
    }
}

/// The `n` low bytes of `v`, least significant first.
pub open spec fn le_bytes(v: nat, n: nat) -> Seq<u8>
    decreases n,
{
    if n == 0 {
        Seq::empty()
    } else {
        seq![(v % 256) as u8] + le_bytes(v / 256, (n - 1) as nat)
    }
}

/// The two's-complement bit pattern of a signed 64-bit integer, as a number.
pub open spec fn i64_bits(v: i64) -> nat {
    if v >= 0 {
        v as nat
    } else {
        (v + 0x1_0000_0000_0000_0000) as nat
    }
}

/// The signed 64-bit integer whose two's-complement bit pattern is `b`.
pub open spec fn i64_of_bits(b: nat) -> int {
    if b < 0x8000_0000_0000_0000 {
        b as int
    } else {
        b - 0x1_0000_0000_0000_0000
    }
}

pub proof fn lemma_le_bytes_len(v: nat, n: nat)
    ensures
        le_bytes(v, n).len() == n,
    decreases n,
{
    if n > 0 {
        lemma_le_bytes_len(v / 256, (n - 1) as nat);
    }
}

/// Reading back the `n` bytes written for `v` gives `v` when it fits in them.
pub proof fn lemma_le_round_trip(v: nat, n: nat)
    requires
        v < pow256(n),
    ensures
        le_value(le_bytes(v, n)) == v,
    decreases n,
{
    if n > 0 {
        let s = le_bytes(v, n);
        assert(s.drop_first() =~= le_bytes(v / 256, (n - 1) as nat));
        assert(v / 256 < pow256((n - 1) as nat)) by (nonlinear_arith)
            requires
                v < 256 * pow256((n - 1) as nat),
        ;
        lemma_le_round_trip(v / 256, (n - 1) as nat);
    }
}

pub open spec fn pow256(n: nat) -> nat
    decreases n,
{
    if n == 0 {
        1
    } else {
        256 * pow256((n - 1) as nat)
    }
}

pub proof fn lemma_le_value_bound(s: Seq<u8>)
    ensures
        le_value(s) < pow256(s.len()),
    decreases s.len(),
{
    if s.len() > 0 {
        lemma_le_value_bound(s.drop_first());
        let r = le_value(s.drop_first());
        let p = pow256(s.drop_first().len());
        assert(s[0] as nat + 256 * r < 256 * p) by (nonlinear_arith)
            requires
                r < p,
                s[0] < 256,
        ;
    }
}

pub proof fn lemma_pow256_8()
    ensures
        pow256(8) == 0x1_0000_0000_0000_0000,
{
    reveal_with_fuel(pow256, 9);
}

pub proof fn lemma_i64_round_trip(v: i64)
    ensures
        i64_bits(v) < 0x1_0000_0000_0000_0000,
        i64_of_bits(i64_bits(v)) == v,
{
}

/// Appends the `n` low bytes of `v`, least significant first.
pub fn push_le(out: &mut Vec<u8>, v: u64, n: usize)
    ensures
        final(out)@ == old(out)@ + le_bytes(v as nat, n as nat),
{
    let mut x: u64 = v;
    let mut i: usize = 0;
    let ghost start = out@;
    let ghost all = le_bytes(v as nat, n as nat);
    proof {
        lemma_le_bytes_len(v as nat, n as nat);
        assert(all.subrange(0, n as int) =~= all);
    }
    while i < n
        invariant
            0 <= i <= n,
            all == le_bytes(v as nat, n as nat),
            all.len() == n,
            out@ == start + all.subrange(0, i as int),
            all.subrange(i as int, n as int) =~= le_bytes(x as nat, (n - i) as nat),
        decreases n - i,
    {
        proof {
            lemma_le_bytes_len(x as nat, (n - i) as nat);
        }
        let ghost rest = all.subrange(i as int, n as int);
        let b = (x % 256) as u8;
        out.push(b);
        x = x / 256;
        i = i + 1;
        proof {
            assert(rest[0] == b);
            assert(out@ =~= start + all.subrange(0, i as int));
            assert(all.subrange(i as int, n as int) =~= rest.drop_first());
        }
    }
    assert(all.subrange(0, n as int) =~= all);
}

/// Appends `v` as eight little-endian bytes.
pub fn push_u64_le(out: &mut Vec<u8>, v: u64)
    ensures
        final(out)@ == old(out)@ + le_bytes(v as nat, 8),
{
    push_le(out, v, 8);
}

/// Appends `v` as eight little-endian bytes of its two's complement.
pub fn push_i64_le(out: &mut Vec<u8>, v: i64)
    ensures
        final(out)@ == old(out)@ + le_bytes(i64_bits(v), 8),
{
    let u: u64 = if v >= 0 {
        v as u64
    } else {
        (v as i128 + 0x1_0000_0000_0000_0000i128) as u64
    };
    push_u64_le(out, u);
}

/// Reads `n` (at most eight) little-endian bytes starting at `at`.
pub fn read_le(data: &Vec<u8>, at: usize, n: usize) -> (r: u64)
    requires
        n <= 8,
        at + n <= data@.len(),
    ensures
        r as nat == le_value(data@.subrange(at as int, at + n)),
{
    let ghost s = data@.subrange(at as int, at + n);
    let mut acc: u64 = 0;
    let mut i: usize = n;
    let len = data.len();
    while i > 0
        invariant
            0 <= i <= n <= 8,
            len == data@.len(),
            at + n <= data@.len(),
            s == data@.subrange(at as int, at + n),
            acc as nat == le_value(s.subrange(i as int, n as int)),
        decreases i,
    {
        let ghost tail = s.subrange(i as int, n as int);
        proof {
            lemma_le_value_bound(tail);
            lemma_pow256_mono((n - i) as nat, 7);
            reveal_with_fuel(pow256, 9);
        }
        i = i - 1;
        let b = data[at + i];
        proof {
            let t2 = s.subrange(i as int, n as int);
            assert(t2.drop_first() =~= tail);
            assert(t2[0] == b);
            assert(acc as nat * 256 + b < 0x1_0000_0000_0000_0000) by (nonlinear_arith)
                requires
                    (acc as nat) < pow256((n - 1 - i) as nat),
                    pow256((n - 1 - i) as nat) <= 0x100_0000_0000_0000,
                    b < 256,
            ;
        }
        acc = acc * 256 + b as u64;
    }
    assert(s.subrange(0, n as int) =~= s);
    acc
}

proof fn lemma_pow256_mono(a: nat, b: nat)
    requires
        a <= b,
    ensures
        pow256(a) <= pow256(b),
    decreases b,
{
    if a < b {
        lemma_pow256_mono(a, (b - 1) as nat);
    }
}

/// Reads eight little-endian bytes starting at `at`.
pub fn read_u64_le(data: &Vec<u8>, at: usize) -> (r: u64)
    requires
        at + 8 <= data@.len(),
    ensures
        r as nat == le_value(data@.subrange(at as int, at + 8)),
{
    read_le(data, at, 8)
}

/// Reads eight little-endian bytes starting at `at` as a two's-complement number.
pub fn read_i64_le(data: &Vec<u8>, at: usize) -> (r: i64)
    requires
        at + 8 <= data@.len(),
    ensures
        r as int == i64_of_bits(le_value(data@.subrange(at as int, at + 8))),
{
    let u = read_u64_le(data, at);
    if u < 0x8000_0000_0000_0000 {
        u as i64
    } else {
        (u as i128 - 0x1_0000_0000_0000_0000i128) as i64
    }
}

/// Appends every byte of `src`.
pub fn push_all(out: &mut Vec<u8>, src: &[u8])
    ensures
        final(out)@ == old(out)@ + src@,
{
    let ghost start = out@;
    let mut i: usize = 0;
    while i < src.len()
        invariant
            0 <= i <= src@.len(),
            out@ == start + src@.subrange(0, i as int),
        decreases src@.len() - i,
    {
        out.push(src[i]);
        i = i + 1;
        assert(out@ =~= start + src@.subrange(0, i as int));
    }
    assert(src@.subrange(0, src@.len() as int) =~= src@);
}

/// Appends the bytes of `data` from position `from` on.
pub fn push_tail(out: &mut Vec<u8>, data: &Vec<u8>, from: usize)
    requires
        from <= data@.len(),
    ensures
        final(out)@ == old(out)@ + data@.subrange(from as int, data@.len() as int),
{
    let ghost start = out@;
    let mut i: usize = from;
    while i < data.len()
        invariant
            from <= i <= data@.len(),
            out@ == start + data@.subrange(from as int, i as int),
        decreases data@.len() - i,
    {
        out.push(data[i]);
        i = i + 1;
        assert(out@ =~= start + data@.subrange(from as int, i as int));
    }
}

/// Copies 32 bytes starting at `at`.
pub fn read_array32(data: &Vec<u8>, at: usize) -> (r: [u8; 32])
    requires
        at + 32 <= data@.len(),
    ensures
        r@ == data@.subrange(at as int, at + 32),
{
    let mut a: [u8; 32] = [0u8; 32];
    let mut i: usize = 0;
    let n = data.len();
    while i < 32
        invariant
            0 <= i <= 32,
            n == data@.len(),
            at + 32 <= n,
            a@.len() == 32,
            forall|j: int| 0 <= j < i ==> a@[j] == data@[at + j],
        decreases 32 - i,
    {
        a[i] = data[at + i];
        i = i + 1;
    }
    assert(a@ =~= data@.subrange(at as int, at + 32));
    a
}

/// Copies 64 bytes starting at `at`.
pub fn read_array64(data: &Vec<u8>, at: usize) -> (r: [u8; 64])
    requires
        at + 64 <= data@.len(),
    ensures
        r@ == data@.subrange(at as int, at + 64),
{
    let mut a: [u8; 64] = [0u8; 64];
    let mut i: usize = 0;
    let n = data.len();
    while i < 64
        invariant
            0 <= i <= 64,
            n == data@.len(),
            at + 64 <= n,
            a@.len() == 64,
            forall|j: int| 0 <= j < i ==> a@[j] == data@[at + j],
        decreases 64 - i,
    {
        a[i] = data[at + i];
        i = i + 1;
    }
    assert(a@ =~= data@.subrange(at as int, at + 64));
    a
}

/// Whether two byte strings of equal length are the same.
pub fn same_bytes(a: &[u8], b: &[u8]) -> (r: bool)
    requires
        a@.len() == b@.len(),
    ensures
        r == (a@ == b@),
{
    let mut i: usize = 0;
    while i < a.len()
        invariant
            0 <= i <= a@.len(),
            a@.len() == b@.len(),
            forall|j: int| 0 <= j < i ==> a@[j] == b@[j],
        decreases a@.len() - i,
    {
        if a[i] != b[i] {
            return false;
        }
        i = i + 1;
    }
    assert(a@ =~= b@);
    true
}

} // verus!
