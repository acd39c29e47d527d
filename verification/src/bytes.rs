//! The mathematical model of byte windows: how an unsigned value is laid out
//! as a byte sequence in either byte order, and how a write replaces one
//! window of a buffer while leaving the rest untouched.

use vstd::prelude::*;
use vstd::arithmetic::div_mod::lemma_fundamental_div_mod;
use vstd::assert_seqs_equal;
use crate::endian::EndianKind;

verus! {

/// 256 to the power `n`: the number of values `n` bytes can hold.
pub open spec fn pow256(n: nat) -> nat
    decreases n,
{
    if n == 0 {
        1
    } else {
        256 * pow256((n - 1) as nat)
    }
}

/// The `n` little-endian bytes of `v`: least significant byte first.
pub open spec fn le_bytes(v: nat, n: nat) -> Seq<u8>
    decreases n,
{
    if n == 0 {
        Seq::empty()
    } else {
        seq![(v % 256) as u8] + le_bytes(v / 256, (n - 1) as nat)
    }
}

/// The value of a little-endian byte sequence.
pub open spec fn le_decode(s: Seq<u8>) -> nat
    decreases s.len(),
{
    if s.len() == 0 {
        0
    } else {
        (s[0] + 256 * le_decode(s.drop_first())) as nat
    }
}

/// The `n` bytes of `v` in byte order `k`.
pub open spec fn endian_bytes(k: EndianKind, v: nat, n: nat) -> Seq<u8> {
    match k {
        EndianKind::Little => le_bytes(v, n),
        EndianKind::Big => le_bytes(v, n).reverse(),
    }
}

/// The value of a byte sequence read in byte order `k`.
pub open spec fn endian_decode(k: EndianKind, s: Seq<u8>) -> nat {
    match k {
        EndianKind::Little => le_decode(s),
        EndianKind::Big => le_decode(s.reverse()),
    }
}

/// `s` with the window starting at `off` replaced by `w`; every byte outside
/// the window keeps its value.
pub open spec fn splice(s: Seq<u8>, off: int, w: Seq<u8>) -> Seq<u8>
    recommends
        0 <= off,
        off + w.len() <= s.len(),
{
    s.take(off) + w + s.skip(off + w.len())
}

/// The powers of 256 at the widths the primitive fields use.
pub proof fn lemma_pow256_values()
    ensures
        pow256(0) == 1,
        pow256(1) == 0x100,
        pow256(2) == 0x10000,
        pow256(4) == 0x100000000,
        pow256(8) == 0x10000000000000000,
        pow256(15) == 0x1000000000000000000000000000000,
        pow256(16) == 0x100000000000000000000000000000000,
{
    reveal_with_fuel(pow256, 17);
}

pub proof fn lemma_pow256_pos(n: nat)
    ensures
        pow256(n) >= 1,
    decreases n,
{
    if n > 0 {
        lemma_pow256_pos((n - 1) as nat);
    }
}

pub proof fn lemma_pow256_mono(a: nat, b: nat)
    requires
        a <= b,
    ensures
        pow256(a) <= pow256(b),
    decreases b,
{
    if a < b {
        lemma_pow256_mono(a, (b - 1) as nat);
        lemma_pow256_pos((b - 1) as nat);
    }
}

pub proof fn lemma_le_bytes_len(v: nat, n: nat)
    ensures
        le_bytes(v, n).len() == n,
    decreases n,
{
    if n > 0 {
        lemma_le_bytes_len(v / 256, (n - 1) as nat);
    }
}

pub proof fn lemma_le_decode_bound(s: Seq<u8>)
    ensures
        le_decode(s) < pow256(s.len()),
    decreases s.len(),
{
    if s.len() > 0 {
        lemma_le_decode_bound(s.drop_first());
    }
}

pub proof fn lemma_le_decode_le_bytes(v: nat, n: nat)
    requires
        v < pow256(n),
    ensures
        le_decode(le_bytes(v, n)) == v,
    decreases n,
{
    if n > 0 {
        let b = seq![(v % 256) as u8];
        let rest = le_bytes(v / 256, (n - 1) as nat);
        assert((b + rest).drop_first() =~= rest);
        assert(v / 256 < pow256((n - 1) as nat)) by {
            lemma_pow256_pos((n - 1) as nat);
            lemma_fundamental_div_mod(v as int, 256);
        };
        lemma_le_decode_le_bytes(v / 256, (n - 1) as nat);
        lemma_fundamental_div_mod(v as int, 256);
    }
}

pub proof fn lemma_endian_bytes_len(k: EndianKind, v: nat, n: nat)
    ensures
        endian_bytes(k, v, n).len() == n,
{
    lemma_le_bytes_len(v, n);
}

pub proof fn lemma_endian_decode_bound(k: EndianKind, s: Seq<u8>)
    ensures
        endian_decode(k, s) < pow256(s.len()),
{
    match k {
        EndianKind::Little => lemma_le_decode_bound(s),
        EndianKind::Big => lemma_le_decode_bound(s.reverse()),
    }
}

pub proof fn lemma_endian_roundtrip(k: EndianKind, v: nat, n: nat)
    requires
        v < pow256(n),
    ensures
        endian_decode(k, endian_bytes(k, v, n)) == v,
{
    match k {
        EndianKind::Little => lemma_le_decode_le_bytes(v, n),
        EndianKind::Big => {
            assert(le_bytes(v, n).reverse().reverse() =~= le_bytes(v, n));
            lemma_le_decode_le_bytes(v, n);
        },
    }
}

pub proof fn lemma_splice_len(s: Seq<u8>, off: int, w: Seq<u8>)
    requires
        0 <= off,
        off + w.len() <= s.len(),
    ensures
        splice(s, off, w).len() == s.len(),
{
}

/// The spliced-in window reads back exactly as `w`.
pub proof fn lemma_splice_window(s: Seq<u8>, off: int, w: Seq<u8>)
    requires
        0 <= off,
        off + w.len() <= s.len(),
    ensures
        splice(s, off, w).subrange(off, off + w.len()) == w,
{
    assert(splice(s, off, w).subrange(off, off + w.len()) =~= w);
}

/// Every byte outside the spliced window keeps the value it had in `s`.
pub proof fn lemma_splice_outside(s: Seq<u8>, off: int, w: Seq<u8>, i: int)
    requires
        0 <= off,
        off + w.len() <= s.len(),
        0 <= i < s.len(),
        i < off || off + w.len() <= i,
    ensures
        splice(s, off, w)[i] == s[i],
{
}

/// Splicing in an empty window changes nothing.
pub proof fn lemma_splice_empty(s: Seq<u8>, off: int, w: Seq<u8>)
    requires
        0 <= off <= s.len(),
        w.len() == 0,
    ensures
        splice(s, off, w) == s,
{
    assert(splice(s, off, w) =~= s);
}

/// Copies the window `[offset, offset + n)` out of `storage`.
pub(crate) fn copy_window(storage: &Vec<u8>, offset: usize, n: usize) -> (r: Vec<u8>)
    requires
        offset + n <= storage.len(),
    ensures
        r@ == storage@.subrange(offset as int, offset + n),
{
    let mut r: Vec<u8> = Vec::new();
    let mut i: usize = 0;
    while i < n
        invariant
            i <= n,
            offset + n <= storage.len(),
            r@ == storage@.subrange(offset as int, offset + i),
        decreases n - i,
    {
        r.push(storage[offset + i]);
        assert(r@ =~= storage@.subrange(offset as int, offset + i + 1));
        i = i + 1;
    }
    r
}

/// Reverses a byte vector.
pub(crate) fn reverse_bytes(b: &Vec<u8>) -> (r: Vec<u8>)
    ensures
        r@ == b@.reverse(),
{
    let n = b.len();
    let mut r: Vec<u8> = Vec::new();
    let mut i: usize = 0;
    while i < n
        invariant
            i <= n,
            n == b.len(),
            r@.len() == i,
            forall|j: int| 0 <= j < i ==> r@[j] == b@[n - 1 - j],
        decreases n - i,
    {
        r.push(b[n - 1 - i]);
        i = i + 1;
    }
    assert(r@ =~= b@.reverse());
    r
}

/// Decodes a little-endian byte vector of at most 16 bytes.
pub(crate) fn decode_le(b: &Vec<u8>) -> (r: u128)
    requires
        b.len() <= 16,
    ensures
        r == le_decode(b@),
{
    let n = b.len();
    let mut acc: u128 = 0;
    let mut j: usize = n;
    while j > 0
        invariant
            j <= n,
            n == b.len(),
            n <= 16,
            acc == le_decode(b@.skip(j as int)),
        decreases j,
    {
        proof {
            assert(b@.skip(j - 1).drop_first() =~= b@.skip(j as int));
            lemma_le_decode_bound(b@.skip(j as int));
            lemma_pow256_mono((n - j) as nat, 15);
            lemma_pow256_values();
        }
        acc = acc * 256 + (b[j - 1] as u128);
        j = j - 1;
    }
    assert(b@.skip(0) =~= b@);
    acc
}

/// Produces the `n` little-endian bytes of `v`.
pub(crate) fn encode_le(v: u128, n: usize) -> (r: Vec<u8>)
    requires
        n <= 16,
        (v as nat) < pow256(n as nat),
    ensures
        r@ == le_bytes(v as nat, n as nat),
{
    let mut out: Vec<u8> = Vec::new();
    let mut cur: u128 = v;
    let mut i: usize = 0;
    while i < n
        invariant
            i <= n,
            out@.len() == i,
            le_bytes(v as nat, n as nat) == out@ + le_bytes(cur as nat, (n - i) as nat),
        decreases n - i,
    {
        let b: u8 = (cur % 256) as u8;
        proof {
            let m = (n - i) as nat;
            assert(le_bytes(cur as nat, m) == seq![(cur as nat % 256) as u8] + le_bytes(
                cur as nat / 256,
                (m - 1) as nat,
            ));
            assert((out@ + seq![b]) + le_bytes(cur as nat / 256, (m - 1) as nat) =~= out@ + (
            seq![b] + le_bytes(cur as nat / 256, (m - 1) as nat)));
        }
        out.push(b);
        cur = cur / 256;
        i = i + 1;
    }
    assert(out@ + le_bytes(cur as nat, 0) =~= out@);
    out
}

/// Overwrites the window `[offset, offset + bytes.len())` of `storage` with
/// `bytes`, leaving every other byte unchanged.
pub(crate) fn splice_bytes(storage: &mut Vec<u8>, offset: usize, bytes: &Vec<u8>)
    requires
        offset + bytes.len() <= old(storage).len(),
    ensures
        final(storage)@ == splice(old(storage)@, offset as int, bytes@),
{
    let n = bytes.len();
    let mut p: usize = 0;
    while p < n
        invariant
            p <= n,
            n == bytes.len(),
            offset + n <= old(storage).len(),
            storage@.len() == old(storage).len(),
            storage@ == splice(old(storage)@, offset as int, bytes@.take(p as int)),
        decreases n - p,
    {
        storage[offset + p] = bytes[p];
        assert(storage@ =~= splice(old(storage)@, offset as int, bytes@.take(p + 1)));
        p = p + 1;
    }
    assert(bytes@.take(n as int) =~= bytes@);
}

/// Reads the window `[offset, offset + n)` of `storage` as an unsigned value
/// in byte order `k`.
pub(crate) fn read_endian(storage: &Vec<u8>, k: EndianKind, offset: usize, n: usize) -> (r: u128)
    requires
        offset + n <= storage.len(),
        n <= 16,
    ensures
        r == endian_decode(k, storage@.subrange(offset as int, offset + n)),
{
    let w = copy_window(storage, offset, n);
    match k {
        EndianKind::Little => decode_le(&w),
        EndianKind::Big => {
            let rev = reverse_bytes(&w);
            decode_le(&rev)
        },
    }
}

/// Writes `v` as `n` bytes in byte order `k` into the window
/// `[offset, offset + n)` of `storage`.
pub(crate) fn write_endian(storage: &mut Vec<u8>, k: EndianKind, offset: usize, v: u128, n: usize)
    requires
        offset + n <= old(storage).len(),
        n <= 16,
        (v as nat) < pow256(n as nat),
    ensures
        final(storage)@ == splice(old(storage)@, offset as int, endian_bytes(k, v as nat, n as nat)),
{
    let le = encode_le(v, n);
    proof {
        lemma_le_bytes_len(v as nat, n as nat);
    }
    match k {
        EndianKind::Little => splice_bytes(storage, offset, &le),
        EndianKind::Big => {
            let rev = reverse_bytes(&le);
            splice_bytes(storage, offset, &rev);
        },
    }
}

} // verus!
