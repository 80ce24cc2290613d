//! The container layout of a persisted proof: a four-byte variant tag, then
//! the proof bytes and the public-value bytes, each prefixed by its length as
//! eight bytes. Every integer is little-endian.

use vstd::prelude::*;

verus! {

/// `256` to the power `k`.
pub open spec fn pow256(k: nat) -> nat
    decreases k,
{
    if k == 0 {
        1
    } else {
        256 * pow256((k - 1) as nat)
    }
}

/// The `k` low-order bytes of `n`, least significant first.
pub open spec fn le_bytes(n: nat, k: nat) -> Seq<u8>
    decreases k,
{
    if k == 0 {
        seq![]
    } else {
        seq![(n % 256) as u8] + le_bytes(n / 256, (k - 1) as nat)
    }
}

/// The number whose little-endian bytes are `s`.
pub open spec fn le_value(s: Seq<u8>) -> nat
    decreases s.len(),
{
    if s.len() == 0 {
        0
    } else {
        s[0] as nat + 256 * le_value(s.skip(1))
    }
}

/// The container that holds `tag`, `proof` and `inputs`.
pub open spec fn frame(tag: u32, proof: Seq<u8>, inputs: Seq<u8>) -> Seq<u8> {
    le_bytes(tag as nat, 4) + le_bytes(proof.len(), 8) + proof + le_bytes(inputs.len(), 8)
        + inputs
}

/// The variant tag at the head of a container, if it holds four bytes.
pub open spec fn head_tag(b: Seq<u8>) -> Option<u32> {
    if b.len() < 4 {
        None
    } else {
        Some(le_value(b.subrange(0, 4)) as u32)
    }
}

/// The two byte strings of a container, read after its tag; `None` where a
/// length runs past the end or bytes are left over.
pub open spec fn body_parts(b: Seq<u8>) -> Option<(Seq<u8>, Seq<u8>)> {
    if b.len() < 12 {
        None
    } else {
        let n = le_value(b.subrange(4, 12)) as int;
        if n + 20 > b.len() {
            None
        } else {
            let m = le_value(b.subrange(12 + n, 20 + n)) as int;
            if 20 + n + m != b.len() {
                None
            } else {
                Some((b.subrange(12, 12 + n), b.subrange(20 + n, b.len() as int)))
            }
        }
    }
}

/// The powers that the four- and eight-byte fields need.
pub proof fn lemma_pow256_values()
    ensures
        pow256(4) == 0x1_0000_0000,
        pow256(7) == 0x1_0000_0000_0000_00,
        pow256(8) == 0x1_0000_0000_0000_0000,
{
    assert(pow256(0) == 1);
    assert(pow256(1) == 0x100);
    assert(pow256(2) == 0x1_0000);
    assert(pow256(3) == 0x100_0000);
    assert(pow256(4) == 0x1_0000_0000);
    assert(pow256(5) == 0x100_0000_0000);
    assert(pow256(6) == 0x1_0000_0000_0000);
    assert(pow256(7) == 0x100_0000_0000_0000);
    assert(pow256(8) == 0x1_0000_0000_0000_0000);
}

pub proof fn lemma_pow256_mono(a: nat, b: nat)
    requires
        a <= b,
    ensures
        pow256(a) <= pow256(b),
    decreases b,
{
    if a < b {
        lemma_pow256_mono(a, (b - 1) as nat);
        assert(pow256(b) == 256 * pow256((b - 1) as nat));
    }
}

pub proof fn lemma_le_bytes_len(n: nat, k: nat)
    ensures
        le_bytes(n, k).len() == k,
    decreases k,
{
    if k > 0 {
        lemma_le_bytes_len(n / 256, (k - 1) as nat);
    }
}

pub proof fn lemma_le_value_bound(s: Seq<u8>)
    ensures
        le_value(s) < pow256(s.len()),
    decreases s.len(),
{
    if s.len() > 0 {
        let v = le_value(s.skip(1));
        let p = pow256((s.len() - 1) as nat);
        lemma_le_value_bound(s.skip(1));
        let h = s[0] as nat;
        assert(h + 256 * v < 256 * p) by (nonlinear_arith)
            requires
                h < 256,
                v < p,
        ;
    }
}

/// Reading back the `k` low-order bytes of a number below `256^k` gives it.
pub proof fn lemma_le_round_trip(n: nat, k: nat)
    requires
        n < pow256(k),
    ensures
        le_value(le_bytes(n, k)) == n,
    decreases k,
{
    if k > 0 {
        let s = le_bytes(n, k);
        let p = pow256((k - 1) as nat);
        assert(s.skip(1) =~= le_bytes(n / 256, (k - 1) as nat));
        assert(n / 256 < p) by (nonlinear_arith)
            requires
                n < 256 * p,
        ;
        lemma_le_round_trip(n / 256, (k - 1) as nat);
        assert((n % 256) + 256 * (n / 256) == n) by (nonlinear_arith);
    }
}

/// The bytes are the little-endian form of their value.
pub proof fn lemma_le_bytes_of_value(s: Seq<u8>)
    ensures
        le_bytes(le_value(s), s.len()) == s,
    decreases s.len(),
{
    if s.len() > 0 {
        let v = le_value(s.skip(1));
        let h = s[0] as nat;
        assert((h + 256 * v) % 256 == h && (h + 256 * v) / 256 == v) by (nonlinear_arith)
            requires
                h < 256,
        ;
        lemma_le_bytes_of_value(s.skip(1));
        assert(le_bytes(le_value(s), s.len()) =~= s);
    }
}

/// The least significant byte decides a value below 256.
pub proof fn lemma_le_low_byte(s: Seq<u8>, t: nat)
    requires
        s.len() > 0,
        t < 256,
        le_value(s) == t,
    ensures
        s[0] as nat == t,
{
    let v = le_value(s.skip(1));
    let h = s[0] as nat;
    assert(h == t) by (nonlinear_arith)
        requires
            h < 256,
            t < 256,
            h + 256 * v == t,
    ;
}

/// A container reads back as the tag and the two byte strings it was made of.
pub proof fn lemma_frame_round_trip(tag: u32, proof: Seq<u8>, inputs: Seq<u8>)
    requires
        proof.len() <= u64::MAX,
        inputs.len() <= u64::MAX,
    ensures
        head_tag(frame(tag, proof, inputs)) == Some(tag),
        body_parts(frame(tag, proof, inputs)) == Some((proof, inputs)),
{
    let b = frame(tag, proof, inputs);
    let n = proof.len() as int;
    let m = inputs.len() as int;
    lemma_le_bytes_len(tag as nat, 4);
    lemma_le_bytes_len(n as nat, 8);
    lemma_le_bytes_len(m as nat, 8);
        lemma_pow256_values();
    lemma_le_round_trip(tag as nat, 4);
    lemma_le_round_trip(n as nat, 8);
    lemma_le_round_trip(m as nat, 8);
    assert(b.subrange(0, 4) =~= le_bytes(tag as nat, 4));
    assert(b.subrange(4, 12) =~= le_bytes(n as nat, 8));
    assert(b.subrange(12, 12 + n) =~= proof);
    assert(b.subrange(12 + n, 20 + n) =~= le_bytes(m as nat, 8));
    assert(b.subrange(20 + n, b.len() as int) =~= inputs);
}

/// A container that reads back was made of what it reads back as.
pub proof fn lemma_frame_unique(b: Seq<u8>)
    requires
        head_tag(b) is Some,
        body_parts(b) is Some,
    ensures
        b == frame(head_tag(b)->Some_0, body_parts(b)->Some_0.0, body_parts(b)->Some_0.1),
{
    let t = head_tag(b)->Some_0;
    let (p, v) = body_parts(b)->Some_0;
    let n = p.len() as int;
    lemma_le_value_bound(b.subrange(0, 4));
        lemma_pow256_values();
    assert(t as nat == le_value(b.subrange(0, 4)));
    lemma_le_bytes_of_value(b.subrange(0, 4));
    lemma_le_bytes_of_value(b.subrange(4, 12));
    lemma_le_bytes_of_value(b.subrange(12 + n, 20 + n));
    assert(b =~= frame(t, p, v));
}

/// Appends the `k` low-order bytes of `x`, least significant first.
fn push_le(out: &mut Vec<u8>, x: u64, k: usize)
    requires
        k <= 8,
    ensures
        final(out)@ == old(out)@ + le_bytes(x as nat, k as nat),
    decreases k,
{
    if k == 0 {
        assert(old(out)@ + le_bytes(x as nat, 0) =~= old(out)@);
        return;
    }
    out.push((x % 256) as u8);
    let ghost mid = out@;
    push_le(out, x / 256, k - 1);
    assert(old(out)@ + le_bytes(x as nat, k as nat) =~= mid + le_bytes(
        (x / 256) as nat,
        (k - 1) as nat,
    ));
}

/// The little-endian value of the `k` bytes from `start` on.
fn read_le(b: &Vec<u8>, start: usize, k: usize) -> (r: u64)
    requires
        k <= 8,
        start + k <= b@.len(),
    ensures
        r as nat == le_value(b@.subrange(start as int, start + k)),
    decreases k,
{
    if k == 0 {
        return 0;
    }
    let len = b.len();
    assert(start < len);
    let rest = read_le(b, start + 1, k - 1);
    let ghost s = b@.subrange(start as int, start + k);
    proof {
        assert(s.skip(1) =~= b@.subrange(start + 1, start + k));
        lemma_le_value_bound(s.skip(1));
        lemma_pow256_mono((k - 1) as nat, 7);
        lemma_pow256_values();
    }
    (b[start] as u64) + 256 * rest
}

/// A copy of the bytes from `lo` up to `hi`.
fn copy_range(b: &Vec<u8>, lo: usize, hi: usize) -> (r: Vec<u8>)
    requires
        lo <= hi <= b@.len(),
    ensures
        r@ == b@.subrange(lo as int, hi as int),
{
    let mut r: Vec<u8> = Vec::new();
    let mut i: usize = lo;
    while i < hi
        invariant
            lo <= i <= hi <= b@.len(),
            r@ == b@.subrange(lo as int, i as int),
        decreases hi - i,
    {
        r.push(b[i]);
        i = i + 1;
        assert(r@ =~= b@.subrange(lo as int, i as int));
    }
    r
}

/// Lays out a container.
pub fn encode_frame(tag: u32, proof: &Vec<u8>, inputs: &Vec<u8>) -> (r: Vec<u8>)
    ensures
        r@ == frame(tag, proof@, inputs@),
{
    let mut out: Vec<u8> = Vec::new();
    push_le(&mut out, tag as u64, 4);
    push_le(&mut out, proof.len() as u64, 8);
    out.extend_from_slice(proof.as_slice());
    push_le(&mut out, inputs.len() as u64, 8);
    out.extend_from_slice(inputs.as_slice());
    assert(out@ =~= frame(tag, proof@, inputs@));
    out
}

/// Reads the variant tag at the head of a container.
pub fn decode_tag(b: &Vec<u8>) -> (r: Option<u32>)
    ensures
        r == head_tag(b@),
{
    if b.len() < 4 {
        return None;
    }
    let t = read_le(b, 0, 4);
    proof {
        lemma_le_value_bound(b@.subrange(0, 4));
        lemma_pow256_values();
    }
    Some(t as u32)
}

/// Reads the two byte strings of a container.
pub fn decode_body(b: &Vec<u8>) -> (r: Option<(Vec<u8>, Vec<u8>)>)
    ensures
        match r {
            None => body_parts(b@) is None,
            Some((p, v)) => body_parts(b@) == Some((p@, v@)),
        },
{
    let len = b.len();
    if len < 12 {
        return None;
    }
    let n = read_le(b, 4, 8);
    if len < 20 || n > (len - 20) as u64 {
        return None;
    }
    let n = n as usize;
    let m = read_le(b, 12 + n, 8);
    if m != (len - 20 - n) as u64 {
        return None;
    }
    let p = copy_range(b, 12, 12 + n);
    let v = copy_range(b, 20 + n, len);
    Some((p, v))
}

} // verus!
