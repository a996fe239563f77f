//! Identities derived from blake3: instance seeds, prompt canaries and work-unit
//! ids. The hash itself comes from the `blake3` crate; what is hashed, and how
//! the digest is read back (little-endian words, lowercase hex), is stated here.

use vstd::prelude::*;
use crate::text::{hex_char, push_char, hex_digit};
use vstd::utf8::encode_utf8;

verus! {

/// The 32-byte blake3 digest of `data`.
pub uninterp spec fn blake3_hash(data: Seq<u8>) -> Seq<u8>;

/// `blake3::hash`: the 32-byte digest of `data`. Trusted to return the digest
/// named by `blake3_hash` and, as the crate documents for `Hash`, 32 bytes.
/// Streaming the same bytes through `Hasher::update` gives the same digest
/// (the crate's documentation of `hash`), so one call over the concatenated
/// input gives what a sequence of `update`s over its parts gives.
#[verifier::external_body]
fn blake3_digest(data: &[u8]) -> (out: Vec<u8>)
    ensures
        out@ == blake3_hash(data@),
        out@.len() == 32,
{
    blake3::hash(data).as_bytes().to_vec()
}

/// The `k` low bytes of `n`, least significant first (`to_le_bytes`).
pub open spec fn le_bytes(n: nat, k: nat) -> Seq<u8>
    decreases k,
{
    if k == 0 {
        Seq::empty()
    } else {
        seq![(n % 256) as u8] + le_bytes(n / 256, (k - 1) as nat)
    }
}

/// The number whose little-endian bytes are `b`.
pub open spec fn from_le(b: Seq<u8>) -> nat
    decreases b.len(),
{
    if b.len() == 0 {
        0
    } else {
        b[0] as nat + 256 * from_le(b.drop_first())
    }
}

/// Lowercase hex of every byte, high nibble first (`Hash::to_hex`).
pub open spec fn hex_bytes(b: Seq<u8>) -> Seq<char>
    decreases b.len(),
{
    if b.len() == 0 {
        Seq::empty()
    } else {
        hex_bytes(b.drop_last()).push(hex_char((b.last() / 16) as int)).push(
            hex_char((b.last() % 16) as int),
        )
    }
}

/// The bytes hashed for a derived seed: `epoch || 0 || task_id || 0 || index`.
pub open spec fn seed_input(epoch: Seq<char>, task_id: Seq<char>, index: u32) -> Seq<u8> {
    encode_utf8(epoch) + seq![0u8] + encode_utf8(task_id) + seq![0u8] + le_bytes(index as nat, 4)
}

/// The seed `derive_seed` returns: the first 8 digest bytes, little-endian.
pub open spec fn derived_seed(epoch: Seq<char>, task_id: Seq<char>, index: u32) -> nat {
    from_le(blake3_hash(seed_input(epoch, task_id, index)).take(8))
}

/// The canary `mint_canary` returns: `rb-` and the first 12 hex digits of the
/// digest of `family || seed`.
pub open spec fn canary_text(family: Seq<char>, seed: u64) -> Seq<char> {
    "rb-"@ + hex_bytes(blake3_hash(encode_utf8(family) + le_bytes(seed as nat, 8))).take(12)
}

/// Appends the little-endian bytes of `n` (the `k` low ones).
pub fn push_le_bytes(out: &mut Vec<u8>, n: u64, k: u32)
    ensures
        final(out)@ == old(out)@ + le_bytes(n as nat, k as nat),
    decreases k,
{
    if k > 0 {
        out.push((n % 256) as u8);
        let ghost mid = out@;
        push_le_bytes(out, n / 256, k - 1);
        assert(out@ =~= old(out)@ + le_bytes(n as nat, k as nat));
    }
}

/// Appends every byte of `b` to `out`.
pub fn push_bytes(out: &mut Vec<u8>, b: &[u8])
    ensures
        final(out)@ == old(out)@ + b@,
{
    let ghost start = out@;
    let mut i: usize = 0;
    while i < b.len()
        invariant
            i <= b.len(),
            out@ == start + b@.take(i as int),
        decreases b.len() - i,
    {
        out.push(b[i]);
        assert(b@.take(i + 1) =~= b@.take(i as int).push(b@[i as int]));
        i = i + 1;
    }
    assert(b@.take(b.len() as int) =~= b@);
}

proof fn lemma_from_le_bound(b: Seq<u8>, m: nat)
    requires
        b.len() == m,
    ensures
        from_le(b) < pow256(m),
    decreases m,
{
    if m > 0 {
        lemma_from_le_bound(b.drop_first(), (m - 1) as nat);
        let r = from_le(b.drop_first());
        let p = pow256((m - 1) as nat);
        assert(b[0] as nat + 256 * r < 256 * p) by (nonlinear_arith)
            requires r < p, b[0] < 256;
    }
}

pub open spec fn pow256(m: nat) -> nat
    decreases m,
{
    if m == 0 { 1 } else { 256 * pow256((m - 1) as nat) }
}

/// The number whose 8 little-endian bytes are `b`.
fn u64_from_le(b: &[u8]) -> (r: u64)
    requires
        b@.len() == 8,
    ensures
        r as nat == from_le(b@),
{
    let mut acc: u64 = 0;
    let mut i: usize = 8;
    proof {
        assert(b@.subrange(8, 8) =~= Seq::<u8>::empty());
    }
    while i > 0
        invariant
            i <= 8,
            b@.len() == 8,
            acc as nat == from_le(b@.subrange(i as int, 8)),
        decreases i,
    {
        i = i - 1;
        let ghost rest = b@.subrange(i + 1, 8);
        let ghost cur = b@.subrange(i as int, 8);
        proof {
            assert(cur.drop_first() =~= rest);
            assert(cur[0] == b@[i as int]);
            lemma_from_le_bound(rest, (7 - i) as nat);
            lemma_from_le_bound(cur, (8 - i) as nat);
            lemma_pow256_le((8 - i) as nat, 8);
            reveal_with_fuel(pow256, 9);
            assert(pow256(8) == 0x1_0000_0000_0000_0000);
        }
        acc = acc * 256 + b[i] as u64;
    }
    assert(b@.subrange(0, 8) =~= b@);
    acc
}

proof fn lemma_pow256_le(a: nat, b: nat)
    requires
        a <= b,
    ensures
        pow256(a) <= pow256(b),
    decreases b,
{
    if a < b {
        lemma_pow256_le(a, (b - 1) as nat);
    }
}

/// Appends the lowercase hex of every byte of `b`.
pub fn push_hex_bytes(s: &mut String, b: &[u8])
    ensures
        final(s)@ == old(s)@ + hex_bytes(b@),
{
    let ghost start = s@;
    let mut i: usize = 0;
    while i < b.len()
        invariant
            i <= b.len(),
            s@ == start + hex_bytes(b@.take(i as int)),
        decreases b.len() - i,
    {
        let x = b[i];
        push_char(s, hex_digit((x / 16) as u64));
        push_char(s, hex_digit((x % 16) as u64));
        assert(b@.take(i + 1).drop_last() =~= b@.take(i as int));
        i = i + 1;
    }
    assert(b@.take(b.len() as int) =~= b@);
}

proof fn lemma_hex_bytes_prefix(b: Seq<u8>, n: nat)
    requires
        n <= b.len(),
    ensures
        hex_bytes(b).take(2 * n as int) =~= hex_bytes(b.take(n as int)),
        hex_bytes(b).len() == 2 * b.len(),
    decreases b.len(),
{
    if b.len() > 0 {
        if n == b.len() {
            lemma_hex_bytes_prefix(b.drop_last(), (n - 1) as nat);
            assert(b.take(n as int) =~= b);
        } else {
            lemma_hex_bytes_prefix(b.drop_last(), n);
            assert(b.drop_last().take(n as int) =~= b.take(n as int));
        }
    }
}

/// Derive an instance seed from the epoch, task id and index:
/// `blake3(epoch || 0 || task_id || 0 || index)[..8]`, read little-endian.
pub fn derive_seed(epoch: &str, task_id: &str, index: u32) -> (r: u64)
    ensures
        r as nat == derived_seed(epoch@, task_id@, index),
{
    let mut data: Vec<u8> = Vec::new();
    push_bytes(&mut data, epoch.as_bytes());
    data.push(0u8);
    push_bytes(&mut data, task_id.as_bytes());
    data.push(0u8);
    push_le_bytes(&mut data, index as u64, 4);
    assert(data@ =~= seed_input(epoch@, task_id@, index));
    let h = blake3_digest(data.as_slice());
    let mut first: Vec<u8> = Vec::new();
    let mut i: usize = 0;
    while i < 8
        invariant
            i <= 8,
            h@.len() == 32,
            first@ == h@.take(i as int),
        decreases 8 - i,
    {
        first.push(h[i]);
        assert(h@.take(i + 1) =~= h@.take(i as int).push(h@[i as int]));
        i = i + 1;
    }
    u64_from_le(first.as_slice())
}

/// A unique low-frequency string embedded in a prompt: `rb-` followed by the
/// first 12 hex digits of `blake3(family || seed)`.
pub fn mint_canary(family: &str, seed: u64) -> (r: String)
    ensures
        r@ == canary_text(family@, seed),
{
    let mut data: Vec<u8> = Vec::new();
    push_bytes(&mut data, family.as_bytes());
    push_le_bytes(&mut data, seed, 8);
    let h = blake3_digest(data.as_slice());
    let mut head: Vec<u8> = Vec::new();
    let mut i: usize = 0;
    while i < 6
        invariant
            i <= 6,
            h@.len() == 32,
            head@ == h@.take(i as int),
        decreases 6 - i,
    {
        head.push(h[i]);
        assert(h@.take(i + 1) =~= h@.take(i as int).push(h@[i as int]));
        i = i + 1;
    }
    let mut s = String::from_str("rb-");
    push_hex_bytes(&mut s, head.as_slice());
    proof {
        lemma_hex_bytes_prefix(h@, 6);
    }
    s
}

/// `blake3:` and the full lowercase hex digest of `data`.
pub fn blake3_hex_id(data: &[u8]) -> (r: String)
    ensures
        r@ == "blake3:"@ + hex_bytes(blake3_hash(data@)),
{
    let h = blake3_digest(data);
    let mut s = String::from_str("blake3:");
    push_hex_bytes(&mut s, h.as_slice());
    s
}

} // verus!
