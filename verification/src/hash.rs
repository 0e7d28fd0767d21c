use vstd::prelude::*;
use vstd::utf8::encode_utf8;

verus! {

/// The 32-byte BLAKE3 digest of `input`, as `blake3::hash` computes it.
pub uninterp spec fn blake3_digest(input: Seq<u8>) -> Seq<u8>;

/// Calls `blake3::hash` on `input` and hands back the digest's bytes. The contract
/// claims that the result is the BLAKE3 digest of the input (a function of the input
/// alone, named `blake3_digest`) and that it is 32 bytes long (`blake3::OUT_LEN`).
/// Feeding one buffer is what a `Hasher` fed the same bytes piece by piece returns.
#[verifier::external_body]
fn blake3_hash(input: &[u8]) -> (r: Vec<u8>)
    ensures
        r@ == blake3_digest(input@),
        r@.len() == 32,
{
    blake3::hash(input).as_bytes().to_vec()
}

/// The number whose little-endian bytes are `s`.
pub open spec fn le_value(s: Seq<u8>) -> nat
    decreases s.len(),
{
    if s.len() == 0 {
        0
    } else {
        s[0] as nat + 256 * le_value(s.drop_first())
    }
}

/// The two bytes of `v`, most significant first.
pub open spec fn be16(v: u16) -> Seq<u8> {
    seq![(v / 256) as u8, (v % 256) as u8]
}

/// The four bytes of `v`, least significant first.
pub open spec fn le32(v: u32) -> Seq<u8> {
    seq![(v % 256) as u8, ((v / 256) % 256) as u8, ((v / 65536) % 256) as u8, (v / 16777216) as u8]
}

/// The 64-bit identifier drawn from a key: the first eight bytes of its BLAKE3 digest,
/// read little-endian.
pub open spec fn digest_id(key: Seq<u8>) -> nat {
    le_value(blake3_digest(key).take(8))
}

/// 256 to the power `n`.
pub open spec fn pow256(n: nat) -> nat
    decreases n,
{
    if n == 0 {
        1
    } else {
        256 * pow256((n - 1) as nat)
    }
}

pub proof fn lemma_le_value_bound(s: Seq<u8>)
    ensures
        le_value(s) < pow256(s.len()),
    decreases s.len(),
{
    if s.len() > 0 {
        let t = s.drop_first();
        lemma_le_value_bound(t);
        let p = pow256(t.len());
        assert(s[0] as nat + 256 * le_value(t) < 256 * p) by (nonlinear_arith)
            requires
                s[0] < 256,
                le_value(t) < p,
        ;
    }
}

pub proof fn lemma_pow256_monotone(a: nat, b: nat)
    requires
        a <= b,
    ensures
        pow256(a) <= pow256(b),
    decreases b,
{
    if a < b {
        lemma_pow256_monotone(a, (b - 1) as nat);
    }
}

/// The identifier drawn from a digest: its first eight bytes read as a little-endian
/// number.
pub fn id_from_digest(digest: &Vec<u8>) -> (id: u64)
    requires
        digest@.len() >= 8,
    ensures
        id as nat == le_value(digest@.take(8)),
{
    let ghost first = digest@.take(8);
    let mut acc: u64 = 0;
    let mut i: usize = 8;
    while i > 0
        invariant
            i <= 8,
            digest@.len() >= 8,
            first == digest@.take(8),
            acc as nat == le_value(first.subrange(i as int, 8)),
        decreases i,
    {
        i = i - 1;
        proof {
            let tail = first.subrange(i as int, 8);
            assert(tail.drop_first() =~= first.subrange(i + 1, 8));
            lemma_le_value_bound(first.subrange(i + 1, 8));
            lemma_pow256_monotone((7 - i) as nat, 7);
            reveal_with_fuel(pow256, 8);
        }
        acc = digest[i] as u64 + 256 * acc;
    }
    proof {
        assert(first.subrange(0, 8) =~= first);
    }
    acc
}

/// Hashes `key` and keeps the first eight bytes of the digest as a little-endian number.
pub fn digest_to_id(key: &[u8]) -> (id: u64)
    ensures
        id as nat == digest_id(key@),
{
    let digest = blake3_hash(key);
    id_from_digest(&digest)
}

/// Appends `bytes` to `v`.
pub fn append_bytes(v: &mut Vec<u8>, bytes: &[u8])
    ensures
        final(v)@ == old(v)@ + bytes@,
{
    let ghost start = v@;
    let mut i: usize = 0;
    while i < bytes.len()
        invariant
            i <= bytes@.len(),
            v@ == start + bytes@.take(i as int),
        decreases bytes@.len() - i,
    {
        v.push(bytes[i]);
        i = i + 1;
        proof {
            assert(bytes@.take(i as int) =~= bytes@.take(i - 1).push(bytes@[i - 1]));
        }
    }
    proof {
        assert(bytes@.take(bytes@.len() as int) =~= bytes@);
    }
}

/// Appends the UTF-8 bytes of `s` to `v`.
pub fn append_str(v: &mut Vec<u8>, s: &str)
    ensures
        final(v)@ == old(v)@ + encode_utf8(s@),
{
    append_bytes(v, s.as_bytes());
}

/// Appends the two bytes of `value`, most significant first.
pub fn append_be16(v: &mut Vec<u8>, value: u16)
    ensures
        final(v)@ == old(v)@ + be16(value),
{
    v.push((value / 256) as u8);
    v.push((value % 256) as u8);
    proof {
        assert(final(v)@ =~= old(v)@ + be16(value));
    }
}

/// Appends the four bytes of `value`, least significant first.
pub fn append_le32(v: &mut Vec<u8>, value: u32)
    ensures
        final(v)@ == old(v)@ + le32(value),
{
    v.push((value % 256) as u8);
    v.push(((value / 256) % 256) as u8);
    v.push(((value / 65536) % 256) as u8);
    v.push((value / 16777216) as u8);
    proof {
        assert(final(v)@ =~= old(v)@ + le32(value));
    }
}

} // verus!
