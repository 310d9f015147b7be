//! SCALE serialization primitives: the compact integer encoding and the
//! fixed-width little-endian encoding that the call format is built from.

use vstd::prelude::*;

verus! {

/// The little-endian bytes of `v`, least significant first, with no trailing
/// zero byte: the shortest little-endian form of a positive number, empty for
/// zero.
pub open spec fn le_min_bytes(v: nat) -> Seq<u8>
    decreases v,
{
    if v == 0 {
        Seq::empty()
    } else {
        seq![(v % 256) as u8] + le_min_bytes(v / 256)
    }
}

/// 256 raised to `k`.
pub open spec fn pow256(k: nat) -> nat
    decreases k,
{
    if k == 0 {
        1
    } else {
        256 * pow256((k - 1) as nat)
    }
}

/// The SCALE compact encoding of an unsigned integer: two mode bits in the
/// lowest positions of the first byte select one, two or four little-endian
/// bytes holding the value shifted left by two, or a length byte followed by
/// the value's shortest little-endian form.
pub open spec fn compact_spec(v: nat) -> Seq<u8> {
    if v < 64 {
        seq![(v * 4) as u8]
    } else if v < 16384 {
        seq![((v * 4 + 1) % 256) as u8, ((v * 4 + 1) / 256) as u8]
    } else if v < 1073741824 {
        seq![
            ((v * 4 + 2) % 256) as u8,
            (((v * 4 + 2) / 256) % 256) as u8,
            (((v * 4 + 2) / 65536) % 256) as u8,
            ((v * 4 + 2) / 16777216) as u8,
        ]
    } else {
        seq![((le_min_bytes(v).len() - 4) * 4 + 3) as u8] + le_min_bytes(v)
    }
}

/// The four little-endian bytes of a 32-bit value.
pub open spec fn u32_le_spec(v: u32) -> Seq<u8> {
    seq![
        (v % 256) as u8,
        ((v / 256) % 256) as u8,
        ((v / 65536) % 256) as u8,
        ((v / 16777216) % 256) as u8,
    ]
}

/// A value below `pow256(k)` has at most `k` little-endian bytes.
proof fn lemma_le_min_bytes_len_upper(v: nat, k: nat)
    requires
        v < pow256(k),
    ensures
        le_min_bytes(v).len() <= k,
    decreases k,
{
    if v == 0 {
    } else {
        assert(k >= 1);
        assert(pow256(k) == 256 * pow256((k - 1) as nat));
        assert(v / 256 < pow256((k - 1) as nat)) by (nonlinear_arith)
            requires
                v < pow256(k),
                pow256(k) == 256 * pow256((k - 1) as nat),
        ;
        lemma_le_min_bytes_len_upper(v / 256, (k - 1) as nat);
    }
}

/// A value of at least `pow256(k)` has more than `k` little-endian bytes.
proof fn lemma_le_min_bytes_len_lower(v: nat, k: nat)
    requires
        v >= pow256(k),
    ensures
        le_min_bytes(v).len() >= k + 1,
    decreases k,
{
    if k == 0 {
        assert(v >= 1);
    } else {
        assert(pow256(k) == 256 * pow256((k - 1) as nat));
        assert(v / 256 >= pow256((k - 1) as nat)) by (nonlinear_arith)
            requires
                v >= pow256(k),
                pow256(k) == 256 * pow256((k - 1) as nat),
        ;
        lemma_le_min_bytes_len_lower(v / 256, (k - 1) as nat);
    }
}

/// Appends every byte of `src` to `out`, in order.
pub fn push_bytes(out: &mut Vec<u8>, src: &Vec<u8>)
    ensures
        final(out)@ == old(out)@ + src@,
{
    let mut i: usize = 0;
    while i < src.len()
        invariant
            i <= src@.len(),
            out@ == old(out)@ + src@.subrange(0, i as int),
        decreases src@.len() - i,
    {
        let ghost prefix = src@.subrange(0, i as int);
        out.push(src[i]);
        proof {
            assert(prefix.push(src@[i as int]) =~= src@.subrange(0, i + 1));
            assert(out@ =~= old(out)@ + src@.subrange(0, i + 1));
        }
        i = i + 1;
    }
    proof {
        assert(src@.subrange(0, src@.len() as int) =~= src@);
    }
}

/// Appends the SCALE compact encoding of `v` to `out`.
pub fn push_compact_u128(out: &mut Vec<u8>, v: u128)
    ensures
        final(out)@ == old(out)@ + compact_spec(v as nat),
{
    if v < 64 {
        out.push((v as u8) * 4);
        proof {
            assert(out@ =~= old(out)@ + compact_spec(v as nat));
        }
    } else if v < 16384 {
        let x: u32 = (v as u32) * 4 + 1;
        out.push((x % 256) as u8);
        out.push((x / 256) as u8);
        proof {
            assert(out@ =~= old(out)@ + compact_spec(v as nat));
        }
    } else if v < 1073741824 {
        let x: u32 = (v as u32) * 4 + 2;
        out.push((x % 256) as u8);
        out.push(((x / 256) % 256) as u8);
        out.push(((x / 65536) % 256) as u8);
        out.push((x / 16777216) as u8);
        proof {
            assert(out@ =~= old(out)@ + compact_spec(v as nat));
        }
    } else {
        let mut tail: Vec<u8> = Vec::new();
        let mut x = v;
        while x > 0
            invariant
                le_min_bytes(v as nat) == tail@ + le_min_bytes(x as nat),
            decreases x,
        {
            let ghost tail0 = tail@;
            let ghost x0 = x as nat;
            tail.push((x % 256) as u8);
            proof {
                assert(le_min_bytes(x0) == seq![(x0 % 256) as u8] + le_min_bytes(x0 / 256));
                assert(tail0 + le_min_bytes(x0) =~= tail@ + le_min_bytes(x0 / 256));
            }
            x = x / 256;
        }
        proof {
            assert(le_min_bytes(v as nat) =~= tail@);
            reveal_with_fuel(pow256, 18);
            assert(pow256(3) == 16777216);
            lemma_le_min_bytes_len_lower(v as nat, 3);
            assert(pow256(16) > u128::MAX);
            lemma_le_min_bytes_len_upper(v as nat, 16);
        }
        let n = tail.len();
        out.push(((n - 4) * 4 + 3) as u8);
        push_bytes(out, &tail);
        proof {
            assert(out@ =~= old(out)@ + compact_spec(v as nat));
        }
    }
}

/// The SCALE compact encoding of `v` as a fresh byte vector.
pub fn compact_u128(v: u128) -> (r: Vec<u8>)
    ensures
        r@ == compact_spec(v as nat),
{
    let mut out: Vec<u8> = Vec::new();
    push_compact_u128(&mut out, v);
    proof {
        assert(out@ =~= compact_spec(v as nat));
    }
    out
}

/// Appends the SCALE compact encoding of a 32-bit value to `out`.
pub fn push_compact_u32(out: &mut Vec<u8>, v: u32)
    ensures
        final(out)@ == old(out)@ + compact_spec(v as nat),
{
    push_compact_u128(out, v as u128);
}

/// Appends the SCALE compact encoding of a 64-bit value to `out`.
pub fn push_compact_u64(out: &mut Vec<u8>, v: u64)
    ensures
        final(out)@ == old(out)@ + compact_spec(v as nat),
{
    push_compact_u128(out, v as u128);
}

/// Appends the four little-endian bytes of `v` to `out`.
pub fn push_u32_le(out: &mut Vec<u8>, v: u32)
    ensures
        final(out)@ == old(out)@ + u32_le_spec(v),
{
    out.push((v % 256) as u8);
    out.push(((v / 256) % 256) as u8);
    out.push(((v / 65536) % 256) as u8);
    out.push(((v / 16777216) % 256) as u8);
    proof {
        assert(out@ =~= old(out)@ + u32_le_spec(v));
    }
}

} // verus!
