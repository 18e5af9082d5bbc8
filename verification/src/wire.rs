//! Unsigned integers as little-endian bytes.

use vstd::prelude::*;

verus! {

/// The number that `bytes` spell, least significant byte first.
pub open spec fn le_value(bytes: Seq<u8>) -> nat
    decreases bytes.len(),
{
    if bytes.len() == 0 {
        0
    } else {
        bytes[0] as nat + 256 * le_value(bytes.drop_first())
    }
}

/// The `width` lowest bytes of `value`, least significant byte first.
pub open spec fn le_bytes(value: nat, width: nat) -> Seq<u8>
    decreases width,
{
    if width == 0 {
        Seq::empty()
    } else {
        seq![(value % 256) as u8] + le_bytes(value / 256, (width - 1) as nat)
    }
}

/// The number of values that `width` bytes can spell.
pub open spec fn le_range(width: nat) -> nat
    decreases width,
{
    if width == 0 {
        1
    } else {
        256 * le_range((width - 1) as nat)
    }
}

/// `le_bytes` gives as many bytes as it is asked for.
pub proof fn lemma_le_bytes_len(value: nat, width: nat)
    ensures
        le_bytes(value, width).len() == width,
    decreases width,
{
    if width > 0 {
        lemma_le_bytes_len(value / 256, (width - 1) as nat);
    }
}

/// What `n` bytes spell is below `le_range(n)`.
pub proof fn lemma_le_value_bound(bytes: Seq<u8>)
    ensures
        le_value(bytes) < le_range(bytes.len()),
    decreases bytes.len(),
{
    if bytes.len() > 0 {
        lemma_le_value_bound(bytes.drop_first());
    }
}

/// Eight bytes spell exactly the values of a `u64`.
pub proof fn lemma_le_range_u64()
    ensures
        le_range(8) == 0x1_0000_0000_0000_0000,
{
    reveal_with_fuel(le_range, 9);
}

/// The range grows with the width.
pub proof fn lemma_le_range_monotonic(narrow: nat, wide: nat)
    requires
        narrow <= wide,
    ensures
        1 <= le_range(narrow) <= le_range(wide),
    decreases wide,
{
    if wide > 0 {
        if narrow == wide {
            lemma_le_range_monotonic((narrow - 1) as nat, (wide - 1) as nat);
        } else {
            lemma_le_range_monotonic(narrow, (wide - 1) as nat);
        }
    }
}

/// Writing a value that fits in `width` bytes and reading the bytes back
/// gives the value.
pub proof fn lemma_le_value_of_bytes(value: nat, width: nat)
    requires
        value < le_range(width),
    ensures
        le_value(le_bytes(value, width)) == value,
    decreases width,
{
    if width > 0 {
        let rest = le_bytes(value / 256, (width - 1) as nat);
        let all = le_bytes(value, width);
        lemma_le_value_of_bytes(value / 256, (width - 1) as nat);
        assert(all.drop_first() =~= rest);
    }
}

/// Reading bytes and writing the number back at the same width gives the
/// bytes.
pub proof fn lemma_le_bytes_of_value(bytes: Seq<u8>)
    ensures
        le_bytes(le_value(bytes), bytes.len()) == bytes,
    decreases bytes.len(),
{
    if bytes.len() > 0 {
        let rest = bytes.drop_first();
        lemma_le_bytes_of_value(rest);
        let v = le_value(bytes);
        assert(v % 256 == bytes[0] as nat && v / 256 == le_value(rest));
        assert(le_bytes(v, bytes.len()) =~= bytes);
    }
}

/// Reads `width` bytes of `bytes`, from `start` on, as one number.
pub fn read_le(bytes: &[u8], start: usize, width: usize) -> (value: u64)
    requires
        width <= 8,
        start + width <= bytes@.len(),
    ensures
        value == le_value(bytes@.subrange(start as int, start + width)),
{
    let mut value: u64 = 0;
    let mut left: usize = width;
    proof {
        lemma_le_range_u64();
    }
    while left > 0
        invariant
            left <= width <= 8,
            start + width <= bytes.len() == bytes@.len(),
            value == le_value(bytes@.subrange(start + left, start + width)),
            le_range(8) == 0x1_0000_0000_0000_0000,
        decreases left,
    {
        left -= 1;
        proof {
            let tail = bytes@.subrange(start + left + 1, start + width);
            let with_byte = bytes@.subrange(start + left, start + width);
            assert(with_byte.drop_first() =~= tail);
            lemma_le_value_bound(tail);
            lemma_le_range_monotonic(with_byte.len(), 8);
        }
        value = value * 256 + bytes[start + left] as u64;
    }
    value
}

/// Appends to `out` the `width` lowest bytes of `value`.
pub fn write_le(out: &mut Vec<u8>, value: u64, width: usize)
    ensures
        final(out)@ == old(out)@ + le_bytes(value as nat, width as nat),
{
    let mut rest: u64 = value;
    let mut left: usize = width;
    while left > 0
        invariant
            left <= width,
            out@ + le_bytes(rest as nat, left as nat) == old(out)@ + le_bytes(
                value as nat,
                width as nat,
            ),
        decreases left,
    {
        let ghost before = out@;
        out.push((rest % 256) as u8);
        proof {
            assert(before + le_bytes(rest as nat, left as nat) =~= out@ + le_bytes(
                (rest / 256) as nat,
                (left - 1) as nat,
            ));
        }
        rest = rest / 256;
        left -= 1;
    }
}

} // verus!
