//! Base-128 variable-length integers, the number format of the wire envelope:
//! seven payload bits per byte, least significant group first, the high bit
//! set on every byte but the last.

use vstd::prelude::*;

verus! {

/// The bytes that encode `value`.
pub open spec fn varint_bytes(value: int) -> Seq<u8>
    decreases value,
{
    if value < 128 {
        seq![value as u8]
    } else {
        seq![(value % 128 + 128) as u8] + varint_bytes(value / 128)
    }
}

/// Reads a variable-length integer from the front of `bytes`, `count` bytes
/// of it having been read already: the value and the number of bytes read, or
/// `None` where the bytes end inside the number, the number runs past its
/// tenth byte, or does not fit 64 bits.
pub open spec fn varint_from(bytes: Seq<u8>, count: int) -> Option<(int, int)>
    decreases 10 - count,
{
    if count < 0 || count >= 10 || bytes.len() == 0 {
        None
    } else if bytes[0] < 128 {
        if count == 9 && bytes[0] > 1 {
            None
        } else {
            Some((bytes[0] as int, 1))
        }
    } else {
        match varint_from(bytes.drop_first(), count + 1) {
            Some((rest, n)) => Some((bytes[0] - 128 + 128 * rest, n + 1)),
            None => None,
        }
    }
}

/// Reads a variable-length integer from the front of `bytes`.
pub open spec fn varint(bytes: Seq<u8>) -> Option<(int, int)> {
    varint_from(bytes, 0)
}

/// What a number read after `count` bytes stays below: 2 for the tenth byte,
/// 128 times more for each byte before it.
pub open spec fn varint_limit(count: int) -> int
    decreases 9 - count,
{
    if count >= 9 {
        2
    } else {
        128 * varint_limit(count + 1)
    }
}

/// A number read in full is at least one byte long, no longer than what was
/// there to read, and within its limit.
pub proof fn lemma_varint_bounds(bytes: Seq<u8>, count: int)
    requires
        0 <= count,
    ensures
        varint_from(bytes, count) matches Some((value, n)) ==> 1 <= n <= bytes.len() && n <= 10
            - count && 0 <= value < varint_limit(count),
    decreases 10 - count,
{
    if count < 10 && bytes.len() > 0 && bytes[0] >= 128 {
        lemma_varint_bounds(bytes.drop_first(), count + 1);
    }
    if count < 9 && bytes.len() > 0 && bytes[0] < 128 {
        lemma_limit_at_least_128(count);
    }
}

proof fn lemma_limit_at_least_128(count: int)
    requires
        0 <= count < 9,
    ensures
        varint_limit(count) >= 256,
    decreases 9 - count,
{
    assert(varint_limit(count) == 128 * varint_limit(count + 1));
    if count < 8 {
        lemma_limit_at_least_128(count + 1);
    }
}

/// A number read from the start fits 64 bits.
pub proof fn lemma_varint_fits(bytes: Seq<u8>)
    ensures
        varint(bytes) matches Some((value, n)) ==> 1 <= n <= bytes.len() && n <= 10 && 0 <= value
            <= u64::MAX,
{
    lemma_varint_bounds(bytes, 0);
    lemma_limit_values();
}

/// Ten bytes hold exactly the numbers that fit 64 bits.
pub proof fn lemma_varint_limit()
    ensures
        varint_limit(0) == 0x1_0000_0000_0000_0000,
{
    lemma_limit_values();
}

proof fn lemma_limit_values()
    ensures
        varint_limit(0) == 0x1_0000_0000_0000_0000,
{
    assert(varint_limit(9) == 2);
    assert(varint_limit(8) == 0x100);
    assert(varint_limit(7) == 0x8000);
    assert(varint_limit(6) == 0x40_0000);
    assert(varint_limit(5) == 0x2000_0000);
    assert(varint_limit(4) == 0x10_0000_0000);
    assert(varint_limit(3) == 0x800_0000_0000);
    assert(varint_limit(2) == 0x4_0000_0000_0000);
    assert(varint_limit(1) == 0x200_0000_0000_0000);
}

/// Reading a number depends only on the bytes of the number itself.
pub proof fn lemma_varint_prefix(bytes: Seq<u8>, more: Seq<u8>, count: int)
    requires
        varint_from(bytes, count) is Some,
    ensures
        varint_from(bytes + more, count) == varint_from(bytes, count),
    decreases 10 - count,
{
    if bytes[0] >= 128 {
        assert((bytes + more).drop_first() == bytes.drop_first() + more);
        lemma_varint_prefix(bytes.drop_first(), more, count + 1);
    }
}

/// What is written can be read back: the encoding of a value below the limit
/// reads as that value, and every byte of it is read.
pub proof fn lemma_varint_round_trip(value: int, count: int)
    requires
        0 <= count <= 9,
        0 <= value < varint_limit(count),
    ensures
        varint_from(varint_bytes(value), count) == Some((value, varint_bytes(value).len() as int)),
    decreases value,
{
    if value >= 128 {
        assert(varint_bytes(value).drop_first() == varint_bytes(value / 128));
        lemma_varint_round_trip(value / 128, count + 1);
    }
}

/// Reads a variable-length integer from the front of `bytes`.
pub fn read_varint(bytes: &[u8]) -> (read: Option<(u64, usize)>)
    ensures
        match read {
            Some((value, n)) => varint(bytes@) == Some((value as int, n as int)) && 1 <= n
                <= bytes@.len(),
            None => varint(bytes@) is None,
        },
{
    proof {
        lemma_limit_values();
    }
    assert(bytes@.skip(0) == bytes@);
    read_varint_from(bytes, 0, 0)
}

fn read_varint_from(bytes: &[u8], at: usize, count: u8) -> (read: Option<(u64, usize)>)
    requires
        at <= bytes@.len(),
        count <= 10,
    ensures
        match read {
            Some((value, n)) => varint_from(bytes@.skip(at as int), count as int) == Some(
                (value as int, n as int),
            ) && 1 <= n <= bytes@.len() - at && value < varint_limit(count as int),
            None => varint_from(bytes@.skip(at as int), count as int) is None,
        },
    decreases 10 - count,
{
    let ghost rest = bytes@.skip(at as int);
    if count >= 10 || at >= bytes.len() {
        return None;
    }
    let byte = bytes[at];
    proof {
        lemma_varint_bounds(rest, count as int);
    }
    if byte < 128 {
        if count == 9 && byte > 1 {
            None
        } else {
            Some((byte as u64, 1))
        }
    } else {
        assert(rest.drop_first() == bytes@.skip(at + 1));
        match read_varint_from(bytes, at + 1, count + 1) {
            Some((value, n)) => {
                proof {
                    lemma_limit_values();
                    lemma_limit_decreases(count as int);
                }
                Some(((byte - 128) as u64 + 128 * value, n + 1))
            },
            None => None,
        }
    }
}

proof fn lemma_limit_decreases(count: int)
    requires
        0 <= count <= 9,
    ensures
        varint_limit(count) <= varint_limit(0),
        varint_limit(count) >= 2,
    decreases count,
{
    if count > 0 {
        lemma_limit_decreases(count - 1);
    }
    if count < 9 {
        lemma_limit_at_least_128(count);
    }
}

/// Appends the encoding of `value` to `out`.
pub fn write_varint(value: u64, out: &mut Vec<u8>)
    ensures
        final(out)@ == old(out)@ + varint_bytes(value as int),
{
    let mut rest = value;
    while rest >= 128
        invariant
            out@ + varint_bytes(rest as int) == old(out)@ + varint_bytes(value as int),
        decreases rest,
    {
        let ghost before = out@;
        out.push((rest % 128) as u8 + 128);
        assert(before.push(((rest % 128) + 128) as u8) + varint_bytes(rest as int / 128) == before
            + varint_bytes(rest as int));
        rest = rest / 128;
    }
    out.push(rest as u8);
}

} // verus!
