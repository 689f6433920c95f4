//! The field layer of the wire envelope: a message is a run of fields, each a
//! key (field number and wire type) followed by a value whose extent the wire
//! type gives.

use crate::varint::{
    lemma_varint_fits, lemma_varint_prefix, lemma_varint_round_trip, lemma_varint_limit, read_varint,
    varint, varint_bytes, write_varint,
};
use vstd::prelude::*;
use vstd::slice::{slice_subrange, slice_to_vec};
use vstd::utf8::{decode_utf8, valid_utf8};

verus! {

/// Wire type of a variable-length integer.
pub const WIRE_VARINT: u64 = 0;

/// Wire type of eight raw bytes.
pub const WIRE_SIXTY_FOUR_BIT: u64 = 1;

/// Wire type of a length-prefixed run of bytes.
pub const WIRE_LENGTH_DELIMITED: u64 = 2;

/// Wire type that opens a group.
pub const WIRE_START_GROUP: u64 = 3;

/// Wire type that closes a group.
pub const WIRE_END_GROUP: u64 = 4;

/// Wire type of four raw bytes.
pub const WIRE_THIRTY_TWO_BIT: u64 = 5;

/// Why a run of bytes is not a message.
#[derive(Debug, Clone, Copy, PartialEq, Eq, Structural)]
pub enum DecodeError {
    /// A variable-length integer ends early, runs past ten bytes or does not
    /// fit 64 bits.
    InvalidVarint,
    /// A key does not fit 32 bits.
    InvalidKey,
    /// A key carries wire type 6 or 7.
    InvalidWireType,
    /// A key carries field number 0.
    InvalidTag,
    /// A known field comes with a wire type other than its own.
    UnexpectedWireType,
    /// A value announces more bytes than are left.
    BufferUnderflow,
    /// A text field is not UTF-8.
    InvalidString,
    /// A group is closed that was not opened, or under another field number
    /// than it was opened with.
    UnexpectedEndGroup,
    /// Groups are nested more than [`MAX_GROUP_DEPTH`] deep.
    RecursionLimitReached,
}

impl DecodeError {
    /// The error in words.
    pub fn message(&self) -> (text: String)
        ensures
            text@ == (match self {
                DecodeError::InvalidVarint => "invalid varint"@,
                DecodeError::InvalidKey => "invalid key value"@,
                DecodeError::InvalidWireType => "invalid wire type value"@,
                DecodeError::InvalidTag => "invalid tag value: 0"@,
                DecodeError::UnexpectedWireType => "unexpected wire type"@,
                DecodeError::BufferUnderflow => "buffer underflow"@,
                DecodeError::InvalidString => "invalid string value: data is not UTF-8 encoded"@,
                DecodeError::UnexpectedEndGroup => "unexpected end group tag"@,
                DecodeError::RecursionLimitReached => "recursion limit reached"@,
            }),
    {
        match self {
            DecodeError::InvalidVarint => "invalid varint".to_string(),
            DecodeError::InvalidKey => "invalid key value".to_string(),
            DecodeError::InvalidWireType => "invalid wire type value".to_string(),
            DecodeError::InvalidTag => "invalid tag value: 0".to_string(),
            DecodeError::UnexpectedWireType => "unexpected wire type".to_string(),
            DecodeError::BufferUnderflow => "buffer underflow".to_string(),
            DecodeError::InvalidString => "invalid string value: data is not UTF-8 encoded".to_string(),
            DecodeError::UnexpectedEndGroup => "unexpected end group tag".to_string(),
            DecodeError::RecursionLimitReached => "recursion limit reached".to_string(),
        }
    }
}

/// The value of a field.
pub enum FieldValue {
    Varint(u64),
    /// The bytes of a length-delimited value, without the length.
    Bytes(Seq<u8>),
    /// The four or eight bytes of a fixed-width value.
    Fixed(Seq<u8>),
    /// A group: the fields between the key that opens it and the key that
    /// closes it. No field of the envelope is one, so a group is only ever
    /// passed over.
    Group,
}

/// One field as it stands on the wire.
pub struct Field {
    /// The field number, never 0.
    pub tag: u32,
    pub value: FieldValue,
    /// How many bytes the field takes, key included.
    pub len: int,
}

/// The key of field `tag` with wire type `wire_type`.
pub open spec fn key_of(tag: u32, wire_type: u64) -> int {
    tag * 8 + wire_type
}

/// How deep groups may be nested.
pub const MAX_GROUP_DEPTH: u32 = 100;

/// The key at the front of `bytes`: field number, wire type, and the bytes
/// the key takes.
pub open spec fn key_at(bytes: Seq<u8>) -> Result<(u32, int, int), DecodeError> {
    match varint(bytes) {
        None => Err(DecodeError::InvalidVarint),
        Some((key, n)) => if key > u32::MAX {
            Err(DecodeError::InvalidKey)
        } else if key % 8 > WIRE_THIRTY_TWO_BIT {
            Err(DecodeError::InvalidWireType)
        } else if key / 8 == 0 {
            Err(DecodeError::InvalidTag)
        } else {
            Ok(((key / 8) as u32, key % 8, n))
        },
    }
}

/// The value that follows a key with a wire type other than those of groups,
/// read from the front of `bytes`, and the bytes it takes.
pub open spec fn value_after_key(wire_type: int, bytes: Seq<u8>) -> Result<(FieldValue, int), DecodeError> {
    if wire_type == WIRE_VARINT {
        match varint(bytes) {
            Some((value, n)) => Ok((FieldValue::Varint(value as u64), n)),
            None => Err(DecodeError::InvalidVarint),
        }
    } else if wire_type == WIRE_SIXTY_FOUR_BIT {
        if bytes.len() < 8 {
            Err(DecodeError::BufferUnderflow)
        } else {
            Ok((FieldValue::Fixed(bytes.subrange(0, 8)), 8))
        }
    } else if wire_type == WIRE_THIRTY_TWO_BIT {
        if bytes.len() < 4 {
            Err(DecodeError::BufferUnderflow)
        } else {
            Ok((FieldValue::Fixed(bytes.subrange(0, 4)), 4))
        }
    } else if wire_type == WIRE_LENGTH_DELIMITED {
        match varint(bytes) {
            Some((len, n)) => if len > bytes.len() - n {
                Err(DecodeError::BufferUnderflow)
            } else {
                Ok((FieldValue::Bytes(bytes.subrange(n, n + len)), n + len))
            },
            None => Err(DecodeError::InvalidVarint),
        }
    } else {
        Err(DecodeError::InvalidWireType)
    }
}

/// The bytes that the rest of a group takes, read from the front of `bytes`:
/// the fields of the group, whatever they are, and the key that closes it.
/// The group was opened under field number `tag`, and `depth` more groups may
/// be nested in it.
pub open spec fn group_extent(bytes: Seq<u8>, tag: u32, depth: nat) -> Result<int, DecodeError>
    decreases bytes.len(),
{
    match key_at(bytes) {
        Err(e) => Err(e),
        Ok((inner_tag, wire_type, n)) => if wire_type == WIRE_END_GROUP {
            if inner_tag == tag {
                Ok(n)
            } else {
                Err(DecodeError::UnexpectedEndGroup)
            }
        } else if 0 < n <= bytes.len() {
            let inner = if wire_type == WIRE_START_GROUP {
                if depth == 0 {
                    Err(DecodeError::RecursionLimitReached)
                } else {
                    group_extent(bytes.skip(n), inner_tag, (depth - 1) as nat)
                }
            } else {
                match value_after_key(wire_type, bytes.skip(n)) {
                    Ok((_, m)) => Ok(m),
                    Err(e) => Err(e),
                }
            };
            match inner {
                Err(e) => Err(e),
                Ok(m) => if 0 <= m <= bytes.len() - n {
                    match group_extent(bytes.skip(n + m), tag, depth) {
                        Ok(rest) => Ok(n + m + rest),
                        Err(e) => Err(e),
                    }
                } else {
                    Err(DecodeError::BufferUnderflow)
                },
            }
        } else {
            Err(DecodeError::BufferUnderflow)
        },
    }
}

/// The first field of `bytes`, or why there is none.
pub open spec fn first_field(bytes: Seq<u8>) -> Result<Field, DecodeError> {
    match key_at(bytes) {
        Err(e) => Err(e),
        Ok((tag, wire_type, n)) => if wire_type == WIRE_END_GROUP {
            Err(DecodeError::UnexpectedEndGroup)
        } else if wire_type == WIRE_START_GROUP {
            match group_extent(bytes.skip(n), tag, (MAX_GROUP_DEPTH - 1) as nat) {
                Ok(m) => Ok(Field { tag, value: FieldValue::Group, len: n + m }),
                Err(e) => Err(e),
            }
        } else {
            match value_after_key(wire_type, bytes.skip(n)) {
                Ok((value, m)) => Ok(Field { tag, value, len: n + m }),
                Err(e) => Err(e),
            }
        },
    }
}

/// A key takes at least one byte and no more than there are.
pub proof fn lemma_key_extent(bytes: Seq<u8>)
    ensures
        key_at(bytes) matches Ok((tag, wire_type, n)) ==> 1 <= n <= bytes.len() && tag != 0 && 0
            <= wire_type <= WIRE_THIRTY_TWO_BIT,
{
    lemma_varint_fits(bytes);
}

/// A value takes at least one byte and no more than there are.
pub proof fn lemma_value_extent(wire_type: int, bytes: Seq<u8>)
    ensures
        value_after_key(wire_type, bytes) matches Ok((_, m)) ==> 1 <= m <= bytes.len(),
{
    lemma_varint_fits(bytes);
}

/// The rest of a group takes at least one byte and no more than there are.
pub proof fn lemma_group_extent(bytes: Seq<u8>, tag: u32, depth: nat)
    ensures
        group_extent(bytes, tag, depth) matches Ok(m) ==> 1 <= m <= bytes.len(),
    decreases bytes.len(),
{
    lemma_key_extent(bytes);
    if let Ok((inner_tag, wire_type, n)) = key_at(bytes) {
        if wire_type != WIRE_END_GROUP {
            let inner = if wire_type == WIRE_START_GROUP {
                if depth == 0 {
                    Err(DecodeError::RecursionLimitReached)
                } else {
                    lemma_group_extent(bytes.skip(n), inner_tag, (depth - 1) as nat);
                    group_extent(bytes.skip(n), inner_tag, (depth - 1) as nat)
                }
            } else {
                lemma_value_extent(wire_type, bytes.skip(n));
                match value_after_key(wire_type, bytes.skip(n)) {
                    Ok((_, m)) => Ok(m),
                    Err(e) => Err(e),
                }
            };
            if let Ok(m) = inner {
                lemma_group_extent(bytes.skip(n + m), tag, depth);
            }
        }
    }
}

/// A field takes at least two bytes and no more than there are.
pub proof fn lemma_field_extent(bytes: Seq<u8>)
    ensures
        first_field(bytes) matches Ok(field) ==> 2 <= field.len <= bytes.len() && field.tag != 0,
{
    lemma_key_extent(bytes);
    if let Ok((tag, wire_type, n)) = key_at(bytes) {
        lemma_value_extent(wire_type, bytes.skip(n));
        lemma_group_extent(bytes.skip(n), tag, (MAX_GROUP_DEPTH - 1) as nat);
    }
}

/// The value of a field, borrowed from the bytes it was read from.
#[derive(Debug, Clone, Copy, PartialEq)]
pub enum RawValue<'a> {
    Varint(u64),
    Bytes(&'a [u8]),
    Fixed(&'a [u8]),
    /// A group, passed over.
    Group,
}

/// A field read from the wire.
#[derive(Debug, Clone, Copy, PartialEq)]
pub struct RawField<'a> {
    pub tag: u32,
    pub value: RawValue<'a>,
    /// How many bytes the field takes, key included.
    pub len: usize,
}

impl<'a> View for RawField<'a> {
    type V = Field;

    open spec fn view(&self) -> Field {
        Field {
            tag: self.tag,
            value: value_of(self.value),
            len: self.len as int,
        }
    }
}

/// What a borrowed value holds.
pub open spec fn value_of(value: RawValue<'_>) -> FieldValue {
    match value {
        RawValue::Varint(v) => FieldValue::Varint(v),
        RawValue::Bytes(b) => FieldValue::Bytes(b@),
        RawValue::Fixed(b) => FieldValue::Fixed(b@),
        RawValue::Group => FieldValue::Group,
    }
}

/// Reads the key at the front of `bytes`: field number, wire type, and the
/// bytes the key takes.
pub fn read_key(bytes: &[u8]) -> (read: Result<(u32, u64, usize), DecodeError>)
    ensures
        match read {
            Ok((tag, wire_type, n)) => key_at(bytes@) == Ok::<(u32, int, int), DecodeError>(
                (tag, wire_type as int, n as int),
            ) && 1 <= n <= bytes@.len() && tag != 0 && wire_type <= WIRE_THIRTY_TWO_BIT,
            Err(e) => key_at(bytes@) == Err::<(u32, int, int), DecodeError>(e),
        },
{
    proof {
        lemma_varint_fits(bytes@);
    }
    let (key, n) = match read_varint(bytes) {
        Some(read) => read,
        None => {
            return Err(DecodeError::InvalidVarint);
        },
    };
    if key > u32::MAX as u64 {
        return Err(DecodeError::InvalidKey);
    }
    let wire_type = key % 8;
    if wire_type > WIRE_THIRTY_TWO_BIT {
        return Err(DecodeError::InvalidWireType);
    }
    let tag = (key / 8) as u32;
    if tag == 0 {
        return Err(DecodeError::InvalidTag);
    }
    Ok((tag, wire_type, n))
}

/// Reads the value that follows a key with a wire type other than those of
/// groups, and says how many bytes it takes.
pub fn read_value<'a>(wire_type: u64, bytes: &'a [u8]) -> (read: Result<
    (RawValue<'a>, usize),
    DecodeError,
>)
    ensures
        match read {
            Ok((value, m)) => value_after_key(wire_type as int, bytes@) == Ok::<
                (FieldValue, int),
                DecodeError,
            >((value_of(value), m as int)) && 1 <= m <= bytes@.len(),
            Err(e) => value_after_key(wire_type as int, bytes@) == Err::<
                (FieldValue, int),
                DecodeError,
            >(e),
        },
{
    proof {
        lemma_varint_fits(bytes@);
    }
    if wire_type == WIRE_VARINT {
        match read_varint(bytes) {
            Some((value, m)) => Ok((RawValue::Varint(value), m)),
            None => Err(DecodeError::InvalidVarint),
        }
    } else if wire_type == WIRE_SIXTY_FOUR_BIT {
        if bytes.len() < 8 {
            Err(DecodeError::BufferUnderflow)
        } else {
            Ok((RawValue::Fixed(slice_subrange(bytes, 0, 8)), 8))
        }
    } else if wire_type == WIRE_THIRTY_TWO_BIT {
        if bytes.len() < 4 {
            Err(DecodeError::BufferUnderflow)
        } else {
            Ok((RawValue::Fixed(slice_subrange(bytes, 0, 4)), 4))
        }
    } else if wire_type == WIRE_LENGTH_DELIMITED {
        match read_varint(bytes) {
            Some((len, m)) => {
                if len > (bytes.len() - m) as u64 {
                    Err(DecodeError::BufferUnderflow)
                } else {
                    let len = len as usize;
                    Ok((RawValue::Bytes(slice_subrange(bytes, m, m + len)), m + len))
                }
            },
            None => Err(DecodeError::InvalidVarint),
        }
    } else {
        Err(DecodeError::InvalidWireType)
    }
}

/// Passes over the rest of a group that was opened under field number `tag`
/// and in which `depth` more groups may be nested: says how many bytes the
/// fields of the group and the key that closes it take.
pub fn skip_group(bytes: &[u8], tag: u32, depth: u32) -> (skipped: Result<usize, DecodeError>)
    ensures
        match skipped {
            Ok(m) => group_extent(bytes@, tag, depth as nat) == Ok::<int, DecodeError>(m as int)
                && 1 <= m <= bytes@.len(),
            Err(e) => group_extent(bytes@, tag, depth as nat) == Err::<int, DecodeError>(e),
        },
    decreases depth,
{
    let mut at: usize = 0;
    assert(bytes@.skip(0) == bytes@);
    loop
        invariant
            at <= bytes@.len(),
            group_extent(bytes@, tag, depth as nat) == (match group_extent(
                bytes@.skip(at as int),
                tag,
                depth as nat,
            ) {
                Ok(rest) => Ok::<int, DecodeError>(at + rest),
                Err(e) => Err(e),
            }),
        decreases bytes@.len() - at,
    {
        let rest = slice_subrange(bytes, at, bytes.len());
        proof {
            lemma_group_extent(rest@, tag, depth as nat);
        }
        let (inner_tag, wire_type, n) = match read_key(rest) {
            Ok(key) => key,
            Err(e) => {
                return Err(e);
            },
        };
        if wire_type == WIRE_END_GROUP {
            if inner_tag == tag {
                return Ok(at + n);
            } else {
                return Err(DecodeError::UnexpectedEndGroup);
            }
        }
        let value = slice_subrange(rest, n, rest.len());
        let m = if wire_type == WIRE_START_GROUP {
            if depth == 0 {
                return Err(DecodeError::RecursionLimitReached);
            }
            match skip_group(value, inner_tag, depth - 1) {
                Ok(m) => m,
                Err(e) => {
                    return Err(e);
                },
            }
        } else {
            match read_value(wire_type, value) {
                Ok((_, m)) => m,
                Err(e) => {
                    return Err(e);
                },
            }
        };
        assert(rest@.skip(n + m) == bytes@.skip(at + n + m));
        at = at + n + m;
    }
}

/// Reads the first field of `bytes`. A group is passed over: its fields are
/// checked for their form and not looked into.
pub fn read_field<'a>(bytes: &'a [u8]) -> (read: Result<RawField<'a>, DecodeError>)
    ensures
        match read {
            Ok(field) => first_field(bytes@) == Ok::<Field, DecodeError>(field@) && 2 <= field.len
                <= bytes@.len(),
            Err(e) => first_field(bytes@) == Err::<Field, DecodeError>(e),
        },
{
    proof {
        lemma_field_extent(bytes@);
    }
    let (tag, wire_type, n) = match read_key(bytes) {
        Ok(key) => key,
        Err(e) => {
            return Err(e);
        },
    };
    let rest = slice_subrange(bytes, n, bytes.len());
    if wire_type == WIRE_END_GROUP {
        Err(DecodeError::UnexpectedEndGroup)
    } else if wire_type == WIRE_START_GROUP {
        match skip_group(rest, tag, MAX_GROUP_DEPTH - 1) {
            Ok(m) => Ok(RawField { tag, value: RawValue::Group, len: n + m }),
            Err(e) => Err(e),
        }
    } else {
        match read_value(wire_type, rest) {
            Ok((value, m)) => Ok(RawField { tag, value, len: n + m }),
            Err(e) => Err(e),
        }
    }
}

/// `String::from_utf8`: the text that `bytes` encode. The contract claims
/// that the call succeeds exactly on well-formed UTF-8 and then returns the
/// characters those bytes encode.
#[verifier::external_body]
pub(crate) fn string_from_utf8(bytes: Vec<u8>) -> (text: Option<String>)
    ensures
        text is Some <==> valid_utf8(bytes@),
        text matches Some(s) ==> s@ == decode_utf8(bytes@),
{
    String::from_utf8(bytes).ok()
}

/// A copy of `bytes`.
pub fn copy_bytes(bytes: &[u8]) -> (copy: Vec<u8>)
    ensures
        copy@ == bytes@,
{
    slice_to_vec(bytes)
}

/// The text that the value of a text field encodes, or `InvalidString`
/// where the value is not UTF-8.
pub open spec fn text_of(bytes: Seq<u8>) -> Result<Seq<char>, DecodeError> {
    if valid_utf8(bytes) {
        Ok(decode_utf8(bytes))
    } else {
        Err(DecodeError::InvalidString)
    }
}

/// Reads the value of a text field.
pub fn read_text(bytes: &[u8]) -> (text: Result<String, DecodeError>)
    ensures
        match text {
            Ok(s) => text_of(bytes@) == Ok::<Seq<char>, DecodeError>(s@),
            Err(e) => text_of(bytes@) == Err::<Seq<char>, DecodeError>(e),
        },
{
    match string_from_utf8(copy_bytes(bytes)) {
        Some(s) => Ok(s),
        None => Err(DecodeError::InvalidString),
    }
}

/// The bytes of a length-delimited field `tag` with value `body`.
pub open spec fn delimited_field(tag: u32, body: Seq<u8>) -> Seq<u8> {
    varint_bytes(key_of(tag, WIRE_LENGTH_DELIMITED)) + varint_bytes(body.len() as int) + body
}

/// The bytes of a variable-length integer field `tag` with value `value`.
pub open spec fn varint_field(tag: u32, value: u64) -> Seq<u8> {
    varint_bytes(key_of(tag, WIRE_VARINT)) + varint_bytes(value as int)
}

/// The largest field number whose key fits 32 bits.
pub const MAX_TAG: u32 = 0x1FFF_FFFF;

/// A key that was written reads back as a key, whatever follows it.
proof fn lemma_key_reads_back(tag: u32, wire_type: u64, more: Seq<u8>)
    requires
        tag <= MAX_TAG,
        wire_type <= WIRE_THIRTY_TWO_BIT,
    ensures
        varint(varint_bytes(key_of(tag, wire_type)) + more) == Some(
            (key_of(tag, wire_type), varint_bytes(key_of(tag, wire_type)).len() as int),
        ),
        key_of(tag, wire_type) <= u32::MAX,
        key_of(tag, wire_type) % 8 == wire_type,
        key_of(tag, wire_type) / 8 == tag,
        (varint_bytes(key_of(tag, wire_type)) + more).skip(
            varint_bytes(key_of(tag, wire_type)).len() as int,
        ) == more,
{
    let key = key_of(tag, wire_type);
    lemma_varint_limit();
    lemma_varint_round_trip(key, 0);
    lemma_varint_prefix(varint_bytes(key), more, 0);
}

/// A variable-length integer field that was written reads back as the field
/// it is, whatever follows it.
pub proof fn lemma_varint_field_reads_back(tag: u32, value: u64, more: Seq<u8>)
    requires
        0 < tag <= MAX_TAG,
    ensures
        first_field(varint_field(tag, value) + more) == Ok::<Field, DecodeError>(
            Field {
                tag,
                value: FieldValue::Varint(value),
                len: varint_field(tag, value).len() as int,
            },
        ),
        (varint_field(tag, value) + more).skip(varint_field(tag, value).len() as int) == more,
{
    let key = varint_bytes(key_of(tag, WIRE_VARINT));
    let number = varint_bytes(value as int);
    assert(varint_field(tag, value) + more =~= key + (number + more));
    lemma_key_reads_back(tag, WIRE_VARINT, number + more);
    lemma_varint_limit();
    lemma_varint_round_trip(value as int, 0);
    lemma_varint_prefix(number, more, 0);
}

/// A length-delimited field that was written reads back as the field it is,
/// whatever follows it.
pub proof fn lemma_delimited_field_reads_back(tag: u32, body: Seq<u8>, more: Seq<u8>)
    requires
        0 < tag <= MAX_TAG,
        body.len() <= u64::MAX,
    ensures
        first_field(delimited_field(tag, body) + more) == Ok::<Field, DecodeError>(
            Field {
                tag,
                value: FieldValue::Bytes(body),
                len: delimited_field(tag, body).len() as int,
            },
        ),
        (delimited_field(tag, body) + more).skip(delimited_field(tag, body).len() as int) == more,
{
    let key = varint_bytes(key_of(tag, WIRE_LENGTH_DELIMITED));
    let length = varint_bytes(body.len() as int);
    assert(delimited_field(tag, body) + more =~= key + (length + (body + more)));
    lemma_key_reads_back(tag, WIRE_LENGTH_DELIMITED, length + (body + more));
    lemma_varint_limit();
    lemma_varint_round_trip(body.len() as int, 0);
    lemma_varint_prefix(length, body + more, 0);
    assert((length + (body + more)).subrange(length.len() as int, (length.len() + body.len()) as int)
        =~= body);
    assert((delimited_field(tag, body) + more).skip(delimited_field(tag, body).len() as int)
        =~= more);
}

/// Appends the key of field `tag` with wire type `wire_type` to `out`. The
/// key has to fit 64 bits.
pub fn write_key(tag: u32, wire_type: u64, out: &mut Vec<u8>)
    requires
        key_of(tag, wire_type) <= u64::MAX,
    ensures
        final(out)@ == old(out)@ + varint_bytes(key_of(tag, wire_type)),
{
    write_varint(tag as u64 * 8 + wire_type, out);
}

/// Appends a variable-length integer field to `out`.
pub fn write_varint_field(tag: u32, value: u64, out: &mut Vec<u8>)
    ensures
        final(out)@ == old(out)@ + varint_field(tag, value),
{
    write_key(tag, WIRE_VARINT, out);
    write_varint(value, out);
}

/// Appends a length-delimited field to `out`.
pub fn write_delimited_field(tag: u32, body: &[u8], out: &mut Vec<u8>)
    ensures
        final(out)@ == old(out)@ + delimited_field(tag, body@),
{
    write_key(tag, WIRE_LENGTH_DELIMITED, out);
    write_varint(body.len() as u64, out);
    let mut i: usize = 0;
    let ghost head = out@;
    while i < body.len()
        invariant
            i <= body@.len(),
            out@ == head + body@.take(i as int),
        decreases body@.len() - i,
    {
        out.push(body[i]);
        i += 1;
    }
}

} // verus!
