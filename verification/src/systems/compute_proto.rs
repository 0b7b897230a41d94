//! Reading numeric computed fields out of an encoded protobuf message:
//! fields numbered from a first number on, each a `fixed64` double.
use vstd::prelude::*;
use crate::sdk_core::error::SdkError;
use crate::sdk_core::pagination::str_eq;

verus! {

/// The field number of the first computed field of an output row.
pub const OUTPUT_ROW_COMPUTED_FIRST_FIELD_NUMBER: u32 = 21;

/// A base-128 varint read from `pos` on, each byte adding its low seven
/// bits at bit position `shift` while its high bit is set; `None` when the
/// bytes run out or ten groups pass without an end. Gives the value and the
/// position after it.
pub open spec fn varint_from(bytes: Seq<u8>, pos: int, shift: u64, acc: u64) -> Option<(u64, int)>
    decreases bytes.len() - pos,
{
    if pos < 0 || pos >= bytes.len() || shift >= 64 {
        None
    } else {
        let b = bytes[pos];
        let acc2 = acc | (((b & 0x7f) as u64) << shift);
        if b & 0x80 == 0 {
            Some((acc2, pos + 1))
        } else {
            varint_from(bytes, pos + 1, (shift + 7) as u64, acc2)
        }
    }
}

/// The varint at `pos`.
pub open spec fn varint_at(bytes: Seq<u8>, pos: int) -> Option<(u64, int)> {
    varint_from(bytes, pos, 0, 0)
}

/// Whether the double with these bits is finite (its exponent is not all ones).
pub open spec fn f64_bits_finite(bits: u64) -> bool {
    (bits / 0x10_0000_0000_0000) % 0x800 != 0x7ff
}

/// The little-endian `u64` in the eight bytes from `pos`.
pub open spec fn le_u64_at(bytes: Seq<u8>, pos: int) -> u64 {
    (bytes[pos] as int + bytes[pos + 1] as int * 0x100 + bytes[pos + 2] as int * 0x1_0000
        + bytes[pos + 3] as int * 0x100_0000 + bytes[pos + 4] as int * 0x1_0000_0000
        + bytes[pos + 5] as int * 0x100_0000_0000 + bytes[pos + 6] as int * 0x1_0000_0000_0000
        + bytes[pos + 7] as int * 0x100_0000_0000_0000) as u64
}

/// Why the computed fields of a message could not be read.
#[derive(Debug, Clone, Copy, PartialEq, Eq, Structural)]
pub enum ProtoReadFailure {
    InvalidVarint,
    TruncatedFixed64,
    TruncatedLengthDelimited,
    TruncatedFixed32,
    UnsupportedWireType(u8),
    /// The computed field with this index was not `fixed64`.
    ComputedWireType(u32, u8),
    /// The computed field with this index was cut short.
    ComputedTruncated(u32),
    /// The computed field with this index was not a finite double.
    ComputedNonFinite(u32),
}

/// The position after a value of `wire_type` that starts at `pos`, or why
/// it cannot be skipped: it is cut short, or the wire type is not one
/// protobuf uses here (0 varint, 1 fixed64, 2 length-delimited, 5 fixed32).
pub open spec fn skip_wire(bytes: Seq<u8>, pos: int, wire_type: u8) -> Result<int, ProtoReadFailure> {
    if wire_type == 0 {
        match varint_at(bytes, pos) {
            Some((_, next)) => Ok(next),
            None => Err(ProtoReadFailure::InvalidVarint),
        }
    } else if wire_type == 1 {
        if pos + 8 > bytes.len() { Err(ProtoReadFailure::TruncatedFixed64) } else { Ok(pos + 8) }
    } else if wire_type == 2 {
        match varint_at(bytes, pos) {
            Some((len, next)) => if next + (len as usize) > bytes.len() {
                Err(ProtoReadFailure::TruncatedLengthDelimited)
            } else {
                Ok(next + (len as usize))
            },
            None => Err(ProtoReadFailure::InvalidVarint),
        }
    } else if wire_type == 5 {
        if pos + 4 > bytes.len() { Err(ProtoReadFailure::TruncatedFixed32) } else { Ok(pos + 4) }
    } else {
        Err(ProtoReadFailure::UnsupportedWireType(wire_type))
    }
}

/// The digit of a wire type.
pub open spec fn wire_type_digit(w: u8) -> Seq<char> {
    if w == 0 {
        "0"@
    } else if w == 1 {
        "1"@
    } else if w == 2 {
        "2"@
    } else if w == 3 {
        "3"@
    } else if w == 4 {
        "4"@
    } else if w == 5 {
        "5"@
    } else if w == 6 {
        "6"@
    } else if w == 7 {
        "7"@
    } else {
        "?"@
    }
}

/// The message a failure is reported with, for a read in `context` with
/// these field names.
pub open spec fn failure_message(f: ProtoReadFailure, context: Seq<char>, names: Seq<Seq<char>>) -> Seq<char> {
    match f {
        ProtoReadFailure::InvalidVarint => context + " contained an invalid protobuf varint"@,
        ProtoReadFailure::TruncatedFixed64 => context + " contained a truncated fixed64 field"@,
        ProtoReadFailure::TruncatedLengthDelimited => context + " contained a truncated length-delimited field"@,
        ProtoReadFailure::TruncatedFixed32 => context + " contained a truncated fixed32 field"@,
        ProtoReadFailure::UnsupportedWireType(w) => context + " used unsupported protobuf wire type "@
            + wire_type_digit(w),
        ProtoReadFailure::ComputedWireType(i, w) => context + " computed field `"@ + names[i as int]
            + "` used unsupported wire type "@ + wire_type_digit(w),
        ProtoReadFailure::ComputedTruncated(i) => context + " truncated fixed64 payload for computed field `"@
            + names[i as int] + "`"@,
        ProtoReadFailure::ComputedNonFinite(i) => context + " computed field `"@ + names[i as int]
            + "` was non-finite"@,
    }
}

/// The computed fields found from `pos` on, as (index into the field
/// names, bits of the double) in message order; the first failure when the
/// message is malformed, a computed field is not `fixed64`, or a value is
/// not finite.
pub open spec fn computed_fields_from(bytes: Seq<u8>, pos: int, n_fields: nat, first: u32) -> Result<
    Seq<(nat, u64)>,
    ProtoReadFailure,
>
    decreases bytes.len() - pos,
{
    if pos < 0 || pos >= bytes.len() {
        Ok(Seq::empty())
    } else {
        match varint_at(bytes, pos) {
            None => Err(ProtoReadFailure::InvalidVarint),
            Some((key, p1)) => {
                let field_number = (key >> 3) as u32;
                let wire_type = (key & 7) as u8;
                if p1 <= pos {
                    Err(ProtoReadFailure::InvalidVarint)
                } else if field_number >= first && ((field_number - first) as nat) < n_fields {
                    let idx = (field_number - first) as u32;
                    if wire_type != 1 {
                        Err(ProtoReadFailure::ComputedWireType(idx, wire_type))
                    } else if p1 + 8 > bytes.len() {
                        Err(ProtoReadFailure::ComputedTruncated(idx))
                    } else {
                        let bits = le_u64_at(bytes, p1);
                        if !f64_bits_finite(bits) {
                            Err(ProtoReadFailure::ComputedNonFinite(idx))
                        } else {
                            match computed_fields_from(bytes, p1 + 8, n_fields, first) {
                                Ok(rest) => Ok(seq![(idx as nat, bits)] + rest),
                                Err(e) => Err(e),
                            }
                        }
                    }
                } else {
                    match skip_wire(bytes, p1, wire_type) {
                        Err(e) => Err(e),
                        Ok(p2) => if p2 <= pos || p2 > bytes.len() {
                            Err(ProtoReadFailure::InvalidVarint)
                        } else {
                            computed_fields_from(bytes, p2, n_fields, first)
                        },
                    }
                }
            },
        }
    }
}

proof fn lemma_varint_advances(bytes: Seq<u8>, pos: int, shift: u64, acc: u64)
    ensures
        varint_from(bytes, pos, shift, acc) matches Some((_, next)) ==> pos < next <= bytes.len(),
    decreases bytes.len() - pos,
{
    if pos < 0 || pos >= bytes.len() || shift >= 64 {
    } else {
        let b = bytes[pos];
        let acc2 = acc | (((b & 0x7f) as u64) << shift);
        if b & 0x80 != 0 {
            lemma_varint_advances(bytes, pos + 1, (shift + 7) as u64, acc2);
        }
    }
}

/// Reads the varint at `*cursor`, moving the cursor past it.
fn decode_varint(bytes: &Vec<u8>, cursor: &mut usize) -> (r: Result<u64, ProtoReadFailure>)
    requires
        *old(cursor) <= bytes@.len(),
    ensures
        match varint_at(bytes@, *old(cursor) as int) {
            Some((v, next)) => r == Ok::<u64, ProtoReadFailure>(v) && *final(cursor) == next,
            None => r == Err::<u64, ProtoReadFailure>(ProtoReadFailure::InvalidVarint),
        },
        *final(cursor) <= bytes@.len(),
{
    let mut value: u64 = 0;
    let mut shift: u64 = 0;
    let ghost start = *cursor as int;
    let n = bytes.len();
    while *cursor < n && shift < 64
        invariant
            n == bytes@.len(),
            *cursor <= n,
            shift <= 70,
            start == *old(cursor) as int,
            varint_at(bytes@, start) == varint_from(bytes@, *cursor as int, shift, value),
        decreases n - *cursor,
    {
        let ghost c = *cursor as int;
        let ghost old_value = value;
        let ghost old_shift = shift;
        let byte = bytes[*cursor];
        *cursor = *cursor + 1;
        value = value | (((byte & 0x7f) as u64) << shift);
        proof {
            assert(varint_from(bytes@, c, old_shift, old_value) == (if byte & 0x80 == 0 {
                Some((value, c + 1))
            } else {
                varint_from(bytes@, c + 1, (old_shift + 7) as u64, value)
            }));
        }
        if byte & 0x80 == 0 {
            assert(varint_at(bytes@, start) == Some((value, c + 1)));
            assert(start == *old(cursor) as int);
            return Ok(value);
        }
        shift = shift + 7;
    }
    proof {
        assert(varint_from(bytes@, *cursor as int, shift, value) is None);
    }
    Err(ProtoReadFailure::InvalidVarint)
}

/// Moves `*cursor` past a value of `wire_type`.
fn skip_wire_value(bytes: &Vec<u8>, cursor: &mut usize, wire_type: u8) -> (r: Result<(), ProtoReadFailure>)
    requires
        *old(cursor) <= bytes@.len(),
    ensures
        match skip_wire(bytes@, *old(cursor) as int, wire_type) {
            Ok(next) => r is Ok && *final(cursor) == next,
            Err(e) => r == Err::<(), ProtoReadFailure>(e),
        },
        *final(cursor) <= bytes@.len(),
{
    if wire_type == 0 {
        let _ = decode_varint(bytes, cursor)?;
        Ok(())
    } else if wire_type == 1 {
        if bytes.len() - *cursor < 8 {
            return Err(ProtoReadFailure::TruncatedFixed64);
        }
        *cursor = *cursor + 8;
        Ok(())
    } else if wire_type == 2 {
        let len = decode_varint(bytes, cursor)? as usize;
        if len > bytes.len() - *cursor {
            return Err(ProtoReadFailure::TruncatedLengthDelimited);
        }
        *cursor = *cursor + len;
        Ok(())
    } else if wire_type == 5 {
        if bytes.len() - *cursor < 4 {
            return Err(ProtoReadFailure::TruncatedFixed32);
        }
        *cursor = *cursor + 4;
        Ok(())
    } else {
        Err(ProtoReadFailure::UnsupportedWireType(wire_type))
    }
}

/// The little-endian `u64` at `pos`.
fn read_le_u64(bytes: &Vec<u8>, pos: usize) -> (r: u64)
    requires
        pos + 8 <= bytes@.len(),
    ensures
        r == le_u64_at(bytes@, pos as int),
{
    let n = bytes.len();
    assert(pos + 8 <= n);
    let b0 = bytes[pos] as u64;
    let b1 = bytes[pos + 1] as u64;
    let b2 = bytes[pos + 2] as u64;
    let b3 = bytes[pos + 3] as u64;
    let b4 = bytes[pos + 4] as u64;
    let b5 = bytes[pos + 5] as u64;
    let b6 = bytes[pos + 6] as u64;
    let b7 = bytes[pos + 7] as u64;
    b0 + b1 * 0x100 + b2 * 0x1_0000 + b3 * 0x100_0000 + b4 * 0x1_0000_0000 + b5
        * 0x100_0000_0000 + b6 * 0x1_0000_0000_0000 + b7 * 0x100_0000_0000_0000
}

/// Whether the double with these bits is finite.
fn bits_finite(bits: u64) -> (r: bool)
    ensures
        r == f64_bits_finite(bits),
{
    (bits / 0x10_0000_0000_0000) % 0x800 != 0x7ff
}

/// `done` followed by what `rest` found, or the failure of `rest`.
pub open spec fn prefix_with(done: Seq<(nat, u64)>, rest: Result<Seq<(nat, u64)>, ProtoReadFailure>) -> Result<
    Seq<(nat, u64)>,
    ProtoReadFailure,
> {
    match rest {
        Ok(r) => Ok(done + r),
        Err(e) => Err(e),
    }
}

proof fn lemma_skip_advances(bytes: Seq<u8>, pos: int, wire_type: u8)
    requires
        0 <= pos,
    ensures
        skip_wire(bytes, pos, wire_type) matches Ok(next) ==> pos < next <= bytes.len(),
{
    lemma_varint_advances(bytes, pos, 0, 0);
}

/// The computed fields of an encoded message, or the first failure.
fn read_computed_fields(
    message_bytes: &Vec<u8>,
    field_names: &Vec<String>,
    first_field_number: u32,
) -> (r: Result<Vec<(String, u64)>, ProtoReadFailure>)
    ensures
        match computed_fields_from(message_bytes@, 0, field_names@.len(), first_field_number) {
            Ok(fields) => r matches Ok(v) && v@.len() == fields.len() && forall|k: int|
                0 <= k < fields.len() ==> (#[trigger] v@[k]).0@ == field_names@[fields[k].0 as int]@
                    && v@[k].1 == fields[k].1,
            Err(e) => r == Err::<Vec<(String, u64)>, ProtoReadFailure>(e),
        },
{
    let ghost bytes = message_bytes@;
    let ghost n = field_names@.len();
    let mut fields: Vec<(String, u64)> = Vec::new();
    let mut cursor: usize = 0;
    let ghost mut done: Seq<(nat, u64)> = Seq::empty();
    let len = message_bytes.len();
    proof {
        let all = computed_fields_from(bytes, 0, n, first_field_number);
        match all {
            Ok(r) => {
                assert(done + r =~= r);
            },
            Err(_) => {},
        }
        assert(prefix_with(done, all) == all);
    }
    while cursor < len
        invariant
            len == bytes.len(),
            cursor <= len,
            bytes == message_bytes@,
            n == field_names@.len(),
            fields@.len() == done.len(),
            forall|k: int|
                0 <= k < done.len() ==> (#[trigger] fields@[k]).0@ == field_names@[done[k].0 as int]@
                    && fields@[k].1 == done[k].1,
            computed_fields_from(bytes, 0, n, first_field_number) == prefix_with(
                done,
                computed_fields_from(bytes, cursor as int, n, first_field_number),
            ),
        decreases len - cursor,
    {
        let ghost pos = cursor as int;
        proof {
            lemma_varint_advances(bytes, pos, 0, 0);
        }
        let key = decode_varint(message_bytes, &mut cursor)?;
        let ghost p1 = cursor as int;
        let field_number: u32 = #[verifier::truncate] ((key >> 3) as u32);
        assert(key & 7 < 8) by (bit_vector);
        let wire_type = (key & 7) as u8;
        if field_number >= first_field_number && ((field_number - first_field_number) as usize)
            < field_names.len() {
            let index = (field_number - first_field_number) as usize;
            let idx: u32 = field_number - first_field_number;
            if wire_type != 1 {
                return Err(ProtoReadFailure::ComputedWireType(idx, wire_type));
            }
            if len - cursor < 8 {
                return Err(ProtoReadFailure::ComputedTruncated(idx));
            }
            let bits = read_le_u64(message_bytes, cursor);
            cursor = cursor + 8;
            if !bits_finite(bits) {
                return Err(ProtoReadFailure::ComputedNonFinite(idx));
            }
            let name = field_names[index].clone();
            fields.push((name, bits));
            proof {
                let entry = (index as nat, bits);
                let rest = computed_fields_from(bytes, cursor as int, n, first_field_number);
                assert(computed_fields_from(bytes, pos, n, first_field_number) == prefix_with(
                    seq![entry],
                    rest,
                ));
                let old_done = done;
                done = done.push(entry);
                if rest is Ok {
                    assert(old_done + (seq![entry] + rest.unwrap()) =~= done + rest.unwrap());
                }
                assert(fields@[done.len() - 1].0@ == field_names@[done[done.len() - 1].0 as int]@);
            }
        } else {
            proof {
                lemma_skip_advances(bytes, p1, wire_type);
            }
            skip_wire_value(message_bytes, &mut cursor, wire_type)?;
            proof {
                assert(computed_fields_from(bytes, pos, n, first_field_number)
                    == computed_fields_from(bytes, cursor as int, n, first_field_number));
            }
        }
    }
    proof {
        assert(done + Seq::<(nat, u64)>::empty() =~= done);
    }
    Ok(fields)
}

/// The digit of a wire type below eight.
fn wire_type_text(w: u8) -> (r: &'static str)
    ensures
        r@ == wire_type_digit(w),
{
    match w {
        0 => "0",
        1 => "1",
        2 => "2",
        3 => "3",
        4 => "4",
        5 => "5",
        6 => "6",
        7 => "7",
        _ => "?",
    }
}

/// The error a failure is reported with.
fn failure_error(f: ProtoReadFailure, context: &str, field_names: &Vec<String>) -> (r: SdkError)
    requires
        match f {
            ProtoReadFailure::ComputedWireType(i, _) => i < field_names@.len(),
            ProtoReadFailure::ComputedTruncated(i) => i < field_names@.len(),
            ProtoReadFailure::ComputedNonFinite(i) => i < field_names@.len(),
            _ => true,
        },
    ensures
        r matches SdkError::ContractDrift { message } && message@ == failure_message(
            f,
            context@,
            field_names.deep_view(),
        ),
{
    let c = String::from_str(context);
    let message = match f {
        ProtoReadFailure::InvalidVarint => c.concat(" contained an invalid protobuf varint"),
        ProtoReadFailure::TruncatedFixed64 => c.concat(" contained a truncated fixed64 field"),
        ProtoReadFailure::TruncatedLengthDelimited => c.concat(" contained a truncated length-delimited field"),
        ProtoReadFailure::TruncatedFixed32 => c.concat(" contained a truncated fixed32 field"),
        ProtoReadFailure::UnsupportedWireType(w) => c.concat(" used unsupported protobuf wire type ").concat(
            wire_type_text(w),
        ),
        ProtoReadFailure::ComputedWireType(i, w) => c.concat(" computed field `").concat(
            field_names[i as usize].as_str(),
        ).concat("` used unsupported wire type ").concat(wire_type_text(w)),
        ProtoReadFailure::ComputedTruncated(i) => c.concat(" truncated fixed64 payload for computed field `").concat(
            field_names[i as usize].as_str(),
        ).concat("`"),
        ProtoReadFailure::ComputedNonFinite(i) => c.concat(" computed field `").concat(
            field_names[i as usize].as_str(),
        ).concat("` was non-finite"),
    };
    SdkError::contract_drift(message)
}

/// A failure names a computed field only by an index below the number of
/// names.
spec fn failure_index_ok(f: ProtoReadFailure, n: nat) -> bool {
    match f {
        ProtoReadFailure::ComputedWireType(i, _) => i < n,
        ProtoReadFailure::ComputedTruncated(i) => i < n,
        ProtoReadFailure::ComputedNonFinite(i) => i < n,
        _ => true,
    }
}

/// Every field read names one of the `n` computed fields.
proof fn lemma_field_indices_in_range(bytes: Seq<u8>, pos: int, n: nat, first: u32)
    ensures
        computed_fields_from(bytes, pos, n, first) matches Ok(fields) ==> forall|k: int|
            0 <= k < fields.len() ==> #[trigger] fields[k].0 < n,
    decreases bytes.len() - pos,
{
    if pos < 0 || pos >= bytes.len() {
    } else {
        match varint_at(bytes, pos) {
            None => {},
            Some((key, p1)) => {
                let field_number = (key >> 3) as u32;
                let wire_type = (key & 7) as u8;
                if p1 <= pos {
                } else if field_number >= first && ((field_number - first) as nat) < n {
                    if wire_type == 1 && p1 + 8 <= bytes.len() && f64_bits_finite(le_u64_at(bytes, p1)) {
                        lemma_field_indices_in_range(bytes, p1 + 8, n, first);
                        let idx = (field_number - first) as u32;
                        if let Ok(rest) = computed_fields_from(bytes, p1 + 8, n, first) {
                            let all = seq![(idx as nat, le_u64_at(bytes, p1))] + rest;
                            assert forall|k: int| 0 <= k < all.len() implies #[trigger] all[k].0 < n by {
                                if k > 0 {
                                    assert(all[k] == rest[k - 1]);
                                }
                            }
                        }
                    }
                } else {
                    match skip_wire(bytes, p1, wire_type) {
                        Err(_) => {},
                        Ok(p2) => if p2 <= pos || p2 > bytes.len() {
                        } else {
                            lemma_field_indices_in_range(bytes, p2, n, first);
                        },
                    }
                }
            },
        }
    }
}

proof fn lemma_failure_index_ok(bytes: Seq<u8>, pos: int, n: nat, first: u32)
    ensures
        computed_fields_from(bytes, pos, n, first) matches Err(f) ==> failure_index_ok(f, n),
    decreases bytes.len() - pos,
{
    if pos < 0 || pos >= bytes.len() {
    } else {
        match varint_at(bytes, pos) {
            None => {},
            Some((key, p1)) => {
                let field_number = (key >> 3) as u32;
                let wire_type = (key & 7) as u8;
                if p1 <= pos {
                } else if field_number >= first && ((field_number - first) as nat) < n {
                    if wire_type == 1 && p1 + 8 <= bytes.len() && f64_bits_finite(le_u64_at(bytes, p1)) {
                        lemma_failure_index_ok(bytes, p1 + 8, n, first);
                    }
                } else {
                    match skip_wire(bytes, p1, wire_type) {
                        Err(_) => {},
                        Ok(p2) => if p2 <= pos || p2 > bytes.len() {
                        } else {
                            lemma_failure_index_ok(bytes, p2, n, first);
                        },
                    }
                }
            },
        }
    }
}

/// The (name, bits) pairs of read fields, by the names' views.
pub open spec fn pairs_view(v: Seq<(String, u64)>) -> Seq<(Seq<char>, u64)> {
    Seq::new(v.len(), |k: int| (v[k].0@, v[k].1))
}

/// Whether no name occurs twice.
pub open spec fn names_distinct(s: Seq<(Seq<char>, u64)>) -> bool {
    forall|i: int, j: int| 0 <= i < j < s.len() ==> #[trigger] s[i].0 != #[trigger] s[j].0
}

/// One field taken into fields keyed by name: a name seen before keeps its
/// place and takes the new value; a new name comes last.
pub open spec fn merge_one(acc: Seq<(Seq<char>, u64)>, e: (Seq<char>, u64)) -> Seq<(Seq<char>, u64)> {
    if exists|i: int| 0 <= i < acc.len() && #[trigger] acc[i].0 == e.0 {
        acc.update(choose|i: int| 0 <= i < acc.len() && #[trigger] acc[i].0 == e.0, e)
    } else {
        acc.push(e)
    }
}

/// Fields in message order taken into fields keyed by name: each name
/// once, where it first occurs, with the value it last had.
pub open spec fn merge_fields(s: Seq<(Seq<char>, u64)>) -> Seq<(Seq<char>, u64)>
    decreases s.len(),
{
    if s.len() == 0 {
        Seq::empty()
    } else {
        merge_one(merge_fields(s.drop_last()), s.last())
    }
}

proof fn lemma_merge_one_distinct(acc: Seq<(Seq<char>, u64)>, e: (Seq<char>, u64))
    requires
        names_distinct(acc),
    ensures
        names_distinct(merge_one(acc, e)),
{
    if exists|i: int| 0 <= i < acc.len() && #[trigger] acc[i].0 == e.0 {
        let j = choose|i: int| 0 <= i < acc.len() && #[trigger] acc[i].0 == e.0;
        let r = acc.update(j, e);
        assert forall|a: int, b: int| 0 <= a < b < r.len() implies #[trigger] r[a].0 != #[trigger] r[b].0 by {
            assert(acc[a].0 != acc[b].0);
        }
    } else {
        let r = acc.push(e);
        assert forall|a: int, b: int| 0 <= a < b < r.len() implies #[trigger] r[a].0 != #[trigger] r[b].0 by {
            if b == acc.len() {
                assert(r[a].0 == acc[a].0);
            } else {
                assert(acc[a].0 != acc[b].0);
            }
        }
    }
}

/// Fields keyed by name hold each name once.
pub proof fn law_merged_names_distinct(s: Seq<(Seq<char>, u64)>)
    ensures
        names_distinct(merge_fields(s)),
    decreases s.len(),
{
    if s.len() > 0 {
        law_merged_names_distinct(s.drop_last());
        lemma_merge_one_distinct(merge_fields(s.drop_last()), s.last());
    }
}

/// The read fields with their names.
pub open spec fn named_fields(names: Seq<Seq<char>>, fields: Seq<(nat, u64)>) -> Seq<(Seq<char>, u64)> {
    Seq::new(fields.len(), |k: int| (names[fields[k].0 as int], fields[k].1))
}

/// Takes read fields into fields keyed by name, in order.
fn merge_by_name(v: Vec<(String, u64)>) -> (r: Vec<(String, u64)>)
    ensures
        pairs_view(r@) == merge_fields(pairs_view(v@)),
        names_distinct(pairs_view(r@)),
{
    let ghost orig = pairs_view(v@);
    let mut out: Vec<(String, u64)> = Vec::new();
    let mut rest = v;
    let n = rest.len();
    let mut k: usize = 0;
    while k < n
        invariant
            n == orig.len(),
            k <= n,
            pairs_view(rest@) == orig.subrange(k as int, n as int),
            pairs_view(out@) == merge_fields(orig.subrange(0, k as int)),
            names_distinct(pairs_view(out@)),
        decreases n - k,
    {
        assert(pairs_view(rest@).len() == rest@.len());
        let ghost old_rest = rest@;
        let e = rest.remove(0);
        let ghost ev = (e.0@, e.1);
        assert(pairs_view(old_rest)[0] == ev);
        assert(ev == orig[k as int]);
        assert forall|i: int| 0 <= i < rest@.len() implies #[trigger] pairs_view(rest@)[i] == orig[k + 1 + i] by {
            assert(rest@[i] == old_rest[i + 1]);
            assert(pairs_view(old_rest)[i + 1] == orig[k + 1 + i]);
        }
        assert(pairs_view(rest@) =~= orig.subrange(k as int + 1, n as int));
        let ghost acc = pairs_view(out@);
        assert(orig.subrange(0, k as int + 1).drop_last() =~= orig.subrange(0, k as int));
        let mut j: usize = 0;
        let mut found = false;
        while j < out.len()
            invariant_except_break
                !found,
            invariant
                j <= out.len(),
                acc == pairs_view(out@),
                forall|i: int| 0 <= i < j ==> #[trigger] acc[i].0 != ev.0,
                ev == (e.0@, e.1),
            ensures
                found ==> j < out.len() && acc[j as int].0 == ev.0,
                !found ==> forall|i: int| 0 <= i < acc.len() ==> #[trigger] acc[i].0 != ev.0,
            decreases out.len() - j,
        {
            if str_eq(out[j].0.as_str(), e.0.as_str()) {
                found = true;
                assert(acc[j as int].0 == out@[j as int].0@);
                break;
            }
            j = j + 1;
        }
        proof {
            lemma_merge_one_distinct(acc, ev);
        }
        if found {
            proof {
                assert(acc[j as int].0 == ev.0);
                assert forall|c: int| 0 <= c < acc.len() && #[trigger] acc[c].0 == ev.0 implies c == j by {
                    if c != j {
                        if c < j {
                            assert(acc[c].0 != acc[j as int].0);
                        } else {
                            assert(acc[j as int].0 != acc[c].0);
                        }
                    }
                }
            }
            out.set(j, e);
            proof {
                assert(pairs_view(out@) =~= acc.update(j as int, ev));
            }
        } else {
            out.push(e);
            proof {
                assert(pairs_view(out@) =~= acc.push(ev));
            }
        }
        k = k + 1;
    }
    assert(orig.subrange(0, n as int) =~= orig);
    out
}

/// The numeric computed fields of an encoded message: each field numbered
/// `first_field_number + i` for a name `field_names[i]` must be a finite
/// `fixed64` double; other fields are skipped. Gives (name, bits of the
/// double) keyed by name: each name once, where it first occurs, with the
/// value it last had. The first failure is contract drift, reported with
/// `context`.
pub fn extract_numeric_computed_fields_from_message(
    message_bytes: &Vec<u8>,
    field_names: &Vec<String>,
    first_field_number: u32,
    context: &str,
) -> (r: Result<Vec<(String, u64)>, SdkError>)
    ensures
        match computed_fields_from(message_bytes@, 0, field_names@.len(), first_field_number) {
            Ok(fields) => r matches Ok(v) && pairs_view(v@) == merge_fields(
                named_fields(field_names.deep_view(), fields),
            ) && names_distinct(pairs_view(v@)),
            Err(f) => r matches Err(SdkError::ContractDrift { message }) && message@ == failure_message(
                f,
                context@,
                field_names.deep_view(),
            ),
        },
{
    proof {
        lemma_failure_index_ok(message_bytes@, 0, field_names@.len(), first_field_number);
    }
    match read_computed_fields(message_bytes, field_names, first_field_number) {
        Ok(v) => {
            proof {
                lemma_field_indices_in_range(message_bytes@, 0, field_names@.len(), first_field_number);
                if let Ok(fields) = computed_fields_from(message_bytes@, 0, field_names@.len(), first_field_number) {
                    assert forall|k: int| 0 <= k < fields.len() implies #[trigger] pairs_view(v@)[k]
                        == named_fields(field_names.deep_view(), fields)[k] by {
                        assert(fields[k].0 < field_names@.len());
                    }
                    assert(pairs_view(v@) =~= named_fields(field_names.deep_view(), fields));
                }
            }
            Ok(merge_by_name(v))
        },
        Err(f) => Err(failure_error(f, context, field_names)),
    }
}


/// How one field of a message is read, wherever it stands: a field numbered
/// for a computed value must be `fixed64` (wire type 1) with its eight bytes
/// present and a finite double, and is then read as those bytes in
/// little-endian order, in front of the fields after it; a `fixed64` field
/// numbered for nothing computed is skipped.
pub proof fn law_computed_field_read(bytes: Seq<u8>, pos: int, n: nat, first: u32, key: u64, after_key: int)
    requires
        0 <= pos < bytes.len(),
        varint_at(bytes, pos) == Some((key, after_key)),
        after_key > pos,
    ensures
        ({
            let field_number = (key >> 3) as u32;
            let wire_type = (key & 7) as u8;
            let computed = field_number >= first && ((field_number - first) as nat) < n;
            let idx = (field_number - first) as u32;
            let r = computed_fields_from(bytes, pos, n, first);
            &&& (computed && wire_type != 1 ==> r == Err::<Seq<(nat, u64)>, ProtoReadFailure>(
                ProtoReadFailure::ComputedWireType(idx, wire_type),
            ))
            &&& (computed && wire_type == 1 && after_key + 8 > bytes.len() ==> r == Err::<
                Seq<(nat, u64)>,
                ProtoReadFailure,
            >(ProtoReadFailure::ComputedTruncated(idx)))
            &&& (computed && wire_type == 1 && after_key + 8 <= bytes.len() && (le_u64_at(bytes, after_key)
                / 0x10_0000_0000_0000) % 0x800 == 0x7ff ==> r == Err::<Seq<(nat, u64)>, ProtoReadFailure>(
                ProtoReadFailure::ComputedNonFinite(idx),
            ))
            &&& (computed && wire_type == 1 && after_key + 8 <= bytes.len() && (le_u64_at(bytes, after_key)
                / 0x10_0000_0000_0000) % 0x800 != 0x7ff ==> match computed_fields_from(bytes, after_key + 8, n, first) {
                Ok(rest) => r == Ok::<Seq<(nat, u64)>, ProtoReadFailure>(
                    seq![(idx as nat, le_u64_at(bytes, after_key))] + rest,
                ),
                Err(e) => r == Err::<Seq<(nat, u64)>, ProtoReadFailure>(e),
            })
            &&& (!computed && wire_type == 1 && after_key + 8 <= bytes.len() ==> r == computed_fields_from(
                bytes,
                after_key + 8,
                n,
                first,
            ))
        }),
{
}

} // verus!
