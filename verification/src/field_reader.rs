//! Primitive reads from a byte buffer: whole bytes at a byte offset, and
//! groups of bits inside one byte or one two-byte span, most significant
//! bit first.

use crate::error::DecodeError;
use bitreader::BitReader;
use bitreader::BitReaderError;
use vstd::prelude::*;

verus! {

/// `bitreader::BitReader`, a cursor over the bits of a byte slice. Nothing is
/// known of a reader but what `pending_bits` says of it.
#[verifier::external_type_specification]
#[verifier::external_body]
pub struct ExBitReader<'a>(BitReader<'a>);

/// `bitreader::BitReaderError`, the reason why a read failed. Nothing is read
/// from it.
#[verifier::external_type_specification]
#[verifier::external_body]
pub struct ExBitReaderError(BitReaderError);

/// The bits that a reader has not consumed yet, in reading order: what the
/// reader holds, as far as this library is concerned.
pub uninterp spec fn pending_bits(reader: BitReader) -> Seq<bool>;

/// Bit `i` of a byte buffer, counted from the most significant bit of the
/// first byte.
pub open spec fn bit_at(bytes: Seq<u8>, i: int) -> bool {
    (bytes[i / 8] as int / place_value(7 - i % 8)) % 2 == 1
}

/// Two to the power `k`, for the bit positions of one byte.
pub open spec fn place_value(k: int) -> int {
    if k <= 0 {
        1
    } else if k == 1 {
        2
    } else if k == 2 {
        4
    } else if k == 3 {
        8
    } else if k == 4 {
        16
    } else if k == 5 {
        32
    } else if k == 6 {
        64
    } else {
        128
    }
}

/// All bits of a byte buffer, the most significant bit of each byte first.
pub open spec fn bits_of(bytes: Seq<u8>) -> Seq<bool> {
    Seq::new(8 * bytes.len(), |i: int| bit_at(bytes, i))
}

/// The unsigned number that a run of bits spells, first bit most significant.
pub open spec fn bits_value(bits: Seq<bool>) -> nat
    decreases bits.len(),
{
    if bits.len() == 0 {
        0
    } else {
        2 * bits_value(bits.drop_last()) + if bits.last() {
            1nat
        } else {
            0nat
        }
    }
}

/// `BitReader::new`: a new reader has every bit of the slice pending, from
/// the most significant bit of the first byte on. The slice must be short
/// enough for every bit position, and a read past it, to fit in 64 bits.
pub assume_specification<'a>[ BitReader::<'a>::new ](bytes: &'a [u8]) -> (reader: BitReader<'a>)
    requires
        bytes@.len() < 0x1000_0000_0000_0000,
    ensures
        pending_bits(reader) == bits_of(bytes@),
;

/// `BitReader::read_u8`: succeeds exactly if at most eight bits are asked for
/// and that many are pending; it then consumes them and returns the number
/// they spell. A failed read consumes nothing.
pub assume_specification<'a>[ BitReader::<'a>::read_u8 ](reader: &mut BitReader<'a>, bit_count: u8) -> (result: Result<u8, BitReaderError>)
    ensures
        match result {
            Ok(value) => bit_count <= 8 && bit_count <= pending_bits(*old(reader)).len() && value
                == bits_value(pending_bits(*old(reader)).take(bit_count as int))
                && pending_bits(*final(reader)) == pending_bits(*old(reader)).skip(
                bit_count as int,
            ),
            Err(_) => (bit_count > 8 || bit_count > pending_bits(*old(reader)).len())
                && pending_bits(*final(reader)) == pending_bits(*old(reader)),
        },
;

/// `BitReader::peek_u16`: succeeds exactly if at most sixteen bits are asked
/// for and that many are pending; it returns the number they spell and
/// consumes nothing.
pub assume_specification<'a>[ BitReader::<'a>::peek_u16 ](reader: &BitReader<'a>, bit_count: u8) -> (result: Result<u16, BitReaderError>)
    ensures
        match result {
            Ok(value) => bit_count <= 16 && bit_count <= pending_bits(*reader).len() && value
                == bits_value(pending_bits(*reader).take(bit_count as int)),
            Err(_) => bit_count > 16 || bit_count > pending_bits(*reader).len(),
        },
;

/// The number a single bit stands for.
pub open spec fn bit_number(bit: bool) -> nat {
    if bit {
        1
    } else {
        0
    }
}

/// The number that bit `i` of a byte stands for, counted from the most
/// significant bit.
pub open spec fn byte_bit(b: u8, i: int) -> nat {
    bit_number(bit_at(seq![b], i))
}

/// `n` bytes that are all zero.
pub open spec fn zeros(n: nat) -> Seq<u8> {
    Seq::new(n, |i: int| 0u8)
}

/// The number that two bytes spell, the first one most significant.
pub open spec fn be16(bytes: Seq<u8>) -> nat {
    (256 * bytes[0] + bytes[1]) as nat
}

/// The number that four bytes spell, the first one most significant.
pub open spec fn be32(bytes: Seq<u8>) -> nat {
    (16777216 * bytes[0] + 65536 * bytes[1] + 256 * bytes[2] + bytes[3]) as nat
}

/// One more bit at the end of a run doubles its value and adds the bit.
pub proof fn lemma_bits_value_step(bits: Seq<bool>, k: int)
    requires
        0 <= k < bits.len(),
    ensures
        bits_value(bits.take(k + 1)) == 2 * bits_value(bits.take(k)) + bit_number(bits[k]),
{
    let run = bits.take(k + 1);
    assert(run.drop_last() =~= bits.take(k));
    assert(run.last() == bits[k]);
}

/// The value of the first one, two, three and four bits of a run.
pub proof fn lemma_bits_value_short(bits: Seq<bool>)
    ensures
        1 <= bits.len() ==> bits_value(bits.take(1)) == bit_number(bits[0]),
        2 <= bits.len() ==> bits_value(bits.take(2)) == 2 * bit_number(bits[0]) + bit_number(
            bits[1],
        ),
        3 <= bits.len() ==> bits_value(bits.take(3)) == 4 * bit_number(bits[0]) + 2 * bit_number(
            bits[1],
        ) + bit_number(bits[2]),
        4 <= bits.len() ==> bits_value(bits.take(4)) == 8 * bit_number(bits[0]) + 4 * bit_number(
            bits[1],
        ) + 2 * bit_number(bits[2]) + bit_number(bits[3]),
{
    assert(bits_value(bits.take(0)) == 0);
    if 1 <= bits.len() {
        lemma_bits_value_step(bits, 0);
    }
    if 2 <= bits.len() {
        lemma_bits_value_step(bits, 1);
    }
    if 3 <= bits.len() {
        lemma_bits_value_step(bits, 2);
    }
    if 4 <= bits.len() {
        lemma_bits_value_step(bits, 3);
    }
}

/// The value of the first eight bits of a run.
pub proof fn lemma_bits_value_8(bits: Seq<bool>)
    requires
        8 <= bits.len(),
    ensures
        bits_value(bits.take(8)) == 128 * bit_number(bits[0]) + 64 * bit_number(bits[1]) + 32
            * bit_number(bits[2]) + 16 * bit_number(bits[3]) + 8 * bit_number(bits[4]) + 4
            * bit_number(bits[5]) + 2 * bit_number(bits[6]) + bit_number(bits[7]),
{
    lemma_bits_value_short(bits);
    lemma_bits_value_step(bits, 4);
    lemma_bits_value_step(bits, 5);
    lemma_bits_value_step(bits, 6);
    lemma_bits_value_step(bits, 7);
}

/// A run of sixteen bits is worth 256 times its first eight bits plus its
/// last eight.
pub proof fn lemma_bits_value_16(bits: Seq<bool>)
    requires
        16 <= bits.len(),
    ensures
        bits_value(bits.take(16)) == 256 * bits_value(bits.take(8)) + bits_value(
            bits.skip(8).take(8),
        ),
{
    let low = bits.skip(8);
    lemma_bits_value_8(low);
    lemma_bits_value_step(bits, 8);
    lemma_bits_value_step(bits, 9);
    lemma_bits_value_step(bits, 10);
    lemma_bits_value_step(bits, 11);
    lemma_bits_value_step(bits, 12);
    lemma_bits_value_step(bits, 13);
    lemma_bits_value_step(bits, 14);
    lemma_bits_value_step(bits, 15);
}

/// The bits of one byte, written with shifts of the byte itself.
pub proof fn lemma_byte_bits(b: u8)
    ensures
        bits_of(seq![b]).len() == 8,
        forall|i: int| 0 <= i < 8 ==> bits_of(seq![b])[i] == bit_at(seq![b], i),
        byte_bit(b, 0) == b / 128,
        byte_bit(b, 1) == b / 64 % 2,
        byte_bit(b, 2) == b / 32 % 2,
        byte_bit(b, 3) == b / 16 % 2,
        byte_bit(b, 4) == b / 8 % 2,
        byte_bit(b, 5) == b / 4 % 2,
        byte_bit(b, 6) == b / 2 % 2,
        byte_bit(b, 7) == b % 2,
{
    assert(seq![b][0] == b);
}

/// The two four-bit halves of one byte, as the bit reader delivers them.
pub proof fn lemma_nibble_bits(b: u8)
    ensures
        bits_of(seq![b]).len() == 8,
        bits_value(bits_of(seq![b]).take(4)) == b / 16,
        bits_value(bits_of(seq![b]).skip(4).take(4)) == b % 16,
{
    let bits = bits_of(seq![b]);
    lemma_byte_bits(b);
    lemma_bits_value_short(bits);
    lemma_bits_value_short(bits.skip(4));
    assert(8 * (b / 128) + 4 * (b / 64 % 2) + 2 * (b / 32 % 2) + (b / 16 % 2) == b / 16)
        by (bit_vector);
    assert(8 * (b / 8 % 2) + 4 * (b / 4 % 2) + 2 * (b / 2 % 2) + (b % 2) == b % 16)
        by (bit_vector);
}

/// The five bit groups of a service byte, three, one, one, one and two bits
/// wide, as the bit reader delivers them one after the other.
pub proof fn lemma_service_bits(b: u8)
    ensures
        bits_of(seq![b]).len() == 8,
        bits_value(bits_of(seq![b]).take(3)) == b / 32,
        bits_value(bits_of(seq![b]).skip(3).take(1)) == b / 16 % 2,
        bits_value(bits_of(seq![b]).skip(3).skip(1).take(1)) == b / 8 % 2,
        bits_value(bits_of(seq![b]).skip(3).skip(1).skip(1).take(1)) == b / 4 % 2,
        bits_value(bits_of(seq![b]).skip(3).skip(1).skip(1).skip(1).take(2)) == b % 4,
{
    let bits = bits_of(seq![b]);
    lemma_byte_bits(b);
    assert(bits.skip(3).skip(1) =~= bits.skip(4));
    assert(bits.skip(4).skip(1) =~= bits.skip(5));
    assert(bits.skip(5).skip(1) =~= bits.skip(6));
    lemma_bits_value_short(bits);
    lemma_bits_value_short(bits.skip(3));
    lemma_bits_value_short(bits.skip(4));
    lemma_bits_value_short(bits.skip(5));
    lemma_bits_value_short(bits.skip(6));
    assert(4 * (b / 128) + 2 * (b / 64 % 2) + (b / 32 % 2) == b / 32) by (bit_vector);
    assert(2 * (b / 2 % 2) + (b % 2) == b % 4) by (bit_vector);
}

/// The first three bits of a two-byte span one by one, and all sixteen bits
/// of the span as one number, as the bit reader delivers them.
pub proof fn lemma_span_bits(b0: u8, b1: u8)
    ensures
        bits_of(seq![b0, b1]).len() == 16,
        bits_value(bits_of(seq![b0, b1]).take(1)) == b0 / 128,
        bits_value(bits_of(seq![b0, b1]).skip(1).take(1)) == b0 / 64 % 2,
        bits_value(bits_of(seq![b0, b1]).skip(1).skip(1).take(1)) == b0 / 32 % 2,
        bits_value(bits_of(seq![b0, b1]).take(16)) == 256 * b0 + b1,
{
    let pair = seq![b0, b1];
    let bits = bits_of(pair);
    lemma_byte_bits(b0);
    lemma_byte_bits(b1);
    assert(pair[0] == b0 && pair[1] == b1);
    assert forall|i: int| 0 <= i < 8 implies bits[i] == bit_at(seq![b0], i) && bits.skip(8)[i]
        == bit_at(seq![b1], i) by {
        assert(seq![b0][0] == b0);
        assert(seq![b1][0] == b1);
        assert((8 + i) / 8 == 1 && (8 + i) % 8 == i);
    }
    assert(bits.skip(1).skip(1) =~= bits.skip(2));
    lemma_bits_value_short(bits);
    lemma_bits_value_short(bits.skip(1));
    lemma_bits_value_short(bits.skip(2));
    lemma_bits_value_8(bits);
    lemma_bits_value_8(bits.skip(8));
    lemma_bits_value_16(bits);
    assert(128 * (b0 / 128) + 64 * (b0 / 64 % 2) + 32 * (b0 / 32 % 2) + 16 * (b0 / 16 % 2) + 8 * (
    b0 / 8 % 2) + 4 * (b0 / 4 % 2) + 2 * (b0 / 2 % 2) + (b0 % 2) == b0) by (bit_vector);
    assert(128 * (b1 / 128) + 64 * (b1 / 64 % 2) + 32 * (b1 / 32 % 2) + 16 * (b1 / 16 % 2) + 8 * (
    b1 / 8 % 2) + 4 * (b1 / 4 % 2) + 2 * (b1 / 2 % 2) + (b1 % 2) == b1) by (bit_vector);
}

/// Reads `width` pending bits, where the caller knows that they are there.
fn take_bits(reader: &mut BitReader, width: u8) -> (value: u8)
    requires
        width <= 8,
        width <= pending_bits(*old(reader)).len(),
    ensures
        value == bits_value(pending_bits(*old(reader)).take(width as int)),
        pending_bits(*final(reader)) == pending_bits(*old(reader)).skip(width as int),
{
    match reader.read_u8(width) {
        Ok(value) => value,
        Err(_) => 0,
    }
}

/// Splits the byte at `offset` in its high and its low four bits.
pub fn read_nibbles(data: &[u8], offset: usize) -> (result: Result<((u8, u8), usize), DecodeError>)
    ensures
        match result {
            Ok(((high, low), next)) => offset < data@.len() && high == data@[offset as int] / 16
                && low == data@[offset as int] % 16 && next == offset + 1,
            Err(e) => e == DecodeError::TruncatedBuffer && offset >= data@.len(),
        },
{
    if offset >= data.len() {
        return Err(DecodeError::TruncatedBuffer);
    }
    let byte = [data[offset]];
    let mut reader = BitReader::new(byte.as_slice());
    proof {
        assert(byte@ =~= seq![data@[offset as int]]);
        lemma_nibble_bits(data@[offset as int]);
    }
    let high = take_bits(&mut reader, 4);
    let low = take_bits(&mut reader, 4);
    Ok(((high, low), offset + 1))
}

/// Splits the byte at `offset` in groups of three, one, one, one and two
/// bits, from the most significant bit down.
pub fn read_service_bits(data: &[u8], offset: usize) -> (result: Result<
    ((u8, u8, u8, u8, u8), usize),
    DecodeError,
>)
    ensures
        match result {
            Ok((groups, next)) => offset < data@.len() && groups.0 == data@[offset as int] / 32
                && groups.1 == data@[offset as int] / 16 % 2 && groups.2 == data@[offset as int]
                / 8 % 2 && groups.3 == data@[offset as int] / 4 % 2 && groups.4
                == data@[offset as int] % 4 && next == offset + 1,
            Err(e) => e == DecodeError::TruncatedBuffer && offset >= data@.len(),
        },
{
    if offset >= data.len() {
        return Err(DecodeError::TruncatedBuffer);
    }
    let byte = [data[offset]];
    let mut reader = BitReader::new(byte.as_slice());
    proof {
        assert(byte@ =~= seq![data@[offset as int]]);
        lemma_service_bits(data@[offset as int]);
    }
    let first = take_bits(&mut reader, 3);
    let second = take_bits(&mut reader, 1);
    let third = take_bits(&mut reader, 1);
    let fourth = take_bits(&mut reader, 1);
    let fifth = take_bits(&mut reader, 2);
    Ok(((first, second, third, fourth, fifth), offset + 1))
}

/// Reads the two-byte span at `offset` twice over: its first three bits as
/// three flags, and all sixteen bits, cut down to the low thirteen, as one
/// number.
pub fn read_flags_and_offset(data: &[u8], offset: usize) -> (result: Result<
    ((u8, u8, u8, u16), usize),
    DecodeError,
>)
    ensures
        match result {
            Ok((fields, next)) => offset + 2 <= data@.len() && fields.0 == data@[offset as int]
                / 128 && fields.1 == data@[offset as int] / 64 % 2 && fields.2
                == data@[offset as int] / 32 % 2 && fields.3 == be16(
                data@.subrange(offset as int, offset + 2),
            ) % 8192 && next == offset + 2,
            Err(e) => e == DecodeError::TruncatedBuffer && offset + 2 > data@.len(),
        },
{
    if data.len() < 2 || offset > data.len() - 2 {
        return Err(DecodeError::TruncatedBuffer);
    }
    let span = [data[offset], data[offset + 1]];
    proof {
        assert(span@ =~= seq![data@[offset as int], data@[offset + 1]]);
        lemma_span_bits(data@[offset as int], data@[offset + 1]);
    }
    let mut flags = BitReader::new(span.as_slice());
    let first = take_bits(&mut flags, 1);
    let second = take_bits(&mut flags, 1);
    let third = take_bits(&mut flags, 1);
    let whole = BitReader::new(span.as_slice());
    let wide: u16 = match whole.peek_u16(16) {
        Ok(value) => value,
        Err(_) => 0,
    };
    assert(wide & 0x1fff == wide % 8192) by (bit_vector);
    Ok(((first, second, third, wide & 0x1fff), offset + 2))
}

/// Reads the byte at `offset`.
pub fn read_byte(data: &[u8], offset: usize) -> (result: Result<(u8, usize), DecodeError>)
    ensures
        match result {
            Ok((value, next)) => offset < data@.len() && value == data@[offset as int] && next
                == offset + 1,
            Err(e) => e == DecodeError::TruncatedBuffer && offset >= data@.len(),
        },
{
    if offset >= data.len() {
        return Err(DecodeError::TruncatedBuffer);
    }
    Ok((data[offset], offset + 1))
}

/// Reads the `N` bytes that start at `offset` into an array.
pub fn read_array<const N: usize>(data: &[u8], offset: usize) -> (result: Result<
    ([u8; N], usize),
    DecodeError,
>)
    ensures
        match result {
            Ok((bytes, next)) => offset + N <= data@.len() && bytes@ == data@.subrange(
                offset as int,
                offset + N,
            ) && next == offset + N,
            Err(e) => e == DecodeError::TruncatedBuffer && offset + N > data@.len(),
        },
{
    if data.len() < N || offset > data.len() - N {
        return Err(DecodeError::TruncatedBuffer);
    }
    let mut bytes = [0u8; N];
    let mut i: usize = 0;
    while i < N
        invariant
            i <= N,
            offset + N <= data@.len() <= usize::MAX,
            forall|k: int| 0 <= k < i ==> bytes@[k] == data@[offset + k],
        decreases N - i,
    {
        bytes[i] = data[offset + i];
        i = i + 1;
    }
    assert(bytes@ =~= data@.subrange(offset as int, offset + N));
    Ok((bytes, offset + N))
}

/// Copies the `count` bytes that start at `offset`.
pub fn read_bytes(data: &[u8], offset: usize, count: usize) -> (result: Result<
    (Vec<u8>, usize),
    DecodeError,
>)
    ensures
        match result {
            Ok((bytes, next)) => offset + count <= data@.len() && bytes@ == data@.subrange(
                offset as int,
                offset + count,
            ) && next == offset + count,
            Err(e) => e == DecodeError::TruncatedBuffer && offset + count > data@.len(),
        },
{
    if data.len() < count || offset > data.len() - count {
        return Err(DecodeError::TruncatedBuffer);
    }
    let bytes = vstd::slice::slice_to_vec(vstd::slice::slice_subrange(data, offset, offset + count));
    Ok((bytes, offset + count))
}

/// Copies every byte from `offset` to the end of the buffer.
pub fn read_rest(data: &[u8], offset: usize) -> (result: Result<Vec<u8>, DecodeError>)
    ensures
        match result {
            Ok(bytes) => offset <= data@.len() && bytes@ == data@.skip(offset as int),
            Err(e) => e == DecodeError::TruncatedBuffer && offset > data@.len(),
        },
{
    if offset > data.len() {
        return Err(DecodeError::TruncatedBuffer);
    }
    let bytes = vstd::slice::slice_to_vec(vstd::slice::slice_subrange(data, offset, data.len()));
    Ok(bytes)
}

/// The number that two bytes spell, the first one most significant.
pub fn be16_value(bytes: &[u8; 2]) -> (value: u16)
    ensures
        value == be16(bytes@),
{
    let high: u16 = bytes[0] as u16;
    let low: u16 = bytes[1] as u16;
    high * 256 + low
}

/// The number that four bytes spell, the first one most significant.
pub fn be32_value(bytes: &[u8; 4]) -> (value: u32)
    ensures
        value == be32(bytes@),
{
    let first: u32 = bytes[0] as u32;
    let second: u32 = bytes[1] as u32;
    let third: u32 = bytes[2] as u32;
    let fourth: u32 = bytes[3] as u32;
    first * 16777216 + second * 65536 + third * 256 + fourth
}

} // verus!
