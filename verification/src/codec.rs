//! The raw event codec: the fixed binary layout of one device record.
//!
//! A record is 24 bytes wide and holds five integers back to back, with no
//! padding between them:
//!
//! | bytes    | field          | type |
//! |----------|----------------|------|
//! | 0 ..  8  | seconds        | i64  |
//! | 8 .. 16  | microseconds   | i64  |
//! | 16 .. 18 | event type     | u16  |
//! | 18 .. 20 | code           | u16  |
//! | 20 .. 24 | value          | i32  |
//!
//! Signed fields are in two's complement. The byte order of every field is
//! that of the machine the device is attached to; [`decode_with`] and
//! [`encode_with`] take it as an argument, [`decode`] and [`encode`] ask the
//! machine.

use vstd::prelude::*;

verus! {

/// Width of one record, in bytes.
pub const RECORD_SIZE: usize = 24;

/// The order in which the bytes of a field are laid out.
#[derive(Clone, Copy, Debug, PartialEq, Eq, Structural)]
pub enum ByteOrder {
    /// Least significant byte first.
    Little,
    /// Most significant byte first.
    Big,
}

/// The time that the kernel stamped on a record.
#[derive(Clone, Copy, Debug, PartialEq, Eq, Structural)]
pub struct Timestamp {
    pub seconds: i64,
    pub microseconds: i64,
}

/// One record as the device delivers it. The codec gives no meaning to
/// `event_type`, `code` and `value`.
#[derive(Clone, Copy, Debug, PartialEq, Eq, Structural)]
pub struct RawEvent {
    pub time: Timestamp,
    pub event_type: u16,
    pub code: u16,
    pub value: i32,
}

/// A buffer that is not exactly one record wide.
#[derive(Clone, Copy, Debug, PartialEq, Eq, Structural)]
pub struct FramingError {
    /// The width of the buffer that was offered.
    pub len: usize,
}

/// 256 to the power `n`: the number of values that `n` bytes can hold.
pub open spec fn radix_pow(n: nat) -> nat
    decreases n,
{
    if n == 0 {
        1
    } else {
        256 * radix_pow((n - 1) as nat)
    }
}

/// The number that `s` writes in base 256, least significant byte first.
pub open spec fn le_value(s: Seq<u8>) -> nat
    decreases s.len(),
{
    if s.len() == 0 {
        0
    } else {
        s[0] as nat + 256 * le_value(s.drop_first())
    }
}

/// The lowest `width` base-256 digits of `v`, least significant first.
pub open spec fn le_digits(v: nat, width: nat) -> Seq<u8>
    decreases width,
{
    if width == 0 {
        Seq::empty()
    } else {
        seq![(v % 256) as u8] + le_digits(v / 256, (width - 1) as nat)
    }
}

/// The unsigned number that the bytes of a field stand for.
pub open spec fn unsigned_value(s: Seq<u8>, order: ByteOrder) -> nat {
    match order {
        ByteOrder::Little => le_value(s),
        ByteOrder::Big => le_value(s.reverse()),
    }
}

/// The bytes of a field of `width` bytes that holds the unsigned number `v`.
pub open spec fn unsigned_digits(v: nat, width: nat, order: ByteOrder) -> Seq<u8> {
    match order {
        ByteOrder::Little => le_digits(v, width),
        ByteOrder::Big => le_digits(v, width).reverse(),
    }
}

/// Reads the unsigned content `u` of a field of `width` bytes in two's
/// complement.
pub open spec fn signed_value(u: nat, width: nat) -> int {
    if 2 * u >= radix_pow(width) {
        u - radix_pow(width)
    } else {
        u as int
    }
}

/// The unsigned content of a field of `width` bytes that holds `x` in two's
/// complement.
pub open spec fn unsigned_of(x: int, width: nat) -> nat {
    if x < 0 {
        (x + radix_pow(width)) as nat
    } else {
        x as nat
    }
}

/// The record that a buffer of [`RECORD_SIZE`] bytes holds.
pub open spec fn decode_spec(bytes: Seq<u8>, order: ByteOrder) -> RawEvent {
    RawEvent {
        time: Timestamp {
            seconds: signed_value(unsigned_value(bytes.subrange(0, 8), order), 8) as i64,
            microseconds: signed_value(unsigned_value(bytes.subrange(8, 16), order), 8) as i64,
        },
        event_type: unsigned_value(bytes.subrange(16, 18), order) as u16,
        code: unsigned_value(bytes.subrange(18, 20), order) as u16,
        value: signed_value(unsigned_value(bytes.subrange(20, 24), order), 4) as i32,
    }
}

/// The buffer that holds a record.
pub open spec fn encode_spec(event: RawEvent, order: ByteOrder) -> Seq<u8> {
    unsigned_digits(unsigned_of(event.time.seconds as int, 8), 8, order)
        + unsigned_digits(unsigned_of(event.time.microseconds as int, 8), 8, order)
        + unsigned_digits(event.event_type as nat, 2, order)
        + unsigned_digits(event.code as nat, 2, order)
        + unsigned_digits(unsigned_of(event.value as int, 4), 4, order)
}

/// The values of `radix_pow` at the widths that the layout uses.
pub proof fn lemma_radix_pow_values()
    ensures
        radix_pow(0) == 1,
        radix_pow(1) == 0x100,
        radix_pow(2) == 0x1_0000,
        radix_pow(3) == 0x100_0000,
        radix_pow(4) == 0x1_0000_0000,
        radix_pow(5) == 0x100_0000_0000,
        radix_pow(6) == 0x1_0000_0000_0000,
        radix_pow(7) == 0x100_0000_0000_0000,
        radix_pow(8) == 0x1_0000_0000_0000_0000,
{
    reveal_with_fuel(radix_pow, 9);
}

/// A field of `n` bytes holds a number below `radix_pow(n)`.
pub proof fn lemma_le_value_bound(s: Seq<u8>)
    ensures
        le_value(s) < radix_pow(s.len()),
    decreases s.len(),
{
    if s.len() > 0 {
        lemma_le_value_bound(s.drop_first());
    }
}

/// `le_digits` yields exactly `width` bytes.
pub proof fn lemma_le_digits_len(v: nat, width: nat)
    ensures
        le_digits(v, width).len() == width,
    decreases width,
{
    if width > 0 {
        lemma_le_digits_len(v / 256, (width - 1) as nat);
    }
}

/// Writing out the number that a field holds gives the field back.
pub proof fn lemma_le_digits_of_value(s: Seq<u8>)
    ensures
        le_digits(le_value(s), s.len()) == s,
    decreases s.len(),
{
    if s.len() > 0 {
        lemma_le_digits_of_value(s.drop_first());
    }
}

/// Reading the digits of a number that fits gives the number back.
pub proof fn lemma_le_value_of_digits(v: nat, width: nat)
    requires
        v < radix_pow(width),
    ensures
        le_value(le_digits(v, width)) == v,
    decreases width,
{
    if width > 0 {
        lemma_le_value_of_digits(v / 256, (width - 1) as nat);
        assert(le_digits(v, width).drop_first() =~= le_digits(v / 256, (width - 1) as nat));
    }
}

/// In either byte order, writing out the number that a field holds gives
/// the field back.
pub proof fn lemma_digits_of_value(s: Seq<u8>, order: ByteOrder)
    ensures
        unsigned_value(s, order) < radix_pow(s.len()),
        unsigned_digits(unsigned_value(s, order), s.len(), order) == s,
{
    match order {
        ByteOrder::Little => {
            lemma_le_value_bound(s);
            lemma_le_digits_of_value(s);
        },
        ByteOrder::Big => {
            lemma_le_value_bound(s.reverse());
            lemma_le_digits_of_value(s.reverse());
        },
    }
}

/// In either byte order, reading the digits of a number that fits gives the
/// number back.
pub proof fn lemma_value_of_digits(v: nat, width: nat, order: ByteOrder)
    requires
        v < radix_pow(width),
    ensures
        unsigned_digits(v, width, order).len() == width,
        unsigned_value(unsigned_digits(v, width, order), order) == v,
{
    lemma_le_digits_len(v, width);
    lemma_le_value_of_digits(v, width);
    assert(le_digits(v, width).reverse().reverse() =~= le_digits(v, width));
}

/// Reads the field of `width` bytes that starts at `start` in a record as an
/// unsigned number.
fn read_unsigned(bytes: &[u8], start: usize, width: usize, order: ByteOrder) -> (v: u64)
    requires
        1 <= width <= 8,
        bytes@.len() == RECORD_SIZE,
        start + width <= RECORD_SIZE,
    ensures
        v == unsigned_value(bytes@.subrange(start as int, start + width), order),
{
    let ghost field = bytes@.subrange(start as int, start + width);
    let ghost low_first = match order {
        ByteOrder::Little => field,
        ByteOrder::Big => field.reverse(),
    };
    let mut acc: u64 = 0;
    let mut k: usize = 0;
    while k < width
        invariant
            1 <= width <= 8,
            bytes@.len() == RECORD_SIZE,
            start + width <= RECORD_SIZE,
            k <= width,
            field == bytes@.subrange(start as int, start + width),
            low_first == match order {
                ByteOrder::Little => field,
                ByteOrder::Big => field.reverse(),
            },
            acc == le_value(low_first.subrange(width - k, width as int)),
            acc < radix_pow(k as nat),
        decreases width - k,
    {
        let digit: u8 = match order {
            ByteOrder::Little => bytes[start + (width - 1 - k)],
            ByteOrder::Big => bytes[start + k],
        };
        proof {
            assert(low_first.subrange(width - k - 1, width as int).drop_first()
                =~= low_first.subrange(width - k, width as int));
            lemma_radix_pow_values();
        }
        acc = acc * 256 + digit as u64;
        k = k + 1;
    }
    proof {
        assert(low_first.subrange(0, width as int) =~= low_first);
    }
    acc
}

/// Reads the content of an eight-byte field in two's complement.
pub(crate) fn to_signed64(u: u64) -> (x: i64)
    ensures
        x == signed_value(u as nat, 8),
{
    proof {
        lemma_radix_pow_values();
    }
    if u >= 0x8000_0000_0000_0000 {
        (u - 0x8000_0000_0000_0000) as i64 + i64::MIN
    } else {
        u as i64
    }
}

/// Reads the content of a four-byte field in two's complement.
fn to_signed32(u: u32) -> (x: i32)
    ensures
        x == signed_value(u as nat, 4),
{
    proof {
        lemma_radix_pow_values();
    }
    if u >= 0x8000_0000 {
        (u - 0x8000_0000) as i32 + i32::MIN
    } else {
        u as i32
    }
}

/// Decodes one record whose fields are laid out in the given byte order.
///
/// The buffer must be exactly [`RECORD_SIZE`] bytes wide; any other width is
/// a framing error, and nothing is decoded from it.
pub fn decode_with(bytes: &[u8], order: ByteOrder) -> (r: Result<RawEvent, FramingError>)
    ensures
        bytes@.len() == RECORD_SIZE ==> r == Ok::<RawEvent, FramingError>(
            decode_spec(bytes@, order),
        ),
        bytes@.len() != RECORD_SIZE ==> r == Err::<RawEvent, FramingError>(
            (FramingError { len: bytes@.len() as usize }),
        ),
{
    if bytes.len() != RECORD_SIZE {
        return Err(FramingError { len: bytes.len() });
    }
    proof {
        lemma_radix_pow_values();
        lemma_le_value_bound(bytes@.subrange(20, 24));
        lemma_le_value_bound(bytes@.subrange(20, 24).reverse());
    }
    let seconds = to_signed64(read_unsigned(bytes, 0, 8, order));
    let microseconds = to_signed64(read_unsigned(bytes, 8, 8, order));
    let event_type = read_unsigned(bytes, 16, 2, order) as u16;
    let code = read_unsigned(bytes, 18, 2, order) as u16;
    let value = to_signed32(read_unsigned(bytes, 20, 4, order) as u32);
    Ok(RawEvent { time: Timestamp { seconds, microseconds }, event_type, code, value })
}

/// The content of an eight-byte field that holds `x` in two's complement.
fn from_signed64(x: i64) -> (u: u64)
    ensures
        u == unsigned_of(x as int, 8),
{
    proof {
        lemma_radix_pow_values();
    }
    if x < 0 {
        (x as i128 + 0x1_0000_0000_0000_0000i128) as u64
    } else {
        x as u64
    }
}

/// The content of a four-byte field that holds `x` in two's complement.
fn from_signed32(x: i32) -> (u: u32)
    ensures
        u == unsigned_of(x as int, 4),
{
    proof {
        lemma_radix_pow_values();
    }
    if x < 0 {
        (x as i64 + 0x1_0000_0000i64) as u32
    } else {
        x as u32
    }
}

/// Appends to `out` the field of `width` bytes that holds `v`.
fn write_unsigned(out: &mut Vec<u8>, v: u64, width: usize, order: ByteOrder)
    requires
        1 <= width <= 8,
    ensures
        final(out)@ == old(out)@ + unsigned_digits(v as nat, width as nat, order),
{
    let mut low_first: Vec<u8> = Vec::new();
    let mut rest: u64 = v;
    let mut k: usize = 0;
    while k < width
        invariant
            k <= width <= 8,
            low_first@.len() == k,
            low_first@ + le_digits(rest as nat, (width - k) as nat) == le_digits(
                v as nat,
                width as nat,
            ),
        decreases width - k,
    {
        low_first.push((rest % 256) as u8);
        rest = rest / 256;
        k = k + 1;
    }
    let ghost field = unsigned_digits(v as nat, width as nat, order);
    let mut i: usize = 0;
    while i < width
        invariant
            i <= width <= 8,
            low_first@ == le_digits(v as nat, width as nat),
            low_first@.len() == width,
            field == unsigned_digits(v as nat, width as nat, order),
            field.len() == width,
            out@ == old(out)@ + field.subrange(0, i as int),
        decreases width - i,
    {
        let digit: u8 = match order {
            ByteOrder::Little => low_first[i],
            ByteOrder::Big => low_first[width - 1 - i],
        };
        out.push(digit);
        i = i + 1;
    }
}

/// Encodes one record with its fields laid out in the given byte order.
pub fn encode_with(event: &RawEvent, order: ByteOrder) -> (bytes: Vec<u8>)
    ensures
        bytes@ == encode_spec(*event, order),
        bytes@.len() == RECORD_SIZE,
{
    let mut out: Vec<u8> = Vec::new();
    write_unsigned(&mut out, from_signed64(event.time.seconds), 8, order);
    write_unsigned(&mut out, from_signed64(event.time.microseconds), 8, order);
    write_unsigned(&mut out, event.event_type as u64, 2, order);
    write_unsigned(&mut out, event.code as u64, 2, order);
    write_unsigned(&mut out, from_signed32(event.value) as u64, 4, order);
    proof {
        lemma_encode_len(*event, order);
    }
    out
}

/// An encoded record is exactly one record wide.
pub proof fn lemma_encode_len(event: RawEvent, order: ByteOrder)
    ensures
        encode_spec(event, order).len() == RECORD_SIZE,
{
    lemma_le_digits_len(unsigned_of(event.time.seconds as int, 8), 8);
    lemma_le_digits_len(unsigned_of(event.time.microseconds as int, 8), 8);
    lemma_le_digits_len(event.event_type as nat, 2);
    lemma_le_digits_len(event.code as nat, 2);
    lemma_le_digits_len(unsigned_of(event.value as int, 4), 4);
}

/// Decoding a buffer of one record and encoding the result in the same byte
/// order reproduces the buffer byte for byte.
pub proof fn law_decode_then_encode(bytes: Seq<u8>, order: ByteOrder)
    requires
        bytes.len() == RECORD_SIZE,
    ensures
        encode_spec(decode_spec(bytes, order), order) == bytes,
{
    let f0 = bytes.subrange(0, 8);
    let f1 = bytes.subrange(8, 16);
    let f2 = bytes.subrange(16, 18);
    let f3 = bytes.subrange(18, 20);
    let f4 = bytes.subrange(20, 24);
    lemma_radix_pow_values();
    lemma_digits_of_value(f0, order);
    lemma_digits_of_value(f1, order);
    lemma_digits_of_value(f2, order);
    lemma_digits_of_value(f3, order);
    lemma_digits_of_value(f4, order);
}

/// Encoding a record and decoding the buffer in the same byte order gives
/// the record back.
pub proof fn law_encode_then_decode(event: RawEvent, order: ByteOrder)
    ensures
        encode_spec(event, order).len() == RECORD_SIZE,
        decode_spec(encode_spec(event, order), order) == event,
{
    let u0 = unsigned_of(event.time.seconds as int, 8);
    let u1 = unsigned_of(event.time.microseconds as int, 8);
    let u2 = event.event_type as nat;
    let u3 = event.code as nat;
    let u4 = unsigned_of(event.value as int, 4);
    let bytes = encode_spec(event, order);
    lemma_radix_pow_values();
    lemma_value_of_digits(u0, 8, order);
    lemma_value_of_digits(u1, 8, order);
    lemma_value_of_digits(u2, 2, order);
    lemma_value_of_digits(u3, 2, order);
    lemma_value_of_digits(u4, 4, order);
    assert(bytes.subrange(0, 8) =~= unsigned_digits(u0, 8, order));
    assert(bytes.subrange(8, 16) =~= unsigned_digits(u1, 8, order));
    assert(bytes.subrange(16, 18) =~= unsigned_digits(u2, 2, order));
    assert(bytes.subrange(18, 20) =~= unsigned_digits(u3, 2, order));
    assert(bytes.subrange(20, 24) =~= unsigned_digits(u4, 4, order));
}

/// The two bytes of `x` as this machine keeps them in memory.
///
/// Wraps `u16::to_ne_bytes`, which returns the memory representation of the
/// number in the byte order of the target. The contract claims that this is
/// one of the two orders that the codec knows, and not which.
#[verifier::external_body]
fn native_layout(x: u16) -> (layout: [u8; 2])
    ensures
        layout@ == unsigned_digits(x as nat, 2, ByteOrder::Little) || layout@ == unsigned_digits(
            x as nat,
            2,
            ByteOrder::Big,
        ),
{
    x.to_ne_bytes()
}

/// The byte order of a machine that keeps the number one as `layout`: little
/// where the byte that holds the one comes first.
pub fn order_of_layout(layout: &[u8; 2]) -> (order: ByteOrder)
    ensures
        order == if layout@[0] == 1 {
            ByteOrder::Little
        } else {
            ByteOrder::Big
        },
{
    if layout[0] == 1 {
        ByteOrder::Little
    } else {
        ByteOrder::Big
    }
}

/// The byte order of the machine that runs this code.
pub fn native_byte_order() -> ByteOrder {
    let layout = native_layout(1);
    order_of_layout(&layout)
}

/// Decodes one record in the byte order of this machine.
///
/// A buffer of any other width than [`RECORD_SIZE`] is a framing error. A
/// buffer of that width always decodes, to the record that it holds in one
/// of the two byte orders.
pub fn decode(bytes: &[u8]) -> (r: Result<RawEvent, FramingError>)
    ensures
        bytes@.len() != RECORD_SIZE ==> r == Err::<RawEvent, FramingError>(
            (FramingError { len: bytes@.len() as usize }),
        ),
        bytes@.len() == RECORD_SIZE ==> r is Ok && (r->Ok_0 == decode_spec(
            bytes@,
            ByteOrder::Little,
        ) || r->Ok_0 == decode_spec(bytes@, ByteOrder::Big)),
{
    decode_with(bytes, native_byte_order())
}

/// Encodes one record in the byte order of this machine.
pub fn encode(event: &RawEvent) -> (bytes: Vec<u8>)
    ensures
        bytes@.len() == RECORD_SIZE,
        bytes@ == encode_spec(*event, ByteOrder::Little) || bytes@ == encode_spec(
            *event,
            ByteOrder::Big,
        ),
{
    encode_with(event, native_byte_order())
}

} // verus!
