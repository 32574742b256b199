//! The framed message channel: a four-byte length, then that many bytes.
//!
//! A length of zero is the disconnect sentinel and carries no body.

use byteorder::ByteOrder;
use vstd::endian::{endianness, Endian};
use vstd::prelude::*;
use vstd::slice::{slice_subrange, slice_to_vec};

verus! {

/// Number of bytes in a frame's length field.
pub const HEADER_LEN: usize = 4;

/// The order in which the four bytes of a length are laid out.
#[derive(Clone, Copy, Debug, PartialEq, Eq, Structural)]
pub enum Endianness {
    Little,
    Big,
}

/// The number that the first four bytes of `bytes` spell, least significant first.
pub open spec fn little_endian_value(bytes: Seq<u8>) -> int
    recommends
        bytes.len() >= 4,
{
    bytes[0] + 0x100 * bytes[1] + 0x1_0000 * bytes[2] + 0x100_0000 * bytes[3]
}

/// The number that the first four bytes of `bytes` spell, most significant first.
pub open spec fn big_endian_value(bytes: Seq<u8>) -> int
    recommends
        bytes.len() >= 4,
{
    bytes[3] + 0x100 * bytes[2] + 0x1_0000 * bytes[1] + 0x100_0000 * bytes[0]
}

/// The four bytes of `n`, least significant first.
pub open spec fn little_endian_bytes(n: u32) -> Seq<u8> {
    seq![
        (n % 0x100) as u8,
        (n / 0x100 % 0x100) as u8,
        (n / 0x1_0000 % 0x100) as u8,
        (n / 0x100_0000) as u8,
    ]
}

/// The four bytes of `n`, most significant first.
pub open spec fn big_endian_bytes(n: u32) -> Seq<u8> {
    seq![
        (n / 0x100_0000) as u8,
        (n / 0x1_0000 % 0x100) as u8,
        (n / 0x100 % 0x100) as u8,
        (n % 0x100) as u8,
    ]
}

/// The length that a header spells in the given byte order.
pub open spec fn length_value(order: Endianness, header: Seq<u8>) -> int
    recommends
        header.len() >= 4,
{
    match order {
        Endianness::Little => little_endian_value(header),
        Endianness::Big => big_endian_value(header),
    }
}

/// The header that spells `n` in the given byte order.
pub open spec fn length_bytes(order: Endianness, n: u32) -> Seq<u8> {
    match order {
        Endianness::Little => little_endian_bytes(n),
        Endianness::Big => big_endian_bytes(n),
    }
}

/// The byte order of the machine that runs this code: vstd's `endianness`,
/// which stands for the hardware's order without saying which it is.
pub open spec fn host_order() -> Endianness {
    match endianness() {
        Endian::Little => Endianness::Little,
        Endian::Big => Endianness::Big,
    }
}

/// `byteorder::LittleEndian::read_u32`: the number in the first four bytes of
/// `buf`, least significant byte first. It panics on a shorter slice.
#[verifier::external_body]
fn read_little_endian(buf: &[u8]) -> (n: u32)
    requires
        buf@.len() >= 4,
    ensures
        n == little_endian_value(buf@),
{
    byteorder::LittleEndian::read_u32(buf)
}

/// `byteorder::BigEndian::read_u32`: the number in the first four bytes of
/// `buf`, most significant byte first. It panics on a shorter slice.
#[verifier::external_body]
fn read_big_endian(buf: &[u8]) -> (n: u32)
    requires
        buf@.len() >= 4,
    ensures
        n == big_endian_value(buf@),
{
    byteorder::BigEndian::read_u32(buf)
}

/// `byteorder::NativeEndian::read_u32`: the number in the first four bytes of
/// `buf`, in the byte order of the machine that the code was built for. The
/// crate makes `NativeEndian` another name for `LittleEndian` or for
/// `BigEndian`, after the target's order. It panics on a shorter slice.
#[verifier::external_body]
fn read_native_endian(buf: &[u8]) -> (n: u32)
    requires
        buf@.len() >= 4,
    ensures
        n == length_value(host_order(), buf@),
{
    byteorder::NativeEndian::read_u32(buf)
}

/// `byteorder::LittleEndian::write_u32`: overwrites the first four bytes of
/// `buf` with `n`, least significant byte first, and leaves the rest as it
/// was. It panics on a shorter buffer.
#[verifier::external_body]
fn write_little_endian(buf: &mut Vec<u8>, n: u32)
    requires
        old(buf)@.len() >= 4,
    ensures
        final(buf)@ == little_endian_bytes(n) + old(buf)@.skip(4),
{
    byteorder::LittleEndian::write_u32(buf, n)
}

/// `byteorder::BigEndian::write_u32`: overwrites the first four bytes of `buf`
/// with `n`, most significant byte first, and leaves the rest as it was. It
/// panics on a shorter buffer.
#[verifier::external_body]
fn write_big_endian(buf: &mut Vec<u8>, n: u32)
    requires
        old(buf)@.len() >= 4,
    ensures
        final(buf)@ == big_endian_bytes(n) + old(buf)@.skip(4),
{
    byteorder::BigEndian::write_u32(buf, n)
}

/// Reads a frame's length from the first four bytes of `header`.
fn decode_length(order: Endianness, header: &[u8]) -> (n: u32)
    requires
        header@.len() >= 4,
    ensures
        n == length_value(order, header@),
{
    match order {
        Endianness::Little => read_little_endian(header),
        Endianness::Big => read_big_endian(header),
    }
}

/// The header of a frame whose body is `n` bytes long.
pub fn encode_length(order: Endianness, n: u32) -> (header: Vec<u8>)
    ensures
        header@ == length_bytes(order, n),
{
    let mut header: Vec<u8> = Vec::new();
    header.push(0);
    header.push(0);
    header.push(0);
    header.push(0);
    match order {
        Endianness::Little => write_little_endian(&mut header, n),
        Endianness::Big => write_big_endian(&mut header, n),
    }
    assert(header@.skip(4) =~= Seq::<u8>::empty());
    assert(length_bytes(order, n) + Seq::<u8>::empty() =~= length_bytes(order, n));
    header
}

/// The byte order in which the bytes 1, 0, 0, 0 spell `reading`: the two
/// orders read them as 1 and as 0x100_0000.
pub fn order_of_probe(reading: u32) -> (order: Endianness)
    ensures
        order == if reading == 1 {
            Endianness::Little
        } else {
            Endianness::Big
        },
        reading == 1 || reading == 0x100_0000 ==> length_value(order, seq![1u8, 0u8, 0u8, 0u8])
            == reading,
{
    if reading == 1 {
        Endianness::Little
    } else {
        Endianness::Big
    }
}

/// The byte order of the machine this code runs on, found by letting the
/// machine read the bytes 1, 0, 0, 0: a frame's length is written and read
/// in this order.
pub fn native_order() -> (order: Endianness)
    ensures
        order == host_order(),
{
    let mut probe: Vec<u8> = Vec::new();
    probe.push(1);
    probe.push(0);
    probe.push(0);
    probe.push(0);
    assert(probe@ =~= seq![1u8, 0u8, 0u8, 0u8]);
    let reading = read_native_endian(probe.as_slice());
    assert(reading == 1 <==> host_order() == Endianness::Little);
    order_of_probe(reading)
}

/// Why a body cannot be sent as a frame.
#[derive(Clone, Copy, Debug, PartialEq, Eq, Structural)]
pub enum FrameError {
    /// The body is empty: a length of zero is the disconnect sentinel.
    Empty,
    /// The body's length does not fit in the four bytes of the header.
    TooLong,
}

/// What stands at the start of a byte stream.
#[derive(Clone, Debug, PartialEq, Eq)]
pub enum FrameRead {
    /// The stream holds no byte at all: it ended between two frames.
    EndOfStream,
    /// A header that spells zero: the disconnect sentinel.
    Disconnect,
    /// A header and the whole body it announces.
    Frame(Vec<u8>),
    /// The header, or the body it announces, is cut short by `missing` bytes.
    Incomplete { missing: u32 },
}

/// The mathematical content of a [`FrameRead`].
pub enum Decoded {
    EndOfStream,
    Disconnect,
    Frame(Seq<u8>),
    Incomplete { missing: nat },
}

impl View for FrameRead {
    type V = Decoded;

    open spec fn view(&self) -> Decoded {
        match self {
            FrameRead::EndOfStream => Decoded::EndOfStream,
            FrameRead::Disconnect => Decoded::Disconnect,
            FrameRead::Frame(body) => Decoded::Frame(body@),
            FrameRead::Incomplete { missing } => Decoded::Incomplete { missing: *missing as nat },
        }
    }
}

/// A body can be framed when it is neither empty nor longer than the header can say.
pub open spec fn valid_body(body: Seq<u8>) -> bool {
    0 < body.len() <= u32::MAX
}

/// The frame of a body: its length in the given byte order, then the body.
pub open spec fn frame_bytes(order: Endianness, body: Seq<u8>) -> Seq<u8>
    recommends
        valid_body(body),
{
    length_bytes(order, body.len() as u32) + body
}

/// What the start of `input` holds: nothing, the sentinel, a frame whose body
/// is exactly as long as its header says, or a frame that is cut short.
pub open spec fn decoded(order: Endianness, input: Seq<u8>) -> Decoded {
    if input.len() == 0 {
        Decoded::EndOfStream
    } else if input.len() < 4 {
        Decoded::Incomplete { missing: (4 - input.len()) as nat }
    } else {
        let n = length_value(order, input);
        if n == 0 {
            Decoded::Disconnect
        } else if input.len() < 4 + n {
            Decoded::Incomplete { missing: (4 + n - input.len()) as nat }
        } else {
            Decoded::Frame(input.subrange(4, 4 + n))
        }
    }
}

/// Frames a body: the header that spells its length, then the body itself.
pub fn encode_frame(order: Endianness, body: &[u8]) -> (r: Result<Vec<u8>, FrameError>)
    ensures
        body@.len() == 0 ==> r == Err::<Vec<u8>, FrameError>(FrameError::Empty),
        body@.len() > u32::MAX ==> r == Err::<Vec<u8>, FrameError>(FrameError::TooLong),
        valid_body(body@) ==> r is Ok && r.unwrap()@ == frame_bytes(order, body@),
{
    let len = body.len();
    if len == 0 {
        return Err(FrameError::Empty);
    }
    if len > u32::MAX as usize {
        return Err(FrameError::TooLong);
    }
    let mut frame = encode_length(order, len as u32);
    frame.extend_from_slice(body);
    assert(frame@ =~= frame_bytes(order, body@));
    Ok(frame)
}

/// The disconnect sentinel, which is the last frame on a channel: a header
/// that spells zero, and no body.
pub fn disconnect(order: Endianness) -> (frame: Vec<u8>)
    ensures
        frame@ == seq![0u8, 0u8, 0u8, 0u8],
        decoded(order, frame@) == Decoded::Disconnect,
{
    let frame = encode_length(order, 0);
    assert(frame@ =~= seq![0u8, 0u8, 0u8, 0u8]);
    frame
}

/// Reads what stands at the start of `input`. The body of a frame is taken at
/// exactly the length that the header announces; bytes after it are left alone.
pub fn decode_frame(order: Endianness, input: &[u8]) -> (read: FrameRead)
    ensures
        read@ == decoded(order, input@),
{
    let available = input.len();
    if available == 0 {
        return FrameRead::EndOfStream;
    }
    if available < HEADER_LEN {
        return FrameRead::Incomplete { missing: (HEADER_LEN - available) as u32 };
    }
    let n = decode_length(order, input);
    if n == 0 {
        return FrameRead::Disconnect;
    }
    let held = available - HEADER_LEN;
    if held < n as usize {
        return FrameRead::Incomplete { missing: n - held as u32 };
    }
    let body = slice_subrange(input, HEADER_LEN, HEADER_LEN + n as usize);
    FrameRead::Frame(slice_to_vec(body))
}

/// The four bytes of a number, each weighted by its place, add up to it.
proof fn lemma_bytes_add_up(n: u32)
    ensures
        n / 0x100_0000 < 0x100,
        n % 0x100 + 0x100 * (n / 0x100 % 0x100) + 0x1_0000 * (n / 0x1_0000 % 0x100) + 0x100_0000
            * (n / 0x100_0000) == n,
{
    let low = n % 0x1_0000;
    let high = n / 0x1_0000;
    assert(n == 0x1_0000 * high + low);
    assert(low == 0x100 * (low / 0x100) + low % 0x100);
    assert(high == 0x100 * (high / 0x100) + high % 0x100);
    assert(low % 0x100 == n % 0x100 && low / 0x100 == n / 0x100 % 0x100) by (bit_vector)
        requires
            low == n % 0x1_0000,
    ;
    assert(high % 0x100 == n / 0x1_0000 % 0x100 && high / 0x100 == n / 0x100_0000
        && n / 0x100_0000 < 0x100) by (bit_vector)
        requires
            high == n / 0x1_0000,
    ;
}

/// A header read in the order it was written in spells the number it was made from.
pub proof fn lemma_length_round_trip(order: Endianness, n: u32)
    ensures
        length_bytes(order, n).len() == 4,
        length_value(order, length_bytes(order, n)) == n,
{
    lemma_bytes_add_up(n);
    let bytes = length_bytes(order, n);
    match order {
        Endianness::Little => {
            assert(bytes[0] == n % 0x100);
            assert(bytes[1] == n / 0x100 % 0x100);
            assert(bytes[2] == n / 0x1_0000 % 0x100);
            assert(bytes[3] == n / 0x100_0000);
        },
        Endianness::Big => {
            assert(bytes[3] == n % 0x100);
            assert(bytes[2] == n / 0x100 % 0x100);
            assert(bytes[1] == n / 0x1_0000 % 0x100);
            assert(bytes[0] == n / 0x100_0000);
        },
    }
}

/// Whatever the byte order and whatever follows, a header of four zero bytes
/// decodes to the disconnect sentinel.
pub proof fn lemma_zero_length_is_disconnect(order: Endianness, rest: Seq<u8>)
    ensures
        decoded(order, seq![0u8, 0u8, 0u8, 0u8] + rest) == Decoded::Disconnect,
        decoded(order, length_bytes(order, 0) + rest) == Decoded::Disconnect,
{
    assert(length_bytes(order, 0) =~= seq![0u8, 0u8, 0u8, 0u8]);
}

/// Framing round-trips: decoding the frame of a valid body gives that body
/// back, whatever follows the frame in the stream.
pub proof fn lemma_frame_round_trip(order: Endianness, body: Seq<u8>, rest: Seq<u8>)
    requires
        valid_body(body),
    ensures
        decoded(order, frame_bytes(order, body) + rest) == Decoded::Frame(body),
{
    let n = body.len() as u32;
    let stream = frame_bytes(order, body) + rest;
    lemma_length_round_trip(order, n);
    assert(length_value(order, stream) == length_value(order, length_bytes(order, n)));
    assert(stream.subrange(4, 4 + n) =~= body);
}

/// A frame is read from its header and exactly the bytes that the header
/// announces: the same frame is read from any prefix of the stream that holds
/// them all, and no frame from a shorter one.
pub proof fn lemma_frame_takes_announced_length(order: Endianness, input: Seq<u8>, k: int)
    requires
        decoded(order, input) is Frame,
        0 <= k <= input.len(),
    ensures
        k >= 4 + length_value(order, input) ==> decoded(order, input.take(k)) == decoded(
            order,
            input,
        ),
        k < 4 + length_value(order, input) ==> !(decoded(order, input.take(k)) is Frame),
{
    let n = length_value(order, input);
    let prefix = input.take(k);
    if k >= 4 {
        assert(length_value(order, prefix) == n);
        if k >= 4 + n {
            assert(prefix.subrange(4, 4 + n) =~= input.subrange(4, 4 + n));
        }
    }
}

} // verus!
