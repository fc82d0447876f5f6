//! Frames of Discord's local IPC protocol: a header of two native-endian
//! `u32` values (operation code and payload length) followed by the UTF-8
//! payload.
use byteorder::{ByteOrder, NativeEndian};
use vstd::bytes::{lemma_auto_spec_u32_to_from_le_bytes, spec_u32_from_le_bytes, spec_u32_to_le_bytes};
use vstd::endian::{endianness, Endian};
use vstd::prelude::*;
use vstd::string::StrSliceExecFns;
use vstd::utf8::{decode_utf8, encode_utf8, encode_utf8_decode_utf8, encode_utf8_valid_utf8, valid_utf8};

verus! {

/// Operation code carried in the first word of a frame header.
#[derive(Debug, Clone, Copy, PartialEq, Eq, Structural)]
pub enum OpCode {
    HandShake,
    Frame,
    Close,
    Ping,
    Pong,
}

impl OpCode {
    /// The number that stands for the operation code on the wire.
    pub open spec fn spec_code(self) -> u32 {
        match self {
            OpCode::HandShake => 0,
            OpCode::Frame => 1,
            OpCode::Close => 2,
            OpCode::Ping => 3,
            OpCode::Pong => 4,
        }
    }

    /// The operation code read from a number; numbers without a code of
    /// their own are read as a handshake.
    pub open spec fn spec_from_code(code: u32) -> OpCode {
        if code == 1 {
            OpCode::Frame
        } else if code == 2 {
            OpCode::Close
        } else if code == 3 {
            OpCode::Ping
        } else if code == 4 {
            OpCode::Pong
        } else {
            OpCode::HandShake
        }
    }

    pub fn code(self) -> (c: u32)
        ensures
            c == self.spec_code(),
    {
        match self {
            OpCode::HandShake => 0,
            OpCode::Frame => 1,
            OpCode::Close => 2,
            OpCode::Ping => 3,
            OpCode::Pong => 4,
        }
    }

    pub fn from_code(code: u32) -> (op: OpCode)
        ensures
            op == OpCode::spec_from_code(code),
    {
        match code {
            0 => OpCode::HandShake,
            1 => OpCode::Frame,
            2 => OpCode::Close,
            3 => OpCode::Ping,
            4 => OpCode::Pong,
            _ => OpCode::HandShake,
        }
    }
}

/// Reading back the number of an operation code gives the same code.
pub proof fn lemma_opcode_code_roundtrip(op: OpCode)
    ensures
        OpCode::spec_from_code(op.spec_code()) == op,
{
}

/// The four bytes of `x` in the given byte order.
pub open spec fn u32_bytes(x: u32, order: Endian) -> Seq<u8> {
    match order {
        Endian::Little => spec_u32_to_le_bytes(x),
        Endian::Big => spec_u32_to_le_bytes(x).reverse(),
    }
}

/// The number that four bytes stand for in the given byte order.
pub open spec fn u32_from_bytes(b: Seq<u8>, order: Endian) -> u32 {
    match order {
        Endian::Little => spec_u32_from_le_bytes(b),
        Endian::Big => spec_u32_from_le_bytes(b.reverse()),
    }
}

/// Reading four bytes back in the order they were written in gives the number.
pub proof fn lemma_u32_bytes_roundtrip(x: u32, order: Endian)
    ensures
        u32_bytes(x, order).len() == 4,
        u32_from_bytes(u32_bytes(x, order), order) == x,
{
    lemma_auto_spec_u32_to_from_le_bytes();
    let le = spec_u32_to_le_bytes(x);
    assert(le.len() == 4);
    assert(le.reverse().reverse() =~= le);
}

/// `byteorder::NativeEndian::write_u32`: the four bytes of `x` in the byte
/// order of the machine, which is `vstd::endian::endianness()`.
#[verifier::external_body]
fn native_u32_bytes(x: u32) -> (b: [u8; 4])
    ensures
        b@ == u32_bytes(x, endianness()),
{
    let mut buf = [0u8; 4];
    NativeEndian::write_u32(&mut buf, x);
    buf
}

/// `byteorder::NativeEndian::read_u32`: the number that four bytes stand for
/// in the byte order of the machine, which is `vstd::endian::endianness()`.
#[verifier::external_body]
fn native_u32_value(b: &[u8; 4]) -> (x: u32)
    ensures
        x == u32_from_bytes(b@, endianness()),
{
    NativeEndian::read_u32(b)
}

/// `String::from_utf8`: the text that the bytes encode, when they are valid
/// UTF-8. Otherwise its error, taken apart: `Utf8Error::valid_up_to`, the
/// longest prefix that is valid UTF-8, and `FromUtf8Error::into_bytes`, the
/// bytes given.
#[verifier::external_body]
fn string_from_utf8(bytes: Vec<u8>) -> (r: Result<String, (usize, Vec<u8>)>)
    ensures
        r is Ok <==> valid_utf8(bytes@),
        r matches Ok(t) ==> t@ == decode_utf8(bytes@),
        r matches Err((k, b)) ==> b@ == bytes@ && is_valid_prefix_len(bytes@, k as int),
{
    String::from_utf8(bytes).map_err(|e| (e.utf8_error().valid_up_to(), e.into_bytes()))
}

/// `k` is the length of the longest prefix of `bytes` that is valid UTF-8.
pub open spec fn is_valid_prefix_len(bytes: Seq<u8>, k: int) -> bool {
    &&& 0 <= k <= bytes.len()
    &&& valid_utf8(bytes.subrange(0, k))
    &&& forall|j: int| k < j <= bytes.len() ==> !valid_utf8(#[trigger] bytes.subrange(0, j))
}

/// What a frame holds: its operation code, the payload length written in its
/// header, and its payload text.
pub struct DiscordDataView {
    pub opcode: OpCode,
    pub length: u32,
    pub data: Seq<char>,
}

/// A frame of the Discord IPC protocol.
#[derive(Debug)]
pub struct DiscordData {
    opcode: OpCode,
    length: u32,
    data: String,
}

impl View for DiscordData {
    type V = DiscordDataView;

    closed spec fn view(&self) -> DiscordDataView {
        DiscordDataView { opcode: self.opcode, length: self.length, data: self.data@ }
    }
}

/// The eight header bytes of a frame: operation code, then payload length.
pub open spec fn header_bytes(d: DiscordDataView, order: Endian) -> Seq<u8> {
    u32_bytes(d.opcode.spec_code(), order) + u32_bytes(d.length, order)
}

/// The bytes of a frame: its header, then its payload in UTF-8.
pub open spec fn frame_bytes(d: DiscordDataView, order: Endian) -> Seq<u8> {
    header_bytes(d, order) + encode_utf8(d.data)
}

/// What a header announces.
pub struct FrameHeader {
    pub opcode: OpCode,
    pub length: u32,
}

/// The header that eight bytes stand for in the given byte order.
pub open spec fn header_from_bytes(h: Seq<u8>, order: Endian) -> FrameHeader {
    FrameHeader {
        opcode: OpCode::spec_from_code(u32_from_bytes(h.subrange(0, 4), order)),
        length: u32_from_bytes(h.subrange(4, 8), order),
    }
}

/// The frame read from a header and a payload, when the payload is valid
/// UTF-8.
pub open spec fn frame_from_parts(h: Seq<u8>, body: Seq<u8>, order: Endian) -> Option<
    DiscordDataView,
> {
    if valid_utf8(body) {
        let header = header_from_bytes(h, order);
        Some(DiscordDataView { opcode: header.opcode, length: header.length, data: decode_utf8(body) })
    } else {
        None
    }
}

/// Why a frame could not be read.
#[derive(Debug, Clone, PartialEq, Eq)]
pub enum FrameError {
    /// The payload is not valid UTF-8: the payload, and the length of its
    /// longest prefix that is.
    InvalidUtf8 { bytes: Vec<u8>, valid_up_to: usize },
}

/// Reads the header of a frame: operation code and payload length, in the
/// byte order of the machine.
pub fn parse_header(header: &[u8; 8]) -> (h: FrameHeader)
    ensures
        h == header_from_bytes(header@, endianness()),
{
    let op_bytes: [u8; 4] = [header[0], header[1], header[2], header[3]];
    let len_bytes: [u8; 4] = [header[4], header[5], header[6], header[7]];
    assert(op_bytes@ =~= header@.subrange(0, 4));
    assert(len_bytes@ =~= header@.subrange(4, 8));
    let code: u32 = native_u32_value(&op_bytes);
    let length: u32 = native_u32_value(&len_bytes);
    FrameHeader { opcode: OpCode::from_code(code), length }
}

impl DiscordData {
    /// A frame with the given operation code whose payload is `data`; the
    /// length field is the payload's size in bytes (`str::len`), cut to 32
    /// bits.
    pub fn from(opcode: OpCode, data: &str) -> (d: DiscordData)
        ensures
            d@ == (DiscordDataView {
                opcode,
                length: data.len() as u32,
                data: data@,
            }),
    {
        let n: usize = data.len();
        DiscordData { opcode, length: n as u32, data: data.to_owned() }
    }

    /// Reads a frame from its eight header bytes and the payload bytes that
    /// the header announces; fails exactly when the payload is not valid
    /// UTF-8. The length field of the frame read is the size of its payload.
    pub fn from_parts(header: &[u8; 8], body: Vec<u8>) -> (r: Result<DiscordData, FrameError>)
        requires
            body@.len() == header_from_bytes(header@, endianness()).length,
        ensures
            match r {
                Ok(d) => frame_from_parts(header@, body@, endianness()) == Some(d@),
                Err(FrameError::InvalidUtf8 { bytes, valid_up_to }) => frame_from_parts(
                    header@,
                    body@,
                    endianness(),
                ) is None && bytes@ == body@ && is_valid_prefix_len(body@, valid_up_to as int),
            },
            r matches Ok(d) ==> encode_utf8(d@.data).len() == d@.length,
    {
        proof {
            broadcast use vstd::utf8::decode_utf8_encode_utf8;

        }
        let h = parse_header(header);
        match string_from_utf8(body) {
            Ok(data) => Ok(DiscordData { opcode: h.opcode, length: h.length, data }),
            Err((valid_up_to, bytes)) => Err(FrameError::InvalidUtf8 { bytes, valid_up_to }),
        }
    }

    /// The bytes of the frame: header in the byte order of the machine, then
    /// the payload in UTF-8.
    pub fn as_bytes(&self) -> (b: Vec<u8>)
        ensures
            b@ == frame_bytes(self@, endianness()),
    {
        let mut ret: Vec<u8> = Vec::new();
        let opcode = native_u32_bytes(self.opcode.code());
        let length = native_u32_bytes(self.length);
        ret.push(opcode[0]);
        ret.push(opcode[1]);
        ret.push(opcode[2]);
        ret.push(opcode[3]);
        ret.push(length[0]);
        ret.push(length[1]);
        ret.push(length[2]);
        ret.push(length[3]);
        assert(ret@ =~= header_bytes(self@, endianness()));
        let mut data = self.data.as_str().as_bytes_vec();
        ret.append(&mut data);
        ret
    }
}

/// Reading back the bytes of any frame, header and payload, gives the frame.
pub proof fn lemma_frame_roundtrip(d: DiscordDataView, order: Endian)
    ensures
        frame_bytes(d, order).len() == 8 + encode_utf8(d.data).len(),
        frame_from_parts(frame_bytes(d, order).subrange(0, 8), frame_bytes(d, order).subrange(
            8,
            frame_bytes(d, order).len() as int,
        ), order) == Some(d),
{
    broadcast use {encode_utf8_valid_utf8, encode_utf8_decode_utf8};

    lemma_u32_bytes_roundtrip(d.opcode.spec_code(), order);
    lemma_u32_bytes_roundtrip(d.length, order);
    let op = u32_bytes(d.opcode.spec_code(), order);
    let len = u32_bytes(d.length, order);
    let payload = encode_utf8(d.data);
    let bytes = frame_bytes(d, order);
    assert(bytes.subrange(0, 8) =~= op + len);
    assert((op + len).subrange(0, 4) =~= op);
    assert((op + len).subrange(4, 8) =~= len);
    assert(bytes.subrange(8, bytes.len() as int) =~= payload);
    lemma_opcode_code_roundtrip(d.opcode);
}

/// A frame whose length field is the size of its payload is exactly the
/// eight header bytes and that many payload bytes.
pub proof fn lemma_length_field_counts_payload(d: DiscordDataView, order: Endian)
    requires
        d.length == encode_utf8(d.data).len(),
    ensures
        frame_bytes(d, order).len() == 8 + d.length,
        frame_bytes(d, order).subrange(8, 8 + d.length) == encode_utf8(d.data),
{
    lemma_u32_bytes_roundtrip(d.opcode.spec_code(), order);
    lemma_u32_bytes_roundtrip(d.length, order);
    assert(frame_bytes(d, order).subrange(8, 8 + d.length) =~= encode_utf8(d.data));
}

/// The wire numbers of the operation codes are the protocol's: handshake 0,
/// frame 1, close 2, ping 3, pong 4; every number from 5 up is read as a
/// handshake; and the first four bytes of every frame are the bytes of its
/// operation code's number.
pub proof fn lemma_opcode_wire_numbers(d: DiscordDataView, order: Endian, n: u32)
    ensures
        OpCode::HandShake.spec_code() == 0,
        OpCode::Frame.spec_code() == 1,
        OpCode::Close.spec_code() == 2,
        OpCode::Ping.spec_code() == 3,
        OpCode::Pong.spec_code() == 4,
        n >= 5 ==> OpCode::spec_from_code(n) == OpCode::HandShake,
        n < 5 ==> OpCode::spec_from_code(n).spec_code() == n,
        frame_bytes(d, order).subrange(0, 4) == u32_bytes(d.opcode.spec_code(), order),
{
    lemma_u32_bytes_roundtrip(d.opcode.spec_code(), order);
    lemma_u32_bytes_roundtrip(d.length, order);
    assert(frame_bytes(d, order).subrange(0, 4) =~= u32_bytes(d.opcode.spec_code(), order));
}

} // verus!
