//! Wire codec for the Sahara protocol.
//!
//! Every packet is a flat byte buffer with fixed field widths, fixed field
//! order and little-endian integers, with no implicit padding. Each packet
//! starts with an 8-byte header: `message_type: u32`, `length: u32`, where
//! `length` must equal the exact encoded byte size of the packet; a mismatch
//! is a malformed packet and is rejected by the decoders.

use vstd::prelude::*;

verus! {

// Sahara message types.
pub const MSG_HELLO_REQUEST: u32 = 0x1;
pub const MSG_HELLO_RESPONSE: u32 = 0x2;
pub const MSG_READ_DATA: u32 = 0x3;
pub const MSG_END_OF_TRANSFER: u32 = 0x4;
pub const MSG_DONE_REQUEST: u32 = 0x5;
pub const MSG_DONE_RESPONSE: u32 = 0x6;
pub const MSG_RESET_REQUEST: u32 = 0x7;
pub const MSG_RESET_RESPONSE: u32 = 0x8;
pub const MSG_MEMORY_DEBUG: u32 = 0x9;
pub const MSG_MEMORY_READ: u32 = 0xa;
pub const MSG_READY: u32 = 0xb;
pub const MSG_SWITCH_MODE: u32 = 0xc;
pub const MSG_EXECUTE_REQUEST: u32 = 0xd;
pub const MSG_EXECUTE_RESPONSE: u32 = 0xe;
pub const MSG_EXECUTE_DATA: u32 = 0xf;
pub const MSG_64BIT_MEMORY_DEBUG: u32 = 0x10;
pub const MSG_64BIT_MEMORY_READ: u32 = 0x11;
pub const MSG_64BIT_MEMORY_READ_DATA: u32 = 0x12;
pub const MSG_RESET_STATE_MACHINE: u32 = 0x13;

// Exact encoded sizes, one constant per packet type.
pub const HEADER_LEN: usize = 8;
pub const HELLO_REQUEST_LEN: usize = 24;
pub const HELLO_RESPONSE_LEN: usize = 48;
pub const RESET_REQUEST_LEN: usize = 8;
pub const RESET_RESPONSE_LEN: usize = 8;
pub const DONE_REQUEST_LEN: usize = 8;
pub const DONE_RESPONSE_LEN: usize = 12;
pub const EXEC_LEN: usize = 12;
pub const MEMORY_READ_LEN: usize = 16;
pub const END_OF_TRANSFER_LEN: usize = 16;
pub const HARDWARE_ID_LEN: usize = 8;
pub const SERIAL_NO_LEN: usize = 8;
pub const HASH_BLOCK_LEN: usize = 32;
pub const OEM_PK_HASH_LEN: usize = 96;

// ---------------------------------------------------------------------------
// Little-endian integers
// ---------------------------------------------------------------------------

/// The two little-endian bytes of a 16-bit integer.
pub open spec fn spec_u16_le(v: u16) -> Seq<u8> {
    seq![(v & 0xff) as u8, ((v >> 8) & 0xff) as u8]
}

/// The 16-bit integer read from two little-endian bytes.
pub open spec fn spec_u16_from_le(b: Seq<u8>) -> u16 {
    (b[0] + b[1] * 0x100) as u16
}

/// The four little-endian bytes of a 32-bit integer.
pub open spec fn spec_u32_le(v: u32) -> Seq<u8> {
    seq![
        (v & 0xff) as u8,
        ((v >> 8) & 0xff) as u8,
        ((v >> 16) & 0xff) as u8,
        ((v >> 24) & 0xff) as u8,
    ]
}

/// The 32-bit integer read from four little-endian bytes.
pub open spec fn spec_u32_from_le(b: Seq<u8>) -> u32 {
    (b[0] + b[1] * 0x100 + b[2] * 0x10000 + b[3] * 0x1000000) as u32
}

pub proof fn lemma_u16_le_round_trip(v: u16)
    ensures
        spec_u16_le(v).len() == 2,
        spec_u16_from_le(spec_u16_le(v)) == v,
{
    let b0 = (v & 0xff) as u8;
    let b1 = ((v >> 8) & 0xff) as u8;
    assert(b0 + b1 * 0x100 == v) by (bit_vector)
        requires
            b0 == (v & 0xff) as u8,
            b1 == ((v >> 8) & 0xff) as u8,
    ;
}

pub proof fn lemma_u32_le_round_trip(v: u32)
    ensures
        spec_u32_le(v).len() == 4,
        spec_u32_from_le(spec_u32_le(v)) == v,
{
    let b0 = (v & 0xff) as u8;
    let b1 = ((v >> 8) & 0xff) as u8;
    let b2 = ((v >> 16) & 0xff) as u8;
    let b3 = ((v >> 24) & 0xff) as u8;
    assert(b0 + b1 * 0x100 + b2 * 0x10000 + b3 * 0x1000000 == v) by (bit_vector)
        requires
            b0 == (v & 0xff) as u8,
            b1 == ((v >> 8) & 0xff) as u8,
            b2 == ((v >> 16) & 0xff) as u8,
            b3 == ((v >> 24) & 0xff) as u8,
    ;
}

/// Appends the two little-endian bytes of `v` to `out`.
pub fn push_u16_le(out: &mut Vec<u8>, v: u16)
    ensures
        final(out)@ == old(out)@ + spec_u16_le(v),
{
    out.push((v & 0xff) as u8);
    out.push(((v >> 8) & 0xff) as u8);
    proof {
        assert(out@ =~= old(out)@ + spec_u16_le(v));
    }
}

/// Appends the four little-endian bytes of `v` to `out`.
pub fn push_u32_le(out: &mut Vec<u8>, v: u32)
    ensures
        final(out)@ == old(out)@ + spec_u32_le(v),
{
    out.push((v & 0xff) as u8);
    out.push(((v >> 8) & 0xff) as u8);
    out.push(((v >> 16) & 0xff) as u8);
    out.push(((v >> 24) & 0xff) as u8);
    proof {
        assert(out@ =~= old(out)@ + spec_u32_le(v));
    }
}

/// Reads the little-endian 16-bit integer at byte offset `off`.
pub fn read_u16_le(b: &Vec<u8>, off: usize) -> (v: u16)
    requires
        off + 2 <= b.len(),
    ensures
        v == spec_u16_from_le(b@.subrange(off as int, off as int + 2)),
{
    let v: u16 = b[off] as u16 + b[off + 1] as u16 * 0x100;
    proof {
        let s = b@.subrange(off as int, off as int + 2);
        assert(s[0] == b@[off as int] && s[1] == b@[off as int + 1]);
    }
    v
}

/// Reads the little-endian 32-bit integer at byte offset `off`.
pub fn read_u32_le(b: &Vec<u8>, off: usize) -> (v: u32)
    requires
        off + 4 <= b.len(),
    ensures
        v == spec_u32_from_le(b@.subrange(off as int, off as int + 4)),
{
    let v: u32 = b[off] as u32 + b[off + 1] as u32 * 0x100 + b[off + 2] as u32 * 0x10000
        + b[off + 3] as u32 * 0x1000000;
    proof {
        let s = b@.subrange(off as int, off as int + 4);
        assert(s[0] == b@[off as int] && s[1] == b@[off as int + 1] && s[2] == b@[off as int + 2]
            && s[3] == b@[off as int + 3]);
    }
    v
}

// ---------------------------------------------------------------------------
// Byte-buffer helpers
// ---------------------------------------------------------------------------

/// The message type of a packet: its first four bytes, little-endian.
pub open spec fn spec_message_type(b: Seq<u8>) -> u32 {
    spec_u32_from_le(b.subrange(0, 4))
}

/// Copies `len` bytes of `b` starting at `start` into a fresh buffer.
pub fn copy_range(b: &Vec<u8>, start: usize, len: usize) -> (out: Vec<u8>)
    requires
        start + len <= b.len(),
    ensures
        out@ == b@.subrange(start as int, start as int + len as int),
{
    let mut out: Vec<u8> = Vec::new();
    let mut i: usize = 0;
    while i < len
        invariant
            i <= len,
            start + len <= b.len(),
            out@ == b@.subrange(start as int, start as int + i as int),
        decreases len - i,
    {
        out.push(b[start + i]);
        i = i + 1;
        proof {
            assert(out@ =~= b@.subrange(start as int, start as int + i as int));
        }
    }
    out
}

/// Copies a whole buffer.
pub fn clone_bytes(b: &Vec<u8>) -> (out: Vec<u8>)
    ensures
        out@ == b@,
{
    let out = copy_range(b, 0, b.len());
    proof {
        assert(b@.subrange(0, b@.len() as int) =~= b@);
    }
    out
}

// ---------------------------------------------------------------------------
// Packet types
// ---------------------------------------------------------------------------

/// The common 8-byte header that opens every packet.
#[derive(Clone, Copy, Debug, PartialEq, Eq, Structural)]
pub struct PacketHeader {
    pub message_type: u32,
    pub length: u32,
}

/// The device's unsolicited first message.
#[derive(Clone, Copy, Debug, PartialEq, Eq, Structural)]
pub struct HelloRequest {
    pub version: u32,
    pub compatible: u32,
    pub max_len: u32,
    pub mode: u32,
}

/// The host's reply to [`HelloRequest`]; carries the requested protocol mode.
/// Its encoding is padded with six reserved zero words to the negotiated size.
#[derive(Clone, Copy, Debug, PartialEq, Eq, Structural)]
pub struct HelloResponse {
    pub version: u32,
    pub compatible: u32,
    pub status: u32,
    pub mode: u32,
}

/// Host request to reset the device; header only.
#[derive(Clone, Copy, Debug, PartialEq, Eq, Structural)]
pub struct ResetRequest {}

/// Device acknowledgement of a reset; header only.
#[derive(Clone, Copy, Debug, PartialEq, Eq, Structural)]
pub struct ResetResponse {}

/// Host request to end the session; header only.
#[derive(Clone, Copy, Debug, PartialEq, Eq, Structural)]
pub struct DoneRequest {}

/// Device acknowledgement of a done request.
#[derive(Clone, Copy, Debug, PartialEq, Eq, Structural)]
pub struct DoneResponse {
    pub status: u32,
}

/// A command execution packet. It is sent twice per command, once tagged
/// [`MSG_EXECUTE_REQUEST`] and once tagged [`MSG_EXECUTE_DATA`], with the
/// same payload.
#[derive(Clone, Copy, Debug, PartialEq, Eq, Structural)]
pub struct Exec {
    pub command: u32,
}

/// Host request to read device memory.
#[derive(Clone, Copy, Debug, PartialEq, Eq, Structural)]
pub struct MemoryRead32 {
    pub address: u32,
    pub size: u32,
}

/// Device report of any failure (and of regular end of transfer).
#[derive(Clone, Copy, Debug, PartialEq, Eq, Structural)]
pub struct EndOfTransfer {
    pub image: u32,
    pub status: u32,
}

/// Payload of a successful hardware-id command; no header.
#[derive(Clone, Copy, Debug, PartialEq, Eq, Structural)]
pub struct HardwareId {
    pub model: u16,
    pub oem: u16,
    pub id: u32,
}

/// Payload of a successful serial-number command: 8 raw bytes, no header.
#[derive(Debug)]
pub struct SerialNo {
    pub serial: Vec<u8>,
}

impl SerialNo {
    /// A serial number is exactly [`SERIAL_NO_LEN`] bytes.
    pub open spec fn wf(self) -> bool {
        self.serial@.len() == SERIAL_NO_LEN
    }
}

impl View for SerialNo {
    type V = Seq<u8>;

    open spec fn view(&self) -> Seq<u8> {
        self.serial@
    }
}

/// Payload of a successful key-hash command: three 32-byte hash blocks,
/// no header. The blocks are surfaced distinctly; whether they must be
/// mutually equal is a policy decision left to the caller.
#[derive(Debug)]
pub struct OemPkHash {
    pub hash1: Vec<u8>,
    pub hash2: Vec<u8>,
    pub hash3: Vec<u8>,
}

/// Mathematical value of an [`OemPkHash`]: its three blocks as sequences.
#[verifier::ext_equal]
pub struct OemPkHashV {
    pub hash1: Seq<u8>,
    pub hash2: Seq<u8>,
    pub hash3: Seq<u8>,
}

impl OemPkHash {
    /// Each hash block is exactly [`HASH_BLOCK_LEN`] bytes.
    pub open spec fn wf(self) -> bool {
        self.hash1@.len() == HASH_BLOCK_LEN && self.hash2@.len() == HASH_BLOCK_LEN
            && self.hash3@.len() == HASH_BLOCK_LEN
    }
}

impl View for OemPkHash {
    type V = OemPkHashV;

    open spec fn view(&self) -> OemPkHashV {
        OemPkHashV { hash1: self.hash1@, hash2: self.hash2@, hash3: self.hash3@ }
    }
}

// ---------------------------------------------------------------------------
// Encodings, as sequences
// ---------------------------------------------------------------------------

/// The 8 header bytes for a given message type and packet length.
pub open spec fn spec_header_bytes(message_type: u32, length: u32) -> Seq<u8> {
    spec_u32_le(message_type) + spec_u32_le(length)
}

pub open spec fn spec_hello_request_bytes(p: HelloRequest) -> Seq<u8> {
    spec_header_bytes(MSG_HELLO_REQUEST, HELLO_REQUEST_LEN as u32) + spec_u32_le(p.version)
        + spec_u32_le(p.compatible) + spec_u32_le(p.max_len) + spec_u32_le(p.mode)
}

pub open spec fn spec_hello_response_bytes(p: HelloResponse) -> Seq<u8> {
    spec_header_bytes(MSG_HELLO_RESPONSE, HELLO_RESPONSE_LEN as u32) + spec_u32_le(p.version)
        + spec_u32_le(p.compatible) + spec_u32_le(p.status) + spec_u32_le(p.mode) + spec_u32_le(0)
        + spec_u32_le(0) + spec_u32_le(0) + spec_u32_le(0) + spec_u32_le(0) + spec_u32_le(0)
}

pub open spec fn spec_reset_request_bytes() -> Seq<u8> {
    spec_header_bytes(MSG_RESET_REQUEST, RESET_REQUEST_LEN as u32)
}

pub open spec fn spec_reset_response_bytes() -> Seq<u8> {
    spec_header_bytes(MSG_RESET_RESPONSE, RESET_RESPONSE_LEN as u32)
}

pub open spec fn spec_done_request_bytes() -> Seq<u8> {
    spec_header_bytes(MSG_DONE_REQUEST, DONE_REQUEST_LEN as u32)
}

pub open spec fn spec_done_response_bytes(p: DoneResponse) -> Seq<u8> {
    spec_header_bytes(MSG_DONE_RESPONSE, DONE_RESPONSE_LEN as u32) + spec_u32_le(p.status)
}

/// An execution packet's bytes; `message_type` picks the phase,
/// [`MSG_EXECUTE_REQUEST`] or [`MSG_EXECUTE_DATA`].
pub open spec fn spec_exec_bytes(message_type: u32, p: Exec) -> Seq<u8> {
    spec_header_bytes(message_type, EXEC_LEN as u32) + spec_u32_le(p.command)
}

pub open spec fn spec_memory_read_bytes(p: MemoryRead32) -> Seq<u8> {
    spec_header_bytes(MSG_MEMORY_READ, MEMORY_READ_LEN as u32) + spec_u32_le(p.address)
        + spec_u32_le(p.size)
}

pub open spec fn spec_end_of_transfer_bytes(p: EndOfTransfer) -> Seq<u8> {
    spec_header_bytes(MSG_END_OF_TRANSFER, END_OF_TRANSFER_LEN as u32) + spec_u32_le(p.image)
        + spec_u32_le(p.status)
}

pub open spec fn spec_hardware_id_bytes(p: HardwareId) -> Seq<u8> {
    spec_u16_le(p.model) + spec_u16_le(p.oem) + spec_u32_le(p.id)
}

// ---------------------------------------------------------------------------
// Decodings, as functions of the received bytes
// ---------------------------------------------------------------------------

pub open spec fn spec_decode_header(b: Seq<u8>) -> Option<PacketHeader> {
    if b.len() >= HEADER_LEN {
        Some(
            PacketHeader {
                message_type: spec_u32_from_le(b.subrange(0, 4)),
                length: spec_u32_from_le(b.subrange(4, 8)),
            },
        )
    } else {
        None
    }
}

pub open spec fn spec_decode_hello_request(b: Seq<u8>) -> Option<HelloRequest> {
    if b.len() >= HELLO_REQUEST_LEN && spec_message_type(b) == MSG_HELLO_REQUEST
        && spec_u32_from_le(b.subrange(4, 8)) == HELLO_REQUEST_LEN as u32 {
        Some(
            HelloRequest {
                version: spec_u32_from_le(b.subrange(8, 12)),
                compatible: spec_u32_from_le(b.subrange(12, 16)),
                max_len: spec_u32_from_le(b.subrange(16, 20)),
                mode: spec_u32_from_le(b.subrange(20, 24)),
            },
        )
    } else {
        None
    }
}

pub open spec fn spec_decode_hello_response(b: Seq<u8>) -> Option<HelloResponse> {
    if b.len() >= HELLO_RESPONSE_LEN && spec_message_type(b) == MSG_HELLO_RESPONSE
        && spec_u32_from_le(b.subrange(4, 8)) == HELLO_RESPONSE_LEN as u32 {
        Some(
            HelloResponse {
                version: spec_u32_from_le(b.subrange(8, 12)),
                compatible: spec_u32_from_le(b.subrange(12, 16)),
                status: spec_u32_from_le(b.subrange(16, 20)),
                mode: spec_u32_from_le(b.subrange(20, 24)),
            },
        )
    } else {
        None
    }
}

pub open spec fn spec_decode_reset_request(b: Seq<u8>) -> Option<ResetRequest> {
    if b.len() >= RESET_REQUEST_LEN && spec_message_type(b) == MSG_RESET_REQUEST
        && spec_u32_from_le(b.subrange(4, 8)) == RESET_REQUEST_LEN as u32 {
        Some(ResetRequest {})
    } else {
        None
    }
}

pub open spec fn spec_decode_reset_response(b: Seq<u8>) -> Option<ResetResponse> {
    if b.len() >= RESET_RESPONSE_LEN && spec_message_type(b) == MSG_RESET_RESPONSE
        && spec_u32_from_le(b.subrange(4, 8)) == RESET_RESPONSE_LEN as u32 {
        Some(ResetResponse {})
    } else {
        None
    }
}

pub open spec fn spec_decode_done_request(b: Seq<u8>) -> Option<DoneRequest> {
    if b.len() >= DONE_REQUEST_LEN && spec_message_type(b) == MSG_DONE_REQUEST
        && spec_u32_from_le(b.subrange(4, 8)) == DONE_REQUEST_LEN as u32 {
        Some(DoneRequest {})
    } else {
        None
    }
}

pub open spec fn spec_decode_done_response(b: Seq<u8>) -> Option<DoneResponse> {
    if b.len() >= DONE_RESPONSE_LEN && spec_message_type(b) == MSG_DONE_RESPONSE
        && spec_u32_from_le(b.subrange(4, 8)) == DONE_RESPONSE_LEN as u32 {
        Some(DoneResponse { status: spec_u32_from_le(b.subrange(8, 12)) })
    } else {
        None
    }
}

pub open spec fn spec_decode_exec(b: Seq<u8>) -> Option<(u32, Exec)> {
    if b.len() >= EXEC_LEN && (spec_message_type(b) == MSG_EXECUTE_REQUEST || spec_message_type(b)
        == MSG_EXECUTE_DATA) && spec_u32_from_le(b.subrange(4, 8)) == EXEC_LEN as u32 {
        Some((spec_message_type(b), Exec { command: spec_u32_from_le(b.subrange(8, 12)) }))
    } else {
        None
    }
}

pub open spec fn spec_decode_memory_read(b: Seq<u8>) -> Option<MemoryRead32> {
    if b.len() >= MEMORY_READ_LEN && spec_message_type(b) == MSG_MEMORY_READ && spec_u32_from_le(
        b.subrange(4, 8),
    ) == MEMORY_READ_LEN as u32 {
        Some(
            MemoryRead32 {
                address: spec_u32_from_le(b.subrange(8, 12)),
                size: spec_u32_from_le(b.subrange(12, 16)),
            },
        )
    } else {
        None
    }
}

pub open spec fn spec_decode_end_of_transfer(b: Seq<u8>) -> Option<EndOfTransfer> {
    if b.len() >= END_OF_TRANSFER_LEN && spec_message_type(b) == MSG_END_OF_TRANSFER
        && spec_u32_from_le(b.subrange(4, 8)) == END_OF_TRANSFER_LEN as u32 {
        Some(
            EndOfTransfer {
                image: spec_u32_from_le(b.subrange(8, 12)),
                status: spec_u32_from_le(b.subrange(12, 16)),
            },
        )
    } else {
        None
    }
}

pub open spec fn spec_decode_hardware_id(b: Seq<u8>) -> Option<HardwareId> {
    if b.len() >= HARDWARE_ID_LEN {
        Some(
            HardwareId {
                model: spec_u16_from_le(b.subrange(0, 2)),
                oem: spec_u16_from_le(b.subrange(2, 4)),
                id: spec_u32_from_le(b.subrange(4, 8)),
            },
        )
    } else {
        None
    }
}

pub open spec fn spec_decode_serial_no(b: Seq<u8>) -> Option<Seq<u8>> {
    if b.len() >= SERIAL_NO_LEN {
        Some(b.subrange(0, SERIAL_NO_LEN as int))
    } else {
        None
    }
}

pub open spec fn spec_decode_oem_pk_hash(b: Seq<u8>) -> Option<OemPkHashV> {
    if b.len() >= OEM_PK_HASH_LEN {
        Some(
            OemPkHashV {
                hash1: b.subrange(0, 32),
                hash2: b.subrange(32, 64),
                hash3: b.subrange(64, 96),
            },
        )
    } else {
        None
    }
}

// ---------------------------------------------------------------------------
// Executable encoders
// ---------------------------------------------------------------------------

/// Appends the 8 header bytes for a packet of the given type and length.
fn push_header(out: &mut Vec<u8>, message_type: u32, length: u32)
    ensures
        final(out)@ == old(out)@ + spec_header_bytes(message_type, length),
{
    push_u32_le(out, message_type);
    push_u32_le(out, length);
    proof {
        assert(out@ =~= old(out)@ + spec_header_bytes(message_type, length));
    }
}

pub fn encode_hello_request(p: &HelloRequest) -> (out: Vec<u8>)
    ensures
        out@ == spec_hello_request_bytes(*p),
{
    let mut out: Vec<u8> = Vec::new();
    push_header(&mut out, MSG_HELLO_REQUEST, HELLO_REQUEST_LEN as u32);
    push_u32_le(&mut out, p.version);
    push_u32_le(&mut out, p.compatible);
    push_u32_le(&mut out, p.max_len);
    push_u32_le(&mut out, p.mode);
    proof {
        assert(out@ =~= spec_hello_request_bytes(*p));
    }
    out
}

pub fn encode_hello_response(p: &HelloResponse) -> (out: Vec<u8>)
    ensures
        out@ == spec_hello_response_bytes(*p),
{
    let mut out: Vec<u8> = Vec::new();
    push_header(&mut out, MSG_HELLO_RESPONSE, HELLO_RESPONSE_LEN as u32);
    push_u32_le(&mut out, p.version);
    push_u32_le(&mut out, p.compatible);
    push_u32_le(&mut out, p.status);
    push_u32_le(&mut out, p.mode);
    let mut i: usize = 0;
    while i < 6
        invariant
            i <= 6,
            out@ == spec_header_bytes(MSG_HELLO_RESPONSE, HELLO_RESPONSE_LEN as u32)
                + spec_u32_le(p.version) + spec_u32_le(p.compatible) + spec_u32_le(p.status)
                + spec_u32_le(p.mode) + zero_words(i as int),
        decreases 6 - i,
    {
        push_u32_le(&mut out, 0);
        i = i + 1;
        proof {
            assert(zero_words(i as int) =~= zero_words(i as int - 1) + spec_u32_le(0));
            assert(out@ =~= spec_header_bytes(MSG_HELLO_RESPONSE, HELLO_RESPONSE_LEN as u32)
                + spec_u32_le(p.version) + spec_u32_le(p.compatible) + spec_u32_le(p.status)
                + spec_u32_le(p.mode) + zero_words(i as int));
        }
    }
    proof {
        reveal_with_fuel(zero_words, 7);
        assert(out@ =~= spec_hello_response_bytes(*p));
    }
    out
}

/// The reserved tail of a hello response: `n` zero words.
pub open spec fn zero_words(n: int) -> Seq<u8>
    decreases n,
{
    if n <= 0 {
        Seq::empty()
    } else {
        zero_words(n - 1) + spec_u32_le(0)
    }
}

pub fn encode_reset_request(p: &ResetRequest) -> (out: Vec<u8>)
    ensures
        out@ == spec_reset_request_bytes(),
{
    let mut out: Vec<u8> = Vec::new();
    push_header(&mut out, MSG_RESET_REQUEST, RESET_REQUEST_LEN as u32);
    out
}

pub fn encode_reset_response(p: &ResetResponse) -> (out: Vec<u8>)
    ensures
        out@ == spec_reset_response_bytes(),
{
    let mut out: Vec<u8> = Vec::new();
    push_header(&mut out, MSG_RESET_RESPONSE, RESET_RESPONSE_LEN as u32);
    out
}

pub fn encode_done_request(p: &DoneRequest) -> (out: Vec<u8>)
    ensures
        out@ == spec_done_request_bytes(),
{
    let mut out: Vec<u8> = Vec::new();
    push_header(&mut out, MSG_DONE_REQUEST, DONE_REQUEST_LEN as u32);
    out
}

pub fn encode_done_response(p: &DoneResponse) -> (out: Vec<u8>)
    ensures
        out@ == spec_done_response_bytes(*p),
{
    let mut out: Vec<u8> = Vec::new();
    push_header(&mut out, MSG_DONE_RESPONSE, DONE_RESPONSE_LEN as u32);
    push_u32_le(&mut out, p.status);
    proof {
        assert(out@ =~= spec_done_response_bytes(*p));
    }
    out
}

pub fn encode_exec(message_type: u32, p: &Exec) -> (out: Vec<u8>)
    requires
        message_type == MSG_EXECUTE_REQUEST || message_type == MSG_EXECUTE_DATA,
    ensures
        out@ == spec_exec_bytes(message_type, *p),
{
    let mut out: Vec<u8> = Vec::new();
    push_header(&mut out, message_type, EXEC_LEN as u32);
    push_u32_le(&mut out, p.command);
    proof {
        assert(out@ =~= spec_exec_bytes(message_type, *p));
    }
    out
}

pub fn encode_memory_read(p: &MemoryRead32) -> (out: Vec<u8>)
    ensures
        out@ == spec_memory_read_bytes(*p),
{
    let mut out: Vec<u8> = Vec::new();
    push_header(&mut out, MSG_MEMORY_READ, MEMORY_READ_LEN as u32);
    push_u32_le(&mut out, p.address);
    push_u32_le(&mut out, p.size);
    proof {
        assert(out@ =~= spec_memory_read_bytes(*p));
    }
    out
}

pub fn encode_end_of_transfer(p: &EndOfTransfer) -> (out: Vec<u8>)
    ensures
        out@ == spec_end_of_transfer_bytes(*p),
{
    let mut out: Vec<u8> = Vec::new();
    push_header(&mut out, MSG_END_OF_TRANSFER, END_OF_TRANSFER_LEN as u32);
    push_u32_le(&mut out, p.image);
    push_u32_le(&mut out, p.status);
    proof {
        assert(out@ =~= spec_end_of_transfer_bytes(*p));
    }
    out
}

pub fn encode_hardware_id(p: &HardwareId) -> (out: Vec<u8>)
    ensures
        out@ == spec_hardware_id_bytes(*p),
{
    let mut out: Vec<u8> = Vec::new();
    push_u16_le(&mut out, p.model);
    push_u16_le(&mut out, p.oem);
    push_u32_le(&mut out, p.id);
    proof {
        assert(out@ =~= spec_hardware_id_bytes(*p));
    }
    out
}

pub fn encode_serial_no(p: &SerialNo) -> (out: Vec<u8>)
    ensures
        out@ == p@,
{
    clone_bytes(&p.serial)
}

pub fn encode_oem_pk_hash(p: &OemPkHash) -> (out: Vec<u8>)
    ensures
        out@ == p@.hash1 + p@.hash2 + p@.hash3,
{
    let mut out = clone_bytes(&p.hash1);
    let mut second = clone_bytes(&p.hash2);
    let mut third = clone_bytes(&p.hash3);
    out.append(&mut second);
    out.append(&mut third);
    out
}

// ---------------------------------------------------------------------------
// Executable decoders
// ---------------------------------------------------------------------------

pub fn decode_header(b: &Vec<u8>) -> (r: Option<PacketHeader>)
    ensures
        r == spec_decode_header(b@),
{
    if b.len() < HEADER_LEN {
        return None;
    }
    Some(PacketHeader { message_type: read_u32_le(b, 0), length: read_u32_le(b, 4) })
}

pub fn decode_hello_request(b: &Vec<u8>) -> (r: Option<HelloRequest>)
    ensures
        r == spec_decode_hello_request(b@),
{
    if b.len() < HELLO_REQUEST_LEN {
        return None;
    }
    if read_u32_le(b, 0) != MSG_HELLO_REQUEST || read_u32_le(b, 4) != HELLO_REQUEST_LEN as u32 {
        return None;
    }
    Some(
        HelloRequest {
            version: read_u32_le(b, 8),
            compatible: read_u32_le(b, 12),
            max_len: read_u32_le(b, 16),
            mode: read_u32_le(b, 20),
        },
    )
}

pub fn decode_hello_response(b: &Vec<u8>) -> (r: Option<HelloResponse>)
    ensures
        r == spec_decode_hello_response(b@),
{
    if b.len() < HELLO_RESPONSE_LEN {
        return None;
    }
    if read_u32_le(b, 0) != MSG_HELLO_RESPONSE || read_u32_le(b, 4) != HELLO_RESPONSE_LEN as u32 {
        return None;
    }
    Some(
        HelloResponse {
            version: read_u32_le(b, 8),
            compatible: read_u32_le(b, 12),
            status: read_u32_le(b, 16),
            mode: read_u32_le(b, 20),
        },
    )
}

pub fn decode_reset_request(b: &Vec<u8>) -> (r: Option<ResetRequest>)
    ensures
        r == spec_decode_reset_request(b@),
{
    if b.len() < RESET_REQUEST_LEN {
        return None;
    }
    if read_u32_le(b, 0) != MSG_RESET_REQUEST || read_u32_le(b, 4) != RESET_REQUEST_LEN as u32 {
        return None;
    }
    Some(ResetRequest {})
}

pub fn decode_reset_response(b: &Vec<u8>) -> (r: Option<ResetResponse>)
    ensures
        r == spec_decode_reset_response(b@),
{
    if b.len() < RESET_RESPONSE_LEN {
        return None;
    }
    if read_u32_le(b, 0) != MSG_RESET_RESPONSE || read_u32_le(b, 4) != RESET_RESPONSE_LEN as u32 {
        return None;
    }
    Some(ResetResponse {})
}

pub fn decode_done_request(b: &Vec<u8>) -> (r: Option<DoneRequest>)
    ensures
        r == spec_decode_done_request(b@),
{
    if b.len() < DONE_REQUEST_LEN {
        return None;
    }
    if read_u32_le(b, 0) != MSG_DONE_REQUEST || read_u32_le(b, 4) != DONE_REQUEST_LEN as u32 {
        return None;
    }
    Some(DoneRequest {})
}

pub fn decode_done_response(b: &Vec<u8>) -> (r: Option<DoneResponse>)
    ensures
        r == spec_decode_done_response(b@),
{
    if b.len() < DONE_RESPONSE_LEN {
        return None;
    }
    if read_u32_le(b, 0) != MSG_DONE_RESPONSE || read_u32_le(b, 4) != DONE_RESPONSE_LEN as u32 {
        return None;
    }
    Some(DoneResponse { status: read_u32_le(b, 8) })
}

pub fn decode_exec(b: &Vec<u8>) -> (r: Option<(u32, Exec)>)
    ensures
        r == spec_decode_exec(b@),
{
    if b.len() < EXEC_LEN {
        return None;
    }
    let mt = read_u32_le(b, 0);
    if mt != MSG_EXECUTE_REQUEST && mt != MSG_EXECUTE_DATA {
        return None;
    }
    if read_u32_le(b, 4) != EXEC_LEN as u32 {
        return None;
    }
    Some((mt, Exec { command: read_u32_le(b, 8) }))
}

pub fn decode_memory_read(b: &Vec<u8>) -> (r: Option<MemoryRead32>)
    ensures
        r == spec_decode_memory_read(b@),
{
    if b.len() < MEMORY_READ_LEN {
        return None;
    }
    if read_u32_le(b, 0) != MSG_MEMORY_READ || read_u32_le(b, 4) != MEMORY_READ_LEN as u32 {
        return None;
    }
    Some(MemoryRead32 { address: read_u32_le(b, 8), size: read_u32_le(b, 12) })
}

pub fn decode_end_of_transfer(b: &Vec<u8>) -> (r: Option<EndOfTransfer>)
    ensures
        r == spec_decode_end_of_transfer(b@),
{
    if b.len() < END_OF_TRANSFER_LEN {
        return None;
    }
    if read_u32_le(b, 0) != MSG_END_OF_TRANSFER || read_u32_le(b, 4) != END_OF_TRANSFER_LEN as u32 {
        return None;
    }
    Some(EndOfTransfer { image: read_u32_le(b, 8), status: read_u32_le(b, 12) })
}

pub fn decode_hardware_id(b: &Vec<u8>) -> (r: Option<HardwareId>)
    ensures
        r == spec_decode_hardware_id(b@),
{
    if b.len() < HARDWARE_ID_LEN {
        return None;
    }
    Some(HardwareId { model: read_u16_le(b, 0), oem: read_u16_le(b, 2), id: read_u32_le(b, 4) })
}

pub fn decode_serial_no(b: &Vec<u8>) -> (r: Option<SerialNo>)
    ensures
        b@.len() >= SERIAL_NO_LEN ==> r is Some && r.unwrap()@ == spec_decode_serial_no(
            b@,
        ).unwrap() && r.unwrap().wf(),
        b@.len() < SERIAL_NO_LEN ==> r is None,
{
    if b.len() < SERIAL_NO_LEN {
        return None;
    }
    Some(SerialNo { serial: copy_range(b, 0, SERIAL_NO_LEN) })
}

pub fn decode_oem_pk_hash(b: &Vec<u8>) -> (r: Option<OemPkHash>)
    ensures
        b@.len() >= OEM_PK_HASH_LEN ==> r is Some && r.unwrap()@ == spec_decode_oem_pk_hash(
            b@,
        ).unwrap() && r.unwrap().wf(),
        b@.len() < OEM_PK_HASH_LEN ==> r is None,
{
    if b.len() < OEM_PK_HASH_LEN {
        return None;
    }
    Some(
        OemPkHash {
            hash1: copy_range(b, 0, HASH_BLOCK_LEN),
            hash2: copy_range(b, HASH_BLOCK_LEN, HASH_BLOCK_LEN),
            hash3: copy_range(b, 2 * HASH_BLOCK_LEN, HASH_BLOCK_LEN),
        },
    )
}

// ---------------------------------------------------------------------------
// Round trips: decoding an encoded packet gives the packet back, and the
// encoded length always equals the length field written into the header.
// ---------------------------------------------------------------------------

/// Decoding an encoded header yields the header.
pub proof fn lemma_header_round_trip(p: PacketHeader)
    ensures
        spec_header_bytes(p.message_type, p.length).len() == HEADER_LEN,
        spec_decode_header(spec_header_bytes(p.message_type, p.length)) == Some(p),
{
    let b = spec_header_bytes(p.message_type, p.length);
    assert(b.subrange(0, 4) =~= spec_u32_le(p.message_type));
    assert(b.subrange(4, 8) =~= spec_u32_le(p.length));
    lemma_u32_le_round_trip(p.message_type);
    lemma_u32_le_round_trip(p.length);
}

/// Round trip for hello requests; the encoded length equals the header's
/// length field.
pub proof fn lemma_hello_request_round_trip(p: HelloRequest)
    ensures
        spec_hello_request_bytes(p).len() == HELLO_REQUEST_LEN,
        spec_u32_from_le(spec_hello_request_bytes(p).subrange(4, 8)) == HELLO_REQUEST_LEN as u32,
        spec_decode_hello_request(spec_hello_request_bytes(p)) == Some(p),
{
    let b = spec_hello_request_bytes(p);
    assert(b.subrange(0, 4) =~= spec_u32_le(MSG_HELLO_REQUEST));
    assert(b.subrange(4, 8) =~= spec_u32_le(HELLO_REQUEST_LEN as u32));
    assert(b.subrange(8, 12) =~= spec_u32_le(p.version));
    assert(b.subrange(12, 16) =~= spec_u32_le(p.compatible));
    assert(b.subrange(16, 20) =~= spec_u32_le(p.max_len));
    assert(b.subrange(20, 24) =~= spec_u32_le(p.mode));
    lemma_u32_le_round_trip(MSG_HELLO_REQUEST);
    lemma_u32_le_round_trip(HELLO_REQUEST_LEN as u32);
    lemma_u32_le_round_trip(p.version);
    lemma_u32_le_round_trip(p.compatible);
    lemma_u32_le_round_trip(p.max_len);
    lemma_u32_le_round_trip(p.mode);
}

/// Round trip for hello responses; the reserved zero words count towards the
/// length field but carry no fields.
pub proof fn lemma_hello_response_round_trip(p: HelloResponse)
    ensures
        spec_hello_response_bytes(p).len() == HELLO_RESPONSE_LEN,
        spec_u32_from_le(spec_hello_response_bytes(p).subrange(4, 8)) == HELLO_RESPONSE_LEN as u32,
        spec_decode_hello_response(spec_hello_response_bytes(p)) == Some(p),
{
    let b = spec_hello_response_bytes(p);
    assert(b.subrange(0, 4) =~= spec_u32_le(MSG_HELLO_RESPONSE));
    assert(b.subrange(4, 8) =~= spec_u32_le(HELLO_RESPONSE_LEN as u32));
    assert(b.subrange(8, 12) =~= spec_u32_le(p.version));
    assert(b.subrange(12, 16) =~= spec_u32_le(p.compatible));
    assert(b.subrange(16, 20) =~= spec_u32_le(p.status));
    assert(b.subrange(20, 24) =~= spec_u32_le(p.mode));
    lemma_u32_le_round_trip(MSG_HELLO_RESPONSE);
    lemma_u32_le_round_trip(HELLO_RESPONSE_LEN as u32);
    lemma_u32_le_round_trip(p.version);
    lemma_u32_le_round_trip(p.compatible);
    lemma_u32_le_round_trip(p.status);
    lemma_u32_le_round_trip(p.mode);
}

pub proof fn lemma_reset_request_round_trip()
    ensures
        spec_reset_request_bytes().len() == RESET_REQUEST_LEN,
        spec_u32_from_le(spec_reset_request_bytes().subrange(4, 8)) == RESET_REQUEST_LEN as u32,
        spec_decode_reset_request(spec_reset_request_bytes()) == Some(ResetRequest {}),
{
    let b = spec_reset_request_bytes();
    assert(b.subrange(0, 4) =~= spec_u32_le(MSG_RESET_REQUEST));
    assert(b.subrange(4, 8) =~= spec_u32_le(RESET_REQUEST_LEN as u32));
    lemma_u32_le_round_trip(MSG_RESET_REQUEST);
    lemma_u32_le_round_trip(RESET_REQUEST_LEN as u32);
}

pub proof fn lemma_reset_response_round_trip()
    ensures
        spec_reset_response_bytes().len() == RESET_RESPONSE_LEN,
        spec_u32_from_le(spec_reset_response_bytes().subrange(4, 8)) == RESET_RESPONSE_LEN as u32,
        spec_decode_reset_response(spec_reset_response_bytes()) == Some(ResetResponse {}),
{
    let b = spec_reset_response_bytes();
    assert(b.subrange(0, 4) =~= spec_u32_le(MSG_RESET_RESPONSE));
    assert(b.subrange(4, 8) =~= spec_u32_le(RESET_RESPONSE_LEN as u32));
    lemma_u32_le_round_trip(MSG_RESET_RESPONSE);
    lemma_u32_le_round_trip(RESET_RESPONSE_LEN as u32);
}

pub proof fn lemma_done_request_round_trip()
    ensures
        spec_done_request_bytes().len() == DONE_REQUEST_LEN,
        spec_u32_from_le(spec_done_request_bytes().subrange(4, 8)) == DONE_REQUEST_LEN as u32,
        spec_decode_done_request(spec_done_request_bytes()) == Some(DoneRequest {}),
{
    let b = spec_done_request_bytes();
    assert(b.subrange(0, 4) =~= spec_u32_le(MSG_DONE_REQUEST));
    assert(b.subrange(4, 8) =~= spec_u32_le(DONE_REQUEST_LEN as u32));
    lemma_u32_le_round_trip(MSG_DONE_REQUEST);
    lemma_u32_le_round_trip(DONE_REQUEST_LEN as u32);
}

pub proof fn lemma_done_response_round_trip(p: DoneResponse)
    ensures
        spec_done_response_bytes(p).len() == DONE_RESPONSE_LEN,
        spec_u32_from_le(spec_done_response_bytes(p).subrange(4, 8)) == DONE_RESPONSE_LEN as u32,
        spec_decode_done_response(spec_done_response_bytes(p)) == Some(p),
{
    let b = spec_done_response_bytes(p);
    assert(b.subrange(0, 4) =~= spec_u32_le(MSG_DONE_RESPONSE));
    assert(b.subrange(4, 8) =~= spec_u32_le(DONE_RESPONSE_LEN as u32));
    assert(b.subrange(8, 12) =~= spec_u32_le(p.status));
    lemma_u32_le_round_trip(MSG_DONE_RESPONSE);
    lemma_u32_le_round_trip(DONE_RESPONSE_LEN as u32);
    lemma_u32_le_round_trip(p.status);
}

/// Round trip for execution packets, in either phase.
pub proof fn lemma_exec_round_trip(message_type: u32, p: Exec)
    requires
        message_type == MSG_EXECUTE_REQUEST || message_type == MSG_EXECUTE_DATA,
    ensures
        spec_exec_bytes(message_type, p).len() == EXEC_LEN,
        spec_u32_from_le(spec_exec_bytes(message_type, p).subrange(4, 8)) == EXEC_LEN as u32,
        spec_decode_exec(spec_exec_bytes(message_type, p)) == Some((message_type, p)),
{
    let b = spec_exec_bytes(message_type, p);
    assert(b.subrange(0, 4) =~= spec_u32_le(message_type));
    assert(b.subrange(4, 8) =~= spec_u32_le(EXEC_LEN as u32));
    assert(b.subrange(8, 12) =~= spec_u32_le(p.command));
    lemma_u32_le_round_trip(message_type);
    lemma_u32_le_round_trip(EXEC_LEN as u32);
    lemma_u32_le_round_trip(p.command);
}

pub proof fn lemma_memory_read_round_trip(p: MemoryRead32)
    ensures
        spec_memory_read_bytes(p).len() == MEMORY_READ_LEN,
        spec_u32_from_le(spec_memory_read_bytes(p).subrange(4, 8)) == MEMORY_READ_LEN as u32,
        spec_decode_memory_read(spec_memory_read_bytes(p)) == Some(p),
{
    let b = spec_memory_read_bytes(p);
    assert(b.subrange(0, 4) =~= spec_u32_le(MSG_MEMORY_READ));
    assert(b.subrange(4, 8) =~= spec_u32_le(MEMORY_READ_LEN as u32));
    assert(b.subrange(8, 12) =~= spec_u32_le(p.address));
    assert(b.subrange(12, 16) =~= spec_u32_le(p.size));
    lemma_u32_le_round_trip(MSG_MEMORY_READ);
    lemma_u32_le_round_trip(MEMORY_READ_LEN as u32);
    lemma_u32_le_round_trip(p.address);
    lemma_u32_le_round_trip(p.size);
}

pub proof fn lemma_end_of_transfer_round_trip(p: EndOfTransfer)
    ensures
        spec_end_of_transfer_bytes(p).len() == END_OF_TRANSFER_LEN,
        spec_u32_from_le(spec_end_of_transfer_bytes(p).subrange(4, 8)) == END_OF_TRANSFER_LEN
            as u32,
        spec_decode_end_of_transfer(spec_end_of_transfer_bytes(p)) == Some(p),
{
    let b = spec_end_of_transfer_bytes(p);
    assert(b.subrange(0, 4) =~= spec_u32_le(MSG_END_OF_TRANSFER));
    assert(b.subrange(4, 8) =~= spec_u32_le(END_OF_TRANSFER_LEN as u32));
    assert(b.subrange(8, 12) =~= spec_u32_le(p.image));
    assert(b.subrange(12, 16) =~= spec_u32_le(p.status));
    lemma_u32_le_round_trip(MSG_END_OF_TRANSFER);
    lemma_u32_le_round_trip(END_OF_TRANSFER_LEN as u32);
    lemma_u32_le_round_trip(p.image);
    lemma_u32_le_round_trip(p.status);
}

/// Round trip for the headerless hardware-id payload.
pub proof fn lemma_hardware_id_round_trip(p: HardwareId)
    ensures
        spec_hardware_id_bytes(p).len() == HARDWARE_ID_LEN,
        spec_decode_hardware_id(spec_hardware_id_bytes(p)) == Some(p),
{
    let b = spec_hardware_id_bytes(p);
    assert(b.subrange(0, 2) =~= spec_u16_le(p.model));
    assert(b.subrange(2, 4) =~= spec_u16_le(p.oem));
    assert(b.subrange(4, 8) =~= spec_u32_le(p.id));
    lemma_u16_le_round_trip(p.model);
    lemma_u16_le_round_trip(p.oem);
    lemma_u32_le_round_trip(p.id);
}

/// Round trip for the headerless serial-number payload: it is its own
/// encoding.
pub proof fn lemma_serial_no_round_trip(serial: Seq<u8>)
    requires
        serial.len() == SERIAL_NO_LEN,
    ensures
        spec_decode_serial_no(serial) == Some(serial),
{
    assert(serial.subrange(0, SERIAL_NO_LEN as int) =~= serial);
}

/// Round trip for the headerless key-hash payload: three 32-byte blocks laid
/// out back to back.
pub proof fn lemma_oem_pk_hash_round_trip(p: OemPkHashV)
    requires
        p.hash1.len() == HASH_BLOCK_LEN,
        p.hash2.len() == HASH_BLOCK_LEN,
        p.hash3.len() == HASH_BLOCK_LEN,
    ensures
        (p.hash1 + p.hash2 + p.hash3).len() == OEM_PK_HASH_LEN,
        spec_decode_oem_pk_hash(p.hash1 + p.hash2 + p.hash3) == Some(p),
{
    let b = p.hash1 + p.hash2 + p.hash3;
    assert(b.subrange(0, 32) =~= p.hash1);
    assert(b.subrange(32, 64) =~= p.hash2);
    assert(b.subrange(64, 96) =~= p.hash3);
}

} // verus!
