//! Round trips and framing checks for the wire codec.

use sahara::wire::{
    decode_done_request, decode_done_response, decode_end_of_transfer, decode_exec,
    decode_hardware_id, decode_header, decode_hello_request, decode_hello_response,
    decode_memory_read, decode_oem_pk_hash, decode_reset_request, decode_reset_response,
    decode_serial_no, encode_done_request, encode_done_response, encode_end_of_transfer,
    encode_exec, encode_hardware_id, encode_hello_request, encode_hello_response,
    encode_memory_read, encode_oem_pk_hash, encode_reset_request, encode_reset_response,
    encode_serial_no, DoneRequest, DoneResponse, EndOfTransfer, Exec, HardwareId, HelloRequest,
    HelloResponse, MemoryRead32, OemPkHash, ResetRequest, ResetResponse, SerialNo,
    MSG_EXECUTE_DATA, MSG_EXECUTE_REQUEST,
};

fn le32(b: &[u8], off: usize) -> u32 {
    u32::from_le_bytes([b[off], b[off + 1], b[off + 2], b[off + 3]])
}

#[test]
fn hello_request_round_trip() {
    let p = HelloRequest { version: 2, compatible: 1, max_len: 0x400, mode: 0 };
    let b = encode_hello_request(&p);
    assert_eq!(b.len(), 24);
    assert_eq!(le32(&b, 0), 0x1);
    assert_eq!(le32(&b, 4), b.len() as u32);
    assert_eq!(decode_hello_request(&b), Some(p));
}

#[test]
fn hello_request_all_field_extremes() {
    for p in [
        HelloRequest { version: 0, compatible: 0, max_len: 0, mode: 0 },
        HelloRequest { version: u32::MAX, compatible: u32::MAX, max_len: u32::MAX, mode: u32::MAX },
        HelloRequest { version: 0x12345678, compatible: 0x9abcdef0, max_len: 1, mode: 3 },
    ] {
        let b = encode_hello_request(&p);
        assert_eq!(le32(&b, 4), b.len() as u32);
        assert_eq!(decode_hello_request(&b), Some(p));
    }
}

#[test]
fn hello_response_round_trip() {
    let p = HelloResponse { version: 2, compatible: 1, status: 0, mode: 3 };
    let b = encode_hello_response(&p);
    assert_eq!(b.len(), 48);
    assert_eq!(le32(&b, 0), 0x2);
    assert_eq!(le32(&b, 4), 48);
    // The reserved tail is six zero words.
    assert_eq!(&b[24..], &[0u8; 24]);
    assert_eq!(decode_hello_response(&b), Some(p));
}

#[test]
fn header_round_trip() {
    let b = encode_reset_request(&ResetRequest {});
    let h = decode_header(&b).unwrap();
    assert_eq!(h.message_type, 0x7);
    assert_eq!(h.length, 8);
}

#[test]
fn reset_and_done_round_trips() {
    let b = encode_reset_request(&ResetRequest {});
    assert_eq!(b.len(), 8);
    assert_eq!(decode_reset_request(&b), Some(ResetRequest {}));

    let b = encode_reset_response(&ResetResponse {});
    assert_eq!(b.len(), 8);
    assert_eq!(le32(&b, 0), 0x8);
    assert_eq!(decode_reset_response(&b), Some(ResetResponse {}));

    let b = encode_done_request(&DoneRequest {});
    assert_eq!(b.len(), 8);
    assert_eq!(le32(&b, 0), 0x5);
    assert_eq!(decode_done_request(&b), Some(DoneRequest {}));

    let p = DoneResponse { status: 0x06 };
    let b = encode_done_response(&p);
    assert_eq!(b.len(), 12);
    assert_eq!(le32(&b, 0), 0x6);
    assert_eq!(le32(&b, 4), 12);
    assert_eq!(decode_done_response(&b), Some(p));
}

#[test]
fn exec_round_trip_both_phases() {
    let p = Exec { command: 0x01 };
    let b = encode_exec(MSG_EXECUTE_REQUEST, &p);
    assert_eq!(b, vec![0x0d, 0, 0, 0, 0x0c, 0, 0, 0, 0x01, 0, 0, 0]);
    assert_eq!(decode_exec(&b), Some((MSG_EXECUTE_REQUEST, p)));

    let b = encode_exec(MSG_EXECUTE_DATA, &p);
    assert_eq!(b, vec![0x0f, 0, 0, 0, 0x0c, 0, 0, 0, 0x01, 0, 0, 0]);
    assert_eq!(decode_exec(&b), Some((MSG_EXECUTE_DATA, p)));
}

#[test]
fn memory_read_round_trip() {
    let p = MemoryRead32 { address: 0x1000, size: 0x10 };
    let b = encode_memory_read(&p);
    assert_eq!(b, vec![0x0a, 0, 0, 0, 16, 0, 0, 0, 0x00, 0x10, 0, 0, 0x10, 0, 0, 0]);
    assert_eq!(le32(&b, 4), b.len() as u32);
    assert_eq!(decode_memory_read(&b), Some(p));
}

#[test]
fn end_of_transfer_round_trip() {
    let p = EndOfTransfer { image: 7, status: 0x06 };
    let b = encode_end_of_transfer(&p);
    assert_eq!(b.len(), 16);
    assert_eq!(le32(&b, 0), 0x4);
    assert_eq!(le32(&b, 4), 16);
    assert_eq!(decode_end_of_transfer(&b), Some(p));
}

#[test]
fn hardware_id_round_trip() {
    let p = HardwareId { model: 0x1234, oem: 0x0042, id: 0x009b00e1 };
    let b = encode_hardware_id(&p);
    assert_eq!(b, vec![0x34, 0x12, 0x42, 0x00, 0xe1, 0x00, 0x9b, 0x00]);
    assert_eq!(decode_hardware_id(&b), Some(p));
}

#[test]
fn serial_no_round_trip() {
    let p = SerialNo { serial: vec![0xde, 0xad, 0xbe, 0xef, 0x00, 0x11, 0x22, 0x33] };
    let b = encode_serial_no(&p);
    assert_eq!(b, p.serial);
    let d = decode_serial_no(&b).unwrap();
    assert_eq!(d.serial, p.serial);
}

#[test]
fn oem_pk_hash_round_trip() {
    let p = OemPkHash {
        hash1: vec![0x11; 32],
        hash2: vec![0x22; 32],
        hash3: vec![0x33; 32],
    };
    let b = encode_oem_pk_hash(&p);
    assert_eq!(b.len(), 96);
    let d = decode_oem_pk_hash(&b).unwrap();
    assert_eq!(d.hash1, p.hash1);
    assert_eq!(d.hash2, p.hash2);
    assert_eq!(d.hash3, p.hash3);
}

#[test]
fn oem_pk_hash_blocks_kept_distinct() {
    // The three blocks need not be equal; each must be surfaced as received.
    let mut raw = Vec::new();
    for i in 0..96u8 {
        raw.push(i);
    }
    let d = decode_oem_pk_hash(&raw).unwrap();
    assert_eq!(d.hash1, (0..32).collect::<Vec<u8>>());
    assert_eq!(d.hash2, (32..64).collect::<Vec<u8>>());
    assert_eq!(d.hash3, (64..96).collect::<Vec<u8>>());
}

#[test]
fn decode_rejects_short_buffers() {
    assert_eq!(decode_header(&vec![0x01; 7]), None);
    assert_eq!(decode_hello_request(&vec![0x01; 23]), None);
    assert_eq!(decode_end_of_transfer(&vec![0x04; 15]), None);
    assert!(decode_serial_no(&vec![0x00; 7]).is_none());
    assert!(decode_oem_pk_hash(&vec![0x00; 95]).is_none());
}

#[test]
fn decode_rejects_wrong_message_type() {
    let b = encode_hello_request(&HelloRequest { version: 2, compatible: 1, max_len: 0, mode: 0 });
    let mut wrong = b.clone();
    wrong[0] = 0x02;
    assert_eq!(decode_hello_request(&wrong), None);
}

#[test]
fn decode_rejects_length_field_mismatch() {
    // A length field that does not equal the type's exact encoded size marks
    // the packet malformed, even with enough bytes in the buffer.
    let mut b = encode_hello_request(
        &HelloRequest { version: 2, compatible: 1, max_len: 0, mode: 0 },
    );
    b[4] = 0x30;
    assert_eq!(decode_hello_request(&b), None);

    let mut b = encode_end_of_transfer(&EndOfTransfer { image: 0, status: 6 });
    b[4] = 8;
    assert_eq!(decode_end_of_transfer(&b), None);

    let mut b = encode_exec(MSG_EXECUTE_REQUEST, &Exec { command: 1 });
    b[4] = 16;
    assert_eq!(decode_exec(&b), None);
}

#[test]
fn decode_exec_rejects_other_message_types() {
    // Only the two host-side phases are execution packets; the device's
    // execute response is not.
    let mut b = encode_exec(MSG_EXECUTE_REQUEST, &Exec { command: 1 });
    b[0] = 0x0e;
    assert_eq!(decode_exec(&b), None);
}

#[test]
fn decode_takes_packet_from_buffer_prefix() {
    // Replies arrive in a transfer buffer that may be longer than the packet.
    let mut b = encode_end_of_transfer(&EndOfTransfer { image: 1, status: 9 });
    b.extend_from_slice(&[0u8; 48]);
    assert_eq!(decode_end_of_transfer(&b), Some(EndOfTransfer { image: 1, status: 9 }));
}
