use filer::BUFFER_LEN;
use filer::ProgressCommand;
use filer::TransferError;
use filer::decode_size_header;
use filer::encode_size_header;
use filer::loopback_transfer;
use filer::plan_send;
use filer::process_wire;
use filer::unit_count;

fn sample_bytes(n: usize) -> Vec<u8> {
    let mut v = Vec::with_capacity(n);
    for i in 0..n {
        v.push((i % 251) as u8);
    }
    v
}

#[test]
fn header_encodes_big_endian() {
    let r = encode_size_header(0x0123_4567_89ab_cdef);
    assert_eq!(r, vec![0x01, 0x23, 0x45, 0x67, 0x89, 0xab, 0xcd, 0xef]);
    let r = encode_size_header(2500);
    assert_eq!(r, vec![0, 0, 0, 0, 0, 0, 0x09, 0xc4]);
}

#[test]
fn header_round_trips() {
    for v in [0u64, 1, 7979, 2500, u64::MAX, 1 << 63] {
        assert_eq!(decode_size_header(&encode_size_header(v)), Ok(v));
    }
}

#[test]
fn short_header_is_protocol_error() {
    assert_eq!(
        decode_size_header(&vec![1, 2, 3]),
        Err(TransferError::ProtocolError)
    );
    assert_eq!(decode_size_header(&vec![]), Err(TransferError::ProtocolError));
}

#[test]
fn unit_count_is_ceiling() {
    assert_eq!(unit_count(0, 1024), 0);
    assert_eq!(unit_count(1, 1024), 1);
    assert_eq!(unit_count(1023, 1024), 1);
    assert_eq!(unit_count(1024, 1024), 1);
    assert_eq!(unit_count(1025, 1024), 2);
    assert_eq!(unit_count(2500, 1024), 3);
    assert_eq!(unit_count(u64::MAX, 1), u64::MAX);
}

#[test]
fn sender_wire_is_header_then_data() {
    let data = sample_bytes(5);
    let plan = plan_send(&data, 4);
    assert_eq!(plan.wire[..8], [0, 0, 0, 0, 0, 0, 0, 5]);
    assert_eq!(&plan.wire[8..], &data[..]);
}

#[test]
fn empty_file_sends_header_only() {
    let plan = plan_send(&Vec::new(), BUFFER_LEN);
    assert_eq!(plan.wire, vec![0u8; 8]);
    assert_eq!(
        plan.events,
        vec![
            ProgressCommand::SetLength(0),
            ProgressCommand::Inc(),
            ProgressCommand::Done(),
        ]
    );
    let out = loopback_transfer(&Vec::new(), BUFFER_LEN);
    assert_eq!(out.declared_len, 0);
    assert!(out.data.is_empty());
}

#[test]
fn exact_multiple_still_emits_done() {
    let data = sample_bytes(2 * BUFFER_LEN);
    let plan = plan_send(&data, BUFFER_LEN);
    assert_eq!(plan.events[0], ProgressCommand::SetLength(2));
    let incs = plan
        .events
        .iter()
        .filter(|e| **e == ProgressCommand::Inc())
        .count();
    assert_eq!(incs, 3);
    assert_eq!(*plan.events.last().unwrap(), ProgressCommand::Done());
}

#[test]
fn scenario_2500_bytes_cap_1024() {
    let data = sample_bytes(2500);
    let plan = plan_send(&data, 1024);
    assert_eq!(
        plan.events,
        vec![
            ProgressCommand::SetLength(3),
            ProgressCommand::Inc(),
            ProgressCommand::Inc(),
            ProgressCommand::Inc(),
            ProgressCommand::Done(),
        ]
    );
    let out = loopback_transfer(&data, 1024);
    assert_eq!(&out.data[..2500], &data[..]);
    assert_eq!(out.data.len(), 2500);
}

#[test]
fn loopback_reproduces_file() {
    for n in [0usize, 1, 1023, 1024, 1025, 2048, 2500, 5000] {
        let data = sample_bytes(n);
        let out = loopback_transfer(&data, BUFFER_LEN);
        assert_eq!(out.data, data);
        assert_eq!(out.declared_len, n as u64);
        assert_eq!(*out.events.last().unwrap(), ProgressCommand::Done());
    }
}

#[test]
fn receiver_events_match_sender_events() {
    let data = sample_bytes(3000);
    let plan = plan_send(&data, 512);
    let out = process_wire(&plan.wire, 512).unwrap();
    assert_eq!(out.events, plan.events);
    assert_eq!(out.declared_len, 3000);
}

#[test]
fn truncated_wire_is_protocol_error() {
    let err = process_wire(&vec![0, 0, 0], 1024).unwrap_err();
    assert_eq!(err, TransferError::ProtocolError);
}
