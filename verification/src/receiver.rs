use vstd::prelude::*;

use crate::chunking::ceil_div;
use crate::chunking::transfer_events;
use crate::chunking::unit_count;
use crate::error::TransferError;
use crate::header::SIZE_LEN;
use crate::header::decode_size_header;
use crate::header::header_value;
use crate::header::lemma_header_round_trip;
use crate::header::size_header_bytes;
use crate::progress::ProgressCommand;
use crate::sender::plan_send;
use crate::sender::sender_events;
use crate::sender::sender_wire;
use crate::transfer::run_chunk_passes;

verus! {

/// Everything one receive produces: the length the header declared,
/// the bytes written to the output file, and the progress events, in
/// emission order.
#[derive(Debug)]
pub struct ReceiveOutcome {
    pub declared_len: u64,
    pub data: Vec<u8>,
    pub events: Vec<ProgressCommand>,
}

/// The bytes a receiver writes out for the wire stream `wire`:
/// everything after the eight-byte size header.
pub open spec fn receiver_output(wire: Seq<u8>) -> Seq<u8>
    recommends
        wire.len() >= 8,
{
    wire.skip(8)
}

/// The progress events a receiver emits for the wire stream `wire`
/// with chunk capacity `c`: the unit total derived from the header by
/// the same ceiling formula the sender uses, one increment per chunk
/// pass over the body, and the completion mark.
pub open spec fn receiver_events(wire: Seq<u8>, c: int) -> Seq<ProgressCommand>
    recommends
        wire.len() >= 8,
        c > 0,
{
    transfer_events(ceil_div(header_value(wire) as int, c) as u64, wire.len() - 8, c)
}

/// Consume one wire stream with chunk capacity `cap`. Fails with
/// `ProtocolError` exactly when the stream is too short to hold the
/// size header; otherwise the output is every byte after the header,
/// and the events are exactly the receiver's event sequence.
pub fn process_wire(wire: &Vec<u8>, cap: usize) -> (r: Result<ReceiveOutcome, TransferError>)
    requires
        cap > 0,
    ensures
        match r {
            Ok(out) => wire@.len() >= 8 && out.declared_len == header_value(wire@)
                && out.data@ == receiver_output(wire@) && out.events@ == receiver_events(
                wire@,
                cap as int,
            ),
            Err(e) => wire@.len() < 8 && e == TransferError::ProtocolError,
        },
{
    let declared_len: u64 = match decode_size_header(wire) {
        Ok(v) => v,
        Err(e) => {
            return Err(e);
        },
    };
    let mut events: Vec<ProgressCommand> = Vec::new();
    events.push(ProgressCommand::SetLength(unit_count(declared_len, cap as u64)));
    let mut data: Vec<u8> = Vec::new();
    run_chunk_passes(wire, SIZE_LEN, cap, &mut data, &mut events);
    proof {
        assert(data@ =~= receiver_output(wire@));
        assert(events@ =~= receiver_events(wire@, cap as int));
    }
    Ok(ReceiveOutcome { declared_len, data, events })
}

/// Sending then receiving reproduces the file. The sender's wire
/// stream decodes back to the file's own length, the receiver's
/// output is the input byte for byte, and — because both sides derive
/// their unit total by the same ceiling formula — the receiver emits
/// exactly the sender's event sequence.
pub proof fn lemma_send_receive_round_trip(data: Seq<u8>, c: int)
    requires
        c > 0,
        data.len() <= u64::MAX,
    ensures
        sender_wire(data).len() == data.len() + 8,
        header_value(sender_wire(data)) == data.len() as u64,
        receiver_output(sender_wire(data)) == data,
        receiver_events(sender_wire(data), c) == sender_events(data.len() as u64, c),
{
    let w = sender_wire(data);
    let h = size_header_bytes(data.len() as u64);
    lemma_header_round_trip(data.len() as u64);
    assert(w[0] == h[0]);
    assert(w[1] == h[1]);
    assert(w[2] == h[2]);
    assert(w[3] == h[3]);
    assert(w[4] == h[4]);
    assert(w[5] == h[5]);
    assert(w[6] == h[6]);
    assert(w[7] == h[7]);
    assert(header_value(w) == header_value(h));
    assert(receiver_output(w) =~= data);
    assert(receiver_events(w, c) =~= sender_events(data.len() as u64, c));
}

/// Run one whole transfer in memory, handing the sender's wire bytes
/// straight to the receiver, as over a loopback connection: the
/// output equals the input, the declared length is the input's
/// length, and both sides' events are one and the same sequence.
pub fn loopback_transfer(data: &Vec<u8>, cap: usize) -> (out: ReceiveOutcome)
    requires
        cap > 0,
    ensures
        out.data@ == data@,
        out.declared_len == data@.len(),
        out.events@ == sender_events(data@.len() as u64, cap as int),
{
    let len_bytes: usize = data.len();
    proof {
        assert(data@.len() == len_bytes <= u64::MAX);
    }
    let plan = plan_send(data, cap);
    proof {
        lemma_send_receive_round_trip(data@, cap as int);
    }
    match process_wire(&plan.wire, cap) {
        Ok(out) => out,
        Err(_) => unreached(),
    }
}

} // verus!
