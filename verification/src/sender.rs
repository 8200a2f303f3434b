use vstd::prelude::*;

use crate::chunking::ceil_div;
use crate::chunking::lemma_ceil_div_parts;
use crate::chunking::lemma_unit_count_is_ceiling;
use crate::chunking::transfer_events;
use crate::chunking::unit_count;
use crate::header::encode_size_header;
use crate::header::size_header_bytes;
use crate::progress::ProgressCommand;
use crate::transfer::run_chunk_passes;
use vstd::arithmetic::div_mod::lemma_div_of0;
use vstd::arithmetic::div_mod::lemma_small_mod;

verus! {

/// Everything one send produces: the exact byte stream to put on the
/// socket and the progress events to report, in emission order.
#[derive(Debug)]
pub struct SendPlan {
    pub wire: Vec<u8>,
    pub events: Vec<ProgressCommand>,
}

/// The byte stream a sender transmits for file contents `data`: the
/// eight-byte big-endian length header followed by the data itself.
/// The final, possibly short, chunk carries only the bytes actually
/// read, so nothing beyond the file's own bytes follows the header.
pub open spec fn sender_wire(data: Seq<u8>) -> Seq<u8>
    recommends
        data.len() <= u64::MAX,
{
    size_header_bytes(data.len() as u64) + data
}

/// The progress events a sender emits for a file of `len` bytes with
/// chunk capacity `c`: the unit total `ceil(len / c)`, one increment
/// per chunk pass, and the completion mark.
pub open spec fn sender_events(len: u64, c: int) -> Seq<ProgressCommand>
    recommends
        c > 0,
{
    transfer_events(ceil_div(len as int, c) as u64, len as int, c)
}

/// Lay out one send of `data` with chunk capacity `cap`: the wire
/// bytes are exactly the length header followed by the data, and the
/// events are exactly the sender's event sequence for that length.
pub fn plan_send(data: &Vec<u8>, cap: usize) -> (plan: SendPlan)
    requires
        cap > 0,
    ensures
        plan.wire@ == sender_wire(data@),
        plan.events@ == sender_events(data@.len() as u64, cap as int),
{
    let len: u64 = data.len() as u64;
    let mut wire: Vec<u8> = encode_size_header(len);
    let mut events: Vec<ProgressCommand> = Vec::new();
    events.push(ProgressCommand::SetLength(unit_count(len, cap as u64)));
    run_chunk_passes(data, 0, cap, &mut wire, &mut events);
    proof {
        assert(wire@ =~= sender_wire(data@));
        assert(events@ =~= sender_events(len, cap as int));
    }
    SendPlan { wire, events }
}

/// The advertised unit total is the ceiling of the file length over
/// the chunk capacity: the first event is `SetLength(u)` where `u`
/// chunks cover the whole file and, for a non-empty file, `u - 1`
/// chunks would not.
pub proof fn lemma_sender_set_length(len: u64, c: int)
    requires
        c > 0,
    ensures
        sender_events(len, c).first() == ProgressCommand::SetLength(
            ceil_div(len as int, c) as u64,
        ),
        ceil_div(len as int, c) * c >= len,
        len > 0 ==> (ceil_div(len as int, c) - 1) * c < len,
        len == 0 ==> ceil_div(len as int, c) == 0,
{
    lemma_unit_count_is_ceiling(len as int, c);
}

/// When the file length is an exact multiple of the chunk capacity,
/// every data chunk comes back full, so no data pass trips the
/// short-read exit; one extra, empty pass does, and the completion
/// mark is still emitted, last of all.
pub proof fn lemma_exact_multiple_still_done(len: u64, c: int)
    requires
        c > 0,
        len as int % c == 0,
    ensures
        sender_events(len, c) == seq![
            ProgressCommand::SetLength((len as int / c) as u64),
        ] + Seq::new((len as int / c + 1) as nat, |i: int| ProgressCommand::Inc()) + seq![
            ProgressCommand::Done(),
        ],
        sender_events(len, c).last() == ProgressCommand::Done(),
{
    lemma_ceil_div_parts(len as int, c);
}

/// A zero-length file: the sender advertises zero units, makes a
/// single empty pass, and transmits no chunk bytes at all beyond the
/// eight header bytes.
pub proof fn lemma_empty_file(c: int)
    requires
        c > 0,
    ensures
        sender_wire(Seq::<u8>::empty()) == size_header_bytes(0),
        sender_wire(Seq::<u8>::empty()).len() == 8,
        sender_events(0, c) == seq![
            ProgressCommand::SetLength(0),
            ProgressCommand::Inc(),
            ProgressCommand::Done(),
        ],
{
    assert(sender_wire(Seq::<u8>::empty()) =~= size_header_bytes(0));
    lemma_small_mod(0, c as nat);
    lemma_ceil_div_parts(0, c);
    lemma_div_of0(c);
    assert(sender_events(0, c) =~= seq![
        ProgressCommand::SetLength(0),
        ProgressCommand::Inc(),
        ProgressCommand::Done(),
    ]);
}

} // verus!
