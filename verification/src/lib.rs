use vstd::prelude::*;

mod chunking;
mod error;
mod header;
mod progress;
mod receiver;
mod sender;
mod transfer;

pub use chunking::BUFFER_LEN;
pub use chunking::ceil_div;
pub use chunking::lemma_ceil_div_parts;
pub use chunking::lemma_unit_count_is_ceiling;
pub use chunking::pass_count;
pub use chunking::transfer_events;
pub use chunking::unit_count;
pub use error::TransferError;
pub use header::SIZE_LEN;
pub use header::decode_size_header;
pub use header::encode_size_header;
pub use header::header_value;
pub use header::lemma_header_round_trip;
pub use header::size_header_bytes;
pub use progress::ProgressCommand;
pub use receiver::ReceiveOutcome;
pub use receiver::lemma_send_receive_round_trip;
pub use receiver::loopback_transfer;
pub use receiver::process_wire;
pub use receiver::receiver_events;
pub use receiver::receiver_output;
pub use sender::SendPlan;
pub use sender::lemma_empty_file;
pub use sender::lemma_exact_multiple_still_done;
pub use sender::lemma_sender_set_length;
pub use sender::plan_send;
pub use sender::sender_events;
pub use sender::sender_wire;
pub use transfer::run_chunk_passes;

verus! {

} // verus!
