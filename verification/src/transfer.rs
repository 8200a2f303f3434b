use vstd::prelude::*;

use vstd::arithmetic::div_mod::lemma_div_multiples_vanish_fancy;

use crate::chunking::pass_count;
use crate::progress::ProgressCommand;

verus! {

/// The transfer loop both roles share: one pass per chunk. Each pass
/// emits an `Inc`, takes up to `cap` bytes of `src` from `offset` on,
/// and appends exactly those bytes to `dst`; the pass that comes up
/// short — including a zero-byte pass when the remainder is empty —
/// emits `Done` and stops. Only bytes actually taken are appended, so
/// no stale buffer contents follow the data.
pub fn run_chunk_passes(
    src: &Vec<u8>,
    start: usize,
    cap: usize,
    dst: &mut Vec<u8>,
    events: &mut Vec<ProgressCommand>,
)
    requires
        start <= src@.len(),
        cap > 0,
    ensures
        final(dst)@ == old(dst)@ + src@.skip(start as int),
        final(events)@ == old(events)@ + Seq::new(
            pass_count(src@.len() - start, cap as int) as nat,
            |i: int| ProgressCommand::Inc(),
        ) + seq![ProgressCommand::Done()],
{
    let len: usize = src.len();
    let mut offset: usize = start;
    let ghost mut passes: int = 0;
    loop
        invariant_except_break
            offset - start == (cap as int) * passes,
            events@ == old(events)@ + Seq::new(
                passes as nat,
                |i: int| ProgressCommand::Inc(),
            ),
        invariant
            cap > 0,
            start <= offset <= len,
            len == src@.len(),
            passes >= 0,
            dst@ == old(dst)@ + src@.subrange(start as int, offset as int),
        ensures
            dst@ == old(dst)@ + src@.skip(start as int),
            events@ == old(events)@ + Seq::new(
                pass_count(src@.len() - start, cap as int) as nat,
                |i: int| ProgressCommand::Inc(),
            ) + seq![ProgressCommand::Done()],
        decreases len - offset,
    {
        events.push(ProgressCommand::Inc());
        proof {
            passes = passes + 1;
            assert(events@ =~= old(events)@ + Seq::new(
                passes as nat,
                |i: int| ProgressCommand::Inc(),
            ));
        }
        let n: usize = if len - offset < cap {
            len - offset
        } else {
            cap
        };
        let mut j: usize = 0;
        while j < n
            invariant
                j <= n,
                start <= offset,
                offset + n <= len,
                len == src@.len(),
                dst@ == old(dst)@ + src@.subrange(start as int, offset + j),
            decreases n - j,
        {
            dst.push(src[offset + j]);
            proof {
                assert(src@.subrange(start as int, offset + j + 1) =~= src@.subrange(
                    start as int,
                    offset + j,
                ).push(src@[offset + j]));
            }
            j += 1;
        }
        offset += n;
        if n < cap {
            events.push(ProgressCommand::Done());
            proof {
                assert(offset == len);
                assert(src@.subrange(start as int, len as int) =~= src@.skip(start as int));
                let c = cap as int;
                let b = len - start - c * (passes - 1);
                assert(0 <= b < c);
                lemma_div_multiples_vanish_fancy(passes - 1, b, c);
                assert((c * (passes - 1) + b) / c == passes - 1);
                assert(src@.len() - start == c * (passes - 1) + b);
                assert(pass_count(src@.len() - start, c) == passes);
                assert(events@ =~= old(events)@ + Seq::new(
                    passes as nat,
                    |i: int| ProgressCommand::Inc(),
                ) + seq![ProgressCommand::Done()]);
            }
            break;
        }
        proof {
            assert((cap as int) * passes == (cap as int) * (passes - 1) + (cap as int))
                by (nonlinear_arith);
        }
    }
}

} // verus!
