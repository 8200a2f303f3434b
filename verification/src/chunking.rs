use vstd::prelude::*;

use vstd::arithmetic::div_mod::lemma_div_multiples_vanish_fancy;
use vstd::arithmetic::div_mod::lemma_fundamental_div_mod;

use crate::progress::ProgressCommand;

verus! {

/// Capacity of one chunk buffer in bytes. Sender and receiver must
/// use the same value; it is not negotiated on the wire.
pub const BUFFER_LEN: usize = 1024;

/// `ceil(l / c)`: how many chunks of capacity `c` the first `l` bytes
/// occupy. This is the unit count advertised through `SetLength`.
pub open spec fn ceil_div(l: int, c: int) -> int
    recommends
        c > 0,
{
    (l + c - 1) / c
}

/// One progress unit per chunk pass. The transfer loop makes one pass
/// per full chunk plus one final pass whose short read signals the end
/// of the data, so `l / c + 1` passes in all.
pub open spec fn pass_count(l: int, c: int) -> int
    recommends
        c > 0,
{
    l / c + 1
}

/// The progress events one transfer emits, in order: the total unit
/// count, one increment per chunk pass over a body of `body_len`
/// bytes, and the completion mark.
pub open spec fn transfer_events(units: u64, body_len: int, c: int) -> Seq<ProgressCommand>
    recommends
        c > 0,
        body_len >= 0,
{
    seq![ProgressCommand::SetLength(units)] + Seq::new(
        pass_count(body_len, c) as nat,
        |i: int| ProgressCommand::Inc(),
    ) + seq![ProgressCommand::Done()]
}

/// `ceil_div` is the ceiling of `l / c`: the quotient and remainder of
/// `l` by `c` determine it exactly.
pub proof fn lemma_ceil_div_parts(l: int, c: int)
    requires
        c > 0,
        l >= 0,
    ensures
        l % c == 0 ==> ceil_div(l, c) == l / c,
        l % c != 0 ==> ceil_div(l, c) == l / c + 1,
{
    lemma_fundamental_div_mod(l, c);
    let q = l / c;
    let r = l % c;
    if r == 0 {
        assert(l + c - 1 == c * q + (c - 1));
        lemma_div_multiples_vanish_fancy(q, c - 1, c);
    } else {
        assert(c * (q + 1) == c * q + c) by (nonlinear_arith);
        assert(l + c - 1 == c * (q + 1) + (r - 1));
        lemma_div_multiples_vanish_fancy(q + 1, r - 1, c);
    }
}

/// Compute the unit count `ceil(len / cap)` without overflow.
pub fn unit_count(len: u64, cap: u64) -> (u: u64)
    requires
        cap > 0,
    ensures
        u == ceil_div(len as int, cap as int),
{
    proof {
        lemma_ceil_div_parts(len as int, cap as int);
    }
    if len % cap == 0 {
        len / cap
    } else {
        proof {
            let l = len as int;
            let c = cap as int;
            let q = l / c;
            lemma_fundamental_div_mod(l, c);
            assert(c >= 2);
            assert(q * 2 <= q * c) by (nonlinear_arith)
                requires
                    q >= 0,
                    c >= 2,
            ;
            assert(q * c == c * q) by (nonlinear_arith);
        }
        len / cap + 1
    }
}

/// The unit count is the least number of chunks that covers the data:
/// `ceil_div(l, c)` chunks of capacity `c` hold at least `l` bytes,
/// and for a non-empty file one chunk fewer would fall short.
pub proof fn lemma_unit_count_is_ceiling(l: int, c: int)
    requires
        c > 0,
        l >= 0,
    ensures
        ceil_div(l, c) * c >= l,
        l > 0 ==> (ceil_div(l, c) - 1) * c < l,
        l == 0 ==> ceil_div(l, c) == 0,
{
    lemma_ceil_div_parts(l, c);
    lemma_fundamental_div_mod(l, c);
    let q = l / c;
    let r = l % c;
    let u = ceil_div(l, c);
    if r == 0 {
        assert(u == q);
        assert(q * c == c * q && (q - 1) * c == c * q - c) by (nonlinear_arith);
        assert(u * c == l);
        assert((u - 1) * c == l - c);
    } else {
        assert(u == q + 1);
        assert((q + 1) * c == c * q + c && q * c == c * q) by (nonlinear_arith);
        assert(u * c == l - r + c);
        assert((u - 1) * c == l - r);
    }
}

} // verus!
