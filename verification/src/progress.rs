use vstd::prelude::*;

verus! {

/// One progress report from a transfer worker, in the order emitted:
/// first the total unit count, then one increment per chunk pass, and
/// finally a completion mark.
#[derive(Clone, Copy, Debug, PartialEq, Eq, Structural)]
pub enum ProgressCommand {
    SetLength(u64),
    Inc(),
    Done(),
}

} // verus!
