use vstd::prelude::*;

verus! {

/// Why an operation was refused. Every error aborts the whole operation:
/// no transfer is requested and no record is touched on any error path.
#[derive(Clone, Copy, Debug, PartialEq, Eq)]
pub enum VoltError {
    /// Winner and rollover basis points do not sum to 10,000 at initialization.
    BadBps,
    /// The price times the count, or the fee/net arithmetic, leaves the
    /// unsigned 64-bit range.
    Overflow,
    /// A purchase asked for zero tickets.
    BadAmount,
    /// A purchase arrived while the round is not accepting entries.
    DrawClosed,
}

} // verus!
