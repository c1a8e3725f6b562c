//! Error taxonomy of the protocol driver.

use vstd::prelude::*;

verus! {

/// Everything that can go wrong while building, parsing or exchanging a
/// protocol frame.
///
/// Codec failures (`ParamsTooLong`, `Truncated`, `UnknownCommand`,
/// `Integrity`) are fatal to the single frame being built or parsed and are
/// never silently corrected. `Io` reports a failure of the physical link and
/// carries no retry policy: retrying belongs to the caller. `Timeout` is
/// returned by the completion wait when the device's executed-index counter
/// did not reach the target within the caller's polling budget.
#[derive(Copy, Clone, PartialEq, Eq, Structural, Debug)]
pub enum Error {
    /// A frame can carry at most 253 parameter bytes.
    ParamsTooLong,
    /// Fewer bytes than a minimal frame, or the declared length does not
    /// match the actual byte count.
    Truncated,
    /// The command byte maps to no known command.
    UnknownCommand,
    /// The recomputed checksum disagrees with the transmitted one.
    Integrity { expected: u8, received: u8 },
    /// The physical link failed while sending or receiving.
    Io,
    /// The completion wait exhausted its polling budget.
    Timeout,
}

} // verus!
