//! What can keep a span from being created.

use vstd::prelude::*;

verus! {

/// Why no span could be created. Neither condition can be recovered from
/// inside the library: the caller decides how to give up.
#[derive(Clone, Copy, Debug, PartialEq, Eq, Structural)]
pub enum SpanError {
    /// The system clock reads a time before the Unix epoch.
    ClockBeforeEpoch,
    /// The operating system's secure random source could not be opened.
    RandomSourceUnavailable,
}

} // verus!
