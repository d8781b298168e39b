use vstd::prelude::*;

verus! {

/// Why a catalog build step failed.
///
/// Adapters report `Transport` and `Decode` failures to the orchestrator,
/// which aborts the whole build on the first of them; no retry logic exists
/// anywhere in the core.
#[derive(Clone, Copy, Debug, PartialEq, Eq, Structural)]
pub enum Error {
    /// The network or HTTP layer failed.
    Transport,
    /// A response body did not match the expected upstream schema, or a
    /// coercion utility rejected a structurally wrong value.
    Decode,
    /// An internal mapping table misses an entry for a value that the closed
    /// enumerations guarantee is always present. Fatal: it indicates a
    /// programming defect and is never user-recoverable.
    Configuration,
    /// The output file could not be created or written.
    Io,
    /// Catch-all. Unreachable by design; kept for forward compatibility.
    Unknown,
}

}
