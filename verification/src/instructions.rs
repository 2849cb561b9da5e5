pub mod arm;

use vstd::prelude::*;

verus! {

/// Errors surfaced to the host by `tick`.  Every error leaves the CPU
/// unchanged: the program counter and the pipeline state keep their values.
#[derive(Debug, PartialEq, Eq, Structural, Clone, Copy)]
pub enum ArmError {
    /// The fetched word matches no supported encoding, or falls into a
    /// reserved sub-encoding.
    UnsupportedEncoding,
    /// Post-indexed addressing with write-back (P=0, W=1) on a single data
    /// transfer, treated as reserved.
    UnsupportedIndexingMode,
    /// An S=1 block transfer executed in User mode.
    PrivilegedAccess,
    /// Reserved for bus implementations that signal faults.
    BusFault,
}

/// What an execute unit asks of the pipeline afterwards: keep fetching in
/// sequence, or flush because the program counter was written.
#[derive(Debug, PartialEq, Eq, Structural, Clone, Copy)]
pub enum PipelineStatus {
    Flush,
    Continue,
}

} // verus!
