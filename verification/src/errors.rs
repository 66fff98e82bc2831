use vstd::prelude::*;

verus! {

/// Every failure the plugin host can surface.
///
/// Module-open and entry-point-resolution failures abort the whole load
/// sequence.  An option-processing failure is fatal for the whole dispatch
/// and names the plugin that rejected its options.  A sync fault is the only
/// recoverable kind: the caller may retry, skip, or discard the worker.
#[derive(Debug, PartialEq, Eq)]
pub enum HostError {
    /// The dynamic module at the given path could not be opened.
    CannotOpenModule,
    /// The module opened, but does not export the registration entry point.
    MissingEntryPoint,
    /// The named plugin rejected the parsed option values.
    OptionProcessingFailed(String),
    /// The backend reported a fault while waiting for issued work.
    WorkerSyncFault,
}

impl HostError {
    /// True for the two kinds that can abort a load sequence.
    pub open spec fn is_load_error(&self) -> bool {
        self is CannotOpenModule || self is MissingEntryPoint
    }
}

} // verus!
