use vstd::prelude::*;

use crate::args::ParsedArgs;
use crate::errors::HostError;

verus! {

/// A stateful handle to one hashing computation unit.
///
/// A worker cycles through `load_block_constants` (configure), then
/// `calculate_hash` (issue work), `sync` (barrier), and `copy_output_to`
/// (drain the found candidates), returning to the configured state for the
/// next nonce range.  A single worker must not be driven from more than one
/// thread; distinct workers are independent.  A worker must be destroyed
/// before the module that produced it is released.
pub trait Worker: Sized {
    /// The worker's identifier, e.g. the device it drives.
    spec fn spec_id(&self) -> Seq<char>;

    /// Whether block constants have been loaded since construction.
    spec fn spec_configured(&self) -> bool;

    /// The full workload one `calculate_hash(None)` round may produce.
    spec fn spec_workload(&self) -> usize;

    /// The nonce candidates found by the last round and not yet drained.
    spec fn spec_pending(&self) -> Seq<u64>;

    /// Whether the backend has faulted; a faulted worker reports the fault
    /// from `sync` and `copy_output_to` instead of going silently stale.
    spec fn spec_faulted(&self) -> bool;

    fn id(&self) -> (r: String)
        ensures
            r@ == self.spec_id(),
    ;

    /// Load the fixed-shape block constants: a 72-byte header, a 64x64
    /// matrix of 16-bit values, and a 4-element 64-bit target.  Entering the
    /// configured state discards any candidates still pending.
    fn load_block_constants(
        &mut self,
        hash_header: &[u8; 72],
        matrix: &[[u16; 64]; 64],
        target: &[u64; 4],
    )
        ensures
            final(self).spec_configured(),
            final(self).spec_id() == old(self).spec_id(),
            final(self).spec_workload() == old(self).spec_workload(),
            final(self).spec_pending() == Seq::<u64>::empty(),
            final(self).spec_faulted() == old(self).spec_faulted(),
    ;

    /// Issue one round of hashing.  `None` means "use the full configured
    /// workload"; `Some(nonces)` restricts the round to the given
    /// candidates.  Either way the round leaves at most that many pending
    /// candidates to drain.
    fn calculate_hash(&mut self, nonces: Option<&Vec<u64>>)
        requires
            old(self).spec_configured(),
        ensures
            final(self).spec_configured(),
            final(self).spec_id() == old(self).spec_id(),
            final(self).spec_workload() == old(self).spec_workload(),
            final(self).spec_faulted() == old(self).spec_faulted(),
            nonces matches Some(ns) ==> final(self).spec_pending().len() <= ns@.len(),
            nonces is None ==> final(self).spec_pending().len() <= old(self).spec_workload(),
    ;

    /// Blocking barrier: returns only once the work of the most recent
    /// `calculate_hash` round is complete, and reports a backend fault as an
    /// error rather than leaving the worker silently stale.
    fn sync(&self) -> (r: Result<(), HostError>)
        ensures
            r is Ok <==> !self.spec_faulted(),
            r matches Err(e) ==> e is WorkerSyncFault,
    ;

    /// The full per-round workload.
    fn get_workload(&self) -> (r: usize)
        ensures
            r == self.spec_workload(),
    ;

    /// Drain the pending candidates into `nonces`, appending them in order.
    /// A worker with nothing pending — in particular one drained by an
    /// earlier call without an intervening `calculate_hash` — appends
    /// nothing.
    fn copy_output_to(&mut self, nonces: &mut Vec<u64>) -> (r: Result<(), HostError>)
        ensures
            r is Ok <==> !old(self).spec_faulted(),
            r is Ok ==> final(nonces)@ == old(nonces)@ + old(self).spec_pending(),
            r is Ok ==> final(self).spec_pending() == Seq::<u64>::empty(),
            r matches Err(e) ==> e is WorkerSyncFault,
            r is Err ==> final(nonces)@ == old(nonces)@ && *final(self) == *old(self),
            final(self).spec_id() == old(self).spec_id(),
            final(self).spec_configured() == old(self).spec_configured(),
            final(self).spec_workload() == old(self).spec_workload(),
            final(self).spec_faulted() == old(self).spec_faulted(),
    ;
}

/// An inert factory description from which a [`Worker`] is instantiated.
/// Ownership of a spec, and of every worker built from it, passes to the
/// caller.
pub trait WorkerSpec: Sized {
    /// The worker type this spec builds.
    type W: Worker;

    /// The per-round workload every built worker is configured for.
    spec fn spec_workload(&self) -> usize;

    /// Instantiate a fresh, unconfigured, healthy worker.
    fn build(&self) -> (r: Self::W)
        ensures
            !r.spec_configured(),
            r.spec_pending() == Seq::<u64>::empty(),
            !r.spec_faulted(),
            r.spec_workload() == self.spec_workload(),
    ;
}

/// The capability a loaded module hands the host: a name, a worker-spec
/// factory, and an option sink.  One instance exists per loaded module and
/// is owned by the plugin manager for the rest of the process.
pub trait Plugin: Sized {
    /// The worker-spec type this plugin produces.
    type Spec: WorkerSpec;

    /// The plugin's name, used when surfacing its failures.
    spec fn spec_name(&self) -> Seq<char>;

    /// The worker specs the plugin currently offers.
    spec fn spec_worker_specs(&self) -> Seq<Self::Spec>;

    /// Whether a round of option processing has been applied.
    spec fn spec_options_applied(&self) -> bool;

    /// Which parsed option values this plugin accepts.
    spec fn spec_accepts(&self, args: Seq<(Seq<char>, Seq<char>)>) -> bool;

    fn name(&self) -> (r: String)
        ensures
            r@ == self.spec_name(),
    ;

    /// Hand out the plugin's worker specs.
    fn get_worker_specs(&self) -> (r: Vec<Self::Spec>)
        ensures
            r@ == self.spec_worker_specs(),
    ;

    /// Apply one round of parsed option values.  Exactly the accepted
    /// argument sets succeed; a rejected set leaves the plugin as it was.
    fn process_option(&mut self, args: &ParsedArgs) -> (r: Result<(), HostError>)
        ensures
            r is Ok <==> old(self).spec_accepts(args@),
            r is Ok ==> final(self).spec_options_applied(),
            r is Err ==> *final(self) == *old(self),
            final(self).spec_name() == old(self).spec_name(),
            final(self).spec_worker_specs() == old(self).spec_worker_specs(),
            final(self).spec_accepts(args@) == old(self).spec_accepts(args@),
    ;
}

/// Law: a drained worker contributes nothing further.  Once one
/// `copy_output_to` has emptied the pending candidates, a second copy
/// without an intervening `calculate_hash` appends an empty addition, not a
/// repeat of the first.
pub proof fn lemma_second_copy_adds_nothing<W: Worker>(w: W, buf: Seq<u64>)
    requires
        w.spec_pending() == Seq::<u64>::empty(),
    ensures
        buf + w.spec_pending() == buf,
{
    assert(buf + w.spec_pending() =~= buf);
}

} // verus!
