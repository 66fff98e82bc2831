use vstd::prelude::*;

use crate::args::ParsedArgs;
use crate::args::args_lookup;
use crate::capability::Plugin;
use crate::capability::Worker;
use crate::capability::WorkerSpec;
use crate::errors::HostError;
use crate::registration::ModuleHandle;
use crate::registration::register_plugin;

verus! {

/// A worker backed by plain memory rather than a device: the built-in
/// backend.  It keeps the protocol's whole state machine — configure, issue,
/// sync, drain — and echoes nonce candidates instead of hashing, which makes
/// it the reference implementation of the [`Worker`] contract.
pub struct MemWorker {
    ident: String,
    workload: usize,
    configured: bool,
    faulted: bool,
    pending: Vec<u64>,
}

impl MemWorker {
    /// A fresh worker.  `faulted` injects a permanent backend fault, so
    /// callers can exercise the fault paths of `sync` and `copy_output_to`.
    pub fn new(ident: String, workload: usize, faulted: bool) -> (r: MemWorker)
        ensures
            r.spec_id() == ident@,
            r.spec_workload() == workload,
            r.spec_faulted() == faulted,
            !r.spec_configured(),
            r.spec_pending() == Seq::<u64>::empty(),
    {
        MemWorker { ident, workload, configured: false, faulted, pending: Vec::new() }
    }
}

impl Worker for MemWorker {
    closed spec fn spec_id(&self) -> Seq<char> {
        self.ident@
    }

    closed spec fn spec_configured(&self) -> bool {
        self.configured
    }

    closed spec fn spec_workload(&self) -> usize {
        self.workload
    }

    closed spec fn spec_pending(&self) -> Seq<u64> {
        self.pending@
    }

    closed spec fn spec_faulted(&self) -> bool {
        self.faulted
    }

    fn id(&self) -> (r: String) {
        self.ident.clone()
    }

    fn load_block_constants(
        &mut self,
        _hash_header: &[u8; 72],
        _matrix: &[[u16; 64]; 64],
        _target: &[u64; 4],
    ) {
        self.configured = true;
        self.pending = Vec::new();
    }

    fn calculate_hash(&mut self, nonces: Option<&Vec<u64>>)
        ensures
            nonces matches Some(ns) ==> final(self).spec_pending() == ns@,
            nonces is None ==> final(self).spec_pending() == Seq::new(
                old(self).spec_workload() as nat,
                |j: int| j as u64,
            ),
    {
        match nonces {
            Some(ns) => {
                let mut out: Vec<u64> = Vec::new();
                let mut i: usize = 0;
                while i < ns.len()
                    invariant
                        i <= ns.len(),
                        out@ == ns@.take(i as int),
                    decreases ns.len() - i,
                {
                    out.push(ns[i]);
                    proof {
                        assert(ns@.take(i + 1) =~= ns@.take(i as int).push(ns@[i as int]));
                    }
                    i += 1;
                }
                proof {
                    assert(ns@.take(ns@.len() as int) =~= ns@);
                }
                self.pending = out;
            },
            None => {
                let mut out: Vec<u64> = Vec::new();
                let mut i: usize = 0;
                while i < self.workload
                    invariant
                        i <= self.workload,
                        out@ == Seq::new(i as nat, |j: int| j as u64),
                    decreases self.workload - i,
                {
                    out.push(i as u64);
                    proof {
                        assert(Seq::new((i + 1) as nat, |j: int| j as u64) =~= Seq::new(
                            i as nat,
                            |j: int| j as u64,
                        ).push(i as u64));
                    }
                    i += 1;
                }
                self.pending = out;
            },
        }
    }

    fn sync(&self) -> (r: Result<(), HostError>) {
        if self.faulted {
            Err(HostError::WorkerSyncFault)
        } else {
            Ok(())
        }
    }

    fn get_workload(&self) -> (r: usize) {
        self.workload
    }

    fn copy_output_to(&mut self, nonces: &mut Vec<u64>) -> (r: Result<(), HostError>) {
        if self.faulted {
            Err(HostError::WorkerSyncFault)
        } else {
            nonces.append(&mut self.pending);
            Ok(())
        }
    }
}

/// An inert description of one memory-backed worker: which device name it
/// answers to and how large a round it runs.
pub struct MemSpec {
    pub device: String,
    pub workload: usize,
}

impl Clone for MemSpec {
    fn clone(&self) -> (res: MemSpec)
        ensures
            res == *self,
    {
        MemSpec { device: self.device.clone(), workload: self.workload }
    }
}

impl WorkerSpec for MemSpec {
    type W = MemWorker;

    closed spec fn spec_workload(&self) -> usize {
        self.workload
    }

    fn build(&self) -> (r: MemWorker)
        ensures
            r.spec_id() == self.device@,
    {
        MemWorker::new(self.device.clone(), self.workload, false)
    }
}

/// Copy a spec list element by element.
fn clone_specs(specs: &Vec<MemSpec>) -> (r: Vec<MemSpec>)
    ensures
        r@ == specs@,
{
    let mut out: Vec<MemSpec> = Vec::new();
    let mut i: usize = 0;
    while i < specs.len()
        invariant
            i <= specs.len(),
            out@.len() == i,
            forall|j: int| 0 <= j < i ==> out@[j] == specs@[j],
        decreases specs.len() - i,
    {
        out.push(specs[i].clone());
        i += 1;
    }
    proof {
        assert(out@ =~= specs@);
    }
    out
}

/// The plugin of the built-in memory backend.  It requires one option of
/// its own name's choosing: a dispatch that does not carry that option is
/// rejected, which is the backend's way of surfacing misconfiguration.
pub struct MemPlugin {
    name_text: String,
    option_name: String,
    value: Option<String>,
    specs: Vec<MemSpec>,
    applied: bool,
}

impl MemPlugin {
    /// A fresh plugin offering the given specs and requiring `option_name`.
    pub fn new(name: String, option_name: String, specs: Vec<MemSpec>) -> (r: MemPlugin)
        ensures
            r.spec_name() == name@,
            r.spec_option_name() == option_name@,
            r.spec_worker_specs() == specs@,
            !r.spec_options_applied(),
            r.spec_value() is None,
    {
        MemPlugin { name_text: name, option_name, value: None, specs, applied: false }
    }

    /// The option this plugin requires at dispatch.
    pub closed spec fn spec_option_name(&self) -> Seq<char> {
        self.option_name@
    }

    /// The value the last applied dispatch bound to the required option.
    pub closed spec fn spec_value(&self) -> Option<Seq<char>> {
        match self.value {
            Some(v) => Some(v@),
            None => None,
        }
    }

    /// Whether options have been applied, readable at run time.
    pub fn is_applied(&self) -> (r: bool)
        ensures
            r == self.spec_options_applied(),
    {
        self.applied
    }

    /// The stored option value, readable at run time.
    pub fn value(&self) -> (r: &Option<String>)
        ensures
            r matches Some(v) ==> self.spec_value() == Some(v@),
            r is None ==> self.spec_value() is None,
    {
        &self.value
    }
}

impl Plugin for MemPlugin {
    type Spec = MemSpec;

    closed spec fn spec_name(&self) -> Seq<char> {
        self.name_text@
    }

    closed spec fn spec_worker_specs(&self) -> Seq<MemSpec> {
        self.specs@
    }

    closed spec fn spec_options_applied(&self) -> bool {
        self.applied
    }

    open spec fn spec_accepts(&self, args: Seq<(Seq<char>, Seq<char>)>) -> bool {
        args_lookup(args, self.spec_option_name()) is Some
    }

    fn name(&self) -> (r: String) {
        self.name_text.clone()
    }

    fn get_worker_specs(&self) -> (r: Vec<MemSpec>) {
        clone_specs(&self.specs)
    }

    fn process_option(&mut self, args: &ParsedArgs) -> (r: Result<(), HostError>)
        ensures
            r is Ok ==> final(self).spec_value() == args_lookup(
                args@,
                old(self).spec_option_name(),
            ),
            final(self).spec_option_name() == old(self).spec_option_name(),
    {
        match args.get(&self.option_name) {
            Some(v) => {
                self.value = Some(v);
                self.applied = true;
                Ok(())
            },
            None => Err(HostError::OptionProcessingFailed(self.name_text.clone())),
        }
    }
}

/// One module of the built-in memory backend.  Its registration entry point
/// constructs a [`MemPlugin`] and registers the module's option names; the
/// two failure switches let a configuration stand for an image that cannot
/// be opened or one that lacks the entry point.
pub struct MemModule {
    plugin_name: String,
    option_name: String,
    specs: Vec<MemSpec>,
    options: Vec<String>,
    openable: bool,
    has_entry: bool,
}

impl MemModule {
    /// Describe one module: the plugin it constructs, the option names it
    /// registers, and whether its image opens and exports the entry point.
    pub fn new(
        plugin_name: String,
        option_name: String,
        specs: Vec<MemSpec>,
        options: Vec<String>,
        openable: bool,
        has_entry: bool,
    ) -> (r: MemModule)
        ensures
            r.spec_plugin_name() == plugin_name@,
            r.spec_option_name() == option_name@,
            r.spec_plugin_specs() == specs@,
            r.spec_options() == options.deep_view(),
            r.spec_loads() == (openable && has_entry),
            !openable ==> r.spec_load_error() is CannotOpenModule,
            openable && !has_entry ==> r.spec_load_error() is MissingEntryPoint,
    {
        MemModule { plugin_name, option_name, specs, options, openable, has_entry }
    }

    /// The option the constructed plugin requires at dispatch.
    pub closed spec fn spec_option_name(&self) -> Seq<char> {
        self.option_name@
    }
}

impl ModuleHandle for MemModule {
    type P = MemPlugin;

    closed spec fn spec_loads(&self) -> bool {
        self.openable && self.has_entry
    }

    closed spec fn spec_load_error(&self) -> HostError {
        if !self.openable {
            HostError::CannotOpenModule
        } else {
            HostError::MissingEntryPoint
        }
    }

    closed spec fn spec_options(&self) -> Seq<Seq<char>> {
        self.options.deep_view()
    }

    closed spec fn spec_plugin_name(&self) -> Seq<char> {
        self.plugin_name@
    }

    closed spec fn spec_plugin_specs(&self) -> Seq<MemSpec> {
        self.specs@
    }

    fn register(&self, schema: crate::schema::Schema) -> (r: Result<
        (crate::schema::Schema, MemPlugin),
        (HostError, crate::schema::Schema),
    >) {
        if !self.openable {
            return Err((HostError::CannotOpenModule, schema));
        }
        if !self.has_entry {
            return Err((HostError::MissingEntryPoint, schema));
        }
        let plugin = MemPlugin::new(
            self.plugin_name.clone(),
            self.option_name.clone(),
            clone_specs(&self.specs),
        );
        let pair = register_plugin(plugin, &self.options, schema);
        Ok(pair)
    }
}

} // verus!
