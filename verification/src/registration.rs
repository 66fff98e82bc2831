use vstd::prelude::*;

use crate::capability::Plugin;
use crate::errors::HostError;
use crate::schema::Schema;
use crate::schema::spec_merge;

verus! {

/// One dynamic module as the host sees it: an owned image plus the fixed
/// registration entry point the module must export.
///
/// The protocol is one call with one pair of outputs: the entry point takes
/// ownership of the current schema, extends it with the module's options,
/// and returns it together with a newly constructed plugin.  A module whose
/// image cannot be opened, or which does not export the entry point, fails
/// to load; in either case the schema comes back exactly as it went in.
///
/// The handle owns the module's in-memory image.  Every object obtained from
/// the module — its plugin, and transitively any worker spec or worker it
/// produced — dispatches into that image, so the handle must outlive them
/// all; the plugin manager keeps each handle until its own teardown.
pub trait ModuleHandle: Sized {
    /// The plugin type this module constructs.
    type P: Plugin;

    /// Whether the image opens and exports the registration entry point.
    spec fn spec_loads(&self) -> bool;

    /// Which load error the module fails with, when it does not load.
    spec fn spec_load_error(&self) -> HostError;

    /// The option names the module's entry point registers, in order.
    spec fn spec_options(&self) -> Seq<Seq<char>>;

    /// The name of the plugin the entry point constructs.
    spec fn spec_plugin_name(&self) -> Seq<char>;

    /// The worker specs the freshly constructed plugin offers.
    spec fn spec_plugin_specs(&self) -> Seq<<Self::P as Plugin>::Spec>;

    /// Resolve and invoke the registration entry point, transferring schema
    /// ownership across the module boundary and back.
    ///
    /// On success the returned schema is the input schema extended with the
    /// module's options under first-registered-wins, and the plugin comes
    /// back fresh, its options not yet applied.  On failure the error names
    /// what went wrong and the schema is handed back untouched: a module
    /// that fails to load never mutates the schema.
    fn register(&self, schema: Schema) -> (r: Result<(Schema, Self::P), (HostError, Schema)>)
        requires
            schema.wf(),
        ensures
            self.spec_loads() ==> (r matches Ok(p) && p.0.wf() && p.0@ == spec_merge(
                schema@,
                self.spec_options(),
            ) && p.1.spec_name() == self.spec_plugin_name() && p.1.spec_worker_specs()
                == self.spec_plugin_specs() && !p.1.spec_options_applied()),
            !self.spec_loads() ==> (r matches Err(e) && e.0 == self.spec_load_error()
                && e.0.is_load_error() && e.1 == schema),
    ;
}

/// The module-side registration helper: boxes a freshly constructed plugin
/// together with the schema it has just augmented into the protocol's return
/// pair.  This replaces per-module boilerplate; a module's entry point calls
/// it with its constructor's result and its declared option names.
pub fn register_plugin<P: Plugin>(plugin: P, options: &Vec<String>, schema: Schema) -> (r: (
    Schema,
    P,
))
    requires
        schema.wf(),
    ensures
        r.0.wf(),
        r.0@ == spec_merge(schema@, options.deep_view()),
        r.1 == plugin,
{
    let mut extended = schema;
    let _duplicates = extended.augment(options);
    (extended, plugin)
}

} // verus!
