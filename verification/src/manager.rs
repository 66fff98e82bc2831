use vstd::prelude::*;

use crate::args::ParsedArgs;
use crate::capability::Plugin;
use crate::errors::HostError;
use crate::registration::ModuleHandle;
use crate::schema::Schema;
use crate::schema::lemma_merge_order_same_names;
use crate::schema::spec_merge;

verus! {

/// The option lists of a sequence of modules, in load order.
pub open spec fn options_of<M: ModuleHandle>(ms: Seq<M>) -> Seq<Seq<Seq<char>>> {
    ms.map(|i: int, m: M| m.spec_options())
}

/// A schema extended by a whole load sequence, module by module, each under
/// first-registered-wins.
pub open spec fn spec_merge_all(base: Seq<Seq<char>>, opts: Seq<Seq<Seq<char>>>) -> Seq<
    Seq<char>,
>
    decreases opts.len(),
{
    if opts.len() == 0 {
        base
    } else {
        spec_merge(spec_merge_all(base, opts.drop_last()), opts.last())
    }
}

/// What a failed load sequence looks like when module `k` was the one that
/// refused: every earlier module loaded, the failure carries module `k`'s
/// own load error, and the schema handed back is exactly the schema as it
/// stood after the `k` earlier modules — the failed load mutated nothing.
pub open spec fn load_failed_at<M: ModuleHandle>(
    orig: Seq<Seq<char>>,
    ms: Seq<M>,
    f: LoadFailure<M>,
    k: int,
) -> bool {
    &&& 0 <= k < ms.len()
    &&& forall|j: int| 0 <= j < k ==> (#[trigger] ms[j]).spec_loads()
    &&& !ms[k].spec_loads()
    &&& f.error == ms[k].spec_load_error()
    &&& f.error.is_load_error()
    &&& f.schema@ == spec_merge_all(orig, options_of(ms.take(k)))
    &&& f.manager.spec_modules() == ms.take(k)
}

/// What a failed option dispatch looks like when plugin `k` was the one
/// that rejected: every earlier plugin accepted and had its options applied,
/// plugin `k` and every later plugin stand exactly as before the dispatch,
/// and the single fatal error names plugin `k`.
pub open spec fn dispatch_failed_at<P: Plugin>(
    before: Seq<P>,
    after: Seq<P>,
    args: Seq<(Seq<char>, Seq<char>)>,
    e: HostError,
    k: int,
) -> bool {
    &&& 0 <= k < before.len()
    &&& !before[k].spec_accepts(args)
    &&& forall|j: int| 0 <= j < k ==> (#[trigger] before[j]).spec_accepts(args)
    &&& forall|j: int| 0 <= j < k ==> (#[trigger] after[j]).spec_options_applied()
    &&& forall|j: int| k <= j < before.len() ==> (#[trigger] after[j]) == before[j]
    &&& (e matches HostError::OptionProcessingFailed(n) && n@ == before[k].spec_name())
}

/// A load sequence failed at some position, per [`load_failed_at`].
pub open spec fn load_failed<M: ModuleHandle>(
    orig: Seq<Seq<char>>,
    ms: Seq<M>,
    f: LoadFailure<M>,
) -> bool {
    exists|k: int| load_failed_at(orig, ms, f, k)
}

/// Owns every loaded module image and the plugin each module constructed.
///
/// Loading is strictly sequential and single-threaded.  The manager keeps a
/// module's image alive for its whole remaining lifetime: no module is ever
/// unloaded individually, and teardown may happen only once every worker
/// built from its plugins has been destroyed — holding a worker across the
/// manager's destruction is a precondition violation this design rules out
/// structurally by ownership, not at run time.
pub struct PluginManager<M: ModuleHandle> {
    modules: Vec<M>,
    plugins: Vec<M::P>,
}

/// Everything a failed load sequence leaves behind: the error of the module
/// that refused, the schema as it stood before that module, and the manager
/// still owning every module that did load — those stay loaded and are torn
/// down only with the manager itself.
pub struct LoadFailure<M: ModuleHandle> {
    pub error: HostError,
    pub schema: Schema,
    pub manager: PluginManager<M>,
}

impl<M: ModuleHandle> PluginManager<M> {
    /// The loaded module records, in load order.
    pub closed spec fn spec_modules(&self) -> Seq<M> {
        self.modules@
    }

    /// The plugin each loaded module constructed, in load order.
    pub closed spec fn spec_plugins(&self) -> Seq<M::P> {
        self.plugins@
    }

    /// One plugin per module, every retained module did load, and each
    /// plugin is the one its module constructed.
    pub open spec fn wf(&self) -> bool {
        &&& self.spec_modules().len() == self.spec_plugins().len()
        &&& forall|i: int|
            0 <= i < self.spec_modules().len() ==> (#[trigger] self.spec_modules()[i]).spec_loads()
        &&& forall|i: int|
            0 <= i < self.spec_plugins().len() ==> (#[trigger] self.spec_plugins()[i]).spec_name()
                == self.spec_modules()[i].spec_plugin_name()
                && self.spec_plugins()[i].spec_worker_specs()
                == self.spec_modules()[i].spec_plugin_specs()
    }

    /// An empty manager: nothing loaded yet.
    pub fn new() -> (r: PluginManager<M>)
        ensures
            r.wf(),
            r.spec_modules().len() == 0,
            r.spec_plugins().len() == 0,
    {
        PluginManager { modules: Vec::new(), plugins: Vec::new() }
    }

    /// How many modules are loaded.
    pub fn plugin_count(&self) -> (r: usize)
        ensures
            r == self.spec_plugins().len(),
    {
        self.plugins.len()
    }

    /// The loaded plugins, in load order.
    pub fn plugins(&self) -> (r: &Vec<M::P>)
        ensures
            r@ == self.spec_plugins(),
    {
        &self.plugins
    }

    /// Load one module: resolve and invoke its registration entry point,
    /// then take ownership of both the module image and the plugin it
    /// constructed.  On failure nothing is retained and the schema comes
    /// back untouched.
    pub fn load_single_plugin(&mut self, schema: Schema, module: M) -> (r: Result<
        Schema,
        (HostError, Schema),
    >)
        requires
            old(self).wf(),
            schema.wf(),
        ensures
            final(self).wf(),
            module.spec_loads() ==> (r matches Ok(s2) && s2.wf() && s2@ == spec_merge(
                schema@,
                module.spec_options(),
            )),
            module.spec_loads() ==> final(self).spec_modules() == old(self).spec_modules().push(
                module,
            ),
            module.spec_loads() ==> final(self).spec_plugins().len() == old(self).spec_plugins().len() + 1,
            module.spec_loads() ==> (forall|i: int|
                0 <= i < old(self).spec_plugins().len() ==> final(self).spec_plugins()[i] == old(self).spec_plugins()[i]),
            module.spec_loads() ==> !final(self).spec_plugins().last().spec_options_applied(),
            !module.spec_loads() ==> (r matches Err(e) && e.0 == module.spec_load_error()
                && e.0.is_load_error() && e.1 == schema),
            !module.spec_loads() ==> *final(self) == *old(self),
    {
        match module.register(schema) {
            Ok((extended, plugin)) => {
                self.modules.push(module);
                self.plugins.push(plugin);
                Ok(extended)
            },
            Err((error, untouched)) => Err((error, untouched)),
        }
    }

    /// Hand out the worker specs contributed by the most recently loaded
    /// plugin — deliberately not an aggregate over all loaded plugins: only
    /// one module's specs are exposed at a time, and a multi-module fleet is
    /// not supported by this call.
    pub fn build(&self) -> (r: Result<Vec<<M::P as Plugin>::Spec>, HostError>)
        requires
            self.wf(),
            self.spec_plugins().len() > 0,
        ensures
            r matches Ok(v) && v@ == self.spec_plugins().last().spec_worker_specs() && v@
                == self.spec_modules().last().spec_plugin_specs(),
    {
        let n = self.plugins.len();
        Ok(self.plugins[n - 1].get_worker_specs())
    }

    /// Deliver parsed option values to every loaded plugin, in load order.
    ///
    /// A plugin's rejection is fatal for the whole dispatch: it stops
    /// immediately — earlier plugins keep their applied options, the
    /// rejecting plugin and all later ones are left untouched — and
    /// surfaces a single error naming the rejecting plugin.
    pub fn process_options(&mut self, args: &ParsedArgs) -> (r: Result<(), HostError>)
        requires
            old(self).wf(),
        ensures
            final(self).wf(),
            final(self).spec_modules() == old(self).spec_modules(),
            final(self).spec_plugins().len() == old(self).spec_plugins().len(),
            forall|i: int|
                0 <= i < old(self).spec_plugins().len() ==> (#[trigger] final(self).spec_plugins()[i]).spec_name() == old(self).spec_plugins()[i].spec_name(),
            r is Ok <==> (forall|i: int|
                0 <= i < old(self).spec_plugins().len() ==> (#[trigger] old(self).spec_plugins()[i]).spec_accepts(args@)),
            r is Ok ==> (forall|i: int|
                0 <= i < old(self).spec_plugins().len() ==> (#[trigger] final(self).spec_plugins()[i]).spec_options_applied()),
            r matches Err(e) ==> exists|k: int|
                dispatch_failed_at(
                    old(self).spec_plugins(),
                    final(self).spec_plugins(),
                    args@,
                    e,
                    k,
                ),
    {
        let ghost before = self.spec_plugins();
        let n = self.plugins.len();
        let mut i: usize = 0;
        while i < n
            invariant
                i <= n,
                n == self.plugins.len(),
                n == before.len(),
                before == old(self).spec_plugins(),
                self.spec_modules() == old(self).spec_modules(),
                old(self).wf(),
                self.spec_plugins().len() == before.len(),
                forall|j: int| 0 <= j < i ==> (#[trigger] before[j]).spec_accepts(args@),
                forall|j: int|
                    0 <= j < i ==> (#[trigger] self.spec_plugins()[j]).spec_options_applied(),
                forall|j: int|
                    0 <= j < before.len() ==> (#[trigger] self.spec_plugins()[j]).spec_name()
                        == before[j].spec_name() && self.spec_plugins()[j].spec_worker_specs()
                        == before[j].spec_worker_specs(),
                forall|j: int| i <= j < before.len() ==> self.spec_plugins()[j] == before[j],
            decreases n - i,
        {
            let outcome = self.plugins[i].process_option(args);
            if outcome.is_err() {
                let name = self.plugins[i].name();
                proof {
                    assert(dispatch_failed_at(
                        before,
                        self.spec_plugins(),
                        args@,
                        HostError::OptionProcessingFailed(name),
                        i as int,
                    ));
                }
                return Err(HostError::OptionProcessingFailed(name));
            }
            i += 1;
        }
        Ok(())
    }
}

/// Load a whole ordered list of modules against an accumulating schema.
///
/// Modules load strictly in the given order; the order is significant, since
/// schema extension is cumulative and duplicate option names resolve to the
/// first registration.  The first module that fails aborts the sequence:
/// everything loaded so far stays loaded inside the returned failure's
/// manager, and the failure carries the schema exactly as it stood before
/// the failing module.
pub fn load_plugins<M: ModuleHandle>(schema: Schema, modules: Vec<M>) -> (r: Result<
    (Schema, PluginManager<M>),
    LoadFailure<M>,
>)
    requires
        schema.wf(),
    ensures
        r matches Ok(p) ==> p.0.wf() && p.1.wf() && p.0@ == spec_merge_all(
            schema@,
            options_of(modules@),
        ) && p.1.spec_modules() == modules@ && (forall|i: int|
            0 <= i < p.1.spec_plugins().len() ==> !(#[trigger] p.1.spec_plugins()[i]).spec_options_applied()),
        r matches Err(f) ==> f.manager.wf(),
        r matches Err(f) ==> f.schema.wf(),
        r matches Err(f) ==> load_failed(schema@, modules@, f),
{
    let ghost orig = schema@;
    let ghost all = modules@;
    let mut manager = PluginManager::<M>::new();
    let mut current = schema;
    let mut rest = modules;
    let ghost mut i: int = 0;
    proof {
        assert(all.skip(0) =~= all);
        assert(all.take(0) =~= Seq::<M>::empty());
        assert(options_of(all.take(0)) =~= Seq::<Seq<Seq<char>>>::empty());
        assert(manager.spec_modules() =~= all.take(0));
    }
    while rest.len() > 0
        invariant
            orig == schema@,
            all == modules@,
            0 <= i <= all.len(),
            rest@ == all.skip(i),
            current.wf(),
            current@ == spec_merge_all(orig, options_of(all.take(i))),
            manager.wf(),
            manager.spec_modules() == all.take(i),
            forall|j: int| 0 <= j < i ==> (#[trigger] all[j]).spec_loads(),
            forall|j: int|
                0 <= j < manager.spec_plugins().len() ==> !(#[trigger] manager.spec_plugins()[j]).spec_options_applied(),
        decreases rest.len(),
    {
        let module = rest.remove(0);
        proof {
            assert(all.skip(i)[0] == all[i]);
            assert(all.skip(i).remove(0) =~= all.skip(i + 1));
            assert(all.take(i + 1).drop_last() =~= all.take(i));
            assert(all.take(i + 1).last() == all[i]);
            assert(options_of(all.take(i + 1)).drop_last() =~= options_of(all.take(i)));
            assert(options_of(all.take(i + 1)).last() == all[i].spec_options());
            assert(all.take(i).push(all[i]) =~= all.take(i + 1));
        }
        match manager.load_single_plugin(current, module) {
            Ok(extended) => {
                current = extended;
            },
            Err((error, untouched)) => {
                let failure = LoadFailure { error, schema: untouched, manager };
                proof {
                    assert(load_failed_at(orig, all, failure, i));
                    assert(load_failed(orig, all, failure));
                }
                return Err(failure);
            },
        }
        proof {
            i = i + 1;
        }
    }
    proof {
        assert(all.take(all.len() as int) =~= all);
    }
    Ok((current, manager))
}

/// Merging two modules' options in sequence is one merge after the other.
proof fn lemma_two_merge_all(base: Seq<Seq<char>>, a: Seq<Seq<char>>, b: Seq<Seq<char>>)
    ensures
        spec_merge_all(base, seq![a, b]) == spec_merge(spec_merge(base, a), b),
{
    let two = seq![a, b];
    let one = seq![a];
    assert(two.drop_last() =~= one);
    assert(two.last() == b);
    assert(one.drop_last() =~= Seq::<Seq<Seq<char>>>::empty());
    assert(one.last() == a);
    assert(spec_merge_all(base, Seq::<Seq<Seq<char>>>::empty()) == base);
    assert(spec_merge_all(base, one) == spec_merge(base, a));
    assert(spec_merge_all(base, two) == spec_merge(spec_merge_all(base, one), b));
}

/// Law: loading two modules in either order produces schemas over exactly
/// the same option names.  Under first-registered-wins the order decides
/// only which registration of a duplicate name survives, never whether a
/// module's non-conflicting options survive.
pub proof fn lemma_load_order_same_names<M: ModuleHandle>(
    base: Seq<Seq<char>>,
    first: M,
    second: M,
    x: Seq<char>,
)
    ensures
        spec_merge_all(base, options_of(seq![first, second])).contains(x) <==> spec_merge_all(
            base,
            options_of(seq![second, first]),
        ).contains(x),
{
    let fs = options_of(seq![first, second]);
    let sf = options_of(seq![second, first]);
    assert(fs =~= seq![first.spec_options(), second.spec_options()]);
    assert(sf =~= seq![second.spec_options(), first.spec_options()]);
    lemma_two_merge_all(base, first.spec_options(), second.spec_options());
    lemma_two_merge_all(base, second.spec_options(), first.spec_options());
    lemma_merge_order_same_names(base, first.spec_options(), second.spec_options(), x);
}

} // verus!
