use vstd::prelude::*;

verus! {

/// True when no option name occurs twice.
pub open spec fn unique_names(names: Seq<Seq<char>>) -> bool {
    forall|i: int, j: int| 0 <= i < j < names.len() ==> names[i] != names[j]
}

/// One registration step under the first-registered-wins policy: a name
/// already present is kept as it was, a new name is appended.
pub open spec fn merge_one(base: Seq<Seq<char>>, name: Seq<char>) -> Seq<Seq<char>> {
    if base.contains(name) {
        base
    } else {
        base.push(name)
    }
}

/// Registering a whole option list, left to right, under first-registered-wins.
pub open spec fn spec_merge(base: Seq<Seq<char>>, adds: Seq<Seq<char>>) -> Seq<Seq<char>>
    decreases adds.len(),
{
    if adds.len() == 0 {
        base
    } else {
        merge_one(spec_merge(base, adds.drop_last()), adds.last())
    }
}

/// The duplicate registrations that the merge turned away, in the order they
/// were offered.  These are the configuration errors a merge surfaces.
pub open spec fn spec_rejected(base: Seq<Seq<char>>, adds: Seq<Seq<char>>) -> Seq<Seq<char>>
    decreases adds.len(),
{
    if adds.len() == 0 {
        Seq::<Seq<char>>::empty()
    } else if spec_merge(base, adds.drop_last()).contains(adds.last()) {
        spec_rejected(base, adds.drop_last()).push(adds.last())
    } else {
        spec_rejected(base, adds.drop_last())
    }
}

/// The accumulating description of recognized command-line options.
///
/// Ownership of a `Schema` is linear: during loading it passes from the host
/// into one module at a time and back, and each holder extends it through
/// [`Schema::augment`].  Duplicate option names are resolved in favour of the
/// first registration; later duplicates are reported back to the caller.
pub struct Schema {
    names: Vec<String>,
}

impl View for Schema {
    type V = Seq<Seq<char>>;

    closed spec fn view(&self) -> Seq<Seq<char>> {
        self.names.deep_view()
    }
}

impl Schema {
    /// A schema is well formed when every option name is registered once.
    pub open spec fn wf(&self) -> bool {
        unique_names(self@)
    }

    /// The empty schema the host starts from.
    pub fn new() -> (r: Schema)
        ensures
            r@ == Seq::<Seq<char>>::empty(),
            r.wf(),
    {
        let r = Schema { names: Vec::new() };
        proof {
            assert(r@ =~= Seq::<Seq<char>>::empty());
        }
        r
    }

    /// How many option names are registered.
    pub fn len(&self) -> (r: usize)
        ensures
            r == self@.len(),
    {
        self.names.len()
    }

    /// The registered option names, in registration order.
    pub fn names(&self) -> (r: &Vec<String>)
        ensures
            r.deep_view() == self@,
    {
        &self.names
    }

    /// Whether an option of the given name is already registered.
    pub fn contains_name(&self, name: &String) -> (r: bool)
        ensures
            r == self@.contains(name@),
    {
        let mut i: usize = 0;
        while i < self.names.len()
            invariant
                i <= self.names.len(),
                forall|j: int| 0 <= j < i ==> self@[j] != name@,
            decreases self.names.len() - i,
        {
            if self.names[i] == *name {
                proof {
                    assert(self@[i as int] == name@);
                }
                return true;
            }
            i += 1;
        }
        false
    }

    /// Extend the schema with a module's option list.
    ///
    /// Under the first-registered-wins policy every name not yet present is
    /// appended in order; names already registered leave the schema untouched
    /// and come back in the result, so the caller can surface the duplicate
    /// registrations as a configuration error.
    pub fn augment(&mut self, opts: &Vec<String>) -> (rejected: Vec<String>)
        requires
            old(self).wf(),
        ensures
            final(self).wf(),
            final(self)@ == spec_merge(old(self)@, opts.deep_view()),
            rejected.deep_view() == spec_rejected(old(self)@, opts.deep_view()),
    {
        let ghost orig = self@;
        let ghost adds = opts.deep_view();
        let mut rejected: Vec<String> = Vec::new();
        let mut i: usize = 0;
        while i < opts.len()
            invariant
                i <= opts.len(),
                adds == opts.deep_view(),
                adds.len() == opts.len(),
                self.wf(),
                self@ == spec_merge(orig, adds.take(i as int)),
                rejected.deep_view() == spec_rejected(orig, adds.take(i as int)),
            decreases opts.len() - i,
        {
            proof {
                assert(adds.take(i + 1).drop_last() =~= adds.take(i as int));
                assert(adds.take(i + 1).last() == adds[i as int]);
                assert(opts.deep_view()[i as int] == opts@[i as int]@);
            }
            let ghost before = self@;
            let ghost rej_before = rejected.deep_view();
            let present = self.contains_name(&opts[i]);
            if present {
                rejected.push(opts[i].clone());
                proof {
                    assert(rejected.deep_view() =~= rej_before.push(adds[i as int]));
                    assert(self@ == spec_merge(orig, adds.take(i + 1)));
                }
            } else {
                self.names.push(opts[i].clone());
                proof {
                    assert(self@ =~= before.push(adds[i as int]));
                    assert(self@ == spec_merge(orig, adds.take(i + 1)));
                    assert forall|p: int, q: int| 0 <= p < q < self@.len() implies self@[p]
                        != self@[q] by {
                        if q < before.len() {
                        } else {
                            if before[p] == adds[i as int] {
                                assert(before.contains(adds[i as int]));
                            }
                        }
                    }
                }
            }
            i += 1;
        }
        proof {
            assert(adds.take(opts.len() as int) =~= adds);
        }
        rejected
    }
}

/// Law: merging never silently drops an option name.  A name stands in the
/// merged schema exactly when it stood in the base schema or in the offered
/// additions, whatever duplicates were turned away.
pub proof fn lemma_merge_never_drops(base: Seq<Seq<char>>, adds: Seq<Seq<char>>, x: Seq<char>)
    ensures
        spec_merge(base, adds).contains(x) <==> (base.contains(x) || adds.contains(x)),
    decreases adds.len(),
{
    if adds.len() == 0 {
    } else {
        lemma_merge_never_drops(base, adds.drop_last(), x);
        let front = adds.drop_last();
        let lst = adds.last();
        assert(adds.contains(x) <==> (front.contains(x) || lst == x)) by {
            if adds.contains(x) {
                let i = choose|i: int| 0 <= i < adds.len() && adds[i] == x;
                if i < adds.len() - 1 {
                    assert(front[i] == x);
                    assert(front.contains(x));
                }
            }
            if front.contains(x) {
                let i = choose|i: int| 0 <= i < front.len() && front[i] == x;
                assert(adds[i] == x);
                assert(adds.contains(x));
            }
            if lst == x {
                assert(adds[adds.len() - 1] == x);
                assert(adds.contains(x));
            }
        }
        let m = spec_merge(base, front);
        if m.contains(lst) {
        } else {
            assert(m.push(lst).contains(x) <==> (m.contains(x) || lst == x)) by {
                if m.contains(x) {
                    let i = choose|i: int| 0 <= i < m.len() && m[i] == x;
                    assert(m.push(lst)[i] == x);
                    assert(m.push(lst).contains(x));
                }
                if lst == x {
                    assert(m.push(lst)[m.len() as int] == x);
                    assert(m.push(lst).contains(x));
                }
                if m.push(lst).contains(x) {
                    let i = choose|i: int| 0 <= i < m.push(lst).len() && m.push(lst)[i] == x;
                    if i < m.len() {
                        assert(m[i] == x);
                        assert(m.contains(x));
                    }
                }
            }
        }
    }
}

/// Law: merging never disturbs what is already registered.  The merged
/// schema starts with the base schema, unchanged and in place, and only
/// appends: the first registration of a name keeps its position for good.
pub proof fn lemma_merge_extends(base: Seq<Seq<char>>, adds: Seq<Seq<char>>)
    ensures
        spec_merge(base, adds).len() >= base.len(),
        spec_merge(base, adds).take(base.len() as int) == base,
    decreases adds.len(),
{
    if adds.len() == 0 {
        assert(spec_merge(base, adds).take(base.len() as int) =~= base);
    } else {
        lemma_merge_extends(base, adds.drop_last());
        let m = spec_merge(base, adds.drop_last());
        if m.contains(adds.last()) {
        } else {
            assert(m.push(adds.last()).take(base.len() as int) =~= m.take(base.len() as int));
        }
    }
}

/// Law: loading two modules in either order produces schemas over exactly the
/// same option names.  The orders differ only in how duplicate names were
/// tie-broken, never by dropping one module's non-conflicting options.
pub proof fn lemma_merge_order_same_names(
    base: Seq<Seq<char>>,
    a: Seq<Seq<char>>,
    b: Seq<Seq<char>>,
    x: Seq<char>,
)
    ensures
        spec_merge(spec_merge(base, a), b).contains(x) <==> spec_merge(
            spec_merge(base, b),
            a,
        ).contains(x),
{
    lemma_merge_never_drops(base, a, x);
    lemma_merge_never_drops(base, b, x);
    lemma_merge_never_drops(spec_merge(base, a), b, x);
    lemma_merge_never_drops(spec_merge(base, b), a, x);
}

} // verus!
