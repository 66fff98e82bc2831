use vstd::prelude::*;

verus! {

/// One parsed option: a name and the value it was given.
pub struct ArgValue {
    pub name: String,
    pub value: String,
}

/// The first value bound to `name`, if any.
pub open spec fn args_lookup(entries: Seq<(Seq<char>, Seq<char>)>, name: Seq<char>) -> Option<
    Seq<char>,
>
    decreases entries.len(),
{
    if entries.len() == 0 {
        None
    } else if entries[0].0 == name {
        Some(entries[0].1)
    } else {
        args_lookup(entries.skip(1), name)
    }
}

/// Option values parsed against the merged schema, as plain name/value pairs.
///
/// This is the shape in which the host hands parsed command-line results to
/// each plugin; the actual flag syntax belongs to the external schema
/// library, which the host reduces to these pairs before dispatch.
pub struct ParsedArgs {
    entries: Vec<ArgValue>,
}

impl View for ParsedArgs {
    type V = Seq<(Seq<char>, Seq<char>)>;

    closed spec fn view(&self) -> Seq<(Seq<char>, Seq<char>)> {
        self.entries@.map(|i: int, a: ArgValue| (a.name@, a.value@))
    }
}

impl ParsedArgs {
    /// No options at all.
    pub fn new() -> (r: ParsedArgs)
        ensures
            r@ == Seq::<(Seq<char>, Seq<char>)>::empty(),
    {
        let r = ParsedArgs { entries: Vec::new() };
        proof {
            assert(r@ =~= Seq::<(Seq<char>, Seq<char>)>::empty());
        }
        r
    }

    /// Record one parsed option value.
    pub fn push(&mut self, name: String, value: String)
        ensures
            final(self)@ == old(self)@.push((name@, value@)),
    {
        let ghost before = self@;
        let ghost pair = (name@, value@);
        self.entries.push(ArgValue { name, value });
        proof {
            assert(self@ =~= before.push(pair));
        }
    }

    /// How many option values were recorded.
    pub fn len(&self) -> (r: usize)
        ensures
            r == self@.len(),
    {
        self.entries.len()
    }

    /// The first value bound to `name`, cloned out, or `None` when the name
    /// was never given.
    pub fn get(&self, name: &String) -> (r: Option<String>)
        ensures
            r matches Some(v) ==> args_lookup(self@, name@) == Some(v@),
            r is None ==> args_lookup(self@, name@) is None,
    {
        let mut i: usize = 0;
        proof {
            assert(self@.skip(0) =~= self@);
        }
        while i < self.entries.len()
            invariant
                i <= self.entries.len(),
                args_lookup(self@, name@) == args_lookup(self@.skip(i as int), name@),
            decreases self.entries.len() - i,
        {
            proof {
                assert(self@.skip(i as int)[0] == self@[i as int]);
                assert(self@.skip(i as int).skip(1) =~= self@.skip(i + 1));
            }
            if self.entries[i].name == *name {
                proof {
                    assert(self@[i as int].0 == name@);
                }
                return Some(self.entries[i].value.clone());
            }
            proof {
                assert(self@[i as int].0 != name@);
            }
            i += 1;
        }
        proof {
            assert(self@.skip(self.entries@.len() as int) =~= Seq::<(
                Seq<char>,
                Seq<char>,
            )>::empty());
        }
        None
    }
}

} // verus!
