use vstd::prelude::*;

use crate::text::str_eq;

verus! {

/// The value that `vars` gives to `name`: the latest setting wins.
pub open spec fn lookup(vars: Seq<(Seq<char>, Seq<char>)>, name: Seq<char>) -> Option<Seq<char>>
    decreases vars.len(),
{
    if vars.len() == 0 {
        None
    } else if vars.last().0 == name {
        Some(vars.last().1)
    } else {
        lookup(vars.drop_last(), name)
    }
}

/// A key-value store of environment variables, handed to the providers'
/// constructors in place of the process environment.
#[derive(Debug, Clone)]
pub struct EnvVars {
    pub vars: Vec<(String, String)>,
}

impl View for EnvVars {
    type V = Seq<(Seq<char>, Seq<char>)>;

    open spec fn view(&self) -> Seq<(Seq<char>, Seq<char>)> {
        self.vars@.map_values(|p: (String, String)| (p.0@, p.1@))
    }
}

impl EnvVars {
    /// A store with no variable set.
    pub fn new() -> (r: EnvVars)
        ensures
            r@ == Seq::<(Seq<char>, Seq<char>)>::empty(),
    {
        EnvVars { vars: Vec::new() }
    }

    /// Sets `name` to `value`, overriding any earlier setting.
    pub fn set(&mut self, name: String, value: String)
        ensures
            final(self)@ == old(self)@.push((name@, value@)),
    {
        self.vars.push((name, value));
        assert(final(self)@ =~= old(self)@.push((name@, value@)));
    }

    /// The value of `name`, if it is set.
    pub fn get(&self, name: &str) -> (r: Option<String>)
        ensures
            match r {
                Some(v) => lookup(self@, name@) == Some(v@),
                None => lookup(self@, name@) is None,
            },
    {
        let mut i: usize = self.vars.len();
        assert(self@.subrange(0, i as int) =~= self@);
        while i > 0
            invariant
                i <= self.vars@.len(),
                lookup(self@, name@) == lookup(self@.subrange(0, i as int), name@),
            decreases i,
        {
            let ghost pre = self@.subrange(0, i as int);
            assert(pre.drop_last() =~= self@.subrange(0, i - 1));
            let entry = &self.vars[i - 1];
            assert(pre.last() == (entry.0@, entry.1@));
            if str_eq(entry.0.as_str(), name) {
                return Some(entry.1.clone());
            }
            i = i - 1;
        }
        None
    }
}

} // verus!
