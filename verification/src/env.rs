//! The environment: variable names with their values.

use crate::string_map::{entries_map, StringMap};
use vstd::prelude::*;

verus! {

/// A set of environment variables. Each name has one value.
///
/// An `Env` is a plain value: composing changes into it yields a new `Env`
/// and leaves the one it started from as it was.
#[derive(Debug)]
pub struct Env {
    vars: StringMap<String>,
}

impl View for Env {
    type V = Map<Seq<char>, Seq<char>>;

    closed spec fn view(&self) -> Map<Seq<char>, Seq<char>> {
        self.vars@
    }
}

impl Env {
    /// The environment without variables.
    pub fn new() -> (r: Self)
        ensures
            r@ == Map::<Seq<char>, Seq<char>>::empty(),
    {
        Env { vars: StringMap::new() }
    }

    /// The environment that holds the variables of `vars`, a later pair
    /// replacing an earlier one of the same name.
    pub fn from_vars(vars: &Vec<(String, String)>) -> (r: Self)
        ensures
            r@ == entries_map(vars@),
    {
        let mut env = Env::new();
        let mut i: usize = 0;
        while i < vars.len()
            invariant
                i <= vars.len(),
                env@ == entries_map(vars@.take(i as int)),
            decreases vars.len() - i,
        {
            proof {
                assert(vars@.take(i + 1).drop_last() =~= vars@.take(i as int));
            }
            env.insert(vars[i].0.as_str(), vars[i].1.as_str());
            i += 1;
        }
        proof {
            assert(vars@.take(vars.len() as int) =~= vars@);
        }
        env
    }

    /// Sets the variable `name` to `value`.
    pub fn insert(&mut self, name: &str, value: &str)
        ensures
            final(self)@ == old(self)@.insert(name@, value@),
    {
        self.vars.insert(name.to_owned(), value.to_owned());
    }

    /// The value of the variable `name`, if it is set.
    pub fn get(&self, name: &str) -> (r: Option<&String>)
        ensures
            match r {
                Some(value) => self@.contains_key(name@) && value@ == self@[name@],
                None => !self@.contains_key(name@),
            },
    {
        self.vars.get(name)
    }

    /// Whether the variable `name` is set.
    pub fn contains_key(&self, name: &str) -> (r: bool)
        ensures
            r == self@.contains_key(name@),
    {
        self.vars.contains_key(name)
    }

    /// The number of variables.
    pub fn len(&self) -> (r: usize)
        ensures
            self@.dom().finite(),
            r == self@.dom().len(),
    {
        self.vars.len()
    }

    /// The variables as pairs of name and value, each name once.
    pub fn to_vec(&self) -> (r: Vec<(String, String)>)
        ensures
            entries_map(r@) == self@,
            r@.len() == self@.dom().len(),
    {
        let n = self.vars.len();
        let mut pairs: Vec<(String, String)> = Vec::new();
        let mut i: usize = 0;
        while i < n
            invariant
                n == self.vars.entries().len(),
                i <= n,
                pairs@.len() == i,
                entries_map(pairs@) == entries_map(self.vars.entries().take(i as int)),
            decreases n - i,
        {
            let (name, value) = self.vars.entry(i);
            proof {
                assert(self.vars.entries().take(i + 1).drop_last() =~= self.vars.entries().take(
                    i as int,
                ));
                assert(pairs@.push((*name, *value)).drop_last() =~= pairs@);
            }
            pairs.push((name.clone(), value.clone()));
            i += 1;
        }
        proof {
            assert(self.vars.entries().take(n as int) =~= self.vars.entries());
        }
        pairs
    }
}

impl Clone for Env {
    fn clone(&self) -> (r: Self)
        ensures
            r@ == self@,
    {
        let n = self.vars.len();
        let mut vars: StringMap<String> = StringMap::new();
        let mut i: usize = 0;
        while i < n
            invariant
                n == self.vars.entries().len(),
                i <= n,
                vars@ == entries_map(self.vars.entries().take(i as int)),
            decreases n - i,
        {
            let (name, value) = self.vars.entry(i);
            proof {
                assert(self.vars.entries().take(i + 1).drop_last() =~= self.vars.entries().take(
                    i as int,
                ));
            }
            vars.insert(name.clone(), value.clone());
            i += 1;
        }
        proof {
            assert(self.vars.entries().take(n as int) =~= self.vars.entries());
        }
        Env { vars }
    }
}

} // verus!
