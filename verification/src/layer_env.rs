//! Environment modifications as a layer reports them.

use crate::composition::{
    apply_all, compose, fallback_delimiter, includes, start, visible_entries,
};
use crate::env::Env;
use vstd::prelude::*;

verus! {

/// The stages that see a modification.
#[derive(Clone, Copy, Debug, PartialEq, Eq, Structural)]
pub enum Scope {
    /// Later build steps and the launched process.
    All,
    /// Later build steps only.
    Build,
    /// The launched process only.
    Launch,
}

/// How a modification merges with the value that a variable already has.
#[derive(Clone, Copy, Debug, PartialEq, Eq, Structural)]
pub enum ModificationBehavior {
    /// Joins the value after the existing one.
    Append,
    /// Sets the variable unless it has a value.
    Default,
    /// Records the string that joins values of the variable.
    Delimiter,
    /// Sets the variable.
    Override,
    /// Joins the value before the existing one.
    Prepend,
}

/// One modification, as contracts speak of it.
pub struct Modification {
    pub scope: Scope,
    pub behavior: ModificationBehavior,
    pub key: Seq<char>,
    pub value: Seq<char>,
}

impl Scope {
    /// Whether a composition for this scope includes an entry tagged `tag`.
    pub fn includes(self, tag: Scope) -> (r: bool)
        ensures
            r == includes(self, tag),
    {
        match tag {
            Scope::All => true,
            Scope::Build => match self {
                Scope::Build => true,
                _ => false,
            },
            Scope::Launch => match self {
                Scope::Launch => true,
                _ => false,
            },
        }
    }
}

/// One modification of one environment variable.
#[derive(Debug)]
pub struct EnvironmentModification {
    pub scope: Scope,
    pub behavior: ModificationBehavior,
    pub key: String,
    pub value: String,
}

impl View for EnvironmentModification {
    type V = Modification;

    open spec fn view(&self) -> Modification {
        Modification {
            scope: self.scope,
            behavior: self.behavior,
            key: self.key@,
            value: self.value@,
        }
    }
}

impl Clone for EnvironmentModification {
    fn clone(&self) -> (r: Self)
        ensures
            r@ == self@,
    {
        EnvironmentModification {
            scope: self.scope,
            behavior: self.behavior,
            key: self.key.clone(),
            value: self.value.clone(),
        }
    }
}

/// The environment modifications of a layer: an ordered list that only
/// grows at its end. The order of insertion is the order of application.
#[derive(Debug)]
pub struct LayerEnv {
    entries: Vec<EnvironmentModification>,
}

impl View for LayerEnv {
    type V = Seq<Modification>;

    closed spec fn view(&self) -> Seq<Modification> {
        self.entries@.map_values(|m: EnvironmentModification| m@)
    }
}

/// The fallback delimiter as a string.
fn fallback() -> (r: String)
    ensures
        r@ == fallback_delimiter(),
{
    proof {
        reveal_strlit(" ");
        assert(" "@ =~= fallback_delimiter());
    }
    " ".to_owned()
}

/// The three parts in order, as one string.
fn joined(first: &str, delimiter: &str, second: &str) -> (r: String)
    ensures
        r@ == first@ + delimiter@ + second@,
{
    let mut text = first.to_owned();
    text.append(delimiter);
    text.append(second);
    text
}

impl LayerEnv {
    /// The empty list.
    pub fn new() -> (r: Self)
        ensures
            r@ == Seq::<Modification>::empty(),
    {
        let r = LayerEnv { entries: Vec::new() };
        proof {
            assert(r@ =~= Seq::<Modification>::empty());
        }
        r
    }

    /// Adds a modification at the end of the list.
    pub fn insert(&mut self, scope: Scope, behavior: ModificationBehavior, key: &str, value: &str)
        ensures
            final(self)@ == old(self)@.push(
                Modification { scope, behavior, key: key@, value: value@ },
            ),
    {
        self.entries.push(
            EnvironmentModification { scope, behavior, key: key.to_owned(), value: value.to_owned() },
        );
        proof {
            assert(self@ =~= old(self)@.push(
                Modification { scope, behavior, key: key@, value: value@ },
            ));
        }
    }

    /// The list with a modification added at its end.
    pub fn chainable_insert(
        self,
        scope: Scope,
        behavior: ModificationBehavior,
        key: &str,
        value: &str,
    ) -> (r: Self)
        ensures
            r@ == self@.push(Modification { scope, behavior, key: key@, value: value@ }),
    {
        let mut r = self;
        r.insert(scope, behavior, key, value);
        r
    }

    /// The list followed by the entries of `other`.
    pub fn concat(self, other: &LayerEnv) -> (r: Self)
        ensures
            r@ == self@ + other@,
    {
        let mut r = self;
        let mut i: usize = 0;
        while i < other.entries.len()
            invariant
                i <= other.entries.len(),
                r@ == self@ + other@.take(i as int),
            decreases other.entries.len() - i,
        {
            let ghost before = r@;
            r.entries.push(other.entries[i].clone());
            proof {
                assert(r@ =~= before.push(other@[i as int]));
                assert(other@.take(i + 1) =~= other@.take(i as int).push(other@[i as int]));
                assert(r@ =~= self@ + other@.take(i + 1));
            }
            i += 1;
        }
        proof {
            assert(other@.take(other.entries.len() as int) =~= other@);
        }
        r
    }

    /// The number of modifications.
    pub fn len(&self) -> (r: usize)
        ensures
            r == self@.len(),
    {
        self.entries.len()
    }

    /// The modification at `index`.
    pub fn get(&self, index: usize) -> (r: Option<&EnvironmentModification>)
        ensures
            match r {
                Some(m) => index < self@.len() && m@ == self@[index as int],
                None => index >= self@.len(),
            },
    {
        if index < self.entries.len() {
            Some(&self.entries[index])
        } else {
            None
        }
    }

    /// The entries that a composition for `scope` includes, in order.
    pub fn visible(&self, scope: Scope) -> (r: LayerEnv)
        ensures
            r@ == visible_entries(self@, scope),
    {
        let mut r = LayerEnv::new();
        let mut i: usize = 0;
        proof {
            reveal(Seq::filter);
            assert(self@.take(0) =~= Seq::<Modification>::empty());
        }
        while i < self.entries.len()
            invariant
                i <= self.entries.len(),
                r@ == visible_entries(self@.take(i as int), scope),
            decreases self.entries.len() - i,
        {
            proof {
                reveal(Seq::filter);
                assert(self@.take(i + 1).drop_last() =~= self@.take(i as int));
            }
            if scope.includes(self.entries[i].scope) {
                r.entries.push(self.entries[i].clone());
                proof {
                    assert(r@ =~= visible_entries(self@.take(i as int), scope).push(
                        self@[i as int],
                    ));
                }
            }
            i += 1;
        }
        proof {
            assert(self@.take(self.entries.len() as int) =~= self@);
        }
        r
    }

    /// Composes the modifications that `scope` includes onto `env`, in list
    /// order, and returns the resulting environment. `env` stays as it is.
    pub fn apply(&self, scope: Scope, env: &Env) -> (r: Env)
        ensures
            r@ == compose(env@, self@, scope),
    {
        let mut result = env.clone();
        let mut delimiters = Env::new();
        let mut i: usize = 0;
        proof {
            assert(self@.take(0) =~= Seq::<Modification>::empty());
        }
        while i < self.entries.len()
            invariant
                i <= self.entries.len(),
                result@ == apply_all(start(env@), self@.take(i as int), scope).env,
                delimiters@ == apply_all(start(env@), self@.take(i as int), scope).delimiters,
            decreases self.entries.len() - i,
        {
            let m = &self.entries[i];
            proof {
                assert(self@.take(i + 1).drop_last() =~= self@.take(i as int));
                assert(self@.take(i + 1).last() == m@);
            }
            if scope.includes(m.scope) {
                let key = m.key.as_str();
                let value = m.value.as_str();
                match m.behavior {
                    ModificationBehavior::Override => {
                        result.insert(key, value);
                    },
                    ModificationBehavior::Default => {
                        if !result.contains_key(key) {
                            result.insert(key, value);
                        }
                    },
                    ModificationBehavior::Delimiter => {
                        delimiters.insert(key, value);
                    },
                    ModificationBehavior::Prepend => {
                        let text = match result.get(key) {
                            Some(existing) => {
                                let delimiter = match delimiters.get(key) {
                                    Some(d) => d.clone(),
                                    None => fallback(),
                                };
                                joined(value, delimiter.as_str(), existing.as_str())
                            },
                            None => value.to_owned(),
                        };
                        result.insert(key, text.as_str());
                    },
                    ModificationBehavior::Append => {
                        let text = match result.get(key) {
                            Some(existing) => {
                                let delimiter = match delimiters.get(key) {
                                    Some(d) => d.clone(),
                                    None => fallback(),
                                };
                                joined(existing.as_str(), delimiter.as_str(), value)
                            },
                            None => value.to_owned(),
                        };
                        result.insert(key, text.as_str());
                    },
                }
            }
            i += 1;
        }
        proof {
            assert(self@.take(self.entries.len() as int) =~= self@);
        }
        result
    }

    /// Composes the modifications that `scope` includes onto the empty
    /// environment.
    pub fn apply_to_empty(&self, scope: Scope) -> (r: Env)
        ensures
            r@ == compose(Map::empty(), self@, scope),
    {
        let env = Env::new();
        self.apply(scope, &env)
    }
}

impl Clone for LayerEnv {
    fn clone(&self) -> (r: Self)
        ensures
            r@ == self@,
    {
        let r = LayerEnv::new().concat(self);
        proof {
            assert(Seq::<Modification>::empty() + self@ =~= self@);
        }
        r
    }
}

} // verus!
