//! What composing environment modifications means, and the laws it obeys.
//!
//! A list of modifications is applied to an environment from left to right.
//! Only the entries that the requested scope includes take part. While the
//! list is applied, the delimiter recorded for each variable is carried along
//! with the environment.

use crate::layer_env::{Modification, ModificationBehavior, Scope};
use vstd::prelude::*;

verus! {

/// Whether a composition for the scope `requested` includes an entry tagged
/// `tag`: entries tagged `All` are always included, the others only for
/// their own scope.
pub open spec fn includes(requested: Scope, tag: Scope) -> bool {
    tag == Scope::All || tag == requested
}

/// The delimiter that joins values when none was recorded: one space.
pub open spec fn fallback_delimiter() -> Seq<char> {
    seq![' ']
}

/// The state of a composition: the environment so far, and the delimiters
/// recorded so far.
pub struct Composition {
    pub env: Map<Seq<char>, Seq<char>>,
    pub delimiters: Map<Seq<char>, Seq<char>>,
}

/// The state a composition starts in: the base environment, and no
/// delimiter recorded.
pub open spec fn start(env: Map<Seq<char>, Seq<char>>) -> Composition {
    Composition { env, delimiters: Map::empty() }
}

/// The delimiter in force for `key`: the one recorded, or else the fallback.
pub open spec fn delimiter_for(delimiters: Map<Seq<char>, Seq<char>>, key: Seq<char>) -> Seq<
    char,
> {
    if delimiters.contains_key(key) {
        delimiters[key]
    } else {
        fallback_delimiter()
    }
}

/// Whether the behavior joins a new value to an existing one.
pub open spec fn is_join(behavior: ModificationBehavior) -> bool {
    behavior == ModificationBehavior::Prepend || behavior == ModificationBehavior::Append
}

/// The state after one modification.
///
/// `Override` sets the variable. `Default` sets it only if it has no value.
/// `Delimiter` records the join string of the variable and sets nothing.
/// `Prepend` and `Append` join the new value to the existing one with the
/// delimiter in force, before or after it; where the variable has no value
/// they set it.
pub open spec fn apply_one(state: Composition, m: Modification) -> Composition {
    match m.behavior {
        ModificationBehavior::Override => Composition {
            env: state.env.insert(m.key, m.value),
            ..state
        },
        ModificationBehavior::Default => if state.env.contains_key(m.key) {
            state
        } else {
            Composition { env: state.env.insert(m.key, m.value), ..state }
        },
        ModificationBehavior::Delimiter => Composition {
            delimiters: state.delimiters.insert(m.key, m.value),
            ..state
        },
        ModificationBehavior::Prepend => if state.env.contains_key(m.key) {
            Composition {
                env: state.env.insert(
                    m.key,
                    m.value + delimiter_for(state.delimiters, m.key) + state.env[m.key],
                ),
                ..state
            }
        } else {
            Composition { env: state.env.insert(m.key, m.value), ..state }
        },
        ModificationBehavior::Append => if state.env.contains_key(m.key) {
            Composition {
                env: state.env.insert(
                    m.key,
                    state.env[m.key] + delimiter_for(state.delimiters, m.key) + m.value,
                ),
                ..state
            }
        } else {
            Composition { env: state.env.insert(m.key, m.value), ..state }
        },
    }
}

/// The state after the modifications of `mods` that `scope` includes, applied
/// in list order.
pub open spec fn apply_all(state: Composition, mods: Seq<Modification>, scope: Scope) -> Composition
    decreases mods.len(),
{
    if mods.len() == 0 {
        state
    } else {
        let before = apply_all(state, mods.drop_last(), scope);
        if includes(scope, mods.last().scope) {
            apply_one(before, mods.last())
        } else {
            before
        }
    }
}

/// The environment that results from composing `mods` for `scope` onto `env`.
pub open spec fn compose(env: Map<Seq<char>, Seq<char>>, mods: Seq<Modification>, scope: Scope) -> Map<
    Seq<char>,
    Seq<char>,
> {
    apply_all(start(env), mods, scope).env
}

/// The delimiters that `mods` records for `scope`.
pub open spec fn recorded_delimiters(mods: Seq<Modification>, scope: Scope) -> Map<
    Seq<char>,
    Seq<char>,
> {
    apply_all(start(Map::empty()), mods, scope).delimiters
}

/// The entries of `mods` that a composition for `scope` includes, in order.
pub open spec fn visible_entries(mods: Seq<Modification>, scope: Scope) -> Seq<Modification> {
    mods.filter(|m: Modification| includes(scope, m.scope))
}

/// Applying a list is applying its first part and then the rest, the state
/// carried from one to the other.
pub proof fn lemma_apply_all_concat(
    state: Composition,
    a: Seq<Modification>,
    b: Seq<Modification>,
    scope: Scope,
)
    ensures
        apply_all(state, a + b, scope) == apply_all(apply_all(state, a, scope), b, scope),
    decreases b.len(),
{
    if b.len() == 0 {
        assert(a + b =~= a);
    } else {
        assert((a + b).drop_last() =~= a + b.drop_last());
        lemma_apply_all_concat(state, a, b.drop_last(), scope);
    }
}

/// The delimiters that a list records do not depend on the environment it
/// is applied to.
pub proof fn lemma_delimiters_ignore_env(
    s1: Composition,
    s2: Composition,
    mods: Seq<Modification>,
    scope: Scope,
)
    requires
        s1.delimiters == s2.delimiters,
    ensures
        apply_all(s1, mods, scope).delimiters == apply_all(s2, mods, scope).delimiters,
    decreases mods.len(),
{
    if mods.len() > 0 {
        lemma_delimiters_ignore_env(s1, s2, mods.drop_last(), scope);
    }
}

/// Whether the delimiters that `a` records stay out of the joins of `b`:
/// wherever an included `Prepend` or `Append` of `b` finds its variable set,
/// the delimiter in force is the same whether or not `a` went before.
pub open spec fn joins_agree(
    env: Map<Seq<char>, Seq<char>>,
    a: Seq<Modification>,
    b: Seq<Modification>,
    scope: Scope,
) -> bool {
    forall|j: int|
        0 <= j < b.len() && includes(scope, (#[trigger] b[j]).scope) && is_join(b[j].behavior)
            && compose(env, a + b.take(j), scope).contains_key(b[j].key) ==> delimiter_for(
            recorded_delimiters(a + b.take(j), scope),
            b[j].key,
        ) == delimiter_for(recorded_delimiters(b.take(j), scope), b[j].key)
}

/// A list without an included `Delimiter` entry records no delimiter.
pub proof fn lemma_no_delimiter_recorded(mods: Seq<Modification>, scope: Scope)
    requires
        forall|i: int|
            0 <= i < mods.len() && includes(scope, (#[trigger] mods[i]).scope)
                ==> mods[i].behavior != ModificationBehavior::Delimiter,
    ensures
        recorded_delimiters(mods, scope) == Map::<Seq<char>, Seq<char>>::empty(),
    decreases mods.len(),
{
    if mods.len() > 0 {
        let front = mods.drop_last();
        assert forall|i: int|
            0 <= i < front.len() && includes(scope, (#[trigger] front[i]).scope) implies front[i].behavior
            != ModificationBehavior::Delimiter by {
            assert(front[i] == mods[i]);
        }
        lemma_no_delimiter_recorded(front, scope);
        assert(mods.last() == mods[mods.len() - 1]);
    }
}

/// Where `a` has no included `Delimiter` entry, no join of `b` can depend
/// on a delimiter of `a`.
pub proof fn lemma_joins_agree_without_delimiters(
    env: Map<Seq<char>, Seq<char>>,
    a: Seq<Modification>,
    b: Seq<Modification>,
    scope: Scope,
)
    requires
        forall|i: int|
            0 <= i < a.len() && includes(scope, (#[trigger] a[i]).scope) ==> a[i].behavior
                != ModificationBehavior::Delimiter,
    ensures
        joins_agree(env, a, b, scope),
{
    assert forall|j: int| 0 <= j < b.len() implies recorded_delimiters(a + b.take(j), scope)
        == recorded_delimiters(b.take(j), scope) by {
        let empty = start(Map::empty());
        lemma_apply_all_concat(empty, a, b.take(j), scope);
        lemma_no_delimiter_recorded(a, scope);
        lemma_delimiters_ignore_env(apply_all(empty, a, scope), empty, b.take(j), scope);
    }
}

/// Sequential composition: composing `a` and then composing `b` onto the
/// result gives the same environment as composing `a` followed by `b` at
/// once, for the same scope.
///
/// A composition starts with no delimiter recorded, so the law is stated for
/// the lists in which no join of `b` depends on a delimiter that only `a`
/// records.
pub proof fn law_sequential_composition(
    env: Map<Seq<char>, Seq<char>>,
    a: Seq<Modification>,
    b: Seq<Modification>,
    scope: Scope,
)
    requires
        joins_agree(env, a, b, scope),
    ensures
        compose(compose(env, a, scope), b, scope) == compose(env, a + b, scope),
    decreases b.len(),
{
    if b.len() == 0 {
        assert(a + b =~= a);
    } else {
        let front = b.drop_last();
        let m = b.last();
        let n = b.len() - 1;
        assert((a + b).drop_last() =~= a + front);
        assert(joins_agree(env, a, front, scope)) by {
            assert forall|j: int|
                0 <= j < front.len() && includes(scope, (#[trigger] front[j]).scope) && is_join(
                    front[j].behavior,
                ) && compose(env, a + front.take(j), scope).contains_key(
                    front[j].key,
                ) implies delimiter_for(
                recorded_delimiters(a + front.take(j), scope),
                front[j].key,
            ) == delimiter_for(recorded_delimiters(front.take(j), scope), front[j].key) by {
                assert(front.take(j) =~= b.take(j));
                assert(front[j] == b[j]);
            }
        }
        law_sequential_composition(env, a, front, scope);
        if includes(scope, m.scope) && is_join(m.behavior) {
            assert(b.take(n) =~= front);
            assert(b[n] == m);
            lemma_delimiters_ignore_env(
                start(env),
                start(Map::empty()),
                a + front,
                scope,
            );
            lemma_delimiters_ignore_env(
                start(compose(env, a, scope)),
                start(Map::empty()),
                front,
                scope,
            );
        }
    }
}

/// Sequential composition holds in particular where the first list has no
/// included `Delimiter` entry.
pub proof fn law_sequential_composition_without_delimiters(
    env: Map<Seq<char>, Seq<char>>,
    a: Seq<Modification>,
    b: Seq<Modification>,
    scope: Scope,
)
    requires
        forall|i: int|
            0 <= i < a.len() && includes(scope, (#[trigger] a[i]).scope) ==> a[i].behavior
                != ModificationBehavior::Delimiter,
    ensures
        compose(compose(env, a, scope), b, scope) == compose(env, a + b, scope),
{
    lemma_joins_agree_without_delimiters(env, a, b, scope);
    law_sequential_composition(env, a, b, scope);
}

/// A modification leaves the variables other than its own as they were.
pub proof fn lemma_apply_one_other_key(state: Composition, m: Modification, key: Seq<char>)
    requires
        key != m.key,
    ensures
        apply_one(state, m).env.contains_key(key) == state.env.contains_key(key),
        state.env.contains_key(key) ==> apply_one(state, m).env[key] == state.env[key],
{
}

/// `Override` wins: where the last included `Override` of a variable is
/// followed by no included `Prepend` or `Append` of that variable, the
/// variable ends with the value of that `Override`, whatever other entries
/// stand before or after it.
pub proof fn law_last_override_wins(
    env: Map<Seq<char>, Seq<char>>,
    mods: Seq<Modification>,
    scope: Scope,
    i: int,
)
    requires
        0 <= i < mods.len(),
        includes(scope, mods[i].scope),
        mods[i].behavior == ModificationBehavior::Override,
        forall|j: int|
            i < j < mods.len() && includes(scope, (#[trigger] mods[j]).scope) && mods[j].key
                == mods[i].key ==> mods[j].behavior == ModificationBehavior::Default
                || mods[j].behavior == ModificationBehavior::Delimiter,
    ensures
        compose(env, mods, scope).contains_key(mods[i].key),
        compose(env, mods, scope)[mods[i].key] == mods[i].value,
    decreases mods.len(),
{
    if i < mods.len() - 1 {
        let front = mods.drop_last();
        assert(front[i] == mods[i]);
        assert forall|j: int|
            i < j < front.len() && includes(scope, (#[trigger] front[j]).scope) && front[j].key
                == front[i].key implies front[j].behavior == ModificationBehavior::Default
            || front[j].behavior == ModificationBehavior::Delimiter by {
            assert(front[j] == mods[j]);
        }
        law_last_override_wins(env, front, scope, i);
        let last = mods[mods.len() - 1];
        if includes(scope, last.scope) && last.key != mods[i].key {
            lemma_apply_one_other_key(apply_all(start(env), front, scope), last, mods[i].key);
        }
    }
}

/// `Default` never overwrites: where the variable of a `Default` entry has
/// a value when the entry is reached, from the base environment or from an
/// earlier entry, the entry changes nothing.
pub proof fn law_default_keeps_value(
    env: Map<Seq<char>, Seq<char>>,
    mods: Seq<Modification>,
    scope: Scope,
    i: int,
)
    requires
        0 <= i < mods.len(),
        mods[i].behavior == ModificationBehavior::Default,
        compose(env, mods.take(i), scope).contains_key(mods[i].key),
    ensures
        compose(env, mods.take(i + 1), scope) == compose(env, mods.take(i), scope),
{
    assert(mods.take(i + 1).drop_last() =~= mods.take(i));
}

/// A variable that the base environment sets keeps its value when the
/// included entries for it are `Default` or `Delimiter` entries only.
pub proof fn law_defaults_keep_base_value(
    env: Map<Seq<char>, Seq<char>>,
    mods: Seq<Modification>,
    scope: Scope,
    key: Seq<char>,
)
    requires
        env.contains_key(key),
        forall|j: int|
            0 <= j < mods.len() && includes(scope, (#[trigger] mods[j]).scope) && mods[j].key
                == key ==> mods[j].behavior == ModificationBehavior::Default || mods[j].behavior
                == ModificationBehavior::Delimiter,
    ensures
        compose(env, mods, scope).contains_key(key),
        compose(env, mods, scope)[key] == env[key],
    decreases mods.len(),
{
    if mods.len() > 0 {
        let front = mods.drop_last();
        assert forall|j: int|
            0 <= j < front.len() && includes(scope, (#[trigger] front[j]).scope) && front[j].key
                == key implies front[j].behavior == ModificationBehavior::Default
            || front[j].behavior == ModificationBehavior::Delimiter by {
            assert(front[j] == mods[j]);
        }
        law_defaults_keep_base_value(env, front, scope, key);
        let last = mods[mods.len() - 1];
        if includes(scope, last.scope) && last.key != key {
            lemma_apply_one_other_key(apply_all(start(env), front, scope), last, key);
        }
    }
}

/// Scope filtering: no entry tagged `Build` is among the entries of the
/// `Launch` view, none tagged `Launch` among those of the `Build` view, and
/// each entry tagged `All` is among the entries of both.
pub proof fn law_scope_filtering(mods: Seq<Modification>)
    ensures
        forall|m: Modification| #[trigger]
            visible_entries(mods, Scope::Launch).contains(m) ==> m.scope != Scope::Build,
        forall|m: Modification| #[trigger]
            visible_entries(mods, Scope::Build).contains(m) ==> m.scope != Scope::Launch,
        forall|i: int|
            0 <= i < mods.len() && (#[trigger] mods[i]).scope == Scope::All ==> visible_entries(
                mods,
                Scope::Build,
            ).contains(mods[i]) && visible_entries(mods, Scope::Launch).contains(mods[i]),
{
    let launch = |m: Modification| includes(Scope::Launch, m.scope);
    let build = |m: Modification| includes(Scope::Build, m.scope);
    assert forall|m: Modification| #[trigger]
        visible_entries(mods, Scope::Launch).contains(m) implies m.scope != Scope::Build by {
        let k = choose|k: int|
            0 <= k < mods.filter(launch).len() && mods.filter(launch)[k] == m;
        mods.lemma_filter_pred(launch, k);
    }
    assert forall|m: Modification| #[trigger]
        visible_entries(mods, Scope::Build).contains(m) implies m.scope != Scope::Launch by {
        let k = choose|k: int| 0 <= k < mods.filter(build).len() && mods.filter(build)[k] == m;
        mods.lemma_filter_pred(build, k);
    }
    assert forall|i: int| 0 <= i < mods.len() && (#[trigger] mods[i]).scope
        == Scope::All implies visible_entries(mods, Scope::Build).contains(mods[i])
        && visible_entries(mods, Scope::Launch).contains(mods[i]) by {
        mods.lemma_filter_contains(build, i);
        mods.lemma_filter_contains(launch, i);
    }
}

/// A composition depends on the entries of its own view only: it is the
/// result of applying the visible entries one after the other.
pub proof fn law_composition_sees_visible_entries(
    env: Map<Seq<char>, Seq<char>>,
    mods: Seq<Modification>,
    scope: Scope,
)
    ensures
        compose(env, mods, scope) == visible_entries(mods, scope).fold_left(
            start(env),
            |s: Composition, m: Modification| apply_one(s, m),
        ).env,
{
    lemma_apply_all_is_fold(start(env), mods, scope);
}

proof fn lemma_apply_all_is_fold(state: Composition, mods: Seq<Modification>, scope: Scope)
    ensures
        apply_all(state, mods, scope) == visible_entries(mods, scope).fold_left(
            state,
            |s: Composition, m: Modification| apply_one(s, m),
        ),
    decreases mods.len(),
{
    reveal(Seq::filter);
    let f = |s: Composition, m: Modification| apply_one(s, m);
    if mods.len() > 0 {
        lemma_apply_all_is_fold(state, mods.drop_last(), scope);
        let front = visible_entries(mods.drop_last(), scope);
        if includes(scope, mods.last().scope) {
            assert(visible_entries(mods, scope) == front.push(mods.last()));
            assert(front.push(mods.last()).drop_last() =~= front);
        }
    }
}

} // verus!
