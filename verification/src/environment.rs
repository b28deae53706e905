use crate::object::{value_view, Object, ValueView};
use crate::text::{concat3, rc_clone, str_equals};
use std::rc::Rc;
use vstd::prelude::*;

verus! {

/// The mathematical model of an environment: its scopes, the innermost
/// first, each a map from names to values.
pub ghost struct EnvironmentView {
    pub scopes: Seq<Map<Seq<char>, ValueView>>,
}

/// A scope with a link to the scope that encloses it. It serves as the
/// table of the variables and functions that are visible at one place.
pub struct Environment {
    pub(crate) m: Vec<(String, Rc<Object>)>,  //current scope (inner-most scope)
    pub(crate) outer: Option<Rc<Environment>>,  //enclosing scope (parent or outer scope)
}

/// The map that a list of bindings stands for: a later binding of a name
/// replaces an earlier one.
pub open(crate) spec fn scope_view(m: Seq<(String, Rc<Object>)>) -> Map<Seq<char>, ValueView>
    decreases m, 0nat,
{
    if m.len() == 0 {
        Map::empty()
    } else {
        scope_view(m.drop_last()).insert(m.last().0@, value_view(*m.last().1))
    }
}

/// The model of an environment.
pub open(crate) spec fn environment_view(e: Environment) -> EnvironmentView
    decreases e, 0nat,
{
    EnvironmentView {
        scopes: seq![scope_view(e.m@)] + match e.outer {
            None => Seq::empty(),
            Some(o) => environment_view(*o).scopes,
        },
    }
}

impl View for Environment {
    type V = EnvironmentView;

    open(crate) spec fn view(&self) -> EnvironmentView {
        environment_view(*self)
    }
}

/// The value of `name` in the first scope, from index `i` on, that holds it.
pub open spec fn lookup_from(scopes: Seq<Map<Seq<char>, ValueView>>, i: int, name: Seq<char>) -> Option<
    ValueView,
>
    decreases scopes.len() - i,
{
    if i < 0 || i >= scopes.len() {
        None
    } else if scopes[i].contains_key(name) {
        Some(scopes[i][name])
    } else {
        lookup_from(scopes, i + 1, name)
    }
}

impl EnvironmentView {
    /// The value that `name` is bound to: that of the innermost scope that
    /// holds the name.
    pub open spec fn lookup(self, name: Seq<char>) -> Option<ValueView> {
        lookup_from(self.scopes, 0, name)
    }

    /// Whether the innermost scope holds `name`.
    pub open spec fn defines_locally(self, name: Seq<char>) -> bool {
        self.scopes.len() > 0 && self.scopes[0].contains_key(name)
    }

    /// The environment with `name` bound to `value` in the innermost scope.
    pub open spec fn define(self, name: Seq<char>, value: ValueView) -> EnvironmentView {
        EnvironmentView { scopes: self.scopes.update(0, self.scopes[0].insert(name, value)) }
    }

    /// The environment with a new, empty scope inside.
    pub open spec fn child(self) -> EnvironmentView {
        EnvironmentView { scopes: seq![Map::empty()] + self.scopes }
    }

    /// The environment with the scopes of `outer` round its own.
    pub open spec fn enclosed_by(self, outer: EnvironmentView) -> EnvironmentView {
        EnvironmentView { scopes: self.scopes + outer.scopes }
    }
}

/// The scopes of an environment that may be missing.
pub open spec fn optional_scopes(outer: Option<Rc<Environment>>) -> Seq<Map<Seq<char>, ValueView>> {
    match outer {
        None => Seq::empty(),
        Some(o) => o@.scopes,
    }
}

/// What a list of bindings says of a name: the last binding of the name
/// counts, and a name without binding is not in the scope.
pub(crate) proof fn lemma_scope_view(m: Seq<(String, Rc<Object>)>, name: Seq<char>, j: int)
    ensures
        (forall|k: int| 0 <= k < m.len() ==> (#[trigger] m[k]).0@ != name) ==> !scope_view(
            m,
        ).contains_key(name),
        (0 <= j < m.len() && m[j].0@ == name && forall|k: int|
            j < k < m.len() ==> (#[trigger] m[k]).0@ != name) ==> scope_view(m).contains_key(name)
            && scope_view(m)[name] == m[j].1@,
    decreases m.len(),
{
    if m.len() > 0 {
        let rest = m.drop_last();
        lemma_scope_view(rest, name, j);
    }
}

/// Taking a binding out of a list changes nothing for the other names.
pub(crate) proof fn lemma_scope_remove(m: Seq<(String, Rc<Object>)>, j: int, name: Seq<char>)
    requires
        0 <= j < m.len(),
        name != m[j].0@,
    ensures
        scope_view(m.remove(j)).contains_key(name) == scope_view(m).contains_key(name),
        scope_view(m.remove(j))[name] == scope_view(m)[name],
    decreases m.len(),
{
    if j == m.len() - 1 {
    } else {
        lemma_scope_remove(m.drop_last(), j, name);
        assert(m.remove(j).drop_last() =~= m.drop_last().remove(j));
    }
}

/// The scopes of an environment: its own, then those that enclose it.
pub(crate) proof fn lemma_environment_view(e: &Environment)
    ensures
        e@.scopes == seq![scope_view(e.m@)] + optional_scopes(e.outer),
        e@.scopes.len() >= 1,
        e@.scopes[0] == scope_view(e.m@),
        forall|name: Seq<char>|
            e@.lookup(name) == if scope_view(e.m@).contains_key(name) {
                Some(scope_view(e.m@)[name])
            } else {
                lookup_from(optional_scopes(e.outer), 0, name)
            },
{
    let outer = optional_scopes(e.outer);
    assert forall|name: Seq<char>|
        e@.lookup(name) == if scope_view(e.m@).contains_key(name) {
            Some(scope_view(e.m@)[name])
        } else {
            lookup_from(outer, 0, name)
        } by {
        lemma_lookup_shift(seq![scope_view(e.m@)], outer, 0, name);
    }
}

/// Looking a name up past the scopes that stand in front.
pub proof fn lemma_lookup_shift(
    front: Seq<Map<Seq<char>, ValueView>>,
    back: Seq<Map<Seq<char>, ValueView>>,
    i: int,
    name: Seq<char>,
)
    requires
        0 <= i,
    ensures
        lookup_from(front + back, front.len() + i, name) == lookup_from(back, i, name),
    decreases back.len() - i,
{
    if i < back.len() {
        lemma_lookup_shift(front, back, i + 1, name);
    }
}

impl Clone for Environment {
    fn clone(&self) -> (e: Self)
        ensures
            e@ == self@,
    {
        let mut m: Vec<(String, Rc<Object>)> = Vec::new();
        let mut i: usize = 0;
        while i < self.m.len()
            invariant
                i <= self.m.len(),
                m@.len() == i,
                forall|k: int| 0 <= k < i ==> (#[trigger] m@[k]).0@ == self.m@[k].0@ && m@[k].1@ == self.m@[k].1@,
                scope_view(m@) == scope_view(self.m@.take(i as int)),
            decreases self.m.len() - i,
        {
            let ghost before = m@;
            m.push((self.m[i].0.clone(), rc_clone(&self.m[i].1)));
            proof {
                assert(m@.drop_last() =~= before);
                assert(self.m@.take(i + 1).drop_last() =~= self.m@.take(i as int));
            }
            i = i + 1;
        }
        assert(self.m@.take(i as int) =~= self.m@);
        let outer = match &self.outer {
            None => None,
            Some(o) => Some(rc_clone(o)),
        };
        let e = Environment { m, outer };
        proof {
            lemma_environment_view(&e);
            lemma_environment_view(self);
        }
        e
    }
}

impl Environment {
    /// A fresh scope inside `outer`, or on its own.
    pub fn new(outer: Option<Rc<Environment>>) -> (e: Self)
        ensures
            e@.scopes == seq![Map::<Seq<char>, ValueView>::empty()] + optional_scopes(outer),
    {
        let e = Self { m: Vec::new(), outer };
        proof {
            lemma_environment_view(&e);
        }
        e
    }

    /// The index of the last binding of `key` in this scope.
    fn find(&self, key: &str) -> (r: Option<usize>)
        ensures
            match r {
                Some(j) => j < self.m.len() && self.m@[j as int].0@ == key@ && scope_view(
                    self.m@,
                ).contains_key(key@) && scope_view(self.m@)[key@] == self.m@[j as int].1@,
                None => !scope_view(self.m@).contains_key(key@),
            },
    {
        let mut i: usize = self.m.len();
        while i > 0
            invariant
                i <= self.m.len(),
                forall|k: int| i <= k < self.m.len() ==> (#[trigger] self.m@[k]).0@ != key@,
            decreases i,
        {
            i = i - 1;
            if str_equals(self.m[i].0.as_str(), key) {
                proof {
                    lemma_scope_view(self.m@, key@, i as int);
                }
                return Some(i);
            }
        }
        proof {
            lemma_scope_view(self.m@, key@, 0);
        }
        None
    }

    /// The value that `key` is bound to, looked for from the innermost scope
    /// outwards.
    pub fn get(&self, key: &str) -> (r: Option<&Rc<Object>>)
        ensures
            match r {
                Some(v) => self@.lookup(key@) == Some(v@),
                None => self@.lookup(key@) is None,
            },
        decreases self,
    {
        proof {
            lemma_environment_view(self);
        }
        match self.find(key) {
            Some(j) => Some(&self.m[j].1),
            None => match &self.outer {
                None => None,
                Some(e) => e.get(key),
            },
        }
    }

    /// Binds `key` to `value` in the innermost scope, in place of what it
    /// was bound to there before.
    pub fn set(&mut self, key: String, value: Rc<Object>)
        ensures
            final(self)@ == old(self)@.define(key@, value@),
    {
        if let Some(j) = self.find(key.as_str()) {
            self.m.remove(j);
        }
        let ghost rest = self.m@;
        proof {
            assert forall|name: Seq<char>| name != key@ implies (#[trigger] scope_view(
                rest,
            ).contains_key(name)) == scope_view(old(self).m@).contains_key(name) && scope_view(
                rest,
            )[name] == scope_view(old(self).m@)[name] by {
                if rest != old(self).m@ {
                    let j = choose|j: int|
                        0 <= j < old(self).m@.len() && old(self).m@[j].0@ == key@ && rest
                            == old(self).m@.remove(j);
                    lemma_scope_remove(old(self).m@, j, name);
                }
            }
        }
        self.m.push((key, value));
        proof {
            assert(self.m@.drop_last() =~= rest);
            lemma_environment_view(old(self));
            lemma_environment_view(self);
            assert(scope_view(self.m@) == scope_view(rest).insert(key@, value@));
            assert(scope_view(self.m@) =~= scope_view(old(self).m@).insert(key@, value@));
            assert(self@.scopes =~= old(self)@.define(key@, value@).scopes);
        }
    }

    /// Binds `key` to `value` in the innermost scope, unless that scope
    /// holds `key` already. A binding in an enclosing scope does not count.
    pub fn try_set(&mut self, key: String, value: Rc<Object>) -> (r: Result<(), String>)
        ensures
            match r {
                Ok(_) => !old(self)@.defines_locally(key@) && final(self)@ == old(self)@.define(
                    key@,
                    value@,
                ),
                Err(e) => old(self)@.defines_locally(key@) && final(self)@ == old(self)@ && e@
                    == "`"@ + key@ + "` is already defined"@,
            },
    {
        proof {
            lemma_environment_view(self);
        }
        match self.find(key.as_str()) {
            None => {
                self.set(key, value);
                Ok(())
            },
            Some(_) => Err(concat3("`", key.as_str(), "` is already defined")),
        }
    }

    /// Puts the scopes of `outer` round all the scopes of this environment.
    pub fn set_outer(&mut self, outer: Option<Rc<Environment>>)
        ensures
            final(self)@.scopes == old(self)@.scopes + optional_scopes(outer),
        decreases old(self)@.scopes.len(),
    {
        proof {
            lemma_environment_view(self);
        }
        let enclosing = match &self.outer {
            None => outer,
            Some(e) => {
                proof {
                    lemma_environment_view(&**e);
                }
                let mut e: Environment = (**e).clone();
                e.set_outer(outer);
                Some(Rc::new(e))
            },
        };
        self.outer = enclosing;
        proof {
            lemma_environment_view(self);
        }
    }
}

} // verus!
