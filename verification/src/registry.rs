//! The control plane's state: live environments by identifier, and the
//! language runtimes provisioned for each agent.

use vstd::prelude::*;
use std::collections::HashMap;
use crate::environment::{Commune, Isolone};
use crate::ids::AgentId;
use crate::limits::{LimitsView, ResourceLimits};

verus! {

broadcast use vstd::std_specs::hash::group_hash_axioms;

/// A live environment of either kind.
#[non_exhaustive]
pub enum ActiveEnv {
    Isolone(Isolone),
    Commune(Commune),
}

/// The limits of an environment of either kind.
pub open spec fn active_limits(e: ActiveEnv) -> LimitsView {
    match e {
        ActiveEnv::Isolone(i) => i.limits@,
        ActiveEnv::Commune(c) => c.limits@,
    }
}

/// The name of an environment's kind.
pub open spec fn kind_name(e: ActiveEnv) -> Seq<char> {
    match e {
        ActiveEnv::Isolone(_) => "Isolone"@,
        ActiveEnv::Commune(_) => "Commune"@,
    }
}

impl ActiveEnv {
    /// The environment's resource limits.
    pub fn limits(&self) -> (r: &ResourceLimits)
        ensures
            r@ == active_limits(*self),
    {
        match self {
            ActiveEnv::Isolone(i) => &i.limits,
            ActiveEnv::Commune(c) => &c.limits,
        }
    }

    /// The name of the environment's kind: `Isolone` or `Commune`.
    pub fn kind(&self) -> (r: &'static str)
        ensures
            r@ == kind_name(*self),
    {
        match self {
            ActiveEnv::Isolone(_) => "Isolone",
            ActiveEnv::Commune(_) => "Commune",
        }
    }
}

/// No identifier is held twice in `s`.
pub open spec fn unique_keys<T>(s: Seq<(String, T)>) -> bool {
    forall|i: int, j: int|
        0 <= i < s.len() && 0 <= j < s.len() && i != j ==> #[trigger] s[i].0@ != #[trigger] s[j].0@
}

/// The identifier `k` is held at position `i` of `s`.
pub open spec fn holds_at<T>(s: Seq<(String, T)>, k: Seq<char>, i: int) -> bool {
    0 <= i < s.len() && s[i].0@ == k
}

/// The identifiers held in `s`.
pub open spec fn keys_of<T>(s: Seq<(String, T)>) -> Set<Seq<char>> {
    Set::new(|k: Seq<char>| exists|i: int| holds_at(s, k, i))
}

/// The entry held under `k` in `s`.
pub open spec fn entry_of<T>(s: Seq<(String, T)>, k: Seq<char>) -> T {
    s[choose|i: int| holds_at(s, k, i)].1
}

/// `s` as a map from identifiers to entries.
pub open spec fn map_of<T>(s: Seq<(String, T)>) -> Map<Seq<char>, T> {
    Map::new(|k: Seq<char>| keys_of(s).contains(k), |k: Seq<char>| entry_of(s, k))
}

/// Where identifiers are unique, the entry under a held identifier is the one at its position.
pub proof fn lemma_entry_at<T>(s: Seq<(String, T)>, k: Seq<char>, i: int)
    requires
        unique_keys(s),
        holds_at(s, k, i),
    ensures
        map_of(s).contains_key(k),
        map_of(s)[k] == s[i].1,
{
    let j = choose|j: int| holds_at(s, k, j);
    assert(keys_of(s).contains(k));
    assert(s[i].0@ == s[j].0@);
}

/// Adding an entry under a new identifier.
pub proof fn lemma_push_new<T>(s: Seq<(String, T)>, k: String, v: T)
    requires
        unique_keys(s),
        !keys_of(s).contains(k@),
    ensures
        unique_keys(s.push((k, v))),
        map_of(s.push((k, v))) == map_of(s).insert(k@, v),
{
    let r = s.push((k, v));
    assert forall|i: int, j: int|
        0 <= i < r.len() && 0 <= j < r.len() && i != j implies #[trigger] r[i].0@ != #[trigger] r[j].0@ by {
        if i == s.len() {
            assert(!holds_at(s, k@, j));
        } else if j == s.len() {
            assert(!holds_at(s, k@, i));
        } else {
            assert(r[i] == s[i] && r[j] == s[j]);
        }
    }
    assert forall|k2: Seq<char>| #[trigger] map_of(r).contains_key(k2) <==> map_of(s).insert(k@, v).contains_key(k2) by {
        if keys_of(r).contains(k2) {
            let j = choose|j: int| holds_at(r, k2, j);
            if j < s.len() {
                assert(holds_at(s, k2, j));
            }
        }
        if keys_of(s).contains(k2) {
            let j = choose|j: int| holds_at(s, k2, j);
            assert(holds_at(r, k2, j));
        }
        if k2 == k@ {
            assert(holds_at(r, k2, s.len() as int));
        }
    }
    assert forall|k2: Seq<char>| #[trigger] map_of(r).contains_key(k2) implies map_of(r)[k2] == map_of(s).insert(k@, v)[k2] by {
        if k2 == k@ {
            lemma_entry_at(r, k2, s.len() as int);
        } else {
            let j = choose|j: int| holds_at(s, k2, j);
            lemma_entry_at(s, k2, j);
            assert(holds_at(r, k2, j));
            lemma_entry_at(r, k2, j);
        }
    }
    assert(map_of(r) =~= map_of(s).insert(k@, v));
}

/// Removing the entry at position `i`.
pub proof fn lemma_remove_at<T>(s: Seq<(String, T)>, i: int)
    requires
        unique_keys(s),
        0 <= i < s.len(),
    ensures
        unique_keys(s.remove(i)),
        map_of(s.remove(i)) == map_of(s).remove(s[i].0@),
        !keys_of(s.remove(i)).contains(s[i].0@),
{
    let r = s.remove(i);
    let ki = s[i].0@;
    assert forall|a: int| 0 <= a < r.len() implies #[trigger] r[a] == s[if a < i { a } else { a + 1 }] by {}
    assert forall|a: int, b: int|
        0 <= a < r.len() && 0 <= b < r.len() && a != b implies #[trigger] r[a].0@ != #[trigger] r[b].0@ by {
        let a2 = if a < i { a } else { a + 1 };
        let b2 = if b < i { b } else { b + 1 };
        assert(r[a] == s[a2] && r[b] == s[b2]);
    }
    assert forall|k2: Seq<char>| #[trigger] keys_of(r).contains(k2) <==> (keys_of(s).contains(k2) && k2 != ki) by {
        if keys_of(r).contains(k2) {
            let a = choose|a: int| holds_at(r, k2, a);
            let a2 = if a < i { a } else { a + 1 };
            assert(r[a] == s[a2]);
            assert(holds_at(s, k2, a2));
        }
        if keys_of(s).contains(k2) && k2 != ki {
            let a = choose|a: int| holds_at(s, k2, a);
            if a < i {
                assert(r[a] == s[a]);
                assert(holds_at(r, k2, a));
            } else {
                assert(a != i);
                assert(r[a - 1] == s[a]);
                assert(holds_at(r, k2, a - 1));
            }
        }
    }
    assert forall|k2: Seq<char>| #[trigger] map_of(r).contains_key(k2) implies map_of(r)[k2] == map_of(s)[k2] by {
        let a = choose|a: int| holds_at(r, k2, a);
        let a2 = if a < i { a } else { a + 1 };
        assert(r[a] == s[a2]);
        lemma_entry_at(r, k2, a);
        lemma_entry_at(s, k2, a2);
    }
    assert(map_of(r) =~= map_of(s).remove(ki));
}

/// A table of entries keyed by text identifiers, each identifier at most once.
pub struct EnvTable<T> {
    entries: Vec<(String, T)>,
}

impl<T> EnvTable<T> {
    /// No identifier is held twice.
    #[verifier::type_invariant]
    spec fn keys_unique(self) -> bool {
        unique_keys(self.entries@)
    }

    /// The entries, in table order.
    pub closed spec fn pairs(self) -> Seq<(String, T)> {
        self.entries@
    }

    /// The table as a map from identifiers to entries.
    pub open spec fn as_map(self) -> Map<Seq<char>, T> {
        map_of(self.pairs())
    }

    /// An empty table.
    pub fn new() -> (r: Self)
        ensures
            r.as_map() == Map::<Seq<char>, T>::empty(),
            r.pairs().len() == 0,
    {
        let r = EnvTable { entries: Vec::new() };
        assert(r.as_map() =~= Map::<Seq<char>, T>::empty());
        r
    }

    /// The position of `k`, if held.
    fn position(&self, k: &str) -> (r: Option<usize>)
        ensures
            match r {
                Some(i) => holds_at(self.pairs(), k@, i as int),
                None => !keys_of(self.pairs()).contains(k@),
            },
    {
        let mut i: usize = 0;
        while i < self.entries.len()
            invariant
                i <= self.entries@.len(),
                forall|j: int| 0 <= j < i ==> self.entries@[j].0@ != k@,
            decreases self.entries.len() - i,
        {
            if crate::text::str_eq(self.entries[i].0.as_str(), k) {
                return Some(i);
            }
            i = i + 1;
        }
        None
    }

    /// The entry held under `k`.
    pub fn get(&self, k: &str) -> (r: Option<&T>)
        ensures
            match r {
                Some(v) => self.as_map().contains_key(k@) && self.as_map()[k@] == *v,
                None => !self.as_map().contains_key(k@),
            },
    {
        proof {
            use_type_invariant(self);
        }
        match self.position(k) {
            Some(i) => {
                proof {
                    lemma_entry_at(self.entries@, k@, i as int);
                }
                Some(&self.entries[i].1)
            },
            None => None,
        }
    }

    /// Whether an entry is held under `k`.
    pub fn contains(&self, k: &str) -> (r: bool)
        ensures
            r == self.as_map().contains_key(k@),
    {
        self.position(k).is_some()
    }

    /// Puts `v` under `k`, in place of any entry held there.
    pub fn insert(&mut self, k: String, v: T)
        ensures
            final(self).as_map() == old(self).as_map().insert(k@, v),
    {
        proof {
            use_type_invariant(&*self);
        }
        let ghost kv = k@;
        let pos = self.position(k.as_str());
        let mut es: Vec<(String, T)> = Vec::new();
        std::mem::swap(&mut es, &mut self.entries);
        match pos {
            Some(i) => {
                proof {
                    lemma_remove_at(es@, i as int);
                }
                let _ = es.remove(i);
            },
            None => {},
        }
        assert(map_of(es@) == old(self).as_map().remove(kv));
        proof {
            lemma_push_new(es@, k, v);
        }
        es.push((k, v));
        self.entries = es;
        assert(map_of(self.entries@) =~= old(self).as_map().insert(kv, v));
    }

    /// Removes the entry held under `k`, if any.
    pub fn remove(&mut self, k: &str)
        ensures
            final(self).as_map() == old(self).as_map().remove(k@),
    {
        proof {
            use_type_invariant(&*self);
        }
        match self.position(k) {
            Some(i) => {
                let mut es: Vec<(String, T)> = Vec::new();
                std::mem::swap(&mut es, &mut self.entries);
                proof {
                    lemma_remove_at(es@, i as int);
                }
                let _ = es.remove(i);
                self.entries = es;
            },
            None => {
                assert(self.as_map() =~= old(self).as_map().remove(k@));
            },
        }
    }

    /// The identifiers held, in table order: each identifier of the table
    /// once.
    pub fn ids(&self) -> (r: Vec<String>)
        ensures
            r@.len() == self.pairs().len(),
            forall|i: int| 0 <= i < r@.len() ==> r@[i]@ == self.pairs()[i].0@,
            forall|i: int, j: int|
                0 <= i < r@.len() && 0 <= j < r@.len() && i != j ==> #[trigger] r@[i]@ != #[trigger] r@[j]@,
            forall|k: Seq<char>|
                self.as_map().contains_key(k) <==> exists|i: int| 0 <= i < r@.len() && #[trigger] r@[i]@ == k,
    {
        proof {
            use_type_invariant(self);
        }
        let mut r: Vec<String> = Vec::new();
        let mut i: usize = 0;
        while i < self.entries.len()
            invariant
                i <= self.entries@.len(),
                r@.len() == i,
                forall|j: int| 0 <= j < i ==> r@[j]@ == self.entries@[j].0@,
            decreases self.entries.len() - i,
        {
            r.push(self.entries[i].0.clone());
            i = i + 1;
        }
        proof {
            assert forall|k: Seq<char>|
                self.as_map().contains_key(k) <==> exists|i: int| 0 <= i < r@.len() && #[trigger] r@[i]@ == k by {
                if self.as_map().contains_key(k) {
                    let i = choose|i: int| holds_at(self.entries@, k, i);
                    assert(r@[i]@ == k);
                }
                if exists|i: int| 0 <= i < r@.len() && #[trigger] r@[i]@ == k {
                    let i = choose|i: int| 0 <= i < r@.len() && #[trigger] r@[i]@ == k;
                    assert(holds_at(self.entries@, k, i));
                }
            }
        }
        r
    }

    /// The number of entries; no identifier is held twice.
    pub fn len(&self) -> (r: usize)
        ensures
            r == self.pairs().len(),
            unique_keys(self.pairs()),
    {
        proof {
            use_type_invariant(self);
        }
        self.entries.len()
    }

    /// The entry at position `i` in table order, with its identifier.
    pub fn entry(&self, i: usize) -> (r: (&String, &T))
        requires
            i < self.pairs().len(),
        ensures
            *r.0 == self.pairs()[i as int].0,
            *r.1 == self.pairs()[i as int].1,
            self.as_map().contains_key(r.0@),
            self.as_map()[r.0@] == *r.1,
    {
        proof {
            use_type_invariant(self);
            lemma_entry_at(self.entries@, self.entries@[i as int].0@, i as int);
        }
        (&self.entries[i].0, &self.entries[i].1)
    }
}


/// The runtimes provisioned for one agent: a Python environment and a
/// cloned workspace, each as the path where it lives.
#[derive(Debug)]
pub struct RuntimePaths {
    pub python: Option<String>,
    pub workspace: Option<String>,
}

/// The mathematical content of `RuntimePaths`.
pub struct RuntimePathsView {
    pub python: Option<Seq<char>>,
    pub workspace: Option<Seq<char>>,
}

impl View for RuntimePaths {
    type V = RuntimePathsView;

    open spec fn view(&self) -> RuntimePathsView {
        RuntimePathsView { python: self.python.deep_view(), workspace: self.workspace.deep_view() }
    }
}

/// The kinds of runtime that tools provision.
#[derive(Debug, PartialEq, Eq, Structural, Clone, Copy)]
pub enum RuntimeKind {
    Python,
    Workspace,
}

/// The runtimes of an agent once `path` is recorded for `kind`.
pub open spec fn runtimes_with(
    before: Option<RuntimePathsView>,
    kind: RuntimeKind,
    path: Seq<char>,
) -> RuntimePathsView {
    let base = match before {
        Some(b) => b,
        None => RuntimePathsView { python: None, workspace: None },
    };
    match kind {
        RuntimeKind::Python => RuntimePathsView { python: Some(path), ..base },
        RuntimeKind::Workspace => RuntimePathsView { workspace: Some(path), ..base },
    }
}

/// The runtimes provisioned for every agent.
pub struct RuntimeRegistry {
    pub agents: HashMap<AgentId, RuntimePaths>,
}

/// The views of the runtimes of a map.
pub open spec fn runtimes_view(m: Map<AgentId, RuntimePaths>) -> Map<AgentId, RuntimePathsView> {
    m.map_values(|p: RuntimePaths| p@)
}

impl View for RuntimeRegistry {
    type V = Map<AgentId, RuntimePathsView>;

    open spec fn view(&self) -> Map<AgentId, RuntimePathsView> {
        runtimes_view(self.agents@)
    }
}

/// The runtimes known for `agent`, if any.
pub open spec fn runtimes_of(m: Map<AgentId, RuntimePathsView>, agent: AgentId) -> Option<RuntimePathsView> {
    if m.contains_key(agent) {
        Some(m[agent])
    } else {
        None
    }
}

impl RuntimeRegistry {
    /// An empty registry.
    pub fn new() -> (r: Self)
        ensures
            r@ == Map::<AgentId, RuntimePathsView>::empty(),
    {
        let r = RuntimeRegistry { agents: HashMap::new() };
        assert(r@ =~= Map::<AgentId, RuntimePathsView>::empty());
        r
    }

    /// The runtimes provisioned for `agent`.
    pub fn lookup(&self, agent: AgentId) -> (r: Option<&RuntimePaths>)
        ensures
            match r {
                Some(p) => runtimes_of(self@, agent) == Some(p@),
                None => runtimes_of(self@, agent) is None,
            },
    {
        self.agents.get(&agent)
    }

    /// Records that the runtime `kind` of `agent` lives at `path`.
    pub fn record(&mut self, agent: AgentId, kind: RuntimeKind, path: String)
        ensures
            final(self)@ == old(self)@.insert(
                agent,
                runtimes_with(runtimes_of(old(self)@, agent), kind, path@),
            ),
    {
        let mut current = match self.agents.get(&agent) {
            Some(p) => RuntimePaths { python: p.python.clone(), workspace: p.workspace.clone() },
            None => RuntimePaths { python: None, workspace: None },
        };
        match kind {
            RuntimeKind::Python => {
                current.python = Some(path);
            },
            RuntimeKind::Workspace => {
                current.workspace = Some(path);
            },
        }
        let ghost cv = current@;
        self.agents.insert(agent, current);
        assert(final(self)@ =~= old(self)@.insert(agent, cv));
    }
}

} // verus!
