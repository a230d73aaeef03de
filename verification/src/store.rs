use vstd::prelude::*;
use vstd::pervasive::VecAdditionalExecFns;
use std::sync::Arc;
use crate::component::Component;

verus! {

/// The mapping denoted by a sequence of (kind, component) entries; a
/// later entry for a kind supersedes an earlier one.
pub open spec fn entries_map(s: Seq<(u64, Arc<Component>)>) -> Map<u64, Arc<Component>>
    decreases s.len(),
{
    if s.len() == 0 {
        Map::empty()
    } else {
        entries_map(s.drop_last()).insert(s.last().0, s.last().1)
    }
}

spec fn distinct_kinds(s: Seq<(u64, Arc<Component>)>) -> bool {
    forall|i: int, j: int| 0 <= i < j < s.len() ==> (#[trigger] s[i]).0 != (#[trigger] s[j]).0
}

proof fn lemma_entries_map_dom(s: Seq<(u64, Arc<Component>)>, kind: u64)
    ensures
        entries_map(s).dom().contains(kind) <==> (exists|j: int|
            0 <= j < s.len() && (#[trigger] s[j]).0 == kind),
    decreases s.len(),
{
    if s.len() > 0 {
        lemma_entries_map_dom(s.drop_last(), kind);
        if s.last().0 == kind {
            assert(s[s.len() - 1].0 == kind);
        } else {
            if entries_map(s).dom().contains(kind) {
                let j = choose|j: int| 0 <= j < s.drop_last().len() && (#[trigger] s.drop_last()[j]).0
                    == kind;
                assert(s[j].0 == kind);
            }
            if exists|j: int| 0 <= j < s.len() && (#[trigger] s[j]).0 == kind {
                let j = choose|j: int| 0 <= j < s.len() && (#[trigger] s[j]).0 == kind;
                assert(s.drop_last()[j].0 == kind);
            }
        }
    }
}

proof fn lemma_entries_map_at(s: Seq<(u64, Arc<Component>)>, i: int)
    requires
        distinct_kinds(s),
        0 <= i < s.len(),
    ensures
        entries_map(s).dom().contains(s[i].0),
        entries_map(s)[s[i].0] == s[i].1,
    decreases s.len(),
{
    if i < s.len() - 1 {
        assert(distinct_kinds(s.drop_last())) by {
            assert(forall|a: int, b: int|
                0 <= a < b < s.drop_last().len() ==> (#[trigger] s.drop_last()[a]).0 != (
                #[trigger] s.drop_last()[b]).0) by {
                assert(forall|a: int| 0 <= a < s.drop_last().len() ==> s.drop_last()[a] == s[a]);
            }
        }
        lemma_entries_map_at(s.drop_last(), i);
        assert(s.drop_last()[i] == s[i]);
        assert(s[i].0 != s.last().0);
    }
}

proof fn lemma_entries_map_update(s: Seq<(u64, Arc<Component>)>, i: int, c: Arc<Component>)
    requires
        distinct_kinds(s),
        0 <= i < s.len(),
    ensures
        entries_map(s.update(i, (s[i].0, c))) == entries_map(s).insert(s[i].0, c),
        distinct_kinds(s.update(i, (s[i].0, c))),
    decreases s.len(),
{
    let k = s[i].0;
    let t = s.update(i, (k, c));
    assert(forall|a: int| 0 <= a < s.len() ==> (#[trigger] t[a]).0 == s[a].0);
    if i == s.len() - 1 {
        assert(t.drop_last() =~= s.drop_last());
        assert(entries_map(s.drop_last()).insert(k, s.last().1).insert(k, c) =~= entries_map(
            s.drop_last(),
        ).insert(k, c));
    } else {
        assert(distinct_kinds(s.drop_last())) by {
            assert(forall|a: int| 0 <= a < s.drop_last().len() ==> s.drop_last()[a] == s[a]);
        }
        assert(s.drop_last()[i] == s[i]);
        lemma_entries_map_update(s.drop_last(), i, c);
        assert(t.drop_last() =~= s.drop_last().update(i, (k, c)));
        assert(t.last() == s.last());
        assert(k != s.last().0);
        assert(entries_map(s.drop_last()).insert(k, c).insert(s.last().0, s.last().1) =~= entries_map(
            s.drop_last(),
        ).insert(s.last().0, s.last().1).insert(k, c));
    }
}

/// A type-erased container holding at most one component instance per
/// component kind. It only ever grows: there is no removal operation,
/// and `set` yields an updated container, so that everything present in
/// a container stays present in every container derived from it.
pub struct ComponentStore {
    entries: Vec<(u64, Arc<Component>)>,
}

impl View for ComponentStore {
    type V = Map<u64, Arc<Component>>;

    /// The store as a mapping from component kind to the attached
    /// instance.
    closed spec fn view(&self) -> Map<u64, Arc<Component>> {
        entries_map(self.entries@)
    }
}

impl ComponentStore {
    #[verifier::type_invariant]
    spec fn wf(self) -> bool {
        distinct_kinds(self.entries@)
    }

    /// An empty store: no kind is present before it was attached.
    pub fn new() -> (s: ComponentStore)
        ensures
            s@ == Map::<u64, Arc<Component>>::empty(),
    {
        ComponentStore { entries: Vec::new() }
    }

    fn index_of(&self, kind: u64) -> (r: Option<usize>)
        ensures
            match r {
                Some(i) => i < self.entries@.len() && self.entries@[i as int].0 == kind,
                None => forall|j: int|
                    0 <= j < self.entries@.len() ==> (#[trigger] self.entries@[j]).0 != kind,
            },
    {
        let mut i: usize = 0;
        while i < self.entries.len()
            invariant
                i <= self.entries@.len(),
                forall|j: int| 0 <= j < i as int ==> (#[trigger] self.entries@[j]).0 != kind,
            decreases self.entries@.len() - i,
        {
            if self.entries[i].0 == kind {
                return Some(i);
            }
            i = i + 1;
        }
        None
    }

    /// True exactly when an instance of the given kind was attached.
    /// Read-only: it never blocks on insertions into other stores.
    pub fn has(&self, kind: u64) -> (r: bool)
        ensures
            r == self@.dom().contains(kind),
    {
        proof {
            lemma_entries_map_dom(self.entries@, kind);
        }
        match self.index_of(kind) {
            Some(_) => true,
            None => false,
        }
    }

    /// The instance attached for the given kind, or nothing when that
    /// kind is absent.
    pub fn get(&self, kind: u64) -> (r: Option<Arc<Component>>)
        ensures
            match r {
                Some(c) => self@.dom().contains(kind) && c == self@[kind],
                None => !self@.dom().contains(kind),
            },
    {
        proof {
            lemma_entries_map_dom(self.entries@, kind);
        }
        match self.index_of(kind) {
            Some(i) => {
                proof {
                    use_type_invariant(self);
                    lemma_entries_map_at(self.entries@, i as int);
                }
                Some(self.entries[i].1.clone())
            },
            None => None,
        }
    }

    /// Attaches (or, called twice for one kind, overwrites) the
    /// instance for a kind and returns the updated store. Everything
    /// previously present stays present. Intended to be called once per
    /// kind, during the single-threaded construction phase.
    pub fn set(&self, kind: u64, comp: Arc<Component>) -> (r: ComponentStore)
        ensures
            r@ == self@.insert(kind, comp),
    {
        proof {
            use_type_invariant(self);
        }
        let mut entries: Vec<(u64, Arc<Component>)> = Vec::new();
        let mut i: usize = 0;
        while i < self.entries.len()
            invariant
                i <= self.entries@.len(),
                entries@ == self.entries@.subrange(0, i as int),
            decreases self.entries@.len() - i,
        {
            let pair = &self.entries[i];
            entries.push((pair.0, pair.1.clone()));
            proof {
                assert(entries@ =~= self.entries@.subrange(0, i as int + 1));
            }
            i = i + 1;
        }
        proof {
            assert(entries@ =~= self.entries@);
        }
        match self.index_of(kind) {
            Some(idx) => {
                entries.set(idx, (kind, comp));
                proof {
                    lemma_entries_map_update(self.entries@, idx as int, comp);
                }
                ComponentStore { entries }
            },
            None => {
                entries.push((kind, comp));
                proof {
                    assert(entries@.drop_last() =~= self.entries@);
                }
                ComponentStore { entries }
            },
        }
    }
}

} // verus!
