use vstd::prelude::*;
use std::sync::Arc;
use crate::component::{Component, FieldMode, FieldSlot};
use crate::error::ClassError;
use crate::node::Node;
use crate::value::Value;

verus! {

/// A well-formed ancestor chain: at least one level, and a distinct
/// component kind per level.
pub open spec fn chain_wf(kinds: Seq<u64>) -> bool {
    &&& kinds.len() > 0
    &&& forall|i: int, j: int| 0 <= i < j < kinds.len() ==> kinds[i] != kinds[j]
}

/// Every kind of `kinds` at a level in `lo..hi` is present in `m`: the
/// exact condition under which a narrowing from level `hi` to level
/// `lo` succeeds.
pub open spec fn all_present(m: Map<u64, Arc<Component>>, kinds: Seq<u64>, lo: int, hi: int) -> bool {
    forall|j: int| lo <= j < hi ==> m.dom().contains(#[trigger] kinds[j])
}

/// A declared linear ancestor chain: the component kinds of the class
/// levels in descending order, the most derived level first, the
/// root-most level last. Declaring a non-linear chain is a
/// construction-time contract violation of the schema front end; it is
/// not defended against here.
pub struct Chain {
    kinds: Vec<u64>,
}

impl View for Chain {
    type V = Seq<u64>;

    closed spec fn view(&self) -> Seq<u64> {
        self.kinds@
    }
}

impl Chain {
    pub open spec fn wf(self) -> bool {
        chain_wf(self@)
    }

    /// Declares a chain from its component kinds, most derived first.
    pub fn new(kinds: Vec<u64>) -> (c: Chain)
        requires
            chain_wf(kinds@),
        ensures
            c@ == kinds@,
    {
        Chain { kinds }
    }

    /// How many class levels the chain declares.
    pub fn len(&self) -> (n: usize)
        ensures
            n == self@.len(),
    {
        self.kinds.len()
    }

    /// The component kind of the level at the given position.
    pub fn kind_at(&self, level: usize) -> (k: u64)
        requires
            level < self@.len(),
        ensures
            k == self@[level as int],
    {
        self.kinds[level]
    }
}

impl Clone for Chain {
    fn clone(&self) -> (r: Self)
        ensures
            r@ == self@,
    {
        let kinds = self.kinds.clone();
        proof {
            assert(kinds@ =~= self.kinds@);
        }
        Chain { kinds }
    }
}

/// A typed lens over a [`Node`]: it asserts, through its
/// well-formedness invariant [`ClassView::wf`], that the node carries
/// the component of its own level and of every ancestor level of its
/// chain. It adds no storage; cloning and identity delegate to the
/// wrapped node.
pub struct ClassView {
    node: Node,
    chain: Chain,
    level: usize,
}

impl ClassView {
    /// The wrapped node handle.
    pub closed spec fn node_of(self) -> Node {
        self.node
    }

    /// The chain the view is declared against.
    pub closed spec fn chain_of(self) -> Chain {
        self.chain
    }

    /// The level of the chain this view is typed at.
    pub closed spec fn level_spec(self) -> int {
        self.level as int
    }

    /// The wrapped node's components.
    pub open spec fn node_map(self) -> Map<u64, Arc<Component>> {
        self.node_of()@
    }

    /// The chain's component kinds, most derived level first.
    pub open spec fn kinds(self) -> Seq<u64> {
        self.chain_of()@
    }

    /// The component kind of the view's own level.
    pub open spec fn kind(self) -> u64 {
        self.kinds()[self.level_spec()]
    }

    /// Whether the node carries the view's own component.
    pub open spec fn has_own(self) -> bool {
        self.node_map().dom().contains(self.kind())
    }

    /// The field slots of the view's own component.
    pub open spec fn own_slots(self) -> Seq<FieldSlot> {
        self.node_map()[self.kind()]@
    }

    /// Validity of a view: the chain is well formed, the level is one
    /// of its positions, and the node carries the component of this
    /// level and of every level above it.
    pub open spec fn wf(self) -> bool {
        &&& chain_wf(self.kinds())
        &&& 0 <= self.level_spec() < self.kinds().len()
        &&& all_present(self.node_map(), self.kinds(), self.level_spec(), self.kinds().len() as int)
    }

    /// Starts a construction chain: a fresh node with the chain's
    /// root-most component attached, seen at the root-most level.
    pub fn new_root(chain: Chain, comp: Arc<Component>) -> (v: ClassView)
        requires
            chain.wf(),
        ensures
            v.wf(),
            v.kinds() == chain@,
            v.level_spec() == chain@.len() - 1,
            v.node_map() == Map::<u64, Arc<Component>>::empty().insert(chain@.last(), comp),
    {
        let level = chain.len() - 1;
        let root_kind = chain.kind_at(level);
        let node = Node::new().set(root_kind, comp);
        ClassView { node, chain, level }
    }

    /// One subclass construction step: wraps the existing node, attaches
    /// the next more derived level's component, and yields the view of
    /// that level. Everything already attached stays attached.
    pub fn extend(&self, comp: Arc<Component>) -> (v: ClassView)
        requires
            self.wf(),
            0 < self.level_spec(),
        ensures
            v.wf(),
            v.kinds() == self.kinds(),
            v.level_spec() == self.level_spec() - 1,
            v.node_map() == self.node_map().insert(self.kinds()[self.level_spec() - 1], comp),
    {
        let kind = self.chain.kind_at(self.level - 1);
        let node = self.node.set(kind, comp);
        let v = ClassView { node, chain: self.chain.clone(), level: self.level - 1 };
        proof {
            assert forall|j: int|
                v.level_spec() <= j < v.kinds().len() implies v.node_map().dom().contains(
                #[trigger] v.kinds()[j],
            ) by {
                if j != v.level_spec() {
                    assert(self.node_map().dom().contains(self.kinds()[j]));
                }
            }
        }
        v
    }

    /// Parent delegation: the view of the direct parent level, over the
    /// same node. Never fails.
    pub fn parent(&self) -> (p: ClassView)
        requires
            self.wf(),
            self.level_spec() + 1 < self.kinds().len(),
        ensures
            p.wf(),
            p.node_of() == self.node_of(),
            p.kinds() == self.kinds(),
            p.level_spec() == self.level_spec() + 1,
    {
        let len = self.chain.len();
        proof {
            assert(self.level + 1 < len);
        }
        ClassView { node: self.node.clone(), chain: self.chain.clone(), level: self.level + 1 }
    }

    /// Widens to any ancestor level, direct or transitive: a pure
    /// reinterpretation over the same node, reached by recursively
    /// widening through the direct parent. Always succeeds.
    pub fn widen(&self, target: usize) -> (w: ClassView)
        requires
            self.wf(),
            self.level_spec() <= target as int,
            (target as int) < self.kinds().len(),
        ensures
            w.wf(),
            w.node_of() == self.node_of(),
            w.kinds() == self.kinds(),
            w.level_spec() == target as int,
    {
        let mut w = self.clone();
        while w.level < target
            invariant
                w.wf(),
                w.node_of() == self.node_of(),
                w.kinds() == self.kinds(),
                self.level_spec() <= w.level_spec() <= target as int,
                (target as int) < self.kinds().len(),
            decreases target as int - w.level_spec(),
        {
            w = w.parent();
        }
        w
    }

    /// Narrows to a more derived level. It succeeds exactly when the
    /// node carries the component of the target level and of every
    /// level between: the checks descend one level at a time, and the
    /// first missing component fails the conversion. On success the
    /// returned view wraps the same node as this one.
    pub fn narrow(&self, target: usize) -> (r: Result<ClassView, ClassError>)
        requires
            self.wf(),
            target as int <= self.level_spec(),
        ensures
            r is Ok <==> all_present(self.node_map(), self.kinds(), target as int, self.level_spec()),
            r matches Ok(w) ==> w.wf() && w.node_of() == self.node_of() && w.kinds() == self.kinds()
                && w.level_spec() == target as int,
            r matches Err(e) ==> e@ == "Type conversion failed"@,
    {
        let mut j = target;
        while j < self.level
            invariant
                self.wf(),
                target <= j,
                j as int <= self.level_spec(),
                all_present(self.node_map(), self.kinds(), target as int, j as int),
            decreases self.level_spec() - j as int,
        {
            if !self.node.has(self.chain.kind_at(j)) {
                return Err(ClassError::new("Type conversion failed".to_string()));
            }
            j = j + 1;
        }
        let w = ClassView { node: self.node.clone(), chain: self.chain.clone(), level: target };
        proof {
            assert forall|q: int|
                w.level_spec() <= q < w.kinds().len() implies w.node_map().dom().contains(
                #[trigger] w.kinds()[q],
            ) by {
                if q >= self.level_spec() {
                    assert(self.node_map().dom().contains(self.kinds()[q]));
                }
            }
        }
        Ok(w)
    }

    /// Narrows a bare node to the given level of a chain: the checks
    /// cover the target level and every level above it, since nothing
    /// is assumed of an unwrapped node. On success the returned view
    /// wraps the given node.
    pub fn from_node(node: &Node, chain: Chain, target: usize) -> (r: Result<
        ClassView,
        ClassError,
    >)
        requires
            chain.wf(),
            (target as int) < chain@.len(),
        ensures
            r is Ok <==> all_present(node@, chain@, target as int, chain@.len() as int),
            r matches Ok(w) ==> w.wf() && w.node_of() == *node && w.kinds() == chain@
                && w.level_spec() == target as int,
            r matches Err(e) ==> e@ == "Type conversion failed"@,
    {
        let mut j = target;
        let len = chain.len();
        while j < len
            invariant
                chain.wf(),
                len == chain@.len(),
                target <= j <= len,
                (target as int) < chain@.len(),
                all_present(node@, chain@, target as int, j as int),
            decreases len - j,
        {
            if !node.has(chain.kind_at(j)) {
                return Err(ClassError::new("Type conversion failed".to_string()));
            }
            j = j + 1;
        }
        Ok(ClassView { node: node.clone(), chain, level: target })
    }

    /// The wrapped node: the widening past the root-most class level.
    pub fn node(&self) -> (n: &Node)
        ensures
            *n == self.node_of(),
    {
        &self.node
    }

    /// Identity test, delegated to the node: true only for two views of
    /// the same underlying object, whatever their levels.
    pub fn same_object(&self, other: &ClassView) -> (r: bool)
        ensures
            r ==> self.node_of() == other.node_of(),
    {
        self.node.same_object(&other.node)
    }

    /// The component of the view's own level. A view reached only
    /// through valid construction, widening or narrowing always finds
    /// it; on an unvalidated node the failure is surfaced as the
    /// library's error instead of corrupting state.
    pub fn component(&self) -> (r: Result<Arc<Component>, ClassError>)
        requires
            self.level_spec() < self.kinds().len(),
        ensures
            r is Ok <==> self.has_own(),
            r matches Ok(c) ==> c == self.node_map()[self.kind()],
            r matches Err(e) ==> e@ == "Component missing"@,
    {
        match self.node.get(self.chain.kind_at(self.level)) {
            Some(c) => Ok(c),
            None => Err(ClassError::new("Component missing".to_string())),
        }
    }

    /// Generated value-field getter: a cloned snapshot of the indexed
    /// plain-value field of the view's own component, taken under that
    /// field's read lock.
    pub fn field_value(&self, index: usize) -> (r: Result<Value, ClassError>)
        requires
            self.level_spec() < self.kinds().len(),
            self.has_own() ==> index < self.own_slots().len() && self.own_slots()[index as int].mode()
                == FieldMode::Plain,
        ensures
            r is Ok <==> self.has_own(),
            r matches Ok(v) ==> v.kind_spec() == self.own_slots()[index as int].kind(),
            r matches Err(e) ==> e@ == "Component missing"@,
    {
        match self.node.get(self.chain.kind_at(self.level)) {
            Some(c) => Ok((&*c).read_value(index)),
            None => Err(ClassError::new("Component missing".to_string())),
        }
    }

    /// Generated value-field setter: replaces the indexed plain-value
    /// field under that field's write lock and returns a handle to the
    /// same (not a new) object, enabling fluent chaining.
    pub fn set_field_value(&self, index: usize, v: Value) -> (r: Result<ClassView, ClassError>)
        requires
            self.level_spec() < self.kinds().len(),
            self.has_own() ==> index < self.own_slots().len() && self.own_slots()[index as int].mode()
                == FieldMode::Plain && v.kind_spec() == self.own_slots()[index as int].kind(),
        ensures
            r is Ok <==> self.has_own(),
            r matches Ok(w) ==> w.node_of() == self.node_of() && w.kinds() == self.kinds()
                && w.level_spec() == self.level_spec(),
            r matches Err(e) ==> e@ == "Component missing"@,
    {
        match self.node.get(self.chain.kind_at(self.level)) {
            Some(c) => {
                (&*c).write_value(index, v);
                Ok(self.clone())
            },
            None => Err(ClassError::new("Component missing".to_string())),
        }
    }

    /// Generated reference-field getter: a co-owning clone of the
    /// pointer currently held by the indexed reference field. The
    /// returned pointer keeps observing its captured value even after a
    /// later setter call replaces the field.
    pub fn field_ref(&self, index: usize) -> (r: Result<Arc<Value>, ClassError>)
        requires
            self.level_spec() < self.kinds().len(),
            self.has_own() ==> index < self.own_slots().len() && self.own_slots()[index as int].mode()
                == FieldMode::Reference,
        ensures
            r is Ok <==> self.has_own(),
            r matches Ok(v) ==> (*v).kind_spec() == self.own_slots()[index as int].kind(),
            r matches Err(e) ==> e@ == "Component missing"@,
    {
        match self.node.get(self.chain.kind_at(self.level)) {
            Some(c) => Ok((&*c).read_ref(index)),
            None => Err(ClassError::new("Component missing".to_string())),
        }
    }

    /// Generated reference-field setter: replaces the pointer held by
    /// the indexed reference field, without affecting pointers already
    /// handed out, and returns a handle to the same object.
    pub fn set_field_ref(&self, index: usize, v: Arc<Value>) -> (r: Result<ClassView, ClassError>)
        requires
            self.level_spec() < self.kinds().len(),
            self.has_own() ==> index < self.own_slots().len() && self.own_slots()[index as int].mode()
                == FieldMode::Reference && (*v).kind_spec() == self.own_slots()[index as int].kind(),
        ensures
            r is Ok <==> self.has_own(),
            r matches Ok(w) ==> w.node_of() == self.node_of() && w.kinds() == self.kinds()
                && w.level_spec() == self.level_spec(),
            r matches Err(e) ==> e@ == "Component missing"@,
    {
        match self.node.get(self.chain.kind_at(self.level)) {
            Some(c) => {
                (&*c).write_ref(index, v);
                Ok(self.clone())
            },
            None => Err(ClassError::new("Component missing".to_string())),
        }
    }
}

/// Law: widen-then-narrow always succeeds and comes back to the same
/// object. For a valid view `v` and the view `w` that widening `v` to
/// any ancestor level returns (same node, same chain, a level at or
/// above `v`'s), the condition under which `w.narrow` back to `v`'s
/// level returns `Ok` holds; by `narrow`'s contract the view it then
/// returns wraps the same node as `w`, and so as `v`.
pub proof fn lemma_widen_then_narrow(v: ClassView, w: ClassView)
    requires
        v.wf(),
        w.node_of() == v.node_of(),
        w.kinds() == v.kinds(),
        v.level_spec() <= w.level_spec() < v.kinds().len(),
    ensures
        all_present(w.node_map(), w.kinds(), v.level_spec(), w.level_spec()),
{
}

/// Law: narrowing a node that lacks the target level's component fails,
/// regardless of which other (sibling) components are present: the
/// success condition of a narrowing whose checks span the target level
/// is false whenever the target's kind is absent from the node.
pub proof fn lemma_narrow_missing_fails(
    m: Map<u64, Arc<Component>>,
    kinds: Seq<u64>,
    target: int,
    hi: int,
)
    requires
        0 <= target < hi <= kinds.len(),
        !m.dom().contains(kinds[target]),
    ensures
        !all_present(m, kinds, target, hi),
{
}

impl Clone for ClassView {
    /// Cloning duplicates the handle, never the backing store: the
    /// clone wraps the same node at the same level.
    fn clone(&self) -> (r: Self)
        ensures
            r.node_of() == self.node_of(),
            r.kinds() == self.kinds(),
            r.level_spec() == self.level_spec(),
    {
        ClassView { node: self.node.clone(), chain: self.chain.clone(), level: self.level }
    }
}

} // verus!
