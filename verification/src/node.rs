use vstd::prelude::*;
use std::sync::Arc;
use crate::component::Component;
use crate::store::ComponentStore;

verus! {

/// Relies on std's `Arc::ptr_eq`: it returns true only when both
/// handles point to the same allocation, and two handles to the same
/// allocation hold the same store.
#[verifier::external_body]
fn store_ptr_eq(a: &Arc<ComponentStore>, b: &Arc<ComponentStore>) -> (r: bool)
    ensures
        r ==> a == b,
{
    Arc::ptr_eq(a, b)
}

/// A shared, cloneable handle around one [`ComponentStore`]: the entity
/// identity owning all components of an object instance. Cloning a node
/// yields a second handle to the same store, and identity — tested by
/// [`Node::same_object`] — is the store's identity, not its contents.
pub struct Node {
    store: Arc<ComponentStore>,
}

impl View for Node {
    type V = Map<u64, Arc<Component>>;

    /// The node's components: a mapping from component kind to the
    /// attached instance.
    closed spec fn view(&self) -> Map<u64, Arc<Component>> {
        self.store@
    }
}

impl Node {
    /// A fresh handle around an empty store: no kind is present yet.
    pub fn new() -> (n: Node)
        ensures
            n@ == Map::<u64, Arc<Component>>::empty(),
    {
        Node { store: Arc::new(ComponentStore::new()) }
    }

    /// True exactly when a component of the given kind was attached.
    pub fn has(&self, kind: u64) -> (r: bool)
        ensures
            r == self@.dom().contains(kind),
    {
        (&*self.store).has(kind)
    }

    /// The component attached for the given kind, or nothing when that
    /// kind is absent.
    pub fn get(&self, kind: u64) -> (r: Option<Arc<Component>>)
        ensures
            match r {
                Some(c) => self@.dom().contains(kind) && c == self@[kind],
                None => !self@.dom().contains(kind),
            },
    {
        (&*self.store).get(kind)
    }

    /// Attaches the component for a kind and returns the updated
    /// handle: everything previously present stays present. Intended to
    /// be called once per kind, during the single-threaded construction
    /// phase, before the node is shared.
    pub fn set(&self, kind: u64, comp: Arc<Component>) -> (n: Node)
        ensures
            n@ == self@.insert(kind, comp),
    {
        Node { store: Arc::new((&*self.store).set(kind, comp)) }
    }

    /// Identity test: true only for two handles to the same store, so a
    /// positive answer guarantees both handles expose the same
    /// components. Two nodes built separately are never the same
    /// object, however equal their contents.
    pub fn same_object(&self, other: &Node) -> (r: bool)
        ensures
            r ==> *self == *other,
    {
        store_ptr_eq(&self.store, &other.store)
    }
}

/// Law: component membership is monotonic. [`Node::set`] yields a node
/// whose components are `old.insert(kind, comp)`, and a kind is present
/// there exactly when it is the attached kind or was present before: so
/// once a kind is present, it stays present through every further
/// attachment, and no removal operation exists.
pub proof fn lemma_attach_monotonic(
    components: Map<u64, Arc<Component>>,
    kind: u64,
    comp: Arc<Component>,
    t: u64,
)
    ensures
        components.insert(kind, comp).dom().contains(t) <==> (t == kind
            || components.dom().contains(t)),
{
}

/// Law: a kind never counts as present before it was attached. A fresh
/// node — [`Node::new`] yields the empty component map — has no kind
/// present.
pub proof fn lemma_fresh_node_bare(t: u64)
    ensures
        !Map::<u64, Arc<Component>>::empty().dom().contains(t),
{
}

impl Clone for Node {
    /// Cloning shares the store: the clone is, as a handle, the same
    /// object, and field mutations through one handle are visible
    /// through all.
    fn clone(&self) -> (r: Self)
        ensures
            r == self,
    {
        Node { store: self.store.clone() }
    }
}

} // verus!
