use std::sync::Arc;

use oop_inheritance::class::{Chain, ClassView};
use oop_inheritance::component::Component;
use oop_inheritance::node::Node;

const DOG: u64 = 1;
const CAT: u64 = 2;
const ANIMAL: u64 = 3;

fn empty_component() -> Arc<Component> {
    Arc::new(Component::new(Vec::new()))
}

#[test]
fn fresh_node_has_nothing() {
    let node = Node::new();
    assert!(!node.has(DOG));
    assert!(!node.has(ANIMAL));
    assert!(node.get(ANIMAL).is_none());
}

#[test]
fn has_is_monotonic_across_attachments() {
    let node = Node::new();
    let node = node.set(ANIMAL, empty_component());
    assert!(node.has(ANIMAL));
    let node = node.set(DOG, empty_component());
    assert!(node.has(ANIMAL));
    assert!(node.has(DOG));
    let node = node.set(CAT, empty_component());
    assert!(node.has(ANIMAL));
    assert!(node.has(DOG));
    assert!(node.has(CAT));
}

#[test]
fn get_returns_the_attached_component() {
    let comp = Arc::new(Component::new(Vec::new()));
    let node = Node::new().set(ANIMAL, comp.clone());
    let got = node.get(ANIMAL).expect("attached component must be present");
    assert!(Arc::ptr_eq(&comp, &got));
}

#[test]
fn node_clone_is_the_same_object() {
    let node = Node::new().set(ANIMAL, empty_component());
    let other = node.clone();
    assert!(node.same_object(&other));
    let separate = Node::new().set(ANIMAL, empty_component());
    assert!(!node.same_object(&separate));
}

#[test]
fn widen_then_narrow_round_trip() {
    let chain = Chain::new(vec![DOG, ANIMAL]);
    let animal_level = ClassView::new_root(chain, empty_component());
    let dog = animal_level.extend(empty_component());
    let widened = dog.widen(1);
    assert!(widened.same_object(&dog));
    let back = widened.narrow(0).expect("narrowing back to the subtype must succeed");
    assert!(back.same_object(&dog));
}

#[test]
fn narrow_from_bare_node_round_trip() {
    let chain = Chain::new(vec![DOG, ANIMAL]);
    let dog = ClassView::new_root(chain.clone(), empty_component()).extend(empty_component());
    let node = dog.node().clone();
    let again = ClassView::from_node(&node, chain, 0)
        .expect("a fully built node must narrow to its own subtype");
    assert!(again.same_object(&dog));
}

#[test]
fn narrow_without_component_fails() {
    let dog_chain = Chain::new(vec![DOG, ANIMAL]);
    let animal_only = ClassView::new_root(Chain::new(vec![ANIMAL]), empty_component());
    let node = animal_only.node().clone();
    let err = ClassView::from_node(&node, dog_chain, 0)
        .err()
        .expect("narrowing a node without the subtype component must fail");
    assert_eq!(err.message(), "Type conversion failed");
}

#[test]
fn sibling_component_does_not_allow_narrowing() {
    // A cat carries the shared ancestor's component, but never the
    // sibling subtype's: narrowing to the sibling must still fail.
    let cat_chain = Chain::new(vec![CAT, ANIMAL]);
    let dog_chain = Chain::new(vec![DOG, ANIMAL]);
    let cat = ClassView::new_root(cat_chain, empty_component()).extend(empty_component());
    let node = cat.node().clone();
    assert!(node.has(CAT));
    assert!(node.has(ANIMAL));
    let err = ClassView::from_node(&node, dog_chain, 0)
        .err()
        .expect("a sibling's component must not satisfy the narrowing check");
    assert_eq!(err.message(), "Type conversion failed");
}

#[test]
fn deep_chain_widens_and_narrows_transitively() {
    const PUPPY: u64 = 4;
    let chain = Chain::new(vec![PUPPY, DOG, ANIMAL]);
    let animal_level = ClassView::new_root(chain, empty_component());
    let dog_level = animal_level.extend(empty_component());
    let puppy = dog_level.extend(empty_component());

    // Parent delegation reaches one level; chaining it reaches the rest.
    let parent = puppy.parent();
    assert!(parent.same_object(&puppy));
    let grandparent = parent.parent();
    assert!(grandparent.same_object(&puppy));

    // Widening straight to the top-most level, then narrowing all the
    // way back, returns the same object.
    let widened = puppy.widen(2);
    let back = widened.narrow(0).expect("all components are attached");
    assert!(back.same_object(&puppy));
}

#[test]
fn missing_middle_level_fails_the_narrowing() {
    const MID: u64 = 9;
    let chain = Chain::new(vec![DOG, MID, ANIMAL]);
    // A node holding the subtype's and the root's components but not
    // the middle level's: the level-by-level checks find the gap.
    let node = Node::new().set(ANIMAL, empty_component()).set(DOG, empty_component());
    let err = ClassView::from_node(&node, chain, 0)
        .err()
        .expect("a gap in the chain must fail the narrowing");
    assert_eq!(err.message(), "Type conversion failed");
}

#[test]
fn error_message_is_carried() {
    let chain = Chain::new(vec![DOG, ANIMAL]);
    let animal_level = ClassView::new_root(chain, empty_component());
    // The root-most view may narrow all the way down only when every
    // more derived component is attached; here none is.
    let err = animal_level.narrow(0).err().expect("must fail");
    assert_eq!(err.message(), "Type conversion failed");
}
