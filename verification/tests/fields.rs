use std::sync::Arc;

use oop_inheritance::class::{Chain, ClassView};
use oop_inheritance::component::{Component, FieldDecl, FieldMode};
use oop_inheritance::value::{Value, ValueKind};

const DOG: u64 = 1;
const ANIMAL: u64 = 3;

fn text(s: &str) -> Value {
    Value::Text(s.to_string())
}

#[test]
fn value_kinds_are_reported() {
    assert_eq!(Value::Flag(true).kind(), ValueKind::Flag);
    assert_eq!(Value::Int(-7).kind(), ValueKind::Int);
    assert_eq!(text("x").kind(), ValueKind::Text);
}

#[test]
fn component_starts_from_declared_defaults() {
    let comp = Component::new(vec![
        FieldDecl { mode: FieldMode::Plain, initial: Value::Int(42) },
        FieldDecl { mode: FieldMode::Reference, initial: text("origin") },
    ]);
    assert_eq!(comp.field_count(), 2);
    assert_eq!(comp.read_value(0), Value::Int(42));
    assert_eq!(*comp.read_ref(1), text("origin"));
}

#[test]
fn read_after_write_observes_the_written_value() {
    let comp = Component::new(vec![FieldDecl { mode: FieldMode::Plain, initial: Value::Int(0) }]);
    comp.write_value(0, Value::Int(5));
    assert_eq!(comp.read_value(0), Value::Int(5));
    comp.write_value(0, Value::Int(-9));
    assert_eq!(comp.read_value(0), Value::Int(-9));
}

#[test]
fn value_getter_returns_a_snapshot() {
    let comp = Component::new(vec![FieldDecl { mode: FieldMode::Plain, initial: text("before") }]);
    let snapshot = comp.read_value(0);
    comp.write_value(0, text("after"));
    // A snapshot taken at read time never observes a later write.
    assert_eq!(snapshot, text("before"));
    assert_eq!(comp.read_value(0), text("after"));
}

#[test]
fn reference_getter_keeps_its_captured_value() {
    let comp = Component::new(vec![FieldDecl { mode: FieldMode::Reference, initial: text("old") }]);
    let pointer = comp.read_ref(0);
    comp.write_ref(0, Arc::new(text("new")));
    // The pointer handed out before the setter call still observes the
    // value it captured; a fresh read sees the replacement.
    assert_eq!(*pointer, text("old"));
    assert_eq!(*comp.read_ref(0), text("new"));
}

#[test]
fn writes_through_one_handle_are_visible_through_clones() {
    let comp = Component::new(vec![FieldDecl { mode: FieldMode::Plain, initial: Value::Int(1) }]);
    let node = oop_inheritance::node::Node::new().set(ANIMAL, Arc::new(comp));
    let other_handle = node.clone();
    node.get(ANIMAL).unwrap().write_value(0, Value::Int(2));
    assert_eq!(other_handle.get(ANIMAL).unwrap().read_value(0), Value::Int(2));
}

#[test]
fn end_to_end_animal_dog_scenario() {
    // Chain: Animal -> Root, field name: text = ""; then
    // Dog -> Animal -> Root, field breed: text = "".
    let dog_chain = Chain::new(vec![DOG, ANIMAL]);
    let animal_component =
        Arc::new(Component::new(vec![FieldDecl { mode: FieldMode::Plain, initial: text("") }]));
    let dog_component =
        Arc::new(Component::new(vec![FieldDecl { mode: FieldMode::Plain, initial: text("") }]));
    let dog = ClassView::new_root(dog_chain.clone(), animal_component).extend(dog_component);

    assert!(dog.node().has(ANIMAL));
    assert!(dog.node().has(DOG));

    // Narrowing the widened-to-root view back to Dog succeeds.
    let root = dog.node().clone();
    let again = ClassView::from_node(&root, dog_chain.clone(), 0).expect("must succeed");
    assert!(again.same_object(&dog));

    // An Animal-only node does not narrow to Dog.
    let animal_only = ClassView::new_root(
        Chain::new(vec![ANIMAL]),
        Arc::new(Component::new(vec![FieldDecl { mode: FieldMode::Plain, initial: text("") }])),
    );
    let err = ClassView::from_node(animal_only.node(), dog_chain, 0).err().expect("must fail");
    assert_eq!(err.message(), "Type conversion failed");

    // The dog's widened Animal view reports name() == "".
    let animal_view = dog.widen(1);
    assert_eq!(animal_view.field_value(0).expect("component present"), text(""));

    // Fluent chaining: the setter returns a handle to the same object.
    let same = dog.set_field_value(0, text("collie")).expect("component present");
    assert!(same.same_object(&dog));
    assert_eq!(dog.field_value(0).unwrap(), text("collie"));
}

#[test]
fn reference_fields_through_a_view() {
    let chain = Chain::new(vec![ANIMAL]);
    let component = Arc::new(Component::new(vec![
        FieldDecl { mode: FieldMode::Reference, initial: text("shared") },
    ]));
    let view = ClassView::new_root(chain, component);
    let pointer = view.field_ref(0).expect("component present");
    assert_eq!(*pointer, text("shared"));
    let same = view.set_field_ref(0, Arc::new(text("replaced"))).expect("component present");
    assert!(same.same_object(&view));
    assert_eq!(*pointer, text("shared"));
    assert_eq!(*view.field_ref(0).unwrap(), text("replaced"));
}

#[test]
fn distinct_fields_are_updated_independently() {
    let comp = Component::new(vec![
        FieldDecl { mode: FieldMode::Plain, initial: Value::Int(0) },
        FieldDecl { mode: FieldMode::Plain, initial: Value::Flag(false) },
    ]);
    comp.write_value(0, Value::Int(10));
    comp.write_value(1, Value::Flag(true));
    assert_eq!(comp.read_value(0), Value::Int(10));
    assert_eq!(comp.read_value(1), Value::Flag(true));
}

#[test]
fn errors_carry_their_message() {
    let err = oop_inheritance::error::ClassError::new("something went wrong".to_string());
    assert_eq!(err.message(), "something went wrong");
}

#[test]
fn a_bare_node_narrows_to_no_level() {
    let node = oop_inheritance::node::Node::new();
    let err = ClassView::from_node(&node, Chain::new(vec![ANIMAL]), 0).err().expect("must fail");
    assert_eq!(err.message(), "Type conversion failed");
}
