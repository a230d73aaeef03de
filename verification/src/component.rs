use vstd::prelude::*;
use std::sync::Arc;
use crate::field::{RefField, ValueField};
use crate::value::{Value, ValueKind};

verus! {

/// Whether a declared field stores its value inline or behind a shared
/// pointer.
#[derive(Clone, Copy, PartialEq, Eq, Structural, Debug)]
pub enum FieldMode {
    Plain,
    Reference,
}

/// One declared field of a class level: its storage mode and the
/// default value it starts from, which also fixes its kind.
pub struct FieldDecl {
    pub mode: FieldMode,
    pub initial: Value,
}

/// The lock-guarded storage of one declared field.
pub enum FieldSlot {
    Plain(ValueField),
    Reference(RefField),
}

impl FieldSlot {
    /// The storage mode of this slot.
    pub open spec fn mode(self) -> FieldMode {
        match self {
            FieldSlot::Plain(_) => FieldMode::Plain,
            FieldSlot::Reference(_) => FieldMode::Reference,
        }
    }

    /// The kind every value stored in this slot has.
    pub open spec fn kind(self) -> ValueKind {
        match self {
            FieldSlot::Plain(f) => f.kind(),
            FieldSlot::Reference(f) => f.kind(),
        }
    }
}

/// A per-class-level record holding that level's declared fields, each
/// individually guarded by a reader/writer lock. A component is created
/// once, with declared default values, and never replaced as a whole
/// afterward: only individual field values change, through `&self`.
pub struct Component {
    fields: Vec<FieldSlot>,
}

impl View for Component {
    type V = Seq<FieldSlot>;

    closed spec fn view(&self) -> Seq<FieldSlot> {
        self.fields@
    }
}

impl Component {
    /// Creates the record for one class level, one lock-guarded slot
    /// per declared field, each starting from its default value.
    pub fn new(decls: Vec<FieldDecl>) -> (c: Component)
        ensures
            c@.len() == decls@.len(),
            forall|i: int|
                0 <= i < decls@.len() ==> (#[trigger] c@[i]).mode() == decls@[i].mode
                    && c@[i].kind() == decls@[i].initial.kind_spec(),
    {
        let mut fields: Vec<FieldSlot> = Vec::new();
        let mut i: usize = 0;
        while i < decls.len()
            invariant
                i <= decls@.len(),
                fields@.len() == i,
                forall|j: int|
                    0 <= j < i as int ==> (#[trigger] fields@[j]).mode() == decls@[j].mode
                        && fields@[j].kind() == decls@[j].initial.kind_spec(),
            decreases decls@.len() - i,
        {
            let decl = &decls[i];
            let initial = decl.initial.clone();
            let slot = match decl.mode {
                FieldMode::Plain => FieldSlot::Plain(ValueField::new(initial)),
                FieldMode::Reference => FieldSlot::Reference(RefField::new(Arc::new(initial))),
            };
            fields.push(slot);
            i = i + 1;
        }
        Component { fields }
    }

    /// How many fields this level declares.
    pub fn field_count(&self) -> (n: usize)
        ensures
            n == self@.len(),
    {
        self.fields.len()
    }

    /// Snapshot of a plain-value field: acquires that field's read lock
    /// and returns a clone of the current value.
    pub fn read_value(&self, index: usize) -> (v: Value)
        requires
            index < self@.len(),
            self@[index as int].mode() == FieldMode::Plain,
        ensures
            v.kind_spec() == self@[index as int].kind(),
    {
        match &self.fields[index] {
            FieldSlot::Plain(f) => f.get(),
            FieldSlot::Reference(_) => {
                proof {
                    assert(false);
                }
                vstd::pervasive::unreached()
            },
        }
    }

    /// Replaces a plain-value field under that field's write lock.
    pub fn write_value(&self, index: usize, v: Value)
        requires
            index < self@.len(),
            self@[index as int].mode() == FieldMode::Plain,
            v.kind_spec() == self@[index as int].kind(),
    {
        match &self.fields[index] {
            FieldSlot::Plain(f) => f.set(v),
            FieldSlot::Reference(_) => {
                proof {
                    assert(false);
                }
            },
        }
    }

    /// Co-owning clone of the pointer currently held by a reference
    /// field. The clone keeps observing its captured value even after a
    /// later `write_ref` replaces the field.
    pub fn read_ref(&self, index: usize) -> (v: Arc<Value>)
        requires
            index < self@.len(),
            self@[index as int].mode() == FieldMode::Reference,
        ensures
            (*v).kind_spec() == self@[index as int].kind(),
    {
        match &self.fields[index] {
            FieldSlot::Reference(f) => f.get(),
            FieldSlot::Plain(_) => {
                proof {
                    assert(false);
                }
                vstd::pervasive::unreached()
            },
        }
    }

    /// Replaces the pointer held by a reference field under that
    /// field's write lock; pointers already handed out are unaffected.
    pub fn write_ref(&self, index: usize, v: Arc<Value>)
        requires
            index < self@.len(),
            self@[index as int].mode() == FieldMode::Reference,
            (*v).kind_spec() == self@[index as int].kind(),
    {
        match &self.fields[index] {
            FieldSlot::Reference(f) => f.set(v),
            FieldSlot::Plain(_) => {
                proof {
                    assert(false);
                }
            },
        }
    }
}

} // verus!
