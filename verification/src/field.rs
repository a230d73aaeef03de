use vstd::prelude::*;
use vstd::rwlock::{RwLock, RwLockPredicate};
use std::sync::Arc;
use crate::value::{Value, ValueKind};

verus! {

/// Lock invariant of a plain-value field: the stored value keeps the
/// kind the field was declared with.
pub struct ValueFieldInv {
    pub kind: ValueKind,
}

impl RwLockPredicate<Value> for ValueFieldInv {
    open spec fn inv(self, v: Value) -> bool {
        v.kind_spec() == self.kind
    }
}

/// Lock invariant of a reference field: the shared pointer behind the
/// lock points at a value of the declared kind.
pub struct RefFieldInv {
    pub kind: ValueKind,
}

impl RwLockPredicate<Arc<Value>> for RefFieldInv {
    open spec fn inv(self, v: Arc<Value>) -> bool {
        (*v).kind_spec() == self.kind
    }
}

/// Storage of one plain-value field: the value sits inline behind its
/// own reader/writer lock. The getter returns a cloned snapshot; the
/// setter replaces the value under the write lock. The lock guards this
/// field alone, so writers to other fields are never excluded.
pub struct ValueField {
    lock: RwLock<Value, ValueFieldInv>,
}

impl ValueField {
    /// The kind the field was declared with; every stored value has it.
    pub closed spec fn kind(self) -> ValueKind {
        self.lock.pred().kind
    }

    /// Creates the field holding its declared default value.
    pub fn new(initial: Value) -> (f: ValueField)
        ensures
            f.kind() == initial.kind_spec(),
    {
        let kind = initial.kind();
        ValueField { lock: RwLock::new(initial, Ghost(ValueFieldInv { kind })) }
    }

    /// Acquires the read lock and returns a cloned snapshot of the
    /// current value. Later writes leave the snapshot untouched.
    pub fn get(&self) -> (v: Value)
        ensures
            v.kind_spec() == self.kind(),
    {
        let handle = self.lock.acquire_read();
        let v = handle.borrow().clone();
        handle.release_read();
        v
    }

    /// Acquires the write lock and replaces the value.
    pub fn set(&self, v: Value)
        requires
            v.kind_spec() == self.kind(),
    {
        let (_previous, handle) = self.lock.acquire_write();
        handle.release_write(v);
    }
}

/// Storage of one reference field: a shared, reference-counted pointer
/// behind its own reader/writer lock. The getter returns a cheap clone
/// of the current pointer; a pointer once handed out keeps observing
/// its captured value even after a later setter call replaces the
/// field, since the setter only swaps the pointer held by the lock.
pub struct RefField {
    lock: RwLock<Arc<Value>, RefFieldInv>,
}

impl RefField {
    /// The kind the field was declared with.
    pub closed spec fn kind(self) -> ValueKind {
        self.lock.pred().kind
    }

    /// Creates the field pointing at its declared default value.
    pub fn new(initial: Arc<Value>) -> (f: RefField)
        ensures
            f.kind() == (*initial).kind_spec(),
    {
        let kind = initial.kind();
        RefField { lock: RwLock::new(initial, Ghost(RefFieldInv { kind })) }
    }

    /// Acquires the read lock and returns a co-owning clone of the
    /// current pointer.
    pub fn get(&self) -> (v: Arc<Value>)
        ensures
            (*v).kind_spec() == self.kind(),
    {
        let handle = self.lock.acquire_read();
        let v = handle.borrow().clone();
        handle.release_read();
        v
    }

    /// Acquires the write lock and replaces the pointer; pointers
    /// already handed out are unaffected.
    pub fn set(&self, v: Arc<Value>)
        requires
            (*v).kind_spec() == self.kind(),
    {
        let (_previous, handle) = self.lock.acquire_write();
        handle.release_write(v);
    }
}

} // verus!
