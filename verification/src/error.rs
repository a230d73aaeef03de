use vstd::prelude::*;

verus! {

/// The sole error kind of the library: it signals a failed narrowing
/// (and, defensively, a field access through a handle whose component
/// is absent). It carries a human-readable message and nothing else.
#[derive(Debug)]
pub struct ClassError {
    message: String,
}

impl View for ClassError {
    type V = Seq<char>;

    closed spec fn view(&self) -> Seq<char> {
        self.message@
    }
}

impl ClassError {
    /// Builds an error carrying the given message.
    pub fn new(message: String) -> (e: ClassError)
        ensures
            e@ == message@,
    {
        ClassError { message }
    }

    /// The human-readable message the error carries.
    pub fn message(&self) -> (m: &String)
        ensures
            m@ == self@,
    {
        &self.message
    }
}

} // verus!
