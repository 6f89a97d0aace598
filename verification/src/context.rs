use crate::trusted::fresh_uuid;
use vstd::prelude::*;

verus! {

/// Identifier of a classification context: the canonical 36-character
/// hyphenated text form of a version-4 UUID.
#[derive(Debug)]
pub struct ContextId(pub String);

impl Clone for ContextId {
    fn clone(&self) -> (res: Self)
        ensures
            res == *self,
    {
        ContextId(self.0.clone())
    }
}

impl ContextId {
    /// Draws a fresh identifier.
    pub fn new() -> (r: ContextId)
        ensures
            r.0@.len() == 36,
    {
        ContextId(fresh_uuid())
    }

    /// The identifier's text form.
    pub fn to_string(&self) -> (r: String)
        ensures
            r@ == self.0@,
    {
        self.0.clone()
    }
}

/// A short label the classifier attaches to a user turn, with a fresh
/// identifier. Created once per inbound user message and attached to the
/// message before it is persisted.
#[derive(Debug)]
pub struct Context {
    pub id: ContextId,
    pub name: String,
}

impl Clone for Context {
    fn clone(&self) -> (res: Self)
        ensures
            res == *self,
    {
        Context { id: self.id.clone(), name: self.name.clone() }
    }
}

impl Context {
    /// Wraps a classifier label into a context with a fresh identifier.
    pub fn new(name: String) -> (r: Context)
        ensures
            r.name == name,
            r.id.0@.len() == 36,
    {
        Context { id: ContextId::new(), name }
    }
}

} // verus!
