//! A shared, read-only handle to a value that relay tasks hold at once.
use vstd::prelude::*;
use std::sync::Arc;

verus! {

/// A shared, read-only handle: every copy refers to the same value.
pub struct Ref<T>(Arc<T>);

impl<T> Ref<T> {
    /// The value the handle refers to.
    pub closed spec fn value(&self) -> T {
        *self.0
    }

    /// A handle to `x`.
    pub fn new(x: T) -> (r: Ref<T>)
        ensures
            r.value() == x,
    {
        Ref(Arc::new(x))
    }

    /// Another handle to the same value.
    pub fn share(&self) -> (r: Ref<T>)
        ensures
            r.value() == self.value(),
    {
        Ref(Arc::clone(&self.0))
    }

    /// The value the handle refers to.
    pub fn as_ref(&self) -> (r: &T)
        ensures
            *r == self.value(),
    {
        &*self.0
    }
}

} // verus!
