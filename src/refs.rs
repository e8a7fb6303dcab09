//! Shared buffer storage: a reference-counted handle with exclusive mutation.
use vstd::prelude::*;
use std::sync::Arc;

verus! {

/// Shared-ownership handle to a value.
///
/// Clones of a handle share one value; it can be changed only through a handle
/// that is the sole holder at that moment.
#[derive(Debug)]
pub struct NABufferRef<T> {
    inner: Arc<T>,
}

/// Relies on `Arc::get_mut`: a reference to the contents where no other holder
/// exists, and `None`, with the handle untouched, otherwise.
#[verifier::external_body]
fn arc_get_mut<T>(a: &mut Arc<T>) -> (r: Option<&mut T>)
    ensures
        match r {
            Some(m) => *m == **old(a) && **final(a) == *final(m),
            None => *final(a) == *old(a),
        },
{
    Arc::get_mut(a)
}

/// Relies on `Arc::strong_count`: the number of handles to the value, this one
/// included.
#[verifier::external_body]
fn arc_strong_count<T>(a: &Arc<T>) -> (r: usize)
    ensures
        r >= 1,
{
    Arc::strong_count(a)
}

impl<T> NABufferRef<T> {
    /// The value the handle shares.
    pub closed spec fn value(&self) -> T {
        *self.inner
    }

    /// Wraps a value into a new handle, its only holder.
    pub fn new(val: T) -> (r: Self)
        ensures
            r.value() == val,
    {
        NABufferRef { inner: Arc::new(val) }
    }

    /// Returns a reference to the value.
    pub fn as_ref(&self) -> (r: &T)
        ensures
            *r == self.value(),
    {
        &*self.inner
    }

    /// Returns a mutable reference to the value where this handle is its only
    /// holder, and `None` otherwise.
    pub fn as_mut(&mut self) -> (r: Option<&mut T>)
        ensures
            match r {
                Some(m) => *m == old(self).value() && final(self).value() == *final(m),
                None => *final(self) == *old(self),
            },
    {
        arc_get_mut(&mut self.inner)
    }

    /// Returns the number of handles that share the value, this one included.
    pub fn get_num_refs(&self) -> (r: usize)
        ensures
            r >= 1,
    {
        arc_strong_count(&self.inner)
    }
}

impl<T> Clone for NABufferRef<T> {
    /// Makes another handle to the same value.
    fn clone(&self) -> (r: Self)
        ensures
            r == *self,
    {
        NABufferRef { inner: self.inner.clone() }
    }
}

} // verus!
