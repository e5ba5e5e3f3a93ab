//! The envelopes that hold an operation's fields while it is being built.
use vstd::prelude::*;

verus! {

/// A transaction under construction; `data` holds the fields of its operation.
#[derive(Clone, Debug)]
pub struct Transaction<D> {
    pub data: D,
}

/// A query under construction; `data` holds the fields of its request.
#[derive(Clone, Debug)]
pub struct Query<D> {
    pub data: D,
}

impl<D> Transaction<D> {
    /// The operation's fields.
    pub fn data(&self) -> (r: &D)
        ensures
            *r == self.data,
    {
        &self.data
    }

    /// The operation's fields, to change in place.
    pub fn data_mut(&mut self) -> (r: &mut D)
        ensures
            *r == old(self).data,
            final(self).data == *final(r),
    {
        &mut self.data
    }
}

impl<D> Query<D> {
    /// The request's fields.
    pub fn data(&self) -> (r: &D)
        ensures
            *r == self.data,
    {
        &self.data
    }
}

} // verus!
