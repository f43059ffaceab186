//! A handle on a value of the application's shared state.
use vstd::prelude::*;

verus! {

/// A borrowed value of the shared state, handed to a handler as an argument.
pub struct State<'r, T>(&'r T);

impl<'r, T> State<'r, T> {
    pub fn new(data: &'r T) -> (r: Self)
        ensures
            r.inner() == *data,
    {
        State(data)
    }

    pub closed spec fn inner(&self) -> T {
        *self.0
    }

    /// The value behind the handle.
    pub fn get(&self) -> (r: &'r T)
        ensures
            *r == self.inner(),
    {
        self.0
    }
}

} // verus!
