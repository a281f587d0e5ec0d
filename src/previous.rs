//! The record that holds a component's earlier value.
use vstd::prelude::*;
use core::marker::PhantomData;
use bevy::app::{FixedLast, Last};

verus! {

/// The value that a component `T` had when schedule `S` last wrote it.
///
/// `S` is only a tag: it keeps the records of two schedules that track the
/// same component apart, and takes no room.
#[derive(Debug, PartialEq, Eq, PartialOrd, Ord, Hash)]
pub struct Previous<T, S = Last>(pub T, pub PhantomData<S>);

impl<T, S> Previous<T, S> {
    /// The record holding `value`.
    pub open spec fn new_spec(value: T) -> Self {
        Previous(value, PhantomData)
    }

    /// Wraps `value` as a recorded earlier value.
    pub fn new(value: T) -> (r: Self)
        ensures
            r.0 == value,
            r == Self::new_spec(value),
    {
        Previous(value, PhantomData)
    }
}

impl<T: Clone, S> Clone for Previous<T, S> {
    fn clone(&self) -> (r: Self)
        ensures
            cloned(self.0, r.0),
    {
        Previous(self.0.clone(), PhantomData)
    }
}

impl<T, S> From<T> for Previous<T, S> {
    fn from(value: T) -> (r: Self)
        ensures
            r.0 == value,
    {
        Previous::new(value)
    }
}

impl<T, S> vstd::std_specs::convert::FromSpecImpl<T> for Previous<T, S> {
    open spec fn obeys_from_spec() -> bool {
        true
    }

    open spec fn from_spec(v: T) -> Self {
        Previous(v, PhantomData)
    }
}

/// The record kept by the fixed-timestep schedule [`FixedLast`].
pub type FixedPrevious<T> = Previous<T, FixedLast>;

} // verus!
