//! The plugin that binds a component to the schedule that records it.
use vstd::prelude::*;
use core::marker::PhantomData;
use bevy::app::{FixedLast, Last};
use crate::schedule::DefaultSchedule;

verus! {

/// Enables [`Previous`](crate::previous::Previous) for component `T`, recorded
/// in schedule `S`.
///
/// `S` should run after all logic that changes `T`, so it is [`Last`] unless
/// given. The plugin holds the schedule label it was built with, which is its
/// view.
pub struct PreviousPlugin<T, S = Last> {
    schedule: S,
    _t: PhantomData<T>,
}

/// The plugin that records in the fixed-timestep schedule [`FixedLast`].
pub type FixedPreviousPlugin<T> = PreviousPlugin<T, FixedLast>;

impl<T, S> View for PreviousPlugin<T, S> {
    type V = S;

    closed spec fn view(&self) -> S {
        self.schedule
    }
}

impl<T, S> PreviousPlugin<T, S> {
    /// The plugin that records in `schedule`.
    pub closed spec fn built_from(schedule: S) -> PreviousPlugin<T, S> {
        PreviousPlugin { schedule, _t: PhantomData }
    }

    /// A plugin that records in the given schedule.
    pub fn new(schedule: S) -> (r: PreviousPlugin<T, S>)
        ensures
            r == Self::built_from(schedule),
            r@ == schedule,
    {
        PreviousPlugin { schedule, _t: PhantomData }
    }

    /// The schedule that the plugin records in.
    pub fn schedule(&self) -> (r: &S)
        ensures
            *r == self@,
    {
        &self.schedule
    }

    /// Gives up the plugin for the schedule it records in.
    pub fn into_schedule(self) -> (r: S)
        ensures
            r == self@,
    {
        self.schedule
    }
}

impl<T, S: DefaultSchedule> Default for PreviousPlugin<T, S> {
    /// A plugin that records in the canonical value of `S`.
    fn default() -> (r: Self)
        ensures
            r == Self::built_from(S::canonical()),
            r@ == S::canonical(),
    {
        PreviousPlugin::new(<S as DefaultSchedule>::default())
    }
}

/// A plugin built from a label records in that label. So for a label type
/// with a canonical value, the plugin that `default` builds is the one that
/// `new` builds from that value, and it records in that value.
pub proof fn lemma_default_resolution<T, S: DefaultSchedule>()
    ensures
        forall|s: S| (#[trigger] PreviousPlugin::<T, S>::built_from(s))@ == s,
        PreviousPlugin::<T, S>::built_from(S::canonical())@ == S::canonical(),
{
}

} // verus!
