//! Schedule labels with a canonical value, and bevy's built-in labels.
use vstd::prelude::*;
use bevy::app::{
    PreStartup, Startup, PostStartup, Main, First, PreUpdate, Update, PostUpdate, Last, FixedMain, FixedFirst, FixedPreUpdate, FixedUpdate, FixedPostUpdate, FixedLast,
};

verus! {

/// bevy's `PreStartup` schedule label: a unit struct, so Verus
/// reads it whole and its one value can be built.
#[verifier::external_type_specification]
pub struct ExPreStartup(PreStartup);

/// bevy's `Startup` schedule label: a unit struct, so Verus
/// reads it whole and its one value can be built.
#[verifier::external_type_specification]
pub struct ExStartup(Startup);

/// bevy's `PostStartup` schedule label: a unit struct, so Verus
/// reads it whole and its one value can be built.
#[verifier::external_type_specification]
pub struct ExPostStartup(PostStartup);

/// bevy's `Main` schedule label: a unit struct, so Verus
/// reads it whole and its one value can be built.
#[verifier::external_type_specification]
pub struct ExMain(Main);

/// bevy's `First` schedule label: a unit struct, so Verus
/// reads it whole and its one value can be built.
#[verifier::external_type_specification]
pub struct ExFirst(First);

/// bevy's `PreUpdate` schedule label: a unit struct, so Verus
/// reads it whole and its one value can be built.
#[verifier::external_type_specification]
pub struct ExPreUpdate(PreUpdate);

/// bevy's `Update` schedule label: a unit struct, so Verus
/// reads it whole and its one value can be built.
#[verifier::external_type_specification]
pub struct ExUpdate(Update);

/// bevy's `PostUpdate` schedule label: a unit struct, so Verus
/// reads it whole and its one value can be built.
#[verifier::external_type_specification]
pub struct ExPostUpdate(PostUpdate);

/// bevy's `Last` schedule label: a unit struct, so Verus
/// reads it whole and its one value can be built.
#[verifier::external_type_specification]
pub struct ExLast(Last);

/// bevy's `FixedMain` schedule label: a unit struct, so Verus
/// reads it whole and its one value can be built.
#[verifier::external_type_specification]
pub struct ExFixedMain(FixedMain);

/// bevy's `FixedFirst` schedule label: a unit struct, so Verus
/// reads it whole and its one value can be built.
#[verifier::external_type_specification]
pub struct ExFixedFirst(FixedFirst);

/// bevy's `FixedPreUpdate` schedule label: a unit struct, so Verus
/// reads it whole and its one value can be built.
#[verifier::external_type_specification]
pub struct ExFixedPreUpdate(FixedPreUpdate);

/// bevy's `FixedUpdate` schedule label: a unit struct, so Verus
/// reads it whole and its one value can be built.
#[verifier::external_type_specification]
pub struct ExFixedUpdate(FixedUpdate);

/// bevy's `FixedPostUpdate` schedule label: a unit struct, so Verus
/// reads it whole and its one value can be built.
#[verifier::external_type_specification]
pub struct ExFixedPostUpdate(FixedPostUpdate);

/// bevy's `FixedLast` schedule label: a unit struct, so Verus
/// reads it whole and its one value can be built.
#[verifier::external_type_specification]
pub struct ExFixedLast(FixedLast);

/// A schedule label type with one canonical value, so that a plugin can be
/// built for it without the caller naming that value.
///
/// Each of bevy's built-in schedule labels has it. For a unit struct it can be
/// derived; for other label types it is written by hand, or the label is
/// passed to the plugin explicitly.
pub trait DefaultSchedule: Sized {
    /// The canonical value of the label type.
    spec fn canonical() -> Self;

    /// Returns the canonical value of the label type.
    fn default() -> (r: Self)
        ensures
            r == Self::canonical(),
    ;
}

impl DefaultSchedule for PreStartup {
    open spec fn canonical() -> Self {
        PreStartup
    }

    fn default() -> (r: Self) {
        PreStartup
    }
}

impl DefaultSchedule for Startup {
    open spec fn canonical() -> Self {
        Startup
    }

    fn default() -> (r: Self) {
        Startup
    }
}

impl DefaultSchedule for PostStartup {
    open spec fn canonical() -> Self {
        PostStartup
    }

    fn default() -> (r: Self) {
        PostStartup
    }
}

impl DefaultSchedule for Main {
    open spec fn canonical() -> Self {
        Main
    }

    fn default() -> (r: Self) {
        Main
    }
}

impl DefaultSchedule for First {
    open spec fn canonical() -> Self {
        First
    }

    fn default() -> (r: Self) {
        First
    }
}

impl DefaultSchedule for PreUpdate {
    open spec fn canonical() -> Self {
        PreUpdate
    }

    fn default() -> (r: Self) {
        PreUpdate
    }
}

impl DefaultSchedule for Update {
    open spec fn canonical() -> Self {
        Update
    }

    fn default() -> (r: Self) {
        Update
    }
}

impl DefaultSchedule for PostUpdate {
    open spec fn canonical() -> Self {
        PostUpdate
    }

    fn default() -> (r: Self) {
        PostUpdate
    }
}

impl DefaultSchedule for Last {
    open spec fn canonical() -> Self {
        Last
    }

    fn default() -> (r: Self) {
        Last
    }
}

impl DefaultSchedule for FixedMain {
    open spec fn canonical() -> Self {
        FixedMain
    }

    fn default() -> (r: Self) {
        FixedMain
    }
}

impl DefaultSchedule for FixedFirst {
    open spec fn canonical() -> Self {
        FixedFirst
    }

    fn default() -> (r: Self) {
        FixedFirst
    }
}

impl DefaultSchedule for FixedPreUpdate {
    open spec fn canonical() -> Self {
        FixedPreUpdate
    }

    fn default() -> (r: Self) {
        FixedPreUpdate
    }
}

impl DefaultSchedule for FixedUpdate {
    open spec fn canonical() -> Self {
        FixedUpdate
    }

    fn default() -> (r: Self) {
        FixedUpdate
    }
}

impl DefaultSchedule for FixedPostUpdate {
    open spec fn canonical() -> Self {
        FixedPostUpdate
    }

    fn default() -> (r: Self) {
        FixedPostUpdate
    }
}

impl DefaultSchedule for FixedLast {
    open spec fn canonical() -> Self {
        FixedLast
    }

    fn default() -> (r: Self) {
        FixedLast
    }
}

} // verus!
