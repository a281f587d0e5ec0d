//! Tracks, for each entity, the value a component had the last time a
//! chosen schedule ran.
//!
//! [`PreviousPlugin`] binds a component type `T` to a schedule `S`. Each time
//! `S` runs, its [`update`](update::update) writes the entity's
//! [`Previous<T, S>`] record from the component's current value when the
//! entity has no record yet or the component changed since, and leaves the
//! record alone otherwise. [`DefaultSchedule`] gives label types a canonical
//! value, and [`codegen`] writes that impl for unit structs.
pub mod codegen;
pub mod plugin;
pub mod previous;
pub mod schedule;
pub mod update;

pub use plugin::{FixedPreviousPlugin, PreviousPlugin};
pub use previous::{FixedPrevious, Previous};
pub use schedule::DefaultSchedule;
pub use codegen::default_schedule;
pub use update::{refresh, selects};
