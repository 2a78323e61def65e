//! Reconstruction of a ROS 2 application's objects from trace events, and the
//! analyses computed over them.
pub mod argsv2;
pub mod bt2;
pub mod event_iterator;
pub mod events_common;
pub mod extract;
pub mod text;
pub mod interner;
pub mod known;
pub mod model;
pub mod processed_events;
pub mod processor;
pub mod raw_events;

pub mod analysis;
