//! Decode-and-dispatch pipeline of a graphics-tablet driver.
//!
//! One 64-byte report of the tablet goes in; the key, axis and synchronisation
//! events for a keyboard-like and a pen-like virtual input device come out, as
//! an ordered list of actions that the caller performs.

pub mod bindings;
pub mod capabilities;
pub mod controller;
pub mod dispatcher;
pub mod edges;
pub mod events;
pub mod keys;
pub mod pointer;
pub mod report;
pub mod scale;
pub mod state;

pub use dispatcher::DeviceDispatcher;
pub use report::RawDataReader;
