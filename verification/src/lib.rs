//! Correlation of raid reservations with a raid's item catalog.
//!
//! Given the reservations and the disabled item ids of an event, and the item
//! catalog of the raid the event belongs to, the library derives the soft
//! reserves (one per participant) and the hard reserves (excluded items),
//! packs them into one output record, and decides, step by step, what the
//! HTTP endpoint around it has to do next.

pub mod model;
pub mod correlate;
pub mod positions;
pub mod correspondence;
pub mod encode;
pub mod assemble;
pub mod upstream;
pub mod endpoint;
