//! Verified decision logic of the knowledgebase SQL repository: identifier and
//! code conversions, text validation, Wiki publication lifecycle, Drive event
//! sequencing, source projection updates, group knowledge space bindings and the
//! transactional outbox.

pub mod error;
pub mod ids;
pub mod text;
pub mod codes;
pub mod wiki;
pub mod group;
pub mod hashing;
pub mod clock;
pub mod json;
pub mod outbox;
pub mod catalog;
pub mod sorting;
pub mod store_step;
