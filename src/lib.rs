//! Job orchestration core of a partition imaging daemon: the compression
//! registry, the block-device lookups, the imager progress parser, the clone
//! and restore job state machines, the request codec and the event-loop
//! decisions.

pub mod text;
pub mod matching;
pub mod compression;
pub mod devices;
pub mod time;
pub mod partclone;
pub mod image;
pub mod outbound;
pub mod clone;
pub mod restore;
pub mod inbound;
pub mod status;
pub mod server;
pub mod child;
