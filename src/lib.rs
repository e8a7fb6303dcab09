//! Decoded-data model of a media framework: buffer allocation, shared storage,
//! buffer pooling, stream, packet and frame metadata, and the BMV3 audio decoder
//! built on them.
pub mod formats;
pub mod refs;
pub mod info;
pub mod buffer;
pub mod allocator;
pub mod pool;
pub mod timestamp;
pub mod stream;
pub mod bmv3;
