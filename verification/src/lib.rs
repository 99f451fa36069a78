//! Verified core of a user-space file system bridge: mount options, the
//! length-delimited wire framing, request dispatch decisions, and the
//! command planning around mounting, unmounting and installing the host
//! application.

pub mod options;
pub mod varint;
pub mod framing;
pub mod text;
pub mod platform;
pub mod handler;
pub mod mounter;
pub mod installer;
pub mod session;
pub mod socket;
