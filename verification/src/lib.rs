//! A scoped, self-cleaning temporary mount handle.
//!
//! The library decides how a block device's filesystem is exposed — by a
//! fresh mount of the device, or by a bind mount of an already-mounted boot
//! partition — and guarantees that the resulting mount is torn down exactly
//! once when the owning guard goes out of scope.
//!
//! All external work (spawning the mount-table query, the mount itself, the
//! unmount, and temporary-directory allocation) is performed by the caller:
//! the library hands out [`session::MountAction`] values describing exactly
//! which command to run, and consumes [`session::MountEvent`] values
//! reporting what happened. Every decision in between is verified.

pub mod command;
pub mod guard;
pub mod laws;
pub mod probe;
pub mod session;
pub mod strategy;
pub mod text;
