//! Blocking access to a capability-based virtual filesystem.
//!
//! A backend offers up to four optional capabilities: reading, sequential
//! writing, seekable writing and full read/write/seek access. The compat
//! layer records which of them the backend granted when it was built, hands
//! out the granted ones, and refuses the others with [`Unsupported`].
pub mod capability;
pub mod compat;

pub use capability::{Capability, Unsupported};
pub use compat::VfsCompat;
