//! Discovery of the host a PHP version manager runs on: the operating system
//! family and, on Linux, the distribution family, together with the context
//! that the manager's commands work in.
//!
//! The executable functions are verified against the contracts they carry.
//! What comes from outside (the lower-case form of a text, the answers of
//! `sys_info`, the copy of a path) is marked as such where it is declared.

pub mod context;
pub mod discovery;
pub mod error;
pub mod layout;
pub mod text;

pub use context::{Context, ContextBuilder, ContextError};
pub use discovery::services::SysInfo;
pub use discovery::{DiscoveryService, DistroID, Progress, Vendor, VendorID};
pub use error::Error;
