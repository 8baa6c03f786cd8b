//! Session bookkeeping for LibVMI, the virtual-machine introspection library.
//!
//! The crate holds every decision a LibVMI session handle makes and none of
//! the foreign calls: a caller performs each native call and hands its
//! status and out-parameter to the handle, which turns them into a typed
//! result, tracks whether the guest is paused, and says which native calls
//! are still owed (the release of a string buffer, the resume and destroy of
//! a teardown).

pub mod native;
pub mod render;
pub mod message;
pub mod cstring;
pub mod decode;
pub mod instance;
pub mod teardown;
pub mod laws;

pub use crate::instance::VmiInstance;
