//! The values LibVMI's C interface exchanges with its callers.

use vstd::prelude::*;

verus! {

/// Status a native entry point returns when it succeeded.
pub const VMI_SUCCESS: u32 = 0;

/// Status a native entry point returns when it failed.
pub const VMI_FAILURE: u32 = 1;

/// Initialization flag: the name names a domain of the hypervisor.
pub const VMI_INIT_DOMAINNAME: u64 = 1;

/// Configuration mode: the configuration comes from LibVMI's global file.
pub const VMI_CONFIG_GLOBAL_FILE_ENTRY: u32 = 0;

/// Whether a native status reports failure. Every other status counts as
/// success, the out-parameter then holds the result.
pub open spec fn failed(status: u32) -> bool {
    status == VMI_FAILURE
}

/// Tests a native status for failure.
pub fn is_failure(status: u32) -> (b: bool)
    ensures
        b == failed(status),
{
    status == VMI_FAILURE
}

/// A native call the session owes: the caller performs it next.
#[derive(Clone, Copy, Debug, PartialEq, Eq, Structural)]
pub enum NativeCall {
    /// Resume the guest of the session `vmi`.
    ResumeVm { vmi: usize },
    /// Destroy the session `vmi`.
    Destroy { vmi: usize },
    /// Hand `buffer`, which the native library allocated, to the matching
    /// deallocator.
    Free { buffer: usize },
}

} // verus!
