//! The session handle.

use vstd::prelude::*;
use vstd::string::StringSliceAdditionalSpecFns;
use crate::cstring::{c_string, is_c_name, null_free, terminated};
use crate::decode::{decode_lossy, lossy_text};
use crate::message::{
    offset_failure, offset_failure_text, pause_failure, pause_failure_text, read_ksym_failure,
    read_ksym_failure_text, read_va_failure, read_va_failure_text, resume_failure,
    resume_failure_text, translate_failure, translate_failure_text, Datum,
};
use crate::native::{
    failed, is_failure, NativeCall, VMI_CONFIG_GLOBAL_FILE_ENTRY, VMI_INIT_DOMAINNAME,
};
use crate::teardown::{teardown_plan, Teardown};

verus! {

/// Why no session came to be.
#[derive(Clone, Copy, Debug, PartialEq, Eq, Structural)]
pub enum InitError {
    /// The name holds a null byte, so no native call can carry it.
    InvalidName,
    /// The native initialization failed with this code of its own.
    Native(u32),
}

/// The arguments of the native initialization of one session. The native
/// call takes no initialization data and no configuration besides them.
pub struct InitRequest {
    /// The name of the guest, null-terminated.
    pub name: Vec<u8>,
    /// The initialization flags.
    pub flags: u64,
    /// Where the native library takes its configuration from.
    pub config_mode: u32,
}

impl InitRequest {
    /// Prepares the initialization of a session with the domain `name`.
    ///
    /// A name with a null byte in it is refused here, before there is
    /// anything to call the native library with. Every other name is looked
    /// up as a domain name, under the global configuration.
    pub fn by_domain_name(name: &str) -> (r: Result<InitRequest, InitError>)
        ensures
            match r {
                Ok(request) => {
                    &&& null_free(name.spec_bytes())
                    &&& request.name@ == terminated(name.spec_bytes())
                    &&& request.flags == VMI_INIT_DOMAINNAME
                    &&& request.config_mode == VMI_CONFIG_GLOBAL_FILE_ENTRY
                },
                Err(e) => !null_free(name.spec_bytes()) && e == InitError::InvalidName,
            },
    {
        match c_string(name) {
            Some(bytes) => Ok(
                InitRequest {
                    name: bytes,
                    flags: VMI_INIT_DOMAINNAME,
                    config_mode: VMI_CONFIG_GLOBAL_FILE_ENTRY,
                },
            ),
            None => Err(InitError::InvalidName),
        }
    }
}

/// What a session handle holds, as a value.
pub struct Session {
    /// The native session token.
    pub token: usize,
    /// Whether the guest was paused through this handle and not resumed
    /// since.
    pub paused: bool,
}

/// A handle on one native session.
///
/// The handle is the only record of the guest's run state: it follows the
/// outcome of every pause and resume and never asks the native side.
pub struct VmiInstance {
    vmi: usize,
    paused: bool,
}

impl View for VmiInstance {
    type V = Session;

    closed spec fn view(&self) -> Session {
        Session { token: self.vmi, paused: self.paused }
    }
}

/// Outcome of a string read.
pub struct StrRead {
    /// The text read, or the message of the failure.
    pub value: Result<String, String>,
    /// The release that the native buffer is owed, if there is a buffer.
    pub release: Option<NativeCall>,
}

impl StrRead {
    /// Outcome of a read that brought `text` out of the native buffer
    /// `buffer`: the text, and the one release of that buffer.
    pub fn delivered(buffer: usize, text: String) -> (out: StrRead)
        ensures
            out.value == Ok::<String, String>(text),
            out.release == Some(NativeCall::Free { buffer }),
    {
        StrRead { value: Ok(text), release: Some(NativeCall::Free { buffer }) }
    }

    /// Outcome of a read that the native library refused: there is no
    /// buffer, and nothing to release.
    pub fn refused(message: String) -> (out: StrRead)
        ensures
            out.value == Err::<String, String>(message),
            out.release is None,
    {
        StrRead { value: Err(message), release: None }
    }
}

impl VmiInstance {
    /// Settles the initialization of a session with the domain `name`:
    /// `status` is what the native call returned, `vmi` and `error` what it
    /// left in its two out-parameters.
    ///
    /// A name with a null byte in it yields `InvalidName`, whatever the
    /// other arguments hold: no native call can have been made for it. For
    /// any other name, a success yields the handle of the session `vmi`,
    /// with a running guest, and a failure the native error code.
    pub fn new(
        name: &str,
        status: u32,
        vmi: usize,
        error: u32,
    ) -> (r: Result<VmiInstance, InitError>)
        ensures
            match r {
                Ok(handle) => {
                    &&& null_free(name.spec_bytes())
                    &&& !failed(status)
                    &&& handle@ == (Session { token: vmi, paused: false })
                },
                Err(InitError::InvalidName) => !null_free(name.spec_bytes()),
                Err(InitError::Native(code)) => {
                    &&& null_free(name.spec_bytes())
                    &&& failed(status)
                    &&& code == error
                },
            },
    {
        if !is_c_name(name) {
            Err(InitError::InvalidName)
        } else if is_failure(status) {
            Err(InitError::Native(error))
        } else {
            Ok(VmiInstance { vmi, paused: false })
        }
    }

    /// The native session token, for the calls made on this session.
    pub fn token(&self) -> (token: usize)
        ensures
            token == self@.token,
    {
        self.vmi
    }

    /// Whether the guest is recorded as paused.
    pub fn paused(&self) -> (paused: bool)
        ensures
            paused == self@.paused,
    {
        self.paused
    }

    /// Settles a lookup of the configuration offset `offset_name`.
    pub fn vmi_get_offset(
        &mut self,
        offset_name: &str,
        status: u32,
        offset: u64,
    ) -> (r: Result<u64, String>)
        ensures
            final(self)@ == old(self)@,
            match r {
                Ok(value) => !failed(status) && value == offset,
                Err(message) => failed(status) && message@ == offset_failure(offset_name@),
            },
    {
        if is_failure(status) {
            Err(offset_failure_text(offset_name))
        } else {
            Ok(offset)
        }
    }

    /// Settles a request to pause the guest: a success is recorded, a
    /// failure leaves the record as it was.
    pub fn vmi_pause_vm(&mut self, status: u32) -> (r: Result<(), String>)
        ensures
            final(self)@.token == old(self)@.token,
            match r {
                Ok(_) => !failed(status) && final(self)@.paused,
                Err(message) => {
                    &&& failed(status)
                    &&& final(self)@.paused == old(self)@.paused
                    &&& message@ == pause_failure()
                },
            },
    {
        if is_failure(status) {
            Err(pause_failure_text())
        } else {
            self.paused = true;
            Ok(())
        }
    }

    /// Settles a request to resume the guest: a success is recorded, a
    /// failure leaves the record as it was.
    pub fn vmi_resume_vm(&mut self, status: u32) -> (r: Result<(), String>)
        ensures
            final(self)@.token == old(self)@.token,
            match r {
                Ok(_) => !failed(status) && !final(self)@.paused,
                Err(message) => {
                    &&& failed(status)
                    &&& final(self)@.paused == old(self)@.paused
                    &&& message@ == resume_failure()
                },
            },
    {
        if is_failure(status) {
            Err(resume_failure_text())
        } else {
            self.paused = false;
            Ok(())
        }
    }

    /// Settles a translation of the kernel symbol `name` to its virtual
    /// address.
    pub fn vmi_translate_ksym2v(
        &mut self,
        name: &str,
        status: u32,
        addr: u64,
    ) -> (r: Result<u64, String>)
        ensures
            final(self)@ == old(self)@,
            match r {
                Ok(value) => !failed(status) && value == addr,
                Err(message) => failed(status) && message@ == translate_failure(name@),
            },
    {
        if is_failure(status) {
            Err(translate_failure_text(name))
        } else {
            Ok(addr)
        }
    }

    /// Settles a read of an address at `vaddr` in the address space of
    /// `pid`.
    pub fn vmi_read_addr_va(
        &mut self,
        vaddr: u64,
        pid: i32,
        status: u32,
        addr: u64,
    ) -> (r: Result<u64, String>)
        ensures
            final(self)@ == old(self)@,
            match r {
                Ok(value) => !failed(status) && value == addr,
                Err(message) => {
                    &&& failed(status)
                    &&& message@ == read_va_failure(Datum::Addr, vaddr, pid)
                },
            },
    {
        if is_failure(status) {
            Err(read_va_failure_text(Datum::Addr, vaddr, pid))
        } else {
            Ok(addr)
        }
    }

    /// Settles a read of 32 bits at `vaddr` in the address space of `pid`.
    pub fn vmi_read_32_va(
        &mut self,
        vaddr: u64,
        pid: i32,
        status: u32,
        val: u32,
    ) -> (r: Result<u32, String>)
        ensures
            final(self)@ == old(self)@,
            match r {
                Ok(value) => !failed(status) && value == val,
                Err(message) => {
                    &&& failed(status)
                    &&& message@ == read_va_failure(Datum::U32, vaddr, pid)
                },
            },
    {
        if is_failure(status) {
            Err(read_va_failure_text(Datum::U32, vaddr, pid))
        } else {
            Ok(val)
        }
    }

    /// Settles a read of 64 bits at `vaddr` in the address space of `pid`.
    pub fn vmi_read_64_va(
        &mut self,
        vaddr: u64,
        pid: i32,
        status: u32,
        val: u64,
    ) -> (r: Result<u64, String>)
        ensures
            final(self)@ == old(self)@,
            match r {
                Ok(value) => !failed(status) && value == val,
                Err(message) => {
                    &&& failed(status)
                    &&& message@ == read_va_failure(Datum::U64, vaddr, pid)
                },
            },
    {
        if is_failure(status) {
            Err(read_va_failure_text(Datum::U64, vaddr, pid))
        } else {
            Ok(val)
        }
    }

    /// Settles a read of a string at `vaddr` in the address space of `pid`.
    ///
    /// `buffer` is the reference the native call returned, null as zero, and
    /// `contents` the bytes in front of the terminator behind it. A null
    /// reference is a failure and owes no release. Any other reference
    /// yields the text of `contents` and owes the release of that buffer.
    pub fn vmi_read_str_va(
        &mut self,
        vaddr: u64,
        pid: i32,
        buffer: usize,
        contents: &[u8],
    ) -> (out: StrRead)
        ensures
            final(self)@ == old(self)@,
            match out.value {
                Ok(text) => {
                    &&& buffer != 0
                    &&& text@ == lossy_text(contents@)
                    &&& out.release == Some(NativeCall::Free { buffer })
                },
                Err(message) => {
                    &&& buffer == 0
                    &&& message@ == read_va_failure(Datum::Text, vaddr, pid)
                    &&& out.release is None
                },
            },
    {
        if buffer == 0 {
            StrRead::refused(read_va_failure_text(Datum::Text, vaddr, pid))
        } else {
            StrRead::delivered(buffer, decode_lossy(contents))
        }
    }

    /// Settles a read of an address at the kernel symbol `name`.
    pub fn vmi_read_addr_ksym(
        &mut self,
        name: &str,
        status: u32,
        addr: u64,
    ) -> (r: Result<u64, String>)
        ensures
            final(self)@ == old(self)@,
            match r {
                Ok(value) => !failed(status) && value == addr,
                Err(message) => failed(status) && message@ == read_ksym_failure(Datum::Addr, name@),
            },
    {
        if is_failure(status) {
            Err(read_ksym_failure_text(Datum::Addr, name))
        } else {
            Ok(addr)
        }
    }

    /// Settles a read of 32 bits at the kernel symbol `name`.
    pub fn vmi_read_32_ksym(
        &mut self,
        name: &str,
        status: u32,
        val: u32,
    ) -> (r: Result<u32, String>)
        ensures
            final(self)@ == old(self)@,
            match r {
                Ok(value) => !failed(status) && value == val,
                Err(message) => failed(status) && message@ == read_ksym_failure(Datum::U32, name@),
            },
    {
        if is_failure(status) {
            Err(read_ksym_failure_text(Datum::U32, name))
        } else {
            Ok(val)
        }
    }

    /// Settles a read of 64 bits at the kernel symbol `name`.
    pub fn vmi_read_64_ksym(
        &mut self,
        name: &str,
        status: u32,
        val: u64,
    ) -> (r: Result<u64, String>)
        ensures
            final(self)@ == old(self)@,
            match r {
                Ok(value) => !failed(status) && value == val,
                Err(message) => failed(status) && message@ == read_ksym_failure(Datum::U64, name@),
            },
    {
        if is_failure(status) {
            Err(read_ksym_failure_text(Datum::U64, name))
        } else {
            Ok(val)
        }
    }

    /// Settles a read of a string at the kernel symbol `name`, as
    /// [`VmiInstance::vmi_read_str_va`] does for an address.
    pub fn vmi_read_str_ksym(
        &mut self,
        name: &str,
        buffer: usize,
        contents: &[u8],
    ) -> (out: StrRead)
        ensures
            final(self)@ == old(self)@,
            match out.value {
                Ok(text) => {
                    &&& buffer != 0
                    &&& text@ == lossy_text(contents@)
                    &&& out.release == Some(NativeCall::Free { buffer })
                },
                Err(message) => {
                    &&& buffer == 0
                    &&& message@ == read_ksym_failure(Datum::Text, name@)
                    &&& out.release is None
                },
            },
    {
        if buffer == 0 {
            StrRead::refused(read_ksym_failure_text(Datum::Text, name))
        } else {
            StrRead::delivered(buffer, decode_lossy(contents))
        }
    }

    /// Gives the handle up: what is left of it is its teardown, which owes
    /// a resume if the guest is recorded as paused, and then the destroy.
    pub fn close(self) -> (teardown: Teardown)
        ensures
            teardown@ == teardown_plan(self@),
    {
        Teardown::begin(self.vmi, self.paused)
    }
}

} // verus!
