//! The diagnostics of failed operations.
//!
//! A native failure carries nothing but its status, so each message is
//! composed here from the operation and its arguments.

use vstd::prelude::*;
use vstd::string::StringExecFns;
use crate::render::{decimal, push_decimal, push_upper_hex, upper_hex};

verus! {

/// What a memory read fetches from the guest.
#[derive(Clone, Copy, Debug, PartialEq, Eq, Structural)]
pub enum Datum {
    /// A guest address.
    Addr,
    /// An unsigned integer of 32 bits.
    U32,
    /// An unsigned integer of 64 bits.
    U64,
    /// A null-terminated string.
    Text,
}

impl Datum {
    /// The word a diagnostic uses for this kind of datum.
    pub open spec fn label(self) -> Seq<char> {
        match self {
            Datum::Addr => "addr"@,
            Datum::U32 => "u32"@,
            Datum::U64 => "u64"@,
            Datum::Text => "string"@,
        }
    }

    /// The word a diagnostic uses for this kind of datum.
    pub fn word(self) -> (s: &'static str)
        ensures
            s@ == self.label(),
    {
        match self {
            Datum::Addr => "addr",
            Datum::U32 => "u32",
            Datum::U64 => "u64",
            Datum::Text => "string",
        }
    }
}

/// Message of a failed pause.
pub open spec fn pause_failure() -> Seq<char> {
    "Unable to pause vm"@
}

/// Message of a failed resume.
pub open spec fn resume_failure() -> Seq<char> {
    "Unable to resume vm"@
}

/// Message of a failed lookup of the configuration offset `name`.
pub open spec fn offset_failure(name: Seq<char>) -> Seq<char> {
    "Unable to get offset \""@ + name + "\" from config"@
}

/// Message of a failed translation of the kernel symbol `name`.
pub open spec fn translate_failure(name: Seq<char>) -> Seq<char> {
    "Unable to translate kernel symbol \""@ + name + "\" to va"@
}

/// Message of a failed read at the virtual address `vaddr` of process `pid`:
/// the address in upper-case hexadecimal, the process id in decimal.
pub open spec fn read_va_failure(datum: Datum, vaddr: u64, pid: i32) -> Seq<char> {
    "Unable to read "@ + datum.label() + " from address 0x"@ + upper_hex(vaddr as nat)
        + " for PID "@ + decimal(pid as int)
}

/// Message of a failed read at the kernel symbol `name`.
pub open spec fn read_ksym_failure(datum: Datum, name: Seq<char>) -> Seq<char> {
    "Unable to read "@ + datum.label() + " from symbol "@ + name
}

/// Diagnostic of a teardown whose resume failed.
pub open spec fn teardown_resume_failure() -> Seq<char> {
    "Error while dropping VMI handle: "@ + resume_failure()
}

/// Diagnostic of a teardown whose destroy failed.
pub open spec fn teardown_destroy_failure() -> Seq<char> {
    "Unable to destroy handle before dropping"@
}

/// Composes the message of a failed pause.
pub fn pause_failure_text() -> (s: String)
    ensures
        s@ == pause_failure(),
{
    String::from_str("Unable to pause vm")
}

/// Composes the message of a failed resume.
pub fn resume_failure_text() -> (s: String)
    ensures
        s@ == resume_failure(),
{
    String::from_str("Unable to resume vm")
}

/// Composes the message of a failed offset lookup.
pub fn offset_failure_text(name: &str) -> (s: String)
    ensures
        s@ == offset_failure(name@),
{
    let mut s = String::from_str("Unable to get offset \"");
    s.append(name);
    s.append("\" from config");
    s
}

/// Composes the message of a failed symbol translation.
pub fn translate_failure_text(name: &str) -> (s: String)
    ensures
        s@ == translate_failure(name@),
{
    let mut s = String::from_str("Unable to translate kernel symbol \"");
    s.append(name);
    s.append("\" to va");
    s
}

/// Composes the message of a failed read by virtual address.
pub fn read_va_failure_text(datum: Datum, vaddr: u64, pid: i32) -> (s: String)
    ensures
        s@ == read_va_failure(datum, vaddr, pid),
{
    let mut s = String::from_str("Unable to read ");
    s.append(datum.word());
    s.append(" from address 0x");
    push_upper_hex(&mut s, vaddr);
    s.append(" for PID ");
    push_decimal(&mut s, pid);
    s
}

/// Composes the message of a failed read by kernel symbol.
pub fn read_ksym_failure_text(datum: Datum, name: &str) -> (s: String)
    ensures
        s@ == read_ksym_failure(datum, name@),
{
    let mut s = String::from_str("Unable to read ");
    s.append(datum.word());
    s.append(" from symbol ");
    s.append(name);
    s
}

/// Composes the diagnostic of a teardown whose resume failed.
pub fn teardown_resume_failure_text() -> (s: String)
    ensures
        s@ == teardown_resume_failure(),
{
    let mut s = String::from_str("Error while dropping VMI handle: ");
    s.append(resume_failure_text().as_str());
    s
}

/// Composes the diagnostic of a teardown whose destroy failed.
pub fn teardown_destroy_failure_text() -> (s: String)
    ensures
        s@ == teardown_destroy_failure(),
{
    String::from_str("Unable to destroy handle before dropping")
}

} // verus!
