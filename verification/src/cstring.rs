//! Names as the C interface takes them: bytes that end in a null byte and
//! hold no other.

use vstd::prelude::*;
use vstd::slice::slice_to_vec;
use vstd::string::StringSliceAdditionalSpecFns;

verus! {

/// Whether `bytes` can stand in front of a null terminator: no byte of them
/// is null.
pub open spec fn null_free(bytes: Seq<u8>) -> bool {
    forall|i: int| 0 <= i < bytes.len() ==> bytes[i] != 0
}

/// The null-terminated form of `bytes`.
pub open spec fn terminated(bytes: Seq<u8>) -> Seq<u8> {
    bytes.push(0u8)
}

/// Whether the bytes of `name` hold no null byte, so that `name` has a
/// null-terminated form.
pub fn is_c_name(name: &str) -> (b: bool)
    ensures
        b == null_free(name.spec_bytes()),
{
    let bytes = name.as_bytes();
    let mut i: usize = 0;
    while i < bytes.len()
        invariant
            bytes@ == name.spec_bytes(),
            i <= bytes@.len(),
            null_free(bytes@.take(i as int)),
        decreases bytes@.len() - i,
    {
        if bytes[i] == 0 {
            return false;
        }
        i = i + 1;
    }
    assert(bytes@.take(i as int) =~= bytes@);
    true
}

/// The null-terminated bytes of `name`, or `None` where `name` holds a null
/// byte and so has no such form.
pub fn c_string(name: &str) -> (r: Option<Vec<u8>>)
    ensures
        match r {
            Some(bytes) => null_free(name.spec_bytes()) && bytes@ == terminated(name.spec_bytes()),
            None => !null_free(name.spec_bytes()),
        },
{
    if is_c_name(name) {
        let mut bytes = slice_to_vec(name.as_bytes());
        bytes.push(0u8);
        Some(bytes)
    } else {
        None
    }
}

} // verus!
