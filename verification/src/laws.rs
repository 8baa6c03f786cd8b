//! What holds of every session, proved from the definitions the contracts
//! are stated in.

use vstd::prelude::*;
use vstd::utf8::{
    decode_utf8_encode_utf8, encode_scalar, encode_utf8, encode_utf8_decode_utf8,
    encode_utf8_valid_utf8, valid_utf8,
};
use crate::cstring::null_free;
use crate::decode::lossy_text;
use crate::instance::Session;
use crate::native::NativeCall;
use crate::teardown::teardown_plan;

verus! {

/// How many of `calls` resume a guest.
pub open spec fn resumes(calls: Seq<NativeCall>) -> nat {
    calls.filter(|call: NativeCall| call is ResumeVm).len()
}

/// How many of `calls` destroy a session.
pub open spec fn destroys(calls: Seq<NativeCall>) -> nat {
    calls.filter(|call: NativeCall| call is Destroy).len()
}

/// A teardown resumes the guest once if the guest is recorded as paused,
/// and not at all if it is not. It destroys the session once, as its last
/// call, and makes no call on anything but its own session.
pub proof fn teardown_resumes_paused_then_destroys(session: Session)
    ensures
        resumes(teardown_plan(session)) == (if session.paused {
            1nat
        } else {
            0nat
        }),
        destroys(teardown_plan(session)) == 1,
        teardown_plan(session).last() == (NativeCall::Destroy { vmi: session.token }),
        forall|i: int|
            0 <= i < teardown_plan(session).len() ==> {
                ||| teardown_plan(session)[i] == (NativeCall::ResumeVm { vmi: session.token })
                ||| teardown_plan(session)[i] == (NativeCall::Destroy { vmi: session.token })
            },
{
    let resume = NativeCall::ResumeVm { vmi: session.token };
    let destroy = NativeCall::Destroy { vmi: session.token };
    let is_resume = |call: NativeCall| call is ResumeVm;
    let is_destroy = |call: NativeCall| call is Destroy;
    reveal_with_fuel(Seq::filter, 3);
    if session.paused {
        let plan = seq![resume, destroy];
        assert(plan.drop_last() =~= seq![resume]);
        assert(seq![resume].drop_last() =~= Seq::<NativeCall>::empty());
        assert(plan.filter(is_resume) =~= seq![resume]);
        assert(plan.filter(is_destroy) =~= seq![destroy]);
    } else {
        let plan = seq![destroy];
        assert(plan.drop_last() =~= Seq::<NativeCall>::empty());
        assert(plan.filter(is_resume) =~= Seq::<NativeCall>::empty());
        assert(plan.filter(is_destroy) =~= seq![destroy]);
    }
}

/// Text that lies in guest memory as UTF-8 is read back as it was written.
pub proof fn written_text_reads_back(text: Seq<char>)
    ensures
        lossy_text(encode_utf8(text)) == text,
{
    encode_utf8_valid_utf8(text);
    encode_utf8_decode_utf8(text);
}

/// Well-formed UTF-8 in guest memory is read as the text that encodes to
/// those very bytes: nothing is replaced.
pub proof fn well_formed_bytes_read_back(bytes: Seq<u8>)
    requires
        valid_utf8(bytes),
    ensures
        encode_utf8(lossy_text(bytes)) == bytes,
{
    decode_utf8_encode_utf8(bytes);
}

/// The encoding of a character holds a null byte only if the character is
/// U+0000.
proof fn scalar_null_free(c: char)
    ensures
        null_free(encode_scalar(c as u32)) <==> c != '\0',
{
    let v = c as u32;
    assert(v <= 0x7F ==> ((v & 0x7F) as u8 == 0 <==> v == 0)) by (bit_vector);
    assert((0xC0u8 | ((v >> 6) & 0x1F) as u8) != 0) by (bit_vector);
    assert((0xE0u8 | ((v >> 12) & 0x0F) as u8) != 0) by (bit_vector);
    assert((0xF0u8 | ((v >> 18) & 0x7) as u8) != 0) by (bit_vector);
    assert((0x80u8 | (v & 0x3F) as u8) != 0) by (bit_vector);
    assert((0x80u8 | ((v >> 6) & 0x3F) as u8) != 0) by (bit_vector);
    assert((0x80u8 | ((v >> 12) & 0x3F) as u8) != 0) by (bit_vector);
    if c == '\0' {
        assert(encode_scalar(v)[0] == 0);
    }
}

/// A name has a null-terminated form, and so can be the name of a session,
/// exactly if none of its characters is U+0000.
pub proof fn name_is_null_free_iff_no_null_char(name: Seq<char>)
    ensures
        null_free(encode_utf8(name)) <==> (forall|i: int| 0 <= i < name.len() ==> name[i] != '\0'),
    decreases name.len(),
{
    if name.len() > 0 {
        let head = encode_scalar(name[0] as u32);
        let tail = encode_utf8(name.drop_first());
        scalar_null_free(name[0]);
        name_is_null_free_iff_no_null_char(name.drop_first());
        assert(encode_utf8(name) == head + tail);
        if null_free(head + tail) {
            assert forall|i: int| 0 <= i < head.len() implies head[i] != 0 by {
                assert((head + tail)[i] == head[i]);
            }
            assert forall|i: int| 0 <= i < tail.len() implies tail[i] != 0 by {
                assert((head + tail)[i + head.len()] == tail[i]);
            }
            assert forall|i: int| 0 <= i < name.len() implies name[i] != '\0' by {
                if i > 0 {
                    assert(name.drop_first()[i - 1] == name[i]);
                }
            }
        }
        if forall|i: int| 0 <= i < name.len() ==> name[i] != '\0' {
            assert forall|i: int| 0 <= i < name.drop_first().len() implies name.drop_first()[i]
                != '\0' by {
                assert(name.drop_first()[i] == name[i + 1]);
            }
            assert(null_free(head));
            assert(null_free(tail));
            assert(null_free(head + tail));
        }
    }
}

} // verus!
