//! The teardown of a session: resume what was paused, then destroy.
//!
//! A guest must not stay paused because its handle was given up, so a
//! teardown owes the resume before the destroy. It has nobody to fail to:
//! a native failure becomes a diagnostic line and the teardown goes on.

use vstd::prelude::*;
use crate::instance::Session;
use crate::message::{
    teardown_destroy_failure, teardown_destroy_failure_text, teardown_resume_failure,
    teardown_resume_failure_text,
};
use crate::native::{failed, is_failure, NativeCall};

verus! {

/// The native calls that the teardown of `session` makes, in order.
pub open spec fn teardown_plan(session: Session) -> Seq<NativeCall> {
    if session.paused {
        seq![
            NativeCall::ResumeVm { vmi: session.token },
            NativeCall::Destroy { vmi: session.token },
        ]
    } else {
        seq![NativeCall::Destroy { vmi: session.token }]
    }
}

/// The diagnostic of `call`, made during a teardown and returning `status`.
pub open spec fn teardown_diagnostic(call: NativeCall, status: u32) -> Option<Seq<char>> {
    if !failed(status) {
        None
    } else {
        match call {
            NativeCall::ResumeVm { .. } => Some(teardown_resume_failure()),
            NativeCall::Destroy { .. } => Some(teardown_destroy_failure()),
            NativeCall::Free { .. } => None,
        }
    }
}

enum Stage {
    Resume,
    Destroy,
    Done,
}

/// A teardown in progress. Its view is the calls it still owes.
pub struct Teardown {
    vmi: usize,
    stage: Stage,
}

impl View for Teardown {
    type V = Seq<NativeCall>;

    closed spec fn view(&self) -> Seq<NativeCall> {
        match self.stage {
            Stage::Resume => seq![
                NativeCall::ResumeVm { vmi: self.vmi },
                NativeCall::Destroy { vmi: self.vmi },
            ],
            Stage::Destroy => seq![NativeCall::Destroy { vmi: self.vmi }],
            Stage::Done => seq![],
        }
    }
}

impl Teardown {
    /// Begins the teardown of the session `vmi`.
    pub(crate) fn begin(vmi: usize, paused: bool) -> (teardown: Teardown)
        ensures
            teardown@ == teardown_plan(Session { token: vmi, paused }),
    {
        if paused {
            Teardown { vmi, stage: Stage::Resume }
        } else {
            Teardown { vmi, stage: Stage::Destroy }
        }
    }

    /// The call to make next, or `None` when the teardown is over.
    pub fn next_call(&self) -> (call: Option<NativeCall>)
        ensures
            call == (if self@.len() > 0 {
                Some(self@[0])
            } else {
                None
            }),
    {
        match self.stage {
            Stage::Resume => Some(NativeCall::ResumeVm { vmi: self.vmi }),
            Stage::Destroy => Some(NativeCall::Destroy { vmi: self.vmi }),
            Stage::Done => None,
        }
    }

    /// Records that the call owed next was made and returned `status`.
    ///
    /// Whatever the status, that call is owed no more and the rest still
    /// is. A failure yields the line to log.
    pub fn record(&mut self, status: u32) -> (line: Option<String>)
        ensures
            final(self)@ == (if old(self)@.len() > 0 {
                old(self)@.drop_first()
            } else {
                old(self)@
            }),
            match line {
                Some(text) => old(self)@.len() > 0 && teardown_diagnostic(old(self)@[0], status)
                    == Some(text@),
                None => old(self)@.len() == 0 || teardown_diagnostic(old(self)@[0], status)
                    is None,
            },
    {
        match self.stage {
            Stage::Resume => {
                self.stage = Stage::Destroy;
                assert(self@ =~= old(self)@.drop_first());
                if is_failure(status) {
                    Some(teardown_resume_failure_text())
                } else {
                    None
                }
            },
            Stage::Destroy => {
                self.stage = Stage::Done;
                assert(self@ =~= old(self)@.drop_first());
                if is_failure(status) {
                    Some(teardown_destroy_failure_text())
                } else {
                    None
                }
            },
            Stage::Done => None,
        }
    }
}

} // verus!
