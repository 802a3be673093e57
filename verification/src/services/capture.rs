use vstd::pervasive::unreached;
use vstd::prelude::*;

use crate::domain::Source;
use crate::error::AppError;
use crate::ports::{answer_kind, kind_of, PortCall, PortReply, ReplyKind, Step};
use crate::text::{is_blank, is_blank_str, owned};

verus! {

/// Capturing a text source into the default workspace.
#[derive(Debug)]
pub enum CaptureTextFlow {
    AwaitWorkspace { raw_content: String },
    AwaitInsert,
}

impl CaptureTextFlow {
    /// The call of `s`, if any, is answered by the kind of reply that the flow then awaits.
    pub open spec fn pairs(s: Step<CaptureTextFlow, Source>) -> bool {
        s matches Step::Call(f, c) ==> f.awaited() == answer_kind(c)
    }

    /// The kind of reply that the flow waits for.
    pub open spec fn awaited(self) -> ReplyKind {
        match self {
            CaptureTextFlow::AwaitWorkspace { .. } => ReplyKind::Workspace,
            CaptureTextFlow::AwaitInsert => ReplyKind::Source,
        }
    }

    /// Starts capturing `raw_content`; text that is only white space is refused.
    pub fn start(raw_content: String) -> (s: Step<CaptureTextFlow, Source>)
        ensures
            Self::pairs(s),
            is_blank(raw_content@) ==> (s matches Step::Done(Err(e)) && e.is_validation(
                "raw_content must not be empty"@,
            )),
            !is_blank(raw_content@) ==> s == Step::<CaptureTextFlow, Source>::Call(
                CaptureTextFlow::AwaitWorkspace { raw_content },
                PortCall::EnsureDefaultWorkspace,
            ),
    {
        if is_blank_str(raw_content.as_str()) {
            return Step::Done(Err(AppError::Validation(owned("raw_content must not be empty"))));
        }
        Step::Call(CaptureTextFlow::AwaitWorkspace { raw_content }, PortCall::EnsureDefaultWorkspace)
    }

    /// Goes on with the reply to the last call: the source is stored, unchanged and without
    /// metadata, in the default workspace, and the stored source is the result.
    pub fn resume(self, reply: PortReply) -> (s: Step<CaptureTextFlow, Source>)
        requires
            kind_of(reply) == self.awaited(),
        ensures
            Self::pairs(s),
            match (self, reply) {
                (CaptureTextFlow::AwaitWorkspace { raw_content }, PortReply::Workspace(r)) => match r {
                    Ok(w) => s == Step::<CaptureTextFlow, Source>::Call(
                        CaptureTextFlow::AwaitInsert,
                        PortCall::InsertTextSource { workspace_id: w.id, raw_content, metadata_json: None },
                    ),
                    Err(e) => s == Step::<CaptureTextFlow, Source>::Done(Err(e)),
                },
                (CaptureTextFlow::AwaitInsert, PortReply::Source(r)) => s == Step::<CaptureTextFlow, Source>::Done(r),
                _ => false,
            },
    {
        match (self, reply) {
            (CaptureTextFlow::AwaitWorkspace { raw_content }, PortReply::Workspace(r)) => match r {
                Ok(w) => Step::Call(
                    CaptureTextFlow::AwaitInsert,
                    PortCall::InsertTextSource { workspace_id: w.id, raw_content, metadata_json: None },
                ),
                Err(e) => Step::Done(Err(e)),
            },
            (CaptureTextFlow::AwaitInsert, PortReply::Source(r)) => Step::Done(r),
            _ => unreached(),
        }
    }
}

} // verus!
