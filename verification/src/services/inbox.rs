use vstd::pervasive::unreached;
use vstd::prelude::*;

use crate::domain::Source;
use crate::ports::{answer_kind, kind_of, PortCall, PortReply, ReplyKind, Step};

verus! {

/// Listing the inbox of the default workspace, optionally narrowed by a search query.
#[derive(Debug)]
pub enum InboxListFlow {
    AwaitWorkspace { query: Option<String>, limit: usize },
    AwaitSources,
}

impl InboxListFlow {
    /// The call of `s`, if any, is answered by the kind of reply that the flow then awaits.
    pub open spec fn pairs(s: Step<InboxListFlow, Vec<Source>>) -> bool {
        s matches Step::Call(f, c) ==> f.awaited() == answer_kind(c)
    }

    pub open spec fn awaited(self) -> ReplyKind {
        match self {
            InboxListFlow::AwaitWorkspace { .. } => ReplyKind::Workspace,
            InboxListFlow::AwaitSources => ReplyKind::Sources,
        }
    }

    pub open spec fn steps_to(self, reply: PortReply, s: Step<InboxListFlow, Vec<Source>>) -> bool {
        match (self, reply) {
            (InboxListFlow::AwaitWorkspace { query, limit }, PortReply::Workspace(r)) => match r {
                Err(e) => s == Step::<InboxListFlow, Vec<Source>>::Done(Err(e)),
                Ok(w) => s == Step::<InboxListFlow, Vec<Source>>::Call(
                    InboxListFlow::AwaitSources,
                    PortCall::ListInboxSources { workspace_id: w.id, query, limit },
                ),
            },
            (InboxListFlow::AwaitSources, PortReply::Sources(r)) => s == Step::<InboxListFlow, Vec<Source>>::Done(r),
            _ => false,
        }
    }

    /// Starts listing at most `limit` inbox sources that match `query`, which is handed to the
    /// storage as it is given.
    pub fn start(query: Option<String>, limit: usize) -> (s: Step<InboxListFlow, Vec<Source>>)
        ensures
            Self::pairs(s),
            s == Step::<InboxListFlow, Vec<Source>>::Call(
                InboxListFlow::AwaitWorkspace { query, limit },
                PortCall::EnsureDefaultWorkspace,
            ),
    {
        Step::Call(InboxListFlow::AwaitWorkspace { query, limit }, PortCall::EnsureDefaultWorkspace)
    }

    pub fn resume(self, reply: PortReply) -> (s: Step<InboxListFlow, Vec<Source>>)
        requires
            kind_of(reply) == self.awaited(),
        ensures
            Self::pairs(s),
            self.steps_to(reply, s),
    {
        match (self, reply) {
            (InboxListFlow::AwaitWorkspace { query, limit }, PortReply::Workspace(r)) => match r {
                Err(e) => Step::Done(Err(e)),
                Ok(w) => Step::Call(
                    InboxListFlow::AwaitSources,
                    PortCall::ListInboxSources { workspace_id: w.id, query, limit },
                ),
            },
            (InboxListFlow::AwaitSources, PortReply::Sources(r)) => Step::Done(r),
            _ => unreached(),
        }
    }
}

/// The call that records the inbox decision on `source_id` of `workspace_id`: processed when
/// `processed`, dismissed otherwise.
pub open spec fn marks_source(workspace_id: String, source_id: String, processed: bool) -> PortCall {
    if processed {
        PortCall::MarkSourceProcessed { workspace_id, source_id }
    } else {
        PortCall::MarkSourceDismissed { workspace_id, source_id }
    }
}

/// Taking a source of the default workspace out of the inbox, as processed or as dismissed.
#[derive(Debug)]
pub enum InboxDecisionFlow {
    AwaitWorkspace { source_id: String, processed: bool },
    AwaitSource,
}

impl InboxDecisionFlow {
    /// The call of `s`, if any, is answered by the kind of reply that the flow then awaits.
    pub open spec fn pairs(s: Step<InboxDecisionFlow, Source>) -> bool {
        s matches Step::Call(f, c) ==> f.awaited() == answer_kind(c)
    }

    pub open spec fn awaited(self) -> ReplyKind {
        match self {
            InboxDecisionFlow::AwaitWorkspace { .. } => ReplyKind::Workspace,
            InboxDecisionFlow::AwaitSource => ReplyKind::Source,
        }
    }

    pub open spec fn steps_to(self, reply: PortReply, s: Step<InboxDecisionFlow, Source>) -> bool {
        match (self, reply) {
            (InboxDecisionFlow::AwaitWorkspace { source_id, processed }, PortReply::Workspace(r)) => match r {
                Err(e) => s == Step::<InboxDecisionFlow, Source>::Done(Err(e)),
                Ok(w) => s == Step::<InboxDecisionFlow, Source>::Call(
                    InboxDecisionFlow::AwaitSource,
                    marks_source(w.id, source_id, processed),
                ),
            },
            (InboxDecisionFlow::AwaitSource, PortReply::Source(r)) => s == Step::<InboxDecisionFlow, Source>::Done(r),
            _ => false,
        }
    }

    fn begin(source_id: String, processed: bool) -> (s: Step<InboxDecisionFlow, Source>)
        ensures
            Self::pairs(s),
            s == Step::<InboxDecisionFlow, Source>::Call(
                InboxDecisionFlow::AwaitWorkspace { source_id, processed },
                PortCall::EnsureDefaultWorkspace,
            ),
    {
        Step::Call(InboxDecisionFlow::AwaitWorkspace { source_id, processed }, PortCall::EnsureDefaultWorkspace)
    }

    /// Starts marking the source `source_id` as processed.
    pub fn start_processed(source_id: String) -> (s: Step<InboxDecisionFlow, Source>)
        ensures
            Self::pairs(s),
            s == Step::<InboxDecisionFlow, Source>::Call(
                InboxDecisionFlow::AwaitWorkspace { source_id, processed: true },
                PortCall::EnsureDefaultWorkspace,
            ),
    {
        Self::begin(source_id, true)
    }

    /// Starts marking the source `source_id` as dismissed.
    pub fn start_dismissed(source_id: String) -> (s: Step<InboxDecisionFlow, Source>)
        ensures
            Self::pairs(s),
            s == Step::<InboxDecisionFlow, Source>::Call(
                InboxDecisionFlow::AwaitWorkspace { source_id, processed: false },
                PortCall::EnsureDefaultWorkspace,
            ),
    {
        Self::begin(source_id, false)
    }

    pub fn resume(self, reply: PortReply) -> (s: Step<InboxDecisionFlow, Source>)
        requires
            kind_of(reply) == self.awaited(),
        ensures
            Self::pairs(s),
            self.steps_to(reply, s),
    {
        match (self, reply) {
            (InboxDecisionFlow::AwaitWorkspace { source_id, processed }, PortReply::Workspace(r)) => match r {
                Err(e) => Step::Done(Err(e)),
                Ok(w) => {
                    let call = if processed {
                        PortCall::MarkSourceProcessed { workspace_id: w.id, source_id }
                    } else {
                        PortCall::MarkSourceDismissed { workspace_id: w.id, source_id }
                    };
                    Step::Call(InboxDecisionFlow::AwaitSource, call)
                },
            },
            (InboxDecisionFlow::AwaitSource, PortReply::Source(r)) => Step::Done(r),
            _ => unreached(),
        }
    }
}

} // verus!
