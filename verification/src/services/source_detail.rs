use vstd::pervasive::unreached;
use vstd::prelude::*;

use crate::domain::{AiRun, KnowledgeNode, Source};
use crate::ports::{answer_kind, kind_of, PortCall, PortReply, ReplyKind, Step};
use crate::services::summary::validate_source_id;
use crate::text::{is_blank, trim};

verus! {

/// A source with its latest AI run and the latest knowledge node drawn from it.
#[derive(Debug, Clone, PartialEq, Eq)]
pub struct SourceDetail {
    pub source: Source,
    pub latest_summary: Option<AiRun>,
    pub related_knowledge: Option<KnowledgeNode>,
}

/// Reading the detail of a source of the default workspace, without changing anything.
#[derive(Debug)]
pub enum SourceDetailFlow {
    AwaitWorkspace { source_id: String },
    AwaitSource { workspace_id: String },
    AwaitRun { workspace_id: String, source: Source },
    AwaitKnowledge { source: Source, latest_summary: Option<AiRun> },
}

impl SourceDetailFlow {
    /// The call of `s`, if any, is answered by the kind of reply that the flow then awaits.
    pub open spec fn pairs(s: Step<SourceDetailFlow, SourceDetail>) -> bool {
        s matches Step::Call(f, c) ==> f.awaited() == answer_kind(c)
    }

    pub open spec fn awaited(self) -> ReplyKind {
        match self {
            SourceDetailFlow::AwaitWorkspace { .. } => ReplyKind::Workspace,
            SourceDetailFlow::AwaitSource { .. } => ReplyKind::Source,
            SourceDetailFlow::AwaitRun { .. } => ReplyKind::MaybeAiRun,
            SourceDetailFlow::AwaitKnowledge { .. } => ReplyKind::MaybeKnowledge,
        }
    }

    pub open spec fn steps_to(self, reply: PortReply, s: Step<SourceDetailFlow, SourceDetail>) -> bool {
        match (self, reply) {
            (SourceDetailFlow::AwaitWorkspace { source_id }, PortReply::Workspace(r)) => match r {
                Err(e) => s == Step::<SourceDetailFlow, SourceDetail>::Done(Err(e)),
                Ok(w) => s == Step::<SourceDetailFlow, SourceDetail>::Call(
                    SourceDetailFlow::AwaitSource { workspace_id: w.id },
                    PortCall::FindSource { workspace_id: w.id, source_id },
                ),
            },
            (SourceDetailFlow::AwaitSource { workspace_id }, PortReply::Source(r)) => match r {
                Err(e) => s == Step::<SourceDetailFlow, SourceDetail>::Done(Err(e)),
                Ok(source) => s == Step::<SourceDetailFlow, SourceDetail>::Call(
                    SourceDetailFlow::AwaitRun { workspace_id, source },
                    PortCall::FindLatestAiRun { source_id: source.id },
                ),
            },
            (SourceDetailFlow::AwaitRun { workspace_id, source }, PortReply::MaybeAiRun(r)) => match r {
                Err(e) => s == Step::<SourceDetailFlow, SourceDetail>::Done(Err(e)),
                Ok(latest_summary) => s == Step::<SourceDetailFlow, SourceDetail>::Call(
                    SourceDetailFlow::AwaitKnowledge { source, latest_summary },
                    PortCall::FindLatestKnowledgeForSource { workspace_id, source_id: source.id },
                ),
            },
            (SourceDetailFlow::AwaitKnowledge { source, latest_summary }, PortReply::MaybeKnowledge(r)) => match r {
                Err(e) => s == Step::<SourceDetailFlow, SourceDetail>::Done(Err(e)),
                Ok(related_knowledge) => s == Step::<SourceDetailFlow, SourceDetail>::Done(
                    Ok(SourceDetail { source, latest_summary, related_knowledge }),
                ),
            },
            _ => false,
        }
    }

    /// Starts reading the source `source_id` (trimmed); a blank id is refused.
    pub fn start(source_id: String) -> (s: Step<SourceDetailFlow, SourceDetail>)
        ensures
            Self::pairs(s),
            is_blank(source_id@) ==> (s matches Step::Done(Err(e)) && e.is_validation(
                "source_id must not be empty"@,
            )),
            !is_blank(source_id@) ==> (s matches Step::Call(SourceDetailFlow::AwaitWorkspace { source_id: id }, c)
                && id@ == trim(source_id@) && c == PortCall::EnsureDefaultWorkspace),
    {
        match validate_source_id(source_id.as_str()) {
            Err(e) => Step::Done(Err(e)),
            Ok(id) => Step::Call(SourceDetailFlow::AwaitWorkspace { source_id: id }, PortCall::EnsureDefaultWorkspace),
        }
    }

    pub fn resume(self, reply: PortReply) -> (s: Step<SourceDetailFlow, SourceDetail>)
        requires
            kind_of(reply) == self.awaited(),
        ensures
            Self::pairs(s),
            self.steps_to(reply, s),
    {
        match (self, reply) {
            (SourceDetailFlow::AwaitWorkspace { source_id }, PortReply::Workspace(r)) => match r {
                Err(e) => Step::Done(Err(e)),
                Ok(w) => {
                    let workspace_id = w.id.clone();
                    Step::Call(
                        SourceDetailFlow::AwaitSource { workspace_id },
                        PortCall::FindSource { workspace_id: w.id, source_id },
                    )
                },
            },
            (SourceDetailFlow::AwaitSource { workspace_id }, PortReply::Source(r)) => match r {
                Err(e) => Step::Done(Err(e)),
                Ok(source) => {
                    let source_id = source.id.clone();
                    Step::Call(
                        SourceDetailFlow::AwaitRun { workspace_id, source },
                        PortCall::FindLatestAiRun { source_id },
                    )
                },
            },
            (SourceDetailFlow::AwaitRun { workspace_id, source }, PortReply::MaybeAiRun(r)) => match r {
                Err(e) => Step::Done(Err(e)),
                Ok(latest_summary) => {
                    let source_id = source.id.clone();
                    Step::Call(
                        SourceDetailFlow::AwaitKnowledge { source, latest_summary },
                        PortCall::FindLatestKnowledgeForSource { workspace_id, source_id },
                    )
                },
            },
            (SourceDetailFlow::AwaitKnowledge { source, latest_summary }, PortReply::MaybeKnowledge(r)) => match r {
                Err(e) => Step::Done(Err(e)),
                Ok(related_knowledge) => Step::Done(Ok(SourceDetail { source, latest_summary, related_knowledge })),
            },
            _ => unreached(),
        }
    }
}

} // verus!
