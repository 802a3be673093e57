use vstd::pervasive::unreached;
use vstd::prelude::*;

use crate::domain::{KnowledgeNode, KnowledgeStatusCounts, Source};
use crate::ports::{answer_kind, kind_of, PortCall, PortReply, ReplyKind, Step};

verus! {

/// How many recent knowledge nodes and inbox sources the dashboard shows.
pub const RECENT_ITEM_LIMIT: usize = 5;

/// An overview of the default workspace.
#[derive(Debug, Clone, PartialEq, Eq)]
pub struct DashboardSummary {
    pub inbox_unprocessed_count: usize,
    pub knowledge_counts: KnowledgeStatusCounts,
    pub recent_knowledge: Vec<KnowledgeNode>,
    pub recent_inbox_sources: Vec<Source>,
    pub obsidian_vault_configured: bool,
}

/// Gathering the dashboard of the default workspace. It only reads: no call it makes writes
/// a source, a knowledge node or the settings.
#[derive(Debug)]
pub enum DashboardFlow {
    AwaitWorkspace,
    AwaitInboxCount { workspace_id: String },
    AwaitCounts { workspace_id: String, inbox_unprocessed_count: usize },
    AwaitRecentKnowledge { workspace_id: String, inbox_unprocessed_count: usize, knowledge_counts: KnowledgeStatusCounts },
    AwaitRecentSources {
        workspace_id: String,
        inbox_unprocessed_count: usize,
        knowledge_counts: KnowledgeStatusCounts,
        recent_knowledge: Vec<KnowledgeNode>,
    },
    AwaitSettings {
        inbox_unprocessed_count: usize,
        knowledge_counts: KnowledgeStatusCounts,
        recent_knowledge: Vec<KnowledgeNode>,
        recent_inbox_sources: Vec<Source>,
    },
}

impl DashboardFlow {
    /// The call of `s`, if any, is answered by the kind of reply that the flow then awaits.
    pub open spec fn pairs(s: Step<DashboardFlow, DashboardSummary>) -> bool {
        s matches Step::Call(f, c) ==> f.awaited() == answer_kind(c)
    }

    pub open spec fn awaited(self) -> ReplyKind {
        match self {
            DashboardFlow::AwaitWorkspace => ReplyKind::Workspace,
            DashboardFlow::AwaitInboxCount { .. } => ReplyKind::Count,
            DashboardFlow::AwaitCounts { .. } => ReplyKind::KnowledgeCounts,
            DashboardFlow::AwaitRecentKnowledge { .. } => ReplyKind::KnowledgeList,
            DashboardFlow::AwaitRecentSources { .. } => ReplyKind::Sources,
            DashboardFlow::AwaitSettings { .. } => ReplyKind::MaybeObsidianSettings,
        }
    }

    pub open spec fn steps_to(self, reply: PortReply, s: Step<DashboardFlow, DashboardSummary>) -> bool {
        match (self, reply) {
            (DashboardFlow::AwaitWorkspace, PortReply::Workspace(r)) => match r {
                Err(e) => s == Step::<DashboardFlow, DashboardSummary>::Done(Err(e)),
                Ok(w) => s == Step::<DashboardFlow, DashboardSummary>::Call(
                    DashboardFlow::AwaitInboxCount { workspace_id: w.id },
                    PortCall::CountInboxSources { workspace_id: w.id },
                ),
            },
            (DashboardFlow::AwaitInboxCount { workspace_id }, PortReply::Count(r)) => match r {
                Err(e) => s == Step::<DashboardFlow, DashboardSummary>::Done(Err(e)),
                Ok(n) => s == Step::<DashboardFlow, DashboardSummary>::Call(
                    DashboardFlow::AwaitCounts { workspace_id, inbox_unprocessed_count: n },
                    PortCall::CountKnowledgeByStatus { workspace_id },
                ),
            },
            (DashboardFlow::AwaitCounts { workspace_id, inbox_unprocessed_count }, PortReply::KnowledgeCounts(r)) => match r {
                Err(e) => s == Step::<DashboardFlow, DashboardSummary>::Done(Err(e)),
                Ok(knowledge_counts) => s == Step::<DashboardFlow, DashboardSummary>::Call(
                    DashboardFlow::AwaitRecentKnowledge { workspace_id, inbox_unprocessed_count, knowledge_counts },
                    PortCall::ListKnowledgeNodes {
                        workspace_id,
                        status: None,
                        knowledge_type: None,
                        query: None,
                        limit: RECENT_ITEM_LIMIT,
                    },
                ),
            },
            (DashboardFlow::AwaitRecentKnowledge { workspace_id, inbox_unprocessed_count, knowledge_counts }, PortReply::KnowledgeList(r)) => match r {
                Err(e) => s == Step::<DashboardFlow, DashboardSummary>::Done(Err(e)),
                Ok(recent_knowledge) => s == Step::<DashboardFlow, DashboardSummary>::Call(
                    DashboardFlow::AwaitRecentSources { workspace_id, inbox_unprocessed_count, knowledge_counts, recent_knowledge },
                    PortCall::ListInboxSources { workspace_id, query: None, limit: RECENT_ITEM_LIMIT },
                ),
            },
            (DashboardFlow::AwaitRecentSources { workspace_id, inbox_unprocessed_count, knowledge_counts, recent_knowledge }, PortReply::Sources(r)) => match r {
                Err(e) => s == Step::<DashboardFlow, DashboardSummary>::Done(Err(e)),
                Ok(recent_inbox_sources) => s == Step::<DashboardFlow, DashboardSummary>::Call(
                    DashboardFlow::AwaitSettings { inbox_unprocessed_count, knowledge_counts, recent_knowledge, recent_inbox_sources },
                    PortCall::FindObsidianSettings { workspace_id },
                ),
            },
            (DashboardFlow::AwaitSettings { inbox_unprocessed_count, knowledge_counts, recent_knowledge, recent_inbox_sources }, PortReply::MaybeObsidianSettings(r)) => match r {
                Err(e) => s == Step::<DashboardFlow, DashboardSummary>::Done(Err(e)),
                Ok(settings) => s == Step::<DashboardFlow, DashboardSummary>::Done(
                    Ok(
                        DashboardSummary {
                            inbox_unprocessed_count,
                            knowledge_counts,
                            recent_knowledge,
                            recent_inbox_sources,
                            obsidian_vault_configured: settings is Some,
                        },
                    ),
                ),
            },
            _ => false,
        }
    }

    pub fn start() -> (s: Step<DashboardFlow, DashboardSummary>)
        ensures
            Self::pairs(s),
            s == Step::<DashboardFlow, DashboardSummary>::Call(DashboardFlow::AwaitWorkspace, PortCall::EnsureDefaultWorkspace),
    {
        Step::Call(DashboardFlow::AwaitWorkspace, PortCall::EnsureDefaultWorkspace)
    }

    pub fn resume(self, reply: PortReply) -> (s: Step<DashboardFlow, DashboardSummary>)
        requires
            kind_of(reply) == self.awaited(),
        ensures
            Self::pairs(s),
            self.steps_to(reply, s),
    {
        match (self, reply) {
            (DashboardFlow::AwaitWorkspace, PortReply::Workspace(r)) => match r {
                Err(e) => Step::Done(Err(e)),
                Ok(w) => {
                    let workspace_id = w.id.clone();
                    Step::Call(
                        DashboardFlow::AwaitInboxCount { workspace_id },
                        PortCall::CountInboxSources { workspace_id: w.id },
                    )
                },
            },
            (DashboardFlow::AwaitInboxCount { workspace_id }, PortReply::Count(r)) => match r {
                Err(e) => Step::Done(Err(e)),
                Ok(n) => {
                    let id = workspace_id.clone();
                    Step::Call(
                        DashboardFlow::AwaitCounts { workspace_id, inbox_unprocessed_count: n },
                        PortCall::CountKnowledgeByStatus { workspace_id: id },
                    )
                },
            },
            (DashboardFlow::AwaitCounts { workspace_id, inbox_unprocessed_count }, PortReply::KnowledgeCounts(r)) => match r {
                Err(e) => Step::Done(Err(e)),
                Ok(knowledge_counts) => {
                    let id = workspace_id.clone();
                    Step::Call(
                        DashboardFlow::AwaitRecentKnowledge { workspace_id, inbox_unprocessed_count, knowledge_counts },
                        PortCall::ListKnowledgeNodes {
                            workspace_id: id,
                            status: None,
                            knowledge_type: None,
                            query: None,
                            limit: RECENT_ITEM_LIMIT,
                        },
                    )
                },
            },
            (DashboardFlow::AwaitRecentKnowledge { workspace_id, inbox_unprocessed_count, knowledge_counts }, PortReply::KnowledgeList(r)) => match r {
                Err(e) => Step::Done(Err(e)),
                Ok(recent_knowledge) => {
                    let id = workspace_id.clone();
                    Step::Call(
                        DashboardFlow::AwaitRecentSources { workspace_id, inbox_unprocessed_count, knowledge_counts, recent_knowledge },
                        PortCall::ListInboxSources { workspace_id: id, query: None, limit: RECENT_ITEM_LIMIT },
                    )
                },
            },
            (DashboardFlow::AwaitRecentSources { workspace_id, inbox_unprocessed_count, knowledge_counts, recent_knowledge }, PortReply::Sources(r)) => match r {
                Err(e) => Step::Done(Err(e)),
                Ok(recent_inbox_sources) => Step::Call(
                    DashboardFlow::AwaitSettings { inbox_unprocessed_count, knowledge_counts, recent_knowledge, recent_inbox_sources },
                    PortCall::FindObsidianSettings { workspace_id },
                ),
            },
            (DashboardFlow::AwaitSettings { inbox_unprocessed_count, knowledge_counts, recent_knowledge, recent_inbox_sources }, PortReply::MaybeObsidianSettings(r)) => match r {
                Err(e) => Step::Done(Err(e)),
                Ok(settings) => Step::Done(
                    Ok(
                        DashboardSummary {
                            inbox_unprocessed_count,
                            knowledge_counts,
                            recent_knowledge,
                            recent_inbox_sources,
                            obsidian_vault_configured: settings.is_some(),
                        },
                    ),
                ),
            },
            _ => unreached(),
        }
    }
}

} // verus!
