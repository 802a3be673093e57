use vstd::pervasive::unreached;
use vstd::prelude::*;

use crate::domain::{ExportRecord, KnowledgeNode, KnowledgeStatus};
use crate::error::AppError;
use crate::ports::{answer_kind, kind_of, PortCall, PortReply, ReplyKind, Step};
use crate::services::knowledge::validate_knowledge_id;
use crate::text::{concat3, is_blank, owned, trim};

verus! {

/// The error returned when an export failure could not be recorded either.
pub open spec fn unrecorded_export_failure(error: AppError, record_error: AppError) -> Seq<char> {
    error.display() + "; additionally failed to record the export failure: "@ + record_error.display()
}

/// Exporting an accepted knowledge node of the default workspace to the configured Obsidian
/// vault. Once the node is known to be accepted, every outcome is stored as an export record.
#[derive(Debug)]
pub enum ExportFlow {
    AwaitWorkspace { knowledge_id: String },
    AwaitNode { workspace_id: String },
    AwaitSettings { workspace_id: String, node: KnowledgeNode },
    AwaitWrite { workspace_id: String, node_workspace_id: String, node_id: String },
    AwaitRecord,
    AwaitFailureRecord { error: AppError },
}

impl ExportFlow {
    /// The call of `s`, if any, is answered by the kind of reply that the flow then awaits.
    pub open spec fn pairs(s: Step<ExportFlow, ExportRecord>) -> bool {
        s matches Step::Call(f, c) ==> f.awaited() == answer_kind(c)
    }

    pub open spec fn awaited(self) -> ReplyKind {
        match self {
            ExportFlow::AwaitWorkspace { .. } => ReplyKind::Workspace,
            ExportFlow::AwaitNode { .. } => ReplyKind::Knowledge,
            ExportFlow::AwaitSettings { .. } => ReplyKind::MaybeObsidianSettings,
            ExportFlow::AwaitWrite { .. } => ReplyKind::Written,
            ExportFlow::AwaitRecord => ReplyKind::Export,
            ExportFlow::AwaitFailureRecord { .. } => ReplyKind::Export,
        }
    }

    /// `s` stores a failed export of the node `node_id` of `workspace_id`, without a path and
    /// with the text of `error`, and then returns `error`.
    pub open spec fn fails_recording(
        s: Step<ExportFlow, ExportRecord>,
        workspace_id: String,
        node_id: String,
        error: AppError,
    ) -> bool {
        s matches Step::Call(ExportFlow::AwaitFailureRecord { error: held }, PortCall::InsertExportFailure {
            workspace_id: w,
            knowledge_node_id: k,
            export_path,
            error_message,
        }) && held == error && w == workspace_id && k == node_id && export_path is None
            && error_message@ == error.display()
    }

    pub open spec fn steps_to(self, reply: PortReply, s: Step<ExportFlow, ExportRecord>) -> bool {
        match (self, reply) {
            (ExportFlow::AwaitWorkspace { knowledge_id }, PortReply::Workspace(r)) => match r {
                Err(e) => s == Step::<ExportFlow, ExportRecord>::Done(Err(e)),
                Ok(w) => s == Step::<ExportFlow, ExportRecord>::Call(
                    ExportFlow::AwaitNode { workspace_id: w.id },
                    PortCall::FindKnowledgeNode { workspace_id: w.id, knowledge_id },
                ),
            },
            (ExportFlow::AwaitNode { workspace_id }, PortReply::Knowledge(r)) => match r {
                Err(e) => s == Step::<ExportFlow, ExportRecord>::Done(Err(e)),
                Ok(node) => if node.status != KnowledgeStatus::Accepted {
                    s matches Step::Done(Err(e)) && e.is_conflict(
                        "knowledge node "@ + node.id@ + " has status "@ + node.status.name()
                            + " and cannot be exported"@,
                    )
                } else {
                    s == Step::<ExportFlow, ExportRecord>::Call(
                        ExportFlow::AwaitSettings { workspace_id, node },
                        PortCall::FindObsidianSettings { workspace_id: node.workspace_id },
                    )
                },
            },
            (ExportFlow::AwaitSettings { workspace_id, node }, PortReply::MaybeObsidianSettings(r)) => match r {
                Err(e) => Self::fails_recording(s, node.workspace_id, node.id, e),
                Ok(None) => s matches Step::Call(ExportFlow::AwaitFailureRecord { error }, _)
                    && error.is_validation("Obsidian vault path is not configured for the current workspace"@)
                    && Self::fails_recording(s, node.workspace_id, node.id, error),
                Ok(Some(settings)) => s == Step::<ExportFlow, ExportRecord>::Call(
                    ExportFlow::AwaitWrite { workspace_id, node_workspace_id: node.workspace_id, node_id: node.id },
                    PortCall::WriteMarkdown { vault_path: settings.vault_path, knowledge: node },
                ),
            },
            (ExportFlow::AwaitWrite { workspace_id, node_workspace_id, node_id }, PortReply::Written(r)) => match r {
                Ok(export_path) => s == Step::<ExportFlow, ExportRecord>::Call(
                    ExportFlow::AwaitRecord,
                    PortCall::InsertExportSuccess { workspace_id, knowledge_node_id: node_id, export_path },
                ),
                Err(e) => Self::fails_recording(s, node_workspace_id, node_id, e),
            },
            (ExportFlow::AwaitRecord, PortReply::Export(r)) => s == Step::<ExportFlow, ExportRecord>::Done(r),
            (ExportFlow::AwaitFailureRecord { error }, PortReply::Export(r)) => match r {
                Ok(_) => s == Step::<ExportFlow, ExportRecord>::Done(Err(error)),
                Err(record_error) => s matches Step::Done(Err(e)) && e.is_state(
                    unrecorded_export_failure(error, record_error),
                ),
            },
            _ => false,
        }
    }

    /// Starts exporting the node `knowledge_id` (trimmed); a blank id is refused.
    pub fn start(knowledge_id: String) -> (s: Step<ExportFlow, ExportRecord>)
        ensures
            Self::pairs(s),
            is_blank(knowledge_id@) ==> (s matches Step::Done(Err(e)) && e.is_validation(
                "knowledge_id must not be empty"@,
            )),
            !is_blank(knowledge_id@) ==> (s matches Step::Call(ExportFlow::AwaitWorkspace { knowledge_id: id }, c)
                && id@ == trim(knowledge_id@) && c == PortCall::EnsureDefaultWorkspace),
    {
        match validate_knowledge_id(knowledge_id.as_str()) {
            Err(e) => Step::Done(Err(e)),
            Ok(id) => Step::Call(ExportFlow::AwaitWorkspace { knowledge_id: id }, PortCall::EnsureDefaultWorkspace),
        }
    }

    fn record_failure(workspace_id: String, node_id: String, error: AppError) -> (s: Step<ExportFlow, ExportRecord>)
        ensures
            Self::pairs(s),
            Self::fails_recording(s, workspace_id, node_id, error),
    {
        let error_message = error.to_display_string();
        Step::Call(
            ExportFlow::AwaitFailureRecord { error },
            PortCall::InsertExportFailure {
                workspace_id,
                knowledge_node_id: node_id,
                export_path: None,
                error_message,
            },
        )
    }

    pub fn resume(self, reply: PortReply) -> (s: Step<ExportFlow, ExportRecord>)
        requires
            kind_of(reply) == self.awaited(),
        ensures
            Self::pairs(s),
            self.steps_to(reply, s),
    {
        match (self, reply) {
            (ExportFlow::AwaitWorkspace { knowledge_id }, PortReply::Workspace(r)) => match r {
                Err(e) => Step::Done(Err(e)),
                Ok(w) => {
                    let workspace_id = w.id.clone();
                    Step::Call(
                        ExportFlow::AwaitNode { workspace_id },
                        PortCall::FindKnowledgeNode { workspace_id: w.id, knowledge_id },
                    )
                },
            },
            (ExportFlow::AwaitNode { workspace_id }, PortReply::Knowledge(r)) => match r {
                Err(e) => Step::Done(Err(e)),
                Ok(node) => {
                    if node.status != KnowledgeStatus::Accepted {
                        let mut message = concat3("knowledge node ", node.id.as_str(), " has status ");
                        message.append(node.status.as_str());
                        message.append(" and cannot be exported");
                        return Step::Done(Err(AppError::Conflict(message)));
                    }
                    let node_workspace_id = node.workspace_id.clone();
                    Step::Call(
                        ExportFlow::AwaitSettings { workspace_id, node },
                        PortCall::FindObsidianSettings { workspace_id: node_workspace_id },
                    )
                },
            },
            (ExportFlow::AwaitSettings { workspace_id, node }, PortReply::MaybeObsidianSettings(r)) => match r {
                Err(e) => Self::record_failure(node.workspace_id, node.id, e),
                Ok(None) => Self::record_failure(
                    node.workspace_id,
                    node.id,
                    AppError::Validation(owned("Obsidian vault path is not configured for the current workspace")),
                ),
                Ok(Some(settings)) => {
                    let node_workspace_id = node.workspace_id.clone();
                    let node_id = node.id.clone();
                    Step::Call(
                        ExportFlow::AwaitWrite { workspace_id, node_workspace_id, node_id },
                        PortCall::WriteMarkdown { vault_path: settings.vault_path, knowledge: node },
                    )
                },
            },
            (ExportFlow::AwaitWrite { workspace_id, node_workspace_id, node_id }, PortReply::Written(r)) => match r {
                Ok(export_path) => Step::Call(
                    ExportFlow::AwaitRecord,
                    PortCall::InsertExportSuccess { workspace_id, knowledge_node_id: node_id, export_path },
                ),
                Err(e) => Self::record_failure(node_workspace_id, node_id, e),
            },
            (ExportFlow::AwaitRecord, PortReply::Export(r)) => Step::Done(r),
            (ExportFlow::AwaitFailureRecord { error }, PortReply::Export(r)) => match r {
                Ok(_) => Step::Done(Err(error)),
                Err(record_error) => {
                    let message = concat3(
                        error.to_display_string().as_str(),
                        "; additionally failed to record the export failure: ",
                        record_error.to_display_string().as_str(),
                    );
                    Step::Done(Err(AppError::State(message)))
                },
            },
            _ => unreached(),
        }
    }
}

/// Reading the latest export record of a knowledge node of the default workspace.
#[derive(Debug)]
pub enum LatestExportFlow {
    AwaitWorkspace { knowledge_id: String },
    AwaitRecord,
}

impl LatestExportFlow {
    /// The call of `s`, if any, is answered by the kind of reply that the flow then awaits.
    pub open spec fn pairs(s: Step<LatestExportFlow, Option<ExportRecord>>) -> bool {
        s matches Step::Call(f, c) ==> f.awaited() == answer_kind(c)
    }

    pub open spec fn awaited(self) -> ReplyKind {
        match self {
            LatestExportFlow::AwaitWorkspace { .. } => ReplyKind::Workspace,
            LatestExportFlow::AwaitRecord => ReplyKind::MaybeExport,
        }
    }

    pub open spec fn steps_to(self, reply: PortReply, s: Step<LatestExportFlow, Option<ExportRecord>>) -> bool {
        match (self, reply) {
            (LatestExportFlow::AwaitWorkspace { knowledge_id }, PortReply::Workspace(r)) => match r {
                Err(e) => s == Step::<LatestExportFlow, Option<ExportRecord>>::Done(Err(e)),
                Ok(w) => s == Step::<LatestExportFlow, Option<ExportRecord>>::Call(
                    LatestExportFlow::AwaitRecord,
                    PortCall::FindLatestExport { workspace_id: w.id, knowledge_node_id: knowledge_id },
                ),
            },
            (LatestExportFlow::AwaitRecord, PortReply::MaybeExport(r)) => s
                == Step::<LatestExportFlow, Option<ExportRecord>>::Done(r),
            _ => false,
        }
    }

    /// Starts reading the latest export of the node `knowledge_id` (trimmed); a blank id is
    /// refused.
    pub fn start(knowledge_id: String) -> (s: Step<LatestExportFlow, Option<ExportRecord>>)
        ensures
            Self::pairs(s),
            is_blank(knowledge_id@) ==> (s matches Step::Done(Err(e)) && e.is_validation(
                "knowledge_id must not be empty"@,
            )),
            !is_blank(knowledge_id@) ==> (s matches Step::Call(LatestExportFlow::AwaitWorkspace { knowledge_id: id }, c)
                && id@ == trim(knowledge_id@) && c == PortCall::EnsureDefaultWorkspace),
    {
        match validate_knowledge_id(knowledge_id.as_str()) {
            Err(e) => Step::Done(Err(e)),
            Ok(id) => Step::Call(LatestExportFlow::AwaitWorkspace { knowledge_id: id }, PortCall::EnsureDefaultWorkspace),
        }
    }

    pub fn resume(self, reply: PortReply) -> (s: Step<LatestExportFlow, Option<ExportRecord>>)
        requires
            kind_of(reply) == self.awaited(),
        ensures
            Self::pairs(s),
            self.steps_to(reply, s),
    {
        match (self, reply) {
            (LatestExportFlow::AwaitWorkspace { knowledge_id }, PortReply::Workspace(r)) => match r {
                Err(e) => Step::Done(Err(e)),
                Ok(w) => Step::Call(
                    LatestExportFlow::AwaitRecord,
                    PortCall::FindLatestExport { workspace_id: w.id, knowledge_node_id: knowledge_id },
                ),
            },
            (LatestExportFlow::AwaitRecord, PortReply::MaybeExport(r)) => Step::Done(r),
            _ => unreached(),
        }
    }
}

} // verus!
