use vstd::prelude::*;

use crate::domain::{
    AiRun, ExportRecord, KnowledgeNode, KnowledgeStatus, KnowledgeStatusCounts, KnowledgeType,
    ObsidianSettings, Prompt, PromptVersion, ProviderModelListResult, ProviderSettings,
    ProviderType, Source, Workspace,
};
use crate::error::AppError;
use crate::text::owned;

verus! {

/// Why the text of a PDF could not be extracted.
#[derive(Debug, Clone, PartialEq, Eq)]
pub enum PdfTextExtractionError {
    Encrypted,
    Invalid(String),
}

impl PdfTextExtractionError {
    /// The text that describes the error: a fixed sentence for an encrypted file, the
    /// extractor's own message for a damaged one.
    pub open spec fn display(self) -> Seq<char> {
        match self {
            PdfTextExtractionError::Encrypted => "PDF is encrypted"@,
            PdfTextExtractionError::Invalid(m) => m@,
        }
    }

    /// The text that describes the error, as `display` states it.
    pub fn to_display_string(&self) -> (s: String)
        ensures
            s@ == self.display(),
    {
        match self {
            PdfTextExtractionError::Encrypted => owned("PDF is encrypted"),
            PdfTextExtractionError::Invalid(m) => m.clone(),
        }
    }
}

/// What the file system reports of a path.
#[derive(Debug, Clone, Copy, PartialEq, Eq, Structural)]
pub enum PathInfo {
    /// Nothing exists at the path.
    Missing,
    /// The path exists but its metadata could not be read.
    Inaccessible,
    /// The path exists: whether it is a directory or a regular file, and its length in bytes.
    Found { is_dir: bool, is_file: bool, len: u64 },
}

/// A request that a workflow makes of the storage, the credential store, an AI provider, the
/// file system or the PDF extractor. The caller performs it and answers with a `PortReply`.
#[derive(Debug)]
pub enum PortCall {
    EnsureDefaultWorkspace,
    InsertTextSource { workspace_id: String, raw_content: String, metadata_json: Option<String> },
    InsertPdfSource { workspace_id: String, extracted_text: String, metadata_json: String },
    ListInboxSources { workspace_id: String, query: Option<String>, limit: usize },
    CountInboxSources { workspace_id: String },
    FindSource { workspace_id: String, source_id: String },
    MarkSourceProcessed { workspace_id: String, source_id: String },
    MarkSourceDismissed { workspace_id: String, source_id: String },
    InsertAiRunSuccess {
        source_id: String,
        prompt_version_id: String,
        provider_type: ProviderType,
        model: String,
        output_text: String,
    },
    InsertAiRunFailure {
        source_id: String,
        prompt_version_id: Option<String>,
        provider_type: Option<ProviderType>,
        model: Option<String>,
        error_message: String,
    },
    FindLatestAiRun { source_id: String },
    FindLatestSucceededAiRun { source_id: String },
    FindKnowledgeNode { workspace_id: String, knowledge_id: String },
    InsertManualNode {
        workspace_id: String,
        title: String,
        content: String,
        knowledge_type: KnowledgeType,
    },
    InsertProposedNode {
        workspace_id: String,
        ai_run_id: String,
        title: String,
        content: String,
        knowledge_type: KnowledgeType,
    },
    AcceptProposedNode { workspace_id: String, knowledge_id: String },
    ArchiveProposedNode { workspace_id: String, knowledge_id: String },
    ListKnowledgeNodes {
        workspace_id: String,
        status: Option<KnowledgeStatus>,
        knowledge_type: Option<KnowledgeType>,
        query: Option<String>,
        limit: usize,
    },
    CountKnowledgeByStatus { workspace_id: String },
    FindLatestKnowledgeForSource { workspace_id: String, source_id: String },
    InsertExportSuccess { workspace_id: String, knowledge_node_id: String, export_path: String },
    InsertExportFailure {
        workspace_id: String,
        knowledge_node_id: String,
        export_path: Option<String>,
        error_message: String,
    },
    FindLatestExport { workspace_id: String, knowledge_node_id: String },
    FindObsidianSettings { workspace_id: String },
    UpsertObsidianSettings { workspace_id: String, vault_path: String },
    WriteMarkdown { vault_path: String, knowledge: KnowledgeNode },
    InspectPath { path: String },
    HasObsidianDirectory { vault_path: String },
    FindPromptByKey { prompt_key: String },
    GetActivePromptVersion { prompt_id: String },
    ListPromptVersions { prompt_id: String },
    CreatePromptVersion { prompt_id: String, prompt_content: String },
    SetActivePromptVersion { prompt_id: String, version_id: String },
    GetProviderSettings,
    SaveProviderSettings { provider_type: ProviderType, default_model: String },
    GetApiKey { provider_type: ProviderType },
    SetApiKey { provider_type: ProviderType, api_key: String },
    TestConnection { provider_type: ProviderType, api_key: String },
    ListProviderModels { provider_type: ProviderType, api_key: String },
    GenerateText {
        provider_type: ProviderType,
        model_id: String,
        api_key: String,
        system_prompt: String,
        user_content: String,
    },
    ExtractPdfText { path: String },
}

/// The outcome of a `PortCall`.
#[derive(Debug)]
pub enum PortReply {
    Workspace(Result<Workspace, AppError>),
    Source(Result<Source, AppError>),
    Sources(Result<Vec<Source>, AppError>),
    Count(Result<usize, AppError>),
    AiRun(Result<AiRun, AppError>),
    MaybeAiRun(Result<Option<AiRun>, AppError>),
    Knowledge(Result<KnowledgeNode, AppError>),
    KnowledgeList(Result<Vec<KnowledgeNode>, AppError>),
    KnowledgeCounts(Result<KnowledgeStatusCounts, AppError>),
    MaybeKnowledge(Result<Option<KnowledgeNode>, AppError>),
    Export(Result<ExportRecord, AppError>),
    MaybeExport(Result<Option<ExportRecord>, AppError>),
    MaybeObsidianSettings(Result<Option<ObsidianSettings>, AppError>),
    ObsidianSettings(Result<ObsidianSettings, AppError>),
    Written(Result<String, AppError>),
    Path(PathInfo),
    Flag(bool),
    MaybePrompt(Result<Option<Prompt>, AppError>),
    Prompt(Result<Prompt, AppError>),
    MaybePromptVersion(Result<Option<PromptVersion>, AppError>),
    PromptVersions(Result<Vec<PromptVersion>, AppError>),
    PromptVersion(Result<PromptVersion, AppError>),
    MaybeProviderSettings(Result<Option<ProviderSettings>, AppError>),
    ProviderSettings(Result<ProviderSettings, AppError>),
    MaybeApiKey(Result<Option<String>, AppError>),
    Unit(Result<(), AppError>),
    Models(ProviderModelListResult),
    Generated(Result<String, AppError>),
    Extracted(Result<String, PdfTextExtractionError>),
}

/// The shape of a `PortReply`, without its contents.
#[derive(Debug, Clone, Copy, PartialEq, Eq, Structural)]
pub enum ReplyKind {
    Workspace,
    Source,
    Sources,
    Count,
    AiRun,
    MaybeAiRun,
    Knowledge,
    KnowledgeList,
    KnowledgeCounts,
    MaybeKnowledge,
    Export,
    MaybeExport,
    MaybeObsidianSettings,
    ObsidianSettings,
    Written,
    Path,
    Flag,
    MaybePrompt,
    Prompt,
    MaybePromptVersion,
    PromptVersions,
    PromptVersion,
    MaybeProviderSettings,
    ProviderSettings,
    MaybeApiKey,
    Unit,
    Models,
    Generated,
    Extracted,
}

/// The kind of reply that answers a call.
pub open spec fn answer_kind(call: PortCall) -> ReplyKind {
    match call {
        PortCall::EnsureDefaultWorkspace => ReplyKind::Workspace,
        PortCall::InsertTextSource { .. } => ReplyKind::Source,
        PortCall::InsertPdfSource { .. } => ReplyKind::Source,
        PortCall::ListInboxSources { .. } => ReplyKind::Sources,
        PortCall::CountInboxSources { .. } => ReplyKind::Count,
        PortCall::FindSource { .. } => ReplyKind::Source,
        PortCall::MarkSourceProcessed { .. } => ReplyKind::Source,
        PortCall::MarkSourceDismissed { .. } => ReplyKind::Source,
        PortCall::InsertAiRunSuccess { .. } => ReplyKind::AiRun,
        PortCall::InsertAiRunFailure { .. } => ReplyKind::AiRun,
        PortCall::FindLatestAiRun { .. } => ReplyKind::MaybeAiRun,
        PortCall::FindLatestSucceededAiRun { .. } => ReplyKind::MaybeAiRun,
        PortCall::FindKnowledgeNode { .. } => ReplyKind::Knowledge,
        PortCall::InsertManualNode { .. } => ReplyKind::Knowledge,
        PortCall::InsertProposedNode { .. } => ReplyKind::Knowledge,
        PortCall::AcceptProposedNode { .. } => ReplyKind::Knowledge,
        PortCall::ArchiveProposedNode { .. } => ReplyKind::Knowledge,
        PortCall::ListKnowledgeNodes { .. } => ReplyKind::KnowledgeList,
        PortCall::CountKnowledgeByStatus { .. } => ReplyKind::KnowledgeCounts,
        PortCall::FindLatestKnowledgeForSource { .. } => ReplyKind::MaybeKnowledge,
        PortCall::InsertExportSuccess { .. } => ReplyKind::Export,
        PortCall::InsertExportFailure { .. } => ReplyKind::Export,
        PortCall::FindLatestExport { .. } => ReplyKind::MaybeExport,
        PortCall::FindObsidianSettings { .. } => ReplyKind::MaybeObsidianSettings,
        PortCall::UpsertObsidianSettings { .. } => ReplyKind::ObsidianSettings,
        PortCall::WriteMarkdown { .. } => ReplyKind::Written,
        PortCall::InspectPath { .. } => ReplyKind::Path,
        PortCall::HasObsidianDirectory { .. } => ReplyKind::Flag,
        PortCall::FindPromptByKey { .. } => ReplyKind::MaybePrompt,
        PortCall::GetActivePromptVersion { .. } => ReplyKind::MaybePromptVersion,
        PortCall::ListPromptVersions { .. } => ReplyKind::PromptVersions,
        PortCall::CreatePromptVersion { .. } => ReplyKind::PromptVersion,
        PortCall::SetActivePromptVersion { .. } => ReplyKind::Prompt,
        PortCall::GetProviderSettings => ReplyKind::MaybeProviderSettings,
        PortCall::SaveProviderSettings { .. } => ReplyKind::ProviderSettings,
        PortCall::GetApiKey { .. } => ReplyKind::MaybeApiKey,
        PortCall::SetApiKey { .. } => ReplyKind::Unit,
        PortCall::TestConnection { .. } => ReplyKind::Unit,
        PortCall::ListProviderModels { .. } => ReplyKind::Models,
        PortCall::GenerateText { .. } => ReplyKind::Generated,
        PortCall::ExtractPdfText { .. } => ReplyKind::Extracted,
    }
}

/// The kind of a reply.
pub open spec fn kind_of(reply: PortReply) -> ReplyKind {
    match reply {
        PortReply::Workspace(_) => ReplyKind::Workspace,
        PortReply::Source(_) => ReplyKind::Source,
        PortReply::Sources(_) => ReplyKind::Sources,
        PortReply::Count(_) => ReplyKind::Count,
        PortReply::AiRun(_) => ReplyKind::AiRun,
        PortReply::MaybeAiRun(_) => ReplyKind::MaybeAiRun,
        PortReply::Knowledge(_) => ReplyKind::Knowledge,
        PortReply::KnowledgeList(_) => ReplyKind::KnowledgeList,
        PortReply::KnowledgeCounts(_) => ReplyKind::KnowledgeCounts,
        PortReply::MaybeKnowledge(_) => ReplyKind::MaybeKnowledge,
        PortReply::Export(_) => ReplyKind::Export,
        PortReply::MaybeExport(_) => ReplyKind::MaybeExport,
        PortReply::MaybeObsidianSettings(_) => ReplyKind::MaybeObsidianSettings,
        PortReply::ObsidianSettings(_) => ReplyKind::ObsidianSettings,
        PortReply::Written(_) => ReplyKind::Written,
        PortReply::Path(_) => ReplyKind::Path,
        PortReply::Flag(_) => ReplyKind::Flag,
        PortReply::MaybePrompt(_) => ReplyKind::MaybePrompt,
        PortReply::Prompt(_) => ReplyKind::Prompt,
        PortReply::MaybePromptVersion(_) => ReplyKind::MaybePromptVersion,
        PortReply::PromptVersions(_) => ReplyKind::PromptVersions,
        PortReply::PromptVersion(_) => ReplyKind::PromptVersion,
        PortReply::MaybeProviderSettings(_) => ReplyKind::MaybeProviderSettings,
        PortReply::ProviderSettings(_) => ReplyKind::ProviderSettings,
        PortReply::MaybeApiKey(_) => ReplyKind::MaybeApiKey,
        PortReply::Unit(_) => ReplyKind::Unit,
        PortReply::Models(_) => ReplyKind::Models,
        PortReply::Generated(_) => ReplyKind::Generated,
        PortReply::Extracted(_) => ReplyKind::Extracted,
    }
}

impl PortCall {
    /// The kind of reply that answers this call.
    pub fn reply_kind(&self) -> (k: ReplyKind)
        ensures
            k == answer_kind(*self),
    {
        match self {
            PortCall::EnsureDefaultWorkspace => ReplyKind::Workspace,
            PortCall::InsertTextSource { .. } => ReplyKind::Source,
            PortCall::InsertPdfSource { .. } => ReplyKind::Source,
            PortCall::ListInboxSources { .. } => ReplyKind::Sources,
            PortCall::CountInboxSources { .. } => ReplyKind::Count,
            PortCall::FindSource { .. } => ReplyKind::Source,
            PortCall::MarkSourceProcessed { .. } => ReplyKind::Source,
            PortCall::MarkSourceDismissed { .. } => ReplyKind::Source,
            PortCall::InsertAiRunSuccess { .. } => ReplyKind::AiRun,
            PortCall::InsertAiRunFailure { .. } => ReplyKind::AiRun,
            PortCall::FindLatestAiRun { .. } => ReplyKind::MaybeAiRun,
            PortCall::FindLatestSucceededAiRun { .. } => ReplyKind::MaybeAiRun,
            PortCall::FindKnowledgeNode { .. } => ReplyKind::Knowledge,
            PortCall::InsertManualNode { .. } => ReplyKind::Knowledge,
            PortCall::InsertProposedNode { .. } => ReplyKind::Knowledge,
            PortCall::AcceptProposedNode { .. } => ReplyKind::Knowledge,
            PortCall::ArchiveProposedNode { .. } => ReplyKind::Knowledge,
            PortCall::ListKnowledgeNodes { .. } => ReplyKind::KnowledgeList,
            PortCall::CountKnowledgeByStatus { .. } => ReplyKind::KnowledgeCounts,
            PortCall::FindLatestKnowledgeForSource { .. } => ReplyKind::MaybeKnowledge,
            PortCall::InsertExportSuccess { .. } => ReplyKind::Export,
            PortCall::InsertExportFailure { .. } => ReplyKind::Export,
            PortCall::FindLatestExport { .. } => ReplyKind::MaybeExport,
            PortCall::FindObsidianSettings { .. } => ReplyKind::MaybeObsidianSettings,
            PortCall::UpsertObsidianSettings { .. } => ReplyKind::ObsidianSettings,
            PortCall::WriteMarkdown { .. } => ReplyKind::Written,
            PortCall::InspectPath { .. } => ReplyKind::Path,
            PortCall::HasObsidianDirectory { .. } => ReplyKind::Flag,
            PortCall::FindPromptByKey { .. } => ReplyKind::MaybePrompt,
            PortCall::GetActivePromptVersion { .. } => ReplyKind::MaybePromptVersion,
            PortCall::ListPromptVersions { .. } => ReplyKind::PromptVersions,
            PortCall::CreatePromptVersion { .. } => ReplyKind::PromptVersion,
            PortCall::SetActivePromptVersion { .. } => ReplyKind::Prompt,
            PortCall::GetProviderSettings => ReplyKind::MaybeProviderSettings,
            PortCall::SaveProviderSettings { .. } => ReplyKind::ProviderSettings,
            PortCall::GetApiKey { .. } => ReplyKind::MaybeApiKey,
            PortCall::SetApiKey { .. } => ReplyKind::Unit,
            PortCall::TestConnection { .. } => ReplyKind::Unit,
            PortCall::ListProviderModels { .. } => ReplyKind::Models,
            PortCall::GenerateText { .. } => ReplyKind::Generated,
            PortCall::ExtractPdfText { .. } => ReplyKind::Extracted,
        }
    }
}

impl PortReply {
    /// The kind of this reply.
    pub fn kind(&self) -> (k: ReplyKind)
        ensures
            k == kind_of(*self),
    {
        match self {
            PortReply::Workspace(_) => ReplyKind::Workspace,
            PortReply::Source(_) => ReplyKind::Source,
            PortReply::Sources(_) => ReplyKind::Sources,
            PortReply::Count(_) => ReplyKind::Count,
            PortReply::AiRun(_) => ReplyKind::AiRun,
            PortReply::MaybeAiRun(_) => ReplyKind::MaybeAiRun,
            PortReply::Knowledge(_) => ReplyKind::Knowledge,
            PortReply::KnowledgeList(_) => ReplyKind::KnowledgeList,
            PortReply::KnowledgeCounts(_) => ReplyKind::KnowledgeCounts,
            PortReply::MaybeKnowledge(_) => ReplyKind::MaybeKnowledge,
            PortReply::Export(_) => ReplyKind::Export,
            PortReply::MaybeExport(_) => ReplyKind::MaybeExport,
            PortReply::MaybeObsidianSettings(_) => ReplyKind::MaybeObsidianSettings,
            PortReply::ObsidianSettings(_) => ReplyKind::ObsidianSettings,
            PortReply::Written(_) => ReplyKind::Written,
            PortReply::Path(_) => ReplyKind::Path,
            PortReply::Flag(_) => ReplyKind::Flag,
            PortReply::MaybePrompt(_) => ReplyKind::MaybePrompt,
            PortReply::Prompt(_) => ReplyKind::Prompt,
            PortReply::MaybePromptVersion(_) => ReplyKind::MaybePromptVersion,
            PortReply::PromptVersions(_) => ReplyKind::PromptVersions,
            PortReply::PromptVersion(_) => ReplyKind::PromptVersion,
            PortReply::MaybeProviderSettings(_) => ReplyKind::MaybeProviderSettings,
            PortReply::ProviderSettings(_) => ReplyKind::ProviderSettings,
            PortReply::MaybeApiKey(_) => ReplyKind::MaybeApiKey,
            PortReply::Unit(_) => ReplyKind::Unit,
            PortReply::Models(_) => ReplyKind::Models,
            PortReply::Generated(_) => ReplyKind::Generated,
            PortReply::Extracted(_) => ReplyKind::Extracted,
        }
    }
}

/// One step of a workflow: either a call to perform before the workflow can go on, or its end.
#[derive(Debug)]
pub enum Step<F, T> {
    Call(F, PortCall),
    Done(Result<T, AppError>),
}

} // verus!
