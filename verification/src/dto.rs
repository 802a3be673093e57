use vstd::prelude::*;

use crate::domain::{
    AiRun, ExportRecord, KnowledgeNode, ModelSource, PromptVersion, ProviderModelInfo,
    ProviderModelListResult, Source,
};
use crate::services::ai_provider::{AiProviderSettingsSummary, ProviderConnectionResult};
use crate::services::dashboard::DashboardSummary;
use crate::services::obsidian_settings::ObsidianSettingsSummary;
use crate::services::prompt::DefaultPromptDetails;
use crate::services::source_detail::SourceDetail;
use crate::services::summary::SourceSummary;
use crate::text::owned;

verus! {

/// The provider settings as the user interface receives them; no key is ever part of it.
#[derive(Debug)]
pub struct AiProviderSettingsDto {
    pub provider_type: String,
    pub default_model: String,
    pub has_api_key: bool,
    pub updated_at: String,
}

impl AiProviderSettingsDto {
    pub fn from(settings: AiProviderSettingsSummary) -> (dto: Self)
        ensures
            dto.provider_type@ == settings.provider_type.name(),
            dto.default_model == settings.default_model,
            dto.has_api_key == settings.has_api_key,
            dto.updated_at == settings.updated_at,
    {
        AiProviderSettingsDto {
            provider_type: owned(settings.provider_type.as_str()),
            default_model: settings.default_model,
            has_api_key: settings.has_api_key,
            updated_at: settings.updated_at,
        }
    }
}

/// A successful connection test as the user interface receives it.
#[derive(Debug)]
pub struct ProviderConnectionResultDto {
    pub provider_type: String,
    pub message: String,
}

impl ProviderConnectionResultDto {
    pub fn from(result: ProviderConnectionResult) -> (dto: Self)
        ensures
            dto.provider_type@ == result.provider_type.name(),
            dto.message == result.message,
    {
        ProviderConnectionResultDto { provider_type: owned(result.provider_type.as_str()), message: result.message }
    }
}

/// The name under which a model source is shown.
pub open spec fn model_source_name(source: ModelSource) -> Seq<char> {
    match source {
        ModelSource::Remote => "remote"@,
        ModelSource::Builtin => "builtin"@,
    }
}

/// A model as the user interface receives it.
#[derive(Debug)]
pub struct ProviderModelInfoDto {
    pub id: String,
    pub label: String,
    pub provider_type: String,
    pub source: String,
}

/// `dto` shows `model`.
pub open spec fn shows_model(model: ProviderModelInfo, dto: ProviderModelInfoDto) -> bool {
    &&& dto.id == model.id
    &&& dto.label == model.label
    &&& dto.provider_type@ == model.provider_type.name()
    &&& dto.source@ == model_source_name(model.source)
}

impl ProviderModelInfoDto {
    pub fn from(model: ProviderModelInfo) -> (dto: Self)
        ensures
            shows_model(model, dto),
    {
        ProviderModelInfoDto {
            id: model.id,
            label: model.label,
            provider_type: owned(model.provider_type.as_str()),
            source: match model.source {
                ModelSource::Remote => owned("remote"),
                ModelSource::Builtin => owned("builtin"),
            },
        }
    }
}

/// A model list as the user interface receives it.
#[derive(Debug)]
pub struct ProviderModelListDto {
    pub models: Vec<ProviderModelInfoDto>,
    pub used_fallback: bool,
    pub fallback_reason: Option<String>,
}

impl ProviderModelListDto {
    pub fn from(result: ProviderModelListResult) -> (dto: Self)
        ensures
            dto.models.len() == result.models.len(),
            forall|i: int| 0 <= i < dto.models.len() ==> shows_model(result.models@[i], #[trigger] dto.models@[i]),
            dto.used_fallback == result.used_fallback,
            dto.fallback_reason == result.fallback_reason,
    {
        let ProviderModelListResult { models, used_fallback, fallback_reason } = result;
        let ghost source = models@;
        let mut out: Vec<ProviderModelInfoDto> = Vec::new();
        for model in it: models
            invariant
                it.seq() == source,
                out.len() == it.index(),
                forall|i: int| 0 <= i < out.len() ==> shows_model(source[i], #[trigger] out@[i]),
        {
            out.push(ProviderModelInfoDto::from(model));
        }
        ProviderModelListDto { models: out, used_fallback, fallback_reason }
    }
}

/// A source as the user interface receives it.
#[derive(Debug)]
pub struct SourceDto {
    pub id: String,
    pub workspace_id: String,
    pub source_type: String,
    pub raw_content: String,
    pub content_hash: String,
    pub metadata_json: Option<String>,
    pub inbox_status: String,
    pub captured_at: String,
    pub processed_at: Option<String>,
    pub created_at: String,
    pub updated_at: String,
    pub deleted_at: Option<String>,
}

/// `dto` shows `source`, with its type and status by name.
pub open spec fn shows_source(source: Source, dto: SourceDto) -> bool {
    &&& dto.id == source.id
    &&& dto.workspace_id == source.workspace_id
    &&& dto.source_type@ == source.source_type.name()
    &&& dto.raw_content == source.raw_content
    &&& dto.content_hash == source.content_hash
    &&& dto.metadata_json == source.metadata_json
    &&& dto.inbox_status@ == source.inbox_status.name()
    &&& dto.captured_at == source.captured_at
    &&& dto.processed_at == source.processed_at
    &&& dto.created_at == source.created_at
    &&& dto.updated_at == source.updated_at
    &&& dto.deleted_at == source.deleted_at
}

impl SourceDto {
    pub fn from(source: Source) -> (dto: Self)
        ensures
            shows_source(source, dto),
    {
        SourceDto {
            id: source.id,
            workspace_id: source.workspace_id,
            source_type: owned(source.source_type.as_str()),
            raw_content: source.raw_content,
            content_hash: source.content_hash,
            metadata_json: source.metadata_json,
            inbox_status: owned(source.inbox_status.as_str()),
            captured_at: source.captured_at,
            processed_at: source.processed_at,
            created_at: source.created_at,
            updated_at: source.updated_at,
            deleted_at: source.deleted_at,
        }
    }

    /// Each source of `sources`, in order, as the user interface receives it.
    pub fn from_all(sources: Vec<Source>) -> (dtos: Vec<SourceDto>)
        ensures
            dtos.len() == sources.len(),
            forall|i: int| 0 <= i < dtos.len() ==> shows_source(sources@[i], #[trigger] dtos@[i]),
    {
        let ghost source = sources@;
        let mut out: Vec<SourceDto> = Vec::new();
        for s in it: sources
            invariant
                it.seq() == source,
                out.len() == it.index(),
                forall|i: int| 0 <= i < out.len() ==> shows_source(source[i], #[trigger] out@[i]),
        {
            out.push(SourceDto::from(s));
        }
        out
    }
}

/// A knowledge node as the user interface receives it.
#[derive(Debug)]
pub struct KnowledgeNodeDto {
    pub id: String,
    pub workspace_id: String,
    pub ai_run_id: Option<String>,
    pub title: String,
    pub content: String,
    pub knowledge_type: String,
    pub status: String,
    pub created_at: String,
    pub updated_at: String,
    pub archived_at: Option<String>,
}

/// `dto` shows `node`, with its type and status by name.
pub open spec fn shows_node(node: KnowledgeNode, dto: KnowledgeNodeDto) -> bool {
    &&& dto.id == node.id
    &&& dto.workspace_id == node.workspace_id
    &&& dto.ai_run_id == node.ai_run_id
    &&& dto.title == node.title
    &&& dto.content == node.content
    &&& dto.knowledge_type@ == node.knowledge_type.name()
    &&& dto.status@ == node.status.name()
    &&& dto.created_at == node.created_at
    &&& dto.updated_at == node.updated_at
    &&& dto.archived_at == node.archived_at
}

impl KnowledgeNodeDto {
    pub fn from(node: KnowledgeNode) -> (dto: Self)
        ensures
            shows_node(node, dto),
    {
        KnowledgeNodeDto {
            id: node.id,
            workspace_id: node.workspace_id,
            ai_run_id: node.ai_run_id,
            title: node.title,
            content: node.content,
            knowledge_type: owned(node.knowledge_type.as_str()),
            status: owned(node.status.as_str()),
            created_at: node.created_at,
            updated_at: node.updated_at,
            archived_at: node.archived_at,
        }
    }

    /// Each node of `nodes`, in order, as the user interface receives it.
    pub fn from_all(nodes: Vec<KnowledgeNode>) -> (dtos: Vec<KnowledgeNodeDto>)
        ensures
            dtos.len() == nodes.len(),
            forall|i: int| 0 <= i < dtos.len() ==> shows_node(nodes@[i], #[trigger] dtos@[i]),
    {
        let ghost source = nodes@;
        let mut out: Vec<KnowledgeNodeDto> = Vec::new();
        for n in it: nodes
            invariant
                it.seq() == source,
                out.len() == it.index(),
                forall|i: int| 0 <= i < out.len() ==> shows_node(source[i], #[trigger] out@[i]),
        {
            out.push(KnowledgeNodeDto::from(n));
        }
        out
    }
}

/// The dashboard as the user interface receives it.
#[derive(Debug)]
pub struct DashboardSummaryDto {
    pub inbox_unprocessed_count: usize,
    pub knowledge_total_count: usize,
    pub proposed_knowledge_count: usize,
    pub accepted_knowledge_count: usize,
    pub archived_knowledge_count: usize,
    pub recent_knowledge: Vec<KnowledgeNodeDto>,
    pub recent_inbox_sources: Vec<SourceDto>,
    pub obsidian_vault_configured: bool,
}

impl DashboardSummaryDto {
    pub fn from(summary: DashboardSummary) -> (dto: Self)
        ensures
            dto.inbox_unprocessed_count == summary.inbox_unprocessed_count,
            dto.knowledge_total_count == summary.knowledge_counts.total,
            dto.proposed_knowledge_count == summary.knowledge_counts.proposed,
            dto.accepted_knowledge_count == summary.knowledge_counts.accepted,
            dto.archived_knowledge_count == summary.knowledge_counts.archived,
            dto.recent_knowledge.len() == summary.recent_knowledge.len(),
            forall|i: int| 0 <= i < dto.recent_knowledge.len() ==> shows_node(
                summary.recent_knowledge@[i],
                #[trigger] dto.recent_knowledge@[i],
            ),
            dto.recent_inbox_sources.len() == summary.recent_inbox_sources.len(),
            forall|i: int| 0 <= i < dto.recent_inbox_sources.len() ==> shows_source(
                summary.recent_inbox_sources@[i],
                #[trigger] dto.recent_inbox_sources@[i],
            ),
            dto.obsidian_vault_configured == summary.obsidian_vault_configured,
    {
        DashboardSummaryDto {
            inbox_unprocessed_count: summary.inbox_unprocessed_count,
            knowledge_total_count: summary.knowledge_counts.total,
            proposed_knowledge_count: summary.knowledge_counts.proposed,
            accepted_knowledge_count: summary.knowledge_counts.accepted,
            archived_knowledge_count: summary.knowledge_counts.archived,
            recent_knowledge: KnowledgeNodeDto::from_all(summary.recent_knowledge),
            recent_inbox_sources: SourceDto::from_all(summary.recent_inbox_sources),
            obsidian_vault_configured: summary.obsidian_vault_configured,
        }
    }
}

/// An export record as the user interface receives it.
#[derive(Debug)]
pub struct ExportRecordDto {
    pub id: String,
    pub workspace_id: String,
    pub knowledge_node_id: String,
    pub export_path: Option<String>,
    pub status: String,
    pub error_message: Option<String>,
    pub created_at: String,
}

impl ExportRecordDto {
    pub fn from(record: ExportRecord) -> (dto: Self)
        ensures
            dto.id == record.id,
            dto.workspace_id == record.workspace_id,
            dto.knowledge_node_id == record.knowledge_node_id,
            dto.export_path == record.export_path,
            dto.status@ == record.status.name(),
            dto.error_message == record.error_message,
            dto.created_at == record.created_at,
    {
        ExportRecordDto {
            id: record.id,
            workspace_id: record.workspace_id,
            knowledge_node_id: record.knowledge_node_id,
            export_path: record.export_path,
            status: owned(record.status.as_str()),
            error_message: record.error_message,
            created_at: record.created_at,
        }
    }
}

/// The saved vault as the user interface receives it.
#[derive(Debug)]
pub struct ObsidianSettingsDto {
    pub workspace_id: String,
    pub vault_path: String,
    pub has_obsidian_directory: bool,
    pub created_at: String,
    pub updated_at: String,
}

impl ObsidianSettingsDto {
    pub fn from(summary: ObsidianSettingsSummary) -> (dto: Self)
        ensures
            dto.workspace_id == summary.settings.workspace_id,
            dto.vault_path == summary.settings.vault_path,
            dto.has_obsidian_directory == summary.has_obsidian_directory,
            dto.created_at == summary.settings.created_at,
            dto.updated_at == summary.settings.updated_at,
    {
        ObsidianSettingsDto {
            workspace_id: summary.settings.workspace_id,
            vault_path: summary.settings.vault_path,
            has_obsidian_directory: summary.has_obsidian_directory,
            created_at: summary.settings.created_at,
            updated_at: summary.settings.updated_at,
        }
    }
}

/// A prompt version as the user interface receives it.
#[derive(Debug)]
pub struct PromptVersionDto {
    pub id: String,
    pub prompt_id: String,
    pub version: i64,
    pub prompt_content: String,
    pub created_at: String,
}

/// `dto` shows `version`.
pub open spec fn shows_version(version: PromptVersion, dto: PromptVersionDto) -> bool {
    &&& dto.id == version.id
    &&& dto.prompt_id == version.prompt_id
    &&& dto.version == version.version
    &&& dto.prompt_content == version.prompt_content
    &&& dto.created_at == version.created_at
}

impl PromptVersionDto {
    pub fn from(version: PromptVersion) -> (dto: Self)
        ensures
            shows_version(version, dto),
    {
        PromptVersionDto {
            id: version.id,
            prompt_id: version.prompt_id,
            version: version.version,
            prompt_content: version.prompt_content,
            created_at: version.created_at,
        }
    }
}

/// The default prompt as the user interface receives it: the active version is the one
/// named by `active_version_id`.
#[derive(Debug)]
pub struct DefaultPromptDto {
    pub id: String,
    pub prompt_key: String,
    pub name: String,
    pub description: Option<String>,
    pub active_version_id: String,
    pub active_version: PromptVersionDto,
    pub created_at: String,
    pub updated_at: String,
}

impl DefaultPromptDto {
    pub fn from(details: DefaultPromptDetails) -> (dto: Self)
        ensures
            dto.id == details.prompt.id,
            dto.prompt_key == details.prompt.prompt_key,
            dto.name == details.prompt.name,
            dto.description == details.prompt.description,
            dto.active_version_id == details.active_version.id,
            shows_version(details.active_version, dto.active_version),
            dto.created_at == details.prompt.created_at,
            dto.updated_at == details.prompt.updated_at,
    {
        let active_version_id = details.active_version.id.clone();
        DefaultPromptDto {
            id: details.prompt.id,
            prompt_key: details.prompt.prompt_key,
            name: details.prompt.name,
            description: details.prompt.description,
            active_version_id,
            active_version: PromptVersionDto::from(details.active_version),
            created_at: details.prompt.created_at,
            updated_at: details.prompt.updated_at,
        }
    }
}

/// A summary just made, as the user interface receives it; neither the key nor the prompt
/// text is part of it.
#[derive(Debug)]
pub struct SourceSummaryDto {
    pub source_id: String,
    pub summary: String,
    pub provider_type: String,
    pub model: String,
    pub prompt_version_id: String,
    pub prompt_version: i64,
}

impl SourceSummaryDto {
    pub fn from(summary: SourceSummary) -> (dto: Self)
        ensures
            dto.source_id == summary.source_id,
            dto.summary == summary.summary,
            dto.provider_type@ == summary.provider_type.name(),
            dto.model == summary.model,
            dto.prompt_version_id == summary.prompt_version_id,
            dto.prompt_version == summary.prompt_version,
    {
        SourceSummaryDto {
            source_id: summary.source_id,
            summary: summary.summary,
            provider_type: owned(summary.provider_type.as_str()),
            model: summary.model,
            prompt_version_id: summary.prompt_version_id,
            prompt_version: summary.prompt_version,
        }
    }
}

/// The latest AI run of a source as the user interface receives it.
#[derive(Debug)]
pub struct LatestSourceSummaryDto {
    pub run_id: String,
    pub source_id: String,
    pub summary: Option<String>,
    pub status: String,
    pub error_message: Option<String>,
    pub provider_type: Option<String>,
    pub model: Option<String>,
    pub prompt_version_id: Option<String>,
    pub prompt_version: Option<i64>,
    pub created_at: String,
    pub completed_at: String,
}

/// `dto` shows the AI run `run`.
pub open spec fn shows_run(run: AiRun, dto: LatestSourceSummaryDto) -> bool {
    &&& dto.run_id == run.id
    &&& dto.source_id == run.source_id
    &&& dto.summary == run.output_text
    &&& dto.status@ == run.status.name()
    &&& dto.error_message == run.error_message
    &&& match run.provider_type {
        Some(p) => dto.provider_type matches Some(t) && t@ == p.name(),
        None => dto.provider_type is None,
    }
    &&& dto.model == run.model
    &&& dto.prompt_version_id == run.prompt_version_id
    &&& dto.prompt_version == run.prompt_version
    &&& dto.created_at == run.created_at
    &&& dto.completed_at == run.completed_at
}

impl LatestSourceSummaryDto {
    pub fn from(ai_run: AiRun) -> (dto: Self)
        ensures
            shows_run(ai_run, dto),
    {
        LatestSourceSummaryDto {
            run_id: ai_run.id,
            source_id: ai_run.source_id,
            summary: ai_run.output_text,
            status: owned(ai_run.status.as_str()),
            error_message: ai_run.error_message,
            provider_type: match ai_run.provider_type {
                Some(p) => Some(owned(p.as_str())),
                None => None,
            },
            model: ai_run.model,
            prompt_version_id: ai_run.prompt_version_id,
            prompt_version: ai_run.prompt_version,
            created_at: ai_run.created_at,
            completed_at: ai_run.completed_at,
        }
    }
}

/// The detail of a source as the user interface receives it.
#[derive(Debug)]
pub struct SourceDetailDto {
    pub source: SourceDto,
    pub latest_summary: Option<LatestSourceSummaryDto>,
    pub related_knowledge: Option<KnowledgeNodeDto>,
}

impl SourceDetailDto {
    pub fn from(detail: SourceDetail) -> (dto: Self)
        ensures
            shows_source(detail.source, dto.source),
            match detail.latest_summary {
                Some(run) => dto.latest_summary matches Some(d) && shows_run(run, d),
                None => dto.latest_summary is None,
            },
            match detail.related_knowledge {
                Some(node) => dto.related_knowledge matches Some(d) && shows_node(node, d),
                None => dto.related_knowledge is None,
            },
    {
        SourceDetailDto {
            source: SourceDto::from(detail.source),
            latest_summary: match detail.latest_summary {
                Some(run) => Some(LatestSourceSummaryDto::from(run)),
                None => None,
            },
            related_knowledge: match detail.related_knowledge {
                Some(node) => Some(KnowledgeNodeDto::from(node)),
                None => None,
            },
        }
    }
}

} // verus!
