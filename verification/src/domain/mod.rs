pub mod ai_run;
pub mod export;
pub mod knowledge;
pub mod prompt;
pub mod provider;
pub mod source;
pub mod workspace;

pub use ai_run::{AiRun, AiRunStatus};
pub use export::{ExportRecord, ExportStatus};
pub use knowledge::{KnowledgeNode, KnowledgeStatus, KnowledgeStatusCounts, KnowledgeType};
pub use prompt::{Prompt, PromptVersion};
pub use provider::{
    builtin_models, default_model_for_provider, model_label, validate_model_id, ModelSource,
    ProviderModelInfo, ProviderModelListResult, ProviderSettings, ProviderType,
};
pub use source::{InboxStatus, Source, SourceType};
pub use workspace::{ObsidianSettings, Workspace};
