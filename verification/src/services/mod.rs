pub mod capture;
pub mod prompt;
pub mod summary;
pub mod knowledge_draft;
pub mod pdf_capture;
pub mod export;
pub mod ai_provider;
pub mod dashboard;
pub mod inbox;
pub mod knowledge;
pub mod obsidian_settings;
pub mod source_detail;
