use vstd::prelude::*;

verus! {

/// A named prompt; `active_version_id` picks the version in use.
#[derive(Debug, Clone, PartialEq, Eq)]
pub struct Prompt {
    pub id: String,
    pub prompt_key: String,
    pub name: String,
    pub description: Option<String>,
    pub active_version_id: Option<String>,
    pub created_at: String,
    pub updated_at: String,
}

/// One immutable version of a prompt's text.
#[derive(Debug, Clone, PartialEq, Eq)]
pub struct PromptVersion {
    pub id: String,
    pub prompt_id: String,
    pub version: i64,
    pub prompt_content: String,
    pub created_at: String,
}

} // verus!
