use vstd::prelude::*;

verus! {

/// A workspace that owns sources, knowledge and settings.
#[derive(Debug, Clone, PartialEq, Eq)]
pub struct Workspace {
    pub id: String,
    pub name: String,
    pub description: Option<String>,
    pub created_at: String,
    pub updated_at: String,
    pub archived_at: Option<String>,
}

/// The Obsidian vault that a workspace exports to.
#[derive(Debug, Clone, PartialEq, Eq)]
pub struct ObsidianSettings {
    pub workspace_id: String,
    pub vault_path: String,
    pub created_at: String,
    pub updated_at: String,
}

} // verus!
