use vstd::prelude::*;

use crate::text::{owned, str_eq};

verus! {

/// How an export of a knowledge node ended.
#[derive(Debug, Clone, Copy, PartialEq, Eq, Structural)]
pub enum ExportStatus {
    Succeeded,
    Failed,
}

impl ExportStatus {
    /// The stored name.
    pub open spec fn name(self) -> Seq<char> {
        match self {
            ExportStatus::Succeeded => "succeeded"@,
            ExportStatus::Failed => "failed"@,
        }
    }

    pub fn as_str(self) -> (s: &'static str)
        ensures
            s@ == self.name(),
    {
        match self {
            ExportStatus::Succeeded => "succeeded",
            ExportStatus::Failed => "failed",
        }
    }

    /// Parses a stored name; any other text is refused with a message naming it.
    pub fn try_from(value: &str) -> (r: Result<ExportStatus, String>)
        ensures
            r matches Ok(t) ==> t.name() == value@,
            r is Err <==> forall|t: ExportStatus| t.name() != value@,
            r matches Err(m) ==> m@ == "unsupported export status: "@ + value@,
    {
        if str_eq(value, "succeeded") {
            assert(ExportStatus::Succeeded.name() == value@);
            Ok(ExportStatus::Succeeded)
        } else if str_eq(value, "failed") {
            assert(ExportStatus::Failed.name() == value@);
            Ok(ExportStatus::Failed)
        } else {
            assert forall|t: ExportStatus| t.name() != value@ by {
                match t {
                    ExportStatus::Succeeded => {},
                    ExportStatus::Failed => {},
                }
            }
            Err(owned("unsupported export status: ").concat(value))
        }
    }
}

/// One attempt to export a knowledge node as Markdown.
#[derive(Debug, Clone, PartialEq, Eq)]
pub struct ExportRecord {
    pub id: String,
    pub workspace_id: String,
    pub knowledge_node_id: String,
    pub export_path: Option<String>,
    pub status: ExportStatus,
    pub error_message: Option<String>,
    pub created_at: String,
}

} // verus!
