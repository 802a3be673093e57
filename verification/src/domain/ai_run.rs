use vstd::prelude::*;

use crate::text::{owned, str_eq};
use crate::domain::provider::ProviderType;

verus! {

/// How an AI run ended.
#[derive(Debug, Clone, Copy, PartialEq, Eq, Structural)]
pub enum AiRunStatus {
    Succeeded,
    Failed,
}

impl AiRunStatus {
    /// The stored name.
    pub open spec fn name(self) -> Seq<char> {
        match self {
            AiRunStatus::Succeeded => "succeeded"@,
            AiRunStatus::Failed => "failed"@,
        }
    }

    pub fn as_str(self) -> (s: &'static str)
        ensures
            s@ == self.name(),
    {
        match self {
            AiRunStatus::Succeeded => "succeeded",
            AiRunStatus::Failed => "failed",
        }
    }

    /// Parses a stored name; any other text is refused with a message naming it.
    pub fn try_from(value: &str) -> (r: Result<AiRunStatus, String>)
        ensures
            r matches Ok(t) ==> t.name() == value@,
            r is Err <==> forall|t: AiRunStatus| t.name() != value@,
            r matches Err(m) ==> m@ == "unsupported AI run status: "@ + value@,
    {
        if str_eq(value, "succeeded") {
            assert(AiRunStatus::Succeeded.name() == value@);
            Ok(AiRunStatus::Succeeded)
        } else if str_eq(value, "failed") {
            assert(AiRunStatus::Failed.name() == value@);
            Ok(AiRunStatus::Failed)
        } else {
            assert forall|t: AiRunStatus| t.name() != value@ by {
                match t {
                    AiRunStatus::Succeeded => {},
                    AiRunStatus::Failed => {},
                }
            }
            Err(owned("unsupported AI run status: ").concat(value))
        }
    }
}

/// One request to an AI provider about a source, and how it ended.
#[derive(Debug, Clone, PartialEq, Eq)]
pub struct AiRun {
    pub id: String,
    pub source_id: String,
    pub prompt_version_id: Option<String>,
    pub prompt_version: Option<i64>,
    pub provider_type: Option<ProviderType>,
    pub model: Option<String>,
    pub status: AiRunStatus,
    pub output_text: Option<String>,
    pub error_message: Option<String>,
    pub created_at: String,
    pub completed_at: String,
}

} // verus!
