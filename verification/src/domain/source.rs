use vstd::prelude::*;

use crate::text::{owned, str_eq};

verus! {

/// How a source entered the inbox.
#[derive(Debug, Clone, Copy, PartialEq, Eq, Structural)]
pub enum SourceType {
    Text,
    Pdf,
}

impl SourceType {
    /// The stored name of the source type.
    pub open spec fn name(self) -> Seq<char> {
        match self {
            SourceType::Text => "text"@,
            SourceType::Pdf => "pdf"@,
        }
    }

    pub fn as_str(self) -> (s: &'static str)
        ensures
            s@ == self.name(),
    {
        match self {
            SourceType::Text => "text",
            SourceType::Pdf => "pdf",
        }
    }

    /// Parses a stored name; any other text is refused with a message naming it.
    pub fn try_from(value: &str) -> (r: Result<SourceType, String>)
        ensures
            r matches Ok(t) ==> t.name() == value@,
            r is Err <==> forall|t: SourceType| t.name() != value@,
            r matches Err(m) ==> m@ == "unsupported source type: "@ + value@,
    {
        if str_eq(value, "text") {
            assert(SourceType::Text.name() == value@);
            Ok(SourceType::Text)
        } else if str_eq(value, "pdf") {
            assert(SourceType::Pdf.name() == value@);
            Ok(SourceType::Pdf)
        } else {
            assert forall|t: SourceType| t.name() != value@ by {
                match t {
                    SourceType::Text => {},
                    SourceType::Pdf => {},
                }
            }
            Err(owned("unsupported source type: ").concat(value))
        }
    }
}

/// Where a source stands in the inbox lifecycle.
#[derive(Debug, Clone, Copy, PartialEq, Eq, Structural)]
pub enum InboxStatus {
    Unprocessed,
    Processed,
    Dismissed,
    Failed,
}

impl InboxStatus {
    /// The stored name of the status.
    pub open spec fn name(self) -> Seq<char> {
        match self {
            InboxStatus::Unprocessed => "unprocessed"@,
            InboxStatus::Processed => "processed"@,
            InboxStatus::Dismissed => "dismissed"@,
            InboxStatus::Failed => "failed"@,
        }
    }

    pub fn as_str(self) -> (s: &'static str)
        ensures
            s@ == self.name(),
    {
        match self {
            InboxStatus::Unprocessed => "unprocessed",
            InboxStatus::Processed => "processed",
            InboxStatus::Dismissed => "dismissed",
            InboxStatus::Failed => "failed",
        }
    }

    /// Parses a stored name; any other text is refused with a message naming it.
    pub fn try_from(value: &str) -> (r: Result<InboxStatus, String>)
        ensures
            r matches Ok(t) ==> t.name() == value@,
            r is Err <==> forall|t: InboxStatus| t.name() != value@,
            r matches Err(m) ==> m@ == "unsupported inbox status: "@ + value@,
    {
        if str_eq(value, "unprocessed") {
            assert(InboxStatus::Unprocessed.name() == value@);
            Ok(InboxStatus::Unprocessed)
        } else if str_eq(value, "processed") {
            assert(InboxStatus::Processed.name() == value@);
            Ok(InboxStatus::Processed)
        } else if str_eq(value, "dismissed") {
            assert(InboxStatus::Dismissed.name() == value@);
            Ok(InboxStatus::Dismissed)
        } else if str_eq(value, "failed") {
            assert(InboxStatus::Failed.name() == value@);
            Ok(InboxStatus::Failed)
        } else {
            assert forall|t: InboxStatus| t.name() != value@ by {
                match t {
                    InboxStatus::Unprocessed => {},
                    InboxStatus::Processed => {},
                    InboxStatus::Dismissed => {},
                    InboxStatus::Failed => {},
                }
            }
            Err(owned("unsupported inbox status: ").concat(value))
        }
    }
}

/// A captured piece of text in a workspace.
#[derive(Debug, Clone, PartialEq, Eq)]
pub struct Source {
    pub id: String,
    pub workspace_id: String,
    pub source_type: SourceType,
    pub raw_content: String,
    pub content_hash: String,
    pub metadata_json: Option<String>,
    pub inbox_status: InboxStatus,
    pub captured_at: String,
    pub processed_at: Option<String>,
    pub created_at: String,
    pub updated_at: String,
    pub deleted_at: Option<String>,
}

} // verus!
