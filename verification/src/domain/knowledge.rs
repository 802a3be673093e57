use vstd::prelude::*;

use crate::text::{owned, str_eq};

verus! {

/// What a knowledge node is about.
#[derive(Debug, Clone, Copy, PartialEq, Eq, Structural)]
pub enum KnowledgeType {
    Concept,
    Tool,
    Project,
    Question,
    Solution,
    Insight,
    Resource,
    Person,
}

impl KnowledgeType {
    /// The stored name.
    pub open spec fn name(self) -> Seq<char> {
        match self {
            KnowledgeType::Concept => "concept"@,
            KnowledgeType::Tool => "tool"@,
            KnowledgeType::Project => "project"@,
            KnowledgeType::Question => "question"@,
            KnowledgeType::Solution => "solution"@,
            KnowledgeType::Insight => "insight"@,
            KnowledgeType::Resource => "resource"@,
            KnowledgeType::Person => "person"@,
        }
    }

    pub fn as_str(self) -> (s: &'static str)
        ensures
            s@ == self.name(),
    {
        match self {
            KnowledgeType::Concept => "concept",
            KnowledgeType::Tool => "tool",
            KnowledgeType::Project => "project",
            KnowledgeType::Question => "question",
            KnowledgeType::Solution => "solution",
            KnowledgeType::Insight => "insight",
            KnowledgeType::Resource => "resource",
            KnowledgeType::Person => "person",
        }
    }

    /// Parses a stored name; any other text is refused with a message naming it.
    pub fn try_from(value: &str) -> (r: Result<KnowledgeType, String>)
        ensures
            r matches Ok(t) ==> t.name() == value@,
            r is Err <==> forall|t: KnowledgeType| t.name() != value@,
            r matches Err(m) ==> m@ == "unsupported knowledge type: "@ + value@,
    {
        if str_eq(value, "concept") {
            assert(KnowledgeType::Concept.name() == value@);
            Ok(KnowledgeType::Concept)
        } else if str_eq(value, "tool") {
            assert(KnowledgeType::Tool.name() == value@);
            Ok(KnowledgeType::Tool)
        } else if str_eq(value, "project") {
            assert(KnowledgeType::Project.name() == value@);
            Ok(KnowledgeType::Project)
        } else if str_eq(value, "question") {
            assert(KnowledgeType::Question.name() == value@);
            Ok(KnowledgeType::Question)
        } else if str_eq(value, "solution") {
            assert(KnowledgeType::Solution.name() == value@);
            Ok(KnowledgeType::Solution)
        } else if str_eq(value, "insight") {
            assert(KnowledgeType::Insight.name() == value@);
            Ok(KnowledgeType::Insight)
        } else if str_eq(value, "resource") {
            assert(KnowledgeType::Resource.name() == value@);
            Ok(KnowledgeType::Resource)
        } else if str_eq(value, "person") {
            assert(KnowledgeType::Person.name() == value@);
            Ok(KnowledgeType::Person)
        } else {
            assert forall|t: KnowledgeType| t.name() != value@ by {
                match t {
                    KnowledgeType::Concept => {},
                    KnowledgeType::Tool => {},
                    KnowledgeType::Project => {},
                    KnowledgeType::Question => {},
                    KnowledgeType::Solution => {},
                    KnowledgeType::Insight => {},
                    KnowledgeType::Resource => {},
                    KnowledgeType::Person => {},
                }
            }
            Err(owned("unsupported knowledge type: ").concat(value))
        }
    }
}

/// Where a knowledge node stands in review.
#[derive(Debug, Clone, Copy, PartialEq, Eq, Structural)]
pub enum KnowledgeStatus {
    Proposed,
    Accepted,
    Archived,
}

impl KnowledgeStatus {
    /// The stored name.
    pub open spec fn name(self) -> Seq<char> {
        match self {
            KnowledgeStatus::Proposed => "proposed"@,
            KnowledgeStatus::Accepted => "accepted"@,
            KnowledgeStatus::Archived => "archived"@,
        }
    }

    pub fn as_str(self) -> (s: &'static str)
        ensures
            s@ == self.name(),
    {
        match self {
            KnowledgeStatus::Proposed => "proposed",
            KnowledgeStatus::Accepted => "accepted",
            KnowledgeStatus::Archived => "archived",
        }
    }

    /// Parses a stored name; any other text is refused with a message naming it.
    pub fn try_from(value: &str) -> (r: Result<KnowledgeStatus, String>)
        ensures
            r matches Ok(t) ==> t.name() == value@,
            r is Err <==> forall|t: KnowledgeStatus| t.name() != value@,
            r matches Err(m) ==> m@ == "unsupported knowledge status: "@ + value@,
    {
        if str_eq(value, "proposed") {
            assert(KnowledgeStatus::Proposed.name() == value@);
            Ok(KnowledgeStatus::Proposed)
        } else if str_eq(value, "accepted") {
            assert(KnowledgeStatus::Accepted.name() == value@);
            Ok(KnowledgeStatus::Accepted)
        } else if str_eq(value, "archived") {
            assert(KnowledgeStatus::Archived.name() == value@);
            Ok(KnowledgeStatus::Archived)
        } else {
            assert forall|t: KnowledgeStatus| t.name() != value@ by {
                match t {
                    KnowledgeStatus::Proposed => {},
                    KnowledgeStatus::Accepted => {},
                    KnowledgeStatus::Archived => {},
                }
            }
            Err(owned("unsupported knowledge status: ").concat(value))
        }
    }
}

/// A reviewed or proposed piece of knowledge.
#[derive(Debug, Clone, PartialEq, Eq)]
pub struct KnowledgeNode {
    pub id: String,
    pub workspace_id: String,
    pub ai_run_id: Option<String>,
    pub title: String,
    pub content: String,
    pub knowledge_type: KnowledgeType,
    pub status: KnowledgeStatus,
    pub created_at: String,
    pub updated_at: String,
    pub archived_at: Option<String>,
}

/// How many knowledge nodes a workspace holds, in all and per status.
#[derive(Debug, Clone, Copy, PartialEq, Eq)]
pub struct KnowledgeStatusCounts {
    pub total: usize,
    pub proposed: usize,
    pub accepted: usize,
    pub archived: usize,
}

} // verus!
