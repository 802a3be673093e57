use vstd::pervasive::unreached;
use vstd::prelude::*;

use crate::domain::{KnowledgeNode, KnowledgeStatus, KnowledgeType};
use crate::error::AppError;
use crate::ports::{answer_kind, kind_of, PortCall, PortReply, ReplyKind, Step};
use crate::text::{is_blank, is_blank_str, owned, trim, trim_str};

verus! {

/// Checks that a knowledge id is not blank and trims it.
pub fn validate_knowledge_id(knowledge_id: &str) -> (r: Result<String, AppError>)
    ensures
        is_blank(knowledge_id@) ==> (r matches Err(e) && e.is_validation("knowledge_id must not be empty"@)),
        !is_blank(knowledge_id@) ==> (r matches Ok(id) && id@ == trim(knowledge_id@)),
{
    if is_blank_str(knowledge_id) {
        return Err(AppError::Validation(owned("knowledge_id must not be empty")));
    }
    Ok(trim_str(knowledge_id))
}


/// Creating an accepted knowledge node by hand in the default workspace.
#[derive(Debug)]
pub enum CreateKnowledgeFlow {
    AwaitWorkspace { title: String, content: String, knowledge_type: KnowledgeType },
    AwaitNode,
}

impl CreateKnowledgeFlow {
    /// The call of `s`, if any, is answered by the kind of reply that the flow then awaits.
    pub open spec fn pairs(s: Step<CreateKnowledgeFlow, KnowledgeNode>) -> bool {
        s matches Step::Call(f, c) ==> f.awaited() == answer_kind(c)
    }

    pub open spec fn awaited(self) -> ReplyKind {
        match self {
            CreateKnowledgeFlow::AwaitWorkspace { .. } => ReplyKind::Workspace,
            CreateKnowledgeFlow::AwaitNode => ReplyKind::Knowledge,
        }
    }

    pub open spec fn steps_to(self, reply: PortReply, s: Step<CreateKnowledgeFlow, KnowledgeNode>) -> bool {
        match (self, reply) {
            (CreateKnowledgeFlow::AwaitWorkspace { title, content, knowledge_type }, PortReply::Workspace(r)) => match r {
                Err(e) => s == Step::<CreateKnowledgeFlow, KnowledgeNode>::Done(Err(e)),
                Ok(w) => s == Step::<CreateKnowledgeFlow, KnowledgeNode>::Call(
                    CreateKnowledgeFlow::AwaitNode,
                    PortCall::InsertManualNode { workspace_id: w.id, title, content, knowledge_type },
                ),
            },
            (CreateKnowledgeFlow::AwaitNode, PortReply::Knowledge(r)) => s == Step::<CreateKnowledgeFlow, KnowledgeNode>::Done(r),
            _ => false,
        }
    }

    /// Starts creating a node. Title and content are trimmed and must not be blank; the type
    /// is trimmed and must be the name of a knowledge type. They are checked in that order.
    pub fn start(title: String, content: String, knowledge_type: String) -> (s: Step<CreateKnowledgeFlow, KnowledgeNode>)
        ensures
            Self::pairs(s),
            is_blank(title@) ==> (s matches Step::Done(Err(e)) && e.is_validation("knowledge title must not be empty"@)),
            !is_blank(title@) && is_blank(content@) ==> (s matches Step::Done(Err(e)) && e.is_validation(
                "knowledge content must not be empty"@,
            )),
            !is_blank(title@) && !is_blank(content@) && (forall|t: KnowledgeType| t.name() != trim(knowledge_type@))
                ==> (s matches Step::Done(Err(e)) && e.is_validation(
                "unsupported knowledge type: "@ + trim(knowledge_type@),
            )),
            !is_blank(title@) && !is_blank(content@) && (exists|t: KnowledgeType| t.name() == trim(knowledge_type@))
                ==> (s matches Step::Call(
                CreateKnowledgeFlow::AwaitWorkspace { title: t, content: c, knowledge_type: k },
                PortCall::EnsureDefaultWorkspace,
            ) && t@ == trim(title@) && c@ == trim(content@) && k.name() == trim(knowledge_type@)),
    {
        if is_blank_str(title.as_str()) {
            return Step::Done(Err(AppError::Validation(owned("knowledge title must not be empty"))));
        }
        if is_blank_str(content.as_str()) {
            return Step::Done(Err(AppError::Validation(owned("knowledge content must not be empty"))));
        }
        let kind = trim_str(knowledge_type.as_str());
        let knowledge_type = match KnowledgeType::try_from(kind.as_str()) {
            Err(m) => {
                return Step::Done(Err(AppError::Validation(m)));
            },
            Ok(t) => t,
        };
        Step::Call(
            CreateKnowledgeFlow::AwaitWorkspace {
                title: trim_str(title.as_str()),
                content: trim_str(content.as_str()),
                knowledge_type,
            },
            PortCall::EnsureDefaultWorkspace,
        )
    }

    pub fn resume(self, reply: PortReply) -> (s: Step<CreateKnowledgeFlow, KnowledgeNode>)
        requires
            kind_of(reply) == self.awaited(),
        ensures
            Self::pairs(s),
            self.steps_to(reply, s),
    {
        match (self, reply) {
            (CreateKnowledgeFlow::AwaitWorkspace { title, content, knowledge_type }, PortReply::Workspace(r)) => match r {
                Err(e) => Step::Done(Err(e)),
                Ok(w) => Step::Call(
                    CreateKnowledgeFlow::AwaitNode,
                    PortCall::InsertManualNode { workspace_id: w.id, title, content, knowledge_type },
                ),
            },
            (CreateKnowledgeFlow::AwaitNode, PortReply::Knowledge(r)) => Step::Done(r),
            _ => unreached(),
        }
    }
}

/// Accepting or archiving a proposed knowledge node of the default workspace.
#[derive(Debug)]
pub enum ReviewKnowledgeFlow {
    AwaitWorkspace { knowledge_id: String, accept: bool },
    AwaitNode,
}

impl ReviewKnowledgeFlow {
    /// The call of `s`, if any, is answered by the kind of reply that the flow then awaits.
    pub open spec fn pairs(s: Step<ReviewKnowledgeFlow, KnowledgeNode>) -> bool {
        s matches Step::Call(f, c) ==> f.awaited() == answer_kind(c)
    }

    pub open spec fn awaited(self) -> ReplyKind {
        match self {
            ReviewKnowledgeFlow::AwaitWorkspace { .. } => ReplyKind::Workspace,
            ReviewKnowledgeFlow::AwaitNode => ReplyKind::Knowledge,
        }
    }

    pub open spec fn steps_to(self, reply: PortReply, s: Step<ReviewKnowledgeFlow, KnowledgeNode>) -> bool {
        match (self, reply) {
            (ReviewKnowledgeFlow::AwaitWorkspace { knowledge_id, accept }, PortReply::Workspace(r)) => match r {
                Err(e) => s == Step::<ReviewKnowledgeFlow, KnowledgeNode>::Done(Err(e)),
                Ok(w) => s == Step::<ReviewKnowledgeFlow, KnowledgeNode>::Call(
                    ReviewKnowledgeFlow::AwaitNode,
                    if accept {
                        PortCall::AcceptProposedNode { workspace_id: w.id, knowledge_id }
                    } else {
                        PortCall::ArchiveProposedNode { workspace_id: w.id, knowledge_id }
                    },
                ),
            },
            (ReviewKnowledgeFlow::AwaitNode, PortReply::Knowledge(r)) => s == Step::<ReviewKnowledgeFlow, KnowledgeNode>::Done(r),
            _ => false,
        }
    }

    /// The first step of reviewing the node `knowledge_id` (trimmed); a blank id is refused.
    pub open spec fn starts(knowledge_id: String, accept: bool, s: Step<ReviewKnowledgeFlow, KnowledgeNode>) -> bool {
        &&& is_blank(knowledge_id@) ==> (s matches Step::Done(Err(e)) && e.is_validation("knowledge_id must not be empty"@))
        &&& !is_blank(knowledge_id@) ==> (s matches Step::Call(
            ReviewKnowledgeFlow::AwaitWorkspace { knowledge_id: id, accept: a },
            PortCall::EnsureDefaultWorkspace,
        ) && id@ == trim(knowledge_id@) && a == accept)
    }

    fn start(knowledge_id: String, accept: bool) -> (s: Step<ReviewKnowledgeFlow, KnowledgeNode>)
        ensures
            Self::pairs(s),
            Self::starts(knowledge_id, accept, s),
    {
        match validate_knowledge_id(knowledge_id.as_str()) {
            Err(e) => Step::Done(Err(e)),
            Ok(id) => Step::Call(
                ReviewKnowledgeFlow::AwaitWorkspace { knowledge_id: id, accept },
                PortCall::EnsureDefaultWorkspace,
            ),
        }
    }

    /// Starts accepting a proposed node.
    pub fn start_accept(knowledge_id: String) -> (s: Step<ReviewKnowledgeFlow, KnowledgeNode>)
        ensures
            Self::pairs(s),
            Self::starts(knowledge_id, true, s),
    {
        Self::start(knowledge_id, true)
    }

    /// Starts archiving a proposed node.
    pub fn start_archive(knowledge_id: String) -> (s: Step<ReviewKnowledgeFlow, KnowledgeNode>)
        ensures
            Self::pairs(s),
            Self::starts(knowledge_id, false, s),
    {
        Self::start(knowledge_id, false)
    }

    pub fn resume(self, reply: PortReply) -> (s: Step<ReviewKnowledgeFlow, KnowledgeNode>)
        requires
            kind_of(reply) == self.awaited(),
        ensures
            Self::pairs(s),
            self.steps_to(reply, s),
    {
        match (self, reply) {
            (ReviewKnowledgeFlow::AwaitWorkspace { knowledge_id, accept }, PortReply::Workspace(r)) => match r {
                Err(e) => Step::Done(Err(e)),
                Ok(w) => Step::Call(
                    ReviewKnowledgeFlow::AwaitNode,
                    if accept {
                        PortCall::AcceptProposedNode { workspace_id: w.id, knowledge_id }
                    } else {
                        PortCall::ArchiveProposedNode { workspace_id: w.id, knowledge_id }
                    },
                ),
            },
            (ReviewKnowledgeFlow::AwaitNode, PortReply::Knowledge(r)) => Step::Done(r),
            _ => unreached(),
        }
    }
}

/// An optional filter text, trimmed, names a value whose name is `parsed`'s.
pub open spec fn parses_status(input: Option<String>, parsed: Option<KnowledgeStatus>) -> bool {
    match input {
        None => parsed is None,
        Some(text) => parsed matches Some(status) && status.name() == trim(text@),
    }
}

/// An optional type filter, trimmed, names the knowledge type `parsed`.
pub open spec fn parses_type(input: Option<String>, parsed: Option<KnowledgeType>) -> bool {
    match input {
        None => parsed is None,
        Some(text) => parsed matches Some(t) && t.name() == trim(text@),
    }
}

/// The search text: the query trimmed, or none when it is missing or blank.
pub open spec fn search_query(query: Option<String>) -> Option<Seq<char>> {
    match query {
        Some(q) if !is_blank(q@) => Some(trim(q@)),
        _ => None,
    }
}

/// The status filter names no status.
pub open spec fn unknown_status(input: Option<String>) -> bool {
    input matches Some(text) && forall|t: KnowledgeStatus| t.name() != trim(text@)
}

/// The type filter names no knowledge type.
pub open spec fn unknown_type(input: Option<String>) -> bool {
    input matches Some(text) && forall|t: KnowledgeType| t.name() != trim(text@)
}

/// Listing the knowledge nodes of the default workspace, filtered by status, type and text.
#[derive(Debug)]
pub enum ListKnowledgeFlow {
    AwaitWorkspace {
        status: Option<KnowledgeStatus>,
        knowledge_type: Option<KnowledgeType>,
        query: Option<String>,
        limit: usize,
    },
    AwaitNodes,
}

fn parse_status(input: &Option<String>) -> (r: Result<Option<KnowledgeStatus>, AppError>)
    ensures
        unknown_status(*input) ==> (r matches Err(e) && e.is_validation("unsupported knowledge status: "@ + trim(input->0@))),
        !unknown_status(*input) ==> (r matches Ok(parsed) && parses_status(*input, parsed)),
{
    match input {
        None => Ok(None),
        Some(text) => {
            let name = trim_str(text.as_str());
            match KnowledgeStatus::try_from(name.as_str()) {
                Ok(status) => Ok(Some(status)),
                Err(m) => Err(AppError::Validation(m)),
            }
        },
    }
}

fn parse_type(input: &Option<String>) -> (r: Result<Option<KnowledgeType>, AppError>)
    ensures
        unknown_type(*input) ==> (r matches Err(e) && e.is_validation("unsupported knowledge type: "@ + trim(input->0@))),
        !unknown_type(*input) ==> (r matches Ok(parsed) && parses_type(*input, parsed)),
{
    match input {
        None => Ok(None),
        Some(text) => {
            let name = trim_str(text.as_str());
            match KnowledgeType::try_from(name.as_str()) {
                Ok(t) => Ok(Some(t)),
                Err(m) => Err(AppError::Validation(m)),
            }
        },
    }
}

impl ListKnowledgeFlow {
    /// `s` is how listing starts for these inputs: an unknown status, then an unknown type, is
    /// refused; otherwise the default workspace is asked for, with the parsed filters, the
    /// search text of `query` and `limit` held for the listing.
    pub open spec fn starts_listing(
        status: Option<String>,
        knowledge_type: Option<String>,
        query: Option<String>,
        limit: usize,
        s: Step<ListKnowledgeFlow, Vec<KnowledgeNode>>,
    ) -> bool {
        &&& unknown_status(status) ==> (s matches Step::Done(Err(e)) && e.is_validation(
            "unsupported knowledge status: "@ + trim(status->0@),
        ))
        &&& !unknown_status(status) && unknown_type(knowledge_type) ==> (s matches Step::Done(Err(e)) && e.is_validation(
            "unsupported knowledge type: "@ + trim(knowledge_type->0@),
        ))
        &&& !unknown_status(status) && !unknown_type(knowledge_type) ==> (s matches Step::Call(
            ListKnowledgeFlow::AwaitWorkspace { status: st, knowledge_type: kt, query: q, limit: l },
            PortCall::EnsureDefaultWorkspace,
        ) && parses_status(status, st) && parses_type(knowledge_type, kt) && l == limit && match q {
            Some(text) => search_query(query) == Some(text@),
            None => search_query(query) is None,
        })
    }

    /// What a listing that awaits the workspace will ask the storage for, the search text
    /// taken by its characters.
    pub open spec fn request(self) -> Option<(Option<KnowledgeStatus>, Option<KnowledgeType>, Option<Seq<char>>, usize)> {
        match self {
            ListKnowledgeFlow::AwaitWorkspace { status, knowledge_type, query, limit } => Some((
                status,
                knowledge_type,
                match query {
                    Some(q) => Some(q@),
                    None => None,
                },
                limit,
            )),
            ListKnowledgeFlow::AwaitNodes => None,
        }
    }

    /// The call of `s`, if any, is answered by the kind of reply that the flow then awaits.
    pub open spec fn pairs(s: Step<ListKnowledgeFlow, Vec<KnowledgeNode>>) -> bool {
        s matches Step::Call(f, c) ==> f.awaited() == answer_kind(c)
    }

    pub open spec fn awaited(self) -> ReplyKind {
        match self {
            ListKnowledgeFlow::AwaitWorkspace { .. } => ReplyKind::Workspace,
            ListKnowledgeFlow::AwaitNodes => ReplyKind::KnowledgeList,
        }
    }

    pub open spec fn steps_to(self, reply: PortReply, s: Step<ListKnowledgeFlow, Vec<KnowledgeNode>>) -> bool {
        match (self, reply) {
            (ListKnowledgeFlow::AwaitWorkspace { status, knowledge_type, query, limit }, PortReply::Workspace(r)) => match r {
                Err(e) => s == Step::<ListKnowledgeFlow, Vec<KnowledgeNode>>::Done(Err(e)),
                Ok(w) => s == Step::<ListKnowledgeFlow, Vec<KnowledgeNode>>::Call(
                    ListKnowledgeFlow::AwaitNodes,
                    PortCall::ListKnowledgeNodes { workspace_id: w.id, status, knowledge_type, query, limit },
                ),
            },
            (ListKnowledgeFlow::AwaitNodes, PortReply::KnowledgeList(r)) => s == Step::<ListKnowledgeFlow, Vec<KnowledgeNode>>::Done(r),
            _ => false,
        }
    }

    /// Starts listing at most `limit` nodes. The status filter, then the type filter, must
    /// name a status and a type once trimmed; a blank query is no query.
    pub fn start(
        status: Option<String>,
        knowledge_type: Option<String>,
        query: Option<String>,
        limit: usize,
    ) -> (s: Step<ListKnowledgeFlow, Vec<KnowledgeNode>>)
        ensures
            Self::pairs(s),
            Self::starts_listing(status, knowledge_type, query, limit, s),
    {
        let status = match parse_status(&status) {
            Err(e) => {
                return Step::Done(Err(e));
            },
            Ok(s) => s,
        };
        let knowledge_type = match parse_type(&knowledge_type) {
            Err(e) => {
                return Step::Done(Err(e));
            },
            Ok(t) => t,
        };
        let query = match &query {
            Some(q) => if is_blank_str(q.as_str()) {
                None
            } else {
                Some(trim_str(q.as_str()))
            },
            None => None,
        };
        Step::Call(
            ListKnowledgeFlow::AwaitWorkspace { status, knowledge_type, query, limit },
            PortCall::EnsureDefaultWorkspace,
        )
    }

    pub fn resume(self, reply: PortReply) -> (s: Step<ListKnowledgeFlow, Vec<KnowledgeNode>>)
        requires
            kind_of(reply) == self.awaited(),
        ensures
            Self::pairs(s),
            self.steps_to(reply, s),
    {
        match (self, reply) {
            (ListKnowledgeFlow::AwaitWorkspace { status, knowledge_type, query, limit }, PortReply::Workspace(r)) => match r {
                Err(e) => Step::Done(Err(e)),
                Ok(w) => Step::Call(
                    ListKnowledgeFlow::AwaitNodes,
                    PortCall::ListKnowledgeNodes { workspace_id: w.id, status, knowledge_type, query, limit },
                ),
            },
            (ListKnowledgeFlow::AwaitNodes, PortReply::KnowledgeList(r)) => Step::Done(r),
            _ => unreached(),
        }
    }
}

} // verus!
