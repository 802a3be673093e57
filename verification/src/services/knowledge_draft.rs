use vstd::pervasive::unreached;
use vstd::prelude::*;

use crate::domain::{AiRun, KnowledgeNode, KnowledgeType};
use crate::error::AppError;
use crate::ports::{answer_kind, kind_of, PortCall, PortReply, ReplyKind, Step};
use crate::services::summary::validate_source_id;
use crate::text::{
    chars_of, collapse_range, collapse_ws, concat3, is_blank, is_blank_str, line_end, line_len,
    lemma_trim_idempotent, owned, push_char, string_of, trim, trim_range, trim_start, trim_str,
};

verus! {

/// The most characters that a knowledge title may have.
pub const MAX_TITLE_CHARACTERS: usize = 80;

/// The first line of `summary` that holds text, with its words joined by single spaces.
pub open spec fn first_text_line(summary: Seq<char>) -> Seq<char> {
    let rest = trim_start(summary);
    collapse_ws(rest.take(line_len(rest) as int))
}

/// `line` if it fits in a title; else its first 79 characters followed by an ellipsis.
pub open spec fn shorten_title(line: Seq<char>) -> Seq<char> {
    if line.len() <= MAX_TITLE_CHARACTERS {
        line
    } else {
        line.take(MAX_TITLE_CHARACTERS - 1).push('\u{2026}')
    }
}

/// The knowledge title drawn from a summary.
pub open spec fn knowledge_title(summary: Seq<char>) -> Seq<char> {
    shorten_title(first_text_line(summary))
}

/// The title of a knowledge node drafted from `summary`: its first line that holds text,
/// with white space collapsed, cut to 80 characters with an ellipsis as the last one.
/// A summary without text is refused.
pub fn title_from_summary(summary: &str) -> (r: Result<String, AppError>)
    ensures
        is_blank(summary@) ==> (r matches Err(e) && e.is_validation(
            "AI summary must contain text that can be used as a knowledge title"@,
        )),
        !is_blank(summary@) ==> (r matches Ok(title) && title@ == knowledge_title(summary@)),
{
    let v = chars_of(summary);
    let (a, b) = trim_range(&v, 0, v.len());
    assert(v@.subrange(0, v.len() as int) == v@);
    if a == b {
        return Err(
            AppError::Validation(owned("AI summary must contain text that can be used as a knowledge title")),
        );
    }
    let end = line_end(&v, a);
    proof {
        let rest = trim_start(v@);
        assert(rest == v@.subrange(a as int, v.len() as int));
        assert(rest.take(line_len(rest) as int) == v@.subrange(a as int, end as int));
    }
    let line = collapse_range(&v, a, end);
    if line.len() <= MAX_TITLE_CHARACTERS {
        assert(line@.subrange(0, line.len() as int) == line@);
        Ok(string_of(&line, 0, line.len()))
    } else {
        let mut title = string_of(&line, 0, MAX_TITLE_CHARACTERS - 1);
        push_char(&mut title, '\u{2026}');
        Ok(title)
    }
}

/// `s` is what follows once the latest successful run `run` of a source is known: its output,
/// trimmed, becomes a proposed insight titled after its first line, in `workspace_id`.
pub open spec fn drafts_from_run(workspace_id: String, run: AiRun, s: Step<KnowledgeDraftFlow, KnowledgeNode>) -> bool {
    match run.output_text {
        Some(text) if !is_blank(text@) => s matches Step::Call(
            KnowledgeDraftFlow::AwaitNode,
            PortCall::InsertProposedNode { workspace_id: w, ai_run_id, title, content, knowledge_type },
        ) && w == workspace_id && ai_run_id == run.id && content@ == trim(text@)
            && title@ == knowledge_title(trim(text@)) && knowledge_type == KnowledgeType::Insight,
        _ => s matches Step::Done(Err(e)) && e.is_state(
            "successful AI run "@ + run.id@ + " does not contain summary text"@,
        ),
    }
}

/// Drafting a proposed knowledge node from the latest successful summary of a source.
#[derive(Debug)]
pub enum KnowledgeDraftFlow {
    AwaitWorkspace { source_id: String },
    AwaitSource { workspace_id: String },
    AwaitRun { workspace_id: String, source_id: String },
    AwaitNode,
}

impl KnowledgeDraftFlow {
    /// The call of `s`, if any, is answered by the kind of reply that the flow then awaits.
    pub open spec fn pairs(s: Step<KnowledgeDraftFlow, KnowledgeNode>) -> bool {
        s matches Step::Call(f, c) ==> f.awaited() == answer_kind(c)
    }

    pub open spec fn awaited(self) -> ReplyKind {
        match self {
            KnowledgeDraftFlow::AwaitWorkspace { .. } => ReplyKind::Workspace,
            KnowledgeDraftFlow::AwaitSource { .. } => ReplyKind::Source,
            KnowledgeDraftFlow::AwaitRun { .. } => ReplyKind::MaybeAiRun,
            KnowledgeDraftFlow::AwaitNode => ReplyKind::Knowledge,
        }
    }

    pub open spec fn steps_to(self, reply: PortReply, s: Step<KnowledgeDraftFlow, KnowledgeNode>) -> bool {
        match (self, reply) {
            (KnowledgeDraftFlow::AwaitWorkspace { source_id }, PortReply::Workspace(r)) => match r {
                Err(e) => s == Step::<KnowledgeDraftFlow, KnowledgeNode>::Done(Err(e)),
                Ok(w) => s == Step::<KnowledgeDraftFlow, KnowledgeNode>::Call(
                    KnowledgeDraftFlow::AwaitSource { workspace_id: w.id },
                    PortCall::FindSource { workspace_id: w.id, source_id },
                ),
            },
            (KnowledgeDraftFlow::AwaitSource { workspace_id }, PortReply::Source(r)) => match r {
                Err(e) => s == Step::<KnowledgeDraftFlow, KnowledgeNode>::Done(Err(e)),
                Ok(source) => s == Step::<KnowledgeDraftFlow, KnowledgeNode>::Call(
                    KnowledgeDraftFlow::AwaitRun { workspace_id, source_id: source.id },
                    PortCall::FindLatestSucceededAiRun { source_id: source.id },
                ),
            },
            (KnowledgeDraftFlow::AwaitRun { workspace_id, source_id }, PortReply::MaybeAiRun(r)) => match r {
                Err(e) => s == Step::<KnowledgeDraftFlow, KnowledgeNode>::Done(Err(e)),
                Ok(None) => s matches Step::Done(Err(e)) && e.is_not_found(
                    "source "@ + source_id@ + " does not have a successful AI summary"@,
                ),
                Ok(Some(run)) => drafts_from_run(workspace_id, run, s),
            },
            (KnowledgeDraftFlow::AwaitNode, PortReply::Knowledge(r)) => s
                == Step::<KnowledgeDraftFlow, KnowledgeNode>::Done(r),
            _ => false,
        }
    }

    /// Starts drafting from the source `source_id` (trimmed); a blank id is refused.
    pub fn start(source_id: String) -> (s: Step<KnowledgeDraftFlow, KnowledgeNode>)
        ensures
            Self::pairs(s),
            is_blank(source_id@) ==> (s matches Step::Done(Err(e)) && e.is_validation(
                "source_id must not be empty"@,
            )),
            !is_blank(source_id@) ==> (s matches Step::Call(KnowledgeDraftFlow::AwaitWorkspace { source_id: id }, c)
                && id@ == trim(source_id@) && c == PortCall::EnsureDefaultWorkspace),
    {
        match validate_source_id(source_id.as_str()) {
            Err(e) => Step::Done(Err(e)),
            Ok(id) => Step::Call(KnowledgeDraftFlow::AwaitWorkspace { source_id: id }, PortCall::EnsureDefaultWorkspace),
        }
    }

    fn draft(workspace_id: String, run: AiRun) -> (s: Step<KnowledgeDraftFlow, KnowledgeNode>)
        ensures
            Self::pairs(s),
            drafts_from_run(workspace_id, run, s),
    {
        let content = match &run.output_text {
            Some(text) => {
                if is_blank_str(text.as_str()) {
                    None
                } else {
                    Some(trim_str(text.as_str()))
                }
            },
            None => None,
        };
        match content {
            None => Step::Done(
                Err(AppError::State(concat3("successful AI run ", run.id.as_str(), " does not contain summary text"))),
            ),
            Some(content) => {
                proof {
                    lemma_trim_idempotent(run.output_text->0@);
                }
                match title_from_summary(content.as_str()) {
                    Err(_) => unreached(),
                    Ok(title) => Step::Call(
                        KnowledgeDraftFlow::AwaitNode,
                        PortCall::InsertProposedNode {
                            workspace_id,
                            ai_run_id: run.id,
                            title,
                            content,
                            knowledge_type: KnowledgeType::Insight,
                        },
                    ),
                }
            },
        }
    }

    pub fn resume(self, reply: PortReply) -> (s: Step<KnowledgeDraftFlow, KnowledgeNode>)
        requires
            kind_of(reply) == self.awaited(),
        ensures
            Self::pairs(s),
            self.steps_to(reply, s),
    {
        match (self, reply) {
            (KnowledgeDraftFlow::AwaitWorkspace { source_id }, PortReply::Workspace(r)) => match r {
                Err(e) => Step::Done(Err(e)),
                Ok(w) => {
                    let workspace_id = w.id.clone();
                    Step::Call(
                        KnowledgeDraftFlow::AwaitSource { workspace_id },
                        PortCall::FindSource { workspace_id: w.id, source_id },
                    )
                },
            },
            (KnowledgeDraftFlow::AwaitSource { workspace_id }, PortReply::Source(r)) => match r {
                Err(e) => Step::Done(Err(e)),
                Ok(source) => {
                    let source_id = source.id.clone();
                    Step::Call(
                        KnowledgeDraftFlow::AwaitRun { workspace_id, source_id },
                        PortCall::FindLatestSucceededAiRun { source_id: source.id },
                    )
                },
            },
            (KnowledgeDraftFlow::AwaitRun { workspace_id, source_id }, PortReply::MaybeAiRun(r)) => match r {
                Err(e) => Step::Done(Err(e)),
                Ok(None) => Step::Done(
                    Err(
                        AppError::NotFound(
                            concat3("source ", source_id.as_str(), " does not have a successful AI summary"),
                        ),
                    ),
                ),
                Ok(Some(run)) => Self::draft(workspace_id, run),
            },
            (KnowledgeDraftFlow::AwaitNode, PortReply::Knowledge(r)) => Step::Done(r),
            _ => unreached(),
        }
    }
}

} // verus!
