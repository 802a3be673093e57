use vstd::pervasive::unreached;
use vstd::prelude::*;

use crate::domain::{Prompt, PromptVersion};
use crate::error::AppError;
use crate::ports::{answer_kind, kind_of, PortCall, PortReply, ReplyKind, Step};
use crate::text::{concat3, is_blank, is_blank_str, owned, trim, trim_str};

verus! {

/// The default prompt together with the version of it that is in use.
#[derive(Debug, Clone, PartialEq, Eq)]
pub struct DefaultPromptDetails {
    pub prompt: Prompt,
    pub active_version: PromptVersion,
}

/// The key of the prompt that summaries use.
pub open spec fn default_prompt_key() -> Seq<char> {
    "source_summary"@
}

/// The message when the default prompt has not been created.
pub open spec fn missing_prompt_message() -> Seq<char> {
    "default prompt "@ + default_prompt_key() + " is not initialized"@
}

/// The call that looks up the default prompt.
pub open spec fn finds_default_prompt(call: PortCall) -> bool {
    call matches PortCall::FindPromptByKey { prompt_key } && prompt_key@ == default_prompt_key()
}

fn find_default_prompt_call() -> (c: PortCall)
    ensures
        finds_default_prompt(c),
{
    PortCall::FindPromptByKey { prompt_key: owned("source_summary") }
}

fn missing_prompt_error() -> (e: AppError)
    ensures
        e.is_not_found(missing_prompt_message()),
{
    AppError::NotFound(concat3("default prompt ", "source_summary", " is not initialized"))
}

/// Loading the default prompt's active version.
#[derive(Debug)]
pub enum DefaultPromptFlow {
    AwaitPrompt,
    AwaitVersion { prompt: Prompt, active_version_id: String },
}

impl DefaultPromptFlow {
    /// The call of `s`, if any, is answered by the kind of reply that the flow then awaits.
    pub open spec fn pairs(s: Step<DefaultPromptFlow, DefaultPromptDetails>) -> bool {
        s matches Step::Call(f, c) ==> f.awaited() == answer_kind(c)
    }

    pub open spec fn awaited(self) -> ReplyKind {
        match self {
            DefaultPromptFlow::AwaitPrompt => ReplyKind::MaybePrompt,
            DefaultPromptFlow::AwaitVersion { .. } => ReplyKind::MaybePromptVersion,
        }
    }

    /// `s` is what follows once `prompt` is known: a prompt without an active version is an
    /// application-state error; otherwise its active version is loaded.
    pub open spec fn loads_details(prompt: Prompt, s: Step<DefaultPromptFlow, DefaultPromptDetails>) -> bool {
        match prompt.active_version_id {
            None => s matches Step::Done(Err(e)) && e.is_state(
                "default prompt "@ + prompt.prompt_key@ + " does not have an active version"@,
            ),
            Some(id) => s matches Step::Call(f, c) && f == (DefaultPromptFlow::AwaitVersion { prompt, active_version_id: id })
                && c == (PortCall::GetActivePromptVersion { prompt_id: prompt.id }),
        }
    }

    /// How the flow goes on from `self` when `reply` comes.
    pub open spec fn steps_to(self, reply: PortReply, s: Step<DefaultPromptFlow, DefaultPromptDetails>) -> bool {
        match (self, reply) {
            (DefaultPromptFlow::AwaitPrompt, PortReply::MaybePrompt(r)) => match r {
                Err(e) => s == Step::<DefaultPromptFlow, DefaultPromptDetails>::Done(Err(e)),
                Ok(None) => s matches Step::Done(Err(e)) && e.is_not_found(missing_prompt_message()),
                Ok(Some(prompt)) => Self::loads_details(prompt, s),
            },
            (DefaultPromptFlow::AwaitVersion { prompt, active_version_id }, PortReply::MaybePromptVersion(r)) => match r {
                Err(e) => s == Step::<DefaultPromptFlow, DefaultPromptDetails>::Done(Err(e)),
                Ok(None) => s matches Step::Done(Err(e)) && e.is_state(
                    "active prompt version "@ + active_version_id@ + " could not be loaded"@,
                ),
                Ok(Some(version)) => s == Step::<DefaultPromptFlow, DefaultPromptDetails>::Done(
                    Ok(DefaultPromptDetails { prompt, active_version: version }),
                ),
            },
            _ => false,
        }
    }

    /// Starts loading the default prompt, looked up by its key.
    pub fn start() -> (s: Step<DefaultPromptFlow, DefaultPromptDetails>)
        ensures
            Self::pairs(s),
            s matches Step::Call(f, c) && f == DefaultPromptFlow::AwaitPrompt && finds_default_prompt(c),
    {
        Step::Call(DefaultPromptFlow::AwaitPrompt, find_default_prompt_call())
    }

    /// Goes on once `prompt` is known.
    pub fn load_details(prompt: Prompt) -> (s: Step<DefaultPromptFlow, DefaultPromptDetails>)
        ensures
            Self::pairs(s),
            Self::loads_details(prompt, s),
    {
        let active_version_id = match &prompt.active_version_id {
            Some(id) => id.clone(),
            None => {
                return Step::Done(
                Err(
                    AppError::State(
                        concat3(
                            "default prompt ",
                            prompt.prompt_key.as_str(),
                            " does not have an active version",
                        ),
                    ),
                ),
            );
            },
        };
        let prompt_id = prompt.id.clone();
        Step::Call(
            DefaultPromptFlow::AwaitVersion { prompt, active_version_id },
            PortCall::GetActivePromptVersion { prompt_id },
        )
    }

    pub fn resume(self, reply: PortReply) -> (s: Step<DefaultPromptFlow, DefaultPromptDetails>)
        requires
            kind_of(reply) == self.awaited(),
        ensures
            Self::pairs(s),
            self.steps_to(reply, s),
    {
        match (self, reply) {
            (DefaultPromptFlow::AwaitPrompt, PortReply::MaybePrompt(r)) => match r {
                Err(e) => Step::Done(Err(e)),
                Ok(None) => Step::Done(Err(missing_prompt_error())),
                Ok(Some(prompt)) => Self::load_details(prompt),
            },
            (DefaultPromptFlow::AwaitVersion { prompt, active_version_id }, PortReply::MaybePromptVersion(r)) => match r {
                Err(e) => Step::Done(Err(e)),
                Ok(None) => Step::Done(
                    Err(
                        AppError::State(
                            concat3("active prompt version ", active_version_id.as_str(), " could not be loaded"),
                        ),
                    ),
                ),
                Ok(Some(version)) => Step::Done(
                    Ok(DefaultPromptDetails { prompt, active_version: version }),
                ),
            },
            _ => unreached(),
        }
    }
}

/// Listing the versions of the default prompt.
#[derive(Debug)]
pub enum ListPromptVersionsFlow {
    AwaitPrompt,
    AwaitVersions,
}

impl ListPromptVersionsFlow {
    /// The call of `s`, if any, is answered by the kind of reply that the flow then awaits.
    pub open spec fn pairs(s: Step<ListPromptVersionsFlow, Vec<PromptVersion>>) -> bool {
        s matches Step::Call(f, c) ==> f.awaited() == answer_kind(c)
    }

    pub open spec fn awaited(self) -> ReplyKind {
        match self {
            ListPromptVersionsFlow::AwaitPrompt => ReplyKind::MaybePrompt,
            ListPromptVersionsFlow::AwaitVersions => ReplyKind::PromptVersions,
        }
    }

    pub open spec fn steps_to(self, reply: PortReply, s: Step<ListPromptVersionsFlow, Vec<PromptVersion>>) -> bool {
        match (self, reply) {
            (ListPromptVersionsFlow::AwaitPrompt, PortReply::MaybePrompt(r)) => match r {
                Err(e) => s == Step::<ListPromptVersionsFlow, Vec<PromptVersion>>::Done(Err(e)),
                Ok(None) => s matches Step::Done(Err(e)) && e.is_not_found(missing_prompt_message()),
                Ok(Some(prompt)) => s == Step::<ListPromptVersionsFlow, Vec<PromptVersion>>::Call(
                    ListPromptVersionsFlow::AwaitVersions,
                    PortCall::ListPromptVersions { prompt_id: prompt.id },
                ),
            },
            (ListPromptVersionsFlow::AwaitVersions, PortReply::PromptVersions(r)) => s
                == Step::<ListPromptVersionsFlow, Vec<PromptVersion>>::Done(r),
            _ => false,
        }
    }

    /// Starts listing, by looking up the default prompt.
    pub fn start() -> (s: Step<ListPromptVersionsFlow, Vec<PromptVersion>>)
        ensures
            Self::pairs(s),
            s matches Step::Call(f, c) && f == ListPromptVersionsFlow::AwaitPrompt && finds_default_prompt(c),
    {
        Step::Call(ListPromptVersionsFlow::AwaitPrompt, find_default_prompt_call())
    }

    pub fn resume(self, reply: PortReply) -> (s: Step<ListPromptVersionsFlow, Vec<PromptVersion>>)
        requires
            kind_of(reply) == self.awaited(),
        ensures
            Self::pairs(s),
            self.steps_to(reply, s),
    {
        match (self, reply) {
            (ListPromptVersionsFlow::AwaitPrompt, PortReply::MaybePrompt(r)) => match r {
                Err(e) => Step::Done(Err(e)),
                Ok(None) => Step::Done(Err(missing_prompt_error())),
                Ok(Some(prompt)) => Step::Call(
                    ListPromptVersionsFlow::AwaitVersions,
                    PortCall::ListPromptVersions { prompt_id: prompt.id },
                ),
            },
            (ListPromptVersionsFlow::AwaitVersions, PortReply::PromptVersions(r)) => Step::Done(r),
            _ => unreached(),
        }
    }
}

/// Adding a new version to the default prompt. The new version is not made active.
#[derive(Debug)]
pub enum CreatePromptVersionFlow {
    AwaitPrompt { prompt_content: String },
    AwaitVersion,
}

impl CreatePromptVersionFlow {
    /// The call of `s`, if any, is answered by the kind of reply that the flow then awaits.
    pub open spec fn pairs(s: Step<CreatePromptVersionFlow, PromptVersion>) -> bool {
        s matches Step::Call(f, c) ==> f.awaited() == answer_kind(c)
    }

    pub open spec fn awaited(self) -> ReplyKind {
        match self {
            CreatePromptVersionFlow::AwaitPrompt { .. } => ReplyKind::MaybePrompt,
            CreatePromptVersionFlow::AwaitVersion => ReplyKind::PromptVersion,
        }
    }

    pub open spec fn steps_to(self, reply: PortReply, s: Step<CreatePromptVersionFlow, PromptVersion>) -> bool {
        match (self, reply) {
            (CreatePromptVersionFlow::AwaitPrompt { prompt_content }, PortReply::MaybePrompt(r)) => match r {
                Err(e) => s == Step::<CreatePromptVersionFlow, PromptVersion>::Done(Err(e)),
                Ok(None) => s matches Step::Done(Err(e)) && e.is_not_found(missing_prompt_message()),
                Ok(Some(prompt)) => s == Step::<CreatePromptVersionFlow, PromptVersion>::Call(
                    CreatePromptVersionFlow::AwaitVersion,
                    PortCall::CreatePromptVersion { prompt_id: prompt.id, prompt_content },
                ),
            },
            (CreatePromptVersionFlow::AwaitVersion, PortReply::PromptVersion(r)) => s
                == Step::<CreatePromptVersionFlow, PromptVersion>::Done(r),
            _ => false,
        }
    }

    /// Starts adding `prompt_content`, trimmed; blank content is refused.
    pub fn start(prompt_content: String) -> (s: Step<CreatePromptVersionFlow, PromptVersion>)
        ensures
            Self::pairs(s),
            is_blank(prompt_content@) ==> (s matches Step::Done(Err(e)) && e.is_validation(
                "prompt content must not be empty"@,
            )),
            !is_blank(prompt_content@) ==> (s matches Step::Call(f, c) && (f matches CreatePromptVersionFlow::AwaitPrompt { prompt_content: p } && p@ == trim(prompt_content@)) && finds_default_prompt(c)),
    {
        if is_blank_str(prompt_content.as_str()) {
            return Step::Done(Err(AppError::Validation(owned("prompt content must not be empty"))));
        }
        let prompt_content = trim_str(prompt_content.as_str());
        Step::Call(CreatePromptVersionFlow::AwaitPrompt { prompt_content }, find_default_prompt_call())
    }

    pub fn resume(self, reply: PortReply) -> (s: Step<CreatePromptVersionFlow, PromptVersion>)
        requires
            kind_of(reply) == self.awaited(),
        ensures
            Self::pairs(s),
            self.steps_to(reply, s),
    {
        match (self, reply) {
            (CreatePromptVersionFlow::AwaitPrompt { prompt_content }, PortReply::MaybePrompt(r)) => match r {
                Err(e) => Step::Done(Err(e)),
                Ok(None) => Step::Done(Err(missing_prompt_error())),
                Ok(Some(prompt)) => Step::Call(
                    CreatePromptVersionFlow::AwaitVersion,
                    PortCall::CreatePromptVersion { prompt_id: prompt.id, prompt_content },
                ),
            },
            (CreatePromptVersionFlow::AwaitVersion, PortReply::PromptVersion(r)) => Step::Done(r),
            _ => unreached(),
        }
    }
}

/// Making a version of the default prompt the active one, then loading the prompt's details.
#[derive(Debug)]
pub enum SetActivePromptVersionFlow {
    AwaitPrompt { version_id: String },
    AwaitUpdate,
    AwaitDetails { details: DefaultPromptFlow },
}

impl SetActivePromptVersionFlow {
    /// The call of `s`, if any, is answered by the kind of reply that the flow then awaits.
    pub open spec fn pairs(s: Step<SetActivePromptVersionFlow, DefaultPromptDetails>) -> bool {
        s matches Step::Call(f, c) ==> f.awaited() == answer_kind(c)
    }

    pub open spec fn awaited(self) -> ReplyKind {
        match self {
            SetActivePromptVersionFlow::AwaitPrompt { .. } => ReplyKind::MaybePrompt,
            SetActivePromptVersionFlow::AwaitUpdate => ReplyKind::Prompt,
            SetActivePromptVersionFlow::AwaitDetails { details } => details.awaited(),
        }
    }

    /// `s` is the step `inner` of loading the prompt's details, taken within this flow.
    pub open spec fn lifts(
        inner: Step<DefaultPromptFlow, DefaultPromptDetails>,
        s: Step<SetActivePromptVersionFlow, DefaultPromptDetails>,
    ) -> bool {
        match inner {
            Step::Call(f, c) => s == Step::<SetActivePromptVersionFlow, DefaultPromptDetails>::Call(
                SetActivePromptVersionFlow::AwaitDetails { details: f },
                c,
            ),
            Step::Done(r) => s == Step::<SetActivePromptVersionFlow, DefaultPromptDetails>::Done(r),
        }
    }

    pub open spec fn steps_to(self, reply: PortReply, s: Step<SetActivePromptVersionFlow, DefaultPromptDetails>) -> bool {
        match (self, reply) {
            (SetActivePromptVersionFlow::AwaitPrompt { version_id }, PortReply::MaybePrompt(r)) => match r {
                Err(e) => s == Step::<SetActivePromptVersionFlow, DefaultPromptDetails>::Done(Err(e)),
                Ok(None) => s matches Step::Done(Err(e)) && e.is_not_found(missing_prompt_message()),
                Ok(Some(prompt)) => s == Step::<SetActivePromptVersionFlow, DefaultPromptDetails>::Call(
                    SetActivePromptVersionFlow::AwaitUpdate,
                    PortCall::SetActivePromptVersion { prompt_id: prompt.id, version_id },
                ),
            },
            (SetActivePromptVersionFlow::AwaitUpdate, PortReply::Prompt(r)) => match r {
                Err(e) => s == Step::<SetActivePromptVersionFlow, DefaultPromptDetails>::Done(Err(e)),
                Ok(prompt) => exists|inner| DefaultPromptFlow::loads_details(prompt, inner) && Self::lifts(inner, s),
            },
            (SetActivePromptVersionFlow::AwaitDetails { details }, reply) => exists|inner|
                details.steps_to(reply, inner) && Self::lifts(inner, s),
            _ => false,
        }
    }

    /// Starts activating the version `version_id`.
    pub fn start(version_id: String) -> (s: Step<SetActivePromptVersionFlow, DefaultPromptDetails>)
        ensures
            Self::pairs(s),
            s matches Step::Call(f, c) && f == (SetActivePromptVersionFlow::AwaitPrompt { version_id })
                && finds_default_prompt(c),
    {
        Step::Call(SetActivePromptVersionFlow::AwaitPrompt { version_id }, find_default_prompt_call())
    }

    fn lift(inner: Step<DefaultPromptFlow, DefaultPromptDetails>) -> (s: Step<SetActivePromptVersionFlow, DefaultPromptDetails>)
        requires
            DefaultPromptFlow::pairs(inner),
        ensures
            Self::pairs(s),
            Self::lifts(inner, s),
    {
        match inner {
            Step::Call(f, c) => Step::Call(SetActivePromptVersionFlow::AwaitDetails { details: f }, c),
            Step::Done(r) => Step::Done(r),
        }
    }

    pub fn resume(self, reply: PortReply) -> (s: Step<SetActivePromptVersionFlow, DefaultPromptDetails>)
        requires
            kind_of(reply) == self.awaited(),
        ensures
            Self::pairs(s),
            self.steps_to(reply, s),
    {
        match self {
            SetActivePromptVersionFlow::AwaitPrompt { version_id } => match reply {
                PortReply::MaybePrompt(r) => match r {
                    Err(e) => Step::Done(Err(e)),
                    Ok(None) => Step::Done(Err(missing_prompt_error())),
                    Ok(Some(prompt)) => Step::Call(
                        SetActivePromptVersionFlow::AwaitUpdate,
                        PortCall::SetActivePromptVersion { prompt_id: prompt.id, version_id },
                    ),
                },
                _ => unreached(),
            },
            SetActivePromptVersionFlow::AwaitUpdate => match reply {
                PortReply::Prompt(r) => match r {
                    Err(e) => Step::Done(Err(e)),
                    Ok(prompt) => {
                        let ghost p = prompt;
                        let inner = DefaultPromptFlow::load_details(prompt);
                        Self::lift(inner)
                    },
                },
                _ => unreached(),
            },
            SetActivePromptVersionFlow::AwaitDetails { details } => {
                let inner = details.resume(reply);
                Self::lift(inner)
            },
        }
    }
}

} // verus!
