use vstd::pervasive::unreached;
use vstd::prelude::*;

use crate::domain::provider::{builtin_models, is_builtin_list, validate_model_id};
use crate::domain::{ProviderModelListResult, ProviderSettings, ProviderType};
use crate::error::AppError;
use crate::ports::{answer_kind, kind_of, PortCall, PortReply, ReplyKind, Step};
use crate::text::{concat2, is_blank, is_blank_str, owned, trim, trim_str};

verus! {

/// The provider settings as shown to the user: whether a key is stored, never the key.
#[derive(Debug, Clone, PartialEq, Eq)]
pub struct AiProviderSettingsSummary {
    pub provider_type: ProviderType,
    pub default_model: String,
    pub has_api_key: bool,
    pub updated_at: String,
}

/// The outcome of a successful connection test.
#[derive(Debug, Clone, PartialEq, Eq)]
pub struct ProviderConnectionResult {
    pub provider_type: ProviderType,
    pub message: String,
}

/// The name of a provider as shown to the user.
pub open spec fn display_name(provider_type: ProviderType) -> Seq<char> {
    match provider_type {
        ProviderType::DeepSeek => "DeepSeek"@,
        ProviderType::Qwen => "Qwen"@,
        ProviderType::OpenAI => "OpenAI"@,
        ProviderType::Gemini => "Gemini"@,
    }
}

/// The name of a provider as shown to the user.
pub fn provider_display_name(provider_type: ProviderType) -> (s: &'static str)
    ensures
        s@ == display_name(provider_type),
{
    match provider_type {
        ProviderType::DeepSeek => "DeepSeek",
        ProviderType::Qwen => "Qwen",
        ProviderType::OpenAI => "OpenAI",
        ProviderType::Gemini => "Gemini",
    }
}

/// A key typed by the user, trimmed; `None` when none was typed or it is blank.
pub open spec fn given_key(api_key: Option<String>) -> Option<Seq<char>> {
    match api_key {
        Some(k) if !is_blank(k@) => Some(trim(k@)),
        _ => None,
    }
}

fn typed_key(api_key: &Option<String>) -> (r: Option<String>)
    ensures
        match r {
            Some(k) => given_key(*api_key) == Some(k@),
            None => given_key(*api_key) is None,
        },
{
    match api_key {
        Some(k) => if is_blank_str(k.as_str()) {
            None
        } else {
            Some(trim_str(k.as_str()))
        },
        None => None,
    }
}

/// Reading the provider settings and whether a key is stored for the provider.
#[derive(Debug)]
pub enum GetSettingsFlow {
    AwaitSettings,
    AwaitKey { settings: ProviderSettings },
}

impl GetSettingsFlow {
    /// The call of `s`, if any, is answered by the kind of reply that the flow then awaits.
    pub open spec fn pairs(s: Step<GetSettingsFlow, Option<AiProviderSettingsSummary>>) -> bool {
        s matches Step::Call(f, c) ==> f.awaited() == answer_kind(c)
    }

    pub open spec fn awaited(self) -> ReplyKind {
        match self {
            GetSettingsFlow::AwaitSettings => ReplyKind::MaybeProviderSettings,
            GetSettingsFlow::AwaitKey { .. } => ReplyKind::MaybeApiKey,
        }
    }

    pub open spec fn steps_to(self, reply: PortReply, s: Step<GetSettingsFlow, Option<AiProviderSettingsSummary>>) -> bool {
        match (self, reply) {
            (GetSettingsFlow::AwaitSettings, PortReply::MaybeProviderSettings(r)) => match r {
                Err(e) => s == Step::<GetSettingsFlow, Option<AiProviderSettingsSummary>>::Done(Err(e)),
                Ok(None) => s == Step::<GetSettingsFlow, Option<AiProviderSettingsSummary>>::Done(Ok(None)),
                Ok(Some(settings)) => s == Step::<GetSettingsFlow, Option<AiProviderSettingsSummary>>::Call(
                    GetSettingsFlow::AwaitKey { settings },
                    PortCall::GetApiKey { provider_type: settings.provider_type },
                ),
            },
            (GetSettingsFlow::AwaitKey { settings }, PortReply::MaybeApiKey(r)) => match r {
                Err(e) => s == Step::<GetSettingsFlow, Option<AiProviderSettingsSummary>>::Done(Err(e)),
                Ok(key) => s == Step::<GetSettingsFlow, Option<AiProviderSettingsSummary>>::Done(
                    Ok(
                        Some(
                            AiProviderSettingsSummary {
                                provider_type: settings.provider_type,
                                default_model: settings.default_model,
                                has_api_key: key is Some,
                                updated_at: settings.updated_at,
                            },
                        ),
                    ),
                ),
            },
            _ => false,
        }
    }

    pub fn start() -> (s: Step<GetSettingsFlow, Option<AiProviderSettingsSummary>>)
        ensures
            Self::pairs(s),
            s == Step::<GetSettingsFlow, Option<AiProviderSettingsSummary>>::Call(
                GetSettingsFlow::AwaitSettings,
                PortCall::GetProviderSettings,
            ),
    {
        Step::Call(GetSettingsFlow::AwaitSettings, PortCall::GetProviderSettings)
    }

    pub fn resume(self, reply: PortReply) -> (s: Step<GetSettingsFlow, Option<AiProviderSettingsSummary>>)
        requires
            kind_of(reply) == self.awaited(),
        ensures
            Self::pairs(s),
            self.steps_to(reply, s),
    {
        match (self, reply) {
            (GetSettingsFlow::AwaitSettings, PortReply::MaybeProviderSettings(r)) => match r {
                Err(e) => Step::Done(Err(e)),
                Ok(None) => Step::Done(Ok(None)),
                Ok(Some(settings)) => {
                    let provider_type = settings.provider_type;
                    Step::Call(GetSettingsFlow::AwaitKey { settings }, PortCall::GetApiKey { provider_type })
                },
            },
            (GetSettingsFlow::AwaitKey { settings }, PortReply::MaybeApiKey(r)) => match r {
                Err(e) => Step::Done(Err(e)),
                Ok(key) => Step::Done(
                    Ok(
                        Some(
                            AiProviderSettingsSummary {
                                provider_type: settings.provider_type,
                                default_model: settings.default_model,
                                has_api_key: key.is_some(),
                                updated_at: settings.updated_at,
                            },
                        ),
                    ),
                ),
            },
            _ => unreached(),
        }
    }
}

/// Saving the provider and its default model, and a key when one is typed. A provider can
/// only be saved without a typed key when a key is already stored for it.
#[derive(Debug)]
pub enum SaveSettingsFlow {
    AwaitExisting { provider_type: ProviderType, default_model: String, api_key: Option<String> },
    AwaitStore { provider_type: ProviderType, default_model: String },
    AwaitSave,
}

impl SaveSettingsFlow {
    /// The call of `s`, if any, is answered by the kind of reply that the flow then awaits.
    pub open spec fn pairs(s: Step<SaveSettingsFlow, AiProviderSettingsSummary>) -> bool {
        s matches Step::Call(f, c) ==> f.awaited() == answer_kind(c)
    }

    pub open spec fn awaited(self) -> ReplyKind {
        match self {
            SaveSettingsFlow::AwaitExisting { .. } => ReplyKind::MaybeApiKey,
            SaveSettingsFlow::AwaitStore { .. } => ReplyKind::Unit,
            SaveSettingsFlow::AwaitSave => ReplyKind::ProviderSettings,
        }
    }

    pub open spec fn steps_to(self, reply: PortReply, s: Step<SaveSettingsFlow, AiProviderSettingsSummary>) -> bool {
        match (self, reply) {
            (SaveSettingsFlow::AwaitExisting { provider_type, default_model, api_key }, PortReply::MaybeApiKey(r)) => match r {
                Err(e) => s == Step::<SaveSettingsFlow, AiProviderSettingsSummary>::Done(Err(e)),
                Ok(existing) => match api_key {
                    Some(key) => s == Step::<SaveSettingsFlow, AiProviderSettingsSummary>::Call(
                        SaveSettingsFlow::AwaitStore { provider_type, default_model },
                        PortCall::SetApiKey { provider_type, api_key: key },
                    ),
                    None => if existing is None {
                        s matches Step::Done(Err(e)) && e.is_validation(
                            "an API key is required when configuring an AI provider for the first time"@,
                        )
                    } else {
                        s == Step::<SaveSettingsFlow, AiProviderSettingsSummary>::Call(
                            SaveSettingsFlow::AwaitSave,
                            PortCall::SaveProviderSettings { provider_type, default_model },
                        )
                    },
                },
            },
            (SaveSettingsFlow::AwaitStore { provider_type, default_model }, PortReply::Unit(r)) => match r {
                Err(e) => s == Step::<SaveSettingsFlow, AiProviderSettingsSummary>::Done(Err(e)),
                Ok(_) => s == Step::<SaveSettingsFlow, AiProviderSettingsSummary>::Call(
                    SaveSettingsFlow::AwaitSave,
                    PortCall::SaveProviderSettings { provider_type, default_model },
                ),
            },
            (SaveSettingsFlow::AwaitSave, PortReply::ProviderSettings(r)) => match r {
                Err(e) => s == Step::<SaveSettingsFlow, AiProviderSettingsSummary>::Done(Err(e)),
                Ok(settings) => s == Step::<SaveSettingsFlow, AiProviderSettingsSummary>::Done(
                    Ok(
                        AiProviderSettingsSummary {
                            provider_type: settings.provider_type,
                            default_model: settings.default_model,
                            has_api_key: true,
                            updated_at: settings.updated_at,
                        },
                    ),
                ),
            },
            _ => false,
        }
    }

    /// Starts saving: the model id is trimmed and must not be blank; a typed key is trimmed
    /// and ignored when blank. The stored key of the provider is looked up first.
    pub fn start(provider_type: ProviderType, default_model: String, api_key: Option<String>) -> (s: Step<SaveSettingsFlow, AiProviderSettingsSummary>)
        ensures
            Self::pairs(s),
            is_blank(default_model@) ==> (s matches Step::Done(Err(e)) && e.is_validation("model id must not be empty"@)),
            !is_blank(default_model@) ==> (s matches Step::Call(
                SaveSettingsFlow::AwaitExisting { provider_type: p, default_model: m, api_key: k },
                PortCall::GetApiKey { provider_type: q },
            ) && p == provider_type && q == provider_type && m@ == trim(default_model@) && match k {
                Some(key) => given_key(api_key) == Some(key@),
                None => given_key(api_key) is None,
            }),
    {
        let default_model = match validate_model_id(default_model.as_str()) {
            Err(e) => {
                return Step::Done(Err(e));
            },
            Ok(m) => m,
        };
        let api_key = typed_key(&api_key);
        Step::Call(
            SaveSettingsFlow::AwaitExisting { provider_type, default_model, api_key },
            PortCall::GetApiKey { provider_type },
        )
    }

    pub fn resume(self, reply: PortReply) -> (s: Step<SaveSettingsFlow, AiProviderSettingsSummary>)
        requires
            kind_of(reply) == self.awaited(),
        ensures
            Self::pairs(s),
            self.steps_to(reply, s),
    {
        match (self, reply) {
            (SaveSettingsFlow::AwaitExisting { provider_type, default_model, api_key }, PortReply::MaybeApiKey(r)) => match r {
                Err(e) => Step::Done(Err(e)),
                Ok(existing) => match api_key {
                    Some(key) => Step::Call(
                        SaveSettingsFlow::AwaitStore { provider_type, default_model },
                        PortCall::SetApiKey { provider_type, api_key: key },
                    ),
                    None => if existing.is_none() {
                        Step::Done(
                            Err(
                                AppError::Validation(
                                    owned("an API key is required when configuring an AI provider for the first time"),
                                ),
                            ),
                        )
                    } else {
                        Step::Call(
                            SaveSettingsFlow::AwaitSave,
                            PortCall::SaveProviderSettings { provider_type, default_model },
                        )
                    },
                },
            },
            (SaveSettingsFlow::AwaitStore { provider_type, default_model }, PortReply::Unit(r)) => match r {
                Err(e) => Step::Done(Err(e)),
                Ok(_) => Step::Call(
                    SaveSettingsFlow::AwaitSave,
                    PortCall::SaveProviderSettings { provider_type, default_model },
                ),
            },
            (SaveSettingsFlow::AwaitSave, PortReply::ProviderSettings(r)) => match r {
                Err(e) => Step::Done(Err(e)),
                Ok(settings) => Step::Done(
                    Ok(
                        AiProviderSettingsSummary {
                            provider_type: settings.provider_type,
                            default_model: settings.default_model,
                            has_api_key: true,
                            updated_at: settings.updated_at,
                        },
                    ),
                ),
            },
            _ => unreached(),
        }
    }
}

/// Testing the connection to the configured provider with its stored key.
#[derive(Debug)]
pub enum TestConnectionFlow {
    AwaitSettings,
    AwaitKey { provider_type: ProviderType },
    AwaitTest { provider_type: ProviderType },
}

impl TestConnectionFlow {
    /// The call of `s`, if any, is answered by the kind of reply that the flow then awaits.
    pub open spec fn pairs(s: Step<TestConnectionFlow, ProviderConnectionResult>) -> bool {
        s matches Step::Call(f, c) ==> f.awaited() == answer_kind(c)
    }

    pub open spec fn awaited(self) -> ReplyKind {
        match self {
            TestConnectionFlow::AwaitSettings => ReplyKind::MaybeProviderSettings,
            TestConnectionFlow::AwaitKey { .. } => ReplyKind::MaybeApiKey,
            TestConnectionFlow::AwaitTest { .. } => ReplyKind::Unit,
        }
    }

    pub open spec fn steps_to(self, reply: PortReply, s: Step<TestConnectionFlow, ProviderConnectionResult>) -> bool {
        match (self, reply) {
            (TestConnectionFlow::AwaitSettings, PortReply::MaybeProviderSettings(r)) => match r {
                Err(e) => s == Step::<TestConnectionFlow, ProviderConnectionResult>::Done(Err(e)),
                Ok(None) => s matches Step::Done(Err(e)) && e.is_validation(
                    "configure and save an AI provider before testing the connection"@,
                ),
                Ok(Some(settings)) => s == Step::<TestConnectionFlow, ProviderConnectionResult>::Call(
                    TestConnectionFlow::AwaitKey { provider_type: settings.provider_type },
                    PortCall::GetApiKey { provider_type: settings.provider_type },
                ),
            },
            (TestConnectionFlow::AwaitKey { provider_type }, PortReply::MaybeApiKey(r)) => match r {
                Err(e) => s == Step::<TestConnectionFlow, ProviderConnectionResult>::Done(Err(e)),
                Ok(None) => s matches Step::Done(Err(e)) && e.is_validation(
                    "the configured AI provider does not have a saved API key"@,
                ),
                Ok(Some(api_key)) => s == Step::<TestConnectionFlow, ProviderConnectionResult>::Call(
                    TestConnectionFlow::AwaitTest { provider_type },
                    PortCall::TestConnection { provider_type, api_key },
                ),
            },
            (TestConnectionFlow::AwaitTest { provider_type }, PortReply::Unit(r)) => match r {
                Err(e) => s == Step::<TestConnectionFlow, ProviderConnectionResult>::Done(Err(e)),
                Ok(_) => s matches Step::Done(Ok(result)) && result.provider_type == provider_type
                    && result.message@ == display_name(provider_type) + " connection succeeded"@,
            },
            _ => false,
        }
    }

    pub fn start() -> (s: Step<TestConnectionFlow, ProviderConnectionResult>)
        ensures
            Self::pairs(s),
            s == Step::<TestConnectionFlow, ProviderConnectionResult>::Call(
                TestConnectionFlow::AwaitSettings,
                PortCall::GetProviderSettings,
            ),
    {
        Step::Call(TestConnectionFlow::AwaitSettings, PortCall::GetProviderSettings)
    }

    pub fn resume(self, reply: PortReply) -> (s: Step<TestConnectionFlow, ProviderConnectionResult>)
        requires
            kind_of(reply) == self.awaited(),
        ensures
            Self::pairs(s),
            self.steps_to(reply, s),
    {
        match (self, reply) {
            (TestConnectionFlow::AwaitSettings, PortReply::MaybeProviderSettings(r)) => match r {
                Err(e) => Step::Done(Err(e)),
                Ok(None) => Step::Done(
                    Err(AppError::Validation(owned("configure and save an AI provider before testing the connection"))),
                ),
                Ok(Some(settings)) => Step::Call(
                    TestConnectionFlow::AwaitKey { provider_type: settings.provider_type },
                    PortCall::GetApiKey { provider_type: settings.provider_type },
                ),
            },
            (TestConnectionFlow::AwaitKey { provider_type }, PortReply::MaybeApiKey(r)) => match r {
                Err(e) => Step::Done(Err(e)),
                Ok(None) => Step::Done(
                    Err(AppError::Validation(owned("the configured AI provider does not have a saved API key"))),
                ),
                Ok(Some(api_key)) => Step::Call(
                    TestConnectionFlow::AwaitTest { provider_type },
                    PortCall::TestConnection { provider_type, api_key },
                ),
            },
            (TestConnectionFlow::AwaitTest { provider_type }, PortReply::Unit(r)) => match r {
                Err(e) => Step::Done(Err(e)),
                Ok(_) => Step::Done(
                    Ok(
                        ProviderConnectionResult {
                            provider_type,
                            message: concat2(provider_display_name(provider_type), " connection succeeded"),
                        },
                    ),
                ),
            },
            _ => unreached(),
        }
    }
}

/// The key looked up for listing models: a stored key that is not blank, as stored. A failure
/// to read the store counts as no key.
pub open spec fn stored_key(r: Result<Option<String>, AppError>) -> Option<String> {
    match r {
        Ok(Some(k)) if !is_blank(k@) => Some(k),
        _ => None,
    }
}

/// `result` is the built-in model list of `provider_type`, marked as a fallback.
pub open spec fn is_builtin_fallback(result: ProviderModelListResult, provider_type: ProviderType) -> bool {
    &&& is_builtin_list(result.models@, provider_type)
    &&& result.used_fallback
    &&& result.fallback_reason matches Some(reason) && reason@
        == "no API key configured for this provider; using built-in model list"@
}

/// Listing the models of a provider, with a typed key, else its stored key, else the
/// built-in list.
#[derive(Debug)]
pub enum ListModelsFlow {
    AwaitStoredKey { provider_type: ProviderType },
    AwaitModels,
}

impl ListModelsFlow {
    /// The call of `s`, if any, is answered by the kind of reply that the flow then awaits.
    pub open spec fn pairs(s: Step<ListModelsFlow, ProviderModelListResult>) -> bool {
        s matches Step::Call(f, c) ==> f.awaited() == answer_kind(c)
    }

    pub open spec fn awaited(self) -> ReplyKind {
        match self {
            ListModelsFlow::AwaitStoredKey { .. } => ReplyKind::MaybeApiKey,
            ListModelsFlow::AwaitModels => ReplyKind::Models,
        }
    }

    pub open spec fn steps_to(self, reply: PortReply, s: Step<ListModelsFlow, ProviderModelListResult>) -> bool {
        match (self, reply) {
            (ListModelsFlow::AwaitStoredKey { provider_type }, PortReply::MaybeApiKey(r)) => match stored_key(r) {
                Some(api_key) => s == Step::<ListModelsFlow, ProviderModelListResult>::Call(
                    ListModelsFlow::AwaitModels,
                    PortCall::ListProviderModels { provider_type, api_key },
                ),
                None => s matches Step::Done(Ok(result)) && is_builtin_fallback(result, provider_type),
            },
            (ListModelsFlow::AwaitModels, PortReply::Models(result)) => s
                == Step::<ListModelsFlow, ProviderModelListResult>::Done(Ok(result)),
            _ => false,
        }
    }

    /// Starts listing: a typed key that is not blank is used, trimmed; otherwise the stored key
    /// of the provider is looked up.
    pub fn start(provider_type: ProviderType, api_key_override: Option<String>) -> (s: Step<ListModelsFlow, ProviderModelListResult>)
        ensures
            Self::pairs(s),
            match given_key(api_key_override) {
                Some(key) => s matches Step::Call(ListModelsFlow::AwaitModels, PortCall::ListProviderModels {
                    provider_type: p,
                    api_key,
                }) && p == provider_type && api_key@ == key,
                None => s == Step::<ListModelsFlow, ProviderModelListResult>::Call(
                    ListModelsFlow::AwaitStoredKey { provider_type },
                    PortCall::GetApiKey { provider_type },
                ),
            },
    {
        match typed_key(&api_key_override) {
            Some(api_key) => Step::Call(ListModelsFlow::AwaitModels, PortCall::ListProviderModels { provider_type, api_key }),
            None => Step::Call(ListModelsFlow::AwaitStoredKey { provider_type }, PortCall::GetApiKey { provider_type }),
        }
    }

    pub fn resume(self, reply: PortReply) -> (s: Step<ListModelsFlow, ProviderModelListResult>)
        requires
            kind_of(reply) == self.awaited(),
        ensures
            Self::pairs(s),
            self.steps_to(reply, s),
    {
        match (self, reply) {
            (ListModelsFlow::AwaitStoredKey { provider_type }, PortReply::MaybeApiKey(r)) => {
                let key = match r {
                    Ok(Some(k)) => if is_blank_str(k.as_str()) {
                        None
                    } else {
                        Some(k)
                    },
                    _ => None,
                };
                match key {
                    Some(api_key) => Step::Call(
                        ListModelsFlow::AwaitModels,
                        PortCall::ListProviderModels { provider_type, api_key },
                    ),
                    None => Step::Done(
                        Ok(
                            ProviderModelListResult {
                                models: builtin_models(provider_type),
                                used_fallback: true,
                                fallback_reason: Some(
                                    owned("no API key configured for this provider; using built-in model list"),
                                ),
                            },
                        ),
                    ),
                }
            },
            (ListModelsFlow::AwaitModels, PortReply::Models(result)) => Step::Done(Ok(result)),
            _ => unreached(),
        }
    }
}

} // verus!
