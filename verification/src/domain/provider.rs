use vstd::prelude::*;

use crate::error::AppError;
use crate::text::{char_count, is_blank, owned, str_eq, trim, trim_str};

verus! {

/// An AI provider that the application can call.
#[derive(Debug, Clone, Copy, PartialEq, Eq, Hash, Structural)]
pub enum ProviderType {
    DeepSeek,
    Qwen,
    OpenAI,
    Gemini,
}

impl ProviderType {
    /// The stored name.
    pub open spec fn name(self) -> Seq<char> {
        match self {
            ProviderType::DeepSeek => "deepseek"@,
            ProviderType::Qwen => "qwen"@,
            ProviderType::OpenAI => "openai"@,
            ProviderType::Gemini => "gemini"@,
        }
    }

    pub fn as_str(self) -> (s: &'static str)
        ensures
            s@ == self.name(),
    {
        match self {
            ProviderType::DeepSeek => "deepseek",
            ProviderType::Qwen => "qwen",
            ProviderType::OpenAI => "openai",
            ProviderType::Gemini => "gemini",
        }
    }

    /// Parses a stored name; any other text is refused with a message naming it.
    pub fn try_from(value: &str) -> (r: Result<ProviderType, String>)
        ensures
            r matches Ok(t) ==> t.name() == value@,
            r is Err <==> forall|t: ProviderType| t.name() != value@,
            r matches Err(m) ==> m@ == "unsupported provider type: "@ + value@,
    {
        if str_eq(value, "deepseek") {
            assert(ProviderType::DeepSeek.name() == value@);
            Ok(ProviderType::DeepSeek)
        } else if str_eq(value, "qwen") {
            assert(ProviderType::Qwen.name() == value@);
            Ok(ProviderType::Qwen)
        } else if str_eq(value, "openai") {
            assert(ProviderType::OpenAI.name() == value@);
            Ok(ProviderType::OpenAI)
        } else if str_eq(value, "gemini") {
            assert(ProviderType::Gemini.name() == value@);
            Ok(ProviderType::Gemini)
        } else {
            assert forall|t: ProviderType| t.name() != value@ by {
                match t {
                    ProviderType::DeepSeek => {},
                    ProviderType::Qwen => {},
                    ProviderType::OpenAI => {},
                    ProviderType::Gemini => {},
                }
            }
            Err(owned("unsupported provider type: ").concat(value))
        }
    }
}

/// Where a model in a model list came from.
#[derive(Debug, Clone, Copy, PartialEq, Eq, Hash, Structural)]
pub enum ModelSource {
    Remote,
    Builtin,
}

/// A model that a provider offers.
#[derive(Debug, Clone, PartialEq, Eq)]
pub struct ProviderModelInfo {
    pub id: String,
    pub label: String,
    pub provider_type: ProviderType,
    pub source: ModelSource,
}

/// A list of models, and whether it is the built-in list standing in for the provider's own.
#[derive(Debug, Clone, PartialEq, Eq)]
pub struct ProviderModelListResult {
    pub models: Vec<ProviderModelInfo>,
    pub used_fallback: bool,
    pub fallback_reason: Option<String>,
}

/// The saved choice of provider and default model.
#[derive(Debug, Clone, PartialEq, Eq)]
pub struct ProviderSettings {
    pub provider_type: ProviderType,
    pub default_model: String,
    pub created_at: String,
    pub updated_at: String,
}

/// The models that each provider is known to offer, as `(id, label)` pairs in display order.
pub open spec fn builtin_entries(provider_type: ProviderType) -> Seq<(Seq<char>, Seq<char>)> {
    match provider_type {
        ProviderType::DeepSeek => seq![
            ("deepseek-v4-flash"@, "DeepSeek V4 Flash"@),
            ("deepseek-v4-pro"@, "DeepSeek V4 Pro"@),
        ],
        ProviderType::Qwen => seq![
            ("qwen-plus"@, "Qwen Plus"@),
            ("qwen-turbo"@, "Qwen Turbo"@),
            ("qwen-max"@, "Qwen Max"@),
            ("qwen-flash"@, "Qwen Flash"@),
            ("qwen-long"@, "Qwen Long"@),
            ("qwen-coder-plus"@, "Qwen Coder Plus"@),
        ],
        ProviderType::OpenAI => seq![
            ("gpt-4.1"@, "GPT-4.1"@),
            ("gpt-4o"@, "GPT-4o"@),
            ("gpt-4o-mini"@, "GPT-4o Mini"@),
            ("gpt-4.1-mini"@, "GPT-4.1 Mini"@),
            ("gpt-4-turbo"@, "GPT-4 Turbo"@),
            ("o3-mini"@, "o3-mini"@),
        ],
        ProviderType::Gemini => seq![
            ("gemini-2.5-flash"@, "Gemini 2.5 Flash"@),
            ("gemini-2.5-pro"@, "Gemini 2.5 Pro"@),
            ("gemini-2.0-flash"@, "Gemini 2.0 Flash"@),
            ("gemini-1.5-flash"@, "Gemini 1.5 Flash"@),
            ("gemini-1.5-pro"@, "Gemini 1.5 Pro"@),
        ],
    }
}

/// The model that a provider is configured with until the user picks another.
pub open spec fn default_model(provider_type: ProviderType) -> Seq<char> {
    match provider_type {
        ProviderType::DeepSeek => "deepseek-v4-flash"@,
        ProviderType::Qwen => "qwen-plus"@,
        ProviderType::OpenAI => "gpt-4o"@,
        ProviderType::Gemini => "gemini-2.5-flash"@,
    }
}

/// `model` is the built-in entry `entry` of `provider_type`.
pub open spec fn is_builtin_model(
    model: ProviderModelInfo,
    provider_type: ProviderType,
    entry: (Seq<char>, Seq<char>),
) -> bool {
    &&& model.id@ == entry.0
    &&& model.label@ == entry.1
    &&& model.provider_type == provider_type
    &&& model.source == ModelSource::Builtin
}

/// `models` is, in order, the built-in list of `provider_type`.
pub open spec fn is_builtin_list(models: Seq<ProviderModelInfo>, provider_type: ProviderType) -> bool {
    &&& models.len() == builtin_entries(provider_type).len()
    &&& forall|i: int|
        0 <= i < models.len() ==> is_builtin_model(
            #[trigger] models[i],
            provider_type,
            builtin_entries(provider_type)[i],
        )
}

/// The label of the first entry whose id is `id`; `id` itself if there is none.
pub open spec fn label_in(entries: Seq<(Seq<char>, Seq<char>)>, id: Seq<char>) -> Seq<char>
    decreases entries.len(),
{
    if entries.len() == 0 {
        id
    } else if entries[0].0 == id {
        entries[0].1
    } else {
        label_in(entries.drop_first(), id)
    }
}

/// A model id with white space trimmed; a blank id is refused.
pub fn validate_model_id(value: &str) -> (r: Result<String, AppError>)
    ensures
        is_blank(value@) ==> (r matches Err(AppError::Validation(m)) && m@
            == "model id must not be empty"@),
        !is_blank(value@) ==> (r matches Ok(id) && id@ == trim(value@)),
{
    let trimmed = trim_str(value);
    if char_count(trimmed.as_str()) == 0 {
        return Err(AppError::Validation(owned("model id must not be empty")));
    }
    Ok(trimmed)
}

/// The model that a newly configured provider starts with.
pub fn default_model_for_provider(provider_type: ProviderType) -> (m: String)
    ensures
        m@ == default_model(provider_type),
{
    match provider_type {
        ProviderType::DeepSeek => owned("deepseek-v4-flash"),
        ProviderType::Qwen => owned("qwen-plus"),
        ProviderType::OpenAI => owned("gpt-4o"),
        ProviderType::Gemini => owned("gemini-2.5-flash"),
    }
}

fn builtin_entry(provider_type: ProviderType, id: &str, label: &str) -> (m: ProviderModelInfo)
    ensures
        m.id@ == id@,
        m.label@ == label@,
        m.provider_type == provider_type,
        m.source == ModelSource::Builtin,
{
    ProviderModelInfo {
        id: owned(id),
        label: owned(label),
        provider_type,
        source: ModelSource::Builtin,
    }
}

/// The built-in model list of a provider, used when its own list cannot be had.
pub fn builtin_models(provider_type: ProviderType) -> (models: Vec<ProviderModelInfo>)
    ensures
        is_builtin_list(models@, provider_type),
{
    let mut models: Vec<ProviderModelInfo> = Vec::new();
    match provider_type {
        ProviderType::DeepSeek => {
            models.push(builtin_entry(provider_type, "deepseek-v4-flash", "DeepSeek V4 Flash"));
            models.push(builtin_entry(provider_type, "deepseek-v4-pro", "DeepSeek V4 Pro"));
        },
        ProviderType::Qwen => {
            models.push(builtin_entry(provider_type, "qwen-plus", "Qwen Plus"));
            models.push(builtin_entry(provider_type, "qwen-turbo", "Qwen Turbo"));
            models.push(builtin_entry(provider_type, "qwen-max", "Qwen Max"));
            models.push(builtin_entry(provider_type, "qwen-flash", "Qwen Flash"));
            models.push(builtin_entry(provider_type, "qwen-long", "Qwen Long"));
            models.push(builtin_entry(provider_type, "qwen-coder-plus", "Qwen Coder Plus"));
        },
        ProviderType::OpenAI => {
            models.push(builtin_entry(provider_type, "gpt-4.1", "GPT-4.1"));
            models.push(builtin_entry(provider_type, "gpt-4o", "GPT-4o"));
            models.push(builtin_entry(provider_type, "gpt-4o-mini", "GPT-4o Mini"));
            models.push(builtin_entry(provider_type, "gpt-4.1-mini", "GPT-4.1 Mini"));
            models.push(builtin_entry(provider_type, "gpt-4-turbo", "GPT-4 Turbo"));
            models.push(builtin_entry(provider_type, "o3-mini", "o3-mini"));
        },
        ProviderType::Gemini => {
            models.push(builtin_entry(provider_type, "gemini-2.5-flash", "Gemini 2.5 Flash"));
            models.push(builtin_entry(provider_type, "gemini-2.5-pro", "Gemini 2.5 Pro"));
            models.push(builtin_entry(provider_type, "gemini-2.0-flash", "Gemini 2.0 Flash"));
            models.push(builtin_entry(provider_type, "gemini-1.5-flash", "Gemini 1.5 Flash"));
            models.push(builtin_entry(provider_type, "gemini-1.5-pro", "Gemini 1.5 Pro"));
        },
    }
    models
}

/// The display label of a model: that of the built-in entry with this id, else the id itself.
pub fn model_label(provider_type: ProviderType, model_id: &str) -> (label: String)
    ensures
        label@ == label_in(builtin_entries(provider_type), model_id@),
{
    let models = builtin_models(provider_type);
    let ghost entries = builtin_entries(provider_type);
    let mut i: usize = 0;
    assert(entries.subrange(0, entries.len() as int) == entries);
    while i < models.len()
        invariant
            i <= models.len(),
            is_builtin_list(models@, provider_type),
            entries == builtin_entries(provider_type),
            label_in(entries, model_id@) == label_in(entries.subrange(i as int, entries.len() as int), model_id@),
        decreases models.len() - i,
    {
        let ghost rest = entries.subrange(i as int, entries.len() as int);
        assert(is_builtin_model(models@[i as int], provider_type, entries[i as int]));
        assert(rest[0] == entries[i as int]);
        if str_eq(models[i].id.as_str(), model_id) {
            return models[i].label.clone();
        }
        assert(rest.drop_first() == entries.subrange(i + 1, entries.len() as int));
        i += 1;
    }
    assert(entries.subrange(i as int, entries.len() as int).len() == 0);
    owned(model_id)
}

} // verus!
