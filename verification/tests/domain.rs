use second_brain_os::domain::{
    builtin_models, default_model_for_provider, validate_model_id, AiRunStatus, ExportStatus,
    KnowledgeStatus, KnowledgeType, ModelSource, ProviderType,
};
use second_brain_os::services::knowledge_draft::{title_from_summary, MAX_TITLE_CHARACTERS};

#[test]
fn parses_supported_ai_run_statuses() {
    assert_eq!(
        AiRunStatus::try_from("succeeded"),
        Ok(AiRunStatus::Succeeded)
    );
    assert_eq!(AiRunStatus::try_from("failed"), Ok(AiRunStatus::Failed));
    assert!(AiRunStatus::try_from("pending").is_err());
}

#[test]
fn parses_supported_export_statuses() {
    assert_eq!(
        ExportStatus::try_from("succeeded"),
        Ok(ExportStatus::Succeeded)
    );
    assert_eq!(ExportStatus::try_from("failed"), Ok(ExportStatus::Failed));
    assert!(ExportStatus::try_from("pending").is_err());
}

#[test]
fn parses_supported_knowledge_types() {
    let supported = [
        ("concept", KnowledgeType::Concept),
        ("tool", KnowledgeType::Tool),
        ("project", KnowledgeType::Project),
        ("question", KnowledgeType::Question),
        ("solution", KnowledgeType::Solution),
        ("insight", KnowledgeType::Insight),
        ("resource", KnowledgeType::Resource),
        ("person", KnowledgeType::Person),
    ];

    for (value, expected) in supported {
        assert_eq!(KnowledgeType::try_from(value), Ok(expected));
    }
    assert!(KnowledgeType::try_from("note").is_err());
}

#[test]
fn parses_supported_knowledge_statuses() {
    assert_eq!(
        KnowledgeStatus::try_from("proposed"),
        Ok(KnowledgeStatus::Proposed)
    );
    assert_eq!(
        KnowledgeStatus::try_from("accepted"),
        Ok(KnowledgeStatus::Accepted)
    );
    assert_eq!(
        KnowledgeStatus::try_from("archived"),
        Ok(KnowledgeStatus::Archived)
    );
    assert!(KnowledgeStatus::try_from("rejected").is_err());
}

#[test]
fn parses_supported_provider_types() {
    assert_eq!(
        ProviderType::try_from("deepseek"),
        Ok(ProviderType::DeepSeek)
    );
    assert_eq!(ProviderType::try_from("qwen"), Ok(ProviderType::Qwen));
    assert_eq!(ProviderType::try_from("openai"), Ok(ProviderType::OpenAI));
    assert_eq!(ProviderType::try_from("gemini"), Ok(ProviderType::Gemini));
}

#[test]
fn rejects_unknown_provider_type() {
    assert!(ProviderType::try_from("unknown").is_err());
}

#[test]
fn validates_non_empty_model_ids() {
    assert_eq!(
        validate_model_id("gpt-4o").expect("valid model id"),
        "gpt-4o"
    );
    assert!(validate_model_id("   ").is_err());
}

#[test]
fn builtin_models_cover_each_provider() {
    for provider_type in [
        ProviderType::DeepSeek,
        ProviderType::Qwen,
        ProviderType::OpenAI,
        ProviderType::Gemini,
    ] {
        let models = builtin_models(provider_type);
        assert!(!models.is_empty());
        assert!(models
            .iter()
            .all(|model| model.source == ModelSource::Builtin));
        assert!(models
            .iter()
            .all(|model| model.provider_type == provider_type));
    }
}

#[test]
fn default_models_are_present_in_builtin_lists() {
    for provider_type in [
        ProviderType::DeepSeek,
        ProviderType::Qwen,
        ProviderType::OpenAI,
        ProviderType::Gemini,
    ] {
        let default_model = default_model_for_provider(provider_type);
        assert!(builtin_models(provider_type)
            .iter()
            .any(|model| model.id == default_model));
    }
}

#[test]
fn creates_a_unicode_title_with_an_eighty_character_limit() {
    let short = title_from_summary("\n  一   个 标题 \n内容").expect("create short title");
    let long_line = "知".repeat(100);
    let long = title_from_summary(&long_line).expect("create truncated title");

    assert_eq!(short, "一 个 标题");
    assert_eq!(long.chars().count(), MAX_TITLE_CHARACTERS);
    assert!(long.ends_with('…'));
    assert_eq!(
        long.chars().filter(|character| *character == '知').count(),
        79
    );
}
