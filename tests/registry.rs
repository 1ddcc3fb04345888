use std::collections::HashSet;
use zeroclaw::registry::{
    all_integrations, ChannelKind, HostOs, IntegrationCategory, IntegrationContext,
    IntegrationStatus, ProviderFamily,
};

fn empty_context() -> IntegrationContext {
    IntegrationContext {
        channels: vec![],
        default_provider: None,
        provider_family: None,
        default_model: None,
        has_api_key: false,
        host: HostOs::Other,
    }
}

fn status_of(name: &str, ctx: &IntegrationContext) -> IntegrationStatus {
    let entries = all_integrations();
    let entry = entries.iter().find(|e| e.name == name).unwrap();
    entry.status_in(ctx)
}

#[test]
fn registry_has_entries() {
    let entries = all_integrations();
    assert!(
        entries.len() >= 50,
        "Expected 50+ integrations, got {}",
        entries.len()
    );
}

#[test]
fn all_categories_represented() {
    let entries = all_integrations();
    for cat in IntegrationCategory::all() {
        let count = entries.iter().filter(|e| e.category == *cat).count();
        assert!(count > 0, "Category {cat:?} has no entries");
    }
}

#[test]
fn status_functions_dont_panic() {
    let config = empty_context();
    let entries = all_integrations();
    for entry in &entries {
        let _ = entry.status_in(&config);
    }
}

#[test]
fn no_duplicate_names() {
    let entries = all_integrations();
    let mut seen = HashSet::new();
    for entry in &entries {
        assert!(
            seen.insert(entry.name),
            "Duplicate integration name: {}",
            entry.name
        );
    }
}

#[test]
fn no_empty_names_or_descriptions() {
    let entries = all_integrations();
    for entry in &entries {
        assert!(!entry.name.is_empty(), "Found integration with empty name");
        assert!(
            !entry.description.is_empty(),
            "Integration '{}' has empty description",
            entry.name
        );
    }
}

#[test]
fn telegram_active_when_configured() {
    let mut config = empty_context();
    config.channels.push(ChannelKind::Telegram);
    assert!(matches!(
        status_of("Telegram", &config),
        IntegrationStatus::Active
    ));
}

#[test]
fn telegram_available_when_not_configured() {
    let config = empty_context();
    assert!(matches!(
        status_of("Telegram", &config),
        IntegrationStatus::Available
    ));
}

#[test]
fn imessage_active_when_configured() {
    let mut config = empty_context();
    config.channels.push(ChannelKind::IMessage);
    assert!(matches!(
        status_of("iMessage", &config),
        IntegrationStatus::Active
    ));
}

#[test]
fn imessage_available_when_not_configured() {
    let config = empty_context();
    assert!(matches!(
        status_of("iMessage", &config),
        IntegrationStatus::Available
    ));
}

#[test]
fn matrix_active_when_configured() {
    let mut config = empty_context();
    config.channels.push(ChannelKind::Matrix);
    assert!(matches!(
        status_of("Matrix", &config),
        IntegrationStatus::Active
    ));
}

#[test]
fn matrix_available_when_not_configured() {
    let config = empty_context();
    assert!(matches!(
        status_of("Matrix", &config),
        IntegrationStatus::Available
    ));
}

#[test]
fn coming_soon_integrations_stay_coming_soon() {
    let config = empty_context();
    for name in ["Nostr", "Spotify", "Home Assistant"] {
        assert!(
            matches!(status_of(name, &config), IntegrationStatus::ComingSoon),
            "{name} should be ComingSoon"
        );
    }
}

#[test]
fn whatsapp_available_when_not_configured() {
    let config = empty_context();
    assert!(matches!(
        status_of("WhatsApp", &config),
        IntegrationStatus::Available
    ));
}

#[test]
fn email_available_when_not_configured() {
    let config = empty_context();
    assert!(matches!(
        status_of("Email", &config),
        IntegrationStatus::Available
    ));
}

#[test]
fn shell_and_filesystem_always_active() {
    let config = empty_context();
    for name in ["Shell", "File System"] {
        assert!(
            matches!(status_of(name, &config), IntegrationStatus::Active),
            "{name} should always be Active"
        );
    }
}

#[test]
fn macos_active_on_macos() {
    let mut config = empty_context();
    config.host = HostOs::MacOs;
    assert!(matches!(
        status_of("macOS", &config),
        IntegrationStatus::Active
    ));
    config.host = HostOs::Linux;
    assert!(matches!(
        status_of("macOS", &config),
        IntegrationStatus::Available
    ));
}

#[test]
fn category_counts_reasonable() {
    let entries = all_integrations();
    let chat_count = entries
        .iter()
        .filter(|e| e.category == IntegrationCategory::Chat)
        .count();
    let ai_count = entries
        .iter()
        .filter(|e| e.category == IntegrationCategory::AiModel)
        .count();
    assert!(
        chat_count >= 5,
        "Expected 5+ chat integrations, got {chat_count}"
    );
    assert!(
        ai_count >= 5,
        "Expected 5+ AI model integrations, got {ai_count}"
    );
}

#[test]
fn regional_provider_aliases_activate_expected_ai_integrations() {
    let cases = [
        ("minimax-cn", ProviderFamily::Minimax, "MiniMax"),
        ("glm-cn", ProviderFamily::Glm, "GLM"),
        ("moonshot-intl", ProviderFamily::Moonshot, "Moonshot"),
        ("qwen-intl", ProviderFamily::Qwen, "Qwen"),
        ("zai-cn", ProviderFamily::Zai, "Z.AI"),
        ("baidu", ProviderFamily::Qianfan, "Qianfan"),
    ];
    for (provider, family, name) in cases {
        let mut config = empty_context();
        config.default_provider = Some(provider.to_string());
        config.provider_family = Some(family);
        assert!(matches!(
            status_of(name, &config),
            IntegrationStatus::Active
        ));
    }
}

#[test]
fn provider_and_model_rules_follow_the_configuration() {
    let mut config = empty_context();
    config.default_provider = Some("openrouter".to_string());
    assert!(matches!(
        status_of("OpenRouter", &config),
        IntegrationStatus::Available
    ));
    config.has_api_key = true;
    assert!(matches!(
        status_of("OpenRouter", &config),
        IntegrationStatus::Active
    ));
    config.default_provider = Some("anthropic".to_string());
    assert!(matches!(
        status_of("Anthropic", &config),
        IntegrationStatus::Active
    ));
    assert!(matches!(
        status_of("OpenAI", &config),
        IntegrationStatus::Available
    ));
    config.default_model = Some("google/gemini-3".to_string());
    assert!(matches!(
        status_of("Google", &config),
        IntegrationStatus::Active
    ));
    config.default_model = Some("goo".to_string());
    assert!(matches!(
        status_of("Google", &config),
        IntegrationStatus::Available
    ));
}
