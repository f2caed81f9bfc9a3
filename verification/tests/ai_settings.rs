use luoli::ai_config::{
    AiConfigError, AiConfigManager, AiGlobalSettings, AiProvider, AiProviderConfig,
    ModelListShape, TEMPERATURE_0_7_BITS,
};

#[test]
fn test_ai_provider_display() {
    assert_eq!(AiProvider::OpenAi.to_string(), "OpenAI");
    assert_eq!(AiProvider::DeepSeek.to_string(), "DeepSeek");
    assert_eq!(AiProvider::Ollama.to_string(), "Ollama");
}

#[test]
fn test_provider_config_validation() {
    let config = AiProviderConfig::new("Test".to_string(), AiProvider::OpenAi);
    assert!(config.validate().is_ok());

    let mut invalid_config = config.clone();
    invalid_config.api_endpoint = "".to_string();
    assert!(invalid_config.validate().is_err());
}

#[test]
fn test_config_manager() {
    let mut manager = AiConfigManager::new();

    let config = AiProviderConfig::new("Test".to_string(), AiProvider::Ollama);
    manager.add_provider(config).unwrap_or_else(|_| panic!("valid"));

    assert_eq!(manager.providers.len(), 1);
    assert!(manager.get_provider("Test").is_some());

    manager.remove_provider("Test").unwrap_or_else(|_| panic!("present"));
    assert_eq!(manager.providers.len(), 0);
}

#[test]
fn provider_names_and_endpoints() {
    assert_eq!(AiProvider::ChatGpt.to_string(), "ChatGPT");
    assert_eq!(AiProvider::Custom.to_string(), "Custom");
    assert_eq!(AiProvider::OpenAi.default_endpoint(), "https://api.openai.com/v1");
    assert_eq!(AiProvider::DeepSeek.default_endpoint(), "https://api.deepseek.com/v1");
    assert_eq!(AiProvider::Ollama.default_endpoint(), "http://localhost:11434");
    assert_eq!(AiProvider::ChatGpt.default_endpoint(), "https://api.openai.com/v1");
    assert_eq!(AiProvider::Custom.default_endpoint(), "");
    assert_eq!(AiProvider::Custom.cli_default_endpoint(), "http://localhost:8000/v1");
    assert_eq!(AiProvider::Ollama.cli_default_endpoint(), "http://localhost:11434");
}

#[test]
fn custom_provider_needs_an_endpoint() {
    let c = AiProviderConfig::new("mine".to_string(), AiProvider::Custom);
    match c.validate() {
        Err(e) => {
            assert!(matches!(e, AiConfigError::EmptyEndpoint));
            assert_eq!(e.message(), "API 端点不能为空");
        }
        Ok(()) => panic!("empty endpoint"),
    }
    let c = c.with_endpoint("http://x".to_string());
    assert!(c.validate().is_ok());
}

#[test]
fn builders_and_defaults() {
    let c = AiProviderConfig::new("a".to_string(), AiProvider::DeepSeek)
        .with_api_key("k".to_string())
        .with_default_model("m".to_string());
    assert_eq!(c.api_key, "k");
    assert_eq!(c.default_model.as_deref(), Some("m"));
    assert_eq!(c.timeout_secs, 30);
    assert!(c.enabled);
    assert!(c.max_tokens.is_none());
    let g = AiGlobalSettings::default();
    assert_eq!(g.default_max_tokens, 2048);
    assert_eq!(f32::from_bits(g.default_temperature_bits), 0.7f32);
    assert_eq!(g.request_timeout_secs, 60);
    assert_eq!(g.retry_attempts, 3);
    assert!(g.enable_streaming);
    assert_eq!(TEMPERATURE_0_7_BITS, 0.7f32.to_bits());
}

#[test]
fn from_cli_fills_defaults() {
    let c = AiProviderConfig::from_cli(
        "x".to_string(),
        AiProvider::Custom,
        "key".to_string(),
        None,
        Some("gpt".to_string()),
    );
    assert_eq!(c.api_endpoint, "http://localhost:8000/v1");
    assert_eq!(c.max_tokens, Some(4096));
    assert_eq!(c.temperature_bits.map(f32::from_bits), Some(0.7f32));
    assert_eq!(c.default_model.as_deref(), Some("gpt"));
}

#[test]
fn active_provider_follows_changes() {
    let mut m = AiConfigManager::new();
    assert!(m.get_active_provider().is_none());
    m.add_provider(AiProviderConfig::new("a".to_string(), AiProvider::Ollama))
        .unwrap_or_else(|_| panic!("ok"));
    m.add_provider(AiProviderConfig::new("b".to_string(), AiProvider::OpenAi))
        .unwrap_or_else(|_| panic!("ok"));
    assert_eq!(m.active_provider.as_deref(), Some("a"));
    m.set_active_provider("b").unwrap_or_else(|_| panic!("present"));
    assert_eq!(m.get_active_provider().map(|p| p.name.as_str()), Some("b"));
    match m.set_active_provider("zzz") {
        Err(e) => assert_eq!(e.message(), "Provider 'zzz' 不存在"),
        Ok(()) => panic!("unknown"),
    }
    m.remove_provider("b").unwrap_or_else(|_| panic!("present"));
    assert_eq!(m.active_provider.as_deref(), Some("a"));
    m.remove_provider("a").unwrap_or_else(|_| panic!("present"));
    assert!(m.active_provider.is_none());
    assert!(m.remove_provider("a").is_err());
}

#[test]
fn update_and_default_model() {
    let mut m = AiConfigManager::new();
    m.add_provider(AiProviderConfig::new("a".to_string(), AiProvider::Ollama))
        .unwrap_or_else(|_| panic!("ok"));
    m.set_default_model("a", "llama3").unwrap_or_else(|_| panic!("present"));
    assert_eq!(m.get_provider("a").and_then(|p| p.default_model.clone()).as_deref(), Some("llama3"));
    assert!(m.set_default_model("b", "x").is_err());
    let replacement = AiProviderConfig::new("other".to_string(), AiProvider::DeepSeek);
    m.update_provider("a", replacement).unwrap_or_else(|_| panic!("present"));
    assert_eq!(m.get_provider("a").map(|p| p.provider), Some(AiProvider::DeepSeek));
    assert_eq!(m.providers.len(), 1);
    let bad = AiProviderConfig::new("c".to_string(), AiProvider::Custom);
    assert!(matches!(m.update_provider("a", bad), Err(AiConfigError::EmptyEndpoint)));
    assert!(matches!(
        m.update_provider("nope", AiProviderConfig::new("n".to_string(), AiProvider::Ollama)),
        Err(AiConfigError::ProviderNotFound { .. })
    ));
    assert!(m.has_unique_names());
}

#[test]
fn default_configs() {
    let cs = AiConfigManager::create_default_configs();
    let names: Vec<&str> = cs.iter().map(|c| c.name.as_str()).collect();
    assert_eq!(names, vec!["Ollama 本地", "OpenAI", "DeepSeek", "ChatGPT"]);
    assert_eq!(cs[0].api_endpoint, "http://localhost:11434");
}

#[test]
fn models_requests() {
    let c = AiProviderConfig::new("o".to_string(), AiProvider::Ollama);
    let q = AiProvider::Ollama.models_request(&c).unwrap_or_else(|| panic!("ollama"));
    assert_eq!(q.url, "http://localhost:11434/api/tags");
    assert!(q.authorization.is_none());
    assert_eq!(q.shape, ModelListShape::ModelsByName);
    let c = AiProviderConfig::new("d".to_string(), AiProvider::DeepSeek).with_api_key("sk".to_string());
    let q = AiProvider::DeepSeek.models_request(&c).unwrap_or_else(|| panic!("deepseek"));
    assert_eq!(q.url, "https://api.deepseek.com/v1/models");
    assert_eq!(q.authorization.as_deref(), Some("Bearer sk"));
    assert_eq!(q.shape, ModelListShape::DataById);
    assert!(AiProvider::Custom.models_request(&c).is_none());
}

#[test]
fn list_providers_in_order() {
    let mut m = AiConfigManager::new();
    m.add_provider(AiProviderConfig::new("z".to_string(), AiProvider::Ollama))
        .unwrap_or_else(|_| panic!("ok"));
    m.add_provider(AiProviderConfig::new("y".to_string(), AiProvider::OpenAi))
        .unwrap_or_else(|_| panic!("ok"));
    let names: Vec<&str> = m.list_providers().iter().map(|(n, _)| n.as_str()).collect();
    assert_eq!(names, vec!["z", "y"]);
}
