use martian_adapters::{
    AdapterError, AdapterFactory, Cost, Modalities, Model, ModelCapabilities, ModelCost,
    ModelFilter, ModelInfo, ModelLimit, ModelProperties, ModelsDevResponse, Provider,
    ProviderDefaults, VendorMappings, VendorMappingsConfig,
};

fn raw_info(
    id: &str,
    cost: Option<ModelCost>,
    context: u32,
    output: u32,
    input_modalities: &[&str],
    tool_call: bool,
) -> ModelInfo {
    ModelInfo {
        id: id.to_string(),
        name: id.to_string(),
        attachment: false,
        reasoning: false,
        temperature: true,
        tool_call,
        knowledge: None,
        release_date: None,
        last_updated: None,
        modalities: Modalities {
            input: input_modalities.iter().map(|s| s.to_string()).collect(),
            output: vec!["text".to_string()],
        },
        open_weights: false,
        cost,
        limit: ModelLimit { context, output },
    }
}

fn plain_model(provider: &str, vendor: &str, name: &str) -> Model {
    Model {
        name: name.to_string(),
        vendor_name: vendor.to_string(),
        provider_name: provider.to_string(),
        cost: Cost::new(0, 0, 0),
        context_length: 1000,
        completion_length: Some(100),
        capabilities: ModelCapabilities::default(),
        properties: ModelProperties::default(),
        knowledge_cutoff: None,
        release_date: None,
        last_updated: None,
    }
}

#[test]
fn test_cost_calculation() {
    // 0.000001 and 0.000002 dollars per token, in femtodollars.
    let cost = Cost::new(1_000_000_000, 2_000_000_000, 0);
    let total = cost.calculate(1000, 500);
    assert_eq!(total, 1_000_000_000u128 * 1000 + 2_000_000_000u128 * 500);
}

#[test]
fn test_cost_from_modelsdev() {
    // 1.5 and 6.0 dollars per million tokens, in nanodollars per million.
    let cost = Cost::from_modelsdev(1_500_000_000, 6_000_000_000);
    // One nanodollar per million tokens is one femtodollar per token.
    assert_eq!(cost.prompt, 1_500_000_000);
    assert_eq!(cost.completion, 6_000_000_000);
    assert_eq!(cost.request, 0);
}

#[test]
fn test_model_capabilities_default() {
    let capabilities = ModelCapabilities::default();
    assert!(capabilities.supports_user);
    assert!(capabilities.supports_streaming);
    assert!(capabilities.supports_system);
    assert!(!capabilities.supports_vision);
    assert!(!capabilities.supports_tools);
}

#[test]
fn test_normalize_openai_scenario() {
    // provider "openai", model "gpt-4o-mini", cost {input: 0.15, output: 0.6}
    // dollars per million tokens (here in nanodollars per million), limits
    // {context: 128000, output: 16384}, image input, tool_call true.
    let factory = AdapterFactory::new();
    let info = raw_info(
        "gpt-4o-mini",
        Some(ModelCost {
            input: 150_000_000,
            output: 600_000_000,
            cache_read: None,
            cache_write: None,
        }),
        128000,
        16384,
        &["text", "image"],
        true,
    );
    let model = factory
        .convert_modelsdev_model("openai", "gpt-4o-mini", &info)
        .unwrap();
    assert_eq!(model.get_path(), "openai/openai/gpt-4o-mini");
    assert!(model.capabilities.supports_vision);
    assert!(model.capabilities.supports_tools);
    // 0.15 / 1_000_000 dollars per token, exactly, in femtodollars.
    assert_eq!(model.cost.prompt, 150_000_000);
    assert_eq!(model.cost.completion, 600_000_000);
    assert_eq!(model.context_length, 128000);
    assert_eq!(model.completion_length, Some(16384));
}

#[test]
fn test_normalize_without_cost_is_zero() {
    let factory = AdapterFactory::new();
    let info = raw_info("m", None, 4096, 1024, &["text"], false);
    let model = factory.convert_modelsdev_model("p", "m", &info).unwrap();
    assert_eq!(model.cost.prompt, 0);
    assert_eq!(model.cost.completion, 0);
    assert_eq!(model.cost.request, 0);
    assert!(!model.capabilities.supports_vision);
    assert!(!model.capabilities.supports_tools);
}

#[test]
fn test_normalize_chinese_and_gdpr_properties() {
    let factory = AdapterFactory::new();
    let info = raw_info("qwen-max", None, 8192, 1024, &["text"], false);
    let model = factory
        .convert_modelsdev_model("alibaba-cloud", "qwen-max", &info)
        .unwrap();
    assert!(model.properties.chinese);
    assert!(!model.properties.gdpr_compliant);

    let info2 = raw_info("gpt-4o", None, 8192, 1024, &["text"], false);
    let model2 = factory.convert_modelsdev_model("openai", "gpt-4o", &info2).unwrap();
    assert!(!model2.properties.chinese);
    assert!(model2.properties.gdpr_compliant);
}

#[test]
fn test_extract_vendor_rules() {
    let config = VendorMappingsConfig {
        patterns: vec![
            ("(".to_string(), "broken".to_string()), // malformed: skipped silently
            ("^gpt-".to_string(), "openai".to_string()),
            ("^palm-".to_string(), "google".to_string()),
        ],
        provider_defaults: vec![("bedrock".to_string(), "amazon".to_string())],
    };
    // first matching pattern wins
    assert_eq!(VendorMappings::extract_vendor(&config, "gpt-4o", "azure"), "openai");
    assert_eq!(
        VendorMappings::extract_vendor(&config, "palm-2", "bedrock"),
        "google"
    );
    // no pattern: provider default
    assert_eq!(VendorMappings::extract_vendor(&config, "titan-embed", "bedrock"), "amazon");
    // no pattern, no default: provider is its own vendor
    assert_eq!(VendorMappings::extract_vendor(&config, "mystery", "somehost"), "somehost");
}

#[test]
fn test_extract_vendor_deterministic() {
    let config = VendorMappingsConfig {
        patterns: vec![("^gpt-".to_string(), "openai".to_string())],
        provider_defaults: vec![],
    };
    let a = VendorMappings::extract_vendor(&config, "gpt-4o", "azure");
    let b = VendorMappings::extract_vendor(&config, "gpt-4o", "azure");
    assert_eq!(a, b);
}

#[test]
fn test_for_provider_copies_are_independent() {
    let table = vec![];
    let mut d1 = ProviderDefaults::for_provider(&table, "p");
    let d2 = ProviderDefaults::for_provider(&table, "p");
    d1.capabilities.supports_vision = true;
    assert!(!d2.capabilities.supports_vision);
}

#[test]
fn test_replace_all_then_list_none() {
    let mut factory = AdapterFactory::new();
    let models = vec![plain_model("a", "v", "m1"), plain_model("b", "v", "m2")];
    factory.replace_all(models);
    let listed = factory.get_supported_models(None);
    assert_eq!(listed.len(), 2);
    let paths: Vec<String> = listed.iter().map(|m| m.get_path()).collect();
    assert!(paths.contains(&"a/v/m1".to_string()));
    assert!(paths.contains(&"b/v/m2".to_string()));
}

#[test]
fn test_replace_all_last_write_wins() {
    let mut factory = AdapterFactory::new();
    let mut newer = plain_model("a", "v", "m1");
    newer.context_length = 9999;
    factory.replace_all(vec![plain_model("a", "v", "m1"), newer]);
    let listed = factory.get_supported_models(None);
    assert_eq!(listed.len(), 1);
    assert_eq!(listed[0].context_length, 9999);
}

#[test]
fn test_replace_all_replaces_previous_contents() {
    let mut factory = AdapterFactory::new();
    factory.replace_all(vec![plain_model("a", "v", "m1")]);
    factory.replace_all(vec![plain_model("b", "v", "m2")]);
    let listed = factory.get_supported_models(None);
    assert_eq!(listed.len(), 1);
    assert_eq!(listed[0].get_path(), "b/v/m2");
}

#[test]
fn test_get_model_found_and_not_found() {
    let mut factory = AdapterFactory::new();
    factory.replace_all(vec![plain_model("a", "v", "m1")]);
    let m = factory.get_model("a/v/m1").unwrap();
    assert_eq!(m.provider_name, "a");
    match factory.get_model("a/v/miss") {
        Err(AdapterError::ModelNotFound(path)) => assert_eq!(path, "a/v/miss"),
        other => panic!("expected ModelNotFound, got {:?}", other),
    }
}

fn flagged(provider: &str, name: &str, vision: bool, tools: bool) -> Model {
    let mut m = plain_model(provider, "v", name);
    m.capabilities.supports_vision = vision;
    m.capabilities.supports_tools = tools;
    m
}

#[test]
fn three_records() {
    // filter conjunction: {vision, tools} lists the intersection of the
    // single-constraint listings.
    let mut factory = AdapterFactory::new();
    factory.replace_all(vec![
        flagged("p", "both", true, true),
        flagged("p", "vision-only", true, false),
        flagged("p", "tools-only", false, true),
    ]);
    let both: Vec<String> = factory
        .get_supported_models(Some(ModelFilter::new().with_vision(true).with_tools(true)))
        .iter()
        .map(|m| m.get_path())
        .collect();
    let vision: Vec<String> = factory
        .get_supported_models(Some(ModelFilter::new().with_vision(true)))
        .iter()
        .map(|m| m.get_path())
        .collect();
    let tools: Vec<String> = factory
        .get_supported_models(Some(ModelFilter::new().with_tools(true)))
        .iter()
        .map(|m| m.get_path())
        .collect();
    let intersection: Vec<String> =
        vision.iter().filter(|p| tools.contains(p)).cloned().collect();
    assert_eq!(both, intersection);
    assert_eq!(both, vec!["p/v/both".to_string()]);
}

#[test]
fn test_filter_empty_matches_everything() {
    let mut factory = AdapterFactory::new();
    factory.replace_all(vec![
        flagged("p", "a", true, false),
        flagged("p", "b", false, false),
    ]);
    assert_eq!(
        factory.get_supported_models(Some(ModelFilter::new())).len(),
        2
    );
}

#[test]
fn test_filter_by_provider() {
    let mut factory = AdapterFactory::new();
    factory.replace_all(vec![plain_model("a", "v", "m1"), plain_model("b", "v", "m2")]);
    let only_a =
        factory.get_supported_models(Some(ModelFilter::new().with_provider("a".to_string())));
    assert_eq!(only_a.len(), 1);
    assert_eq!(only_a[0].provider_name, "a");
}

#[test]
fn test_list_providers_sorted_dedup() {
    let mut factory = AdapterFactory::new();
    factory.replace_all(vec![
        plain_model("zeta", "v", "m1"),
        plain_model("alpha", "v", "m2"),
        plain_model("zeta", "v", "m3"),
        plain_model("mid", "v", "m4"),
    ]);
    let providers = factory.list_providers();
    assert_eq!(providers, vec!["alpha".to_string(), "mid".to_string(), "zeta".to_string()]);
}

#[test]
fn test_populate_from_modelsdev() {
    let mut factory = AdapterFactory::new();
    let response = ModelsDevResponse {
        providers: vec![(
            "openai".to_string(),
            Provider {
                id: "openai".to_string(),
                name: "OpenAI".to_string(),
                env: vec!["OPENAI_API_KEY".to_string()],
                npm: None,
                api: None,
                doc: None,
                models: vec![(
                    "gpt-4o-mini".to_string(),
                    raw_info(
                        "gpt-4o-mini",
                        Some(ModelCost {
                            input: 150_000_000,
                            output: 600_000_000,
                            cache_read: None,
                            cache_write: None,
                        }),
                        128000,
                        16384,
                        &["text", "image"],
                        true,
                    ),
                )],
            },
        )],
    };
    factory.populate_from_modelsdev(response).unwrap();
    let m = factory.get_model("openai/openai/gpt-4o-mini").unwrap();
    assert_eq!(m.cost.prompt, 150_000_000);
    assert_eq!(factory.list_providers(), vec!["openai".to_string()]);
}
