use ironlicensing::{Activation, CheckoutResult, Feature, License, LicenseResult, LicenseStatus, LicenseType, Metadata, ProductTier};

fn feature(key: &str, enabled: bool) -> Feature {
    Feature { key: key.to_string(), name: format!("Feature {}", key), enabled, description: None, metadata: None }
}

fn license_with(features: Vec<Feature>) -> License {
    License {
        id: "lic_1".to_string(),
        key: "IRON-AAAA-BBBB".to_string(),
        status: LicenseStatus::Valid,
        license_type: LicenseType::Subscription,
        email: Some("a@example.com".to_string()),
        name: None,
        company: Some("Example".to_string()),
        features,
        max_activations: 3,
        current_activations: 1,
        expires_at: Some("2030-01-01T00:00:00Z".to_string()),
        created_at: None,
        last_validated_at: None,
        metadata: None,
    }
}

#[test]
fn status_and_type_have_their_defaults() {
    assert_eq!(LicenseStatus::default(), LicenseStatus::NotActivated);
    assert_eq!(LicenseType::default(), LicenseType::Perpetual);
}

#[test]
fn enabled_feature_is_found() {
    let license = license_with(vec![feature("basic", true), feature("premium", true)]);
    assert!(license.has_feature("premium"));
    assert!(license.has_feature("basic"));
}

#[test]
fn disabled_or_missing_feature_is_not_available() {
    let license = license_with(vec![feature("basic", true), feature("premium", false)]);
    assert!(!license.has_feature("premium"));
    assert!(!license.has_feature("enterprise"));
    assert!(!license.has_feature(""));
    assert!(!license.has_feature("Basic"));
    assert!(!license.has_feature("basi"));
    assert!(!license.has_feature("basic "));
}

#[test]
fn license_without_features_has_none() {
    let license = license_with(Vec::new());
    assert!(!license.has_feature("premium"));
    assert!(license.get_feature("premium").is_none());
}

#[test]
fn any_enabled_entry_with_the_key_makes_the_feature_available() {
    let license = license_with(vec![feature("premium", false), feature("other", true), feature("premium", true)]);
    assert!(license.has_feature("premium"));
    let license = license_with(vec![feature("premium", true), feature("premium", false)]);
    assert!(license.has_feature("premium"));
    let license = license_with(vec![feature("premium", false), feature("premium", false)]);
    assert!(!license.has_feature("premium"));
}

#[test]
fn get_feature_gives_the_first_entry_with_the_key_enabled_or_not() {
    let mut first = feature("premium", false);
    first.name = "first".to_string();
    let mut second = feature("premium", true);
    second.name = "second".to_string();
    let license = license_with(vec![feature("basic", true), first, second]);
    let found = license.get_feature("premium").expect("the feature is listed");
    assert_eq!(found.key, "premium");
    assert_eq!(found.name, "first");
    assert!(!found.enabled);
    let basic = license.get_feature("basic").expect("the feature is listed");
    assert_eq!(basic.name, "Feature basic");
    assert!(license.get_feature("missing").is_none());
}

#[test]
fn feature_keys_are_compared_exactly() {
    let license = license_with(vec![feature("", true), feature("é", true)]);
    assert!(license.has_feature(""));
    assert!(license.has_feature("é"));
    assert!(!license.has_feature("e"));
    assert_eq!(license.get_feature("").map(|f| f.enabled), Some(true));
}

#[test]
fn cloned_license_keeps_every_field() {
    let mut metadata = Metadata::new();
    metadata.insert("seats".to_string(), serde_json::Value::from(5));
    metadata.insert("beta".to_string(), serde_json::Value::Bool(true));
    let mut with_metadata = feature("premium", true);
    with_metadata.description = Some("All of it".to_string());
    with_metadata.metadata = Some(metadata.clone());
    let mut license = license_with(vec![feature("basic", false), with_metadata]);
    license.metadata = Some(metadata.clone());
    license.status = LicenseStatus::Suspended;
    license.license_type = LicenseType::Trial;

    let copy = license.clone();
    assert_eq!(copy.id, license.id);
    assert_eq!(copy.key, license.key);
    assert_eq!(copy.status, LicenseStatus::Suspended);
    assert_eq!(copy.license_type, LicenseType::Trial);
    assert_eq!(copy.email, license.email);
    assert_eq!(copy.name, license.name);
    assert_eq!(copy.company, license.company);
    assert_eq!(copy.max_activations, 3);
    assert_eq!(copy.current_activations, 1);
    assert_eq!(copy.expires_at, license.expires_at);
    assert_eq!(copy.created_at, license.created_at);
    assert_eq!(copy.last_validated_at, license.last_validated_at);
    assert_eq!(copy.metadata, Some(metadata.clone()));
    assert_eq!(copy.features.len(), 2);
    assert_eq!(copy.features[0].key, "basic");
    assert!(!copy.features[0].enabled);
    assert_eq!(copy.features[1].key, "premium");
    assert_eq!(copy.features[1].name, "Feature premium");
    assert!(copy.features[1].enabled);
    assert_eq!(copy.features[1].description.as_deref(), Some("All of it"));
    assert_eq!(copy.features[1].metadata, Some(metadata));
}

#[test]
fn successful_result_holds_the_license_and_nothing_else() {
    let result = LicenseResult::success(license_with(vec![feature("premium", true)]));
    assert!(result.valid);
    assert!(!result.cached);
    assert!(result.error.is_none());
    assert!(result.activations.is_none());
    let license = result.license.expect("the license is there");
    assert_eq!(license.key, "IRON-AAAA-BBBB");
    assert_eq!(license.features.len(), 1);
}

#[test]
fn failed_result_holds_the_reason_and_nothing_else() {
    let result = LicenseResult::failure("not found".to_string());
    assert!(!result.valid);
    assert!(!result.cached);
    assert!(result.license.is_none());
    assert!(result.activations.is_none());
    assert_eq!(result.error.as_deref(), Some("not found"));
}

#[test]
fn cloned_result_keeps_its_activations() {
    let mut result = LicenseResult::success(license_with(Vec::new()));
    result.activations = Some(vec![
        Activation {
            id: "act_1".to_string(),
            machine_id: "m-1".to_string(),
            machine_name: Some("laptop".to_string()),
            platform: Some("linux".to_string()),
            activated_at: Some("2024-01-01".to_string()),
            last_seen_at: None,
        },
        Activation {
            id: "act_2".to_string(),
            machine_id: "m-2".to_string(),
            machine_name: None,
            platform: None,
            activated_at: None,
            last_seen_at: Some("2024-02-02".to_string()),
        },
    ]);
    result.error = Some("warning".to_string());
    result.cached = true;
    let copy = result.clone();
    assert!(copy.valid);
    assert!(copy.cached);
    assert_eq!(copy.error.as_deref(), Some("warning"));
    assert_eq!(copy.license.map(|l| l.id), Some("lic_1".to_string()));
    let activations = copy.activations.expect("the activations are there");
    assert_eq!(activations.len(), 2);
    assert_eq!(activations[0].id, "act_1");
    assert_eq!(activations[0].machine_id, "m-1");
    assert_eq!(activations[0].machine_name.as_deref(), Some("laptop"));
    assert_eq!(activations[0].platform.as_deref(), Some("linux"));
    assert_eq!(activations[0].activated_at.as_deref(), Some("2024-01-01"));
    assert!(activations[0].last_seen_at.is_none());
    assert_eq!(activations[1].id, "act_2");
    assert_eq!(activations[1].last_seen_at.as_deref(), Some("2024-02-02"));
}

#[test]
fn successful_checkout_holds_the_address_and_the_session() {
    let result = CheckoutResult::success("https://pay.example/c/1".to_string(), "sess_1".to_string());
    assert!(result.success);
    assert_eq!(result.checkout_url.as_deref(), Some("https://pay.example/c/1"));
    assert_eq!(result.session_id.as_deref(), Some("sess_1"));
    assert!(result.error.is_none());
}

#[test]
fn failed_checkout_holds_the_reason_only() {
    let result = CheckoutResult::failure("tier not found".to_string());
    assert!(!result.success);
    assert!(result.checkout_url.is_none());
    assert!(result.session_id.is_none());
    assert_eq!(result.error.as_deref(), Some("tier not found"));
    let copy = result.clone();
    assert!(!copy.success);
    assert_eq!(copy.error.as_deref(), Some("tier not found"));
}

#[test]
fn tier_carries_its_price_as_the_bits_of_a_double() {
    let tier = ProductTier {
        id: "tier_1".to_string(),
        slug: "pro".to_string(),
        name: "Pro".to_string(),
        description: Some("For teams".to_string()),
        price_bits: 49.99f64.to_bits(),
        currency: "USD".to_string(),
        billing_period: Some("monthly".to_string()),
        features: vec![feature("premium", true)],
    };
    let copy = tier.clone();
    assert_eq!(f64::from_bits(copy.price_bits), 49.99);
    assert_eq!(copy.id, "tier_1");
    assert_eq!(copy.slug, "pro");
    assert_eq!(copy.name, "Pro");
    assert_eq!(copy.description.as_deref(), Some("For teams"));
    assert_eq!(copy.currency, "USD");
    assert_eq!(copy.billing_period.as_deref(), Some("monthly"));
    assert_eq!(copy.features.len(), 1);
    assert_eq!(copy.features[0].key, "premium");
}
