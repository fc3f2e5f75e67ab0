use ironlicensing::transport::{
    ACTIVATE_PATH, CHECKOUT_FAILED, CHECKOUT_PATH, DEACTIVATE_PATH, REQUEST_FAILED, TIERS_PATH, TRIAL_PATH, UNKNOWN,
    VALIDATE_PATH,
};
use ironlicensing::{
    CheckoutResult, Field, Host, HttpMethod, HttpReply, HttpRequest, License, LicenseOptions, LicenseResult,
    LicenseStatus, LicenseType, ProductTier, Transport,
};

fn host_with_id(id: &str, os: &str) -> Host {
    Host { stored_machine_id: Some(id.to_string()), os: os.to_string() }
}

fn transport() -> Transport {
    let options = LicenseOptions::new("pk_test_1", "my-product").api_base_url("https://lic.example.test");
    Transport::new(&options, &host_with_id("machine-1\n", "linux"))
}

fn pairs(fields: &[Field]) -> Vec<(String, String)> {
    fields.iter().map(|f| (f.name.clone(), f.value.clone())).collect()
}

fn pair(name: &str, value: &str) -> (String, String) {
    (name.to_string(), value.to_string())
}

fn standard_headers() -> Vec<(String, String)> {
    vec![
        pair("Content-Type", "application/json"),
        pair("X-Public-Key", "pk_test_1"),
        pair("X-Product-Slug", "my-product"),
    ]
}

fn body_of(request: &HttpRequest) -> Vec<(String, String)> {
    pairs(request.body.as_ref().expect("the request has a body"))
}

fn some_license() -> License {
    License {
        id: "lic_9".to_string(),
        key: "KEY-9".to_string(),
        status: LicenseStatus::Valid,
        license_type: LicenseType::Perpetual,
        email: None,
        name: None,
        company: None,
        features: Vec::new(),
        max_activations: 1,
        current_activations: 0,
        expires_at: None,
        created_at: None,
        last_validated_at: None,
        metadata: None,
    }
}

fn tier(id: &str) -> ProductTier {
    ProductTier {
        id: id.to_string(),
        slug: id.to_string(),
        name: id.to_string(),
        description: None,
        price_bits: 10.0f64.to_bits(),
        currency: "EUR".to_string(),
        billing_period: None,
        features: Vec::new(),
    }
}

#[test]
fn endpoints_are_the_documented_paths() {
    assert_eq!(VALIDATE_PATH, "/api/v1/validate");
    assert_eq!(ACTIVATE_PATH, "/api/v1/activate");
    assert_eq!(DEACTIVATE_PATH, "/api/v1/deactivate");
    assert_eq!(TRIAL_PATH, "/api/v1/trial");
    assert_eq!(TIERS_PATH, "/api/v1/tiers");
    assert_eq!(CHECKOUT_PATH, "/api/v1/checkout");
    assert_eq!(REQUEST_FAILED, "Request failed");
    assert_eq!(CHECKOUT_FAILED, "Checkout failed");
    assert_eq!(UNKNOWN, "unknown");
}

#[test]
fn transport_takes_identity_and_flags_from_options_and_host() {
    let options = LicenseOptions::new("pk", "slug").debug(true);
    let transport = Transport::new(&options, &host_with_id("  id-42 ", "macos"));
    assert_eq!(transport.machine_id(), "id-42");
    assert!(!transport.machine_id_is_new());
    assert!(transport.debug());
    let quiet = Transport::new(&LicenseOptions::new("pk", "slug"), &host_with_id("x", "linux"));
    assert!(!quiet.debug());
}

#[test]
fn transport_without_stored_identity_makes_a_new_one() {
    let host = Host { stored_machine_id: None, os: "linux".to_string() };
    let transport = Transport::new(&LicenseOptions::new("pk", "slug"), &host);
    assert!(transport.machine_id_is_new());
    assert_eq!(transport.machine_id().len(), 36);
    let request = transport.validate("K");
    assert_eq!(body_of(&request)[1], pair("machineId", transport.machine_id()));
}

#[test]
fn platform_is_reported_for_the_three_known_systems_only() {
    assert_eq!(Transport::get_platform("windows"), "windows");
    assert_eq!(Transport::get_platform("macos"), "macos");
    assert_eq!(Transport::get_platform("linux"), "linux");
    assert_eq!(Transport::get_platform("freebsd"), "unknown");
    assert_eq!(Transport::get_platform("ios"), "unknown");
    assert_eq!(Transport::get_platform(""), "unknown");
    assert_eq!(Transport::get_platform("Linux"), "unknown");
    assert_eq!(Transport::get_platform("linux "), "unknown");
}

#[test]
fn machine_name_falls_back_to_unknown() {
    assert_eq!(Transport::machine_name_or_unknown(Some("build-box".to_string())), "build-box");
    assert_eq!(Transport::machine_name_or_unknown(Some(String::new())), "");
    assert_eq!(Transport::machine_name_or_unknown(None), "unknown");
}

#[test]
fn validate_request_posts_key_and_machine() {
    let request = transport().validate("IRON-1234");
    assert_eq!(request.method, HttpMethod::Post);
    assert_eq!(request.url, "https://lic.example.test/api/v1/validate");
    assert_eq!(pairs(&request.headers), standard_headers());
    assert_eq!(body_of(&request), vec![pair("licenseKey", "IRON-1234"), pair("machineId", "machine-1")]);
}

#[test]
fn activate_request_posts_key_machine_name_and_platform() {
    let request = transport().activate("IRON-1234", Some("Ada's laptop"));
    assert_eq!(request.method, HttpMethod::Post);
    assert_eq!(request.url, "https://lic.example.test/api/v1/activate");
    assert_eq!(pairs(&request.headers), standard_headers());
    assert_eq!(
        body_of(&request),
        vec![
            pair("licenseKey", "IRON-1234"),
            pair("machineId", "machine-1"),
            pair("machineName", "Ada's laptop"),
            pair("platform", "linux"),
        ]
    );
    let same = transport().activate_as("IRON-1234", "Ada's laptop");
    assert_eq!(same.url, request.url);
    assert_eq!(body_of(&same), body_of(&request));
}

#[test]
fn activate_request_reports_unknown_platform_for_other_systems() {
    let options = LicenseOptions::new("pk", "slug");
    let transport = Transport::new(&options, &host_with_id("m", "openbsd"));
    let request = transport.activate("K", Some("box"));
    assert_eq!(body_of(&request)[3], pair("platform", "unknown"));
    let transport = Transport::new(&options, &host_with_id("m", "windows"));
    let request = transport.activate("K", Some("box"));
    assert_eq!(body_of(&request)[3], pair("platform", "windows"));
}

#[test]
fn activate_request_without_a_name_uses_the_host_name() {
    let expected = hostname::get()
        .map(|name| name.to_string_lossy().to_string())
        .unwrap_or_else(|_| "unknown".to_string());
    let request = transport().activate("IRON-1234", None);
    assert_eq!(request.url, "https://lic.example.test/api/v1/activate");
    let body = body_of(&request);
    assert_eq!(body.len(), 4);
    assert_eq!(body[0], pair("licenseKey", "IRON-1234"));
    assert_eq!(body[1], pair("machineId", "machine-1"));
    assert_eq!(body[2], pair("machineName", &expected));
    assert_eq!(body[3], pair("platform", "linux"));
}

#[test]
fn deactivate_request_posts_key_and_machine() {
    let request = transport().deactivate("IRON-1234");
    assert_eq!(request.method, HttpMethod::Post);
    assert_eq!(request.url, "https://lic.example.test/api/v1/deactivate");
    assert_eq!(pairs(&request.headers), standard_headers());
    assert_eq!(body_of(&request), vec![pair("licenseKey", "IRON-1234"), pair("machineId", "machine-1")]);
}

#[test]
fn trial_request_posts_email_and_machine() {
    let request = transport().start_trial("ada@example.com");
    assert_eq!(request.method, HttpMethod::Post);
    assert_eq!(request.url, "https://lic.example.test/api/v1/trial");
    assert_eq!(pairs(&request.headers), standard_headers());
    assert_eq!(body_of(&request), vec![pair("email", "ada@example.com"), pair("machineId", "machine-1")]);
}

#[test]
fn tiers_request_is_a_get_without_a_body() {
    let request = transport().get_tiers();
    assert_eq!(request.method, HttpMethod::Get);
    assert_eq!(request.url, "https://lic.example.test/api/v1/tiers");
    assert_eq!(pairs(&request.headers), standard_headers());
    assert!(request.body.is_none());
}

#[test]
fn checkout_request_posts_tier_and_email_without_the_machine() {
    let request = transport().start_checkout("tier_pro", "ada@example.com");
    assert_eq!(request.method, HttpMethod::Post);
    assert_eq!(request.url, "https://lic.example.test/api/v1/checkout");
    assert_eq!(pairs(&request.headers), standard_headers());
    assert_eq!(body_of(&request), vec![pair("tierId", "tier_pro"), pair("email", "ada@example.com")]);
}

#[test]
fn post_request_joins_base_address_and_path_as_they_are() {
    let options = LicenseOptions::new("pk", "slug").api_base_url("http://localhost:9000/");
    let transport = Transport::new(&options, &host_with_id("m", "linux"));
    let request = transport.post("/x", vec![Field::new("a", "1")]);
    assert_eq!(request.method, HttpMethod::Post);
    assert_eq!(request.url, "http://localhost:9000//x");
    assert_eq!(body_of(&request), vec![pair("a", "1")]);
    let empty = transport.post("", Vec::new());
    assert_eq!(empty.url, "http://localhost:9000/");
    assert_eq!(body_of(&empty), Vec::new());
}

#[test]
fn texts_in_requests_are_not_escaped_or_trimmed() {
    let request = transport().validate(" \"quoted\" \\ é ");
    assert_eq!(body_of(&request)[0], pair("licenseKey", " \"quoted\" \\ é "));
    let request = transport().validate("");
    assert_eq!(body_of(&request)[0], pair("licenseKey", ""));
}

#[test]
fn status_counts_as_success_from_200_to_299() {
    for (status, expected) in [(0u16, false), (199, false), (200, true), (204, true), (299, true), (300, false), (404, false), (500, false), (u16::MAX, false)] {
        let reply: HttpReply<()> = HttpReply::Answered { status, payload: Ok(()), error: None };
        assert_eq!(reply.is_success(), expected, "status {}", status);
        assert_eq!(Transport::read_deactivated(&reply), expected, "status {}", status);
        assert_eq!(ironlicensing::http::status_is_success(status), expected, "status {}", status);
    }
    let failed: HttpReply<()> = HttpReply::Failed { message: "timeout".to_string() };
    assert!(!failed.is_success());
    assert!(!Transport::read_deactivated(&failed));
}

#[test]
fn unsent_request_reads_as_failure_with_the_transport_text() {
    let result = Transport::read_license_result(HttpReply::Failed { message: "connection refused".to_string() });
    assert!(!result.valid);
    assert!(result.license.is_none());
    assert!(result.activations.is_none());
    assert!(!result.cached);
    assert_eq!(result.error.as_deref(), Some("connection refused"));
}

#[test]
fn successful_answer_reads_as_its_body() {
    let mut sent = LicenseResult::success(some_license());
    sent.error = Some("note".to_string());
    let result = Transport::read_license_result(HttpReply::Answered {
        status: 200,
        payload: Ok(sent),
        error: Some("note".to_string()),
    });
    assert!(result.valid);
    assert!(!result.cached);
    assert!(result.activations.is_none());
    assert_eq!(result.error.as_deref(), Some("note"));
    assert_eq!(result.license.map(|l| l.key), Some("KEY-9".to_string()));
}

#[test]
fn answer_that_claims_to_be_cached_is_read_as_not_cached() {
    let mut sent = LicenseResult::success(some_license());
    sent.cached = true;
    sent.error = Some("note".to_string());
    let result =
        Transport::read_license_result(HttpReply::Answered { status: 200, payload: Ok(sent), error: None });
    assert!(!result.cached);
    assert!(result.valid);
    assert_eq!(result.error.as_deref(), Some("note"));
    assert_eq!(result.license.map(|l| l.key), Some("KEY-9".to_string()));

    let invalid = LicenseResult { valid: false, license: None, activations: None, error: None, cached: true };
    let result =
        Transport::read_license_result(HttpReply::Answered { status: 299, payload: Ok(invalid), error: None });
    assert!(!result.cached);
    assert!(!result.valid);
    assert!(result.error.is_none());
}

#[test]
fn no_reply_reads_as_a_cached_result() {
    let cached = || LicenseResult { valid: true, license: Some(some_license()), activations: None, error: None, cached: true };
    let replies = vec![
        HttpReply::Failed { message: "offline".to_string() },
        HttpReply::Answered { status: 200, payload: Ok(cached()), error: None },
        HttpReply::Answered { status: 200, payload: Err("bad json".to_string()), error: None },
        HttpReply::Answered { status: 404, payload: Ok(cached()), error: Some("not found".to_string()) },
        HttpReply::Answered { status: 500, payload: Ok(cached()), error: None },
        HttpReply::Answered { status: 500, payload: Err("bad json".to_string()), error: None },
    ];
    for reply in replies {
        assert!(!Transport::read_license_result(reply).cached);
    }
}

#[test]
fn successful_answer_with_unreadable_body_reads_as_failure_with_the_reason() {
    let result = Transport::read_license_result(HttpReply::Answered {
        status: 201,
        payload: Err("missing field `valid` at line 1 column 2".to_string()),
        error: Some("ignored".to_string()),
    });
    assert!(!result.valid);
    assert!(result.license.is_none());
    assert_eq!(result.error.as_deref(), Some("missing field `valid` at line 1 column 2"));
}

#[test]
fn refused_request_reads_as_failure_with_the_error_the_service_names() {
    let result = Transport::read_license_result(HttpReply::Answered {
        status: 404,
        payload: Ok(LicenseResult::success(some_license())),
        error: Some("not found".to_string()),
    });
    assert!(!result.valid);
    assert!(result.license.is_none());
    assert_eq!(result.error.as_deref(), Some("not found"));
}

#[test]
fn refused_request_without_named_error_reads_as_request_failed() {
    let result = Transport::read_license_result(HttpReply::Answered {
        status: 500,
        payload: Err("expected value at line 1 column 1".to_string()),
        error: None,
    });
    assert!(!result.valid);
    assert_eq!(result.error.as_deref(), Some("Request failed"));
    let redirect = Transport::read_license_result(HttpReply::Answered {
        status: 302,
        payload: Ok(LicenseResult::success(some_license())),
        error: None,
    });
    assert!(!redirect.valid);
    assert!(redirect.license.is_none());
    assert_eq!(redirect.error.as_deref(), Some("Request failed"));
}

#[test]
fn tiers_are_read_from_a_successful_answer_only() {
    let tiers = Transport::read_tiers(HttpReply::Answered {
        status: 200,
        payload: Ok(vec![tier("free"), tier("pro")]),
        error: None,
    });
    assert_eq!(tiers.len(), 2);
    assert_eq!(tiers[0].id, "free");
    assert_eq!(tiers[1].id, "pro");

    let refused = Transport::read_tiers(HttpReply::Answered {
        status: 403,
        payload: Ok(vec![tier("free")]),
        error: Some("forbidden".to_string()),
    });
    assert!(refused.is_empty());

    let unreadable =
        Transport::read_tiers(HttpReply::Answered { status: 200, payload: Err("bad json".to_string()), error: None });
    assert!(unreadable.is_empty());

    let unreachable = Transport::read_tiers(HttpReply::Failed { message: "dns".to_string() });
    assert!(unreachable.is_empty());

    let none = Transport::read_tiers(HttpReply::Answered { status: 200, payload: Ok(Vec::new()), error: None });
    assert!(none.is_empty());
}

#[test]
fn checkout_answer_with_success_status_is_marked_successful() {
    let body = CheckoutResult {
        success: false,
        checkout_url: Some("https://pay.example/1".to_string()),
        session_id: Some("s1".to_string()),
        error: None,
    };
    let result =
        Transport::read_checkout_result(HttpReply::Answered { status: 200, payload: Ok(body), error: None });
    assert!(result.success);
    assert_eq!(result.checkout_url.as_deref(), Some("https://pay.example/1"));
    assert_eq!(result.session_id.as_deref(), Some("s1"));
    assert!(result.error.is_none());

    let bare = CheckoutResult { success: false, checkout_url: None, session_id: None, error: Some("odd".to_string()) };
    let result =
        Transport::read_checkout_result(HttpReply::Answered { status: 299, payload: Ok(bare), error: None });
    assert!(result.success);
    assert!(result.checkout_url.is_none());
    assert_eq!(result.error.as_deref(), Some("odd"));
}

#[test]
fn checkout_failures_carry_their_reason() {
    let unreadable = Transport::read_checkout_result(HttpReply::Answered {
        status: 200,
        payload: Err("EOF while parsing a value".to_string()),
        error: None,
    });
    assert!(!unreadable.success);
    assert_eq!(unreadable.error.as_deref(), Some("EOF while parsing a value"));
    assert!(unreadable.checkout_url.is_none());
    assert!(unreadable.session_id.is_none());

    let refused = Transport::read_checkout_result(HttpReply::Answered {
        status: 400,
        payload: Ok(CheckoutResult::success("u".to_string(), "s".to_string())),
        error: Some("unknown tier".to_string()),
    });
    assert!(!refused.success);
    assert!(refused.checkout_url.is_none());
    assert_eq!(refused.error.as_deref(), Some("unknown tier"));

    let silent = Transport::read_checkout_result(HttpReply::Answered {
        status: 503,
        payload: Err("x".to_string()),
        error: None,
    });
    assert!(!silent.success);
    assert_eq!(silent.error.as_deref(), Some("Checkout failed"));

    let unreachable = Transport::read_checkout_result(HttpReply::Failed { message: "timed out".to_string() });
    assert!(!unreachable.success);
    assert_eq!(unreachable.error.as_deref(), Some("timed out"));
}
