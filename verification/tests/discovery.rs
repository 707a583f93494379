use std::time::{Duration, Instant};

use mcpg_plugin_payment_ucp::config::UcpToolConfig;
use mcpg_plugin_payment_ucp::discovery::{
    approve_endpoint, create_cache_entry, create_cache_entry_at, enforce_endpoint_origin, judge_endpoint,
    merchant_profile_url, origin_from_parts, origin_of, read_merchant_profile, resolve_endpoint,
    validate_capabilities, DiscoveryReply, MerchantProfile, ResolvedTransport, ServiceEndpoint,
    UrlParts,
};
use mcpg_plugin_payment_ucp::error::ErrorKind;
use mcpg_plugin_payment_ucp::json::{Json, JsonMap, JsonNumber};

fn text(s: &str) -> Json {
    Json::String(s.to_owned())
}

fn object(members: Vec<(&str, Json)>) -> Json {
    let mut map = JsonMap::new();
    for (name, value) in members {
        map.insert(name.to_owned(), value);
    }
    Json::Object(map)
}

fn entry(transport: &str, endpoint: &str) -> Json {
    object(vec![("transport", text(transport)), ("endpoint", text(endpoint))])
}

fn profile_with(capabilities: Json, shopping: Json) -> MerchantProfile {
    let mut services = JsonMap::new();
    services.insert("dev.ucp.shopping".to_owned(), shopping);
    MerchantProfile { name: "Test Merchant".into(), capabilities, services }
}

fn sample_profile() -> MerchantProfile {
    profile_with(
        object(vec![("dev.ucp.shopping.checkout", object(vec![]))]),
        Json::Array(vec![
            entry("rest", "https://merchant.example.com/api"),
            entry("mcp", "https://merchant.example.com/mcp"),
        ]),
    )
}

fn sample_config() -> UcpToolConfig {
    UcpToolConfig {
        merchant_url: "https://merchant.example.com".into(),
        allowed_endpoint_origins: Vec::new(),
        capabilities: vec!["dev.ucp.shopping.checkout".into()],
        transport: "rest".into(),
        enable_ap2: false,
        auth_token: None,
        default_checkout_args: None,
    }
}

/// The endpoint comes from the merchant's own discovery document, and the operator's merchant
/// credential plus the caller's payment instrument are sent to it.
#[test]
fn endpoint_origin_is_constrained_to_the_operator_choice() {
    let merchant = "https://merchant.example.com";

    // Same origin as the configured merchant: allowed.
    enforce_endpoint_origin("https://merchant.example.com/checkout", merchant, &[]).unwrap();

    // A foreign collector, and internal addresses: all refused.
    for hostile in [
        "https://collector.attacker.test",
        "https://169.254.169.254/latest/meta-data",
        "https://10.0.0.5:8080/admin",
    ] {
        let err = enforce_endpoint_origin(hostile, merchant, &[]).unwrap_err();
        assert!(err.to_string().contains("origin"), "{hostile}: {}", err.to_string());
    }

    // Plaintext is refused even on the merchant's own host.
    assert!(enforce_endpoint_origin("http://merchant.example.com/x", merchant, &[]).is_err());

    // An operator-listed origin is accepted; an unlisted one is not.
    let allowed = vec!["https://api.merchant.example.com".to_owned()];
    enforce_endpoint_origin("https://api.merchant.example.com/v2", merchant, &allowed).unwrap();
    assert!(enforce_endpoint_origin("https://other.example.com", merchant, &allowed).is_err());
}

#[test]
fn origins_are_scheme_host_and_port() {
    assert_eq!(origin_of("https://Merchant.Example.COM/a/b?c").unwrap(), "https://merchant.example.com");
    assert_eq!(origin_of("https://merchant.example.com:443/").unwrap(), "https://merchant.example.com");
    assert_eq!(
        origin_of("https://merchant.example.com:8443").unwrap(),
        "https://merchant.example.com:8443"
    );
    assert_eq!(origin_of("foo://HOST/x").unwrap(), "foo://host");
    assert_eq!(origin_of("https://[::1]:9/").unwrap(), "https://[::1]:9");
}

#[test]
fn an_origin_is_its_own_origin() {
    for url in ["https://Shop.Example:8443/a?b#c", "https://u:p@shop.example:443/", "foo://H/x"] {
        let origin = origin_of(url).unwrap();
        assert_eq!(origin_of(&origin).unwrap(), origin);
    }
}

#[test]
fn more_origins_in_any_order_take_nothing_away() {
    let merchant = "https://merchant.example.com";
    let more = ["https://z.example".to_owned(), "https://api.example".to_owned()];
    enforce_endpoint_origin("https://api.example/v2", merchant, &more[1..]).unwrap();
    enforce_endpoint_origin("https://api.example/v2", merchant, &more).unwrap();
}

#[test]
fn origin_is_put_together_from_parts() {
    let parts = UrlParts { scheme: "https".into(), host: Some("A.b".into()), port: Some(65535) };
    assert_eq!(origin_from_parts("x", Some(parts)).unwrap(), "https://a.b:65535");
    let parts = UrlParts { scheme: "https".into(), host: Some("A.b".into()), port: None };
    assert_eq!(origin_from_parts("x", Some(parts)).unwrap(), "https://a.b");
}

#[test]
fn a_text_without_an_origin_is_refused() {
    let err = origin_of("not a url").unwrap_err();
    assert_eq!(err.kind, ErrorKind::InvalidUrl);
    assert_eq!(err.to_string(), "invalid UCP URL 'not a url'");

    let err = origin_of("mailto:a@b.example").unwrap_err();
    assert_eq!(err.kind, ErrorKind::NoHost);
    assert_eq!(err.to_string(), "UCP URL 'mailto:a@b.example' has no host");
}

#[test]
fn endpoint_errors_come_in_order() {
    let merchant = "https://merchant.example.com";

    let err = enforce_endpoint_origin("nonsense", merchant, &[]).unwrap_err();
    assert_eq!(err.kind, ErrorKind::InvalidUrl);

    let err = enforce_endpoint_origin("http://merchant.example.com/x", "nonsense", &[]).unwrap_err();
    assert_eq!(err.kind, ErrorKind::NotHttps);
    assert_eq!(err.to_string(), "UCP endpoint 'http://merchant.example.com/x' must use https");

    // The scheme is taken by the letter.
    let err = enforce_endpoint_origin("HTTPS://merchant.example.com/x", merchant, &[]).unwrap_err();
    assert_eq!(err.kind, ErrorKind::NotHttps);

    let err =
        enforce_endpoint_origin("https://merchant.example.com/x", "nonsense", &[]).unwrap_err();
    assert_eq!(err.to_string(), "invalid UCP URL 'nonsense'");

    let err = enforce_endpoint_origin("https://Other.example.com/x", merchant, &[]).unwrap_err();
    assert_eq!(err.kind, ErrorKind::ForeignOrigin);
    assert_eq!(
        err.to_string(),
        "UCP endpoint origin 'https://other.example.com' is neither the merchant's own origin nor \
         in allowed_endpoint_origins; refusing to send merchant credentials there"
    );
}

#[test]
fn an_allowed_text_that_is_no_url_allows_nothing() {
    let allowed = vec!["nonsense".to_owned(), "https://api.example.com/path".to_owned()];
    let merchant = "https://merchant.example.com";
    enforce_endpoint_origin("https://api.example.com/v2", merchant, &allowed).unwrap();
    assert!(enforce_endpoint_origin("https://api.example.com:8443/v2", merchant, &allowed).is_err());
}

#[test]
fn a_judged_endpoint_goes_by_the_given_origins() {
    let at = |o: &str| Ok(o.to_owned());
    assert!(judge_endpoint("https://x/y", at("A"), at("A"), &vec![]).is_ok());
    assert!(judge_endpoint("https://x/y", at("A"), at("B"), &vec![at("C"), at("A")]).is_ok());
    let err = judge_endpoint("https://x/y", at("A"), at("B"), &vec![at("C")]).unwrap_err();
    assert_eq!(err.kind, ErrorKind::ForeignOrigin);
}

#[test]
fn resolve_preferred_transport() {
    let profile = sample_profile();
    let endpoint = resolve_endpoint(&profile, "dev.ucp.shopping", "mcp").unwrap();
    match endpoint {
        ResolvedTransport::Mcp { endpoint } => {
            assert_eq!(endpoint, "https://merchant.example.com/mcp");
        }
        other => panic!("expected Mcp, got: {:?}", other),
    }
}

#[test]
fn resolve_fallback_transport() {
    let profile = sample_profile();
    let endpoint = resolve_endpoint(&profile, "dev.ucp.shopping", "grpc").unwrap();
    match endpoint {
        ResolvedTransport::Rest { endpoint } => {
            assert_eq!(endpoint, "https://merchant.example.com/api");
        }
        other => panic!("expected Rest fallback, got: {:?}", other),
    }
}

#[test]
fn resolve_missing_service_errors() {
    let profile = sample_profile();
    let err = resolve_endpoint(&profile, "dev.ucp.payments", "rest").unwrap_err();
    assert!(err.to_string().contains("no 'dev.ucp.payments' service"));
    assert_eq!(err.kind, ErrorKind::MissingService);
}

#[test]
fn fallback_can_be_mcp_and_a_preferred_stranger_is_rest() {
    let profile = profile_with(
        Json::Null,
        Json::Array(vec![entry("mcp", "https://m/mcp"), entry("grpc", "https://m/grpc")]),
    );
    let fallback = resolve_endpoint(&profile, "dev.ucp.shopping", "rest").unwrap();
    assert!(matches!(fallback, ResolvedTransport::Mcp { endpoint } if endpoint == "https://m/mcp"));
    let preferred = resolve_endpoint(&profile, "dev.ucp.shopping", "grpc").unwrap();
    assert!(matches!(preferred, ResolvedTransport::Rest { endpoint } if endpoint == "https://m/grpc"));
}

#[test]
fn a_single_entry_may_stand_without_a_list() {
    let profile = profile_with(Json::Null, entry("rest", "https://m/api"));
    let found = resolve_endpoint(&profile, "dev.ucp.shopping", "rest").unwrap();
    assert_eq!(found.endpoint(), "https://m/api");
}

#[test]
fn what_is_no_entry_is_passed_over() {
    let profile = profile_with(
        Json::Null,
        Json::Array(vec![
            text("rest"),
            object(vec![("transport", text("rest"))]),
            object(vec![("transport", text("rest")), ("endpoint", Json::Null)]),
            Json::Array(vec![text("rest"), text("https://m/tuple"), text("more")]),
            Json::Array(vec![text("mcp"), text("https://m/pair")]),
            object(vec![
                ("transport", text("rest")),
                ("endpoint", text("https://m/api")),
                ("extra", Json::Bool(true)),
            ]),
        ]),
    );
    let first = resolve_endpoint(&profile, "dev.ucp.shopping", "none").unwrap();
    assert!(matches!(first, ResolvedTransport::Mcp { endpoint } if endpoint == "https://m/pair"));
    let rest = resolve_endpoint(&profile, "dev.ucp.shopping", "rest").unwrap();
    assert_eq!(rest.endpoint(), "https://m/api");
    assert!(ServiceEndpoint::from_json(&text("rest")).is_none());
}

#[test]
fn a_service_without_entries_errors() {
    for service in [
        Json::Array(vec![]),
        Json::Null,
        text("https://m/api"),
        object(vec![("endpoint", text("https://m/api"))]),
    ] {
        let profile = profile_with(Json::Null, service);
        let err = resolve_endpoint(&profile, "dev.ucp.shopping", "rest").unwrap_err();
        assert_eq!(err.kind, ErrorKind::NoTransport);
        assert_eq!(
            err.to_string(),
            "no compatible transport found for merchant service 'dev.ucp.shopping'"
        );
    }
}

#[test]
fn validate_capabilities_pass() {
    let profile = sample_profile();
    validate_capabilities(&profile, &["dev.ucp.shopping.checkout".to_owned()]).unwrap();
}

#[test]
fn validate_capabilities_fail() {
    let profile = sample_profile();
    let err = validate_capabilities(&profile, &["dev.ucp.payments.subscriptions".to_owned()])
        .unwrap_err();
    assert!(err.to_string().contains("not support"));
    assert_eq!(err.kind, ErrorKind::MissingCapability);
}

#[test]
fn the_first_missing_capability_is_named() {
    let profile = sample_profile();
    let required = ["dev.ucp.shopping.checkout".to_owned(), "b".to_owned(), "a".to_owned()];
    let err = validate_capabilities(&profile, &required).unwrap_err();
    assert_eq!(err.to_string(), "merchant does not support required capability: b");
}

#[test]
fn a_profile_without_capabilities_serves_who_requires_none() {
    let profile = profile_with(Json::Null, Json::Null);
    validate_capabilities(&profile, &[]).unwrap();
    let required: Vec<String> = (0..12).map(|i| format!("c{i}")).collect();
    let err = validate_capabilities(&profile, &required).unwrap_err();
    assert_eq!(err.kind, ErrorKind::NoCapabilities);
    assert_eq!(err.to_string(), "merchant has no capabilities object but 12 required");
    // A list of capabilities is no object.
    let listed = profile_with(Json::Array(vec![text("c0")]), Json::Null);
    assert!(validate_capabilities(&listed, &["c0".to_owned()]).is_err());
}

#[test]
fn cache_expiry() {
    let entry = create_cache_entry(sample_profile(), Duration::from_millis(0));
    assert!(entry.is_expired());

    let entry = create_cache_entry(sample_profile(), Duration::from_secs(3600));
    assert!(!entry.is_expired());
}

#[test]
fn a_profile_is_good_up_to_the_end_of_its_lifetime() {
    let entry = create_cache_entry(sample_profile(), Duration::from_millis(5));
    assert!(!entry.is_expired_at(4_999_999));
    assert!(entry.is_expired_at(5_000_000));
}

#[test]
fn profiles_are_found_at_the_well_known_place() {
    assert_eq!(merchant_profile_url("https://m.example"), "https://m.example/.well-known/ucp");
    assert_eq!(merchant_profile_url("https://m.example/shop//"), "https://m.example/shop/.well-known/ucp");
    assert_eq!(merchant_profile_url("//"), "/.well-known/ucp");
}

#[test]
fn replies_to_discovery_are_read() {
    let err = read_merchant_profile(DiscoveryReply::SendFailed).unwrap_err();
    assert_eq!(err.kind, ErrorKind::RequestFailed);
    assert_eq!(err.to_string(), "UCP merchant discovery request failed");

    let err = read_merchant_profile(DiscoveryReply::AddressBlocked { reason: "10.0.0.1".into() })
        .unwrap_err();
    assert_eq!(err.kind, ErrorKind::AddressBlocked);
    assert_eq!(err.to_string(), "UCP discovery SSRF blocked: 10.0.0.1");

    for (status, words) in [(404, "404 Not Found"), (301, "301 Moved Permanently"), (199, "199")] {
        let err = read_merchant_profile(DiscoveryReply::Answered {
            status,
            status_text: words.into(),
            profile: Some(sample_profile()),
        })
        .unwrap_err();
        assert_eq!(err.kind, ErrorKind::HttpError);
        assert_eq!(err.to_string(), format!("UCP merchant discovery failed: HTTP {words}"));
    }

    let err = read_merchant_profile(DiscoveryReply::Answered {
        status: 200,
        status_text: "200 OK".into(),
        profile: None,
    })
    .unwrap_err();
    assert_eq!(err.kind, ErrorKind::Unreadable);
    assert_eq!(err.to_string(), "UCP merchant profile parse error");

    let profile = read_merchant_profile(DiscoveryReply::Answered {
        status: 299,
        status_text: "299".into(),
        profile: Some(sample_profile()),
    })
    .unwrap();
    assert_eq!(profile.name, "Test Merchant");
}

#[test]
fn approval_checks_capabilities_then_service_then_origin() {
    let approved = approve_endpoint(&sample_config(), &sample_profile()).unwrap();
    assert!(
        matches!(approved, ResolvedTransport::Rest { endpoint } if endpoint == "https://merchant.example.com/api")
    );

    let bare = profile_with(Json::Null, Json::Null);
    let err = approve_endpoint(&sample_config(), &bare).unwrap_err();
    assert_eq!(err.kind, ErrorKind::NoCapabilities);

    let mut config = sample_config();
    config.capabilities = Vec::new();
    let err = approve_endpoint(&config, &bare).unwrap_err();
    assert_eq!(err.kind, ErrorKind::NoTransport);

    let elsewhere = profile_with(Json::Null, entry("rest", "https://elsewhere.example/api"));
    let err = approve_endpoint(&config, &elsewhere).unwrap_err();
    assert_eq!(err.kind, ErrorKind::ForeignOrigin);

    config.allowed_endpoint_origins = vec!["https://elsewhere.example".into()];
    assert!(approve_endpoint(&config, &elsewhere).is_ok());
}

#[test]
fn numbers_are_no_texts() {
    let v = object(vec![
        ("transport", Json::Number(JsonNumber::PosInt(1))),
        ("endpoint", text("https://m/api")),
    ]);
    assert!(ServiceEndpoint::from_json(&v).is_none());
}

#[test]
fn a_cache_entry_lasts_from_the_given_moment() {
    let now = Instant::now() + Duration::from_secs(3);
    let entry = create_cache_entry_at(sample_profile(), Duration::from_secs(5), now);
    assert_eq!(entry.fetched_at, now);
    assert_eq!(entry.ttl, Duration::from_secs(5));
    assert_eq!(entry.profile.name, "Test Merchant");
}
