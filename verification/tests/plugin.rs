use std::time::{Duration, Instant};

use mcpg_plugin_payment_ucp::checkout::{CheckoutStatus, SessionTransport, UcpCheckoutSession};
use mcpg_plugin_payment_ucp::config::ToolTable;
use mcpg_plugin_payment_ucp::discovery::{DiscoveryReply, MerchantProfile};
use mcpg_plugin_payment_ucp::error::{ErrorKind, UcpError};
use mcpg_plugin_payment_ucp::host::{
    checkout_owner_key, GateDecision, PaymentCategory, PaymentProtocol, PluginClass, PluginContext,
    PluginIdentity,
};
use mcpg_plugin_payment_ucp::json::{Json, JsonMap};
use mcpg_plugin_payment_ucp::merchant::{MerchantReply, MerchantRequest};
use mcpg_plugin_payment_ucp::plugin::{
    create_checkout_session, create_checkout_session_at, find_checkout_ref, GateStep, HeldCheckout, PendingCheckout,
    UCP_CHECKOUT_COMPLETE_FAILED_CODE, UCP_CHECKOUT_CREATE_FAILED_CODE,
    UCP_CHECKOUT_REQUIRED_CODE,
};
use mcpg_plugin_payment_ucp::{UcpCommercePlugin, UcpProtocolConfig, UcpToolConfig};

fn text(s: &str) -> Json {
    Json::String(s.to_owned())
}

fn object(members: Vec<(&str, Json)>) -> Json {
    let mut map = JsonMap::new();
    for (name, value) in members {
        map.insert(name.to_owned(), value);
    }
    Json::Object(map)
}

fn protocol_config(session_ttl_ms: u64) -> UcpProtocolConfig {
    UcpProtocolConfig {
        platform_profile_url: "https://agent.example.com/.well-known/ucp".into(),
        session_ttl_ms,
        discovery_cache_ttl_ms: 3_600_000,
        default_transport: "rest".into(),
        http_timeout_ms: 5,
    }
}

fn buy_product() -> UcpToolConfig {
    UcpToolConfig {
        merchant_url: "https://merchant.example.com".into(),
        allowed_endpoint_origins: Vec::new(),
        capabilities: vec!["dev.ucp.shopping.checkout".into()],
        transport: "rest".into(),
        enable_ap2: false,
        auth_token: None,
        default_checkout_args: None,
    }
}

fn test_tool_configs() -> ToolTable {
    let mut m = ToolTable::new();
    m.insert("buy_product".to_owned(), buy_product());
    m
}

fn plugin_with(tool: UcpToolConfig) -> UcpCommercePlugin {
    let mut m = ToolTable::new();
    m.insert("buy_product".to_owned(), tool);
    UcpCommercePlugin::from_config(&protocol_config(3_600_000), m).ok().unwrap()
}

fn test_ctx(tool_name: &str) -> PluginContext {
    PluginContext {
        surface: "tool".to_owned(),
        session_id: None,
        tool_name: tool_name.into(),
        identity: PluginIdentity { subject_id: None, issuer: None },
    }
}

fn test_ctx_with_subject(tool_name: &str, subject: &str) -> PluginContext {
    let mut ctx = test_ctx(tool_name);
    ctx.identity.subject_id = Some(subject.into());
    ctx
}

fn decided(step: GateStep) -> GateDecision {
    match step {
        GateStep::Decided(decision) => decision,
        other => panic!("expected a decision, got: {other:?}"),
    }
}

fn pending(step: GateStep) -> PendingCheckout {
    match step {
        GateStep::OpenCheckout(pending) => pending,
        other => panic!("expected a checkout to open, got: {other:?}"),
    }
}

fn completing(step: GateStep) -> (MerchantRequest, HeldCheckout) {
    match step {
        GateStep::CompleteCheckout { request, checkout } => (request, checkout),
        other => panic!("expected a checkout to complete, got: {other:?}"),
    }
}

fn shop_profile(endpoint: &str) -> MerchantProfile {
    let mut services = JsonMap::new();
    services.insert(
        "dev.ucp.shopping".to_owned(),
        object(vec![("transport", text("rest")), ("endpoint", text(endpoint))]),
    );
    MerchantProfile {
        name: "Shop".into(),
        capabilities: object(vec![("dev.ucp.shopping.checkout", object(vec![]))]),
        services,
    }
}

fn found(endpoint: &str) -> DiscoveryReply {
    DiscoveryReply::Answered {
        status: 200,
        status_text: "200 OK".into(),
        profile: Some(shop_profile(endpoint)),
    }
}

fn answered(body: Json) -> MerchantReply {
    MerchantReply::Answered { status: 200, body }
}

fn open_checkout(plugin: &mut UcpCommercePlugin, ctx: &PluginContext, id: &str) {
    let first = match plugin.evaluate_pre(ctx, None) {
        GateStep::FetchProfile { .. } => {
            plugin.profile_fetched(ctx, found("https://merchant.example.com/api/"))
        }
        other => other,
    };
    let checkout = pending(first);
    let decision = plugin.checkout_created(
        ctx,
        checkout,
        answered(object(vec![("id", text(id)), ("status", text("ready"))])),
    );
    assert!(matches!(decision, GateDecision::Challenge { .. }));
}

fn meta_for(id: &str) -> Json {
    object(vec![("ucp/checkout_session", text(id))])
}

fn paying_meta_for(id: &str) -> Json {
    object(vec![
        ("ucp/checkout_session", text(id)),
        ("ucp/payment_instrument", object(vec![("type", text("card"))])),
    ])
}

#[test]
fn disabled_plugin_allows() {
    let mut plugin = UcpCommercePlugin::disabled();
    let decision = decided(plugin.evaluate_pre(&test_ctx("any"), None));
    assert!(decision.is_allow());
}

#[test]
fn unconfigured_tool_allows() {
    let config = UcpProtocolConfig {
        platform_profile_url: "https://agent.example.com/.well-known/ucp".into(),
        session_ttl_ms: 3600,
        discovery_cache_ttl_ms: 3600,
        default_transport: "rest".into(),
        http_timeout_ms: 30,
    };
    let mut plugin = UcpCommercePlugin::from_config(&config, test_tool_configs()).ok().unwrap();
    let decision = decided(plugin.evaluate_pre(&test_ctx("free_tool"), None));
    assert!(decision.is_allow());
}

#[test]
fn other_surfaces_are_never_charged() {
    let mut plugin = plugin_with(buy_product());
    for surface in ["resource", "prompt", "Tool", ""] {
        let mut ctx = test_ctx("buy_product");
        ctx.surface = surface.to_owned();
        assert!(decided(plugin.evaluate_pre(&ctx, None)).is_allow());
    }
}

#[test]
fn session_not_found_denied() {
    let config = UcpProtocolConfig {
        platform_profile_url: "".into(),
        session_ttl_ms: 3600,
        discovery_cache_ttl_ms: 3600,
        default_transport: "rest".into(),
        http_timeout_ms: 5,
    };
    let mut plugin = UcpCommercePlugin::from_config(&config, test_tool_configs()).ok().unwrap();

    let meta = object(vec![("ucp/checkout_session", text("nonexistent_session"))]);
    let decision = decided(plugin.evaluate_pre(&test_ctx("buy_product"), Some(&meta)));

    match decision {
        GateDecision::Deny { code, message, .. } => {
            assert_eq!(code, UCP_CHECKOUT_COMPLETE_FAILED_CODE);
            assert!(message.contains("not found"), "got: {message}");
        }
        other => panic!("expected Deny, got: {:?}", other),
    }
}

/// A checkout session created by one principal must not be readable or completable by another who
/// supplies the merchant session id. A non-owner gets an opaque "not found"; the owner passes.
#[test]
fn checkout_session_idor_denied_for_non_owner() {
    let config = UcpProtocolConfig {
        platform_profile_url: "".into(),
        session_ttl_ms: 3_600_000,
        discovery_cache_ttl_ms: 3600,
        default_transport: "rest".into(),
        http_timeout_ms: 5,
    };
    let mut plugin = UcpCommercePlugin::from_config(&config, test_tool_configs()).ok().unwrap();

    let alice = test_ctx_with_subject("buy_product", "alice");
    let mut session = UcpCheckoutSession::from_response(
        object(vec![("id", text("ucp_owned")), ("status", text("ready_for_payment"))]),
        "https://merchant.example.com".into(),
        "https://merchant.example.com/checkout".into(),
        SessionTransport::Rest { endpoint: "https://merchant.example.com/checkout".into() },
    )
    .unwrap();
    session.owner = checkout_owner_key(&alice);
    plugin.sessions.insert("ucp_owned".to_owned(), session);

    let meta = object(vec![("ucp/checkout_session", text("ucp_owned"))]);

    // Bob (different principal) is denied as "not found".
    let bob = test_ctx_with_subject("buy_product", "bob");
    match decided(plugin.evaluate_pre(&bob, Some(&meta))) {
        GateDecision::Deny { code, message, .. } => {
            assert_eq!(code, UCP_CHECKOUT_COMPLETE_FAILED_CODE);
            assert!(message.contains("not found"), "got: {message}");
        }
        other => panic!("non-owner must be denied, got: {other:?}"),
    }
    assert!(plugin.sessions.contains_key("ucp_owned"));

    // Alice (owner) passes the ownership check.
    match decided(plugin.evaluate_pre(&alice, Some(&meta))) {
        GateDecision::Challenge { code, .. } => assert_eq!(code, UCP_CHECKOUT_REQUIRED_CODE),
        other => panic!("owner must pass the ownership check, got: {other:?}"),
    }
}

#[test]
fn a_foreign_checkout_is_answered_like_a_missing_one() {
    let mut plugin = plugin_with(buy_product());
    let alice = test_ctx_with_subject("buy_product", "alice");
    let bob = test_ctx_with_subject("buy_product", "bob");
    open_checkout(&mut plugin, &alice, "chk_1");
    let meta = paying_meta_for("chk_1");
    let foreign = format!("{:?}", decided(plugin.evaluate_pre(&bob, Some(&meta))));
    assert!(plugin.sessions.contains_key("chk_1"));
    plugin.sessions.remove("chk_1");
    let missing = format!("{:?}", decided(plugin.evaluate_pre(&bob, Some(&meta))));
    assert_eq!(foreign, missing);
    assert!(missing.contains("UCP checkout session 'chk_1' not found or expired"));
    assert!(missing.contains("404"));
}

#[test]
fn owner_keys_are_exact() {
    let mut ctx = test_ctx("t");
    assert_eq!(checkout_owner_key(&ctx), "sess:anon");
    ctx.session_id = Some("s1".into());
    assert_eq!(checkout_owner_key(&ctx), "sess:s1");
    ctx.identity.subject_id = Some("".into());
    ctx.identity.issuer = Some("https://idp".into());
    assert_eq!(checkout_owner_key(&ctx), "sess:s1");
    ctx.identity.subject_id = Some("alice".into());
    assert_eq!(checkout_owner_key(&ctx), "sub:alice|https://idp");
    ctx.identity.issuer = None;
    assert_eq!(checkout_owner_key(&ctx), "sub:alice|");
}

#[test]
fn subjects_with_bars_have_keys_of_their_own() {
    let key = |subject: &str, issuer: &str| {
        let mut ctx = test_ctx_with_subject("t", subject);
        ctx.identity.issuer = Some(issuer.into());
        checkout_owner_key(&ctx)
    };
    assert_ne!(key("a|b", "c"), key("a", "b|c"));
    assert_eq!(key("a|b", "c"), "sub:a\\|b|c");
    assert_eq!(key("a", "b|c"), "sub:a|b|c");
    assert_eq!(key("a\\", "b"), "sub:a\\\\|b");
    assert_ne!(key("a\\", "b|c"), key("a\\|b", "c"));
    assert_ne!(key("a||", ""), key("a", "||"));
}

#[test]
fn a_checkout_is_hidden_from_a_subject_that_goes_on_with_the_bar() {
    let mut plugin = plugin_with(buy_product());
    let mut one = test_ctx_with_subject("buy_product", "a|b");
    one.identity.issuer = Some("c".into());
    let mut other = test_ctx_with_subject("buy_product", "a");
    other.identity.issuer = Some("b|c".into());
    open_checkout(&mut plugin, &one, "chk_1");
    assert!(matches!(
        decided(plugin.evaluate_pre(&other, Some(&meta_for("chk_1")))),
        GateDecision::Deny { http_status: 404, .. }
    ));
    assert!(matches!(
        decided(plugin.evaluate_pre(&one, Some(&meta_for("chk_1")))),
        GateDecision::Challenge { .. }
    ));
}

fn two_tools(other: UcpToolConfig) -> UcpCommercePlugin {
    let mut tools = test_tool_configs();
    tools.insert("buy_elsewhere".to_owned(), other);
    UcpCommercePlugin::from_config(&protocol_config(3_600_000), tools).ok().unwrap()
}

#[test]
fn another_tools_token_is_not_sent_where_that_tool_refuses() {
    let mut elsewhere = buy_product();
    elsewhere.merchant_url = "https://elsewhere.example".into();
    elsewhere.auth_token = Some("s3cr3t".into());
    let mut plugin = two_tools(elsewhere);
    let here = test_ctx_with_subject("buy_product", "alice");
    let there = test_ctx_with_subject("buy_elsewhere", "alice");
    open_checkout(&mut plugin, &here, "chk_1");
    let before = format!("{:?}", plugin.sessions.get("chk_1").unwrap().value());

    match decided(plugin.evaluate_pre(&there, Some(&paying_meta_for("chk_1")))) {
        GateDecision::Challenge { http_status, code, message, .. } => {
            assert_eq!((http_status, code), (402, -33050));
            assert_eq!(
                message,
                "UCP checkout completion failed: UCP endpoint origin \
                 'https://merchant.example.com' is neither the merchant's own origin nor in \
                 allowed_endpoint_origins; refusing to send merchant credentials there"
            );
        }
        other => panic!("got: {other:?}"),
    }
    assert_eq!(before, format!("{:?}", plugin.sessions.get("chk_1").unwrap().value()));

    // Without an instrument nothing would be sent, and the state is told.
    assert!(matches!(
        decided(plugin.evaluate_pre(&there, Some(&meta_for("chk_1")))),
        GateDecision::Challenge { .. }
    ));
    // The tool that opened it completes it.
    let (request, _) = completing(plugin.evaluate_pre(&here, Some(&paying_meta_for("chk_1"))));
    assert_eq!(request.url, "https://merchant.example.com/api/complete_checkout");
    assert!(request.bearer.is_none());
}

#[test]
fn another_tool_may_complete_where_its_settings_allow() {
    let mut elsewhere = buy_product();
    elsewhere.merchant_url = "https://elsewhere.example".into();
    elsewhere.allowed_endpoint_origins = vec!["https://merchant.example.com".into()];
    elsewhere.auth_token = Some("s3cr3t".into());
    let mut plugin = two_tools(elsewhere);
    let here = test_ctx_with_subject("buy_product", "alice");
    let there = test_ctx_with_subject("buy_elsewhere", "alice");
    open_checkout(&mut plugin, &here, "chk_1");
    let (request, _) = completing(plugin.evaluate_pre(&there, Some(&paying_meta_for("chk_1"))));
    assert_eq!(request.bearer.as_deref(), Some("s3cr3t"));
}

#[test]
fn a_judged_completion_goes_by_the_verdict() {
    let mut plugin = plugin_with(buy_product());
    let ctx = test_ctx("buy_product");
    open_checkout(&mut plugin, &ctx, "chk_1");
    let (_, held) = completing(plugin.evaluate_pre(&ctx, Some(&paying_meta_for("chk_1"))));
    let (request, held) =
        completing(plugin.complete_judged(held, Some("t".into()), &Json::Null, Ok(())));
    assert_eq!(request.bearer.as_deref(), Some("t"));
    assert!(plugin.sessions.is_empty());
    let refusal = UcpError::new(ErrorKind::NotHttps, "no".into());
    match decided(plugin.complete_judged(held, None, &Json::Null, Err(refusal))) {
        GateDecision::Challenge { message, .. } => {
            assert_eq!(message, "UCP checkout completion failed: no")
        }
        other => panic!("got: {other:?}"),
    }
    assert!(plugin.sessions.contains_key("chk_1"));
}

#[test]
fn a_settled_checkout_grants_once() {
    let mut plugin = plugin_with(buy_product());
    let ctx = test_ctx("buy_product");
    open_checkout(&mut plugin, &ctx, "chk_1");
    let meta = paying_meta_for("chk_1");
    let (_, held) = completing(plugin.evaluate_pre(&ctx, Some(&meta)));
    let settled = answered(object(vec![("status", text("completed"))]));
    assert!(plugin.checkout_completed(held, settled).is_allow());
    assert!(matches!(
        decided(plugin.evaluate_pre(&ctx, Some(&meta))),
        GateDecision::Deny { http_status: 404, code: -33052, .. }
    ));
}

#[test]
fn only_configured_tools_on_the_tool_surface_are_gated() {
    let plugin = plugin_with(buy_product());
    assert!(plugin.gates(&test_ctx("buy_product")));
    assert!(!plugin.gates(&test_ctx("other")));
    let mut ctx = test_ctx("buy_product");
    ctx.surface = "prompt".into();
    assert!(!plugin.gates(&ctx));
    assert!(!UcpCommercePlugin::disabled().gates(&test_ctx("buy_product")));
}

#[test]
fn every_constructor_gives_the_manifest() {
    let id = UcpCommercePlugin::make_manifest().id;
    assert_eq!(id, "dev.mcpg.payment.ucp");
    assert_eq!(plugin_with(buy_product()).manifest().id, id);
    assert_eq!(UcpCommercePlugin::from_operator_config(None, ToolTable::new()).0.manifest().id, id);
}

#[test]
fn manifest_is_correct() {
    let plugin = UcpCommercePlugin::disabled();
    let m = plugin.manifest();
    assert_eq!(m.id, "dev.mcpg.payment.ucp");
    assert_eq!(m.plugin_class, PluginClass::ToolGate);
    assert_eq!(m.name, "Universal Commerce Protocol (UCP)");
    assert_eq!(m.protocol_version, "1.0");
    assert_eq!(m.module_path_prefix, "mcpg_plugin_payment_ucp");
    assert!(m.license.is_none() && m.backend_profile.is_none());
}

#[test]
fn payment_aware_capabilities() {
    let plugin = UcpCommercePlugin::disabled();
    let caps = plugin.payment_capabilities();
    assert_eq!(caps.len(), 1);
    assert_eq!(caps[0].protocol, PaymentProtocol::Ucp);
    assert!(caps[0].supports_sessions);
    assert!(caps[0].supports_commerce);
    assert_eq!(caps[0].methods, vec!["checkout".to_owned()]);
    assert_eq!(caps[0].meta_prefix, "ucp/");
    assert_eq!(plugin.credential_meta_keys(), vec!["ucp/checkout_session", "ucp/payment_instrument"]);
}

#[test]
fn payment_aware_category() {
    let plugin = UcpCommercePlugin::disabled();
    assert_eq!(plugin.payment_category(), PaymentCategory::Commerce);
}

#[test]
fn empty_tool_configs_creates_disabled() {
    let config = UcpProtocolConfig {
        platform_profile_url: "".into(),
        session_ttl_ms: 3600,
        discovery_cache_ttl_ms: 3600,
        default_transport: "rest".into(),
        http_timeout_ms: 30,
    };
    let plugin = UcpCommercePlugin::from_config(&config, ToolTable::new()).ok().unwrap();
    assert!(!plugin.enabled);
}

#[test]
fn missing_merchant_url_rejected() {
    let config = UcpProtocolConfig {
        platform_profile_url: "".into(),
        session_ttl_ms: 3600,
        discovery_cache_ttl_ms: 3600,
        default_transport: "rest".into(),
        http_timeout_ms: 30,
    };
    let mut tools = ToolTable::new();
    tools.insert(
        "bad_tool".to_owned(),
        UcpToolConfig {
            merchant_url: "".into(),
            allowed_endpoint_origins: Vec::new(),
            capabilities: vec![],
            transport: "rest".into(),
            enable_ap2: false,
            auth_token: None,
            default_checkout_args: None,
        },
    );
    let err = UcpCommercePlugin::from_config(&config, tools).err().unwrap();
    assert!(err.to_string().contains("merchant_url"), "got: {}", err.to_string());
    assert_eq!(err.kind, ErrorKind::MissingMerchantUrl);
}

#[test]
fn the_first_tool_without_a_merchant_is_blamed() {
    let mut bad = buy_product();
    bad.merchant_url = "".into();
    let mut tools = ToolTable::new();
    for name in ["zz", "mm", "aa"] {
        tools.insert(name.to_owned(), bad.clone());
    }
    tools.insert("aa".to_owned(), buy_product());
    let err = UcpCommercePlugin::from_config(&protocol_config(1), tools).err().unwrap();
    assert_eq!(err.to_string(), "UCP: merchant_url is required for tool 'mm'");
}

/// Error codes must not collide with the MCP-reserved JSON-RPC range.
#[test]
fn ucp_codes_outside_mcp_reserved_range() {
    for code in [
        UCP_CHECKOUT_REQUIRED_CODE,
        UCP_CHECKOUT_CREATE_FAILED_CODE,
        UCP_CHECKOUT_COMPLETE_FAILED_CODE,
    ] {
        assert!(
            !(-32099..=-32000).contains(&code),
            "UCP error code {code} collides with MCP reserved range [-32099, -32000]"
        );
    }
    assert_eq!(UCP_CHECKOUT_REQUIRED_CODE, -33050);
    assert_eq!(UCP_CHECKOUT_CREATE_FAILED_CODE, -33051);
    assert_eq!(UCP_CHECKOUT_COMPLETE_FAILED_CODE, -33052);
}

#[test]
fn settings_are_taken_from_the_configuration() {
    let plugin = UcpCommercePlugin::from_config(&protocol_config(1500), test_tool_configs())
        .ok()
        .unwrap();
    assert!(plugin.enabled);
    assert_eq!(plugin.session_ttl.as_millis(), 1500);
    assert_eq!(plugin.discovery_cache_ttl.as_millis(), 3_600_000);
    assert_eq!(plugin.platform_profile_url, "https://agent.example.com/.well-known/ucp");
    assert_eq!(plugin.default_transport, "rest");
    assert_eq!(plugin.configured_tools(), vec!["buy_product".to_owned()]);
    assert!(plugin.sessions.is_empty() && plugin.merchant_profiles.is_empty());

    let off = UcpCommercePlugin::disabled();
    assert_eq!(off.session_ttl.as_secs(), 3600);
    assert_eq!(off.discovery_cache_ttl.as_secs(), 3600);
    assert_eq!(off.default_transport, "rest");
    assert_eq!(off.platform_profile_url, "");
}

#[test]
fn an_operators_configuration_may_leave_the_plugin_off() {
    let config = protocol_config(1);
    let set_up = |config, tools| UcpCommercePlugin::from_operator_config(config, tools);

    let (plugin, refusal) = set_up(None, test_tool_configs());
    assert!(!plugin.enabled && refusal.is_none());

    let (plugin, refusal) = set_up(Some(config.clone()), ToolTable::new());
    assert!(!plugin.enabled && refusal.is_none());

    let mut bad = buy_product();
    bad.merchant_url = "".into();
    let mut tools = test_tool_configs();
    tools.insert("bad".to_owned(), bad);
    let (plugin, refusal) = set_up(Some(config.clone()), tools);
    assert!(!plugin.enabled && plugin.tool_configs.is_empty());
    assert_eq!(refusal.unwrap().to_string(), "UCP: merchant_url is required for tool 'bad'");

    let (plugin, refusal) = set_up(Some(config), test_tool_configs());
    assert!(plugin.enabled && refusal.is_none());
}

#[test]
fn tools_are_listed_in_the_order_of_their_names() {
    let mut tools = ToolTable::new();
    for name in ["b", "a.b", "a", "é", "B", "a"] {
        tools.insert(name.to_owned(), buy_product());
    }
    let plugin = UcpCommercePlugin::from_config(&protocol_config(1), tools).ok().unwrap();
    assert_eq!(plugin.configured_tools(), vec!["B", "a", "a.b", "b", "é"]);
}

#[test]
fn a_purchase_from_first_call_to_receipt() {
    let mut tool = buy_product();
    tool.auth_token = Some("s3cr3t".into());
    tool.default_checkout_args = Some(object(vec![("sku", text("42"))]));
    let mut plugin = plugin_with(tool);
    let ctx = test_ctx_with_subject("buy_product", "alice");

    // The merchant is looked up.
    match plugin.evaluate_pre(&ctx, None) {
        GateStep::FetchProfile { url } => {
            assert_eq!(url, "https://merchant.example.com/.well-known/ucp")
        }
        other => panic!("got: {other:?}"),
    }
    let checkout = pending(plugin.profile_fetched(&ctx, found("https://merchant.example.com/api/")));
    assert_eq!(checkout.merchant_url, "https://merchant.example.com");
    assert_eq!(checkout.bearer.as_deref(), Some("s3cr3t"));

    // The checkout is opened.
    let arguments = object(vec![("size", text("L"))]);
    let request = plugin.create_checkout_request(&checkout, &arguments);
    assert_eq!(request.url, "https://merchant.example.com/api/create_checkout");
    assert_eq!(request.bearer.as_deref(), Some("s3cr3t"));
    assert_eq!(
        request.body.to_string(),
        "{\"checkout\":{\"sku\":\"42\",\"tool_arguments\":{\"size\":\"L\"}},\
         \"meta\":{\"ucp-agent\":{\"profile\":\"https://agent.example.com/.well-known/ucp\"}}}"
    );
    let opened = plugin.checkout_created(
        &ctx,
        checkout,
        answered(object(vec![("id", text("chk_1")), ("status", text("ready"))])),
    );
    match opened {
        GateDecision::Challenge { http_status, code, message, challenge_data } => {
            assert_eq!(http_status, 402);
            assert_eq!(code, -33050);
            assert_eq!(message, "UCP checkout required for tool 'buy_product'");
            assert_eq!(challenge_data.get("checkout_session").unwrap().get_str("id"), Some("chk_1"));
        }
        other => panic!("got: {other:?}"),
    }
    {
        let session = plugin.sessions.get("chk_1").unwrap();
        assert_eq!(session.owner, "sub:alice|");
        assert_eq!(session.status, CheckoutStatus::ReadyForComplete);
        assert_eq!(session.merchant_endpoint, "https://merchant.example.com/api/");
    }

    // Without an instrument it is demanded again.
    match decided(plugin.evaluate_pre(&ctx, Some(&meta_for("chk_1")))) {
        GateDecision::Challenge { http_status, code, message, .. } => {
            assert_eq!((http_status, code), (402, -33050));
            assert_eq!(message, "UCP checkout session 'chk_1' awaiting payment");
        }
        other => panic!("got: {other:?}"),
    }

    // The checkout is completed, at first in vain.
    let (request, held) = completing(plugin.evaluate_pre(&ctx, Some(&paying_meta_for("chk_1"))));
    assert_eq!(request.url, "https://merchant.example.com/api/complete_checkout");
    assert_eq!(request.bearer.as_deref(), Some("s3cr3t"));
    assert_eq!(
        request.body.to_string(),
        "{\"checkout\":{\"payment\":{\"instruments\":[{\"type\":\"card\"}]}},\"id\":\"chk_1\"}"
    );
    let decision = plugin.checkout_completed(
        held,
        answered(object(vec![("status", text("complete_in_progress"))])),
    );
    match decision {
        GateDecision::Challenge { http_status, code, message, challenge_data } => {
            assert_eq!((http_status, code), (402, -33050));
            assert_eq!(
                message,
                "UCP checkout 'chk_1' not settled (status CompleteInProgress); payment not confirmed"
            );
            assert_eq!(
                challenge_data.get("checkout_session").unwrap().get_str("status"),
                Some("complete_in_progress")
            );
        }
        other => panic!("got: {other:?}"),
    }
    assert_eq!(plugin.sessions.get("chk_1").unwrap().status, CheckoutStatus::CompleteInProgress);

    // And settled.
    let (_, held) = completing(plugin.evaluate_pre(&ctx, Some(&paying_meta_for("chk_1"))));
    let decision = plugin.checkout_completed(
        held,
        answered(object(vec![
            ("status", text("completed")),
            ("order", object(vec![("id", text("order_9"))])),
        ])),
    );
    match decision {
        GateDecision::Allow { metadata: Some(metadata) } => {
            assert_eq!(metadata.to_string(), "{\"ucp/order\":{\"id\":\"order_9\"}}");
        }
        other => panic!("got: {other:?}"),
    }
    assert!(plugin.sessions.is_empty());
}

#[test]
fn a_completion_without_a_status_is_not_settled() {
    let mut plugin = plugin_with(buy_product());
    let ctx = test_ctx("buy_product");
    open_checkout(&mut plugin, &ctx, "chk_1");
    plugin.sessions.get_mut("chk_1").unwrap().status = CheckoutStatus::Completed;
    let (_, held) = completing(plugin.evaluate_pre(&ctx, Some(&paying_meta_for("chk_1"))));
    match plugin.checkout_completed(held, answered(object(vec![]))) {
        GateDecision::Challenge { message, .. } => assert_eq!(
            message,
            "UCP checkout 'chk_1' not settled (status Incomplete); payment not confirmed"
        ),
        other => panic!("got: {other:?}"),
    }
}

#[test]
fn every_unsettled_status_is_demanded_again() {
    let mut plugin = plugin_with(buy_product());
    let ctx = test_ctx("buy_product");
    open_checkout(&mut plugin, &ctx, "chk_1");
    for (reported, name) in [
        ("incomplete", "Incomplete"),
        ("requires_action", "RequiresAction"),
        ("ready", "ReadyForComplete"),
        ("complete_in_progress", "CompleteInProgress"),
        ("cancelled", "Canceled"),
        ("paid", "Incomplete"),
    ] {
        let (_, held) = completing(plugin.evaluate_pre(&ctx, Some(&paying_meta_for("chk_1"))));
        let reply = answered(object(vec![("status", text(reported))]));
        match plugin.checkout_completed(held, reply) {
            GateDecision::Challenge { message, .. } => {
                assert!(message.contains(&format!("(status {name})")), "got: {message}")
            }
            other => panic!("got: {other:?}"),
        }
        assert!(plugin.sessions.contains_key("chk_1"));
    }
}

#[test]
fn a_failed_completion_leaves_the_checkout_as_it_was() {
    let mut plugin = plugin_with(buy_product());
    let ctx = test_ctx("buy_product");
    open_checkout(&mut plugin, &ctx, "chk_1");
    let before = format!("{:?}", plugin.sessions.get("chk_1").unwrap().value());
    for (reply, message) in [
        (
            MerchantReply::SendFailed { error: "timed out".into() },
            "UCP checkout completion failed: UCP complete_checkout failed: timed out",
        ),
        (
            MerchantReply::AddressBlocked { reason: "loopback".into() },
            "UCP checkout completion failed: UCP merchant SSRF blocked: loopback",
        ),
        (
            MerchantReply::Unreadable { error: "eof".into() },
            "UCP checkout completion failed: UCP complete response parse error: eof",
        ),
        (
            MerchantReply::Answered {
                status: 402,
                body: object(vec![("status", text("completed"))]),
            },
            "UCP checkout completion failed: UCP complete_checkout returned HTTP 402: \
             {\"status\":\"completed\"}",
        ),
    ] {
        let (_, held) = completing(plugin.evaluate_pre(&ctx, Some(&paying_meta_for("chk_1"))));
        match plugin.checkout_completed(held, reply) {
            GateDecision::Challenge { http_status, code, message: got, .. } => {
                assert_eq!((http_status, code), (402, -33050));
                assert_eq!(got, message);
            }
            other => panic!("got: {other:?}"),
        }
        assert_eq!(before, format!("{:?}", plugin.sessions.get("chk_1").unwrap().value()));
    }
}

#[test]
fn an_expired_checkout_is_dropped() {
    let mut plugin = UcpCommercePlugin::from_config(&protocol_config(2), test_tool_configs())
        .ok()
        .unwrap();
    let ctx = test_ctx("buy_product");
    open_checkout(&mut plugin, &ctx, "chk_1");
    let meta = meta_for("chk_1");
    assert!(matches!(
        decided(plugin.evaluate_pre_at(&ctx, Some(&meta), 1_999_999)),
        GateDecision::Challenge { .. }
    ));
    // A stranger does not drop it.
    let bob = test_ctx_with_subject("buy_product", "bob");
    assert!(matches!(
        decided(plugin.evaluate_pre_at(&bob, Some(&meta), 2_000_000)),
        GateDecision::Deny { http_status: 404, .. }
    ));
    match decided(plugin.evaluate_pre_at(&ctx, Some(&meta), 2_000_000)) {
        GateDecision::Deny { http_status, code, message, error_data } => {
            assert_eq!((http_status, code), (410, -33052));
            assert_eq!(message, "UCP checkout session 'chk_1' expired");
            assert!(error_data.is_none());
        }
        other => panic!("got: {other:?}"),
    }
    assert!(plugin.sessions.is_empty());
    assert!(matches!(
        decided(plugin.evaluate_pre_at(&ctx, Some(&meta), 0)),
        GateDecision::Deny { http_status: 404, .. }
    ));
}

#[test]
fn a_lifetime_of_nothing_is_over_at_once() {
    let mut plugin = UcpCommercePlugin::from_config(&protocol_config(0), test_tool_configs())
        .ok()
        .unwrap();
    let ctx = test_ctx("buy_product");
    open_checkout(&mut plugin, &ctx, "chk_1");
    assert!(matches!(
        decided(plugin.evaluate_pre(&ctx, Some(&meta_for("chk_1")))),
        GateDecision::Deny { http_status: 410, .. }
    ));
}

#[test]
fn a_fetched_profile_is_reused_while_it_lasts() {
    let mut plugin = plugin_with(buy_product());
    let ctx = test_ctx("buy_product");
    open_checkout(&mut plugin, &ctx, "chk_1");
    assert!(plugin.merchant_profiles.contains_key("https://merchant.example.com"));
    let again = pending(plugin.evaluate_pre(&ctx, None));
    assert_eq!(again.transport.endpoint(), "https://merchant.example.com/api/");
    let lifetime: u128 = 3_600_000_000_000;
    assert!(matches!(
        plugin.evaluate_pre_at(&ctx, None, lifetime - 1),
        GateStep::OpenCheckout(_)
    ));
    assert!(matches!(
        plugin.evaluate_pre_at(&ctx, None, lifetime),
        GateStep::FetchProfile { .. }
    ));
}

#[test]
fn a_foreign_endpoint_is_refused() {
    let mut plugin = plugin_with(buy_product());
    let ctx = test_ctx("buy_product");
    let step = plugin.profile_fetched(&ctx, found("https://collector.attacker.test/api"));
    match decided(step) {
        GateDecision::Deny { http_status, code, message, error_data } => {
            assert_eq!((http_status, code), (500, -33051));
            assert!(message.starts_with(
                "UCP checkout creation failed: UCP endpoint origin 'https://collector.attacker.test'"
            ));
            assert!(error_data.is_none());
        }
        other => panic!("got: {other:?}"),
    }
    // The profile stays known, and the endpoint stays refused.
    assert!(matches!(
        decided(plugin.evaluate_pre(&ctx, None)),
        GateDecision::Deny { http_status: 500, .. }
    ));
}

#[test]
fn failed_discovery_is_refused_and_not_remembered() {
    let mut plugin = plugin_with(buy_product());
    let ctx = test_ctx("buy_product");
    match decided(plugin.profile_fetched(&ctx, DiscoveryReply::SendFailed)) {
        GateDecision::Deny { http_status, code, message, .. } => {
            assert_eq!((http_status, code), (500, -33051));
            assert_eq!(
                message,
                "UCP checkout creation failed: UCP merchant discovery request failed"
            );
        }
        other => panic!("got: {other:?}"),
    }
    assert!(plugin.merchant_profiles.is_empty());
}

#[test]
fn a_profile_for_an_ungated_call_changes_nothing() {
    let mut plugin = plugin_with(buy_product());
    let step = plugin.profile_fetched(&test_ctx("other"), found("https://merchant.example.com/api"));
    assert!(decided(step).is_allow());
    assert!(plugin.merchant_profiles.is_empty());
}

#[test]
fn a_failed_opening_is_refused() {
    for (reply, message) in [
        (
            MerchantReply::SendFailed { error: "refused".into() },
            "UCP checkout creation failed: UCP merchant request failed: refused",
        ),
        (
            MerchantReply::AddressBlocked { reason: "private".into() },
            "UCP checkout creation failed: UCP merchant SSRF blocked: private",
        ),
        (
            MerchantReply::Unreadable { error: "eof".into() },
            "UCP checkout creation failed: UCP merchant response parse error: eof",
        ),
        (
            MerchantReply::Answered { status: 503, body: text("busy") },
            "UCP checkout creation failed: UCP merchant create_checkout returned HTTP 503: \"busy\"",
        ),
        (
            answered(object(vec![("status", text("ready"))])),
            "UCP checkout creation failed: UCP merchant response missing session ID",
        ),
    ] {
        let mut plugin = plugin_with(buy_product());
        let ctx = test_ctx("buy_product");
        let checkout =
            pending(plugin.profile_fetched(&ctx, found("https://merchant.example.com/api")));
        match plugin.checkout_created(&ctx, checkout, reply) {
            GateDecision::Deny { http_status, code, message: got, .. } => {
                assert_eq!((http_status, code), (500, -33051));
                assert_eq!(got, message);
            }
            other => panic!("got: {other:?}"),
        }
        assert!(plugin.sessions.is_empty());
    }
}

#[test]
fn a_session_is_opened_by_an_answer_with_an_id() {
    let mut plugin = plugin_with(buy_product());
    let ctx = test_ctx("buy_product");
    let checkout = pending(plugin.profile_fetched(&ctx, found("https://merchant.example.com/api")));
    let session =
        create_checkout_session(checkout, answered(object(vec![("id", text("x"))]))).unwrap();
    assert_eq!(session.session_id, "x");
    assert_eq!(session.owner, "");
    assert_eq!(session.transport.endpoint(), "https://merchant.example.com/api");

    let checkout = pending(plugin.evaluate_pre(&ctx, None));
    let err = create_checkout_session(checkout, answered(Json::Null)).unwrap_err();
    assert_eq!(err.kind, ErrorKind::MissingSessionId);
}

#[test]
fn a_reference_that_is_no_text_counts_as_none() {
    let mut plugin = plugin_with(buy_product());
    let meta = object(vec![("ucp/checkout_session", Json::Bool(true))]);
    for meta in [meta, Json::Null, Json::Array(vec![])] {
        assert!(matches!(
            plugin.evaluate_pre(&test_ctx("buy_product"), Some(&meta)),
            GateStep::FetchProfile { .. }
        ));
    }
}

#[test]
fn an_empty_token_is_no_token() {
    let mut tool = buy_product();
    tool.auth_token = Some("".into());
    assert!(tool.auth_token().is_none());
    let mut plugin = plugin_with(tool);
    let ctx = test_ctx("buy_product");
    let checkout = pending(plugin.profile_fetched(&ctx, found("https://merchant.example.com/api")));
    assert!(checkout.bearer.is_none());
}

#[test]
fn a_null_instrument_is_still_an_instrument() {
    let mut plugin = plugin_with(buy_product());
    let ctx = test_ctx("buy_product");
    open_checkout(&mut plugin, &ctx, "chk_1");
    let meta = object(vec![
        ("ucp/checkout_session", text("chk_1")),
        ("ucp/payment_instrument", Json::Null),
    ]);
    let (request, _) = completing(plugin.evaluate_pre(&ctx, Some(&meta)));
    assert_eq!(
        request.body.to_string(),
        "{\"checkout\":{\"payment\":{\"instruments\":[null]}},\"id\":\"chk_1\"}"
    );
}

#[test]
fn answers_after_the_tool_let_it_be() {
    let plugin = plugin_with(buy_product());
    let decision = plugin.evaluate_post();
    assert!(decision.is_allow());
    assert_eq!(decision.outcome(), "allow");
    let deny = GateDecision::Deny {
        http_status: 404,
        code: 1,
        message: String::new(),
        error_data: None,
    };
    assert_eq!(deny.outcome(), "deny");
    let challenge = GateDecision::Challenge {
        http_status: 402,
        code: 1,
        message: String::new(),
        challenge_data: Json::Null,
    };
    assert_eq!(challenge.outcome(), "challenge");
    assert!(!challenge.is_allow());
}

#[test]
fn a_session_that_nobody_owns_is_not_found() {
    let mut plugin = plugin_with(buy_product());
    let ctx = test_ctx("buy_product");
    open_checkout(&mut plugin, &ctx, "chk_1");
    plugin.sessions.get_mut("chk_1").unwrap().owner = String::new();
    assert!(matches!(
        decided(plugin.evaluate_pre(&ctx, Some(&meta_for("chk_1")))),
        GateDecision::Deny { http_status: 404, .. }
    ));
    assert!(plugin.sessions.contains_key("chk_1"));
}

#[test]
fn a_subject_can_come_back_over_another_connection() {
    let mut plugin = plugin_with(buy_product());
    let mut alice = test_ctx_with_subject("buy_product", "alice");
    alice.session_id = Some("conn-1".into());
    open_checkout(&mut plugin, &alice, "chk_1");
    alice.session_id = Some("conn-2".into());
    assert!(matches!(
        decided(plugin.evaluate_pre(&alice, Some(&meta_for("chk_1")))),
        GateDecision::Challenge { .. }
    ));

    // An anonymous caller is its connection.
    let mut nobody = test_ctx("buy_product");
    nobody.session_id = Some("conn-1".into());
    open_checkout(&mut plugin, &nobody, "chk_2");
    nobody.session_id = Some("conn-2".into());
    assert!(matches!(
        decided(plugin.evaluate_pre(&nobody, Some(&meta_for("chk_2")))),
        GateDecision::Deny { http_status: 404, .. }
    ));
}

#[test]
fn a_new_checkout_begins_its_life_when_it_is_opened() {
    let mut plugin = plugin_with(buy_product());
    let ctx = test_ctx("buy_product");
    let first = Instant::now();
    let second = first + Duration::from_secs(7);
    let body = || answered(object(vec![("id", text("chk_1"))]));

    let checkout = pending(plugin.profile_fetched(&ctx, found("https://merchant.example.com/api")));
    plugin.checkout_created_at(&ctx, checkout, body(), first);
    assert_eq!(plugin.sessions.get("chk_1").unwrap().created_at, first);

    // A later one of the same id takes nothing over from it.
    let checkout = pending(plugin.evaluate_pre(&ctx, None));
    plugin.checkout_created_at(&ctx, checkout, body(), second);
    assert_eq!(plugin.sessions.get("chk_1").unwrap().created_at, second);

    let checkout = pending(plugin.evaluate_pre(&ctx, None));
    let session = create_checkout_session_at(checkout, body(), second).unwrap();
    assert_eq!(session.created_at, second);

    // Without a given moment it is the present one.
    let checkout = pending(plugin.evaluate_pre(&ctx, None));
    let before = Instant::now();
    plugin.checkout_created(&ctx, checkout, body());
    let created_at = plugin.sessions.get("chk_1").unwrap().created_at;
    assert!(before <= created_at && created_at <= Instant::now());
}

#[test]
fn a_profile_fetched_again_lasts_from_then_on() {
    let mut plugin = plugin_with(buy_product());
    let ctx = test_ctx("buy_product");
    let first = Instant::now();
    let second = first + Duration::from_secs(7);
    let merchant = "https://merchant.example.com";
    for now in [first, second] {
        plugin.profile_fetched_at(&ctx, found("https://merchant.example.com/api"), now);
        let entry = plugin.merchant_profiles.get(merchant).unwrap();
        assert_eq!(entry.fetched_at, now);
        assert_eq!(entry.ttl, plugin.discovery_cache_ttl);
    }
    // A failed fetch does not renew it.
    plugin.profile_fetched(&ctx, DiscoveryReply::SendFailed);
    assert_eq!(plugin.merchant_profiles.get(merchant).unwrap().fetched_at, second);

    let before = Instant::now();
    plugin.profile_fetched(&ctx, found("https://merchant.example.com/api"));
    let fetched_at = plugin.merchant_profiles.get(merchant).unwrap().fetched_at;
    assert!(before <= fetched_at && fetched_at <= Instant::now());
}

#[test]
fn a_checkout_reference_is_a_text_in_the_metadata() {
    assert_eq!(find_checkout_ref(Some(&meta_for("chk_1"))), Some("chk_1"));
    assert_eq!(find_checkout_ref(Some(&Json::Null)), None);
    assert_eq!(find_checkout_ref(None), None);
}
