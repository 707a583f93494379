use mcpg_plugin_payment_ucp::config::{
    default_capabilities, default_discovery_cache_ttl, default_http_timeout, default_session_ttl,
    default_transport, ToolTable, UcpToolConfig,
};
use mcpg_plugin_payment_ucp::error::{ErrorKind, UcpError};
use mcpg_plugin_payment_ucp::json::{Json, JsonMap, JsonNumber};
use mcpg_plugin_payment_ucp::merchant::{
    build_create_checkout_body, seed_takes_arguments, MerchantCall, MerchantReply,
};
use mcpg_plugin_payment_ucp::text::{
    begins_with, decimal_text, escape, join2, join3, same, stands_before, trim_end_slashes,
};

fn text(s: &str) -> Json {
    Json::String(s.to_owned())
}

fn object(members: Vec<(&str, Json)>) -> Json {
    let mut map = JsonMap::new();
    for (name, value) in members {
        map.insert(name.to_owned(), value);
    }
    Json::Object(map)
}

fn tool(merchant_url: &str) -> UcpToolConfig {
    UcpToolConfig {
        merchant_url: merchant_url.into(),
        allowed_endpoint_origins: Vec::new(),
        capabilities: Vec::new(),
        transport: "rest".into(),
        enable_ap2: false,
        auth_token: None,
        default_checkout_args: None,
    }
}

#[test]
fn defaults_are_as_documented() {
    assert_eq!(default_session_ttl(), 3600);
    assert_eq!(default_discovery_cache_ttl(), 3600);
    assert_eq!(default_http_timeout(), 30);
    assert_eq!(default_transport(), "rest");
    assert_eq!(default_capabilities(), vec!["dev.ucp.shopping.checkout"]);
}

#[test]
fn json_is_written_compactly() {
    let v = object(vec![
        ("b", Json::Array(vec![Json::Null, Json::Bool(false), text("a\"b")])),
        ("a", Json::Number(JsonNumber::NegInt(-5))),
        ("c", Json::Number(JsonNumber::Float(serde_json::Number::from_f64(1.5).unwrap()))),
    ]);
    assert_eq!(v.to_string(), "{\"a\":-5,\"b\":[null,false,\"a\\\"b\"],\"c\":1.5}");
    assert_eq!(v.clone().to_string(), v.to_string());
}

#[test]
fn members_are_replaced_in_place() {
    let mut map = JsonMap::new();
    assert!(map.is_empty());
    map.insert("a".to_owned(), text("1"));
    map.insert("b".to_owned(), text("2"));
    map.insert("a".to_owned(), text("3"));
    assert!(!map.is_empty());
    assert!(map.contains_key("a") && !map.contains_key("c"));
    assert_eq!(map.members().len(), 2);
    assert_eq!(map.members()[0].0, "a");
    assert_eq!(map.get("a").unwrap().as_str(), Some("3"));
    let v = Json::Object(map);
    assert!(v.as_object().is_some());
    assert!(text("x").as_object().is_none());
    assert!(text("x").get("a").is_none());
}

#[test]
fn tools_are_found_by_name() {
    let mut tools = ToolTable::new();
    assert!(tools.is_empty());
    tools.insert("b".to_owned(), tool("https://b"));
    tools.insert("a".to_owned(), tool("https://a"));
    tools.insert("b".to_owned(), tool("https://c"));
    assert!(!tools.is_empty());
    assert_eq!(tools.get("a").unwrap().merchant_url, "https://a");
    assert_eq!(tools.get("b").unwrap().merchant_url, "https://c");
    assert!(tools.get("c").is_none());
    assert_eq!(tools.names(), vec!["a", "b"]);
    assert!(tools.first_without_merchant().is_none());
    tools.insert("ab".to_owned(), tool(""));
    assert_eq!(tools.first_without_merchant(), Some("ab"));
}

#[test]
fn texts_are_compared_and_joined() {
    assert!(same("a", "a") && !same("a", "A"));
    assert_eq!(join2("a", "b"), "ab");
    assert_eq!(join3("a", "", "c"), "ac");
    assert_eq!(escape("a|é\\"), "a\\|é\\\\");
    assert_eq!(escape(""), "");
    assert_eq!(decimal_text(0), "0");
    assert_eq!(decimal_text(u64::MAX), "18446744073709551615");
    assert_eq!(trim_end_slashes("/a//"), "/a");
    assert_eq!(trim_end_slashes("///"), "");
    assert_eq!(trim_end_slashes("é/"), "é");
    assert!(begins_with("https://x", "https://") && !begins_with("http", "https://"));
    assert!(stands_before("a", "ab") && stands_before("B", "a") && stands_before("z", "é"));
    assert!(!stands_before("a", "a") && !stands_before("ab", "a"));
}

#[test]
fn errors_tell_their_message() {
    let e = UcpError::new(ErrorKind::NoHost, "no host".into());
    assert_eq!(e.to_string(), "no host");
    assert_eq!(e.kind, ErrorKind::NoHost);
}

#[test]
fn calls_are_posted_below_the_endpoint() {
    assert_eq!(MerchantCall::CreateCheckout.url("https://m/api//"), "https://m/api/create_checkout");
    assert_eq!(MerchantCall::CreateCheckout.url("https://m/api"), "https://m/api/create_checkout");
    assert_eq!(MerchantCall::CompleteCheckout.url("https://m/"), "https://m/complete_checkout");
}

#[test]
fn http_errors_start_at_four_hundred() {
    let call = MerchantCall::CreateCheckout;
    assert!(call.read(MerchantReply::Answered { status: 399, body: Json::Null }).is_ok());
    let err =
        call.read(MerchantReply::Answered { status: 400, body: object(vec![]) }).unwrap_err();
    assert_eq!(err.kind, ErrorKind::HttpError);
    assert_eq!(err.to_string(), "UCP merchant create_checkout returned HTTP 400: {}");
    let err = MerchantCall::CompleteCheckout.failed_with(65535, "x");
    assert_eq!(err.to_string(), "UCP complete_checkout returned HTTP 65535: x");
}

#[test]
fn each_failure_has_its_kind() {
    let call = MerchantCall::CompleteCheckout;
    let kind = |reply| call.read(reply).unwrap_err().kind;
    assert_eq!(kind(MerchantReply::SendFailed { error: "e".into() }), ErrorKind::RequestFailed);
    assert_eq!(kind(MerchantReply::AddressBlocked { reason: "r".into() }), ErrorKind::AddressBlocked);
    assert_eq!(kind(MerchantReply::Unreadable { error: "e".into() }), ErrorKind::Unreadable);
}

#[test]
fn a_new_checkout_holds_seed_and_arguments() {
    let none = object(vec![]);
    let some = object(vec![("q", text("1"))]);
    let body = |seed: &Option<Json>, args: &Json| {
        build_create_checkout_body("P", seed, args).get("checkout").unwrap().to_string()
    };
    assert_eq!(body(&None, &none), "{}");
    assert_eq!(body(&None, &Json::Null), "{}");
    assert_eq!(body(&None, &Json::Array(vec![text("x")])), "{}");
    assert_eq!(body(&None, &some), "{\"tool_arguments\":{\"q\":\"1\"}}");
    assert_eq!(body(&Some(Json::Null), &some), "{\"tool_arguments\":{\"q\":\"1\"}}");
    assert_eq!(body(&Some(Json::Null), &none), "null");
    assert_eq!(body(&Some(text("seed")), &none), "\"seed\"");
    let seed = Some(object(vec![("a", text("b")), ("tool_arguments", text("old"))]));
    assert_eq!(body(&seed, &some), "{\"a\":\"b\",\"tool_arguments\":{\"q\":\"1\"}}");
    assert_eq!(
        build_create_checkout_body("P", &None, &none).to_string(),
        "{\"checkout\":{},\"meta\":{\"ucp-agent\":{\"profile\":\"P\"}}}"
    );
}

#[test]
fn only_an_object_or_nothing_takes_arguments() {
    let some = object(vec![("q", text("1"))]);
    assert!(seed_takes_arguments(&None, &some));
    assert!(seed_takes_arguments(&Some(Json::Null), &some));
    assert!(seed_takes_arguments(&Some(object(vec![])), &some));
    assert!(!seed_takes_arguments(&Some(text("seed")), &some));
    assert!(seed_takes_arguments(&Some(text("seed")), &object(vec![])));
    assert!(seed_takes_arguments(&Some(text("seed")), &Json::Null));
}
