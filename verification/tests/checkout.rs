use std::time::{Duration, Instant};

use mcpg_plugin_payment_ucp::checkout::{
    parse_status, CheckoutStatus, SessionTransport, UcpCheckoutSession,
};
use mcpg_plugin_payment_ucp::json::{Json, JsonMap, JsonNumber};

fn text(s: &str) -> Json {
    Json::String(s.to_owned())
}

fn object(members: Vec<(&str, Json)>) -> Json {
    let mut map = JsonMap::new();
    for (name, value) in members {
        map.insert(name.to_owned(), value);
    }
    Json::Object(map)
}

fn rest_session(response: Json) -> UcpCheckoutSession {
    UcpCheckoutSession::from_response(
        response,
        "https://m.example.com".into(),
        "https://m.example.com/api".into(),
        SessionTransport::Rest { endpoint: "https://m.example.com/api".into() },
    )
    .unwrap()
}

#[test]
fn session_from_response() {
    let response = object(vec![
        ("id", text("chk_123")),
        ("status", text("incomplete")),
        (
            "line_items",
            Json::Array(vec![object(vec![
                ("name", text("Widget")),
                ("total", Json::Number(JsonNumber::PosInt(2999))),
            ])]),
        ),
        (
            "totals",
            Json::Array(vec![object(vec![
                ("type", text("total")),
                ("amount", Json::Number(JsonNumber::PosInt(3249))),
            ])]),
        ),
    ]);

    let session = UcpCheckoutSession::from_response(
        response,
        "https://merchant.example.com".into(),
        "https://merchant.example.com/mcp".into(),
        SessionTransport::Mcp { endpoint: "https://merchant.example.com/mcp".into() },
    )
    .unwrap();

    assert_eq!(session.session_id, "chk_123");
    assert_eq!(session.status, CheckoutStatus::Incomplete);
    assert_eq!(session.owner, "");
    assert_eq!(session.merchant_url, "https://merchant.example.com");
    assert_eq!(session.merchant_endpoint, "https://merchant.example.com/mcp");
    assert_eq!(session.transport.endpoint(), "https://merchant.example.com/mcp");
}

#[test]
fn session_needs_a_textual_id() {
    for response in [
        object(vec![("status", text("completed"))]),
        object(vec![("id", Json::Number(JsonNumber::PosInt(7)))]),
        Json::Array(vec![text("id")]),
        Json::Null,
    ] {
        let session = UcpCheckoutSession::from_response(
            response,
            "https://m.example.com".into(),
            "https://m.example.com/api".into(),
            SessionTransport::Rest { endpoint: "https://m.example.com/api".into() },
        );
        assert!(session.is_none());
    }
}

#[test]
fn session_update() {
    let mut session =
        rest_session(object(vec![("id", text("chk_1")), ("status", text("incomplete"))]));

    assert_eq!(session.status, CheckoutStatus::Incomplete);

    session.update_from_response(object(vec![
        ("id", text("chk_1")),
        ("status", text("ready_for_complete")),
        ("order", object(vec![("id", text("order_1"))])),
    ]));

    assert_eq!(session.status, CheckoutStatus::ReadyForComplete);
}

#[test]
fn update_without_a_status_keeps_the_status() {
    let mut session =
        rest_session(object(vec![("id", text("chk_1")), ("status", text("requires_action"))]));
    session.update_from_response(object(vec![("note", text("x"))]));
    assert_eq!(session.status, CheckoutStatus::RequiresAction);
    assert_eq!(session.last_response.get_str("note"), Some("x"));
    assert!(session.last_response.get("id").is_none());
}

#[test]
fn session_challenge_data() {
    let session = rest_session(object(vec![
        ("id", text("chk_1")),
        ("status", text("incomplete")),
        (
            "payment",
            object(vec![("instruments", Json::Array(vec![object(vec![("type", text("card"))])]))]),
        ),
    ]));

    let data = session.build_challenge_data();
    assert_eq!(data.get_str("protocol"), Some("ucp"));
    assert!(matches!(data.get("httpStatus"), Some(Json::Number(JsonNumber::PosInt(402)))));
    assert!(matches!(data.get("available_payment_instruments"), Some(Json::Array(_))));
}

#[test]
fn challenge_data_in_full() {
    let session = rest_session(object(vec![
        ("id", text("chk_1")),
        ("payment", object(vec![("instruments", Json::Array(vec![text("card")]))])),
    ]));
    assert_eq!(
        session.build_challenge_data().to_string(),
        "{\"available_payment_instruments\":[\"card\"],\
         \"checkout_session\":{\"id\":\"chk_1\",\"payment\":{\"instruments\":[\"card\"]}},\
         \"httpStatus\":402,\"protocol\":\"ucp\"}"
    );

    let bare = rest_session(object(vec![("id", text("chk_2"))]));
    assert_eq!(
        bare.build_challenge_data().to_string(),
        "{\"checkout_session\":{\"id\":\"chk_2\"},\"httpStatus\":402,\"protocol\":\"ucp\"}"
    );
}

#[test]
fn session_order_meta() {
    let mut session =
        rest_session(object(vec![("id", text("chk_1")), ("status", text("completed"))]));

    session.update_from_response(object(vec![
        ("id", text("chk_1")),
        ("status", text("completed")),
        (
            "order",
            object(vec![
                ("id", text("order_456")),
                ("permalink_url", text("https://m.example.com/orders/456")),
            ]),
        ),
    ]));

    let meta = session.build_order_meta();
    assert_eq!(meta.get("ucp/order").unwrap().get_str("id"), Some("order_456"));
}

#[test]
fn session_expiry() {
    let session =
        rest_session(object(vec![("id", text("chk_1")), ("status", text("incomplete"))]));

    assert!(!session.is_expired(Duration::from_secs(3600)));
    assert!(session.is_expired(Duration::from_millis(0)));
}

#[test]
fn session_expires_at_the_end_of_its_lifetime() {
    let session = rest_session(object(vec![("id", text("chk_1"))]));
    let ttl = Duration::from_millis(3);
    assert!(!session.is_expired_at(2_999_999, ttl));
    assert!(session.is_expired_at(3_000_000, ttl));
    assert!(session.is_expired_at(3_000_001, ttl));
}

#[test]
fn parse_all_statuses() {
    assert_eq!(parse_status("incomplete"), CheckoutStatus::Incomplete);
    assert_eq!(parse_status("requires_action"), CheckoutStatus::RequiresAction);
    assert_eq!(parse_status("ready_for_complete"), CheckoutStatus::ReadyForComplete);
    assert_eq!(parse_status("ready"), CheckoutStatus::ReadyForComplete);
    assert_eq!(parse_status("completed"), CheckoutStatus::Completed);
    assert_eq!(parse_status("canceled"), CheckoutStatus::Canceled);
    assert_eq!(parse_status("cancelled"), CheckoutStatus::Canceled);
    assert_eq!(parse_status("unknown"), CheckoutStatus::Incomplete);
}

#[test]
fn statuses_are_matched_to_the_letter() {
    assert_eq!(parse_status("complete_in_progress"), CheckoutStatus::CompleteInProgress);
    assert_eq!(parse_status("Completed"), CheckoutStatus::Incomplete);
    assert_eq!(parse_status("completed "), CheckoutStatus::Incomplete);
    assert_eq!(parse_status(""), CheckoutStatus::Incomplete);
}

/// A response without an error, but with any other status or with none at all, is no proof of
/// payment.
#[test]
fn only_completed_is_settled() {
    for s in ["incomplete", "requires_action", "ready_for_complete", "complete_in_progress", "canceled"]
    {
        let sess = rest_session(object(vec![("id", text("chk")), ("status", text(s))]));
        assert!(!sess.is_settled(), "status {s:?} must NOT be settled");
    }
    // A missing status counts as incomplete.
    let no_status = rest_session(object(vec![("id", text("chk"))]));
    assert!(!no_status.is_settled(), "missing status must NOT be settled");
    // Only `completed` settles.
    let done = rest_session(object(vec![("id", text("chk")), ("status", text("completed"))]));
    assert!(done.is_settled());
}

/// A completion that omits `order` is not turned into a made-up receipt.
#[test]
fn order_meta_does_not_fabricate_completed_status() {
    let sess = rest_session(object(vec![("id", text("chk_77")), ("status", text("completed"))]));
    let meta = sess.build_order_meta();
    let order = meta.get("ucp/order").unwrap();
    assert_eq!(order.get_str("checkout_id"), Some("chk_77"));
    assert!(
        order.get("status").is_none(),
        "build_order_meta must not invent a status field: {}",
        order.to_string()
    );
    assert_eq!(meta.to_string(), "{\"ucp/order\":{\"checkout_id\":\"chk_77\"}}");
}

#[test]
fn a_session_begins_its_life_at_the_given_moment() {
    let now = Instant::now() + Duration::from_secs(3);
    let session = UcpCheckoutSession::from_response_at(
        object(vec![("id", text("chk_1"))]),
        "https://m.example.com".into(),
        "https://m.example.com/api".into(),
        SessionTransport::Rest { endpoint: "https://m.example.com/api".into() },
        now,
    )
    .unwrap();
    assert_eq!(session.created_at, now);
}
