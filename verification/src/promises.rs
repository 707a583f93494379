//! What the plugin does, said directly of what goes in and what comes out: of the members of a JSON
//! object, the characters of a text, the fields of a configuration. The words that the contracts are
//! made of are held to these statements.

use std::time::Instant;

use vstd::prelude::*;

use crate::checkout::{CheckoutStatus, SessionTransport, SessionView, TransportView, UcpCheckoutSession};
use crate::config::{ToolTable, UcpProtocolConfig, UcpToolConfig};
use crate::discovery::{
    CachedMerchantProfile,
    DiscoveryReply,
    EndpointView,
    MerchantProfile,
    ResolvedTransport,
    ServiceEndpoint,
    UrlParts,
    UrlView,
};
use crate::error::{ErrorKind, ErrorView, UcpError};
use crate::host::{DecisionView, GateDecision, PluginClass, PluginContext};
use crate::json::{Json, JsonNumber, JsonView};
use crate::merchant::{MerchantCall, MerchantReply, MerchantRequest};
use crate::plugin::{GateStep, PendingCheckout, PendingView, StepView, UcpCommercePlugin};

verus! {

// ---------------------------------------------------------------------------
// Words
// ---------------------------------------------------------------------------

/// The value is an object whose member `name` is `x`.
pub open spec fn has(v: JsonView, name: Seq<char>, x: JsonView) -> bool {
    v matches JsonView::Object(map) && map.contains_key(name) && map[name] == x
}

/// The value is no object with a member `name`.
pub open spec fn lacks(v: JsonView, name: Seq<char>) -> bool {
    v matches JsonView::Object(map) ==> !map.contains_key(name)
}

/// The value is an object whose member `name` is the text `s`.
pub open spec fn has_text(v: JsonView, name: Seq<char>, s: Seq<char>) -> bool {
    has(v, name, JsonView::String(s))
}

/// The value is no object with a text as member `name`.
pub open spec fn lacks_text(v: JsonView, name: Seq<char>) -> bool {
    v matches JsonView::Object(map) ==> map.contains_key(name) ==> !(map[name] is String)
}

/// The value is an object with no members but those of the names.
pub open spec fn no_more_than(v: JsonView, names: Set<Seq<char>>) -> bool {
    v matches JsonView::Object(map) && map.dom().subset_of(names)
}

/// `bare` is the address without the slashes at its end.
pub open spec fn is_bare(bare: Seq<char>, address: Seq<char>) -> bool {
    &&& bare.len() <= address.len()
    &&& forall|i: int| 0 <= i < bare.len() ==> #[trigger] bare[i] == address[i]
    &&& forall|i: int| bare.len() <= i < address.len() ==> #[trigger] address[i] == '/'
    &&& bare.len() > 0 ==> bare.last() != '/'
}

/// The two characters are the same but for the case of an ASCII letter.
pub open spec fn same_letter(a: char, b: char) -> bool {
    ||| a == b
    ||| 'A' <= a <= 'Z' && b as int == a as int + 32
    ||| 'A' <= b <= 'Z' && a as int == b as int + 32
}

/// The two texts are the same but for the case of ASCII letters.
pub open spec fn same_letters(a: Seq<char>, b: Seq<char>) -> bool {
    a.len() == b.len() && forall|i: int| 0 <= i < a.len() ==> #[trigger] same_letter(a[i], b[i])
}

/// The number that a text of decimal digits says.
pub open spec fn said(digits: Seq<char>) -> int
    decreases digits.len(),
{
    if digits.len() == 0 {
        0
    } else {
        10 * said(digits.drop_last()) + (digits.last() as int - '0' as int)
    }
}

/// The text is the decimal notation of `n`: digits that say `n`, the first no zero but for zero.
pub open spec fn is_decimal(text: Seq<char>, n: int) -> bool {
    &&& text.len() > 0
    &&& forall|i: int| 0 <= i < text.len() ==> '0' <= #[trigger] text[i] <= '9'
    &&& said(text) == n
    &&& n > 0 ==> text[0] != '0'
    &&& n == 0 ==> text.len() == 1
}

// ---------------------------------------------------------------------------
// Texts
// ---------------------------------------------------------------------------

/// Numbers are written in decimal notation.
pub proof fn law_decimal_says_the_number(n: nat)
    ensures
        is_decimal(crate::text::decimal(n), n as int),
    decreases n,
{
    let text = crate::text::decimal(n);
    if n < 10 {
        assert(text.drop_last() =~= Seq::<char>::empty());
        assert(said(text.drop_last()) == 0);
    } else {
        law_decimal_says_the_number(n / 10);
        let front = crate::text::decimal(n / 10);
        assert(text.drop_last() =~= front);
        assert(text[0] == front[0]);
        assert forall|i: int| 0 <= i < text.len() implies '0' <= #[trigger] text[i] <= '9' by {
            if i < front.len() {
                assert(text[i] == front[i]);
            }
        }
    }
}

/// Slashes at the end of an address are taken off, all of them and nothing else.
pub proof fn law_end_slashes_are_taken_off(address: Seq<char>)
    ensures
        is_bare(crate::text::without_end_slashes(address), address),
    decreases address.len(),
{
    if address.len() > 0 && address.last() == '/' {
        law_end_slashes_are_taken_off(address.drop_last());
        let bare = crate::text::without_end_slashes(address);
        assert forall|i: int| 0 <= i < bare.len() implies #[trigger] bare[i] == address[i] by {
            assert(bare[i] == address.drop_last()[i]);
        }
        assert forall|i: int| bare.len() <= i < address.len() implies #[trigger] address[i]
            == '/' by {
            if i < address.len() - 1 {
                assert(address.drop_last()[i] == '/');
            }
        }
    }
}

/// There is one such address only.
proof fn lemma_bare_is_one(a: Seq<char>, b: Seq<char>, address: Seq<char>)
    requires
        is_bare(a, address),
        is_bare(b, address),
    ensures
        a == b,
{
    if a.len() < b.len() {
        assert(b[b.len() - 1] == address[b.len() - 1]);
        assert(address[b.len() - 1] == '/');
    } else if b.len() < a.len() {
        assert(a[a.len() - 1] == address[a.len() - 1]);
        assert(address[a.len() - 1] == '/');
    }
    assert forall|i: int| 0 <= i < a.len() implies a[i] == b[i] by {
        assert(a[i] == address[i]);
        assert(b[i] == address[i]);
    }
    assert(a =~= b);
}

/// Two texts are the same in small letters if and only if they are the same but for the case of
/// ASCII letters; a text in small letters differs from the text in nothing else.
pub proof fn law_small_letters(a: Seq<char>, b: Seq<char>)
    ensures
        crate::text::lowercase(a) == crate::text::lowercase(b) <==> same_letters(a, b),
        same_letters(a, crate::text::lowercase(a)),
        forall|i: int|
            0 <= i < a.len() ==> !('A' <= #[trigger] crate::text::lowercase(a)[i] <= 'Z'),
{
    let x = crate::text::lowercase(a);
    let y = crate::text::lowercase(b);
    assert forall|i: int| 0 <= i < a.len() implies same_letter(a[i], x[i]) && !('A'
        <= #[trigger] x[i] <= 'Z') by {
        assert(x[i] == crate::text::ascii_lower(a[i]));
    }
    if x == y {
        assert(a.len() == x.len() && b.len() == y.len());
        assert forall|i: int| 0 <= i < a.len() implies #[trigger] same_letter(a[i], b[i]) by {
            assert(x[i] == crate::text::ascii_lower(a[i]));
            assert(y[i] == crate::text::ascii_lower(b[i]));
        }
    }
    if same_letters(a, b) {
        assert forall|i: int| 0 <= i < a.len() implies x[i] == y[i] by {
            assert(same_letter(a[i], b[i]));
            assert(x[i] == crate::text::ascii_lower(a[i]));
            assert(y[i] == crate::text::ascii_lower(b[i]));
        }
        assert(x =~= y);
    }
}

/// Names are ordered by their code points: a name stands before every longer one that begins with
/// it, of two that differ the one with the smaller code point at the first difference stands before
/// the other, and no two stand before each other.
pub proof fn law_names_are_ordered_by_code_points(
    common: Seq<char>,
    x: char,
    y: char,
    a: Seq<char>,
    b: Seq<char>,
)
    ensures
        crate::text::before(common, common.push(x) + a),
        (x as int) < (y as int) ==> crate::text::before(common.push(x) + a, common.push(y) + b),
        crate::text::before(a, b) ==> !crate::text::before(b, a),
{
    let n = common.len() as int;
    assert(crate::text::departs_below(common, common.push(x) + a, n));
    if (x as int) < (y as int) {
        let p = common.push(x) + a;
        let q = common.push(y) + b;
        assert(p[n] == x && q[n] == y);
        assert(crate::text::departs_below(p, q, n));
    }
    if crate::text::before(a, b) && crate::text::before(b, a) {
        crate::text::lemma_before_transitive(a, b, a);
        crate::text::lemma_before_irreflexive(a);
    }
}

// ---------------------------------------------------------------------------
// What values say
// ---------------------------------------------------------------------------

/// A JSON value means what it holds.
pub proof fn law_json_means_what_it_holds(v: Json)
    ensures
        match v {
            Json::Null => v@ == JsonView::Null,
            Json::Bool(b) => v@ == JsonView::Bool(b),
            Json::Number(n) => v@ == JsonView::Number(n),
            Json::String(s) => v@ == JsonView::String(s@),
            Json::Array(items) => {
                &&& v@ is Array
                &&& v@->Array_0.len() == items@.len()
                &&& forall|i: int| 0 <= i < items@.len() ==> #[trigger] v@->Array_0[i] == items@[i]@
            },
            Json::Object(map) => v@ == JsonView::Object(map@),
        },
{
}

/// Members are read by their very name, and only of objects.
pub proof fn law_members_are_read_by_name(v: JsonView, name: Seq<char>)
    ensures
        match v.member(name) {
            Some(x) => has(v, name, x),
            None => lacks(v, name),
        },
        match v.text_member(name) {
            Some(s) => has_text(v, name, s),
            None => lacks_text(v, name),
        },
        match v.text() {
            Some(s) => v == JsonView::String(s),
            None => !(v is String),
        },
{
}

/// A session says what it holds.
pub proof fn law_session_says_what_it_holds(session: UcpCheckoutSession, transport: SessionTransport)
    ensures
        session@.session_id == session.session_id@,
        session@.owner == session.owner@,
        session@.status == session.status,
        session@.merchant_url == session.merchant_url@,
        session@.merchant_endpoint == session.merchant_endpoint@,
        session@.transport == session.transport@,
        session@.last_response == session.last_response@,
        match transport {
            SessionTransport::Mcp { endpoint } => transport@ == TransportView::Mcp(endpoint@)
                && transport@.endpoint() == endpoint@,
            SessionTransport::Rest { endpoint } => transport@ == TransportView::Rest(endpoint@)
                && transport@.endpoint() == endpoint@,
        },
{
}

/// What is to be sent says what it holds.
pub proof fn law_requests_say_what_they_hold(
    request: MerchantRequest,
    pending: PendingCheckout,
    transport: ResolvedTransport,
)
    ensures
        request@.url == request.url@,
        request@.body == request.body@,
        match request.bearer {
            Some(token) => request@.bearer == Some(token@),
            None => request@.bearer is None,
        },
        pending@.merchant_url == pending.merchant_url@,
        pending@.transport == pending.transport@,
        match pending.bearer {
            Some(token) => pending@.bearer == Some(token@),
            None => pending@.bearer is None,
        },
        match pending.seed {
            Some(seed) => pending@.seed == Some(seed@),
            None => pending@.seed is None,
        },
        match transport {
            ResolvedTransport::Mcp { endpoint } => transport@ == TransportView::Mcp(endpoint@),
            ResolvedTransport::Rest { endpoint } => transport@ == TransportView::Rest(endpoint@),
        },
{
}

/// An answer says what it holds, and is counted under its own word.
pub proof fn law_answers_say_what_they_hold(decision: GateDecision)
    ensures
        match decision {
            GateDecision::Allow { metadata } => {
                &&& decision@ is Allow
                &&& match metadata {
                    Some(m) => decision@->Allow_metadata == Some(m@),
                    None => decision@->Allow_metadata is None,
                }
                &&& decision@.outcome() == "allow"@
            },
            GateDecision::Deny { http_status, code, message, error_data } => {
                &&& decision@ is Deny
                &&& decision@->Deny_http_status == http_status
                &&& decision@->Deny_code == code
                &&& decision@->Deny_message == message@
                &&& match error_data {
                    Some(d) => decision@->error_data == Some(d@),
                    None => decision@->error_data is None,
                }
                &&& decision@.outcome() == "deny"@
            },
            GateDecision::Challenge { http_status, code, message, challenge_data } => {
                &&& decision@ == (DecisionView::Challenge {
                    http_status,
                    code,
                    message: message@,
                    challenge_data: challenge_data@,
                })
                &&& decision@.outcome() == "challenge"@
            },
        },
        DecisionView::allow() == (DecisionView::Allow { metadata: None }),
{
}

/// A step says what it holds.
pub proof fn law_steps_say_what_they_hold(step: GateStep)
    ensures
        match step {
            GateStep::Decided(decision) => step@ == StepView::Decided(decision@),
            GateStep::FetchProfile { url } => step@ == StepView::FetchProfile(url@),
            GateStep::OpenCheckout(pending) => step@ == StepView::OpenCheckout(pending@),
            GateStep::CompleteCheckout { request, checkout } => {
                &&& step@ is CompleteCheckout
                &&& step@->request == request@
                &&& step@->key == checkout.key@
                &&& step@->session == checkout.session
            },
        },
{
}

/// The smaller values say what they hold.
pub proof fn law_small_values_say_what_they_hold(
    e: UcpError,
    parts: UrlParts,
    entry: ServiceEndpoint,
    list: Seq<String>,
    i: int,
    j: Option<&Json>,
    s: Option<&str>,
    owned: Option<String>,
    json: Option<Json>,
)
    ensures
        e@.kind == e.kind && e@.message == e.message@,
        parts@.scheme == parts.scheme@ && parts@.port == parts.port,
        match parts.host {
            Some(h) => parts@.host == Some(h@),
            None => parts@.host is None,
        },
        entry@.transport == entry.transport@ && entry@.endpoint == entry.endpoint@,
        crate::config::texts(list).len() == list.len(),
        0 <= i < list.len() ==> crate::config::texts(list)[i] == list[i]@,
        match j {
            Some(v) => crate::json::optional(j) == Some(v@),
            None => crate::json::optional(j) is None,
        },
        match s {
            Some(t) => crate::json::optional_text(s) == Some(t@),
            None => crate::json::optional_text(s) is None,
        },
        match owned {
            Some(t) => crate::merchant::optional_string(owned) == Some(t@),
            None => crate::merchant::optional_string(owned) is None,
        },
        match json {
            Some(v) => crate::host::optional_json(json) == Some(v@),
            None => crate::host::optional_json(json) is None,
        },
{
}

/// A computed origin says what it holds, and distinct members have different names.
pub proof fn law_origins_and_members_say_what_they_hold(
    origin: Result<String, UcpError>,
    members: Seq<(String, Json)>,
    i: int,
    j: int,
)
    ensures
        match origin {
            Ok(o) => crate::discovery::origin_view(origin) == Ok::<Seq<char>, ErrorView>(o@),
            Err(e) => crate::discovery::origin_view(origin) == Err::<Seq<char>, ErrorView>(e@),
        },
        crate::json::distinct(members) && 0 <= i < members.len() && 0 <= j < members.len() && i != j
            ==> members[i].0@ != members[j].0@,
{
    if crate::json::distinct(members) && 0 <= i < members.len() && 0 <= j < members.len() && i
        != j {
        if i < j {
            assert(members[i].0@ != members[j].0@);
        } else {
            assert(members[j].0@ != members[i].0@);
        }
    }
}

/// Endpoints and origins in lists are read one by one.
pub proof fn law_lists_are_read_one_by_one(
    urls: Seq<String>,
    entries: Seq<ServiceEndpoint>,
    origins: Seq<Result<String, UcpError>>,
    i: int,
)
    ensures
        crate::discovery::url_origins(urls).len() == urls.len(),
        0 <= i < urls.len() ==> crate::discovery::url_origins(urls)[i]
            == crate::discovery::url_origin(urls[i]@),
        crate::discovery::entry_views(entries).len() == entries.len(),
        0 <= i < entries.len() ==> crate::discovery::entry_views(entries)[i] == entries[i]@,
        crate::discovery::origin_views(origins).len() == origins.len(),
        0 <= i < origins.len() ==> match origins[i] {
            Ok(o) => crate::discovery::origin_views(origins)[i] == Ok::<Seq<char>, ErrorView>(o@),
            Err(e) => crate::discovery::origin_views(origins)[i] == Err::<Seq<char>, ErrorView>(
                e@,
            ),
        },
{
}

// ---------------------------------------------------------------------------
// Checkouts
// ---------------------------------------------------------------------------

/// Every status text stands for its status, and every other text for an incomplete checkout.
pub proof fn law_status_texts(s: Seq<char>)
    ensures
        crate::checkout::status_of(s) == CheckoutStatus::Completed <==> s == "completed"@,
        crate::checkout::status_of(s) == CheckoutStatus::RequiresAction <==> s
            == "requires_action"@,
        crate::checkout::status_of(s) == CheckoutStatus::ReadyForComplete <==> (s
            == "ready_for_complete"@ || s == "ready"@),
        crate::checkout::status_of(s) == CheckoutStatus::CompleteInProgress <==> s
            == "complete_in_progress"@,
        crate::checkout::status_of(s) == CheckoutStatus::Canceled <==> (s == "canceled"@ || s
            == "cancelled"@),
{
    reveal_strlit("completed");
    reveal_strlit("requires_action");
    reveal_strlit("ready_for_complete");
    reveal_strlit("ready");
    reveal_strlit("complete_in_progress");
    reveal_strlit("canceled");
    reveal_strlit("cancelled");
    assert("completed"@.len() == 9 && "cancelled"@.len() == 9);
    assert("completed"@[1] == 'o' && "cancelled"@[1] == 'a');
    assert("requires_action"@.len() == 15);
    assert("ready_for_complete"@.len() == 18);
    assert("ready"@.len() == 5);
    assert("complete_in_progress"@.len() == 20);
    assert("canceled"@.len() == 8);
}

/// The status that a merchant reports is the text in `status`; without one the checkout counts as
/// incomplete.
pub proof fn law_status_is_read_from_the_response(response: JsonView, s: Seq<char>)
    ensures
        has_text(response, "status"@, s) ==> crate::checkout::reported_status(response)
            == crate::checkout::status_of(s),
        lacks_text(response, "status"@) ==> crate::checkout::reported_status(response)
            == CheckoutStatus::Incomplete,
{
}

/// A response opens a session if and only if it has a text as `id`, and the session has that very id.
/// It starts with the reported status and the whole response, unowned, at the given merchant.
pub proof fn law_response_opens_the_session_it_names(
    response: JsonView,
    merchant_url: Seq<char>,
    merchant_endpoint: Seq<char>,
    transport: TransportView,
    id: Seq<char>,
)
    ensures
        ({
            let session = crate::checkout::opened(
                response,
                merchant_url,
                merchant_endpoint,
                transport,
            );
            &&& session is None <==> lacks_text(response, "id"@)
            &&& has_text(response, "id"@, id) ==> session is Some && session->0.session_id == id
            &&& session matches Some(v) ==> {
                &&& v.last_response == response
                &&& v.status == crate::checkout::reported_status(response)
                &&& v.owner.len() == 0
                &&& v.merchant_url == merchant_url
                &&& v.merchant_endpoint == merchant_endpoint
                &&& v.transport == transport
            }
        }),
{
}

/// An update takes over the whole response, and its status if it reports one. Nothing else changes.
pub proof fn law_update_takes_over_the_response(
    session: SessionView,
    response: JsonView,
    s: Seq<char>,
)
    ensures
        ({
            let after = session.updated(response);
            &&& after.last_response == response
            &&& has_text(response, "status"@, s) ==> after.status == crate::checkout::status_of(s)
            &&& lacks_text(response, "status"@) ==> after.status == session.status
            &&& after.session_id == session.session_id
            &&& after.owner == session.owner
            &&& after.merchant_url == session.merchant_url
            &&& after.merchant_endpoint == session.merchant_endpoint
            &&& after.transport == session.transport
        }),
{
}

/// A client that is to pay is told the last response as it is, and the instruments in its
/// `payment.instruments` if it has them; besides only the protocol and the status 402.
pub proof fn law_challenge_in_full(session: SessionView, payment: JsonView, instruments: JsonView)
    ensures
        ({
            let data = session.challenge_data();
            let offered = has(session.last_response, "payment"@, payment) && has(
                payment,
                "instruments"@,
                instruments,
            );
            let none = lacks(session.last_response, "payment"@) || (has(
                session.last_response,
                "payment"@,
                payment,
            ) && lacks(payment, "instruments"@));
            &&& has(data, "checkout_session"@, session.last_response)
            &&& has_text(data, "protocol"@, "ucp"@)
            &&& has(data, "httpStatus"@, JsonView::Number(JsonNumber::PosInt(402)))
            &&& offered ==> has(data, "available_payment_instruments"@, instruments)
            &&& none ==> lacks(data, "available_payment_instruments"@)
            &&& no_more_than(
                data,
                set![
                    "checkout_session"@,
                    "protocol"@,
                    "httpStatus"@,
                    "available_payment_instruments"@,
                ],
            )
        }),
{
    reveal_strlit("checkout_session");
    reveal_strlit("available_payment_instruments");
    reveal_strlit("protocol");
    reveal_strlit("httpStatus");
    assert("checkout_session"@.len() == 16);
    assert("available_payment_instruments"@.len() == 29);
    assert("protocol"@.len() == 8);
    assert("httpStatus"@.len() == 10);
}

/// What goes with a granted call is the merchant's `order` as it is, under `ucp/order` alone; where
/// there is none, an object with the id of the checkout alone.
pub proof fn law_order_in_full(session: SessionView, order: JsonView)
    ensures
        ({
            let meta = session.order_meta();
            &&& no_more_than(meta, set!["ucp/order"@])
            &&& has(session.last_response, "order"@, order) ==> has(meta, "ucp/order"@, order)
            &&& lacks(session.last_response, "order"@) ==> {
                &&& has(meta, "ucp/order"@, session.order())
                &&& has_text(session.order(), "checkout_id"@, session.session_id)
                &&& no_more_than(session.order(), set!["checkout_id"@])
            }
        }),
{
}

// ---------------------------------------------------------------------------
// Calls to a merchant
// ---------------------------------------------------------------------------

/// A call is posted to the endpoint, without slashes at its end, and the path of the call; a profile
/// is found at the merchant's address and the well-known path.
pub proof fn law_addresses(endpoint: Seq<char>, bare: Seq<char>)
    requires
        is_bare(bare, endpoint),
    ensures
        MerchantCall::CreateCheckout.address(endpoint) == bare + "/create_checkout"@,
        MerchantCall::CompleteCheckout.address(endpoint) == bare + "/complete_checkout"@,
        crate::discovery::profile_address(endpoint) == bare + "/.well-known/ucp"@,
{
    law_end_slashes_are_taken_off(endpoint);
    lemma_bare_is_one(bare, crate::text::without_end_slashes(endpoint), endpoint);
}

/// A checkout is completed at its endpoint, with its id, the caller's instrument as it is and nothing
/// else.
pub proof fn law_completion_request_in_full(
    session: SessionView,
    bearer: Option<Seq<char>>,
    instrument: JsonView,
    endpoint: Seq<char>,
    bare: Seq<char>,
)
    requires
        session.transport == TransportView::Mcp(endpoint) || session.transport
            == TransportView::Rest(endpoint),
        is_bare(bare, endpoint),
    ensures
        ({
            let request = crate::merchant::complete_request(session, bearer, instrument);
            let checkout = request.body->Object_0["checkout"@];
            let payment = checkout->Object_0["payment"@];
            &&& request.url == bare + "/complete_checkout"@
            &&& request.bearer == bearer
            &&& has_text(request.body, "id"@, session.session_id)
            &&& has(request.body, "checkout"@, checkout)
            &&& no_more_than(request.body, set!["id"@, "checkout"@])
            &&& has(checkout, "payment"@, payment)
            &&& no_more_than(checkout, set!["payment"@])
            &&& has(payment, "instruments"@, JsonView::Array(seq![instrument]))
            &&& no_more_than(payment, set!["instruments"@])
        }),
{
    reveal_strlit("id");
    reveal_strlit("checkout");
    assert("id"@.len() == 2);
    assert("checkout"@.len() == 8);
    law_addresses(endpoint, bare);
}

/// A new checkout is asked for with the platform's profile under `meta["ucp-agent"].profile` and the
/// configured checkout, an empty object where none is configured. Arguments, if there are any, are
/// added as `tool_arguments` to a configured object or make up an object of their own.
pub proof fn law_creation_body_in_full(
    profile: Seq<char>,
    seed: Option<JsonView>,
    arguments: JsonView,
)
    ensures
        ({
            let body = crate::merchant::create_body(profile, seed, arguments);
            let meta = body->Object_0["meta"@];
            let agent = meta->Object_0["ucp-agent"@];
            let checkout = body->Object_0["checkout"@];
            let nothing = JsonView::Object(Map::<Seq<char>, JsonView>::empty());
            let some = arguments is Object && arguments != nothing;
            &&& has(body, "meta"@, meta) && has(body, "checkout"@, checkout)
            &&& no_more_than(body, set!["meta"@, "checkout"@])
            &&& has(meta, "ucp-agent"@, agent) && no_more_than(meta, set!["ucp-agent"@])
            &&& has_text(agent, "profile"@, profile) && no_more_than(agent, set!["profile"@])
            &&& !some ==> checkout == match seed {
                Some(v) => v,
                None => nothing,
            }
            &&& some ==> {
                &&& has(checkout, "tool_arguments"@, arguments)
                &&& match seed {
                    Some(JsonView::Object(start)) => forall|name: Seq<char>|
                        name != "tool_arguments"@ ==> (#[trigger] checkout->Object_0.contains_key(
                            name,
                        ) <==> start.contains_key(name)) && checkout->Object_0[name] == start[name],
                    _ => no_more_than(checkout, set!["tool_arguments"@]),
                }
            }
            &&& crate::merchant::takes_arguments(seed, arguments) <==> (some ==> match seed {
                Some(v) => v is Object || v is Null,
                None => true,
            })
        }),
{
    reveal_strlit("meta");
    reveal_strlit("checkout");
    assert("meta"@.len() == 4);
    assert("checkout"@.len() == 8);
}

/// An answer counts if it came and its HTTP status is below 400; then it is the body as it is.
/// Everything else is an error that says what went wrong.
pub proof fn law_replies_in_full(reply: MerchantReply, number: Seq<char>)
    ensures
        ({
            let create = MerchantCall::CreateCheckout.answer(reply);
            let complete = MerchantCall::CompleteCheckout.answer(reply);
            match reply {
                MerchantReply::SendFailed { error } => {
                    &&& fails(
                        create,
                        ErrorKind::RequestFailed,
                        "UCP merchant request failed: "@ + error@,
                    )
                    &&& fails(
                        complete,
                        ErrorKind::RequestFailed,
                        "UCP complete_checkout failed: "@ + error@,
                    )
                },
                MerchantReply::AddressBlocked { reason } => {
                    let message = "UCP merchant SSRF blocked: "@ + reason@;
                    &&& fails(create, ErrorKind::AddressBlocked, message)
                    &&& fails(complete, ErrorKind::AddressBlocked, message)
                },
                MerchantReply::Unreadable { error } => {
                    &&& fails(
                        create,
                        ErrorKind::Unreadable,
                        "UCP merchant response parse error: "@ + error@,
                    )
                    &&& fails(
                        complete,
                        ErrorKind::Unreadable,
                        "UCP complete response parse error: "@ + error@,
                    )
                },
                MerchantReply::Answered { status, body } => {
                    &&& status < 400 ==> {
                        &&& create == Ok::<JsonView, ErrorView>(body@)
                        &&& complete == Ok::<JsonView, ErrorView>(body@)
                    }
                    &&& status >= 400 && is_decimal(number, status as int) ==> {
                        let rest = number + ": "@ + crate::json::compact_text(body@);
                        &&& fails(
                            create,
                            ErrorKind::HttpError,
                            "UCP merchant create_checkout returned HTTP "@ + rest,
                        )
                        &&& fails(
                            complete,
                            ErrorKind::HttpError,
                            "UCP complete_checkout returned HTTP "@ + rest,
                        )
                    }
                },
            }
        }),
{
    if let MerchantReply::Answered { status, body } = reply {
        if status >= 400 && is_decimal(number, status as int) {
            law_decimal_says_the_number(status as nat);
            lemma_decimal_is_one(number, crate::text::decimal(status as nat), status as int);
            let text = crate::json::compact_text(body@);
            let a = MerchantCall::CreateCheckout.http_failure();
            let b = MerchantCall::CompleteCheckout.http_failure();
            assert(a + number + ": "@ + text =~= a + (number + ": "@ + text));
            assert(b + number + ": "@ + text =~= b + (number + ": "@ + text));
        }
    }
}

/// The outcome is an error of the kind, with the message.
pub open spec fn fails<T>(outcome: Result<T, ErrorView>, kind: ErrorKind, message: Seq<char>) -> bool {
    outcome == Err::<T, ErrorView>(ErrorView { kind, message })
}

/// A number has one decimal notation.
proof fn lemma_decimal_is_one(a: Seq<char>, b: Seq<char>, n: int)
    requires
        is_decimal(a, n),
        is_decimal(b, n),
    ensures
        a == b,
    decreases a.len(),
{
    let x = a.drop_last();
    let y = b.drop_last();
    assert('0' <= a[a.len() - 1] <= '9');
    assert('0' <= b[b.len() - 1] <= '9');
    lemma_said_bounds(a);
    lemma_said_bounds(b);
    lemma_said_bounds(x);
    lemma_said_bounds(y);
    assert(said(a) == 10 * said(x) + (a.last() as int - 48));
    assert(said(b) == 10 * said(y) + (b.last() as int - 48));
    assert(said(x) == said(y) && a.last() == b.last());
    if a.len() == 1 || b.len() == 1 {
        if a.len() > 1 {
            assert(x[0] == a[0]);
            lemma_first_digit(x);
        }
        if b.len() > 1 {
            assert(y[0] == b[0]);
            lemma_first_digit(y);
        }
        assert(a =~= b);
    } else {
        assert(x[0] == a[0] && y[0] == b[0]);
        lemma_first_digit(x);
        lemma_first_digit(y);
        assert forall|i: int| 0 <= i < x.len() implies '0' <= #[trigger] x[i] <= '9' by {
            assert(x[i] == a[i]);
        }
        assert forall|i: int| 0 <= i < y.len() implies '0' <= #[trigger] y[i] <= '9' by {
            assert(y[i] == b[i]);
        }
        lemma_decimal_is_one(x, y, said(x));
        assert(a =~= x.push(a.last()));
        assert(b =~= y.push(b.last()));
    }
}

/// Digits say no negative number.
proof fn lemma_said_bounds(text: Seq<char>)
    requires
        forall|i: int| 0 <= i < text.len() ==> '0' <= #[trigger] text[i] <= '9',
    ensures
        said(text) >= 0,
    decreases text.len(),
{
    if text.len() > 0 {
        let front = text.drop_last();
        assert forall|i: int| 0 <= i < front.len() implies '0' <= #[trigger] front[i] <= '9' by {
            assert(front[i] == text[i]);
        }
        lemma_said_bounds(front);
        assert('0' <= text[text.len() - 1] <= '9');
    }
}

/// Digits that begin with no zero say a number above zero.
proof fn lemma_first_digit(text: Seq<char>)
    requires
        text.len() > 0,
        forall|i: int| 0 <= i < text.len() ==> '0' <= #[trigger] text[i] <= '9',
        text[0] != '0',
    ensures
        said(text) > 0,
    decreases text.len(),
{
    let front = text.drop_last();
    assert('0' <= text[text.len() - 1] <= '9');
    if text.len() > 1 {
        assert forall|i: int| 0 <= i < front.len() implies '0' <= #[trigger] front[i] <= '9' by {
            assert(front[i] == text[i]);
        }
        assert(front[0] == text[0]);
        lemma_first_digit(front);
    } else {
        assert(front.len() == 0);
        assert(said(front) == 0);
    }
}

// ---------------------------------------------------------------------------
// Origins
// ---------------------------------------------------------------------------

/// The two URLs lie at the same place: they have a host, and scheme, host and port are the same, the
/// host but for the case of ASCII letters.
pub open spec fn same_place(a: Seq<char>, b: Seq<char>) -> bool {
    &&& crate::discovery::parsed_url(a) matches Some(p)
    &&& crate::discovery::parsed_url(b) matches Some(q)
    &&& p.host matches Some(h)
    &&& q.host matches Some(k)
    &&& p.scheme == q.scheme
    &&& same_letters(h, k)
    &&& p.port == q.port
}

/// The URL is one with a host.
pub open spec fn has_host(url: Seq<char>) -> bool {
    crate::discovery::parsed_url(url) matches Some(p) && p.host is Some
}

/// If the text is a URL, its parts can be told apart in an origin, as those of every URL that was
/// parsed can.
pub open spec fn parts_stand_apart(url: Seq<char>) -> bool {
    crate::discovery::parsed_url(url) matches Some(p) ==> crate::discovery::separable(p)
}

/// The text of an origin is the scheme, `://`, the host in small letters, and, where there is a port,
/// a colon and its number.
pub proof fn law_origin_in_full(
    url: Seq<char>,
    parts: UrlView,
    host: Seq<char>,
    small: Seq<char>,
    number: Seq<char>,
)
    requires
        parts.host == Some(host),
        same_letters(host, small),
        forall|i: int| 0 <= i < small.len() ==> !('A' <= #[trigger] small[i] <= 'Z'),
        parts.port matches Some(p) ==> is_decimal(number, p as int),
    ensures
        crate::discovery::origin_of_parts(url, Some(parts)) == Ok::<Seq<char>, ErrorView>(
            if parts.port is Some {
                parts.scheme + "://"@ + small + ":"@ + number
            } else {
                parts.scheme + "://"@ + small
            },
        ),
{
    law_small_letters(host, small);
    assert forall|i: int| 0 <= i < small.len() implies crate::text::lowercase(small)[i]
        == small[i] by {
        assert(!('A' <= small[i] <= 'Z'));
        assert(crate::text::lowercase(small)[i] == crate::text::ascii_lower(small[i]));
    }
    assert(crate::text::lowercase(small) =~= small);
    if let Some(p) = parts.port {
        law_decimal_says_the_number(p as nat);
        lemma_decimal_is_one(number, crate::text::decimal(p as nat), p as int);
    }
}

/// Parts without a host, and a text without parts, have no origin.
pub proof fn law_no_origin_without_a_host(url: Seq<char>, parts: Option<UrlView>)
    ensures
        parts is None ==> fails(
            crate::discovery::origin_of_parts(url, parts),
            ErrorKind::InvalidUrl,
            "invalid UCP URL '"@ + url + "'"@,
        ),
        parts is Some && parts->0.host is None ==> fails(
            crate::discovery::origin_of_parts(url, parts),
            ErrorKind::NoHost,
            "UCP URL '"@ + url + "' has no host"@,
        ),
        crate::discovery::url_origin(url) == crate::discovery::origin_of_parts(
            url,
            crate::discovery::parsed_url(url),
        ),
{
}

/// A text has an origin if and only if it is a URL with a host.
pub proof fn law_urls_with_a_host_have_an_origin(url: Seq<char>)
    ensures
        crate::discovery::url_origin(url) is Ok <==> has_host(url),
        crate::discovery::parsed_url(url) is None ==> fails(
            crate::discovery::url_origin(url),
            ErrorKind::InvalidUrl,
            "invalid UCP URL '"@ + url + "'"@,
        ),
        crate::discovery::parsed_url(url) matches Some(p) && p.host is None ==> fails(
            crate::discovery::url_origin(url),
            ErrorKind::NoHost,
            "UCP URL '"@ + url + "' has no host"@,
        ),
{
}

/// Two URLs with a host have the same origin if and only if their schemes are equal, their hosts are
/// equal but for the case of ASCII letters, and their ports are equal.
pub proof fn law_same_origin_is_same_place(a: Seq<char>, b: Seq<char>)
    requires
        parts_stand_apart(a),
        parts_stand_apart(b),
        has_host(a),
        has_host(b),
    ensures
        crate::discovery::url_origin(a) == crate::discovery::url_origin(b) <==> same_place(a, b),
{
    let p = crate::discovery::parsed_url(a)->0;
    let q = crate::discovery::parsed_url(b)->0;
    law_small_letters(p.host->0, q.host->0);
    if crate::discovery::url_origin(a) == crate::discovery::url_origin(b) {
        lemma_origin_tells_the_parts(p, q, a, b);
    }
}

/// The text of an origin tells the parts that it was made of.
proof fn lemma_origin_tells_the_parts(p: UrlView, q: UrlView, a: Seq<char>, b: Seq<char>)
    requires
        crate::discovery::separable(p),
        crate::discovery::separable(q),
        p.host is Some,
        q.host is Some,
        crate::discovery::origin_of_parts(a, Some(p)) == crate::discovery::origin_of_parts(
            b,
            Some(q),
        ),
    ensures
        p.scheme == q.scheme,
        crate::text::lowercase(p.host->0) == crate::text::lowercase(q.host->0),
        p.port == q.port,
{
    reveal_strlit("://");
    reveal_strlit(":");
    let h = crate::text::lowercase(p.host->0);
    let k = crate::text::lowercase(q.host->0);
    let o = crate::discovery::origin_of_parts(a, Some(p))->Ok_0;
    let m = p.scheme.len() as int;
    let n = q.scheme.len() as int;
    assert(o[m] == ':');
    assert(o[n] == ':');
    if m < n {
        assert(o[m] == q.scheme[m]);
        assert(q.scheme.contains(':'));
    }
    if n < m {
        assert(o[n] == p.scheme[n]);
        assert(p.scheme.contains(':'));
    }
    assert(p.scheme =~= q.scheme) by {
        assert(o.take(m) =~= p.scheme);
        assert(o.take(m) =~= q.scheme);
    }
    let s = port_text(p.port);
    let t = port_text(q.port);
    let r = o.skip(m + 3);
    assert(r =~= h + s);
    assert(r =~= k + t);
    lemma_port_text(p.port);
    lemma_port_text(q.port);
    lemma_lowercase_colons(p.host->0);
    lemma_lowercase_colons(q.host->0);
    if p.port is Some && q.port is Some {
        assert(r[h.len() as int] == ':');
        assert(r[k.len() as int] == ':');
        if h.len() < k.len() {
            assert(r[k.len() as int] == s[k.len() - h.len()]);
        }
        if k.len() < h.len() {
            assert(r[h.len() as int] == t[h.len() - k.len()]);
        }
        assert(r.take(h.len() as int) =~= h);
        assert(r.take(h.len() as int) =~= k);
        assert(r.skip(h.len() as int) =~= s);
        assert(r.skip(h.len() as int) =~= t);
        assert(s.skip(1) =~= crate::text::decimal(p.port->0 as nat));
        assert(t.skip(1) =~= crate::text::decimal(q.port->0 as nat));
    } else if p.port is Some {
        assert(r =~= k);
        assert(r[h.len() as int] == ':');
        assert(k.contains(':'));
        assert(r.last() == s.last());
    } else if q.port is Some {
        assert(r =~= h);
        assert(r[k.len() as int] == ':');
        assert(h.contains(':'));
        assert(r.last() == t.last());
    } else {
        assert(r =~= h);
        assert(r =~= k);
    }
}

/// What an origin says of the port.
spec fn port_text(port: Option<u16>) -> Seq<char> {
    match port {
        Some(n) => ":"@ + crate::text::decimal(n as nat),
        None => Seq::empty(),
    }
}

proof fn lemma_port_text(port: Option<u16>)
    ensures
        port matches Some(n) ==> {
            &&& port_text(port).len() > 1
            &&& port_text(port)[0] == ':'
            &&& forall|i: int|
                1 <= i < port_text(port).len() ==> '0' <= #[trigger] port_text(port)[i] <= '9'
            &&& said(crate::text::decimal(n as nat)) == n
        },
{
    reveal_strlit(":");
    if let Some(n) = port {
        law_decimal_says_the_number(n as nat);
        let d = crate::text::decimal(n as nat);
        assert forall|i: int| 1 <= i < port_text(port).len() implies '0' <= #[trigger] port_text(
            port,
        )[i] <= '9' by {
            assert(port_text(port)[i] == d[i - 1]);
        }
    }
}

/// Small letters add no colon, and leave a bracket at the end.
proof fn lemma_lowercase_colons(host: Seq<char>)
    requires
        host.contains(':') ==> host.last() == ']',
    ensures
        crate::text::lowercase(host).contains(':') ==> crate::text::lowercase(host).last() == ']',
{
    let small = crate::text::lowercase(host);
    if small.contains(':') {
        let i = choose|i: int| 0 <= i < small.len() && small[i] == ':';
        assert(small[i] == crate::text::ascii_lower(host[i]));
        assert(host[i] == ':');
        assert(small[small.len() - 1] == crate::text::ascii_lower(host[host.len() - 1]));
    }
}

/// An endpoint may be used if and only if it begins with `https://`, it and the merchant's address
/// are URLs with a host, and it lies at the same place as the merchant's address or as one of the
/// allowed ones. With none allowed, that is the merchant's own place.
pub proof fn law_endpoint_lies_at_an_allowed_place(
    endpoint: Seq<char>,
    merchant_url: Seq<char>,
    allowed: Seq<String>,
)
    requires
        parts_stand_apart(endpoint),
        parts_stand_apart(merchant_url),
        forall|i: int| 0 <= i < allowed.len() ==> parts_stand_apart(#[trigger] allowed[i]@),
    ensures
        crate::discovery::endpoint_allowed(endpoint, merchant_url, allowed) is Ok
            <==> at_allowed_place(endpoint, merchant_url, allowed),
{
    let origin = crate::discovery::url_origin(endpoint);
    let own = crate::discovery::url_origin(merchant_url);
    let origins = crate::discovery::url_origins(allowed);
    if has_host(endpoint) && has_host(merchant_url) {
        law_same_origin_is_same_place(endpoint, merchant_url);
        assert forall|i: int| 0 <= i < allowed.len() implies (origin == #[trigger] origins[i]
            <==> same_place(endpoint, allowed[i]@)) by {
            assert(origins[i] == crate::discovery::url_origin(allowed[i]@));
            if has_host(allowed[i]@) {
                law_same_origin_is_same_place(endpoint, allowed[i]@);
            }
        }
        if origins.contains(origin) {
            let i = choose|i: int| 0 <= i < origins.len() && origins[i] == origin;
            assert(same_place(endpoint, allowed[i]@));
        }
        if exists|i: int|
            0 <= i < allowed.len() && same_place(endpoint, #[trigger] allowed[i]@) {
            let i = choose|i: int|
                0 <= i < allowed.len() && same_place(endpoint, #[trigger] allowed[i]@);
            assert(origins[i] == origin);
            assert(origins.contains(origin));
        }
        assert(own is Ok && origin is Ok);
    }
}

/// The endpoint begins with `https://` and lies at the merchant's place or at an allowed one.
pub open spec fn at_allowed_place(
    endpoint: Seq<char>,
    merchant_url: Seq<char>,
    allowed: Seq<String>,
) -> bool {
    &&& "https://"@.is_prefix_of(endpoint)
    &&& has_host(endpoint)
    &&& has_host(merchant_url)
    &&& same_place(endpoint, merchant_url) || exists|i: int|
        0 <= i < allowed.len() && same_place(endpoint, #[trigger] allowed[i]@)
}

/// An endpoint with a known origin may be used if and only if it begins with `https://` and its origin
/// is the merchant's own or one of the allowed ones; an allowed text without an origin allows nothing.
/// Otherwise it is refused for the first thing that is wrong.
pub proof fn law_endpoint_is_judged_by_its_origin(
    endpoint: Seq<char>,
    endpoint_origin: Result<Seq<char>, ErrorView>,
    merchant_origin: Result<Seq<char>, ErrorView>,
    allowed: Seq<Result<Seq<char>, ErrorView>>,
)
    ensures
        ({
            let verdict = crate::discovery::endpoint_verdict(
                endpoint,
                endpoint_origin,
                merchant_origin,
                allowed,
            );
            let https = "https://"@.is_prefix_of(endpoint);
            &&& verdict is Ok <==> {
                &&& endpoint_origin is Ok
                &&& https
                &&& merchant_origin is Ok
                &&& endpoint_origin == merchant_origin || exists|i: int|
                    0 <= i < allowed.len() && #[trigger] allowed[i] == endpoint_origin
            }
            &&& endpoint_origin matches Err(e) ==> verdict == Err::<(), ErrorView>(e)
            &&& endpoint_origin is Ok && !https ==> fails(
                verdict,
                ErrorKind::NotHttps,
                "UCP endpoint '"@ + endpoint + "' must use https"@,
            )
            &&& endpoint_origin is Ok && https && merchant_origin is Err ==> verdict == Err::<
                (),
                ErrorView,
            >(merchant_origin->Err_0)
            &&& endpoint_origin is Ok && https && merchant_origin is Ok && verdict is Err ==> fails(
                verdict,
                ErrorKind::ForeignOrigin,
                "UCP endpoint origin '"@ + endpoint_origin->Ok_0
                    + "' is neither the merchant's own origin nor in allowed_endpoint_origins; refusing to send merchant credentials there"@,
            )
        }),
{
    if endpoint_origin is Ok && (exists|i: int|
        0 <= i < allowed.len() && #[trigger] allowed[i] == endpoint_origin) {
        assert(allowed.contains(endpoint_origin));
    }
}

/// An endpoint that may not be used is refused for the first thing that is wrong with it.
pub proof fn law_endpoint_refusals(
    endpoint: Seq<char>,
    merchant_url: Seq<char>,
    allowed: Seq<String>,
)
    ensures
        ({
            let verdict = crate::discovery::endpoint_allowed(endpoint, merchant_url, allowed);
            let origin = crate::discovery::url_origin(endpoint);
            let own = crate::discovery::url_origin(merchant_url);
            &&& origin matches Err(e) ==> verdict == Err::<(), ErrorView>(e)
            &&& origin is Ok && !"https://"@.is_prefix_of(endpoint) ==> fails(
                verdict,
                ErrorKind::NotHttps,
                "UCP endpoint '"@ + endpoint + "' must use https"@,
            )
            &&& origin is Ok && "https://"@.is_prefix_of(endpoint) ==> match own {
                Err(e) => verdict == Err::<(), ErrorView>(e),
                Ok(_) => verdict is Err ==> fails(
                    verdict,
                    ErrorKind::ForeignOrigin,
                    "UCP endpoint origin '"@ + origin->Ok_0
                        + "' is neither the merchant's own origin nor in allowed_endpoint_origins; refusing to send merchant credentials there"@,
                ),
            }
        }),
{
}

// ---------------------------------------------------------------------------
// Profiles
// ---------------------------------------------------------------------------

/// An endpoint entry is an object with the texts `transport` and `endpoint`, or an array of just two
/// texts in that order; everything else is none.
pub proof fn law_endpoint_entries_are_recognised(v: JsonView, t: Seq<char>, e: Seq<char>)
    ensures
        has_text(v, "transport"@, t) && has_text(v, "endpoint"@, e)
            ==> crate::discovery::endpoint_entry(v) == Some(
            EndpointView { transport: t, endpoint: e },
        ),
        v == JsonView::Array(seq![JsonView::String(t), JsonView::String(e)])
            ==> crate::discovery::endpoint_entry(v) == Some(
            EndpointView { transport: t, endpoint: e },
        ),
        match crate::discovery::endpoint_entry(v) {
            Some(entry) => (has_text(v, "transport"@, entry.transport) && has_text(
                v,
                "endpoint"@,
                entry.endpoint,
            )) || v == JsonView::Array(
                seq![JsonView::String(entry.transport), JsonView::String(entry.endpoint)],
            ),
            None => !(has_text(v, "transport"@, t) && has_text(v, "endpoint"@, e)),
        },
{
    if let Some(entry) = crate::discovery::endpoint_entry(v) {
        if let JsonView::Array(items) = v {
            assert(items =~= seq![
                JsonView::String(entry.transport),
                JsonView::String(entry.endpoint),
            ]);
        }
    }
}

/// The entries of a list are those of its items, in their order, and what is no entry is passed over.
pub proof fn law_entries_keep_their_order(front: Seq<JsonView>, item: JsonView, rest: Seq<JsonView>)
    ensures
        crate::discovery::endpoint_entries(front + rest) == crate::discovery::endpoint_entries(
            front,
        ) + crate::discovery::endpoint_entries(rest),
        match crate::discovery::endpoint_entry(item) {
            Some(entry) => crate::discovery::endpoint_entries(seq![item]) == seq![entry],
            None => crate::discovery::endpoint_entries(seq![item]).len() == 0,
        },
        crate::discovery::endpoint_entries(Seq::empty()).len() == 0,
    decreases rest.len(),
{
    assert(seq![item].drop_last() =~= Seq::<JsonView>::empty());
    assert(crate::discovery::endpoint_entries(seq![item].drop_last()).len() == 0);
    if let Some(entry) = crate::discovery::endpoint_entry(item) {
        assert(crate::discovery::endpoint_entries(seq![item]) =~= seq![entry]);
    }
    if rest.len() == 0 {
        assert(front + rest =~= front);
        assert(crate::discovery::endpoint_entries(front)
            + crate::discovery::endpoint_entries(rest)
            =~= crate::discovery::endpoint_entries(front));
    } else {
        law_entries_keep_their_order(front, item, rest.drop_last());
        assert((front + rest).drop_last() =~= front + rest.drop_last());
        assert((front + rest).last() == rest.last());
        assert(crate::discovery::endpoint_entries(front + rest)
            =~= crate::discovery::endpoint_entries(front) + crate::discovery::endpoint_entries(
            rest,
        ));
    }
}

/// A service offers the entries of a list, or the one that it is itself.
pub proof fn law_service_offers_its_entries(service: JsonView)
    ensures
        match service {
            JsonView::Array(items) => crate::discovery::service_entries(service)
                == crate::discovery::endpoint_entries(items),
            JsonView::Object(_) => match crate::discovery::endpoint_entry(service) {
                Some(entry) => crate::discovery::service_entries(service) == seq![entry],
                None => crate::discovery::service_entries(service).len() == 0,
            },
            _ => crate::discovery::service_entries(service).len() == 0,
        },
{
}

/// An endpoint is resolved to the first entry of the very service with the preferred transport, or
/// else to its first entry; the entry's own transport decides whether it is used over MCP. Without
/// the service, or without an entry, it is an error that says so.
pub proof fn law_endpoint_is_resolved_by_preference(
    services: Map<Seq<char>, JsonView>,
    service_key: Seq<char>,
    preferred: Seq<char>,
)
    ensures
        ({
            let outcome = crate::discovery::resolved(services, service_key, preferred);
            let entries = crate::discovery::service_entries(services[service_key]);
            &&& outcome is Ok <==> services.contains_key(service_key) && entries.len() > 0
            &&& outcome matches Ok(transport) ==> is_preferred(entries, preferred, transport)
            &&& !services.contains_key(service_key) ==> fails(
                outcome,
                ErrorKind::MissingService,
                "merchant has no '"@ + service_key + "' service"@,
            )
            &&& services.contains_key(service_key) && entries.len() == 0 ==> fails(
                outcome,
                ErrorKind::NoTransport,
                "no compatible transport found for merchant service '"@ + service_key + "'"@,
            )
        }),
{
    if services.contains_key(service_key) {
        let entries = crate::discovery::service_entries(services[service_key]);
        lemma_first_place(entries, preferred, 0);
        let p = crate::discovery::place_of_transport(entries, preferred, 0);
        if p < entries.len() {
            assert(used_as(entries[p], crate::discovery::entry_transport(entries[p])));
        } else if entries.len() > 0 {
            assert(used_as(entries[0], crate::discovery::entry_transport(entries[0])));
        }
    }
}

/// An entry is used over MCP if that is its transport, and over REST otherwise, at its endpoint.
pub proof fn law_entry_is_used_as_it_says(entry: EndpointView)
    ensures
        used_as(entry, crate::discovery::entry_transport(entry)),
{
}

/// The transport leads to the entry's endpoint: over MCP if that is the entry's transport, or else
/// over REST.
pub open spec fn used_as(entry: EndpointView, transport: TransportView) -> bool {
    if entry.transport == "mcp"@ {
        transport == TransportView::Mcp(entry.endpoint)
    } else {
        transport == TransportView::Rest(entry.endpoint)
    }
}

/// The transport is that of the first entry with the preferred one, or, where there is no such entry,
/// that of the first of all.
pub open spec fn is_preferred(
    entries: Seq<EndpointView>,
    preferred: Seq<char>,
    transport: TransportView,
) -> bool {
    exists|p: int|
        {
            &&& 0 <= p < entries.len()
            &&& used_as(#[trigger] entries[p], transport)
            &&& entries[p].transport == preferred || p == 0
            &&& forall|i: int| 0 <= i < p ==> (#[trigger] entries[i]).transport != preferred
            &&& entries[p].transport != preferred ==> forall|i: int|
                0 <= i < entries.len() ==> (#[trigger] entries[i]).transport != preferred
        }
}

proof fn lemma_first_place(entries: Seq<EndpointView>, transport: Seq<char>, from: int)
    requires
        0 <= from <= entries.len(),
    ensures
        ({
            let p = crate::discovery::place_of_transport(entries, transport, from);
            &&& from <= p <= entries.len()
            &&& p < entries.len() ==> entries[p].transport == transport
            &&& forall|i: int| from <= i < p ==> (#[trigger] entries[i]).transport != transport
        }),
    decreases entries.len() - from,
{
    if from < entries.len() && entries[from].transport != transport {
        lemma_first_place(entries, transport, from + 1);
    }
}

/// A profile passes if and only if its capabilities are an object with every required name, or none
/// is required. Otherwise the first that is missing is named, or how many are required of none.
pub proof fn law_capabilities_in_full(
    capabilities: JsonView,
    required: Seq<String>,
    p: int,
    number: Seq<char>,
)
    ensures
        ({
            let verdict = crate::discovery::capability_verdict(capabilities, required);
            &&& verdict is Ok <==> required.len() == 0 || (capabilities matches JsonView::Object(
                offered,
            ) && forall|i: int|
                0 <= i < required.len() ==> offered.contains_key((#[trigger] required[i])@))
            &&& match capabilities {
                JsonView::Object(offered) => first_missing(offered, required, p) ==> fails(
                    verdict,
                    ErrorKind::MissingCapability,
                    "merchant does not support required capability: "@ + required[p]@,
                ),
                _ => required.len() > 0 && is_decimal(number, required.len() as int) ==> fails(
                    verdict,
                    ErrorKind::NoCapabilities,
                    "merchant has no capabilities object but "@ + number + " required"@,
                ),
            }
        }),
{
    if let JsonView::Object(offered) = capabilities {
        lemma_first_missing(offered, required, 0);
        let q = crate::discovery::place_of_missing(offered, required, 0);
        if q < required.len() {
            assert(!offered.contains_key(required[q]@));
        }
        if first_missing(offered, required, p) {
            if q < p {
                assert(offered.contains_key(required[q]@));
            }
            if p < q {
                assert(offered.contains_key(required[p]@));
            }
        }
    } else if required.len() > 0 && is_decimal(number, required.len() as int) {
        law_decimal_says_the_number(required.len());
        lemma_decimal_is_one(
            number,
            crate::text::decimal(required.len()),
            required.len() as int,
        );
    }
}

/// The required name at `p` is the first that is not offered.
pub open spec fn first_missing(
    offered: Map<Seq<char>, JsonView>,
    required: Seq<String>,
    p: int,
) -> bool {
    &&& 0 <= p < required.len()
    &&& !offered.contains_key(required[p]@)
    &&& forall|i: int| 0 <= i < p ==> offered.contains_key((#[trigger] required[i])@)
}

proof fn lemma_first_missing(offered: Map<Seq<char>, JsonView>, required: Seq<String>, from: int)
    requires
        0 <= from <= required.len(),
    ensures
        ({
            let p = crate::discovery::place_of_missing(offered, required, from);
            &&& from <= p <= required.len()
            &&& p < required.len() ==> !offered.contains_key(required[p]@)
            &&& forall|i: int| from <= i < p ==> offered.contains_key((#[trigger] required[i])@)
        }),
    decreases required.len() - from,
{
    if from < required.len() && offered.contains_key(required[from]@) {
        lemma_first_missing(offered, required, from + 1);
    }
}

/// A profile is found if and only if the merchant answered with a status from 200 up to 299 and a
/// profile; it is that profile. Everything else is an error that says what went wrong.
pub proof fn law_profile_replies_in_full(reply: DiscoveryReply)
    ensures
        ({
            let outcome = crate::discovery::discovered(reply);
            match reply {
                DiscoveryReply::SendFailed => fails(
                    outcome,
                    ErrorKind::RequestFailed,
                    "UCP merchant discovery request failed"@,
                ),
                DiscoveryReply::AddressBlocked { reason } => fails(
                    outcome,
                    ErrorKind::AddressBlocked,
                    "UCP discovery SSRF blocked: "@ + reason@,
                ),
                DiscoveryReply::Answered { status, status_text, profile } => {
                    &&& status < 200 || status > 299 ==> fails(
                        outcome,
                        ErrorKind::HttpError,
                        "UCP merchant discovery failed: HTTP "@ + status_text@,
                    )
                    &&& 200 <= status <= 299 ==> match profile {
                        Some(p) => outcome == Ok::<MerchantProfile, ErrorView>(p),
                        None => fails(
                            outcome,
                            ErrorKind::Unreadable,
                            "UCP merchant profile parse error"@,
                        ),
                    }
                },
            }
        }),
{
}

/// The endpoint for a tool's purchases is the one that its profile's `dev.ucp.shopping` service offers
/// for the tool's transport. Missing capabilities, a missing endpoint and a refused one are told in
/// that order.
pub proof fn law_endpoint_is_approved_in_order(config: UcpToolConfig, profile: MerchantProfile)
    ensures
        ({
            let offered = crate::discovery::capability_verdict(
                profile.capabilities@,
                config.capabilities@,
            );
            let found = crate::discovery::resolved(
                profile.services@,
                "dev.ucp.shopping"@,
                config.transport@,
            );
            let allowed = crate::discovery::endpoint_allowed(
                match found->Ok_0 {
                    TransportView::Mcp(endpoint) => endpoint,
                    TransportView::Rest(endpoint) => endpoint,
                },
                config.merchant_url@,
                config.allowed_endpoint_origins@,
            );
            crate::discovery::approved_endpoint(config, profile) == if offered is Err {
                Err::<TransportView, ErrorView>(offered->Err_0)
            } else if found is Err {
                found
            } else if allowed is Err {
                Err(allowed->Err_0)
            } else {
                found
            }
        }),
{
}

/// A checkout is opened if and only if the profile offers every required capability, its
/// `dev.ucp.shopping` service has an endpoint, and the tool's settings let that endpoint be used. It
/// is opened at the first entry of that service with the tool's own transport, or else at its first
/// entry, for the tool's merchant, with the tool's token unless that is empty, and from the checkout
/// that the tool is configured with.
pub proof fn law_checkout_is_opened_where_and_how_the_tool_says(
    config: UcpToolConfig,
    profile: MerchantProfile,
)
    ensures
        ({
            let step = crate::plugin::opening(config, profile);
            let offered = crate::discovery::capability_verdict(
                profile.capabilities@,
                config.capabilities@,
            );
            let entries = crate::discovery::service_entries(profile.services@["dev.ucp.shopping"@]);
            let found = crate::discovery::resolved(
                profile.services@,
                "dev.ucp.shopping"@,
                config.transport@,
            );
            let allowed = crate::discovery::endpoint_allowed(
                found->Ok_0.endpoint(),
                config.merchant_url@,
                config.allowed_endpoint_origins@,
            );
            &&& step is OpenCheckout <==> offered is Ok && found is Ok && allowed is Ok
            &&& step matches StepView::OpenCheckout(pending) ==> {
                &&& profile.services@.contains_key("dev.ucp.shopping"@)
                &&& is_preferred(entries, config.transport@, pending.transport)
                &&& pending.merchant_url == config.merchant_url@
                &&& match config.auth_token {
                    Some(token) => if token@.len() > 0 {
                        pending.bearer == Some(token@)
                    } else {
                        pending.bearer is None
                    },
                    None => pending.bearer is None,
                }
                &&& match config.default_checkout_args {
                    Some(seed) => pending.seed == Some(seed@),
                    None => pending.seed is None,
                }
            }
            &&& !(step is OpenCheckout) ==> denies(
                step,
                500,
                -33051,
                "UCP checkout creation failed: "@ + (if offered is Err {
                    offered->Err_0.message
                } else if found is Err {
                    found->Err_0.message
                } else {
                    allowed->Err_0.message
                }),
            )
        }),
{
    law_endpoint_is_resolved_by_preference(
        profile.services@,
        "dev.ucp.shopping"@,
        config.transport@,
    );
}

/// The step is a refusal with the status, the code and the message, and no further data.
pub open spec fn denies(step: StepView, http_status: int, code: int, message: Seq<char>) -> bool {
    &&& step matches StepView::Decided(decision)
    &&& decision is Deny
    &&& decision->Deny_http_status == http_status
    &&& decision->Deny_code == code
    &&& decision->Deny_message == message
    &&& decision->error_data is None
}

/// The answer is a demand for payment: a 402 with the code -33050, the message and what a client is
/// told of the checkout.
pub open spec fn challenges(decision: DecisionView, message: Seq<char>, session: SessionView) -> bool {
    &&& decision is Challenge
    &&& decision->Challenge_http_status == 402
    &&& decision->Challenge_code == -33050
    &&& decision->Challenge_message == message
    &&& decision->challenge_data == session.challenge_data()
}

/// The step is such a demand for payment.
pub open spec fn demands(step: StepView, message: Seq<char>, session: SessionView) -> bool {
    step matches StepView::Decided(decision) && challenges(decision, message, session)
}

// ---------------------------------------------------------------------------
// Whose a checkout is
// ---------------------------------------------------------------------------

/// The subject of a call, if it has one that is not empty.
pub open spec fn subject_of(ctx: PluginContext) -> Option<Seq<char>> {
    match ctx.identity.subject_id {
        Some(s) => if s@.len() > 0 {
            Some(s@)
        } else {
            None
        },
        None => None,
    }
}

/// The two calls come from the same caller: from the same subject of the same issuer, a missing
/// issuer being an empty one, or, both without a subject, over the same connection, a missing id of
/// which is `anon`.
pub open spec fn same_caller(a: PluginContext, b: PluginContext) -> bool {
    match (subject_of(a), subject_of(b)) {
        (Some(s), Some(t)) => s == t && match (a.identity.issuer, b.identity.issuer) {
            (Some(i), Some(j)) => i@ == j@,
            (Some(i), None) => i@.len() == 0,
            (None, Some(j)) => j@.len() == 0,
            (None, None) => true,
        },
        (None, None) => match (a.session_id, b.session_id) {
            (Some(x), Some(y)) => x@ == y@,
            (Some(x), None) => x@ == "anon"@,
            (None, Some(y)) => y@ == "anon"@,
            (None, None) => true,
        },
        _ => false,
    }
}

/// Two calls have the same ownership key if and only if they come from the same caller.
pub proof fn law_keys_are_the_callers(a: PluginContext, b: PluginContext)
    ensures
        a.principal().key() == b.principal().key() <==> same_caller(a, b),
{
    if a.principal().key() == b.principal().key() {
        crate::laws::law_keys_tell_principals_apart(a.principal(), b.principal());
    }
    if let Some(i) = a.identity.issuer {
        assert(i@.len() == 0 ==> i@ =~= Seq::<char>::empty());
    }
    if let Some(j) = b.identity.issuer {
        assert(j@.len() == 0 ==> j@ =~= Seq::<char>::empty());
    }
}

/// The key of a caller with a subject begins with `sub:`, and is the subject, a bar and the issuer
/// where the subject has neither bar nor backslash. The key of one without is `sess:` and the id of
/// its connection, `anon` where that is missing.
pub proof fn law_keys_are_readable(ctx: PluginContext)
    ensures
        match subject_of(ctx) {
            Some(s) => {
                let issuer = match ctx.identity.issuer {
                    Some(i) => i@,
                    None => Seq::empty(),
                };
                !s.contains('|') && !s.contains('\\') ==> ctx.principal().key() == "sub:"@ + s
                    + "|"@ + issuer
            },
            None => ctx.principal().key() == "sess:"@ + match ctx.session_id {
                Some(x) => x@,
                None => "anon"@,
            },
        },
{
    if let Some(s) = subject_of(ctx) {
        if !s.contains('|') && !s.contains('\\') {
            assert forall|i: int| 0 <= i < s.len() implies #[trigger] s[i] != '|' && s[i]
                != '\\' by {
                assert(s.contains(s[i]));
            }
            crate::text::lemma_escaped_plain(s);
        }
    }
}

// ---------------------------------------------------------------------------
// Looking at a call
// ---------------------------------------------------------------------------

/// The call is one that sells something: of a configured tool, on the tool surface, while the plugin
/// is on.
pub open spec fn sells(plugin: UcpCommercePlugin, ctx: PluginContext) -> bool {
    &&& plugin.enabled
    &&& ctx.surface@ == "tool"@
    &&& plugin.tool_configs@.contains_key(ctx.tool_name@)
}

/// The checkouts and the profiles are as the plugin has them.
pub open spec fn changes_nothing(
    plugin: UcpCommercePlugin,
    sessions: Map<Seq<char>, UcpCheckoutSession>,
    profiles: Map<Seq<char>, CachedMerchantProfile>,
) -> bool {
    &&& sessions == crate::tables::session_entries(plugin.sessions)
    &&& profiles == crate::tables::profile_entries(plugin.merchant_profiles)
}

/// Calls that sell nothing, and no others, pass untouched, whatever they bring along.
pub proof fn law_only_sales_are_held(
    plugin: UcpCommercePlugin,
    ctx: PluginContext,
    meta: Option<JsonView>,
    age: u128,
)
    ensures
        plugin.gated(ctx) <==> sells(plugin, ctx),
        sells(plugin, ctx) ==> plugin.config_of(ctx) == plugin.tool_configs@[ctx.tool_name@],
        ({
            let e = plugin.evaluated(ctx, meta, age);
            let passes = e.step == StepView::Decided(DecisionView::Allow { metadata: None });
            &&& !sells(plugin, ctx) ==> passes && changes_nothing(plugin, e.sessions, e.profiles)
            &&& sells(plugin, ctx) ==> !(e.step matches StepView::Decided(d) && d is Allow)
        }),
{
}

/// Metadata is read by its very names: the checkout in `ucp/checkout_session`, if that is a text, and
/// the instrument in `ucp/payment_instrument`, whatever that is.
pub proof fn law_metadata_is_read_by_name(meta: Option<JsonView>)
    ensures
        match crate::plugin::checkout_ref(meta) {
            Some(id) => meta matches Some(m) && has_text(m, "ucp/checkout_session"@, id),
            None => meta matches Some(m) ==> lacks_text(m, "ucp/checkout_session"@),
        },
        match crate::plugin::payment_instrument(meta) {
            Some(x) => meta matches Some(m) && has(m, "ucp/payment_instrument"@, x),
            None => meta matches Some(m) ==> lacks(m, "ucp/payment_instrument"@),
        },
{
}

/// The call refers to the checkout.
pub open spec fn refers_to(meta: Option<JsonView>, id: Seq<char>) -> bool {
    meta matches Some(m) && has_text(m, "ucp/checkout_session"@, id)
}

/// The call refers to no checkout.
pub open spec fn refers_to_none(meta: Option<JsonView>) -> bool {
    meta matches Some(m) ==> lacks_text(m, "ucp/checkout_session"@)
}

/// A sale without a checkout opens one, with what is remembered of the merchant's profile while that
/// lasts; otherwise the profile is fetched from the merchant's well-known address. Nothing changes.
pub proof fn law_sale_without_a_checkout(
    plugin: UcpCommercePlugin,
    ctx: PluginContext,
    meta: Option<JsonView>,
    age: u128,
    bare: Seq<char>,
)
    requires
        sells(plugin, ctx),
        refers_to_none(meta),
        is_bare(bare, plugin.tool_configs@[ctx.tool_name@].merchant_url@),
    ensures
        ({
            let e = plugin.evaluated(ctx, meta, age);
            let config = plugin.tool_configs@[ctx.tool_name@];
            let profiles = crate::tables::profile_entries(plugin.merchant_profiles);
            let merchant = config.merchant_url@;
            &&& changes_nothing(plugin, e.sessions, e.profiles)
            &&& if profiles.contains_key(merchant) && age < crate::clock::duration_nanos(
                profiles[merchant].ttl,
            ) {
                e.step == crate::plugin::opening(config, profiles[merchant].profile)
            } else {
                e.step == StepView::FetchProfile(bare + "/.well-known/ucp"@)
            }
        }),
{
    law_addresses(plugin.tool_configs@[ctx.tool_name@].merchant_url@, bare);
}

/// The address that the checkout's requests go to.
pub open spec fn endpoint_of(session: UcpCheckoutSession) -> Seq<char> {
    match session.transport {
        SessionTransport::Mcp { endpoint } => endpoint@,
        SessionTransport::Rest { endpoint } => endpoint@,
    }
}

/// The plugin has the checkout, it is the caller's own, and `age` nanoseconds do not end its life.
pub open spec fn is_live(
    plugin: UcpCommercePlugin,
    ctx: PluginContext,
    id: Seq<char>,
    age: u128,
) -> bool {
    let sessions = crate::tables::session_entries(plugin.sessions);
    &&& sessions.contains_key(id)
    &&& sessions[id].owner@ == ctx.principal().key()
    &&& age < crate::clock::duration_nanos(plugin.session_ttl)
}

/// A sale that refers to a checkout which is not there, or not the caller's own, is refused as not
/// found and changes nothing. One that has outlived its time is refused as gone and dropped.
pub proof fn law_sale_with_a_checkout_that_is_not_live(
    plugin: UcpCommercePlugin,
    ctx: PluginContext,
    meta: Option<JsonView>,
    age: u128,
    id: Seq<char>,
)
    requires
        sells(plugin, ctx),
        refers_to(meta, id),
        !is_live(plugin, ctx, id, age),
    ensures
        ({
            let e = plugin.evaluated(ctx, meta, age);
            let sessions = crate::tables::session_entries(plugin.sessions);
            if sessions.contains_key(id) && sessions[id].owner@ == ctx.principal().key() {
                &&& denies(e.step, 410, -33052, "UCP checkout session '"@ + id + "' expired"@)
                &&& e.sessions == sessions.remove(id)
                &&& e.profiles == crate::tables::profile_entries(plugin.merchant_profiles)
            } else {
                &&& denies(
                    e.step,
                    404,
                    -33052,
                    "UCP checkout session '"@ + id + "' not found or expired"@,
                )
                &&& changes_nothing(plugin, e.sessions, e.profiles)
            }
        }),
{
}

/// A sale that refers to a live checkout and brings no instrument is told its state. Nothing is
/// completed and nothing changes.
pub proof fn law_sale_without_an_instrument(
    plugin: UcpCommercePlugin,
    ctx: PluginContext,
    meta: Option<JsonView>,
    age: u128,
    id: Seq<char>,
)
    requires
        sells(plugin, ctx),
        refers_to(meta, id),
        is_live(plugin, ctx, id, age),
        lacks(meta->0, "ucp/payment_instrument"@),
    ensures
        ({
            let e = plugin.evaluated(ctx, meta, age);
            let session = crate::tables::session_entries(plugin.sessions)[id];
            &&& demands(
                e.step,
                "UCP checkout session '"@ + id + "' awaiting payment"@,
                session@,
            )
            &&& changes_nothing(plugin, e.sessions, e.profiles)
        }),
{
}

/// A sale that refers to a live checkout and brings an instrument completes it, if the tool's
/// settings let the checkout's endpoint be used: the value of `ucp/payment_instrument` in the
/// metadata, as it is, becomes the one entry of `checkout.payment.instruments`, and goes with the id
/// of the checkout and the tool's token to the checkout's endpoint. Only that checkout is taken out.
/// Otherwise the refusal is told and nothing changes.
pub proof fn law_sale_with_an_instrument(
    plugin: UcpCommercePlugin,
    ctx: PluginContext,
    meta: Option<JsonView>,
    age: u128,
    id: Seq<char>,
    bare: Seq<char>,
)
    requires
        sells(plugin, ctx),
        refers_to(meta, id),
        is_live(plugin, ctx, id, age),
        meta->0->Object_0.contains_key("ucp/payment_instrument"@),
        is_bare(bare, endpoint_of(crate::tables::session_entries(plugin.sessions)[id])),
    ensures
        ({
            let e = plugin.evaluated(ctx, meta, age);
            let sessions = crate::tables::session_entries(plugin.sessions);
            let session = sessions[id];
            let config = plugin.tool_configs@[ctx.tool_name@];
            let instrument = meta->0->Object_0["ucp/payment_instrument"@];
            let verdict = crate::discovery::endpoint_allowed(
                endpoint_of(session),
                config.merchant_url@,
                config.allowed_endpoint_origins@,
            );
            &&& e.step is CompleteCheckout <==> verdict is Ok
            &&& e.step is CompleteCheckout ==> {
                let request = e.step->request;
                let checkout = request.body->Object_0["checkout"@];
                let payment = checkout->Object_0["payment"@];
                &&& e.step->key == id
                &&& e.step->session == session
                &&& e.sessions == sessions.remove(id)
                &&& e.profiles == crate::tables::profile_entries(plugin.merchant_profiles)
                &&& request.url == bare + "/complete_checkout"@
                &&& has_text(request.body, "id"@, session.session_id@)
                &&& has(request.body, "checkout"@, checkout)
                &&& no_more_than(request.body, set!["id"@, "checkout"@])
                &&& has(checkout, "payment"@, payment)
                &&& no_more_than(checkout, set!["payment"@])
                &&& has(payment, "instruments"@, JsonView::Array(seq![instrument]))
                &&& no_more_than(payment, set!["instruments"@])
                &&& match config.auth_token {
                    Some(token) => if token@.len() > 0 {
                        request.bearer == Some(token@)
                    } else {
                        request.bearer is None
                    },
                    None => request.bearer is None,
                }
            }
            &&& verdict matches Err(refusal) ==> {
                &&& demands(
                    e.step,
                    "UCP checkout completion failed: "@ + refusal.message,
                    session@,
                )
                &&& changes_nothing(plugin, e.sessions, e.profiles)
            }
        }),
{
    let session = crate::tables::session_entries(plugin.sessions)[id];
    let config = plugin.tool_configs@[ctx.tool_name@];
    law_completion_request_in_full(
        session@,
        config.bearer(),
        meta->0->Object_0["ucp/payment_instrument"@],
        endpoint_of(session),
        bare,
    );
}

/// What a change of settings would be is excluded by `same_settings`.
pub proof fn law_settings_stay(a: UcpCommercePlugin, b: UcpCommercePlugin)
    requires
        a.same_settings(b),
    ensures
        a.manifest == b.manifest,
        a.enabled == b.enabled,
        a.tool_configs == b.tool_configs,
        a.platform_profile_url == b.platform_profile_url,
        a.session_ttl == b.session_ttl,
        a.discovery_cache_ttl == b.discovery_cache_ttl,
        a.default_transport == b.default_transport,
{
}

/// What the plugin remembers is what its tables hold.
pub proof fn law_memory_is_in_the_tables(plugin: UcpCommercePlugin, step: StepView)
    ensures
        plugin.open_sessions() == crate::tables::session_entries(plugin.sessions),
        plugin.cached_profiles() == crate::tables::profile_entries(plugin.merchant_profiles),
        plugin.unchanged(step).step == step,
        plugin.unchanged(step).sessions == plugin.open_sessions(),
        plugin.unchanged(step).profiles == plugin.cached_profiles(),
{
}

/// The age that decides about a sale is one read off the clock: since the checkout that it refers to
/// was created, or else since the profile of its merchant was fetched.
pub proof fn law_age_is_read_off_the_clock(
    plugin: UcpCommercePlugin,
    ctx: PluginContext,
    meta: Option<JsonView>,
    age: u128,
    id: Seq<char>,
)
    requires
        plugin.can_be_aged(ctx, meta, age),
        sells(plugin, ctx),
    ensures
        ({
            let sessions = crate::tables::session_entries(plugin.sessions);
            let profiles = crate::tables::profile_entries(plugin.merchant_profiles);
            let merchant = plugin.tool_configs@[ctx.tool_name@].merchant_url@;
            &&& refers_to(meta, id) && sessions.contains_key(id) ==> exists|d: std::time::Duration|
                #[trigger] crate::clock::passed_since(sessions[id].created_at, d)
                    && crate::clock::duration_nanos(d) == age
            &&& refers_to_none(meta) && profiles.contains_key(merchant) ==> exists|
                d: std::time::Duration,
            | #[trigger]
                crate::clock::passed_since(profiles[merchant].fetched_at, d)
                    && crate::clock::duration_nanos(d) == age
        }),
{
}

/// A profile that came for a sale is remembered for its merchant from `now` on, for as long as
/// profiles last, and leads to a checkout; the profiles of other merchants stay. Otherwise nothing
/// changes, and the sale is refused.
pub proof fn law_profile_that_came(
    plugin: UcpCommercePlugin,
    ctx: PluginContext,
    reply: DiscoveryReply,
    now: Instant,
)
    ensures
        ({
            let e = plugin.fetched(ctx, reply, now);
            let config = plugin.tool_configs@[ctx.tool_name@];
            let profiles = crate::tables::profile_entries(plugin.merchant_profiles);
            if !sells(plugin, ctx) {
                &&& e.step == StepView::Decided(DecisionView::Allow { metadata: None })
                &&& changes_nothing(plugin, e.sessions, e.profiles)
            } else {
                match crate::discovery::discovered(reply) {
                    Ok(profile) => {
                        &&& e.step == crate::plugin::opening(config, profile)
                        &&& e.sessions == crate::tables::session_entries(plugin.sessions)
                        &&& e.profiles.contains_key(config.merchant_url@)
                        &&& e.profiles[config.merchant_url@].profile == profile
                        &&& e.profiles[config.merchant_url@].fetched_at == now
                        &&& e.profiles[config.merchant_url@].ttl == plugin.discovery_cache_ttl
                        &&& e.profiles.remove(config.merchant_url@) == profiles.remove(
                            config.merchant_url@,
                        )
                    },
                    Err(refusal) => {
                        &&& denies(
                            e.step,
                            500,
                            -33051,
                            "UCP checkout creation failed: "@ + refusal.message,
                        )
                        &&& changes_nothing(plugin, e.sessions, e.profiles)
                    },
                }
            }
        }),
{
    let e = plugin.fetched(ctx, reply, now);
    let url = plugin.tool_configs@[ctx.tool_name@].merchant_url@;
    if sells(plugin, ctx) && crate::discovery::discovered(reply) is Ok {
        assert(e.profiles.remove(url) =~= plugin.cached_profiles().remove(url));
    }
}

// ---------------------------------------------------------------------------
// Opening and completing
// ---------------------------------------------------------------------------

/// A new checkout is the one that the merchant's answer names: an answer below 400 with a text as
/// `id` opens a session with that very id, owned by the caller, at the endpoint that was asked, with
/// the whole answer as its state. Payment is demanded for it. Every other reply is refused.
pub proof fn law_new_checkout_in_full(
    ctx: PluginContext,
    pending: PendingView,
    reply: MerchantReply,
    id: Seq<char>,
)
    ensures
        ({
            let outcome = crate::plugin::created_session(ctx, pending, reply);
            let decision = crate::plugin::creation(ctx, pending, reply);
            &&& reply is Answered && reply->status < 400 ==> {
                &&& has_text(reply->body@, "id"@, id) ==> outcome is Ok && outcome->Ok_0.session_id == id
                &&& lacks_text(reply->body@, "id"@) ==> fails(
                    outcome,
                    ErrorKind::MissingSessionId,
                    "UCP merchant response missing session ID"@,
                )
            }
            &&& outcome is Ok ==> {
                let session = outcome->Ok_0;
                &&& reply is Answered && reply->status < 400
                &&& has_text(reply->body@, "id"@, session.session_id)
                &&& session.owner == ctx.principal().key()
                &&& session.status == crate::checkout::reported_status(reply->body@)
                &&& session.merchant_url == pending.merchant_url
                &&& session.transport == pending.transport
                &&& session.merchant_endpoint == match pending.transport {
                    TransportView::Mcp(endpoint) => endpoint,
                    TransportView::Rest(endpoint) => endpoint,
                }
                &&& session.last_response == reply->body@
                &&& challenges(
                    decision,
                    "UCP checkout required for tool '"@ + ctx.tool_name@ + "'"@,
                    session,
                )
            }
            &&& outcome matches Err(e) ==> {
                &&& MerchantCall::CreateCheckout.answer(reply) matches Err(f) ==> e == f
                &&& denies(
                    StepView::Decided(decision),
                    500,
                    -33051,
                    "UCP checkout creation failed: "@ + e.message,
                )
            }
        }),
{
}

/// The session of a new checkout is nobody's until the caller is stamped on it, which changes nothing
/// else.
pub proof fn law_owner_is_stamped_on(ctx: PluginContext, pending: PendingView, reply: MerchantReply)
    ensures
        match crate::plugin::opened_session(pending, reply) {
            Ok(session) => {
                &&& session.owner.len() == 0
                &&& crate::plugin::created_session(ctx, pending, reply) == Ok::<
                    SessionView,
                    ErrorView,
                >(SessionView { owner: ctx.principal().key(), ..session })
            },
            Err(e) => crate::plugin::created_session(ctx, pending, reply) == Err::<
                SessionView,
                ErrorView,
            >(e),
        },
{
}

/// A checkout is completed as it is, with the token and the instrument as they are, if its endpoint
/// may be used; otherwise the refusal is told.
pub proof fn law_completion_goes_by_the_verdict(
    id: Seq<char>,
    session: UcpCheckoutSession,
    bearer: Option<Seq<char>>,
    instrument: JsonView,
    verdict: Result<(), ErrorView>,
)
    ensures
        ({
            let step = crate::plugin::completing(id, session, bearer, instrument, verdict);
            match verdict {
                Ok(_) => {
                    &&& step is CompleteCheckout
                    &&& step->key == id
                    &&& step->session == session
                    &&& step->request == crate::merchant::complete_request(
                        session@,
                        bearer,
                        instrument,
                    )
                },
                Err(e) => demands(
                    step,
                    "UCP checkout completion failed: "@ + e.message,
                    session@,
                ),
            }
        }),
{
}

/// An answer to a completion becomes the state of the checkout, with the status that it reports and
/// no other. Nothing else of the checkout changes.
pub proof fn law_completion_answer_is_taken_over(session: SessionView, body: JsonView)
    ensures
        ({
            let after = crate::merchant::after_completion(session, body);
            &&& after.last_response == body
            &&& after.status == crate::checkout::reported_status(body)
            &&& after.session_id == session.session_id
            &&& after.owner == session.owner
            &&& after.merchant_url == session.merchant_url
            &&& after.merchant_endpoint == session.merchant_endpoint
            &&& after.transport == session.transport
        }),
{
}

/// Whoever opened a checkout finds it under the id in the merchant's answer; nobody else does.
pub proof fn law_merchants_id_finds_the_checkout(
    opener: PluginContext,
    pending: PendingView,
    reply: MerchantReply,
    id: Seq<char>,
    session: UcpCheckoutSession,
    plugin: UcpCommercePlugin,
    ctx: PluginContext,
    meta: Option<JsonView>,
    age: u128,
)
    requires
        reply is Answered && reply->status < 400 && has_text(reply->body@, "id"@, id),
        crate::plugin::created_session(opener, pending, reply) == Ok::<SessionView, ErrorView>(
            session@,
        ),
        crate::tables::session_entries(plugin.sessions).contains_key(session@.session_id),
        crate::tables::session_entries(plugin.sessions)[session@.session_id] == session,
        sells(plugin, ctx),
        refers_to(meta, id),
        lacks(meta->0, "ucp/payment_instrument"@),
        age < crate::clock::duration_nanos(plugin.session_ttl),
    ensures
        ({
            let e = plugin.evaluated(ctx, meta, age);
            &&& changes_nothing(plugin, e.sessions, e.profiles)
            &&& if same_caller(opener, ctx) {
                demands(e.step, "UCP checkout session '"@ + id + "' awaiting payment"@, session@)
            } else {
                denies(
                    e.step,
                    404,
                    -33052,
                    "UCP checkout session '"@ + id + "' not found or expired"@,
                )
            }
        }),
{
    law_keys_are_the_callers(opener, ctx);
    assert(session.owner@ == session@.owner);
}

/// A checkout that someone opened is answered as not found to every other caller, whatever they
/// bring, and stays as it is.
pub proof fn law_others_do_not_find_the_checkout(
    opener: PluginContext,
    pending: PendingView,
    reply: MerchantReply,
    session: UcpCheckoutSession,
    plugin: UcpCommercePlugin,
    ctx: PluginContext,
    meta: Option<JsonView>,
    age: u128,
)
    requires
        crate::plugin::created_session(opener, pending, reply) == Ok::<SessionView, ErrorView>(
            session@,
        ),
        crate::tables::session_entries(plugin.sessions).contains_key(session@.session_id),
        crate::tables::session_entries(plugin.sessions)[session@.session_id] == session,
        sells(plugin, ctx),
        refers_to(meta, session@.session_id),
        !same_caller(opener, ctx),
    ensures
        ({
            let e = plugin.evaluated(ctx, meta, age);
            &&& denies(
                e.step,
                404,
                -33052,
                "UCP checkout session '"@ + session@.session_id + "' not found or expired"@,
            )
            &&& changes_nothing(plugin, e.sessions, e.profiles)
        }),
{
    law_keys_are_the_callers(opener, ctx);
    assert(session.owner@ == session@.owner);
}

/// The names that an unsettled status is told by.
pub proof fn law_status_names(status: CheckoutStatus)
    ensures
        crate::plugin::status_name(status) == match status {
            CheckoutStatus::Incomplete => "Incomplete"@,
            CheckoutStatus::RequiresAction => "RequiresAction"@,
            CheckoutStatus::ReadyForComplete => "ReadyForComplete"@,
            CheckoutStatus::CompleteInProgress => "CompleteInProgress"@,
            CheckoutStatus::Completed => "Completed"@,
            CheckoutStatus::Canceled => "Canceled"@,
        },
{
}

/// A completion grants the call if and only if the merchant answered below 400 with the status
/// `completed`. What goes with it is the `order` in that answer, or else the bare id of the checkout,
/// and the checkout is closed. An answer with another status, or none, is taken over as the state of
/// the checkout, which stays open and is demanded again, and a call that failed leaves it as it was.
pub proof fn law_completion_in_full(
    id: Seq<char>,
    session: SessionView,
    reply: MerchantReply,
    order: JsonView,
)
    ensures
        ({
            let decision = crate::plugin::completion(id, session, reply);
            let open = crate::plugin::still_open(session, reply);
            let answer = MerchantCall::CompleteCheckout.answer(reply);
            let body = reply->body@;
            let settled = reply is Answered && reply->status < 400 && has_text(
                body,
                "status"@,
                "completed"@,
            );
            &&& decision is Allow <==> settled
            &&& open is None <==> settled
            &&& settled ==> {
                &&& decision->Allow_metadata is Some
                &&& no_more_than(decision->Allow_metadata->0, set!["ucp/order"@])
                &&& has(body, "order"@, order) ==> has(
                    decision->Allow_metadata->0,
                    "ucp/order"@,
                    order,
                )
                &&& lacks(body, "order"@) ==> {
                    let bare = decision->Allow_metadata->0->Object_0["ucp/order"@];
                    &&& has(decision->Allow_metadata->0, "ucp/order"@, bare)
                    &&& has_text(bare, "checkout_id"@, session.session_id)
                    &&& no_more_than(bare, set!["checkout_id"@])
                }
            }
            &&& !settled && reply is Answered && reply->status < 400 ==> {
                let after = open->0;
                &&& open is Some
                &&& after.last_response == body
                &&& after.status == crate::checkout::reported_status(body)
                &&& after.session_id == session.session_id
                &&& after.owner == session.owner
                &&& after.merchant_url == session.merchant_url
                &&& after.merchant_endpoint == session.merchant_endpoint
                &&& after.transport == session.transport
                &&& challenges(
                    decision,
                    "UCP checkout '"@ + id + "' not settled (status "@
                        + crate::plugin::status_name(after.status) + "); payment not confirmed"@,
                    after,
                )
            }
            &&& !(reply is Answered && reply->status < 400) ==> {
                &&& open == Some(session)
                &&& answer is Err
                &&& challenges(
                    decision,
                    "UCP checkout completion failed: "@ + answer->Err_0.message,
                    session,
                )
            }
        }),
{
    if let MerchantReply::Answered { status, body } = reply {
        match body@.text_member("status"@) {
            Some(s) => {
                law_status_texts(s);
            },
            None => {},
        }
        law_order_in_full(crate::merchant::after_completion(session, body@), order);
    }
}

// ---------------------------------------------------------------------------
// Setting up
// ---------------------------------------------------------------------------

/// A token is used if it is configured and not empty, as it is.
pub proof fn law_token_is_used_as_it_is(config: UcpToolConfig)
    ensures
        match config.auth_token {
            Some(token) => config.bearer() == if token@.len() > 0 {
                Some(token@)
            } else {
                None
            },
            None => config.bearer() is None,
        },
{
}

/// An age is one that was read off the clock since the start.
pub proof fn law_ages_are_read_off_the_clock(start: Instant, age: u128)
    ensures
        crate::clock::can_be_aged(start, age) <==> exists|d: std::time::Duration|
            #[trigger] crate::clock::passed_since(start, d) && crate::clock::duration_nanos(d)
                == age,
{
}

/// A plugin that is set up takes every setting from where it belongs, its lifetimes in milliseconds,
/// and remembers nothing yet.
pub proof fn law_settings_are_the_operators(
    plugin: UcpCommercePlugin,
    config: UcpProtocolConfig,
    tools: ToolTable,
)
    requires
        plugin.is_set_up(config, tools),
    ensures
        plugin.enabled,
        plugin.tool_configs == tools,
        plugin.platform_profile_url@ == config.platform_profile_url@,
        crate::clock::duration_nanos(plugin.session_ttl) == config.session_ttl_ms * 1_000_000,
        crate::clock::duration_nanos(plugin.discovery_cache_ttl) == config.discovery_cache_ttl_ms
            * 1_000_000,
        plugin.default_transport@ == config.default_transport@,
        crate::tables::session_entries(plugin.sessions).dom() == Set::<Seq<char>>::empty(),
        crate::tables::profile_entries(plugin.merchant_profiles).dom() == Set::<Seq<char>>::empty(),
        crate::plugin::manifest_stands(plugin.manifest),
{
}

/// A plugin that is off has no tools, remembers nothing, and keeps an hour for both lifetimes.
pub proof fn law_off_in_full(plugin: UcpCommercePlugin)
    requires
        plugin.is_off(),
    ensures
        !plugin.enabled,
        plugin.tool_configs@.dom() == Set::<Seq<char>>::empty(),
        plugin.platform_profile_url@.len() == 0,
        crate::clock::duration_nanos(plugin.session_ttl) == 3600 * 1_000_000_000,
        crate::clock::duration_nanos(plugin.discovery_cache_ttl) == 3600 * 1_000_000_000,
        plugin.default_transport@ == "rest"@,
        crate::tables::session_entries(plugin.sessions).dom() == Set::<Seq<char>>::empty(),
        crate::tables::profile_entries(plugin.merchant_profiles).dom() == Set::<Seq<char>>::empty(),
        crate::plugin::manifest_stands(plugin.manifest),
{
}

/// The plugin says of itself what it is.
pub proof fn law_manifest_in_full(manifest: crate::host::PluginManifest)
    requires
        crate::plugin::manifest_stands(manifest),
    ensures
        manifest.id@ == "dev.mcpg.payment.ucp"@,
        manifest.version@ == "0.1.0"@,
        manifest.name@ == "Universal Commerce Protocol (UCP)"@,
        manifest.plugin_class == PluginClass::ToolGate,
        manifest.protocol_version@ == "1.0"@,
        manifest.module_path_prefix@ == "mcpg_plugin_payment_ucp"@,
        manifest.license is None && manifest.backend_profile is None,
        manifest.required_capabilities@.len() == 0 && manifest.tags@.len() == 0,
        manifest.provides@.len() == 0 && manifest.provides_schemes@.len() == 0,
{
}

/// A configuration is refused for the tool whose merchant's address is empty, and of several such for
/// the first in the order of names.
pub proof fn law_refused_configuration_in_full(
    tools: Map<Seq<char>, UcpToolConfig>,
    name: Seq<char>,
    other: Seq<char>,
)
    ensures
        crate::config::least_without_merchant(tools, name) ==> {
            &&& tools.contains_key(name)
            &&& tools[name].merchant_url@.len() == 0
            &&& tools.contains_key(other) && tools[other].merchant_url@.len() == 0 && other != name
                ==> crate::text::before(name, other)
            &&& !crate::plugin::all_have_merchants(tools)
        },
        crate::plugin::all_have_merchants(tools) && tools.contains_key(name)
            ==> tools[name].merchant_url@.len() > 0,
        (forall|n: Seq<char>| #[trigger]
            tools.contains_key(n) ==> tools[n].merchant_url@.len() > 0)
            ==> crate::plugin::all_have_merchants(tools),
        crate::plugin::merchant_url_required(name).message
            == "UCP: merchant_url is required for tool '"@ + name + "'"@,
        crate::plugin::merchant_url_required(name).kind == ErrorKind::MissingMerchantUrl,
{
}

} // verus!
