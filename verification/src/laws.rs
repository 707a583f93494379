//! What holds of the plugin as a whole.

use std::time::Instant;

use vstd::prelude::*;

use crate::checkout::{CheckoutStatus, SessionView, UcpCheckoutSession};
use crate::config::{ToolTable, UcpProtocolConfig, UcpToolConfig};
use crate::discovery::{DiscoveryReply, EndpointView, MerchantProfile, UrlView};
use crate::error::ErrorView;
use crate::host::{DecisionView, PluginClass, PluginContext, Principal};
use crate::json::{JsonNumber, JsonView};
use crate::merchant::{MerchantCall, MerchantReply};
use crate::plugin::{PendingView, StepView, UcpCommercePlugin};

verus! {

// ---------------------------------------------------------------------------
// Which calls go through
// ---------------------------------------------------------------------------

/// Everything but a configured tool on the tool surface passes untouched, and the plugin remembers
/// nothing of it.
pub proof fn law_other_calls_pass(
    plugin: UcpCommercePlugin,
    ctx: PluginContext,
    meta: Option<JsonView>,
    age: u128,
)
    requires
        !plugin.enabled || ctx.surface@ != "tool"@ || !plugin.tool_configs@.contains_key(
            ctx.tool_name@,
        ),
    ensures
        plugin.evaluated(ctx, meta, age) == plugin.unchanged(
            StepView::Decided(DecisionView::allow()),
        ),
{
}

/// A plugin that is off lets every call pass.
pub proof fn law_off_allows_every_call(
    plugin: UcpCommercePlugin,
    ctx: PluginContext,
    meta: Option<JsonView>,
    age: u128,
)
    requires
        plugin.is_off(),
    ensures
        plugin.evaluated(ctx, meta, age).step == StepView::Decided(DecisionView::allow()),
{
}

/// A configured tool is never let through at first sight, whatever the call brings along.
pub proof fn law_purchases_are_held(
    plugin: UcpCommercePlugin,
    ctx: PluginContext,
    meta: Option<JsonView>,
    age: u128,
)
    requires
        plugin.gated(ctx),
    ensures
        plugin.evaluated(ctx, meta, age).step matches StepView::Decided(d) ==> !(d is Allow),
{
}

/// Neither finding the merchant nor opening a checkout lets a call through.
pub proof fn law_opening_grants_nothing(
    config: UcpToolConfig,
    profile: MerchantProfile,
    ctx: PluginContext,
    pending: PendingView,
    reply: MerchantReply,
)
    ensures
        crate::plugin::opening(config, profile) matches StepView::Decided(d) ==> !(d is Allow),
        !(crate::plugin::creation(ctx, pending, reply) is Allow),
{
}

/// Settlement is proved, not assumed: completing a checkout lets the call through if and only if
/// the merchant answered without an HTTP error and this answer reports the status `completed`. A
/// missing status does not.
pub proof fn law_only_settlement_grants(id: Seq<char>, session: SessionView, reply: MerchantReply)
    ensures
        crate::plugin::completion(id, session, reply) is Allow <==> (reply
            matches MerchantReply::Answered { status, body } && status < 400
            && body@.text_member("status"@) == Some("completed"@)),
{
    if let MerchantReply::Answered { status, body } = reply {
        match body@.text_member("status"@) {
            Some(s) => {
                law_only_completed_is_settled(s);
            },
            None => {},
        }
    }
}

/// Only the status text `completed` stands for a settled checkout.
pub proof fn law_only_completed_is_settled(s: Seq<char>)
    ensures
        crate::checkout::status_of(s) == CheckoutStatus::Completed <==> s == "completed"@,
{
    reveal_strlit("completed");
    reveal_strlit("requires_action");
    reveal_strlit("ready_for_complete");
    reveal_strlit("ready");
    reveal_strlit("complete_in_progress");
    assert("completed"@.len() == 9);
    assert("requires_action"@.len() == 15);
    assert("ready_for_complete"@.len() == 18);
    assert("ready"@.len() == 5);
    assert("complete_in_progress"@.len() == 20);
}

// ---------------------------------------------------------------------------
// Receipts and what is told of a checkout
// ---------------------------------------------------------------------------

/// A receipt is never made up: what goes with a granted call under `ucp/order` is the order in the
/// merchant's completing answer, or, where that has none, the bare id of the checkout without any
/// status.
pub proof fn law_receipt_is_the_merchants(id: Seq<char>, session: SessionView, reply: MerchantReply)
    requires
        crate::plugin::completion(id, session, reply) is Allow,
    ensures
        reply is Answered,
        crate::plugin::completion(id, session, reply)->Allow_metadata is Some,
        ({
            let body = reply->Answered_body@;
            let order = crate::plugin::completion(
                id,
                session,
                reply,
            )->Allow_metadata->0.member("ucp/order"@);
            match body.member("order"@) {
                Some(merchants) => order == Some(merchants),
                None => {
                    &&& order is Some
                    &&& order->0.text_member("checkout_id"@) == Some(session.session_id)
                    &&& forall|name: Seq<char>|
                        name != "checkout_id"@ ==> #[trigger] order->0.member(name) is None
                    &&& order->0.member("status"@) is None
                },
            }
        }),
{
    reveal_strlit("checkout_id");
    reveal_strlit("status");
    assert("checkout_id"@.len() == 11);
    assert("status"@.len() == 6);
}

/// A client that is to pay is told the merchant's own state of the checkout, and the instruments
/// the merchant offers if it offers any.
pub proof fn law_challenge_tells_the_merchants_state(session: SessionView)
    ensures
        session.challenge_data().member("checkout_session"@) == Some(session.last_response),
        session.challenge_data().member("available_payment_instruments"@) == session.instruments(),
        session.challenge_data().text_member("protocol"@) == Some("ucp"@),
        session.challenge_data().member("httpStatus"@) == Some(
            JsonView::Number(JsonNumber::PosInt(402)),
        ),
{
    reveal_strlit("checkout_session");
    reveal_strlit("available_payment_instruments");
    reveal_strlit("protocol");
    reveal_strlit("httpStatus");
    assert("checkout_session"@.len() == 16);
    assert("available_payment_instruments"@.len() == 29);
    assert("protocol"@.len() == 8);
    assert("httpStatus"@.len() == 10);
}

// ---------------------------------------------------------------------------
// Where credentials go
// ---------------------------------------------------------------------------

/// An endpoint that a tool's settings let be used uses https and lies at the merchant's own origin or
/// at one that the operator allows. With no origins allowed it is the merchant's own.
pub proof fn law_endpoint_is_the_operators_choice(
    endpoint: Seq<char>,
    merchant_url: Seq<char>,
    allowed: Seq<String>,
)
    requires
        crate::discovery::endpoint_allowed(endpoint, merchant_url, allowed) is Ok,
    ensures
        ({
            let origin = crate::discovery::url_origin(endpoint);
            let own = crate::discovery::url_origin(merchant_url);
            &&& "https://"@.is_prefix_of(endpoint)
            &&& origin is Ok
            &&& origin == own || exists|i: int|
                0 <= i < allowed.len() && origin == crate::discovery::url_origin(
                    #[trigger] allowed[i]@,
                )
            &&& allowed.len() == 0 ==> origin == own
        }),
{
    let origin = crate::discovery::url_origin(endpoint);
    let origins = crate::discovery::url_origins(allowed);
    if origin != crate::discovery::url_origin(merchant_url) {
        assert(origins.contains(origin));
        let i = choose|i: int| 0 <= i < origins.len() && origins[i] == origin;
        assert(origin == crate::discovery::url_origin(allowed[i]@));
    }
}

/// Nothing is sent but to endpoints that the settings of the called tool let be used: neither a new
/// checkout, nor the completion of one that was opened before, through whatever tool.
pub proof fn law_requests_go_where_the_tool_allows(
    plugin: UcpCommercePlugin,
    ctx: PluginContext,
    meta: Option<JsonView>,
    age: u128,
)
    ensures
        match plugin.evaluated(ctx, meta, age).step {
            StepView::OpenCheckout(pending) => {
                &&& plugin.gated(ctx)
                &&& tool_allows(plugin.config_of(ctx), pending.transport.endpoint())
            },
            StepView::CompleteCheckout { request, session, .. } => {
                &&& plugin.gated(ctx)
                &&& tool_allows(plugin.config_of(ctx), session@.transport.endpoint())
                &&& request.url == MerchantCall::CompleteCheckout.address(
                    session@.transport.endpoint(),
                )
            },
            _ => true,
        },
{
}

/// Do the tool's settings let the endpoint be used?
pub open spec fn tool_allows(config: UcpToolConfig, endpoint: Seq<char>) -> bool {
    crate::discovery::endpoint_allowed(
        endpoint,
        config.merchant_url@,
        config.allowed_endpoint_origins@,
    ) is Ok
}

/// A profile that came leads to a checkout only where the tool's settings let it.
pub proof fn law_profile_leads_where_the_tool_allows(
    config: UcpToolConfig,
    profile: MerchantProfile,
)
    ensures
        crate::plugin::opening(config, profile) matches StepView::OpenCheckout(pending)
            ==> tool_allows(config, pending.transport.endpoint()),
{
}

/// A checkout whose endpoint the called tool's settings refuse is not completed: nothing is sent,
/// the caller is told why, and the checkout stays as it is.
pub proof fn law_refused_endpoint_is_sent_nothing(
    plugin: UcpCommercePlugin,
    ctx: PluginContext,
    meta: Option<JsonView>,
    id: Seq<char>,
    age: u128,
)
    requires
        plugin.gated(ctx),
        crate::plugin::checkout_ref(meta) == Some(id),
        crate::plugin::payment_instrument(meta) is Some,
        plugin.open_sessions().contains_key(id),
        plugin.open_sessions()[id].owner@ == ctx.principal().key(),
        age < crate::clock::duration_nanos(plugin.session_ttl),
        !tool_allows(plugin.config_of(ctx), plugin.open_sessions()[id]@.transport.endpoint()),
    ensures
        ({
            let config = plugin.config_of(ctx);
            let session = plugin.open_sessions()[id]@;
            let refusal = crate::discovery::endpoint_allowed(
                session.transport.endpoint(),
                config.merchant_url@,
                config.allowed_endpoint_origins@,
            )->Err_0;
            plugin.evaluated(ctx, meta, age) == plugin.unchanged(
                StepView::Decided(crate::plugin::completion_failed(refusal, session)),
            )
        }),
{
}

/// Allowing more origins takes no endpoint away.
pub proof fn law_more_origins_allow_more(
    endpoint: Seq<char>,
    merchant_url: Seq<char>,
    allowed: Seq<String>,
    more: Seq<String>,
)
    requires
        crate::discovery::endpoint_allowed(endpoint, merchant_url, allowed) is Ok,
        forall|s: Seq<char>| #[trigger]
            crate::config::texts(allowed).contains(s) ==> crate::config::texts(more).contains(s),
    ensures
        crate::discovery::endpoint_allowed(endpoint, merchant_url, more) is Ok,
{
    let origin = crate::discovery::url_origin(endpoint);
    let few = crate::discovery::url_origins(allowed);
    let many = crate::discovery::url_origins(more);
    if few.contains(origin) {
        let i = choose|i: int| 0 <= i < few.len() && few[i] == origin;
        let texts = crate::config::texts(more);
        assert(crate::config::texts(allowed)[i] == allowed[i]@);
        assert(crate::config::texts(allowed).contains(allowed[i]@));
        assert(texts.contains(allowed[i]@));
        let j = choose|j: int| 0 <= j < texts.len() && texts[j] == allowed[i]@;
        assert(more[j]@ == allowed[i]@);
        assert(many[j] == origin);
    }
}

/// An origin is its own origin, as far as the parser finds in it the parts that it was made of, the
/// host in small letters.
pub proof fn law_reparsed_origin_is_its_own_origin(url: Seq<char>, origin: Seq<char>)
    ensures
        crate::discovery::url_origin(url) == Ok::<Seq<char>, ErrorView>(origin) ==> {
            let parts = crate::discovery::parsed_url(url)->0;
            &&& crate::discovery::parsed_url(url) is Some
            &&& parts.host is Some
            &&& crate::discovery::parsed_url(origin) == Some(
                UrlView { host: Some(crate::text::lowercase(parts.host->0)), ..parts },
            ) ==> crate::discovery::url_origin(origin) == Ok::<Seq<char>, ErrorView>(origin)
        },
{
    if crate::discovery::url_origin(url) == Ok::<Seq<char>, ErrorView>(origin) {
        let parts = crate::discovery::parsed_url(url)->0;
        law_origin_is_its_own_origin(url, origin, parts, origin);
    }
}

/// An origin is its own origin: a URL with the parts that an origin was made of, the host in small
/// letters, has that origin again, whatever else the URL says.
pub proof fn law_origin_is_its_own_origin(
    url: Seq<char>,
    other: Seq<char>,
    parts: UrlView,
    origin: Seq<char>,
)
    requires
        crate::discovery::origin_of_parts(url, Some(parts)) == Ok::<Seq<char>, ErrorView>(origin),
    ensures
        parts.host is Some,
        crate::discovery::origin_of_parts(
            other,
            Some(UrlView { host: Some(crate::text::lowercase(parts.host->0)), ..parts }),
        ) == Ok::<Seq<char>, ErrorView>(origin),
{
    crate::text::lemma_lowercase_twice(parts.host->0);
}

/// A merchant is asked for a checkout only if its profile offers every capability that the tool
/// requires.
pub proof fn law_required_capabilities_are_offered(config: UcpToolConfig, profile: MerchantProfile)
    requires
        crate::plugin::opening(config, profile) is OpenCheckout,
    ensures
        forall|i: int|
            0 <= i < config.capabilities@.len() ==> profile.capabilities@.member(
                (#[trigger] config.capabilities@[i])@,
            ) is Some,
{
    law_capabilities_are_judged_exactly(profile.capabilities@, config.capabilities@);
}

/// A profile passes if and only if it offers every required capability.
pub proof fn law_capabilities_are_judged_exactly(capabilities: JsonView, required: Seq<String>)
    ensures
        crate::discovery::capability_verdict(capabilities, required) is Ok <==> (forall|i: int|
            0 <= i < required.len() ==> capabilities.member((#[trigger] required[i])@) is Some),
{
    if let JsonView::Object(offered) = capabilities {
        lemma_place_of_missing(offered, required, 0);
        let p = crate::discovery::place_of_missing(offered, required, 0);
        if p < required.len() {
            assert(capabilities.member(required[p]@) is None);
        }
    } else if required.len() > 0 {
        assert(capabilities.member(required[0]@) is None);
    }
}

/// What `place_of_missing` says of the capability it points to and of those before it.
proof fn lemma_place_of_missing(
    offered: Map<Seq<char>, JsonView>,
    required: Seq<String>,
    from: int,
)
    requires
        0 <= from <= required.len(),
    ensures
        ({
            let p = crate::discovery::place_of_missing(offered, required, from);
            &&& from <= p <= required.len()
            &&& p < required.len() ==> !offered.contains_key(required[p]@)
            &&& forall|i: int|
                from <= i < p ==> offered.contains_key((#[trigger] required[i])@)
        }),
    decreases required.len() - from,
{
    if from < required.len() && offered.contains_key(required[from]@) {
        lemma_place_of_missing(offered, required, from + 1);
    }
}

/// A service is used over the tool's transport if the profile lists an entry with it, the first
/// such one, and over its first entry otherwise.
pub proof fn law_preferred_transport_comes_first(entries: Seq<EndpointView>, preferred: Seq<char>)
    ensures
        match crate::discovery::chosen_entry(entries, preferred) {
            Some(entry) => exists|p: int|
                {
                    &&& 0 <= p < entries.len()
                    &&& entry == #[trigger] entries[p]
                    &&& entry.transport == preferred ==> forall|i: int|
                        0 <= i < p ==> (#[trigger] entries[i]).transport != preferred
                    &&& entry.transport != preferred ==> p == 0 && forall|i: int|
                        0 <= i < entries.len() ==> (#[trigger] entries[i]).transport != preferred
                },
            None => entries.len() == 0,
        },
{
    lemma_place_of_transport(entries, preferred, 0);
    let p = crate::discovery::place_of_transport(entries, preferred, 0);
    if p < entries.len() {
        assert(entries[p].transport == preferred);
    } else if entries.len() > 0 {
        assert(entries[0].transport != preferred);
    }
}

/// What `place_of_transport` says of the entry it points to and of those before it.
proof fn lemma_place_of_transport(entries: Seq<EndpointView>, transport: Seq<char>, from: int)
    requires
        0 <= from <= entries.len(),
    ensures
        ({
            let p = crate::discovery::place_of_transport(entries, transport, from);
            &&& from <= p <= entries.len()
            &&& p < entries.len() ==> entries[p].transport == transport
            &&& forall|i: int|
                from <= i < p ==> (#[trigger] entries[i]).transport != transport
        }),
    decreases entries.len() - from,
{
    if from < entries.len() && entries[from].transport != transport {
        lemma_place_of_transport(entries, transport, from + 1);
    }
}

/// A checkout is completed where it was opened, and belongs to the merchant of the tool.
pub proof fn law_completed_where_opened(
    ctx: PluginContext,
    pending: PendingView,
    reply: MerchantReply,
    bearer: Option<Seq<char>>,
    instrument: JsonView,
)
    requires
        crate::plugin::created_session(ctx, pending, reply) is Ok,
    ensures
        ({
            let session = crate::plugin::created_session(ctx, pending, reply)->Ok_0;
            &&& session.merchant_url == pending.merchant_url
            &&& crate::merchant::complete_request(session, bearer, instrument).url
                == MerchantCall::CompleteCheckout.address(pending.transport.endpoint())
        }),
{
}

/// The merchant bearer token goes with every call to the merchant if and only if one is configured
/// that is not empty.
pub proof fn law_token_goes_with_every_call(
    plugin: UcpCommercePlugin,
    ctx: PluginContext,
    meta: Option<JsonView>,
    age: u128,
)
    requires
        plugin.gated(ctx),
    ensures
        ({
            let token = plugin.config_of(ctx).auth_token;
            let sent = if token is Some && token->0@.len() > 0 {
                Some(token->0@)
            } else {
                None
            };
            match plugin.evaluated(ctx, meta, age).step {
                StepView::OpenCheckout(pending) => pending.bearer == sent,
                StepView::CompleteCheckout { request, .. } => request.bearer == sent,
                _ => true,
            }
        }),
{
}

/// Slashes at the end of an endpoint or of a merchant's address make no difference to where a
/// request goes.
pub proof fn law_end_slashes_do_not_count(call: MerchantCall, address: Seq<char>)
    ensures
        call.address(address.push('/')) == call.address(address),
        crate::discovery::profile_address(address.push('/')) == crate::discovery::profile_address(
            address,
        ),
{
    assert(address.push('/').drop_last() =~= address);
}

// ---------------------------------------------------------------------------
// What a merchant is sent
// ---------------------------------------------------------------------------

/// A new checkout names the platform's profile under `meta["ucp-agent"].profile`.
pub proof fn law_platform_profile_is_advertised(
    platform_profile_url: Seq<char>,
    seed: Option<JsonView>,
    arguments: JsonView,
)
    ensures
        ({
            let body = crate::merchant::create_body(platform_profile_url, seed, arguments);
            &&& body.member("meta"@) is Some
            &&& body.member("meta"@)->0.member("ucp-agent"@) is Some
            &&& body.member("meta"@)->0.member("ucp-agent"@)->0.text_member("profile"@) == Some(
                platform_profile_url,
            )
        }),
{
    reveal_strlit("meta");
    reveal_strlit("checkout");
    assert("meta"@.len() == 4);
    assert("checkout"@.len() == 8);
}

/// A new checkout starts from the configured one. Arguments, if there are any, are added as
/// `checkout.tool_arguments`, and nothing else of an object changes.
pub proof fn law_arguments_are_added_to_the_seed(
    platform_profile_url: Seq<char>,
    seed: Option<JsonView>,
    arguments: JsonView,
)
    requires
        crate::merchant::takes_arguments(seed, arguments),
    ensures
        ({
            let checkout = crate::merchant::create_body(
                platform_profile_url,
                seed,
                arguments,
            ).member("checkout"@);
            let start = crate::merchant::seed_or_empty(seed);
            &&& checkout is Some
            &&& if crate::merchant::has_arguments(arguments) {
                &&& checkout->0.member("tool_arguments"@) == Some(arguments)
                &&& forall|name: Seq<char>|
                    name != "tool_arguments"@ ==> #[trigger] checkout->0.member(name)
                        == start.member(name)
            } else {
                checkout->0 == start
            }
        }),
{
}

/// The caller's instrument is forwarded as the one entry of `checkout.payment.instruments`, with
/// the id of the checkout.
pub proof fn law_instrument_is_forwarded(
    session: SessionView,
    bearer: Option<Seq<char>>,
    instrument: JsonView,
)
    ensures
        ({
            let body = crate::merchant::complete_request(session, bearer, instrument).body;
            let payment = body.member("checkout"@)->0.member("payment"@);
            &&& body.text_member("id"@) == Some(session.session_id)
            &&& body.member("checkout"@) is Some
            &&& payment is Some
            &&& payment->0.member("instruments"@) == Some(JsonView::Array(seq![instrument]))
        }),
{
    reveal_strlit("id");
    reveal_strlit("checkout");
    assert("id"@.len() == 2);
    assert("checkout"@.len() == 8);
}

// ---------------------------------------------------------------------------
// Whose a checkout is
// ---------------------------------------------------------------------------

/// Someone else's checkout is answered exactly as one that does not exist, so that its existence is
/// not given away, and it stays as it is.
pub proof fn law_foreign_checkout_is_not_found(
    plugin: UcpCommercePlugin,
    without: UcpCommercePlugin,
    ctx: PluginContext,
    meta: Option<JsonView>,
    id: Seq<char>,
    age: u128,
    other_age: u128,
)
    requires
        plugin.gated(ctx),
        crate::plugin::checkout_ref(meta) == Some(id),
        plugin.open_sessions().contains_key(id),
        plugin.open_sessions()[id].owner@ != ctx.principal().key(),
        without.same_settings(plugin),
        without.open_sessions() == plugin.open_sessions().remove(id),
    ensures
        plugin.evaluated(ctx, meta, age) == plugin.unchanged(
            StepView::Decided(crate::plugin::not_found(id)),
        ),
        without.evaluated(ctx, meta, other_age).step == plugin.evaluated(ctx, meta, age).step,
{
}

/// A checkout belongs to the principal that opened it, who can come back to it: while it lasts, the
/// same principal is told its state, from whatever connection, and can complete it through every
/// tool whose settings let its endpoint be used.
pub proof fn law_owner_can_resume(
    plugin: UcpCommercePlugin,
    opener: PluginContext,
    pending: PendingView,
    reply: MerchantReply,
    session: UcpCheckoutSession,
    ctx: PluginContext,
    meta: Option<JsonView>,
    age: u128,
)
    requires
        crate::plugin::created_session(opener, pending, reply) == Ok::<SessionView, ErrorView>(
            session@,
        ),
        plugin.open_sessions().contains_key(session@.session_id),
        plugin.open_sessions()[session@.session_id] == session,
        plugin.gated(ctx),
        ctx.principal() == opener.principal(),
        crate::plugin::checkout_ref(meta) == Some(session@.session_id),
        age < crate::clock::duration_nanos(plugin.session_ttl),
    ensures
        match crate::plugin::payment_instrument(meta) {
            None => plugin.evaluated(ctx, meta, age) == plugin.unchanged(
                StepView::Decided(crate::plugin::awaiting_payment(session@.session_id, session@)),
            ),
            Some(instrument) => tool_allows(plugin.config_of(ctx), pending.transport.endpoint())
                ==> plugin.evaluated(ctx, meta, age).step == (StepView::CompleteCheckout {
                request: crate::merchant::complete_request(
                    session@,
                    plugin.config_of(ctx).bearer(),
                    instrument,
                ),
                key: session@.session_id,
                session,
            }),
        },
{
    assert(session.owner@ == session@.owner);
}

/// A checkout that a tool opened can be completed through the same tool.
pub proof fn law_opener_can_complete(
    plugin: UcpCommercePlugin,
    profile: MerchantProfile,
    opener: PluginContext,
    pending: PendingView,
    reply: MerchantReply,
    session: UcpCheckoutSession,
    ctx: PluginContext,
    meta: Option<JsonView>,
    age: u128,
)
    requires
        plugin.gated(ctx),
        opener.tool_name@ == ctx.tool_name@,
        crate::plugin::opening(plugin.config_of(opener), profile) == StepView::OpenCheckout(
            pending,
        ),
        crate::plugin::created_session(opener, pending, reply) == Ok::<SessionView, ErrorView>(
            session@,
        ),
        plugin.open_sessions().contains_key(session@.session_id),
        plugin.open_sessions()[session@.session_id] == session,
        ctx.principal() == opener.principal(),
        crate::plugin::checkout_ref(meta) == Some(session@.session_id),
        crate::plugin::payment_instrument(meta) is Some,
        age < crate::clock::duration_nanos(plugin.session_ttl),
    ensures
        plugin.evaluated(ctx, meta, age).step is CompleteCheckout,
{
    law_profile_leads_where_the_tool_allows(plugin.config_of(opener), profile);
    law_owner_can_resume(plugin, opener, pending, reply, session, ctx, meta, age);
}

/// Different principals have different keys, so that none can address the checkouts of another.
pub proof fn law_keys_tell_principals_apart(a: Principal, b: Principal)
    requires
        a.key() == b.key(),
    ensures
        a == b,
{
    reveal_strlit("sub:");
    reveal_strlit("sess:");
    reveal_strlit("|");
    assert("|"@ =~= seq!['|']);
    let k = a.key();
    match a {
        Principal::Subject { subject: s, issuer: i } => match b {
            Principal::Subject { subject: t, issuer: j } => {
                assert(k.skip(4) =~= crate::text::escaped(s) + seq!['|'] + i);
                assert(k.skip(4) =~= crate::text::escaped(t) + seq!['|'] + j);
                crate::text::lemma_escaped_ends_at_bar(s, i, t, j);
            },
            Principal::Connection(_) => {
                assert(k[2] == 'b');
                assert(k[2] == 's');
            },
        },
        Principal::Connection(x) => match b {
            Principal::Subject { .. } => {
                assert(k[2] == 's');
                assert(k[2] == 'b');
            },
            Principal::Connection(y) => {
                assert(k.skip(5) =~= x);
                assert(k.skip(5) =~= y);
            },
        },
    }
}

/// The key of a subject without bars and backslashes is the subject and the issuer, parted by a bar.
pub proof fn law_ordinary_keys_are_plain(subject: Seq<char>, issuer: Seq<char>)
    requires
        forall|i: int|
            0 <= i < subject.len() ==> #[trigger] subject[i] != '|' && subject[i] != '\\',
    ensures
        (Principal::Subject { subject, issuer }).key() == "sub:"@ + subject + "|"@ + issuer,
{
    crate::text::lemma_escaped_plain(subject);
}

/// A session that nobody owns can be addressed by nobody.
pub proof fn law_unowned_checkout_is_not_found(
    plugin: UcpCommercePlugin,
    ctx: PluginContext,
    meta: Option<JsonView>,
    id: Seq<char>,
    age: u128,
)
    requires
        plugin.gated(ctx),
        crate::plugin::checkout_ref(meta) == Some(id),
        plugin.open_sessions().contains_key(id),
        plugin.open_sessions()[id].owner@.len() == 0,
    ensures
        plugin.evaluated(ctx, meta, age) == plugin.unchanged(
            StepView::Decided(crate::plugin::not_found(id)),
        ),
{
    reveal_strlit("sub:");
    reveal_strlit("sess:");
    assert(ctx.principal().key().len() > 0);
}

// ---------------------------------------------------------------------------
// The life of a checkout
// ---------------------------------------------------------------------------

/// Looking at a call takes no checkout away but the one it refers to, and that only from its owner,
/// when it has outlived its time or is about to be completed. It never adds or changes one.
pub proof fn law_checkouts_are_kept(
    plugin: UcpCommercePlugin,
    ctx: PluginContext,
    meta: Option<JsonView>,
    age: u128,
    id: Seq<char>,
)
    ensures
        ({
            let before = plugin.open_sessions();
            let after = plugin.evaluated(ctx, meta, age).sessions;
            let step = plugin.evaluated(ctx, meta, age).step;
            &&& after.contains_key(id) ==> before.contains_key(id) && after[id] == before[id]
            &&& before.contains_key(id) && !after.contains_key(id) ==> {
                &&& plugin.gated(ctx)
                &&& crate::plugin::checkout_ref(meta) == Some(id)
                &&& before[id].owner@ == ctx.principal().key()
                &&& age >= crate::clock::duration_nanos(plugin.session_ttl)
                    || step is CompleteCheckout
            }
        }),
{
}

/// Looking at a call leaves the cached profiles alone.
pub proof fn law_cache_is_left_alone(
    plugin: UcpCommercePlugin,
    ctx: PluginContext,
    meta: Option<JsonView>,
    age: u128,
)
    ensures
        plugin.evaluated(ctx, meta, age).profiles == plugin.cached_profiles(),
{
}

/// A checkout that has outlived its time is refused as gone and dropped; from then on it is not
/// found.
pub proof fn law_expired_checkout_is_dropped(
    plugin: UcpCommercePlugin,
    later: UcpCommercePlugin,
    ctx: PluginContext,
    meta: Option<JsonView>,
    id: Seq<char>,
    age: u128,
    any_age: u128,
)
    requires
        plugin.gated(ctx),
        crate::plugin::checkout_ref(meta) == Some(id),
        plugin.open_sessions().contains_key(id),
        plugin.open_sessions()[id].owner@ == ctx.principal().key(),
        age >= crate::clock::duration_nanos(plugin.session_ttl),
        later.same_settings(plugin),
        later.open_sessions() == plugin.evaluated(ctx, meta, age).sessions,
    ensures
        plugin.evaluated(ctx, meta, age).step == StepView::Decided(crate::plugin::gone(id)),
        later.open_sessions() == plugin.open_sessions().remove(id),
        later.evaluated(ctx, meta, any_age).step == StepView::Decided(
            crate::plugin::not_found(id),
        ),
{
}

/// A completion that fails undoes nothing and loses nothing: put back, the checkout is as it was
/// before the call, and so are all the others.
pub proof fn law_failed_completion_changes_nothing(
    plugin: UcpCommercePlugin,
    ctx: PluginContext,
    meta: Option<JsonView>,
    age: u128,
    reply: MerchantReply,
)
    requires
        plugin.evaluated(ctx, meta, age).step is CompleteCheckout,
        MerchantCall::CompleteCheckout.answer(reply) is Err,
    ensures
        ({
            let e = plugin.evaluated(ctx, meta, age);
            let key = e.step->CompleteCheckout_key;
            let session = e.step->CompleteCheckout_session;
            &&& crate::plugin::still_open(session@, reply) == Some(session@)
            &&& e.sessions.insert(key, session) == plugin.open_sessions()
            &&& crate::plugin::completion(key, session@, reply) is Challenge
        }),
{
    let e = plugin.evaluated(ctx, meta, age);
    let key = e.step->CompleteCheckout_key;
    let session = e.step->CompleteCheckout_session;
    assert(e.sessions.insert(key, session) =~= plugin.open_sessions());
}

/// A checkout is closed by exactly the completion that grants its call. Until then it stays open
/// under its id, with its owner and its endpoint.
pub proof fn law_closed_when_granted(id: Seq<char>, session: SessionView, reply: MerchantReply)
    ensures
        crate::plugin::completion(id, session, reply) is Allow
            <==> crate::plugin::still_open(session, reply) is None,
        crate::plugin::still_open(session, reply) matches Some(after) ==> {
            &&& crate::plugin::completion(id, session, reply) is Challenge
            &&& after.session_id == session.session_id
            &&& after.owner == session.owner
            &&& after.transport == session.transport
            &&& after.merchant_url == session.merchant_url
        },
{
}

/// A settled checkout grants exactly one call: once its completion has let a call through, the plugin
/// no longer has it, and whoever refers to it again is told that it is not found.
pub proof fn law_settled_checkout_grants_once(
    plugin: UcpCommercePlugin,
    ctx: PluginContext,
    meta: Option<JsonView>,
    age: u128,
    reply: MerchantReply,
    later: UcpCommercePlugin,
    again: PluginContext,
    again_meta: Option<JsonView>,
    any_age: u128,
)
    requires
        plugin.evaluated(ctx, meta, age).step is CompleteCheckout,
        ({
            let step = plugin.evaluated(ctx, meta, age).step;
            crate::plugin::completion(
                step->CompleteCheckout_key,
                step->CompleteCheckout_session@,
                reply,
            ) is Allow
        }),
        later.same_settings(plugin),
        later.open_sessions() == plugin.evaluated(ctx, meta, age).sessions,
        later.gated(again),
        crate::plugin::checkout_ref(again_meta) == crate::plugin::checkout_ref(meta),
    ensures
        ({
            let step = plugin.evaluated(ctx, meta, age).step;
            let key = step->CompleteCheckout_key;
            &&& crate::plugin::still_open(step->CompleteCheckout_session@, reply) is None
            &&& !later.open_sessions().contains_key(key)
            &&& later.evaluated(again, again_meta, any_age) == later.unchanged(
                StepView::Decided(crate::plugin::not_found(key)),
            )
        }),
{
}

/// Every open checkout is remembered under its own id.
pub open spec fn filed_by_id(sessions: Map<Seq<char>, UcpCheckoutSession>) -> bool {
    forall|id: Seq<char>| #[trigger]
        sessions.contains_key(id) ==> sessions[id]@.session_id == id
}

/// Looking at a call keeps every checkout under its own id, and hands one over to be completed
/// under that id.
pub proof fn law_looking_keeps_ids(
    plugin: UcpCommercePlugin,
    ctx: PluginContext,
    meta: Option<JsonView>,
    age: u128,
)
    requires
        filed_by_id(plugin.open_sessions()),
    ensures
        filed_by_id(plugin.evaluated(ctx, meta, age).sessions),
        plugin.evaluated(ctx, meta, age).step matches StepView::CompleteCheckout {
            key,
            session,
            ..
        } ==> session@.session_id == key,
{
}

/// Opening a checkout files it under its own id.
pub proof fn law_opening_files_by_id(
    sessions: Map<Seq<char>, UcpCheckoutSession>,
    ctx: PluginContext,
    pending: PendingView,
    reply: MerchantReply,
    session: UcpCheckoutSession,
)
    requires
        filed_by_id(sessions),
        crate::plugin::created_session(ctx, pending, reply) == Ok::<SessionView, ErrorView>(
            session@,
        ),
    ensures
        filed_by_id(sessions.insert(session@.session_id, session)),
{
}

/// Putting back a checkout that was not settled files it under its own id.
pub proof fn law_unsettled_is_filed_by_id(
    sessions: Map<Seq<char>, UcpCheckoutSession>,
    key: Seq<char>,
    held: SessionView,
    reply: MerchantReply,
    session: UcpCheckoutSession,
)
    requires
        filed_by_id(sessions),
        held.session_id == key,
        crate::plugin::still_open(held, reply) == Some(session@),
    ensures
        filed_by_id(sessions.insert(key, session)),
{
}

// ---------------------------------------------------------------------------
// Discovery
// ---------------------------------------------------------------------------

/// A profile that came is kept for the calls to come, with its lifetime running from the moment it
/// came, and the profiles of other merchants stay. Where none came, nothing changes: what was kept
/// before is neither renewed nor dropped.
pub proof fn law_fetched_profile_is_kept_from_now(
    plugin: UcpCommercePlugin,
    ctx: PluginContext,
    reply: DiscoveryReply,
    now: Instant,
    merchant: Seq<char>,
)
    requires
        plugin.gated(ctx),
    ensures
        ({
            let before = plugin.cached_profiles();
            let after = plugin.fetched(ctx, reply, now).profiles;
            match crate::discovery::discovered(reply) {
                Ok(profile) => if merchant == plugin.config_of(ctx).merchant_url@ {
                    &&& after.contains_key(merchant)
                    &&& after[merchant].profile == profile
                    &&& after[merchant].fetched_at == now
                    &&& after[merchant].ttl == plugin.discovery_cache_ttl
                } else {
                    &&& after.contains_key(merchant) == before.contains_key(merchant)
                    &&& before.contains_key(merchant) ==> after[merchant] == before[merchant]
                },
                Err(_) => after == before,
            }
        }),
{
}

/// A fetched profile is reused while it lasts: a later call of the same tool comes to the same step
/// as the call that fetched it, without asking the merchant again. Once it has outlived its time,
/// the merchant is asked again.
pub proof fn law_profile_is_reused_while_it_lasts(
    plugin: UcpCommercePlugin,
    ctx: PluginContext,
    reply: DiscoveryReply,
    now: Instant,
    later: UcpCommercePlugin,
    meta: Option<JsonView>,
    age: u128,
)
    requires
        plugin.gated(ctx),
        crate::discovery::discovered(reply) is Ok,
        later.same_settings(plugin),
        later.cached_profiles() == plugin.fetched(ctx, reply, now).profiles,
        crate::plugin::checkout_ref(meta) is None,
    ensures
        later.evaluated(ctx, meta, age).step == if age < crate::clock::duration_nanos(
            plugin.discovery_cache_ttl,
        ) {
            plugin.fetched(ctx, reply, now).step
        } else {
            StepView::FetchProfile(
                crate::discovery::profile_address(plugin.config_of(ctx).merchant_url@),
            )
        },
{
}

// ---------------------------------------------------------------------------
// Answers
// ---------------------------------------------------------------------------

/// Is the code in the range that MCP reserves for itself?
pub open spec fn reserved_code(code: i32) -> bool {
    -32099 <= code <= -32000
}

/// An answer is fit to be sent: a demand for payment is a 402 with the code -33050, a checkout that
/// could not be opened a 500 with -33051, one that is missing or expired a 404 or 410 with -33052, and
/// no code is one that MCP reserves.
pub open spec fn well_formed_answer(d: DecisionView) -> bool {
    match d {
        DecisionView::Allow { .. } => true,
        DecisionView::Deny { http_status, code, .. } => {
            &&& (http_status == 500 && code == -33051) || ((http_status == 404 || http_status
                == 410) && code == -33052)
            &&& !reserved_code(code)
        },
        DecisionView::Challenge { http_status, code, .. } => {
            &&& http_status == 402
            &&& code == -33050
            &&& !reserved_code(code)
        },
    }
}

/// Every answer is fit to be sent.
pub proof fn law_answers_are_well_formed(
    plugin: UcpCommercePlugin,
    ctx: PluginContext,
    meta: Option<JsonView>,
    age: u128,
    config: UcpToolConfig,
    profile: MerchantProfile,
    pending: PendingView,
    id: Seq<char>,
    session: SessionView,
    reply: MerchantReply,
)
    ensures
        plugin.evaluated(ctx, meta, age).step matches StepView::Decided(d) ==> well_formed_answer(
            d,
        ),
        crate::plugin::opening(config, profile) matches StepView::Decided(d) ==> well_formed_answer(
            d,
        ),
        well_formed_answer(crate::plugin::creation(ctx, pending, reply)),
        well_formed_answer(crate::plugin::completion(id, session, reply)),
{
}

// ---------------------------------------------------------------------------
// Configuration
// ---------------------------------------------------------------------------

/// Every plugin, on or off, goes by the same id and class.
pub proof fn law_manifest_names_the_plugin(
    plugin: UcpCommercePlugin,
    config: UcpProtocolConfig,
    tools: ToolTable,
)
    requires
        plugin.is_off() || plugin.is_set_up(config, tools),
    ensures
        plugin.manifest.id@ == "dev.mcpg.payment.ucp"@,
        plugin.manifest.plugin_class == PluginClass::ToolGate,
{
}

/// The tool that a refused configuration is blamed on is the only one it can be.
pub proof fn law_one_tool_is_blamed(
    tools: Map<Seq<char>, UcpToolConfig>,
    a: Seq<char>,
    b: Seq<char>,
)
    requires
        crate::config::least_without_merchant(tools, a),
        crate::config::least_without_merchant(tools, b),
    ensures
        a == b,
{
    if a != b {
        assert(crate::text::before(a, b));
        assert(crate::text::before(b, a));
        crate::text::lemma_before_transitive(a, b, a);
        crate::text::lemma_before_irreflexive(a);
    }
}

} // verus!
