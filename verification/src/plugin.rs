//! The commerce plugin: it lets a purchasing tool through once the merchant has been paid.
//!
//! A call is answered in steps. [`UcpCommercePlugin::evaluate_pre`] says what to do first: answer,
//! fetch the merchant's profile, open a checkout or complete one. What came of it is handed to
//! [`UcpCommercePlugin::profile_fetched`], [`UcpCommercePlugin::checkout_created`] or
//! [`UcpCommercePlugin::checkout_completed`], which say what follows.

use std::time::{Duration, Instant};

use dashmap::DashMap;
use vstd::prelude::*;

use crate::checkout::{
    CheckoutStatus,
    SessionTransport,
    SessionView,
    TransportView,
    UcpCheckoutSession,
};
use crate::clock::age_of;
use crate::config::{default_transport, ToolTable, UcpProtocolConfig, UcpToolConfig};
use crate::discovery::{
    approve_endpoint,
    create_cache_entry_at,
    enforce_endpoint_origin,
    merchant_profile_url,
    read_merchant_profile,
    CachedMerchantProfile,
    DiscoveryReply,
    MerchantProfile,
    ResolvedTransport,
};
use crate::error::{ErrorKind, ErrorView, UcpError};
use crate::host::{
    checkout_owner_key,
    DecisionView,
    GateDecision,
    PaymentCapability,
    PaymentCategory,
    PaymentProtocol,
    PluginClass,
    PluginContext,
    PluginManifest,
};
use crate::json::{Json, JsonView};
use crate::merchant::{
    build_complete_request,
    build_create_checkout_body,
    complete_checkout,
    MerchantCall,
    MerchantReply,
    MerchantRequest,
    RequestView,
};
use crate::tables::{
    new_profiles,
    new_sessions,
    put_profile,
    put_session,
    take_profile,
    take_session,
};
use crate::text::{join2, join3, same};

verus! {

// Payment codes live outside the MCP-reserved JSON-RPC range (-32000..-32099) to avoid collision
// with future assignments.
/// JSON-RPC error code for UCP checkout required.
pub const UCP_CHECKOUT_REQUIRED_CODE: i32 = -33050;

/// JSON-RPC error code for UCP checkout creation failure.
pub const UCP_CHECKOUT_CREATE_FAILED_CODE: i32 = -33051;

/// JSON-RPC error code for UCP checkout completion failure.
pub const UCP_CHECKOUT_COMPLETE_FAILED_CODE: i32 = -33052;

/// UCP Commerce Plugin.
///
/// Manages checkout sessions with UCP-compatible merchants, handling discovery, session lifecycle,
/// and payment coordination.
pub struct UcpCommercePlugin {
    pub manifest: PluginManifest,
    pub enabled: bool,
    /// Tools configured for UCP commerce, by tool name.
    pub tool_configs: ToolTable,
    /// Active checkout sessions. Key: session_id.
    pub sessions: DashMap<String, UcpCheckoutSession>,
    /// Cached merchant discovery profiles. Key: merchant base URL.
    pub merchant_profiles: DashMap<String, CachedMerchantProfile>,
    /// Platform profile URL.
    pub platform_profile_url: String,
    /// Session TTL.
    pub session_ttl: Duration,
    /// Discovery cache TTL.
    pub discovery_cache_ttl: Duration,
    /// Default preferred transport. Endpoint resolution goes by the transport of the tool.
    pub default_transport: String,
}

/// A checkout that is about to be opened at an endpoint that the operator allows.
#[derive(Debug)]
pub struct PendingCheckout {
    pub merchant_url: String,
    pub transport: ResolvedTransport,
    /// The merchant bearer token, if there is one.
    pub bearer: Option<String>,
    /// The checkout that the operator configured to start from.
    pub seed: Option<Json>,
}

/// What a pending checkout says.
#[verifier::ext_equal]
pub struct PendingView {
    pub merchant_url: Seq<char>,
    pub transport: TransportView,
    pub bearer: Option<Seq<char>>,
    pub seed: Option<JsonView>,
}

impl View for PendingCheckout {
    type V = PendingView;

    open spec fn view(&self) -> PendingView {
        PendingView {
            merchant_url: self.merchant_url@,
            transport: self.transport@,
            bearer: crate::merchant::optional_string(self.bearer),
            seed: crate::host::optional_json(self.seed),
        }
    }
}

/// A checkout that is taken out of the plugin's memory while it is being completed.
#[derive(Debug)]
pub struct HeldCheckout {
    /// The id under which the client knows the checkout.
    pub key: String,
    pub session: UcpCheckoutSession,
}

/// What there is to be done next for a call.
#[derive(Debug)]
pub enum GateStep {
    /// Nothing: the answer is there.
    Decided(GateDecision),
    /// Fetch the merchant's profile from the address.
    FetchProfile { url: String },
    /// Open the checkout at the merchant.
    OpenCheckout(PendingCheckout),
    /// Complete the checkout at the merchant.
    CompleteCheckout { request: MerchantRequest, checkout: HeldCheckout },
}

/// What a step says.
#[verifier::ext_equal]
pub enum StepView {
    Decided(DecisionView),
    FetchProfile(Seq<char>),
    OpenCheckout(PendingView),
    CompleteCheckout { request: RequestView, key: Seq<char>, session: UcpCheckoutSession },
}

impl View for GateStep {
    type V = StepView;

    open spec fn view(&self) -> StepView {
        match self {
            GateStep::Decided(decision) => StepView::Decided(decision@),
            GateStep::FetchProfile { url } => StepView::FetchProfile(url@),
            GateStep::OpenCheckout(pending) => StepView::OpenCheckout(pending@),
            GateStep::CompleteCheckout { request, checkout } => StepView::CompleteCheckout {
                request: request@,
                key: checkout.key@,
                session: checkout.session,
            },
        }
    }
}

// ---------------------------------------------------------------------------
// Answers
// ---------------------------------------------------------------------------

/// The name of a status.
pub open spec fn status_name(status: CheckoutStatus) -> Seq<char> {
    match status {
        CheckoutStatus::Incomplete => "Incomplete"@,
        CheckoutStatus::RequiresAction => "RequiresAction"@,
        CheckoutStatus::ReadyForComplete => "ReadyForComplete"@,
        CheckoutStatus::CompleteInProgress => "CompleteInProgress"@,
        CheckoutStatus::Completed => "Completed"@,
        CheckoutStatus::Canceled => "Canceled"@,
    }
}

/// The name of a status.
fn status_text(status: CheckoutStatus) -> (r: &'static str)
    ensures
        r@ == status_name(status),
{
    match status {
        CheckoutStatus::Incomplete => "Incomplete",
        CheckoutStatus::RequiresAction => "RequiresAction",
        CheckoutStatus::ReadyForComplete => "ReadyForComplete",
        CheckoutStatus::CompleteInProgress => "CompleteInProgress",
        CheckoutStatus::Completed => "Completed",
        CheckoutStatus::Canceled => "Canceled",
    }
}

/// A refusal.
pub open spec fn denial(http_status: u16, code: i32, message: Seq<char>) -> DecisionView {
    DecisionView::Deny { http_status, code, message, error_data: None }
}

/// A demand for payment, with the state of the checkout.
pub open spec fn payment_demand(message: Seq<char>, session: SessionView) -> DecisionView {
    DecisionView::Challenge {
        http_status: 402,
        code: UCP_CHECKOUT_REQUIRED_CODE,
        message,
        challenge_data: session.challenge_data(),
    }
}

/// There is no such checkout, or not for this caller.
pub open spec fn not_found(id: Seq<char>) -> DecisionView {
    denial(
        404,
        UCP_CHECKOUT_COMPLETE_FAILED_CODE,
        "UCP checkout session '"@ + id + "' not found or expired"@,
    )
}

/// The checkout has outlived its time.
pub open spec fn gone(id: Seq<char>) -> DecisionView {
    denial(
        410,
        UCP_CHECKOUT_COMPLETE_FAILED_CODE,
        "UCP checkout session '"@ + id + "' expired"@,
    )
}

/// No checkout could be opened.
pub open spec fn creation_failed(e: ErrorView) -> DecisionView {
    denial(
        500,
        UCP_CHECKOUT_CREATE_FAILED_CODE,
        "UCP checkout creation failed: "@ + e.message,
    )
}

/// A checkout has been opened and is to be paid.
pub open spec fn checkout_required(tool: Seq<char>, session: SessionView) -> DecisionView {
    payment_demand("UCP checkout required for tool '"@ + tool + "'"@, session)
}

/// The checkout is still to be paid.
pub open spec fn awaiting_payment(id: Seq<char>, session: SessionView) -> DecisionView {
    payment_demand("UCP checkout session '"@ + id + "' awaiting payment"@, session)
}

/// The merchant did not report the checkout completed.
pub open spec fn not_settled(id: Seq<char>, session: SessionView) -> DecisionView {
    payment_demand(
        "UCP checkout '"@ + id + "' not settled (status "@ + status_name(session.status)
            + "); payment not confirmed"@,
        session,
    )
}

/// The checkout could not be completed; the caller may try again.
pub open spec fn completion_failed(e: ErrorView, session: SessionView) -> DecisionView {
    payment_demand("UCP checkout completion failed: "@ + e.message, session)
}

fn deny(http_status: u16, code: i32, message: String) -> (r: GateDecision)
    ensures
        r@ == denial(http_status, code, message@),
{
    GateDecision::Deny { http_status, code, message, error_data: None }
}

fn demand_payment(message: String, session: &UcpCheckoutSession) -> (r: GateDecision)
    ensures
        r@ == payment_demand(message@, session@),
{
    GateDecision::Challenge {
        http_status: 402,
        code: UCP_CHECKOUT_REQUIRED_CODE,
        message,
        challenge_data: session.build_challenge_data(),
    }
}

fn deny_not_found(id: &str) -> (r: GateDecision)
    ensures
        r@ == not_found(id@),
{
    deny(
        404,
        UCP_CHECKOUT_COMPLETE_FAILED_CODE,
        join3("UCP checkout session '", id, "' not found or expired"),
    )
}

fn deny_creation(e: &UcpError) -> (r: GateDecision)
    ensures
        r@ == creation_failed(e@),
{
    deny(
        500,
        UCP_CHECKOUT_CREATE_FAILED_CODE,
        join2("UCP checkout creation failed: ", e.message.as_str()),
    )
}

// ---------------------------------------------------------------------------
// The rules of the plugin
// ---------------------------------------------------------------------------

/// The checkout that a call refers to.
pub open spec fn checkout_ref(meta: Option<JsonView>) -> Option<Seq<char>> {
    match meta {
        Some(m) => m.text_member("ucp/checkout_session"@),
        None => None,
    }
}

/// The payment instrument that a call brings.
pub open spec fn payment_instrument(meta: Option<JsonView>) -> Option<JsonView> {
    match meta {
        Some(m) => m.member("ucp/payment_instrument"@),
        None => None,
    }
}

/// The step after a merchant's profile is known: open a checkout at the endpoint, if it passes.
pub open spec fn opening(config: UcpToolConfig, profile: MerchantProfile) -> StepView {
    match crate::discovery::approved_endpoint(config, profile) {
        Ok(transport) => StepView::OpenCheckout(
            PendingView {
                merchant_url: config.merchant_url@,
                transport,
                bearer: config.bearer(),
                seed: crate::host::optional_json(config.default_checkout_args),
            },
        ),
        Err(e) => StepView::Decided(creation_failed(e)),
    }
}

/// The step for a call that brings an instrument for its own checkout, given whether the tool's
/// settings let the checkout's endpoint be used. Where they do not, nothing is sent.
pub open spec fn completing(
    id: Seq<char>,
    session: UcpCheckoutSession,
    bearer: Option<Seq<char>>,
    instrument: JsonView,
    verdict: Result<(), ErrorView>,
) -> StepView {
    match verdict {
        Ok(_) => StepView::CompleteCheckout {
            request: crate::merchant::complete_request(session@, bearer, instrument),
            key: id,
            session,
        },
        Err(e) => StepView::Decided(completion_failed(e, session@)),
    }
}

/// The session that a reply to a new checkout opens, or why it opens none. Nobody owns it yet.
pub open spec fn opened_session(pending: PendingView, reply: MerchantReply) -> Result<
    SessionView,
    ErrorView,
> {
    match MerchantCall::CreateCheckout.answer(reply) {
        Err(e) => Err(e),
        Ok(body) => match crate::checkout::opened(
            body,
            pending.merchant_url,
            pending.transport.endpoint(),
            pending.transport,
        ) {
            Some(session) => Ok(session),
            None => Err(
                ErrorView {
                    kind: ErrorKind::MissingSessionId,
                    message: "UCP merchant response missing session ID"@,
                },
            ),
        },
    }
}

/// The session that a reply to a new checkout opens for a caller.
pub open spec fn created_session(
    ctx: PluginContext,
    pending: PendingView,
    reply: MerchantReply,
) -> Result<SessionView, ErrorView> {
    match opened_session(pending, reply) {
        Err(e) => Err(e),
        Ok(session) => Ok(SessionView { owner: ctx.principal().key(), ..session }),
    }
}

/// The answer once a checkout was to be opened.
pub open spec fn creation(
    ctx: PluginContext,
    pending: PendingView,
    reply: MerchantReply,
) -> DecisionView {
    match created_session(ctx, pending, reply) {
        Ok(session) => checkout_required(ctx.tool_name@, session),
        Err(e) => creation_failed(e),
    }
}

/// The answer once a checkout was to be completed: the call goes through if the merchant reports
/// the checkout completed.
pub open spec fn completion(
    id: Seq<char>,
    session: SessionView,
    reply: MerchantReply,
) -> DecisionView {
    match MerchantCall::CompleteCheckout.answer(reply) {
        Ok(body) => {
            let after = crate::merchant::after_completion(session, body);
            if after.status == CheckoutStatus::Completed {
                DecisionView::Allow { metadata: Some(after.order_meta()) }
            } else {
                not_settled(id, after)
            }
        },
        Err(e) => completion_failed(e, session),
    }
}

/// What stays open of a checkout that was to be completed: nothing, if the merchant reports it
/// completed.
pub open spec fn still_open(session: SessionView, reply: MerchantReply) -> Option<SessionView> {
    match MerchantCall::CompleteCheckout.answer(reply) {
        Ok(body) => {
            let after = crate::merchant::after_completion(session, body);
            if after.status == CheckoutStatus::Completed {
                None
            } else {
                Some(after)
            }
        },
        Err(e) => Some(session),
    }
}

/// What comes of looking at a call: the next step, and what the plugin remembers from then on.
#[verifier::ext_equal]
pub struct Evaluation {
    pub step: StepView,
    pub sessions: Map<Seq<char>, UcpCheckoutSession>,
    pub profiles: Map<Seq<char>, CachedMerchantProfile>,
}

impl UcpCommercePlugin {
    /// The open checkouts, by id.
    pub open spec fn open_sessions(self) -> Map<Seq<char>, UcpCheckoutSession> {
        crate::tables::session_entries(self.sessions)
    }

    /// The cached profiles, by merchant.
    pub open spec fn cached_profiles(self) -> Map<Seq<char>, CachedMerchantProfile> {
        crate::tables::profile_entries(self.merchant_profiles)
    }

    /// The two plugins are set up alike; what they remember is of no account.
    pub open spec fn same_settings(self, other: UcpCommercePlugin) -> bool {
        &&& self.manifest == other.manifest
        &&& self.enabled == other.enabled
        &&& self.tool_configs == other.tool_configs
        &&& self.platform_profile_url == other.platform_profile_url
        &&& self.session_ttl == other.session_ttl
        &&& self.discovery_cache_ttl == other.discovery_cache_ttl
        &&& self.default_transport == other.default_transport
    }

    /// Is the call behind checkout? Only tool calls are, and only of configured tools.
    pub open spec fn gated(self, ctx: PluginContext) -> bool {
        &&& self.enabled
        &&& ctx.surface@ == "tool"@
        &&& self.tool_configs@.contains_key(ctx.tool_name@)
    }

    /// The configuration of the tool that is called.
    pub open spec fn config_of(self, ctx: PluginContext) -> UcpToolConfig
        recommends
            self.gated(ctx),
    {
        self.tool_configs@[ctx.tool_name@]
    }

    /// The evaluation that comes to `step` and leaves everything as it is.
    pub open spec fn unchanged(self, step: StepView) -> Evaluation {
        Evaluation { step, sessions: self.open_sessions(), profiles: self.cached_profiles() }
    }

    /// A gated call without a checkout opens one, with the merchant's profile out of the cache if
    /// it is there and `age` nanoseconds do not make it too old.
    pub open spec fn discovering(self, config: UcpToolConfig, age: u128) -> StepView {
        let merchant = config.merchant_url@;
        if self.cached_profiles().contains_key(merchant) && age < crate::clock::duration_nanos(
            self.cached_profiles()[merchant].ttl,
        ) {
            opening(config, self.cached_profiles()[merchant].profile)
        } else {
            StepView::FetchProfile(crate::discovery::profile_address(merchant))
        }
    }

    /// A gated call that refers to a checkout: it has to be the caller's own, and `age` nanoseconds
    /// must not make it too old. With a payment instrument it is completed, if the settings of the
    /// tool that is called let its endpoint be used.
    pub open spec fn resuming(
        self,
        ctx: PluginContext,
        id: Seq<char>,
        instrument: Option<JsonView>,
        age: u128,
    ) -> Evaluation {
        if !self.open_sessions().contains_key(id) {
            self.unchanged(StepView::Decided(not_found(id)))
        } else {
            let session = self.open_sessions()[id];
            if session.owner@ != ctx.principal().key() {
                self.unchanged(StepView::Decided(not_found(id)))
            } else if age >= crate::clock::duration_nanos(self.session_ttl) {
                Evaluation {
                    step: StepView::Decided(gone(id)),
                    sessions: self.open_sessions().remove(id),
                    profiles: self.cached_profiles(),
                }
            } else {
                match instrument {
                    Some(instrument) => {
                        let config = self.config_of(ctx);
                        let step = completing(
                            id,
                            session,
                            config.bearer(),
                            instrument,
                            crate::discovery::endpoint_allowed(
                                session@.transport.endpoint(),
                                config.merchant_url@,
                                config.allowed_endpoint_origins@,
                            ),
                        );
                        if step is CompleteCheckout {
                            Evaluation {
                                step,
                                sessions: self.open_sessions().remove(id),
                                profiles: self.cached_profiles(),
                            }
                        } else {
                            self.unchanged(step)
                        }
                    },
                    None => self.unchanged(StepView::Decided(awaiting_payment(id, session@))),
                }
            }
        }
    }

    /// What comes of looking at a call, when the checkout that it refers to, or else the cached
    /// profile of its merchant, is `age` nanoseconds old.
    pub open spec fn evaluated(
        self,
        ctx: PluginContext,
        meta: Option<JsonView>,
        age: u128,
    ) -> Evaluation {
        if !self.gated(ctx) {
            self.unchanged(StepView::Decided(DecisionView::allow()))
        } else {
            match checkout_ref(meta) {
                None => self.unchanged(self.discovering(self.config_of(ctx), age)),
                Some(id) => self.resuming(ctx, id, payment_instrument(meta), age),
            }
        }
    }

    /// What comes of a reply to asking for the profile of a call's merchant: the next step, and a
    /// profile that came is kept, with its lifetime running from `now`.
    pub open spec fn fetched(
        self,
        ctx: PluginContext,
        reply: DiscoveryReply,
        now: Instant,
    ) -> Evaluation {
        if !self.gated(ctx) {
            self.unchanged(StepView::Decided(DecisionView::allow()))
        } else {
            match crate::discovery::discovered(reply) {
                Ok(profile) => Evaluation {
                    step: opening(self.config_of(ctx), profile),
                    sessions: self.open_sessions(),
                    profiles: self.cached_profiles().insert(
                        self.config_of(ctx).merchant_url@,
                        CachedMerchantProfile {
                            profile,
                            fetched_at: now,
                            ttl: self.discovery_cache_ttl,
                        },
                    ),
                },
                Err(e) => self.unchanged(StepView::Decided(creation_failed(e))),
            }
        }
    }

    /// Can what decides about the call be `age` nanoseconds old: the checkout that it refers to, or
    /// else the cached profile of its merchant?
    pub open spec fn can_be_aged(
        self,
        ctx: PluginContext,
        meta: Option<JsonView>,
        age: u128,
    ) -> bool {
        self.gated(ctx) ==> match checkout_ref(meta) {
            Some(id) => self.open_sessions().contains_key(id) ==> crate::clock::can_be_aged(
                self.open_sessions()[id].created_at,
                age,
            ),
            None => {
                let merchant = self.config_of(ctx).merchant_url@;
                self.cached_profiles().contains_key(merchant) ==> crate::clock::can_be_aged(
                    self.cached_profiles()[merchant].fetched_at,
                    age,
                )
            },
        }
    }

    /// The plugin is off: it has no tools and remembers nothing.
    pub open spec fn is_off(self) -> bool {
        &&& !self.enabled
        &&& self.tool_configs@ == Map::<Seq<char>, UcpToolConfig>::empty()
        &&& self.open_sessions() == Map::<Seq<char>, UcpCheckoutSession>::empty()
        &&& self.cached_profiles() == Map::<Seq<char>, CachedMerchantProfile>::empty()
        &&& self.platform_profile_url@ == Seq::<char>::empty()
        &&& crate::clock::duration_nanos(self.session_ttl) == 3_600_000_000_000
        &&& crate::clock::duration_nanos(self.discovery_cache_ttl) == 3_600_000_000_000
        &&& self.default_transport@ == "rest"@
        &&& manifest_stands(self.manifest)
    }

    /// The plugin is on, as configured, and remembers nothing yet.
    pub open spec fn is_set_up(self, config: UcpProtocolConfig, tools: ToolTable) -> bool {
        &&& self.enabled
        &&& self.tool_configs == tools
        &&& self.open_sessions() == Map::<Seq<char>, UcpCheckoutSession>::empty()
        &&& self.cached_profiles() == Map::<Seq<char>, CachedMerchantProfile>::empty()
        &&& self.platform_profile_url@ == config.platform_profile_url@
        &&& crate::clock::duration_nanos(self.session_ttl) == config.session_ttl_ms * 1_000_000
        &&& crate::clock::duration_nanos(self.discovery_cache_ttl) == config.discovery_cache_ttl_ms
            * 1_000_000
        &&& self.default_transport@ == config.default_transport@
        &&& manifest_stands(self.manifest)
    }
}

/// What the plugin says of itself.
pub open spec fn manifest_stands(m: PluginManifest) -> bool {
    &&& m.id@ == "dev.mcpg.payment.ucp"@
    &&& m.version@ == "0.1.0"@
    &&& m.name@ == "Universal Commerce Protocol (UCP)"@
    &&& m.plugin_class == PluginClass::ToolGate
    &&& m.protocol_version@ == "1.0"@
    &&& m.license is None
    &&& m.required_capabilities@.len() == 0
    &&& m.tags@.len() == 0
    &&& m.provides@.len() == 0
    &&& m.provides_schemes@.len() == 0
    &&& m.module_path_prefix@ == "mcpg_plugin_payment_ucp"@
    &&& m.backend_profile is None
}

/// Every tool has a merchant.
pub open spec fn all_have_merchants(tools: Map<Seq<char>, UcpToolConfig>) -> bool {
    forall|name: Seq<char>|
        #[trigger] tools.contains_key(name) ==> tools[name].merchant_url@.len() > 0
}

/// The error that tells of a tool without a merchant.
pub open spec fn merchant_url_required(tool: Seq<char>) -> ErrorView {
    ErrorView {
        kind: ErrorKind::MissingMerchantUrl,
        message: "UCP: merchant_url is required for tool '"@ + tool + "'"@,
    }
}

// ---------------------------------------------------------------------------
// Setting up
// ---------------------------------------------------------------------------

impl UcpCommercePlugin {
    /// Create a disabled (no-op) plugin.
    pub fn disabled() -> (r: UcpCommercePlugin)
        ensures
            r.is_off(),
    {
        UcpCommercePlugin {
            manifest: Self::make_manifest(),
            enabled: false,
            tool_configs: ToolTable::new(),
            sessions: new_sessions(),
            merchant_profiles: new_profiles(),
            platform_profile_url: String::new(),
            session_ttl: Duration::from_millis(3_600_000),
            discovery_cache_ttl: Duration::from_millis(3_600_000),
            default_transport: default_transport(),
        }
    }

    /// Create from protocol config and per-tool configs. Without tools the plugin is off. A tool
    /// without a merchant is refused.
    pub fn from_config(config: &UcpProtocolConfig, tool_configs: ToolTable) -> (r: Result<
        UcpCommercePlugin,
        UcpError,
    >)
        ensures
            match r {
                Ok(plugin) => {
                    &&& all_have_merchants(tool_configs@)
                    &&& if tool_configs@ == Map::<Seq<char>, UcpToolConfig>::empty() {
                        plugin.is_off()
                    } else {
                        plugin.is_set_up(*config, tool_configs)
                    }
                },
                Err(e) => exists|tool: Seq<char>| #[trigger]
                    crate::config::least_without_merchant(tool_configs@, tool) && e@
                        == merchant_url_required(tool),
            },
    {
        if tool_configs.is_empty() {
            return Ok(Self::disabled());
        }
        if let Some(tool) = tool_configs.first_without_merchant() {
            return Err(
                UcpError::new(
                    ErrorKind::MissingMerchantUrl,
                    join3("UCP: merchant_url is required for tool '", tool, "'"),
                ),
            );
        }
        Ok(
            UcpCommercePlugin {
                manifest: Self::make_manifest(),
                enabled: true,
                tool_configs,
                sessions: new_sessions(),
                merchant_profiles: new_profiles(),
                platform_profile_url: config.platform_profile_url.clone(),
                session_ttl: Duration::from_millis(config.session_ttl_ms),
                discovery_cache_ttl: Duration::from_millis(config.discovery_cache_ttl_ms),
                default_transport: config.default_transport.clone(),
            },
        )
    }

    /// Create from an operator's configuration as it was read. One without protocol settings, or
    /// with a tool that is refused, leaves the plugin off; the refusal comes along.
    pub fn from_operator_config(config: Option<UcpProtocolConfig>, tools: ToolTable) -> (r: (
        UcpCommercePlugin,
        Option<UcpError>,
    ))
        ensures
            if config is Some && tools@ != Map::<Seq<char>, UcpToolConfig>::empty()
                && all_have_merchants(tools@) {
                r.0.is_set_up(config->0, tools)
            } else {
                r.0.is_off()
            },
            match r.1 {
                Some(e) => config is Some && exists|tool: Seq<char>| #[trigger]
                    crate::config::least_without_merchant(tools@, tool) && e@
                        == merchant_url_required(tool),
                None => config is None || all_have_merchants(tools@),
            },
    {
        match config {
            Some(config) => match Self::from_config(&config, tools) {
                Ok(plugin) => (plugin, None),
                Err(e) => (Self::disabled(), Some(e)),
            },
            None => (Self::disabled(), None),
        }
    }

    /// What every plugin of this kind says of itself.
    pub fn make_manifest() -> (r: PluginManifest)
        ensures
            manifest_stands(r),
    {
        PluginManifest {
            id: "dev.mcpg.payment.ucp".to_owned(),
            version: "0.1.0".to_owned(),
            name: "Universal Commerce Protocol (UCP)".to_owned(),
            plugin_class: PluginClass::ToolGate,
            protocol_version: "1.0".to_owned(),
            license: None,
            required_capabilities: Vec::new(),
            tags: Vec::new(),
            provides: Vec::new(),
            provides_schemes: Vec::new(),
            module_path_prefix: "mcpg_plugin_payment_ucp".to_owned(),
            backend_profile: None,
        }
    }

    /// What the plugin says of itself.
    pub fn manifest(&self) -> (r: &PluginManifest)
        ensures
            *r == self.manifest,
    {
        &self.manifest
    }

    /// How the plugin handles payments: by checkouts, over several calls.
    pub fn payment_capabilities(&self) -> (r: Vec<PaymentCapability>)
        ensures
            r@.len() == 1,
            r@[0].protocol == PaymentProtocol::Ucp,
            crate::config::texts(r@[0].methods@) == seq!["checkout"@],
            r@[0].supports_sessions,
            r@[0].supports_commerce,
            r@[0].meta_prefix@ == "ucp/"@,
    {
        let mut methods: Vec<String> = Vec::new();
        methods.push("checkout".to_owned());
        proof {
            assert(crate::config::texts(methods@) =~= seq!["checkout"@]);
        }
        let mut r: Vec<PaymentCapability> = Vec::new();
        r.push(
            PaymentCapability {
                protocol: PaymentProtocol::Ucp,
                methods,
                supports_sessions: true,
                supports_commerce: true,
                meta_prefix: "ucp/".to_owned(),
            },
        );
        r
    }

    /// The metadata of a call that carries credentials.
    pub fn credential_meta_keys(&self) -> (r: Vec<String>)
        ensures
            crate::config::texts(r@) == seq!["ucp/checkout_session"@, "ucp/payment_instrument"@],
    {
        let mut r: Vec<String> = Vec::new();
        r.push("ucp/checkout_session".to_owned());
        r.push("ucp/payment_instrument".to_owned());
        proof {
            assert(crate::config::texts(r@) =~= seq![
                "ucp/checkout_session"@,
                "ucp/payment_instrument"@,
            ]);
        }
        r
    }

    /// What kind of payment the plugin handles.
    pub fn payment_category(&self) -> (r: PaymentCategory)
        ensures
            r == PaymentCategory::Commerce,
    {
        PaymentCategory::Commerce
    }

    /// The tools that the plugin puts behind checkout, in the order of their names.
    pub fn configured_tools(&self) -> (r: Vec<String>)
        ensures
            forall|i: int, j: int|
                0 <= i < j < r@.len() ==> crate::text::before(
                    (#[trigger] r@[i])@,
                    (#[trigger] r@[j])@,
                ),
            forall|name: Seq<char>|
                self.tool_configs@.contains_key(name) <==> #[trigger] crate::config::texts(
                    r@,
                ).contains(name),
    {
        self.tool_configs.names()
    }
}

// ---------------------------------------------------------------------------
// Answering a call
// ---------------------------------------------------------------------------

/// The step after a merchant's profile is known.
fn open_step(config: &UcpToolConfig, profile: &MerchantProfile) -> (r: GateStep)
    ensures
        r@ == opening(*config, *profile),
{
    match approve_endpoint(config, profile) {
        Ok(transport) => GateStep::OpenCheckout(
            PendingCheckout {
                merchant_url: config.merchant_url.clone(),
                transport,
                bearer: config.auth_token(),
                seed: match &config.default_checkout_args {
                    Some(seed) => Some(seed.clone()),
                    None => None,
                },
            },
        ),
        Err(e) => GateStep::Decided(deny_creation(&e)),
    }
}

/// The checkout that a call refers to.
pub fn find_checkout_ref(meta: Option<&Json>) -> (r: Option<&str>)
    ensures
        crate::json::optional_text(r) == checkout_ref(crate::json::optional(meta)),
{
    match meta {
        Some(m) => m.get_str("ucp/checkout_session"),
        None => None,
    }
}

/// The payment instrument that a call brings.
fn find_payment_instrument(meta: Option<&Json>) -> (r: Option<&Json>)
    ensures
        crate::json::optional(r) == payment_instrument(crate::json::optional(meta)),
{
    match meta {
        Some(m) => m.get("ucp/payment_instrument"),
        None => None,
    }
}

impl UcpCommercePlugin {
    /// The configuration of the tool that is called, if the call is behind checkout.
    fn gated_config(&self, ctx: &PluginContext) -> (r: Option<&UcpToolConfig>)
        ensures
            match r {
                Some(config) => self.gated(*ctx) && *config == self.config_of(*ctx),
                None => !self.gated(*ctx),
            },
    {
        if !self.enabled {
            return None;
        }
        // Payment gating applies to tool calls only: other surfaces are never charged.
        if !same(ctx.surface.as_str(), "tool") {
            return None;
        }
        self.tool_configs.get(ctx.tool_name.as_str())
    }

    /// Is the call behind checkout?
    pub fn gates(&self, ctx: &PluginContext) -> (r: bool)
        ensures
            r == self.gated(*ctx),
    {
        self.gated_config(ctx).is_some()
    }

    /// The age of what decides about the call, in nanoseconds: of the checkout that it refers to,
    /// or else of the cached profile of its merchant.
    fn age_in_question(&mut self, ctx: &PluginContext, meta: Option<&Json>) -> (r: u128)
        ensures
            old(self).can_be_aged(*ctx, crate::json::optional(meta), r),
            final(self).same_settings(*old(self)),
            final(self).open_sessions() == old(self).open_sessions(),
            final(self).cached_profiles() == old(self).cached_profiles(),
    {
        let merchant = match self.gated_config(ctx) {
            Some(config) => config.merchant_url.clone(),
            None => {
                return 0;
            },
        };
        match find_checkout_ref(meta) {
            Some(id) => match take_session(&mut self.sessions, id) {
                Some(session) => {
                    let age: u128 = age_of(&session.created_at);
                    put_session(&mut self.sessions, id.to_owned(), session);
                    proof {
                        assert(self.open_sessions() =~= old(self).open_sessions());
                    }
                    age
                },
                None => {
                    proof {
                        assert(self.open_sessions() =~= old(self).open_sessions());
                    }
                    0
                },
            },
            None => match take_profile(&mut self.merchant_profiles, merchant.as_str()) {
                Some(cached) => {
                    let age: u128 = age_of(&cached.fetched_at);
                    put_profile(&mut self.merchant_profiles, merchant, cached);
                    proof {
                        assert(self.cached_profiles() =~= old(self).cached_profiles());
                    }
                    age
                },
                None => {
                    proof {
                        assert(self.cached_profiles() =~= old(self).cached_profiles());
                    }
                    0
                },
            },
        }
    }

    /// Says what to do first for a call. Whether a checkout or a cached profile is too old depends
    /// on when this is asked; the rest does not.
    pub fn evaluate_pre(&mut self, ctx: &PluginContext, meta: Option<&Json>) -> (r: GateStep)
        ensures
            final(self).same_settings(*old(self)),
            exists|age: u128|
                {
                    &&& old(self).can_be_aged(*ctx, crate::json::optional(meta), age)
                    &&& #[trigger] old(self).evaluated(*ctx, crate::json::optional(meta), age)
                        == (Evaluation {
                        step: r@,
                        sessions: final(self).open_sessions(),
                        profiles: final(self).cached_profiles(),
                    })
                },
    {
        let age: u128 = self.age_in_question(ctx, meta);
        let ghost mid = *self;
        let r = self.evaluate_pre_at(ctx, meta, age);
        proof {
            assert(mid.evaluated(*ctx, crate::json::optional(meta), age) == old(self).evaluated(
                *ctx,
                crate::json::optional(meta),
                age,
            ));
        }
        r
    }

    /// Says what to do first for a call, when the checkout that it refers to, or else the cached
    /// profile of its merchant, is `age` nanoseconds old.
    pub fn evaluate_pre_at(
        &mut self,
        ctx: &PluginContext,
        meta: Option<&Json>,
        age: u128,
    ) -> (r: GateStep)
        ensures
            final(self).same_settings(*old(self)),
            old(self).evaluated(*ctx, crate::json::optional(meta), age) == (Evaluation {
                step: r@,
                sessions: final(self).open_sessions(),
                profiles: final(self).cached_profiles(),
            }),
    {
        let config = match self.gated_config(ctx) {
            Some(config) => config,
            None => {
                return GateStep::Decided(GateDecision::allow());
            },
        };
        match find_checkout_ref(meta) {
            None => {
                let merchant = config.merchant_url.clone();
                match take_profile(&mut self.merchant_profiles, merchant.as_str()) {
                    Some(cached) => {
                        let step = match self.gated_config(ctx) {
                            Some(config) if !cached.is_expired_at(age) => open_step(
                                config,
                                &cached.profile,
                            ),
                            _ => GateStep::FetchProfile {
                                url: merchant_profile_url(merchant.as_str()),
                            },
                        };
                        put_profile(&mut self.merchant_profiles, merchant, cached);
                        proof {
                            assert(self.cached_profiles() =~= old(self).cached_profiles());
                        }
                        step
                    },
                    None => {
                        proof {
                            assert(self.cached_profiles() =~= old(self).cached_profiles());
                        }
                        GateStep::FetchProfile { url: merchant_profile_url(merchant.as_str()) }
                    },
                }
            },
            Some(id) => self.resume(ctx, id, find_payment_instrument(meta), age),
        }
    }

    /// Says what to do for a gated call that refers to a checkout.
    fn resume(
        &mut self,
        ctx: &PluginContext,
        id: &str,
        instrument: Option<&Json>,
        age: u128,
    ) -> (r: GateStep)
        requires
            old(self).gated(*ctx),
        ensures
            final(self).same_settings(*old(self)),
            old(self).resuming(*ctx, id@, crate::json::optional(instrument), age) == (Evaluation {
                step: r@,
                sessions: final(self).open_sessions(),
                profiles: final(self).cached_profiles(),
            }),
    {
        let session = match take_session(&mut self.sessions, id) {
            Some(session) => session,
            None => {
                proof {
                    assert(self.open_sessions() =~= old(self).open_sessions());
                }
                return GateStep::Decided(deny_not_found(id));
            },
        };
        // Someone else's checkout is answered as one that does not exist, so that its existence is
        // not given away.
        if session.owner != checkout_owner_key(ctx) {
            put_session(&mut self.sessions, id.to_owned(), session);
            proof {
                assert(self.open_sessions() =~= old(self).open_sessions());
            }
            return GateStep::Decided(deny_not_found(id));
        }
        if session.is_expired_at(age, self.session_ttl) {
            return GateStep::Decided(
                deny(
                    410,
                    UCP_CHECKOUT_COMPLETE_FAILED_CODE,
                    join3("UCP checkout session '", id, "' expired"),
                ),
            );
        }
        match instrument {
            Some(instrument) => {
                // The checkout may have been opened through another tool: its endpoint has to be
                // one that this tool's token and the instrument may be sent to.
                let config = self.tool_configs.at(ctx.tool_name.as_str());
                let bearer = config.auth_token();
                let verdict = enforce_endpoint_origin(
                    session.transport.endpoint(),
                    config.merchant_url.as_str(),
                    config.allowed_endpoint_origins.as_slice(),
                );
                let step = self.complete_judged(
                    HeldCheckout { key: id.to_owned(), session },
                    bearer,
                    instrument,
                    verdict,
                );
                proof {
                    assert(step@ is Decided ==> self.open_sessions() =~= old(self).open_sessions());
                }
                step
            },
            None => {
                let decision = demand_payment(
                    join3("UCP checkout session '", id, "' awaiting payment"),
                    &session,
                );
                put_session(&mut self.sessions, id.to_owned(), session);
                proof {
                    assert(self.open_sessions() =~= old(self).open_sessions());
                }
                GateStep::Decided(decision)
            },
        }
    }

    /// Says what to do for a call that brings an instrument for the checkout, given whether the
    /// tool's settings let the checkout's endpoint be used. Where they do not, the checkout goes
    /// back into the plugin's memory and nothing is sent.
    pub fn complete_judged(
        &mut self,
        checkout: HeldCheckout,
        bearer: Option<String>,
        instrument: &Json,
        verdict: Result<(), UcpError>,
    ) -> (r: GateStep)
        ensures
            final(self).same_settings(*old(self)),
            final(self).cached_profiles() == old(self).cached_profiles(),
            r@ == completing(
                checkout.key@,
                checkout.session,
                crate::merchant::optional_string(bearer),
                instrument@,
                match verdict {
                    Ok(_) => Ok(()),
                    Err(e) => Err(e@),
                },
            ),
            final(self).open_sessions() == match verdict {
                Ok(_) => old(self).open_sessions(),
                Err(_) => old(self).open_sessions().insert(checkout.key@, checkout.session),
            },
    {
        match verdict {
            Ok(_) => GateStep::CompleteCheckout {
                request: build_complete_request(&checkout.session, bearer, instrument),
                checkout,
            },
            Err(e) => {
                let decision = demand_payment(
                    join2("UCP checkout completion failed: ", e.message.as_str()),
                    &checkout.session,
                );
                put_session(&mut self.sessions, checkout.key, checkout.session);
                GateStep::Decided(decision)
            },
        }
    }

    /// Says what to do for a call once its merchant's profile has been asked for. A profile that
    /// came is kept for the calls to come, and its lifetime runs from when this is asked.
    pub fn profile_fetched(&mut self, ctx: &PluginContext, reply: DiscoveryReply) -> (r: GateStep)
        ensures
            final(self).same_settings(*old(self)),
            exists|now: Instant|
                {
                    &&& crate::clock::clock_reading(now)
                    &&& #[trigger] old(self).fetched(*ctx, reply, now) == (Evaluation {
                        step: r@,
                        sessions: final(self).open_sessions(),
                        profiles: final(self).cached_profiles(),
                    })
                },
    {
        self.profile_fetched_at(ctx, reply, Instant::now())
    }

    /// Says what to do for a call once its merchant's profile has been asked for. A profile that
    /// came is kept for the calls to come, and its lifetime runs from `now`.
    pub fn profile_fetched_at(
        &mut self,
        ctx: &PluginContext,
        reply: DiscoveryReply,
        now: Instant,
    ) -> (r: GateStep)
        ensures
            final(self).same_settings(*old(self)),
            old(self).fetched(*ctx, reply, now) == (Evaluation {
                step: r@,
                sessions: final(self).open_sessions(),
                profiles: final(self).cached_profiles(),
            }),
    {
        let config = match self.gated_config(ctx) {
            Some(config) => config,
            None => {
                return GateStep::Decided(GateDecision::allow());
            },
        };
        match read_merchant_profile(reply) {
            Ok(profile) => {
                let step = open_step(config, &profile);
                let merchant = config.merchant_url.clone();
                let cached = create_cache_entry_at(profile, self.discovery_cache_ttl, now);
                put_profile(&mut self.merchant_profiles, merchant, cached);
                step
            },
            Err(e) => GateStep::Decided(deny_creation(&e)),
        }
    }

    /// Builds the request that opens a checkout.
    pub fn create_checkout_request(&self, pending: &PendingCheckout, arguments: &Json) -> (r:
        MerchantRequest)
        requires
            crate::merchant::takes_arguments(pending@.seed, arguments@),
        ensures
            r@ == (RequestView {
                url: MerchantCall::CreateCheckout.address(pending@.transport.endpoint()),
                bearer: pending@.bearer,
                body: crate::merchant::create_body(
                    self.platform_profile_url@,
                    pending@.seed,
                    arguments@,
                ),
            }),
    {
        MerchantRequest {
            url: MerchantCall::CreateCheckout.url(pending.transport.endpoint()),
            bearer: match &pending.bearer {
                Some(token) => Some(token.clone()),
                None => None,
            },
            body: build_create_checkout_body(
                self.platform_profile_url.as_str(),
                &pending.seed,
                arguments,
            ),
        }
    }

    /// Answers a call once a checkout was to be opened for it. The session belongs to the caller,
    /// and its life begins when this is asked.
    pub fn checkout_created(
        &mut self,
        ctx: &PluginContext,
        pending: PendingCheckout,
        reply: MerchantReply,
    ) -> (r: GateDecision)
        ensures
            final(self).same_settings(*old(self)),
            final(self).cached_profiles() == old(self).cached_profiles(),
            r@ == creation(*ctx, pending@, reply),
            match created_session(*ctx, pending@, reply) {
                Ok(view) => exists|session: UcpCheckoutSession|
                    {
                        &&& session@ == view
                        &&& crate::clock::clock_reading(session.created_at)
                        &&& final(self).open_sessions()
                            == #[trigger] old(self).open_sessions().insert(view.session_id, session)
                    },
                Err(_) => final(self).open_sessions() == old(self).open_sessions(),
            },
    {
        self.checkout_created_at(ctx, pending, reply, Instant::now())
    }

    /// Answers a call once a checkout was to be opened for it. The session belongs to the caller,
    /// and its life begins `now`.
    pub fn checkout_created_at(
        &mut self,
        ctx: &PluginContext,
        pending: PendingCheckout,
        reply: MerchantReply,
        now: Instant,
    ) -> (r: GateDecision)
        ensures
            final(self).same_settings(*old(self)),
            final(self).cached_profiles() == old(self).cached_profiles(),
            r@ == creation(*ctx, pending@, reply),
            match created_session(*ctx, pending@, reply) {
                Ok(view) => exists|session: UcpCheckoutSession|
                    {
                        &&& session@ == view
                        &&& session.created_at == now
                        &&& final(self).open_sessions()
                            == #[trigger] old(self).open_sessions().insert(view.session_id, session)
                    },
                Err(_) => final(self).open_sessions() == old(self).open_sessions(),
            },
    {
        match create_checkout_session_at(pending, reply, now) {
            Ok(session) => {
                let mut session = session;
                session.owner = checkout_owner_key(ctx);
                let decision = demand_payment(
                    join3("UCP checkout required for tool '", ctx.tool_name.as_str(), "'"),
                    &session,
                );
                let ghost kept = session;
                put_session(&mut self.sessions, session.session_id.clone(), session);
                proof {
                    assert(created_session(*ctx, pending@, reply)->Ok_0 == kept@);
                    assert(self.open_sessions() == old(self).open_sessions().insert(
                        kept@.session_id,
                        kept,
                    ));
                }
                decision
            },
            Err(e) => deny_creation(&e),
        }
    }

    /// Answers a call once its checkout was to be completed. A response that is no error is no
    /// proof of settlement: the call goes through only when the merchant reports the checkout
    /// completed. Otherwise the checkout stays open and is demanded again.
    pub fn checkout_completed(&mut self, checkout: HeldCheckout, reply: MerchantReply) -> (r:
        GateDecision)
        ensures
            final(self).same_settings(*old(self)),
            final(self).cached_profiles() == old(self).cached_profiles(),
            r@ == completion(checkout.key@, checkout.session@, reply),
            match still_open(checkout.session@, reply) {
                Some(view) => exists|session: UcpCheckoutSession|
                    {
                        &&& session@ == view
                        &&& session.created_at == checkout.session.created_at
                        &&& MerchantCall::CompleteCheckout.answer(reply) is Err ==> session
                            == checkout.session
                        &&& final(self).open_sessions()
                            == #[trigger] old(self).open_sessions().insert(checkout.key@, session)
                    },
                None => final(self).open_sessions() == old(self).open_sessions(),
            },
    {
        let key = checkout.key;
        let mut session = checkout.session;
        match complete_checkout(&mut session, reply) {
            Ok(_) => {
                if !session.is_settled() {
                    let head = join3("UCP checkout '", key.as_str(), "' not settled (status ");
                    let message = join3(
                        head.as_str(),
                        status_text(session.status),
                        "); payment not confirmed",
                    );
                    let decision = demand_payment(message, &session);
                    let ghost kept = session;
                    put_session(&mut self.sessions, key, session);
                    proof {
                        assert(self.open_sessions() == old(self).open_sessions().insert(
                            key@,
                            kept,
                        ));
                    }
                    return decision;
                }
                GateDecision::allow_with_metadata(session.build_order_meta())
            },
            Err(e) => {
                let decision = demand_payment(
                    join2("UCP checkout completion failed: ", e.message.as_str()),
                    &session,
                );
                let ghost kept = session;
                put_session(&mut self.sessions, key, session);
                proof {
                    assert(self.open_sessions() == old(self).open_sessions().insert(key@, kept));
                }
                decision
            },
        }
    }

    /// Answers after a tool has run. Checkouts are completed before, so nothing is left to do.
    pub fn evaluate_post(&self) -> (r: GateDecision)
        ensures
            r@ == DecisionView::allow(),
    {
        GateDecision::allow()
    }
}

/// The session that a reply to a new checkout opens. Nobody owns it yet, and its life begins when
/// this is asked.
pub fn create_checkout_session(pending: PendingCheckout, reply: MerchantReply) -> (r: Result<
    UcpCheckoutSession,
    UcpError,
>)
    ensures
        match r {
            Ok(session) => {
                &&& opened_session(pending@, reply) == Ok::<SessionView, ErrorView>(session@)
                &&& crate::clock::clock_reading(session.created_at)
            },
            Err(e) => opened_session(pending@, reply) == Err::<SessionView, ErrorView>(e@),
        },
{
    create_checkout_session_at(pending, reply, Instant::now())
}

/// The session that a reply to a new checkout opens. Nobody owns it yet, and its life begins `now`.
pub fn create_checkout_session_at(
    pending: PendingCheckout,
    reply: MerchantReply,
    now: Instant,
) -> (r: Result<UcpCheckoutSession, UcpError>)
    ensures
        match r {
            Ok(session) => {
                &&& opened_session(pending@, reply) == Ok::<SessionView, ErrorView>(session@)
                &&& session.created_at == now
            },
            Err(e) => opened_session(pending@, reply) == Err::<SessionView, ErrorView>(e@),
        },
{
    let body = match MerchantCall::CreateCheckout.read(reply) {
        Ok(body) => body,
        Err(e) => {
            return Err(e);
        },
    };
    let endpoint = pending.transport.endpoint().to_owned();
    let transport = match pending.transport {
        ResolvedTransport::Mcp { endpoint } => SessionTransport::Mcp { endpoint },
        ResolvedTransport::Rest { endpoint } => SessionTransport::Rest { endpoint },
    };
    match UcpCheckoutSession::from_response_at(
        body,
        pending.merchant_url,
        endpoint,
        transport,
        now,
    ) {
        Some(session) => Ok(session),
        None => Err(
            UcpError::new(
                ErrorKind::MissingSessionId,
                "UCP merchant response missing session ID".to_owned(),
            ),
        ),
    }
}

} // verus!
