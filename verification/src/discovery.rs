//! Merchant discovery: what a merchant's `/.well-known/ucp` profile offers, and which of it the
//! operator lets the plugin use.

use std::time::{Duration, Instant};

use vstd::prelude::*;

use crate::checkout::TransportView;
use crate::clock::{age_of, outlived};
use crate::config::UcpToolConfig;
use crate::error::{ErrorKind, ErrorView, UcpError};
use crate::json::{Json, JsonMap, JsonView};
use crate::text::{begins_with, decimal_text, join2, join3, same, trim_end_slashes};

verus! {

/// UCP merchant profile returned from `/.well-known/ucp`.
#[derive(Clone, Debug)]
pub struct MerchantProfile {
    /// Merchant display name.
    pub name: String,
    /// Merchant capabilities.
    pub capabilities: Json,
    /// Service endpoints per capability.
    pub services: JsonMap,
}

/// Endpoint entry in a merchant profile.
#[derive(Clone, Debug)]
pub struct ServiceEndpoint {
    pub transport: String,
    pub endpoint: String,
}

/// What an endpoint entry says.
#[verifier::ext_equal]
pub struct EndpointView {
    pub transport: Seq<char>,
    pub endpoint: Seq<char>,
}

impl View for ServiceEndpoint {
    type V = EndpointView;

    open spec fn view(&self) -> EndpointView {
        EndpointView { transport: self.transport@, endpoint: self.endpoint@ }
    }
}

/// Cached merchant profile with TTL.
#[derive(Debug)]
pub struct CachedMerchantProfile {
    pub profile: MerchantProfile,
    /// When the profile was fetched.
    pub fetched_at: Instant,
    /// For how long from then on it is good.
    pub ttl: Duration,
}

impl CachedMerchantProfile {
    /// Is the profile no longer good? How old it is depends on when this is asked.
    pub fn is_expired(&self) -> (r: bool)
        ensures
            exists|age: u128| #[trigger]
                crate::clock::can_be_aged(self.fetched_at, age) && r == (age
                    >= crate::clock::duration_nanos(self.ttl)),
    {
        self.is_expired_at(age_of(&self.fetched_at))
    }

    /// Is the profile no longer good when it is `age` nanoseconds old?
    pub fn is_expired_at(&self, age: u128) -> (r: bool)
        ensures
            r == (age >= crate::clock::duration_nanos(self.ttl)),
    {
        outlived(age, self.ttl)
    }
}

/// Create a cache entry with a given TTL, which runs from when this is asked.
pub fn create_cache_entry(profile: MerchantProfile, ttl: Duration) -> (r: CachedMerchantProfile)
    ensures
        r.profile == profile,
        r.ttl == ttl,
        crate::clock::clock_reading(r.fetched_at),
{
    create_cache_entry_at(profile, ttl, Instant::now())
}

/// Create a cache entry with a given TTL, which runs from `now`.
pub fn create_cache_entry_at(profile: MerchantProfile, ttl: Duration, now: Instant) -> (r:
    CachedMerchantProfile)
    ensures
        r == (CachedMerchantProfile { profile, fetched_at: now, ttl }),
{
    CachedMerchantProfile { profile, fetched_at: now, ttl }
}

// ---------------------------------------------------------------------------
// Origins
// ---------------------------------------------------------------------------

/// `url::ParseError`, which tells why a text is no URL. It is not read.
#[verifier::external_type_specification]
#[verifier::external_body]
pub struct ExParseError(url::ParseError);

/// The parts of a URL that make up its origin.
#[derive(Debug)]
pub struct UrlParts {
    pub scheme: String,
    pub host: Option<String>,
    /// The port, where the URL names one other than the scheme's own.
    pub port: Option<u16>,
}

/// What the parts of a URL say.
#[verifier::ext_equal]
pub struct UrlView {
    pub scheme: Seq<char>,
    pub host: Option<Seq<char>>,
    pub port: Option<u16>,
}

impl View for UrlParts {
    type V = UrlView;

    open spec fn view(&self) -> UrlView {
        UrlView {
            scheme: self.scheme@,
            host: match self.host {
                Some(h) => Some(h@),
                None => None,
            },
            port: self.port,
        }
    }
}

/// The scheme, host and port that `url::Url::parse` finds in a text, or nothing where it refuses
/// the text.
pub uninterp spec fn parsed_url(url: Seq<char>) -> Option<UrlView>;

/// Can the parts be told apart in the text of an origin? A scheme has no colon, and a host has one
/// only within the brackets of an IPv6 address.
pub open spec fn separable(parts: UrlView) -> bool {
    &&& !parts.scheme.contains(':')
    &&& parts.host matches Some(host) ==> host.contains(':') ==> host.last() == ']'
}

/// `url::Url::parse`, read through `Url::scheme`, `Url::host_str` and `Url::port`: the parts that
/// it finds in the text, or its error where it refuses the text. A scheme is made of letters,
/// digits, `+`, `-` and `.`, and a colon is refused in a host that is no IPv6 address in brackets.
#[verifier::external_body]
fn parse_url(url: &str) -> (r: Result<UrlParts, url::ParseError>)
    ensures
        match r {
            Ok(parts) => parsed_url(url@) == Some(parts@) && separable(parts@),
            Err(_) => parsed_url(url@) is None,
        },
{
    url::Url::parse(url).map(
        |u| UrlParts {
            scheme: u.scheme().to_owned(),
            host: u.host_str().map(|h| h.to_owned()),
            port: u.port(),
        },
    )
}

/// The origin of a URL with the given parts: scheme, host in small letters, and port if any.
pub open spec fn origin_of_parts(url: Seq<char>, parts: Option<UrlView>) -> Result<
    Seq<char>,
    ErrorView,
> {
    match parts {
        None => Err(
            ErrorView { kind: ErrorKind::InvalidUrl, message: "invalid UCP URL '"@ + url + "'"@ },
        ),
        Some(parts) => match parts.host {
            None => Err(
                ErrorView {
                    kind: ErrorKind::NoHost,
                    message: "UCP URL '"@ + url + "' has no host"@,
                },
            ),
            Some(host) => {
                let base = parts.scheme + "://"@ + crate::text::lowercase(host);
                match parts.port {
                    Some(p) => Ok(base + ":"@ + crate::text::decimal(p as nat)),
                    None => Ok(base),
                }
            },
        },
    }
}

/// The origin of a URL: its scheme, host and port.
pub open spec fn url_origin(url: Seq<char>) -> Result<Seq<char>, ErrorView> {
    origin_of_parts(url, parsed_url(url))
}

/// The origins of a list of URLs.
pub open spec fn url_origins(urls: Seq<String>) -> Seq<Result<Seq<char>, ErrorView>> {
    urls.map_values(|u: String| url_origin(u@))
}

/// What a computed origin says.
pub open spec fn origin_view(origin: Result<String, UcpError>) -> Result<Seq<char>, ErrorView> {
    match origin {
        Ok(o) => Ok(o@),
        Err(e) => Err(e@),
    }
}

/// What a list of computed origins says.
pub open spec fn origin_views(origins: Seq<Result<String, UcpError>>) -> Seq<
    Result<Seq<char>, ErrorView>,
> {
    origins.map_values(|o: Result<String, UcpError>| origin_view(o))
}

/// May the merchant's endpoint be used, given its origin, the merchant's own one and those that
/// the operator allows? It must use https and lie at the merchant's origin or an allowed one. An
/// allowed URL without an origin allows nothing.
pub open spec fn endpoint_verdict(
    endpoint: Seq<char>,
    endpoint_origin: Result<Seq<char>, ErrorView>,
    merchant_origin: Result<Seq<char>, ErrorView>,
    allowed: Seq<Result<Seq<char>, ErrorView>>,
) -> Result<(), ErrorView> {
    match endpoint_origin {
        Err(e) => Err(e),
        Ok(origin) => if !"https://"@.is_prefix_of(endpoint) {
            Err(
                ErrorView {
                    kind: ErrorKind::NotHttps,
                    message: "UCP endpoint '"@ + endpoint + "' must use https"@,
                },
            )
        } else {
            match merchant_origin {
                Err(e) => Err(e),
                Ok(own) => if origin == own || allowed.contains(Ok(origin)) {
                    Ok(())
                } else {
                    Err(
                        ErrorView {
                            kind: ErrorKind::ForeignOrigin,
                            message: "UCP endpoint origin '"@ + origin
                                + "' is neither the merchant's own origin nor in allowed_endpoint_origins; refusing to send merchant credentials there"@,
                        },
                    )
                },
            }
        },
    }
}

/// May the endpoint be used by a tool of this merchant, with these further origins allowed?
pub open spec fn endpoint_allowed(
    endpoint: Seq<char>,
    merchant_url: Seq<char>,
    allowed: Seq<String>,
) -> Result<(), ErrorView> {
    endpoint_verdict(
        endpoint,
        url_origin(endpoint),
        url_origin(merchant_url),
        url_origins(allowed),
    )
}

/// The scheme, host and port of a URL whose parts are known, for origin comparison.
pub fn origin_from_parts(url: &str, parts: Option<UrlParts>) -> (r: Result<String, UcpError>)
    ensures
        origin_view(r) == origin_of_parts(
            url@,
            match parts {
                Some(p) => Some(p@),
                None => None,
            },
        ),
{
    match parts {
        None => Err(UcpError::new(ErrorKind::InvalidUrl, join3("invalid UCP URL '", url, "'"))),
        Some(parts) => match &parts.host {
            None => Err(
                UcpError::new(ErrorKind::NoHost, join3("UCP URL '", url, "' has no host")),
            ),
            Some(host) => {
                let base = join3(
                    parts.scheme.as_str(),
                    "://",
                    host.as_str().to_ascii_lowercase().as_str(),
                );
                match parts.port {
                    Some(p) => Ok(
                        join3(base.as_str(), ":", decimal_text(p as u64).as_str()),
                    ),
                    None => Ok(base),
                }
            },
        },
    }
}

/// The scheme, host and port of a URL, for origin comparison.
pub fn origin_of(url: &str) -> (r: Result<String, UcpError>)
    ensures
        origin_view(r) == url_origin(url@),
        parsed_url(url@) matches Some(parts) ==> separable(parts),
{
    let parts = match parse_url(url) {
        Ok(parts) => Some(parts),
        Err(_) => None,
    };
    origin_from_parts(url, parts)
}

/// May the merchant's endpoint be used, given its origin, the merchant's own one and those that
/// the operator allows?
pub fn judge_endpoint(
    endpoint: &str,
    endpoint_origin: Result<String, UcpError>,
    merchant_origin: Result<String, UcpError>,
    allowed: &Vec<Result<String, UcpError>>,
) -> (r: Result<(), UcpError>)
    ensures
        match r {
            Ok(_) => endpoint_verdict(
                endpoint@,
                origin_view(endpoint_origin),
                origin_view(merchant_origin),
                origin_views(allowed@),
            ) == Ok::<(), ErrorView>(()),
            Err(e) => endpoint_verdict(
                endpoint@,
                origin_view(endpoint_origin),
                origin_view(merchant_origin),
                origin_views(allowed@),
            ) == Err::<(), ErrorView>(e@),
        },
{
    let origin = match endpoint_origin {
        Ok(origin) => origin,
        Err(e) => {
            return Err(e);
        },
    };
    if !begins_with(endpoint, "https://") {
        return Err(
            UcpError::new(
                ErrorKind::NotHttps,
                join3("UCP endpoint '", endpoint, "' must use https"),
            ),
        );
    }
    let own = match merchant_origin {
        Ok(own) => own,
        Err(e) => {
            return Err(e);
        },
    };
    if origin == own {
        return Ok(());
    }
    let mut i: usize = 0;
    while i < allowed.len()
        invariant
            i <= allowed@.len(),
            "https://"@.is_prefix_of(endpoint@),
            endpoint_origin == Ok::<String, UcpError>(origin),
            merchant_origin == Ok::<String, UcpError>(own),
            origin@ != own@,
            forall|j: int|
                0 <= j < i ==> #[trigger] origin_views(allowed@)[j] != Ok::<Seq<char>, ErrorView>(
                    origin@,
                ),
        decreases allowed@.len() - i,
    {
        if let Ok(o) = &allowed[i] {
            if *o == origin {
                proof {
                    assert(origin_views(allowed@)[i as int] == Ok::<Seq<char>, ErrorView>(origin@));
                }
                return Ok(());
            }
        }
        proof {
            assert(origin_views(allowed@)[i as int] == origin_view(allowed@[i as int]));
        }
        i = i + 1;
    }
    Err(
        UcpError::new(
            ErrorKind::ForeignOrigin,
            join3(
                "UCP endpoint origin '",
                origin.as_str(),
                "' is neither the merchant's own origin nor in allowed_endpoint_origins; refusing to send merchant credentials there",
            ),
        ),
    )
}

/// Constrain a discovery-supplied service endpoint to an operator-chosen origin.
///
/// The endpoint is read out of the merchant's `/.well-known/ucp` document, which is remote and
/// untrusted, and is the address that the operator's merchant credential and the caller's payment
/// instrument are sent to. It must share an origin with the operator-configured `merchant_url`, or
/// match an origin that the operator listed; an empty list means same-origin only.
pub fn enforce_endpoint_origin(
    endpoint: &str,
    merchant_url: &str,
    allowed_origins: &[String],
) -> (r: Result<(), UcpError>)
    ensures
        match r {
            Ok(_) => endpoint_allowed(endpoint@, merchant_url@, allowed_origins@) == Ok::<
                (),
                ErrorView,
            >(()),
            Err(e) => endpoint_allowed(endpoint@, merchant_url@, allowed_origins@) == Err::<
                (),
                ErrorView,
            >(e@),
        },
        r is Ok <==> crate::promises::at_allowed_place(
            endpoint@,
            merchant_url@,
            allowed_origins@,
        ),
{
    let mut origins: Vec<Result<String, UcpError>> = Vec::new();
    let mut i: usize = 0;
    while i < allowed_origins.len()
        invariant
            i <= allowed_origins@.len(),
            origins@.len() == i,
            forall|j: int|
                0 <= j < i ==> origin_view(#[trigger] origins@[j]) == url_origin(
                    allowed_origins@[j]@,
                ),
            forall|j: int|
                0 <= j < i ==> crate::promises::parts_stand_apart(#[trigger] allowed_origins@[j]@),
        decreases allowed_origins@.len() - i,
    {
        origins.push(origin_of(allowed_origins[i].as_str()));
        i = i + 1;
    }
    proof {
        assert(origin_views(origins@) =~= url_origins(allowed_origins@));
    }
    let endpoint_origin = origin_of(endpoint);
    let merchant_origin = origin_of(merchant_url);
    proof {
        crate::promises::law_endpoint_lies_at_an_allowed_place(
            endpoint@,
            merchant_url@,
            allowed_origins@,
        );
    }
    judge_endpoint(endpoint, endpoint_origin, merchant_origin, &origins)
}

// ---------------------------------------------------------------------------
// Endpoint resolution
// ---------------------------------------------------------------------------

/// Resolved transport endpoint for a merchant.
#[derive(Clone, Debug)]
pub enum ResolvedTransport {
    Mcp { endpoint: String },
    Rest { endpoint: String },
}

impl View for ResolvedTransport {
    type V = TransportView;

    open spec fn view(&self) -> TransportView {
        match self {
            ResolvedTransport::Mcp { endpoint } => TransportView::Mcp(endpoint@),
            ResolvedTransport::Rest { endpoint } => TransportView::Rest(endpoint@),
        }
    }
}

impl ResolvedTransport {
    /// The address that the transport leads to.
    pub fn endpoint(&self) -> (r: &str)
        ensures
            r@ == self@.endpoint(),
    {
        match self {
            ResolvedTransport::Mcp { endpoint } => endpoint.as_str(),
            ResolvedTransport::Rest { endpoint } => endpoint.as_str(),
        }
    }
}

/// The endpoint entry that a JSON value stands for: an object with the two texts, whatever else it
/// has, or an array of just the two texts.
pub open spec fn endpoint_entry(v: JsonView) -> Option<EndpointView> {
    let (transport, endpoint) = match v {
        JsonView::Array(items) => if items.len() == 2 {
            (items[0].text(), items[1].text())
        } else {
            (None, None)
        },
        _ => (v.text_member("transport"@), v.text_member("endpoint"@)),
    };
    match (transport, endpoint) {
        (Some(transport), Some(endpoint)) => Some(EndpointView { transport, endpoint }),
        _ => None,
    }
}

/// The endpoint entries of a list of JSON values; what is no entry is passed over.
pub open spec fn endpoint_entries(items: Seq<JsonView>) -> Seq<EndpointView>
    decreases items.len(),
{
    if items.len() == 0 {
        Seq::empty()
    } else {
        let front = endpoint_entries(items.drop_last());
        match endpoint_entry(items.last()) {
            Some(entry) => front.push(entry),
            None => front,
        }
    }
}

/// The endpoint entries that a service of a profile offers: those of a list, or a single one.
pub open spec fn service_entries(service: JsonView) -> Seq<EndpointView> {
    match service {
        JsonView::Array(items) => endpoint_entries(items),
        JsonView::Object(_) => match endpoint_entry(service) {
            Some(entry) => seq![entry],
            None => Seq::empty(),
        },
        _ => Seq::empty(),
    }
}

/// The first place from `from` on of an entry with the transport, or the length of the list.
pub open spec fn place_of_transport(
    entries: Seq<EndpointView>,
    transport: Seq<char>,
    from: int,
) -> int
    decreases entries.len() - from,
{
    if from >= entries.len() || entries[from].transport == transport {
        from
    } else {
        place_of_transport(entries, transport, from + 1)
    }
}

/// The entry to use: the first with the preferred transport, or else the first of all.
pub open spec fn chosen_entry(entries: Seq<EndpointView>, preferred: Seq<char>) -> Option<
    EndpointView,
> {
    let p = place_of_transport(entries, preferred, 0);
    if p < entries.len() {
        Some(entries[p])
    } else if entries.len() > 0 {
        Some(entries[0])
    } else {
        None
    }
}

/// The transport that an entry offers. Everything but "mcp" is served over REST.
pub open spec fn entry_transport(entry: EndpointView) -> TransportView {
    if entry.transport == "mcp"@ {
        TransportView::Mcp(entry.endpoint)
    } else {
        TransportView::Rest(entry.endpoint)
    }
}

/// The endpoint that a profile offers for a service.
pub open spec fn resolved(
    services: Map<Seq<char>, JsonView>,
    service_key: Seq<char>,
    preferred: Seq<char>,
) -> Result<TransportView, ErrorView> {
    if !services.contains_key(service_key) {
        Err(
            ErrorView {
                kind: ErrorKind::MissingService,
                message: "merchant has no '"@ + service_key + "' service"@,
            },
        )
    } else {
        match chosen_entry(service_entries(services[service_key]), preferred) {
            Some(entry) => Ok(entry_transport(entry)),
            None => Err(
                ErrorView {
                    kind: ErrorKind::NoTransport,
                    message: "no compatible transport found for merchant service '"@ + service_key
                        + "'"@,
                },
            ),
        }
    }
}

/// What a list of endpoint entries says.
pub open spec fn entry_views(entries: Seq<ServiceEndpoint>) -> Seq<EndpointView> {
    entries.map_values(|e: ServiceEndpoint| e@)
}

impl ServiceEndpoint {
    /// Reads an endpoint entry: an object with the two texts, whatever else it has, or an array of
    /// just the two texts.
    pub fn from_json(v: &Json) -> (r: Option<ServiceEndpoint>)
        ensures
            match r {
                Some(e) => endpoint_entry(v@) == Some(e@),
                None => endpoint_entry(v@) is None,
            },
    {
        let (transport, endpoint) = match v {
            Json::Array(items) => if items.len() == 2 {
                proof {
                    assert(v@->Array_0[0] == items@[0]@);
                    assert(v@->Array_0[1] == items@[1]@);
                }
                (items[0].as_str(), items[1].as_str())
            } else {
                (None, None)
            },
            _ => (v.get_str("transport"), v.get_str("endpoint")),
        };
        match (transport, endpoint) {
            (Some(transport), Some(endpoint)) => Some(
                ServiceEndpoint { transport: transport.to_owned(), endpoint: endpoint.to_owned() },
            ),
            _ => None,
        }
    }

    /// Reads the endpoint entries that a service of a profile offers.
    pub fn list_from_json(service: &Json) -> (r: Vec<ServiceEndpoint>)
        ensures
            entry_views(r@) == service_entries(service@),
    {
        let mut entries: Vec<ServiceEndpoint> = Vec::new();
        match service {
            Json::Array(items) => {
                let ghost views = service@->Array_0;
                let mut i: usize = 0;
                proof {
                    assert(entry_views(entries@) =~= endpoint_entries(views.take(0)));
                }
                while i < items.len()
                    invariant
                        *service == Json::Array(*items),
                        views == service@->Array_0,
                        i <= items@.len(),
                        entry_views(entries@) == endpoint_entries(views.take(i as int)),
                    decreases items@.len() - i,
                {
                    proof {
                        assert(views[i as int] == items@[i as int]@);
                        assert(views.take(i + 1).drop_last() =~= views.take(i as int));
                        assert(views.take(i + 1).last() == views[i as int]);
                    }
                    if let Some(entry) = ServiceEndpoint::from_json(&items[i]) {
                        let ghost before = entries@;
                        entries.push(entry);
                        proof {
                            assert(entry_views(entries@) =~= entry_views(before).push(entry@));
                        }
                    }
                    i = i + 1;
                }
                proof {
                    assert(views.take(i as int) =~= views);
                }
            },
            Json::Object(_) => {
                if let Some(entry) = ServiceEndpoint::from_json(service) {
                    entries.push(entry);
                }
                proof {
                    assert(entry_views(entries@) =~= service_entries(service@));
                }
            },
            _ => {
                proof {
                    assert(entry_views(entries@) =~= service_entries(service@));
                }
            },
        }
        entries
    }

    /// The transport that the entry offers. Everything but "mcp" is served over REST.
    pub fn resolve(&self) -> (r: ResolvedTransport)
        ensures
            r@ == entry_transport(self@),
    {
        if same(self.transport.as_str(), "mcp") {
            ResolvedTransport::Mcp { endpoint: self.endpoint.clone() }
        } else {
            ResolvedTransport::Rest { endpoint: self.endpoint.clone() }
        }
    }
}

/// Resolve an endpoint from a merchant profile for a given service.
///
/// The returned endpoint is merchant-supplied and not yet trusted: it has to pass
/// [`enforce_endpoint_origin`] before anything is sent to it.
pub fn resolve_endpoint(
    profile: &MerchantProfile,
    service_key: &str,
    preferred_transport: &str,
) -> (r: Result<ResolvedTransport, UcpError>)
    ensures
        match r {
            Ok(t) => resolved(profile.services@, service_key@, preferred_transport@) == Ok::<
                TransportView,
                ErrorView,
            >(t@),
            Err(e) => resolved(profile.services@, service_key@, preferred_transport@) == Err::<
                TransportView,
                ErrorView,
            >(e@),
        },
{
    let service = match profile.services.get(service_key) {
        Some(service) => service,
        None => {
            return Err(
                UcpError::new(
                    ErrorKind::MissingService,
                    join3("merchant has no '", service_key, "' service"),
                ),
            );
        },
    };
    let entries = ServiceEndpoint::list_from_json(service);
    let ghost views = entry_views(entries@);
    // The preferred transport comes first.
    let mut i: usize = 0;
    while i < entries.len()
        invariant
            profile.services@.contains_key(service_key@),
            views == service_entries(profile.services@[service_key@]),
            views == entry_views(entries@),
            i <= entries@.len(),
            place_of_transport(views, preferred_transport@, 0) == place_of_transport(
                views,
                preferred_transport@,
                i as int,
            ),
        decreases entries@.len() - i,
    {
        proof {
            assert(views[i as int] == entries@[i as int]@);
        }
        if same(entries[i].transport.as_str(), preferred_transport) {
            return Ok(entries[i].resolve());
        }
        i = i + 1;
    }
    // Failing that, the first entry serves, whatever its transport.
    if entries.len() > 0 {
        proof {
            assert(views[0] == entries@[0]@);
        }
        return Ok(entries[0].resolve());
    }
    Err(
        UcpError::new(
            ErrorKind::NoTransport,
            join3("no compatible transport found for merchant service '", service_key, "'"),
        ),
    )
}

// ---------------------------------------------------------------------------
// Capabilities
// ---------------------------------------------------------------------------

/// The first place from `from` on of a required capability that is not offered, or the length of
/// the list.
pub open spec fn place_of_missing(
    offered: Map<Seq<char>, JsonView>,
    required: Seq<String>,
    from: int,
) -> int
    decreases required.len() - from,
{
    if from >= required.len() || !offered.contains_key(required[from]@) {
        from
    } else {
        place_of_missing(offered, required, from + 1)
    }
}

/// Does a profile with these capabilities offer all that is required?
pub open spec fn capability_verdict(capabilities: JsonView, required: Seq<String>) -> Result<
    (),
    ErrorView,
> {
    match capabilities {
        JsonView::Object(offered) => {
            let p = place_of_missing(offered, required, 0);
            if p < required.len() {
                Err(
                    ErrorView {
                        kind: ErrorKind::MissingCapability,
                        message: "merchant does not support required capability: "@
                            + required[p]@,
                    },
                )
            } else {
                Ok(())
            }
        },
        _ => if required.len() > 0 {
            Err(
                ErrorView {
                    kind: ErrorKind::NoCapabilities,
                    message: "merchant has no capabilities object but "@ + crate::text::decimal(
                        required.len(),
                    ) + " required"@,
                },
            )
        } else {
            Ok(())
        },
    }
}

/// Validate that a merchant supports required capabilities.
pub fn validate_capabilities(profile: &MerchantProfile, required: &[String]) -> (r: Result<
    (),
    UcpError,
>)
    ensures
        match r {
            Ok(_) => capability_verdict(profile.capabilities@, required@) == Ok::<(), ErrorView>(
                (),
            ),
            Err(e) => capability_verdict(profile.capabilities@, required@) == Err::<(), ErrorView>(
                e@,
            ),
        },
{
    match profile.capabilities.as_object() {
        Some(offered) => {
            let mut i: usize = 0;
            while i < required.len()
                invariant
                    i <= required@.len(),
                    profile.capabilities@ == JsonView::Object(offered@),
                    place_of_missing(offered@, required@, 0) == place_of_missing(
                        offered@,
                        required@,
                        i as int,
                    ),
                decreases required@.len() - i,
            {
                if !offered.contains_key(required[i].as_str()) {
                    return Err(
                        UcpError::new(
                            ErrorKind::MissingCapability,
                            join2(
                                "merchant does not support required capability: ",
                                required[i].as_str(),
                            ),
                        ),
                    );
                }
                i = i + 1;
            }
            Ok(())
        },
        None => if required.len() > 0 {
            Err(
                UcpError::new(
                    ErrorKind::NoCapabilities,
                    join3(
                        "merchant has no capabilities object but ",
                        decimal_text(required.len() as u64).as_str(),
                        " required",
                    ),
                ),
            )
        } else {
            Ok(())
        },
    }
}

// ---------------------------------------------------------------------------
// Discovery
// ---------------------------------------------------------------------------

/// What came of asking a merchant for its profile.
#[derive(Debug)]
pub enum DiscoveryReply {
    /// The request did not go through.
    SendFailed,
    /// The reply came from an address that is not to be trusted.
    AddressBlocked { reason: String },
    /// The merchant answered. The profile is missing where the answer holds none.
    Answered { status: u16, status_text: String, profile: Option<MerchantProfile> },
}

/// Where a merchant's profile is found.
pub open spec fn profile_address(merchant_url: Seq<char>) -> Seq<char> {
    crate::text::without_end_slashes(merchant_url) + "/.well-known/ucp"@
}

/// The profile that a reply brings: the one in a successful answer.
pub open spec fn discovered(reply: DiscoveryReply) -> Result<MerchantProfile, ErrorView> {
    match reply {
        DiscoveryReply::SendFailed => Err(
            ErrorView {
                kind: ErrorKind::RequestFailed,
                message: "UCP merchant discovery request failed"@,
            },
        ),
        DiscoveryReply::AddressBlocked { reason } => Err(
            ErrorView {
                kind: ErrorKind::AddressBlocked,
                message: "UCP discovery SSRF blocked: "@ + reason@,
            },
        ),
        DiscoveryReply::Answered { status, status_text, profile } => if !(200 <= status < 300) {
            Err(
                ErrorView {
                    kind: ErrorKind::HttpError,
                    message: "UCP merchant discovery failed: HTTP "@ + status_text@,
                },
            )
        } else {
            match profile {
                Some(profile) => Ok(profile),
                None => Err(
                    ErrorView {
                        kind: ErrorKind::Unreadable,
                        message: "UCP merchant profile parse error"@,
                    },
                ),
            }
        },
    }
}

/// Where a merchant's profile is found.
pub fn merchant_profile_url(merchant_url: &str) -> (r: String)
    ensures
        r@ == profile_address(merchant_url@),
{
    join2(trim_end_slashes(merchant_url), "/.well-known/ucp")
}

/// The profile that a reply brings.
pub fn read_merchant_profile(reply: DiscoveryReply) -> (r: Result<MerchantProfile, UcpError>)
    ensures
        match r {
            Ok(profile) => discovered(reply) == Ok::<MerchantProfile, ErrorView>(profile),
            Err(e) => discovered(reply) == Err::<MerchantProfile, ErrorView>(e@),
        },
{
    match reply {
        DiscoveryReply::SendFailed => Err(
            UcpError::new(
                ErrorKind::RequestFailed,
                "UCP merchant discovery request failed".to_owned(),
            ),
        ),
        DiscoveryReply::AddressBlocked { reason } => Err(
            UcpError::new(
                ErrorKind::AddressBlocked,
                join2("UCP discovery SSRF blocked: ", reason.as_str()),
            ),
        ),
        DiscoveryReply::Answered { status, status_text, profile } => if status < 200 || status
            >= 300 {
            Err(
                UcpError::new(
                    ErrorKind::HttpError,
                    join2("UCP merchant discovery failed: HTTP ", status_text.as_str()),
                ),
            )
        } else {
            match profile {
                Some(profile) => Ok(profile),
                None => Err(
                    UcpError::new(
                        ErrorKind::Unreadable,
                        "UCP merchant profile parse error".to_owned(),
                    ),
                ),
            }
        },
    }
}

/// The endpoint at which a tool's purchases are made, given the merchant's profile: the merchant
/// offers every capability that the tool requires, and its shopping service lies where the
/// operator lets it.
pub open spec fn approved_endpoint(config: UcpToolConfig, profile: MerchantProfile) -> Result<
    TransportView,
    ErrorView,
> {
    match capability_verdict(profile.capabilities@, config.capabilities@) {
        Err(e) => Err(e),
        Ok(_) => match resolved(profile.services@, "dev.ucp.shopping"@, config.transport@) {
            Err(e) => Err(e),
            Ok(transport) => match endpoint_allowed(
                transport.endpoint(),
                config.merchant_url@,
                config.allowed_endpoint_origins@,
            ) {
                Err(e) => Err(e),
                Ok(_) => Ok(transport),
            },
        },
    }
}

/// Finds the endpoint at which a tool's purchases are made.
pub fn approve_endpoint(config: &UcpToolConfig, profile: &MerchantProfile) -> (r: Result<
    ResolvedTransport,
    UcpError,
>)
    ensures
        match r {
            Ok(t) => approved_endpoint(*config, *profile) == Ok::<TransportView, ErrorView>(t@),
            Err(e) => approved_endpoint(*config, *profile) == Err::<TransportView, ErrorView>(e@),
        },
{
    match validate_capabilities(profile, config.capabilities.as_slice()) {
        Ok(_) => {},
        Err(e) => {
            return Err(e);
        },
    }
    let transport = match resolve_endpoint(
        profile,
        "dev.ucp.shopping",
        config.transport.as_str(),
    ) {
        Ok(transport) => transport,
        Err(e) => {
            return Err(e);
        },
    };
    match enforce_endpoint_origin(
        transport.endpoint(),
        config.merchant_url.as_str(),
        config.allowed_endpoint_origins.as_slice(),
    ) {
        Ok(_) => Ok(transport),
        Err(e) => Err(e),
    }
}

} // verus!
