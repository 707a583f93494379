//! Calls to a merchant: what is sent, and what comes of it.

use vstd::prelude::*;

use crate::checkout::{CheckoutStatus, SessionView, UcpCheckoutSession};
use crate::error::{ErrorKind, ErrorView, UcpError};
use crate::json::{Json, JsonMap, JsonView};
use crate::text::{decimal_text, join2, join3, trim_end_slashes};

verus! {

/// The calls that the plugin makes to a merchant.
#[derive(Clone, Copy, Debug, PartialEq, Eq, Structural)]
pub enum MerchantCall {
    CreateCheckout,
    CompleteCheckout,
}

/// A request to be sent to a merchant: a JSON body, posted to `url`, with the bearer token if
/// there is one.
#[derive(Debug)]
pub struct MerchantRequest {
    pub url: String,
    pub bearer: Option<String>,
    pub body: Json,
}

/// What a request says.
#[verifier::ext_equal]
pub struct RequestView {
    pub url: Seq<char>,
    pub bearer: Option<Seq<char>>,
    pub body: JsonView,
}

/// The text of a string that may be missing.
pub open spec fn optional_string(s: Option<String>) -> Option<Seq<char>> {
    match s {
        Some(t) => Some(t@),
        None => None,
    }
}

impl View for MerchantRequest {
    type V = RequestView;

    open spec fn view(&self) -> RequestView {
        RequestView { url: self.url@, bearer: optional_string(self.bearer), body: self.body@ }
    }
}

/// What came of a request to a merchant.
#[derive(Debug)]
pub enum MerchantReply {
    /// The request did not go through.
    SendFailed { error: String },
    /// The reply came from an address that is not to be trusted.
    AddressBlocked { reason: String },
    /// The reply's body is no JSON.
    Unreadable { error: String },
    /// The merchant answered.
    Answered { status: u16, body: Json },
}

impl MerchantCall {
    /// The last part of the address that the call is posted to.
    pub open spec fn path(self) -> Seq<char> {
        match self {
            MerchantCall::CreateCheckout => "/create_checkout"@,
            MerchantCall::CompleteCheckout => "/complete_checkout"@,
        }
    }

    /// The address that the call is posted to.
    pub open spec fn address(self, endpoint: Seq<char>) -> Seq<char> {
        crate::text::without_end_slashes(endpoint) + self.path()
    }

    /// How the message begins when the request did not go through.
    pub open spec fn send_failure(self) -> Seq<char> {
        match self {
            MerchantCall::CreateCheckout => "UCP merchant request failed: "@,
            MerchantCall::CompleteCheckout => "UCP complete_checkout failed: "@,
        }
    }

    /// How the message begins when the reply's body is no JSON.
    pub open spec fn parse_failure(self) -> Seq<char> {
        match self {
            MerchantCall::CreateCheckout => "UCP merchant response parse error: "@,
            MerchantCall::CompleteCheckout => "UCP complete response parse error: "@,
        }
    }

    /// How the message begins when the merchant reports an HTTP error.
    pub open spec fn http_failure(self) -> Seq<char> {
        match self {
            MerchantCall::CreateCheckout => "UCP merchant create_checkout returned HTTP "@,
            MerchantCall::CompleteCheckout => "UCP complete_checkout returned HTTP "@,
        }
    }

    /// The error that tells of an HTTP error with the given notation of the body.
    pub open spec fn http_error(self, status: u16, body: Seq<char>) -> ErrorView {
        ErrorView {
            kind: ErrorKind::HttpError,
            message: self.http_failure() + crate::text::decimal(status as nat) + ": "@ + body,
        }
    }

    /// What the merchant answered, if it did and reports no HTTP error.
    pub open spec fn answer(self, reply: MerchantReply) -> Result<JsonView, ErrorView> {
        match reply {
            MerchantReply::SendFailed { error } => Err(
                ErrorView {
                    kind: ErrorKind::RequestFailed,
                    message: self.send_failure() + error@,
                },
            ),
            MerchantReply::AddressBlocked { reason } => Err(
                ErrorView {
                    kind: ErrorKind::AddressBlocked,
                    message: "UCP merchant SSRF blocked: "@ + reason@,
                },
            ),
            MerchantReply::Unreadable { error } => Err(
                ErrorView {
                    kind: ErrorKind::Unreadable,
                    message: self.parse_failure() + error@,
                },
            ),
            MerchantReply::Answered { status, body } => if status >= 400 {
                Err(self.http_error(status, crate::json::compact_text(body@)))
            } else {
                Ok(body@)
            },
        }
    }

    /// The address that the call is posted to.
    pub fn url(&self, endpoint: &str) -> (r: String)
        ensures
            r@ == self.address(endpoint@),
    {
        let base = trim_end_slashes(endpoint);
        match self {
            MerchantCall::CreateCheckout => join2(base, "/create_checkout"),
            MerchantCall::CompleteCheckout => join2(base, "/complete_checkout"),
        }
    }

    /// The error that tells of an HTTP error with the given notation of the body.
    pub fn failed_with(&self, status: u16, body: &str) -> (r: UcpError)
        ensures
            r@ == self.http_error(status, body@),
    {
        let head = match self {
            MerchantCall::CreateCheckout => "UCP merchant create_checkout returned HTTP ",
            MerchantCall::CompleteCheckout => "UCP complete_checkout returned HTTP ",
        };
        let line = join3(head, decimal_text(status as u64).as_str(), ": ");
        UcpError::new(ErrorKind::HttpError, join2(line.as_str(), body))
    }

    /// What the merchant answered, if it did and reports no HTTP error.
    pub fn read(&self, reply: MerchantReply) -> (r: Result<Json, UcpError>)
        ensures
            match r {
                Ok(body) => self.answer(reply) == Ok::<JsonView, ErrorView>(body@),
                Err(e) => self.answer(reply) == Err::<JsonView, ErrorView>(e@),
            },
    {
        match reply {
            MerchantReply::SendFailed { error } => {
                let head = match self {
                    MerchantCall::CreateCheckout => "UCP merchant request failed: ",
                    MerchantCall::CompleteCheckout => "UCP complete_checkout failed: ",
                };
                Err(UcpError::new(ErrorKind::RequestFailed, join2(head, error.as_str())))
            },
            MerchantReply::AddressBlocked { reason } => Err(
                UcpError::new(
                    ErrorKind::AddressBlocked,
                    join2("UCP merchant SSRF blocked: ", reason.as_str()),
                ),
            ),
            MerchantReply::Unreadable { error } => {
                let head = match self {
                    MerchantCall::CreateCheckout => "UCP merchant response parse error: ",
                    MerchantCall::CompleteCheckout => "UCP complete response parse error: ",
                };
                Err(UcpError::new(ErrorKind::Unreadable, join2(head, error.as_str())))
            },
            MerchantReply::Answered { status, body } => if status >= 400 {
                Err(self.failed_with(status, body.to_string().as_str()))
            } else {
                Ok(body)
            },
        }
    }
}

// ---------------------------------------------------------------------------
// Opening a checkout
// ---------------------------------------------------------------------------

/// An object with the one member.
pub open spec fn single(name: Seq<char>, value: JsonView) -> JsonView {
    JsonView::Object(Map::<Seq<char>, JsonView>::empty().insert(name, value))
}

/// An object with the one member.
fn single_object(name: &str, value: Json) -> (r: Json)
    ensures
        r@ == single(name@, value@),
{
    let mut map = JsonMap::new();
    map.insert(name.to_owned(), value);
    Json::Object(map)
}

/// Are there arguments to pass on?
pub open spec fn has_arguments(arguments: JsonView) -> bool {
    arguments matches JsonView::Object(map) && map != Map::<Seq<char>, JsonView>::empty()
}

/// The checkout that the operator configured to start from, or else an empty object.
pub open spec fn seed_or_empty(seed: Option<JsonView>) -> JsonView {
    match seed {
        Some(v) => v,
        None => JsonView::Object(Map::<Seq<char>, JsonView>::empty()),
    }
}

/// Can the arguments, if there are any, be put into the configured checkout? It has to be an object
/// for that, or nothing at all.
pub open spec fn takes_arguments(seed: Option<JsonView>, arguments: JsonView) -> bool {
    has_arguments(arguments) ==> seed_or_empty(seed) is Object || seed_or_empty(seed) is Null
}

/// The `checkout` part of the request that opens a checkout.
pub open spec fn checkout_part(seed: Option<JsonView>, arguments: JsonView) -> JsonView {
    let base = seed_or_empty(seed);
    if has_arguments(arguments) {
        match base {
            JsonView::Object(map) => JsonView::Object(map.insert("tool_arguments"@, arguments)),
            _ => single("tool_arguments"@, arguments),
        }
    } else {
        base
    }
}

/// The body of the request that opens a checkout.
pub open spec fn create_body(
    platform_profile_url: Seq<char>,
    seed: Option<JsonView>,
    arguments: JsonView,
) -> JsonView {
    JsonView::Object(
        Map::<Seq<char>, JsonView>::empty().insert(
            "meta"@,
            single(
                "ucp-agent"@,
                single("profile"@, JsonView::String(platform_profile_url)),
            ),
        ).insert("checkout"@, checkout_part(seed, arguments)),
    )
}

/// Can the arguments, if there are any, be put into the configured checkout?
pub fn seed_takes_arguments(seed: &Option<Json>, arguments: &Json) -> (r: bool)
    ensures
        r == takes_arguments(crate::host::optional_json(*seed), arguments@),
{
    match arguments {
        Json::Object(map) => if map.is_empty() {
            true
        } else {
            match seed {
                None => true,
                Some(Json::Object(_)) => true,
                Some(Json::Null) => true,
                Some(_) => false,
            }
        },
        _ => true,
    }
}

/// Build the create_checkout request body: who asks, and the configured checkout with the tool's
/// arguments as context for the line items.
pub fn build_create_checkout_body(
    platform_profile_url: &str,
    seed: &Option<Json>,
    arguments: &Json,
) -> (r: Json)
    requires
        takes_arguments(crate::host::optional_json(*seed), arguments@),
    ensures
        r@ == create_body(
            platform_profile_url@,
            crate::host::optional_json(*seed),
            arguments@,
        ),
{
    let mut body = JsonMap::new();
    body.insert(
        "meta".to_owned(),
        single_object(
            "ucp-agent",
            single_object("profile", Json::String(platform_profile_url.to_owned())),
        ),
    );
    let has_arguments = match arguments {
        Json::Object(map) => !map.is_empty(),
        _ => false,
    };
    let checkout = if has_arguments {
        let mut map = match seed {
            Some(Json::Object(map)) => map.clone(),
            _ => JsonMap::new(),
        };
        map.insert("tool_arguments".to_owned(), arguments.clone());
        Json::Object(map)
    } else {
        match seed {
            Some(v) => v.clone(),
            None => Json::Object(JsonMap::new()),
        }
    };
    body.insert("checkout".to_owned(), checkout);
    Json::Object(body)
}

// ---------------------------------------------------------------------------
// Completing a checkout
// ---------------------------------------------------------------------------

/// The body of the request that completes a checkout.
pub open spec fn complete_body(session_id: Seq<char>, instrument: JsonView) -> JsonView {
    JsonView::Object(
        Map::<Seq<char>, JsonView>::empty().insert("id"@, JsonView::String(session_id)).insert(
            "checkout"@,
            single("payment"@, single("instruments"@, JsonView::Array(seq![instrument]))),
        ),
    )
}

/// The request that completes a checkout.
pub open spec fn complete_request(
    session: SessionView,
    bearer: Option<Seq<char>>,
    instrument: JsonView,
) -> RequestView {
    RequestView {
        url: MerchantCall::CompleteCheckout.address(session.transport.endpoint()),
        bearer,
        body: complete_body(session.session_id, instrument),
    }
}

/// The session after a successful completion call. Unlike in between, a reply without a status
/// counts as `Incomplete`: only what this very reply reports can settle the checkout.
pub open spec fn after_completion(session: SessionView, body: JsonView) -> SessionView {
    SessionView {
        status: crate::checkout::reported_status(body),
        last_response: body,
        ..session
    }
}

/// Builds the request that completes a checkout.
pub fn build_complete_request(
    session: &UcpCheckoutSession,
    bearer: Option<String>,
    instrument: &Json,
) -> (r: MerchantRequest)
    ensures
        r@ == complete_request(session@, optional_string(bearer), instrument@),
{
    let mut instruments: Vec<Json> = Vec::new();
    instruments.push(instrument.clone());
    let list = Json::Array(instruments);
    proof {
        assert(list@->Array_0 =~= seq![instrument@]);
    }
    let mut body = JsonMap::new();
    body.insert("id".to_owned(), Json::String(session.session_id.clone()));
    body.insert(
        "checkout".to_owned(),
        single_object("payment", single_object("instruments", list)),
    );
    MerchantRequest {
        url: MerchantCall::CompleteCheckout.url(session.transport.endpoint()),
        bearer,
        body: Json::Object(body),
    }
}

/// Takes what came of completing a checkout into the session. A failed call leaves it as it was.
pub fn complete_checkout(session: &mut UcpCheckoutSession, reply: MerchantReply) -> (r: Result<
    (),
    UcpError,
>)
    ensures
        match MerchantCall::CompleteCheckout.answer(reply) {
            Ok(body) => {
                &&& r is Ok
                &&& final(session)@ == after_completion(old(session)@, body)
                &&& final(session).created_at == old(session).created_at
            },
            Err(e) => {
                &&& r matches Err(error) && error@ == e
                &&& *final(session) == *old(session)
            },
        },
{
    let body = match MerchantCall::CompleteCheckout.read(reply) {
        Ok(body) => body,
        Err(e) => {
            return Err(e);
        },
    };
    if body.get_str("status").is_none() {
        session.status = CheckoutStatus::Incomplete;
    }
    session.update_from_response(body);
    Ok(())
}

} // verus!
