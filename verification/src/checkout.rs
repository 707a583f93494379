//! Checkout sessions: what the plugin knows of a purchase in progress.

use std::time::{Duration, Instant};

use vstd::prelude::*;

use crate::clock::{age_of, outlived};
use crate::json::{Json, JsonMap, JsonNumber, JsonView};
use crate::text::same;

verus! {

/// Status of a UCP checkout session.
#[derive(Clone, Copy, Debug, PartialEq, Eq, Structural)]
pub enum CheckoutStatus {
    /// Session created, items being added.
    Incomplete,
    /// Merchant requires additional info (address, shipping).
    RequiresAction,
    /// All required fields filled, ready for payment.
    ReadyForComplete,
    /// Complete in progress.
    CompleteInProgress,
    /// Session successfully completed.
    Completed,
    /// Session canceled.
    Canceled,
}

/// Transport used for a checkout session.
#[derive(Clone, Debug)]
pub enum SessionTransport {
    Mcp { endpoint: String },
    Rest { endpoint: String },
}

/// What a transport says: which one it is, and where it leads.
#[verifier::ext_equal]
pub enum TransportView {
    Mcp(Seq<char>),
    Rest(Seq<char>),
}

impl TransportView {
    /// The address that the transport leads to.
    pub open spec fn endpoint(self) -> Seq<char> {
        match self {
            TransportView::Mcp(endpoint) => endpoint,
            TransportView::Rest(endpoint) => endpoint,
        }
    }
}

impl View for SessionTransport {
    type V = TransportView;

    open spec fn view(&self) -> TransportView {
        match self {
            SessionTransport::Mcp { endpoint } => TransportView::Mcp(endpoint@),
            SessionTransport::Rest { endpoint } => TransportView::Rest(endpoint@),
        }
    }
}

impl SessionTransport {
    /// The address that the transport leads to.
    pub fn endpoint(&self) -> (r: &str)
        ensures
            r@ == self@.endpoint(),
    {
        match self {
            SessionTransport::Mcp { endpoint } => endpoint.as_str(),
            SessionTransport::Rest { endpoint } => endpoint.as_str(),
        }
    }
}

/// An active UCP checkout session.
#[derive(Debug)]
pub struct UcpCheckoutSession {
    /// Merchant-assigned session ID.
    pub session_id: String,
    /// Ownership key of the principal that created this session. Only that principal may address
    /// it later. Set by the plugin after construction; empty until then.
    pub owner: String,
    /// Current session status.
    pub status: CheckoutStatus,
    /// Merchant base URL.
    pub merchant_url: String,
    /// Merchant endpoint URL.
    pub merchant_endpoint: String,
    /// Transport type.
    pub transport: SessionTransport,
    /// Full checkout response (last known state).
    pub last_response: Json,
    /// When this session was created.
    pub created_at: Instant,
}

/// What a session says, its time of creation aside.
#[verifier::ext_equal]
pub struct SessionView {
    pub session_id: Seq<char>,
    pub owner: Seq<char>,
    pub status: CheckoutStatus,
    pub merchant_url: Seq<char>,
    pub merchant_endpoint: Seq<char>,
    pub transport: TransportView,
    pub last_response: JsonView,
}

impl View for UcpCheckoutSession {
    type V = SessionView;

    open spec fn view(&self) -> SessionView {
        SessionView {
            session_id: self.session_id@,
            owner: self.owner@,
            status: self.status,
            merchant_url: self.merchant_url@,
            merchant_endpoint: self.merchant_endpoint@,
            transport: self.transport@,
            last_response: self.last_response@,
        }
    }
}

/// The status that a UCP status text stands for. An unknown text stands for `Incomplete`.
pub open spec fn status_of(s: Seq<char>) -> CheckoutStatus {
    if s == "requires_action"@ {
        CheckoutStatus::RequiresAction
    } else if s == "ready_for_complete"@ || s == "ready"@ {
        CheckoutStatus::ReadyForComplete
    } else if s == "complete_in_progress"@ {
        CheckoutStatus::CompleteInProgress
    } else if s == "completed"@ {
        CheckoutStatus::Completed
    } else if s == "canceled"@ || s == "cancelled"@ {
        CheckoutStatus::Canceled
    } else {
        CheckoutStatus::Incomplete
    }
}

/// The status that a merchant's response reports. A missing one counts as `Incomplete`.
pub open spec fn reported_status(response: JsonView) -> CheckoutStatus {
    match response.text_member("status"@) {
        Some(s) => status_of(s),
        None => CheckoutStatus::Incomplete,
    }
}

impl SessionView {
    /// The session after a merchant's response: a status it reports replaces the one before.
    pub open spec fn updated(self, response: JsonView) -> SessionView {
        SessionView {
            status: match response.text_member("status"@) {
                Some(s) => status_of(s),
                None => self.status,
            },
            last_response: response,
            ..self
        }
    }

    /// The payment instruments that the merchant offered last.
    pub open spec fn instruments(self) -> Option<JsonView> {
        match self.last_response.member("payment"@) {
            Some(payment) => payment.member("instruments"@),
            None => None,
        }
    }

    /// The state of the checkout, as a client is told of it.
    pub open spec fn challenge_data(self) -> JsonView {
        let data = Map::<Seq<char>, JsonView>::empty().insert(
            "protocol"@,
            JsonView::String("ucp"@),
        ).insert("httpStatus"@, JsonView::Number(JsonNumber::PosInt(402))).insert(
            "checkout_session"@,
            self.last_response,
        );
        match self.instruments() {
            Some(instruments) => JsonView::Object(
                data.insert("available_payment_instruments"@, instruments),
            ),
            None => JsonView::Object(data),
        }
    }

    /// The merchant's order, or the bare id of the checkout where the merchant gave none.
    pub open spec fn order(self) -> JsonView {
        match self.last_response.member("order"@) {
            Some(order) => order,
            None => JsonView::Object(
                Map::<Seq<char>, JsonView>::empty().insert(
                    "checkout_id"@,
                    JsonView::String(self.session_id),
                ),
            ),
        }
    }

    /// The metadata that goes with a granted call.
    pub open spec fn order_meta(self) -> JsonView {
        JsonView::Object(Map::<Seq<char>, JsonView>::empty().insert("ucp/order"@, self.order()))
    }
}

/// The session that a merchant's response to a new checkout opens, if it has an id. Nobody owns
/// it yet.
pub open spec fn opened(
    response: JsonView,
    merchant_url: Seq<char>,
    merchant_endpoint: Seq<char>,
    transport: TransportView,
) -> Option<SessionView> {
    match response.text_member("id"@) {
        Some(id) => Some(
            SessionView {
                session_id: id,
                owner: Seq::empty(),
                status: reported_status(response),
                merchant_url,
                merchant_endpoint,
                transport,
                last_response: response,
            },
        ),
        None => None,
    }
}

/// The status that a UCP status text stands for.
pub fn parse_status(s: &str) -> (r: CheckoutStatus)
    ensures
        r == status_of(s@),
{
    if same(s, "requires_action") {
        CheckoutStatus::RequiresAction
    } else if same(s, "ready_for_complete") || same(s, "ready") {
        CheckoutStatus::ReadyForComplete
    } else if same(s, "complete_in_progress") {
        CheckoutStatus::CompleteInProgress
    } else if same(s, "completed") {
        CheckoutStatus::Completed
    } else if same(s, "canceled") || same(s, "cancelled") {
        CheckoutStatus::Canceled
    } else {
        CheckoutStatus::Incomplete
    }
}

impl UcpCheckoutSession {
    /// Create a new session from a merchant response. Its life begins when this is asked.
    pub fn from_response(
        response: Json,
        merchant_url: String,
        merchant_endpoint: String,
        transport: SessionTransport,
    ) -> (r: Option<UcpCheckoutSession>)
        ensures
            match r {
                Some(session) => {
                    &&& Some(session@) == opened(
                        response@,
                        merchant_url@,
                        merchant_endpoint@,
                        transport@,
                    )
                    &&& crate::clock::clock_reading(session.created_at)
                },
                None => opened(response@, merchant_url@, merchant_endpoint@, transport@) is None,
            },
    {
        Self::from_response_at(
            response,
            merchant_url,
            merchant_endpoint,
            transport,
            Instant::now(),
        )
    }

    /// Create a new session from a merchant response, whose life begins `now`.
    pub fn from_response_at(
        response: Json,
        merchant_url: String,
        merchant_endpoint: String,
        transport: SessionTransport,
        now: Instant,
    ) -> (r: Option<UcpCheckoutSession>)
        ensures
            match r {
                Some(session) => {
                    &&& Some(session@) == opened(
                        response@,
                        merchant_url@,
                        merchant_endpoint@,
                        transport@,
                    )
                    &&& session.created_at == now
                },
                None => opened(response@, merchant_url@, merchant_endpoint@, transport@) is None,
            },
    {
        let session_id = match response.get_str("id") {
            Some(id) => id.to_owned(),
            None => {
                return None;
            },
        };
        let status = match response.get_str("status") {
            Some(s) => parse_status(s),
            None => CheckoutStatus::Incomplete,
        };
        Some(
            UcpCheckoutSession {
                session_id,
                owner: String::new(),
                status,
                merchant_url,
                merchant_endpoint,
                transport,
                last_response: response,
                created_at: now,
            },
        )
    }

    /// Update the session with a new response.
    pub fn update_from_response(&mut self, response: Json)
        ensures
            final(self)@ == old(self)@.updated(response@),
            final(self).created_at == old(self).created_at,
    {
        match response.get_str("status") {
            Some(s) => {
                self.status = parse_status(s);
            },
            None => {},
        }
        self.last_response = response;
    }

    /// Check if the session has expired. How old it is depends on when this is asked.
    pub fn is_expired(&self, ttl: Duration) -> (r: bool)
        ensures
            exists|age: u128| #[trigger]
                crate::clock::can_be_aged(self.created_at, age) && r == (age
                    >= crate::clock::duration_nanos(ttl)),
    {
        self.is_expired_at(age_of(&self.created_at), ttl)
    }

    /// Check if the session has expired when it is `age` nanoseconds old.
    pub fn is_expired_at(&self, age: u128, ttl: Duration) -> (r: bool)
        ensures
            r == (age >= crate::clock::duration_nanos(ttl)),
    {
        outlived(age, ttl)
    }

    /// Has the merchant reported this checkout as settled (paid)?
    ///
    /// Only a `Completed` status counts. Every other status means payment is not confirmed.
    pub fn is_settled(&self) -> (r: bool)
        ensures
            r == (self@.status == CheckoutStatus::Completed),
    {
        self.status == CheckoutStatus::Completed
    }

    /// Build the challenge data to return to the client.
    pub fn build_challenge_data(&self) -> (r: Json)
        ensures
            r@ == self@.challenge_data(),
    {
        let mut data = JsonMap::new();
        data.insert("protocol".to_owned(), Json::String("ucp".to_owned()));
        data.insert("httpStatus".to_owned(), Json::Number(JsonNumber::PosInt(402)));
        data.insert("checkout_session".to_owned(), self.last_response.clone());
        if let Some(payment) = self.last_response.get("payment") {
            if let Some(instruments) = payment.get("instruments") {
                data.insert("available_payment_instruments".to_owned(), instruments.clone());
            }
        }
        Json::Object(data)
    }

    /// Build the order metadata for a completed session.
    ///
    /// Emits the merchant's own `order` object. Where the merchant gave none, a bare reference to
    /// the checkout stands in its place, without any status.
    pub fn build_order_meta(&self) -> (r: Json)
        ensures
            r@ == self@.order_meta(),
    {
        let order = match self.last_response.get("order") {
            Some(order) => order.clone(),
            None => {
                let mut bare = JsonMap::new();
                bare.insert("checkout_id".to_owned(), Json::String(self.session_id.clone()));
                Json::Object(bare)
            },
        };
        let mut meta = JsonMap::new();
        meta.insert("ucp/order".to_owned(), order);
        Json::Object(meta)
    }
}

} // verus!
