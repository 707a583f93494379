//! What passes between the plugin and the gateway that hosts it.

use vstd::prelude::*;

use crate::json::{Json, JsonView};
use crate::text::{escape, join2};

verus! {

/// Who calls a tool, as far as the gateway knows.
#[derive(Clone, Debug)]
pub struct PluginIdentity {
    /// The authenticated subject.
    pub subject_id: Option<String>,
    /// Who vouches for the subject.
    pub issuer: Option<String>,
}

/// The call that the plugin is asked about.
#[derive(Clone, Debug)]
pub struct PluginContext {
    /// What is called: a tool is the "tool" surface.
    pub surface: String,
    /// The MCP session of the connection.
    pub session_id: Option<String>,
    /// The tool that is called.
    pub tool_name: String,
    /// Who calls.
    pub identity: PluginIdentity,
}

/// The answer of the plugin.
#[derive(Debug)]
pub enum GateDecision {
    /// The call goes through, with metadata for the caller if there is any.
    Allow { metadata: Option<Json> },
    /// The call is refused.
    Deny { http_status: u16, code: i32, message: String, error_data: Option<Json> },
    /// The caller has something to do first.
    Challenge { http_status: u16, code: i32, message: String, challenge_data: Json },
}

/// What an answer says.
#[verifier::ext_equal]
pub enum DecisionView {
    Allow { metadata: Option<JsonView> },
    Deny { http_status: u16, code: i32, message: Seq<char>, error_data: Option<JsonView> },
    Challenge { http_status: u16, code: i32, message: Seq<char>, challenge_data: JsonView },
}

/// The meaning of a value that may be missing.
pub open spec fn optional_json(v: Option<Json>) -> Option<JsonView> {
    match v {
        Some(j) => Some(j@),
        None => None,
    }
}

impl View for GateDecision {
    type V = DecisionView;

    open spec fn view(&self) -> DecisionView {
        match self {
            GateDecision::Allow { metadata } => DecisionView::Allow {
                metadata: optional_json(*metadata),
            },
            GateDecision::Deny { http_status, code, message, error_data } => DecisionView::Deny {
                http_status: *http_status,
                code: *code,
                message: message@,
                error_data: optional_json(*error_data),
            },
            GateDecision::Challenge { http_status, code, message, challenge_data } => {
                DecisionView::Challenge {
                    http_status: *http_status,
                    code: *code,
                    message: message@,
                    challenge_data: challenge_data@,
                }
            },
        }
    }
}

impl DecisionView {
    /// The call goes through, and nothing goes with it.
    pub open spec fn allow() -> DecisionView {
        DecisionView::Allow { metadata: None }
    }

    /// The word under which the answer is counted.
    pub open spec fn outcome(self) -> Seq<char> {
        match self {
            DecisionView::Allow { .. } => "allow"@,
            DecisionView::Deny { .. } => "deny"@,
            DecisionView::Challenge { .. } => "challenge"@,
        }
    }
}

impl GateDecision {
    /// The call goes through, and nothing goes with it.
    pub fn allow() -> (r: GateDecision)
        ensures
            r@ == DecisionView::allow(),
    {
        GateDecision::Allow { metadata: None }
    }

    /// The call goes through with metadata for the caller.
    pub fn allow_with_metadata(metadata: Json) -> (r: GateDecision)
        ensures
            r@ == (DecisionView::Allow { metadata: Some(metadata@) }),
    {
        GateDecision::Allow { metadata: Some(metadata) }
    }

    /// Does the call go through?
    pub fn is_allow(&self) -> (r: bool)
        ensures
            r == (self@ is Allow),
    {
        match self {
            GateDecision::Allow { .. } => true,
            _ => false,
        }
    }

    /// The word under which the answer is counted.
    pub fn outcome(&self) -> (r: &'static str)
        ensures
            r@ == self@.outcome(),
    {
        match self {
            GateDecision::Allow { .. } => "allow",
            GateDecision::Deny { .. } => "deny",
            GateDecision::Challenge { .. } => "challenge",
        }
    }
}

/// The text of a string that may be missing, or else `other`.
pub open spec fn text_or(s: Option<String>, other: Seq<char>) -> Seq<char> {
    match s {
        Some(t) => t@,
        None => other,
    }
}

/// Whom a checkout belongs to.
#[verifier::ext_equal]
pub enum Principal {
    /// An authenticated subject.
    Subject { subject: Seq<char>, issuer: Seq<char> },
    /// An anonymous connection.
    Connection(Seq<char>),
}

impl PluginContext {
    /// Whom a checkout opened by this call belongs to: the subject, if there is one and it is not
    /// empty, or else the connection.
    pub open spec fn principal(self) -> Principal {
        match self.identity.subject_id {
            Some(subject) => if subject@.len() > 0 {
                Principal::Subject {
                    subject: subject@,
                    issuer: text_or(self.identity.issuer, Seq::empty()),
                }
            } else {
                Principal::Connection(text_or(self.session_id, "anon"@))
            },
            None => Principal::Connection(text_or(self.session_id, "anon"@)),
        }
    }
}

impl Principal {
    /// The ownership key of the principal. A bar in a subject is escaped, so that the one after it
    /// parts it from the issuer.
    pub open spec fn key(self) -> Seq<char> {
        match self {
            Principal::Subject { subject, issuer } => "sub:"@ + crate::text::escaped(subject)
                + "|"@ + issuer,
            Principal::Connection(id) => "sess:"@ + id,
        }
    }
}

/// Stable ownership key for a checkout session. An authenticated caller is keyed by subject and
/// issuer; an anonymous caller falls back to its MCP session id, so that a different connection
/// cannot address its session.
pub fn checkout_owner_key(ctx: &PluginContext) -> (r: String)
    ensures
        r@ == ctx.principal().key(),
{
    if let Some(subject) = &ctx.identity.subject_id {
        if !subject.as_str().is_empty() {
            let key = join2(join2("sub:", escape(subject.as_str()).as_str()).as_str(), "|");
            return match &ctx.identity.issuer {
                Some(issuer) => join2(key.as_str(), issuer.as_str()),
                None => {
                    proof {
                        assert(key@ + Seq::<char>::empty() =~= key@);
                    }
                    key
                },
            };
        }
    }
    match &ctx.session_id {
        Some(id) => join2("sess:", id.as_str()),
        None => join2("sess:", "anon"),
    }
}

/// What kind of plugin this is.
#[derive(Clone, Copy, Debug, PartialEq, Eq, Structural)]
pub enum PluginClass {
    ToolGate,
}

/// What the plugin says of itself.
#[derive(Clone, Debug)]
pub struct PluginManifest {
    pub id: String,
    pub version: String,
    pub name: String,
    pub plugin_class: PluginClass,
    pub protocol_version: String,
    pub license: Option<String>,
    pub required_capabilities: Vec<String>,
    pub tags: Vec<String>,
    pub provides: Vec<String>,
    pub provides_schemes: Vec<String>,
    pub module_path_prefix: String,
    pub backend_profile: Option<String>,
}

/// A payment protocol.
#[derive(Clone, Copy, Debug, PartialEq, Eq, Structural)]
pub enum PaymentProtocol {
    Ucp,
}

/// What kind of payment a plugin handles.
#[derive(Clone, Copy, Debug, PartialEq, Eq, Structural)]
pub enum PaymentCategory {
    Commerce,
}

/// How a plugin handles payments.
#[derive(Clone, Debug)]
pub struct PaymentCapability {
    pub protocol: PaymentProtocol,
    pub methods: Vec<String>,
    pub supports_sessions: bool,
    pub supports_commerce: bool,
    pub meta_prefix: String,
}

} // verus!
