//! What the operator configures: the protocol's settings and the tools that sell something.

use vstd::prelude::*;

use crate::assoc;
use crate::json::Json;
use crate::text;
use crate::text::stands_before;

verus! {

/// Top-level UCP protocol configuration.
#[derive(Clone, Debug)]
pub struct UcpProtocolConfig {
    /// Platform profile URL advertised to merchants.
    pub platform_profile_url: String,
    /// Session TTL in milliseconds.
    pub session_ttl_ms: u64,
    /// Discovery cache TTL in milliseconds.
    pub discovery_cache_ttl_ms: u64,
    /// Preferred transport for merchant communication, "mcp" or "rest". Endpoint resolution goes
    /// by the transport of the tool.
    pub default_transport: String,
    /// HTTP timeout in milliseconds.
    pub http_timeout_ms: u64,
}

/// Per-tool UCP configuration.
#[derive(Clone, Debug)]
pub struct UcpToolConfig {
    /// Merchant's base URL (used for discovery).
    pub merchant_url: String,
    /// Origins the merchant's discovery document is permitted to name as its service endpoint, in
    /// addition to `merchant_url`'s own origin.
    pub allowed_endpoint_origins: Vec<String>,
    /// Required UCP capabilities.
    pub capabilities: Vec<String>,
    /// Preferred transport: "mcp" or "rest".
    pub transport: String,
    /// Whether to enable AP2 mandate signing. Accepted and not acted on.
    pub enable_ap2: bool,
    /// Bearer token used to authenticate to the merchant.
    pub auth_token: Option<String>,
    /// Static arguments to pass to checkout (e.g., pre-selected items).
    pub default_checkout_args: Option<Json>,
}

/// The texts of a list of strings.
pub open spec fn texts(list: Seq<String>) -> Seq<Seq<char>> {
    list.map_values(|s: String| s@)
}

/// The lifetime of a checkout where none is configured, in milliseconds.
pub fn default_session_ttl() -> (r: u64)
    ensures
        r == 3600,
{
    3600
}

/// The lifetime of a cached merchant profile where none is configured, in milliseconds.
pub fn default_discovery_cache_ttl() -> (r: u64)
    ensures
        r == 3600,
{
    3600
}

/// The transport where none is configured.
pub fn default_transport() -> (r: String)
    ensures
        r@ == "rest"@,
{
    "rest".to_owned()
}

/// The timeout of a request where none is configured, in milliseconds.
pub fn default_http_timeout() -> (r: u64)
    ensures
        r == 30,
{
    30
}

/// The capabilities that a merchant must offer where none are configured.
pub fn default_capabilities() -> (r: Vec<String>)
    ensures
        texts(r@) == seq!["dev.ucp.shopping.checkout"@],
{
    let mut r: Vec<String> = Vec::new();
    r.push("dev.ucp.shopping.checkout".to_owned());
    proof {
        assert(texts(r@) =~= seq!["dev.ucp.shopping.checkout"@]);
    }
    r
}

impl UcpToolConfig {
    /// The merchant bearer token, if one is configured and not empty.
    pub open spec fn bearer(self) -> Option<Seq<char>> {
        match self.auth_token {
            Some(token) => if token@.len() > 0 {
                Some(token@)
            } else {
                None
            },
            None => None,
        }
    }

    /// The merchant bearer token, if one is configured and not empty: a public merchant needs none.
    pub fn auth_token(&self) -> (r: Option<String>)
        ensures
            match r {
                Some(token) => self.bearer() == Some(token@),
                None => self.bearer() is None,
            },
    {
        match &self.auth_token {
            Some(token) => if !token.as_str().is_empty() {
                Some(token.clone())
            } else {
                None
            },
            None => None,
        }
    }
}

/// The tools put behind checkout, by name, in the order of their names.
#[derive(Debug)]
pub struct ToolTable {
    entries: Vec<(String, UcpToolConfig)>,
}

/// The names stand in order, each once.
pub closed spec fn ordered(entries: Seq<(String, UcpToolConfig)>) -> bool {
    forall|i: int, j: int|
        0 <= i < j < entries.len() ==> text::before(
            (#[trigger] entries[i]).0@,
            (#[trigger] entries[j]).0@,
        )
}

impl View for ToolTable {
    type V = Map<Seq<char>, UcpToolConfig>;

    closed spec fn view(&self) -> Map<Seq<char>, UcpToolConfig> {
        Map::new(
            |name: Seq<char>| assoc::named(self.entries@, name),
            |name: Seq<char>| self.entries@[assoc::position(self.entries@, name)].1,
        )
    }
}

/// In an ordered list a name stands at one place only.
proof fn lemma_one_place(entries: Seq<(String, UcpToolConfig)>, i: int)
    requires
        ordered(entries),
        0 <= i < entries.len(),
    ensures
        assoc::position(entries, entries[i].0@) == i,
{
    let name = entries[i].0@;
    assert forall|j: int| 0 <= j < i implies #[trigger] entries[j].0@ != name by {
        assert(text::before(entries[j].0@, entries[i].0@));
        text::lemma_before_irreflexive(name);
    }
    assoc::lemma_position_unique(entries, name, i);
}

/// A new name put at its place in the order leaves the others as they were.
proof fn lemma_placed(
    entries: Seq<(String, UcpToolConfig)>,
    at: int,
    name: String,
    config: UcpToolConfig,
    after: Seq<(String, UcpToolConfig)>,
)
    requires
        ordered(entries),
        0 <= at <= entries.len(),
        !assoc::named(entries, name@),
        forall|i: int| 0 <= i < at ==> text::before((#[trigger] entries[i]).0@, name@),
        at < entries.len() ==> text::before(name@, entries[at].0@),
        after == entries.insert(at, (name, config)),
    ensures
        ordered(after),
        assoc::position(after, name@) == at,
{
    assert forall|i: int| at <= i < entries.len() implies text::before(
        name@,
        (#[trigger] entries[i]).0@,
    ) by {
        if at < i {
            text::lemma_before_transitive(name@, entries[at].0@, entries[i].0@);
        }
    }
    assert forall|i: int, j: int| 0 <= i < j < after.len() implies text::before(
        (#[trigger] after[i]).0@,
        (#[trigger] after[j]).0@,
    ) by {
        let i0 = if i < at {
            i
        } else {
            i - 1
        };
        let j0 = if j < at {
            j
        } else {
            j - 1
        };
        if i != at {
            assert(after[i] == entries[i0]);
        }
        if j != at {
            assert(after[j] == entries[j0]);
        }
    }
    lemma_one_place(after, at);
}

/// Putting a new entry into an ordered list moves no other name to another entry.
proof fn lemma_others_stay(
    entries: Seq<(String, UcpToolConfig)>,
    at: int,
    entry: (String, UcpToolConfig),
    after: Seq<(String, UcpToolConfig)>,
    n: Seq<char>,
)
    requires
        ordered(after),
        0 <= at <= entries.len(),
        after == entries.insert(at, entry),
        n != entry.0@,
    ensures
        assoc::named(after, n) == assoc::named(entries, n),
        assoc::named(entries, n) ==> after[assoc::position(after, n)] == entries[assoc::position(
            entries,
            n,
        )],
{
    assoc::lemma_position(entries, n);
    assoc::lemma_position(after, n);
    let p = assoc::position(entries, n);
    if p < entries.len() {
        let q = if p < at {
            p
        } else {
            p + 1
        };
        assert(after[q] == entries[p]);
        lemma_one_place(after, q);
    } else if assoc::named(after, n) {
        let q = assoc::position(after, n);
        let q0 = if q < at {
            q
        } else {
            q - 1
        };
        assert(after[q] == entries[q0]);
        assert(entries[q0].0@ != n);
    }
}

impl ToolTable {
    #[verifier::type_invariant]
    spec fn in_order(self) -> bool {
        ordered(self.entries@)
    }

    /// A table without tools.
    pub fn new() -> (r: ToolTable)
        ensures
            r@ == Map::<Seq<char>, UcpToolConfig>::empty(),
    {
        let r = ToolTable { entries: Vec::new() };
        proof {
            assert(r@ =~= Map::empty());
        }
        r
    }

    /// Are there no tools?
    pub fn is_empty(&self) -> (r: bool)
        ensures
            r == (self@ == Map::<Seq<char>, UcpToolConfig>::empty()),
    {
        proof {
            if self.entries@.len() > 0 {
                let name = self.entries@[0].0@;
                assoc::lemma_position(self.entries@, name);
                assert(self@.contains_key(name));
            } else {
                assert(self@ =~= Map::empty());
            }
        }
        self.entries.len() == 0
    }

    /// The configuration of the tool named `name`.
    pub fn get(&self, name: &str) -> (r: Option<&UcpToolConfig>)
        ensures
            match r {
                Some(config) => self@.contains_key(name@) && *config == self@[name@],
                None => !self@.contains_key(name@),
            },
    {
        let p: usize = assoc::find(&self.entries, name);
        if p < self.entries.len() {
            Some(&self.entries[p].1)
        } else {
            None
        }
    }

    /// The configuration of the tool named `name`, which is there.
    pub(crate) fn at(&self, name: &str) -> (r: &UcpToolConfig)
        requires
            self@.contains_key(name@),
        ensures
            *r == self@[name@],
    {
        let p: usize = assoc::find(&self.entries, name);
        &self.entries[p].1
    }

    /// Puts the tool `name` behind checkout, new or in place of the configuration it had.
    pub fn insert(&mut self, name: String, config: UcpToolConfig)
        ensures
            final(self)@ == old(self)@.insert(name@, config),
    {
        proof {
            use_type_invariant(&*self);
        }
        let ghost before = self.entries@;
        let ghost key = name@;
        let ghost wanted = self@.insert(key, config);
        let mut entries: Vec<(String, UcpToolConfig)> = Vec::new();
        std::mem::swap(&mut entries, &mut self.entries);
        let p: usize = assoc::find(&entries, name.as_str());
        proof {
            assoc::lemma_position(before, key);
        }
        if p < entries.len() {
            entries.set(p, (name, config));
            proof {
                let after = entries@;
                assert forall|i: int, j: int| 0 <= i < j < after.len() implies text::before(
                    (#[trigger] after[i]).0@,
                    (#[trigger] after[j]).0@,
                ) by {
                    assert(after[i].0@ == before[i].0@);
                    assert(after[j].0@ == before[j].0@);
                }
                assert forall|n: Seq<char>|
                    #[trigger] assoc::position(after, n) == assoc::position(before, n) by {
                    assoc::lemma_position(before, n);
                    let q = assoc::position(before, n);
                    assert forall|j: int| 0 <= j < q implies #[trigger] after[j].0@ != n by {
                        assert(after[j].0@ == before[j].0@);
                        assert(before[j].0@ != n);
                    }
                    assoc::lemma_position_unique(after, n, q);
                }
                assert forall|n: Seq<char>| n != key && assoc::named(before, n) implies after[
                #[trigger] assoc::position(before, n)] == before[assoc::position(before, n)] by {
                    assoc::lemma_position(before, n);
                }
            }
            self.entries = entries;
        } else {
            let mut at: usize = 0;
            while at < entries.len() && !stands_before(name.as_str(), entries[at].0.as_str())
                invariant
                    entries@ == before,
                    name@ == key,
                    at <= entries@.len(),
                    ordered(before),
                    !assoc::named(before, key),
                    forall|i: int| 0 <= i < at ==> text::before((#[trigger] before[i]).0@, key),
                decreases entries@.len() - at,
            {
                proof {
                    assoc::lemma_position(before, key);
                    assert(before[at as int].0@ != key);
                    text::lemma_before_total(key, before[at as int].0@);
                }
                at = at + 1;
            }
            entries.insert(at, (name, config));
            proof {
                lemma_placed(before, at as int, name, config, entries@);
                assert forall|n: Seq<char>| n != key implies #[trigger] assoc::named(entries@, n)
                    == assoc::named(before, n) by {
                    lemma_others_stay(before, at as int, (name, config), entries@, n);
                }
                assert forall|n: Seq<char>| n != key && assoc::named(before, n) implies entries@[
                #[trigger] assoc::position(entries@, n)] == before[assoc::position(before, n)] by {
                    lemma_others_stay(before, at as int, (name, config), entries@, n);
                }
            }
            self.entries = entries;
        }
        proof {
            let after = self.entries@;
            assert forall|n: Seq<char>|
                (#[trigger] self@.contains_key(n) <==> wanted.contains_key(n)) && (
                self@.contains_key(n) ==> self@[n] == wanted[n]) by {
                assert(assoc::named(after, n) == (n == key || assoc::named(before, n)));
                if n != key && assoc::named(before, n) {
                    assert(after[assoc::position(after, n)] == before[assoc::position(before, n)]);
                }
            }
            assert(self@ =~= wanted);
        }
    }

    /// The names of the tools, in order.
    pub fn names(&self) -> (r: Vec<String>)
        ensures
            forall|i: int, j: int|
                0 <= i < j < r@.len() ==> text::before((#[trigger] r@[i])@, (#[trigger] r@[j])@),
            forall|name: Seq<char>|
                self@.contains_key(name) <==> #[trigger] texts(r@).contains(name),
    {
        proof {
            use_type_invariant(self);
        }
        let mut r: Vec<String> = Vec::new();
        let mut i: usize = 0;
        while i < self.entries.len()
            invariant
                i <= self.entries@.len(),
                r@.len() == i,
                forall|j: int| 0 <= j < i ==> (#[trigger] r@[j])@ == self.entries@[j].0@,
            decreases self.entries@.len() - i,
        {
            r.push(self.entries[i].0.clone());
            i = i + 1;
        }
        proof {
            assert forall|j: int, k: int| 0 <= j < k < r@.len() implies text::before(
                (#[trigger] r@[j])@,
                (#[trigger] r@[k])@,
            ) by {
                assert(text::before(self.entries@[j].0@, self.entries@[k].0@));
            }
            assert forall|name: Seq<char>|
                self@.contains_key(name) <==> #[trigger] texts(r@).contains(name) by {
                assoc::lemma_position(self.entries@, name);
                if self@.contains_key(name) {
                    let p = assoc::position(self.entries@, name);
                    assert(texts(r@)[p] == name);
                } else if texts(r@).contains(name) {
                    let p = choose|p: int| 0 <= p < texts(r@).len() && texts(r@)[p] == name;
                    assert(r@[p]@ == name);
                    assert(self.entries@[p].0@ != name);
                }
            }
        }
        r
    }

    /// The first tool, in order, that has no merchant.
    pub fn first_without_merchant(&self) -> (r: Option<&str>)
        ensures
            match r {
                Some(name) => least_without_merchant(self@, name@),
                None => forall|name: Seq<char>|
                    #[trigger] self@.contains_key(name) ==> self@[name].merchant_url@.len() > 0,
            },
    {
        proof {
            use_type_invariant(self);
        }
        let mut i: usize = 0;
        while i < self.entries.len()
            invariant
                i <= self.entries@.len(),
                ordered(self.entries@),
                forall|j: int|
                    0 <= j < i ==> (#[trigger] self.entries@[j]).1.merchant_url@.len() > 0,
            decreases self.entries@.len() - i,
        {
            if self.entries[i].1.merchant_url.as_str().is_empty() {
                proof {
                    let name = self.entries@[i as int].0@;
                    lemma_one_place(self.entries@, i as int);
                    assert forall|other: Seq<char>|
                        #[trigger] self@.contains_key(other) && self@[other].merchant_url@.len()
                            == 0 && other != name implies text::before(name, other) by {
                        assoc::lemma_position(self.entries@, other);
                        let p = assoc::position(self.entries@, other);
                        assert(self.entries@[p].1.merchant_url@.len() == 0);
                    }
                    assert(self@.contains_key(name));
                }
                return Some(self.entries[i].0.as_str());
            }
            i = i + 1;
        }
        proof {
            assert forall|name: Seq<char>| #[trigger] self@.contains_key(name) implies self@[
            name].merchant_url@.len() > 0 by {
                assoc::lemma_position(self.entries@, name);
            }
        }
        None
    }
}

/// `name` is a tool without a merchant, and the first such one in the order of names.
pub open spec fn least_without_merchant(
    tools: Map<Seq<char>, UcpToolConfig>,
    name: Seq<char>,
) -> bool {
    &&& tools.contains_key(name)
    &&& tools[name].merchant_url@.len() == 0
    &&& forall|other: Seq<char>|
        #[trigger] tools.contains_key(other) && tools[other].merchant_url@.len() == 0 && other
            != name ==> text::before(name, other)
}

} // verus!
