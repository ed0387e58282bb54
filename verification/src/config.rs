//! Reads `[server.*]` definitions where `type = "mcp"` and the
//! `[server.mcp.tool.*]` entries nested within.
//!
//! A tool target is either:
//!
//! - `Component`: invokes a WIT function directly. The tool definition may carry
//!   the four mapping blocks (`param-mapping`, `param-encoding`,
//!   `result-decoding`, `result-mapping`) and an optional `input-schema` /
//!   `output-schema`.
//! - `Channel`: publishes the request as a Message to a channel. The mapping
//!   blocks are not carried here, since whatever subscription consumes from the
//!   channel owns them. Requires an explicit `input-schema`.
//!
//! Selectors, encodings, decodings and propagation entries have grammars of the
//! component runtime's own. A reading that comes upon one stops with a
//! [`Question`]; given the [`Answers`] so far, it goes on.

use vstd::prelude::*;

use crate::config::read::{known_server_keys, read_definition};
use crate::config::rules::{definition, server_keys};
use crate::json::JsonObject;
use crate::pairs::{find, lookup};
use crate::text::same;

pub mod laws;
pub mod model;
pub mod read;
pub mod rules;

pub use crate::config::model::{
    Answers, Halt, MappingConfig, McpServerConfig, PropagatedHeader, PropagationDirection, Question, Reading, ToolConfig,
    ToolTarget,
};
pub use crate::config::read::{parse_propagated_meta_list, parse_tools};
use crate::config::model::McpServerConfigView;

verus! {

/// The servers read so far.
pub type SharedConfig = Vec<McpServerConfig>;

/// An empty list of servers.
pub fn shared_config() -> (r: SharedConfig)
    ensures
        r.deep_view() == Seq::<McpServerConfigView>::empty(),
{
    let r: SharedConfig = Vec::new();
    assert(r.deep_view() =~= Seq::<McpServerConfigView>::empty());
    r
}

/// What the default server stands for: all top-level components, on the local
/// host.
pub open spec fn default_server_view() -> McpServerConfigView {
    McpServerConfigView {
        name: "mcp"@,
        host: "127.0.0.1"@,
        port: 3001,
        allowed_origins: None,
        component_selector: Some("!dependents"@),
        tools: Seq::empty(),
        otlp_endpoint: None,
        otlp_protocol: "grpc"@,
    }
}

/// Makes the default server, for auto-discovery of top-level components.
pub fn default_server() -> (r: McpServerConfig)
    ensures
        r.deep_view() == default_server_view(),
        r.name@ == "mcp"@,
        r.host@ == "127.0.0.1"@,
        r.port == 3001,
        r.allowed_origins is None,
        r.component_selector matches Some(s) && s@ == "!dependents"@,
        r.tools@.len() == 0,
        r.otlp_endpoint is None,
        r.otlp_protocol@ == "grpc"@,
{
    let r = McpServerConfig {
        name: "mcp".to_owned(),
        host: "127.0.0.1".to_owned(),
        port: 3001,
        allowed_origins: None,
        component_selector: Some("!dependents".to_owned()),
        tools: Vec::new(),
        otlp_endpoint: None,
        otlp_protocol: "grpc".to_owned(),
    };
    assert(r.deep_view().tools =~= Seq::empty());
    r
}

/// How a condition of a selector compares a property.
pub enum Operator {
    Equals(String),
}

/// A condition of a selector.
pub struct Condition {
    pub key: String,
    pub operator: Operator,
}

/// Conditions that all have to hold.
pub struct Selector {
    pub conditions: Vec<Condition>,
}

/// Whether a condition holds: the property is there and has the value.
pub open spec fn holds(condition: Condition, properties: Seq<(Seq<char>, Option<Seq<char>>)>) -> bool {
    match condition.operator {
        Operator::Equals(value) => lookup(properties, condition.key@) == Some(Some(value@)),
    }
}

/// Whether properties meet every condition of a selector.
pub open spec fn selects(selector: Selector, properties: Seq<(Seq<char>, Option<Seq<char>>)>) -> bool {
    forall|i: int| 0 <= i < selector.conditions@.len() ==> holds(#[trigger] selector.conditions@[i], properties)
}

impl Selector {
    /// Whether properties, given by their texts, meet every condition.
    pub fn matches(&self, properties: &Vec<(String, Option<String>)>) -> (r: bool)
        ensures
            r == selects(*self, properties.deep_view()),
    {
        let mut i: usize = 0;
        while i < self.conditions.len()
            invariant
                i <= self.conditions.len(),
                forall|k: int| 0 <= k < i ==> holds(#[trigger] self.conditions@[k], properties.deep_view()),
            decreases self.conditions.len() - i,
        {
            let condition = &self.conditions[i];
            let ok = match &condition.operator {
                Operator::Equals(value) => match find(properties, condition.key.as_str()) {
                    Some(Some(got)) => same(got.as_str(), value.as_str()),
                    _ => false,
                },
            };
            assert(ok == holds(self.conditions@[i as int], properties.deep_view()));
            if !ok {
                return false;
            }
            i += 1;
        }
        true
    }
}

/// A category of definitions, of which those that a selector matches are claimed.
pub struct CategoryClaim {
    pub category: String,
    pub selector: Option<Selector>,
}

/// Whether a claim is one on the servers whose type is `mcp`.
pub open spec fn claims_mcp_servers(claim: CategoryClaim) -> bool {
    &&& claim.category@ == "server"@
    &&& claim.selector matches Some(selector) && selector.conditions@.len() == 1 && {
        let condition = selector.conditions@[0];
        condition.key@ == "type"@ && (condition.operator matches Operator::Equals(value) && value@ == "mcp"@)
    }
}

/// Claims `[server.*]` definitions where `type = "mcp"`.
pub struct McpServerConfigHandler {
    servers: SharedConfig,
}

impl View for McpServerConfigHandler {
    type V = Seq<McpServerConfigView>;

    closed spec fn view(&self) -> Seq<McpServerConfigView> {
        self.servers.deep_view()
    }
}

impl McpServerConfigHandler {
    /// A handler that adds to the servers read so far.
    pub fn new(servers: SharedConfig) -> (r: Self)
        ensures
            r@ == servers.deep_view(),
    {
        McpServerConfigHandler { servers }
    }

    /// The servers read so far.
    pub fn servers(&self) -> (r: &SharedConfig)
        ensures
            r.deep_view() == self@,
    {
        &self.servers
    }

    /// The definitions that this handler reads.
    pub fn claimed_categories(&self) -> (r: Vec<CategoryClaim>)
        ensures
            r@.len() == 1,
            claims_mcp_servers(r@[0]),
    {
        let condition = Condition { key: "type".to_owned(), operator: Operator::Equals("mcp".to_owned()) };
        let selector = Selector { conditions: vec![condition] };
        vec![CategoryClaim { category: "server".to_owned(), selector: Some(selector) }]
    }

    /// The properties that this handler reads, by category.
    pub fn claimed_properties(&self) -> (r: Vec<(&'static str, Vec<&'static str>)>)
        ensures
            r@.len() == 1,
            r@[0].0@ == "server"@,
            r@[0].1.deep_view() == server_keys(),
    {
        vec![("server", known_server_keys())]
    }

    /// Reads a definition and adds its server to the list. Where that fails, or the
    /// runtime has to be asked first, the list stays as it is.
    pub fn handle_category(
        &mut self,
        category: &str,
        name: &str,
        properties: &JsonObject,
        answers: &Answers,
    ) -> (r: Result<(), Halt>)
        ensures
            match definition(category@, name@, properties@, answers.deep_view()) {
                Ok(server) => r is Ok && final(self)@ == old(self)@.push(server),
                Err(halt) => r matches Err(h) && h.deep_view() == halt && final(self)@ == old(self)@,
            },
    {
        match read_definition(category, name, properties, answers) {
            Err(h) => Err(h),
            Ok(server) => {
                let ghost before = self.servers.deep_view();
                let ghost last = server.deep_view();
                self.servers.push(server);
                assert(self.servers.deep_view() =~= before.push(last));
                Ok(())
            }
        }
    }
}

} // verus!
