//! What a server definition holds once it is read, and what is asked on the way.

use vstd::prelude::*;

use crate::json::{Fields, Json, JsonObject, JsonView};

verus! {

/// A header to carry over, under the same name or another.
pub struct PropagatedHeader {
    pub source: String,
    pub target: String,
}

/// What a `PropagatedHeader` stands for.
pub struct PropagatedHeaderView {
    pub source: Seq<char>,
    pub target: Seq<char>,
}

impl DeepView for PropagatedHeader {
    type V = PropagatedHeaderView;

    open spec fn deep_view(&self) -> PropagatedHeaderView {
        PropagatedHeaderView { source: self.source@, target: self.target@ }
    }
}

/// The four mapping blocks, in pipeline order.
pub struct MappingConfig {
    pub param_mapping: Option<JsonObject>,
    pub param_encoding: Option<JsonObject>,
    pub result_decoding: Option<JsonObject>,
    pub result_mapping: Option<Json>,
}

/// What a `MappingConfig` stands for.
pub struct MappingConfigView {
    pub param_mapping: Option<Fields>,
    pub param_encoding: Option<Fields>,
    pub result_decoding: Option<Fields>,
    pub result_mapping: Option<JsonView>,
}

impl DeepView for MappingConfig {
    type V = MappingConfigView;

    open spec fn deep_view(&self) -> MappingConfigView {
        MappingConfigView {
            param_mapping: self.param_mapping.deep_view(),
            param_encoding: self.param_encoding.deep_view(),
            result_decoding: self.result_decoding.deep_view(),
            result_mapping: self.result_mapping.deep_view(),
        }
    }
}

/// How a tool is backed: direct component invocation or channel publish.
#[allow(inconsistent_fields)]
pub enum ToolTarget {
    Component {
        component: String,
        function: String,
        /// The mapping blocks between Message and WIT.
        mapping: MappingConfig,
        /// An explicit schema, to lay constraints or metadata over the derived one.
        input_schema: Option<Json>,
        /// An explicit schema, to lay constraints or metadata over the derived one.
        output_schema: Option<Json>,
    },
    Channel { channel: String, input_schema: Json, output_schema: Option<Json> },
}

/// What a `ToolTarget` stands for.
#[allow(inconsistent_fields)]
pub enum ToolTargetView {
    Component {
        component: Seq<char>,
        function: Seq<char>,
        mapping: MappingConfigView,
        input_schema: Option<JsonView>,
        output_schema: Option<JsonView>,
    },
    Channel { channel: Seq<char>, input_schema: JsonView, output_schema: Option<JsonView> },
}

impl DeepView for ToolTarget {
    type V = ToolTargetView;

    open spec fn deep_view(&self) -> ToolTargetView {
        match *self {
            ToolTarget::Component { component, function, mapping, input_schema, output_schema } => ToolTargetView::Component {
                component: component@,
                function: function@,
                mapping: mapping.deep_view(),
                input_schema: input_schema.deep_view(),
                output_schema: output_schema.deep_view(),
            },
            ToolTarget::Channel { channel, input_schema, output_schema } => ToolTargetView::Channel {
                channel: channel@,
                input_schema: input_schema@,
                output_schema: output_schema.deep_view(),
            },
        }
    }
}

/// A tool within an MCP server.
pub struct ToolConfig {
    pub name: String,
    pub target: ToolTarget,
    pub description: Option<String>,
    /// MCP `_meta` keys to lift into inbound Message headers when a `tools/call`
    /// request arrives. The source is a `_meta` key, the target the header to
    /// write.
    pub propagate_request_meta: Vec<PropagatedHeader>,
    /// Reply Message headers to emit as MCP `_meta` entries on the result. The
    /// source is a header, the target the `_meta` key to write.
    pub propagate_result_meta: Vec<PropagatedHeader>,
}

/// What a `ToolConfig` stands for.
pub struct ToolConfigView {
    pub name: Seq<char>,
    pub target: ToolTargetView,
    pub description: Option<Seq<char>>,
    pub propagate_request_meta: Seq<PropagatedHeaderView>,
    pub propagate_result_meta: Seq<PropagatedHeaderView>,
}

impl DeepView for ToolConfig {
    type V = ToolConfigView;

    open spec fn deep_view(&self) -> ToolConfigView {
        ToolConfigView {
            name: self.name@,
            target: self.target.deep_view(),
            description: self.description.deep_view(),
            propagate_request_meta: self.propagate_request_meta.deep_view(),
            propagate_result_meta: self.propagate_result_meta.deep_view(),
        }
    }
}

/// An MCP server definition.
pub struct McpServerConfig {
    pub name: String,
    pub host: String,
    pub port: u16,
    pub allowed_origins: Option<Vec<String>>,
    /// The expression that selects components to expose as tools.
    pub component_selector: Option<String>,
    pub tools: Vec<ToolConfig>,
    pub otlp_endpoint: Option<String>,
    pub otlp_protocol: String,
}

/// What an `McpServerConfig` stands for.
pub struct McpServerConfigView {
    pub name: Seq<char>,
    pub host: Seq<char>,
    pub port: u16,
    pub allowed_origins: Option<Seq<Seq<char>>>,
    pub component_selector: Option<Seq<char>>,
    pub tools: Seq<ToolConfigView>,
    pub otlp_endpoint: Option<Seq<char>>,
    pub otlp_protocol: Seq<char>,
}

impl DeepView for McpServerConfig {
    type V = McpServerConfigView;

    open spec fn deep_view(&self) -> McpServerConfigView {
        McpServerConfigView {
            name: self.name@,
            host: self.host@,
            port: self.port,
            allowed_origins: self.allowed_origins.deep_view(),
            component_selector: self.component_selector.deep_view(),
            tools: self.tools.deep_view(),
            otlp_endpoint: self.otlp_endpoint.deep_view(),
            otlp_protocol: self.otlp_protocol@,
        }
    }
}

/// What only the component runtime can tell of a definition.
pub enum Question {
    /// Is this a component selector?
    Selector { expression: String },
    /// Is this block, of the tool with this name, a parameter encoding?
    ParamEncoding { tool: String, block: JsonObject },
    /// Is this block, of the tool with this name, a result decoding?
    ResultDecoding { tool: String, block: JsonObject },
    /// What source and target does this propagation entry name?
    Propagation { entry: String },
}

/// What a `Question` stands for.
pub enum QuestionView {
    Selector { expression: Seq<char> },
    ParamEncoding { tool: Seq<char>, block: Fields },
    ResultDecoding { tool: Seq<char>, block: Fields },
    Propagation { entry: Seq<char> },
}

impl DeepView for Question {
    type V = QuestionView;

    open spec fn deep_view(&self) -> QuestionView {
        match *self {
            Question::Selector { expression } => QuestionView::Selector { expression: expression@ },
            Question::ParamEncoding { tool, block } => QuestionView::ParamEncoding { tool: tool@, block: block@ },
            Question::ResultDecoding { tool, block } => QuestionView::ResultDecoding { tool: tool@, block: block@ },
            Question::Propagation { entry } => QuestionView::Propagation { entry: entry@ },
        }
    }
}

/// Why a reading stopped.
pub enum Halt {
    /// The definition is wrong, for the reason given.
    Error(String),
    /// The runtime has to be asked before the reading can go on.
    Ask(Question),
}

/// What a `Halt` stands for.
pub enum HaltView {
    Error(Seq<char>),
    Ask(QuestionView),
}

impl DeepView for Halt {
    type V = HaltView;

    open spec fn deep_view(&self) -> HaltView {
        match *self {
            Halt::Error(e) => HaltView::Error(e@),
            Halt::Ask(q) => HaltView::Ask(q.deep_view()),
        }
    }
}

/// What the runtime has answered so far: of a selector, by its expression, and
/// of a tool's encoding or decoding, by the tool's name, the reason why it was
/// refused, if it was; of a propagation entry, by its text, what it names or the
/// reason why it was refused.
pub struct Answers {
    pub selectors: Vec<(String, Option<String>)>,
    pub param_encodings: Vec<(String, Option<String>)>,
    pub result_decodings: Vec<(String, Option<String>)>,
    pub propagations: Vec<(String, Reading)>,
}

/// What the runtime made of a propagation entry.
pub enum Reading {
    Header(PropagatedHeader),
    Refused(String),
}

/// What a `Reading` stands for.
pub enum ReadingView {
    Header(PropagatedHeaderView),
    Refused(Seq<char>),
}

impl DeepView for Reading {
    type V = ReadingView;

    open spec fn deep_view(&self) -> ReadingView {
        match *self {
            Reading::Header(h) => ReadingView::Header(h.deep_view()),
            Reading::Refused(e) => ReadingView::Refused(e@),
        }
    }
}

/// What `Answers` stand for.
pub struct AnswersView {
    pub selectors: Seq<(Seq<char>, Option<Seq<char>>)>,
    pub param_encodings: Seq<(Seq<char>, Option<Seq<char>>)>,
    pub result_decodings: Seq<(Seq<char>, Option<Seq<char>>)>,
    pub propagations: Seq<(Seq<char>, ReadingView)>,
}

impl DeepView for Answers {
    type V = AnswersView;

    open spec fn deep_view(&self) -> AnswersView {
        AnswersView {
            selectors: self.selectors.deep_view(),
            param_encodings: self.param_encodings.deep_view(),
            result_decodings: self.result_decodings.deep_view(),
            propagations: self.propagations.deep_view(),
        }
    }
}

/// The direction of propagation: which side of an entry is the MCP `_meta` key.
#[derive(Clone, Copy)]
pub enum PropagationDirection {
    /// The source is the `_meta` key of the request.
    Inbound,
    /// The target is the `_meta` key of the result.
    Outbound,
}

} // verus!
