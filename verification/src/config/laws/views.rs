//! What definitions, questions and answers stand for: each of their fields, and nothing else.

use vstd::prelude::*;

use crate::config::model::{
    Answers, Halt, HaltView, MappingConfig, McpServerConfig, PropagatedHeader, Question, QuestionView, Reading,
    ReadingView, ToolConfig, ToolTarget, ToolTargetView,
};
use crate::json::{Fields, Json, JsonObject, JsonView};
use crate::mcp::laws::stands_for;

verus! {

/// Whether a block that there may be stands for another.
pub open spec fn block_stands_for(block: Option<JsonObject>, shown: Option<Fields>) -> bool {
    match (block, shown) {
        (Some(b), Some(s)) => b@ == s,
        (None, None) => true,
        _ => false,
    }
}

/// Whether a value that there may be stands for another.
pub open spec fn value_stands_for(value: Option<Json>, shown: Option<JsonView>) -> bool {
    match (value, shown) {
        (Some(v), Some(s)) => v@ == s,
        (None, None) => true,
        _ => false,
    }
}

/// Mappings show all four blocks.
pub proof fn mappings_show_every_field(mapping: MappingConfig)
    ensures
        block_stands_for(mapping.param_mapping, mapping.deep_view().param_mapping),
        block_stands_for(mapping.param_encoding, mapping.deep_view().param_encoding),
        block_stands_for(mapping.result_decoding, mapping.deep_view().result_decoding),
        value_stands_for(mapping.result_mapping, mapping.deep_view().result_mapping),
{
}

/// A target shows what it is and all that it holds.
pub proof fn targets_show_every_field(target: ToolTarget)
    ensures
        match (target, target.deep_view()) {
            (
                ToolTarget::Component { component, function, mapping, input_schema, output_schema },
                ToolTargetView::Component {
                    component: c,
                    function: f,
                    mapping: m,
                    input_schema: i,
                    output_schema: o,
                },
            ) => component@ == c && function@ == f && mapping.deep_view() == m && value_stands_for(input_schema, i)
                && value_stands_for(output_schema, o),
            (
                ToolTarget::Channel { channel, input_schema, output_schema },
                ToolTargetView::Channel { channel: c, input_schema: i, output_schema: o },
            ) => channel@ == c && input_schema@ == i && value_stands_for(output_schema, o),
            _ => false,
        },
{
}

/// A header to carry over shows where it comes from and where it goes.
pub proof fn propagations_show_both_sides(header: PropagatedHeader)
    ensures
        header.deep_view().source == header.source@,
        header.deep_view().target == header.target@,
{
}

/// A tool's definition shows its name, target, description and declared `_meta`.
pub proof fn tool_definitions_show_every_field(tool: ToolConfig)
    ensures
        ({
            let shown = tool.deep_view();
            &&& shown.name == tool.name@
            &&& shown.target == tool.target.deep_view()
            &&& stands_for(tool.description, shown.description)
            &&& shown.propagate_request_meta.len() == tool.propagate_request_meta@.len()
            &&& forall|i: int|
                0 <= i < shown.propagate_request_meta.len() ==> (#[trigger] shown.propagate_request_meta[i])
                    == tool.propagate_request_meta@[i].deep_view()
            &&& shown.propagate_result_meta.len() == tool.propagate_result_meta@.len()
            &&& forall|i: int|
                0 <= i < shown.propagate_result_meta.len() ==> (#[trigger] shown.propagate_result_meta[i])
                    == tool.propagate_result_meta@[i].deep_view()
        }),
{
}

/// A server's definition shows every one of its properties.
pub proof fn server_definitions_show_every_field(server: McpServerConfig)
    ensures
        ({
            let shown = server.deep_view();
            &&& shown.name == server.name@
            &&& shown.host == server.host@
            &&& shown.port == server.port
            &&& match (server.allowed_origins, shown.allowed_origins) {
                (Some(origins), Some(seen)) => origins@.len() == seen.len() && forall|i: int|
                    0 <= i < seen.len() ==> origins@[i]@ == #[trigger] seen[i],
                (None, None) => true,
                _ => false,
            }
            &&& stands_for(server.component_selector, shown.component_selector)
            &&& shown.tools.len() == server.tools@.len()
            &&& forall|i: int| 0 <= i < shown.tools.len() ==> (#[trigger] shown.tools[i]) == server.tools@[i].deep_view()
            &&& stands_for(server.otlp_endpoint, shown.otlp_endpoint)
            &&& shown.otlp_protocol == server.otlp_protocol@
        }),
{
}

/// A question shows what it is about.
pub proof fn questions_show_every_field(question: Question)
    ensures
        match (question, question.deep_view()) {
            (Question::Selector { expression }, QuestionView::Selector { expression: e }) => expression@ == e,
            (Question::ParamEncoding { tool, block }, QuestionView::ParamEncoding { tool: t, block: b }) => tool@ == t
                && block@ == b,
            (Question::ResultDecoding { tool, block }, QuestionView::ResultDecoding { tool: t, block: b }) => tool@ == t
                && block@ == b,
            (Question::Propagation { entry }, QuestionView::Propagation { entry: e }) => entry@ == e,
            _ => false,
        },
{
}

/// A halt shows whether it is an error or a question, and which.
pub proof fn halts_show_why(halt: Halt)
    ensures
        match (halt, halt.deep_view()) {
            (Halt::Error(e), HaltView::Error(s)) => e@ == s,
            (Halt::Ask(q), HaltView::Ask(s)) => q.deep_view() == s,
            _ => false,
        },
{
}

/// Answers show every one of them, with what it is the answer to.
pub proof fn answers_show_every_field(answers: Answers)
    ensures
        ({
            let shown = answers.deep_view();
            &&& shown.selectors.len() == answers.selectors@.len()
            &&& forall|i: int|
                0 <= i < shown.selectors.len() ==> (#[trigger] shown.selectors[i]).0 == answers.selectors@[i].0@
                    && stands_for(answers.selectors@[i].1, shown.selectors[i].1)
            &&& shown.param_encodings.len() == answers.param_encodings@.len()
            &&& forall|i: int|
                0 <= i < shown.param_encodings.len() ==> (#[trigger] shown.param_encodings[i]).0
                    == answers.param_encodings@[i].0@ && stands_for(
                    answers.param_encodings@[i].1,
                    shown.param_encodings[i].1,
                )
            &&& shown.result_decodings.len() == answers.result_decodings@.len()
            &&& forall|i: int|
                0 <= i < shown.result_decodings.len() ==> (#[trigger] shown.result_decodings[i]).0
                    == answers.result_decodings@[i].0@ && stands_for(
                    answers.result_decodings@[i].1,
                    shown.result_decodings[i].1,
                )
            &&& shown.propagations.len() == answers.propagations@.len()
            &&& forall|i: int|
                0 <= i < shown.propagations.len() ==> (#[trigger] shown.propagations[i]).0 == answers.propagations@[i].0@
                    && match (answers.propagations@[i].1, shown.propagations[i].1) {
                    (Reading::Header(h), ReadingView::Header(s)) => h.deep_view() == s,
                    (Reading::Refused(e), ReadingView::Refused(s)) => e@ == s,
                    _ => false,
                }
        }),
{
}

} // verus!
