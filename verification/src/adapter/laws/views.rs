//! What config, functions, tools and answers stand for: each of their fields, and nothing
//! else.

use vstd::prelude::*;

use crate::adapter::{
    Config, Entries, EntriesView, FunctionMetadata, HeaderMapping, InvokeError, InvokeErrorView, Response, ToolError,
    ToolMetadata, ToolResponse,
};
use crate::mcp::laws::stands_for;

verus! {

/// Whether entries stand for others, pair by pair.
pub open spec fn entries_stand_for(entries: Entries, shown: EntriesView) -> bool {
    entries@.len() == shown.len() && forall|i: int|
        0 <= i < shown.len() ==> (#[trigger] shown[i]).0 == entries@[i].0@ && shown[i].1 == entries@[i].1@
}

/// Config and mappings show all their entries.
pub proof fn configs_show_every_field(config: Config, mapping: HeaderMapping)
    ensures
        entries_stand_for(config.values, config.deep_view().values),
        entries_stand_for(config.listing, config.deep_view().listing),
        entries_stand_for(mapping.request_headers, mapping.deep_view().request_headers),
        entries_stand_for(mapping.response_headers, mapping.deep_view().response_headers),
{
}

/// The metadata of a function and of a tool show every one of them.
pub proof fn metadata_show_every_field(function: FunctionMetadata, tool: ToolMetadata)
    ensures
        function.deep_view().name == function.name@,
        stands_for(function.description, function.deep_view().description),
        function.deep_view().input_schema == function.input_schema@,
        function.deep_view().output_schema == function.output_schema@,
        tool.deep_view().name == tool.name@,
        stands_for(tool.title, tool.deep_view().title),
        stands_for(tool.description, tool.deep_view().description),
        tool.deep_view().input_schema == tool.input_schema@,
        stands_for(tool.output_schema, tool.deep_view().output_schema),
        match (tool.annotations, tool.deep_view().annotations) {
            (Some(a), Some(s)) => a.deep_view() == s,
            (None, None) => true,
            _ => false,
        },
        entries_stand_for(tool.meta, tool.deep_view().meta),
{
}

/// Answers and failures show every one of their fields.
pub proof fn answers_show_every_field(
    response: Response,
    failure: InvokeError,
    answer: ToolResponse,
    error: ToolError,
)
    ensures
        response.deep_view().body == response.body@,
        entries_stand_for(response.headers, response.deep_view().headers),
        match (failure, failure.deep_view()) {
            (InvokeError::FailedCall(e), InvokeErrorView::FailedCall(s)) => e@ == s,
            (InvokeError::InvalidResponse(e), InvokeErrorView::InvalidResponse(s)) => e@ == s,
            (InvokeError::Other(e), InvokeErrorView::Other(s)) => e@ == s,
            _ => false,
        },
        answer.deep_view().content.len() == answer.content@.len(),
        forall|i: int|
            0 <= i < answer.content@.len() ==> (#[trigger] answer.deep_view().content[i]).text == answer.content@[i].text@
                && answer.deep_view().content[i].annotations == answer.content@[i].annotations.deep_view()
                && entries_stand_for(answer.content@[i].meta, answer.deep_view().content[i].meta),
        answer.deep_view().is_error == answer.is_error,
        stands_for(answer.structured_content, answer.deep_view().structured_content),
        entries_stand_for(answer.meta, answer.deep_view().meta),
        error.deep_view().code == error.code,
        error.deep_view().message == error.message@,
        stands_for(error.data, error.deep_view().data),
{
}

} // verus!
