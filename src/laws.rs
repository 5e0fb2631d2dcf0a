//! Properties that relate writing and reading documents.
use vstd::prelude::*;

use crate::input::{EasyInputMessage, EasyInputMessageRole, InputItem};
use crate::json::{member, Json};
use crate::request::CreateResponse;
use crate::response::Response;
use crate::tool::{
    ComputerTool, FileSearchTool, FunctionTool, Tool, WebSearchTool, WebSearchToolUserLocation,
};
use crate::wire::Wire;

verus! {

/// Reading the document that a request is written as gives back a request
/// with that same document.
pub proof fn lemma_request_round_trip(x: CreateResponse)
    ensures
        CreateResponse::parse(x.json()) == Some(x.json()),
{
    x.lemma_round_trip();
}

/// Reading the document that a response is written as gives back a response
/// with that same document.
pub proof fn lemma_response_round_trip(x: Response)
    ensures
        Response::parse(x.json()) == Some(x.json()),
{
    x.lemma_round_trip();
}

/// A request with only its required fields set is written as an object with
/// exactly the members `model` and `input`.
pub proof fn lemma_required_only(x: CreateResponse)
    requires
        x.temperature is None,
        x.top_p is None,
        x.user is None,
        x.previous_response_id is None,
        x.reasoning is None,
        x.max_output_tokens is None,
        x.instructions is None,
        x.text is None,
        x.tools is None,
        x.tool_choice is None,
        x.truncation is None,
        x.stream is None,
    ensures
        x.json() == Json::Object(
            Map::empty().insert("model"@, x.model.json()).insert("input"@, x.input.json()),
        ),
{
}

/// A user location read without a `type` member has the type `approximate`.
pub proof fn lemma_location_type_default(j: Json)
    requires
        member(j, "type"@) is None,
        WebSearchToolUserLocation::parse(j) is Some,
    ensures
        member(WebSearchToolUserLocation::parse(j)->Some_0, "type"@) == Some(
            Json::Str("approximate"@),
        ),
{
}

/// A document that reads as a message is read as a message item, before the
/// other shapes of an input item are tried.
pub proof fn lemma_message_first(j: Json)
    requires
        EasyInputMessage::parse(j) is Some,
    ensures
        InputItem::parse(j) == EasyInputMessage::parse(j),
{
}

/// An object with a known role, a text content, and neither `type` nor
/// `status` reads as a message item, whatever other members it has.
pub proof fn lemma_role_and_content_is_message(j: Json, role: Seq<char>, text: Seq<char>)
    requires
        j is Object,
        member(j, "role"@) == Some(Json::Str(role)),
        EasyInputMessageRole::from_token_spec(role) is Some,
        member(j, "content"@) == Some(Json::Str(text)),
        member(j, "type"@) is None,
        member(j, "status"@) is None,
    ensures
        EasyInputMessage::parse(j) is Some,
        InputItem::parse(j) == EasyInputMessage::parse(j),
{
    let r = EasyInputMessageRole::from_token_spec(role)->Some_0;
    r.lemma_round_trip();
}

/// A tool document is read as the variant that its `type` member names.
pub proof fn lemma_tool_variant(j: Json, x: Tool)
    requires
        Tool::parse(j) == Some(x.json()),
    ensures
        member(j, "type"@) == Some(Json::Str(x.type_token())),
{
    reveal_strlit("type");
    let t = member(j, "type"@)->Some_0->Str_0;
    if t == "file_search"@ {
        assert(FileSearchTool::parse(j)->Some_0 is Object);
    } else if t == "function"@ {
        assert(FunctionTool::parse(j)->Some_0 is Object);
    } else if t == "computer_use_preview"@ {
        assert(ComputerTool::parse(j)->Some_0 is Object);
    } else {
        assert(WebSearchTool::parse(j)->Some_0 is Object);
    }
    assert(Tool::parse(j)->Some_0->Object_0["type"@] == Json::Str(t));
    match x {
        Tool::FileSearch(tool) => tool.lemma_round_trip_tagged("file_search"@),
        Tool::Function(tool) => tool.lemma_round_trip_tagged("function"@),
        Tool::ComputerUsePreview(tool) => tool.lemma_round_trip_tagged("computer_use_preview"@),
        Tool::WebSearchPreview(tool) => tool.lemma_round_trip_tagged("web_search_preview"@),
        Tool::WebSearchPreview2025_03_11(tool) => tool.lemma_round_trip_tagged(
            "web_search_preview_2025_03_11"@,
        ),
    }
    assert(x.json()->Object_0["type"@] == Json::Str(x.type_token()));
}

/// A tool document whose `type` names no known tool does not read as a tool.
pub proof fn lemma_tool_unknown_type(j: Json, t: Seq<char>)
    requires
        member(j, "type"@) == Some(Json::Str(t)),
        t != "file_search"@,
        t != "function"@,
        t != "computer_use_preview"@,
        t != "web_search_preview"@,
        t != "web_search_preview_2025_03_11"@,
    ensures
        Tool::parse(j) is None,
{
}

} // verus!
