//! The request for a model response, and its options.
use vstd::prelude::*;

use crate::error::{mismatch, OpenAIError};
use crate::json::{
    get_member, is_object, member, new_members, object, push_member, put_opt, tag_object,
    tagged, text_is, Json, JsonNumber, JsonValue,
};
use crate::wire::{
    lemma_parse_opt, lemma_parse_req, opt_json, opt_member, parse_opt, parse_req, push_opt,
    req_member, Wire,
};
use crate::input::Input;
use crate::tool::{Tool, ToolChoice};

verus! {

/// A request for a model response.
/// 
/// `temperature` and `top_p` are alternative sampling controls: setting one of
/// them, not both, is recommended.
#[derive(Clone, Debug, PartialEq)]
pub struct CreateResponse {
    /// The sampling temperature, between 0 and 2.
    pub temperature: Option<JsonNumber>,
    /// The probability mass of nucleus sampling, between 0 and 1.
    pub top_p: Option<JsonNumber>,
    /// A stable identifier of the end user.
    pub user: Option<String>,
    /// The ID of the previous response, for a multi-turn conversation.
    pub previous_response_id: Option<String>,
    /// The ID of the model to use.
    pub model: String,
    /// Options for reasoning models.
    pub reasoning: Option<Reasoning>,
    /// An upper bound on the tokens generated, reasoning tokens included.
    pub max_output_tokens: Option<u32>,
    /// A system or developer message placed first in the context.
    pub instructions: Option<String>,
    /// The format of a text response.
    pub text: Option<TextResponseFormat>,
    /// The tools the model may call.
    pub tools: Option<Vec<Tool>>,
    /// How the model selects tools.
    pub tool_choice: Option<ToolChoice>,
    /// The truncation strategy; the service takes `disabled` where it is not given.
    pub truncation: Option<ResponseTruncation>,
    /// The input to the model.
    pub input: Input,
    /// Whether to stream the response; a single-call `create` refuses `true`.
    pub stream: Option<bool>,
}

impl Wire for CreateResponse {
    open spec fn json(&self) -> Json {
        let m = Map::<Seq<char>, Json>::empty();
        let m = put_opt(m, "temperature"@, opt_json(self.temperature));
        let m = put_opt(m, "top_p"@, opt_json(self.top_p));
        let m = put_opt(m, "user"@, opt_json(self.user));
        let m = put_opt(m, "previous_response_id"@, opt_json(self.previous_response_id));
        let m = m.insert("model"@, self.model.json());
        let m = put_opt(m, "reasoning"@, opt_json(self.reasoning));
        let m = put_opt(m, "max_output_tokens"@, opt_json(self.max_output_tokens));
        let m = put_opt(m, "instructions"@, opt_json(self.instructions));
        let m = put_opt(m, "text"@, opt_json(self.text));
        let m = put_opt(m, "tools"@, opt_json(self.tools));
        let m = put_opt(m, "tool_choice"@, opt_json(self.tool_choice));
        let m = put_opt(m, "truncation"@, opt_json(self.truncation));
        let m = m.insert("input"@, self.input.json());
        let m = put_opt(m, "stream"@, opt_json(self.stream));
        Json::Object(m)
    }

    open spec fn parse(j: Json) -> Option<Json> {
        let temperature = parse_opt::<JsonNumber>(j, "temperature"@);
        let top_p = parse_opt::<JsonNumber>(j, "top_p"@);
        let user = parse_opt::<String>(j, "user"@);
        let previous_response_id = parse_opt::<String>(j, "previous_response_id"@);
        let model = parse_req::<String>(j, "model"@);
        let reasoning = parse_opt::<Reasoning>(j, "reasoning"@);
        let max_output_tokens = parse_opt::<u32>(j, "max_output_tokens"@);
        let instructions = parse_opt::<String>(j, "instructions"@);
        let text = parse_opt::<TextResponseFormat>(j, "text"@);
        let tools = parse_opt::<Vec<Tool>>(j, "tools"@);
        let tool_choice = parse_opt::<ToolChoice>(j, "tool_choice"@);
        let truncation = parse_opt::<ResponseTruncation>(j, "truncation"@);
        let input = parse_req::<Input>(j, "input"@);
        let stream = parse_opt::<bool>(j, "stream"@);
        if j is Object
            && temperature is Some
            && top_p is Some
            && user is Some
            && previous_response_id is Some
            && model is Some
            && reasoning is Some
            && max_output_tokens is Some
            && instructions is Some
            && text is Some
            && tools is Some
            && tool_choice is Some
            && truncation is Some
            && input is Some
            && stream is Some
        {
            let m = Map::<Seq<char>, Json>::empty();
            let m = put_opt(m, "temperature"@, temperature->Some_0);
            let m = put_opt(m, "top_p"@, top_p->Some_0);
            let m = put_opt(m, "user"@, user->Some_0);
            let m = put_opt(m, "previous_response_id"@, previous_response_id->Some_0);
            let m = m.insert("model"@, model->Some_0);
            let m = put_opt(m, "reasoning"@, reasoning->Some_0);
            let m = put_opt(m, "max_output_tokens"@, max_output_tokens->Some_0);
            let m = put_opt(m, "instructions"@, instructions->Some_0);
            let m = put_opt(m, "text"@, text->Some_0);
            let m = put_opt(m, "tools"@, tools->Some_0);
            let m = put_opt(m, "tool_choice"@, tool_choice->Some_0);
            let m = put_opt(m, "truncation"@, truncation->Some_0);
            let m = m.insert("input"@, input->Some_0);
            let m = put_opt(m, "stream"@, stream->Some_0);
            Some(Json::Object(m))
        } else {
            None
        }
    }

    fn to_json(&self) -> (r: JsonValue) {
        let mut m = new_members();
        push_opt(&mut m, "temperature", &self.temperature);
        push_opt(&mut m, "top_p", &self.top_p);
        push_opt(&mut m, "user", &self.user);
        push_opt(&mut m, "previous_response_id", &self.previous_response_id);
        push_member(&mut m, "model", self.model.to_json());
        push_opt(&mut m, "reasoning", &self.reasoning);
        push_opt(&mut m, "max_output_tokens", &self.max_output_tokens);
        push_opt(&mut m, "instructions", &self.instructions);
        push_opt(&mut m, "text", &self.text);
        push_opt(&mut m, "tools", &self.tools);
        push_opt(&mut m, "tool_choice", &self.tool_choice);
        push_opt(&mut m, "truncation", &self.truncation);
        push_member(&mut m, "input", self.input.to_json());
        push_opt(&mut m, "stream", &self.stream);
        object(m)
    }

    fn from_json(j: &JsonValue) -> (r: Result<Self, OpenAIError>) {
        if !is_object(j) {
            return Err(mismatch("CreateResponse"));
        }
        let temperature = match opt_member::<JsonNumber>(j, "temperature") {
            Ok(x) => x,
            Err(e) => return Err(e),
        };
        let top_p = match opt_member::<JsonNumber>(j, "top_p") {
            Ok(x) => x,
            Err(e) => return Err(e),
        };
        let user = match opt_member::<String>(j, "user") {
            Ok(x) => x,
            Err(e) => return Err(e),
        };
        let previous_response_id = match opt_member::<String>(j, "previous_response_id") {
            Ok(x) => x,
            Err(e) => return Err(e),
        };
        let model = match req_member::<String>(j, "model") {
            Ok(x) => x,
            Err(e) => return Err(e),
        };
        let reasoning = match opt_member::<Reasoning>(j, "reasoning") {
            Ok(x) => x,
            Err(e) => return Err(e),
        };
        let max_output_tokens = match opt_member::<u32>(j, "max_output_tokens") {
            Ok(x) => x,
            Err(e) => return Err(e),
        };
        let instructions = match opt_member::<String>(j, "instructions") {
            Ok(x) => x,
            Err(e) => return Err(e),
        };
        let text = match opt_member::<TextResponseFormat>(j, "text") {
            Ok(x) => x,
            Err(e) => return Err(e),
        };
        let tools = match opt_member::<Vec<Tool>>(j, "tools") {
            Ok(x) => x,
            Err(e) => return Err(e),
        };
        let tool_choice = match opt_member::<ToolChoice>(j, "tool_choice") {
            Ok(x) => x,
            Err(e) => return Err(e),
        };
        let truncation = match opt_member::<ResponseTruncation>(j, "truncation") {
            Ok(x) => x,
            Err(e) => return Err(e),
        };
        let input = match req_member::<Input>(j, "input") {
            Ok(x) => x,
            Err(e) => return Err(e),
        };
        let stream = match opt_member::<bool>(j, "stream") {
            Ok(x) => x,
            Err(e) => return Err(e),
        };
        Ok(CreateResponse {
            temperature,
            top_p,
            user,
            previous_response_id,
            model,
            reasoning,
            max_output_tokens,
            instructions,
            text,
            tools,
            tool_choice,
            truncation,
            input,
            stream,
        })
    }

    proof fn lemma_round_trip(&self) {
        reveal_strlit("input");
        reveal_strlit("instructions");
        reveal_strlit("max_output_tokens");
        reveal_strlit("model");
        reveal_strlit("previous_response_id");
        reveal_strlit("reasoning");
        reveal_strlit("stream");
        reveal_strlit("temperature");
        reveal_strlit("text");
        reveal_strlit("tool_choice");
        reveal_strlit("tools");
        reveal_strlit("top_p");
        reveal_strlit("truncation");
        reveal_strlit("user");
        assert("input"@.len() == 5);
        assert("instructions"@.len() == 12);
        assert("max_output_tokens"@.len() == 17);
        assert("model"@.len() == 5);
        assert("previous_response_id"@.len() == 20);
        assert("reasoning"@.len() == 9);
        assert("stream"@.len() == 6);
        assert("temperature"@.len() == 11);
        assert("text"@.len() == 4);
        assert("tool_choice"@.len() == 11);
        assert("tools"@.len() == 5);
        assert("top_p"@.len() == 5);
        assert("truncation"@.len() == 10);
        assert("user"@.len() == 4);
        assert("input"@[0] != "model"@[0]);
        assert("input"@[0] != "tools"@[0]);
        assert("input"@[0] != "top_p"@[0]);
        assert("model"@[0] != "tools"@[0]);
        assert("model"@[0] != "top_p"@[0]);
        assert("temperature"@[1] != "tool_choice"@[1]);
        assert("text"@[0] != "user"@[0]);
        assert("tools"@[2] != "top_p"@[2]);
        let j = self.json();
        lemma_parse_opt(j, "temperature"@, self.temperature);
        lemma_parse_opt(j, "top_p"@, self.top_p);
        lemma_parse_opt(j, "user"@, self.user);
        lemma_parse_opt(j, "previous_response_id"@, self.previous_response_id);
        lemma_parse_req(j, "model"@, self.model);
        lemma_parse_opt(j, "reasoning"@, self.reasoning);
        lemma_parse_opt(j, "max_output_tokens"@, self.max_output_tokens);
        lemma_parse_opt(j, "instructions"@, self.instructions);
        lemma_parse_opt(j, "text"@, self.text);
        lemma_parse_opt(j, "tools"@, self.tools);
        lemma_parse_opt(j, "tool_choice"@, self.tool_choice);
        lemma_parse_opt(j, "truncation"@, self.truncation);
        lemma_parse_req(j, "input"@, self.input);
        lemma_parse_opt(j, "stream"@, self.stream);
    }
}

/// Options for reasoning models.
#[derive(Clone, Debug, PartialEq)]
pub struct Reasoning {
    /// How much effort to spend on reasoning.
    pub effort: Option<ReasoningEffort>,
    /// Which summary of the reasoning to produce.
    pub generate_summary: Option<GenerateSummary>,
}

impl Wire for Reasoning {
    open spec fn json(&self) -> Json {
        let m = Map::<Seq<char>, Json>::empty();
        let m = put_opt(m, "effort"@, opt_json(self.effort));
        let m = put_opt(m, "generate_summary"@, opt_json(self.generate_summary));
        Json::Object(m)
    }

    open spec fn parse(j: Json) -> Option<Json> {
        let effort = parse_opt::<ReasoningEffort>(j, "effort"@);
        let generate_summary = parse_opt::<GenerateSummary>(j, "generate_summary"@);
        if j is Object && effort is Some && generate_summary is Some {
            let m = Map::<Seq<char>, Json>::empty();
            let m = put_opt(m, "effort"@, effort->Some_0);
            let m = put_opt(m, "generate_summary"@, generate_summary->Some_0);
            Some(Json::Object(m))
        } else {
            None
        }
    }

    fn to_json(&self) -> (r: JsonValue) {
        let mut m = new_members();
        push_opt(&mut m, "effort", &self.effort);
        push_opt(&mut m, "generate_summary", &self.generate_summary);
        object(m)
    }

    fn from_json(j: &JsonValue) -> (r: Result<Self, OpenAIError>) {
        if !is_object(j) {
            return Err(mismatch("Reasoning"));
        }
        let effort = match opt_member::<ReasoningEffort>(j, "effort") {
            Ok(x) => x,
            Err(e) => return Err(e),
        };
        let generate_summary = match opt_member::<GenerateSummary>(j, "generate_summary") {
            Ok(x) => x,
            Err(e) => return Err(e),
        };
        Ok(Reasoning { effort, generate_summary })
    }

    proof fn lemma_round_trip(&self) {
        reveal_strlit("effort");
        reveal_strlit("generate_summary");
        assert("effort"@.len() == 6);
        assert("generate_summary"@.len() == 16);
        let j = self.json();
        lemma_parse_opt(j, "effort"@, self.effort);
        lemma_parse_opt(j, "generate_summary"@, self.generate_summary);
    }
}

/// The kind of reasoning summary.
#[derive(Clone, Copy, Debug, PartialEq, Eq, Structural)]
pub enum GenerateSummary {
    Concise,
    Detailed,
}

impl GenerateSummary {
    /// The token that stands for the value on the wire.
    pub open spec fn token_spec(&self) -> Seq<char> {
        match self {
            GenerateSummary::Concise => "concise"@,
            GenerateSummary::Detailed => "detailed"@,
        }
    }

    pub open spec fn from_token_spec(s: Seq<char>) -> Option<GenerateSummary> {
        if s == "concise"@ {
            Some(GenerateSummary::Concise)
        } else if s == "detailed"@ {
            Some(GenerateSummary::Detailed)
        } else {
            None
        }
    }

    pub fn token(&self) -> (r: &'static str)
        ensures
            r@ == self.token_spec(),
    {
        match self {
            GenerateSummary::Concise => "concise",
            GenerateSummary::Detailed => "detailed",
        }
    }

    pub fn from_token(s: &String) -> (r: Option<GenerateSummary>)
        ensures
            r == GenerateSummary::from_token_spec(s@),
    {
        if text_is(s, "concise") {
            Some(GenerateSummary::Concise)
        } else if text_is(s, "detailed") {
            Some(GenerateSummary::Detailed)
        } else {
            None
        }
    }
}

impl Wire for GenerateSummary {
    open spec fn json(&self) -> Json {
        Json::Str(self.token_spec())
    }

    open spec fn parse(j: Json) -> Option<Json> {
        match j {
            Json::Str(s) => match GenerateSummary::from_token_spec(s) {
                Some(x) => Some(x.json()),
                None => None,
            },
            _ => None,
        }
    }

    fn to_json(&self) -> (r: JsonValue) {
        JsonValue::Str(self.token().to_owned())
    }

    fn from_json(j: &JsonValue) -> (r: Result<Self, OpenAIError>) {
        match j {
            JsonValue::Str(s) => match GenerateSummary::from_token(s) {
                Some(x) => Ok(x),
                None => Err(mismatch("GenerateSummary")),
            },
            _ => Err(mismatch("GenerateSummary")),
        }
    }

    proof fn lemma_round_trip(&self) {
        reveal_strlit("concise");
        reveal_strlit("detailed");
        assert("concise"@.len() == 7);
        assert("detailed"@.len() == 8);
    }
}

/// How much effort a reasoning model spends.
#[derive(Clone, Copy, Debug, PartialEq, Eq, Structural)]
pub enum ReasoningEffort {
    Low,
    Medium,
    High,
}

impl ReasoningEffort {
    /// The token that stands for the value on the wire.
    pub open spec fn token_spec(&self) -> Seq<char> {
        match self {
            ReasoningEffort::Low => "low"@,
            ReasoningEffort::Medium => "medium"@,
            ReasoningEffort::High => "high"@,
        }
    }

    pub open spec fn from_token_spec(s: Seq<char>) -> Option<ReasoningEffort> {
        if s == "low"@ {
            Some(ReasoningEffort::Low)
        } else if s == "medium"@ {
            Some(ReasoningEffort::Medium)
        } else if s == "high"@ {
            Some(ReasoningEffort::High)
        } else {
            None
        }
    }

    pub fn token(&self) -> (r: &'static str)
        ensures
            r@ == self.token_spec(),
    {
        match self {
            ReasoningEffort::Low => "low",
            ReasoningEffort::Medium => "medium",
            ReasoningEffort::High => "high",
        }
    }

    pub fn from_token(s: &String) -> (r: Option<ReasoningEffort>)
        ensures
            r == ReasoningEffort::from_token_spec(s@),
    {
        if text_is(s, "low") {
            Some(ReasoningEffort::Low)
        } else if text_is(s, "medium") {
            Some(ReasoningEffort::Medium)
        } else if text_is(s, "high") {
            Some(ReasoningEffort::High)
        } else {
            None
        }
    }
}

impl Wire for ReasoningEffort {
    open spec fn json(&self) -> Json {
        Json::Str(self.token_spec())
    }

    open spec fn parse(j: Json) -> Option<Json> {
        match j {
            Json::Str(s) => match ReasoningEffort::from_token_spec(s) {
                Some(x) => Some(x.json()),
                None => None,
            },
            _ => None,
        }
    }

    fn to_json(&self) -> (r: JsonValue) {
        JsonValue::Str(self.token().to_owned())
    }

    fn from_json(j: &JsonValue) -> (r: Result<Self, OpenAIError>) {
        match j {
            JsonValue::Str(s) => match ReasoningEffort::from_token(s) {
                Some(x) => Ok(x),
                None => Err(mismatch("ReasoningEffort")),
            },
            _ => Err(mismatch("ReasoningEffort")),
        }
    }

    proof fn lemma_round_trip(&self) {
        reveal_strlit("high");
        reveal_strlit("low");
        reveal_strlit("medium");
        assert("high"@.len() == 4);
        assert("low"@.len() == 3);
        assert("medium"@.len() == 6);
    }
}

/// The format of a text response.
#[derive(Clone, Debug, PartialEq)]
pub struct TextResponseFormat {
    /// Plain text, any JSON object, or JSON that follows a schema.
    pub format: ResponseFormat,
}

impl Wire for TextResponseFormat {
    open spec fn json(&self) -> Json {
        let m = Map::<Seq<char>, Json>::empty();
        let m = m.insert("format"@, self.format.json());
        Json::Object(m)
    }

    open spec fn parse(j: Json) -> Option<Json> {
        let format = parse_req::<ResponseFormat>(j, "format"@);
        if j is Object && format is Some {
            let m = Map::<Seq<char>, Json>::empty();
            let m = m.insert("format"@, format->Some_0);
            Some(Json::Object(m))
        } else {
            None
        }
    }

    fn to_json(&self) -> (r: JsonValue) {
        let mut m = new_members();
        push_member(&mut m, "format", self.format.to_json());
        object(m)
    }

    fn from_json(j: &JsonValue) -> (r: Result<Self, OpenAIError>) {
        if !is_object(j) {
            return Err(mismatch("TextResponseFormat"));
        }
        let format = match req_member::<ResponseFormat>(j, "format") {
            Ok(x) => x,
            Err(e) => return Err(e),
        };
        Ok(TextResponseFormat { format })
    }

    proof fn lemma_round_trip(&self) {
        reveal_strlit("format");
        assert("format"@.len() == 6);
        let j = self.json();
        lemma_parse_req(j, "format"@, self.format);
    }
}

/// A response format, told apart on the wire by its `type` member.
#[derive(Clone, Debug, PartialEq)]
pub enum ResponseFormat {
    Text,
    JsonObject,
    JsonSchema(ResponseFormatJsonSchema),
}

impl ResponseFormat {
    /// The `type` token of the variant.
    pub open spec fn type_token(&self) -> Seq<char> {
        match self {
            ResponseFormat::Text => "text"@,
            ResponseFormat::JsonObject => "json_object"@,
            ResponseFormat::JsonSchema(_) => "json_schema"@,
        }
    }
}

impl Wire for ResponseFormat {
    open spec fn json(&self) -> Json {
        match self {
            ResponseFormat::Text => tagged("text"@, Json::Object(Map::empty())),
            ResponseFormat::JsonObject => tagged("json_object"@, Json::Object(Map::empty())),
            ResponseFormat::JsonSchema(x) => tagged("json_schema"@, x.json()),
        }
    }

    open spec fn parse(j: Json) -> Option<Json> {
        match member(j, "type"@) {
            Some(Json::Str(t)) => {
                if t == "text"@ {
                    Some(tagged(t, Json::Object(Map::empty())))
                } else if t == "json_object"@ {
                    Some(tagged(t, Json::Object(Map::empty())))
                } else if t == "json_schema"@ {
                    match ResponseFormatJsonSchema::parse(j) {
                        Some(c) => Some(tagged(t, c)),
                        None => None,
                    }
                } else {
                    None
                }
            },
            _ => None,
        }
    }

    fn to_json(&self) -> (r: JsonValue) {
        match self {
            ResponseFormat::Text => tag_object(object(new_members()), "text"),
            ResponseFormat::JsonObject => tag_object(object(new_members()), "json_object"),
            ResponseFormat::JsonSchema(x) => tag_object(x.to_json(), "json_schema"),
        }
    }

    fn from_json(j: &JsonValue) -> (r: Result<Self, OpenAIError>) {
        match get_member(j, "type") {
            Some(JsonValue::Str(t)) => {
                if text_is(t, "text") {
                    Ok(ResponseFormat::Text)
                } else if text_is(t, "json_object") {
                    Ok(ResponseFormat::JsonObject)
                } else if text_is(t, "json_schema") {
                    match ResponseFormatJsonSchema::from_json(j) {
                        Ok(x) => Ok(ResponseFormat::JsonSchema(x)),
                        Err(e) => Err(e),
                    }
                } else {
                    Err(mismatch("ResponseFormat"))
                }
            },
            _ => Err(mismatch("ResponseFormat")),
        }
    }

    proof fn lemma_round_trip(&self) {
        reveal_strlit("json_object");
        reveal_strlit("json_schema");
        reveal_strlit("text");
        reveal_strlit("type");
        assert("json_object"@.len() == 11);
        assert("json_schema"@.len() == 11);
        assert("text"@.len() == 4);
        assert("type"@.len() == 4);
        assert("json_object"@[5] != "json_schema"@[5]);
        assert("text"@[1] != "type"@[1]);
        match self {
            ResponseFormat::Text => {},
            ResponseFormat::JsonObject => {},
            ResponseFormat::JsonSchema(x) => x.lemma_round_trip_tagged("json_schema"@),
        }
    }
}

/// Structured output that follows a JSON Schema.
#[derive(Clone, Debug, PartialEq)]
pub struct ResponseFormatJsonSchema {
    /// The name of the format.
    pub name: String,
    /// What the format is for.
    pub description: Option<String>,
    /// The JSON Schema.
    pub schema: Option<JsonValue>,
    /// Whether the output must follow the schema exactly.
    pub strict: Option<bool>,
}

impl Wire for ResponseFormatJsonSchema {
    open spec fn json(&self) -> Json {
        let m = Map::<Seq<char>, Json>::empty();
        let m = m.insert("name"@, self.name.json());
        let m = put_opt(m, "description"@, opt_json(self.description));
        let m = put_opt(m, "schema"@, opt_json(self.schema));
        let m = put_opt(m, "strict"@, opt_json(self.strict));
        Json::Object(m)
    }

    open spec fn parse(j: Json) -> Option<Json> {
        let name = parse_req::<String>(j, "name"@);
        let description = parse_opt::<String>(j, "description"@);
        let schema = parse_opt::<JsonValue>(j, "schema"@);
        let strict = parse_opt::<bool>(j, "strict"@);
        if j is Object
            && name is Some
            && description is Some
            && schema is Some
            && strict is Some
        {
            let m = Map::<Seq<char>, Json>::empty();
            let m = m.insert("name"@, name->Some_0);
            let m = put_opt(m, "description"@, description->Some_0);
            let m = put_opt(m, "schema"@, schema->Some_0);
            let m = put_opt(m, "strict"@, strict->Some_0);
            Some(Json::Object(m))
        } else {
            None
        }
    }

    fn to_json(&self) -> (r: JsonValue) {
        let mut m = new_members();
        push_member(&mut m, "name", self.name.to_json());
        push_opt(&mut m, "description", &self.description);
        push_opt(&mut m, "schema", &self.schema);
        push_opt(&mut m, "strict", &self.strict);
        object(m)
    }

    fn from_json(j: &JsonValue) -> (r: Result<Self, OpenAIError>) {
        if !is_object(j) {
            return Err(mismatch("ResponseFormatJsonSchema"));
        }
        let name = match req_member::<String>(j, "name") {
            Ok(x) => x,
            Err(e) => return Err(e),
        };
        let description = match opt_member::<String>(j, "description") {
            Ok(x) => x,
            Err(e) => return Err(e),
        };
        let schema = match opt_member::<JsonValue>(j, "schema") {
            Ok(x) => x,
            Err(e) => return Err(e),
        };
        let strict = match opt_member::<bool>(j, "strict") {
            Ok(x) => x,
            Err(e) => return Err(e),
        };
        Ok(ResponseFormatJsonSchema { name, description, schema, strict })
    }

    proof fn lemma_round_trip(&self) {
        reveal_strlit("description");
        reveal_strlit("name");
        reveal_strlit("schema");
        reveal_strlit("strict");
        assert("description"@.len() == 11);
        assert("name"@.len() == 4);
        assert("schema"@.len() == 6);
        assert("strict"@.len() == 6);
        assert("schema"@[1] != "strict"@[1]);
        let j = self.json();
        lemma_parse_req(j, "name"@, self.name);
        lemma_parse_opt(j, "description"@, self.description);
        lemma_parse_opt(j, "schema"@, self.schema);
        lemma_parse_opt(j, "strict"@, self.strict);
    }
}

impl ResponseFormatJsonSchema {
    /// The document reads alike with a `type` member added beside its own.
    pub proof fn lemma_round_trip_tagged(&self, tag: Seq<char>)
        ensures
            Self::parse(tagged(tag, self.json())) == Some(self.json()),
            self.json() is Object,
    {
        reveal_strlit("description");
        reveal_strlit("name");
        reveal_strlit("schema");
        reveal_strlit("strict");
        reveal_strlit("type");
        assert("description"@.len() == 11);
        assert("name"@.len() == 4);
        assert("schema"@.len() == 6);
        assert("strict"@.len() == 6);
        assert("type"@.len() == 4);
        assert("name"@[0] != "type"@[0]);
        assert("schema"@[1] != "strict"@[1]);
        let j = tagged(tag, self.json());
        lemma_parse_req(j, "name"@, self.name);
        lemma_parse_opt(j, "description"@, self.description);
        lemma_parse_opt(j, "schema"@, self.schema);
        lemma_parse_opt(j, "strict"@, self.strict);
    }
}

/// The truncation strategy for the context of a response.
#[derive(Clone, Copy, Debug, PartialEq, Eq, Structural)]
pub enum ResponseTruncation {
    Auto,
    Disabled,
}

impl ResponseTruncation {
    /// The token that stands for the value on the wire.
    pub open spec fn token_spec(&self) -> Seq<char> {
        match self {
            ResponseTruncation::Auto => "auto"@,
            ResponseTruncation::Disabled => "disabled"@,
        }
    }

    pub open spec fn from_token_spec(s: Seq<char>) -> Option<ResponseTruncation> {
        if s == "auto"@ {
            Some(ResponseTruncation::Auto)
        } else if s == "disabled"@ {
            Some(ResponseTruncation::Disabled)
        } else {
            None
        }
    }

    pub fn token(&self) -> (r: &'static str)
        ensures
            r@ == self.token_spec(),
    {
        match self {
            ResponseTruncation::Auto => "auto",
            ResponseTruncation::Disabled => "disabled",
        }
    }

    pub fn from_token(s: &String) -> (r: Option<ResponseTruncation>)
        ensures
            r == ResponseTruncation::from_token_spec(s@),
    {
        if text_is(s, "auto") {
            Some(ResponseTruncation::Auto)
        } else if text_is(s, "disabled") {
            Some(ResponseTruncation::Disabled)
        } else {
            None
        }
    }
}

impl Default for ResponseTruncation {
    fn default() -> (r: Self)
        ensures
            r == ResponseTruncation::Disabled,
    {
        ResponseTruncation::Disabled
    }
}

impl Wire for ResponseTruncation {
    open spec fn json(&self) -> Json {
        Json::Str(self.token_spec())
    }

    open spec fn parse(j: Json) -> Option<Json> {
        match j {
            Json::Str(s) => match ResponseTruncation::from_token_spec(s) {
                Some(x) => Some(x.json()),
                None => None,
            },
            _ => None,
        }
    }

    fn to_json(&self) -> (r: JsonValue) {
        JsonValue::Str(self.token().to_owned())
    }

    fn from_json(j: &JsonValue) -> (r: Result<Self, OpenAIError>) {
        match j {
            JsonValue::Str(s) => match ResponseTruncation::from_token(s) {
                Some(x) => Ok(x),
                None => Err(mismatch("ResponseTruncation")),
            },
            _ => Err(mismatch("ResponseTruncation")),
        }
    }

    proof fn lemma_round_trip(&self) {
        reveal_strlit("auto");
        reveal_strlit("disabled");
        assert("auto"@.len() == 4);
        assert("disabled"@.len() == 8);
    }
}

} // verus!
