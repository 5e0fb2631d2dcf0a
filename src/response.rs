//! A model response as the service returns it.
use vstd::prelude::*;

use crate::error::{mismatch, OpenAIError};
use crate::json::{is_object, new_members, object, push_member, put_opt, text_is, Json, JsonValue};
use crate::wire::{
    def_member, lemma_parse_def, lemma_parse_opt, lemma_parse_req, opt_json, opt_member,
    parse_def, parse_opt, parse_req, push_opt, req_member, Wire,
};
use crate::input::{InputContent, MessageType};

verus! {

/// A model response, as the service returns it. Members that are not
/// modelled here are ignored.
#[derive(Clone, Debug, PartialEq)]
pub struct Response {
    /// The ID of the response; pass it as `previous_response_id` to continue.
    pub id: String,
    /// The model that produced the response.
    pub model: Option<String>,
    /// The output items.
    pub output: Vec<OutputMessage>,
}

impl Wire for Response {
    open spec fn json(&self) -> Json {
        let m = Map::<Seq<char>, Json>::empty();
        let m = m.insert("id"@, self.id.json());
        let m = put_opt(m, "model"@, opt_json(self.model));
        let m = m.insert("output"@, self.output.json());
        Json::Object(m)
    }

    open spec fn parse(j: Json) -> Option<Json> {
        let id = parse_req::<String>(j, "id"@);
        let model = parse_opt::<String>(j, "model"@);
        let output = parse_req::<Vec<OutputMessage>>(j, "output"@);
        if j is Object && id is Some && model is Some && output is Some {
            let m = Map::<Seq<char>, Json>::empty();
            let m = m.insert("id"@, id->Some_0);
            let m = put_opt(m, "model"@, model->Some_0);
            let m = m.insert("output"@, output->Some_0);
            Some(Json::Object(m))
        } else {
            None
        }
    }

    fn to_json(&self) -> (r: JsonValue) {
        let mut m = new_members();
        push_member(&mut m, "id", self.id.to_json());
        push_opt(&mut m, "model", &self.model);
        push_member(&mut m, "output", self.output.to_json());
        object(m)
    }

    fn from_json(j: &JsonValue) -> (r: Result<Self, OpenAIError>) {
        if !is_object(j) {
            return Err(mismatch("Response"));
        }
        let id = match req_member::<String>(j, "id") {
            Ok(x) => x,
            Err(e) => return Err(e),
        };
        let model = match opt_member::<String>(j, "model") {
            Ok(x) => x,
            Err(e) => return Err(e),
        };
        let output = match req_member::<Vec<OutputMessage>>(j, "output") {
            Ok(x) => x,
            Err(e) => return Err(e),
        };
        Ok(Response { id, model, output })
    }

    proof fn lemma_round_trip(&self) {
        reveal_strlit("id");
        reveal_strlit("model");
        reveal_strlit("output");
        assert("id"@.len() == 2);
        assert("model"@.len() == 5);
        assert("output"@.len() == 6);
        let j = self.json();
        lemma_parse_req(j, "id"@, self.id);
        lemma_parse_opt(j, "model"@, self.model);
        lemma_parse_req(j, "output"@, self.output);
    }
}

/// A message produced by the model.
#[derive(Clone, Debug, PartialEq)]
pub struct OutputMessage {
    /// The ID of the message.
    pub id: String,
    /// Always `message`.
    pub kind: MessageType,
    /// Always `assistant`.
    pub role: OutputMessageRole,
    /// The content parts.
    pub content: Vec<InputContent>,
}

impl Wire for OutputMessage {
    open spec fn json(&self) -> Json {
        let m = Map::<Seq<char>, Json>::empty();
        let m = m.insert("id"@, self.id.json());
        let m = m.insert("type"@, self.kind.json());
        let m = m.insert("role"@, self.role.json());
        let m = m.insert("content"@, self.content.json());
        Json::Object(m)
    }

    open spec fn parse(j: Json) -> Option<Json> {
        let id = parse_req::<String>(j, "id"@);
        let kind = parse_def::<MessageType>(j, "type"@, MessageType::Message);
        let role = parse_def::<OutputMessageRole>(j, "role"@, OutputMessageRole::Assistant);
        let content = parse_req::<Vec<InputContent>>(j, "content"@);
        if j is Object
            && id is Some
            && kind is Some
            && role is Some
            && content is Some
        {
            let m = Map::<Seq<char>, Json>::empty();
            let m = m.insert("id"@, id->Some_0);
            let m = m.insert("type"@, kind->Some_0);
            let m = m.insert("role"@, role->Some_0);
            let m = m.insert("content"@, content->Some_0);
            Some(Json::Object(m))
        } else {
            None
        }
    }

    fn to_json(&self) -> (r: JsonValue) {
        let mut m = new_members();
        push_member(&mut m, "id", self.id.to_json());
        push_member(&mut m, "type", self.kind.to_json());
        push_member(&mut m, "role", self.role.to_json());
        push_member(&mut m, "content", self.content.to_json());
        object(m)
    }

    fn from_json(j: &JsonValue) -> (r: Result<Self, OpenAIError>) {
        if !is_object(j) {
            return Err(mismatch("OutputMessage"));
        }
        let id = match req_member::<String>(j, "id") {
            Ok(x) => x,
            Err(e) => return Err(e),
        };
        let kind = match def_member::<MessageType>(j, "type", MessageType::Message) {
            Ok(x) => x,
            Err(e) => return Err(e),
        };
        let role = match def_member::<OutputMessageRole>(j, "role", OutputMessageRole::Assistant) {
            Ok(x) => x,
            Err(e) => return Err(e),
        };
        let content = match req_member::<Vec<InputContent>>(j, "content") {
            Ok(x) => x,
            Err(e) => return Err(e),
        };
        Ok(OutputMessage { id, kind, role, content })
    }

    proof fn lemma_round_trip(&self) {
        reveal_strlit("content");
        reveal_strlit("id");
        reveal_strlit("role");
        reveal_strlit("type");
        assert("content"@.len() == 7);
        assert("id"@.len() == 2);
        assert("role"@.len() == 4);
        assert("type"@.len() == 4);
        assert("role"@[0] != "type"@[0]);
        let j = self.json();
        lemma_parse_req(j, "id"@, self.id);
        lemma_parse_def(j, "type"@, self.kind, MessageType::Message);
        lemma_parse_def(j, "role"@, self.role, OutputMessageRole::Assistant);
        lemma_parse_req(j, "content"@, self.content);
    }
}

/// The role of an output message.
#[derive(Clone, Copy, Debug, PartialEq, Eq, Structural)]
pub enum OutputMessageRole {
    Assistant,
}

impl OutputMessageRole {
    /// The token that stands for the value on the wire.
    pub open spec fn token_spec(&self) -> Seq<char> {
        match self {
            OutputMessageRole::Assistant => "assistant"@,
        }
    }

    pub open spec fn from_token_spec(s: Seq<char>) -> Option<OutputMessageRole> {
        if s == "assistant"@ {
            Some(OutputMessageRole::Assistant)
        } else {
            None
        }
    }

    pub fn token(&self) -> (r: &'static str)
        ensures
            r@ == self.token_spec(),
    {
        match self {
            OutputMessageRole::Assistant => "assistant",
        }
    }

    pub fn from_token(s: &String) -> (r: Option<OutputMessageRole>)
        ensures
            r == OutputMessageRole::from_token_spec(s@),
    {
        if text_is(s, "assistant") {
            Some(OutputMessageRole::Assistant)
        } else {
            None
        }
    }
}

impl Default for OutputMessageRole {
    fn default() -> (r: Self)
        ensures
            r == OutputMessageRole::Assistant,
    {
        OutputMessageRole::Assistant
    }
}

impl Wire for OutputMessageRole {
    open spec fn json(&self) -> Json {
        Json::Str(self.token_spec())
    }

    open spec fn parse(j: Json) -> Option<Json> {
        match j {
            Json::Str(s) => match OutputMessageRole::from_token_spec(s) {
                Some(x) => Some(x.json()),
                None => None,
            },
            _ => None,
        }
    }

    fn to_json(&self) -> (r: JsonValue) {
        JsonValue::Str(self.token().to_owned())
    }

    fn from_json(j: &JsonValue) -> (r: Result<Self, OpenAIError>) {
        match j {
            JsonValue::Str(s) => match OutputMessageRole::from_token(s) {
                Some(x) => Ok(x),
                None => Err(mismatch("OutputMessageRole")),
            },
            _ => Err(mismatch("OutputMessageRole")),
        }
    }

    proof fn lemma_round_trip(&self) {
        reveal_strlit("assistant");
        assert("assistant"@.len() == 9);
    }
}

} // verus!
