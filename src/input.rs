//! The input of a request: texts, messages, items and content parts.
use vstd::prelude::*;

use crate::error::{mismatch, OpenAIError};
use crate::json::{
    get_member, is_object, member, new_members, object, push_member, put_opt, tag_object,
    tagged, text_is, Json, JsonValue,
};
use crate::wire::{
    def_member, lemma_parse_def, lemma_parse_opt, lemma_parse_req, opt_json, opt_member,
    parse_def, parse_opt, parse_req, push_opt, req_member, Wire,
};

verus! {

/// The input of a request: a text, which stands for one user message, or a
/// list of items.
#[derive(Clone, Debug, PartialEq)]
pub enum Input {
    String(String),
    Array(Vec<InputItem>),
}

impl Wire for Input {
    open spec fn json(&self) -> Json {
        match self {
            Input::String(s) => Json::Str(s@),
            Input::Array(v) => v.json(),
        }
    }

    open spec fn parse(j: Json) -> Option<Json> {
        match j {
            Json::Str(_) => Some(j),
            Json::Array(_) => Vec::<InputItem>::parse(j),
            _ => None,
        }
    }

    fn to_json(&self) -> (r: JsonValue) {
        match self {
            Input::String(s) => JsonValue::Str(s.clone()),
            Input::Array(v) => v.to_json(),
        }
    }

    fn from_json(j: &JsonValue) -> (r: Result<Self, OpenAIError>) {
        match j {
            JsonValue::Str(s) => Ok(Input::String(s.clone())),
            JsonValue::Array(_) => match Vec::<InputItem>::from_json(j) {
                Ok(v) => Ok(Input::Array(v)),
                Err(e) => Err(e),
            },
            _ => Err(mismatch("Input")),
        }
    }

    proof fn lemma_round_trip(&self) {
        if let Input::Array(v) = self {
            v.lemma_round_trip();
        }
    }
}

/// One item of a list input. On the wire it carries no tag: a document is
/// read as the first of message, item and item reference that it matches.
#[derive(Clone, Debug, PartialEq)]
pub enum InputItem {
    Message(EasyInputMessage),
    /// Part of the context for the response: earlier messages, with status.
    Item(Item),
    ItemReference(ItemReference),
}

impl Wire for InputItem {
    open spec fn json(&self) -> Json {
        match self {
            InputItem::Message(x) => x.json(),
            InputItem::Item(x) => x.json(),
            InputItem::ItemReference(x) => x.json(),
        }
    }

    open spec fn parse(j: Json) -> Option<Json> {
        if EasyInputMessage::parse(j) is Some {
            EasyInputMessage::parse(j)
        } else if Item::parse(j) is Some {
            Item::parse(j)
        } else {
            ItemReference::parse(j)
        }
    }

    fn to_json(&self) -> (r: JsonValue) {
        match self {
            InputItem::Message(x) => x.to_json(),
            InputItem::Item(x) => x.to_json(),
            InputItem::ItemReference(x) => x.to_json(),
        }
    }

    fn from_json(j: &JsonValue) -> (r: Result<Self, OpenAIError>) {
        if let Ok(x) = EasyInputMessage::from_json(j) {
            return Ok(InputItem::Message(x));
        }
        if let Ok(x) = Item::from_json(j) {
            return Ok(InputItem::Item(x));
        }
        match ItemReference::from_json(j) {
            Ok(x) => Ok(InputItem::ItemReference(x)),
            Err(e) => Err(e),
        }
    }

    proof fn lemma_round_trip(&self) {
        reveal_strlit("content");
        reveal_strlit("id");
        reveal_strlit("item_reference");
        reveal_strlit("message");
        reveal_strlit("role");
        reveal_strlit("status");
        reveal_strlit("type");
        assert("content"@.len() == 7);
        assert("id"@.len() == 2);
        assert("item_reference"@.len() == 14);
        assert("message"@.len() == 7);
        assert("role"@.len() == 4);
        assert("status"@.len() == 6);
        assert("type"@.len() == 4);
        assert("content"@[0] != "message"@[0]);
        assert("role"@[0] != "type"@[0]);
        match self {
            InputItem::Message(x) => x.lemma_round_trip(),
            InputItem::Item(x) => x.lemma_round_trip(),
            InputItem::ItemReference(x) => x.lemma_round_trip(),
        }
    }
}


/// A message with a role; `developer` and `system` instructions take precedence
/// over `user` ones. A document with a `status` member is not read as one: it
/// is a stored item.
#[derive(Clone, Debug, PartialEq)]
pub struct EasyInputMessage {
    /// Always `message`; taken as such where it is not given.
    pub kind: MessageType,
    /// Who the message is from.
    pub role: EasyInputMessageRole,
    /// Text, image or file input to the model.
    pub content: InputMessageContent,
}

impl Wire for EasyInputMessage {
    open spec fn json(&self) -> Json {
        let m = Map::<Seq<char>, Json>::empty();
        let m = m.insert("type"@, self.kind.json());
        let m = m.insert("role"@, self.role.json());
        let m = m.insert("content"@, self.content.json());
        Json::Object(m)
    }

    open spec fn parse(j: Json) -> Option<Json> {
        let kind = parse_def::<MessageType>(j, "type"@, MessageType::Message);
        let role = parse_req::<EasyInputMessageRole>(j, "role"@);
        let content = parse_req::<InputMessageContent>(j, "content"@);
        if j is Object
            && kind is Some
            && role is Some
            && content is Some
            && member(j, "status"@) is None
        {
            let m = Map::<Seq<char>, Json>::empty();
            let m = m.insert("type"@, kind->Some_0);
            let m = m.insert("role"@, role->Some_0);
            let m = m.insert("content"@, content->Some_0);
            Some(Json::Object(m))
        } else {
            None
        }
    }

    fn to_json(&self) -> (r: JsonValue) {
        let mut m = new_members();
        push_member(&mut m, "type", self.kind.to_json());
        push_member(&mut m, "role", self.role.to_json());
        push_member(&mut m, "content", self.content.to_json());
        object(m)
    }

    fn from_json(j: &JsonValue) -> (r: Result<Self, OpenAIError>) {
        if !is_object(j) {
            return Err(mismatch("EasyInputMessage"));
        }
        if get_member(j, "status").is_some() {
            return Err(mismatch("EasyInputMessage"));
        }
        let kind = match def_member::<MessageType>(j, "type", MessageType::Message) {
            Ok(x) => x,
            Err(e) => return Err(e),
        };
        let role = match req_member::<EasyInputMessageRole>(j, "role") {
            Ok(x) => x,
            Err(e) => return Err(e),
        };
        let content = match req_member::<InputMessageContent>(j, "content") {
            Ok(x) => x,
            Err(e) => return Err(e),
        };
        Ok(EasyInputMessage { kind, role, content })
    }

    proof fn lemma_round_trip(&self) {
        reveal_strlit("content");
        reveal_strlit("role");
        reveal_strlit("status");
        reveal_strlit("type");
        assert("content"@.len() == 7);
        assert("role"@.len() == 4);
        assert("status"@.len() == 6);
        assert("type"@.len() == 4);
        assert("role"@[0] != "type"@[0]);
        let j = self.json();
        lemma_parse_def(j, "type"@, self.kind, MessageType::Message);
        lemma_parse_req(j, "role"@, self.role);
        lemma_parse_req(j, "content"@, self.content);
    }
}

/// The type of a message item.
#[derive(Clone, Copy, Debug, PartialEq, Eq, Structural)]
pub enum MessageType {
    Message,
}

impl MessageType {
    /// The token that stands for the value on the wire.
    pub open spec fn token_spec(&self) -> Seq<char> {
        match self {
            MessageType::Message => "message"@,
        }
    }

    pub open spec fn from_token_spec(s: Seq<char>) -> Option<MessageType> {
        if s == "message"@ {
            Some(MessageType::Message)
        } else {
            None
        }
    }

    pub fn token(&self) -> (r: &'static str)
        ensures
            r@ == self.token_spec(),
    {
        match self {
            MessageType::Message => "message",
        }
    }

    pub fn from_token(s: &String) -> (r: Option<MessageType>)
        ensures
            r == MessageType::from_token_spec(s@),
    {
        if text_is(s, "message") {
            Some(MessageType::Message)
        } else {
            None
        }
    }
}

impl Default for MessageType {
    fn default() -> (r: Self)
        ensures
            r == MessageType::Message,
    {
        MessageType::Message
    }
}

impl Wire for MessageType {
    open spec fn json(&self) -> Json {
        Json::Str(self.token_spec())
    }

    open spec fn parse(j: Json) -> Option<Json> {
        match j {
            Json::Str(s) => match MessageType::from_token_spec(s) {
                Some(x) => Some(x.json()),
                None => None,
            },
            _ => None,
        }
    }

    fn to_json(&self) -> (r: JsonValue) {
        JsonValue::Str(self.token().to_owned())
    }

    fn from_json(j: &JsonValue) -> (r: Result<Self, OpenAIError>) {
        match j {
            JsonValue::Str(s) => match MessageType::from_token(s) {
                Some(x) => Ok(x),
                None => Err(mismatch("MessageType")),
            },
            _ => Err(mismatch("MessageType")),
        }
    }

    proof fn lemma_round_trip(&self) {
        reveal_strlit("message");
        assert("message"@.len() == 7);
    }
}

/// The role of a message.
#[derive(Clone, Copy, Debug, PartialEq, Eq, Structural)]
pub enum EasyInputMessageRole {
    User,
    Assistant,
    System,
    Developer,
}

impl EasyInputMessageRole {
    /// The token that stands for the value on the wire.
    pub open spec fn token_spec(&self) -> Seq<char> {
        match self {
            EasyInputMessageRole::User => "user"@,
            EasyInputMessageRole::Assistant => "assistant"@,
            EasyInputMessageRole::System => "system"@,
            EasyInputMessageRole::Developer => "developer"@,
        }
    }

    pub open spec fn from_token_spec(s: Seq<char>) -> Option<EasyInputMessageRole> {
        if s == "user"@ {
            Some(EasyInputMessageRole::User)
        } else if s == "assistant"@ {
            Some(EasyInputMessageRole::Assistant)
        } else if s == "system"@ {
            Some(EasyInputMessageRole::System)
        } else if s == "developer"@ {
            Some(EasyInputMessageRole::Developer)
        } else {
            None
        }
    }

    pub fn token(&self) -> (r: &'static str)
        ensures
            r@ == self.token_spec(),
    {
        match self {
            EasyInputMessageRole::User => "user",
            EasyInputMessageRole::Assistant => "assistant",
            EasyInputMessageRole::System => "system",
            EasyInputMessageRole::Developer => "developer",
        }
    }

    pub fn from_token(s: &String) -> (r: Option<EasyInputMessageRole>)
        ensures
            r == EasyInputMessageRole::from_token_spec(s@),
    {
        if text_is(s, "user") {
            Some(EasyInputMessageRole::User)
        } else if text_is(s, "assistant") {
            Some(EasyInputMessageRole::Assistant)
        } else if text_is(s, "system") {
            Some(EasyInputMessageRole::System)
        } else if text_is(s, "developer") {
            Some(EasyInputMessageRole::Developer)
        } else {
            None
        }
    }
}

impl Wire for EasyInputMessageRole {
    open spec fn json(&self) -> Json {
        Json::Str(self.token_spec())
    }

    open spec fn parse(j: Json) -> Option<Json> {
        match j {
            Json::Str(s) => match EasyInputMessageRole::from_token_spec(s) {
                Some(x) => Some(x.json()),
                None => None,
            },
            _ => None,
        }
    }

    fn to_json(&self) -> (r: JsonValue) {
        JsonValue::Str(self.token().to_owned())
    }

    fn from_json(j: &JsonValue) -> (r: Result<Self, OpenAIError>) {
        match j {
            JsonValue::Str(s) => match EasyInputMessageRole::from_token(s) {
                Some(x) => Ok(x),
                None => Err(mismatch("EasyInputMessageRole")),
            },
            _ => Err(mismatch("EasyInputMessageRole")),
        }
    }

    proof fn lemma_round_trip(&self) {
        reveal_strlit("assistant");
        reveal_strlit("developer");
        reveal_strlit("system");
        reveal_strlit("user");
        assert("assistant"@.len() == 9);
        assert("developer"@.len() == 9);
        assert("system"@.len() == 6);
        assert("user"@.len() == 4);
        assert("assistant"@[0] != "developer"@[0]);
    }
}

/// The content of a message: a text, or a list of content parts.
#[derive(Clone, Debug, PartialEq)]
pub enum InputMessageContent {
    Text(String),
    Array(Vec<InputContent>),
}

impl Wire for InputMessageContent {
    open spec fn json(&self) -> Json {
        match self {
            InputMessageContent::Text(s) => Json::Str(s@),
            InputMessageContent::Array(v) => v.json(),
        }
    }

    open spec fn parse(j: Json) -> Option<Json> {
        match j {
            Json::Str(_) => Some(j),
            Json::Array(_) => Vec::<InputContent>::parse(j),
            _ => None,
        }
    }

    fn to_json(&self) -> (r: JsonValue) {
        match self {
            InputMessageContent::Text(s) => JsonValue::Str(s.clone()),
            InputMessageContent::Array(v) => v.to_json(),
        }
    }

    fn from_json(j: &JsonValue) -> (r: Result<Self, OpenAIError>) {
        match j {
            JsonValue::Str(s) => Ok(InputMessageContent::Text(s.clone())),
            JsonValue::Array(_) => match Vec::<InputContent>::from_json(j) {
                Ok(v) => Ok(InputMessageContent::Array(v)),
                Err(e) => Err(e),
            },
            _ => Err(mismatch("InputMessageContent")),
        }
    }

    proof fn lemma_round_trip(&self) {
        if let InputMessageContent::Array(v) = self {
            v.lemma_round_trip();
        }
    }
}

/// A content part, told apart on the wire by its `type` member.
#[derive(Clone, Debug, PartialEq)]
pub enum InputContent {
    InputText(InputText),
    InputImage(InputImage),
    InputFile(InputFile),
}

impl InputContent {
    /// The `type` token of the variant.
    pub open spec fn type_token(&self) -> Seq<char> {
        match self {
            InputContent::InputText(_) => "input_text"@,
            InputContent::InputImage(_) => "input_image"@,
            InputContent::InputFile(_) => "input_file"@,
        }
    }
}

impl Wire for InputContent {
    open spec fn json(&self) -> Json {
        match self {
            InputContent::InputText(x) => tagged("input_text"@, x.json()),
            InputContent::InputImage(x) => tagged("input_image"@, x.json()),
            InputContent::InputFile(x) => tagged("input_file"@, x.json()),
        }
    }

    open spec fn parse(j: Json) -> Option<Json> {
        match member(j, "type"@) {
            Some(Json::Str(t)) => {
                if t == "input_text"@ {
                    match InputText::parse(j) {
                        Some(c) => Some(tagged(t, c)),
                        None => None,
                    }
                } else if t == "input_image"@ {
                    match InputImage::parse(j) {
                        Some(c) => Some(tagged(t, c)),
                        None => None,
                    }
                } else if t == "input_file"@ {
                    match InputFile::parse(j) {
                        Some(c) => Some(tagged(t, c)),
                        None => None,
                    }
                } else {
                    None
                }
            },
            _ => None,
        }
    }

    fn to_json(&self) -> (r: JsonValue) {
        match self {
            InputContent::InputText(x) => tag_object(x.to_json(), "input_text"),
            InputContent::InputImage(x) => tag_object(x.to_json(), "input_image"),
            InputContent::InputFile(x) => tag_object(x.to_json(), "input_file"),
        }
    }

    fn from_json(j: &JsonValue) -> (r: Result<Self, OpenAIError>) {
        match get_member(j, "type") {
            Some(JsonValue::Str(t)) => {
                if text_is(t, "input_text") {
                    match InputText::from_json(j) {
                        Ok(x) => Ok(InputContent::InputText(x)),
                        Err(e) => Err(e),
                    }
                } else if text_is(t, "input_image") {
                    match InputImage::from_json(j) {
                        Ok(x) => Ok(InputContent::InputImage(x)),
                        Err(e) => Err(e),
                    }
                } else if text_is(t, "input_file") {
                    match InputFile::from_json(j) {
                        Ok(x) => Ok(InputContent::InputFile(x)),
                        Err(e) => Err(e),
                    }
                } else {
                    Err(mismatch("InputContent"))
                }
            },
            _ => Err(mismatch("InputContent")),
        }
    }

    proof fn lemma_round_trip(&self) {
        reveal_strlit("input_file");
        reveal_strlit("input_image");
        reveal_strlit("input_text");
        reveal_strlit("type");
        assert("input_file"@.len() == 10);
        assert("input_image"@.len() == 11);
        assert("input_text"@.len() == 10);
        assert("type"@.len() == 4);
        assert("input_file"@[6] != "input_text"@[6]);
        match self {
            InputContent::InputText(x) => x.lemma_round_trip_tagged("input_text"@),
            InputContent::InputImage(x) => x.lemma_round_trip_tagged("input_image"@),
            InputContent::InputFile(x) => x.lemma_round_trip_tagged("input_file"@),
        }
    }
}

/// A text input to the model.
#[derive(Clone, Debug, PartialEq)]
pub struct InputText {
    /// The text.
    pub text: String,
}

impl Wire for InputText {
    open spec fn json(&self) -> Json {
        let m = Map::<Seq<char>, Json>::empty();
        let m = m.insert("text"@, self.text.json());
        Json::Object(m)
    }

    open spec fn parse(j: Json) -> Option<Json> {
        let text = parse_req::<String>(j, "text"@);
        if j is Object && text is Some {
            let m = Map::<Seq<char>, Json>::empty();
            let m = m.insert("text"@, text->Some_0);
            Some(Json::Object(m))
        } else {
            None
        }
    }

    fn to_json(&self) -> (r: JsonValue) {
        let mut m = new_members();
        push_member(&mut m, "text", self.text.to_json());
        object(m)
    }

    fn from_json(j: &JsonValue) -> (r: Result<Self, OpenAIError>) {
        if !is_object(j) {
            return Err(mismatch("InputText"));
        }
        let text = match req_member::<String>(j, "text") {
            Ok(x) => x,
            Err(e) => return Err(e),
        };
        Ok(InputText { text })
    }

    proof fn lemma_round_trip(&self) {
        reveal_strlit("text");
        assert("text"@.len() == 4);
        let j = self.json();
        lemma_parse_req(j, "text"@, self.text);
    }
}

impl InputText {
    /// The document reads alike with a `type` member added beside its own.
    pub proof fn lemma_round_trip_tagged(&self, tag: Seq<char>)
        ensures
            Self::parse(tagged(tag, self.json())) == Some(self.json()),
            self.json() is Object,
    {
        reveal_strlit("text");
        reveal_strlit("type");
        assert("text"@.len() == 4);
        assert("type"@.len() == 4);
        assert("text"@[1] != "type"@[1]);
        let j = tagged(tag, self.json());
        lemma_parse_req(j, "text"@, self.text);
    }
}

/// An image input to the model, by URL or by file ID.
#[derive(Clone, Debug, PartialEq)]
pub struct InputImage {
    /// A fully qualified URL, or a data URL holding the image in base64.
    pub image_url: Option<String>,
    /// The ID of an uploaded file.
    pub file_id: Option<String>,
    /// The detail level of the image; `auto` where it is not given.
    pub detail: ImageDetail,
}

impl Wire for InputImage {
    open spec fn json(&self) -> Json {
        let m = Map::<Seq<char>, Json>::empty();
        let m = put_opt(m, "image_url"@, opt_json(self.image_url));
        let m = put_opt(m, "file_id"@, opt_json(self.file_id));
        let m = m.insert("detail"@, self.detail.json());
        Json::Object(m)
    }

    open spec fn parse(j: Json) -> Option<Json> {
        let image_url = parse_opt::<String>(j, "image_url"@);
        let file_id = parse_opt::<String>(j, "file_id"@);
        let detail = parse_def::<ImageDetail>(j, "detail"@, ImageDetail::Auto);
        if j is Object && image_url is Some && file_id is Some && detail is Some {
            let m = Map::<Seq<char>, Json>::empty();
            let m = put_opt(m, "image_url"@, image_url->Some_0);
            let m = put_opt(m, "file_id"@, file_id->Some_0);
            let m = m.insert("detail"@, detail->Some_0);
            Some(Json::Object(m))
        } else {
            None
        }
    }

    fn to_json(&self) -> (r: JsonValue) {
        let mut m = new_members();
        push_opt(&mut m, "image_url", &self.image_url);
        push_opt(&mut m, "file_id", &self.file_id);
        push_member(&mut m, "detail", self.detail.to_json());
        object(m)
    }

    fn from_json(j: &JsonValue) -> (r: Result<Self, OpenAIError>) {
        if !is_object(j) {
            return Err(mismatch("InputImage"));
        }
        let image_url = match opt_member::<String>(j, "image_url") {
            Ok(x) => x,
            Err(e) => return Err(e),
        };
        let file_id = match opt_member::<String>(j, "file_id") {
            Ok(x) => x,
            Err(e) => return Err(e),
        };
        let detail = match def_member::<ImageDetail>(j, "detail", ImageDetail::Auto) {
            Ok(x) => x,
            Err(e) => return Err(e),
        };
        Ok(InputImage { image_url, file_id, detail })
    }

    proof fn lemma_round_trip(&self) {
        reveal_strlit("detail");
        reveal_strlit("file_id");
        reveal_strlit("image_url");
        assert("detail"@.len() == 6);
        assert("file_id"@.len() == 7);
        assert("image_url"@.len() == 9);
        let j = self.json();
        lemma_parse_opt(j, "image_url"@, self.image_url);
        lemma_parse_opt(j, "file_id"@, self.file_id);
        lemma_parse_def(j, "detail"@, self.detail, ImageDetail::Auto);
    }
}

impl InputImage {
    /// The document reads alike with a `type` member added beside its own.
    pub proof fn lemma_round_trip_tagged(&self, tag: Seq<char>)
        ensures
            Self::parse(tagged(tag, self.json())) == Some(self.json()),
            self.json() is Object,
    {
        reveal_strlit("detail");
        reveal_strlit("file_id");
        reveal_strlit("image_url");
        reveal_strlit("type");
        assert("detail"@.len() == 6);
        assert("file_id"@.len() == 7);
        assert("image_url"@.len() == 9);
        assert("type"@.len() == 4);
        let j = tagged(tag, self.json());
        lemma_parse_opt(j, "image_url"@, self.image_url);
        lemma_parse_opt(j, "file_id"@, self.file_id);
        lemma_parse_def(j, "detail"@, self.detail, ImageDetail::Auto);
    }
}

/// The detail level of an image input.
#[derive(Clone, Copy, Debug, PartialEq, Eq, Structural)]
pub enum ImageDetail {
    High,
    Low,
    Auto,
}

impl ImageDetail {
    /// The token that stands for the value on the wire.
    pub open spec fn token_spec(&self) -> Seq<char> {
        match self {
            ImageDetail::High => "high"@,
            ImageDetail::Low => "low"@,
            ImageDetail::Auto => "auto"@,
        }
    }

    pub open spec fn from_token_spec(s: Seq<char>) -> Option<ImageDetail> {
        if s == "high"@ {
            Some(ImageDetail::High)
        } else if s == "low"@ {
            Some(ImageDetail::Low)
        } else if s == "auto"@ {
            Some(ImageDetail::Auto)
        } else {
            None
        }
    }

    pub fn token(&self) -> (r: &'static str)
        ensures
            r@ == self.token_spec(),
    {
        match self {
            ImageDetail::High => "high",
            ImageDetail::Low => "low",
            ImageDetail::Auto => "auto",
        }
    }

    pub fn from_token(s: &String) -> (r: Option<ImageDetail>)
        ensures
            r == ImageDetail::from_token_spec(s@),
    {
        if text_is(s, "high") {
            Some(ImageDetail::High)
        } else if text_is(s, "low") {
            Some(ImageDetail::Low)
        } else if text_is(s, "auto") {
            Some(ImageDetail::Auto)
        } else {
            None
        }
    }
}

impl Default for ImageDetail {
    fn default() -> (r: Self)
        ensures
            r == ImageDetail::Auto,
    {
        ImageDetail::Auto
    }
}

impl Wire for ImageDetail {
    open spec fn json(&self) -> Json {
        Json::Str(self.token_spec())
    }

    open spec fn parse(j: Json) -> Option<Json> {
        match j {
            Json::Str(s) => match ImageDetail::from_token_spec(s) {
                Some(x) => Some(x.json()),
                None => None,
            },
            _ => None,
        }
    }

    fn to_json(&self) -> (r: JsonValue) {
        JsonValue::Str(self.token().to_owned())
    }

    fn from_json(j: &JsonValue) -> (r: Result<Self, OpenAIError>) {
        match j {
            JsonValue::Str(s) => match ImageDetail::from_token(s) {
                Some(x) => Ok(x),
                None => Err(mismatch("ImageDetail")),
            },
            _ => Err(mismatch("ImageDetail")),
        }
    }

    proof fn lemma_round_trip(&self) {
        reveal_strlit("auto");
        reveal_strlit("high");
        reveal_strlit("low");
        assert("auto"@.len() == 4);
        assert("high"@.len() == 4);
        assert("low"@.len() == 3);
        assert("auto"@[0] != "high"@[0]);
    }
}

/// A file input to the model, by ID or by name and content.
#[derive(Clone, Debug, PartialEq)]
pub struct InputFile {
    /// The ID of an uploaded file.
    pub file_id: Option<String>,
    /// The name of the file.
    pub filename: Option<String>,
    /// The content of the file.
    pub file_data: Option<String>,
}

impl Wire for InputFile {
    open spec fn json(&self) -> Json {
        let m = Map::<Seq<char>, Json>::empty();
        let m = put_opt(m, "file_id"@, opt_json(self.file_id));
        let m = put_opt(m, "filename"@, opt_json(self.filename));
        let m = put_opt(m, "file_data"@, opt_json(self.file_data));
        Json::Object(m)
    }

    open spec fn parse(j: Json) -> Option<Json> {
        let file_id = parse_opt::<String>(j, "file_id"@);
        let filename = parse_opt::<String>(j, "filename"@);
        let file_data = parse_opt::<String>(j, "file_data"@);
        if j is Object
            && file_id is Some
            && filename is Some
            && file_data is Some
        {
            let m = Map::<Seq<char>, Json>::empty();
            let m = put_opt(m, "file_id"@, file_id->Some_0);
            let m = put_opt(m, "filename"@, filename->Some_0);
            let m = put_opt(m, "file_data"@, file_data->Some_0);
            Some(Json::Object(m))
        } else {
            None
        }
    }

    fn to_json(&self) -> (r: JsonValue) {
        let mut m = new_members();
        push_opt(&mut m, "file_id", &self.file_id);
        push_opt(&mut m, "filename", &self.filename);
        push_opt(&mut m, "file_data", &self.file_data);
        object(m)
    }

    fn from_json(j: &JsonValue) -> (r: Result<Self, OpenAIError>) {
        if !is_object(j) {
            return Err(mismatch("InputFile"));
        }
        let file_id = match opt_member::<String>(j, "file_id") {
            Ok(x) => x,
            Err(e) => return Err(e),
        };
        let filename = match opt_member::<String>(j, "filename") {
            Ok(x) => x,
            Err(e) => return Err(e),
        };
        let file_data = match opt_member::<String>(j, "file_data") {
            Ok(x) => x,
            Err(e) => return Err(e),
        };
        Ok(InputFile { file_id, filename, file_data })
    }

    proof fn lemma_round_trip(&self) {
        reveal_strlit("file_data");
        reveal_strlit("file_id");
        reveal_strlit("filename");
        assert("file_data"@.len() == 9);
        assert("file_id"@.len() == 7);
        assert("filename"@.len() == 8);
        let j = self.json();
        lemma_parse_opt(j, "file_id"@, self.file_id);
        lemma_parse_opt(j, "filename"@, self.filename);
        lemma_parse_opt(j, "file_data"@, self.file_data);
    }
}

impl InputFile {
    /// The document reads alike with a `type` member added beside its own.
    pub proof fn lemma_round_trip_tagged(&self, tag: Seq<char>)
        ensures
            Self::parse(tagged(tag, self.json())) == Some(self.json()),
            self.json() is Object,
    {
        reveal_strlit("file_data");
        reveal_strlit("file_id");
        reveal_strlit("filename");
        reveal_strlit("type");
        assert("file_data"@.len() == 9);
        assert("file_id"@.len() == 7);
        assert("filename"@.len() == 8);
        assert("type"@.len() == 4);
        let j = tagged(tag, self.json());
        lemma_parse_opt(j, "file_id"@, self.file_id);
        lemma_parse_opt(j, "filename"@, self.filename);
        lemma_parse_opt(j, "file_data"@, self.file_data);
    }
}

/// An item of the context, told apart on the wire by its `type` member.
#[derive(Clone, Debug, PartialEq)]
pub enum Item {
    Message(InputMessage),
}

impl Item {
    /// The `type` token of the variant.
    pub open spec fn type_token(&self) -> Seq<char> {
        match self {
            Item::Message(_) => "message"@,
        }
    }
}

impl Wire for Item {
    open spec fn json(&self) -> Json {
        match self {
            Item::Message(x) => tagged("message"@, x.json()),
        }
    }

    open spec fn parse(j: Json) -> Option<Json> {
        match member(j, "type"@) {
            Some(Json::Str(t)) => {
                if t == "message"@ {
                    match InputMessage::parse(j) {
                        Some(c) => Some(tagged(t, c)),
                        None => None,
                    }
                } else {
                    None
                }
            },
            _ => None,
        }
    }

    fn to_json(&self) -> (r: JsonValue) {
        match self {
            Item::Message(x) => tag_object(x.to_json(), "message"),
        }
    }

    fn from_json(j: &JsonValue) -> (r: Result<Self, OpenAIError>) {
        match get_member(j, "type") {
            Some(JsonValue::Str(t)) => {
                if text_is(t, "message") {
                    match InputMessage::from_json(j) {
                        Ok(x) => Ok(Item::Message(x)),
                        Err(e) => Err(e),
                    }
                } else {
                    Err(mismatch("Item"))
                }
            },
            _ => Err(mismatch("Item")),
        }
    }

    proof fn lemma_round_trip(&self) {
        reveal_strlit("message");
        reveal_strlit("type");
        assert("message"@.len() == 7);
        assert("type"@.len() == 4);
        match self {
            Item::Message(x) => x.lemma_round_trip_tagged("message"@),
        }
    }
}

/// A message item with a status, as the service returns it.
#[derive(Clone, Debug, PartialEq)]
pub struct InputMessage {
    /// Who the message is from.
    pub role: InputMessageRole,
    /// Whether the item is complete.
    pub status: MessageStatus,
    /// The content parts.
    pub content: Vec<InputContent>,
}

impl Wire for InputMessage {
    open spec fn json(&self) -> Json {
        let m = Map::<Seq<char>, Json>::empty();
        let m = m.insert("role"@, self.role.json());
        let m = m.insert("status"@, self.status.json());
        let m = m.insert("content"@, self.content.json());
        Json::Object(m)
    }

    open spec fn parse(j: Json) -> Option<Json> {
        let role = parse_req::<InputMessageRole>(j, "role"@);
        let status = parse_req::<MessageStatus>(j, "status"@);
        let content = parse_req::<Vec<InputContent>>(j, "content"@);
        if j is Object && role is Some && status is Some && content is Some {
            let m = Map::<Seq<char>, Json>::empty();
            let m = m.insert("role"@, role->Some_0);
            let m = m.insert("status"@, status->Some_0);
            let m = m.insert("content"@, content->Some_0);
            Some(Json::Object(m))
        } else {
            None
        }
    }

    fn to_json(&self) -> (r: JsonValue) {
        let mut m = new_members();
        push_member(&mut m, "role", self.role.to_json());
        push_member(&mut m, "status", self.status.to_json());
        push_member(&mut m, "content", self.content.to_json());
        object(m)
    }

    fn from_json(j: &JsonValue) -> (r: Result<Self, OpenAIError>) {
        if !is_object(j) {
            return Err(mismatch("InputMessage"));
        }
        let role = match req_member::<InputMessageRole>(j, "role") {
            Ok(x) => x,
            Err(e) => return Err(e),
        };
        let status = match req_member::<MessageStatus>(j, "status") {
            Ok(x) => x,
            Err(e) => return Err(e),
        };
        let content = match req_member::<Vec<InputContent>>(j, "content") {
            Ok(x) => x,
            Err(e) => return Err(e),
        };
        Ok(InputMessage { role, status, content })
    }

    proof fn lemma_round_trip(&self) {
        reveal_strlit("content");
        reveal_strlit("role");
        reveal_strlit("status");
        assert("content"@.len() == 7);
        assert("role"@.len() == 4);
        assert("status"@.len() == 6);
        let j = self.json();
        lemma_parse_req(j, "role"@, self.role);
        lemma_parse_req(j, "status"@, self.status);
        lemma_parse_req(j, "content"@, self.content);
    }
}

impl InputMessage {
    /// The document reads alike with a `type` member added beside its own.
    pub proof fn lemma_round_trip_tagged(&self, tag: Seq<char>)
        ensures
            Self::parse(tagged(tag, self.json())) == Some(self.json()),
            self.json() is Object,
    {
        reveal_strlit("content");
        reveal_strlit("role");
        reveal_strlit("status");
        reveal_strlit("type");
        assert("content"@.len() == 7);
        assert("role"@.len() == 4);
        assert("status"@.len() == 6);
        assert("type"@.len() == 4);
        assert("role"@[0] != "type"@[0]);
        let j = tagged(tag, self.json());
        lemma_parse_req(j, "role"@, self.role);
        lemma_parse_req(j, "status"@, self.status);
        lemma_parse_req(j, "content"@, self.content);
    }
}

/// The role of a message item.
#[derive(Clone, Copy, Debug, PartialEq, Eq, Structural)]
pub enum InputMessageRole {
    User,
    System,
    Developer,
}

impl InputMessageRole {
    /// The token that stands for the value on the wire.
    pub open spec fn token_spec(&self) -> Seq<char> {
        match self {
            InputMessageRole::User => "user"@,
            InputMessageRole::System => "system"@,
            InputMessageRole::Developer => "developer"@,
        }
    }

    pub open spec fn from_token_spec(s: Seq<char>) -> Option<InputMessageRole> {
        if s == "user"@ {
            Some(InputMessageRole::User)
        } else if s == "system"@ {
            Some(InputMessageRole::System)
        } else if s == "developer"@ {
            Some(InputMessageRole::Developer)
        } else {
            None
        }
    }

    pub fn token(&self) -> (r: &'static str)
        ensures
            r@ == self.token_spec(),
    {
        match self {
            InputMessageRole::User => "user",
            InputMessageRole::System => "system",
            InputMessageRole::Developer => "developer",
        }
    }

    pub fn from_token(s: &String) -> (r: Option<InputMessageRole>)
        ensures
            r == InputMessageRole::from_token_spec(s@),
    {
        if text_is(s, "user") {
            Some(InputMessageRole::User)
        } else if text_is(s, "system") {
            Some(InputMessageRole::System)
        } else if text_is(s, "developer") {
            Some(InputMessageRole::Developer)
        } else {
            None
        }
    }
}

impl Wire for InputMessageRole {
    open spec fn json(&self) -> Json {
        Json::Str(self.token_spec())
    }

    open spec fn parse(j: Json) -> Option<Json> {
        match j {
            Json::Str(s) => match InputMessageRole::from_token_spec(s) {
                Some(x) => Some(x.json()),
                None => None,
            },
            _ => None,
        }
    }

    fn to_json(&self) -> (r: JsonValue) {
        JsonValue::Str(self.token().to_owned())
    }

    fn from_json(j: &JsonValue) -> (r: Result<Self, OpenAIError>) {
        match j {
            JsonValue::Str(s) => match InputMessageRole::from_token(s) {
                Some(x) => Ok(x),
                None => Err(mismatch("InputMessageRole")),
            },
            _ => Err(mismatch("InputMessageRole")),
        }
    }

    proof fn lemma_round_trip(&self) {
        reveal_strlit("developer");
        reveal_strlit("system");
        reveal_strlit("user");
        assert("developer"@.len() == 9);
        assert("system"@.len() == 6);
        assert("user"@.len() == 4);
    }
}

/// The status of an item.
#[derive(Clone, Copy, Debug, PartialEq, Eq, Structural)]
pub enum MessageStatus {
    InProgress,
    Completed,
    Incomplete,
}

impl MessageStatus {
    /// The token that stands for the value on the wire.
    pub open spec fn token_spec(&self) -> Seq<char> {
        match self {
            MessageStatus::InProgress => "in_progress"@,
            MessageStatus::Completed => "completed"@,
            MessageStatus::Incomplete => "incomplete"@,
        }
    }

    pub open spec fn from_token_spec(s: Seq<char>) -> Option<MessageStatus> {
        if s == "in_progress"@ {
            Some(MessageStatus::InProgress)
        } else if s == "completed"@ {
            Some(MessageStatus::Completed)
        } else if s == "incomplete"@ {
            Some(MessageStatus::Incomplete)
        } else {
            None
        }
    }

    pub fn token(&self) -> (r: &'static str)
        ensures
            r@ == self.token_spec(),
    {
        match self {
            MessageStatus::InProgress => "in_progress",
            MessageStatus::Completed => "completed",
            MessageStatus::Incomplete => "incomplete",
        }
    }

    pub fn from_token(s: &String) -> (r: Option<MessageStatus>)
        ensures
            r == MessageStatus::from_token_spec(s@),
    {
        if text_is(s, "in_progress") {
            Some(MessageStatus::InProgress)
        } else if text_is(s, "completed") {
            Some(MessageStatus::Completed)
        } else if text_is(s, "incomplete") {
            Some(MessageStatus::Incomplete)
        } else {
            None
        }
    }
}

impl Wire for MessageStatus {
    open spec fn json(&self) -> Json {
        Json::Str(self.token_spec())
    }

    open spec fn parse(j: Json) -> Option<Json> {
        match j {
            Json::Str(s) => match MessageStatus::from_token_spec(s) {
                Some(x) => Some(x.json()),
                None => None,
            },
            _ => None,
        }
    }

    fn to_json(&self) -> (r: JsonValue) {
        JsonValue::Str(self.token().to_owned())
    }

    fn from_json(j: &JsonValue) -> (r: Result<Self, OpenAIError>) {
        match j {
            JsonValue::Str(s) => match MessageStatus::from_token(s) {
                Some(x) => Ok(x),
                None => Err(mismatch("MessageStatus")),
            },
            _ => Err(mismatch("MessageStatus")),
        }
    }

    proof fn lemma_round_trip(&self) {
        reveal_strlit("completed");
        reveal_strlit("in_progress");
        reveal_strlit("incomplete");
        assert("completed"@.len() == 9);
        assert("in_progress"@.len() == 11);
        assert("incomplete"@.len() == 10);
    }
}

/// A reference to an earlier item by its ID.
#[derive(Clone, Debug, PartialEq)]
pub struct ItemReference {
    /// Always `item_reference`; taken as such where it is not given.
    pub kind: ItemReferenceType,
    /// The ID of the item.
    pub id: String,
}

impl Wire for ItemReference {
    open spec fn json(&self) -> Json {
        let m = Map::<Seq<char>, Json>::empty();
        let m = m.insert("type"@, self.kind.json());
        let m = m.insert("id"@, self.id.json());
        Json::Object(m)
    }

    open spec fn parse(j: Json) -> Option<Json> {
        let kind = parse_def::<ItemReferenceType>(j, "type"@, ItemReferenceType::ItemReference);
        let id = parse_req::<String>(j, "id"@);
        if j is Object && kind is Some && id is Some {
            let m = Map::<Seq<char>, Json>::empty();
            let m = m.insert("type"@, kind->Some_0);
            let m = m.insert("id"@, id->Some_0);
            Some(Json::Object(m))
        } else {
            None
        }
    }

    fn to_json(&self) -> (r: JsonValue) {
        let mut m = new_members();
        push_member(&mut m, "type", self.kind.to_json());
        push_member(&mut m, "id", self.id.to_json());
        object(m)
    }

    fn from_json(j: &JsonValue) -> (r: Result<Self, OpenAIError>) {
        if !is_object(j) {
            return Err(mismatch("ItemReference"));
        }
        let kind = match def_member::<ItemReferenceType>(
            j,
            "type",
            ItemReferenceType::ItemReference,
        ) {
            Ok(x) => x,
            Err(e) => return Err(e),
        };
        let id = match req_member::<String>(j, "id") {
            Ok(x) => x,
            Err(e) => return Err(e),
        };
        Ok(ItemReference { kind, id })
    }

    proof fn lemma_round_trip(&self) {
        reveal_strlit("id");
        reveal_strlit("type");
        assert("id"@.len() == 2);
        assert("type"@.len() == 4);
        let j = self.json();
        lemma_parse_def(j, "type"@, self.kind, ItemReferenceType::ItemReference);
        lemma_parse_req(j, "id"@, self.id);
    }
}

/// The type of an item reference.
#[derive(Clone, Copy, Debug, PartialEq, Eq, Structural)]
pub enum ItemReferenceType {
    ItemReference,
}

impl ItemReferenceType {
    /// The token that stands for the value on the wire.
    pub open spec fn token_spec(&self) -> Seq<char> {
        match self {
            ItemReferenceType::ItemReference => "item_reference"@,
        }
    }

    pub open spec fn from_token_spec(s: Seq<char>) -> Option<ItemReferenceType> {
        if s == "item_reference"@ {
            Some(ItemReferenceType::ItemReference)
        } else {
            None
        }
    }

    pub fn token(&self) -> (r: &'static str)
        ensures
            r@ == self.token_spec(),
    {
        match self {
            ItemReferenceType::ItemReference => "item_reference",
        }
    }

    pub fn from_token(s: &String) -> (r: Option<ItemReferenceType>)
        ensures
            r == ItemReferenceType::from_token_spec(s@),
    {
        if text_is(s, "item_reference") {
            Some(ItemReferenceType::ItemReference)
        } else {
            None
        }
    }
}

impl Default for ItemReferenceType {
    fn default() -> (r: Self)
        ensures
            r == ItemReferenceType::ItemReference,
    {
        ItemReferenceType::ItemReference
    }
}

impl Wire for ItemReferenceType {
    open spec fn json(&self) -> Json {
        Json::Str(self.token_spec())
    }

    open spec fn parse(j: Json) -> Option<Json> {
        match j {
            Json::Str(s) => match ItemReferenceType::from_token_spec(s) {
                Some(x) => Some(x.json()),
                None => None,
            },
            _ => None,
        }
    }

    fn to_json(&self) -> (r: JsonValue) {
        JsonValue::Str(self.token().to_owned())
    }

    fn from_json(j: &JsonValue) -> (r: Result<Self, OpenAIError>) {
        match j {
            JsonValue::Str(s) => match ItemReferenceType::from_token(s) {
                Some(x) => Ok(x),
                None => Err(mismatch("ItemReferenceType")),
            },
            _ => Err(mismatch("ItemReferenceType")),
        }
    }

    proof fn lemma_round_trip(&self) {
        reveal_strlit("item_reference");
        assert("item_reference"@.len() == 14);
    }
}

} // verus!
