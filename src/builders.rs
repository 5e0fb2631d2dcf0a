//! Builders that collect the fields of a value, fill in defaults, and name
//! the first required field that was never set.
use vstd::prelude::*;

use crate::error::OpenAIError;
use crate::input::{
    EasyInputMessage, EasyInputMessageRole, Input, InputContent, InputMessage, InputMessageContent,
    InputMessageRole, MessageStatus, MessageType,
};
use crate::json::{JsonNumber, JsonValue};
use crate::request::{CreateResponse, Reasoning, ResponseTruncation, TextResponseFormat};
use crate::response::{OutputMessage, OutputMessageRole};
use crate::tool::{
    ComputerTool, Environment, FileSearchTool, FunctionToolType, LocationType, RankingOptions, Tool,
    ToolChoice, ToolChoiceFunction, WebSearchTool, WebSearchToolUserLocation,
};

verus! {

/// Whether `r` is the error for a required field `field` that was never set.
pub open spec fn missing_field<T>(r: Result<T, OpenAIError>, field: Seq<char>) -> bool {
    match r {
        Err(OpenAIError::MissingRequiredField(f)) => f@ == field,
        _ => false,
    }
}

/// Collects the fields of a `CreateResponse`; `model` and `input` are required.
#[derive(Clone, Debug)]
pub struct CreateResponseArgs {
    pub temperature: Option<JsonNumber>,
    pub top_p: Option<JsonNumber>,
    pub user: Option<String>,
    pub previous_response_id: Option<String>,
    pub model: Option<String>,
    pub reasoning: Option<Reasoning>,
    pub max_output_tokens: Option<u32>,
    pub instructions: Option<String>,
    pub text: Option<TextResponseFormat>,
    pub tools: Option<Vec<Tool>>,
    pub tool_choice: Option<ToolChoice>,
    pub truncation: Option<ResponseTruncation>,
    pub input: Option<Input>,
    pub stream: Option<bool>,
}

impl CreateResponseArgs {
    /// A builder with no field set.
    pub fn new() -> (r: Self)
        ensures
            r == (CreateResponseArgs {
                temperature: None,
                top_p: None,
                user: None,
                previous_response_id: None,
                model: None,
                reasoning: None,
                max_output_tokens: None,
                instructions: None,
                text: None,
                tools: None,
                tool_choice: None,
                truncation: None,
                input: None,
                stream: None,
            }),
    {
        CreateResponseArgs {
            temperature: None,
            top_p: None,
            user: None,
            previous_response_id: None,
            model: None,
            reasoning: None,
            max_output_tokens: None,
            instructions: None,
            text: None,
            tools: None,
            tool_choice: None,
            truncation: None,
            input: None,
            stream: None,
        }
    }

    /// Sets `temperature`.
    pub fn temperature(self, temperature: JsonNumber) -> (r: Self)
        ensures
            r == (CreateResponseArgs { temperature: Some(temperature), ..self }),
    {
        CreateResponseArgs { temperature: Some(temperature), ..self }
    }

    /// Sets `top_p`.
    pub fn top_p(self, top_p: JsonNumber) -> (r: Self)
        ensures
            r == (CreateResponseArgs { top_p: Some(top_p), ..self }),
    {
        CreateResponseArgs { top_p: Some(top_p), ..self }
    }

    /// Sets `user`.
    pub fn user(self, user: String) -> (r: Self)
        ensures
            r == (CreateResponseArgs { user: Some(user), ..self }),
    {
        CreateResponseArgs { user: Some(user), ..self }
    }

    /// Sets `previous_response_id`.
    pub fn previous_response_id(self, previous_response_id: String) -> (r: Self)
        ensures
            r == (CreateResponseArgs { previous_response_id: Some(previous_response_id), ..self }),
    {
        CreateResponseArgs { previous_response_id: Some(previous_response_id), ..self }
    }

    /// Sets `model`.
    pub fn model(self, model: String) -> (r: Self)
        ensures
            r == (CreateResponseArgs { model: Some(model), ..self }),
    {
        CreateResponseArgs { model: Some(model), ..self }
    }

    /// Sets `reasoning`.
    pub fn reasoning(self, reasoning: Reasoning) -> (r: Self)
        ensures
            r == (CreateResponseArgs { reasoning: Some(reasoning), ..self }),
    {
        CreateResponseArgs { reasoning: Some(reasoning), ..self }
    }

    /// Sets `max_output_tokens`.
    pub fn max_output_tokens(self, max_output_tokens: u32) -> (r: Self)
        ensures
            r == (CreateResponseArgs { max_output_tokens: Some(max_output_tokens), ..self }),
    {
        CreateResponseArgs { max_output_tokens: Some(max_output_tokens), ..self }
    }

    /// Sets `instructions`.
    pub fn instructions(self, instructions: String) -> (r: Self)
        ensures
            r == (CreateResponseArgs { instructions: Some(instructions), ..self }),
    {
        CreateResponseArgs { instructions: Some(instructions), ..self }
    }

    /// Sets `text`.
    pub fn text(self, text: TextResponseFormat) -> (r: Self)
        ensures
            r == (CreateResponseArgs { text: Some(text), ..self }),
    {
        CreateResponseArgs { text: Some(text), ..self }
    }

    /// Sets `tools`.
    pub fn tools(self, tools: Vec<Tool>) -> (r: Self)
        ensures
            r == (CreateResponseArgs { tools: Some(tools), ..self }),
    {
        CreateResponseArgs { tools: Some(tools), ..self }
    }

    /// Sets `tool_choice`.
    pub fn tool_choice(self, tool_choice: ToolChoice) -> (r: Self)
        ensures
            r == (CreateResponseArgs { tool_choice: Some(tool_choice), ..self }),
    {
        CreateResponseArgs { tool_choice: Some(tool_choice), ..self }
    }

    /// Sets `truncation`.
    pub fn truncation(self, truncation: ResponseTruncation) -> (r: Self)
        ensures
            r == (CreateResponseArgs { truncation: Some(truncation), ..self }),
    {
        CreateResponseArgs { truncation: Some(truncation), ..self }
    }

    /// Sets `input`.
    pub fn input(self, input: Input) -> (r: Self)
        ensures
            r == (CreateResponseArgs { input: Some(input), ..self }),
    {
        CreateResponseArgs { input: Some(input), ..self }
    }

    /// Sets `stream`.
    pub fn stream(self, stream: bool) -> (r: Self)
        ensures
            r == (CreateResponseArgs { stream: Some(stream), ..self }),
    {
        CreateResponseArgs { stream: Some(stream), ..self }
    }

    /// Builds the `CreateResponse`, filling in defaults; fails naming the first
    /// required field, in declaration order, that was never set.
    pub fn build(self) -> (r: Result<CreateResponse, OpenAIError>)
        ensures
            self.model is None ==> missing_field(r, "model"@),
            (self.model is Some && self.input is None) ==> missing_field(r, "input"@),
            self.model is Some && self.input is Some ==> r == Ok::<CreateResponse, OpenAIError>(
                CreateResponse {
                    temperature: self.temperature,
                    top_p: self.top_p,
                    user: self.user,
                    previous_response_id: self.previous_response_id,
                    model: self.model->Some_0,
                    reasoning: self.reasoning,
                    max_output_tokens: self.max_output_tokens,
                    instructions: self.instructions,
                    text: self.text,
                    tools: self.tools,
                    tool_choice: self.tool_choice,
                    truncation: self.truncation,
                    input: self.input->Some_0,
                    stream: self.stream,
                },
            ),
    {
        let temperature = self.temperature;
        let top_p = self.top_p;
        let user = self.user;
        let previous_response_id = self.previous_response_id;
        let model = match self.model {
            Some(v) => v,
            None => return Err(OpenAIError::MissingRequiredField("model".to_owned())),
        };
        let reasoning = self.reasoning;
        let max_output_tokens = self.max_output_tokens;
        let instructions = self.instructions;
        let text = self.text;
        let tools = self.tools;
        let tool_choice = self.tool_choice;
        let truncation = self.truncation;
        let input = match self.input {
            Some(v) => v,
            None => return Err(OpenAIError::MissingRequiredField("input".to_owned())),
        };
        let stream = self.stream;
        Ok(CreateResponse {
            temperature,
            top_p,
            user,
            previous_response_id,
            model,
            reasoning,
            max_output_tokens,
            instructions,
            text,
            tools,
            tool_choice,
            truncation,
            input,
            stream,
        })
    }
}

/// Collects the fields of a `FileSearchTool`; `vector_store_ids` is required.
#[derive(Clone, Debug)]
pub struct FileSearchToolArgs {
    pub vector_store_ids: Option<Vec<String>>,
    pub max_num_results: Option<u32>,
    pub filters: Option<JsonValue>,
    pub ranking_options: Option<RankingOptions>,
}

impl FileSearchToolArgs {
    /// A builder with no field set.
    pub fn new() -> (r: Self)
        ensures
            r == (FileSearchToolArgs {
                vector_store_ids: None,
                max_num_results: None,
                filters: None,
                ranking_options: None,
            }),
    {
        FileSearchToolArgs {
            vector_store_ids: None,
            max_num_results: None,
            filters: None,
            ranking_options: None,
        }
    }

    /// Sets `vector_store_ids`.
    pub fn vector_store_ids(self, vector_store_ids: Vec<String>) -> (r: Self)
        ensures
            r == (FileSearchToolArgs { vector_store_ids: Some(vector_store_ids), ..self }),
    {
        FileSearchToolArgs { vector_store_ids: Some(vector_store_ids), ..self }
    }

    /// Sets `max_num_results`.
    pub fn max_num_results(self, max_num_results: u32) -> (r: Self)
        ensures
            r == (FileSearchToolArgs { max_num_results: Some(max_num_results), ..self }),
    {
        FileSearchToolArgs { max_num_results: Some(max_num_results), ..self }
    }

    /// Sets `filters`.
    pub fn filters(self, filters: JsonValue) -> (r: Self)
        ensures
            r == (FileSearchToolArgs { filters: Some(filters), ..self }),
    {
        FileSearchToolArgs { filters: Some(filters), ..self }
    }

    /// Sets `ranking_options`.
    pub fn ranking_options(self, ranking_options: RankingOptions) -> (r: Self)
        ensures
            r == (FileSearchToolArgs { ranking_options: Some(ranking_options), ..self }),
    {
        FileSearchToolArgs { ranking_options: Some(ranking_options), ..self }
    }

    /// Builds the `FileSearchTool`, filling in defaults; fails naming the first
    /// required field, in declaration order, that was never set.
    pub fn build(self) -> (r: Result<FileSearchTool, OpenAIError>)
        ensures
            self.vector_store_ids is None ==> missing_field(r, "vector_store_ids"@),
            self.vector_store_ids is Some ==> r == Ok::<FileSearchTool, OpenAIError>(
                FileSearchTool {
                    vector_store_ids: self.vector_store_ids->Some_0,
                    max_num_results: self.max_num_results,
                    filters: self.filters,
                    ranking_options: self.ranking_options,
                },
            ),
    {
        let vector_store_ids = match self.vector_store_ids {
            Some(v) => v,
            None => return Err(OpenAIError::MissingRequiredField("vector_store_ids".to_owned())),
        };
        let max_num_results = self.max_num_results;
        let filters = self.filters;
        let ranking_options = self.ranking_options;
        Ok(FileSearchTool { vector_store_ids, max_num_results, filters, ranking_options })
    }
}

/// Collects the fields of a `ComputerTool`; all of them are required.
#[derive(Clone, Debug)]
pub struct ComputerToolArgs {
    pub display_width: Option<u32>,
    pub display_height: Option<u32>,
    pub environment: Option<Environment>,
}

impl ComputerToolArgs {
    /// A builder with no field set.
    pub fn new() -> (r: Self)
        ensures
            r == (ComputerToolArgs {
                display_width: None,
                display_height: None,
                environment: None,
            }),
    {
        ComputerToolArgs {
            display_width: None,
            display_height: None,
            environment: None,
        }
    }

    /// Sets `display_width`.
    pub fn display_width(self, display_width: u32) -> (r: Self)
        ensures
            r == (ComputerToolArgs { display_width: Some(display_width), ..self }),
    {
        ComputerToolArgs { display_width: Some(display_width), ..self }
    }

    /// Sets `display_height`.
    pub fn display_height(self, display_height: u32) -> (r: Self)
        ensures
            r == (ComputerToolArgs { display_height: Some(display_height), ..self }),
    {
        ComputerToolArgs { display_height: Some(display_height), ..self }
    }

    /// Sets `environment`.
    pub fn environment(self, environment: Environment) -> (r: Self)
        ensures
            r == (ComputerToolArgs { environment: Some(environment), ..self }),
    {
        ComputerToolArgs { environment: Some(environment), ..self }
    }

    /// Builds the `ComputerTool`, filling in defaults; fails naming the first
    /// required field, in declaration order, that was never set.
    pub fn build(self) -> (r: Result<ComputerTool, OpenAIError>)
        ensures
            self.display_width is None ==> missing_field(r, "display_width"@),
            (self.display_width is Some
                && self.display_height is None) ==> missing_field(r, "display_height"@),
            (self.display_width is Some
                && self.display_height is Some
                && self.environment is None) ==> missing_field(r, "environment"@),
            (self.display_width is Some
                && self.display_height is Some
                && self.environment is Some) ==> r == Ok::<ComputerTool, OpenAIError>(
                ComputerTool {
                    display_width: self.display_width->Some_0,
                    display_height: self.display_height->Some_0,
                    environment: self.environment->Some_0,
                },
            ),
    {
        let display_width = match self.display_width {
            Some(v) => v,
            None => return Err(OpenAIError::MissingRequiredField("display_width".to_owned())),
        };
        let display_height = match self.display_height {
            Some(v) => v,
            None => return Err(OpenAIError::MissingRequiredField("display_height".to_owned())),
        };
        let environment = match self.environment {
            Some(v) => v,
            None => return Err(OpenAIError::MissingRequiredField("environment".to_owned())),
        };
        Ok(ComputerTool { display_width, display_height, environment })
    }
}

/// Collects the fields of a `WebSearchTool`.
#[derive(Clone, Debug)]
pub struct WebSearchToolArgs {
    pub user_location: Option<WebSearchToolUserLocation>,
}

impl WebSearchToolArgs {
    /// A builder with no field set.
    pub fn new() -> (r: Self)
        ensures
            r == (WebSearchToolArgs { user_location: None }),
    {
        WebSearchToolArgs { user_location: None }
    }

    /// Sets `user_location`.
    pub fn user_location(self, user_location: WebSearchToolUserLocation) -> (r: Self)
        ensures
            r == (WebSearchToolArgs { user_location: Some(user_location), ..self }),
    {
        WebSearchToolArgs { user_location: Some(user_location), ..self }
    }

    /// Builds the `WebSearchTool`, filling in defaults; fails naming the first
    /// required field, in declaration order, that was never set.
    pub fn build(self) -> (r: Result<WebSearchTool, OpenAIError>)
        ensures
            r == Ok::<WebSearchTool, OpenAIError>(
                WebSearchTool {
                    user_location: self.user_location,
                },
            ),
    {
        let user_location = self.user_location;
        Ok(WebSearchTool { user_location })
    }
}

/// Collects the fields of a `WebSearchToolUserLocation`; `kind` defaults to
/// `approximate`.
#[derive(Clone, Debug)]
pub struct WebSearchToolUserLocationArgs {
    pub kind: Option<LocationType>,
    pub country: Option<String>,
    pub region: Option<String>,
    pub city: Option<String>,
    pub timezone: Option<String>,
}

impl WebSearchToolUserLocationArgs {
    /// A builder with no field set.
    pub fn new() -> (r: Self)
        ensures
            r == (WebSearchToolUserLocationArgs {
                kind: None,
                country: None,
                region: None,
                city: None,
                timezone: None,
            }),
    {
        WebSearchToolUserLocationArgs {
            kind: None,
            country: None,
            region: None,
            city: None,
            timezone: None,
        }
    }

    /// Sets `kind`.
    pub fn kind(self, kind: LocationType) -> (r: Self)
        ensures
            r == (WebSearchToolUserLocationArgs { kind: Some(kind), ..self }),
    {
        WebSearchToolUserLocationArgs { kind: Some(kind), ..self }
    }

    /// Sets `country`.
    pub fn country(self, country: String) -> (r: Self)
        ensures
            r == (WebSearchToolUserLocationArgs { country: Some(country), ..self }),
    {
        WebSearchToolUserLocationArgs { country: Some(country), ..self }
    }

    /// Sets `region`.
    pub fn region(self, region: String) -> (r: Self)
        ensures
            r == (WebSearchToolUserLocationArgs { region: Some(region), ..self }),
    {
        WebSearchToolUserLocationArgs { region: Some(region), ..self }
    }

    /// Sets `city`.
    pub fn city(self, city: String) -> (r: Self)
        ensures
            r == (WebSearchToolUserLocationArgs { city: Some(city), ..self }),
    {
        WebSearchToolUserLocationArgs { city: Some(city), ..self }
    }

    /// Sets `timezone`.
    pub fn timezone(self, timezone: String) -> (r: Self)
        ensures
            r == (WebSearchToolUserLocationArgs { timezone: Some(timezone), ..self }),
    {
        WebSearchToolUserLocationArgs { timezone: Some(timezone), ..self }
    }

    /// Builds the `WebSearchToolUserLocation`, filling in defaults; fails naming the first
    /// required field, in declaration order, that was never set.
    pub fn build(self) -> (r: Result<WebSearchToolUserLocation, OpenAIError>)
        ensures
            r == Ok::<WebSearchToolUserLocation, OpenAIError>(
                WebSearchToolUserLocation {
                    kind: if self.kind is Some {
                        self.kind->Some_0
                    } else {
                        LocationType::Approximate
                    },
                    country: self.country,
                    region: self.region,
                    city: self.city,
                    timezone: self.timezone,
                },
            ),
    {
        let kind = match self.kind {
            Some(v) => v,
            None => LocationType::Approximate,
        };
        let country = self.country;
        let region = self.region;
        let city = self.city;
        let timezone = self.timezone;
        Ok(WebSearchToolUserLocation { kind, country, region, city, timezone })
    }
}

/// Collects the fields of a `ToolChoiceFunction`; `name` is required and `kind`
/// defaults to `function`.
#[derive(Clone, Debug)]
pub struct ToolChoiceFunctionArgs {
    pub kind: Option<FunctionToolType>,
    pub name: Option<String>,
}

impl ToolChoiceFunctionArgs {
    /// A builder with no field set.
    pub fn new() -> (r: Self)
        ensures
            r == (ToolChoiceFunctionArgs { kind: None, name: None }),
    {
        ToolChoiceFunctionArgs { kind: None, name: None }
    }

    /// Sets `kind`.
    pub fn kind(self, kind: FunctionToolType) -> (r: Self)
        ensures
            r == (ToolChoiceFunctionArgs { kind: Some(kind), ..self }),
    {
        ToolChoiceFunctionArgs { kind: Some(kind), ..self }
    }

    /// Sets `name`.
    pub fn name(self, name: String) -> (r: Self)
        ensures
            r == (ToolChoiceFunctionArgs { name: Some(name), ..self }),
    {
        ToolChoiceFunctionArgs { name: Some(name), ..self }
    }

    /// Builds the `ToolChoiceFunction`, filling in defaults; fails naming the first
    /// required field, in declaration order, that was never set.
    pub fn build(self) -> (r: Result<ToolChoiceFunction, OpenAIError>)
        ensures
            self.name is None ==> missing_field(r, "name"@),
            self.name is Some ==> r == Ok::<ToolChoiceFunction, OpenAIError>(
                ToolChoiceFunction {
                    kind: if self.kind is Some {
                        self.kind->Some_0
                    } else {
                        FunctionToolType::Function
                    },
                    name: self.name->Some_0,
                },
            ),
    {
        let kind = match self.kind {
            Some(v) => v,
            None => FunctionToolType::Function,
        };
        let name = match self.name {
            Some(v) => v,
            None => return Err(OpenAIError::MissingRequiredField("name".to_owned())),
        };
        Ok(ToolChoiceFunction { kind, name })
    }
}

/// Collects the fields of an `EasyInputMessage`; `role` and `content` are
/// required and `kind` defaults to `message`.
#[derive(Clone, Debug)]
pub struct EasyInputMessageArgs {
    pub kind: Option<MessageType>,
    pub role: Option<EasyInputMessageRole>,
    pub content: Option<InputMessageContent>,
}

impl EasyInputMessageArgs {
    /// A builder with no field set.
    pub fn new() -> (r: Self)
        ensures
            r == (EasyInputMessageArgs { kind: None, role: None, content: None }),
    {
        EasyInputMessageArgs { kind: None, role: None, content: None }
    }

    /// Sets `kind`.
    pub fn kind(self, kind: MessageType) -> (r: Self)
        ensures
            r == (EasyInputMessageArgs { kind: Some(kind), ..self }),
    {
        EasyInputMessageArgs { kind: Some(kind), ..self }
    }

    /// Sets `role`.
    pub fn role(self, role: EasyInputMessageRole) -> (r: Self)
        ensures
            r == (EasyInputMessageArgs { role: Some(role), ..self }),
    {
        EasyInputMessageArgs { role: Some(role), ..self }
    }

    /// Sets `content`.
    pub fn content(self, content: InputMessageContent) -> (r: Self)
        ensures
            r == (EasyInputMessageArgs { content: Some(content), ..self }),
    {
        EasyInputMessageArgs { content: Some(content), ..self }
    }

    /// Builds the `EasyInputMessage`, filling in defaults; fails naming the first
    /// required field, in declaration order, that was never set.
    pub fn build(self) -> (r: Result<EasyInputMessage, OpenAIError>)
        ensures
            self.role is None ==> missing_field(r, "role"@),
            (self.role is Some
                && self.content is None) ==> missing_field(r, "content"@),
            self.role is Some && self.content is Some ==> r == Ok::<EasyInputMessage, OpenAIError>(
                EasyInputMessage {
                    kind: if self.kind is Some {
                        self.kind->Some_0
                    } else {
                        MessageType::Message
                    },
                    role: self.role->Some_0,
                    content: self.content->Some_0,
                },
            ),
    {
        let kind = match self.kind {
            Some(v) => v,
            None => MessageType::Message,
        };
        let role = match self.role {
            Some(v) => v,
            None => return Err(OpenAIError::MissingRequiredField("role".to_owned())),
        };
        let content = match self.content {
            Some(v) => v,
            None => return Err(OpenAIError::MissingRequiredField("content".to_owned())),
        };
        Ok(EasyInputMessage { kind, role, content })
    }
}

/// Collects the fields of an `InputMessage`; all of them are required.
#[derive(Clone, Debug)]
pub struct InputMessageArgs {
    pub role: Option<InputMessageRole>,
    pub status: Option<MessageStatus>,
    pub content: Option<Vec<InputContent>>,
}

impl InputMessageArgs {
    /// A builder with no field set.
    pub fn new() -> (r: Self)
        ensures
            r == (InputMessageArgs { role: None, status: None, content: None }),
    {
        InputMessageArgs { role: None, status: None, content: None }
    }

    /// Sets `role`.
    pub fn role(self, role: InputMessageRole) -> (r: Self)
        ensures
            r == (InputMessageArgs { role: Some(role), ..self }),
    {
        InputMessageArgs { role: Some(role), ..self }
    }

    /// Sets `status`.
    pub fn status(self, status: MessageStatus) -> (r: Self)
        ensures
            r == (InputMessageArgs { status: Some(status), ..self }),
    {
        InputMessageArgs { status: Some(status), ..self }
    }

    /// Sets `content`.
    pub fn content(self, content: Vec<InputContent>) -> (r: Self)
        ensures
            r == (InputMessageArgs { content: Some(content), ..self }),
    {
        InputMessageArgs { content: Some(content), ..self }
    }

    /// Builds the `InputMessage`, filling in defaults; fails naming the first
    /// required field, in declaration order, that was never set.
    pub fn build(self) -> (r: Result<InputMessage, OpenAIError>)
        ensures
            self.role is None ==> missing_field(r, "role"@),
            (self.role is Some && self.status is None) ==> missing_field(r, "status"@),
            (self.role is Some
                && self.status is Some
                && self.content is None) ==> missing_field(r, "content"@),
            (self.role is Some
                && self.status is Some
                && self.content is Some) ==> r == Ok::<InputMessage, OpenAIError>(
                InputMessage {
                    role: self.role->Some_0,
                    status: self.status->Some_0,
                    content: self.content->Some_0,
                },
            ),
    {
        let role = match self.role {
            Some(v) => v,
            None => return Err(OpenAIError::MissingRequiredField("role".to_owned())),
        };
        let status = match self.status {
            Some(v) => v,
            None => return Err(OpenAIError::MissingRequiredField("status".to_owned())),
        };
        let content = match self.content {
            Some(v) => v,
            None => return Err(OpenAIError::MissingRequiredField("content".to_owned())),
        };
        Ok(InputMessage { role, status, content })
    }
}

/// Collects the fields of an `OutputMessage`; `id` and `content` are required,
/// `kind` defaults to `message` and `role` to `assistant`.
#[derive(Clone, Debug)]
pub struct OutputMessageArgs {
    pub id: Option<String>,
    pub kind: Option<MessageType>,
    pub role: Option<OutputMessageRole>,
    pub content: Option<Vec<InputContent>>,
}

impl OutputMessageArgs {
    /// A builder with no field set.
    pub fn new() -> (r: Self)
        ensures
            r == (OutputMessageArgs { id: None, kind: None, role: None, content: None }),
    {
        OutputMessageArgs { id: None, kind: None, role: None, content: None }
    }

    /// Sets `id`.
    pub fn id(self, id: String) -> (r: Self)
        ensures
            r == (OutputMessageArgs { id: Some(id), ..self }),
    {
        OutputMessageArgs { id: Some(id), ..self }
    }

    /// Sets `kind`.
    pub fn kind(self, kind: MessageType) -> (r: Self)
        ensures
            r == (OutputMessageArgs { kind: Some(kind), ..self }),
    {
        OutputMessageArgs { kind: Some(kind), ..self }
    }

    /// Sets `role`.
    pub fn role(self, role: OutputMessageRole) -> (r: Self)
        ensures
            r == (OutputMessageArgs { role: Some(role), ..self }),
    {
        OutputMessageArgs { role: Some(role), ..self }
    }

    /// Sets `content`.
    pub fn content(self, content: Vec<InputContent>) -> (r: Self)
        ensures
            r == (OutputMessageArgs { content: Some(content), ..self }),
    {
        OutputMessageArgs { content: Some(content), ..self }
    }

    /// Builds the `OutputMessage`, filling in defaults; fails naming the first
    /// required field, in declaration order, that was never set.
    pub fn build(self) -> (r: Result<OutputMessage, OpenAIError>)
        ensures
            self.id is None ==> missing_field(r, "id"@),
            (self.id is Some && self.content is None) ==> missing_field(r, "content"@),
            self.id is Some && self.content is Some ==> r == Ok::<OutputMessage, OpenAIError>(
                OutputMessage {
                    id: self.id->Some_0,
                    kind: if self.kind is Some {
                        self.kind->Some_0
                    } else {
                        MessageType::Message
                    },
                    role: if self.role is Some {
                        self.role->Some_0
                    } else {
                        OutputMessageRole::Assistant
                    },
                    content: self.content->Some_0,
                },
            ),
    {
        let id = match self.id {
            Some(v) => v,
            None => return Err(OpenAIError::MissingRequiredField("id".to_owned())),
        };
        let kind = match self.kind {
            Some(v) => v,
            None => MessageType::Message,
        };
        let role = match self.role {
            Some(v) => v,
            None => OutputMessageRole::Assistant,
        };
        let content = match self.content {
            Some(v) => v,
            None => return Err(OpenAIError::MissingRequiredField("content".to_owned())),
        };
        Ok(OutputMessage { id, kind, role, content })
    }
}
} // verus!
