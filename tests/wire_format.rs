use openai_responses::builders::{
    ComputerToolArgs, CreateResponseArgs, EasyInputMessageArgs, FileSearchToolArgs,
    InputMessageArgs, OutputMessageArgs, ToolChoiceFunctionArgs, WebSearchToolArgs,
    WebSearchToolUserLocationArgs,
};
use openai_responses::error::OpenAIError;
use openai_responses::input::{
    EasyInputMessage, EasyInputMessageRole, ImageDetail, Input, InputContent, InputFile,
    InputImage, InputItem, InputMessageContent, InputMessageRole, InputText, Item, ItemReference,
    ItemReferenceType, MessageStatus, MessageType,
};
use openai_responses::json::{JsonNumber, JsonValue};
use openai_responses::request::{
    CreateResponse, GenerateSummary, Reasoning, ReasoningEffort, ResponseFormat,
    ResponseFormatJsonSchema, ResponseTruncation, TextResponseFormat,
};
use openai_responses::response::{OutputMessage, OutputMessageRole, Response};
use openai_responses::tool::{
    Environment, FunctionObject, LocationType, Ranker, RankingOptions, Tool, ToolChoice,
    ToolChoiceOptions, ToolChoiceTypes, WebSearchToolUserLocation,
};
use openai_responses::wire::Wire;

fn s(text: &str) -> JsonValue {
    JsonValue::Str(text.to_string())
}

fn obj(members: Vec<(&str, JsonValue)>) -> JsonValue {
    JsonValue::Object(members.into_iter().map(|(k, v)| (k.to_string(), v)).collect())
}

fn num(n: u64) -> JsonValue {
    JsonValue::Number(JsonNumber { negative: false, value: n, scale: 0 })
}

fn keys(j: &JsonValue) -> Vec<String> {
    match j {
        JsonValue::Object(members) => members.iter().map(|(k, _)| k.clone()).collect(),
        _ => panic!("not an object"),
    }
}

fn lookup<'a>(j: &'a JsonValue, key: &str) -> Option<&'a JsonValue> {
    match j {
        JsonValue::Object(members) => members.iter().rev().find(|(k, _)| k == key).map(|(_, v)| v),
        _ => None,
    }
}

fn full_request() -> CreateResponse {
    let location = WebSearchToolUserLocationArgs::new()
        .country("US".to_string())
        .city("San Francisco".to_string())
        .build()
        .unwrap();
    let tools = vec![
        Tool::FileSearch(
            FileSearchToolArgs::new()
                .vector_store_ids(vec!["vs_1".to_string(), "vs_2".to_string()])
                .max_num_results(5)
                .ranking_options(RankingOptions {
                    ranker: Some(Ranker::Auto),
                    score_threshold: Some(JsonNumber { negative: false, value: 5, scale: 1 }),
                })
                .build()
                .unwrap(),
        ),
        Tool::Function(FunctionObject {
            name: "get_weather".to_string(),
            description: Some("Weather by city".to_string()),
            parameters: Some(obj(vec![("type", s("object"))])),
            strict: Some(true),
        }),
        Tool::ComputerUsePreview(
            ComputerToolArgs::new()
                .display_width(1024)
                .display_height(768)
                .environment(Environment::Browser)
                .build()
                .unwrap(),
        ),
        Tool::WebSearchPreview(WebSearchToolArgs::new().user_location(location).build().unwrap()),
        Tool::WebSearchPreview2025_03_11(WebSearchToolArgs::new().build().unwrap()),
    ];
    let message = EasyInputMessageArgs::new()
        .role(EasyInputMessageRole::Developer)
        .content(InputMessageContent::Array(vec![
            InputContent::InputText(InputText { text: "look".to_string() }),
            InputContent::InputImage(InputImage {
                image_url: Some("https://example.com/a.png".to_string()),
                file_id: None,
                detail: ImageDetail::High,
            }),
            InputContent::InputFile(InputFile {
                file_id: None,
                filename: Some("a.txt".to_string()),
                file_data: Some("abc".to_string()),
            }),
        ]))
        .build()
        .unwrap();
    let item = InputMessageArgs::new()
        .role(InputMessageRole::System)
        .status(MessageStatus::Completed)
        .content(vec![InputContent::InputText(InputText { text: "be brief".to_string() })])
        .build()
        .unwrap();
    let input = Input::Array(vec![
        InputItem::Message(message),
        InputItem::Item(Item::Message(item)),
        InputItem::ItemReference(ItemReference {
            kind: ItemReferenceType::ItemReference,
            id: "msg_1".to_string(),
        }),
    ]);
    CreateResponseArgs::new()
        .model("gpt-4o".to_string())
        .input(input)
        .temperature(JsonNumber { negative: false, value: 7, scale: 1 })
        .user("user-1".to_string())
        .previous_response_id("resp_0".to_string())
        .reasoning(Reasoning {
            effort: Some(ReasoningEffort::Medium),
            generate_summary: Some(GenerateSummary::Concise),
        })
        .max_output_tokens(256)
        .instructions("answer".to_string())
        .text(TextResponseFormat {
            format: ResponseFormat::JsonSchema(ResponseFormatJsonSchema {
                name: "answer".to_string(),
                description: None,
                schema: Some(obj(vec![("type", s("object"))])),
                strict: Some(false),
            }),
        })
        .tools(tools)
        .tool_choice(ToolChoice::Types(ToolChoiceTypes::WebSearchPreview))
        .truncation(ResponseTruncation::Auto)
        .stream(false)
        .build()
        .unwrap()
}

#[test]
fn request_round_trip() {
    let request = full_request();
    let decoded = CreateResponse::from_json(&request.to_json()).unwrap();
    assert_eq!(decoded, request);
}

#[test]
fn minimal_request_round_trip() {
    let request = CreateResponseArgs::new()
        .model("gpt-4o".to_string())
        .input(Input::String("hi".to_string()))
        .build()
        .unwrap();
    assert_eq!(CreateResponse::from_json(&request.to_json()).unwrap(), request);
}

#[test]
fn response_round_trip() {
    let response = Response {
        id: "resp_9".to_string(),
        model: Some("gpt-4o".to_string()),
        output: vec![OutputMessageArgs::new()
            .id("msg_9".to_string())
            .content(vec![InputContent::InputText(InputText { text: "hello".to_string() })])
            .build()
            .unwrap()],
    };
    assert_eq!(Response::from_json(&response.to_json()).unwrap(), response);
}

#[test]
fn required_only_request_has_two_members() {
    let request = CreateResponseArgs::new()
        .model("gpt-4o".to_string())
        .input(Input::String("hi".to_string()))
        .build()
        .unwrap();
    let j = request.to_json();
    let mut k = keys(&j);
    k.sort();
    assert_eq!(k, vec!["input".to_string(), "model".to_string()]);
    assert_eq!(lookup(&j, "model"), Some(&s("gpt-4o")));
    assert_eq!(lookup(&j, "input"), Some(&s("hi")));
}

#[test]
fn location_type_defaults_to_approximate() {
    let location = WebSearchToolUserLocationArgs::new().country("US".to_string()).build().unwrap();
    assert_eq!(location.kind, LocationType::Approximate);
    let j = location.to_json();
    assert_eq!(lookup(&j, "type"), Some(&s("approximate")));
    let read = WebSearchToolUserLocation::from_json(&obj(vec![("country", s("US"))])).unwrap();
    assert_eq!(read.kind, LocationType::Approximate);
    assert_eq!(read.country, Some("US".to_string()));
}

#[test]
fn role_and_content_is_a_message() {
    let j = obj(vec![("role", s("user")), ("content", s("hi"))]);
    let expected = InputItem::Message(EasyInputMessage {
        kind: MessageType::Message,
        role: EasyInputMessageRole::User,
        content: InputMessageContent::Text("hi".to_string()),
    });
    assert_eq!(InputItem::from_json(&j).unwrap(), expected);
    let reordered = obj(vec![("extra", num(1)), ("content", s("hi")), ("role", s("user"))]);
    assert_eq!(InputItem::from_json(&reordered).unwrap(), expected);
}

#[test]
fn item_with_status_is_not_a_message() {
    let j = obj(vec![
        ("type", s("message")),
        ("role", s("user")),
        ("status", s("in_progress")),
        ("content", JsonValue::Array(vec![obj(vec![("type", s("input_text")), ("text", s("x"))])])),
    ]);
    match InputItem::from_json(&j).unwrap() {
        InputItem::Item(Item::Message(m)) => {
            assert_eq!(m.role, InputMessageRole::User);
            assert_eq!(m.status, MessageStatus::InProgress);
        },
        other => panic!("read as {:?}", other),
    }
    let reference = obj(vec![("id", s("msg_7"))]);
    assert_eq!(
        InputItem::from_json(&reference).unwrap(),
        InputItem::ItemReference(ItemReference {
            kind: ItemReferenceType::ItemReference,
            id: "msg_7".to_string()
        })
    );
}

#[test]
fn tool_type_selects_variant() {
    let cases = vec![
        (obj(vec![("type", s("file_search")), ("vector_store_ids", JsonValue::Array(vec![s("vs")]))]), "file_search"),
        (obj(vec![("type", s("function")), ("name", s("f"))]), "function"),
        (
            obj(vec![
                ("type", s("computer_use_preview")),
                ("display_width", num(800)),
                ("display_height", num(600)),
                ("environment", s("mac")),
            ]),
            "computer_use_preview",
        ),
        (obj(vec![("type", s("web_search_preview"))]), "web_search_preview"),
        (obj(vec![("type", s("web_search_preview_2025_03_11"))]), "web_search_preview_2025_03_11"),
    ];
    for (j, token) in cases {
        let tool = Tool::from_json(&j).unwrap();
        let name = match &tool {
            Tool::FileSearch(_) => "file_search",
            Tool::Function(_) => "function",
            Tool::ComputerUsePreview(_) => "computer_use_preview",
            Tool::WebSearchPreview(_) => "web_search_preview",
            Tool::WebSearchPreview2025_03_11(_) => "web_search_preview_2025_03_11",
        };
        assert_eq!(name, token);
        assert_eq!(lookup(&tool.to_json(), "type"), Some(&s(token)));
    }
}

#[test]
fn unknown_tool_type_is_a_schema_mismatch() {
    let j = obj(vec![("type", s("code_interpreter"))]);
    assert!(matches!(Tool::from_json(&j), Err(OpenAIError::SchemaMismatch(_))));
    let untyped = obj(vec![("name", s("f"))]);
    assert!(matches!(Tool::from_json(&untyped), Err(OpenAIError::SchemaMismatch(_))));
}

#[test]
fn missing_required_tool_field_is_a_schema_mismatch() {
    let j = obj(vec![("type", s("computer_use_preview")), ("display_width", num(800))]);
    assert!(matches!(Tool::from_json(&j), Err(OpenAIError::SchemaMismatch(_))));
}

#[test]
fn build_without_model_fails() {
    let r = CreateResponseArgs::new().input(Input::String("hi".to_string())).build();
    assert_eq!(r, Err(OpenAIError::MissingRequiredField("model".to_string())));
}

#[test]
fn build_without_input_fails() {
    let r = CreateResponseArgs::new().model("gpt-4o".to_string()).build();
    assert_eq!(r, Err(OpenAIError::MissingRequiredField("input".to_string())));
}

#[test]
fn computer_tool_builder_names_first_missing_field() {
    let r = ComputerToolArgs::new().display_width(10).environment(Environment::Ubuntu).build();
    assert_eq!(r, Err(OpenAIError::MissingRequiredField("display_height".to_string())));
    let r = FileSearchToolArgs::new().max_num_results(3).build();
    assert_eq!(r, Err(OpenAIError::MissingRequiredField("vector_store_ids".to_string())));
    let r = ToolChoiceFunctionArgs::new().build();
    assert_eq!(r, Err(OpenAIError::MissingRequiredField("name".to_string())));
}

#[test]
fn tool_choice_shapes() {
    assert_eq!(ToolChoice::from_json(&s("required")).unwrap(), ToolChoice::Options(ToolChoiceOptions::Required));
    assert_eq!(ToolChoice::from_json(&s("none")).unwrap(), ToolChoice::Options(ToolChoiceOptions::NoTools));
    assert_eq!(
        ToolChoice::from_json(&obj(vec![("type", s("file_search"))])).unwrap(),
        ToolChoice::Types(ToolChoiceTypes::FileSearch)
    );
    let f = ToolChoiceFunctionArgs::new().name("lookup".to_string()).build().unwrap();
    assert_eq!(
        ToolChoice::from_json(&obj(vec![("type", s("function")), ("name", s("lookup"))])).unwrap(),
        ToolChoice::Function(f.clone())
    );
    assert_eq!(lookup(&f.to_json(), "type"), Some(&s("function")));
    assert!(matches!(ToolChoice::from_json(&s("sometimes")), Err(OpenAIError::SchemaMismatch(_))));
}

#[test]
fn enum_tokens_are_exact() {
    assert_eq!(ToolChoiceTypes::WebSearchPreview2025_03_11.to_json(), obj(vec![("type", s("web_search_preview_2025_03_11"))]));
    assert_eq!(MessageStatus::InProgress.to_json(), s("in_progress"));
    assert_eq!(ResponseTruncation::Disabled.to_json(), s("disabled"));
    assert_eq!(ImageDetail::Low.to_json(), s("low"));
    assert_eq!(Environment::Windows.to_json(), s("windows"));
    assert_eq!(Ranker::Default20241115.to_json(), s("default_2024_11_15"));
    assert_eq!(OutputMessageRole::Assistant.to_json(), s("assistant"));
    assert_eq!(EasyInputMessageRole::Assistant.to_json(), s("assistant"));
    assert!(MessageStatus::from_json(&s("Completed")).is_err());
}

#[test]
fn defaults_of_enums() {
    assert_eq!(ImageDetail::default(), ImageDetail::Auto);
    assert_eq!(ResponseTruncation::default(), ResponseTruncation::Disabled);
    assert_eq!(LocationType::default(), LocationType::Approximate);
}

#[test]
fn image_detail_defaults_to_auto_when_read() {
    let j = obj(vec![("type", s("input_image")), ("file_id", s("file_1"))]);
    match InputContent::from_json(&j).unwrap() {
        InputContent::InputImage(img) => {
            assert_eq!(img.detail, ImageDetail::Auto);
            assert_eq!(img.file_id, Some("file_1".to_string()));
            assert_eq!(img.image_url, None);
        },
        other => panic!("read as {:?}", other),
    }
}

#[test]
fn integers_and_decimals() {
    let request = CreateResponseArgs::new()
        .model("m".to_string())
        .input(Input::String("x".to_string()))
        .max_output_tokens(4096)
        .top_p(JsonNumber { negative: false, value: 95, scale: 2 })
        .build()
        .unwrap();
    let j = request.to_json();
    assert_eq!(lookup(&j, "max_output_tokens"), Some(&num(4096)));
    assert_eq!(lookup(&j, "top_p"), Some(&JsonValue::Number(JsonNumber { negative: false, value: 95, scale: 2 })));
    let fractional = JsonValue::Number(JsonNumber { negative: false, value: 15, scale: 1 });
    assert!(u32::from_json(&fractional).is_err());
    assert!(u32::from_json(&num(1u64 << 32)).is_err());
    assert_eq!(u32::from_json(&num(u32::MAX as u64)).unwrap(), u32::MAX);
}

#[test]
fn later_duplicate_member_wins() {
    let j = obj(vec![("id", s("first")), ("output", JsonValue::Array(vec![])), ("id", s("second"))]);
    assert_eq!(Response::from_json(&j).unwrap().id, "second".to_string());
}

#[test]
fn text_formats() {
    let text = ResponseFormat::Text.to_json();
    assert_eq!(text, obj(vec![("type", s("text"))]));
    assert_eq!(ResponseFormat::from_json(&obj(vec![("type", s("json_object"))])).unwrap(), ResponseFormat::JsonObject);
    let schema = obj(vec![("type", s("json_schema")), ("name", s("answer"))]);
    match ResponseFormat::from_json(&schema).unwrap() {
        ResponseFormat::JsonSchema(f) => assert_eq!(f.name, "answer".to_string()),
        other => panic!("read as {:?}", other),
    }
}

#[test]
fn input_text_or_list() {
    assert_eq!(Input::from_json(&s("hello")).unwrap(), Input::String("hello".to_string()));
    assert_eq!(Input::from_json(&JsonValue::Array(vec![])).unwrap(), Input::Array(vec![]));
    assert!(matches!(Input::from_json(&num(3)), Err(OpenAIError::SchemaMismatch(_))));
}

#[test]
fn output_message_defaults() {
    let m = OutputMessageArgs::new().id("msg".to_string()).content(vec![]).build().unwrap();
    assert_eq!(m.kind, MessageType::Message);
    assert_eq!(m.role, OutputMessageRole::Assistant);
    let j = obj(vec![("id", s("msg")), ("content", JsonValue::Array(vec![]))]);
    assert_eq!(OutputMessage::from_json(&j).unwrap(), m);
}

#[test]
fn raw_values_copy_deeply() {
    let j = obj(vec![("a", JsonValue::Array(vec![JsonValue::Null, JsonValue::Bool(true), num(2)]))]);
    assert_eq!(j.duplicate(), j);
    assert_eq!(JsonValue::from_json(&j).unwrap(), j);
}

fn signed(negative: bool, value: u64, scale: i32) -> JsonValue {
    JsonValue::Number(JsonNumber { negative, value, scale })
}

#[test]
fn negative_numbers_in_raw_members() {
    let params = obj(vec![
        ("type", s("object")),
        (
            "properties",
            obj(vec![(
                "latitude",
                obj(vec![
                    ("type", s("number")),
                    ("minimum", signed(true, 90, 0)),
                    ("maximum", num(90)),
                    ("step", signed(false, 5, 1)),
                    ("tiny", signed(true, 25, 40)),
                    ("huge", signed(false, 2, -30)),
                ]),
            )]),
        ),
    ]);
    let tool = Tool::Function(FunctionObject {
        name: "locate".to_string(),
        description: None,
        parameters: Some(params.clone()),
        strict: None,
    });
    let request = CreateResponseArgs::new()
        .model("gpt-4o".to_string())
        .input(Input::String("where".to_string()))
        .tools(vec![tool])
        .build()
        .unwrap();
    let decoded = CreateResponse::from_json(&request.to_json()).unwrap();
    assert_eq!(decoded, request);
    match &decoded.tools.as_ref().unwrap()[0] {
        Tool::Function(f) => assert_eq!(f.parameters, Some(params)),
        other => panic!("read as {:?}", other),
    }
}

#[test]
fn negative_integer_is_not_a_u32() {
    assert!(u32::from_json(&signed(true, 1, 0)).is_err());
    assert!(u32::from_json(&signed(false, 1, -1)).is_err());
    assert_eq!(u32::from_json(&signed(false, 7, 0)).unwrap(), 7);
}

#[test]
fn reply_with_negative_numbers_in_unmodelled_members() {
    let j = obj(vec![
        ("id", s("resp_1")),
        ("output", JsonValue::Array(vec![])),
        ("created_at", signed(true, 12, 0)),
        ("usage", obj(vec![("delta", signed(true, 15, 1))])),
    ]);
    let r = Response::from_json(&j).unwrap();
    assert_eq!(r.id, "resp_1".to_string());
    assert_eq!(r.model, None);
}

#[test]
fn member_order_is_kept() {
    let schema = obj(vec![
        ("type", s("object")),
        ("required", JsonValue::Array(vec![s("b"), s("a")])),
        ("additionalProperties", JsonValue::Bool(false)),
    ]);
    assert_eq!(schema.duplicate(), schema);
    assert_eq!(keys(&schema.duplicate()), keys(&schema));
    let format = ResponseFormat::JsonSchema(ResponseFormatJsonSchema {
        name: "answer".to_string(),
        description: Some("shape".to_string()),
        schema: Some(schema.clone()),
        strict: Some(true),
    });
    let read = ResponseFormat::from_json(&format.to_json()).unwrap();
    assert_eq!(read, format);
}

#[test]
fn requests_clone() {
    let request = full_request();
    assert_eq!(request.clone(), request);
    let value = obj(vec![("a", num(1)), ("b", signed(true, 2, 0))]);
    assert_eq!(value.clone(), value);
}
