//! Tools the model may call, and how it chooses among them.
use vstd::prelude::*;

use crate::error::{mismatch, OpenAIError};
use crate::json::{
    get_member, is_object, member, new_members, object, push_member, put_opt, tag_object,
    tagged, text_is, Json, JsonNumber, JsonValue,
};
use crate::wire::{
    def_member, lemma_parse_def, lemma_parse_opt, lemma_parse_req, opt_json, opt_member,
    parse_def, parse_opt, parse_req, push_opt, req_member, Wire,
};

verus! {

/// A tool the model may call, told apart on the wire by its `type` member.
#[derive(Clone, Debug, PartialEq)]
pub enum Tool {
    FileSearch(FileSearchTool),
    Function(FunctionTool),
    ComputerUsePreview(ComputerTool),
    WebSearchPreview(WebSearchTool),
    WebSearchPreview2025_03_11(WebSearchTool),
}

impl Tool {
    /// The `type` token of the variant.
    pub open spec fn type_token(&self) -> Seq<char> {
        match self {
            Tool::FileSearch(_) => "file_search"@,
            Tool::Function(_) => "function"@,
            Tool::ComputerUsePreview(_) => "computer_use_preview"@,
            Tool::WebSearchPreview(_) => "web_search_preview"@,
            Tool::WebSearchPreview2025_03_11(_) => "web_search_preview_2025_03_11"@,
        }
    }
}

impl Wire for Tool {
    open spec fn json(&self) -> Json {
        match self {
            Tool::FileSearch(x) => tagged("file_search"@, x.json()),
            Tool::Function(x) => tagged("function"@, x.json()),
            Tool::ComputerUsePreview(x) => tagged("computer_use_preview"@, x.json()),
            Tool::WebSearchPreview(x) => tagged("web_search_preview"@, x.json()),
            Tool::WebSearchPreview2025_03_11(x) => {
                tagged("web_search_preview_2025_03_11"@, x.json())
            },
        }
    }

    open spec fn parse(j: Json) -> Option<Json> {
        match member(j, "type"@) {
            Some(Json::Str(t)) => {
                if t == "file_search"@ {
                    match FileSearchTool::parse(j) {
                        Some(c) => Some(tagged(t, c)),
                        None => None,
                    }
                } else if t == "function"@ {
                    match FunctionTool::parse(j) {
                        Some(c) => Some(tagged(t, c)),
                        None => None,
                    }
                } else if t == "computer_use_preview"@ {
                    match ComputerTool::parse(j) {
                        Some(c) => Some(tagged(t, c)),
                        None => None,
                    }
                } else if t == "web_search_preview"@ {
                    match WebSearchTool::parse(j) {
                        Some(c) => Some(tagged(t, c)),
                        None => None,
                    }
                } else if t == "web_search_preview_2025_03_11"@ {
                    match WebSearchTool::parse(j) {
                        Some(c) => Some(tagged(t, c)),
                        None => None,
                    }
                } else {
                    None
                }
            },
            _ => None,
        }
    }

    fn to_json(&self) -> (r: JsonValue) {
        match self {
            Tool::FileSearch(x) => tag_object(x.to_json(), "file_search"),
            Tool::Function(x) => tag_object(x.to_json(), "function"),
            Tool::ComputerUsePreview(x) => tag_object(x.to_json(), "computer_use_preview"),
            Tool::WebSearchPreview(x) => tag_object(x.to_json(), "web_search_preview"),
            Tool::WebSearchPreview2025_03_11(x) => {
                tag_object(x.to_json(), "web_search_preview_2025_03_11")
            },
        }
    }

    fn from_json(j: &JsonValue) -> (r: Result<Self, OpenAIError>) {
        match get_member(j, "type") {
            Some(JsonValue::Str(t)) => {
                if text_is(t, "file_search") {
                    match FileSearchTool::from_json(j) {
                        Ok(x) => Ok(Tool::FileSearch(x)),
                        Err(e) => Err(e),
                    }
                } else if text_is(t, "function") {
                    match FunctionTool::from_json(j) {
                        Ok(x) => Ok(Tool::Function(x)),
                        Err(e) => Err(e),
                    }
                } else if text_is(t, "computer_use_preview") {
                    match ComputerTool::from_json(j) {
                        Ok(x) => Ok(Tool::ComputerUsePreview(x)),
                        Err(e) => Err(e),
                    }
                } else if text_is(t, "web_search_preview") {
                    match WebSearchTool::from_json(j) {
                        Ok(x) => Ok(Tool::WebSearchPreview(x)),
                        Err(e) => Err(e),
                    }
                } else if text_is(t, "web_search_preview_2025_03_11") {
                    match WebSearchTool::from_json(j) {
                        Ok(x) => Ok(Tool::WebSearchPreview2025_03_11(x)),
                        Err(e) => Err(e),
                    }
                } else {
                    Err(mismatch("Tool"))
                }
            },
            _ => Err(mismatch("Tool")),
        }
    }

    proof fn lemma_round_trip(&self) {
        reveal_strlit("computer_use_preview");
        reveal_strlit("file_search");
        reveal_strlit("function");
        reveal_strlit("type");
        reveal_strlit("web_search_preview");
        reveal_strlit("web_search_preview_2025_03_11");
        assert("computer_use_preview"@.len() == 20);
        assert("file_search"@.len() == 11);
        assert("function"@.len() == 8);
        assert("type"@.len() == 4);
        assert("web_search_preview"@.len() == 18);
        assert("web_search_preview_2025_03_11"@.len() == 29);
        match self {
            Tool::FileSearch(x) => x.lemma_round_trip_tagged("file_search"@),
            Tool::Function(x) => x.lemma_round_trip_tagged("function"@),
            Tool::ComputerUsePreview(x) => x.lemma_round_trip_tagged("computer_use_preview"@),
            Tool::WebSearchPreview(x) => x.lemma_round_trip_tagged("web_search_preview"@),
            Tool::WebSearchPreview2025_03_11(x) => {
                x.lemma_round_trip_tagged("web_search_preview_2025_03_11"@)
            },
        }
    }
}

/// A function tool is described by a function object.
pub type FunctionTool = FunctionObject;

/// A function the model may call.
#[derive(Clone, Debug, PartialEq)]
pub struct FunctionObject {
    /// The name of the function.
    pub name: String,
    /// What the function does.
    pub description: Option<String>,
    /// The parameters the function accepts, as a JSON Schema object.
    pub parameters: Option<JsonValue>,
    /// Whether the call must follow the schema exactly.
    pub strict: Option<bool>,
}

impl Wire for FunctionObject {
    open spec fn json(&self) -> Json {
        let m = Map::<Seq<char>, Json>::empty();
        let m = m.insert("name"@, self.name.json());
        let m = put_opt(m, "description"@, opt_json(self.description));
        let m = put_opt(m, "parameters"@, opt_json(self.parameters));
        let m = put_opt(m, "strict"@, opt_json(self.strict));
        Json::Object(m)
    }

    open spec fn parse(j: Json) -> Option<Json> {
        let name = parse_req::<String>(j, "name"@);
        let description = parse_opt::<String>(j, "description"@);
        let parameters = parse_opt::<JsonValue>(j, "parameters"@);
        let strict = parse_opt::<bool>(j, "strict"@);
        if j is Object
            && name is Some
            && description is Some
            && parameters is Some
            && strict is Some
        {
            let m = Map::<Seq<char>, Json>::empty();
            let m = m.insert("name"@, name->Some_0);
            let m = put_opt(m, "description"@, description->Some_0);
            let m = put_opt(m, "parameters"@, parameters->Some_0);
            let m = put_opt(m, "strict"@, strict->Some_0);
            Some(Json::Object(m))
        } else {
            None
        }
    }

    fn to_json(&self) -> (r: JsonValue) {
        let mut m = new_members();
        push_member(&mut m, "name", self.name.to_json());
        push_opt(&mut m, "description", &self.description);
        push_opt(&mut m, "parameters", &self.parameters);
        push_opt(&mut m, "strict", &self.strict);
        object(m)
    }

    fn from_json(j: &JsonValue) -> (r: Result<Self, OpenAIError>) {
        if !is_object(j) {
            return Err(mismatch("FunctionObject"));
        }
        let name = match req_member::<String>(j, "name") {
            Ok(x) => x,
            Err(e) => return Err(e),
        };
        let description = match opt_member::<String>(j, "description") {
            Ok(x) => x,
            Err(e) => return Err(e),
        };
        let parameters = match opt_member::<JsonValue>(j, "parameters") {
            Ok(x) => x,
            Err(e) => return Err(e),
        };
        let strict = match opt_member::<bool>(j, "strict") {
            Ok(x) => x,
            Err(e) => return Err(e),
        };
        Ok(FunctionObject { name, description, parameters, strict })
    }

    proof fn lemma_round_trip(&self) {
        reveal_strlit("description");
        reveal_strlit("name");
        reveal_strlit("parameters");
        reveal_strlit("strict");
        assert("description"@.len() == 11);
        assert("name"@.len() == 4);
        assert("parameters"@.len() == 10);
        assert("strict"@.len() == 6);
        let j = self.json();
        lemma_parse_req(j, "name"@, self.name);
        lemma_parse_opt(j, "description"@, self.description);
        lemma_parse_opt(j, "parameters"@, self.parameters);
        lemma_parse_opt(j, "strict"@, self.strict);
    }
}

impl FunctionObject {
    /// The document reads alike with a `type` member added beside its own.
    pub proof fn lemma_round_trip_tagged(&self, tag: Seq<char>)
        ensures
            Self::parse(tagged(tag, self.json())) == Some(self.json()),
            self.json() is Object,
    {
        reveal_strlit("description");
        reveal_strlit("name");
        reveal_strlit("parameters");
        reveal_strlit("strict");
        reveal_strlit("type");
        assert("description"@.len() == 11);
        assert("name"@.len() == 4);
        assert("parameters"@.len() == 10);
        assert("strict"@.len() == 6);
        assert("type"@.len() == 4);
        assert("name"@[0] != "type"@[0]);
        let j = tagged(tag, self.json());
        lemma_parse_req(j, "name"@, self.name);
        lemma_parse_opt(j, "description"@, self.description);
        lemma_parse_opt(j, "parameters"@, self.parameters);
        lemma_parse_opt(j, "strict"@, self.strict);
    }
}

/// A tool that searches for relevant content from uploaded files.
#[derive(Clone, Debug, PartialEq)]
pub struct FileSearchTool {
    /// The IDs of the vector stores to search.
    pub vector_store_ids: Vec<String>,
    /// The maximum number of results to return, between 1 and 50.
    pub max_num_results: Option<u32>,
    /// A filter to apply based on file attributes.
    pub filters: Option<JsonValue>,
    /// Ranking options for search.
    pub ranking_options: Option<RankingOptions>,
}

impl Wire for FileSearchTool {
    open spec fn json(&self) -> Json {
        let m = Map::<Seq<char>, Json>::empty();
        let m = m.insert("vector_store_ids"@, self.vector_store_ids.json());
        let m = put_opt(m, "max_num_results"@, opt_json(self.max_num_results));
        let m = put_opt(m, "filters"@, opt_json(self.filters));
        let m = put_opt(m, "ranking_options"@, opt_json(self.ranking_options));
        Json::Object(m)
    }

    open spec fn parse(j: Json) -> Option<Json> {
        let vector_store_ids = parse_req::<Vec<String>>(j, "vector_store_ids"@);
        let max_num_results = parse_opt::<u32>(j, "max_num_results"@);
        let filters = parse_opt::<JsonValue>(j, "filters"@);
        let ranking_options = parse_opt::<RankingOptions>(j, "ranking_options"@);
        if j is Object
            && vector_store_ids is Some
            && max_num_results is Some
            && filters is Some
            && ranking_options is Some
        {
            let m = Map::<Seq<char>, Json>::empty();
            let m = m.insert("vector_store_ids"@, vector_store_ids->Some_0);
            let m = put_opt(m, "max_num_results"@, max_num_results->Some_0);
            let m = put_opt(m, "filters"@, filters->Some_0);
            let m = put_opt(m, "ranking_options"@, ranking_options->Some_0);
            Some(Json::Object(m))
        } else {
            None
        }
    }

    fn to_json(&self) -> (r: JsonValue) {
        let mut m = new_members();
        push_member(&mut m, "vector_store_ids", self.vector_store_ids.to_json());
        push_opt(&mut m, "max_num_results", &self.max_num_results);
        push_opt(&mut m, "filters", &self.filters);
        push_opt(&mut m, "ranking_options", &self.ranking_options);
        object(m)
    }

    fn from_json(j: &JsonValue) -> (r: Result<Self, OpenAIError>) {
        if !is_object(j) {
            return Err(mismatch("FileSearchTool"));
        }
        let vector_store_ids = match req_member::<Vec<String>>(j, "vector_store_ids") {
            Ok(x) => x,
            Err(e) => return Err(e),
        };
        let max_num_results = match opt_member::<u32>(j, "max_num_results") {
            Ok(x) => x,
            Err(e) => return Err(e),
        };
        let filters = match opt_member::<JsonValue>(j, "filters") {
            Ok(x) => x,
            Err(e) => return Err(e),
        };
        let ranking_options = match opt_member::<RankingOptions>(j, "ranking_options") {
            Ok(x) => x,
            Err(e) => return Err(e),
        };
        Ok(FileSearchTool { vector_store_ids, max_num_results, filters, ranking_options })
    }

    proof fn lemma_round_trip(&self) {
        reveal_strlit("filters");
        reveal_strlit("max_num_results");
        reveal_strlit("ranking_options");
        reveal_strlit("vector_store_ids");
        assert("filters"@.len() == 7);
        assert("max_num_results"@.len() == 15);
        assert("ranking_options"@.len() == 15);
        assert("vector_store_ids"@.len() == 16);
        assert("max_num_results"@[0] != "ranking_options"@[0]);
        let j = self.json();
        lemma_parse_req(j, "vector_store_ids"@, self.vector_store_ids);
        lemma_parse_opt(j, "max_num_results"@, self.max_num_results);
        lemma_parse_opt(j, "filters"@, self.filters);
        lemma_parse_opt(j, "ranking_options"@, self.ranking_options);
    }
}

impl FileSearchTool {
    /// The document reads alike with a `type` member added beside its own.
    pub proof fn lemma_round_trip_tagged(&self, tag: Seq<char>)
        ensures
            Self::parse(tagged(tag, self.json())) == Some(self.json()),
            self.json() is Object,
    {
        reveal_strlit("filters");
        reveal_strlit("max_num_results");
        reveal_strlit("ranking_options");
        reveal_strlit("type");
        reveal_strlit("vector_store_ids");
        assert("filters"@.len() == 7);
        assert("max_num_results"@.len() == 15);
        assert("ranking_options"@.len() == 15);
        assert("type"@.len() == 4);
        assert("vector_store_ids"@.len() == 16);
        assert("max_num_results"@[0] != "ranking_options"@[0]);
        let j = tagged(tag, self.json());
        lemma_parse_req(j, "vector_store_ids"@, self.vector_store_ids);
        lemma_parse_opt(j, "max_num_results"@, self.max_num_results);
        lemma_parse_opt(j, "filters"@, self.filters);
        lemma_parse_opt(j, "ranking_options"@, self.ranking_options);
    }
}

/// How search results are ranked.
#[derive(Clone, Debug, PartialEq)]
pub struct RankingOptions {
    /// The ranker to use.
    pub ranker: Option<Ranker>,
    /// The least score a result may have, between 0 and 1.
    pub score_threshold: Option<JsonNumber>,
}

impl Wire for RankingOptions {
    open spec fn json(&self) -> Json {
        let m = Map::<Seq<char>, Json>::empty();
        let m = put_opt(m, "ranker"@, opt_json(self.ranker));
        let m = put_opt(m, "score_threshold"@, opt_json(self.score_threshold));
        Json::Object(m)
    }

    open spec fn parse(j: Json) -> Option<Json> {
        let ranker = parse_opt::<Ranker>(j, "ranker"@);
        let score_threshold = parse_opt::<JsonNumber>(j, "score_threshold"@);
        if j is Object && ranker is Some && score_threshold is Some {
            let m = Map::<Seq<char>, Json>::empty();
            let m = put_opt(m, "ranker"@, ranker->Some_0);
            let m = put_opt(m, "score_threshold"@, score_threshold->Some_0);
            Some(Json::Object(m))
        } else {
            None
        }
    }

    fn to_json(&self) -> (r: JsonValue) {
        let mut m = new_members();
        push_opt(&mut m, "ranker", &self.ranker);
        push_opt(&mut m, "score_threshold", &self.score_threshold);
        object(m)
    }

    fn from_json(j: &JsonValue) -> (r: Result<Self, OpenAIError>) {
        if !is_object(j) {
            return Err(mismatch("RankingOptions"));
        }
        let ranker = match opt_member::<Ranker>(j, "ranker") {
            Ok(x) => x,
            Err(e) => return Err(e),
        };
        let score_threshold = match opt_member::<JsonNumber>(j, "score_threshold") {
            Ok(x) => x,
            Err(e) => return Err(e),
        };
        Ok(RankingOptions { ranker, score_threshold })
    }

    proof fn lemma_round_trip(&self) {
        reveal_strlit("ranker");
        reveal_strlit("score_threshold");
        assert("ranker"@.len() == 6);
        assert("score_threshold"@.len() == 15);
        let j = self.json();
        lemma_parse_opt(j, "ranker"@, self.ranker);
        lemma_parse_opt(j, "score_threshold"@, self.score_threshold);
    }
}

/// A ranker for file search.
#[derive(Clone, Copy, Debug, PartialEq, Eq, Structural)]
pub enum Ranker {
    Auto,
    Default20241115,
}

impl Ranker {
    /// The token that stands for the value on the wire.
    pub open spec fn token_spec(&self) -> Seq<char> {
        match self {
            Ranker::Auto => "auto"@,
            Ranker::Default20241115 => "default_2024_11_15"@,
        }
    }

    pub open spec fn from_token_spec(s: Seq<char>) -> Option<Ranker> {
        if s == "auto"@ {
            Some(Ranker::Auto)
        } else if s == "default_2024_11_15"@ {
            Some(Ranker::Default20241115)
        } else {
            None
        }
    }

    pub fn token(&self) -> (r: &'static str)
        ensures
            r@ == self.token_spec(),
    {
        match self {
            Ranker::Auto => "auto",
            Ranker::Default20241115 => "default_2024_11_15",
        }
    }

    pub fn from_token(s: &String) -> (r: Option<Ranker>)
        ensures
            r == Ranker::from_token_spec(s@),
    {
        if text_is(s, "auto") {
            Some(Ranker::Auto)
        } else if text_is(s, "default_2024_11_15") {
            Some(Ranker::Default20241115)
        } else {
            None
        }
    }
}

impl Wire for Ranker {
    open spec fn json(&self) -> Json {
        Json::Str(self.token_spec())
    }

    open spec fn parse(j: Json) -> Option<Json> {
        match j {
            Json::Str(s) => match Ranker::from_token_spec(s) {
                Some(x) => Some(x.json()),
                None => None,
            },
            _ => None,
        }
    }

    fn to_json(&self) -> (r: JsonValue) {
        JsonValue::Str(self.token().to_owned())
    }

    fn from_json(j: &JsonValue) -> (r: Result<Self, OpenAIError>) {
        match j {
            JsonValue::Str(s) => match Ranker::from_token(s) {
                Some(x) => Ok(x),
                None => Err(mismatch("Ranker")),
            },
            _ => Err(mismatch("Ranker")),
        }
    }

    proof fn lemma_round_trip(&self) {
        reveal_strlit("auto");
        reveal_strlit("default_2024_11_15");
        assert("auto"@.len() == 4);
        assert("default_2024_11_15"@.len() == 18);
    }
}

/// A tool that controls a virtual computer.
#[derive(Clone, Debug, PartialEq)]
pub struct ComputerTool {
    /// The width of the computer display.
    pub display_width: u32,
    /// The height of the computer display.
    pub display_height: u32,
    /// The type of computer environment to control.
    pub environment: Environment,
}

impl Wire for ComputerTool {
    open spec fn json(&self) -> Json {
        let m = Map::<Seq<char>, Json>::empty();
        let m = m.insert("display_width"@, self.display_width.json());
        let m = m.insert("display_height"@, self.display_height.json());
        let m = m.insert("environment"@, self.environment.json());
        Json::Object(m)
    }

    open spec fn parse(j: Json) -> Option<Json> {
        let display_width = parse_req::<u32>(j, "display_width"@);
        let display_height = parse_req::<u32>(j, "display_height"@);
        let environment = parse_req::<Environment>(j, "environment"@);
        if j is Object
            && display_width is Some
            && display_height is Some
            && environment is Some
        {
            let m = Map::<Seq<char>, Json>::empty();
            let m = m.insert("display_width"@, display_width->Some_0);
            let m = m.insert("display_height"@, display_height->Some_0);
            let m = m.insert("environment"@, environment->Some_0);
            Some(Json::Object(m))
        } else {
            None
        }
    }

    fn to_json(&self) -> (r: JsonValue) {
        let mut m = new_members();
        push_member(&mut m, "display_width", self.display_width.to_json());
        push_member(&mut m, "display_height", self.display_height.to_json());
        push_member(&mut m, "environment", self.environment.to_json());
        object(m)
    }

    fn from_json(j: &JsonValue) -> (r: Result<Self, OpenAIError>) {
        if !is_object(j) {
            return Err(mismatch("ComputerTool"));
        }
        let display_width = match req_member::<u32>(j, "display_width") {
            Ok(x) => x,
            Err(e) => return Err(e),
        };
        let display_height = match req_member::<u32>(j, "display_height") {
            Ok(x) => x,
            Err(e) => return Err(e),
        };
        let environment = match req_member::<Environment>(j, "environment") {
            Ok(x) => x,
            Err(e) => return Err(e),
        };
        Ok(ComputerTool { display_width, display_height, environment })
    }

    proof fn lemma_round_trip(&self) {
        reveal_strlit("display_height");
        reveal_strlit("display_width");
        reveal_strlit("environment");
        assert("display_height"@.len() == 14);
        assert("display_width"@.len() == 13);
        assert("environment"@.len() == 11);
        let j = self.json();
        lemma_parse_req(j, "display_width"@, self.display_width);
        lemma_parse_req(j, "display_height"@, self.display_height);
        lemma_parse_req(j, "environment"@, self.environment);
    }
}

impl ComputerTool {
    /// The document reads alike with a `type` member added beside its own.
    pub proof fn lemma_round_trip_tagged(&self, tag: Seq<char>)
        ensures
            Self::parse(tagged(tag, self.json())) == Some(self.json()),
            self.json() is Object,
    {
        reveal_strlit("display_height");
        reveal_strlit("display_width");
        reveal_strlit("environment");
        reveal_strlit("type");
        assert("display_height"@.len() == 14);
        assert("display_width"@.len() == 13);
        assert("environment"@.len() == 11);
        assert("type"@.len() == 4);
        let j = tagged(tag, self.json());
        lemma_parse_req(j, "display_width"@, self.display_width);
        lemma_parse_req(j, "display_height"@, self.display_height);
        lemma_parse_req(j, "environment"@, self.environment);
    }
}

/// The kind of computer environment a computer tool controls.
#[derive(Clone, Copy, Debug, PartialEq, Eq, Structural)]
pub enum Environment {
    Mac,
    Windows,
    Ubuntu,
    Browser,
}

impl Environment {
    /// The token that stands for the value on the wire.
    pub open spec fn token_spec(&self) -> Seq<char> {
        match self {
            Environment::Mac => "mac"@,
            Environment::Windows => "windows"@,
            Environment::Ubuntu => "ubuntu"@,
            Environment::Browser => "browser"@,
        }
    }

    pub open spec fn from_token_spec(s: Seq<char>) -> Option<Environment> {
        if s == "mac"@ {
            Some(Environment::Mac)
        } else if s == "windows"@ {
            Some(Environment::Windows)
        } else if s == "ubuntu"@ {
            Some(Environment::Ubuntu)
        } else if s == "browser"@ {
            Some(Environment::Browser)
        } else {
            None
        }
    }

    pub fn token(&self) -> (r: &'static str)
        ensures
            r@ == self.token_spec(),
    {
        match self {
            Environment::Mac => "mac",
            Environment::Windows => "windows",
            Environment::Ubuntu => "ubuntu",
            Environment::Browser => "browser",
        }
    }

    pub fn from_token(s: &String) -> (r: Option<Environment>)
        ensures
            r == Environment::from_token_spec(s@),
    {
        if text_is(s, "mac") {
            Some(Environment::Mac)
        } else if text_is(s, "windows") {
            Some(Environment::Windows)
        } else if text_is(s, "ubuntu") {
            Some(Environment::Ubuntu)
        } else if text_is(s, "browser") {
            Some(Environment::Browser)
        } else {
            None
        }
    }
}

impl Wire for Environment {
    open spec fn json(&self) -> Json {
        Json::Str(self.token_spec())
    }

    open spec fn parse(j: Json) -> Option<Json> {
        match j {
            Json::Str(s) => match Environment::from_token_spec(s) {
                Some(x) => Some(x.json()),
                None => None,
            },
            _ => None,
        }
    }

    fn to_json(&self) -> (r: JsonValue) {
        JsonValue::Str(self.token().to_owned())
    }

    fn from_json(j: &JsonValue) -> (r: Result<Self, OpenAIError>) {
        match j {
            JsonValue::Str(s) => match Environment::from_token(s) {
                Some(x) => Ok(x),
                None => Err(mismatch("Environment")),
            },
            _ => Err(mismatch("Environment")),
        }
    }

    proof fn lemma_round_trip(&self) {
        reveal_strlit("browser");
        reveal_strlit("mac");
        reveal_strlit("ubuntu");
        reveal_strlit("windows");
        assert("browser"@.len() == 7);
        assert("mac"@.len() == 3);
        assert("ubuntu"@.len() == 6);
        assert("windows"@.len() == 7);
        assert("browser"@[0] != "windows"@[0]);
    }
}

/// A tool that searches the web for relevant results.
#[derive(Clone, Debug, PartialEq)]
pub struct WebSearchTool {
    /// The approximate location of the user.
    pub user_location: Option<WebSearchToolUserLocation>,
}

impl Wire for WebSearchTool {
    open spec fn json(&self) -> Json {
        let m = Map::<Seq<char>, Json>::empty();
        let m = put_opt(m, "user_location"@, opt_json(self.user_location));
        Json::Object(m)
    }

    open spec fn parse(j: Json) -> Option<Json> {
        let user_location = parse_opt::<WebSearchToolUserLocation>(j, "user_location"@);
        if j is Object && user_location is Some {
            let m = Map::<Seq<char>, Json>::empty();
            let m = put_opt(m, "user_location"@, user_location->Some_0);
            Some(Json::Object(m))
        } else {
            None
        }
    }

    fn to_json(&self) -> (r: JsonValue) {
        let mut m = new_members();
        push_opt(&mut m, "user_location", &self.user_location);
        object(m)
    }

    fn from_json(j: &JsonValue) -> (r: Result<Self, OpenAIError>) {
        if !is_object(j) {
            return Err(mismatch("WebSearchTool"));
        }
        let user_location = match opt_member::<WebSearchToolUserLocation>(j, "user_location") {
            Ok(x) => x,
            Err(e) => return Err(e),
        };
        Ok(WebSearchTool { user_location })
    }

    proof fn lemma_round_trip(&self) {
        reveal_strlit("user_location");
        assert("user_location"@.len() == 13);
        let j = self.json();
        lemma_parse_opt(j, "user_location"@, self.user_location);
    }
}

impl WebSearchTool {
    /// The document reads alike with a `type` member added beside its own.
    pub proof fn lemma_round_trip_tagged(&self, tag: Seq<char>)
        ensures
            Self::parse(tagged(tag, self.json())) == Some(self.json()),
            self.json() is Object,
    {
        reveal_strlit("type");
        reveal_strlit("user_location");
        assert("type"@.len() == 4);
        assert("user_location"@.len() == 13);
        let j = tagged(tag, self.json());
        lemma_parse_opt(j, "user_location"@, self.user_location);
    }
}

/// Approximate location parameters for a web search.
#[derive(Clone, Debug, PartialEq)]
pub struct WebSearchToolUserLocation {
    /// The type of location approximation; `approximate` where it is not given.
    pub kind: LocationType,
    /// The two-letter ISO country code of the user, e.g. `US`.
    pub country: Option<String>,
    /// Free text for the region of the user, e.g. `California`.
    pub region: Option<String>,
    /// Free text for the city of the user, e.g. `San Francisco`.
    pub city: Option<String>,
    /// The IANA time zone of the user, e.g. `America/Los_Angeles`.
    pub timezone: Option<String>,
}

impl Wire for WebSearchToolUserLocation {
    open spec fn json(&self) -> Json {
        let m = Map::<Seq<char>, Json>::empty();
        let m = m.insert("type"@, self.kind.json());
        let m = put_opt(m, "country"@, opt_json(self.country));
        let m = put_opt(m, "region"@, opt_json(self.region));
        let m = put_opt(m, "city"@, opt_json(self.city));
        let m = put_opt(m, "timezone"@, opt_json(self.timezone));
        Json::Object(m)
    }

    open spec fn parse(j: Json) -> Option<Json> {
        let kind = parse_def::<LocationType>(j, "type"@, LocationType::Approximate);
        let country = parse_opt::<String>(j, "country"@);
        let region = parse_opt::<String>(j, "region"@);
        let city = parse_opt::<String>(j, "city"@);
        let timezone = parse_opt::<String>(j, "timezone"@);
        if j is Object
            && kind is Some
            && country is Some
            && region is Some
            && city is Some
            && timezone is Some
        {
            let m = Map::<Seq<char>, Json>::empty();
            let m = m.insert("type"@, kind->Some_0);
            let m = put_opt(m, "country"@, country->Some_0);
            let m = put_opt(m, "region"@, region->Some_0);
            let m = put_opt(m, "city"@, city->Some_0);
            let m = put_opt(m, "timezone"@, timezone->Some_0);
            Some(Json::Object(m))
        } else {
            None
        }
    }

    fn to_json(&self) -> (r: JsonValue) {
        let mut m = new_members();
        push_member(&mut m, "type", self.kind.to_json());
        push_opt(&mut m, "country", &self.country);
        push_opt(&mut m, "region", &self.region);
        push_opt(&mut m, "city", &self.city);
        push_opt(&mut m, "timezone", &self.timezone);
        object(m)
    }

    fn from_json(j: &JsonValue) -> (r: Result<Self, OpenAIError>) {
        if !is_object(j) {
            return Err(mismatch("WebSearchToolUserLocation"));
        }
        let kind = match def_member::<LocationType>(j, "type", LocationType::Approximate) {
            Ok(x) => x,
            Err(e) => return Err(e),
        };
        let country = match opt_member::<String>(j, "country") {
            Ok(x) => x,
            Err(e) => return Err(e),
        };
        let region = match opt_member::<String>(j, "region") {
            Ok(x) => x,
            Err(e) => return Err(e),
        };
        let city = match opt_member::<String>(j, "city") {
            Ok(x) => x,
            Err(e) => return Err(e),
        };
        let timezone = match opt_member::<String>(j, "timezone") {
            Ok(x) => x,
            Err(e) => return Err(e),
        };
        Ok(WebSearchToolUserLocation { kind, country, region, city, timezone })
    }

    proof fn lemma_round_trip(&self) {
        reveal_strlit("city");
        reveal_strlit("country");
        reveal_strlit("region");
        reveal_strlit("timezone");
        reveal_strlit("type");
        assert("city"@.len() == 4);
        assert("country"@.len() == 7);
        assert("region"@.len() == 6);
        assert("timezone"@.len() == 8);
        assert("type"@.len() == 4);
        assert("city"@[0] != "type"@[0]);
        let j = self.json();
        lemma_parse_def(j, "type"@, self.kind, LocationType::Approximate);
        lemma_parse_opt(j, "country"@, self.country);
        lemma_parse_opt(j, "region"@, self.region);
        lemma_parse_opt(j, "city"@, self.city);
        lemma_parse_opt(j, "timezone"@, self.timezone);
    }
}

/// The kind of a user location.
#[derive(Clone, Copy, Debug, PartialEq, Eq, Structural)]
pub enum LocationType {
    Approximate,
}

impl LocationType {
    /// The token that stands for the value on the wire.
    pub open spec fn token_spec(&self) -> Seq<char> {
        match self {
            LocationType::Approximate => "approximate"@,
        }
    }

    pub open spec fn from_token_spec(s: Seq<char>) -> Option<LocationType> {
        if s == "approximate"@ {
            Some(LocationType::Approximate)
        } else {
            None
        }
    }

    pub fn token(&self) -> (r: &'static str)
        ensures
            r@ == self.token_spec(),
    {
        match self {
            LocationType::Approximate => "approximate",
        }
    }

    pub fn from_token(s: &String) -> (r: Option<LocationType>)
        ensures
            r == LocationType::from_token_spec(s@),
    {
        if text_is(s, "approximate") {
            Some(LocationType::Approximate)
        } else {
            None
        }
    }
}

impl Default for LocationType {
    fn default() -> (r: Self)
        ensures
            r == LocationType::Approximate,
    {
        LocationType::Approximate
    }
}

impl Wire for LocationType {
    open spec fn json(&self) -> Json {
        Json::Str(self.token_spec())
    }

    open spec fn parse(j: Json) -> Option<Json> {
        match j {
            Json::Str(s) => match LocationType::from_token_spec(s) {
                Some(x) => Some(x.json()),
                None => None,
            },
            _ => None,
        }
    }

    fn to_json(&self) -> (r: JsonValue) {
        JsonValue::Str(self.token().to_owned())
    }

    fn from_json(j: &JsonValue) -> (r: Result<Self, OpenAIError>) {
        match j {
            JsonValue::Str(s) => match LocationType::from_token(s) {
                Some(x) => Ok(x),
                None => Err(mismatch("LocationType")),
            },
            _ => Err(mismatch("LocationType")),
        }
    }

    proof fn lemma_round_trip(&self) {
        reveal_strlit("approximate");
        assert("approximate"@.len() == 11);
    }
}

/// Whether and how freely the model calls tools: `none`, `auto` or `required`.
#[derive(Clone, Copy, Debug, PartialEq, Eq, Structural)]
pub enum ToolChoiceOptions {
    NoTools,
    Auto,
    Required,
}

impl ToolChoiceOptions {
    /// The token that stands for the value on the wire.
    pub open spec fn token_spec(&self) -> Seq<char> {
        match self {
            ToolChoiceOptions::NoTools => "none"@,
            ToolChoiceOptions::Auto => "auto"@,
            ToolChoiceOptions::Required => "required"@,
        }
    }

    pub open spec fn from_token_spec(s: Seq<char>) -> Option<ToolChoiceOptions> {
        if s == "none"@ {
            Some(ToolChoiceOptions::NoTools)
        } else if s == "auto"@ {
            Some(ToolChoiceOptions::Auto)
        } else if s == "required"@ {
            Some(ToolChoiceOptions::Required)
        } else {
            None
        }
    }

    pub fn token(&self) -> (r: &'static str)
        ensures
            r@ == self.token_spec(),
    {
        match self {
            ToolChoiceOptions::NoTools => "none",
            ToolChoiceOptions::Auto => "auto",
            ToolChoiceOptions::Required => "required",
        }
    }

    pub fn from_token(s: &String) -> (r: Option<ToolChoiceOptions>)
        ensures
            r == ToolChoiceOptions::from_token_spec(s@),
    {
        if text_is(s, "none") {
            Some(ToolChoiceOptions::NoTools)
        } else if text_is(s, "auto") {
            Some(ToolChoiceOptions::Auto)
        } else if text_is(s, "required") {
            Some(ToolChoiceOptions::Required)
        } else {
            None
        }
    }
}

impl Wire for ToolChoiceOptions {
    open spec fn json(&self) -> Json {
        Json::Str(self.token_spec())
    }

    open spec fn parse(j: Json) -> Option<Json> {
        match j {
            Json::Str(s) => match ToolChoiceOptions::from_token_spec(s) {
                Some(x) => Some(x.json()),
                None => None,
            },
            _ => None,
        }
    }

    fn to_json(&self) -> (r: JsonValue) {
        JsonValue::Str(self.token().to_owned())
    }

    fn from_json(j: &JsonValue) -> (r: Result<Self, OpenAIError>) {
        match j {
            JsonValue::Str(s) => match ToolChoiceOptions::from_token(s) {
                Some(x) => Ok(x),
                None => Err(mismatch("ToolChoiceOptions")),
            },
            _ => Err(mismatch("ToolChoiceOptions")),
        }
    }

    proof fn lemma_round_trip(&self) {
        reveal_strlit("auto");
        reveal_strlit("none");
        reveal_strlit("required");
        assert("auto"@.len() == 4);
        assert("none"@.len() == 4);
        assert("required"@.len() == 8);
        assert("auto"@[0] != "none"@[0]);
    }
}

/// A built-in tool the model must use, written as an object with its `type`.
#[derive(Clone, Copy, Debug, PartialEq, Eq, Structural)]
pub enum ToolChoiceTypes {
    FileSearch,
    ComputerUsePreview,
    WebSearchPreview,
    WebSearchPreview2025_03_11,
}

impl ToolChoiceTypes {
    /// The token that stands for the value on the wire.
    pub open spec fn token_spec(&self) -> Seq<char> {
        match self {
            ToolChoiceTypes::FileSearch => "file_search"@,
            ToolChoiceTypes::ComputerUsePreview => "computer_use_preview"@,
            ToolChoiceTypes::WebSearchPreview => "web_search_preview"@,
            ToolChoiceTypes::WebSearchPreview2025_03_11 => "web_search_preview_2025_03_11"@,
        }
    }

    pub open spec fn from_token_spec(s: Seq<char>) -> Option<ToolChoiceTypes> {
        if s == "file_search"@ {
            Some(ToolChoiceTypes::FileSearch)
        } else if s == "computer_use_preview"@ {
            Some(ToolChoiceTypes::ComputerUsePreview)
        } else if s == "web_search_preview"@ {
            Some(ToolChoiceTypes::WebSearchPreview)
        } else if s == "web_search_preview_2025_03_11"@ {
            Some(ToolChoiceTypes::WebSearchPreview2025_03_11)
        } else {
            None
        }
    }

    pub fn token(&self) -> (r: &'static str)
        ensures
            r@ == self.token_spec(),
    {
        match self {
            ToolChoiceTypes::FileSearch => "file_search",
            ToolChoiceTypes::ComputerUsePreview => "computer_use_preview",
            ToolChoiceTypes::WebSearchPreview => "web_search_preview",
            ToolChoiceTypes::WebSearchPreview2025_03_11 => "web_search_preview_2025_03_11",
        }
    }

    pub fn from_token(s: &String) -> (r: Option<ToolChoiceTypes>)
        ensures
            r == ToolChoiceTypes::from_token_spec(s@),
    {
        if text_is(s, "file_search") {
            Some(ToolChoiceTypes::FileSearch)
        } else if text_is(s, "computer_use_preview") {
            Some(ToolChoiceTypes::ComputerUsePreview)
        } else if text_is(s, "web_search_preview") {
            Some(ToolChoiceTypes::WebSearchPreview)
        } else if text_is(s, "web_search_preview_2025_03_11") {
            Some(ToolChoiceTypes::WebSearchPreview2025_03_11)
        } else {
            None
        }
    }
}

impl Wire for ToolChoiceTypes {
    open spec fn json(&self) -> Json {
        Json::Object(Map::empty().insert("type"@, Json::Str(self.token_spec())))
    }

    open spec fn parse(j: Json) -> Option<Json> {
        match member(j, "type"@) {
            Some(Json::Str(s)) => match ToolChoiceTypes::from_token_spec(s) {
                Some(x) => Some(x.json()),
                None => None,
            },
            _ => None,
        }
    }

    fn to_json(&self) -> (r: JsonValue) {
        let mut m = new_members();
        push_member(&mut m, "type", JsonValue::Str(self.token().to_owned()));
        object(m)
    }

    fn from_json(j: &JsonValue) -> (r: Result<Self, OpenAIError>) {
        match get_member(j, "type") {
            Some(JsonValue::Str(s)) => match ToolChoiceTypes::from_token(s) {
                Some(x) => Ok(x),
                None => Err(mismatch("ToolChoiceTypes")),
            },
            _ => Err(mismatch("ToolChoiceTypes")),
        }
    }

    proof fn lemma_round_trip(&self) {
        reveal_strlit("computer_use_preview");
        reveal_strlit("file_search");
        reveal_strlit("type");
        reveal_strlit("web_search_preview");
        reveal_strlit("web_search_preview_2025_03_11");
        assert("computer_use_preview"@.len() == 20);
        assert("file_search"@.len() == 11);
        assert("type"@.len() == 4);
        assert("web_search_preview"@.len() == 18);
        assert("web_search_preview_2025_03_11"@.len() == 29);
    }
}

/// Forces the model to call the named function.
#[derive(Clone, Debug, PartialEq)]
pub struct ToolChoiceFunction {
    /// Always `function`.
    pub kind: FunctionToolType,
    /// The name of the function to call.
    pub name: String,
}

impl Wire for ToolChoiceFunction {
    open spec fn json(&self) -> Json {
        let m = Map::<Seq<char>, Json>::empty();
        let m = m.insert("type"@, self.kind.json());
        let m = m.insert("name"@, self.name.json());
        Json::Object(m)
    }

    open spec fn parse(j: Json) -> Option<Json> {
        let kind = parse_req::<FunctionToolType>(j, "type"@);
        let name = parse_req::<String>(j, "name"@);
        if j is Object && kind is Some && name is Some {
            let m = Map::<Seq<char>, Json>::empty();
            let m = m.insert("type"@, kind->Some_0);
            let m = m.insert("name"@, name->Some_0);
            Some(Json::Object(m))
        } else {
            None
        }
    }

    fn to_json(&self) -> (r: JsonValue) {
        let mut m = new_members();
        push_member(&mut m, "type", self.kind.to_json());
        push_member(&mut m, "name", self.name.to_json());
        object(m)
    }

    fn from_json(j: &JsonValue) -> (r: Result<Self, OpenAIError>) {
        if !is_object(j) {
            return Err(mismatch("ToolChoiceFunction"));
        }
        let kind = match req_member::<FunctionToolType>(j, "type") {
            Ok(x) => x,
            Err(e) => return Err(e),
        };
        let name = match req_member::<String>(j, "name") {
            Ok(x) => x,
            Err(e) => return Err(e),
        };
        Ok(ToolChoiceFunction { kind, name })
    }

    proof fn lemma_round_trip(&self) {
        reveal_strlit("name");
        reveal_strlit("type");
        assert("name"@.len() == 4);
        assert("type"@.len() == 4);
        assert("name"@[0] != "type"@[0]);
        let j = self.json();
        lemma_parse_req(j, "type"@, self.kind);
        lemma_parse_req(j, "name"@, self.name);
    }
}

/// The type of a function tool choice.
#[derive(Clone, Copy, Debug, PartialEq, Eq, Structural)]
pub enum FunctionToolType {
    Function,
}

impl FunctionToolType {
    /// The token that stands for the value on the wire.
    pub open spec fn token_spec(&self) -> Seq<char> {
        match self {
            FunctionToolType::Function => "function"@,
        }
    }

    pub open spec fn from_token_spec(s: Seq<char>) -> Option<FunctionToolType> {
        if s == "function"@ {
            Some(FunctionToolType::Function)
        } else {
            None
        }
    }

    pub fn token(&self) -> (r: &'static str)
        ensures
            r@ == self.token_spec(),
    {
        match self {
            FunctionToolType::Function => "function",
        }
    }

    pub fn from_token(s: &String) -> (r: Option<FunctionToolType>)
        ensures
            r == FunctionToolType::from_token_spec(s@),
    {
        if text_is(s, "function") {
            Some(FunctionToolType::Function)
        } else {
            None
        }
    }
}

impl Default for FunctionToolType {
    fn default() -> (r: Self)
        ensures
            r == FunctionToolType::Function,
    {
        FunctionToolType::Function
    }
}

impl Wire for FunctionToolType {
    open spec fn json(&self) -> Json {
        Json::Str(self.token_spec())
    }

    open spec fn parse(j: Json) -> Option<Json> {
        match j {
            Json::Str(s) => match FunctionToolType::from_token_spec(s) {
                Some(x) => Some(x.json()),
                None => None,
            },
            _ => None,
        }
    }

    fn to_json(&self) -> (r: JsonValue) {
        JsonValue::Str(self.token().to_owned())
    }

    fn from_json(j: &JsonValue) -> (r: Result<Self, OpenAIError>) {
        match j {
            JsonValue::Str(s) => match FunctionToolType::from_token(s) {
                Some(x) => Ok(x),
                None => Err(mismatch("FunctionToolType")),
            },
            _ => Err(mismatch("FunctionToolType")),
        }
    }

    proof fn lemma_round_trip(&self) {
        reveal_strlit("function");
        assert("function"@.len() == 8);
    }
}

/// How the model selects tools. On the wire it carries no tag: a document
/// is read as the first of options, built-in tool types and function that
/// it matches.
#[derive(Clone, Debug, PartialEq)]
pub enum ToolChoice {
    Options(ToolChoiceOptions),
    Types(ToolChoiceTypes),
    Function(ToolChoiceFunction),
}

impl Wire for ToolChoice {
    open spec fn json(&self) -> Json {
        match self {
            ToolChoice::Options(x) => x.json(),
            ToolChoice::Types(x) => x.json(),
            ToolChoice::Function(x) => x.json(),
        }
    }

    open spec fn parse(j: Json) -> Option<Json> {
        if ToolChoiceOptions::parse(j) is Some {
            ToolChoiceOptions::parse(j)
        } else if ToolChoiceTypes::parse(j) is Some {
            ToolChoiceTypes::parse(j)
        } else {
            ToolChoiceFunction::parse(j)
        }
    }

    fn to_json(&self) -> (r: JsonValue) {
        match self {
            ToolChoice::Options(x) => x.to_json(),
            ToolChoice::Types(x) => x.to_json(),
            ToolChoice::Function(x) => x.to_json(),
        }
    }

    fn from_json(j: &JsonValue) -> (r: Result<Self, OpenAIError>) {
        if let Ok(x) = ToolChoiceOptions::from_json(j) {
            return Ok(ToolChoice::Options(x));
        }
        if let Ok(x) = ToolChoiceTypes::from_json(j) {
            return Ok(ToolChoice::Types(x));
        }
        match ToolChoiceFunction::from_json(j) {
            Ok(x) => Ok(ToolChoice::Function(x)),
            Err(e) => Err(e),
        }
    }

    proof fn lemma_round_trip(&self) {
        reveal_strlit("function");
        reveal_strlit("file_search");
        reveal_strlit("computer_use_preview");
        reveal_strlit("web_search_preview");
        reveal_strlit("web_search_preview_2025_03_11");
        assert("computer_use_preview"@.len() == 20);
        assert("file_search"@.len() == 11);
        assert("function"@.len() == 8);
        assert("web_search_preview"@.len() == 18);
        assert("web_search_preview_2025_03_11"@.len() == 29);
        match self {
            ToolChoice::Options(x) => x.lemma_round_trip(),
            ToolChoice::Types(x) => x.lemma_round_trip(),
            ToolChoice::Function(x) => x.lemma_round_trip(),
        }
    }
}


} // verus!
