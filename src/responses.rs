//! Creating a model response with one call of a transport.
use vstd::prelude::*;

use crate::error::OpenAIError;
use crate::json::JsonValue;
use crate::request::CreateResponse;
use crate::response::Response;
use crate::wire::Wire;

verus! {

/// What a call returns for a reply of the transport: its error unchanged, or
/// the response that the reply document reads as, or a schema mismatch.
pub open spec fn reply_outcome(
    reply: Result<JsonValue, OpenAIError>,
    r: Result<Response, OpenAIError>,
) -> bool {
    match reply {
        Err(e) => r == Err::<Response, OpenAIError>(e),
        Ok(j) => match Response::parse(j@) {
            Some(c) => r is Ok && r->Ok_0.json() == c,
            None => r is Err && r->Err_0 is SchemaMismatch,
        },
    }
}

/// The endpoint of model responses. A call goes through a transport that the
/// caller hands in: a function from a path and a request document to the
/// reply document, or to the transport's error.
pub struct Responses {
    /// The path that requests are posted to.
    pub path: String,
}

impl Responses {
    pub fn new() -> (r: Self)
        ensures
            r.path@ == "/responses"@,
    {
        Responses { path: "/responses".to_owned() }
    }

    /// The document to post for `request`. A streamed request needs another
    /// transport mode and is refused before anything is sent.
    pub fn request_body(request: &CreateResponse) -> (r: Result<JsonValue, OpenAIError>)
        ensures
            request.stream == Some(true) ==> r is Err && r->Err_0 is InvalidArgument,
            request.stream != Some(true) ==> r is Ok && r->Ok_0@ == request.json(),
    {
        if let Some(true) = request.stream {
            return Err(
                OpenAIError::InvalidArgument(
                    "a streamed request cannot be made with a single call".to_owned(),
                ),
            );
        }
        Ok(request.to_json())
    }

    /// The response that the transport's reply stands for.
    pub fn read_reply(reply: Result<JsonValue, OpenAIError>) -> (r: Result<Response, OpenAIError>)
        ensures
            reply_outcome(reply, r),
    {
        match reply {
            Err(e) => Err(e),
            Ok(j) => Response::from_json(&j),
        }
    }

    /// Creates a model response: posts the request document once and reads
    /// the reply. A streamed request is refused and `post` is not called.
    pub fn create<F>(&self, request: CreateResponse, post: F) -> (r: Result<Response, OpenAIError>)
        where
        F: FnOnce(String, JsonValue) -> Result<JsonValue, OpenAIError>,

        requires
            request.stream != Some(true) ==> forall|p: String, b: JsonValue| post.requires((p, b)),
        ensures
            request.stream == Some(true) ==> r is Err && r->Err_0 is InvalidArgument,
            request.stream != Some(true) ==> exists|
                b: JsonValue,
                reply: Result<JsonValue, OpenAIError>,
            |
                #[trigger] post.ensures((self.path, b), reply) && b@ == request.json()
                    && reply_outcome(reply, r),
    {
        let body = match Responses::request_body(&request) {
            Ok(b) => b,
            Err(e) => return Err(e),
        };
        let ghost b = body;
        let reply = post(self.path.clone(), body);
        let r = Responses::read_reply(reply);
        assert(post.ensures((self.path, b), reply));
        r
    }

    /// Posts a document as it is and returns the reply as it is, for members
    /// that the typed request and response do not model. Nothing is checked:
    /// a streamed request is the caller's to avoid.
    pub fn create_raw<F>(&self, body: JsonValue, post: F) -> (r: Result<JsonValue, OpenAIError>)
        where
        F: FnOnce(String, JsonValue) -> Result<JsonValue, OpenAIError>,

        requires
            post.requires((self.path, body)),
        ensures
            post.ensures((self.path, body), r),
    {
        post(self.path.clone(), body)
    }
}

} // verus!
