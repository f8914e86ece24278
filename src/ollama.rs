//! The values exchanged with the text-generation backend, and the addresses
//! and outcomes of its two calls.
use vstd::prelude::*;
use vstd::string::*;

verus! {

/// The body of a generation request.
pub struct OllamaGenerateRequest {
    pub model: String,
    pub prompt: String,
    /// Left out of the body when `None`.
    pub stream: Option<bool>,
}

/// The part of a generation response that is read.
pub struct OllamaGenerateResponse {
    pub response: String,
}

/// Where the backend is and which model it runs.
pub struct OllamaClient {
    base_url: String,
    model: String,
}

pub open spec fn api_error_of(status: Seq<char>, body: Seq<char>) -> Seq<char> {
    "Ollama API error: "@ + status + " - "@ + body
}

impl OllamaClient {
    pub closed spec fn base_url_view(&self) -> Seq<char> {
        self.base_url@
    }

    pub closed spec fn model_view(&self) -> Seq<char> {
        self.model@
    }

    pub fn new(base_url: String, model: String) -> (r: Self)
        ensures
            r.base_url_view() == base_url@,
            r.model_view() == model@,
    {
        OllamaClient { base_url, model }
    }

    pub fn base_url(&self) -> (r: &str)
        ensures
            r@ == self.base_url_view(),
    {
        self.base_url.as_str()
    }

    pub fn model(&self) -> (r: &str)
        ensures
            r@ == self.model_view(),
    {
        self.model.as_str()
    }

    /// The address of the health check: `<base>/api/tags`.
    pub fn tags_url(&self) -> (r: String)
        ensures
            r@ == self.base_url_view() + "/api/tags"@,
    {
        self.base_url.clone().concat("/api/tags")
    }

    /// The address of a generation request: `<base>/api/generate`.
    pub fn generate_url(&self) -> (r: String)
        ensures
            r@ == self.base_url_view() + "/api/generate"@,
    {
        self.base_url.clone().concat("/api/generate")
    }

    /// The body that asks the client's model for a whole, unstreamed answer
    /// to `prompt`.
    pub fn generate_request(&self, prompt: &str) -> (r: OllamaGenerateRequest)
        ensures
            r.model@ == self.model_view(),
            r.prompt@ == prompt@,
            r.stream == Some(false),
    {
        OllamaGenerateRequest {
            model: self.model.clone(),
            prompt: String::from_str(prompt),
            stream: Some(false),
        }
    }
}

/// The error reported for a backend answer with a failing status.
pub fn api_error(status: &str, body: &str) -> (r: String)
    ensures
        r@ == api_error_of(status@, body@),
{
    let mut r = String::from_str("Ollama API error: ");
    r.append(status);
    r.append(" - ");
    r.append(body);
    r
}

/// The outcome of a backend call from its status: success when the status
/// says so, otherwise the error built from the status text and the body.
pub fn check_status(success: bool, status: &str, body: &str) -> (r: Result<(), String>)
    ensures
        success <==> r is Ok,
        r matches Err(m) ==> m@ == api_error_of(status@, body@),
{
    if success {
        Ok(())
    } else {
        Err(api_error(status, body))
    }
}

/// The answer text of a generation response.
pub fn response_text(r: OllamaGenerateResponse) -> (t: String)
    ensures
        t@ == r.response@,
{
    r.response
}

} // verus!
