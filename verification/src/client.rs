//! Client handles: the client settings, the models API and model handles.
//!
//! The HTTP transport is outside the library; here are the parts of each
//! operation that compute: URLs, argument checks and error enrichment.

use vstd::prelude::*;
use vstd::string::*;
use crate::error::Error;
use crate::text::{blank, has_substring, is_blank, contains_substring, owned, concat2, concat3, concat5};
use crate::validation::has_content;

verus! {

/// Connection settings of a Gemini client.
#[derive(Debug)]
pub struct Client {
    /// API key sent with every request.
    pub api_key: String,
    /// Base URL of the API.
    pub base_url: String,
}

impl Client {
    /// A client with the given key and base URL.
    pub fn new(api_key: String, base_url: String) -> (r: Client)
        ensures
            r.api_key@ == api_key@,
            r.base_url@ == base_url@,
    {
        Client { api_key, base_url }
    }

    /// A copy of the client's settings.
    pub fn duplicate(&self) -> (r: Client)
        ensures
            r.api_key@ == self.api_key@,
            r.base_url@ == self.base_url@,
    {
        Client { api_key: self.api_key.clone(), base_url: self.base_url.clone() }
    }

    /// The models API of this client.
    pub fn models(&self) -> (r: ModelsApi<'_>)
        ensures
            r.client == self,
    {
        ModelsApi { client: self }
    }
}

/// Access to model discovery.
#[derive(Debug)]
pub struct ModelsApi<'a> {
    /// The client the API belongs to.
    pub client: &'a Client,
}

/// A handle bound to one model.
#[derive(Debug)]
pub struct ModelApi<'a> {
    /// The client the handle belongs to.
    pub client: &'a Client,
    /// The model identifier.
    pub model_id: String,
}

/// The model identifier without a leading `models/`.
pub open spec fn strip_models_prefix(id: Seq<char>) -> Seq<char> {
    if id.len() >= 7 && id.subrange(0, 7) == "models/"@ {
        id.subrange(7, id.len() as int)
    } else {
        id
    }
}

/// The URL of `method` on model `model_id` at `base_url`; the identifier
/// may be given with or without a leading `models/`.
pub open spec fn model_method_url(base_url: Seq<char>, model_id: Seq<char>, method: Seq<char>) -> Seq<char> {
    base_url + "/v1beta/models/"@ + strip_models_prefix(model_id) + ":"@ + method
}

/// The message of a token counting request without contents.
pub open spec fn empty_count_contents_message() -> Seq<char> {
    "Count tokens request cannot have empty contents. Please provide at least one content item."@
}

/// Whether some part holds text that is not blank.
pub open spec fn has_text_part(parts: Seq<crate::types::Part>) -> bool {
    exists|j: int| 0 <= j < parts.len() && has_content(#[trigger] parts[j].text)
}

/// Removes a leading `models/` from a model identifier.
pub fn clean_model_id(model_id: &str) -> (r: String)
    ensures
        r@ == strip_models_prefix(model_id@),
{
    proof { reveal_strlit("models/"); }
    let n = model_id.unicode_len();
    if n >= 7 {
        let head = model_id.substring_char(0, 7);
        if contains_substring(head, "models/") {
            proof {
                let i = choose|i: int| 0 <= i && i + 7 <= head@.len() && #[trigger] head@.subrange(i, i + 7) == "models/"@;
                assert(i == 0);
                assert(head@.subrange(0, 7) =~= head@);
            }
            return owned(model_id.substring_char(7, n));
        } else {
            proof {
                assert("models/"@.len() == 7);
                assert(head@.subrange(0int, 0int + "models/"@.len()) != "models/"@);
                assert(head@.subrange(0, 7) =~= head@);
                assert(model_id@.subrange(0, 7) == head@);
            }
        }
    }
    owned(model_id)
}

/// The message of `InvalidArgument` for an empty model identifier in `get`.
pub open spec fn empty_model_id_message() -> Seq<char> {
    "Model ID cannot be empty. Please provide a valid model identifier."@
}

/// The message of the enriched `list` error.
pub open spec fn enhanced_list_message(e: Error) -> Seq<char> {
    match e {
        Error::NetworkError(m) =>
            "Failed to retrieve model list : "@ + m@ + ". Please check your internet connection and try again."@,
        Error::AuthenticationError(m) =>
            "Authentication failed while listing models : "@ + m@ + ". Please verify your API key."@,
        Error::ServerError(m) => "Gemini API server error while listing models : "@ + m@,
        other => crate::error::error_message(other),
    }
}

/// Whether a server error message reports a missing resource.
pub open spec fn reports_not_found(m: Seq<char>) -> bool {
    has_substring(m, "404"@) || has_substring(m, "not found"@)
}

/// The variant and message that `get` reports for model `id` after enrichment.
pub open spec fn enhanced_get_error(id: Seq<char>, e: Error) -> (u8, Seq<char>) {
    match e {
        Error::NetworkError(m) =>
            (0, "Failed to retrieve model '"@ + id + "': "@ + m@ + ". Please check your internet connection."@),
        Error::AuthenticationError(m) =>
            (1, "Authentication failed for model '"@ + id + "': "@ + m@ + ". Please verify your API key."@),
        Error::ServerError(m) => if reports_not_found(m@) {
            (2, "Model '"@ + id + "' not found. Please check the model ID and try again. Use models().list() to see available models."@)
        } else {
            (3, "Gemini API server error for model '"@ + id + "': "@ + m@)
        },
        other => (4, crate::error::error_message(other)),
    }
}

/// The variant code of an error as reported by the enrichment functions:
/// 0 network, 1 authentication, 2 invalid argument, 3 server, 4 unchanged.
pub open spec fn variant_code(e: Error, original: Error) -> u8 {
    match e {
        Error::NetworkError(_) => 0,
        Error::AuthenticationError(_) => 1,
        Error::InvalidArgument(_) => if original is InvalidArgument { 4 } else { 2 },
        Error::ServerError(_) => 3,
        _ => 4,
    }
}

impl<'a> ModelsApi<'a> {
    /// A handle for the model named `model_id`.
    pub fn by_name(&self, model_id: &str) -> (r: ModelApi<'a>)
        ensures
            r.client == self.client,
            r.model_id@ == model_id@,
    {
        ModelApi { client: self.client, model_id: owned(model_id) }
    }

    /// The URL that lists all models.
    pub fn list_url(&self) -> (r: String)
        ensures
            r@ == self.client.base_url@ + "/v1beta/models"@,
    {
        concat2(self.client.base_url.as_str(), "/v1beta/models")
    }

    /// The URL that describes one model, after removing a `models/` prefix;
    /// an identifier that is empty after that is refused.
    pub fn get_url(&self, model_id: &str) -> (r: Result<String, Error>)
        ensures
            strip_models_prefix(model_id@).len() == 0 <==> r is Err,
            r matches Err(e) ==> (e matches Error::InvalidArgument(m) && m@ == empty_model_id_message()),
            r matches Ok(u) ==> u@ == self.client.base_url@ + "/v1beta/models/"@ + strip_models_prefix(model_id@),
    {
        let clean = clean_model_id(model_id);
        if clean.as_str().unicode_len() == 0 {
            proof { reveal_strlit("Model ID cannot be empty. Please provide a valid model identifier."); }
            return Err(Error::InvalidArgument(owned("Model ID cannot be empty. Please provide a valid model identifier.")));
        }
        Ok(concat3(self.client.base_url.as_str(), "/v1beta/models/", clean.as_str()))
    }

    /// Adds context to an error of the list operation.
    pub fn enhance_list_error(error: Error) -> (r: Error)
        ensures
            variant_code(r, error) == variant_code(error, error),
            crate::error::error_message(r) == enhanced_list_message(error),
            !(error is NetworkError || error is AuthenticationError || error is ServerError) ==> r == error,
    {
        proof {
            reveal_strlit("Failed to retrieve model list : ");
            reveal_strlit(". Please check your internet connection and try again.");
            reveal_strlit("Authentication failed while listing models : ");
            reveal_strlit(". Please verify your API key.");
            reveal_strlit("Gemini API server error while listing models : ");
        }
        match error {
            Error::NetworkError(msg) => Error::NetworkError(concat3(
                "Failed to retrieve model list : ",
                msg.as_str(),
                ". Please check your internet connection and try again.",
            )),
            Error::AuthenticationError(msg) => Error::AuthenticationError(concat3(
                "Authentication failed while listing models : ",
                msg.as_str(),
                ". Please verify your API key.",
            )),
            Error::ServerError(msg) => Error::ServerError(concat2("Gemini API server error while listing models : ", msg.as_str())),
            other => other,
        }
    }

    /// Adds model-specific context to an error of the get operation; a
    /// server error that mentions `404` or `not found` becomes an invalid
    /// argument.
    pub fn enhance_get_error(model_id: &str, error: Error) -> (r: Error)
        ensures
            variant_code(r, error) == enhanced_get_error(model_id@, error).0,
            crate::error::error_message(r) == enhanced_get_error(model_id@, error).1,
            !(error is NetworkError || error is AuthenticationError || error is ServerError) ==> r == error,
    {
        proof {
            reveal_strlit("Failed to retrieve model '");
            reveal_strlit("': ");
            reveal_strlit(". Please check your internet connection.");
            reveal_strlit("Authentication failed for model '");
            reveal_strlit(". Please verify your API key.");
            reveal_strlit("Model '");
            reveal_strlit("' not found. Please check the model ID and try again. Use models().list() to see available models.");
            reveal_strlit("Gemini API server error for model '");
            reveal_strlit("404");
            reveal_strlit("not found");
        }
        match error {
            Error::NetworkError(msg) => Error::NetworkError(concat5(
                "Failed to retrieve model '",
                model_id,
                "': ",
                msg.as_str(),
                ". Please check your internet connection.",
            )),
            Error::AuthenticationError(msg) => Error::AuthenticationError(concat5(
                "Authentication failed for model '",
                model_id,
                "': ",
                msg.as_str(),
                ". Please verify your API key.",
            )),
            Error::ServerError(msg) => {
                if contains_substring(msg.as_str(), "404") || contains_substring(msg.as_str(), "not found") {
                    Error::InvalidArgument(concat3(
                        "Model '",
                        model_id,
                        "' not found. Please check the model ID and try again. Use models().list() to see available models.",
                    ))
                } else {
                    let s = concat3("Gemini API server error for model '", model_id, "': ");
                    Error::ServerError(s.concat(msg.as_str()))
                }
            },
            other => other,
        }
    }
}

/// The message of `InvalidArgument` for a blank model identifier.
pub open spec fn blank_model_id_message() -> Seq<char> {
    "Model ID cannot be empty. Pass a valid model name such as \"gemini-2.5-flash\" or \"models/gemini-embedding-001\" to by_name()."@
}

/// The message of `InvalidArgument` for a request without contents.
pub open spec fn empty_contents_message() -> Seq<char> {
    "Generate content request cannot have empty contents. Please provide at least one content item."@
}

/// The variant and message that a model operation `op` reports after enrichment.
pub open spec fn enhanced_operation_error(id: Seq<char>, op: Seq<char>, e: Error) -> (u8, Seq<char>) {
    match e {
        Error::NetworkError(m) =>
            (0, "Failed to "@ + op + " for model '"@ + id + "': "@ + m@ + ". Please check your internet connection."@),
        Error::AuthenticationError(m) =>
            (1, "Authentication failed while trying to "@ + op + " for model '"@ + id + "': "@ + m@ + ". Please verify your API key."@),
        Error::ServerError(m) => if reports_not_found(m@) {
            (2, "Model '"@ + id + "' not found while trying to "@ + op + ". Please check the model ID."@)
        } else {
            (3, "Gemini API server error for model '"@ + id + "' while trying to "@ + op + ": "@ + m@)
        },
        other => (4, crate::error::error_message(other)),
    }
}

impl<'a> ModelApi<'a> {
    /// The model identifier of this handle.
    pub fn model_id(&self) -> (r: &str)
        ensures
            r@ == self.model_id@,
    {
        self.model_id.as_str()
    }

    /// Refuses a model identifier that is empty or white space only.
    pub fn validate_model_id(&self) -> (r: Result<(), Error>)
        ensures
            r is Ok <==> !blank(self.model_id@),
            r matches Err(e) ==> (e matches Error::InvalidArgument(m) && m@ == blank_model_id_message()),
    {
        if is_blank(self.model_id.as_str()) {
            proof {
                reveal_strlit("Model ID cannot be empty. Pass a valid model name such as \"gemini-2.5-flash\" or \"models/gemini-embedding-001\" to by_name().");
            }
            return Err(Error::InvalidArgument(owned(
                "Model ID cannot be empty. Pass a valid model name such as \"gemini-2.5-flash\" or \"models/gemini-embedding-001\" to by_name().",
            )));
        }
        Ok(())
    }

    /// Refuses a generation request without contents.
    pub fn validate_generate_content_request(request: &crate::types::GenerateContentRequest) -> (r: Result<(), Error>)
        ensures
            r is Ok <==> request.contents@.len() > 0,
            r matches Err(e) ==> (e matches Error::InvalidArgument(m) && m@ == empty_contents_message()),
    {
        if request.contents.len() == 0 {
            proof {
                reveal_strlit("Generate content request cannot have empty contents. Please provide at least one content item.");
            }
            return Err(Error::InvalidArgument(owned(
                "Generate content request cannot have empty contents. Please provide at least one content item.",
            )));
        }
        Ok(())
    }

    /// Adds model-specific context to an error of operation `operation`; a
    /// server error that mentions `404` or `not found` becomes an invalid
    /// argument.
    pub fn enhance_model_operation_error(&self, operation: &str, error: Error) -> (r: Error)
        ensures
            variant_code(r, error) == enhanced_operation_error(self.model_id@, operation@, error).0,
            crate::error::error_message(r) == enhanced_operation_error(self.model_id@, operation@, error).1,
            !(error is NetworkError || error is AuthenticationError || error is ServerError) ==> r == error,
    {
        proof {
            reveal_strlit("Failed to ");
            reveal_strlit(" for model '");
            reveal_strlit("': ");
            reveal_strlit(". Please check your internet connection.");
            reveal_strlit("Authentication failed while trying to ");
            reveal_strlit(". Please verify your API key.");
            reveal_strlit("Model '");
            reveal_strlit("' not found while trying to ");
            reveal_strlit(". Please check the model ID.");
            reveal_strlit("Gemini API server error for model '");
            reveal_strlit("' while trying to ");
            reveal_strlit(": ");
            reveal_strlit("404");
            reveal_strlit("not found");
        }
        let id = self.model_id.as_str();
        match error {
            Error::NetworkError(msg) => {
                let s = concat5("Failed to ", operation, " for model '", id, "': ");
                Error::NetworkError(concat3(s.as_str(), msg.as_str(), ". Please check your internet connection."))
            },
            Error::AuthenticationError(msg) => {
                let s = concat5("Authentication failed while trying to ", operation, " for model '", id, "': ");
                Error::AuthenticationError(concat3(s.as_str(), msg.as_str(), ". Please verify your API key."))
            },
            Error::ServerError(msg) => {
                if contains_substring(msg.as_str(), "404") || contains_substring(msg.as_str(), "not found") {
                    Error::InvalidArgument(concat5("Model '", id, "' not found while trying to ", operation, ". Please check the model ID."))
                } else {
                    let s = concat5("Gemini API server error for model '", id, "' while trying to ", operation, ": ");
                    Error::ServerError(s.concat(msg.as_str()))
                }
            },
            other => other,
        }
    }
}


/// The message of a refused streaming request with HTTP status `code`
/// (printed as `status`) and response body `details`.
pub open spec fn streaming_failure_message(code: u16, status: Seq<char>, details: Seq<char>) -> Seq<char> {
    if code == 429 {
        "Rate limit exceeded for streaming requests. Please reduce request frequency. Details : "@ + details
    } else if 500 <= code <= 599 {
        "Server error during streaming request ("@ + status + "). This may be temporary - please retry. Details : "@ + details
    } else if code == 401 {
        "Authentication failed for streaming request. Please check your API key. Details : "@ + details
    } else if code == 403 {
        "Streaming requests not authorized for your API key. Please check permissions. Details : "@ + details
    } else {
        "Streaming request failed with HTTP "@ + status + ". Details : "@ + details
    }
}

impl<'a> ModelApi<'a> {
    /// The URL of `method` on this model: the API's model path, with the
    /// identifier given with or without a leading `models/`.
    fn method_url(&self, method: &str) -> (r: String)
        ensures
            r@ == model_method_url(self.client.base_url@, self.model_id@, method@),
    {
        proof { reveal_strlit("/v1beta/models/"); reveal_strlit(":"); }
        let clean = clean_model_id(self.model_id.as_str());
        let head = concat3(self.client.base_url.as_str(), "/v1beta/models/", clean.as_str());
        concat3(head.as_str(), ":", method)
    }

    /// The URL of streaming generation for this model.
    pub fn streaming_url(&self) -> (r: String)
        ensures
            r@ == model_method_url(self.client.base_url@, self.model_id@, "streamGenerateContent"@),
    {
        self.method_url("streamGenerateContent")
    }

    /// The URL of content generation for this model.
    pub fn generate_content_url(&self) -> (r: String)
        ensures
            r@ == model_method_url(self.client.base_url@, self.model_id@, "generateContent"@),
    {
        self.method_url("generateContent")
    }

    /// The URL of token counting for this model.
    pub fn count_tokens_url(&self) -> (r: String)
        ensures
            r@ == model_method_url(self.client.base_url@, self.model_id@, "countTokens"@),
    {
        self.method_url("countTokens")
    }

    /// The URL of embedding one content with this model.
    pub fn embed_content_url(&self) -> (r: String)
        ensures
            r@ == model_method_url(self.client.base_url@, self.model_id@, "embedContent"@),
    {
        self.method_url("embedContent")
    }

    /// The URL of embedding a batch of contents with this model.
    pub fn batch_embed_contents_url(&self) -> (r: String)
        ensures
            r@ == model_method_url(self.client.base_url@, self.model_id@, "batchEmbedContents"@),
    {
        self.method_url("batchEmbedContents")
    }

    /// Checks a token counting request and gives the URL to send it to: a
    /// request without contents is refused.
    pub fn prepare_count_tokens(&self, request: &crate::types::CountTokensRequest) -> (r: Result<String, Error>)
        ensures
            r is Ok <==> request.contents@.len() > 0,
            r matches Err(e) ==> (e matches Error::InvalidArgument(m) && m@ == empty_count_contents_message()),
            r matches Ok(u) ==> u@ == model_method_url(self.client.base_url@, self.model_id@, "countTokens"@),
    {
        if request.contents.len() == 0 {
            proof {
                reveal_strlit("Count tokens request cannot have empty contents. Please provide at least one content item.");
            }
            return Err(Error::InvalidArgument(owned(
                "Count tokens request cannot have empty contents. Please provide at least one content item.",
            )));
        }
        Ok(self.count_tokens_url())
    }

    /// Checks the content of an embedding request and gives the URL to send
    /// it to: the content needs parts, and a text part that is not blank.
    pub fn prepare_embed_content(&self, content: &crate::types::Content) -> (r: Result<String, Error>)
        ensures
            content.parts@.len() == 0 ==> (r matches Err(e) && (e matches Error::InvalidArgument(m)
                && m@ == "Embed content request cannot have empty content parts. Please provide text to embed."@)),
            content.parts@.len() > 0 && !has_text_part(content.parts@) ==> (r matches Err(e) && (e matches Error::InvalidArgument(m)
                && m@ == "Embed content request must contain at least one text part with non-empty content."@)),
            has_text_part(content.parts@) ==> (r matches Ok(u)
                && u@ == model_method_url(self.client.base_url@, self.model_id@, "embedContent"@)),
    {
        proof {
            reveal_strlit("Embed content request cannot have empty content parts. Please provide text to embed.");
            reveal_strlit("Embed content request must contain at least one text part with non-empty content.");
        }
        if content.parts.len() == 0 {
            return Err(Error::InvalidArgument(owned(
                "Embed content request cannot have empty content parts. Please provide text to embed.",
            )));
        }
        let mut i: usize = 0;
        while i < content.parts.len()
            invariant
                i <= content.parts@.len(),
                forall|j: int| 0 <= j < i ==> !has_content((#[trigger] content.parts@[j]).text),
            decreases content.parts@.len() - i,
        {
            let found = match &content.parts[i].text {
                Some(t) => !is_blank(t.as_str()),
                None => false,
            };
            if found {
                return Ok(self.embed_content_url());
            }
            i = i + 1;
        }
        Err(Error::InvalidArgument(owned(
            "Embed content request must contain at least one text part with non-empty content.",
        )))
    }

    /// The error of a generation answer without text.
    pub fn no_text_error(&self) -> (r: Error)
        ensures
            r matches Error::ApiError(m) && m@ == "No text content returned from model '"@ + self.model_id@
                + "'. The model may have been blocked by safety filters or returned an unexpected response format."@,
    {
        proof {
            reveal_strlit("No text content returned from model '");
            reveal_strlit("'. The model may have been blocked by safety filters or returned an unexpected response format.");
        }
        Error::ApiError(concat3(
            "No text content returned from model '",
            self.model_id.as_str(),
            "'. The model may have been blocked by safety filters or returned an unexpected response format.",
        ))
    }

    /// The error of a conversation answer without text.
    pub fn no_conversation_text_error(&self) -> (r: Error)
        ensures
            r matches Error::ApiError(m) && m@ == "No text content returned from model '"@ + self.model_id@
                + "' during conversation."@,
    {
        proof {
            reveal_strlit("No text content returned from model '");
            reveal_strlit("' during conversation.");
        }
        Error::ApiError(concat3("No text content returned from model '", self.model_id.as_str(), "' during conversation."))
    }

    /// The error of an embedding answer without values.
    pub fn no_embedding_error(&self) -> (r: Error)
        ensures
            r matches Error::ApiError(m) && m@ == "No embedding values returned from model '"@ + self.model_id@
                + "'. The request may have been invalid or the model may not support embeddings."@,
    {
        proof {
            reveal_strlit("No embedding values returned from model '");
            reveal_strlit("'. The request may have been invalid or the model may not support embeddings.");
        }
        Error::ApiError(concat3(
            "No embedding values returned from model '",
            self.model_id.as_str(),
            "'. The request may have been invalid or the model may not support embeddings.",
        ))
    }

    /// Checks a generation request and gives the URL to send it to: a
    /// request without contents is refused.
    pub fn prepare_generate_content(&self, request: &crate::types::GenerateContentRequest) -> (r: Result<String, Error>)
        ensures
            r is Ok <==> request.contents@.len() > 0,
            r matches Err(e) ==> (e matches Error::InvalidArgument(m) && m@ == empty_contents_message()),
            r matches Ok(u) ==> u@ == model_method_url(self.client.base_url@, self.model_id@, "generateContent"@),
    {
        match Self::validate_generate_content_request(request) {
            Err(e) => Err(e),
            Ok(()) => Ok(self.generate_content_url()),
        }
    }

    /// The error of a streaming request that the server refused with HTTP
    /// status `status_code` (printed as `status`) and body `error_text`.
    pub fn streaming_failure(status_code: u16, status: &str, error_text: &str) -> (r: Error)
        ensures
            r matches Error::ApiError(m) && m@ == streaming_failure_message(status_code, status@, error_text@),
    {
        proof {
            reveal_strlit("Rate limit exceeded for streaming requests. Please reduce request frequency. Details : ");
            reveal_strlit("Server error during streaming request (");
            reveal_strlit("). This may be temporary - please retry. Details : ");
            reveal_strlit("Authentication failed for streaming request. Please check your API key. Details : ");
            reveal_strlit("Streaming requests not authorized for your API key. Please check permissions. Details : ");
            reveal_strlit("Streaming request failed with HTTP ");
            reveal_strlit(". Details : ");
        }
        let m = if status_code == 429 {
            concat2("Rate limit exceeded for streaming requests. Please reduce request frequency. Details : ", error_text)
        } else if status_code >= 500 && status_code <= 599 {
            concat3("Server error during streaming request (", status, "). This may be temporary - please retry. Details : ")
                .concat(error_text)
        } else if status_code == 401 {
            concat2("Authentication failed for streaming request. Please check your API key. Details : ", error_text)
        } else if status_code == 403 {
            concat2("Streaming requests not authorized for your API key. Please check permissions. Details : ", error_text)
        } else {
            concat3("Streaming request failed with HTTP ", status, ". Details : ").concat(error_text)
        };
        Error::ApiError(m)
    }
}


/// The message of a similarity refused because the embeddings differ in
/// length.
pub open spec fn dimension_mismatch_message(len1: nat, len2: nat) -> Seq<char> {
    "Embedding dimensions must match : "@ + crate::text::decimal(len1) + " vs "@ + crate::text::decimal(len2)
}

impl<'a> ModelApi<'a> {
    /// Whether two embeddings of `len1` and `len2` numbers can be compared:
    /// their lengths must match, and they must not be empty.
    pub fn check_similarity_dimensions(len1: u64, len2: u64) -> (r: Result<(), Error>)
        ensures
            len1 != len2 ==> (r matches Err(Error::InvalidArgument(m)) && m@ == dimension_mismatch_message(len1 as nat, len2 as nat)),
            len1 == len2 && len1 == 0 ==> (r matches Err(Error::InvalidArgument(m)) && m@ == "Cannot compute similarity for empty embeddings"@),
            len1 == len2 && len1 > 0 ==> r is Ok,
    {
        if len1 != len2 {
            proof {
                reveal_strlit("Embedding dimensions must match : ");
                reveal_strlit(" vs ");
            }
            let a = crate::text::u64_to_decimal(len1);
            let b = crate::text::u64_to_decimal(len2);
            return Err(Error::InvalidArgument(concat3("Embedding dimensions must match : ", a.as_str(), " vs ").concat(b.as_str())));
        }
        if len1 == 0 {
            proof { reveal_strlit("Cannot compute similarity for empty embeddings"); }
            return Err(Error::InvalidArgument(owned("Cannot compute similarity for empty embeddings")));
        }
        Ok(())
    }
}

/// The message of a refused HTTP request: the status and the body.
pub open spec fn http_failure_message(status_code: u16, body: Seq<char>) -> Seq<char> {
    "HTTP "@ + crate::text::decimal(status_code as nat) + ": "@ + body
}

/// The error of an HTTP request that the server refused with
/// `status_code`: 401 and 403 are authentication errors, 429 a rate limit,
/// 5xx a server error and any other status an API error, each carrying the
/// status and the body `body`.
pub fn http_failure(status_code: u16, body: &str) -> (r: Error)
    ensures
        (status_code == 401 || status_code == 403)
            ==> (r matches Error::AuthenticationError(m) && m@ == http_failure_message(status_code, body@)),
        status_code == 429 ==> (r matches Error::RateLimitError(m) && m@ == http_failure_message(status_code, body@)),
        500 <= status_code <= 599 ==> (r matches Error::ServerError(m) && m@ == http_failure_message(status_code, body@)),
        !(status_code == 401 || status_code == 403 || status_code == 429 || 500 <= status_code <= 599)
            ==> (r matches Error::ApiError(m) && m@ == http_failure_message(status_code, body@)),
{
    proof { reveal_strlit("HTTP "); reveal_strlit(": "); }
    let code = crate::text::u64_to_decimal(status_code as u64);
    let head = concat3("HTTP ", code.as_str(), ": ");
    let m = concat2(head.as_str(), body);
    if status_code == 401 || status_code == 403 {
        Error::AuthenticationError(m)
    } else if status_code == 429 {
        Error::RateLimitError(m)
    } else if 500 <= status_code && status_code <= 599 {
        Error::ServerError(m)
    } else {
        Error::ApiError(m)
    }
}

} // verus!
