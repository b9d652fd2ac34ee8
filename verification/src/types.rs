//! Request and content types of the Gemini API.
//!
//! Floating-point request parameters are carried as their IEEE-754 bit
//! patterns (`f32::to_bits`), which represent every value exactly.

use vstd::prelude::*;

verus! {

/// The JSON value type of `serde_json`, carried opaquely.
#[verifier::external_type_specification]
#[verifier::external_body]
pub struct ExJsonValue(serde_json::Value);

/// `serde_json::Value::clone`, used by the derived `Clone` of the types that
/// hold JSON values. Nothing is stated of the copy.
pub assume_specification[<serde_json::Value as Clone>::clone](v: &serde_json::Value) -> serde_json::Value;

/// Binary data with a MIME type.
#[derive(Debug, Clone)]
pub struct Blob {
    /// MIME type of the data.
    pub mime_type: String,
    /// Base64-encoded data.
    pub data: String,
}

/// File data for multimedia content.
#[derive(Debug, Clone)]
pub struct FileData {
    /// File URI or identifier.
    pub uri: Option<String>,
    /// MIME type of the file.
    pub mime_type: Option<String>,
}

/// Offsets of a video segment.
#[derive(Debug, Clone)]
pub struct VideoMetadata {
    /// Start offset of the segment.
    pub start_offset: Option<String>,
    /// End offset of the segment.
    pub end_offset: Option<String>,
}

/// A function call made by the model.
#[derive(Debug, Clone)]
pub struct FunctionCall {
    /// Name of the function.
    pub name: String,
    /// Arguments of the call.
    pub args: serde_json::Value,
}

/// A response to a function call.
#[derive(Debug, Clone)]
pub struct FunctionResponse {
    /// Name of the function.
    pub name: String,
    /// The function's response data.
    pub response: serde_json::Value,
}

/// One part of a content item.
#[derive(Debug, Clone)]
pub struct Part {
    /// Text content.
    pub text: Option<String>,
    /// Inline data blob.
    pub inline_data: Option<Blob>,
    /// Function call made by the model.
    pub function_call: Option<FunctionCall>,
    /// Response to a function call.
    pub function_response: Option<FunctionResponse>,
    /// File data for multimedia content.
    pub file_data: Option<FileData>,
    /// Video metadata for video content.
    pub video_metadata: Option<VideoMetadata>,
    /// Whether this part is an internal thinking step.
    pub thought: Option<bool>,
}

/// Content in a conversation.
#[derive(Debug, Clone)]
pub struct Content {
    /// Parts that make up the content.
    pub parts: Vec<Part>,
    /// Role of the content creator.
    pub role: String,
}

/// A safety rating of generated content.
#[derive(Debug, Clone)]
pub struct SafetyRating {
    /// Harm category.
    pub category: String,
    /// Probability of harm.
    pub probability: String,
    /// Whether the content was blocked.
    pub blocked: Option<bool>,
}

/// A source cited by generated content.
#[derive(Debug, Clone)]
pub struct CitationSource {
    /// Start of the cited segment.
    pub start_index: Option<i32>,
    /// End of the cited segment.
    pub end_index: Option<i32>,
    /// URI of the source.
    pub uri: Option<String>,
    /// License of the source.
    pub license: Option<String>,
}

/// The sources cited by generated content.
#[derive(Debug, Clone)]
pub struct CitationMetadata {
    /// The sources.
    pub citation_sources: Vec<CitationSource>,
}

/// A generated answer.
#[derive(Debug, Clone)]
pub struct Candidate {
    /// The generated content.
    pub content: Content,
    /// Why generation stopped.
    pub finish_reason: Option<String>,
    /// Safety ratings.
    pub safety_ratings: Option<Vec<SafetyRating>>,
    /// Cited sources.
    pub citation_metadata: Option<CitationMetadata>,
    /// Tokens in the answer.
    pub token_count: Option<i32>,
    /// Position of the answer.
    pub index: Option<i32>,
}

/// System instruction with structured content.
#[derive(Debug, Clone)]
pub struct SystemInstruction {
    /// Role of the instruction.
    pub role: String,
    /// Parts holding the instruction.
    pub parts: Vec<Part>,
}

/// A safety setting for content generation.
#[derive(Debug, Clone)]
pub struct SafetySetting {
    /// Harm category.
    pub category: String,
    /// Blocking threshold.
    pub threshold: String,
}

/// Generation parameters. `temperature` and `top_p` are `f32` bit patterns.
#[derive(Debug, Clone)]
pub struct GenerationConfig {
    /// Sampling temperature, as `f32` bits.
    pub temperature: Option<u32>,
    /// Nucleus sampling probability, as `f32` bits.
    pub top_p: Option<u32>,
    /// Top-k sampling.
    pub top_k: Option<i32>,
    /// Number of candidates to generate.
    pub candidate_count: Option<i32>,
    /// Maximum output tokens.
    pub max_output_tokens: Option<i32>,
    /// Stop sequences.
    pub stop_sequences: Option<Vec<String>>,
}

/// A generation config with every parameter unset.
pub open spec fn empty_generation_config(g: GenerationConfig) -> bool {
    &&& g.temperature is None
    &&& g.top_p is None
    &&& g.top_k is None
    &&& g.candidate_count is None
    &&& g.max_output_tokens is None
    &&& g.stop_sequences is None
}

impl GenerationConfig {
    /// A generation config with every parameter unset.
    pub fn empty() -> (r: Self)
        ensures
            empty_generation_config(r),
    {
        GenerationConfig {
            temperature: None,
            top_p: None,
            top_k: None,
            candidate_count: None,
            max_output_tokens: None,
            stop_sequences: None,
        }
    }
}

/// Function calling configuration.
#[derive(Debug, Clone)]
pub struct FunctionCallingConfig {
    /// Calling mode.
    pub mode: Option<String>,
    /// Names of the functions the model may call.
    pub allowed_function_names: Option<Vec<String>>,
}

/// Code execution configuration.
#[derive(Debug, Clone)]
pub struct CodeExecutionConfig {
    /// Execution timeout in seconds.
    pub timeout: Option<i32>,
    /// Whether network access is enabled.
    pub enable_network: Option<bool>,
}

/// Code execution tool.
#[derive(Debug, Clone)]
pub struct CodeExecutionTool {
    /// Optional configuration of the tool.
    pub config: Option<CodeExecutionConfig>,
}

/// Tool configuration.
#[derive(Debug, Clone)]
pub struct ToolConfig {
    /// Function calling configuration.
    pub function_calling_config: Option<FunctionCallingConfig>,
    /// Code execution configuration.
    pub code_execution: Option<CodeExecutionConfig>,
}

/// A request to generate content.
#[derive(Debug, Clone)]
pub struct GenerateContentRequest {
    /// The conversation so far.
    pub contents: Vec<Content>,
    /// Generation parameters.
    pub generation_config: Option<GenerationConfig>,
    /// Safety settings.
    pub safety_settings: Option<Vec<SafetySetting>>,
    /// Tool configuration.
    pub tool_config: Option<ToolConfig>,
    /// System instruction.
    pub system_instruction: Option<SystemInstruction>,
    /// Name of cached content to use.
    pub cached_content: Option<String>,
}

/// A request with no contents and no options set.
pub open spec fn empty_request(r: GenerateContentRequest) -> bool {
    &&& r.contents@.len() == 0
    &&& r.generation_config is None
    &&& r.safety_settings is None
    &&& r.tool_config is None
    &&& r.system_instruction is None
    &&& r.cached_content is None
}

impl GenerateContentRequest {
    /// A request with no contents and no options set.
    pub fn empty() -> (r: Self)
        ensures
            empty_request(r),
    {
        GenerateContentRequest {
            contents: Vec::new(),
            generation_config: None,
            safety_settings: None,
            tool_config: None,
            system_instruction: None,
            cached_content: None,
        }
    }
}

/// A part that holds only the given text.
pub open spec fn is_text_part(p: Part, text: Seq<char>) -> bool {
    &&& p.text matches Some(t) && t@ == text
    &&& p.inline_data is None
    &&& p.function_call is None
    &&& p.function_response is None
    &&& p.file_data is None
    &&& p.video_metadata is None
    &&& p.thought is None
}

/// A user content item with a single text part.
pub open spec fn is_user_text(c: Content, text: Seq<char>) -> bool {
    &&& c.role@ == "user"@
    &&& c.parts@.len() == 1
    &&& is_text_part(c.parts@[0], text)
}

impl Content {
    /// A user content item holding one text part.
    pub fn user_text(text: &str) -> (r: Content)
        ensures
            is_user_text(r, text@),
    {
        let part = Part {
            text: Some(crate::text::owned(text)),
            inline_data: None,
            function_call: None,
            function_response: None,
            file_data: None,
            video_metadata: None,
            thought: None,
        };
        let mut parts = Vec::new();
        parts.push(part);
        proof { reveal_strlit("user"); }
        Content { parts, role: crate::text::owned("user") }
    }

    /// A model content item holding one text part.
    pub fn model_text(text: &str) -> (r: Content)
        ensures
            r.role@ == "model"@,
            r.parts@.len() == 1,
            is_text_part(r.parts@[0], text@),
    {
        let part = Part {
            text: Some(crate::text::owned(text)),
            inline_data: None,
            function_call: None,
            function_response: None,
            file_data: None,
            video_metadata: None,
            thought: None,
        };
        let mut parts = Vec::new();
        parts.push(part);
        proof { reveal_strlit("model"); }
        Content { parts, role: crate::text::owned("model") }
    }
}

/// A token counting request.
#[derive(Debug, Clone)]
pub struct CountTokensRequest {
    /// Contents to count.
    pub contents: Vec<Content>,
    /// A full generation request to count instead.
    pub generate_content_request: Option<GenerateContentRequest>,
}

/// A batch of token counting requests.
#[derive(Debug, Clone)]
pub struct BatchCountTokensRequest {
    /// The requests of the batch.
    pub requests: Vec<CountTokensRequest>,
}

/// A token analysis request.
#[derive(Debug, Clone)]
pub struct AnalyzeTokensRequest {
    /// Contents to analyse.
    pub contents: Vec<Content>,
}

/// One training example.
#[derive(Debug, Clone)]
pub struct TuningExample {
    /// Input text.
    pub text_input: Option<String>,
    /// Expected output.
    pub output: Option<String>,
}

/// A list of training examples.
#[derive(Debug, Clone)]
pub struct TuningExamples {
    /// The examples.
    pub examples: Vec<TuningExample>,
}

/// A training dataset.
#[derive(Debug, Clone)]
pub struct Dataset {
    /// Inline examples.
    pub examples: Option<TuningExamples>,
}

/// A request to list tuned models.
#[derive(Debug, Clone)]
pub struct ListTunedModelsRequest {
    /// Page size.
    pub page_size: Option<i32>,
    /// Page token.
    pub page_token: Option<String>,
    /// Filter expression.
    pub filter: Option<String>,
}

} // verus!
