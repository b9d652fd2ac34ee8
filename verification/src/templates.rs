//! Request templates for common use cases.
//!
//! Temperatures and nucleus probabilities are `f32` bit patterns; the named
//! constants give the bit patterns of the decimal values in their names.

use vstd::prelude::*;
use crate::types::{Content, GenerateContentRequest, GenerationConfig, SafetySetting, is_user_text};

verus! {

/// `0.9_f32` as bits.
pub const F32_0_9: u32 = 0x3f666666;
/// `0.2_f32` as bits.
pub const F32_0_2: u32 = 0x3e4ccccd;
/// `1.2_f32` as bits.
pub const F32_1_2: u32 = 0x3f99999a;
/// `0.95_f32` as bits.
pub const F32_0_95: u32 = 0x3f733333;
/// `0.1_f32` as bits.
pub const F32_0_1: u32 = 0x3dcccccd;
/// `0.8_f32` as bits.
pub const F32_0_8: u32 = 0x3f4ccccd;
/// `0.3_f32` as bits.
pub const F32_0_3: u32 = 0x3e99999a;

/// A reusable request configuration.
#[derive(Debug, Clone)]
pub struct RequestTemplate {
    /// The base request.
    pub request: GenerateContentRequest,
}

/// The generation parameters of a template: temperature and top-p bits,
/// top-k and the output token limit; every other parameter unset.
pub open spec fn has_generation(
    r: GenerateContentRequest,
    temperature: Option<u32>,
    top_p: Option<u32>,
    top_k: Option<i32>,
    max_tokens: Option<i32>,
) -> bool {
    &&& r.generation_config matches Some(g) && {
        &&& g.temperature == temperature
        &&& g.top_p == top_p
        &&& g.top_k == top_k
        &&& g.max_output_tokens == max_tokens
        &&& g.candidate_count is None
        &&& g.stop_sequences is None
    }
    &&& r.contents@.len() == 0
    &&& r.safety_settings is None
    &&& r.tool_config is None
    &&& r.system_instruction is None
    &&& r.cached_content is None
}

fn template(temperature: Option<u32>, top_p: Option<u32>, top_k: Option<i32>, max_tokens: Option<i32>) -> (r: RequestTemplate)
    ensures
        has_generation(r.request, temperature, top_p, top_k, max_tokens),
{
    let mut g = GenerationConfig::empty();
    g.temperature = temperature;
    g.top_p = top_p;
    g.top_k = top_k;
    g.max_output_tokens = max_tokens;
    let mut request = GenerateContentRequest::empty();
    request.generation_config = Some(g);
    RequestTemplate { request }
}

impl RequestTemplate {
    /// Chat: temperature 0.9, up to 2048 output tokens.
    pub fn chat() -> (r: Self)
        ensures
            has_generation(r.request, Some(F32_0_9), None, None, Some(2048)),
    {
        template(Some(F32_0_9), None, None, Some(2048))
    }

    /// Code generation: temperature 0.2, up to 4096 output tokens.
    pub fn code_generation() -> (r: Self)
        ensures
            has_generation(r.request, Some(F32_0_2), None, None, Some(4096)),
    {
        template(Some(F32_0_2), None, None, Some(4096))
    }

    /// Creative writing: temperature 1.2, top-p 0.95, top-k 40, up to 8192 output tokens.
    pub fn creative_writing() -> (r: Self)
        ensures
            has_generation(r.request, Some(F32_1_2), Some(F32_0_95), Some(40), Some(8192)),
    {
        template(Some(F32_1_2), Some(F32_0_95), Some(40), Some(8192))
    }

    /// Factual questions: temperature 0.1, top-p 0.8, up to 1024 output tokens.
    pub fn factual_qa() -> (r: Self)
        ensures
            has_generation(r.request, Some(F32_0_1), Some(F32_0_8), None, Some(1024)),
    {
        template(Some(F32_0_1), Some(F32_0_8), None, Some(1024))
    }

    /// Summarization: temperature 0.3, up to 2048 output tokens.
    pub fn summarization() -> (r: Self)
        ensures
            has_generation(r.request, Some(F32_0_3), None, None, Some(2048)),
    {
        template(Some(F32_0_3), None, None, Some(2048))
    }

    /// Replaces the contents with one user message holding `prompt`.
    pub fn with_prompt(self, prompt: &str) -> (r: Self)
        ensures
            r.request.contents@.len() == 1,
            is_user_text(r.request.contents@[0], prompt@),
            r.request.generation_config == self.request.generation_config,
            r.request.safety_settings == self.request.safety_settings,
            r.request.tool_config == self.request.tool_config,
            r.request.system_instruction == self.request.system_instruction,
            r.request.cached_content == self.request.cached_content,
    {
        let mut s = self;
        let mut contents = Vec::new();
        contents.push(Content::user_text(prompt));
        s.request.contents = contents;
        s
    }

    /// Sets the temperature (an `f32` bit pattern), creating generation
    /// parameters when there are none.
    pub fn with_temperature(self, temperature: u32) -> (r: Self)
        ensures
            r.request.generation_config matches Some(g) && g.temperature == Some(temperature),
            self.request.generation_config matches Some(old_g) ==> r.request.generation_config == Some(GenerationConfig { temperature: Some(temperature), ..old_g }),
            self.request.generation_config is None ==> (r.request.generation_config matches Some(g) && crate::types::empty_generation_config(GenerationConfig { temperature: None, ..g })),
            r.request == (GenerateContentRequest { generation_config: r.request.generation_config, ..self.request }),
    {
        let mut s = self;
        match s.request.generation_config {
            Some(mut g) => {
                g.temperature = Some(temperature);
                s.request.generation_config = Some(g);
            },
            None => {
                let mut g = GenerationConfig::empty();
                g.temperature = Some(temperature);
                s.request.generation_config = Some(g);
            },
        }
        s
    }

    /// Sets the output token limit, creating generation parameters when there are none.
    pub fn with_max_tokens(self, max_tokens: i32) -> (r: Self)
        ensures
            r.request.generation_config matches Some(g) && g.max_output_tokens == Some(max_tokens),
            self.request.generation_config matches Some(old_g) ==> r.request.generation_config == Some(GenerationConfig { max_output_tokens: Some(max_tokens), ..old_g }),
            self.request.generation_config is None ==> (r.request.generation_config matches Some(g) && crate::types::empty_generation_config(GenerationConfig { max_output_tokens: None, ..g })),
            r.request == (GenerateContentRequest { generation_config: r.request.generation_config, ..self.request }),
    {
        let mut s = self;
        match s.request.generation_config {
            Some(mut g) => {
                g.max_output_tokens = Some(max_tokens);
                s.request.generation_config = Some(g);
            },
            None => {
                let mut g = GenerationConfig::empty();
                g.max_output_tokens = Some(max_tokens);
                s.request.generation_config = Some(g);
            },
        }
        s
    }

    /// Sets the safety settings.
    pub fn with_safety_settings(self, settings: Vec<SafetySetting>) -> (r: Self)
        ensures
            r.request == (GenerateContentRequest { safety_settings: Some(settings), ..self.request }),
    {
        let mut s = self;
        s.request.safety_settings = Some(settings);
        s
    }

    /// The finished request.
    pub fn build(self) -> (r: GenerateContentRequest)
        ensures
            r == self.request,
    {
        self.request
    }
}

} // verus!
