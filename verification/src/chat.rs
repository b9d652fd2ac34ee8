//! Chat completion requests and responses, and the builder of requests.
//!
//! Sampling settings are binary32 numbers held as their bit patterns (see
//! [`crate::float_bits`]).

use vstd::prelude::*;
use crate::float_bits::{f32_le, f32_bits_le};
use crate::text::{owned, text_eq};

verus! {

/// Bit pattern of the binary32 number 0.0.
pub const F32_ZERO: u32 = 0;
/// Bit pattern of the binary32 number 1.0.
pub const F32_ONE: u32 = 0x3F80_0000;
/// Bit pattern of the binary32 number 2.0.
pub const F32_TWO: u32 = 0x4000_0000;
/// Bit pattern of the binary32 number -2.0.
pub const F32_MINUS_TWO: u32 = 0xC000_0000;

/// One message of a chat.
#[derive(Debug)]
pub struct ChatMessage {
    /// Who speaks: `system`, `user` or `assistant`.
    pub role: String,
    /// What is said.
    pub content: String,
}

/// A chat completion request.
#[derive(Debug)]
pub struct ChatCompletionRequest {
    /// The conversation.
    pub messages: Vec<ChatMessage>,
    /// Model name.
    pub model: String,
    /// Most tokens to generate.
    pub max_tokens: Option<i32>,
    /// Sampling temperature.
    pub temperature: Option<u32>,
    /// Nucleus sampling mass.
    pub top_p: Option<u32>,
    /// Frequency penalty.
    pub frequency_penalty: Option<u32>,
    /// Presence penalty.
    pub presence_penalty: Option<u32>,
    /// Whether the answer is streamed.
    pub stream: Option<bool>,
}

/// Builder of chat completion requests. The builder refuses, as a
/// precondition, what the API would refuse: a second system message, empty
/// texts and settings out of range.
#[derive(Debug)]
pub struct ChatCompletionRequestBuilder {
    /// The conversation so far.
    pub messages: Vec<ChatMessage>,
    /// Model name.
    pub model: String,
    /// Most tokens to generate.
    pub max_tokens: Option<i32>,
    /// Sampling temperature.
    pub temperature: Option<u32>,
    /// Nucleus sampling mass.
    pub top_p: Option<u32>,
    /// Frequency penalty.
    pub frequency_penalty: Option<u32>,
    /// Presence penalty.
    pub presence_penalty: Option<u32>,
    /// Whether the answer is streamed.
    pub stream: Option<bool>,
}

/// The roles of a conversation, in order.
pub open spec fn roles(m: Seq<ChatMessage>) -> Seq<Seq<char>> {
    m.map_values(|c: ChatMessage| c.role@)
}

/// The contents of a conversation, in order.
pub open spec fn contents(m: Seq<ChatMessage>) -> Seq<Seq<char>> {
    m.map_values(|c: ChatMessage| c.content@)
}

/// Whether some message of the conversation has the role.
pub open spec fn has_role(m: Seq<ChatMessage>, role: Seq<char>) -> bool {
    exists|i: int| 0 <= i < m.len() && m[i].role@ == role
}

/// Whether at most one message has the system role.
pub open spec fn single_system(m: Seq<ChatMessage>) -> bool {
    forall|i: int, j: int| 0 <= i < m.len() && 0 <= j < m.len() && m[i].role@ == "system"@ && m[j].role@ == "system"@ ==> i == j
}

/// Whether `b`'s conversation is `a`'s with one message appended.
pub open spec fn appended(a: Seq<ChatMessage>, b: Seq<ChatMessage>, role: Seq<char>, content: Seq<char>) -> bool {
    &&& b.len() == a.len() + 1
    &&& forall|i: int| 0 <= i < a.len() ==> b[i] == a[i]
    &&& b[a.len() as int].role@ == role
    &&& b[a.len() as int].content@ == content
}

/// Whether some message of `v` has the role `role`.
fn any_role(v: &Vec<ChatMessage>, role: &str) -> (r: bool)
    ensures
        r == has_role(v@, role@),
{
    let mut i: usize = 0;
    while i < v.len()
        invariant
            i <= v@.len(),
            forall|j: int| 0 <= j < i ==> v@[j].role@ != role@,
        decreases v@.len() - i,
    {
        if text_eq(v[i].role.as_str(), role) {
            return true;
        }
        i = i + 1;
    }
    false
}

impl ChatCompletionRequestBuilder {
    /// An empty conversation for `gemini-2.5-flash`, no settings.
    pub fn new() -> (r: Self)
        ensures
            r.messages@.len() == 0,
            r.model@ == "gemini-2.5-flash"@,
            r.max_tokens is None,
            r.temperature is None,
            r.top_p is None,
            r.frequency_penalty is None,
            r.presence_penalty is None,
            r.stream is None,
    {
        proof { reveal_strlit("gemini-2.5-flash"); }
        ChatCompletionRequestBuilder {
            messages: Vec::new(),
            model: owned("gemini-2.5-flash"),
            max_tokens: None,
            temperature: None,
            top_p: None,
            frequency_penalty: None,
            presence_penalty: None,
            stream: None,
        }
    }

    /// An empty conversation for `model`.
    pub fn with_model(model: &str) -> (r: Self)
        ensures
            r.messages@.len() == 0,
            r.model@ == model@,
            r.max_tokens is None,
            r.temperature is None,
            r.top_p is None,
            r.frequency_penalty is None,
            r.presence_penalty is None,
            r.stream is None,
    {
        let mut b = Self::new();
        b.model = owned(model);
        b
    }

    /// Appends the system message; a conversation has at most one.
    pub fn system(self, content: &str) -> (r: Self)
        requires
            !has_role(self.messages@, "system"@),
            content@.len() > 0,
        ensures
            appended(self.messages@, r.messages@, "system"@, content@),
            single_system(self.messages@) ==> single_system(r.messages@),
            r.model == self.model,
            r.max_tokens == self.max_tokens,
            r.temperature == self.temperature,
            r.top_p == self.top_p,
            r.frequency_penalty == self.frequency_penalty,
            r.presence_penalty == self.presence_penalty,
            r.stream == self.stream,
    {
        proof { reveal_strlit("system"); }
        let mut s = self;
        let ghost before = s.messages@;
        s.messages.push(ChatMessage { role: owned("system"), content: owned(content) });
        proof {
            assert forall|i: int, j: int| 0 <= i < s.messages@.len() && 0 <= j < s.messages@.len()
                && s.messages@[i].role@ == "system"@ && s.messages@[j].role@ == "system"@ implies i == j by {
                if i < before.len() {
                    assert(before[i].role@ == "system"@);
                }
                if j < before.len() {
                    assert(before[j].role@ == "system"@);
                }
            }
        }
        s
    }

    /// Appends a user message.
    pub fn user(self, content: &str) -> (r: Self)
        requires
            content@.len() > 0,
        ensures
            appended(self.messages@, r.messages@, "user"@, content@),
            single_system(self.messages@) ==> single_system(r.messages@),
            r.model == self.model,
            r.max_tokens == self.max_tokens,
            r.temperature == self.temperature,
            r.top_p == self.top_p,
            r.frequency_penalty == self.frequency_penalty,
            r.presence_penalty == self.presence_penalty,
            r.stream == self.stream,
    {
        proof { reveal_strlit("user"); reveal_strlit("system"); }
        let mut s = self;
        let ghost before = s.messages@;
        s.messages.push(ChatMessage { role: owned("user"), content: owned(content) });
        proof {
            assert(single_system(before) ==> single_system(s.messages@)) by {
                if single_system(before) {
                    assert forall|i: int, j: int| 0 <= i < s.messages@.len() && 0 <= j < s.messages@.len()
                        && s.messages@[i].role@ == "system"@ && s.messages@[j].role@ == "system"@ implies i == j by {
                        assert(s.messages@[before.len() as int].role@ == "user"@);
                        if i < before.len() && j < before.len() {
                            assert(before[i] == s.messages@[i]);
                            assert(before[j] == s.messages@[j]);
                        }
                    }
                }
            }
        }
        s
    }

    /// Appends an assistant message.
    pub fn assistant(self, content: &str) -> (r: Self)
        requires
            content@.len() > 0,
        ensures
            appended(self.messages@, r.messages@, "assistant"@, content@),
            single_system(self.messages@) ==> single_system(r.messages@),
            r.model == self.model,
            r.max_tokens == self.max_tokens,
            r.temperature == self.temperature,
            r.top_p == self.top_p,
            r.frequency_penalty == self.frequency_penalty,
            r.presence_penalty == self.presence_penalty,
            r.stream == self.stream,
    {
        proof { reveal_strlit("assistant"); reveal_strlit("system"); }
        let mut s = self;
        let ghost before = s.messages@;
        s.messages.push(ChatMessage { role: owned("assistant"), content: owned(content) });
        proof {
            assert(single_system(before) ==> single_system(s.messages@)) by {
                if single_system(before) {
                    assert forall|i: int, j: int| 0 <= i < s.messages@.len() && 0 <= j < s.messages@.len()
                        && s.messages@[i].role@ == "system"@ && s.messages@[j].role@ == "system"@ implies i == j by {
                        assert(s.messages@[before.len() as int].role@ == "assistant"@);
                        if i < before.len() && j < before.len() {
                            assert(before[i] == s.messages@[i]);
                            assert(before[j] == s.messages@[j]);
                        }
                    }
                }
            }
        }
        s
    }

    /// Sets the model name, which cannot be empty.
    pub fn model(self, model: &str) -> (r: Self)
        requires
            model@.len() > 0,
        ensures
            r.model@ == model@,
            r == (ChatCompletionRequestBuilder { model: r.model, ..self }),
    {
        let mut s = self;
        s.model = owned(model);
        s
    }

    /// Sets the most tokens to generate, which must be positive.
    pub fn max_tokens(self, max_tokens: i32) -> (r: Self)
        requires
            max_tokens > 0,
        ensures
            r == (ChatCompletionRequestBuilder { max_tokens: Some(max_tokens), ..self }),
    {
        let mut s = self;
        s.max_tokens = Some(max_tokens);
        s
    }

    /// Sets the temperature, within [0, 2].
    pub fn temperature(self, temperature: u32) -> (r: Self)
        requires
            f32_le(F32_ZERO, temperature) && f32_le(temperature, F32_TWO),
        ensures
            r == (ChatCompletionRequestBuilder { temperature: Some(temperature), ..self }),
    {
        let mut s = self;
        s.temperature = Some(temperature);
        s
    }

    /// Sets the nucleus sampling mass, within [0, 1].
    pub fn top_p(self, top_p: u32) -> (r: Self)
        requires
            f32_le(F32_ZERO, top_p) && f32_le(top_p, F32_ONE),
        ensures
            r == (ChatCompletionRequestBuilder { top_p: Some(top_p), ..self }),
    {
        let mut s = self;
        s.top_p = Some(top_p);
        s
    }

    /// Sets the frequency penalty, within [-2, 2].
    pub fn frequency_penalty(self, frequency_penalty: u32) -> (r: Self)
        requires
            f32_le(F32_MINUS_TWO, frequency_penalty) && f32_le(frequency_penalty, F32_TWO),
        ensures
            r == (ChatCompletionRequestBuilder { frequency_penalty: Some(frequency_penalty), ..self }),
    {
        let mut s = self;
        s.frequency_penalty = Some(frequency_penalty);
        s
    }

    /// Sets the presence penalty, within [-2, 2].
    pub fn presence_penalty(self, presence_penalty: u32) -> (r: Self)
        requires
            f32_le(F32_MINUS_TWO, presence_penalty) && f32_le(presence_penalty, F32_TWO),
        ensures
            r == (ChatCompletionRequestBuilder { presence_penalty: Some(presence_penalty), ..self }),
    {
        let mut s = self;
        s.presence_penalty = Some(presence_penalty);
        s
    }

    /// Asks for a streamed answer.
    pub fn stream(self) -> (r: Self)
        ensures
            r == (ChatCompletionRequestBuilder { stream: Some(true), ..self }),
    {
        let mut s = self;
        s.stream = Some(true);
        s
    }

    /// The request; it needs at least one user message.
    pub fn build(self) -> (r: ChatCompletionRequest)
        requires
            has_role(self.messages@, "user"@),
        ensures
            r.messages == self.messages,
            r.model == self.model,
            r.max_tokens == self.max_tokens,
            r.temperature == self.temperature,
            r.top_p == self.top_p,
            r.frequency_penalty == self.frequency_penalty,
            r.presence_penalty == self.presence_penalty,
            r.stream == self.stream,
    {
        ChatCompletionRequest {
            messages: self.messages,
            model: self.model,
            max_tokens: self.max_tokens,
            temperature: self.temperature,
            top_p: self.top_p,
            frequency_penalty: self.frequency_penalty,
            presence_penalty: self.presence_penalty,
            stream: self.stream,
        }
    }
}

impl Default for ChatCompletionRequestBuilder {
    /// See [`ChatCompletionRequestBuilder::new`].
    fn default() -> (r: Self)
        ensures
            r.messages@.len() == 0,
            r.model@ == "gemini-2.5-flash"@,
            r.max_tokens is None,
            r.temperature is None,
            r.top_p is None,
            r.frequency_penalty is None,
            r.presence_penalty is None,
            r.stream is None,
    {
        ChatCompletionRequestBuilder::new()
    }
}

/// Whether a conversation may be built into a request: it has a user
/// message.
pub fn can_build(messages: &Vec<ChatMessage>) -> (r: bool)
    ensures
        r == has_role(messages@, "user"@),
{
    proof { reveal_strlit("user"); }
    any_role(messages, "user")
}

/// Whether a system message may still be added: there is none yet.
pub fn can_add_system(messages: &Vec<ChatMessage>) -> (r: bool)
    ensures
        r == !has_role(messages@, "system"@),
{
    proof { reveal_strlit("system"); }
    !any_role(messages, "system")
}

/// Whether a temperature is within [0, 2].
pub fn valid_temperature(t: u32) -> (r: bool)
    ensures
        r == (f32_le(F32_ZERO, t) && f32_le(t, F32_TWO)),
{
    f32_bits_le(F32_ZERO, t) && f32_bits_le(t, F32_TWO)
}

/// Whether a nucleus sampling mass is within [0, 1].
pub fn valid_top_p(p: u32) -> (r: bool)
    ensures
        r == (f32_le(F32_ZERO, p) && f32_le(p, F32_ONE)),
{
    f32_bits_le(F32_ZERO, p) && f32_bits_le(p, F32_ONE)
}

/// Whether a penalty is within [-2, 2].
pub fn valid_penalty(p: u32) -> (r: bool)
    ensures
        r == (f32_le(F32_MINUS_TWO, p) && f32_le(p, F32_TWO)),
{
    f32_bits_le(F32_MINUS_TWO, p) && f32_bits_le(p, F32_TWO)
}

/// One answer of a chat completion.
#[derive(Debug)]
pub struct ChatChoice {
    /// Position of the answer.
    pub index: i32,
    /// The answer.
    pub message: ChatMessage,
    /// Why generation stopped.
    pub finish_reason: Option<String>,
}

/// Token use of a chat completion.
#[derive(Debug, Clone, Copy)]
pub struct ChatUsage {
    /// Tokens of the prompt.
    pub prompt_tokens: i32,
    /// Tokens of the answer.
    pub completion_tokens: i32,
    /// All tokens.
    pub total_tokens: i32,
}

/// A chat completion response.
#[derive(Debug)]
pub struct ChatCompletionResponse {
    /// Response identifier.
    pub id: String,
    /// Object kind.
    pub object: String,
    /// Creation time in seconds from the Unix epoch.
    pub created: i64,
    /// Model that answered.
    pub model: String,
    /// The answers.
    pub choices: Vec<ChatChoice>,
    /// Token use.
    pub usage: Option<ChatUsage>,
}

/// A conversation built by the builder's methods never holds two system
/// messages: appending a system message is refused when one is there, and
/// appending any other message keeps the count.
pub proof fn law_single_system_message(m: Seq<ChatMessage>, next: ChatMessage)
    requires
        single_system(m),
        next.role@ == "system"@ ==> !has_role(m, "system"@),
    ensures
        single_system(m.push(next)),
{
    let n = m.push(next);
    assert forall|i: int, j: int| 0 <= i < n.len() && 0 <= j < n.len() && n[i].role@ == "system"@ && n[j].role@ == "system"@
        implies i == j by {
        if i < m.len() {
            assert(n[i] == m[i]);
        }
        if j < m.len() {
            assert(n[j] == m[j]);
        }
    }
}

} // verus!
