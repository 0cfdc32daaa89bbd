//! The prompt entity model: a prompt, its conversation and its sampling
//! parameters, with the bounds a prompt must keep before it is stored.

use std::collections::HashMap;
use vstd::prelude::*;
use vstd::string::StringExecFns;
use crate::number::{between_zero_and_two, within_two_of_zero, Number};

verus! {

/// A JSON value, carried through untouched.
#[verifier::external_type_specification]
#[verifier::external_body]
pub struct ExJsonValue(serde_json::Value);

/// `Clone::clone` of a JSON value: the copy is the same value.
pub assume_specification[ <serde_json::Value as Clone>::clone ](value: &serde_json::Value) -> (r:
    serde_json::Value)
    ensures
        r == *value,
;

/// Largest number of most likely tokens that may be asked for.
pub const MAX_TOP_LOGPROBS: u32 = 20;

/// A container that can say whether it holds nothing.
pub trait IsEmpty {
    /// The container holds nothing.
    spec fn holds_nothing(&self) -> bool;

    fn is_empty(&self) -> (r: bool)
        ensures
            r == self.holds_nothing(),
    ;
}

impl<T> IsEmpty for &Vec<T> {
    open spec fn holds_nothing(&self) -> bool {
        (**self)@.len() == 0
    }

    fn is_empty(&self) -> (r: bool) {
        self.len() == 0
    }
}

impl<K, V> IsEmpty for &HashMap<K, V> {
    open spec fn holds_nothing(&self) -> bool {
        (**self)@.is_empty()
    }

    fn is_empty(&self) -> (r: bool) {
        HashMap::is_empty(*self)
    }
}

/// Whether a container holds nothing; an empty container is left out when a
/// prompt is written out.
pub fn is_empty<C: IsEmpty>(v: C) -> (r: bool)
    ensures
        r == v.holds_nothing(),
{
    v.is_empty()
}

/// The function a tool call names, with its arguments as the caller encoded
/// them.
#[derive(Debug, Clone, PartialEq)]
pub struct Function {
    pub name: String,
    pub arguments: String,
}

/// A call of a tool, made by the assistant.
#[derive(Debug, Clone, PartialEq)]
pub struct ToolCall {
    pub id: String,
    pub kind: String,
    pub function: Function,
}

#[derive(Debug, Clone, PartialEq)]
pub struct AudioPart {
    pub data: String,
    pub format: String,
}

#[derive(Debug, Clone, PartialEq)]
pub struct ImagePart {
    pub uri: String,
    pub quality: String,
}

#[derive(Debug, Clone, PartialEq)]
pub struct TextPart {
    pub text: String,
}

/// One unit of message content; exactly one variant is active.
#[derive(Debug, Clone, PartialEq)]
pub enum MessagePart {
    Audio(AudioPart),
    Images(ImagePart),
    Text(TextPart),
}

/// One turn of a conversation.
#[derive(Debug, Clone, PartialEq)]
pub struct Message {
    pub role: String,
    pub name: Option<String>,
    pub content: Vec<MessagePart>,
    pub tool_calls: Option<Vec<ToolCall>>,
}

/// A tool the model may call; its schema is opaque here.
#[derive(Debug, Clone, PartialEq)]
pub struct Tool {
    pub schema_version: String,
    pub name: String,
    pub description: String,
    pub schema: serde_json::Value,
}

/// A template for invoking a language model.
#[derive(Debug, Clone, PartialEq)]
pub struct Prompt {
    pub model: String,
    pub content: Vec<Message>,
    pub frequency_penalty: Option<Number>,
    pub logit_bias: Option<HashMap<String, i32>>,
    pub logprobs: Option<bool>,
    pub top_logprobs: Option<u32>,
    pub max_output_tokens: Option<u32>,
    pub presence_penalty: Option<Number>,
    pub stop: Option<Vec<String>>,
    pub temperature: Option<Number>,
    pub top_p: Option<Number>,
    pub tools: Vec<Tool>,
    pub extra: HashMap<String, serde_json::Value>,
    /// Assigned by the store; present only on a prompt that came from it.
    pub identifier: Option<String>,
}

/// The field of a prompt that breaks a bound.
#[derive(Debug, Clone, Copy, PartialEq, Eq)]
pub enum InvalidField {
    Role,
    FrequencyPenalty,
    TopLogprobs,
    PresencePenalty,
    Temperature,
}

impl InvalidField {
    /// The name of the field in a prompt as it is written out.
    pub fn name(&self) -> (r: &'static str)
        ensures
            r@ == match self {
                InvalidField::Role => "content"@,
                InvalidField::FrequencyPenalty => "frequency_penalty"@,
                InvalidField::TopLogprobs => "top_logprobs"@,
                InvalidField::PresencePenalty => "presence_penalty"@,
                InvalidField::Temperature => "temperature"@,
            },
    {
        match self {
            InvalidField::Role => "content",
            InvalidField::FrequencyPenalty => "frequency_penalty",
            InvalidField::TopLogprobs => "top_logprobs",
            InvalidField::PresencePenalty => "presence_penalty",
            InvalidField::Temperature => "temperature",
        }
    }
}

/// The roles a message may have.
pub open spec fn role_allowed(role: Seq<char>) -> bool {
    role == "user"@ || role == "assistant"@ || role == "system"@ || role == "tool"@
}

/// Every message has an allowed role.
pub open spec fn roles_allowed(content: Seq<Message>) -> bool {
    forall|i: int| 0 <= i < content.len() ==> role_allowed((#[trigger] content[i]).role@)
}

impl Message {
    /// Whether the role is one of `user`, `assistant`, `system`, `tool`.
    pub fn has_allowed_role(&self) -> (r: bool)
        ensures
            r == role_allowed(self.role@),
    {
        let user = String::from_str("user");
        let assistant = String::from_str("assistant");
        let system = String::from_str("system");
        let tool = String::from_str("tool");
        self.role == user || self.role == assistant || self.role == system || self.role == tool
    }
}

impl Prompt {
    /// A prompt for `model` with the given conversation and nothing else:
    /// no sampling parameter, no tool, no extra field, no identifier.
    pub fn new(model: String, content: Vec<Message>) -> (r: Prompt)
        ensures
            r.model == model,
            r.content == content,
            r.frequency_penalty.is_none(),
            r.logit_bias.is_none(),
            r.logprobs.is_none(),
            r.top_logprobs.is_none(),
            r.max_output_tokens.is_none(),
            r.presence_penalty.is_none(),
            r.stop.is_none(),
            r.temperature.is_none(),
            r.top_p.is_none(),
            r.tools@.len() == 0,
            r.extra@.is_empty(),
            r.identifier.is_none(),
    {
        Prompt {
            model,
            content,
            frequency_penalty: None,
            logit_bias: None,
            logprobs: None,
            top_logprobs: None,
            max_output_tokens: None,
            presence_penalty: None,
            stop: None,
            temperature: None,
            top_p: None,
            tools: Vec::new(),
            extra: HashMap::new(),
            identifier: None,
        }
    }

    /// The first bound that the prompt breaks, in the order: roles,
    /// frequency penalty, top logprobs, presence penalty, temperature.
    pub open spec fn first_invalid(&self) -> Option<InvalidField> {
        if !roles_allowed(self.content@) {
            Some(InvalidField::Role)
        } else if self.frequency_penalty matches Some(n) && !within_two_of_zero(n.bits) {
            Some(InvalidField::FrequencyPenalty)
        } else if self.top_logprobs matches Some(k) && k > MAX_TOP_LOGPROBS {
            Some(InvalidField::TopLogprobs)
        } else if self.presence_penalty matches Some(n) && !within_two_of_zero(n.bits) {
            Some(InvalidField::PresencePenalty)
        } else if self.temperature matches Some(n) && !between_zero_and_two(n.bits) {
            Some(InvalidField::Temperature)
        } else {
            None
        }
    }

    /// Every bound holds: each role is allowed, the penalties lie between
    /// minus two and two, the temperature between zero and two, and at most
    /// twenty top logprobs are asked for.
    pub open spec fn is_valid(&self) -> bool {
        &&& roles_allowed(self.content@)
        &&& self.frequency_penalty matches Some(n) ==> within_two_of_zero(n.bits)
        &&& self.presence_penalty matches Some(n) ==> within_two_of_zero(n.bits)
        &&& self.temperature matches Some(n) ==> between_zero_and_two(n.bits)
        &&& self.top_logprobs matches Some(k) ==> k <= MAX_TOP_LOGPROBS
    }

    /// Whether every message has an allowed role.
    pub fn has_allowed_roles(&self) -> (r: bool)
        ensures
            r == roles_allowed(self.content@),
    {
        let mut i: usize = 0;
        while i < self.content.len()
            invariant
                i <= self.content@.len(),
                forall|j: int| 0 <= j < i ==> role_allowed((#[trigger] self.content@[j]).role@),
            decreases self.content@.len() - i,
        {
            if !self.content[i].has_allowed_role() {
                return false;
            }
            i += 1;
        }
        true
    }

    /// Checks the bounds. A prompt that breaks one is rejected, with the
    /// first field that does; nothing is clamped.
    pub fn validate(&self) -> (r: Result<(), InvalidField>)
        ensures
            r.is_ok() == self.is_valid(),
            r == match self.first_invalid() {
                Some(field) => Err::<(), InvalidField>(field),
                None => Ok(()),
            },
    {
        if !self.has_allowed_roles() {
            return Err(InvalidField::Role);
        }
        if let Some(n) = self.frequency_penalty {
            if !n.is_within_two_of_zero() {
                return Err(InvalidField::FrequencyPenalty);
            }
        }
        if let Some(k) = self.top_logprobs {
            if k > MAX_TOP_LOGPROBS {
                return Err(InvalidField::TopLogprobs);
            }
        }
        if let Some(n) = self.presence_penalty {
            if !n.is_within_two_of_zero() {
                return Err(InvalidField::PresencePenalty);
            }
        }
        if let Some(n) = self.temperature {
            if !n.is_between_zero_and_two() {
                return Err(InvalidField::Temperature);
            }
        }
        Ok(())
    }

    /// Whether the tools are left out when the prompt is written out: they
    /// are when there are none.
    pub fn omits_tools(&self) -> (r: bool)
        ensures
            r == (self.tools@.len() == 0),
    {
        is_empty(&self.tools)
    }

    /// Whether the extra fields are left out when the prompt is written
    /// out: they are when there are none.
    pub fn omits_extra(&self) -> (r: bool)
        ensures
            r == self.extra@.is_empty(),
    {
        is_empty(&self.extra)
    }
}

} // verus!
