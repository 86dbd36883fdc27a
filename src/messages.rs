//! The payloads of the chat-completion protocol: the request sent, the success
//! payload and the error payload received, each with its mathematical view, and
//! the decoders that read the received ones from a JSON document.

use vstd::prelude::*;

use crate::json::{json_tree, member, JsonTree};

verus! {

/// One message of a request.
pub struct PromptRequestMessage {
    pub role: String,
    pub content: String,
}

pub ghost struct PromptRequestMessageView {
    pub role: Seq<char>,
    pub content: Seq<char>,
}

impl View for PromptRequestMessage {
    type V = PromptRequestMessageView;

    open spec fn view(&self) -> PromptRequestMessageView {
        PromptRequestMessageView { role: self.role@, content: self.content@ }
    }
}

/// The request for one completion. The sampling temperature is held in
/// hundredths (80 stands for 0.8); the service accepts 0.0 to 2.0, that is
/// 0 to 200.
pub struct PromptRequest {
    pub model: String,
    pub messages: Vec<PromptRequestMessage>,
    pub temperature_hundredths: u16,
}

pub ghost struct PromptRequestView {
    pub model: Seq<char>,
    pub messages: Seq<PromptRequestMessageView>,
    pub temperature_hundredths: u16,
}

impl View for PromptRequest {
    type V = PromptRequestView;

    open spec fn view(&self) -> PromptRequestView {
        PromptRequestView {
            model: self.model@,
            messages: self.messages@.map_values(|m: PromptRequestMessage| m@),
            temperature_hundredths: self.temperature_hundredths,
        }
    }
}

/// Token counts of a completion.
#[derive(Clone, Copy, PartialEq, Eq, Structural)]
pub struct PromptResponseUsage {
    pub prompt_tokens: u32,
    pub completion_tokens: u32,
    pub total_tokens: u32,
}

/// The message of one choice of a completion.
pub struct PromptResponseMessage {
    pub role: String,
    pub content: String,
}

pub ghost struct PromptResponseMessageView {
    pub role: Seq<char>,
    pub content: Seq<char>,
}

impl View for PromptResponseMessage {
    type V = PromptResponseMessageView;

    open spec fn view(&self) -> PromptResponseMessageView {
        PromptResponseMessageView { role: self.role@, content: self.content@ }
    }
}

/// One choice of a completion. `finish_reason` is kept as the service wrote it.
pub struct PromptResponseChoice {
    pub index: u32,
    pub message: PromptResponseMessage,
    pub finish_reason: String,
}

pub ghost struct PromptResponseChoiceView {
    pub index: u32,
    pub message: PromptResponseMessageView,
    pub finish_reason: Seq<char>,
}

impl View for PromptResponseChoice {
    type V = PromptResponseChoiceView;

    open spec fn view(&self) -> PromptResponseChoiceView {
        PromptResponseChoiceView {
            index: self.index,
            message: self.message@,
            finish_reason: self.finish_reason@,
        }
    }
}

/// The success payload of a completion.
pub struct PromptResponse {
    pub id: String,
    pub object: String,
    pub created: u64,
    pub model: String,
    pub usage: PromptResponseUsage,
    pub choices: Vec<PromptResponseChoice>,
}

pub ghost struct PromptResponseView {
    pub id: Seq<char>,
    pub object: Seq<char>,
    pub created: u64,
    pub model: Seq<char>,
    pub usage: PromptResponseUsage,
    pub choices: Seq<PromptResponseChoiceView>,
}

impl View for PromptResponse {
    type V = PromptResponseView;

    open spec fn view(&self) -> PromptResponseView {
        PromptResponseView {
            id: self.id@,
            object: self.object@,
            created: self.created,
            model: self.model@,
            usage: self.usage,
            choices: self.choices@.map_values(|c: PromptResponseChoice| c@),
        }
    }
}

/// The body of the error envelope.
pub struct PromptResponseError {
    pub message: String,
    pub error_type: String,
    pub param: Option<String>,
    pub code: String,
}

pub ghost struct PromptResponseErrorView {
    pub message: Seq<char>,
    pub error_type: Seq<char>,
    pub param: Option<Seq<char>>,
    pub code: Seq<char>,
}

impl View for PromptResponseError {
    type V = PromptResponseErrorView;

    open spec fn view(&self) -> PromptResponseErrorView {
        PromptResponseErrorView {
            message: self.message@,
            error_type: self.error_type@,
            param: opt_text(self.param),
            code: self.code@,
        }
    }
}

/// The error payload: `{"error": {...}}`.
pub struct PromptResponseErrorMessage {
    pub error: PromptResponseError,
}

impl View for PromptResponseErrorMessage {
    type V = PromptResponseErrorView;

    open spec fn view(&self) -> PromptResponseErrorView {
        self.error@
    }
}

pub open spec fn opt_text(s: Option<String>) -> Option<Seq<char>> {
    match s {
        Some(t) => Some(t@),
        None => None,
    }
}

// ---- reading a JSON tree ----

/// The member `key` of an object.
pub open spec fn member_of(t: JsonTree, key: Seq<char>) -> Option<JsonTree> {
    match t {
        JsonTree::Object(m) => if m.contains_key(key) {
            Some(m[key])
        } else {
            None
        },
        _ => None,
    }
}

/// The member `key` of an object, where it is a string.
pub open spec fn text_at(t: JsonTree, key: Seq<char>) -> Option<Seq<char>> {
    match member_of(t, key) {
        Some(JsonTree::Str(s)) => Some(s),
        _ => None,
    }
}

/// The member `key` of an object, where it is an integer that fits `u64`.
pub open spec fn u64_at(t: JsonTree, key: Seq<char>) -> Option<u64> {
    match member_of(t, key) {
        Some(JsonTree::Number(n)) => n,
        _ => None,
    }
}

/// The member `key` of an object, where it is an integer that fits `u32`.
pub open spec fn u32_at(t: JsonTree, key: Seq<char>) -> Option<u32> {
    match u64_at(t, key) {
        Some(n) => if n <= u32::MAX {
            Some(n as u32)
        } else {
            None
        },
        None => None,
    }
}

/// An optional string member: absent or `null` reads as `Some(None)`, a
/// string as `Some(Some(s))`, anything else does not read.
pub open spec fn optional_text_at(t: JsonTree, key: Seq<char>) -> Option<Option<Seq<char>>> {
    match member_of(t, key) {
        None => Some(None),
        Some(JsonTree::Null) => Some(None),
        Some(JsonTree::Str(s)) => Some(Some(s)),
        _ => None,
    }
}

// ---- the shapes of the payloads ----

pub open spec fn decode_response_message(t: JsonTree) -> Option<PromptResponseMessageView> {
    match (text_at(t, "role"@), text_at(t, "content"@)) {
        (Some(role), Some(content)) => Some(PromptResponseMessageView { role, content }),
        _ => None,
    }
}

pub open spec fn decode_choice(t: JsonTree) -> Option<PromptResponseChoiceView> {
    match (u32_at(t, "index"@), member_of(t, "message"@), text_at(t, "finish_reason"@)) {
        (Some(index), Some(m), Some(finish_reason)) => match decode_response_message(m) {
            Some(message) => Some(PromptResponseChoiceView { index, message, finish_reason }),
            None => None,
        },
        _ => None,
    }
}

/// A sequence of choices reads when every item reads.
pub open spec fn decode_choices(items: Seq<JsonTree>) -> Option<Seq<PromptResponseChoiceView>> {
    if forall|i: int| 0 <= i < items.len() ==> (#[trigger] decode_choice(items[i])) is Some {
        Some(items.map_values(|t: JsonTree| decode_choice(t)->0))
    } else {
        None
    }
}

pub open spec fn decode_usage(t: JsonTree) -> Option<PromptResponseUsage> {
    match (u32_at(t, "prompt_tokens"@), u32_at(t, "completion_tokens"@), u32_at(t, "total_tokens"@)) {
        (Some(p), Some(c), Some(s)) => Some(
            PromptResponseUsage { prompt_tokens: p, completion_tokens: c, total_tokens: s },
        ),
        _ => None,
    }
}

/// The success payload in a JSON tree: an object with every field of the
/// shape, of the right kind; members that the shape does not name are ignored.
pub open spec fn decode_response(t: JsonTree) -> Option<PromptResponseView> {
    match (text_at(t, "id"@), text_at(t, "object"@), u64_at(t, "created"@), text_at(t, "model"@)) {
        (Some(id), Some(object), Some(created), Some(model)) => match (
            member_of(t, "usage"@),
            member_of(t, "choices"@),
        ) {
            (Some(u), Some(JsonTree::Array(items))) => match (decode_usage(u), decode_choices(items)) {
                (Some(usage), Some(choices)) => Some(
                    PromptResponseView { id, object, created, model, usage, choices },
                ),
                _ => None,
            },
            _ => None,
        },
        _ => None,
    }
}

pub open spec fn decode_error_body(t: JsonTree) -> Option<PromptResponseErrorView> {
    match (
        text_at(t, "message"@),
        text_at(t, "type"@),
        optional_text_at(t, "param"@),
        text_at(t, "code"@),
    ) {
        (Some(message), Some(error_type), Some(param), Some(code)) => Some(
            PromptResponseErrorView { message, error_type, param, code },
        ),
        _ => None,
    }
}

/// The error payload in a JSON tree: an object whose member `error` reads as
/// the error body.
pub open spec fn decode_error_payload(t: JsonTree) -> Option<PromptResponseErrorView> {
    match member_of(t, "error"@) {
        Some(e) => decode_error_body(e),
        None => None,
    }
}

// ---- decoders ----

/// The string member `key` of `v`, copied.
fn text_member(v: &serde_json::Value, key: &str) -> (r: Option<String>)
    ensures
        opt_text(r) == text_at(json_tree(*v), key@),
{
    match member(v, key) {
        Some(x) => match x.as_str() {
            Some(s) => Some(s.to_string()),
            None => None,
        },
        None => None,
    }
}


/// The integer member `key` of `v`, where it fits `u64`.
fn u64_member(v: &serde_json::Value, key: &str) -> (r: Option<u64>)
    ensures
        r == u64_at(json_tree(*v), key@),
{
    match member(v, key) {
        Some(x) => x.as_u64(),
        None => None,
    }
}

/// The integer member `key` of `v`, where it fits `u32`.
fn u32_member(v: &serde_json::Value, key: &str) -> (r: Option<u32>)
    ensures
        r == u32_at(json_tree(*v), key@),
{
    match u64_member(v, key) {
        Some(n) => if n <= u32::MAX as u64 {
            Some(n as u32)
        } else {
            None
        },
        None => None,
    }
}

/// The optional string member `key` of `v`.
fn optional_text_member(v: &serde_json::Value, key: &str) -> (r: Option<Option<String>>)
    ensures
        match r {
            Some(o) => optional_text_at(json_tree(*v), key@) == Some(opt_text(o)),
            None => optional_text_at(json_tree(*v), key@) is None,
        },
{
    match member(v, key) {
        None => Some(None),
        Some(x) => if x.is_null() {
            Some(None)
        } else {
            match x.as_str() {
                Some(s) => Some(Some(s.to_string())),
                None => None,
            }
        },
    }
}

impl PromptResponseMessage {
    /// Reads a choice's message from a JSON value.
    pub fn from_json(v: &serde_json::Value) -> (r: Option<PromptResponseMessage>)
        ensures
            match r {
                Some(m) => decode_response_message(json_tree(*v)) == Some(m@),
                None => decode_response_message(json_tree(*v)) is None,
            },
    {
        let role = text_member(v, "role");
        let content = text_member(v, "content");
        match (role, content) {
            (Some(role), Some(content)) => Some(PromptResponseMessage { role, content }),
            _ => None,
        }
    }
}

impl PromptResponseChoice {
    /// Reads one choice from a JSON value.
    pub fn from_json(v: &serde_json::Value) -> (r: Option<PromptResponseChoice>)
        ensures
            match r {
                Some(c) => decode_choice(json_tree(*v)) == Some(c@),
                None => decode_choice(json_tree(*v)) is None,
            },
    {
        let index = u32_member(v, "index");
        let message = match member(v, "message") {
            Some(m) => PromptResponseMessage::from_json(m),
            None => None,
        };
        let finish_reason = text_member(v, "finish_reason");
        match (index, message, finish_reason) {
            (Some(index), Some(message), Some(finish_reason)) => Some(
                PromptResponseChoice { index, message, finish_reason },
            ),
            _ => None,
        }
    }

    /// Reads every choice of a JSON array; `None` where one of them does not read.
    pub fn all_from_json(items: &Vec<serde_json::Value>) -> (r: Option<Vec<PromptResponseChoice>>)
        ensures
            match r {
                Some(cs) => decode_choices(items@.map_values(|x: serde_json::Value| json_tree(x)))
                    == Some(cs@.map_values(|c: PromptResponseChoice| c@)),
                None => decode_choices(items@.map_values(|x: serde_json::Value| json_tree(x))) is None,
            },
    {
        let ghost trees = items@.map_values(|x: serde_json::Value| json_tree(x));
        let mut out: Vec<PromptResponseChoice> = Vec::new();
        let mut i: usize = 0;
        while i < items.len()
            invariant
                i <= items@.len(),
                trees == items@.map_values(|x: serde_json::Value| json_tree(x)),
                out@.len() == i,
                forall|j: int| 0 <= j < i ==> decode_choice(trees[j]) == Some(#[trigger] out@[j]@),
            decreases items@.len() - i,
        {
            match PromptResponseChoice::from_json(&items[i]) {
                Some(c) => {
                    out.push(c);
                },
                None => {
                    assert(decode_choice(trees[i as int]) is None);
                    return None;
                },
            }
            i += 1;
        }
        assert forall|j: int| 0 <= j < trees.len() implies (#[trigger] decode_choice(trees[j])) is Some by {
            assert(decode_choice(trees[j]) == Some(out@[j]@));
        }
        assert(out@.map_values(|c: PromptResponseChoice| c@) =~= trees.map_values(
            |t: JsonTree| decode_choice(t)->0,
        ));
        Some(out)
    }
}

impl PromptResponseUsage {
    /// Reads the token counts from a JSON value.
    pub fn from_json(v: &serde_json::Value) -> (r: Option<PromptResponseUsage>)
        ensures
            r == decode_usage(json_tree(*v)),
    {
        let p = u32_member(v, "prompt_tokens");
        let c = u32_member(v, "completion_tokens");
        let t = u32_member(v, "total_tokens");
        match (p, c, t) {
            (Some(p), Some(c), Some(t)) => Some(
                PromptResponseUsage { prompt_tokens: p, completion_tokens: c, total_tokens: t },
            ),
            _ => None,
        }
    }
}

impl PromptResponse {
    /// Reads the success payload from a JSON value.
    pub fn from_json(v: &serde_json::Value) -> (r: Option<PromptResponse>)
        ensures
            match r {
                Some(p) => decode_response(json_tree(*v)) == Some(p@),
                None => decode_response(json_tree(*v)) is None,
            },
    {
        let id = text_member(v, "id");
        let object = text_member(v, "object");
        let created = u64_member(v, "created");
        let model = text_member(v, "model");
        let usage = match member(v, "usage") {
            Some(u) => PromptResponseUsage::from_json(u),
            None => None,
        };
        let choices = match member(v, "choices") {
            Some(c) => match c.as_array() {
                Some(items) => {
                    proof {
                        if let JsonTree::Array(seq) = json_tree(*c) {
                            assert(items@.map_values(|x: serde_json::Value| json_tree(x)) =~= seq);
                        }
                    }
                    PromptResponseChoice::all_from_json(items)
                },
                None => None,
            },
            None => None,
        };
        match (id, object, created, model, usage, choices) {
            (Some(id), Some(object), Some(created), Some(model), Some(usage), Some(choices)) => {
                Some(PromptResponse { id, object, created, model, usage, choices })
            },
            _ => None,
        }
    }
}

impl PromptResponseError {
    /// Reads the body of the error envelope from a JSON value.
    pub fn from_json(v: &serde_json::Value) -> (r: Option<PromptResponseError>)
        ensures
            match r {
                Some(e) => decode_error_body(json_tree(*v)) == Some(e@),
                None => decode_error_body(json_tree(*v)) is None,
            },
    {
        let message = text_member(v, "message");
        let error_type = text_member(v, "type");
        let param = optional_text_member(v, "param");
        let code = text_member(v, "code");
        match (message, error_type, param, code) {
            (Some(message), Some(error_type), Some(param), Some(code)) => Some(
                PromptResponseError { message, error_type, param, code },
            ),
            _ => None,
        }
    }
}

impl PromptResponseErrorMessage {
    /// Reads the error payload from a JSON value.
    pub fn from_json(v: &serde_json::Value) -> (r: Option<PromptResponseErrorMessage>)
        ensures
            match r {
                Some(e) => decode_error_payload(json_tree(*v)) == Some(e@),
                None => decode_error_payload(json_tree(*v)) is None,
            },
    {
        match member(v, "error") {
            Some(e) => match PromptResponseError::from_json(e) {
                Some(error) => Some(PromptResponseErrorMessage { error }),
                None => None,
            },
            None => None,
        }
    }
}

} // verus!
