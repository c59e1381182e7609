use vstd::prelude::*;
use serde_json::{Map as JsonMap, Value};
use crate::json::{
    Json, array_value, bool_value, json_parse, json_view, member, member_of, member_string,
    member_text, object_value, parse_value, text_value,
};
use crate::message::{ConversationState, Message, MessageView, Role, role_text};
use crate::score::{agreement, lemma_agreement_reflexive, score_chars};
use crate::task_planner::{PlanResponse, PlanResponseView, canonical, decode_spec};

verus! {

/// The tail of every prompt: a fixed heading, then the user's input.
pub open spec fn requirements(new_input: Seq<char>) -> Seq<char> {
    "\nHere are the requirements:\n\n"@ + new_input
}

/// An instruction text followed by the user's input under a heading.
pub fn with_requirements(instructions: &str, new_input: &str) -> (r: String)
    ensures
        r@ == instructions@ + requirements(new_input@),
{
    let mut r = String::from_str(instructions);
    r.append("\nHere are the requirements:\n\n");
    r.append(new_input);
    proof {
        assert(r@ =~= instructions@ + requirements(new_input@));
    }
    r
}

/// Why a reply text could not be decoded.
#[derive(Debug, Clone, Copy, PartialEq, Eq, Structural)]
pub enum DecodeError {
    /// The text is not JSON at all.
    MalformedPayload,
    /// The text is JSON, but not of the expected shape.
    SchemaMismatch,
}

/// Why the generation endpoint gave no reply.
#[derive(Debug, Clone, Copy, PartialEq, Eq, Structural)]
pub enum TransportError {
    Unreachable,
    Timeout,
    /// The endpoint's envelope, not the generated content, is malformed.
    UnexpectedResponseShape,
}

/// One of the two generation attempts of a turn.
#[derive(Debug, Clone, Copy, PartialEq, Eq, Structural)]
pub enum Branch {
    /// The branch whose reply is kept in the history.
    Primary,
    Secondary,
}

/// Why a turn failed.
#[derive(Debug, Clone, Copy, PartialEq, Eq, Structural)]
pub enum MyError {
    Decode(Branch, DecodeError),
    Transport(Branch, TransportError),
    /// Failure outside a turn, such as unreadable input.
    Other,
}

pub open spec fn error_text(e: MyError) -> Seq<char> {
    match e {
        MyError::Decode(_, DecodeError::MalformedPayload) => "The model's reply is not valid JSON"@,
        MyError::Decode(_, DecodeError::SchemaMismatch) => "The model's reply does not have the expected shape"@,
        MyError::Transport(_, TransportError::Unreachable) => "The model could not be reached"@,
        MyError::Transport(_, TransportError::Timeout) => "The model did not answer in time"@,
        MyError::Transport(_, TransportError::UnexpectedResponseShape) => "The model's envelope is malformed"@,
        MyError::Other => "Some other error occured!"@,
    }
}

impl MyError {
    /// A sentence that describes the failure.
    pub fn message(&self) -> (r: String)
        ensures
            r@ == error_text(*self),
    {
        let s = match self {
            MyError::Decode(_, DecodeError::MalformedPayload) => "The model's reply is not valid JSON",
            MyError::Decode(_, DecodeError::SchemaMismatch) => "The model's reply does not have the expected shape",
            MyError::Transport(_, TransportError::Unreachable) => "The model could not be reached",
            MyError::Transport(_, TransportError::Timeout) => "The model did not answer in time",
            MyError::Transport(_, TransportError::UnexpectedResponseShape) => "The model's envelope is malformed",
            MyError::Other => "Some other error occured!",
        };
        String::from_str(s)
    }
}

/// The two answers of a turn and how well they agree, from 0 to 100.
#[derive(Debug, PartialEq)]
pub struct ResponseWith<A> {
    pub response_a: A,
    pub response_b: A,
    pub compare_score: u32,
}

pub open spec fn user_message(prompt: Seq<char>) -> MessageView {
    MessageView { role: Role::User, content: prompt }
}

pub open spec fn assistant_message(reply: Seq<char>) -> MessageView {
    MessageView { role: Role::Assistant, content: reply }
}

/// What a turn decides from the two branches' replies: the primary branch
/// is looked at first, its transport before its decoding.
pub open spec fn turn_outcome(
    primary: Result<String, TransportError>,
    secondary: Result<String, TransportError>,
) -> Result<(PlanResponseView, PlanResponseView), MyError> {
    match primary {
        Err(e) => Err(MyError::Transport(Branch::Primary, e)),
        Ok(p) => match decode_spec(p@) {
            Err(e) => Err(MyError::Decode(Branch::Primary, e)),
            Ok(a) => match secondary {
                Err(e) => Err(MyError::Transport(Branch::Secondary, e)),
                Ok(s) => match decode_spec(s@) {
                    Err(e) => Err(MyError::Decode(Branch::Secondary, e)),
                    Ok(b) => Ok((a, b)),
                },
            },
        },
    }
}

/// Starts a turn: two independent copies of the history, each with the user's
/// message appended, one for each branch.
pub fn open_turn(state: &ConversationState, prompt: &str) -> (r: (
    ConversationState,
    ConversationState,
))
    ensures
        r.0@ == state@.push(user_message(prompt@)),
        r.1@ == state@.push(user_message(prompt@)),
{
    let mut primary = state.branch();
    let mut secondary = state.branch();
    primary.append(Message::new(Role::User, prompt));
    secondary.append(Message::new(Role::User, prompt));
    (primary, secondary)
}

/// Ends a turn from the two branches' replies. Where both arrive and decode,
/// the answers are returned with their agreement, and the user's message and
/// the primary's reply are appended to the history. Otherwise the first
/// failure is returned and the history is left as it was.
pub fn settle_turn(
    state: &mut ConversationState,
    prompt: &str,
    primary: Result<String, TransportError>,
    secondary: Result<String, TransportError>,
) -> (r: Result<ResponseWith<PlanResponse>, MyError>)
    ensures
        match turn_outcome(primary, secondary) {
            Err(e) => r == Err::<ResponseWith<PlanResponse>, MyError>(e) && final(state)@ == old(
                state,
            )@,
            Ok((a, b)) => r is Ok && r->Ok_0.response_a@ == a && r->Ok_0.response_b@ == b
                && r->Ok_0.compare_score == agreement(canonical(a), canonical(b)) && final(state)@
                == old(state)@.push(user_message(prompt@)).push(
                assistant_message(primary->Ok_0@),
            ),
        },
{
    let raw_a = match primary {
        Err(e) => return Err(MyError::Transport(Branch::Primary, e)),
        Ok(p) => p,
    };
    let a = match PlanResponse::decode(raw_a.as_str()) {
        Err(e) => return Err(MyError::Decode(Branch::Primary, e)),
        Ok(a) => a,
    };
    let raw_b = match secondary {
        Err(e) => return Err(MyError::Transport(Branch::Secondary, e)),
        Ok(s) => s,
    };
    let b = match PlanResponse::decode(raw_b.as_str()) {
        Err(e) => return Err(MyError::Decode(Branch::Secondary, e)),
        Ok(b) => b,
    };
    let compare_score = score_chars(&a.canonical_text(), &b.canonical_text());
    commit_turn(state, prompt, raw_a);
    Ok(ResponseWith { response_a: a, response_b: b, compare_score })
}

/// Two branches that give the same answer agree fully.
pub proof fn lemma_same_answers_agree(a: PlanResponseView)
    ensures
        agreement(canonical(a), canonical(a)) == 100,
{
    lemma_agreement_reflexive(canonical(a));
}

/// Records a finished turn: the user's message, then the reply.
pub fn commit_turn(state: &mut ConversationState, prompt: &str, reply: String)
    ensures
        final(state)@ == old(state)@.push(user_message(prompt@)).push(assistant_message(reply@)),
{
    state.append(Message::new(Role::User, prompt));
    state.append(Message { role: Role::Assistant, content: reply });
}

/// The generated content inside the endpoint's reply envelope, which has
/// the form `{"message": {"role": ..., "content": "..."}, ...}`.
pub open spec fn envelope_content(body: Seq<char>) -> Option<Seq<char>> {
    match json_parse(body) {
        Some(j) => match member_of(j, "message"@) {
            Some(m) => member_text(m, "content"@),
            None => None,
        },
        None => None,
    }
}

/// Takes the generated content out of the endpoint's reply envelope.
pub fn reply_content(body: &str) -> (r: Result<String, TransportError>)
    ensures
        match envelope_content(body@) {
            Some(c) => r is Ok && r->Ok_0@ == c,
            None => r == Err::<String, TransportError>(TransportError::UnexpectedResponseShape),
        },
{
    let v = match parse_value(body) {
        Some(v) => v,
        None => return Err(TransportError::UnexpectedResponseShape),
    };
    let m = match member(&v, "message") {
        Some(m) => m,
        None => return Err(TransportError::UnexpectedResponseShape),
    };
    match member_string(m, "content") {
        Some(c) => Ok(c),
        None => Err(TransportError::UnexpectedResponseShape),
    }
}

pub open spec fn message_json(m: MessageView) -> Json {
    Json::Object(
        Map::empty().insert("role"@, Json::Text(role_text(m.role))).insert(
            "content"@,
            Json::Text(m.content),
        ),
    )
}

/// The generation request: the model, the whole history, no streaming, and
/// the schema that the reply should follow.
pub open spec fn request_json(model: Seq<char>, history: Seq<MessageView>, format: Json) -> Json {
    Json::Object(
        Map::empty().insert("model"@, Json::Text(model)).insert(
            "messages"@,
            Json::Array(history.map_values(|m: MessageView| message_json(m))),
        ).insert("stream"@, Json::Bool(false)).insert("format"@, format),
    )
}

fn message_value(m: &Message) -> (r: Value)
    ensures
        json_view(r) == message_json(m@),
{
    let mut o = JsonMap::new();
    o.insert(String::from_str("role"), text_value(m.role.as_text()));
    o.insert(String::from_str("content"), text_value(m.content.clone()));
    object_value(o)
}

/// Builds the body of a generation request for a branch's history.
pub fn request_body(model: &str, history: &ConversationState, format: Value) -> (r: Value)
    ensures
        json_view(r) == request_json(model@, history@, json_view(format)),
{
    let mut items: Vec<Value> = Vec::new();
    let mut i: usize = 0;
    while i < history.len()
        invariant
            i <= history@.len(),
            items@.len() == i,
            forall|t: int| 0 <= t < i ==> json_view(#[trigger] items@[t]) == message_json(history@[t]),
        decreases history@.len() - i,
    {
        items.push(message_value(history.get(i)));
        i = i + 1;
    }
    assert(items@.map_values(|x: Value| json_view(x)) =~= history@.map_values(
        |m: MessageView| message_json(m),
    ));
    let mut o = JsonMap::new();
    o.insert(String::from_str("model"), text_value(String::from_str(model)));
    o.insert(String::from_str("messages"), array_value(items));
    o.insert(String::from_str("stream"), bool_value(false));
    o.insert(String::from_str("format"), format);
    object_value(o)
}

} // verus!
