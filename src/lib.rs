//! Asks a chat model the same question twice, decodes both replies against
//! the expected answer shape, and scores how well the two agree by edit
//! distance. The history of a session grows only by turns that succeed.
//!
//! `score`: edit distance and agreement; `json`: what serde_json values hold;
//! `message`: the session history; `shared`: errors and the two-branch turn;
//! `task_planner`, `website_maker` and this root: the answer types.

use vstd::prelude::*;
use crate::json::{Json, json_parse, member, parse_value, same_text};
use crate::message::ConversationState;
use crate::shared::{
    Branch, DecodeError, MyError, TransportError, assistant_message, commit_turn, requirements,
    user_message, with_requirements,
};

pub mod json;
pub mod message;
pub mod score;
pub mod shared;
pub mod task_planner;
pub mod website_maker;

verus! {

/// Which program the user's request is for.
#[derive(Debug, Clone, Copy, PartialEq, Eq, Structural)]
pub enum ProgramType {
    TaskPlanner,
    WebsiteMaker,
}

/// The routing prompt for the user's input.
pub fn create_prompt(new_input: &str) -> (r: String)
    ensures
        r@ == "Hello! I need you to decide which program we're going to run."@ + requirements(
            new_input@,
        ),
{
    with_requirements("Hello! I need you to decide which program we're going to run.", new_input)
}

pub open spec fn program_name(t: ProgramType) -> Seq<char> {
    match t {
        ProgramType::TaskPlanner => "TaskPlanner"@,
        ProgramType::WebsiteMaker => "WebsiteMaker"@,
    }
}

/// The program that a JSON value names: `"TaskPlanner"` or `"WebsiteMaker"`,
/// also as `{"TaskPlanner": null}` or `{"WebsiteMaker": null}`.
pub open spec fn program_of(j: Json) -> Option<ProgramType> {
    match j {
        Json::Text(s) => if s == program_name(ProgramType::TaskPlanner) {
            Some(ProgramType::TaskPlanner)
        } else if s == program_name(ProgramType::WebsiteMaker) {
            Some(ProgramType::WebsiteMaker)
        } else {
            None
        },
        Json::Object(m) => if m.dom().len() != 1 {
            None
        } else if m.contains_key(program_name(ProgramType::TaskPlanner))
            && m[program_name(ProgramType::TaskPlanner)] == Json::Null {
            Some(ProgramType::TaskPlanner)
        } else if m.contains_key(program_name(ProgramType::WebsiteMaker))
            && m[program_name(ProgramType::WebsiteMaker)] == Json::Null {
            Some(ProgramType::WebsiteMaker)
        } else {
            None
        },
        _ => None,
    }
}

pub open spec fn decode_program_spec(raw: Seq<char>) -> Result<ProgramType, DecodeError> {
    match json_parse(raw) {
        None => Err(DecodeError::MalformedPayload),
        Some(j) => match program_of(j) {
            None => Err(DecodeError::SchemaMismatch),
            Some(t) => Ok(t),
        },
    }
}

impl ProgramType {
    /// Decodes a reply text into a program choice.
    pub fn decode(raw: &str) -> (r: Result<ProgramType, DecodeError>)
        ensures
            r == decode_program_spec(raw@),
    {
        let v = match parse_value(raw) {
            Some(v) => v,
            None => return Err(DecodeError::MalformedPayload),
        };
        match v.as_str() {
            Some(s) => {
                return if same_text(s, "TaskPlanner") {
                    Ok(ProgramType::TaskPlanner)
                } else if same_text(s, "WebsiteMaker") {
                    Ok(ProgramType::WebsiteMaker)
                } else {
                    Err(DecodeError::SchemaMismatch)
                };
            },
            None => {},
        }
        let n = match v.as_object() {
            Some(m) => m.len(),
            None => return Err(DecodeError::SchemaMismatch),
        };
        if n != 1 {
            return Err(DecodeError::SchemaMismatch);
        }
        match member(&v, "TaskPlanner") {
            Some(x) => {
                if x.is_null() {
                    return Ok(ProgramType::TaskPlanner);
                }
            },
            None => {},
        }
        match member(&v, "WebsiteMaker") {
            Some(x) => {
                if x.is_null() {
                    return Ok(ProgramType::WebsiteMaker);
                }
            },
            None => {},
        }
        Err(DecodeError::SchemaMismatch)
    }

    /// Ends the routing turn. Where the reply arrives and decodes, the user's
    /// message and the reply are appended to the history; otherwise the
    /// history is left as it was.
    pub fn settle(
        state: &mut ConversationState,
        prompt: &str,
        reply: Result<String, TransportError>,
    ) -> (r: Result<ProgramType, MyError>)
        ensures
            match reply {
                Err(e) => r == Err::<ProgramType, MyError>(MyError::Transport(Branch::Primary, e))
                    && final(state)@ == old(state)@,
                Ok(raw) => match decode_program_spec(raw@) {
                    Err(e) => r == Err::<ProgramType, MyError>(MyError::Decode(Branch::Primary, e))
                        && final(state)@ == old(state)@,
                    Ok(t) => r == Ok::<ProgramType, MyError>(t) && final(state)@ == old(
                        state,
                    )@.push(user_message(prompt@)).push(assistant_message(raw@)),
                },
            },
    {
        let raw = match reply {
            Err(e) => return Err(MyError::Transport(Branch::Primary, e)),
            Ok(raw) => raw,
        };
        match ProgramType::decode(raw.as_str()) {
            Err(e) => Err(MyError::Decode(Branch::Primary, e)),
            Ok(t) => {
                commit_turn(state, prompt, raw);
                Ok(t)
            },
        }
    }
}

} // verus!
