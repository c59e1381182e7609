use vstd::prelude::*;
use crate::json::{Json, json_parse, member, member_string, member_text, parse_value};
use crate::message::ConversationState;
use crate::shared::{
    Branch, DecodeError, MyError, TransportError, assistant_message, commit_turn, requirements,
    user_message, with_requirements,
};

verus! {

/// A whole web page.
#[derive(Debug, Clone, PartialEq)]
pub struct Html {
    pub html: String,
}

/// What the website maker answers: a new page.
#[derive(Debug, Clone, PartialEq)]
pub enum PlanResponse {
    NewWebsite(Html),
}

impl View for PlanResponse {
    type V = Seq<char>;

    open spec fn view(&self) -> Seq<char> {
        match self {
            PlanResponse::NewWebsite(h) => h.html@,
        }
    }
}

pub open spec fn website_instructions(original_html: Seq<char>) -> Seq<char> {
    "Hello! We're redesigning a website. The original website is a single html file that looks like the following:\n\n"@
        + original_html
        + "\n\n. I would like you to regenerate a new version of it as a single html page with all styles inlined. It should contains all the text and content from the previous site. Make sure to make it very exciting."@
}

/// The redesign prompt for the current page and the user's input.
pub fn create_prompt(original_html: &str, new_input: &str) -> (r: String)
    ensures
        r@ == website_instructions(original_html@) + requirements(new_input@),
{
    let mut prompt = String::from_str(
        "Hello! We're redesigning a website. The original website is a single html file that looks like the following:\n\n",
    );
    prompt.append(original_html);
    prompt.append(
        "\n\n. I would like you to regenerate a new version of it as a single html page with all styles inlined. It should contains all the text and content from the previous site. Make sure to make it very exciting.",
    );
    with_requirements(prompt.as_str(), new_input)
}

/// The page that a JSON value stands for: `{"NewWebsite": {"html": "..."}}`.
pub open spec fn website_of(j: Json) -> Option<Seq<char>> {
    match j {
        Json::Object(m) => if m.dom().len() == 1 && m.contains_key("NewWebsite"@) {
            member_text(m["NewWebsite"@], "html"@)
        } else {
            None
        },
        _ => None,
    }
}

pub open spec fn decode_spec(raw: Seq<char>) -> Result<Seq<char>, DecodeError> {
    match json_parse(raw) {
        None => Err(DecodeError::MalformedPayload),
        Some(j) => match website_of(j) {
            None => Err(DecodeError::SchemaMismatch),
            Some(h) => Ok(h),
        },
    }
}

impl PlanResponse {
    /// The page's HTML text.
    pub fn html(&self) -> (r: &str)
        ensures
            r@ == self@,
    {
        match self {
            PlanResponse::NewWebsite(h) => h.html.as_str(),
        }
    }

    /// Decodes a reply text into a page, whole or not at all.
    pub fn decode(raw: &str) -> (r: Result<PlanResponse, DecodeError>)
        ensures
            match decode_spec(raw@) {
                Ok(h) => r is Ok && r->Ok_0@ == h,
                Err(e) => r == Err::<PlanResponse, DecodeError>(e),
            },
    {
        let v = match parse_value(raw) {
            Some(v) => v,
            None => return Err(DecodeError::MalformedPayload),
        };
        let n = match v.as_object() {
            Some(m) => m.len(),
            None => return Err(DecodeError::SchemaMismatch),
        };
        if n != 1 {
            return Err(DecodeError::SchemaMismatch);
        }
        match member(&v, "NewWebsite") {
            Some(x) => match member_string(x, "html") {
                Some(html) => Ok(PlanResponse::NewWebsite(Html { html })),
                None => Err(DecodeError::SchemaMismatch),
            },
            None => Err(DecodeError::SchemaMismatch),
        }
    }
}

/// Ends a single-reply turn. Where the reply arrives and decodes, the user's
/// message and the reply are appended to the history; otherwise the history
/// is left as it was.
pub fn settle(
    state: &mut ConversationState,
    prompt: &str,
    reply: Result<String, TransportError>,
) -> (r: Result<PlanResponse, MyError>)
    ensures
        match reply {
            Err(e) => r == Err::<PlanResponse, MyError>(MyError::Transport(Branch::Primary, e))
                && final(state)@ == old(state)@,
            Ok(raw) => match decode_spec(raw@) {
                Err(e) => r == Err::<PlanResponse, MyError>(MyError::Decode(Branch::Primary, e))
                    && final(state)@ == old(state)@,
                Ok(h) => r is Ok && r->Ok_0@ == h && final(state)@ == old(state)@.push(
                    user_message(prompt@),
                ).push(assistant_message(raw@)),
            },
        },
{
    let raw = match reply {
        Err(e) => return Err(MyError::Transport(Branch::Primary, e)),
        Ok(raw) => raw,
    };
    match PlanResponse::decode(raw.as_str()) {
        Err(e) => Err(MyError::Decode(Branch::Primary, e)),
        Ok(page) => {
            commit_turn(state, prompt, raw);
            Ok(page)
        },
    }
}

} // verus!
