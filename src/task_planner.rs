use vstd::prelude::*;
use serde_json::{Map as JsonMap, Value};
use crate::score::{chars_of, to_upper, upper};
use crate::shared::{DecodeError, requirements, with_requirements};
use crate::json::{
    json_parse, json_text, value_text, parse_value,
    Json, json_view, member, member_of, member_string, member_text, object_value, same_text,
    string_list, string_list_value, text_array, text_value, texts_of, array_value,
};

verus! {

/// Instructions that open every task-planning prompt.
pub const PLANNER_INSTRUCTIONS: &'static str = r#"
        Hello! 

        I need you to help me break down some tasks into steps. 

        If anything is unclear, please return a `FollowUpQuestion`.
        If you'd like to know my current location, return a `RequestMyLocation`, but only once.

        If you have enough information, return a `Plan`.

        Things to ensure before returning a plan:
        - I know where I am travelling, and how I will get there  
        - If I need to take anything with me, and how I will transport those things
        - Who is coming with me.

        Keep the titles short and snappy, and include a list of items I will require with each step. 
        "#;

/// The task-planning prompt for the user's input.
pub fn create_prompt(new_input: &str) -> (r: String)
    ensures
        r@ == PLANNER_INSTRUCTIONS@ + requirements(new_input@),
{
    with_requirements(PLANNER_INSTRUCTIONS, new_input)
}

/// One step of a plan.
#[derive(Debug, Clone, PartialEq)]
pub struct Task {
    pub title: String,
    pub instructions: String,
    pub items: Vec<String>,
}

/// An ordered list of steps.
#[derive(Debug, Clone, PartialEq)]
pub struct Plan {
    pub tasks: Vec<Task>,
}

/// A question the model asks back when the request is unclear.
#[derive(Debug, Clone, PartialEq)]
pub struct FollowUpQuestion {
    pub question: String,
}

/// What the task planner may answer: a plan, a question, or a request for
/// the user's location.
#[derive(Debug, Clone, PartialEq)]
pub enum PlanResponse {
    Plan(Plan),
    FollowUpQuestion(FollowUpQuestion),
    RequestMyLocation,
}

pub struct TaskView {
    pub title: Seq<char>,
    pub instructions: Seq<char>,
    pub items: Seq<Seq<char>>,
}

pub enum PlanResponseView {
    Plan(Seq<TaskView>),
    FollowUpQuestion(Seq<char>),
    RequestMyLocation,
}

impl View for Task {
    type V = TaskView;

    open spec fn view(&self) -> TaskView {
        TaskView {
            title: self.title@,
            instructions: self.instructions@,
            items: self.items@.map_values(|s: String| s@),
        }
    }
}

impl View for Plan {
    type V = Seq<TaskView>;

    open spec fn view(&self) -> Seq<TaskView> {
        self.tasks@.map_values(|t: Task| t@)
    }
}

impl View for PlanResponse {
    type V = PlanResponseView;

    open spec fn view(&self) -> PlanResponseView {
        match self {
            PlanResponse::Plan(p) => PlanResponseView::Plan(p@),
            PlanResponse::FollowUpQuestion(q) => PlanResponseView::FollowUpQuestion(q.question@),
            PlanResponse::RequestMyLocation => PlanResponseView::RequestMyLocation,
        }
    }
}

pub open spec fn task_of(j: Json) -> Option<TaskView> {
    match (member_text(j, "title"@), member_text(j, "instructions"@), member_of(j, "items"@)) {
        (Some(title), Some(instructions), Some(items)) => match texts_of(items) {
            Some(items) => Some(TaskView { title, instructions, items }),
            None => None,
        },
        _ => None,
    }
}

pub open spec fn tasks_of(j: Json) -> Option<Seq<TaskView>> {
    match member_of(j, "tasks"@) {
        Some(Json::Array(items)) => if forall|i: int|
            0 <= i < items.len() ==> (#[trigger] task_of(items[i])) is Some {
            Some(items.map_values(|x: Json| task_of(x)->0))
        } else {
            None
        },
        _ => None,
    }
}

/// The answer that a JSON value stands for, in the externally tagged form:
/// `{"Plan": {...}}`, `{"FollowUpQuestion": {...}}`, or the bare string
/// `"RequestMyLocation"` (also `{"RequestMyLocation": null}`). Fields that
/// the answer does not name are ignored.
pub open spec fn plan_response_of(j: Json) -> Option<PlanResponseView> {
    match j {
        Json::Text(s) => if s == "RequestMyLocation"@ {
            Some(PlanResponseView::RequestMyLocation)
        } else {
            None
        },
        Json::Object(m) => if m.dom().len() != 1 {
            None
        } else if m.contains_key("Plan"@) {
            match tasks_of(m["Plan"@]) {
                Some(ts) => Some(PlanResponseView::Plan(ts)),
                None => None,
            }
        } else if m.contains_key("FollowUpQuestion"@) {
            match member_text(m["FollowUpQuestion"@], "question"@) {
                Some(q) => Some(PlanResponseView::FollowUpQuestion(q)),
                None => None,
            }
        } else if m.contains_key("RequestMyLocation"@) && m["RequestMyLocation"@] == Json::Null {
            Some(PlanResponseView::RequestMyLocation)
        } else {
            None
        },
        _ => None,
    }
}

pub open spec fn task_json(t: TaskView) -> Json {
    Json::Object(
        Map::empty().insert("title"@, Json::Text(t.title)).insert(
            "instructions"@,
            Json::Text(t.instructions),
        ).insert("items"@, text_array(t.items)),
    )
}

/// The JSON form of an answer.
pub open spec fn plan_response_json(v: PlanResponseView) -> Json {
    match v {
        PlanResponseView::Plan(ts) => Json::Object(
            Map::empty().insert(
                "Plan"@,
                Json::Object(
                    Map::empty().insert(
                        "tasks"@,
                        Json::Array(ts.map_values(|t: TaskView| task_json(t))),
                    ),
                ),
            ),
        ),
        PlanResponseView::FollowUpQuestion(q) => Json::Object(
            Map::empty().insert(
                "FollowUpQuestion"@,
                Json::Object(Map::empty().insert("question"@, Json::Text(q))),
            ),
        ),
        PlanResponseView::RequestMyLocation => Json::Text("RequestMyLocation"@),
    }
}

fn task_from(v: &Value) -> (r: Option<Task>)
    ensures
        match task_of(json_view(*v)) {
            Some(t) => r is Some && r->0@ == t,
            None => r is None,
        },
{
    let title = match member_string(v, "title") {
        Some(s) => s,
        None => return None,
    };
    let instructions = match member_string(v, "instructions") {
        Some(s) => s,
        None => return None,
    };
    let items = match member(v, "items") {
        Some(x) => match string_list(x) {
            Some(items) => items,
            None => return None,
        },
        None => return None,
    };
    Some(Task { title, instructions, items })
}

fn plan_from(v: &Value) -> (r: Option<Plan>)
    ensures
        match tasks_of(json_view(*v)) {
            Some(ts) => r is Some && r->0@ == ts,
            None => r is None,
        },
{
    let list = match member(v, "tasks") {
        Some(x) => x,
        None => return None,
    };
    let items = match list.as_array() {
        Some(items) => items,
        None => return None,
    };
    let ghost js = items@.map_values(|x: Value| json_view(x));
    assert(member_of(json_view(*v), "tasks"@) == Some(Json::Array(js)));
    let mut tasks: Vec<Task> = Vec::new();
    let mut i: usize = 0;
    while i < items.len()
        invariant
            js == items@.map_values(|x: Value| json_view(x)),
            member_of(json_view(*v), "tasks"@) == Some(Json::Array(js)),
            i <= items@.len(),
            tasks@.len() == i,
            forall|t: int|
                0 <= t < i ==> (#[trigger] task_of(js[t])) is Some && tasks@[t]@ == task_of(
                    js[t],
                )->0,
        decreases items@.len() - i,
    {
        match task_from(&items[i]) {
            Some(t) => tasks.push(t),
            None => {
                assert(js[i as int] == json_view(items@[i as int]));
                assert(task_of(js[i as int]) is None);
                return None;
            },
        }
        i = i + 1;
    }
    let p = Plan { tasks };
    assert(p@ =~= js.map_values(|x: Json| task_of(x)->0));
    Some(p)
}

impl PlanResponse {
    /// Reads an answer from a JSON value; `None` where the value does not
    /// have the answer's shape.
    pub fn from_value(v: &Value) -> (r: Option<PlanResponse>)
        ensures
            match plan_response_of(json_view(*v)) {
                Some(a) => r is Some && r->0@ == a,
                None => r is None,
            },
    {
        proof {
            reveal_strlit("RequestMyLocation");
        }
        match v.as_str() {
            Some(s) => {
                if same_text(s, "RequestMyLocation") {
                    return Some(PlanResponse::RequestMyLocation);
                }
                return None;
            },
            None => {},
        }
        let entries = match v.as_object() {
            Some(m) => m,
            None => return None,
        };
        if entries.len() != 1 {
            return None;
        }
        match member(v, "Plan") {
            Some(x) => {
                return match plan_from(x) {
                    Some(p) => Some(PlanResponse::Plan(p)),
                    None => None,
                };
            },
            None => {},
        }
        match member(v, "FollowUpQuestion") {
            Some(x) => {
                return match member_string(x, "question") {
                    Some(q) => Some(PlanResponse::FollowUpQuestion(FollowUpQuestion { question: q })),
                    None => None,
                };
            },
            None => {},
        }
        match member(v, "RequestMyLocation") {
            Some(x) => {
                if x.is_null() {
                    Some(PlanResponse::RequestMyLocation)
                } else {
                    None
                }
            },
            None => None,
        }
    }
}

fn single_entry(key: &str, v: Value) -> (r: Value)
    ensures
        json_view(r) == Json::Object(Map::empty().insert(key@, json_view(v))),
{
    let mut m = JsonMap::new();
    m.insert(String::from_str(key), v);
    object_value(m)
}

impl Task {
    /// The JSON form of the task.
    pub fn to_value(&self) -> (r: Value)
        ensures
            json_view(r) == task_json(self@),
    {
        let mut m = JsonMap::new();
        m.insert(String::from_str("title"), text_value(self.title.clone()));
        m.insert(String::from_str("instructions"), text_value(self.instructions.clone()));
        m.insert(String::from_str("items"), string_list_value(&self.items));
        object_value(m)
    }
}

impl Plan {
    /// The JSON form of the plan: `{"tasks": [...]}`.
    pub fn to_value(&self) -> (r: Value)
        ensures
            json_view(r) == Json::Object(
                Map::empty().insert(
                    "tasks"@,
                    Json::Array(self@.map_values(|t: TaskView| task_json(t))),
                ),
            ),
    {
        let mut out: Vec<Value> = Vec::new();
        let mut i: usize = 0;
        while i < self.tasks.len()
            invariant
                i <= self.tasks@.len(),
                out@.len() == i,
                forall|t: int| 0 <= t < i ==> json_view(#[trigger] out@[t]) == task_json(self.tasks@[t]@),
            decreases self.tasks@.len() - i,
        {
            out.push(self.tasks[i].to_value());
            i = i + 1;
        }
        assert(out@.map_values(|x: Value| json_view(x)) =~= self@.map_values(|t: TaskView| task_json(t)));
        single_entry("tasks", array_value(out))
    }
}

impl PlanResponse {
    /// The JSON form of the answer, in the externally tagged form that
    /// `from_value` reads.
    pub fn to_value(&self) -> (r: Value)
        ensures
            json_view(r) == plan_response_json(self@),
    {
        match self {
            PlanResponse::Plan(p) => single_entry("Plan", p.to_value()),
            PlanResponse::FollowUpQuestion(q) => single_entry(
                "FollowUpQuestion",
                single_entry("question", text_value(q.question.clone())),
            ),
            PlanResponse::RequestMyLocation => text_value(String::from_str("RequestMyLocation")),
        }
    }
}

proof fn lemma_texts_round_trip(s: Seq<Seq<char>>)
    ensures
        texts_of(text_array(s)) == Some(s),
{
    let items = s.map_values(|t: Seq<char>| Json::Text(t));
    assert(items.map_values(|x: Json| x->Text_0) =~= s);
}

proof fn lemma_task_round_trip(t: TaskView)
    ensures
        task_of(task_json(t)) == Some(t),
{
    reveal_strlit("title");
    reveal_strlit("instructions");
    reveal_strlit("items");
    lemma_texts_round_trip(t.items);
    assert("title"@[0] != "instructions"@[0]);
    assert("title"@[1] != "items"@[1]);
    assert("instructions"@[1] != "items"@[1]);
}

proof fn lemma_single_entry_len(k: Seq<char>, j: Json)
    ensures
        Map::<Seq<char>, Json>::empty().insert(k, j).dom().len() == 1,
{
    assert(Map::<Seq<char>, Json>::empty().insert(k, j).dom() =~= Set::empty().insert(k));
}

/// Reading back the JSON form of an answer gives the same answer.
pub proof fn lemma_plan_response_round_trip(v: PlanResponseView)
    ensures
        plan_response_of(plan_response_json(v)) == Some(v),
{
    reveal_strlit("Plan");
    reveal_strlit("FollowUpQuestion");
    reveal_strlit("RequestMyLocation");
    match v {
        PlanResponseView::Plan(ts) => {
            lemma_single_entry_len("Plan"@, plan_response_json(v)->Object_0["Plan"@]);
            let items = ts.map_values(|t: TaskView| task_json(t));
            assert forall|i: int| 0 <= i < items.len() implies (#[trigger] task_of(items[i])) is Some
                && task_of(items[i])->0 == ts[i] by {
                lemma_task_round_trip(ts[i]);
            }
            assert(items.map_values(|x: Json| task_of(x)->0) =~= ts);
        },
        PlanResponseView::FollowUpQuestion(q) => {
            lemma_single_entry_len(
                "FollowUpQuestion"@,
                plan_response_json(v)->Object_0["FollowUpQuestion"@],
            );
            assert("FollowUpQuestion"@[0] != "Plan"@[0]);
        },
        PlanResponseView::RequestMyLocation => {},
    }
}

/// What decoding a reply text gives: `MalformedPayload` where the text is not
/// JSON, `SchemaMismatch` where it is JSON without an answer's shape.
pub open spec fn decode_spec(raw: Seq<char>) -> Result<PlanResponseView, DecodeError> {
    match json_parse(raw) {
        None => Err(DecodeError::MalformedPayload),
        Some(j) => match plan_response_of(j) {
            None => Err(DecodeError::SchemaMismatch),
            Some(v) => Ok(v),
        },
    }
}

/// The text by which two answers are compared: their compact JSON, in ASCII
/// upper case.
pub open spec fn canonical(v: PlanResponseView) -> Seq<char> {
    upper(json_text(plan_response_json(v)))
}

impl PlanResponse {
    /// Decodes a reply text into an answer, whole or not at all.
    pub fn decode(raw: &str) -> (r: Result<PlanResponse, DecodeError>)
        ensures
            match decode_spec(raw@) {
                Ok(v) => r is Ok && r->Ok_0@ == v,
                Err(e) => r == Err::<PlanResponse, DecodeError>(e),
            },
    {
        match parse_value(raw) {
            None => Err(DecodeError::MalformedPayload),
            Some(v) => match PlanResponse::from_value(&v) {
                None => Err(DecodeError::SchemaMismatch),
                Some(a) => Ok(a),
            },
        }
    }

    /// The compact JSON text of the answer.
    pub fn to_json_text(&self) -> (r: String)
        ensures
            r@ == json_text(plan_response_json(self@)),
    {
        value_text(&self.to_value())
    }

    /// The answer's compact JSON in ASCII upper case, as compared between
    /// two branches.
    pub fn canonical_text(&self) -> (r: Vec<char>)
        ensures
            r@ == canonical(self@),
    {
        let text = self.to_json_text();
        to_upper(&chars_of(text.as_str()))
    }
}

/// A task without its title, its instructions or its items is no task.
pub proof fn lemma_task_needs_every_field(j: Json, key: Seq<char>)
    requires
        key == "title"@ || key == "instructions"@ || key == "items"@,
        member_of(j, key) is None,
    ensures
        task_of(j) is None,
{
}

/// Decoding fails with `MalformedPayload` exactly where the text is not JSON,
/// and with `SchemaMismatch` where it is JSON whose plan has a task that lacks
/// a required field.
pub proof fn lemma_decode_errors(raw: Seq<char>, key: Seq<char>, k: int)
    requires
        key == "title"@ || key == "instructions"@ || key == "items"@,
    ensures
        (decode_spec(raw) == Err::<PlanResponseView, DecodeError>(DecodeError::MalformedPayload))
            <==> json_parse(raw) is None,
        ({
            let j = json_parse(raw)->0;
            &&& json_parse(raw) is Some
            &&& j is Object
            &&& j->Object_0.dom().len() == 1
            &&& j->Object_0.contains_key("Plan"@)
            &&& member_of(j->Object_0["Plan"@], "tasks"@) is Some
            &&& member_of(j->Object_0["Plan"@], "tasks"@)->0 is Array
            &&& 0 <= k < member_of(j->Object_0["Plan"@], "tasks"@)->0->Array_0.len()
            &&& member_of(member_of(j->Object_0["Plan"@], "tasks"@)->0->Array_0[k], key) is None
        }) ==> decode_spec(raw) == Err::<PlanResponseView, DecodeError>(DecodeError::SchemaMismatch),
{
    match json_parse(raw) {
        Some(j) => {
            if j is Object && j->Object_0.dom().len() == 1 && j->Object_0.contains_key("Plan"@) {
                match member_of(j->Object_0["Plan"@], "tasks"@) {
                    Some(Json::Array(items)) => {
                        if 0 <= k < items.len() && member_of(items[k], key) is None {
                            lemma_task_needs_every_field(items[k], key);
                        }
                    },
                    _ => {},
                }
            }
        },
        None => {},
    }
}

} // verus!
