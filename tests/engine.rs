use dual_sample::message::{ConversationState, Message, Role};
use dual_sample::score::score;
use dual_sample::shared::{
    open_turn, reply_content, request_body, settle_turn, Branch, DecodeError, MyError, TransportError,
};
use dual_sample::task_planner::{self, PlanResponse};
use dual_sample::{create_prompt, website_maker, ProgramType};

fn plan_text(title: &str) -> String {
    format!(
        r#"{{"Plan":{{"tasks":[{{"title":"{}","instructions":"Put clothes in a bag","items":["Clothes"]}}]}}}}"#,
        title
    )
}

#[test]
fn identical_replies_agree_fully_and_commit_the_primary() {
    let mut state = ConversationState::new();
    let prompt = "Plan a weekend trip";
    let (a, b) = open_turn(&state, prompt);
    assert_eq!(a.len(), 1);
    assert_eq!(b.len(), 1);
    assert_eq!(state.len(), 0);
    let primary = plan_text("Pack bags");
    let out = settle_turn(&mut state, prompt, Ok(primary.clone()), Ok(plan_text("Pack bags"))).unwrap();
    assert_eq!(out.compare_score, 100);
    assert_eq!(out.response_a, out.response_b);
    assert_eq!(state.len(), 2);
    assert_eq!(state.get(0).role(), Role::User);
    assert_eq!(state.get(0).content(), prompt);
    assert_eq!(state.get(1).role(), Role::Assistant);
    assert_eq!(state.get(1).content(), primary);
}

#[test]
fn replies_differing_in_one_title_agree_partly() {
    let mut state = ConversationState::new();
    let prompt = "Plan a weekend trip";
    let out = settle_turn(&mut state, prompt, Ok(plan_text("Pack bags")), Ok(plan_text("Packing"))).unwrap();
    let ca = r#"{"PLAN":{"TASKS":[{"INSTRUCTIONS":"PUT CLOTHES IN A BAG","ITEMS":["CLOTHES"],"TITLE":"PACK BAGS"}]}}"#;
    let cb = r#"{"PLAN":{"TASKS":[{"INSTRUCTIONS":"PUT CLOTHES IN A BAG","ITEMS":["CLOTHES"],"TITLE":"PACKING"}]}}"#;
    // distance 4 over 100 characters
    assert_eq!(out.compare_score, 96);
    assert_eq!(out.compare_score, score(ca, cb));
    assert!(out.compare_score > 0 && out.compare_score < 100);
    assert_eq!(state.get(1).content(), plan_text("Pack bags"));
}

#[test]
fn malformed_primary_fails_the_turn_and_keeps_history() {
    let mut state = ConversationState::new();
    state.append(Message::new(Role::User, "earlier"));
    let r = settle_turn(&mut state, "Plan a weekend trip", Ok("not json".to_string()), Ok(plan_text("x")));
    assert_eq!(r, Err(MyError::Decode(Branch::Primary, DecodeError::MalformedPayload)));
    assert_eq!(state.len(), 1);
}

#[test]
fn secondary_failures_are_reported_by_branch() {
    let mut state = ConversationState::new();
    let r = settle_turn(&mut state, "p", Ok(plan_text("a")), Err(TransportError::Timeout));
    assert_eq!(r, Err(MyError::Transport(Branch::Secondary, TransportError::Timeout)));
    let r = settle_turn(&mut state, "p", Ok(plan_text("a")), Ok(r#"{"Plan":{}}"#.to_string()));
    assert_eq!(r, Err(MyError::Decode(Branch::Secondary, DecodeError::SchemaMismatch)));
    let r = settle_turn(&mut state, "p", Err(TransportError::Unreachable), Ok("bad".to_string()));
    assert_eq!(r, Err(MyError::Transport(Branch::Primary, TransportError::Unreachable)));
    assert_eq!(state.len(), 0);
}

#[test]
fn successful_turns_grow_history_by_two() {
    let mut state = ConversationState::new();
    for i in 0..3 {
        settle_turn(&mut state, "again", Ok(plan_text("a")), Ok(plan_text("b"))).unwrap();
        assert_eq!(state.len(), 2 * (i + 1));
    }
}

#[test]
fn empty_input_is_still_a_turn() {
    let state = ConversationState::new();
    let (a, _) = open_turn(&state, "");
    assert_eq!(a.get(0).content(), "");
}

#[test]
fn reads_the_envelope_content() {
    let body = r#"{"model":"m","created_at":"now","message":{"role":"assistant","content":"\"RequestMyLocation\""}}"#;
    assert_eq!(reply_content(body), Ok(r#""RequestMyLocation""#.to_string()));
    assert_eq!(reply_content(r#"{"message":{"role":"assistant"}}"#), Err(TransportError::UnexpectedResponseShape));
    assert_eq!(reply_content("oops"), Err(TransportError::UnexpectedResponseShape));
}

#[test]
fn builds_the_request_body() {
    let mut state = ConversationState::new();
    state.append(Message::new(Role::User, "hi"));
    let format = serde_json::Value::String("schema".to_string());
    let body = request_body("qwen", &state, format.clone());
    assert_eq!(body["model"], serde_json::Value::String("qwen".to_string()));
    assert_eq!(body["stream"], serde_json::Value::Bool(false));
    assert_eq!(body["format"], format);
    assert_eq!(body["messages"][0]["role"], serde_json::Value::String("user".to_string()));
    assert_eq!(body["messages"][0]["content"], serde_json::Value::String("hi".to_string()));
}

#[test]
fn prompts_end_with_the_requirements() {
    assert_eq!(
        create_prompt("plan"),
        "Hello! I need you to decide which program we're going to run.\nHere are the requirements:\n\nplan"
    );
    let p = task_planner::create_prompt("trip");
    assert!(p.starts_with("\n        Hello! \n\n        I need you to help me break down some tasks into steps."));
    assert!(p.ends_with("with each step. \n        \nHere are the requirements:\n\ntrip"));
    let w = website_maker::create_prompt("<p>old</p>", "loud");
    assert!(w.starts_with("Hello! We're redesigning a website."));
    assert!(w.contains("looks like the following:\n\n<p>old</p>\n\n. I would like"));
    assert!(w.ends_with("very exciting.\nHere are the requirements:\n\nloud"));
}

#[test]
fn single_reply_turns_commit_only_on_success() {
    let mut state = ConversationState::new();
    assert_eq!(
        ProgramType::settle(&mut state, "go", Ok("nope".to_string())),
        Err(MyError::Decode(Branch::Primary, DecodeError::MalformedPayload))
    );
    assert_eq!(state.len(), 0);
    assert_eq!(ProgramType::settle(&mut state, "go", Ok(r#""TaskPlanner""#.to_string())), Ok(ProgramType::TaskPlanner));
    assert_eq!(state.len(), 2);
    let page = website_maker::settle(&mut state, "x", Ok(r#"{"NewWebsite":{"html":"<b>"}}"#.to_string())).unwrap();
    assert_eq!(page.html(), "<b>");
    assert_eq!(state.len(), 4);
    assert_eq!(
        website_maker::settle(&mut state, "x", Err(TransportError::Timeout)),
        Err(MyError::Transport(Branch::Primary, TransportError::Timeout))
    );
    assert_eq!(state.len(), 4);
}

#[test]
fn errors_describe_themselves() {
    assert_eq!(MyError::Other.message(), "Some other error occured!");
    assert_ne!(
        MyError::Decode(Branch::Primary, DecodeError::MalformedPayload).message(),
        MyError::Transport(Branch::Primary, TransportError::Unreachable).message()
    );
    let _ = PlanResponse::RequestMyLocation;
}
