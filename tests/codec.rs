use dual_sample::shared::DecodeError;
use dual_sample::task_planner::{FollowUpQuestion, Plan, PlanResponse, Task};
use dual_sample::website_maker;
use dual_sample::ProgramType;

fn trip_plan() -> PlanResponse {
    PlanResponse::Plan(Plan {
        tasks: vec![
            Task {
                title: "Pack bags".to_string(),
                instructions: "Put clothes in a bag".to_string(),
                items: vec!["Clothes".to_string(), "Bag".to_string()],
            },
            Task {
                title: "Drive \"north\"".to_string(),
                instructions: "Take the car".to_string(),
                items: vec![],
            },
        ],
    })
}

#[test]
fn decodes_a_plan() {
    let raw = r#"{"Plan":{"tasks":[{"title":"Pack bags","instructions":"Put clothes in a bag","items":["Clothes"]}]}}"#;
    let expected = PlanResponse::Plan(Plan {
        tasks: vec![Task {
            title: "Pack bags".to_string(),
            instructions: "Put clothes in a bag".to_string(),
            items: vec!["Clothes".to_string()],
        }],
    });
    assert_eq!(PlanResponse::decode(raw), Ok(expected));
}

#[test]
fn decodes_a_question_and_a_location_request() {
    assert_eq!(
        PlanResponse::decode(r#"{"FollowUpQuestion":{"question":"Who is coming?"}}"#),
        Ok(PlanResponse::FollowUpQuestion(FollowUpQuestion { question: "Who is coming?".to_string() }))
    );
    assert_eq!(PlanResponse::decode(r#""RequestMyLocation""#), Ok(PlanResponse::RequestMyLocation));
    assert_eq!(PlanResponse::decode(r#"{"RequestMyLocation":null}"#), Ok(PlanResponse::RequestMyLocation));
}

#[test]
fn unknown_fields_are_ignored() {
    let raw = r#"{"FollowUpQuestion":{"question":"Where?","extra":3}}"#;
    assert_eq!(
        PlanResponse::decode(raw),
        Ok(PlanResponse::FollowUpQuestion(FollowUpQuestion { question: "Where?".to_string() }))
    );
}

#[test]
fn missing_field_is_a_schema_mismatch() {
    let raw = r#"{"Plan":{"tasks":[{"title":"Pack bags","items":[]}]}}"#;
    assert_eq!(PlanResponse::decode(raw), Err(DecodeError::SchemaMismatch));
    assert_eq!(PlanResponse::decode(r#"{"FollowUpQuestion":{}}"#), Err(DecodeError::SchemaMismatch));
}

#[test]
fn wrong_shapes_are_schema_mismatches() {
    assert_eq!(PlanResponse::decode(r#""Plan""#), Err(DecodeError::SchemaMismatch));
    assert_eq!(PlanResponse::decode("42"), Err(DecodeError::SchemaMismatch));
    assert_eq!(PlanResponse::decode(r#"{"Unknown":{}}"#), Err(DecodeError::SchemaMismatch));
    assert_eq!(
        PlanResponse::decode(r#"{"RequestMyLocation":null,"FollowUpQuestion":{"question":"?"}}"#),
        Err(DecodeError::SchemaMismatch)
    );
    assert_eq!(
        PlanResponse::decode(r#"{"Plan":{"tasks":[{"title":"a","instructions":"b","items":[1]}]}}"#),
        Err(DecodeError::SchemaMismatch)
    );
}

#[test]
fn text_that_is_not_json_is_malformed() {
    assert_eq!(PlanResponse::decode("Sure! Here is your plan:"), Err(DecodeError::MalformedPayload));
    assert_eq!(PlanResponse::decode(""), Err(DecodeError::MalformedPayload));
    assert_eq!(PlanResponse::decode(r#"{"Plan":"#), Err(DecodeError::MalformedPayload));
}

#[test]
fn serialized_answers_decode_to_themselves() {
    let answers = vec![
        trip_plan(),
        PlanResponse::FollowUpQuestion(FollowUpQuestion { question: "Who?".to_string() }),
        PlanResponse::RequestMyLocation,
        PlanResponse::Plan(Plan { tasks: vec![] }),
    ];
    for a in answers {
        let text = a.to_json_text();
        assert_eq!(PlanResponse::decode(&text), Ok(a));
    }
}

#[test]
fn json_text_is_compact_with_sorted_keys() {
    let a = PlanResponse::Plan(Plan {
        tasks: vec![Task {
            title: "Pack bags".to_string(),
            instructions: "Put clothes in a bag".to_string(),
            items: vec!["Clothes".to_string()],
        }],
    });
    assert_eq!(
        a.to_json_text(),
        r#"{"Plan":{"tasks":[{"instructions":"Put clothes in a bag","items":["Clothes"],"title":"Pack bags"}]}}"#
    );
    let canon: String = a.canonical_text().into_iter().collect();
    assert_eq!(
        canon,
        r#"{"PLAN":{"TASKS":[{"INSTRUCTIONS":"PUT CLOTHES IN A BAG","ITEMS":["CLOTHES"],"TITLE":"PACK BAGS"}]}}"#
    );
    assert_eq!(PlanResponse::RequestMyLocation.to_json_text(), r#""RequestMyLocation""#);
}

#[test]
fn decodes_program_choices() {
    assert_eq!(ProgramType::decode(r#""TaskPlanner""#), Ok(ProgramType::TaskPlanner));
    assert_eq!(ProgramType::decode(r#""WebsiteMaker""#), Ok(ProgramType::WebsiteMaker));
    assert_eq!(ProgramType::decode(r#"{"WebsiteMaker":null}"#), Ok(ProgramType::WebsiteMaker));
    assert_eq!(ProgramType::decode(r#""Other""#), Err(DecodeError::SchemaMismatch));
    assert_eq!(ProgramType::decode(r#"{"TaskPlanner":1}"#), Err(DecodeError::SchemaMismatch));
    assert_eq!(ProgramType::decode("TaskPlanner"), Err(DecodeError::MalformedPayload));
}

#[test]
fn decodes_a_website() {
    let page = website_maker::PlanResponse::decode(r#"{"NewWebsite":{"html":"<p>Hi</p>"}}"#).unwrap();
    assert_eq!(page.html(), "<p>Hi</p>");
    assert_eq!(
        website_maker::PlanResponse::decode(r#"{"NewWebsite":{}}"#),
        Err(DecodeError::SchemaMismatch)
    );
    assert_eq!(website_maker::PlanResponse::decode("<p>Hi</p>"), Err(DecodeError::MalformedPayload));
}
