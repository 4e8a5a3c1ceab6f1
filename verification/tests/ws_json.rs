use multiclaw::json::{is_sensitive_key, preview_string, scrub_json, JsonValue, REDACTED};
use multiclaw::ws::{
    agent_event, approval_request_frame, decision_from_word, prompt_outcome, provider_label,
    socket_step, turn_step, upgrade_allowed, AgentOutcome, ApprovalDecision, ApprovalTable,
    SocketStep, TurnEvent, TurnStep, WsIncoming, WsQuery,
};

fn s(x: &str) -> JsonValue {
    JsonValue::Str(x.to_string())
}

fn obj(members: Vec<(&str, JsonValue)>) -> JsonValue {
    JsonValue::Object(members.into_iter().map(|(k, v)| (k.to_string(), v)).collect())
}

fn same(a: &JsonValue, b: &JsonValue) -> bool {
    match (a, b) {
        (JsonValue::Null, JsonValue::Null) => true,
        (JsonValue::Bool(x), JsonValue::Bool(y)) => x == y,
        (JsonValue::Number(x), JsonValue::Number(y)) => x == y,
        (JsonValue::Str(x), JsonValue::Str(y)) => x == y,
        (JsonValue::Array(x), JsonValue::Array(y)) => {
            x.len() == y.len() && x.iter().zip(y.iter()).all(|(p, q)| same(p, q))
        }
        (JsonValue::Object(x), JsonValue::Object(y)) => {
            x.len() == y.len()
                && x.iter().zip(y.iter()).all(|(p, q)| p.0 == q.0 && same(&p.1, &q.1))
        }
        _ => false,
    }
}

#[test]
fn sensitive_keys_any_case() {
    assert!(is_sensitive_key("Authorization_Bearer"));
    assert!(is_sensitive_key("API_KEY"));
    assert!(is_sensitive_key("github_token"));
    assert!(is_sensitive_key("db_Password"));
    assert!(is_sensitive_key("client_secret"));
    assert!(is_sensitive_key("Credentials"));
    assert!(!is_sensitive_key("path"));
    assert!(!is_sensitive_key("apikey"));
}

#[test]
fn preview_cuts_long_strings_by_characters() {
    let short = "短".repeat(400);
    assert_eq!(preview_string(&short), short);
    let long = "短".repeat(401);
    let p = preview_string(&long);
    assert_eq!(p.chars().count(), 401);
    assert!(p.ends_with('…'));
    assert_eq!(p, format!("{}…", "短".repeat(400)));
}

#[test]
fn scrub_redacts_at_any_depth_and_keeps_order() {
    let args = obj(vec![
        ("command", s("ls")),
        ("api_key", s("sk-123")),
        (
            "nested",
            JsonValue::Array(vec![obj(vec![
                ("Token", JsonValue::Number("42".to_string())),
                ("note", s(&"x".repeat(500))),
            ])]),
        ),
        ("n", JsonValue::Null),
        ("b", JsonValue::Bool(true)),
    ]);
    let out = scrub_json(&args);
    let expected = obj(vec![
        ("command", s("ls")),
        ("api_key", s(REDACTED)),
        (
            "nested",
            JsonValue::Array(vec![obj(vec![
                ("Token", s("*[REDACTED]*")),
                ("note", s(&format!("{}…", "x".repeat(400)))),
            ])]),
        ),
        ("n", JsonValue::Null),
        ("b", JsonValue::Bool(true)),
    ]);
    assert!(same(&out, &expected), "{:?}", out);
    let again = scrub_json(&out);
    assert!(same(&again, &out));
}

#[test]
fn get_str_reads_first_string_member() {
    let v = obj(vec![("type", s("message")), ("content", JsonValue::Number("1".to_string()))]);
    assert_eq!(v.get_str("type"), Some("message"));
    assert_eq!(v.get_str("content"), None);
    assert_eq!(v.get_str("missing"), None);
    assert_eq!(s("x").get_str("type"), None);
}

#[test]
fn ws_query_token_and_upgrade() {
    let q = WsQuery { token: Some("abc".to_string()) };
    assert_eq!(q.token_or_empty(), "abc");
    let none = WsQuery { token: None };
    assert_eq!(none.token_or_empty(), "");
    assert!(upgrade_allowed(false, false));
    assert!(upgrade_allowed(true, true));
    assert!(!upgrade_allowed(true, false));
}

#[test]
fn socket_steps_between_turns() {
    assert!(matches!(socket_step(WsIncoming::Close), SocketStep::Stop));
    assert!(matches!(socket_step(WsIncoming::Failed), SocketStep::Stop));
    assert!(matches!(socket_step(WsIncoming::Other), SocketStep::Skip));
    match socket_step(WsIncoming::Text(None)) {
        SocketStep::Reply(f) => {
            assert!(same(&f, &obj(vec![("type", s("error")), ("message", s("Invalid JSON"))])))
        }
        _ => panic!("expected an error frame"),
    }
    let msg = obj(vec![("type", s("message")), ("content", s("Hello"))]);
    match socket_step(WsIncoming::Text(Some(msg))) {
        SocketStep::StartTurn(c) => assert_eq!(c, "Hello"),
        _ => panic!("expected a turn"),
    }
    let empty = obj(vec![("type", s("message")), ("content", s(""))]);
    assert!(matches!(socket_step(WsIncoming::Text(Some(empty))), SocketStep::Skip));
    let approval = obj(vec![("type", s("approval_response")), ("content", s("x"))]);
    assert!(matches!(socket_step(WsIncoming::Text(Some(approval))), SocketStep::Skip));
}

#[test]
fn turn_steps() {
    let marker = "\u{0}CLEAR";
    match turn_step(TurnEvent::Delta(Some("Hi! ".to_string())), marker) {
        TurnStep::Send(f) => assert!(same(&f, &obj(vec![("type", s("chunk")), ("content", s("Hi! "))]))),
        _ => panic!(),
    }
    match turn_step(TurnEvent::Delta(Some(marker.to_string())), marker) {
        TurnStep::Send(f) => assert!(same(&f, &obj(vec![("type", s("chunk")), ("content", s(""))]))),
        _ => panic!(),
    }
    assert!(matches!(turn_step(TurnEvent::Delta(None), marker), TurnStep::Wait));
    assert!(matches!(
        turn_step(TurnEvent::Incoming(WsIncoming::Close), marker),
        TurnStep::Hangup
    ));
    let resp = obj(vec![
        ("type", s("approval_response")),
        ("request_id", s("r1")),
        ("decision", s("always")),
    ]);
    match turn_step(TurnEvent::Incoming(WsIncoming::Text(Some(resp))), marker) {
        TurnStep::Resolve(id, d) => {
            assert_eq!(id, "r1");
            assert_eq!(d, ApprovalDecision::Always);
        }
        _ => panic!(),
    }
    let partial = obj(vec![("type", s("approval_response")), ("request_id", s("r1"))]);
    assert!(matches!(
        turn_step(TurnEvent::Incoming(WsIncoming::Text(Some(partial))), marker),
        TurnStep::Wait
    ));
    match turn_step(TurnEvent::Finished(AgentOutcome::Replied("done!".to_string())), marker) {
        TurnStep::End(f) => assert!(same(&f, &obj(vec![("type", s("done")), ("full_response", s("done!"))]))),
        _ => panic!(),
    }
    match turn_step(TurnEvent::Finished(AgentOutcome::Crashed("boom".to_string())), marker) {
        TurnStep::End(f) => assert!(same(
            &f,
            &obj(vec![("type", s("error")), ("message", s("agent task failed: boom"))])
        )),
        _ => panic!(),
    }
    match turn_step(TurnEvent::Finished(AgentOutcome::Failed("rate limited".to_string())), marker) {
        TurnStep::End(f) => assert!(same(&f, &obj(vec![("type", s("error")), ("message", s("rate limited"))]))),
        _ => panic!(),
    }
}

#[test]
fn decisions_and_prompt_timeout() {
    assert_eq!(decision_from_word("yes"), ApprovalDecision::Yes);
    assert_eq!(decision_from_word("no"), ApprovalDecision::No);
    assert_eq!(decision_from_word("always"), ApprovalDecision::Always);
    assert_eq!(decision_from_word("YES"), ApprovalDecision::No);
    assert_eq!(prompt_outcome(None), ApprovalDecision::No);
    assert_eq!(prompt_outcome(Some(ApprovalDecision::Yes)), ApprovalDecision::Yes);
}

#[test]
fn approval_table_answers_each_request_once() {
    let mut t: ApprovalTable<u32> = ApprovalTable::new();
    t.insert("r1".to_string(), 7);
    t.insert("r2".to_string(), 8);
    t.insert("r1".to_string(), 9);
    assert!(t.resolve("nope", "yes").is_none());
    assert_eq!(t.resolve("r1", "yes"), Some((9, ApprovalDecision::Yes)));
    assert_eq!(t.resolve("r1", "yes"), None);
    assert_eq!(t.take("r2"), Some(8));
    assert_eq!(t.take("r2"), None);
}

#[test]
fn approval_request_frame_scrubs_args() {
    let args = obj(vec![("password", s("hunter2")), ("path", s("/tmp"))]);
    let f = approval_request_frame("rid", "shell", &args);
    let expected = obj(vec![
        ("type", s("approval_request")),
        ("request_id", s("rid")),
        ("tool_name", s("shell")),
        ("args", obj(vec![("password", s(REDACTED)), ("path", s("/tmp"))])),
    ]);
    assert!(same(&f, &expected));
}

#[test]
fn agent_events_and_provider_label() {
    assert_eq!(provider_label(&None), "unknown");
    assert_eq!(provider_label(&Some("openai".to_string())), "openai");
    let e = agent_event("agent_start", "openai", "gpt-4");
    assert!(same(
        &e,
        &obj(vec![("type", s("agent_start")), ("provider", s("openai")), ("model", s("gpt-4"))])
    ));
}

#[test]
fn open_request_waits_under_fresh_id() {
    let mut t: ApprovalTable<&str> = ApprovalTable::new();
    let args = obj(vec![("token", s("abc"))]);
    let (id1, frame) = t.open_request("first", "shell", &args);
    let (id2, _) = t.open_request("second", "shell", &args);
    assert_ne!(id1, id2);
    assert_eq!(id1.len(), 36);
    assert_eq!(frame.get_str("request_id"), Some(id1.as_str()));
    assert_eq!(frame.get_str("type"), Some("approval_request"));
    assert_eq!(t.resolve(&id1, "no"), Some(("first", ApprovalDecision::No)));
    assert_eq!(t.resolve(&id2, "always"), Some(("second", ApprovalDecision::Always)));
}
