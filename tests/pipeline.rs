use agent_pipeline::agent::{
    first_choice, user_message, Agent, AgentKind, ChatMessage, Researcher, Role, Writer,
};
use agent_pipeline::error::ApiError;
use agent_pipeline::json::pretty_context;
use agent_pipeline::pipeline::{Action, AppState, Event, Prompt, Stage};

/// Runs the pipeline for `query` against the given search and completion
/// doubles, counting the calls made to each.
fn drive<S, C>(
    state: &AppState,
    query: &str,
    mut search: S,
    mut complete: C,
    searches: &mut usize,
    completions: &mut usize,
) -> Result<String, ApiError>
where
    S: FnMut(&str) -> Result<String, ApiError>,
    C: FnMut(AgentKind, &[ChatMessage]) -> Result<Vec<Option<String>>, ApiError>,
{
    let (mut run, mut action) = state.start(query.to_string());
    loop {
        let event = match action {
            Action::Search(q) => {
                *searches += 1;
                Event::SearchDone(search(&q))
            }
            Action::Complete(kind, msgs) => {
                *completions += 1;
                Event::CompletionDone(complete(kind, &msgs))
            }
            Action::Respond(r) => {
                assert!(run.is_finished());
                return r;
            }
        };
        assert!(run.accepts(&event));
        action = state.step(&mut run, event);
    }
}

fn search_results() -> Result<String, ApiError> {
    let value: serde_json::Value = serde_json::from_str(r#"{"results":[{"title":"X"}]}"#).unwrap();
    Ok(serde_json::to_string_pretty(&value).unwrap())
}

fn echo_first_line(_kind: AgentKind, msgs: &[ChatMessage]) -> Result<Vec<Option<String>>, ApiError> {
    let user = &msgs[1].content;
    let line = user.lines().next().unwrap_or("").to_string();
    Ok(vec![Some(line)])
}

#[test]
fn end_to_end_returns_query_text() {
    let state = AppState::new();
    let (mut s, mut c) = (0, 0);
    let out = drive(
        &state,
        "best hiking boots",
        |_q| search_results(),
        echo_first_line,
        &mut s,
        &mut c,
    );
    let text = out.unwrap();
    assert!(text.contains("best hiking boots"));
    assert_eq!(s, 1);
    assert_eq!(c, 2);
}

#[test]
fn end_to_end_agents_in_order() {
    let state = AppState::new();
    let mut kinds = Vec::new();
    let (mut s, mut c) = (0, 0);
    let out = drive(
        &state,
        "rust",
        |q| Ok(format!("results for {q}")),
        |kind, msgs| {
            kinds.push(kind);
            Ok(vec![Some(format!("{:?}:{}", kind, msgs.len()))])
        },
        &mut s,
        &mut c,
    );
    assert_eq!(out.unwrap(), "Writer:2");
    assert_eq!(kinds, vec![AgentKind::Researcher, AgentKind::Writer]);
}

#[test]
fn search_failure_short_circuits() {
    let state = AppState::new();
    let (mut s, mut c) = (0, 0);
    let out = drive(
        &state,
        "best hiking boots",
        |_q| Err(ApiError::Provider("connection refused".to_string())),
        echo_first_line,
        &mut s,
        &mut c,
    );
    match out {
        Err(ApiError::Provider(m)) => assert_eq!(m, "connection refused"),
        other => panic!("unexpected outcome {:?}", other),
    }
    assert_eq!(s, 1);
    assert_eq!(c, 0);
}

#[test]
fn researcher_failure_skips_writer() {
    let state = AppState::new();
    let (mut s, mut c) = (0, 0);
    let out = drive(
        &state,
        "q",
        |_q| search_results(),
        |_k, _m| Err(ApiError::Decode("bad body".to_string())),
        &mut s,
        &mut c,
    );
    assert!(matches!(out, Err(ApiError::Decode(_))));
    assert_eq!(c, 1);
}

#[test]
fn writer_empty_completion_fails() {
    let state = AppState::new();
    let (mut s, mut c) = (0, 0);
    let out = drive(
        &state,
        "q",
        |_q| search_results(),
        |kind, _m| match kind {
            AgentKind::Researcher => Ok(vec![Some("summary".to_string())]),
            AgentKind::Writer => Ok(vec![]),
        },
        &mut s,
        &mut c,
    );
    assert!(matches!(out, Err(ApiError::EmptyCompletion)));
    assert_eq!(c, 2);
}

#[test]
fn zero_candidates_is_empty_completion() {
    assert!(matches!(first_choice(Ok(vec![])), Err(ApiError::EmptyCompletion)));
}

#[test]
fn first_candidate_without_text_is_empty_completion() {
    let r = first_choice(Ok(vec![None, Some("later".to_string())]));
    assert!(matches!(r, Err(ApiError::EmptyCompletion)));
}

#[test]
fn first_candidate_text_is_taken() {
    let r = first_choice(Ok(vec![Some("one".to_string()), Some("two".to_string())]));
    assert_eq!(r.unwrap(), "one");
}

#[test]
fn completion_failure_passes_through() {
    let r = first_choice(Err(ApiError::Provider("timeout".to_string())));
    assert!(matches!(r, Err(ApiError::Provider(m)) if m == "timeout"));
}

#[test]
fn prompt_has_system_then_user() {
    let researcher = Researcher::new();
    let msgs = researcher.prompt_messages("what is rust", "{\"a\":1}");
    assert_eq!(msgs.len(), 2);
    assert_eq!(msgs[0].role, Role::System);
    assert_eq!(msgs[0].content, researcher.system_message());
    assert_eq!(msgs[1].role, Role::User);
}

#[test]
fn user_message_layout() {
    let text = user_message("what is rust", "line \"one\"\nline two");
    let pretty = serde_json::to_string_pretty("line \"one\"\nline two").unwrap();
    assert!(text.starts_with("what is rust"));
    assert_eq!(text, format!("what is rust\n\n            Provided context:\n            {}\n            ", pretty));
}

#[test]
fn pretty_context_quotes_and_escapes() {
    assert_eq!(pretty_context("a\"b"), "\"a\\\"b\"");
    assert_eq!(pretty_context(""), "\"\"");
    assert_eq!(pretty_context("x\ny"), "\"x\\ny\"");
    assert_eq!(pretty_context("\u{1}\u{1f}\t\\"), "\"\\u0001\\u001f\\t\\\\\"");
    assert_eq!(pretty_context("é/"), "\"é/\"");
}

#[test]
fn default_and_overridden_instructions() {
    let r = Researcher::new();
    assert!(r.system_message().starts_with("You are an agent.\n\n        You will receive a question"));
    assert!(r.system_message().ends_with("\n        Question:\n        "));
    assert!(r.system_message().starts_with("You are an agent."));
    assert!(r.system_message().contains("Be concise."));
    let w = Writer::new();
    assert!(w.system_message().contains("\n        - The point you are trying to make\n"));
    assert!(w.system_message().ends_with("\n        Search query:\n"));
    assert!(w.system_message().contains("Search query:"));
    let w2 = Writer::new().with_system_message("custom".to_string());
    assert_eq!(w2.system_message(), "custom");
    let r2 = Researcher::new().with_system_message("mine".to_string());
    assert_eq!(r2.system_message(), "mine");
    assert_eq!(r.name(), "Researcher");
    assert_eq!(w.name(), "Writer");
}

#[test]
fn overridden_instruction_reaches_request() {
    let mut state = AppState::new();
    state.writer = Writer::new().with_system_message("be brief".to_string());
    let mut systems = Vec::new();
    let (mut s, mut c) = (0, 0);
    let _ = drive(
        &state,
        "q",
        |_q| search_results(),
        |_k, msgs| {
            systems.push(msgs[0].content.clone());
            Ok(vec![Some("ok".to_string())])
        },
        &mut s,
        &mut c,
    );
    assert_eq!(systems[1], "be brief");
    assert_ne!(systems[0], "be brief");
}

#[test]
fn error_messages() {
    assert_eq!(ApiError::Provider("down".to_string()).message(), "Provider error: down");
    assert_eq!(ApiError::Decode("eof".to_string()).message(), "De/serialization error: eof");
    assert_eq!(
        ApiError::EmptyCompletion.message(),
        "Empty completion: the model returned no choices"
    );
}

#[test]
fn run_accepts_only_expected_events() {
    let state = AppState::new();
    let (mut run, _a) = state.start("q".to_string());
    assert_eq!(run.stage, Stage::Searching);
    assert!(!run.accepts(&Event::CompletionDone(Ok(vec![]))));
    let ev = Event::SearchDone(Err(ApiError::EmptyCompletion));
    assert!(run.accepts(&ev));
    let _ = state.step(&mut run, ev);
    assert!(run.is_finished());
    assert!(!run.accepts(&Event::SearchDone(Ok(String::new()))));
}

#[test]
fn prompt_holds_query() {
    let p = Prompt { q: "boots".to_string() };
    let state = AppState::new();
    let (run, action) = state.start(p.q.clone());
    assert_eq!(run.query, "boots");
    assert!(matches!(action, Action::Search(q) if q == "boots"));
}
