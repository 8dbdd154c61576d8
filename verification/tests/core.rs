use chatbot::dispatch::{
    build_stateless_turns, build_turns, first_choice, reply_text, CompletionError, Role,
};
use chatbot::history::{push_recent, HistoryStore, HISTORY_BOUND};
use chatbot::router::{after_completion, on_message, route, Command, Step};

#[test]
fn bounded_history_keeps_most_recent() {
    let n = HISTORY_BOUND + 5;
    let mut list: Vec<String> = Vec::new();
    for i in 0..n {
        push_recent(&mut list, format!("e{}", i));
    }
    assert_eq!(list.len(), HISTORY_BOUND);
    for (k, entry) in list.iter().enumerate() {
        assert_eq!(entry, &format!("e{}", k + 5));
    }
}

#[test]
fn bounded_history_below_bound_keeps_all() {
    let mut list: Vec<String> = Vec::new();
    for i in 0..HISTORY_BOUND {
        push_recent(&mut list, format!("e{}", i));
    }
    assert_eq!(list.len(), HISTORY_BOUND);
    assert_eq!(list[0], "e0");
    push_recent(&mut list, String::from("one more"));
    assert_eq!(list.len(), HISTORY_BOUND);
    assert_eq!(list[0], "e1");
    assert_eq!(list[HISTORY_BOUND - 1], "one more");
}

#[test]
fn lookup_default_is_empty() {
    let store = HistoryStore::new();
    let h = store.get(42);
    assert!(h.is_empty());
}

#[test]
fn set_overwrites_wholesale() {
    let mut store = HistoryStore::new();
    store.set(7, vec![String::from("a1"), String::from("a2")]);
    store.set(7, vec![String::from("b")]);
    assert_eq!(store.get(7), vec![String::from("b")]);
    let untouched = store.get(8);
    assert!(untouched.is_empty());
}

#[test]
fn turn_ordering() {
    let history = vec![String::from("h1"), String::from("h2")];
    let turns = build_turns(String::from("hi"), &history);
    assert_eq!(turns.len(), 3);
    assert_eq!(turns[0].role, Role::PriorAssistant);
    assert_eq!(turns[0].text, "h1");
    assert_eq!(turns[1].role, Role::PriorAssistant);
    assert_eq!(turns[1].text, "h2");
    assert_eq!(turns[2].role, Role::CurrentUser);
    assert_eq!(turns[2].text, "hi");
}

#[test]
fn stateless_requests_are_independent() {
    let first = build_stateless_turns(String::from("hi"));
    let second = build_stateless_turns(String::from("hi"));
    assert_eq!(first.len(), 1);
    assert_eq!(second.len(), 1);
    assert_eq!(first[0].role, Role::CurrentUser);
    assert_eq!(first[0].text, "hi");
    assert_eq!(second[0].role, Role::CurrentUser);
    assert_eq!(second[0].text, "hi");
}

#[test]
fn ping_routes_to_pong() {
    assert!(matches!(route("!ping"), Command::Ping));
    let history: Vec<String> = Vec::new();
    match on_message("!ping", &history) {
        Step::Reply { text } => assert_eq!(text, "Pong!"),
        _ => panic!("expected a direct reply"),
    }
}

#[test]
fn ai_forwards_only_first_word() {
    match route("!ai hello world") {
        Command::Ai { prompt } => assert_eq!(prompt, "hello"),
        _ => panic!("expected the completion command"),
    }
    let history = vec![String::from("h1")];
    match on_message("!ai hello world", &history) {
        Step::Complete { turns } => {
            assert_eq!(turns.len(), 2);
            assert_eq!(turns[0].role, Role::PriorAssistant);
            assert_eq!(turns[0].text, "h1");
            assert_eq!(turns[1].role, Role::CurrentUser);
            assert_eq!(turns[1].text, "hello");
        }
        _ => panic!("expected a completion step"),
    }
}

#[test]
fn ai_with_no_token_forwards_empty_prompt() {
    match route("!ai ") {
        Command::Ai { prompt } => assert_eq!(prompt, ""),
        _ => panic!("expected the completion command"),
    }
}

#[test]
fn unrecognized_content_is_ignored() {
    assert!(matches!(route("hello"), Command::Ignore));
    assert!(matches!(route("!ai"), Command::Ignore));
    assert!(matches!(route("!pingg"), Command::Ignore));
    let history: Vec<String> = Vec::new();
    assert!(matches!(on_message("hello", &history), Step::Skip));
}

#[test]
fn error_reply_is_prefixed_and_recorded() {
    let err = CompletionError { detail: String::from("connection refused") };
    let reply = reply_text(Err(err.clone()));
    assert_eq!(reply, "Error: connection refused");
    assert!(reply.starts_with("Error: "));

    let history = vec![String::from("h1")];
    let (sent, updated) = after_completion(Err(err), history);
    assert_eq!(sent, "Error: connection refused");
    assert_eq!(updated, vec![String::from("h1"), String::from("Error: connection refused")]);
}

#[test]
fn successful_reply_is_recorded() {
    let (sent, updated) = after_completion(Ok(String::from("an answer")), Vec::new());
    assert_eq!(sent, "an answer");
    assert_eq!(updated, vec![String::from("an answer")]);
}

#[test]
fn first_choice_takes_the_first() {
    let r = first_choice(vec![String::from("a"), String::from("b")]);
    assert_eq!(r.unwrap(), "a");
}

#[test]
fn zero_choices_fail_closed() {
    let r = first_choice(Vec::new());
    match r {
        Err(e) => assert_eq!(e.detail, "completion returned no choices"),
        Ok(_) => panic!("zero choices must surface an error"),
    }
}
