use yew_chat::{Connection, Effect, Message, Model, Msg};

fn connected_model() -> Model {
    let (mut m, first) = Model::create();
    assert_eq!(m.update(first), Effect::Open);
    assert_eq!(m.update(Msg::Connected), Effect::Nothing);
    m
}

fn log_of(m: &Model) -> Vec<String> {
    m.messages().clone()
}

#[test]
fn create_is_empty_and_asks_to_connect() {
    let (m, first) = Model::create();
    assert!(matches!(first, Msg::Connect));
    assert!(m.messages().is_empty());
    assert_eq!(m.input(), "");
    assert_eq!(m.connection(), Connection::Disconnected);
    assert!(!m.holds_socket());
}

#[test]
fn connect_then_opened_logs_connected() {
    let m = connected_model();
    assert_eq!(log_of(&m), vec!["Connected".to_string()]);
    assert_eq!(m.connection(), Connection::Connected);
    assert!(m.holds_socket());
}

#[test]
fn connected_send_hands_draft_to_transport() {
    let mut m = connected_model();
    assert_eq!(m.update(Msg::UpdateInput("hi".to_string())), Effect::Nothing);
    assert_eq!(m.update(Msg::Send), Effect::Send(Message::Text("hi".to_string())));
    assert_eq!(m.input(), "");
    assert_eq!(log_of(&m), vec!["Connected".to_string()]);
}

#[test]
fn connected_receive_text_appends() {
    let mut m = connected_model();
    let e = m.update(Msg::Received(Ok(Message::Text("yo".to_string()))));
    assert_eq!(e, Effect::Nothing);
    assert_eq!(log_of(&m), vec!["Connected".to_string(), "yo".to_string()]);
}

#[test]
fn connected_receive_error_leaves_log() {
    let mut m = connected_model();
    let e = m.update(Msg::Received(Err(anyhow::Error::msg("unknown tag"))));
    assert_eq!(e, Effect::Nothing);
    assert_eq!(log_of(&m), vec!["Connected".to_string()]);
    assert_eq!(m.connection(), Connection::Connected);
}

#[test]
fn disconnected_send_clears_draft_and_sends_nothing() {
    let (mut m, _) = Model::create();
    m.update(Msg::UpdateInput("x".to_string()));
    assert_eq!(m.input(), "x");
    assert_eq!(m.update(Msg::Send), Effect::Nothing);
    assert_eq!(m.input(), "");
    assert!(m.messages().is_empty());
}

#[test]
fn draft_is_last_input() {
    let (mut m, _) = Model::create();
    for s in ["a", "ab", "", "final text"] {
        m.update(Msg::UpdateInput(s.to_string()));
    }
    assert_eq!(m.input(), "final text");
    assert!(m.messages().is_empty());
}

#[test]
fn send_clears_draft_when_connected() {
    let mut m = connected_model();
    m.update(Msg::UpdateInput("hello".to_string()));
    m.update(Msg::Send);
    assert_eq!(m.input(), "");
}

#[test]
fn log_never_shrinks_over_events() {
    let (mut m, first) = Model::create();
    let events = vec![
        first,
        Msg::Connected,
        Msg::UpdateInput("a".to_string()),
        Msg::Send,
        Msg::Received(Ok(Message::Text("b".to_string()))),
        Msg::Received(Err(anyhow::Error::msg("bad"))),
        Msg::Disconnected,
        Msg::Send,
        Msg::Connect,
        Msg::Connected,
    ];
    let mut last = 0;
    for e in events {
        m.update(e);
        assert!(m.messages().len() >= last);
        last = m.messages().len();
    }
    assert_eq!(
        log_of(&m),
        vec![
            "Connected".to_string(),
            "b".to_string(),
            "Disconnected".to_string(),
            "Connected".to_string()
        ]
    );
}

#[test]
fn opened_when_disconnected_appends_one_line() {
    let (mut m, _) = Model::create();
    m.update(Msg::Received(Ok(Message::Text("early".to_string()))));
    assert_eq!(m.update(Msg::Connected), Effect::Nothing);
    assert_eq!(m.connection(), Connection::Connected);
    assert_eq!(log_of(&m), vec!["early".to_string(), "Connected".to_string()]);
}

#[test]
fn closed_when_connected_releases_socket() {
    let mut m = connected_model();
    assert_eq!(m.update(Msg::Disconnected), Effect::Release);
    assert_eq!(m.connection(), Connection::Disconnected);
    assert!(!m.holds_socket());
    assert_eq!(log_of(&m), vec!["Connected".to_string(), "Disconnected".to_string()]);
    m.update(Msg::UpdateInput("late".to_string()));
    assert_eq!(m.update(Msg::Send), Effect::Nothing);
    assert_eq!(m.input(), "");
}

#[test]
fn send_while_opening_reaches_held_socket() {
    let (mut m, first) = Model::create();
    m.update(first);
    m.update(Msg::UpdateInput("q".to_string()));
    assert_eq!(m.update(Msg::Send), Effect::Send(Message::Text("q".to_string())));
    assert_eq!(m.connection(), Connection::Disconnected);
}

#[test]
fn enter_key_sends() {
    let mut m = connected_model();
    m.update(Msg::UpdateInput("typed".to_string()));
    assert!(matches!(m.on_key("Enter"), Msg::Send));
}

#[test]
fn other_key_confirms_draft() {
    let mut m = connected_model();
    m.update(Msg::UpdateInput("typed".to_string()));
    match m.on_key("a") {
        Msg::UpdateInput(s) => assert_eq!(s, "typed"),
        _ => panic!("expected an input update"),
    }
    match m.on_key("enter") {
        Msg::UpdateInput(s) => assert_eq!(s, "typed"),
        _ => panic!("expected an input update"),
    }
}
