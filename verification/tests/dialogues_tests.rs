use orange_substrate_bot::conversation::{Next, Step};
use orange_substrate_bot::dialogues::{
    receive_age, receive_full_name, receive_location, start, step, State,
};

fn stays(s: &Step<State>) -> bool {
    matches!(s.next, Next::Stay)
}

#[test]
fn questionnaire_default_state_is_start() {
    assert!(matches!(State::default(), State::Start));
}

#[test]
fn questionnaire_start_asks_for_the_full_name() {
    let s = start();
    assert_eq!(s.reply, "Let's start! What's your full name?");
    assert!(matches!(s.next, Next::Update(State::ReceiveFullName)));
    let s = step(State::Start, None);
    assert_eq!(s.reply, "Let's start! What's your full name?");
    assert!(matches!(s.next, Next::Update(State::ReceiveFullName)));
}

#[test]
fn full_name_is_taken_as_written() {
    let s = receive_full_name(Some("Ada Lovelace"));
    assert_eq!(s.reply, "How old are you?");
    match s.next {
        Next::Update(State::ReceiveAge { full_name }) => assert_eq!(full_name, "Ada Lovelace"),
        _ => panic!("expected the age question"),
    }
    let s = receive_full_name(None);
    assert_eq!(s.reply, "Send me plain text.");
    assert!(stays(&s));
}

#[test]
fn age_must_read_as_a_byte() {
    let s = receive_age("Ada".to_string(), Some("36"));
    assert_eq!(s.reply, "What's your location?");
    match s.next {
        Next::Update(State::ReceiveLocation { full_name, age }) => {
            assert_eq!(full_name, "Ada");
            assert_eq!(age, 36);
        }
        _ => panic!("expected the location question"),
    }
    for bad in [Some("thirty"), Some("256"), Some("-1"), Some(""), None] {
        let s = receive_age("Ada".to_string(), bad);
        assert_eq!(s.reply, "Send me a number.");
        assert!(stays(&s));
    }
}

#[test]
fn location_ends_with_the_summary() {
    let s = receive_location("Ada".to_string(), 36, Some("London"));
    assert_eq!(s.reply, "Full name: Ada\nAge: 36\nLocation: London");
    assert!(matches!(s.next, Next::Exit));
    let s = receive_location("Ada".to_string(), 36, None);
    assert_eq!(s.reply, "Send me plain text.");
    assert!(stays(&s));
}

#[test]
fn complete_questionnaire_reports_the_answers() {
    let mut state = State::default();
    let mut replies = Vec::new();
    for text in [Some("/start"), Some("Grace Hopper"), Some("85"), Some("Arlington")] {
        let s = step(state.clone(), text);
        replies.push(s.reply.clone());
        match s.next {
            Next::Update(next) => state = next,
            Next::Stay => panic!("the dialogue should move on"),
            Next::Exit => state = State::Start,
        }
    }
    assert_eq!(replies.last().unwrap(), "Full name: Grace Hopper\nAge: 85\nLocation: Arlington");
    assert!(matches!(state, State::Start));
}

#[test]
fn textless_message_keeps_the_state() {
    let states = vec![
        State::ReceiveFullName,
        State::ReceiveAge { full_name: "A".to_string() },
        State::ReceiveLocation { full_name: "A".to_string(), age: 3 },
    ];
    for state in states {
        let s = step(state, None);
        assert!(stays(&s));
    }
}
