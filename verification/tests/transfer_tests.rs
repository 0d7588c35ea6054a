use orange_substrate_bot::conversation::{Next, Step};
use orange_substrate_bot::transfer::{
    receive_amount, receive_public_key, receive_sender, start, step, transfer_confirm, State,
};

fn stays(s: &Step<State>) -> bool {
    matches!(s.next, Next::Stay)
}

#[test]
fn transfer_default_state_is_start() {
    assert!(matches!(State::default(), State::Start));
}

#[test]
fn start_asks_for_the_sender() {
    let s = start();
    assert_eq!(s.reply, "Let's go to transfer cryptocurrency!\nEnter sender name:");
    assert!(matches!(s.next, Next::Update(State::ReceiveSender)));
}

#[test]
fn each_answer_moves_to_the_next_question() {
    let s = receive_sender(Some("alice"));
    assert_eq!(s.reply, "Enter the recepient public key:");
    assert!(matches!(&s.next, Next::Update(State::ReceivePublicKey { sender }) if sender == "alice"));

    let s = receive_public_key("alice".to_string(), Some("5Grw"));
    assert_eq!(s.reply, "Enter amount:");
    assert!(matches!(&s.next,
        Next::Update(State::ReceiveAmount { sender, public_key }) if sender == "alice" && public_key == "5Grw"));

    let s = receive_amount("alice".to_string(), "5Grw".to_string(), Some("10"));
    assert_eq!(
        s.reply,
        "Transfer from: alice\nTo: 5Grw\nAmount: 10\nFor confirm transfer enter: confirm transfer\nFor cancel transfer enter: some text"
    );
    assert!(matches!(&s.next,
        Next::Update(State::TransferConfirm { sender, public_key, amount })
            if sender == "alice" && public_key == "5Grw" && amount == "10"));
}

#[test]
fn missing_text_is_asked_for_again() {
    let s = receive_sender(None);
    assert_eq!(s.reply, "Send me plain text.");
    assert!(stays(&s));
    let s = receive_public_key("a".to_string(), None);
    assert_eq!(s.reply, "Send me a plain text.");
    assert!(stays(&s));
    let s = receive_amount("a".to_string(), "k".to_string(), None);
    assert_eq!(s.reply, "Send me plain text.");
    assert!(stays(&s));
    let s = transfer_confirm("a".to_string(), "k".to_string(), "1".to_string(), None);
    assert_eq!(
        s.reply,
        "For confirm transfer enter: confirm transfer\nFor cancel transfer enter: some text"
    );
    assert!(stays(&s));
}

#[test]
fn exact_words_confirm_the_transfer() {
    let s = transfer_confirm("a".to_string(), "k".to_string(), "1".to_string(), Some("confirm transfer"));
    assert_eq!(s.reply, "Transfer from: a\nTo: k\nAmount: 1\nState transfer: Ok");
    assert!(matches!(s.next, Next::Exit));
}

#[test]
fn any_other_text_cancels_the_transfer() {
    for text in ["some text", "Confirm transfer", "confirm transfer ", "confirm", ""] {
        let s = transfer_confirm("a".to_string(), "k".to_string(), "1".to_string(), Some(text));
        assert_eq!(s.reply, "Transfer from: a\nTo: k\nAmount: 1\nState transfer: Cancel");
        assert!(matches!(s.next, Next::Exit));
    }
}

#[test]
fn complete_transfer_reports_what_was_entered() {
    let mut state = State::default();
    let mut last = String::new();
    let mut ended = false;
    for text in ["go", "bob", "key-123", "42.5", "confirm transfer"] {
        let s = step(state.clone(), Some(text));
        last = s.reply;
        match s.next {
            Next::Update(next) => state = next,
            Next::Stay => panic!("the dialogue should move on"),
            Next::Exit => ended = true,
        }
    }
    assert!(ended);
    assert_eq!(last, "Transfer from: bob\nTo: key-123\nAmount: 42.5\nState transfer: Ok");
}
