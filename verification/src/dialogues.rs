//! The profile questionnaire: full name, then age, then location, then a
//! summary of the three answers.

use vstd::prelude::*;
use vstd::string::*;

use crate::conversation::{text_view, Next, Step, StepView};
use crate::text::{decimal, decimal_text, lemma_parse_decimal, parse_u8, parse_u8_spec};

verus! {

/// Where a user stands in the questionnaire.
#[derive(Clone)]
pub enum State {
    Start,
    ReceiveFullName,
    ReceiveAge { full_name: String },
    ReceiveLocation { full_name: String, age: u8 },
}

/// A questionnaire state as the contracts see it.
pub enum StateView {
    Start,
    ReceiveFullName,
    ReceiveAge { full_name: Seq<char> },
    ReceiveLocation { full_name: Seq<char>, age: u8 },
}

impl View for State {
    type V = StateView;

    open spec fn view(&self) -> StateView {
        match self {
            State::Start => StateView::Start,
            State::ReceiveFullName => StateView::ReceiveFullName,
            State::ReceiveAge { full_name } => StateView::ReceiveAge { full_name: full_name@ },
            State::ReceiveLocation { full_name, age } => StateView::ReceiveLocation {
                full_name: full_name@,
                age: *age,
            },
        }
    }
}

impl Default for State {
    fn default() -> (s: Self)
        ensures
            s@ == StateView::Start,
    {
        State::Start
    }
}

/// The summary sent at the end of the questionnaire.
pub open spec fn summary(full_name: Seq<char>, age: u8, location: Seq<char>) -> Seq<char> {
    "Full name: "@ + full_name + "\nAge: "@ + decimal(age as nat) + "\nLocation: "@ + location
}

/// The first message of the questionnaire, whatever it answers.
pub open spec fn start_spec() -> StepView<StateView> {
    StepView {
        reply: "Let's start! What's your full name?"@,
        next: Next::Update(StateView::ReceiveFullName),
    }
}

/// The answer to the full name: any text is taken as the name.
pub open spec fn receive_full_name_spec(text: Option<Seq<char>>) -> StepView<StateView> {
    match text {
        Some(t) => StepView {
            reply: "How old are you?"@,
            next: Next::Update(StateView::ReceiveAge { full_name: t }),
        },
        None => StepView { reply: "Send me plain text."@, next: Next::Stay },
    }
}

/// The answer to the age: a text that reads as a `u8` is taken as the age.
pub open spec fn receive_age_spec(full_name: Seq<char>, text: Option<Seq<char>>) -> StepView<
    StateView,
> {
    if text is Some && parse_u8_spec(text->0) is Some {
        StepView {
            reply: "What's your location?"@,
            next: Next::Update(
                StateView::ReceiveLocation { full_name, age: parse_u8_spec(text->0)->0 },
            ),
        }
    } else {
        StepView { reply: "Send me a number."@, next: Next::Stay }
    }
}

/// The answer to the location: any text ends the questionnaire with the summary.
pub open spec fn receive_location_spec(
    full_name: Seq<char>,
    age: u8,
    text: Option<Seq<char>>,
) -> StepView<StateView> {
    match text {
        Some(location) => StepView { reply: summary(full_name, age, location), next: Next::Exit },
        None => StepView { reply: "Send me plain text."@, next: Next::Stay },
    }
}

/// One step of the questionnaire from any state.
pub open spec fn dialogue_step(state: StateView, text: Option<Seq<char>>) -> StepView<StateView> {
    match state {
        StateView::Start => start_spec(),
        StateView::ReceiveFullName => receive_full_name_spec(text),
        StateView::ReceiveAge { full_name } => receive_age_spec(full_name, text),
        StateView::ReceiveLocation { full_name, age } => receive_location_spec(
            full_name,
            age,
            text,
        ),
    }
}

/// The place of a state in the order of the questions.
pub open spec fn progress(s: StateView) -> nat {
    match s {
        StateView::Start => 0,
        StateView::ReceiveFullName => 1,
        StateView::ReceiveAge { .. } => 2,
        StateView::ReceiveLocation { .. } => 3,
    }
}

/// Whether `after` still holds the answers that `before` holds.
pub open spec fn keeps_answers(before: StateView, after: StateView) -> bool {
    match before {
        StateView::ReceiveAge { full_name } => after matches StateView::ReceiveLocation {
            full_name: f,
            ..
        } && f == full_name,
        _ => true,
    }
}

/// The questionnaire only moves forward: a step keeps the state, moves to the
/// next question with the earlier answers kept, or ends, and it ends only on
/// a location.
pub proof fn lemma_dialogue_moves_forward(state: StateView, text: Option<Seq<char>>)
    ensures
        match dialogue_step(state, text).next {
            Next::Update(after) => progress(after) == progress(state) + 1 && keeps_answers(
                state,
                after,
            ),
            Next::Stay => !(state is Start),
            Next::Exit => state is ReceiveLocation && text is Some,
        },
{
}

/// A message without text never changes the stored state once the
/// questionnaire has started; it is answered with a request for text, or for
/// a number where the age is expected.
pub proof fn lemma_textless_message_keeps_state(state: StateView)
    requires
        !(state is Start),
    ensures
        dialogue_step(state, None).next == Next::<StateView>::Stay,
        dialogue_step(state, None).reply == (if state is ReceiveAge {
            "Send me a number."@
        } else {
            "Send me plain text."@
        }),
{
}

/// A user who answers every question in turn (whatever the first message,
/// then the name, the age written in decimal, and the location) ends the
/// questionnaire and gets back exactly those three answers.
pub proof fn lemma_complete_questionnaire(
    first: Option<Seq<char>>,
    full_name: Seq<char>,
    age: u8,
    location: Seq<char>,
)
    ensures
        ({
            let s1 = dialogue_step(StateView::Start, first);
            let s2 = dialogue_step(s1.next->Update_0, Some(full_name));
            let s3 = dialogue_step(s2.next->Update_0, Some(decimal(age as nat)));
            let s4 = dialogue_step(s3.next->Update_0, Some(location));
            &&& s1.next == Next::Update(StateView::ReceiveFullName)
            &&& s2.next == Next::Update(StateView::ReceiveAge { full_name })
            &&& s3.next == Next::Update(StateView::ReceiveLocation { full_name, age })
            &&& s4.next == Next::<StateView>::Exit
            &&& s4.reply == summary(full_name, age, location)
        }),
{
    lemma_parse_decimal(age);
}

/// The location answer ends the questionnaire with the summary "Full name: "
/// + the name + "\nAge: " + the age in decimal + "\nLocation: " + the
/// location exactly as sent, so the location text is the end of the reply
/// and the name follows the fixed opening.
pub proof fn lemma_summary(full_name: Seq<char>, age: u8, location: Seq<char>)
    ensures
        ({
            let r = dialogue_step(StateView::ReceiveLocation { full_name, age }, Some(location));
            let head = "Full name: "@ + full_name + "\nAge: "@ + decimal(age as nat)
                + "\nLocation: "@;
            &&& r.next == Next::<StateView>::Exit
            &&& r.reply == head + location
            &&& r.reply.len() == head.len() + location.len()
            &&& r.reply.subrange(head.len() as int, r.reply.len() as int) == location
            &&& r.reply.subrange(
                "Full name: "@.len() as int,
                ("Full name: "@.len() + full_name.len()) as int,
            ) == full_name
        }),
{
    let r = dialogue_step(StateView::ReceiveLocation { full_name, age }, Some(location));
    let head = "Full name: "@ + full_name + "\nAge: "@ + decimal(age as nat) + "\nLocation: "@;
    assert(r.reply.subrange(head.len() as int, r.reply.len() as int) =~= location);
    assert(r.reply.subrange("Full name: "@.len() as int, ("Full name: "@.len() + full_name.len()) as int)
        =~= full_name);
}

/// The replies of the questionnaire: the greeting, each question, and the
/// requests for text or for a number; a text that reads as a byte is the age
/// that is kept, and any other answer to the age question keeps the state.
pub proof fn lemma_questionnaire_replies(
    first: Option<Seq<char>>,
    full_name: Seq<char>,
    text: Seq<char>,
    age: u8,
)
    ensures
        dialogue_step(StateView::Start, first).reply == "Let's start! What's your full name?"@,
        dialogue_step(StateView::ReceiveFullName, Some(text)).reply == "How old are you?"@,
        dialogue_step(StateView::ReceiveFullName, Some(text)).next == Next::Update(
            StateView::ReceiveAge { full_name: text },
        ),
        dialogue_step(StateView::ReceiveFullName, None).reply == "Send me plain text."@,
        parse_u8_spec(text) is Some ==> dialogue_step(
            StateView::ReceiveAge { full_name },
            Some(text),
        ).reply == "What's your location?"@ && dialogue_step(
            StateView::ReceiveAge { full_name },
            Some(text),
        ).next == Next::Update(
            StateView::ReceiveLocation { full_name, age: parse_u8_spec(text)->0 },
        ),
        dialogue_step(StateView::ReceiveAge { full_name }, Some(decimal(age as nat))).next
            == Next::Update(StateView::ReceiveLocation { full_name, age }),
        parse_u8_spec(text) is None ==> dialogue_step(
            StateView::ReceiveAge { full_name },
            Some(text),
        ).reply == "Send me a number."@ && dialogue_step(
            StateView::ReceiveAge { full_name },
            Some(text),
        ).next == Next::<StateView>::Stay,
        dialogue_step(StateView::ReceiveAge { full_name }, None).reply == "Send me a number."@,
        dialogue_step(StateView::ReceiveLocation { full_name, age }, None).reply
            == "Send me plain text."@,
{
    lemma_parse_decimal(age);
}

/// Greets the user and asks for the full name.
pub fn start() -> (r: Step<State>)
    ensures
        r@ == start_spec(),
{
    Step {
        reply: String::from_str("Let's start! What's your full name?"),
        next: Next::Update(State::ReceiveFullName),
    }
}

/// Takes the message text as the full name, or asks for text.
pub fn receive_full_name(text: Option<&str>) -> (r: Step<State>)
    ensures
        r@ == receive_full_name_spec(text_view(text)),
{
    match text {
        Some(t) => Step {
            reply: String::from_str("How old are you?"),
            next: Next::Update(State::ReceiveAge { full_name: String::from_str(t) }),
        },
        None => Step { reply: String::from_str("Send me plain text."), next: Next::Stay },
    }
}

/// Takes the message text as the age if it reads as a `u8`, or asks for a number.
pub fn receive_age(full_name: String, text: Option<&str>) -> (r: Step<State>)
    ensures
        r@ == receive_age_spec(full_name@, text_view(text)),
{
    let age = match text {
        Some(t) => parse_u8(t),
        None => None,
    };
    match age {
        Some(age) => Step {
            reply: String::from_str("What's your location?"),
            next: Next::Update(State::ReceiveLocation { full_name, age }),
        },
        None => Step { reply: String::from_str("Send me a number."), next: Next::Stay },
    }
}

/// Takes the message text as the location and ends with the summary, or asks for text.
pub fn receive_location(full_name: String, age: u8, text: Option<&str>) -> (r: Step<State>)
    ensures
        r@ == receive_location_spec(full_name@, age, text_view(text)),
{
    match text {
        Some(location) => {
            let reply = String::from_str("Full name: ").concat(full_name.as_str()).concat(
                "\nAge: ",
            ).concat(decimal_text(age as u64).as_str()).concat("\nLocation: ").concat(location);
            Step { reply, next: Next::Exit }
        },
        None => Step { reply: String::from_str("Send me plain text."), next: Next::Stay },
    }
}

/// Answers a message in whatever state the questionnaire is.
pub fn step(state: State, text: Option<&str>) -> (r: Step<State>)
    ensures
        r@ == dialogue_step(state@, text_view(text)),
{
    match state {
        State::Start => start(),
        State::ReceiveFullName => receive_full_name(text),
        State::ReceiveAge { full_name } => receive_age(full_name, text),
        State::ReceiveLocation { full_name, age } => receive_location(full_name, age, text),
    }
}

} // verus!
