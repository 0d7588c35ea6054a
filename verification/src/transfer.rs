//! The transfer dialogue: sender, recipient public key and amount are asked
//! in turn, then the transfer is confirmed or cancelled.

use vstd::prelude::*;
use vstd::string::*;

use crate::conversation::{text_view, Next, Step, StepView};

verus! {

/// Where a user stands in the transfer dialogue.
#[derive(Clone)]
pub enum State {
    Start,
    ReceiveSender,
    ReceivePublicKey { sender: String },
    ReceiveAmount { sender: String, public_key: String },
    TransferConfirm { sender: String, public_key: String, amount: String },
}

/// A transfer state as the contracts see it.
pub enum StateView {
    Start,
    ReceiveSender,
    ReceivePublicKey { sender: Seq<char> },
    ReceiveAmount { sender: Seq<char>, public_key: Seq<char> },
    TransferConfirm { sender: Seq<char>, public_key: Seq<char>, amount: Seq<char> },
}

impl View for State {
    type V = StateView;

    open spec fn view(&self) -> StateView {
        match self {
            State::Start => StateView::Start,
            State::ReceiveSender => StateView::ReceiveSender,
            State::ReceivePublicKey { sender } => StateView::ReceivePublicKey { sender: sender@ },
            State::ReceiveAmount { sender, public_key } => StateView::ReceiveAmount {
                sender: sender@,
                public_key: public_key@,
            },
            State::TransferConfirm { sender, public_key, amount } => StateView::TransferConfirm {
                sender: sender@,
                public_key: public_key@,
                amount: amount@,
            },
        }
    }
}

impl Default for State {
    fn default() -> (s: Self)
        ensures
            s@ == StateView::Start,
    {
        State::Start
    }
}

/// The words that confirm a transfer.
pub open spec fn confirm_words() -> Seq<char> {
    "confirm transfer"@
}

/// How to confirm or cancel, as told to the user.
pub open spec fn confirm_hint() -> Seq<char> {
    "For confirm transfer enter: confirm transfer\nFor cancel transfer enter: some text"@
}

/// The lines that describe a transfer.
pub open spec fn transfer_lines(sender: Seq<char>, public_key: Seq<char>, amount: Seq<char>) -> Seq<
    char,
> {
    "Transfer from: "@ + sender + "\nTo: "@ + public_key + "\nAmount: "@ + amount
}

/// The report that ends the dialogue: the transfer, then `Ok` when the
/// answer was exactly the confirmation words and `Cancel` otherwise.
pub open spec fn transfer_report(
    sender: Seq<char>,
    public_key: Seq<char>,
    amount: Seq<char>,
    confirmed: bool,
) -> Seq<char> {
    transfer_lines(sender, public_key, amount) + (if confirmed {
        "\nState transfer: Ok"@
    } else {
        "\nState transfer: Cancel"@
    })
}

/// The first message of the dialogue, whatever it answers.
pub open spec fn start_spec() -> StepView<StateView> {
    StepView {
        reply: "Let's go to transfer cryptocurrency!\nEnter sender name:"@,
        next: Next::Update(StateView::ReceiveSender),
    }
}

/// The answer to the sender name.
pub open spec fn receive_sender_spec(text: Option<Seq<char>>) -> StepView<StateView> {
    match text {
        Some(t) => StepView {
            reply: "Enter the recepient public key:"@,
            next: Next::Update(StateView::ReceivePublicKey { sender: t }),
        },
        None => StepView { reply: "Send me plain text."@, next: Next::Stay },
    }
}

/// The answer to the recipient's public key.
pub open spec fn receive_public_key_spec(sender: Seq<char>, text: Option<Seq<char>>) -> StepView<
    StateView,
> {
    match text {
        Some(t) => StepView {
            reply: "Enter amount:"@,
            next: Next::Update(StateView::ReceiveAmount { sender, public_key: t }),
        },
        None => StepView { reply: "Send me a plain text."@, next: Next::Stay },
    }
}

/// The answer to the amount: the transfer is shown and confirmation asked for.
pub open spec fn receive_amount_spec(
    sender: Seq<char>,
    public_key: Seq<char>,
    text: Option<Seq<char>>,
) -> StepView<StateView> {
    match text {
        Some(t) => StepView {
            reply: transfer_lines(sender, public_key, t) + "\n"@ + confirm_hint(),
            next: Next::Update(StateView::TransferConfirm { sender, public_key, amount: t }),
        },
        None => StepView { reply: "Send me plain text."@, next: Next::Stay },
    }
}

/// The answer to the confirmation question: any text ends the dialogue.
pub open spec fn transfer_confirm_spec(
    sender: Seq<char>,
    public_key: Seq<char>,
    amount: Seq<char>,
    text: Option<Seq<char>>,
) -> StepView<StateView> {
    match text {
        Some(t) => StepView {
            reply: transfer_report(sender, public_key, amount, t == confirm_words()),
            next: Next::Exit,
        },
        None => StepView { reply: confirm_hint(), next: Next::Stay },
    }
}

/// One step of the transfer dialogue from any state.
pub open spec fn transfer_step(state: StateView, text: Option<Seq<char>>) -> StepView<StateView> {
    match state {
        StateView::Start => start_spec(),
        StateView::ReceiveSender => receive_sender_spec(text),
        StateView::ReceivePublicKey { sender } => receive_public_key_spec(sender, text),
        StateView::ReceiveAmount { sender, public_key } => receive_amount_spec(
            sender,
            public_key,
            text,
        ),
        StateView::TransferConfirm { sender, public_key, amount } => transfer_confirm_spec(
            sender,
            public_key,
            amount,
            text,
        ),
    }
}

/// The place of a state in the order of the questions.
pub open spec fn progress(s: StateView) -> nat {
    match s {
        StateView::Start => 0,
        StateView::ReceiveSender => 1,
        StateView::ReceivePublicKey { .. } => 2,
        StateView::ReceiveAmount { .. } => 3,
        StateView::TransferConfirm { .. } => 4,
    }
}

/// Whether `after` still holds the answers that `before` holds.
pub open spec fn keeps_answers(before: StateView, after: StateView) -> bool {
    match before {
        StateView::ReceivePublicKey { sender } => after matches StateView::ReceiveAmount {
            sender: s,
            ..
        } && s == sender,
        StateView::ReceiveAmount { sender, public_key } => after matches StateView::TransferConfirm {
            sender: s,
            public_key: k,
            ..
        } && s == sender && k == public_key,
        _ => true,
    }
}

/// The transfer dialogue only moves forward: a step keeps the state, moves
/// to the next question with the earlier answers kept, or ends, and it ends
/// only on an answer to the confirmation question.
pub proof fn lemma_transfer_moves_forward(state: StateView, text: Option<Seq<char>>)
    ensures
        match transfer_step(state, text).next {
            Next::Update(after) => progress(after) == progress(state) + 1 && keeps_answers(
                state,
                after,
            ),
            Next::Stay => !(state is Start) && text is None,
            Next::Exit => state is TransferConfirm && text is Some,
        },
{
}

/// A message without text never changes the stored state once the dialogue
/// has started.
pub proof fn lemma_textless_message_keeps_state(state: StateView)
    requires
        !(state is Start),
    ensures
        transfer_step(state, None).next == Next::<StateView>::Stay,
{
}

/// The report of a confirmed transfer and that of a cancelled one always
/// differ, so the user can tell which of the two happened.
pub proof fn lemma_reports_differ(sender: Seq<char>, public_key: Seq<char>, amount: Seq<char>)
    ensures
        transfer_report(sender, public_key, amount, true) != transfer_report(
            sender,
            public_key,
            amount,
            false,
        ),
{
    reveal_strlit("\nState transfer: Ok");
    reveal_strlit("\nState transfer: Cancel");
    assert(transfer_report(sender, public_key, amount, true).len() != transfer_report(
        sender,
        public_key,
        amount,
        false,
    ).len());
}

/// A user who answers every question in turn ends the dialogue with a report
/// of exactly the sender, key and amount given, confirmed exactly when the
/// last answer is the confirmation words.
pub proof fn lemma_complete_transfer(
    first: Option<Seq<char>>,
    sender: Seq<char>,
    public_key: Seq<char>,
    amount: Seq<char>,
    answer: Seq<char>,
)
    ensures
        ({
            let s1 = transfer_step(StateView::Start, first);
            let s2 = transfer_step(s1.next->Update_0, Some(sender));
            let s3 = transfer_step(s2.next->Update_0, Some(public_key));
            let s4 = transfer_step(s3.next->Update_0, Some(amount));
            let s5 = transfer_step(s4.next->Update_0, Some(answer));
            &&& s4.next == Next::Update(StateView::TransferConfirm { sender, public_key, amount })
            &&& s4.reply == transfer_lines(sender, public_key, amount) + "\n"@ + confirm_hint()
            &&& s5.next == Next::<StateView>::Exit
            &&& s5.reply == transfer_report(sender, public_key, amount, answer == confirm_words())
        }),
{
}

/// The last answer ends the dialogue with a report of the sender, key and
/// amount exactly as entered, ending in "\nState transfer: Ok" exactly when
/// the answer is "confirm transfer" and in "\nState transfer: Cancel" for
/// any other text.
pub proof fn lemma_confirmation_report(
    sender: Seq<char>,
    public_key: Seq<char>,
    amount: Seq<char>,
    answer: Seq<char>,
)
    ensures
        ({
            let r = transfer_step(
                StateView::TransferConfirm { sender, public_key, amount },
                Some(answer),
            );
            let lines = "Transfer from: "@ + sender + "\nTo: "@ + public_key + "\nAmount: "@
                + amount;
            let ok = "\nState transfer: Ok"@;
            let cancel = "\nState transfer: Cancel"@;
            &&& r.next == Next::<StateView>::Exit
            &&& answer == "confirm transfer"@ ==> r.reply == lines + ok
            &&& answer != "confirm transfer"@ ==> r.reply == lines + cancel
            &&& r.reply.subrange(0, lines.len() as int) == lines
            &&& (r.reply.subrange(lines.len() as int, r.reply.len() as int) == ok) == (answer
                == "confirm transfer"@)
            &&& (r.reply.subrange(lines.len() as int, r.reply.len() as int) == cancel) == (answer
                != "confirm transfer"@)
        }),
{
    reveal_strlit("\nState transfer: Ok");
    reveal_strlit("\nState transfer: Cancel");
    let r = transfer_step(StateView::TransferConfirm { sender, public_key, amount }, Some(answer));
    let lines = "Transfer from: "@ + sender + "\nTo: "@ + public_key + "\nAmount: "@ + amount;
    let tail = if answer == "confirm transfer"@ {
        "\nState transfer: Ok"@
    } else {
        "\nState transfer: Cancel"@
    };
    assert(r.reply == lines + tail);
    assert(r.reply.subrange(0, lines.len() as int) =~= lines);
    assert(r.reply.subrange(lines.len() as int, r.reply.len() as int) =~= tail);
    assert("\nState transfer: Ok"@ != "\nState transfer: Cancel"@) by {
        assert("\nState transfer: Ok"@.len() != "\nState transfer: Cancel"@.len());
    }
}

/// The replies of the transfer dialogue: the greeting, each question, the
/// transfer shown with how to confirm it, and the requests for text.
pub proof fn lemma_transfer_replies(
    first: Option<Seq<char>>,
    sender: Seq<char>,
    public_key: Seq<char>,
    amount: Seq<char>,
    text: Seq<char>,
)
    ensures
        transfer_step(StateView::Start, first).reply
            == "Let's go to transfer cryptocurrency!\nEnter sender name:"@,
        transfer_step(StateView::ReceiveSender, Some(text)).reply
            == "Enter the recepient public key:"@,
        transfer_step(StateView::ReceiveSender, Some(text)).next == Next::Update(
            StateView::ReceivePublicKey { sender: text },
        ),
        transfer_step(StateView::ReceiveSender, None).reply == "Send me plain text."@,
        transfer_step(StateView::ReceivePublicKey { sender }, Some(text)).reply
            == "Enter amount:"@,
        transfer_step(StateView::ReceivePublicKey { sender }, Some(text)).next == Next::Update(
            StateView::ReceiveAmount { sender, public_key: text },
        ),
        transfer_step(StateView::ReceivePublicKey { sender }, None).reply
            == "Send me a plain text."@,
        transfer_step(StateView::ReceiveAmount { sender, public_key }, Some(text)).reply
            == "Transfer from: "@ + sender + "\nTo: "@ + public_key + "\nAmount: "@ + text
            + "\nFor confirm transfer enter: confirm transfer\nFor cancel transfer enter: some text"@,
        transfer_step(StateView::ReceiveAmount { sender, public_key }, Some(text)).next
            == Next::Update(StateView::TransferConfirm { sender, public_key, amount: text }),
        transfer_step(StateView::ReceiveAmount { sender, public_key }, None).reply
            == "Send me plain text."@,
        transfer_step(StateView::TransferConfirm { sender, public_key, amount }, None).reply
            == "For confirm transfer enter: confirm transfer\nFor cancel transfer enter: some text"@,
{
    reveal_strlit("\n");
    reveal_strlit(
        "For confirm transfer enter: confirm transfer\nFor cancel transfer enter: some text",
    );
    reveal_strlit(
        "\nFor confirm transfer enter: confirm transfer\nFor cancel transfer enter: some text",
    );
    let a = "Transfer from: "@ + sender + "\nTo: "@ + public_key + "\nAmount: "@ + text;
    assert(a + "\n"@ + "For confirm transfer enter: confirm transfer\nFor cancel transfer enter: some text"@
        =~= a + "\nFor confirm transfer enter: confirm transfer\nFor cancel transfer enter: some text"@);
}

/// Announces the transfer and asks for the sender name.
pub fn start() -> (r: Step<State>)
    ensures
        r@ == start_spec(),
{
    Step {
        reply: String::from_str("Let's go to transfer cryptocurrency!\nEnter sender name:"),
        next: Next::Update(State::ReceiveSender),
    }
}

/// Takes the message text as the sender name, or asks for text.
pub fn receive_sender(text: Option<&str>) -> (r: Step<State>)
    ensures
        r@ == receive_sender_spec(text_view(text)),
{
    match text {
        Some(t) => Step {
            reply: String::from_str("Enter the recepient public key:"),
            next: Next::Update(State::ReceivePublicKey { sender: String::from_str(t) }),
        },
        None => Step { reply: String::from_str("Send me plain text."), next: Next::Stay },
    }
}

/// Takes the message text as the recipient's public key, or asks for text.
pub fn receive_public_key(sender: String, text: Option<&str>) -> (r: Step<State>)
    ensures
        r@ == receive_public_key_spec(sender@, text_view(text)),
{
    match text {
        Some(t) => Step {
            reply: String::from_str("Enter amount:"),
            next: Next::Update(State::ReceiveAmount { sender, public_key: String::from_str(t) }),
        },
        None => Step { reply: String::from_str("Send me a plain text."), next: Next::Stay },
    }
}

fn transfer_lines_text(sender: &str, public_key: &str, amount: &str) -> (r: String)
    ensures
        r@ == transfer_lines(sender@, public_key@, amount@),
{
    String::from_str("Transfer from: ").concat(sender).concat("\nTo: ").concat(public_key).concat(
        "\nAmount: ",
    ).concat(amount)
}

/// Takes the message text as the amount, shows the transfer and asks for
/// confirmation, or asks for text.
pub fn receive_amount(sender: String, public_key: String, text: Option<&str>) -> (r: Step<State>)
    ensures
        r@ == receive_amount_spec(sender@, public_key@, text_view(text)),
{
    match text {
        Some(t) => {
            let reply = transfer_lines_text(sender.as_str(), public_key.as_str(), t).concat(
                "\n",
            ).concat(
                "For confirm transfer enter: confirm transfer\nFor cancel transfer enter: some text",
            );
            Step {
                reply,
                next: Next::Update(
                    State::TransferConfirm { sender, public_key, amount: String::from_str(t) },
                ),
            }
        },
        None => Step { reply: String::from_str("Send me plain text."), next: Next::Stay },
    }
}

/// Ends the dialogue with the transfer confirmed when the text is exactly
/// the confirmation words and cancelled otherwise; without text, repeats
/// how to confirm.
pub fn transfer_confirm(sender: String, public_key: String, amount: String, text: Option<&str>) -> (r:
    Step<State>)
    ensures
        r@ == transfer_confirm_spec(sender@, public_key@, amount@, text_view(text)),
{
    match text {
        Some(t) => {
            let lines = transfer_lines_text(sender.as_str(), public_key.as_str(), amount.as_str());
            let confirmed = String::from_str(t) == String::from_str("confirm transfer");
            let reply = if confirmed {
                lines.concat("\nState transfer: Ok")
            } else {
                lines.concat("\nState transfer: Cancel")
            };
            Step { reply, next: Next::Exit }
        },
        None => Step {
            reply: String::from_str(
                "For confirm transfer enter: confirm transfer\nFor cancel transfer enter: some text",
            ),
            next: Next::Stay,
        },
    }
}

/// Answers a message in whatever state the transfer dialogue is.
pub fn step(state: State, text: Option<&str>) -> (r: Step<State>)
    ensures
        r@ == transfer_step(state@, text_view(text)),
{
    match state {
        State::Start => start(),
        State::ReceiveSender => receive_sender(text),
        State::ReceivePublicKey { sender } => receive_public_key(sender, text),
        State::ReceiveAmount { sender, public_key } => receive_amount(sender, public_key, text),
        State::TransferConfirm { sender, public_key, amount } => transfer_confirm(
            sender,
            public_key,
            amount,
            text,
        ),
    }
}

} // verus!
