//! The command bot: answers `/help`, `/username` and `/usernameandage`.

use vstd::prelude::*;
use vstd::string::*;

use crate::text::{all_digits, decimal, decimal_text, digits_value, lemma_decimal};

verus! {

/// A command that the command bot understands, with its arguments.
pub enum Command {
    Help,
    Username(String),
    UsernameAndAge { username: String, age: u8 },
}

/// A command as the contracts see it.
pub enum CommandView {
    Help,
    Username(Seq<char>),
    UsernameAndAge { username: Seq<char>, age: u8 },
}

impl View for Command {
    type V = CommandView;

    open spec fn view(&self) -> CommandView {
        match self {
            Command::Help => CommandView::Help,
            Command::Username(u) => CommandView::Username(u@),
            Command::UsernameAndAge { username, age } => CommandView::UsernameAndAge {
                username: username@,
                age: *age,
            },
        }
    }
}

/// The reply to a command; `descriptions` is the rendered list of commands.
pub open spec fn answer_spec(command: CommandView, descriptions: Seq<char>) -> Seq<char> {
    match command {
        CommandView::Help => descriptions,
        CommandView::Username(username) => "Your username is @"@ + username + "."@,
        CommandView::UsernameAndAge { username, age } => "Your username is @"@ + username
            + " and age is "@ + decimal(age as nat) + "."@,
    }
}

/// `/help` answers with the command list itself; `/username` echoes the
/// name; `/usernameandage` echoes the name and writes exactly the given age
/// in decimal, for every name and age.
pub proof fn lemma_answers(username: Seq<char>, age: u8, descriptions: Seq<char>)
    ensures
        answer_spec(CommandView::Help, descriptions) == descriptions,
        answer_spec(CommandView::Username(username), descriptions) == "Your username is @"@
            + username + "."@,
        answer_spec(CommandView::UsernameAndAge { username, age }, descriptions)
            == "Your username is @"@ + username + " and age is "@ + decimal(age as nat) + "."@,
        ({
            let r = answer_spec(CommandView::UsernameAndAge { username, age }, descriptions);
            let head = "Your username is @"@ + username + " and age is "@;
            let s = r.subrange(head.len() as int, r.len() - 1);
            &&& r.len() > head.len()
            &&& r.subrange(0, head.len() as int) == head
            &&& s.len() > 0
            &&& all_digits(s)
            &&& digits_value(s) == age
            &&& (s[0] != '0' || s.len() == 1)
        }),
{
    lemma_decimal(age as nat);
    reveal_strlit(".");
    let r = answer_spec(CommandView::UsernameAndAge { username, age }, descriptions);
    let head = "Your username is @"@ + username + " and age is "@;
    assert(r.subrange(0, head.len() as int) =~= head);
    assert(r.subrange(head.len() as int, r.len() - 1) =~= decimal(age as nat));
}

/// The reply to a command: the command list for `/help`, the user name (and
/// age) back otherwise.
pub fn answer(command: Command, descriptions: &str) -> (r: String)
    ensures
        r@ == answer_spec(command@, descriptions@),
{
    match command {
        Command::Help => String::from_str(descriptions),
        Command::Username(username) => String::from_str("Your username is @").concat(
            username.as_str(),
        ).concat("."),
        Command::UsernameAndAge { username, age } => String::from_str(
            "Your username is @",
        ).concat(username.as_str()).concat(" and age is ").concat(
            decimal_text(age as u64).as_str(),
        ).concat("."),
    }
}

} // verus!
