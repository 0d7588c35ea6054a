//! The dispatching-features bot: simple commands for everyone, a random
//! number command for the maintainer, a note in group chats and the value of
//! a thrown dice.

use vstd::prelude::*;
use vstd::string::*;

use crate::text::{decimal, decimal_text, signed_decimal, signed_decimal_text};

verus! {

/// Commands that anyone may send.
#[derive(Clone, Copy)]
pub enum SimpleCommand {
    Help,
    Maintainer,
    MyId,
}

/// Commands that only the maintainer may send.
#[derive(Clone, Copy)]
pub enum MaintainerCommands {
    Rand { from: u64, to: u64 },
}

/// Who maintains the bot: a user id and, where known, a user name.
#[derive(Clone)]
pub struct ConfigParameters {
    pub bot_maintainer: u64,
    pub maintainer_username: Option<String>,
}

/// The configuration as the contracts see it.
pub struct ConfigView {
    pub bot_maintainer: u64,
    pub maintainer_username: Option<Seq<char>>,
}

impl View for ConfigParameters {
    type V = ConfigView;

    open spec fn view(&self) -> ConfigView {
        ConfigView {
            bot_maintainer: self.bot_maintainer,
            maintainer_username: match &self.maintainer_username {
                Some(u) => Some(u@),
                None => None,
            },
        }
    }
}

/// Which handler answers a message.
#[derive(Clone, Copy)]
pub enum Route {
    Simple(SimpleCommand),
    Maintainer(MaintainerCommands),
    GroupChat,
    Dice(i32),
    Unhandled,
}

/// Whether a message was sent by the maintainer (a message without a sender
/// is not).
pub open spec fn from_maintainer(sender: Option<u64>, maintainer: u64) -> bool {
    sender == Some(maintainer)
}

/// The handlers are tried in order: a simple command; a maintainer command
/// sent by the maintainer; any message in a group or supergroup; a dice; and
/// otherwise nothing handles the message.
pub open spec fn route_spec(
    simple: Option<SimpleCommand>,
    sender: Option<u64>,
    maintainer: u64,
    maintainer_command: Option<MaintainerCommands>,
    is_group: bool,
    is_supergroup: bool,
    dice: Option<i32>,
) -> Route {
    if simple is Some {
        Route::Simple(simple->0)
    } else if from_maintainer(sender, maintainer) && maintainer_command is Some {
        Route::Maintainer(maintainer_command->0)
    } else if is_group || is_supergroup {
        Route::GroupChat
    } else if dice is Some {
        Route::Dice(dice->0)
    } else {
        Route::Unhandled
    }
}

/// Whether the message's sender is the maintainer.
pub fn is_from_maintainer(sender: Option<u64>, cfg: &ConfigParameters) -> (r: bool)
    ensures
        r == from_maintainer(sender, cfg.bot_maintainer),
{
    match sender {
        Some(id) => id == cfg.bot_maintainer,
        None => false,
    }
}

/// Chooses the handler of a message from what it holds: `simple` and
/// `maintainer_command` are its text read as either kind of command.
pub fn route(
    simple: Option<SimpleCommand>,
    sender: Option<u64>,
    cfg: &ConfigParameters,
    maintainer_command: Option<MaintainerCommands>,
    is_group: bool,
    is_supergroup: bool,
    dice: Option<i32>,
) -> (r: Route)
    ensures
        r == route_spec(
            simple,
            sender,
            cfg.bot_maintainer,
            maintainer_command,
            is_group,
            is_supergroup,
            dice,
        ),
{
    if let Some(command) = simple {
        Route::Simple(command)
    } else if is_from_maintainer(sender, cfg) && maintainer_command.is_some() {
        Route::Maintainer(maintainer_command.unwrap())
    } else if is_group || is_supergroup {
        Route::GroupChat
    } else if let Some(value) = dice {
        Route::Dice(value)
    } else {
        Route::Unhandled
    }
}

/// Only messages from the maintainer reach the maintainer commands, and a
/// simple command is always answered as one, whoever sends it and wherever.
pub proof fn lemma_maintainer_commands_are_guarded(
    simple: Option<SimpleCommand>,
    sender: Option<u64>,
    maintainer: u64,
    maintainer_command: Option<MaintainerCommands>,
    is_group: bool,
    is_supergroup: bool,
    dice: Option<i32>,
)
    ensures
        route_spec(simple, sender, maintainer, maintainer_command, is_group, is_supergroup, dice) is Maintainer
            ==> sender == Some(maintainer),
        simple is Some ==> route_spec(
            simple,
            sender,
            maintainer,
            maintainer_command,
            is_group,
            is_supergroup,
            dice,
        ) == Route::Simple(simple->0),
{
}

/// The handlers are tried in the order of the original dispatch tree, each
/// taking the message only when the earlier ones did not: a simple command
/// wins everywhere; otherwise the maintainer's maintainer command wins in any
/// kind of chat; otherwise a group or supergroup is told it is one; otherwise
/// a dice is answered; nothing else is handled.
pub proof fn lemma_route_order(
    simple: Option<SimpleCommand>,
    sender: Option<u64>,
    maintainer: u64,
    maintainer_command: Option<MaintainerCommands>,
    is_group: bool,
    is_supergroup: bool,
    dice: Option<i32>,
)
    ensures
        ({
            let r = route_spec(
                simple,
                sender,
                maintainer,
                maintainer_command,
                is_group,
                is_supergroup,
                dice,
            );
            let by_maintainer = sender == Some(maintainer) && maintainer_command is Some;
            &&& simple is Some ==> r == Route::Simple(simple->0)
            &&& simple is None && by_maintainer ==> r == Route::Maintainer(maintainer_command->0)
            &&& simple is None && !by_maintainer && (is_group || is_supergroup) ==> r
                == Route::GroupChat
            &&& simple is None && !by_maintainer && !is_group && !is_supergroup && dice is Some
                ==> r == Route::Dice(dice->0)
            &&& simple is None && !by_maintainer && !is_group && !is_supergroup && dice is None
                ==> r == Route::Unhandled
            &&& r is Maintainer ==> sender == Some(maintainer)
            &&& r is GroupChat ==> is_group || is_supergroup
        }),
{
}

/// The reply to a simple command from `sender`. The three description texts
/// are the rendered command lists: of the simple commands, of the simple
/// commands addressed to this bot by name, and of the maintainer commands.
pub open spec fn simple_reply(
    command: SimpleCommand,
    sender: u64,
    in_group: bool,
    cfg: ConfigView,
    simple_descriptions: Seq<char>,
    group_descriptions: Seq<char>,
    maintainer_descriptions: Seq<char>,
) -> Seq<char> {
    match command {
        SimpleCommand::Help => if sender == cfg.bot_maintainer {
            simple_descriptions + "\n\n"@ + maintainer_descriptions
        } else if in_group {
            group_descriptions
        } else {
            simple_descriptions
        },
        SimpleCommand::Maintainer => if sender == cfg.bot_maintainer {
            "Maintainer is you!"@
        } else if cfg.maintainer_username is Some {
            "Maintainer is @"@ + cfg.maintainer_username->0
        } else {
            "Maintainer ID is "@ + decimal(cfg.bot_maintainer as nat)
        },
        SimpleCommand::MyId => decimal(sender as nat),
    }
}

/// What each simple command answers. `/help`: the maintainer gets both
/// command lists joined by a blank line, anyone else the simple list, named
/// after the bot in a group or supergroup. `/maintainer`: the maintainer is
/// told it is them whether or not a user name is configured; anyone else gets
/// the maintainer's user name when configured and its id otherwise. `/myid`:
/// the sender's id in decimal.
pub proof fn lemma_simple_replies(
    sender: u64,
    in_group: bool,
    cfg: ConfigView,
    simple: Seq<char>,
    group: Seq<char>,
    maintainer: Seq<char>,
)
    ensures
        sender == cfg.bot_maintainer ==> simple_reply(
            SimpleCommand::Help,
            sender,
            in_group,
            cfg,
            simple,
            group,
            maintainer,
        ) == simple + seq!['\n', '\n'] + maintainer,
        sender != cfg.bot_maintainer && in_group ==> simple_reply(
            SimpleCommand::Help,
            sender,
            in_group,
            cfg,
            simple,
            group,
            maintainer,
        ) == group,
        sender != cfg.bot_maintainer && !in_group ==> simple_reply(
            SimpleCommand::Help,
            sender,
            in_group,
            cfg,
            simple,
            group,
            maintainer,
        ) == simple,
        sender == cfg.bot_maintainer ==> simple_reply(
            SimpleCommand::Maintainer,
            sender,
            in_group,
            cfg,
            simple,
            group,
            maintainer,
        ) == "Maintainer is you!"@,
        sender != cfg.bot_maintainer && cfg.maintainer_username is Some ==> simple_reply(
            SimpleCommand::Maintainer,
            sender,
            in_group,
            cfg,
            simple,
            group,
            maintainer,
        ) == "Maintainer is @"@ + cfg.maintainer_username->0,
        sender != cfg.bot_maintainer && cfg.maintainer_username is None ==> simple_reply(
            SimpleCommand::Maintainer,
            sender,
            in_group,
            cfg,
            simple,
            group,
            maintainer,
        ) == "Maintainer ID is "@ + decimal(cfg.bot_maintainer as nat),
        simple_reply(SimpleCommand::MyId, sender, in_group, cfg, simple, group, maintainer)
            == decimal(sender as nat),
{
    reveal_strlit("\n\n");
}

/// Answers a simple command: the command lists for `/help` (both lists for
/// the maintainer), who maintains the bot for `/maintainer`, and the
/// sender's id for `/myid`.
pub fn simple_commands_handler(
    command: SimpleCommand,
    sender: u64,
    is_group: bool,
    is_supergroup: bool,
    cfg: &ConfigParameters,
    simple_descriptions: &str,
    group_descriptions: &str,
    maintainer_descriptions: &str,
) -> (r: String)
    ensures
        r@ == simple_reply(
            command,
            sender,
            is_group || is_supergroup,
            cfg@,
            simple_descriptions@,
            group_descriptions@,
            maintainer_descriptions@,
        ),
{
    match command {
        SimpleCommand::Help => {
            if sender == cfg.bot_maintainer {
                String::from_str(simple_descriptions).concat("\n\n").concat(
                    maintainer_descriptions,
                )
            } else if is_group || is_supergroup {
                String::from_str(group_descriptions)
            } else {
                String::from_str(simple_descriptions)
            }
        },
        SimpleCommand::Maintainer => {
            if sender == cfg.bot_maintainer {
                String::from_str("Maintainer is you!")
            } else {
                match &cfg.maintainer_username {
                    Some(username) => String::from_str("Maintainer is @").concat(
                        username.as_str(),
                    ),
                    None => String::from_str("Maintainer ID is ").concat(
                        decimal_text(cfg.bot_maintainer).as_str(),
                    ),
                }
            }
        },
        SimpleCommand::MyId => decimal_text(sender),
    }
}

/// Calls `rand::Rng::gen_range` with the inclusive range `from..=to` on
/// `rand::rngs::OsRng`, the operating system's random source. The value is
/// chance: all that is claimed is that it lies in the range, which rand
/// promises for a non-empty range (it panics on an empty one, which
/// `requires` leaves out). `OsRng` also panics where the operating system
/// cannot give random bytes; nothing here can rule that out.
#[verifier::external_body]
fn random_in_range(from: u64, to: u64) -> (r: u64)
    requires
        from <= to,
    ensures
        from <= r <= to,
{
    let mut rng = rand::rngs::OsRng::default();
    rand::Rng::gen_range(&mut rng, from..=to)
}

/// Whether a maintainer command can be carried out (a range must not be empty).
pub open spec fn maintainer_command_ok(command: MaintainerCommands) -> bool {
    match command {
        MaintainerCommands::Rand { from, to } => from <= to,
    }
}

/// Carries out a maintainer command: `/rand from to` answers with a random
/// number from `from` to `to`, both included, written in decimal.
pub fn maintainer_commands_handler(command: MaintainerCommands) -> (r: String)
    requires
        maintainer_command_ok(command),
    ensures
        match command {
            MaintainerCommands::Rand { from, to } => exists|v: u64|
                from <= v <= to && r@ == #[trigger] decimal(v as nat),
        },
{
    match command {
        MaintainerCommands::Rand { from, to } => {
            let value = random_in_range(from, to);
            let r = decimal_text(value);
            assert(from <= value <= to && r@ == decimal(value as nat));
            r
        },
    }
}

/// The reply to any message in a group chat that no command handled.
pub open spec fn group_chat_reply_spec() -> Seq<char> {
    "This is a group chat."@
}

/// Tells the group that it is a group chat.
pub fn group_chat_reply() -> (r: String)
    ensures
        r@ == group_chat_reply_spec(),
{
    String::from_str("This is a group chat.")
}

/// The reply to a thrown dice.
pub open spec fn dice_reply_spec(value: i32) -> Seq<char> {
    "Dice value: "@ + signed_decimal(value as int)
}

/// The dice reply names the dice's value in decimal after "Dice value: ",
/// and a group chat is always told the same sentence.
pub proof fn lemma_fixed_replies(value: i32)
    ensures
        dice_reply_spec(value) == "Dice value: "@ + signed_decimal(value as int),
        group_chat_reply_spec() == "This is a group chat."@,
{
}

/// Tells the value of a thrown dice.
pub fn dice_reply(value: i32) -> (r: String)
    ensures
        r@ == dice_reply_spec(value),
{
    String::from_str("Dice value: ").concat(signed_decimal_text(value).as_str())
}

} // verus!
