//! Decision logic of a Telegram bot that walks users through small dialogues
//! (a profile questionnaire and a cryptocurrency transfer), answers commands
//! and counts messages. Everything that talks to Telegram lives outside this
//! library; here are the states, the transitions and the reply texts.

pub mod command;
pub mod conversation;
pub mod dialogues;
pub mod dispatching;
pub mod shared_state;
pub mod text;
pub mod transfer;
