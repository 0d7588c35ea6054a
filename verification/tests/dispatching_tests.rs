use std::collections::HashSet;

use orange_substrate_bot::dispatching::{
    dice_reply, group_chat_reply, is_from_maintainer, maintainer_commands_handler, route,
    simple_commands_handler, ConfigParameters, MaintainerCommands, Route, SimpleCommand,
};

fn cfg(name: Option<&str>) -> ConfigParameters {
    ConfigParameters { bot_maintainer: 7, maintainer_username: name.map(|n| n.to_string()) }
}

#[test]
fn maintainer_is_recognised_by_id() {
    let c = cfg(None);
    assert!(is_from_maintainer(Some(7), &c));
    assert!(!is_from_maintainer(Some(8), &c));
    assert!(!is_from_maintainer(None, &c));
}

#[test]
fn simple_commands_come_first() {
    let c = cfg(None);
    let r = route(Some(SimpleCommand::MyId), Some(7), &c, Some(MaintainerCommands::Rand { from: 1, to: 2 }), true, false, Some(3));
    assert!(matches!(r, Route::Simple(SimpleCommand::MyId)));
}

#[test]
fn maintainer_commands_only_for_the_maintainer() {
    let c = cfg(None);
    let cmd = Some(MaintainerCommands::Rand { from: 1, to: 2 });
    assert!(matches!(route(None, Some(7), &c, cmd, false, false, None), Route::Maintainer(_)));
    assert!(matches!(route(None, Some(8), &c, cmd, false, false, None), Route::Unhandled));
    assert!(matches!(route(None, None, &c, cmd, true, false, None), Route::GroupChat));
}

#[test]
fn group_chats_then_dice_then_nothing() {
    let c = cfg(None);
    assert!(matches!(route(None, Some(1), &c, None, false, true, Some(4)), Route::GroupChat));
    assert!(matches!(route(None, Some(1), &c, None, true, false, None), Route::GroupChat));
    assert!(matches!(route(None, Some(1), &c, None, false, false, Some(4)), Route::Dice(4)));
    assert!(matches!(route(None, Some(1), &c, None, false, false, None), Route::Unhandled));
}

#[test]
fn help_depends_on_who_asks_and_where() {
    let c = cfg(None);
    let h = |sender, group, supergroup| simple_commands_handler(SimpleCommand::Help, sender, group, supergroup, &c, "S", "G", "M");
    assert_eq!(h(7, false, false), "S\n\nM");
    assert_eq!(h(7, true, false), "S\n\nM");
    assert_eq!(h(3, true, false), "G");
    assert_eq!(h(3, false, true), "G");
    assert_eq!(h(3, false, false), "S");
}

#[test]
fn maintainer_command_names_the_maintainer() {
    let m = |c: &ConfigParameters, sender| simple_commands_handler(SimpleCommand::Maintainer, sender, false, false, c, "", "", "");
    assert_eq!(m(&cfg(Some("boss")), 7), "Maintainer is you!");
    assert_eq!(m(&cfg(Some("boss")), 3), "Maintainer is @boss");
    assert_eq!(m(&cfg(None), 3), "Maintainer ID is 7");
}

#[test]
fn my_id_tells_the_sender_id() {
    let c = cfg(None);
    assert_eq!(simple_commands_handler(SimpleCommand::MyId, 1234567890123, false, false, &c, "", "", ""), "1234567890123");
}

#[test]
fn rand_stays_in_the_range() {
    for _ in 0..200 {
        let r = maintainer_commands_handler(MaintainerCommands::Rand { from: 10, to: 20 });
        let v: u64 = r.parse().unwrap();
        assert!((10..=20).contains(&v));
    }
    assert_eq!(maintainer_commands_handler(MaintainerCommands::Rand { from: 5, to: 5 }), "5");
    let r = maintainer_commands_handler(MaintainerCommands::Rand { from: 0, to: u64::MAX });
    assert!(r.parse::<u64>().is_ok());
}

#[test]
fn rand_values_vary() {
    let mut seen = HashSet::new();
    for _ in 0..100 {
        seen.insert(maintainer_commands_handler(MaintainerCommands::Rand { from: 0, to: 1_000_000 }));
    }
    assert!(seen.len() > 1);
}

#[test]
fn group_and_dice_replies() {
    assert_eq!(group_chat_reply(), "This is a group chat.");
    assert_eq!(dice_reply(6), "Dice value: 6");
    assert_eq!(dice_reply(64), "Dice value: 64");
}
