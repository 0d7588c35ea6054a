use orange_substrate_bot::command::{answer, Command};

#[test]
fn help_shows_the_descriptions() {
    assert_eq!(answer(Command::Help, "These commands are supported:\n/help"), "These commands are supported:\n/help");
}

#[test]
fn username_is_echoed() {
    assert_eq!(answer(Command::Username("neo".to_string()), ""), "Your username is @neo.");
}

#[test]
fn username_and_age_are_echoed() {
    let c = Command::UsernameAndAge { username: "trinity".to_string(), age: 29 };
    assert_eq!(answer(c, ""), "Your username is @trinity and age is 29.");
    let c = Command::UsernameAndAge { username: "x".to_string(), age: 0 };
    assert_eq!(answer(c, ""), "Your username is @x and age is 0.");
}
