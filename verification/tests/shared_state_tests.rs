use orange_substrate_bot::shared_state::{messages_total_reply, MessageCounter};

#[test]
fn counter_tells_how_many_came_before() {
    let mut c = MessageCounter::new();
    assert_eq!(c.total(), 0);
    assert_eq!(c.record(), 0);
    assert_eq!(c.record(), 1);
    assert_eq!(c.record(), 2);
    assert_eq!(c.total(), 3);
}

#[test]
fn reply_says_the_total() {
    assert_eq!(messages_total_reply(0), "I received 0 messages in total.");
    assert_eq!(messages_total_reply(41), "I received 41 messages in total.");
}
