use hiven::{Event, EventTag, Frame};

#[test]
fn recognized_tags_are_found_by_name() {
    assert_eq!(EventTag::from_name("INIT_STATE"), Some(EventTag::InitState));
    assert_eq!(EventTag::from_name("HOUSE_JOIN"), Some(EventTag::HouseJoin));
    assert_eq!(EventTag::from_name("TYPING_START"), Some(EventTag::TypingStart));
    assert_eq!(EventTag::from_name("MESSAGE_CREATE"), Some(EventTag::MessageCreate));
}

#[test]
fn unknown_tag_is_not_found() {
    assert_eq!(EventTag::from_name("REACTION_ADD"), None);
    assert_eq!(EventTag::from_name(""), None);
    assert_eq!(EventTag::from_name("message_create"), None);
    assert_eq!(EventTag::from_name("MESSAGE_CREATE "), None);
}

#[test]
fn tag_names_are_the_wire_names() {
    assert_eq!(EventTag::InitState.name(), "INIT_STATE");
    assert_eq!(EventTag::HouseJoin.name(), "HOUSE_JOIN");
    assert_eq!(EventTag::TypingStart.name(), "TYPING_START");
    assert_eq!(EventTag::MessageCreate.name(), "MESSAGE_CREATE");
}

#[test]
fn every_tag_is_found_again_by_its_name() {
    for tag in [
        EventTag::InitState,
        EventTag::HouseJoin,
        EventTag::TypingStart,
        EventTag::MessageCreate,
    ] {
        assert_eq!(EventTag::from_name(tag.name()), Some(tag));
    }
}

#[test]
fn frame_words() {
    assert_eq!(Frame::Hello { heartbeat_interval: 1 }.word(), "Hello");
    assert_eq!(Frame::Login { token: String::from("T") }.word(), "Login");
    assert_eq!(Frame::Heartbeat.word(), "Heartbeat");
    let event = Event { tag: EventTag::TypingStart, data: String::from("{}") };
    assert_eq!(Frame::Event(event).word(), "Event");
}
