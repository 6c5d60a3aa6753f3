//! Frames of the gateway protocol and the events they carry.

use vstd::prelude::*;
use vstd::string::StringExecFns;

verus! {

/// The tag of a server event; it selects the callback that receives the event.
#[derive(Clone, Copy, Debug, PartialEq, Eq, Structural)]
pub enum EventTag {
    InitState,
    HouseJoin,
    TypingStart,
    MessageCreate,
}

/// The name under which a tag travels on the wire.
pub open spec fn tag_name(tag: EventTag) -> Seq<char> {
    match tag {
        EventTag::InitState => "INIT_STATE"@,
        EventTag::HouseJoin => "HOUSE_JOIN"@,
        EventTag::TypingStart => "TYPING_START"@,
        EventTag::MessageCreate => "MESSAGE_CREATE"@,
    }
}

/// The tag that a wire name stands for, if the name is a recognized one.
pub open spec fn tag_named(name: Seq<char>) -> Option<EventTag> {
    if name == "INIT_STATE"@ {
        Some(EventTag::InitState)
    } else if name == "HOUSE_JOIN"@ {
        Some(EventTag::HouseJoin)
    } else if name == "TYPING_START"@ {
        Some(EventTag::TypingStart)
    } else if name == "MESSAGE_CREATE"@ {
        Some(EventTag::MessageCreate)
    } else {
        None
    }
}

/// The four wire names differ pairwise, so every tag is found again by its name.
pub proof fn lemma_tag_names_distinct(tag: EventTag)
    ensures
        tag_named(tag_name(tag)) == Some(tag),
{
    reveal_strlit("INIT_STATE");
    reveal_strlit("HOUSE_JOIN");
    reveal_strlit("TYPING_START");
    reveal_strlit("MESSAGE_CREATE");
    assert("INIT_STATE"@.len() == 10);
    assert("HOUSE_JOIN"@.len() == 10);
    assert("TYPING_START"@.len() == 12);
    assert("MESSAGE_CREATE"@.len() == 14);
    assert("INIT_STATE"@[0] == 'I');
    assert("HOUSE_JOIN"@[0] == 'H');
}

/// A name that is recognized is the wire name of the tag it stands for.
pub proof fn lemma_tag_named_is_name(name: Seq<char>)
    ensures
        tag_named(name) matches Some(tag) ==> tag_name(tag) == name,
{
    lemma_tag_names_distinct(EventTag::InitState);
    lemma_tag_names_distinct(EventTag::HouseJoin);
    lemma_tag_names_distinct(EventTag::TypingStart);
    lemma_tag_names_distinct(EventTag::MessageCreate);
}

impl EventTag {
    /// The wire name of the tag.
    pub fn name(self) -> (name: &'static str)
        ensures
            name@ == tag_name(self),
    {
        match self {
            EventTag::InitState => "INIT_STATE",
            EventTag::HouseJoin => "HOUSE_JOIN",
            EventTag::TypingStart => "TYPING_START",
            EventTag::MessageCreate => "MESSAGE_CREATE",
        }
    }

    /// Recognizes a wire name. A name that the client does not know gives `None`, so that
    /// events added by the server later are passed over instead of failing the session.
    pub fn from_name(name: &str) -> (tag: Option<EventTag>)
        ensures
            tag == tag_named(name@),
    {
        let owned = name.to_owned();
        if owned == String::from_str("INIT_STATE") {
            Some(EventTag::InitState)
        } else if owned == String::from_str("HOUSE_JOIN") {
            Some(EventTag::HouseJoin)
        } else if owned == String::from_str("TYPING_START") {
            Some(EventTag::TypingStart)
        } else if owned == String::from_str("MESSAGE_CREATE") {
            Some(EventTag::MessageCreate)
        } else {
            None
        }
    }
}

/// A server event: its tag and its body. The body is the JSON text of the event's data;
/// the session forwards it to the callback without reading it.
#[derive(Clone, Debug, PartialEq, Eq)]
pub struct Event {
    pub tag: EventTag,
    pub data: String,
}

/// An event as the contracts speak of it.
pub struct EventView {
    pub tag: EventTag,
    pub data: Seq<char>,
}

impl View for Event {
    type V = EventView;

    open spec fn view(&self) -> EventView {
        EventView { tag: self.tag, data: self.data@ }
    }
}

/// The event that the server sent under the wire name `name` with the body `data`, if the
/// name is a recognized one.
pub open spec fn event_named(name: Seq<char>, data: Seq<char>) -> Option<EventView> {
    match tag_named(name) {
        Some(tag) => Some(EventView { tag, data }),
        None => None,
    }
}

/// The view of an event that may be absent.
pub open spec fn event_view(event: Option<Event>) -> Option<EventView> {
    match event {
        Some(event) => Some(event@),
        None => None,
    }
}

impl Event {
    /// The event that the server sent under the wire name `name` with the body `data`. A
    /// name that the client does not know gives `None`: such an event is no known frame.
    pub fn named(name: &str, data: String) -> (event: Option<Event>)
        ensures
            event_view(event) == event_named(name@, data@),
    {
        match EventTag::from_name(name) {
            Some(tag) => Some(Event { tag, data }),
            None => None,
        }
    }
}

/// A frame of the gateway protocol, in either direction.
#[derive(Clone, Debug, PartialEq, Eq)]
pub enum Frame {
    /// Server to client, first frame only: the heartbeat period in milliseconds.
    Hello { heartbeat_interval: u32 },
    /// Client to server, once after `Hello`.
    Login { token: String },
    /// Client to server, once per heartbeat period.
    Heartbeat,
    /// Server to client.
    Event(Event),
}

/// A frame as the contracts speak of it.
pub enum FrameView {
    Hello { heartbeat_interval: u32 },
    Login { token: Seq<char> },
    Heartbeat,
    Event(EventView),
}

impl View for Frame {
    type V = FrameView;

    open spec fn view(&self) -> FrameView {
        match self {
            Frame::Hello { heartbeat_interval } => FrameView::Hello {
                heartbeat_interval: *heartbeat_interval,
            },
            Frame::Login { token } => FrameView::Login { token: token@ },
            Frame::Heartbeat => FrameView::Heartbeat,
            Frame::Event(event) => FrameView::Event(event@),
        }
    }
}

/// The word by which an error names a frame that came when another was expected.
pub open spec fn frame_word(frame: FrameView) -> Seq<char> {
    match frame {
        FrameView::Hello { .. } => "Hello"@,
        FrameView::Login { .. } => "Login"@,
        FrameView::Heartbeat => "Heartbeat"@,
        FrameView::Event(_) => "Event"@,
    }
}

impl Frame {
    /// The word by which an error names this frame.
    pub fn word(&self) -> (word: &'static str)
        ensures
            word@ == frame_word(self@),
    {
        match self {
            Frame::Hello { .. } => "Hello",
            Frame::Login { .. } => "Login",
            Frame::Heartbeat => "Heartbeat",
            Frame::Event(_) => "Event",
        }
    }
}

} // verus!
