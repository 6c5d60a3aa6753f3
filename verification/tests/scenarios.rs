use async_tungstenite::tungstenite::Message;
use hiven::{
    pump, Action, Arrival, Beat, Client, CloseReason, Directive, EgressItem, Error, Event,
    EventTag, Frame, GateKeeper, Heartbeat, Inbound, Input, Pulse, State, QUEUE_CAPACITY,
};
use std::collections::VecDeque;
use tokio::sync::mpsc::error::SendError;

/// A session on a scripted transport: the three tasks take their turns when the test says so.
struct Rig {
    keeper: GateKeeper,
    ticker: Option<Heartbeat>,
    writing: bool,
    pump_result: Option<Result<(), Error>>,
    dispatcher_result: Option<Result<(), Error>>,
    ingress: VecDeque<Frame>,
    egress: VecDeque<EgressItem>,
    written: Vec<Frame>,
    calls: Vec<Event>,
}

impl Rig {
    fn new(token: &str) -> Rig {
        Rig {
            keeper: GateKeeper::new(&Client::new(token)),
            ticker: None,
            writing: true,
            pump_result: None,
            dispatcher_result: None,
            ingress: VecDeque::new(),
            egress: VecDeque::new(),
            written: Vec::new(),
            calls: Vec::new(),
        }
    }

    fn pump_runs(&self) -> bool {
        self.pump_result.is_none()
    }

    fn act(&mut self, action: Action) {
        match action {
            Action::Forward(frame) => {
                if self.dispatcher_result.is_some() {
                    let error = Error::send_error(SendError(frame));
                    self.act(pump(Arrival::SendFailed(error)));
                } else {
                    self.ingress.push_back(frame);
                }
            }
            Action::Discard => {}
            Action::Write(frame) => self.written.push(frame),
            Action::Shutdown => self.pump_result = Some(Ok(())),
            Action::StopWriting => self.writing = false,
            Action::Fail(error) => self.pump_result = Some(Err(error)),
        }
    }

    fn receive(&mut self, inbound: Inbound) {
        if self.pump_runs() {
            self.act(pump(Arrival::Transport(inbound)));
        }
    }

    fn egress_closed(&self) -> bool {
        let ticker_lives = self.ticker.map_or(false, |ticker| ticker.is_live());
        self.egress.is_empty() && self.dispatcher_result.is_some() && !ticker_lives
    }

    fn drain(&mut self) -> bool {
        if !self.pump_runs() || !self.writing {
            return false;
        }
        match self.egress.pop_front() {
            Some(item) => {
                self.act(pump(Arrival::Egress(item)));
                true
            }
            None if self.egress_closed() => {
                self.act(pump(Arrival::EgressClosed));
                true
            }
            None => false,
        }
    }

    fn direct(&mut self, directive: Directive) {
        match directive {
            Directive::Handshake { login, interval } => {
                if self.pump_runs() {
                    self.egress.push_back(EgressItem::Frame(login));
                    self.ticker = Some(Heartbeat::start(interval));
                } else {
                    let error = Error::from(SendError(EgressItem::Frame(login)));
                    let next = self.keeper.step(Input::SendFailed(error));
                    self.direct(next);
                }
            }
            Directive::Deliver(event) => self.calls.push(event),
            Directive::Finish(result) => {
                if let Some(ticker) = self.ticker.as_mut() {
                    ticker.on(Pulse::Cancelled);
                }
                if self.pump_runs() && self.egress.len() < QUEUE_CAPACITY {
                    self.egress.push_back(EgressItem::Shutdown);
                }
                self.dispatcher_result = Some(result);
            }
            Directive::Idle => {}
        }
    }

    fn dispatch(&mut self) -> bool {
        if self.keeper.state() == State::Terminated {
            return false;
        }
        let input = match self.ingress.pop_front() {
            Some(frame) => Input::Frame(frame),
            None if !self.pump_runs() => Input::Closed,
            None => return false,
        };
        let directive = self.keeper.step(input);
        self.direct(directive);
        true
    }

    fn tick(&mut self) {
        let pump_runs = self.pump_runs();
        if let Some(ticker) = self.ticker.as_mut() {
            if let Beat::Send(frame) = ticker.on(Pulse::Elapsed) {
                if pump_runs {
                    self.egress.push_back(EgressItem::Frame(frame));
                } else {
                    ticker.on(Pulse::Refused);
                }
            }
        }
    }

    fn settle(&mut self) {
        while self.dispatch() || self.drain() {}
    }

    fn outcome(&self) -> Option<Result<(), Error>> {
        match (&self.pump_result, &self.dispatcher_result) {
            (Some(pump), Some(dispatcher)) => {
                Some(GateKeeper::conclude(pump.clone(), dispatcher.clone()))
            }
            _ => None,
        }
    }

    fn heartbeats_written(&self) -> usize {
        self.written.iter().filter(|frame| **frame == Frame::Heartbeat).count()
    }
}

fn text(frame: Frame) -> Inbound {
    Inbound::Text(Some(frame))
}

fn hello(interval: u32) -> Inbound {
    text(Frame::Hello { heartbeat_interval: interval })
}

/// What the transport's decoder makes of an event with this wire name and body.
fn event(name: &str, data: &str) -> Inbound {
    Inbound::Text(Event::named(name, String::from(data)).map(Frame::Event))
}

/// What the transport's driver makes of a binary message.
fn binary(bytes: &[u8]) -> Inbound {
    Inbound::Other(format!("{:?}", Message::binary(bytes.to_vec())))
}

fn login(token: &str) -> Frame {
    Frame::Login { token: String::from(token) }
}

#[test]
fn clean_handshake_one_message() {
    let mut rig = Rig::new("T");
    rig.receive(hello(30000));
    rig.receive(event("MESSAGE_CREATE", "{\"id\":\"1\",\"content\":\"hi\"}"));
    rig.settle();
    assert_eq!(rig.written, vec![login("T")]);
    assert_eq!(rig.calls.len(), 1);
    assert_eq!(rig.calls[0].tag, EventTag::MessageCreate);
    let body: serde_json::Value = serde_json::from_str(&rig.calls[0].data).unwrap();
    assert_eq!(body["content"].as_str(), Some("hi"));
    assert_eq!(body["id"].as_str(), Some("1"));
    assert_eq!(rig.keeper.state(), State::AwaitingEvents);
    assert_eq!(rig.ticker.map(|ticker| ticker.interval()), Some(30000));
    assert_eq!(rig.outcome(), None);
}

#[test]
fn early_wrong_frame() {
    let mut rig = Rig::new("T");
    rig.receive(event("MESSAGE_CREATE", "{\"id\":\"1\",\"content\":\"hi\"}"));
    rig.settle();
    assert_eq!(
        rig.outcome(),
        Some(Err(Error::ExpectationFailed("Hello", String::from("Event"))))
    );
    assert_eq!(rig.pump_result, Some(Ok(())));
    assert!(rig.written.is_empty());
    assert!(rig.calls.is_empty());
    assert!(rig.ticker.is_none());
}

#[test]
fn heartbeat_cadence() {
    let mut rig = Rig::new("T");
    rig.receive(hello(50));
    rig.settle();
    let period = u64::from(rig.ticker.unwrap().interval());
    assert_eq!(period, 50);
    let mut now = period;
    while now <= 210 {
        rig.tick();
        rig.settle();
        now += period;
    }
    rig.receive(Inbound::Close(None));
    rig.settle();
    assert_eq!(rig.heartbeats_written(), 4);
    assert!((4..=5).contains(&rig.heartbeats_written()));
    assert_eq!(
        rig.written,
        vec![login("T"), Frame::Heartbeat, Frame::Heartbeat, Frame::Heartbeat, Frame::Heartbeat]
    );
    assert_eq!(rig.outcome(), Some(Err(Error::SocketClose(None))));
}

#[test]
fn server_close_with_code() {
    let mut rig = Rig::new("T");
    rig.receive(hello(30000));
    rig.settle();
    let reason = CloseReason { code: 4000, reason: String::from("bye") };
    rig.receive(Inbound::Close(Some(reason.clone())));
    rig.settle();
    assert_eq!(rig.outcome(), Some(Err(Error::SocketClose(Some(reason)))));
    assert_eq!(rig.dispatcher_result, Some(Ok(())));
    assert!(!rig.ticker.unwrap().is_live());
    let written = rig.written.clone();
    for _ in 0..3 {
        rig.tick();
        rig.settle();
    }
    assert_eq!(rig.written, written);
    assert_eq!(rig.written, vec![login("T")]);
}

#[test]
fn unknown_event_tag() {
    let mut rig = Rig::new("T");
    rig.receive(hello(30000));
    rig.settle();
    rig.receive(event("REACTION_ADD", "{}"));
    rig.settle();
    assert!(rig.calls.is_empty());
    assert_eq!(rig.outcome(), None);
    assert_eq!(rig.pump_result, None);
    assert_eq!(rig.dispatcher_result, None);
    assert_eq!(rig.keeper.state(), State::AwaitingEvents);
    assert!(rig.ticker.unwrap().is_live());
    rig.receive(event("TYPING_START", "{\"room\":7}"));
    rig.settle();
    assert_eq!(rig.calls, vec![Event { tag: EventTag::TypingStart, data: String::from("{\"room\":7}") }]);
}

#[test]
fn binary_frame() {
    let mut rig = Rig::new("T");
    rig.receive(binary(&[1, 2]));
    rig.settle();
    let observed = format!("{:?}", Message::binary(vec![1u8, 2]));
    assert!(observed.starts_with("Binary("));
    assert_eq!(rig.outcome(), Some(Err(Error::ExpectationFailed("text or close", observed))));
    assert!(rig.written.is_empty());
}

#[test]
fn binary_frame_after_the_handshake() {
    let mut rig = Rig::new("T");
    rig.receive(hello(30000));
    rig.settle();
    rig.receive(binary(&[]));
    rig.settle();
    assert_eq!(
        rig.outcome(),
        Some(Err(Error::ExpectationFailed(
            "text or close",
            format!("{:?}", Message::binary(Vec::new()))
        )))
    );
}

#[test]
fn end_of_stream_without_close_is_a_violation() {
    let mut rig = Rig::new("T");
    rig.receive(hello(30000));
    rig.settle();
    rig.receive(Inbound::EndOfStream);
    rig.settle();
    assert_eq!(
        rig.outcome(),
        Some(Err(Error::ExpectationFailed("text or close", String::from("end of stream"))))
    );
}

#[test]
fn handshake_order_on_a_live_session() {
    let mut rig = Rig::new("the token");
    rig.tick();
    rig.settle();
    assert!(rig.written.is_empty());
    rig.receive(hello(10));
    rig.settle();
    for _ in 0..3 {
        rig.tick();
    }
    rig.receive(event("INIT_STATE", "{}"));
    rig.settle();
    assert_eq!(rig.keeper.state(), State::AwaitingEvents);
    assert_eq!(rig.written[0], login("the token"));
    assert_eq!(rig.written.len(), 4);
    assert!(rig.written[1..].iter().all(|frame| *frame == Frame::Heartbeat));
}

#[test]
fn no_heartbeat_before_login_when_ticks_race_the_handshake() {
    let mut rig = Rig::new("T");
    rig.receive(hello(1));
    rig.tick();
    rig.tick();
    rig.dispatch();
    rig.tick();
    rig.drain();
    assert_eq!(rig.written, vec![login("T")]);
    rig.settle();
    assert_eq!(rig.written, vec![login("T"), Frame::Heartbeat]);
}

#[test]
fn nothing_is_written_after_the_session_has_ended() {
    let mut rig = Rig::new("T");
    rig.receive(hello(5));
    rig.settle();
    rig.tick();
    rig.receive(text(Frame::Heartbeat));
    rig.settle();
    assert_eq!(
        rig.outcome(),
        Some(Err(Error::ExpectationFailed("event", String::from("Heartbeat"))))
    );
    assert_eq!(rig.pump_result, Some(Ok(())));
    let written = rig.written.clone();
    assert_eq!(written, vec![login("T"), Frame::Heartbeat]);
    rig.tick();
    rig.receive(event("MESSAGE_CREATE", "{}"));
    rig.receive(hello(5));
    rig.settle();
    assert_eq!(rig.written, written);
    assert!(rig.calls.is_empty());
}

#[test]
fn callbacks_follow_the_order_of_the_frames() {
    let mut rig = Rig::new("T");
    rig.receive(hello(30000));
    let names = ["MESSAGE_CREATE", "TYPING_START", "HOUSE_JOIN", "INIT_STATE", "MESSAGE_CREATE"];
    for (index, name) in names.iter().enumerate() {
        rig.receive(event(name, &format!("{{\"n\":{}}}", index)));
        if index % 2 == 0 {
            rig.settle();
        }
    }
    rig.settle();
    let tags: Vec<EventTag> = rig.calls.iter().map(|event| event.tag).collect();
    assert_eq!(
        tags,
        vec![
            EventTag::MessageCreate,
            EventTag::TypingStart,
            EventTag::HouseJoin,
            EventTag::InitState,
            EventTag::MessageCreate
        ]
    );
    let bodies: Vec<&str> = rig.calls.iter().map(|event| event.data.as_str()).collect();
    assert_eq!(bodies, vec!["{\"n\":0}", "{\"n\":1}", "{\"n\":2}", "{\"n\":3}", "{\"n\":4}"]);
}

#[test]
fn one_callback_for_each_turn_of_the_dispatcher() {
    let mut rig = Rig::new("T");
    rig.receive(hello(30000));
    rig.receive(event("MESSAGE_CREATE", "1"));
    rig.receive(event("MESSAGE_CREATE", "2"));
    assert!(rig.dispatch());
    assert_eq!(rig.calls.len(), 0);
    assert!(rig.dispatch());
    assert_eq!(rig.calls.len(), 1);
    assert!(rig.dispatch());
    assert_eq!(rig.calls.len(), 2);
    assert!(!rig.dispatch());
}

#[test]
fn frames_queued_before_a_close_still_reach_their_callbacks() {
    let mut rig = Rig::new("T");
    rig.receive(hello(30000));
    rig.settle();
    rig.receive(event("HOUSE_JOIN", "{}"));
    rig.receive(event("TYPING_START", "{}"));
    rig.receive(Inbound::Close(Some(CloseReason { code: 1000, reason: String::new() })));
    assert!(rig.calls.is_empty());
    rig.settle();
    assert_eq!(rig.calls.len(), 2);
    assert_eq!(rig.calls[0].tag, EventTag::HouseJoin);
    assert_eq!(rig.calls[1].tag, EventTag::TypingStart);
    assert_eq!(rig.dispatcher_result, Some(Ok(())));
    assert_eq!(
        rig.outcome(),
        Some(Err(Error::SocketClose(Some(CloseReason { code: 1000, reason: String::new() }))))
    );
    assert_eq!(rig.written, vec![login("T")]);
}

#[test]
fn a_login_that_finds_the_pump_gone_ends_with_the_channel_error() {
    let mut rig = Rig::new("T");
    rig.receive(hello(30000));
    rig.receive(Inbound::Close(None));
    rig.settle();
    assert_eq!(
        rig.dispatcher_result,
        Some(Err(Error::InternalChannelError(String::from("SendError { .. }"))))
    );
    assert_eq!(
        rig.outcome(),
        Some(Err(Error::InternalChannelError(String::from("SendError { .. }"))))
    );
    assert!(rig.ticker.is_none());
    assert!(rig.written.is_empty());
}

#[test]
fn a_frame_for_a_dispatcher_that_is_gone_ends_the_pump() {
    let mut rig = Rig::new("T");
    rig.receive(text(Frame::Heartbeat));
    rig.dispatch();
    assert_eq!(
        rig.dispatcher_result,
        Some(Err(Error::ExpectationFailed("Hello", String::from("Heartbeat"))))
    );
    rig.receive(hello(30000));
    assert_eq!(
        rig.pump_result,
        Some(Err(Error::InternalChannelError(String::from("SendError { .. }"))))
    );
    assert_eq!(
        rig.outcome(),
        Some(Err(Error::ExpectationFailed("Hello", String::from("Heartbeat"))))
    );
}

#[test]
fn unknown_text_changes_nothing_at_any_point() {
    let mut rig = Rig::new("T");
    rig.receive(Inbound::Text(None));
    rig.settle();
    assert_eq!(rig.keeper.state(), State::AwaitingHello);
    assert!(rig.ingress.is_empty());
    rig.receive(hello(30000));
    rig.receive(Inbound::Text(None));
    rig.receive(event("NOT_A_TAG", "{}"));
    rig.settle();
    assert_eq!(rig.keeper.state(), State::AwaitingEvents);
    assert!(rig.calls.is_empty());
    assert_eq!(rig.outcome(), None);
    assert_eq!(rig.written, vec![login("T")]);
}

#[test]
fn a_closed_egress_leaves_the_pump_reading() {
    let mut rig = Rig::new("T");
    rig.receive(hello(30000));
    rig.settle();
    for _ in 0..QUEUE_CAPACITY {
        rig.tick();
    }
    rig.receive(text(Frame::Heartbeat));
    rig.dispatch();
    assert_eq!(
        rig.dispatcher_result,
        Some(Err(Error::ExpectationFailed("event", String::from("Heartbeat"))))
    );
    assert!(!rig.egress.contains(&EgressItem::Shutdown));
    rig.settle();
    assert!(!rig.writing);
    assert_eq!(rig.pump_result, None);
    assert_eq!(rig.written.len(), 1 + QUEUE_CAPACITY);
    rig.receive(Inbound::Close(None));
    assert_eq!(rig.pump_result, Some(Err(Error::SocketClose(None))));
    assert_eq!(
        rig.outcome(),
        Some(Err(Error::ExpectationFailed("event", String::from("Heartbeat"))))
    );
}
