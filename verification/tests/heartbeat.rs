use hiven::{Beat, Frame, Heartbeat, Pulse};

#[test]
fn a_started_ticker_lives_and_keeps_its_period() {
    let ticker = Heartbeat::start(30000);
    assert!(ticker.is_live());
    assert_eq!(ticker.interval(), 30000);
    assert_eq!(Heartbeat::start(0).interval(), 0);
    assert_eq!(Heartbeat::start(u32::MAX).interval(), u32::MAX);
}

#[test]
fn every_period_gives_one_heartbeat() {
    let mut ticker = Heartbeat::start(50);
    for _ in 0..10 {
        assert_eq!(ticker.on(Pulse::Elapsed), Beat::Send(Frame::Heartbeat));
        assert!(ticker.is_live());
        assert_eq!(ticker.interval(), 50);
    }
}

#[test]
fn cancellation_stops_without_a_last_beat() {
    let mut ticker = Heartbeat::start(50);
    assert_eq!(ticker.on(Pulse::Elapsed), Beat::Send(Frame::Heartbeat));
    assert_eq!(ticker.on(Pulse::Cancelled), Beat::Stop);
    assert!(!ticker.is_live());
}

#[test]
fn a_closed_queue_stops_the_ticker() {
    let mut ticker = Heartbeat::start(50);
    assert_eq!(ticker.on(Pulse::Elapsed), Beat::Send(Frame::Heartbeat));
    assert_eq!(ticker.on(Pulse::Refused), Beat::Stop);
    assert!(!ticker.is_live());
}

#[test]
fn a_stopped_ticker_stays_stopped() {
    let mut ticker = Heartbeat::start(50);
    ticker.on(Pulse::Cancelled);
    for pulse in [Pulse::Elapsed, Pulse::Cancelled, Pulse::Refused] {
        assert_eq!(ticker.on(pulse), Beat::Stop);
        assert!(!ticker.is_live());
        assert_eq!(ticker.interval(), 50);
    }
}
