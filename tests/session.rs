use escpos::driver::ConsoleDriver;
use printer_service::device::console_printer;
use printer_service::session::{Action, Event, Phase, Session, COOLDOWN_SECS};
use printer_service::sink::PrintSink;

fn quiet_sink() -> PrintSink {
    PrintSink::new(console_printer(ConsoleDriver::open(false)))
}

fn started(url: &str, sink: &mut PrintSink) -> Session {
    Session::start(url.to_string(), sink).ok().unwrap()
}

fn connected(sink: &mut PrintSink) -> Session {
    let mut s = started("ws://localhost:8080", sink);
    let (a, printed) = s.step(Event::ConnectSucceeded, sink);
    assert_eq!(a, Action::Receive);
    assert!(printed.is_none());
    assert_eq!(s.phase(), Phase::Connected);
    s
}

#[test]
fn new_session_is_connecting_with_five_second_cooldown() {
    let mut sink = quiet_sink();
    let s = started("ws://printer.local/ws", &mut sink);
    assert_eq!(s.phase(), Phase::Connecting);
    assert_eq!(s.url(), "ws://printer.local/ws");
    assert_eq!(s.cooldown(), 5);
    assert_eq!(COOLDOWN_SECS, 5);
    assert_eq!(s.next_action(), Action::Connect);
}

#[test]
fn start_with_working_printer_gives_connecting_session() {
    let mut sink = quiet_sink();
    let s = Session::start("ws://a".to_string(), &mut sink).ok().unwrap();
    assert_eq!(s.phase(), Phase::Connecting);
    assert_eq!(s.next_action(), Action::Connect);
}

#[test]
fn mock_order_42_is_printed_once() {
    let mut sink = PrintSink::new(console_printer(ConsoleDriver::open(true)));
    let mut s = connected(&mut sink);
    let (a, printed) = s.step(Event::Text("Order #42".to_string()), &mut sink);
    assert_eq!(a, Action::Receive);
    assert!(printed.unwrap().is_ok());
    assert_eq!(s.phase(), Phase::Connected);
}

#[test]
fn every_text_is_printed_and_session_stays_connected() {
    let mut sink = quiet_sink();
    let mut s = connected(&mut sink);
    let mut printed_count = 0;
    for body in ["one", "two", "three", "four"] {
        let (a, printed) = s.step(Event::Text(body.to_string()), &mut sink);
        assert_eq!(a, Action::Receive);
        assert!(printed.unwrap().is_ok());
        printed_count += 1;
    }
    assert_eq!(printed_count, 4);
    assert_eq!(s.phase(), Phase::Connected);
}

#[test]
fn close_right_after_connect_cools_down_then_reconnects() {
    let mut sink = quiet_sink();
    let mut s = connected(&mut sink);
    let (a, printed) = s.step(Event::Closed, &mut sink);
    assert_eq!(a, Action::Wait(5));
    assert!(printed.is_none());
    assert_eq!(s.phase(), Phase::Disconnected);
    let (a, printed) = s.step(Event::CooldownElapsed, &mut sink);
    assert_eq!(a, Action::Connect);
    assert!(printed.is_none());
    assert_eq!(s.phase(), Phase::Connecting);
}

#[test]
fn read_error_drops_the_connection() {
    let mut sink = quiet_sink();
    let mut s = connected(&mut sink);
    let (a, _) = s.step(Event::ReadFailed, &mut sink);
    assert_eq!(a, Action::Wait(5));
    assert_eq!(s.phase(), Phase::Disconnected);
}

#[test]
fn failed_connect_waits_and_retries_forever() {
    let mut sink = quiet_sink();
    let mut s = started("ws://unreachable", &mut sink);
    for _ in 0..100 {
        let (a, printed) = s.step(Event::ConnectFailed, &mut sink);
        assert_eq!(a, Action::Wait(5));
        assert!(printed.is_none());
        assert_eq!(s.phase(), Phase::Connecting);
        let (a, _) = s.step(Event::CooldownElapsed, &mut sink);
        assert_eq!(a, Action::Connect);
        assert_eq!(s.phase(), Phase::Connecting);
    }
}

#[test]
fn non_text_unit_is_ignored() {
    let mut sink = quiet_sink();
    let mut s = connected(&mut sink);
    let (a, printed) = s.step(Event::NonText, &mut sink);
    assert_eq!(a, Action::Receive);
    assert!(printed.is_none());
    assert_eq!(s.phase(), Phase::Connected);
}

#[test]
fn text_outside_connected_phase_prints_nothing() {
    let mut sink = quiet_sink();
    let mut s = started("ws://a", &mut sink);
    let (a, printed) = s.step(Event::Text("early".to_string()), &mut sink);
    assert_eq!(a, Action::Connect);
    assert!(printed.is_none());
    assert_eq!(s.phase(), Phase::Connecting);
}

#[test]
fn disconnected_waits_until_cooldown_reported() {
    let mut sink = quiet_sink();
    let mut s = connected(&mut sink);
    s.step(Event::Closed, &mut sink);
    let (a, _) = s.step(Event::ConnectSucceeded, &mut sink);
    assert_eq!(a, Action::Wait(5));
    assert_eq!(s.phase(), Phase::Disconnected);
    assert_eq!(s.next_action(), Action::Wait(5));
}

#[test]
fn texts_over_several_connections_are_all_printed() {
    let mut sink = quiet_sink();
    let mut s = started("ws://a", &mut sink);
    let mut printed = Vec::new();
    let events = vec![
        Event::ConnectFailed,
        Event::CooldownElapsed,
        Event::ConnectSucceeded,
        Event::Text("m1".to_string()),
        Event::NonText,
        Event::Text("m2".to_string()),
        Event::ReadFailed,
        Event::CooldownElapsed,
        Event::ConnectSucceeded,
        Event::NonText,
        Event::Text("m3".to_string()),
        Event::Closed,
    ];
    for e in events {
        let body = match &e {
            Event::Text(t) => Some(t.clone()),
            _ => None,
        };
        let (_, outcome) = s.step(e, &mut sink);
        if let Some(result) = outcome {
            assert!(result.is_ok());
            printed.push(body.unwrap());
        }
    }
    assert_eq!(printed, vec!["m1".to_string(), "m2".to_string(), "m3".to_string()]);
    assert_eq!(s.phase(), Phase::Disconnected);
}
