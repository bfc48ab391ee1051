use escpos::driver::ConsoleDriver;
use printer_service::device::console_printer;
use printer_service::sink::PrintSink;
use printer_service::ticket::{Step, Ticket};

fn line_of(step: &Step) -> Option<String> {
    match step {
        Step::Line(text) => Some(text.clone()),
        _ => None,
    }
}

#[test]
fn ticket_has_fixed_header_and_given_body() {
    let t = Ticket::new("Order #42");
    assert_eq!(t.header, "NEW MESSAGE");
    assert_eq!(t.body, "Order #42");
}

#[test]
fn order_42_layout_is_header_body_feed_and_cut() {
    let steps = Ticket::new("Order #42").steps();
    assert_eq!(steps.len(), 12);
    assert!(matches!(steps[0], Step::Init));
    assert!(matches!(steps[1], Step::Smoothing(true)));
    assert!(matches!(steps[2], Step::Bold(true)));
    assert!(matches!(steps[3], Step::Size(2, 2)));
    assert_eq!(line_of(&steps[4]), Some("NEW MESSAGE".to_string()));
    assert!(matches!(steps[5], Step::Bold(false)));
    assert!(matches!(steps[6], Step::Size(1, 1)));
    assert!(matches!(steps[7], Step::Feed));
    assert_eq!(line_of(&steps[8]), Some("Order #42".to_string()));
    assert!(matches!(steps[9], Step::Feed));
    assert!(matches!(steps[10], Step::Feed));
    assert!(matches!(steps[11], Step::PrintCut));
}

#[test]
fn body_with_control_characters_is_kept_verbatim() {
    let body = "line one\nline\ttwo\u{1b}";
    let steps = Ticket::new(body).steps();
    let lines: Vec<String> = steps.iter().filter_map(line_of).collect();
    assert_eq!(lines, vec!["NEW MESSAGE".to_string(), body.to_string()]);
}

#[test]
fn empty_body_still_prints_a_ticket() {
    let steps = Ticket::new("").steps();
    assert_eq!(steps.len(), 12);
    assert_eq!(line_of(&steps[8]), Some(String::new()));
}

#[test]
fn console_sink_renders_order_42() {
    let mut sink = PrintSink::new(console_printer(ConsoleDriver::open(true)));
    assert!(sink.initialize().is_ok());
    assert!(sink.render(&Ticket::new("Order #42")).is_ok());
}

#[test]
fn console_sink_initialize_is_repeatable() {
    let mut sink = PrintSink::new(console_printer(ConsoleDriver::open(false)));
    assert!(sink.initialize().is_ok());
    assert!(sink.initialize().is_ok());
    assert!(sink.render(&Ticket::new("first")).is_ok());
    assert!(sink.initialize().is_ok());
    assert!(sink.render(&Ticket::new("second")).is_ok());
}
