use logput::emit::EmitMode;
use logput::emit::LineStep;
use logput::emit::make_event;
use logput::emit::process_line;
use logput::emit::startup_events;

#[test]
fn event_carries_timestamp_and_message() {
    let e = make_event(1_700_000_000_123, "hello");
    assert_eq!(e.timestamp, 1_700_000_000_123);
    assert_eq!(e.message, "hello");
}

#[test]
fn empty_read_stops() {
    match process_line("", true) {
        LineStep::Stop => {}
        LineStep::Emit { .. } => panic!("an empty read must end the run"),
    }
}

#[test]
fn line_is_forwarded_unchanged() {
    match process_line("hello world\n", false) {
        LineStep::Emit { message, echo } => {
            assert_eq!(message, "hello world\n");
            assert!(!echo);
        }
        LineStep::Stop => panic!("a non-empty line must be forwarded"),
    }
}

#[test]
fn line_is_echoed_when_passing_through() {
    match process_line("hello\n", true) {
        LineStep::Emit { message, echo } => {
            assert_eq!(message, "hello\n");
            assert!(echo);
        }
        LineStep::Stop => panic!("a non-empty line must be forwarded"),
    }
}

#[test]
fn fixed_mode_sends_exactly_one_event() {
    let mode = EmitMode::FixedMessage(String::from("boot"));
    let events = startup_events(&mode, 1_700_000_000_000);
    assert_eq!(events.len(), 1);
    assert_eq!(events[0].message, "boot");
    assert_eq!(events[0].timestamp, 1_700_000_000_000);
}

#[test]
fn pass_through_mode_sends_nothing_at_startup() {
    let events = startup_events(&EmitMode::PassThroughLines, 1_700_000_000_000);
    assert!(events.is_empty());
}

#[test]
fn each_line_becomes_one_event_in_order() {
    let reads = ["one\n", "two\n", "three\n", ""];
    let mut sent: Vec<String> = Vec::new();
    let mut echoed: Vec<String> = Vec::new();
    for read in reads {
        match process_line(read, true) {
            LineStep::Emit { message, echo } => {
                sent.push(message.clone());
                if echo {
                    echoed.push(message);
                }
            }
            LineStep::Stop => break,
        }
    }
    assert_eq!(sent, vec!["one\n", "two\n", "three\n"]);
    assert_eq!(echoed, sent);
}

#[test]
fn no_echo_without_pass_through() {
    let reads = ["one\n", "two\n", ""];
    let mut sent: Vec<String> = Vec::new();
    let mut echoed: Vec<String> = Vec::new();
    for read in reads {
        match process_line(read, false) {
            LineStep::Emit { message, echo } => {
                sent.push(message.clone());
                if echo {
                    echoed.push(message);
                }
            }
            LineStep::Stop => break,
        }
    }
    assert_eq!(sent.len(), 2);
    assert!(echoed.is_empty());
}
