use logput::init::CallOutcome;
use logput::init::InitMachine;
use logput::init::RemoteCall;
use logput::init::group_query_outcome;
use logput::init::stream_query_outcome;

/// Drives the policy with every call succeeding, answering the two queries
/// as the flags say, and returns the calls it issued in order.
fn run_success(remake: bool, group_exists: bool, stream_exists: bool) -> Vec<RemoteCall> {
    let mut machine = InitMachine::start(remake);
    let mut calls: Vec<RemoteCall> = Vec::new();
    while let Some(call) = machine.pending_call() {
        calls.push(call);
        let outcome = match call {
            RemoteCall::DescribeGroups => CallOutcome::GroupQuery { exists: group_exists },
            RemoteCall::DescribeStreams => CallOutcome::StreamQuery { exists: stream_exists },
            _ => CallOutcome::Accepted,
        };
        machine.on_outcome(outcome);
    }
    assert!(machine.is_done());
    assert!(!machine.is_failed());
    calls
}

fn count(calls: &[RemoteCall], c: RemoteCall) -> usize {
    calls.iter().filter(|x| **x == c).count()
}

#[test]
fn absent_group_created_once() {
    for stream_exists in [false, true] {
        for remake in [false, true] {
            let calls = run_success(remake, false, stream_exists);
            assert_eq!(calls[0], RemoteCall::DescribeGroups);
            assert_eq!(calls[1], RemoteCall::CreateGroup);
            assert_eq!(count(&calls, RemoteCall::CreateGroup), 1);
        }
    }
}

#[test]
fn present_group_left_alone() {
    for stream_exists in [false, true] {
        for remake in [false, true] {
            let calls = run_success(remake, true, stream_exists);
            assert_eq!(count(&calls, RemoteCall::CreateGroup), 0);
        }
    }
}

#[test]
fn absent_stream_created_once() {
    for group_exists in [false, true] {
        for remake in [false, true] {
            let calls = run_success(remake, group_exists, false);
            assert_eq!(count(&calls, RemoteCall::CreateStream), 1);
            assert_eq!(count(&calls, RemoteCall::DeleteStream), 0);
        }
    }
}

#[test]
fn present_stream_kept_without_remake() {
    let calls = run_success(false, true, true);
    assert_eq!(calls, vec![RemoteCall::DescribeGroups, RemoteCall::DescribeStreams]);
}

#[test]
fn present_stream_remade_in_order() {
    for group_exists in [false, true] {
        let calls = run_success(true, group_exists, true);
        assert_eq!(count(&calls, RemoteCall::DeleteStream), 1);
        assert_eq!(count(&calls, RemoteCall::CreateStream), 1);
        let n = calls.len();
        assert_eq!(calls[n - 2], RemoteCall::DeleteStream);
        assert_eq!(calls[n - 1], RemoteCall::CreateStream);
    }
}

#[test]
fn failure_stops_every_further_call() {
    let mut machine = InitMachine::start(true);
    assert_eq!(machine.pending_call(), Some(RemoteCall::DescribeGroups));
    machine.on_outcome(CallOutcome::Failed);
    assert!(machine.is_failed());
    assert!(!machine.is_done());
    assert_eq!(machine.pending_call(), None);
}

#[test]
fn failure_midway_stops_calls() {
    let mut machine = InitMachine::start(false);
    machine.on_outcome(CallOutcome::GroupQuery { exists: true });
    assert_eq!(machine.pending_call(), Some(RemoteCall::DescribeStreams));
    machine.on_outcome(CallOutcome::Failed);
    assert!(machine.is_failed());
    assert_eq!(machine.pending_call(), None);
}

#[test]
fn group_query_reading() {
    assert_eq!(group_query_outcome(0), CallOutcome::GroupQuery { exists: false });
    assert_eq!(group_query_outcome(3), CallOutcome::GroupQuery { exists: true });
}

#[test]
fn stream_query_needs_exact_match() {
    let names = vec![
        None,
        Some(String::from("app-123")),
        Some(String::from("application")),
    ];
    assert_eq!(
        stream_query_outcome(&names, "app"),
        CallOutcome::StreamQuery { exists: false }
    );
}

#[test]
fn stream_query_finds_exact_match() {
    let names = vec![Some(String::from("app-123")), Some(String::from("app"))];
    assert_eq!(
        stream_query_outcome(&names, "app"),
        CallOutcome::StreamQuery { exists: true }
    );
}

#[test]
fn stream_query_empty_result() {
    let names: Vec<Option<String>> = Vec::new();
    assert_eq!(
        stream_query_outcome(&names, "app"),
        CallOutcome::StreamQuery { exists: false }
    );
}
