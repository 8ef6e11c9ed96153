use std::sync::Barrier;
use std::time::{Duration, Instant};

use crossbeam_utils::thread::scope;
use svc_error::extension::sentry::{
    init, options, outcome, send, terminate, Config, ReportError, Reporter, Request,
    REPORT_CLOSED, SHUTDOWN_CLOSED,
};
use svc_error::extension::worker::{to_event, Action, Command, SinkEvent, Worker};
use svc_error::{Error, StatusCode};

fn config() -> Config {
    Config {
        dsn: "https://key@sentry.example.com/1".to_string(),
        environment: Some("staging".to_string()),
        server_name: None,
        release: Some("1.2.3".to_string()),
    }
}

fn report(kind: &str, title: &str) -> Error {
    Error::new(kind, title, StatusCode::from_u16(422).unwrap())
}

fn value<'a>(event: &'a SinkEvent, key: &str) -> Option<&'a str> {
    event
        .extra
        .iter()
        .find(|(k, _)| k == key)
        .map(|(_, v)| v.as_str())
}

fn run_worker(rx: crossbeam_channel::Receiver<Command>) -> Vec<SinkEvent> {
    let mut worker = Worker::new();
    let mut submitted = Vec::new();
    for cmd in rx {
        match worker.handle(cmd) {
            Action::Submit(event) => submitted.push(event),
            Action::Stop => break,
            Action::Ignore => {}
        }
    }
    submitted
}

#[test]
fn options_carry_configuration() {
    let settings = options(&config());
    assert!(settings.attach_stacktrace);
    assert_eq!(settings.environment.as_deref(), Some("staging"));
    assert_eq!(settings.server_name, None);
    assert_eq!(settings.release.as_deref(), Some("1.2.3"));
}

#[test]
fn extras_round_trip_into_event() {
    let mut err = report("validation_error", "Invalid input");
    err.set_extra("request_id", "abc");
    let event = to_event(&err);
    assert_eq!(event.message, "Invalid input");
    assert_eq!(event.fingerprint, vec!["validation_error".to_string()]);
    assert_eq!(value(&event, "request_id"), Some("abc"));
    assert_eq!(value(&event, "type"), Some("validation_error"));
    assert_eq!(value(&event, "title"), Some("Invalid input"));
    assert_eq!(value(&event, "status"), Some("422"));
    assert_eq!(event.extra.len(), 4);
}

#[test]
fn event_identifying_keys_win_over_extras() {
    let mut err = report("validation_error", "Invalid input");
    err.set_extra("type", "spoofed").set_extra("room", "r1");
    let event = to_event(&err);
    assert_eq!(event.extra.len(), 4);
    assert_eq!(event.extra[0], ("room".to_string(), "r1".to_string()));
    assert_eq!(value(&event, "type"), Some("validation_error"));
}

#[test]
fn event_status_has_decimal_digits() {
    let err = Error::from_status(StatusCode::from_u16(100).unwrap());
    assert_eq!(value(&to_event(&err), "status"), Some("100"));
    let err = Error::from_status(StatusCode::from_u16(999).unwrap());
    assert_eq!(value(&to_event(&err), "status"), Some("999"));
}

#[test]
fn worker_forwards_reports_in_order_until_terminate() {
    let mut worker = Worker::new();
    assert!(!worker.is_stopped());
    match worker.handle(Command::NewReport(report("a", "A"))) {
        Action::Submit(event) => assert_eq!(event.fingerprint, vec!["a".to_string()]),
        _ => panic!("the first report is submitted"),
    }
    match worker.handle(Command::NewReport(report("b", "B"))) {
        Action::Submit(event) => assert_eq!(event.fingerprint, vec!["b".to_string()]),
        _ => panic!("the second report is submitted"),
    }
    assert!(matches!(worker.handle(Command::Terminate), Action::Stop));
    assert!(worker.is_stopped());
    assert!(matches!(
        worker.handle(Command::NewReport(report("c", "C"))),
        Action::Ignore
    ));
    assert!(matches!(worker.handle(Command::Terminate), Action::Ignore));
}

#[test]
fn outcome_of_each_case() {
    assert!(outcome(Request::Report, None).is_ok());
    assert!(outcome(Request::Report, Some(true)).is_ok());
    assert!(outcome(Request::Shutdown, Some(true)).is_ok());
    match outcome(Request::Report, Some(false)) {
        Err(ReportError::ChannelClosed(d)) => assert_eq!(d, REPORT_CLOSED),
        Ok(()) => panic!("a refused report is an error"),
    }
    match outcome(Request::Shutdown, Some(false)) {
        Err(ReportError::ChannelClosed(d)) => assert_eq!(d, SHUTDOWN_CLOSED),
        Ok(()) => panic!("a refused shutdown is an error"),
    }
}

#[test]
fn send_before_init_is_a_silent_no_op() {
    let reporter = Reporter::new();
    assert!(send(&reporter, report("a", "A")).is_ok());
    assert!(terminate(&reporter).is_ok());
    let setup = init(&reporter, &config()).expect("the first init installs the channel");
    assert!(setup.receiver.try_recv().is_err());
}

#[test]
fn init_twice_installs_once() {
    let reporter = Reporter::new();
    let first = init(&reporter, &config());
    assert!(first.is_some());
    assert_eq!(first.unwrap().config.dsn, "https://key@sentry.example.com/1");
    assert!(init(&reporter, &config()).is_none());
}

#[test]
fn concurrent_init_has_one_winner() {
    let reporter = Reporter::new();
    let n = 8;
    let barrier = Barrier::new(n);
    let winners = scope(|s| {
        let handles: Vec<_> = (0..n)
            .map(|_| {
                s.spawn(|_| {
                    barrier.wait();
                    init(&reporter, &config()).is_some()
                })
            })
            .collect();
        handles
            .into_iter()
            .map(|h| h.join().unwrap())
            .filter(|won| *won)
            .count()
    })
    .unwrap();
    assert_eq!(winners, 1);
}

#[test]
fn reports_before_terminate_are_delivered_in_order() {
    let reporter = Reporter::new();
    let setup = init(&reporter, &config()).unwrap();
    let submitted = scope(|s| {
        let worker = s.spawn(move |_| run_worker(setup.receiver));
        send(&reporter, report("a", "A")).unwrap();
        send(&reporter, report("b", "B")).unwrap();
        terminate(&reporter).unwrap();
        worker.join().unwrap()
    })
    .unwrap();
    assert_eq!(submitted.len(), 2);
    assert_eq!(submitted[0].message, "A");
    assert_eq!(submitted[1].message, "B");
}

#[test]
fn send_after_worker_stopped_fails_with_channel_closed() {
    let reporter = Reporter::new();
    let setup = init(&reporter, &config()).unwrap();
    let submitted = scope(|s| {
        let worker = s.spawn(move |_| run_worker(setup.receiver));
        terminate(&reporter).unwrap();
        worker.join().unwrap()
    })
    .unwrap();
    assert!(submitted.is_empty());
    match send(&reporter, report("late", "Late")) {
        Err(ReportError::ChannelClosed(d)) => assert_eq!(d, REPORT_CLOSED),
        Ok(()) => panic!("the worker has stopped"),
    }
    match terminate(&reporter) {
        Err(e) => assert_eq!(e.description(), SHUTDOWN_CLOSED),
        Ok(()) => panic!("the worker has stopped"),
    }
}

#[test]
fn send_does_not_wait_for_a_busy_worker() {
    let reporter = Reporter::new();
    let setup = init(&reporter, &config()).unwrap();
    let (started_tx, started_rx) = crossbeam_channel::bounded::<()>(1);
    let (release_tx, release_rx) = crossbeam_channel::unbounded::<()>();
    scope(|s| {
        let worker = s.spawn(move |_| {
            let mut worker = Worker::new();
            for cmd in setup.receiver {
                match worker.handle(cmd) {
                    Action::Submit(_) => {
                        let _ = started_tx.try_send(());
                        let _ = release_rx.recv();
                    }
                    Action::Stop => break,
                    Action::Ignore => {}
                }
            }
        });
        send(&reporter, report("slow", "Slow")).unwrap();
        started_rx.recv().unwrap();
        let start = Instant::now();
        let sender = s.spawn(|_| {
            for _ in 0..100 {
                send(&reporter, report("next", "Next")).unwrap();
            }
        });
        sender.join().unwrap();
        assert!(start.elapsed() < Duration::from_secs(5));
        terminate(&reporter).unwrap();
        for _ in 0..101 {
            release_tx.send(()).unwrap();
        }
        worker.join().unwrap();
    })
    .unwrap();
}
