use ddrpc::daemon::{bind_failure_message, kill_outcome, ping_outcome, ExchangeError};

fn refused() -> ExchangeError {
    ExchangeError { refused: true, message: "Connection refused".to_string() }
}

#[test]
fn ping_prints_reply() {
    let o = ping_outcome(Ok("pong".to_string()));
    assert_eq!(o.output, "pong");
    assert!(o.errors.is_empty());
    assert_eq!(o.status, 0);
}

#[test]
fn ping_without_daemon_hints_start() {
    let o = ping_outcome(Err(refused()));
    assert_eq!(o.status, 1);
    assert_eq!(o.errors.len(), 2);
    assert_eq!(
        o.errors[0],
        "An error occurred while trying to exchange messages over the socket: Connection refused"
    );
    assert!(o.errors[1].contains("ddrpc start"));
}

#[test]
fn ping_other_failure_has_no_hint() {
    let o = ping_outcome(Err(ExchangeError { refused: false, message: "broken pipe".to_string() }));
    assert_eq!(o.status, 1);
    assert_eq!(o.errors.len(), 1);
}

#[test]
fn kill_reports() {
    let o = kill_outcome(Ok("Killing process".to_string()));
    assert_eq!(o.output, "Successfully killed daemon\n");
    assert_eq!(o.status, 0);
    let o = kill_outcome(Err(refused()));
    assert_eq!(o.status, 1);
    assert_eq!(o.errors.len(), 1);
}

#[test]
fn bind_failures() {
    assert!(bind_failure_message(true, &"x".to_string()).contains("ddrpc ping"));
    assert_eq!(bind_failure_message(false, &"denied".to_string()), "Error while binding to socket: denied");
}
