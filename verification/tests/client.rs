use rustwatchman::cloudwatch::{
    ClientError, CloudWatchClient, CloudWatchClientTrait, Provisioning, ProvisioningCall,
    RemoteOutcome,
};

#[test]
fn pattern_of_control_sequences() {
    assert_eq!(rustwatchman::ansi::ANSI_PATTERN, r"\x1B\[([0-9]{1,2}(;[0-9]{1,2})?)?[mGK]");
}

fn client() -> CloudWatchClient {
    CloudWatchClient::new("group".to_string(), "stream".to_string()).unwrap()
}

#[test]
fn identity_is_kept() {
    let c = client();
    assert_eq!(c.log_group_name(), "group");
    assert_eq!(c.log_stream_name(), "stream");
}

#[test]
fn requests_name_group_and_stream() {
    let c = client();
    assert_eq!(c.log_group_request().log_group_name, "group");
    let r = c.log_stream_request();
    assert_eq!(r.log_group_name, "group");
    assert_eq!(r.log_stream_name, "stream");
}

#[test]
fn colour_codes_are_removed() {
    let c = client();
    assert_eq!(c.remove_ansi_codes("\x1b[31mERROR boom\x1b[0m"), "ERROR boom");
    assert_eq!(c.remove_ansi_codes("\x1b[1;32mok\x1b[m"), "ok");
    assert_eq!(c.remove_ansi_codes("a\x1b[Kb\x1b[12Gc"), "abc");
}

#[test]
fn text_outside_control_sequences_is_untouched() {
    let c = client();
    assert_eq!(c.remove_ansi_codes("plain [31m text"), "plain [31m text");
    assert_eq!(c.remove_ansi_codes(""), "");
    // three digits, a third group and another final letter are no match
    assert_eq!(c.remove_ansi_codes("\x1b[123m"), "\x1b[123m");
    assert_eq!(c.remove_ansi_codes("\x1b[1;2;3m"), "\x1b[1;2;3m");
    assert_eq!(c.remove_ansi_codes("\x1b[2J"), "\x1b[2J");
}

#[test]
fn removal_is_a_single_pass() {
    let c = client();
    assert_eq!(c.remove_ansi_codes("\x1b[\x1b[0mm"), "\x1b[m");
}

#[test]
fn client_with_another_expression() {
    let re = regex::Regex::new("[0-9]+");
    let c = CloudWatchClient::with_expression("g".to_string(), "s".to_string(), re).unwrap();
    assert_eq!(c.log_group_name(), "g");
    assert_eq!(c.log_stream_name(), "s");
    assert_eq!(c.remove_ansi_codes("a1b22c"), "abc");
    assert_eq!(c.make_event("t x9y \x1b[0m", 7).message, "xy \x1b[m");
}

#[test]
fn client_without_expression_is_an_error() {
    let re = regex::Regex::new("(");
    assert!(re.is_err());
    let r = CloudWatchClient::with_expression("g".to_string(), "s".to_string(), re);
    assert_eq!(r.unwrap_err(), ClientError::InvalidPattern);
}

#[test]
fn new_client_is_made() {
    assert!(CloudWatchClient::new(String::new(), String::new()).is_ok());
}

#[test]
fn event_carries_message_and_timestamp() {
    let c = client();
    let e = c.make_event("2024-01-01T00:00:00Z some message", 1_700_000_000_123);
    assert_eq!(e.message, "some message");
    assert_eq!(e.timestamp, 1_700_000_000_123);
    let e = c.make_event("INFO \x1b[32mup\x1b[0m", -5);
    assert_eq!(e.message, "up");
    assert_eq!(e.timestamp, -5);
}

#[test]
fn event_of_a_line_without_token_is_empty() {
    let c = client();
    assert_eq!(c.make_event("single", 0).message, "");
}

#[test]
fn batch_keeps_order_and_identity() {
    let c = client();
    let lines = vec!["t1 first".to_string(), "t2 \x1b[1msecond\x1b[0m".to_string(), "t3".to_string()];
    let sub = c.put_log_events(lines.clone()).unwrap();
    assert_eq!(sub.echo, lines);
    assert_eq!(sub.request.log_group_name, "group");
    assert_eq!(sub.request.log_stream_name, "stream");
    let messages: Vec<&str> = sub.request.log_events.iter().map(|e| e.message.as_str()).collect();
    assert_eq!(messages, vec!["first", "second", ""]);
}

#[test]
fn batch_is_stamped_with_the_clock() {
    let c = client();
    let sub = c.submit(vec!["a b".to_string(), "c d".to_string()]);
    // some time after 2020-09-13
    assert!(sub.request.log_events[0].timestamp > 1_600_000_000_000);
    assert!(sub.request.log_events[0].timestamp <= sub.request.log_events[1].timestamp);
}

#[test]
fn submit_prepares_what_put_log_events_accepts() {
    let c = client();
    let lines = vec!["x \x1b[Ky".to_string(), "z w v".to_string()];
    let sub = c.submit(lines.clone());
    assert_eq!(sub.echo, lines);
    assert_eq!(sub.request.log_group_name, "group");
    assert_eq!(sub.request.log_stream_name, "stream");
    assert_eq!(sub.request.log_events.len(), 2);
    assert_eq!(sub.request.log_events[0].message, "y");
    assert_eq!(sub.request.log_events[1].message, "w v");
}

#[test]
fn empty_batch_is_accepted() {
    let c = client();
    let sub = c.put_log_events(Vec::new()).unwrap();
    assert!(sub.echo.is_empty());
    assert!(sub.request.log_events.is_empty());
    assert_eq!(sub.request.log_group_name, "group");
}

#[test]
fn creation_failures_are_absorbed() {
    let c = client();
    for outcome in [RemoteOutcome::Created, RemoteOutcome::AlreadyExists, RemoteOutcome::Failed] {
        assert_eq!(c.create_log_group(outcome), Ok(()));
        assert_eq!(c.create_log_stream(outcome), Ok(()));
    }
}

#[test]
fn init_twice_reports_success() {
    let c = client();
    assert_eq!(c.init(RemoteOutcome::Created, RemoteOutcome::Created), Ok(()));
    assert_eq!(c.init(RemoteOutcome::AlreadyExists, RemoteOutcome::AlreadyExists), Ok(()));
    assert_eq!(c.init(RemoteOutcome::Failed, RemoteOutcome::Failed), Ok(()));
    assert_eq!(c.init(RemoteOutcome::Failed, RemoteOutcome::Created), Ok(()));
}

#[test]
fn provisioning_asks_for_group_then_stream() {
    let c = client();
    let (stage, call) = c.provision(Provisioning::NotStarted, None);
    assert_eq!(stage, Provisioning::GroupRequested);
    match call {
        ProvisioningCall::CreateLogGroup(r) => assert_eq!(r.log_group_name, "group"),
        _ => panic!("the group comes first"),
    }
    let (stage, call) = c.provision(stage, Some(RemoteOutcome::Failed));
    assert_eq!(stage, Provisioning::StreamRequested);
    match call {
        ProvisioningCall::CreateLogStream(r) => {
            assert_eq!(r.log_group_name, "group");
            assert_eq!(r.log_stream_name, "stream");
        }
        _ => panic!("the stream comes second"),
    }
    let (stage, call) = c.provision(stage, Some(RemoteOutcome::AlreadyExists));
    assert_eq!(stage, Provisioning::Ready);
    assert!(matches!(call, ProvisioningCall::Nothing));
    let (stage, call) = c.provision(stage, None);
    assert_eq!(stage, Provisioning::Ready);
    assert!(matches!(call, ProvisioningCall::Nothing));
}

#[test]
fn provisioning_ignores_the_answers() {
    let c = client();
    for answer in [None, Some(RemoteOutcome::Created), Some(RemoteOutcome::AlreadyExists), Some(RemoteOutcome::Failed)] {
        assert_eq!(c.provision(Provisioning::NotStarted, answer).0, Provisioning::GroupRequested);
        assert_eq!(c.provision(Provisioning::GroupRequested, answer).0, Provisioning::StreamRequested);
        assert_eq!(c.provision(Provisioning::StreamRequested, answer).0, Provisioning::Ready);
        assert_eq!(c.provision(Provisioning::Ready, answer).0, Provisioning::Ready);
    }
}
