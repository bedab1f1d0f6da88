use rqotd::config::{checked_port, resolve, Conf, DEFAULT_PORT};
use rqotd::response::{
    response_after_execution, response_plan, static_response, ExecOutcome, ResponsePlan,
    ServerError,
};
use rqotd::server::{dispatch, AcceptEvent, DispatcherAction, WriteProgress};

fn static_conf(port: u16, message: &str) -> Conf {
    Conf {
        execute: String::new(),
        args: Vec::new(),
        message: message.to_string(),
        port,
    }
}

fn exec_conf(execute: &str, args: &[&str], message: &str) -> Conf {
    Conf {
        execute: execute.to_string(),
        args: args.iter().map(|a| a.to_string()).collect(),
        message: message.to_string(),
        port: DEFAULT_PORT,
    }
}

#[test]
fn static_message_scenario() {
    let conf = static_conf(17171, "hello\n");
    assert_eq!(response_plan(&conf), ResponsePlan::SendStatic);
    let bytes = static_response(&conf);
    assert_eq!(bytes.len(), 6);
    assert_eq!(bytes, b"hello\n".to_vec());
}

#[test]
fn executable_scenario() {
    let conf = exec_conf("echo", &["fortune"], "unused");
    assert_eq!(response_plan(&conf), ResponsePlan::RunConfiguredExecutable);
    let outcome = ExecOutcome::Captured {
        stdout: b"fortune\n".to_vec(),
        exit_code: Some(0),
    };
    assert_eq!(response_after_execution(outcome), Ok(b"fortune\n".to_vec()));
}

#[test]
fn empty_message_yields_empty_response() {
    let conf = static_conf(17, "");
    assert_eq!(response_plan(&conf), ResponsePlan::SendStatic);
    assert_eq!(static_response(&conf), Vec::<u8>::new());
}

#[test]
fn message_bytes_match_utf8_encoding() {
    let conf = static_conf(17, "qu\u{00f6}te \u{2014} of the day\n");
    let bytes = static_response(&conf);
    assert_eq!(bytes, "qu\u{00f6}te \u{2014} of the day\n".as_bytes().to_vec());
}

#[test]
fn exit_code_is_ignored() {
    for code in [Some(0), Some(1), Some(42), None] {
        let outcome = ExecOutcome::Captured {
            stdout: b"partial output".to_vec(),
            exit_code: code,
        };
        assert_eq!(response_after_execution(outcome), Ok(b"partial output".to_vec()));
    }
}

#[test]
fn spawn_failure_is_confined_to_one_connection() {
    let r = response_after_execution(ExecOutcome::SpawnFailed);
    assert_eq!(r, Err(ServerError::Execution));
    assert!(!ServerError::Execution.is_fatal());
    // The dispatcher keeps accepting whatever one connection did.
    assert_eq!(dispatch(&AcceptEvent::Accepted), DispatcherAction::SpawnHandler);
    assert_eq!(
        dispatch(&AcceptEvent::AcceptFailed),
        DispatcherAction::ReportAndContinue
    );
}

#[test]
fn fatal_errors_are_exactly_configuration_and_bind() {
    assert!(ServerError::ConfigurationFatal.is_fatal());
    assert!(ServerError::BindFatal.is_fatal());
    assert!(!ServerError::AcceptTransient.is_fatal());
    assert!(!ServerError::Execution.is_fatal());
    assert!(!ServerError::Write.is_fatal());
}

#[test]
fn defaults_are_applied() {
    let conf = resolve(None, None, None, None);
    assert_eq!(conf.port, DEFAULT_PORT);
    assert_eq!(conf.port, 17);
    assert_eq!(conf.execute, String::new());
    assert_eq!(conf.args.len(), 0);
    assert_eq!(conf.message, String::new());
    assert_eq!(response_plan(&conf), ResponsePlan::SendStatic);
}

#[test]
fn configured_values_are_kept() {
    let conf = resolve(
        Some(8080),
        Some("fortune".to_string()),
        Some(vec!["-s".to_string(), "-n".to_string()]),
        Some("fallback".to_string()),
    );
    assert_eq!(conf.port, 8080);
    assert_eq!(conf.execute, "fortune".to_string());
    assert_eq!(conf.args, vec!["-s".to_string(), "-n".to_string()]);
    assert_eq!(conf.message, "fallback".to_string());
    assert_eq!(response_plan(&conf), ResponsePlan::RunConfiguredExecutable);
}

#[test]
fn checked_port_boundaries() {
    assert_eq!(checked_port(0), None);
    assert_eq!(checked_port(1), Some(1));
    assert_eq!(checked_port(17), Some(17));
    assert_eq!(checked_port(65535), Some(65535));
    assert_eq!(checked_port(65536), None);
    assert_eq!(checked_port(-3), None);
    assert_eq!(checked_port(i64::MAX), None);
    assert_eq!(checked_port(i64::MIN), None);
}

#[test]
fn write_progress_completes_in_parts() {
    let mut w = WriteProgress::new(10);
    assert!(!w.is_complete());
    assert_eq!(w.offset(), 0);
    assert_eq!(w.remaining(), 10);
    w.record(4);
    assert!(!w.is_complete());
    assert_eq!(w.offset(), 4);
    assert_eq!(w.remaining(), 6);
    w.record(6);
    assert!(w.is_complete());
    assert_eq!(w.offset(), 10);
    assert_eq!(w.remaining(), 0);
}

#[test]
fn write_progress_of_empty_response_is_complete() {
    let w = WriteProgress::new(0);
    assert!(w.is_complete());
    assert_eq!(w.remaining(), 0);
}
