use bragi::connection::{
    connect_step, requirement_from_settings, ConnectEvent, ConnectParams, ConnectPhase,
};
use bragi::server::Error;
use bragi::version::{Comparator, ComparatorOp, Version, VersionRequirement};

fn params_requiring(comparators: Vec<Comparator>) -> ConnectParams {
    ConnectParams {
        host: String::from("localhost"),
        port: 9200,
        timeout_ms: 3000,
        version_req: VersionRequirement { comparators },
    }
}

fn at_least_eight() -> ConnectParams {
    params_requiring(vec![Comparator {
        op: ComparatorOp::GreaterEq,
        version: Version::new(8, 0, 0),
    }])
}

fn seven_line() -> ConnectParams {
    params_requiring(vec![
        Comparator { op: ComparatorOp::GreaterEq, version: Version::new(7, 0, 0) },
        Comparator { op: ComparatorOp::Less, version: Version::new(8, 0, 0) },
    ])
}

#[test]
fn empty_resolution_fails_before_any_backend_call() {
    let params = seven_line();
    let next = connect_step(
        &params,
        ConnectPhase::Resolving,
        ConnectEvent::Resolved { addrs: Vec::new() },
    );
    match next {
        ConnectPhase::Failed { error: Error::AddrResolution { msg } } => {
            assert_eq!(msg, String::from("Cannot resolve elasticsearch addr."));
        }
        other => panic!("expected an address resolution failure, got {:?}", other),
    }
}

#[test]
fn resolver_error_fails_with_the_socket_context() {
    let params = seven_line();
    let next = connect_step(
        &params,
        ConnectPhase::Resolving,
        ConnectEvent::ResolveFailed { msg: String::from("no such host") },
    );
    match next {
        ConnectPhase::Failed { error: Error::SockAddr { host, port, msg } } => {
            assert_eq!(host, String::from("localhost"));
            assert_eq!(port, 9200);
            assert_eq!(msg, String::from("no such host"));
        }
        other => panic!("expected a socket address failure, got {:?}", other),
    }
}

#[test]
fn resolution_takes_the_first_candidate_into_the_url() {
    let params = seven_line();
    let next = connect_step(
        &params,
        ConnectPhase::Resolving,
        ConnectEvent::Resolved {
            addrs: vec![String::from("127.0.0.1:9200"), String::from("[::1]:9200")],
        },
    );
    match next {
        ConnectPhase::CreatingPool { url } => {
            assert_eq!(url, String::from("http://127.0.0.1:9200"));
        }
        other => panic!("expected pool creation to follow, got {:?}", other),
    }
}

#[test]
fn pool_failure_is_a_pool_creation_error() {
    let params = seven_line();
    let next = connect_step(
        &params,
        ConnectPhase::CreatingPool { url: String::from("http://127.0.0.1:9200") },
        ConnectEvent::PoolFailed { msg: String::from("bad url") },
    );
    match next {
        ConnectPhase::Failed { error: Error::ElasticsearchConnectionPoolCreation { msg } } => {
            assert_eq!(msg, String::from("bad url"));
        }
        other => panic!("expected a pool creation failure, got {:?}", other),
    }
}

#[test]
fn accepted_version_yields_a_handle_recording_its_inputs() {
    let params = seven_line();
    let next = connect_step(
        &params,
        ConnectPhase::CreatingPool { url: String::from("http://127.0.0.1:9200") },
        ConnectEvent::PoolCreated,
    );
    let url = match next {
        ConnectPhase::CheckingVersion { url } => url,
        other => panic!("expected the version check to follow, got {:?}", other),
    };
    let next = connect_step(
        &params,
        ConnectPhase::CheckingVersion { url },
        ConnectEvent::VersionReported { version: String::from("7.13.2") },
    );
    match next {
        ConnectPhase::Connected { handle } => {
            assert_eq!(handle.url(), &String::from("http://127.0.0.1:9200"));
            assert_eq!(handle.timeout_ms(), 3000);
            assert_eq!(handle.version(), Version::new(7, 13, 2));
        }
        other => panic!("expected a connected handle, got {:?}", other),
    }
}

#[test]
fn version_below_the_requirement_yields_no_handle() {
    let params = at_least_eight();
    let next = connect_step(
        &params,
        ConnectPhase::CheckingVersion { url: String::from("http://127.0.0.1:9200") },
        ConnectEvent::VersionReported { version: String::from("7.10") },
    );
    match next {
        ConnectPhase::Failed { error: Error::ElasticsearchConnection { msg } } => {
            assert_eq!(msg, String::from("7.10"));
        }
        other => panic!("expected a connection failure, got {:?}", other),
    }
}

#[test]
fn unreadable_reported_version_yields_no_handle() {
    let params = seven_line();
    let next = connect_step(
        &params,
        ConnectPhase::CheckingVersion { url: String::from("http://127.0.0.1:9200") },
        ConnectEvent::VersionReported { version: String::from("oss-7.x") },
    );
    assert!(matches!(
        next,
        ConnectPhase::Failed { error: Error::ElasticsearchConnection { .. } }
    ));
}

#[test]
fn failed_probe_yields_no_handle() {
    let params = seven_line();
    let next = connect_step(
        &params,
        ConnectPhase::CheckingVersion { url: String::from("http://127.0.0.1:9200") },
        ConnectEvent::VersionProbeFailed { msg: String::from("timed out") },
    );
    match next {
        ConnectPhase::Failed { error: Error::ElasticsearchConnection { msg } } => {
            assert_eq!(msg, String::from("timed out"));
        }
        other => panic!("expected a connection failure, got {:?}", other),
    }
}

#[test]
fn settings_text_becomes_the_configured_requirement() {
    let req = requirement_from_settings(">=7.13.0").expect("well-formed requirement");
    assert!(req.matches(&Version::new(7, 13, 2)));
    assert!(!req.matches(&Version::new(7, 12, 9)));
}

#[test]
fn unreadable_settings_text_is_a_settings_error() {
    match requirement_from_settings("banana") {
        Err(Error::SettingsProcessing { msg }) => assert_eq!(msg, String::from("banana")),
        other => panic!("expected a settings failure, got {:?}", other),
    }
}
