use occlum::config::{Config, LogLevel};
use occlum::enclave::{step, EnclaveAction, EnclaveEvent, EnclaveState};
use occlum::error::Error;
use occlum::process::{
    create_outcome, exec_outcome, signal_outcome, KILL_SIGNAL, TERMINATE_SIGNAL,
};
use occlum::stdio::Stdio;

#[test]
fn config_rejects_null_byte() {
    assert_eq!(Config::new("/tmp/\0inst", None), Err(Error::CStringError));
    assert_eq!(Config::new("\0", Some(LogLevel::Trace)), Err(Error::CStringError));
}

#[test]
fn config_defaults() {
    let c = Config::default();
    assert_eq!(c.instance_dir().as_bytes(), b".");
    assert_eq!(c.log_level(), LogLevel::Off);
    let c = Config::new("/opt/inst", Some(LogLevel::Warn)).unwrap();
    assert_eq!(c.instance_dir().as_bytes(), b"/opt/inst");
    assert_eq!(c.log_level(), LogLevel::Warn);
    assert_eq!(Config::new(".", None).unwrap(), Config::default());
}

#[test]
fn log_level_names() {
    assert_eq!(LogLevel::Off.as_bytes(), b"off".to_vec());
    assert_eq!(LogLevel::Error.as_bytes(), b"error".to_vec());
    assert_eq!(LogLevel::Warn.as_bytes(), b"warn".to_vec());
    assert_eq!(LogLevel::Info.as_bytes(), b"info".to_vec());
    assert_eq!(LogLevel::Trace.as_bytes(), b"trace".to_vec());
}

#[test]
fn config_attributes_are_null_terminated() {
    let c = Config::new("/inst", Some(LogLevel::Info)).unwrap();
    let api = c.to_api();
    assert_eq!(api.instance_dir, b"/inst\0".to_vec());
    assert_eq!(api.log_level, b"info\0".to_vec());
}

#[test]
fn stdio_round_trip() {
    let fds = Stdio::new(10, 11, 12).to_api();
    assert_eq!((fds.stdin_fd, fds.stdout_fd, fds.stderr_fd), (10, 11, 12));
    let s = Stdio::new(-1, 5, 3);
    assert_eq!((s.stdin(), s.stdout(), s.stderr()), (-1, 5, 3));
}

#[test]
fn stdio_default_is_standard_streams() {
    let d = Stdio::default();
    assert_eq!((d.stdin(), d.stdout(), d.stderr()), (0, 1, 2));
    let fds = d.to_api();
    assert_eq!((fds.stdin_fd, fds.stdout_fd, fds.stderr_fd), (0, 1, 2));
}

#[test]
fn bad_version_fails_without_init() {
    for v in [0, -1, i32::MIN] {
        let (s, a) = step(EnclaveState::Uninitialized, EnclaveEvent::VersionProbed(v));
        assert_eq!(s, EnclaveState::Failed);
        assert_eq!(a, EnclaveAction::Fail(Error::VersionError));
    }
}

#[test]
fn full_lifecycle() {
    let (s, a) = step(EnclaveState::Uninitialized, EnclaveEvent::VersionProbed(1));
    assert_eq!((s, a), (EnclaveState::Initializing, EnclaveAction::CallInit));
    let (s, a) = step(s, EnclaveEvent::InitReturned(0));
    assert_eq!((s, a), (EnclaveState::Initialized, EnclaveAction::Ready));
    let (s, a) = step(s, EnclaveEvent::Released);
    assert_eq!((s, a), (EnclaveState::Destroyed, EnclaveAction::CallDestroy));
    let (s, a) = step(s, EnclaveEvent::Released);
    assert_eq!((s, a), (EnclaveState::Destroyed, EnclaveAction::Ignore));
}

#[test]
fn init_failure_is_terminal() {
    let (s, a) = step(EnclaveState::Initializing, EnclaveEvent::InitReturned(-3));
    assert_eq!((s, a), (EnclaveState::Failed, EnclaveAction::Fail(Error::InitError)));
    let (s2, a2) = step(s, EnclaveEvent::VersionProbed(1));
    assert_eq!((s2, a2), (EnclaveState::Failed, EnclaveAction::Ignore));
    let (s3, a3) = step(EnclaveState::Uninitialized, EnclaveEvent::Released);
    assert_eq!((s3, a3), (EnclaveState::Uninitialized, EnclaveAction::Ignore));
}

#[test]
fn native_results_map_to_errors() {
    let p = create_outcome(0, 42).unwrap();
    assert_eq!(p.pid(), 42);
    assert_eq!(create_outcome(1, 42), Err(Error::CreateError));
    assert_eq!(exec_outcome(0, 7), Ok(7));
    assert_eq!(exec_outcome(-1, 7), Err(Error::CreateError));
    assert_eq!(signal_outcome(0), Ok(()));
    assert_eq!(signal_outcome(3), Err(Error::SignalError));
}

#[test]
fn signal_requests() {
    let p = create_outcome(0, 5).unwrap();
    assert_eq!(p.kill_request(), (5, 9));
    assert_eq!(p.terminate_request(), (5, 16));
    assert_eq!((KILL_SIGNAL, TERMINATE_SIGNAL), (9, 16));
}

#[test]
fn error_messages() {
    assert_eq!(Error::VersionError.message(), "PAL API version mismatch");
    assert_eq!(Error::InitError.message(), "Initialization error");
    assert_eq!(Error::CreateError.message(), "Process creation error");
    assert_eq!(Error::ExecError.message(), "Process execution error");
    assert_eq!(Error::SignalError.message(), "Process signaling error");
    assert_eq!(Error::ArgumentsError.message(), "Arguments list error");
    assert_eq!(Error::CStringError.message(), "String contains a bare \\0 character");
}
