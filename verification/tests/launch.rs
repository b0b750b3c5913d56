//! Interpreting native outcomes: statuses, launches, and the join.

use wslapi::finish_configuration;
use wslapi::finish_launch;
use wslapi::finish_launch_interactive;
use wslapi::finish_status;
use wslapi::stream_conversion_error;
use wslapi::EnvironmentVariables;
use wslapi::ErrorKind;
use wslapi::JoinOutcome;
use wslapi::Stdio;

fn clean_join(exit_code: Option<u32>) -> JoinOutcome {
    JoinOutcome { wait_signaled: true, exit_code, close_ok: true, last_os_error: 0 }
}

#[test]
fn status_interpretation() {
    assert!(finish_status("WslUnregisterDistribution(\"d\")", 0).is_ok());
    assert!(finish_status("WslUnregisterDistribution(\"d\")", 1).is_ok());

    let e = finish_status("WslRegisterDistribution(\"d\", \"p\")", 0x8007_0002).unwrap_err();
    assert_eq!(0x8007_0002, e.hresult());
    assert_eq!(ErrorKind::NotFound, e.kind());
    assert_eq!(
        "WslRegisterDistribution(\"d\", \"p\") failed with HRESULT 0x80070002",
        e.message()
    );
}

#[test]
fn interactive_launch_reports_the_exit_code() {
    assert_eq!(7, finish_launch_interactive("WslLaunchInteractive(\"d\", \"sh\", true)", 0, 7).unwrap());
    let e = finish_launch_interactive("WslLaunchInteractive(\"d\", \"sh\", true)", 0x8000_4005, 7)
        .unwrap_err();
    assert_eq!(0x8000_4005, e.hresult());
    assert_eq!(ErrorKind::Other, e.kind());
    assert_eq!(
        "WslLaunchInteractive(\"d\", \"sh\", true) failed with HRESULT 0x80004005",
        e.message()
    );
}

#[test]
fn launch_moves_ownership_into_the_process() {
    let stdin = Stdio::from_handle(11);
    let stdout = Stdio::null();
    let stderr = Stdio::null();
    let p = finish_launch("WslLaunch(\"d\", \"sh\", true, ...)", 0, 42, stdin, stdout, stderr)
        .unwrap();
    assert_eq!(42, p.handle());

    let e = finish_launch(
        "WslLaunch(\"d\", \"sh\", true, ...)",
        0x8007_0057,
        0,
        Stdio::null(),
        Stdio::null(),
        Stdio::null(),
    )
    .unwrap_err();
    assert_eq!(ErrorKind::InvalidInput, e.kind());
}

#[test]
fn exit_code_roundtrip() {
    // In-memory stdin "exit 3", discarded stdout/stderr: the join reports
    // the code the OS retrieved.
    let stdin = Stdio::from_handle(21);
    let p = finish_launch("WslLaunch(\"d\", \"sh\", true, ...)", 0, 9, stdin, Stdio::null(), Stdio::null())
        .unwrap();
    let status = p.wait(&clean_join(Some(3))).unwrap();
    assert_eq!(Some(3), status.code());
    assert!(!status.success());
}

#[test]
fn successful_exit_and_unknown_exit() {
    let p = finish_launch("WslLaunch(...)", 0, 9, Stdio::null(), Stdio::null(), Stdio::null())
        .unwrap();
    let status = p.wait(&clean_join(Some(0))).unwrap();
    assert!(status.success());

    let p = finish_launch("WslLaunch(...)", 0, 9, Stdio::null(), Stdio::null(), Stdio::null())
        .unwrap();
    let status = p.wait(&clean_join(None)).unwrap();
    assert!(!status.success());
    assert_eq!(None, status.code());
}

#[test]
fn join_surfaces_os_failures() {
    let p = finish_launch("WslLaunch(...)", 0, 9, Stdio::null(), Stdio::null(), Stdio::null())
        .unwrap();
    let outcome = JoinOutcome {
        wait_signaled: false,
        exit_code: None,
        close_ok: true,
        last_os_error: 5,
    };
    let e = p.wait(&outcome).unwrap_err();
    assert_eq!(0x8007_0005, e.hresult());
    assert_eq!(ErrorKind::Other, e.kind()); // access denied is not in the fixed table
    assert_eq!("WaitForSingleObject failed with error 0x00000005", e.message());

    let p = finish_launch("WslLaunch(...)", 0, 9, Stdio::null(), Stdio::null(), Stdio::null())
        .unwrap();
    let outcome = JoinOutcome {
        wait_signaled: true,
        exit_code: Some(0),
        close_ok: false,
        last_os_error: 6,
    };
    let e = p.wait(&outcome).unwrap_err();
    assert_eq!(0x8007_0006, e.hresult());
    assert_eq!(ErrorKind::InvalidInput, e.kind());
    assert_eq!("CloseHandle failed with error 0x00000006", e.message());
}

#[test]
fn configuration_query_interpretation() {
    let env = EnvironmentVariables::from_entries(vec![b"HOSTTYPE=x86_64\0".to_vec()]);
    let c = finish_configuration("WslGetDistributionConfiguration(\"d\", ...)", 0, 2, 1000, 0xF, env)
        .unwrap();
    assert_eq!(2, c.version);
    assert_eq!(1000, c.default_uid);
    assert_eq!(0xF, c.flags.0);
    let (k, v) = c.default_environment_variables.get(0).unwrap();
    assert_eq!(b"HOSTTYPE".to_vec(), k);
    assert_eq!(b"x86_64".to_vec(), v);

    // Querying a distribution that does not exist fails with the status the
    // native call reported.
    let env = EnvironmentVariables::new();
    let e = finish_configuration(
        "WslGetDistributionConfiguration(\"Nonexistent\", ...)",
        0x8007_0002,
        0,
        0,
        0,
        env,
    )
    .unwrap_err();
    assert_eq!(ErrorKind::NotFound, e.kind());
    assert_eq!(
        "WslGetDistributionConfiguration(\"Nonexistent\", ...) failed with HRESULT 0x80070002",
        e.message()
    );
}

#[test]
fn stream_conversion_errors_name_the_stream() {
    let e = stream_conversion_error("launch(\"d\", \"sh\", true, ...)", "stdin", "disk full");
    assert_eq!(0x8007_0057, e.hresult());
    assert_eq!(ErrorKind::InvalidInput, e.kind());
    assert_eq!(
        "launch(\"d\", \"sh\", true, ...) failed: failed to convert stdin: disk full",
        e.message()
    );
}
