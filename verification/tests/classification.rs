//! Status-code classification and the error type.

use wslapi::hr2ek;
use wslapi::hresult_from_win32;
use wslapi::succeeded;
use wslapi::Error;
use wslapi::ErrorKind;

#[test]
fn invalid_argument_status() {
    assert_eq!(ErrorKind::InvalidInput, hr2ek(0x8007_0057));
}

#[test]
fn not_found_statuses() {
    assert_eq!(ErrorKind::NotFound, hr2ek(0x8007_0002)); // file not found
    assert_eq!(ErrorKind::NotFound, hr2ek(0x8007_0003)); // path not found
    assert_eq!(ErrorKind::NotFound, hr2ek(0x8007_007E)); // module not found
    assert_eq!(ErrorKind::NotFound, hr2ek(0x8007_007F)); // procedure not found
}

#[test]
fn already_exists_statuses() {
    assert_eq!(ErrorKind::AlreadyExists, hr2ek(0x8007_00B7)); // already exists
    assert_eq!(ErrorKind::AlreadyExists, hr2ek(0x8007_0050)); // file exists
}

#[test]
fn permission_denied_statuses() {
    assert_eq!(ErrorKind::PermissionDenied, hr2ek(0x8007_0013)); // write protect
    assert_eq!(ErrorKind::PermissionDenied, hr2ek(0x8007_0020)); // sharing violation
    assert_eq!(ErrorKind::PermissionDenied, hr2ek(0x8007_0021)); // lock violation
}

#[test]
fn invalid_input_statuses() {
    assert_eq!(ErrorKind::InvalidInput, hr2ek(0x8007_0006)); // invalid handle
    assert_eq!(ErrorKind::InvalidInput, hr2ek(0x8007_000F)); // invalid drive
    assert_eq!(ErrorKind::InvalidInput, hr2ek(0x8007_0057)); // invalid parameter
    assert_eq!(ErrorKind::InvalidInput, hr2ek(0x8007_007B)); // invalid name
    assert_eq!(ErrorKind::InvalidInput, hr2ek(0x8007_007C)); // invalid level
}

#[test]
fn invalid_data_status() {
    assert_eq!(ErrorKind::InvalidData, hr2ek(0x8007_000D));
}

#[test]
fn eof_statuses() {
    assert_eq!(ErrorKind::UnexpectedEof, hr2ek(0x8007_0012)); // no more files
    assert_eq!(ErrorKind::UnexpectedEof, hr2ek(0x8007_0026)); // handle eof
}

#[test]
fn broken_pipe_statuses() {
    assert_eq!(ErrorKind::BrokenPipe, hr2ek(0x8007_006D)); // broken pipe
    assert_eq!(ErrorKind::BrokenPipe, hr2ek(0x8007_00E9)); // pipe not connected
}

#[test]
fn timed_out_statuses() {
    assert_eq!(ErrorKind::TimedOut, hr2ek(0x8007_0102)); // wait timeout
    assert_eq!(ErrorKind::TimedOut, hr2ek(0x8007_0079)); // semaphore timeout
}

#[test]
fn unknown_statuses_are_other() {
    assert_eq!(ErrorKind::Other, hr2ek(0x8000_4005)); // E_FAIL
    assert_eq!(ErrorKind::Other, hr2ek(0x8879_0002)); // not the Win32 facility
    assert_eq!(ErrorKind::Other, hr2ek(0)); // success status
    assert_eq!(ErrorKind::Other, hr2ek(0x8007_FFFF)); // unknown Win32 code
}

#[test]
fn succeeded_is_the_severity_bit() {
    assert!(succeeded(0));
    assert!(succeeded(1));
    assert!(succeeded(0x7FFF_FFFF));
    assert!(!succeeded(0x8000_0000));
    assert!(!succeeded(0x8007_0057));
}

#[test]
fn win32_wrapping() {
    assert_eq!(0x8007_0005, hresult_from_win32(5));
    assert_eq!(0x8007_0000, hresult_from_win32(0));
    assert_eq!(ErrorKind::PermissionDenied, hr2ek(hresult_from_win32(32)));
}

#[test]
fn error_accessors() {
    let e = Error::new(0x8007_0002, String::from("WslLaunch(\"x\") failed"));
    assert_eq!(0x8007_0002, e.hresult());
    assert_eq!("WslLaunch(\"x\") failed", e.message());
    assert_eq!(ErrorKind::NotFound, e.kind());
}
