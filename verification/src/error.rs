//! Status codes and their classification.
//!
//! Native entry points report an `HRESULT`-style status: a 32-bit code whose
//! high bit signals failure, and whose facility and code fields place the
//! failure in the Win32 error taxonomy. This module holds that code as its
//! raw `u32` bit pattern, classifies it into a generic error-kind taxonomy,
//! and bundles it with a diagnostic message.

use vstd::prelude::*;

verus! {

/// The `E_INVALIDARG` status, reported for rejected caller input.
pub const E_INVALIDARG: u32 = 0x8007_0057;

/// The Win32 facility of an `HRESULT`.
pub const FACILITY_WIN32: u32 = 7;

pub const ERROR_FILE_NOT_FOUND: u32 = 2;
pub const ERROR_PATH_NOT_FOUND: u32 = 3;
pub const ERROR_INVALID_HANDLE: u32 = 6;
pub const ERROR_INVALID_DATA: u32 = 13;
pub const ERROR_INVALID_DRIVE: u32 = 15;
pub const ERROR_NO_MORE_FILES: u32 = 18;
pub const ERROR_WRITE_PROTECT: u32 = 19;
pub const ERROR_SHARING_VIOLATION: u32 = 32;
pub const ERROR_LOCK_VIOLATION: u32 = 33;
pub const ERROR_HANDLE_EOF: u32 = 38;
pub const ERROR_FILE_EXISTS: u32 = 80;
pub const ERROR_INVALID_PARAMETER: u32 = 87;
pub const ERROR_BROKEN_PIPE: u32 = 109;
pub const ERROR_SEM_TIMEOUT: u32 = 121;
pub const ERROR_INVALID_NAME: u32 = 123;
pub const ERROR_INVALID_LEVEL: u32 = 124;
pub const ERROR_MOD_NOT_FOUND: u32 = 126;
pub const ERROR_PROC_NOT_FOUND: u32 = 127;
pub const ERROR_ALREADY_EXISTS: u32 = 183;
pub const ERROR_PIPE_NOT_CONNECTED: u32 = 233;
pub const WAIT_TIMEOUT: u32 = 258;

/// A generic error-kind taxonomy for interoperability with generic I/O
/// error handling.
#[derive(Clone, Copy, Debug, PartialEq, Eq, Structural)]
pub enum ErrorKind {
    /// An entity was not found.
    NotFound,
    /// The operation lacked the necessary privileges or the resource was busy.
    PermissionDenied,
    /// An entity already exists.
    AlreadyExists,
    /// The connection was broken by the other side.
    BrokenPipe,
    /// A parameter was incorrect.
    InvalidInput,
    /// Data was not valid for the operation.
    InvalidData,
    /// The operation's deadline expired.
    TimedOut,
    /// An operation ended before reaching the expected end of its data.
    UnexpectedEof,
    /// Any status not otherwise classified.
    Other,
}

/// Whether the status reports failure: the severity bit (bit 31) is set.
pub open spec fn hresult_failed(hr: u32) -> bool {
    hr >= 0x8000_0000
}

/// The facility field of the status: bits 16 through 26.
pub open spec fn hresult_facility(hr: u32) -> u32 {
    (hr >> 16) & 0x7FF
}

/// The code field of the status: the low 16 bits.
pub open spec fn hresult_code(hr: u32) -> u32 {
    hr & 0xFFFF
}

/// The fixed classification of a status code into an [`ErrorKind`]: total,
/// with every unrecognized status mapping to [`ErrorKind::Other`].
pub open spec fn classify_hresult(hr: u32) -> ErrorKind {
    if hr == E_INVALIDARG {
        ErrorKind::InvalidInput
    } else if hresult_facility(hr) == FACILITY_WIN32 {
        let code = hresult_code(hr);
        if code == ERROR_ALREADY_EXISTS {
            ErrorKind::AlreadyExists
        } else if code == ERROR_FILE_NOT_FOUND {
            ErrorKind::NotFound
        } else if code == ERROR_PATH_NOT_FOUND {
            ErrorKind::NotFound
        } else if code == ERROR_MOD_NOT_FOUND {
            ErrorKind::NotFound
        } else if code == ERROR_PROC_NOT_FOUND {
            ErrorKind::NotFound
        } else if code == ERROR_INVALID_HANDLE {
            ErrorKind::InvalidInput
        } else if code == ERROR_INVALID_DATA {
            ErrorKind::InvalidData
        } else if code == ERROR_INVALID_DRIVE {
            ErrorKind::InvalidInput
        } else if code == ERROR_INVALID_PARAMETER {
            ErrorKind::InvalidInput
        } else if code == ERROR_INVALID_NAME {
            ErrorKind::InvalidInput
        } else if code == ERROR_INVALID_LEVEL {
            ErrorKind::InvalidInput
        } else if code == ERROR_NO_MORE_FILES {
            ErrorKind::UnexpectedEof
        } else if code == ERROR_WRITE_PROTECT {
            ErrorKind::PermissionDenied
        } else if code == ERROR_SHARING_VIOLATION {
            ErrorKind::PermissionDenied
        } else if code == ERROR_LOCK_VIOLATION {
            ErrorKind::PermissionDenied
        } else if code == ERROR_HANDLE_EOF {
            ErrorKind::UnexpectedEof
        } else if code == ERROR_FILE_EXISTS {
            ErrorKind::AlreadyExists
        } else if code == ERROR_BROKEN_PIPE {
            ErrorKind::BrokenPipe
        } else if code == ERROR_PIPE_NOT_CONNECTED {
            ErrorKind::BrokenPipe
        } else if code == WAIT_TIMEOUT {
            ErrorKind::TimedOut
        } else if code == ERROR_SEM_TIMEOUT {
            ErrorKind::TimedOut
        } else {
            ErrorKind::Other
        }
    } else {
        ErrorKind::Other
    }
}

/// The failure `HRESULT` that carries a Win32 error code: the code in the
/// low 16 bits, the Win32 facility, and the severity bit.
pub open spec fn win32_hresult(code: u32) -> u32 {
    (code & 0xFFFF) | 0x8007_0000
}

/// Wraps a Win32 error code as a failure `HRESULT`.
pub fn hresult_from_win32(code: u32) -> (hr: u32)
    ensures
        hr == win32_hresult(code),
{
    (code & 0xFFFF) | 0x8007_0000
}

/// Whether the status reports success.
pub fn succeeded(hr: u32) -> (r: bool)
    ensures
        r == !hresult_failed(hr),
{
    hr < 0x8000_0000
}

/// Classifies a status code into the generic error-kind taxonomy.
pub fn hr2ek(hr: u32) -> (k: ErrorKind)
    ensures
        k == classify_hresult(hr),
{
    if hr == E_INVALIDARG {
        return ErrorKind::InvalidInput;
    }
    let facility: u32 = (hr >> 16) & 0x7FF;
    if facility != FACILITY_WIN32 {
        return ErrorKind::Other;
    }
    let code: u32 = hr & 0xFFFF;
    if code == ERROR_ALREADY_EXISTS {
        ErrorKind::AlreadyExists
    } else if code == ERROR_FILE_NOT_FOUND || code == ERROR_PATH_NOT_FOUND
        || code == ERROR_MOD_NOT_FOUND || code == ERROR_PROC_NOT_FOUND {
        ErrorKind::NotFound
    } else if code == ERROR_INVALID_HANDLE || code == ERROR_INVALID_DRIVE
        || code == ERROR_INVALID_PARAMETER || code == ERROR_INVALID_NAME
        || code == ERROR_INVALID_LEVEL {
        ErrorKind::InvalidInput
    } else if code == ERROR_INVALID_DATA {
        ErrorKind::InvalidData
    } else if code == ERROR_NO_MORE_FILES || code == ERROR_HANDLE_EOF {
        ErrorKind::UnexpectedEof
    } else if code == ERROR_WRITE_PROTECT || code == ERROR_SHARING_VIOLATION
        || code == ERROR_LOCK_VIOLATION {
        ErrorKind::PermissionDenied
    } else if code == ERROR_FILE_EXISTS {
        ErrorKind::AlreadyExists
    } else if code == ERROR_BROKEN_PIPE || code == ERROR_PIPE_NOT_CONNECTED {
        ErrorKind::BrokenPipe
    } else if code == WAIT_TIMEOUT || code == ERROR_SEM_TIMEOUT {
        ErrorKind::TimedOut
    } else {
        ErrorKind::Other
    }
}

/// An error of this library: a native status code plus a human-readable
/// message naming the operation that failed, its key arguments, and the
/// raw status.
#[derive(Debug)]
pub struct Error {
    hresult: u32,
    message: String,
}

impl Error {
    /// The stored status code, for use in specifications.
    pub closed spec fn spec_hresult(&self) -> u32 {
        self.hresult
    }

    /// The stored message, for use in specifications.
    pub closed spec fn spec_message(&self) -> Seq<char> {
        self.message@
    }

    /// Bundles a status code with a diagnostic message.
    pub fn new(hresult: u32, message: String) -> (e: Error)
        ensures
            e.spec_hresult() == hresult,
            e.spec_message() == message@,
    {
        Error { hresult, message }
    }

    /// The raw status code this error wraps.
    pub fn hresult(&self) -> (r: u32)
        ensures
            r == self.spec_hresult(),
    {
        self.hresult
    }

    /// The human-readable message.
    pub fn message(&self) -> (r: &str)
        ensures
            r@ == self.spec_message(),
    {
        self.message.as_str()
    }

    /// The generic kind this error's status code classifies to.
    pub fn kind(&self) -> (k: ErrorKind)
        ensures
            k == classify_hresult(self.spec_hresult()),
    {
        hr2ek(self.hresult)
    }
}

} // verus!
