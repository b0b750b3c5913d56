//! A launched process and its join.
//!
//! A [`Process`] owns one child-process handle together with the three
//! standard-stream values passed at launch, which must stay alive until the
//! child no longer needs them. Its one operation is a join: block until the
//! process exits, read its exit code, and release everything - allowed
//! exactly once, which taking the process by value makes statically
//! unreachable to repeat. The blocking itself is the platform layer's work;
//! it reports what the OS primitives returned as a [`JoinOutcome`], and
//! [`Process::wait`] turns that outcome into an [`ExitStatus`] or an error.

use vstd::prelude::*;

use crate::error::hresult_from_win32;
use crate::error::win32_hresult;
use crate::error::Error;
use crate::render::hex_fixed_chars;
use crate::render::u32_to_hex8;
use crate::stdio::Stdio;

verus! {

/// The diagnostic message for a failed wait primitive.
pub open spec fn wait_error_message(os_error: u32) -> Seq<char> {
    "WaitForSingleObject failed with error 0x"@ + hex_fixed_chars(os_error as nat, 8)
}

/// The diagnostic message for a failed handle close.
pub open spec fn close_error_message(os_error: u32) -> Seq<char> {
    "CloseHandle failed with error 0x"@ + hex_fixed_chars(os_error as nat, 8)
}

/// What the OS primitives of a join reported: whether the wait ended with
/// the process signaled, the exit code if the OS could retrieve one,
/// whether closing the process handle succeeded, and the OS error code of
/// the failing primitive, if any.
#[derive(Clone, Copy, Debug)]
pub struct JoinOutcome {
    /// The wait ended with the process handle signaled.
    pub wait_signaled: bool,
    /// The exit code, absent when the OS query failed.
    pub exit_code: Option<u32>,
    /// Closing the process handle succeeded.
    pub close_ok: bool,
    /// The OS error code reported for the failing primitive, if any failed.
    pub last_os_error: u32,
}

/// The exit status of a completed process.
#[derive(Debug)]
pub struct ExitStatus {
    exit_code: Option<u32>,
}

impl ExitStatus {
    /// The recorded exit code, for use in specifications.
    pub closed spec fn spec_code(&self) -> Option<u32> {
        self.exit_code
    }

    /// Records an exit code, absent when the OS could not retrieve one.
    pub fn new(exit_code: Option<u32>) -> (r: ExitStatus)
        ensures
            r.spec_code() == exit_code,
    {
        ExitStatus { exit_code }
    }

    /// Was termination successful?
    pub fn success(&self) -> (b: bool)
        ensures
            b == (self.spec_code() == Some(0u32)),
    {
        match self.exit_code {
            Some(code) => code == 0,
            None => false,
        }
    }

    /// Returns the exit code of the process, if any.
    pub fn code(&self) -> (r: Option<u32>)
        ensures
            r == self.spec_code(),
    {
        self.exit_code
    }
}

/// A launched process: an owned child-process handle and the three
/// standard-stream values that must outlive it.
#[derive(Debug)]
pub struct Process {
    handle: u64,
    stdin: Stdio,
    stdout: Stdio,
    stderr: Stdio,
}

impl Process {
    /// The owned process handle, for use in specifications.
    pub closed spec fn spec_handle(&self) -> u64 {
        self.handle
    }

    /// The owned stdin value, for use in specifications.
    pub closed spec fn spec_stdin(&self) -> Stdio {
        self.stdin
    }

    /// The owned stdout value, for use in specifications.
    pub closed spec fn spec_stdout(&self) -> Stdio {
        self.stdout
    }

    /// The owned stderr value, for use in specifications.
    pub closed spec fn spec_stderr(&self) -> Stdio {
        self.stderr
    }

    /// Bundles a freshly launched process handle with the three streams it
    /// was launched with, which it now owns.
    pub(crate) fn assemble(handle: u64, stdin: Stdio, stdout: Stdio, stderr: Stdio) -> (p: Process)
        ensures
            p.spec_handle() == handle,
            p.spec_stdin() == stdin,
            p.spec_stdout() == stdout,
            p.spec_stderr() == stderr,
    {
        Process { handle, stdin, stdout, stderr }
    }

    /// The raw process handle, for the platform layer's wait and close
    /// primitives: never transfers ownership.
    pub fn handle(&self) -> (r: u64)
        ensures
            r == self.spec_handle(),
    {
        self.handle
    }

    /// Waits for the process to exit completely, consuming it: the handle
    /// is closed and the three streams are released, so a second join is
    /// statically unreachable. The platform layer blocks on the OS
    /// primitives and reports what they returned; this turns the outcome
    /// into the exit status, or into the OS error of the primitive that
    /// failed (an abnormal child exit is not an error - it is reported
    /// through the exit code).
    pub fn wait(self, outcome: &JoinOutcome) -> (r: Result<ExitStatus, Error>)
        ensures
            outcome.wait_signaled && outcome.close_ok ==> (r matches Ok(st)
                && st.spec_code() == outcome.exit_code),
            !outcome.wait_signaled ==> (r matches Err(e)
                && e.spec_hresult() == win32_hresult(outcome.last_os_error)
                && e.spec_message() == wait_error_message(outcome.last_os_error)),
            outcome.wait_signaled && !outcome.close_ok ==> (r matches Err(e)
                && e.spec_hresult() == win32_hresult(outcome.last_os_error)
                && e.spec_message() == close_error_message(outcome.last_os_error)),
    {
        if !outcome.wait_signaled {
            let mut m = String::from_str("WaitForSingleObject failed with error 0x");
            let h = u32_to_hex8(outcome.last_os_error);
            m.append(h.as_str());
            return Err(Error::new(hresult_from_win32(outcome.last_os_error), m));
        }
        if !outcome.close_ok {
            let mut m = String::from_str("CloseHandle failed with error 0x");
            let h = u32_to_hex8(outcome.last_os_error);
            m.append(h.as_str());
            return Err(Error::new(hresult_from_win32(outcome.last_os_error), m));
        }
        Ok(ExitStatus::new(outcome.exit_code))
    }
}

} // verus!
