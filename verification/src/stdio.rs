//! A standard-stream parameter for a launched process.
//!
//! A [`Stdio`] either owns one OS handle or is absent; an absent stream is
//! marshaled as the null handle, which the native launch call accepts as
//! "ignore this stream". The platform layer creates the handles (a
//! delete-on-close temporary file for in-memory bytes, a duplicated file
//! handle for an owned file) and closes whatever a `Stdio` owns exactly
//! once; this module fixes which handle value travels to the native call,
//! and the unique naming of the temporary backing stores.

use vstd::prelude::*;

use crate::render::dec_chars;
use crate::render::lemma_dec_chars_injective;
use crate::render::u64_to_dec;

verus! {

/// The name of the temporary backing store for in-memory stream data:
/// process identity and an in-process counter, joined so that distinct
/// counters give distinct names.
pub open spec fn temp_name_chars(pid: u64, counter: u64) -> Seq<char> {
    "wslapi-"@ + dec_chars(pid as nat) + "-"@ + dec_chars(counter as nat) + ".tmp"@
}

/// A stdin, stdout, or stderr parameter of a launch: an owned handle, or
/// absent to suppress the stream.
#[derive(Debug)]
pub struct Stdio {
    handle: Option<u64>,
}

impl Stdio {
    /// The owned raw handle value, with absence marshaled as zero, for use
    /// in specifications.
    pub closed spec fn raw(&self) -> u64 {
        match self.handle {
            Option::None => 0,
            Option::Some(h) => h,
        }
    }

    /// Whether this stream is absent, for use in specifications.
    pub closed spec fn is_absent(&self) -> bool {
        self.handle is None
    }

    /// This stream will be ignored: the equivalent of attaching the stream
    /// to the null device.
    pub fn null() -> (r: Stdio)
        ensures
            r.is_absent(),
            r.raw() == 0,
    {
        Stdio { handle: None }
    }

    /// Take ownership of a raw handle. The caller asserts that the handle
    /// is valid, closeable, inheritable, and legal for a standard stream;
    /// the null handle is accepted and behaves like [`Stdio::null`].
    pub fn from_handle(handle: u64) -> (r: Stdio)
        ensures
            r.raw() == handle,
            r.is_absent() <==> handle == 0,
    {
        if handle == 0 {
            Stdio { handle: None }
        } else {
            Stdio { handle: Some(handle) }
        }
    }

    /// Get the raw handle for marshaling: never transfers ownership.
    pub fn as_raw_handle(&self) -> (r: u64)
        ensures
            r == self.raw(),
    {
        match self.handle {
            None => 0,
            Some(h) => h,
        }
    }

    /// Get the handle value the native launch call takes: the same raw
    /// handle, with absence as the null handle.
    pub fn as_winapi_handle(&self) -> (r: u64)
        ensures
            r == self.raw(),
    {
        self.as_raw_handle()
    }

    /// The name of the temporary file backing an in-memory stream, unique
    /// per `(process_id, counter)` pair.
    pub fn temp_file_name(process_id: u64, counter: u64) -> (r: String)
        ensures
            r@ == temp_name_chars(process_id, counter),
    {
        let mut s = String::from_str("wslapi-");
        let pid = u64_to_dec(process_id);
        s.append(pid.as_str());
        s.append("-");
        let n = u64_to_dec(counter);
        s.append(n.as_str());
        s.append(".tmp");
        s
    }
}

impl From<()> for Stdio {
    /// The unit value is shorthand for a suppressed stream.
    fn from(value: ()) -> (r: Stdio) {
        Stdio::null()
    }
}

impl vstd::std_specs::convert::FromSpecImpl<()> for Stdio {
    open spec fn obeys_from_spec() -> bool {
        true
    }

    closed spec fn from_spec(value: ()) -> Stdio {
        Stdio { handle: None }
    }
}

/// Distinct counter values give distinct temporary-file names, whatever the
/// shared process identity: concurrent in-memory streams never collide on
/// their backing stores.
pub proof fn lemma_temp_names_distinct(pid: u64, c1: u64, c2: u64)
    requires
        c1 != c2,
    ensures
        temp_name_chars(pid, c1) != temp_name_chars(pid, c2),
{
    let a = dec_chars(c1 as nat);
    let b = dec_chars(c2 as nat);
    lemma_dec_chars_injective(c1 as nat, c2 as nat);
    let p = "wslapi-"@ + dec_chars(pid as nat) + "-"@;
    let t = ".tmp"@;
    if temp_name_chars(pid, c1) == temp_name_chars(pid, c2) {
        assert(temp_name_chars(pid, c1).len() == p.len() + a.len() + t.len());
        assert(temp_name_chars(pid, c2).len() == p.len() + b.len() + t.len());
        assert(a.len() == b.len());
        assert forall|i: int| 0 <= i < a.len() implies a[i] == b[i] by {
            assert(temp_name_chars(pid, c1)[p.len() + i] == a[i]);
            assert(temp_name_chars(pid, c2)[p.len() + i] == b[i]);
        }
        assert(a =~= b);
    }
}

} // verus!
