//! Decisions of the registry enumeration of distribution names.
//!
//! The names of registered distributions live in registry values next to
//! the native API. The enumeration walks subkeys and reads one string value
//! per subkey; the registry primitives return status codes and a byte count
//! for the value they wrote. This module fixes what each combination of
//! statuses means - another name, the end of the enumeration, or a failure
//! to surface - and how the name is cut out of the value buffer. The
//! platform layer makes the registry calls and hands their raw results
//! here.

use vstd::prelude::*;

verus! {

/// The registry status that reports success.
pub const ERROR_SUCCESS: u32 = 0;

/// The registry status that ends an enumeration: no more subkeys.
pub const ERROR_NO_MORE_ITEMS: u32 = 259;

/// One step of the name enumeration.
#[derive(Debug)]
pub enum EnumStep {
    /// Another registered distribution, as the wide characters of its name.
    Name(Vec<u16>),
    /// The enumeration is complete.
    Done,
    /// Enumerating the subkey failed with this status.
    KeyError(u32),
    /// Reading the name value failed with this status.
    ValueError(u32),
}

/// Interprets one step of the enumeration: `key_status` from enumerating
/// the next subkey, and - only read when the subkey was found -
/// `value_status` from reading its name value, with the value buffer and
/// the byte count the registry reported (which counts the terminating wide
/// NUL, so the name is the buffer's first `value_len_bytes / 2 - 1` units).
pub fn enum_step(key_status: u32, value_status: u32, value: &Vec<u16>, value_len_bytes: u32) -> (r:
    EnumStep)
    requires
        key_status == ERROR_SUCCESS && value_status == ERROR_SUCCESS ==> 2
            <= value_len_bytes && value_len_bytes as int / 2 <= value@.len(),
    ensures
        key_status == ERROR_NO_MORE_ITEMS ==> r is Done,
        !(key_status == ERROR_SUCCESS || key_status == ERROR_NO_MORE_ITEMS) ==> (
        r matches EnumStep::KeyError(s) && s == key_status),
        key_status == ERROR_SUCCESS && value_status != ERROR_SUCCESS ==> (
        r matches EnumStep::ValueError(s) && s == value_status),
        key_status == ERROR_SUCCESS && value_status == ERROR_SUCCESS ==> (
        r matches EnumStep::Name(name) && name@ == value@.subrange(
            0,
            value_len_bytes as int / 2 - 1,
        )),
{
    if key_status == ERROR_NO_MORE_ITEMS {
        return EnumStep::Done;
    }
    if key_status != ERROR_SUCCESS {
        return EnumStep::KeyError(key_status);
    }
    if value_status != ERROR_SUCCESS {
        return EnumStep::ValueError(value_status);
    }
    let units = value_len_bytes / 2;
    let n = (units - 1) as usize;
    let mut name: Vec<u16> = Vec::new();
    let mut i: usize = 0;
    while i < n
        invariant
            i <= n,
            n <= value@.len(),
            name@ == value@.subrange(0, i as int),
        decreases n - i,
    {
        name.push(value[i]);
        proof {
            assert(name@ =~= value@.subrange(0, i + 1));
        }
        i = i + 1;
    }
    EnumStep::Name(name)
}

} // verus!
