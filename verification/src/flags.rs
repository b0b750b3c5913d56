//! Flags specifying the behavior of a WSL distribution
//! (`WSL_DISTRIBUTION_FLAGS` of `wslapi.h`).

#![allow(non_camel_case_types)]

use vstd::prelude::*;

use crate::render::hex_chars;
use crate::render::push_char;
use crate::render::u32_to_hex;

verus! {

/// The named parts of a flag rendering: `DEFAULT` when all valid bits are
/// set, else the name of each set valid bit in declaration order.
pub open spec fn named_parts(bits: u32) -> Seq<Seq<char>> {
    if bits & 0x7 == 0x7 {
        seq!["DEFAULT"@]
    } else {
        (if bits & 0x1 != 0 {
            seq!["ENABLE_INTEROP"@]
        } else {
            Seq::empty()
        }) + (if bits & 0x2 != 0 {
            seq!["APPEND_NT_PATH"@]
        } else {
            Seq::empty()
        }) + (if bits & 0x4 != 0 {
            seq!["ENABLE_DRIVE_MOUNTING"@]
        } else {
            Seq::empty()
        })
    }
}

/// All parts of a flag rendering: the named parts, then any residual
/// unknown bits in uppercase hexadecimal.
pub open spec fn flags_parts(bits: u32) -> Seq<Seq<char>> {
    if bits & 0xFFFF_FFF8 != 0 {
        named_parts(bits) + seq![("0x"@ + hex_chars((bits & 0xFFFF_FFF8) as nat))]
    } else {
        named_parts(bits)
    }
}

/// Parts joined with `|`.
pub open spec fn joined(parts: Seq<Seq<char>>) -> Seq<char>
    decreases parts.len(),
{
    if parts.len() == 0 {
        Seq::empty()
    } else if parts.len() == 1 {
        parts[0]
    } else {
        joined(parts.drop_last()) + seq!['|'] + parts.last()
    }
}

/// The canonical rendering of a flag value: the type name, then `NONE` for
/// zero, a single part bare, or several parts joined with `|` in
/// parentheses.
pub open spec fn flags_debug_chars(bits: u32) -> Seq<char> {
    if bits == 0 {
        "WSL_DISTRIBUTION_FLAGS::NONE"@
    } else {
        let parts = flags_parts(bits);
        "WSL_DISTRIBUTION_FLAGS::"@ + (if parts.len() > 1 {
            seq!['('] + joined(parts) + seq![')']
        } else {
            joined(parts)
        })
    }
}

/// Flags specifying WSL behavior, held as the raw bit mask the native API
/// takes and returns.
#[derive(Clone, Copy, PartialEq, Eq, Structural, Debug, Hash)]
pub struct WSL_DISTRIBUTION_FLAGS(pub u32);

impl WSL_DISTRIBUTION_FLAGS {
    /// No flags are being supplied.
    #[allow(non_snake_case)]
    pub fn NONE() -> (r: WSL_DISTRIBUTION_FLAGS)
        ensures
            r.0 == 0,
    {
        WSL_DISTRIBUTION_FLAGS(0)
    }

    /// Allow the distribution to interoperate with Windows processes.
    #[allow(non_snake_case)]
    pub fn ENABLE_INTEROP() -> (r: WSL_DISTRIBUTION_FLAGS)
        ensures
            r.0 == 0x1,
    {
        WSL_DISTRIBUTION_FLAGS(0x1)
    }

    /// Add the Windows `%PATH%` entries to WSL sessions.
    #[allow(non_snake_case)]
    pub fn APPEND_NT_PATH() -> (r: WSL_DISTRIBUTION_FLAGS)
        ensures
            r.0 == 0x2,
    {
        WSL_DISTRIBUTION_FLAGS(0x2)
    }

    /// Automatically mount Windows drives inside of WSL sessions.
    #[allow(non_snake_case)]
    pub fn ENABLE_DRIVE_MOUNTING() -> (r: WSL_DISTRIBUTION_FLAGS)
        ensures
            r.0 == 0x4,
    {
        WSL_DISTRIBUTION_FLAGS(0x4)
    }

    /// All valid flags.
    #[allow(non_snake_case)]
    pub fn VALID() -> (r: WSL_DISTRIBUTION_FLAGS)
        ensures
            r.0 == 0x7,
    {
        WSL_DISTRIBUTION_FLAGS(0x7)
    }

    /// Default flags (all valid flags).
    #[allow(non_snake_case)]
    pub fn DEFAULT() -> (r: WSL_DISTRIBUTION_FLAGS)
        ensures
            r.0 == 0x7,
    {
        WSL_DISTRIBUTION_FLAGS(0x7)
    }

    /// The canonical rendering of this value: sorted named bits, then any
    /// residual unknown bits rendered numerically.
    pub fn debug_string(&self) -> (r: String)
        ensures
            r@ == flags_debug_chars(self.0),
    {
        let bits = self.0;
        if bits == 0 {
            return String::from_str("WSL_DISTRIBUTION_FLAGS::NONE");
        }
        let mut parts: Vec<String> = Vec::new();
        if bits & 0x7 == 0x7 {
            parts.push(String::from_str("DEFAULT"));
        } else {
            if bits & 0x1 != 0 {
                parts.push(String::from_str("ENABLE_INTEROP"));
            }
            if bits & 0x2 != 0 {
                parts.push(String::from_str("APPEND_NT_PATH"));
            }
            if bits & 0x4 != 0 {
                parts.push(String::from_str("ENABLE_DRIVE_MOUNTING"));
            }
        }
        proof {
            assert(parts.deep_view() =~= named_parts(bits));
        }
        let residual = bits & 0xFFFF_FFF8;
        if residual != 0 {
            let mut p = String::from_str("0x");
            let h = u32_to_hex(residual);
            p.append(h.as_str());
            proof {
                assert(p@ =~= "0x"@ + hex_chars(residual as nat));
            }
            parts.push(p);
        }
        proof {
            assert(parts.deep_view() =~= flags_parts(bits));
            assert(parts.deep_view().len() >= 1) by {
                assert(bits & 0x7 == 0x7 || bits & 0x1 != 0 || bits & 0x2 != 0 || bits & 0x4 != 0
                    || bits & 0xFFFF_FFF8 != 0) by (bit_vector)
                    requires
                        bits != 0u32,
                ;
            }
        }
        let ghost pv = parts.deep_view();
        let n = parts.len();
        let mut s = String::from_str("WSL_DISTRIBUTION_FLAGS::");
        if n > 1 {
            push_char(&mut s, '(');
        }
        let ghost base = s@;
        let mut i: usize = 0;
        while i < n
            invariant
                i <= n,
                1 <= n == pv.len(),
                pv == parts.deep_view(),
                n == parts@.len(),
                s@ == base + joined(pv.take(i as int)),
            decreases n - i,
        {
            if i > 0 {
                push_char(&mut s, '|');
            }
            s.append(parts[i].as_str());
            proof {
                assert(pv[i as int] == parts@[i as int]@);
                assert(pv.take(i + 1).drop_last() =~= pv.take(i as int));
                assert(pv.take(i + 1).last() == pv[i as int]);
                if i == 0 {
                    assert(joined(pv.take(1)) == pv[0]);
                    assert(s@ =~= base + joined(pv.take(1)));
                } else {
                    assert(s@ =~= base + joined(pv.take(i + 1)));
                }
            }
            i = i + 1;
        }
        proof {
            assert(pv.take(n as int) =~= pv);
        }
        if n > 1 {
            push_char(&mut s, ')');
        }
        proof {
            assert(s@ =~= flags_debug_chars(bits));
        }
        s
    }
}

impl core::ops::BitAnd for WSL_DISTRIBUTION_FLAGS {
    type Output = WSL_DISTRIBUTION_FLAGS;

    fn bitand(self, rhs: WSL_DISTRIBUTION_FLAGS) -> WSL_DISTRIBUTION_FLAGS {
        WSL_DISTRIBUTION_FLAGS(self.0 & rhs.0)
    }
}

impl vstd::std_specs::ops::BitAndSpecImpl for WSL_DISTRIBUTION_FLAGS {
    open spec fn obeys_bitand_spec() -> bool {
        true
    }

    open spec fn bitand_req(self, rhs: WSL_DISTRIBUTION_FLAGS) -> bool {
        true
    }

    open spec fn bitand_spec(self, rhs: WSL_DISTRIBUTION_FLAGS) -> WSL_DISTRIBUTION_FLAGS {
        WSL_DISTRIBUTION_FLAGS(self.0 & rhs.0)
    }
}

impl core::ops::BitOr for WSL_DISTRIBUTION_FLAGS {
    type Output = WSL_DISTRIBUTION_FLAGS;

    fn bitor(self, rhs: WSL_DISTRIBUTION_FLAGS) -> WSL_DISTRIBUTION_FLAGS {
        WSL_DISTRIBUTION_FLAGS(self.0 | rhs.0)
    }
}

impl vstd::std_specs::ops::BitOrSpecImpl for WSL_DISTRIBUTION_FLAGS {
    open spec fn obeys_bitor_spec() -> bool {
        true
    }

    open spec fn bitor_req(self, rhs: WSL_DISTRIBUTION_FLAGS) -> bool {
        true
    }

    open spec fn bitor_spec(self, rhs: WSL_DISTRIBUTION_FLAGS) -> WSL_DISTRIBUTION_FLAGS {
        WSL_DISTRIBUTION_FLAGS(self.0 | rhs.0)
    }
}

impl Default for WSL_DISTRIBUTION_FLAGS {
    /// The default flags are `DEFAULT`.
    fn default() -> (r: WSL_DISTRIBUTION_FLAGS)
        ensures
            r.0 == 0x7,
    {
        WSL_DISTRIBUTION_FLAGS(0x7)
    }
}

impl From<u32> for WSL_DISTRIBUTION_FLAGS {
    fn from(value: u32) -> (r: WSL_DISTRIBUTION_FLAGS) {
        WSL_DISTRIBUTION_FLAGS(value)
    }
}

impl vstd::std_specs::convert::FromSpecImpl<u32> for WSL_DISTRIBUTION_FLAGS {
    open spec fn obeys_from_spec() -> bool {
        true
    }

    open spec fn from_spec(value: u32) -> WSL_DISTRIBUTION_FLAGS {
        WSL_DISTRIBUTION_FLAGS(value)
    }
}

impl From<WSL_DISTRIBUTION_FLAGS> for u32 {
    fn from(value: WSL_DISTRIBUTION_FLAGS) -> (r: u32) {
        value.0
    }
}

impl vstd::std_specs::convert::FromSpecImpl<WSL_DISTRIBUTION_FLAGS> for u32 {
    open spec fn obeys_from_spec() -> bool {
        true
    }

    open spec fn from_spec(value: WSL_DISTRIBUTION_FLAGS) -> u32 {
        value.0
    }
}

} // verus!
