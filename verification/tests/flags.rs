//! Flag values: canonical rendering, operators, and conversions.

use wslapi::WSL_DISTRIBUTION_FLAGS;

#[test]
fn fmt_debug() {
    assert_eq!(
        "WSL_DISTRIBUTION_FLAGS::NONE",
        WSL_DISTRIBUTION_FLAGS::NONE().debug_string()
    );
    assert_eq!(
        "WSL_DISTRIBUTION_FLAGS::(ENABLE_INTEROP|APPEND_NT_PATH)",
        (WSL_DISTRIBUTION_FLAGS::ENABLE_INTEROP() | WSL_DISTRIBUTION_FLAGS::APPEND_NT_PATH())
            .debug_string()
    );
    assert_eq!(
        "WSL_DISTRIBUTION_FLAGS::DEFAULT",
        WSL_DISTRIBUTION_FLAGS::DEFAULT().debug_string()
    );
    assert_eq!(
        "WSL_DISTRIBUTION_FLAGS::(DEFAULT|0xFFFFFFF8)",
        WSL_DISTRIBUTION_FLAGS(!0).debug_string()
    );
}

#[test]
fn debug_string_single_and_residual() {
    assert_eq!(
        "WSL_DISTRIBUTION_FLAGS::ENABLE_DRIVE_MOUNTING",
        WSL_DISTRIBUTION_FLAGS::ENABLE_DRIVE_MOUNTING().debug_string()
    );
    assert_eq!("WSL_DISTRIBUTION_FLAGS::0x8", WSL_DISTRIBUTION_FLAGS(0x8).debug_string());
    assert_eq!(
        "WSL_DISTRIBUTION_FLAGS::(ENABLE_INTEROP|0x10)",
        WSL_DISTRIBUTION_FLAGS(0x11).debug_string()
    );
    assert_eq!(
        "WSL_DISTRIBUTION_FLAGS::(DEFAULT|0x8)",
        WSL_DISTRIBUTION_FLAGS(0xF).debug_string()
    );
}

#[test]
fn operators() {
    let a = WSL_DISTRIBUTION_FLAGS::ENABLE_INTEROP();
    let b = WSL_DISTRIBUTION_FLAGS::APPEND_NT_PATH();
    assert_eq!(0x3, (a | b).0);
    assert_eq!(0x0, (a & b).0);
    assert_eq!(0x1, (WSL_DISTRIBUTION_FLAGS::DEFAULT() & a).0);
    assert_eq!(a, WSL_DISTRIBUTION_FLAGS(0x1));
}

#[test]
fn conversions() {
    assert_eq!(0x7, u32::from(WSL_DISTRIBUTION_FLAGS::VALID()));
    assert_eq!(WSL_DISTRIBUTION_FLAGS(0x5), WSL_DISTRIBUTION_FLAGS::from(0x5u32));
    let d: WSL_DISTRIBUTION_FLAGS = Default::default();
    assert_eq!(0x7, d.0);
}
