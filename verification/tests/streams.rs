//! Stream parameters and the naming of temporary backing stores.

use wslapi::enum_step;
use wslapi::EnumStep;
use wslapi::Stdio;

#[test]
fn null_stream_marshals_as_the_null_handle() {
    let s = Stdio::null();
    assert_eq!(0, s.as_raw_handle());
    assert_eq!(0, s.as_winapi_handle());
    let s = Stdio::from(());
    assert_eq!(0, s.as_raw_handle());
}

#[test]
fn adopted_handles_are_exposed_without_transfer() {
    let s = Stdio::from_handle(0x1234);
    assert_eq!(0x1234, s.as_raw_handle());
    assert_eq!(0x1234, s.as_winapi_handle());
    assert_eq!(s.as_raw_handle(), s.as_winapi_handle());
}

#[test]
fn adopting_the_null_handle_behaves_like_null() {
    let s = Stdio::from_handle(0);
    assert_eq!(0, s.as_raw_handle());
    assert_eq!(0, s.as_winapi_handle());
}

#[test]
fn temp_file_names() {
    assert_eq!("wslapi-123-7.tmp", Stdio::temp_file_name(123, 7));
    assert_eq!("wslapi-0-0.tmp", Stdio::temp_file_name(0, 0));
    assert_eq!("wslapi-4294967295-18446744073709551615.tmp", Stdio::temp_file_name(4294967295, u64::MAX));
}

#[test]
fn temp_file_names_never_collide() {
    // Streams created concurrently draw distinct counter values; their
    // backing-store names are then distinct.
    let names: Vec<String> = (0..100).map(|i| Stdio::temp_file_name(7777, i)).collect();
    for a in 0..names.len() {
        for b in 0..a {
            assert_ne!(names[a], names[b]);
        }
    }
    // Counters that only differ in digit layout still give distinct names.
    assert_ne!(Stdio::temp_file_name(1, 12), Stdio::temp_file_name(12, 1));
    assert_ne!(Stdio::temp_file_name(7, 11), Stdio::temp_file_name(7, 1));
    assert_ne!(Stdio::temp_file_name(7, 1), Stdio::temp_file_name(7, 10));
}

#[test]
fn enumeration_steps() {
    let empty: Vec<u16> = Vec::new();
    match enum_step(259, 0, &empty, 0) {
        EnumStep::Done => {}
        other => panic!("expected Done, got {:?}", other),
    }

    match enum_step(5, 0, &empty, 0) {
        EnumStep::KeyError(5) => {}
        other => panic!("expected KeyError(5), got {:?}", other),
    }

    match enum_step(0, 2, &empty, 0) {
        EnumStep::ValueError(2) => {}
        other => panic!("expected ValueError(2), got {:?}", other),
    }

    // "Ubuntu" plus its wide terminator: fourteen bytes reported.
    let value: Vec<u16> = "Ubuntu\0rest".chars().map(|c| c as u16).collect();
    match enum_step(0, 0, &value, 14) {
        EnumStep::Name(name) => {
            let expected: Vec<u16> = "Ubuntu".chars().map(|c| c as u16).collect();
            assert_eq!(expected, name);
        }
        other => panic!("expected Name, got {:?}", other),
    }
}
