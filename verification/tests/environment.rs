//! The environment-variable buffer: lookup, splitting, and iteration.

use wslapi::Configuration;
use wslapi::EnvironmentVariables;

#[test]
fn empty_buffer_yields_absence() {
    let vars = EnvironmentVariables::new();
    assert_eq!(0, vars.len());
    assert!(vars.get(0).is_none());
    assert!(vars.get(usize::MAX).is_none());
    let mut it = vars.iter();
    assert!(it.next().is_none());
    assert!(it.next().is_none());
    assert!(vars.pairs().is_empty());
}

#[test]
fn get_splits_at_first_equals() {
    let vars = EnvironmentVariables::from_entries(vec![
        b"PATH=/usr/bin\0".to_vec(),
        b"A=B=C\0".to_vec(),
    ]);
    assert_eq!(2, vars.len());
    let (k, v) = vars.get(0).unwrap();
    assert_eq!(b"PATH".to_vec(), k);
    assert_eq!(b"/usr/bin".to_vec(), v);
    let (k, v) = vars.get(1).unwrap();
    assert_eq!(b"A".to_vec(), k);
    assert_eq!(b"B=C".to_vec(), v);
    assert!(vars.get(2).is_none());
}

#[test]
fn entry_without_equals_has_empty_value() {
    let vars = EnvironmentVariables::from_entries(vec![b"TERM\0".to_vec()]);
    let (k, v) = vars.get(0).unwrap();
    assert_eq!(b"TERM".to_vec(), k);
    assert_eq!(b"".to_vec(), v);
}

#[test]
fn entry_starting_with_equals_has_empty_key() {
    let vars = EnvironmentVariables::from_entries(vec![b"=VALUE\0".to_vec()]);
    let (k, v) = vars.get(0).unwrap();
    assert_eq!(b"".to_vec(), k);
    assert_eq!(b"VALUE".to_vec(), v);
}

#[test]
fn lookup_stops_at_first_nul() {
    let vars = EnvironmentVariables::from_entries(vec![
        b"KEY\0=IGNORED\0".to_vec(),
        b"A=B\0C=D\0".to_vec(),
    ]);
    let (k, v) = vars.get(0).unwrap();
    assert_eq!(b"KEY".to_vec(), k);
    assert_eq!(b"".to_vec(), v);
    let (k, v) = vars.get(1).unwrap();
    assert_eq!(b"A".to_vec(), k);
    assert_eq!(b"B".to_vec(), v);
}

#[test]
fn iteration_yields_every_entry_in_order() {
    let vars = EnvironmentVariables::from_entries(vec![
        b"A=1\0".to_vec(),
        b"B=2\0".to_vec(),
        b"C\0".to_vec(),
        b"D=4\0".to_vec(),
    ]);

    let pairs = vars.pairs();
    assert_eq!(4, pairs.len());
    assert_eq!((b"A".to_vec(), b"1".to_vec()), pairs[0]);
    assert_eq!((b"B".to_vec(), b"2".to_vec()), pairs[1]);
    assert_eq!((b"C".to_vec(), b"".to_vec()), pairs[2]);
    assert_eq!((b"D".to_vec(), b"4".to_vec()), pairs[3]);

    let mut it = vars.iter();
    let mut seen = 0;
    while let Some((k, v)) = it.next() {
        assert_eq!(pairs[seen], (k, v));
        seen += 1;
    }
    assert_eq!(4, seen);

    // A fresh iterator restarts from the beginning.
    let mut again = vars.iter();
    assert_eq!((b"A".to_vec(), b"1".to_vec()), again.next().unwrap());
}

#[test]
fn configuration_default() {
    let c: Configuration = Default::default();
    assert_eq!(0, c.version);
    assert_eq!(0, c.default_uid);
    assert_eq!(0x7, c.flags.0);
    assert_eq!(0, c.default_environment_variables.len());
}
