use ptz_control::catalog::{Controls, Options};

#[test]
fn defaults_have_the_documented_values() {
    let c = ptz_control::catalog::default();
    assert_eq!(c.zoom, Options { min: 100, val: 100, max: 500 });
    assert_eq!(c.tilt, Options { min: -10, val: 0, max: 10 });
    assert_eq!(c.pan, Options { min: -10, val: 0, max: 10 });
}

#[test]
fn every_default_lies_within_its_range() {
    let c = ptz_control::catalog::default();
    for o in [c.zoom, c.tilt, c.pan] {
        assert!(o.min <= o.val);
        assert!(o.val <= o.max);
    }
}

#[test]
fn defaults_are_the_same_on_every_call() {
    let first = ptz_control::catalog::default();
    let second = ptz_control::catalog::default();
    let third = ptz_control::catalog::default();
    assert_eq!(first, second);
    assert_eq!(second, third);
}

#[test]
fn entries_list_the_controls_by_name() {
    let c = ptz_control::catalog::default();
    let entries = c.entries();
    assert_eq!(entries.len(), 3);
    assert_eq!(entries[0], ("pan".to_string(), c.pan));
    assert_eq!(entries[1], ("tilt".to_string(), c.tilt));
    assert_eq!(entries[2], ("zoom".to_string(), c.zoom));
}

#[test]
fn entries_follow_the_catalog_they_are_taken_from() {
    let c = Controls {
        zoom: Options { min: 1, val: 2, max: 3 },
        tilt: Options { min: -4, val: -3, max: -2 },
        pan: Options { min: 0, val: 0, max: 0 },
    };
    let entries = c.entries();
    assert_eq!(entries[0].1, Options { min: 0, val: 0, max: 0 });
    assert_eq!(entries[1].1, Options { min: -4, val: -3, max: -2 });
    assert_eq!(entries[2].1, Options { min: 1, val: 2, max: 3 });
}
