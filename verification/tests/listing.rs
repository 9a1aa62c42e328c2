use ptz_control::listing::{camera_label, list_cameras, CameraEntry};

fn entry(name: &str, description: &str) -> CameraEntry {
    CameraEntry { name: name.to_string(), description: description.to_string() }
}

#[test]
fn a_label_joins_name_and_description() {
    assert_eq!(camera_label("HD Webcam", "USB Video Device"), "HD Webcam: USB Video Device");
}

#[test]
fn a_label_keeps_empty_parts() {
    assert_eq!(camera_label("", ""), ": ");
    assert_eq!(camera_label("Cam", ""), "Cam: ");
    assert_eq!(camera_label("", "built-in"), ": built-in");
}

#[test]
fn a_label_keeps_colons_and_other_characters() {
    assert_eq!(camera_label("a: b", "c: d"), "a: b: c: d");
    assert_eq!(camera_label("Cam\u{e9}ra", "\u{2713}"), "Cam\u{e9}ra: \u{2713}");
}

#[test]
fn cameras_are_listed_in_the_order_of_enumeration() {
    let cameras = vec![entry("B", "second"), entry("A", "first"), entry("B", "second")];
    assert_eq!(
        list_cameras(&cameras),
        vec!["B: second".to_string(), "A: first".to_string(), "B: second".to_string()]
    );
}

#[test]
fn no_cameras_give_no_labels() {
    assert_eq!(list_cameras(&Vec::new()), Vec::<String>::new());
}
