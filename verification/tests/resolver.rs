use ptz_control::resolver::{capitalize_with, find_control, resolve, title};

fn names(list: &[&str]) -> Vec<String> {
    list.iter().map(|s| s.to_string()).collect()
}

#[test]
fn title_capitalizes_the_first_character() {
    assert_eq!(title("zoom"), "Zoom");
    assert_eq!(title("tilt"), "Tilt");
    assert_eq!(title("pan"), "Pan");
}

#[test]
fn title_keeps_a_capitalized_name() {
    assert_eq!(title("Zoom"), "Zoom");
    assert_eq!(title(&title("zoom")), title("zoom"));
}

#[test]
fn title_leaves_the_rest_unchanged() {
    assert_eq!(title("paN"), "PaN");
    assert_eq!(title("zOOM"), "ZOOM");
    assert_eq!(title("pan absolute"), "Pan absolute");
}

#[test]
fn title_of_the_empty_name_is_empty() {
    assert_eq!(title(""), "");
}

#[test]
fn title_of_a_single_character() {
    assert_eq!(title("z"), "Z");
    assert_eq!(title("7"), "7");
    assert_eq!(title(" "), " ");
}

#[test]
fn title_uses_the_full_uppercase_mapping() {
    assert_eq!(title("\u{e9}clair"), "\u{c9}clair");
    assert_eq!(title("\u{df}eta"), "SSeta");
    assert_eq!(title("\u{fb01}x"), "FIx");
}

#[test]
fn capitalize_with_replaces_only_the_first_character() {
    assert_eq!(capitalize_with("zoom", "Z"), "Zoom");
    assert_eq!(capitalize_with("zoom", "XY"), "XYoom");
    assert_eq!(capitalize_with("zoom", ""), "oom");
    assert_eq!(capitalize_with("", "Z"), "");
    assert_eq!(capitalize_with("\u{e9}t\u{e9}", "E"), "Et\u{e9}");
}

#[test]
fn find_control_gives_the_position_of_the_name() {
    let reported = names(&["Brightness", "Pan", "Tilt", "Zoom"]);
    assert_eq!(find_control(&reported, "Brightness"), Some(0));
    assert_eq!(find_control(&reported, "Tilt"), Some(2));
    assert_eq!(find_control(&reported, "Zoom"), Some(3));
}

#[test]
fn find_control_compares_whole_names_exactly() {
    let reported = names(&["Pan Absolute", "Zoom"]);
    assert_eq!(find_control(&reported, "Pan"), None);
    assert_eq!(find_control(&reported, "zoom"), None);
    assert_eq!(find_control(&reported, "Zoo"), None);
    assert_eq!(find_control(&reported, "Zoom "), None);
    assert_eq!(find_control(&reported, "Pan Absolute"), Some(0));
}

#[test]
fn find_control_gives_the_first_of_equal_names() {
    let reported = names(&["Pan", "Zoom", "Zoom"]);
    assert_eq!(find_control(&reported, "Zoom"), Some(1));
}

#[test]
fn find_control_among_no_names_finds_nothing() {
    assert_eq!(find_control(&Vec::new(), "Zoom"), None);
    assert_eq!(find_control(&Vec::new(), ""), None);
}

#[test]
fn resolving_zoom_matches_the_reported_zoom() {
    let reported = names(&["Pan", "Tilt", "Zoom"]);
    assert_eq!(resolve("zoom", &reported), Some(2));
    assert_eq!(resolve("Zoom", &reported), Some(2));
    assert_eq!(resolve("tilt", &reported), Some(1));
    assert_eq!(resolve("pan", &reported), Some(0));
}

#[test]
fn resolving_does_not_canonicalize_the_whole_word() {
    let reported = names(&["Pan", "Tilt", "Zoom"]);
    assert_eq!(resolve("paN", &reported), None);
    assert_eq!(resolve("ZOOM", &reported), None);
    assert_eq!(resolve("PaN", &names(&["PaN"])), Some(0));
    assert_eq!(resolve("paN", &names(&["PaN"])), Some(0));
}

#[test]
fn resolving_a_name_of_several_words_needs_the_exact_rest() {
    let reported = names(&["Pan Absolute"]);
    assert_eq!(resolve("pan absolute", &reported), None);
    assert_eq!(resolve("pan Absolute", &reported), Some(0));
}

#[test]
fn resolving_an_unreported_control_finds_nothing() {
    let reported = names(&["Brightness", "Contrast"]);
    assert_eq!(resolve("zoom", &reported), None);
    assert_eq!(resolve("", &reported), None);
}
