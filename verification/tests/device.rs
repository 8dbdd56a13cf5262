use audio_playback::device::select_device;

fn names(list: &[&str]) -> Vec<String> {
    list.iter().map(|name| name.to_string()).collect()
}

#[test]
fn finds_the_only_device() {
    assert_eq!(select_device(&names(&["Speakers"]), "Speakers"), Some(0));
}

#[test]
fn finds_a_device_in_the_middle() {
    let devices = names(&["HDMI", "Speakers", "Headphones"]);
    assert_eq!(select_device(&devices, "Speakers"), Some(1));
    assert_eq!(select_device(&devices, "Headphones"), Some(2));
    assert_eq!(select_device(&devices, "HDMI"), Some(0));
}

#[test]
fn takes_the_first_of_equal_names() {
    let devices = names(&["Line", "USB Audio", "USB Audio", "USB Audio"]);
    assert_eq!(select_device(&devices, "USB Audio"), Some(1));
}

#[test]
fn finds_nothing_among_no_devices() {
    assert_eq!(select_device(&names(&[]), "Speakers"), None);
}

#[test]
fn finds_nothing_for_an_unknown_name() {
    let devices = names(&["HDMI", "Speakers"]);
    assert_eq!(select_device(&devices, "NonexistentDevice"), None);
}

#[test]
fn match_is_case_sensitive() {
    let devices = names(&["speakers", "SPEAKERS"]);
    assert_eq!(select_device(&devices, "Speakers"), None);
    assert_eq!(select_device(&devices, "SPEAKERS"), Some(1));
}

#[test]
fn match_is_exact_not_by_prefix_or_padding() {
    let devices = names(&["Speakers (Realtek)", " Speakers", "Speakers ", "Speaker"]);
    assert_eq!(select_device(&devices, "Speakers"), None);
    assert_eq!(select_device(&devices, "Speakers "), Some(2));
}

#[test]
fn match_does_not_fold_unicode() {
    let devices = names(&["Haut-parleurs\u{00e9}", "Haut-parleurse\u{0301}"]);
    assert_eq!(select_device(&devices, "Haut-parleurse\u{0301}"), Some(1));
    assert_eq!(select_device(&devices, "Haut-parleurs\u{00e9}"), Some(0));
}

#[test]
fn empty_name_matches_only_an_empty_name() {
    assert_eq!(select_device(&names(&["Speakers"]), ""), None);
    assert_eq!(select_device(&names(&["Speakers", ""]), ""), Some(1));
}
