use tmux_status::layout::{fit_field, layout, layout_default, shorten};

#[test]
fn empty_artist_donates_budget_to_title() {
    let title = "T".repeat(60);
    let l = layout(&title, "", 30, 6);
    assert_eq!(l.separator, "");
    assert_eq!(l.title, title);
    assert_eq!(l.artist, "");
}

#[test]
fn empty_artist_title_cut_at_combined_budget() {
    let title = "T".repeat(70);
    let l = layout(&title, "", 30, 6);
    assert_eq!(l.title, format!("{}..", "T".repeat(60)));
}

#[test]
fn long_artist_is_cut_title_intact() {
    let artist = "A".repeat(40);
    let title = "T".repeat(10);
    let l = layout(&title, &artist, 30, 6);
    assert_eq!(l.artist, format!("{}..", "A".repeat(30)));
    assert_eq!(l.title, title);
    assert_eq!(l.separator, " — ");
}

#[test]
fn field_within_tolerance_is_kept() {
    let s = "x".repeat(36);
    assert_eq!(fit_field(&s, 30, 6), s);
    let t = "x".repeat(37);
    assert_eq!(fit_field(&t, 30, 6), format!("{}..", "x".repeat(30)));
}

#[test]
fn short_strings_unchanged() {
    let l = layout_default("Song", "Band");
    assert_eq!(l.title, "Song");
    assert_eq!(l.artist, "Band");
    assert!(!l.title.ends_with(".."));
    assert!(!l.artist.ends_with(".."));
    let again = layout_default(&l.title, &l.artist);
    assert_eq!(again.title, l.title);
    assert_eq!(again.artist, l.artist);
}

#[test]
fn fitting_twice_changes_nothing_more() {
    let s = "y".repeat(50);
    let once = fit_field(&s, 30, 6);
    assert_eq!(fit_field(&once, 30, 6), once);
}

#[test]
fn shorten_checks_bytes_not_characters() {
    // Ten characters of two bytes each: twenty bytes exceed a limit of 15.
    let s = "é".repeat(10);
    assert_eq!(shorten(&s, 15), format!("{}..", s));
    assert_eq!(shorten(&s, 5), format!("{}..", "é".repeat(5)));
    assert_eq!(shorten(&s, 20), s);
    assert_eq!(shorten("abc", 3), "abc");
    assert_eq!(shorten("abcd", 3), "abc..");
    assert_eq!(shorten("", 0), "");
}

#[test]
fn non_ascii_field_within_tolerance_is_marked() {
    let s = "ü".repeat(34);
    assert_eq!(fit_field(&s, 30, 6), format!("{}..", s));
}

#[test]
fn non_ascii_title_under_budget_is_marked() {
    let title = "é".repeat(10);
    let l = layout(&title, "Band", 30, 6);
    assert_eq!(l.title, format!("{}..", title));
    assert_eq!(l.artist, "Band");
}

#[test]
fn ascii_field_within_tolerance_is_kept() {
    let s = "u".repeat(34);
    assert_eq!(fit_field(&s, 30, 6), s);
}
