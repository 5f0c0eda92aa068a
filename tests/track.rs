use tmux_status::track::{
    artist_from_tags, has_text, player_names, seconds_from_micros, status_from_text, track_from_mpd, track_from_mpris,
    PlaybackState,
};

#[test]
fn status_text_mapping() {
    assert_eq!(status_from_text("Playing"), PlaybackState::Playing);
    assert_eq!(status_from_text("Paused"), PlaybackState::Paused);
    assert_eq!(status_from_text("Stopped"), PlaybackState::Stopped);
    assert_eq!(status_from_text("playing"), PlaybackState::Stopped);
    assert_eq!(status_from_text(""), PlaybackState::Stopped);
}

#[test]
fn micros_truncate_toward_zero() {
    assert_eq!(seconds_from_micros(0), 0);
    assert_eq!(seconds_from_micros(999_999), 0);
    assert_eq!(seconds_from_micros(1_000_000), 1);
    assert_eq!(seconds_from_micros(185_999_999), 185);
    assert_eq!(seconds_from_micros(-5_000_000), 0);
}

#[test]
fn mpris_missing_fields_default() {
    let t = track_from_mpris(None, None, None, 3_500_000, "Paused");
    assert_eq!(t.title, "");
    assert_eq!(t.artist, "");
    assert_eq!(t.duration, 0);
    assert_eq!(t.position, 3);
    assert_eq!(t.status, PlaybackState::Paused);
}

#[test]
fn mpd_title_falls_back_to_name() {
    let tags = vec![
        ("Album".to_string(), "X".to_string()),
        ("Artist".to_string(), "Band".to_string()),
        ("Artist".to_string(), "Other".to_string()),
    ];
    let t = track_from_mpd(
        None,
        Some("Radio".to_string()),
        &tags,
        PlaybackState::Playing,
        Some((42, 300)),
    );
    assert_eq!(t.title, "Radio");
    assert_eq!(t.artist, "Band");
    assert_eq!(t.position, 42);
    assert_eq!(t.duration, 300);
    assert_eq!(t.status, PlaybackState::Playing);
    let u = track_from_mpd(Some("Song".to_string()), Some("Radio".to_string()), &tags, PlaybackState::Paused, None);
    assert_eq!(u.title, "Song");
    assert_eq!(u.position, 0);
}

#[test]
fn artist_tag_absent_is_empty() {
    let tags = vec![("Album".to_string(), "X".to_string())];
    assert_eq!(artist_from_tags(&tags), "");
}

#[test]
fn player_names_keep_namespace_in_order() {
    let names = vec![
        "org.freedesktop.DBus".to_string(),
        "org.mpris.MediaPlayer2.spotify".to_string(),
        ":1.42".to_string(),
        "org.mpris.MediaPlayer2.vlc".to_string(),
        "org.mpris.MediaPlayer".to_string(),
    ];
    assert_eq!(
        player_names(names),
        vec!["org.mpris.MediaPlayer2.spotify".to_string(), "org.mpris.MediaPlayer2.vlc".to_string()]
    );
    assert!(player_names(Vec::new()).is_empty());
}

#[test]
fn substring_search() {
    assert!(has_text("abcabd", "abd"));
    assert!(has_text("abc", ""));
    assert!(has_text("", ""));
    assert!(!has_text("ab", "abc"));
    assert!(!has_text("abcab", "abd"));
    assert!(has_text("héllo", "él"));
}
