use tmux_status::resolver::{collect_answered, player_info, resolve};
use tmux_status::track::{PlaybackState, PlayerError, TrackInfo};

fn track(title: &str, status: PlaybackState) -> TrackInfo {
    TrackInfo {
        title: title.to_string(),
        artist: String::new(),
        position: 0,
        duration: 0,
        status,
    }
}

#[test]
fn resolver_prefers_first_playing() {
    let c = vec![
        track("a", PlaybackState::Stopped),
        track("b", PlaybackState::Paused),
        track("c", PlaybackState::Playing),
        track("d", PlaybackState::Stopped),
    ];
    let t = resolve(c).unwrap();
    assert_eq!(t.title, "c");
    assert_eq!(t.status, PlaybackState::Playing);
}

#[test]
fn resolver_takes_first_of_several_playing() {
    let c = vec![
        track("a", PlaybackState::Playing),
        track("b", PlaybackState::Playing),
    ];
    assert_eq!(resolve(c).unwrap().title, "a");
}

#[test]
fn resolver_falls_back_to_last() {
    let c = vec![track("a", PlaybackState::Paused), track("b", PlaybackState::Stopped)];
    let t = resolve(c).unwrap();
    assert_eq!(t.title, "b");
    assert_eq!(t.status, PlaybackState::Stopped);
}

#[test]
fn resolver_empty_is_no_player() {
    assert_eq!(resolve(Vec::new()).unwrap_err(), PlayerError::NoPlayer);
}

#[test]
fn unreachable_candidate_is_skipped() {
    let replies = vec![
        Ok(track("first", PlaybackState::Paused)),
        Err(PlayerError::Unreachable),
        Ok(track("third", PlaybackState::Stopped)),
    ];
    let kept = collect_answered(replies);
    assert_eq!(kept.len(), 2);
    assert_eq!(kept[0].title, "first");
    assert_eq!(kept[1].title, "third");
}

#[test]
fn unreachable_candidate_does_not_hide_playing_one() {
    let replies = vec![
        Ok(track("first", PlaybackState::Paused)),
        Err(PlayerError::Unreachable),
        Ok(track("third", PlaybackState::Playing)),
    ];
    assert_eq!(player_info(replies).unwrap().title, "third");
}

#[test]
fn all_unreachable_is_no_player() {
    let replies = vec![Err(PlayerError::Unreachable), Err(PlayerError::Unreachable)];
    assert_eq!(player_info(replies).unwrap_err(), PlayerError::NoPlayer);
}
