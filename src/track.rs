//! The normalized track record that every player source produces, and the
//! field-by-field extraction from each source's raw values.

use vstd::prelude::*;
use vstd::string::*;

verus! {

/// Transport state of a player.
#[derive(Clone, Copy, Debug, PartialEq, Eq, Structural)]
pub enum PlaybackState {
    Playing,
    Paused,
    Stopped,
}

/// What is playing right now, independent of the source that reported it.
#[derive(Debug, Clone)]
pub struct TrackInfo {
    pub title: String,
    pub artist: String,
    /// Elapsed whole seconds.
    pub position: u64,
    /// Total whole seconds; 0 when the source reports no length.
    pub duration: u64,
    pub status: PlaybackState,
}

/// Why no track could be obtained.
#[derive(Clone, Copy, Debug, PartialEq, Eq, Structural)]
pub enum PlayerError {
    /// One player did not answer in time.
    Unreachable,
    /// No player at all to choose from.
    NoPlayer,
}

/// The state named by a generic player's status text.
pub open spec fn state_of_text(s: Seq<char>) -> PlaybackState {
    if s == "Playing"@ {
        PlaybackState::Playing
    } else if s == "Paused"@ {
        PlaybackState::Paused
    } else {
        PlaybackState::Stopped
    }
}

/// Whole seconds in a count of microseconds, truncated toward zero; a
/// negative count reads as zero.
pub open spec fn seconds_of_micros(us: int) -> nat {
    if us <= 0 {
        0
    } else {
        (us / 1_000_000) as nat
    }
}

/// The text of an optional field, empty when absent.
pub open spec fn text_or_empty(s: Option<String>) -> Seq<char> {
    match s {
        Some(v) => v@,
        None => Seq::empty(),
    }
}

/// Maps the status text of a generic player: `Playing`, `Paused`, and
/// anything else to `Stopped`.
pub fn status_from_text(s: &str) -> (r: PlaybackState)
    ensures
        r == state_of_text(s@),
{
    let t = s.to_owned();
    if t == String::from_str("Playing") {
        PlaybackState::Playing
    } else if t == String::from_str("Paused") {
        PlaybackState::Paused
    } else {
        PlaybackState::Stopped
    }
}

/// Converts microseconds to whole seconds, truncating toward zero.
pub fn seconds_from_micros(us: i64) -> (r: u64)
    ensures
        r as nat == seconds_of_micros(us as int),
{
    if us <= 0 {
        0
    } else {
        (us / 1_000_000) as u64
    }
}

fn string_or_empty(s: Option<String>) -> (r: String)
    ensures
        r@ == text_or_empty(s),
{
    match s {
        Some(v) => v,
        None => String::new(),
    }
}

/// Builds the record of a generic media-control player from the values read
/// off its bus interface; an absent metadata field counts as empty or zero.
pub fn track_from_mpris(
    title: Option<String>,
    first_artist: Option<String>,
    length_us: Option<i64>,
    position_us: i64,
    status_text: &str,
) -> (r: TrackInfo)
    ensures
        r.title@ == text_or_empty(title),
        r.artist@ == text_or_empty(first_artist),
        r.duration as nat == match length_us {
            Some(l) => seconds_of_micros(l as int),
            None => 0,
        },
        r.position as nat == seconds_of_micros(position_us as int),
        r.status == state_of_text(status_text@),
{
    let duration = match length_us {
        Some(l) => seconds_from_micros(l),
        None => 0,
    };
    TrackInfo {
        title: string_or_empty(title),
        artist: string_or_empty(first_artist),
        position: seconds_from_micros(position_us),
        duration,
        status: status_from_text(status_text),
    }
}

/// Index of the first tag whose key is `Artist`, or the length when none is.
pub open spec fn artist_tag_index(tags: Seq<(String, String)>, i: int) -> int
    decreases tags.len() - i,
{
    if i >= tags.len() || i < 0 {
        tags.len() as int
    } else if tags[i].0@ == "Artist"@ {
        i
    } else {
        artist_tag_index(tags, i + 1)
    }
}

/// The value of the first `Artist` tag, empty when there is none.
pub open spec fn artist_of_tags(tags: Seq<(String, String)>) -> Seq<char> {
    let i = artist_tag_index(tags, 0);
    if i < tags.len() {
        tags[i].1@
    } else {
        Seq::empty()
    }
}

/// Looks up the artist among a music daemon's song tags.
pub fn artist_from_tags(tags: &Vec<(String, String)>) -> (r: String)
    ensures
        r@ == artist_of_tags(tags@),
{
    let key = String::from_str("Artist");
    let mut i: usize = 0;
    while i < tags.len()
        invariant
            0 <= i <= tags.len(),
            key@ == "Artist"@,
            artist_tag_index(tags@, 0) == artist_tag_index(tags@, i as int),
        decreases tags.len() - i,
    {
        if tags[i].0 == key {
            return tags[i].1.clone();
        }
        i += 1;
    }
    String::new()
}

/// Builds the record of the music daemon's current song: the title falls back
/// to the song's name, the artist comes from its tags, and the time pair
/// defaults to zero when the daemon reports none.
pub fn track_from_mpd(
    title: Option<String>,
    name: Option<String>,
    tags: &Vec<(String, String)>,
    state: PlaybackState,
    time: Option<(u64, u64)>,
) -> (r: TrackInfo)
    ensures
        r.title@ == match title {
            Some(t) => t@,
            None => text_or_empty(name),
        },
        r.artist@ == artist_of_tags(tags@),
        r.position == match time {
            Some(p) => p.0,
            None => 0,
        },
        r.duration == match time {
            Some(p) => p.1,
            None => 0,
        },
        r.status == state,
{
    let title = match title {
        Some(t) => t,
        None => string_or_empty(name),
    };
    let (position, duration) = match time {
        Some(p) => p,
        None => (0, 0),
    };
    TrackInfo { title, artist: artist_from_tags(tags), position, duration, status: state }
}

/// Whether `p` occurs in `s` starting at character `i`.
pub open spec fn occurs_at(s: Seq<char>, p: Seq<char>, i: int) -> bool {
    0 <= i && i + p.len() <= s.len() && s.subrange(i, i + p.len()) == p
}

/// Whether `p` occurs anywhere in `s`.
pub open spec fn contains_text(s: Seq<char>, p: Seq<char>) -> bool {
    exists|i: int| occurs_at(s, p, i)
}

/// Whether a bus name belongs to the generic media-player namespace.
pub open spec fn is_player_name(n: String) -> bool {
    contains_text(n@, "org.mpris.MediaPlayer2"@)
}

/// Searches `s` for `p`.
pub fn has_text(s: &str, p: &str) -> (r: bool)
    ensures
        r == contains_text(s@, p@),
{
    let n = s.unicode_len();
    let m = p.unicode_len();
    if m > n {
        assert forall|j: int| !occurs_at(s@, p@, j) by {}
        return false;
    }
    let mut i: usize = 0;
    while i <= n - m
        invariant
            n == s@.len(),
            m == p@.len(),
            m <= n,
            0 <= i <= n - m + 1,
            forall|j: int| 0 <= j < i ==> !occurs_at(s@, p@, j),
        decreases n - m + 1 - i,
    {
        let mut k: usize = 0;
        let mut same = true;
        while k < m && same
            invariant
                n == s@.len(),
                m == p@.len(),
                i + m <= n,
                0 <= k <= m,
                same ==> forall|l: int| 0 <= l < k ==> s@[i + l] == p@[l],
                !same ==> k > 0 && s@[i + k - 1] != p@[k - 1],
            decreases m - k + (if same { 1int } else { 0int }),
        {
            if s.get_char(i + k) != p.get_char(k) {
                same = false;
            }
            k += 1;
        }
        if same {
            assert(s@.subrange(i as int, i + m) =~= p@);
            assert(occurs_at(s@, p@, i as int));
            return true;
        }
        assert(s@.subrange(i as int, i + m)[k - 1] != p@[k - 1]);
        i += 1;
    }
    assert forall|j: int| !occurs_at(s@, p@, j) by {}
    false
}

/// Keeps the bus names of the generic media-player namespace, in order.
pub fn player_names(names: Vec<String>) -> (r: Vec<String>)
    ensures
        r@ == names@.filter(|n: String| is_player_name(n)),
{
    let mut out: Vec<String> = Vec::new();
    let mut i: usize = 0;
    while i < names.len()
        invariant
            0 <= i <= names@.len(),
            out@ == names@.subrange(0, i as int).filter(|n: String| is_player_name(n)),
        decreases names.len() - i,
    {
        let name = names[i].clone();
        let keep = has_text(name.as_str(), "org.mpris.MediaPlayer2");
        proof {
            let pre = names@.subrange(0, i as int + 1);
            assert(pre.drop_last() =~= names@.subrange(0, i as int));
            assert(pre.last() == name);
            reveal(Seq::filter);
        }
        if keep {
            out.push(name);
        }
        i += 1;
    }
    assert(names@.subrange(0, names@.len() as int) =~= names@);
    out
}

} // verus!
