//! The decorated media-player line.

use vstd::prelude::*;
use vstd::string::*;
use crate::layout::{fitted, layout_default, separator_of, title_budget, FIELD_BUDGET, SHIFT_TOLERANCE};
use crate::resolver::{answered, chosen_index, player_info};
use crate::time_code::{format_time, time_code};
use crate::track::{PlaybackState, PlayerError, TrackInfo};

verus! {

/// The color-start token for a terminal color index given as text.
pub open spec fn color_token(code: Seq<char>) -> Seq<char> {
    "#[fg=colour"@ + code + "]"@
}

/// Wraps a color code in the multiplexer's foreground-color token.
pub fn colorize(color: String) -> (r: String)
    ensures
        r@ == color_token(color@),
{
    let mut out = String::from_str("#[fg=colour");
    out.append(color.as_str());
    out.append("]");
    out
}

/// Color tokens for each decorated field.
pub struct Palette {
    pub color_low: String,
    pub color_mid: String,
    pub color_high: String,
    pub color_track_name: String,
    pub color_track_artist: String,
    pub color_track_time: String,
    pub color_end: String,
}

impl Palette {
    /// A palette from the color codes of each field.
    pub fn from_codes(
        low: String,
        mid: String,
        high: String,
        track_name: String,
        track_artist: String,
        track_time: String,
        end: String,
    ) -> (r: Palette)
        ensures
            r.color_low@ == color_token(low@),
            r.color_mid@ == color_token(mid@),
            r.color_high@ == color_token(high@),
            r.color_track_name@ == color_token(track_name@),
            r.color_track_artist@ == color_token(track_artist@),
            r.color_track_time@ == color_token(track_time@),
            r.color_end@ == color_token(end@),
    {
        Palette {
            color_low: colorize(low),
            color_mid: colorize(mid),
            color_high: colorize(high),
            color_track_name: colorize(track_name),
            color_track_artist: colorize(track_artist),
            color_track_time: colorize(track_time),
            color_end: colorize(end),
        }
    }

    /// The default palette: low 119, mid 220, high 197, track name 46,
    /// artist 46, time 153, end 153.
    pub fn defaults() -> (r: Palette)
        ensures
            r.color_low@ == color_token("119"@),
            r.color_mid@ == color_token("220"@),
            r.color_high@ == color_token("197"@),
            r.color_track_name@ == color_token("46"@),
            r.color_track_artist@ == color_token("46"@),
            r.color_track_time@ == color_token("153"@),
            r.color_end@ == color_token("153"@),
    {
        Palette::from_codes(
            String::from_str("119"),
            String::from_str("220"),
            String::from_str("197"),
            String::from_str("46"),
            String::from_str("46"),
            String::from_str("153"),
            String::from_str("153"),
        )
    }
}

/// The glyph shown for a transport state.
pub open spec fn glyph_of(s: PlaybackState) -> Seq<char> {
    match s {
        PlaybackState::Playing => "▶"@,
        PlaybackState::Paused => "⏸"@,
        PlaybackState::Stopped => "⏹"@,
    }
}

/// Returns the glyph of a transport state.
pub fn status_glyph(s: PlaybackState) -> (r: &'static str)
    ensures
        r@ == glyph_of(s),
{
    match s {
        PlaybackState::Playing => "▶",
        PlaybackState::Paused => "⏸",
        PlaybackState::Stopped => "⏹",
    }
}

/// Whether the line leaves out the time group: the position reads `00:00`
/// or the length is unknown.
pub open spec fn is_short_form(t: TrackInfo) -> bool {
    time_code(t.position as nat) == "00:00"@ || t.duration == 0
}

/// The decorated line of a track.
pub open spec fn rendered(t: TrackInfo, p: Palette) -> Seq<char> {
    let title = fitted(t.title@, title_budget(t.artist@, FIELD_BUDGET as nat), SHIFT_TOLERANCE as nat);
    let artist = fitted(t.artist@, FIELD_BUDGET as nat, SHIFT_TOLERANCE as nat);
    let head = "#[bold]"@ + p.color_track_name@ + title + p.color_end@ + separator_of(t.artist@)
        + p.color_track_artist@ + artist + " "@ + p.color_end@ + p.color_track_time@;
    if is_short_form(t) {
        head + " "@ + glyph_of(t.status) + "#[default]"@
    } else {
        head + "["@ + time_code(t.position as nat) + "/"@ + time_code(t.duration as nat) + "] "@
            + glyph_of(t.status) + p.color_end@ + "#[default]"@
    }
}

/// Renders a track as one decorated status line: title, separator, artist,
/// then `[position/duration]` unless the short form applies, then the glyph.
pub fn format_player(track: &TrackInfo, palette: &Palette) -> (r: String)
    ensures
        r@ == rendered(*track, *palette),
{
    let fields = layout_default(track.title.as_str(), track.artist.as_str());
    let mut out = String::from_str("#[bold]");
    out.append(palette.color_track_name.as_str());
    out.append(fields.title.as_str());
    out.append(palette.color_end.as_str());
    out.append(fields.separator.as_str());
    out.append(palette.color_track_artist.as_str());
    out.append(fields.artist.as_str());
    out.append(" ");
    out.append(palette.color_end.as_str());
    out.append(palette.color_track_time.as_str());
    let position = format_time(track.position);
    if position == String::from_str("00:00") || track.duration == 0 {
        out.append(" ");
        out.append(status_glyph(track.status));
        out.append("#[default]");
    } else {
        let duration = format_time(track.duration);
        out.append("[");
        out.append(position.as_str());
        out.append("/");
        out.append(duration.as_str());
        out.append("] ");
        out.append(status_glyph(track.status));
        out.append(palette.color_end.as_str());
        out.append("#[default]");
    }
    out
}

/// The message shown when no player can be displayed.
pub open spec fn no_music_text() -> Seq<char> {
    "No music playing"@
}

/// The line of the media-control players: the chosen candidate among those
/// that answered, or `No music playing` when none did.
pub fn mpris_line(replies: Vec<Result<TrackInfo, PlayerError>>, palette: &Palette) -> (r: String)
    ensures
        answered(replies@).len() == 0 ==> r@ == no_music_text(),
        answered(replies@).len() > 0 ==> r@ == rendered(
            answered(replies@)[chosen_index(answered(replies@))],
            *palette,
        ),
{
    match player_info(replies) {
        Ok(track) => format_player(&track, palette),
        Err(_) => String::from_str("No music playing"),
    }
}

} // verus!
