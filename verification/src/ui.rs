//! What the panels show, as plain values for the backend to draw.

use vstd::prelude::*;
use vstd::string::StringExecFns;
use crate::control::station_texts;
use crate::db::Playlist;
use crate::db::PlaylistEntry;
use crate::display::DataSet;
use crate::display::traces;
use crate::oscilloscope::next_frame;
use crate::player::AudioPlayer;
use crate::progress::clock_text;
use crate::progress::clock;
use crate::state::App;
use crate::text::decimal_text;
use crate::text::joined;
use crate::text::push_decimal;
use crate::text::push_signed;
use crate::text::signed_text;

verus! {

/// A rectangle of terminal cells.
#[derive(Clone, Copy, Debug, PartialEq, Eq, Structural)]
pub struct Rect {
    pub x: u16,
    pub y: u16,
    pub width: u16,
    pub height: u16,
}

/// The axis along which an area is divided.
#[derive(Clone, Copy, Debug, PartialEq, Eq, Structural)]
pub enum Direction {
    Horizontal,
    Vertical,
}

/// Whether `part` spans `area` across the direction of the division: a part
/// of a vertical stack is as wide as the area, a part of a horizontal row as
/// high.
pub open spec fn spans_across(part: Rect, area: Rect, direction: Direction) -> bool {
    match direction {
        Direction::Vertical => part.x == area.x && part.width == area.width,
        Direction::Horizontal => part.y == area.y && part.height == area.height,
    }
}

/// `Layout::split` of ratatui, for three percentages and no margin: the
/// constraint solver divides `area` along `direction`. Which sizes it
/// settles on is its own business; what is claimed is that it hands back
/// one rectangle per constraint, each spanning the area across the direction.
#[verifier::external_body]
fn split_in_three(direction: Direction, first: u16, second: u16, third: u16, area: Rect) -> (parts:
    Vec<Rect>)
    ensures
        parts@.len() == 3,
        forall|i: int| 0 <= i < 3 ==> spans_across(#[trigger] parts@[i], area, direction),
{
    let along = match direction {
        Direction::Horizontal => ratatui::layout::Direction::Horizontal,
        Direction::Vertical => ratatui::layout::Direction::Vertical,
    };
    let whole = ratatui::layout::Rect { x: area.x, y: area.y, width: area.width, height: area.height };
    let sizes = [first, second, third].map(ratatui::layout::Constraint::Percentage);
    let parts = ratatui::layout::Layout::default().direction(along).constraints(sizes).split(whole);
    parts.iter().map(|r| Rect { x: r.x, y: r.y, width: r.width, height: r.height }).collect()
}

/// The share left on each side of a centred part that takes `percent`
/// percent: half of the rest, rounded down.
pub open spec fn side_share(percent: int) -> int {
    (100 - percent) / 2
}

/// The middle of three parts.
pub fn middle_part(parts: &Vec<Rect>) -> (middle: Rect)
    requires
        parts@.len() == 3,
    ensures
        middle == parts@[1],
{
    parts[1]
}

/// The area of a popup that takes `percent_x` percent of the width of `r`
/// and `percent_y` percent of its height, with equal shares left on both
/// sides: the middle cell of the middle band that the layout solver cuts.
///
/// The solver decides the sizes; what is known of every outcome is that the
/// popup is as high as a band that is as wide as `r`.
pub fn centered_rect(percent_x: u16, percent_y: u16, r: Rect) -> (popup: Rect)
    requires
        percent_x <= 100,
        percent_y <= 100,
    ensures
        exists|band: Rect| #[trigger]
            spans_across(band, r, Direction::Vertical) && spans_across(
                popup,
                band,
                Direction::Horizontal,
            ),
{
    let side_y: u16 = (100 - percent_y) / 2;
    let rows = split_in_three(Direction::Vertical, side_y, percent_y, side_y, r);
    let band = middle_part(&rows);
    let side_x: u16 = (100 - percent_x) / 2;
    let columns = split_in_three(Direction::Horizontal, side_x, percent_x, side_x, band);
    let popup = middle_part(&columns);
    assert(spans_across(band, r, Direction::Vertical) && spans_across(
        popup,
        band,
        Direction::Horizontal,
    ));
    popup
}

/// The cell of the text cursor in the name box that fills `area`: behind
/// the `typed` bytes of the name, one cell in from the border. The count
/// wraps at 65536, as a terminal column does; the cursor is nowhere where
/// the cell lies beyond the last column or row.
pub open spec fn name_cursor_cell(area: Rect, typed: usize) -> Option<(u16, u16)> {
    if area.x + typed % 65536 + 1 <= u16::MAX && area.y + 1 <= u16::MAX {
        Some(((area.x + typed % 65536 + 1) as u16, (area.y + 1) as u16))
    } else {
        None
    }
}

/// The cell of the text cursor in the name box.
pub fn name_cursor(area: Rect, typed: usize) -> (cell: Option<(u16, u16)>)
    ensures
        cell == name_cursor_cell(area, typed),
{
    let column: u32 = area.x as u32 + (typed % 65536) as u32 + 1;
    let row: u32 = area.y as u32 + 1;
    if column <= 0xffff && row <= 0xffff {
        Some((column as u16, row as u16))
    } else {
        None
    }
}

/// The panel that fills the middle of the screen.
#[derive(Clone, Copy, Debug, PartialEq, Eq, Structural)]
pub enum Panel {
    /// The search box and its results.
    Search,
    /// The playlists and their songs.
    Playlists,
    /// The stations, the scope, the progress bar and the controls.
    Radio,
}

/// The panel of a tab: the search on the data tab, the playlists on the
/// inventory tab, the radio on every other.
pub open spec fn panel_of(tab: usize) -> Panel {
    if tab == 2 {
        Panel::Search
    } else if tab == 1 {
        Panel::Playlists
    } else {
        Panel::Radio
    }
}

/// The panel that a tab shows.
pub fn panel_for(tab: usize) -> (panel: Panel)
    ensures
        panel == panel_of(tab),
{
    if tab == 2 {
        Panel::Search
    } else if tab == 1 {
        Panel::Playlists
    } else {
        Panel::Radio
    }
}

/// The titles of the tabs.
pub open spec fn tab_titles() -> Seq<Seq<char>> {
    seq!["STAT"@, "INV"@, "DATA"@, "MAP"@, "RADIO"@]
}

/// The tabs of the header: each title, and whether it is the current tab.
pub fn header_tabs(current_tab: usize) -> (tabs: Vec<(String, bool)>)
    ensures
        tabs@.len() == 5,
        forall|i: int| 0 <= i < 5 ==> (#[trigger] tabs@[i]).0@ == tab_titles()[i] && tabs@[i].1 == (i
            == current_tab),
{
    let mut tabs: Vec<(String, bool)> = Vec::new();
    tabs.push((String::from_str("STAT"), current_tab == 0));
    tabs.push((String::from_str("INV"), current_tab == 1));
    tabs.push((String::from_str("DATA"), current_tab == 2));
    tabs.push((String::from_str("MAP"), current_tab == 3));
    tabs.push((String::from_str("RADIO"), current_tab == 4));
    tabs
}

/// The fill of the progress bar in thousandths: the share of the track
/// that has played, and full where more than all of it has; empty for a
/// track without length.
pub open spec fn progress_share(elapsed: u64, total: u64) -> int {
    if total == 0 {
        0
    } else if elapsed >= total {
        1000
    } else {
        elapsed * 1000 / (total as int)
    }
}

/// The fill of the progress bar, in thousandths; never more than 1000.
pub fn progress_ratio(elapsed: u64, total: u64) -> (share: u32)
    ensures
        share == progress_share(elapsed, total),
        share <= 1000,
{
    if total == 0 {
        0
    } else if elapsed >= total {
        1000
    } else {
        let share: u128 = (elapsed as u128) * 1000 / (total as u128);
        proof {
            vstd::arithmetic::div_mod::lemma_multiply_divide_lt(
                elapsed * 1000,
                total as int,
                1000,
            );
        }
        share as u32
    }
}

/// The label of the progress bar: the time played and the length of the
/// track, both as `mm:ss` of whole seconds; zeros where no track is loaded.
pub open spec fn progress_text(elapsed: u64, total: Option<u64>) -> Seq<char> {
    match total {
        Some(length) => clock_text((elapsed / 1_000_000) as nat) + " / "@ + clock_text(
            (length / 1_000_000) as nat,
        ),
        None => "00:00 / 00:00"@,
    }
}

/// The label of the progress bar, from times in microseconds.
pub fn progress_label(elapsed: u64, total: Option<u64>) -> (label: String)
    ensures
        label@ == progress_text(elapsed, total),
{
    match total {
        Some(length) => {
            let mut label = clock(elapsed / 1_000_000);
            label.append(" / ");
            let end = clock(length / 1_000_000);
            label.append(end.as_str());
            label
        },
        None => String::from_str("00:00 / 00:00"),
    }
}

/// The lines of the scope controls: a warning first while a track streams
/// without samples for the scope, then the keys, the last with the volume
/// in percent.
pub open spec fn control_texts(streaming: bool, volume: u32) -> Seq<Seq<char>> {
    let keys = seq![
        "   [Shift+Arrows] ZOOM/WIDTH"@,
        "   [S] SCATTER  [T] TRIGGER"@,
        "   [Space] PAUSE  [+/-] VOL: "@ + decimal_text((volume / 10) as nat) + "%"@,
    ];
    if streaming {
        seq!["   [!] OPTIMIZED MODE (NO SCOPE)"@] + keys
    } else {
        keys
    }
}

/// The lines of the scope controls.
pub fn control_lines(player: &AudioPlayer) -> (lines: Vec<String>)
    ensures
        station_texts(lines@) == control_texts(player.is_streaming_mode, player.volume),
{
    let mut lines: Vec<String> = Vec::new();
    if player.is_streaming_mode {
        lines.push(String::from_str("   [!] OPTIMIZED MODE (NO SCOPE)"));
    }
    lines.push(String::from_str("   [Shift+Arrows] ZOOM/WIDTH"));
    lines.push(String::from_str("   [S] SCATTER  [T] TRIGGER"));
    let mut volume = String::from_str("   [Space] PAUSE  [+/-] VOL: ");
    push_decimal(&mut volume, (player.volume / 10) as u64);
    volume.append("%");
    lines.push(volume);
    lines
}

/// The error that the footer shows, if the player has one.
pub fn footer_error(player: &AudioPlayer) -> (text: Option<String>)
    ensures
        match player.error_message {
            Some(message) => text is Some && text->Some_0@ == "  ERROR: "@ + message@,
            None => text is None,
        },
{
    match &player.error_message {
        Some(message) => Some(joined("  ERROR: ", message.as_str())),
        None => None,
    }
}

/// The status line under the search box, if there is a status.
pub fn status_line(status: &Option<String>) -> (text: Option<String>)
    ensures
        match *status {
            Some(message) => text is Some && text->Some_0@ == "[STATUS]: "@ + message@,
            None => text is None,
        },
{
    match status {
        Some(message) => Some(joined("[STATUS]: ", message.as_str())),
        None => None,
    }
}

/// The rows of the playlist list: each name after `> `.
pub fn playlist_rows(playlists: &Vec<Playlist>) -> (rows: Vec<String>)
    ensures
        rows@.len() == playlists@.len(),
        forall|i: int| 0 <= i < rows@.len() ==> (#[trigger] rows@[i])@ == "> "@ + playlists@[i].name@,
{
    let mut rows: Vec<String> = Vec::new();
    let mut i: usize = 0;
    while i < playlists.len()
        invariant
            i <= playlists@.len(),
            rows@.len() == i,
            forall|k: int| 0 <= k < i ==> (#[trigger] rows@[k])@ == "> "@ + playlists@[k].name@,
        decreases playlists@.len() - i,
    {
        rows.push(joined("> ", playlists[i].name.as_str()));
        i += 1;
    }
    rows
}

/// The row of a song: its position, a dot, and its title.
pub open spec fn song_text(song: PlaylistEntry) -> Seq<char> {
    signed_text(song.position as int) + ". "@ + song.title@
}

/// The rows of the song list.
pub fn song_rows(songs: &Vec<PlaylistEntry>) -> (rows: Vec<String>)
    ensures
        rows@.len() == songs@.len(),
        forall|i: int| 0 <= i < rows@.len() ==> (#[trigger] rows@[i])@ == song_text(songs@[i]),
{
    let mut rows: Vec<String> = Vec::new();
    let mut i: usize = 0;
    while i < songs.len()
        invariant
            i <= songs@.len(),
            rows@.len() == i,
            forall|k: int| 0 <= k < i ==> (#[trigger] rows@[k])@ == song_text(songs@[k]),
        decreases songs@.len() - i,
    {
        let mut row = String::new();
        push_signed(&mut row, songs[i].position as i64);
        row.append(". ");
        row.append(songs[i].title.as_str());
        rows.push(row);
        i += 1;
    }
    rows
}

/// The name of the first playlist with this id, if there is one.
pub open spec fn playlist_named(playlists: Seq<Playlist>, id: i64) -> Option<Seq<char>>
    decreases playlists.len(),
{
    if playlists.len() == 0 {
        None
    } else if playlists[0].id == id {
        Some(playlists[0].name@)
    } else {
        playlist_named(playlists.drop_first(), id)
    }
}

/// The title of the song list: it names the playlist in view, and is plain
/// where none is in view or the one in view is not among the playlists.
pub open spec fn songs_title_text(playlists: Seq<Playlist>, viewing: Option<i64>) -> Seq<char> {
    match viewing {
        Some(id) => match playlist_named(playlists, id) {
            Some(name) => " Songs in '"@ + name + "' (Enter to play) "@,
            None => " Songs "@,
        },
        None => " Songs "@,
    }
}

/// The title of the song list.
pub fn songs_title(playlists: &Vec<Playlist>, viewing: Option<i64>) -> (title: String)
    ensures
        title@ == songs_title_text(playlists@, viewing),
{
    match viewing {
        Some(id) => {
            let mut i: usize = 0;
            assert(playlists@.skip(0) =~= playlists@);
            while i < playlists.len()
                invariant
                    i <= playlists@.len(),
                    viewing == Some(id),
                    playlist_named(playlists@, id) == playlist_named(playlists@.skip(i as int), id),
                decreases playlists@.len() - i,
            {
                if playlists[i].id == id {
                    let mut title = joined(" Songs in '", playlists[i].name.as_str());
                    title.append("' (Enter to play) ");
                    return title;
                }
                assert(playlists@.skip(i as int).drop_first() =~= playlists@.skip(i + 1));
                i += 1;
            }
            String::from_str(" Songs ")
        },
        None => String::from_str(" Songs "),
    }
}

impl App {
    /// The frame of the scope at time `now`: the window under the playhead,
    /// `samples` long, through the oscilloscope.
    pub fn scope_frame(&mut self, now: u64) -> (frame: Vec<DataSet>)
        requires
            old(self).player.well_formed(),
        ensures
            traces(frame@) == next_frame(
                old(self).oscilloscope.frame(),
                old(self).graph_config,
                old(self).player.window(old(self).graph_config.samples as int, now),
                old(self).oscilloscope.vectorscope,
            ),
            final(self).oscilloscope.frame() == traces(frame@),
            final(self).oscilloscope.vectorscope == old(self).oscilloscope.vectorscope,
            *final(self) == (App { oscilloscope: final(self).oscilloscope, ..*old(self) }),
    {
        let window_size: usize = self.graph_config.samples as usize;
        let data = self.player.get_window(window_size, now);
        self.oscilloscope.process(&self.graph_config, &data)
    }
}

} // verus!
