//! The state of the interface and its transitions.

use vstd::prelude::*;
use vstd::string::StrSliceExecFns;
use crate::db::Playlist;
use crate::db::PlaylistEntry;
use crate::display::GraphConfig;
use crate::oscilloscope::Oscilloscope;
use crate::player::AudioPlayer;
use crate::text::insert_char;
use crate::text::remove_char;

verus! {

/// What the keyboard is driving.
#[derive(Clone, Copy, Debug, PartialEq, Eq, Structural)]
pub enum InputMode {
    Normal,
    Editing,
    SearchResults,
    PlaylistNameInput,
    PlaylistNavigation,
}

/// What a background task reports to the interface.
#[derive(Clone, Debug)]
pub enum AppEvent {
    /// A download finished; the path of the file.
    AudioLoaded(String),
    AudioError(String),
    /// A search finished; titles and addresses.
    SearchFinished(Vec<(String, String)>),
    SearchError(String),
}

/// The cursor of a list: the selected row, if any.
#[derive(Clone, Copy, Debug, PartialEq, Eq, Structural)]
pub struct ListState {
    pub selected: Option<usize>,
}

impl ListState {
    /// A list with no row selected.
    pub fn new() -> (state: Self)
        ensures
            state.selected is None,
    {
        ListState { selected: None }
    }

    /// Selects a row, or none.
    pub fn select(&mut self, index: Option<usize>)
        ensures
            final(self).selected == index,
    {
        self.selected = index;
    }

    /// The selected row.
    pub fn selected(&self) -> (index: Option<usize>)
        ensures
            index == self.selected,
    {
        self.selected
    }
}

/// The row after the selected one in a list of `len` rows, wrapping to the
/// first; the first where none is selected.
pub open spec fn row_after(selected: Option<usize>, len: int) -> int {
    match selected {
        Some(i) => if i >= len - 1 {
            0
        } else {
            i + 1
        },
        None => 0,
    }
}

/// The row before the selected one in a list of `len` rows, wrapping to the
/// last; the first where none is selected.
pub open spec fn row_before(selected: Option<usize>, len: int) -> int {
    match selected {
        Some(i) => if i == 0 {
            if len == 0 {
                0
            } else {
                len - 1
            }
        } else {
            i - 1
        },
        None => 0,
    }
}

/// Moves the cursor of a list of `len` rows one row down.
pub fn select_next(state: &mut ListState, len: usize)
    ensures
        final(state).selected == Some(row_after(old(state).selected, len as int) as usize),
{
    let row: usize = match state.selected {
        Some(i) => if len == 0 || i >= len - 1 {
            0
        } else {
            i + 1
        },
        None => 0,
    };
    state.selected = Some(row);
}

/// Moves the cursor of a list of `len` rows one row up.
pub fn select_previous(state: &mut ListState, len: usize)
    ensures
        final(state).selected == Some(row_before(old(state).selected, len as int) as usize),
{
    let row: usize = match state.selected {
        Some(i) => if i == 0 {
            if len == 0 {
                0
            } else {
                len - 1
            }
        } else {
            i - 1
        },
        None => 0,
    };
    state.selected = Some(row);
}

/// The number of tabs.
pub const TAB_COUNT: usize = 5;

/// The tab of the radio and the scope.
pub const RADIO_TAB: usize = 4;

/// The tab of the search.
pub const DATA_TAB: usize = 2;

/// The tab of the playlists.
pub const PLAYLIST_TAB: usize = 5;

/// The whole state of the interface.
pub struct App {
    pub current_tab: usize,
    pub radio_state: ListState,
    pub radio_stations: Vec<String>,
    pub player: AudioPlayer,
    pub oscilloscope: Oscilloscope,
    pub graph_config: GraphConfig,
    pub input_mode: InputMode,
    pub search_input: String,
    /// The cursor in `search_input`, counted in characters.
    pub cursor_position: usize,
    pub loading_status: Option<String>,
    pub is_loading: bool,
    pub search_results: Vec<(String, String)>,
    pub search_results_state: ListState,
    /// Whether the playlist database could be opened.
    pub db_open: bool,
    pub playlists: Vec<Playlist>,
    pub playlist_state: ListState,
    pub playlist_songs: Vec<PlaylistEntry>,
    pub playlist_songs_state: ListState,
    pub playlist_input_name: String,
    /// The playlist whose songs are shown.
    pub viewing_playlist_id: Option<i64>,
}

/// `position` held to a text of `len` characters.
pub open spec fn clamped_cursor(position: int, len: int) -> int {
    if position > len {
        len
    } else {
        position
    }
}

impl App {
    /// What every transition keeps: a station to select, a buffer per
    /// channel in the player, a width whose double can be written, and the
    /// cursor inside the search text.
    pub open spec fn well_formed(self) -> bool {
        &&& self.radio_stations@.len() > 0
        &&& self.player.well_formed()
        &&& 2 * self.graph_config.width <= u32::MAX
        &&& self.current_tab < usize::MAX
        &&& self.cursor_position <= self.search_input@.len()
    }

    /// Selects the next station, wrapping.
    pub fn next_station(&mut self)
        requires
            old(self).radio_stations@.len() > 0,
        ensures
            final(self).radio_state.selected == Some(
                row_after(old(self).radio_state.selected, old(self).radio_stations@.len() as int)
                    as usize,
            ),
            old(self).unchanged_but_radio(*final(self)),
    {
        select_next(&mut self.radio_state, self.radio_stations.len());
    }

    /// Selects the previous station, wrapping.
    pub fn previous_station(&mut self)
        requires
            old(self).radio_stations@.len() > 0,
        ensures
            final(self).radio_state.selected == Some(
                row_before(
                    old(self).radio_state.selected,
                    old(self).radio_stations@.len() as int,
                ) as usize,
            ),
            old(self).unchanged_but_radio(*final(self)),
    {
        select_previous(&mut self.radio_state, self.radio_stations.len());
    }

    /// Whether `after` is `self` but for the selected station.
    pub open spec fn unchanged_but_radio(self, after: Self) -> bool {
        after == (App { radio_state: after.radio_state, ..self })
    }

    /// Whether `after` is `self` but for the tab.
    pub open spec fn unchanged_but_tab(self, after: Self) -> bool {
        after == (App { current_tab: after.current_tab, ..self })
    }

    /// Whether `after` is `self` but for the search text and its cursor.
    pub open spec fn unchanged_but_search_text(self, after: Self) -> bool {
        after == (App {
            search_input: after.search_input,
            cursor_position: after.cursor_position,
            ..self
        })
    }

    /// Whether `after` is `self` but for the selected search result.
    pub open spec fn unchanged_but_result_cursor(self, after: Self) -> bool {
        after == (App { search_results_state: after.search_results_state, ..self })
    }

    /// Goes to the next tab, wrapping.
    pub fn next_tab(&mut self)
        requires
            old(self).current_tab < usize::MAX,
        ensures
            final(self).current_tab == (old(self).current_tab + 1) % (TAB_COUNT as int),
            old(self).unchanged_but_tab(*final(self)),
    {
        self.current_tab = (self.current_tab + 1) % TAB_COUNT;
    }

    /// Goes to the previous tab, wrapping.
    pub fn previous_tab(&mut self)
        ensures
            final(self).current_tab == if old(self).current_tab == 0 {
                TAB_COUNT - 1
            } else {
                old(self).current_tab - 1
            },
            old(self).unchanged_but_tab(*final(self)),
    {
        if self.current_tab == 0 {
            self.current_tab = TAB_COUNT - 1;
        } else {
            self.current_tab -= 1;
        }
    }

    /// `new_cursor_pos` held to the search text.
    pub fn clamp_cursor(&self, new_cursor_pos: usize) -> (position: usize)
        ensures
            position == clamped_cursor(new_cursor_pos as int, self.search_input@.len() as int),
    {
        let len: usize = self.search_input.as_str().unicode_len();
        if new_cursor_pos > len {
            len
        } else {
            new_cursor_pos
        }
    }

    /// Moves the cursor one character left, if it can.
    pub fn move_cursor_left(&mut self)
        ensures
            final(self).cursor_position == clamped_cursor(
                if old(self).cursor_position == 0 {
                    0
                } else {
                    old(self).cursor_position - 1
                },
                old(self).search_input@.len() as int,
            ),
            final(self).search_input == old(self).search_input,
            old(self).unchanged_but_search_text(*final(self)),
    {
        let moved: usize = self.cursor_position.saturating_sub(1);
        self.cursor_position = self.clamp_cursor(moved);
    }

    /// Moves the cursor one character right, if it can.
    pub fn move_cursor_right(&mut self)
        ensures
            final(self).cursor_position == clamped_cursor(
                if old(self).cursor_position == usize::MAX {
                    usize::MAX as int
                } else {
                    old(self).cursor_position + 1
                },
                old(self).search_input@.len() as int,
            ),
            final(self).search_input == old(self).search_input,
            old(self).unchanged_but_search_text(*final(self)),
    {
        let moved: usize = self.cursor_position.saturating_add(1);
        self.cursor_position = self.clamp_cursor(moved);
    }

    /// Types a character at the cursor and steps over it.
    pub fn enter_char(&mut self, new_char: char)
        requires
            old(self).cursor_position <= old(self).search_input@.len(),
        ensures
            final(self).search_input@ == old(self).search_input@.insert(
                old(self).cursor_position as int,
                new_char,
            ),
            final(self).cursor_position == old(self).cursor_position + 1,
            old(self).unchanged_but_search_text(*final(self)),
    {
        self.search_input = insert_char(self.search_input.as_str(), self.cursor_position, new_char);
        let len: usize = self.search_input.as_str().unicode_len();
        self.move_cursor_right();
    }

    /// Deletes the character before the cursor and steps back; nothing at
    /// the start of the text.
    pub fn delete_char(&mut self)
        requires
            old(self).cursor_position <= old(self).search_input@.len(),
        ensures
            old(self).cursor_position == 0 ==> final(self).search_input == old(self).search_input
                && final(self).cursor_position == 0,
            old(self).cursor_position > 0 ==> final(self).search_input@ == old(
                self,
            ).search_input@.remove(old(self).cursor_position - 1) && final(self).cursor_position
                == old(self).cursor_position - 1,
            old(self).unchanged_but_search_text(*final(self)),
    {
        if self.cursor_position != 0 {
            self.search_input = remove_char(self.search_input.as_str(), self.cursor_position - 1);
            self.move_cursor_left();
        }
    }

    /// Puts the cursor at the start of the text.
    pub fn reset_cursor(&mut self)
        ensures
            final(self).cursor_position == 0,
            final(self).search_input == old(self).search_input,
            old(self).unchanged_but_search_text(*final(self)),
    {
        self.cursor_position = 0;
    }

    /// Selects the next search result, wrapping; nothing without results.
    pub fn next_search_result(&mut self)
        ensures
            final(self).search_results_state.selected == if old(self).search_results@.len() == 0 {
                old(self).search_results_state.selected
            } else {
                Some(
                    row_after(
                        old(self).search_results_state.selected,
                        old(self).search_results@.len() as int,
                    ) as usize,
                )
            },
            old(self).unchanged_but_result_cursor(*final(self)),
    {
        if self.search_results.len() == 0 {
            return ;
        }
        select_next(&mut self.search_results_state, self.search_results.len());
    }

    /// Selects the previous search result, wrapping; nothing without
    /// results.
    pub fn previous_search_result(&mut self)
        ensures
            final(self).search_results_state.selected == if old(self).search_results@.len() == 0 {
                old(self).search_results_state.selected
            } else {
                Some(
                    row_before(
                        old(self).search_results_state.selected,
                        old(self).search_results@.len() as int,
                    ) as usize,
                )
            },
            old(self).unchanged_but_result_cursor(*final(self)),
    {
        if self.search_results.len() == 0 {
            return ;
        }
        select_previous(&mut self.search_results_state, self.search_results.len());
    }
}

} // verus!
