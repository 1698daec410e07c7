//! What a key does: the decision table of the interface, and its effects.

use vstd::prelude::*;
use vstd::string::StrSliceExecFns;
use vstd::string::StringExecFns;
use crate::display::GraphConfig;
use crate::event::Event;
use crate::oscilloscope::Intent;
use crate::oscilloscope::intent_of;
use crate::oscilloscope::scale_after;
use crate::oscilloscope::samples_after;
use crate::player::AudioPlayer;
use crate::db::Playlist;
use crate::db::PlaylistEntry;
use crate::display::Color;
use crate::oscilloscope::Oscilloscope;
use crate::display::Trace;
use crate::theme::COLOR_RED;
use crate::theme::PIPBOY_GREEN;
use crate::state::App;
use crate::state::AppEvent;
use crate::state::ListState;
use crate::text::decimal_text;
use crate::text::push_decimal;
use crate::state::row_after;
use crate::state::row_before;
use crate::state::select_next;
use crate::state::select_previous;
use crate::text::blank;
use crate::text::has_prefix;
use crate::text::is_blank;
use crate::text::joined;
use crate::text::remove_char;
use crate::text::starts_with;
use crate::event::KeyCode;
use crate::event::KeyEvent;
use crate::player::SinkCommand;
use crate::state::InputMode;
use crate::state::DATA_TAB;
use crate::state::PLAYLIST_TAB;
use crate::state::RADIO_TAB;

verus! {

/// The work that a transition leaves to the caller: the library decides,
/// the caller reaches the device, the disk and the network.
#[derive(Clone, Debug, PartialEq, Eq)]
pub enum Action {
    /// Nothing to do.
    Nothing,
    /// Leave the program.
    Quit,
    /// Play the file at this path, then report how it was taken up.
    PlayFile(String),
    /// Pause or resume the output device.
    Sink(SinkCommand),
    /// Set the volume of the output device, in thousandths.
    SetVolume(u32),
    /// Read the songs of this playlist, then call `songs_loaded`.
    LoadSongs(i64),
    /// Read the playlists, then call `playlists_refreshed`.
    RefreshPlaylists,
    /// Read the playlists, then call `playlists_reloaded`.
    ReloadPlaylists,
    /// Create a playlist of this name, then call `playlist_created`.
    CreatePlaylist(String),
    /// Download this address in the background.
    LoadSource(String),
    /// Search for this text in the background.
    Search(String),
}

/// An action as a mathematical value.
pub enum ActionView {
    Nothing,
    Quit,
    PlayFile(Seq<char>),
    Sink(SinkCommand),
    SetVolume(u32),
    LoadSongs(i64),
    RefreshPlaylists,
    ReloadPlaylists,
    CreatePlaylist(Seq<char>),
    LoadSource(Seq<char>),
    Search(Seq<char>),
}

impl View for Action {
    type V = ActionView;

    open spec fn view(&self) -> ActionView {
        match *self {
            Action::Nothing => ActionView::Nothing,
            Action::Quit => ActionView::Quit,
            Action::PlayFile(path) => ActionView::PlayFile(path@),
            Action::Sink(command) => ActionView::Sink(command),
            Action::SetVolume(volume) => ActionView::SetVolume(volume),
            Action::LoadSongs(id) => ActionView::LoadSongs(id),
            Action::RefreshPlaylists => ActionView::RefreshPlaylists,
            Action::ReloadPlaylists => ActionView::ReloadPlaylists,
            Action::CreatePlaylist(name) => ActionView::CreatePlaylist(name@),
            Action::LoadSource(url) => ActionView::LoadSource(url@),
            Action::Search(query) => ActionView::Search(query@),
        }
    }
}

/// The text of a status line, if there is one.
pub open spec fn status_text(status: Option<String>) -> Option<Seq<char>> {
    match status {
        Some(text) => Some(text@),
        None => None,
    }
}

/// What a key press means in a mode and on a tab.
#[derive(Clone, Copy, Debug, PartialEq, Eq, Structural)]
pub enum Transition {
    Ignore,
    Quit,
    StartEditing,
    /// A key of the oscilloscope: the scale, the window or scatter.
    Scope,
    PauseToggle,
    VolumeUp,
    VolumeDown,
    NextStation,
    PreviousStation,
    NextTab,
    PreviousTab,
    NamePlaylist,
    OpenPlaylist,
    RefreshPlaylists,
    SubmitPlaylistName,
    CancelPlaylistName,
    NameBackspace,
    NameChar(char),
    NextSong,
    PreviousSong,
    ClosePlaylist,
    PlaySong,
    SubmitSearch,
    StopEditing,
    DeleteChar,
    CursorLeft,
    CursorRight,
    TypeChar(char),
    NextResult,
    PreviousResult,
    CloseResults,
    PlayResult,
}

/// The meaning of a key in normal mode. The first rule that fits decides:
/// `/` on the data tab starts a search; `q` quits; on the radio tab the
/// arrows with shift, `s` and space drive the scope; `+` and `-` the volume;
/// the arrows without shift move through stations and tabs, as does the tab
/// key; on the playlist tab `p`, enter and `r` name, open and refresh.
pub open spec fn normal_transition(tab: usize, key: KeyEvent) -> Transition {
    let shift = key.modifiers.shift;
    match key.code {
        KeyCode::Char(c) => if c == '/' && tab == DATA_TAB {
            Transition::StartEditing
        } else if c == 'q' {
            Transition::Quit
        } else if c == 's' && tab == RADIO_TAB {
            Transition::Scope
        } else if c == ' ' && tab == RADIO_TAB {
            Transition::PauseToggle
        } else if c == '+' {
            Transition::VolumeUp
        } else if c == '-' {
            Transition::VolumeDown
        } else if c == 'p' && tab == PLAYLIST_TAB {
            Transition::NamePlaylist
        } else if c == 'r' && tab == PLAYLIST_TAB {
            Transition::RefreshPlaylists
        } else {
            Transition::Ignore
        },
        KeyCode::Up => if shift {
            if tab == RADIO_TAB {
                Transition::Scope
            } else {
                Transition::Ignore
            }
        } else {
            Transition::PreviousStation
        },
        KeyCode::Down => if shift {
            if tab == RADIO_TAB {
                Transition::Scope
            } else {
                Transition::Ignore
            }
        } else {
            Transition::NextStation
        },
        KeyCode::Left => if shift {
            if tab == RADIO_TAB {
                Transition::Scope
            } else {
                Transition::Ignore
            }
        } else {
            Transition::PreviousTab
        },
        KeyCode::Right => if shift {
            if tab == RADIO_TAB {
                Transition::Scope
            } else {
                Transition::Ignore
            }
        } else {
            Transition::NextTab
        },
        KeyCode::Tab => Transition::NextTab,
        KeyCode::Enter => if tab == PLAYLIST_TAB {
            Transition::OpenPlaylist
        } else {
            Transition::Ignore
        },
        _ => Transition::Ignore,
    }
}

/// The meaning of a key while a playlist is being named.
pub open spec fn playlist_name_transition(key: KeyEvent) -> Transition {
    match key.code {
        KeyCode::Enter => Transition::SubmitPlaylistName,
        KeyCode::Esc => Transition::CancelPlaylistName,
        KeyCode::Backspace => Transition::NameBackspace,
        KeyCode::Char(c) => Transition::NameChar(c),
        _ => Transition::Ignore,
    }
}

/// The meaning of a key in the songs of a playlist.
pub open spec fn playlist_navigation_transition(key: KeyEvent) -> Transition {
    match key.code {
        KeyCode::Down => Transition::NextSong,
        KeyCode::Up => Transition::PreviousSong,
        KeyCode::Esc => Transition::ClosePlaylist,
        KeyCode::Enter => Transition::PlaySong,
        _ => Transition::Ignore,
    }
}

/// The meaning of a key in the search box.
pub open spec fn editing_transition(key: KeyEvent) -> Transition {
    match key.code {
        KeyCode::Enter => Transition::SubmitSearch,
        KeyCode::Esc => Transition::StopEditing,
        KeyCode::Backspace => Transition::DeleteChar,
        KeyCode::Left => Transition::CursorLeft,
        KeyCode::Right => Transition::CursorRight,
        KeyCode::Char(c) => Transition::TypeChar(c),
        _ => Transition::Ignore,
    }
}

/// The meaning of a key in the search results.
pub open spec fn search_results_transition(key: KeyEvent) -> Transition {
    match key.code {
        KeyCode::Down => Transition::NextResult,
        KeyCode::Up => Transition::PreviousResult,
        KeyCode::Esc => Transition::CloseResults,
        KeyCode::Enter => Transition::PlayResult,
        _ => Transition::Ignore,
    }
}

/// The meaning of a key press in a mode and on a tab.
pub open spec fn transition_of(mode: InputMode, tab: usize, key: KeyEvent) -> Transition {
    match mode {
        InputMode::Normal => normal_transition(tab, key),
        InputMode::PlaylistNameInput => playlist_name_transition(key),
        InputMode::PlaylistNavigation => playlist_navigation_transition(key),
        InputMode::Editing => editing_transition(key),
        InputMode::SearchResults => search_results_transition(key),
    }
}

/// The meaning of a key in normal mode.
fn classify_normal(tab: usize, key: &KeyEvent) -> (transition: Transition)
    ensures
        transition == normal_transition(tab, *key),
{
    let shift: bool = key.modifiers.shift;
    let scope: Transition = if tab == RADIO_TAB {
        Transition::Scope
    } else {
        Transition::Ignore
    };
    match key.code {
        KeyCode::Char(c) => if c == '/' && tab == DATA_TAB {
            Transition::StartEditing
        } else if c == 'q' {
            Transition::Quit
        } else if c == 's' && tab == RADIO_TAB {
            Transition::Scope
        } else if c == ' ' && tab == RADIO_TAB {
            Transition::PauseToggle
        } else if c == '+' {
            Transition::VolumeUp
        } else if c == '-' {
            Transition::VolumeDown
        } else if c == 'p' && tab == PLAYLIST_TAB {
            Transition::NamePlaylist
        } else if c == 'r' && tab == PLAYLIST_TAB {
            Transition::RefreshPlaylists
        } else {
            Transition::Ignore
        },
        KeyCode::Up => if shift {
            scope
        } else {
            Transition::PreviousStation
        },
        KeyCode::Down => if shift {
            scope
        } else {
            Transition::NextStation
        },
        KeyCode::Left => if shift {
            scope
        } else {
            Transition::PreviousTab
        },
        KeyCode::Right => if shift {
            scope
        } else {
            Transition::NextTab
        },
        KeyCode::Tab => Transition::NextTab,
        KeyCode::Enter => if tab == PLAYLIST_TAB {
            Transition::OpenPlaylist
        } else {
            Transition::Ignore
        },
        _ => Transition::Ignore,
    }
}

/// The meaning of a key press in a mode and on a tab.
pub fn classify(mode: InputMode, tab: usize, key: &KeyEvent) -> (transition: Transition)
    ensures
        transition == transition_of(mode, tab, *key),
{
    match mode {
        InputMode::Normal => classify_normal(tab, key),
        InputMode::PlaylistNameInput => match key.code {
            KeyCode::Enter => Transition::SubmitPlaylistName,
            KeyCode::Esc => Transition::CancelPlaylistName,
            KeyCode::Backspace => Transition::NameBackspace,
            KeyCode::Char(c) => Transition::NameChar(c),
            _ => Transition::Ignore,
        },
        InputMode::PlaylistNavigation => match key.code {
            KeyCode::Down => Transition::NextSong,
            KeyCode::Up => Transition::PreviousSong,
            KeyCode::Esc => Transition::ClosePlaylist,
            KeyCode::Enter => Transition::PlaySong,
            _ => Transition::Ignore,
        },
        InputMode::Editing => match key.code {
            KeyCode::Enter => Transition::SubmitSearch,
            KeyCode::Esc => Transition::StopEditing,
            KeyCode::Backspace => Transition::DeleteChar,
            KeyCode::Left => Transition::CursorLeft,
            KeyCode::Right => Transition::CursorRight,
            KeyCode::Char(c) => Transition::TypeChar(c),
            _ => Transition::Ignore,
        },
        InputMode::SearchResults => match key.code {
            KeyCode::Down => Transition::NextResult,
            KeyCode::Up => Transition::PreviousResult,
            KeyCode::Esc => Transition::CloseResults,
            KeyCode::Enter => Transition::PlayResult,
            _ => Transition::Ignore,
        },
    }
}

/// The stations that the radio offers.
pub open spec fn station_names() -> Seq<Seq<char>> {
    seq![
        "Classical Radio"@,
        "Diamond City Radio"@,
        "Nuka-Cola Family Radio"@,
        "Radio Freedom"@,
        "Distress Signal"@,
        "Distress Signal"@,
        "Distress Signal"@,
        "Emergency Frequency RJ1138"@,
        "Military Frequency AF95"@,
        "Silver Shroud Radio"@,
    ]
}

/// The texts of a list of names.
pub open spec fn station_texts(names: Seq<String>) -> Seq<Seq<char>> {
    Seq::new(names.len(), |i: int| names[i]@)
}

/// The status line `head`, `body`, and three dots.
pub open spec fn progress_status(head: Seq<char>, body: Seq<char>) -> Seq<char> {
    head + body + "..."@
}

/// The status line `head`, `body`, and three dots.
fn progress_line(head: &str, body: &str) -> (line: String)
    ensures
        line@ == progress_status(head@, body@),
{
    let mut line = joined(head, body);
    line.append("...");
    line
}

/// Whether a search text is an address to download rather than words to
/// search for.
pub open spec fn is_address(query: Seq<char>) -> bool {
    has_prefix(query, "http://"@) || has_prefix(query, "https://"@)
}

impl App {
    /// Whether `after` is `self` but for the scope and its configuration.
    pub open spec fn unchanged_but_scope(self, after: Self) -> bool {
        after == (App { graph_config: after.graph_config, oscilloscope: after.oscilloscope, ..self })
    }

    /// Whether `after` is `self` but for the player.
    pub open spec fn unchanged_but_player(self, after: Self) -> bool {
        after == (App { player: after.player, ..self })
    }

    /// The effect of a key of the oscilloscope: the scale, the window and the
    /// scatter switch change as the oscilloscope's `handle` says, and nothing
    /// else does.
    pub open spec fn scope_effect(self, after: Self, key: KeyEvent) -> bool {
        let event = Event::Key(key);
        &&& self.unchanged_but_scope(after)
        &&& after.oscilloscope.frame() == self.oscilloscope.frame()
        &&& after.oscilloscope.vectorscope == (self.oscilloscope.vectorscope != (intent_of(event)
            == Some(Intent::ToggleMode)))
        &&& after.graph_config.scale == scale_after(self.graph_config.scale as int, event)
        &&& after.graph_config.samples == samples_after(
            self.graph_config.samples as int,
            self.graph_config.width as int,
            event,
        )
        &&& after.graph_config.scatter == (self.graph_config.scatter != (intent_of(event) == Some(
            Intent::ToggleScatter,
        )))
        &&& after.graph_config.pause == (self.graph_config.pause != (intent_of(event) == Some(
            Intent::TogglePause,
        )))
        &&& after.graph_config.references == (self.graph_config.references != (intent_of(event)
            == Some(Intent::ToggleReference)))
        &&& after.graph_config.sampling_rate == self.graph_config.sampling_rate
        &&& after.graph_config.width == self.graph_config.width
        &&& after.graph_config.show_ui == self.graph_config.show_ui
        &&& after.graph_config.palette@ == self.graph_config.palette@
        &&& after.graph_config.labels_color == self.graph_config.labels_color
        &&& after.graph_config.axis_color == self.graph_config.axis_color
    }

    /// Hands a key to the oscilloscope.
    pub fn scope_key(&mut self, key: &KeyEvent)
        requires
            2 * old(self).graph_config.width <= u32::MAX,
        ensures
            old(self).scope_effect(*final(self), *key),
    {
        let event = Event::Key(*key);
        self.oscilloscope.handle(&mut self.graph_config, &event);
    }

    /// The effect of the pause key: the frame is held or released, and the
    /// player pauses or resumes at `now`.
    pub open spec fn pause_effect(self, after: Self, action: ActionView, now: u64) -> bool {
        &&& after == (App { graph_config: after.graph_config, player: after.player, ..self })
        &&& after.graph_config == (GraphConfig { pause: !self.graph_config.pause, ..self.graph_config })
        &&& after.player.same_track(self.player)
        &&& !self.player.has_sink ==> action == ActionView::Nothing && after.player.same_clock(
            self.player,
        )
        &&& self.player.has_sink && self.player.is_paused ==> action == ActionView::Sink(
            SinkCommand::Play,
        ) && !after.player.is_paused && after.player.start_time == Some(now)
            && after.player.elapsed_when_paused == self.player.elapsed_when_paused
        &&& self.player.has_sink && !self.player.is_paused ==> action == ActionView::Sink(
            SinkCommand::Pause,
        ) && after.player.is_paused && after.player.start_time is None
            && after.player.elapsed_when_paused == self.player.current_time_or_elapsed(now)
    }

    /// Holds or releases the frame, and pauses or resumes the player.
    pub fn toggle_pause(&mut self, now: u64) -> (action: Action)
        ensures
            old(self).pause_effect(*final(self), action@, now),
    {
        self.graph_config.pause = !self.graph_config.pause;
        match self.player.toggle_pause(now) {
            Some(command) => Action::Sink(command),
            None => Action::Nothing,
        }
    }

    /// The effect of a volume key: the volume moves by `step` and is held to
    /// `[0, 10]`, where there is an output device.
    pub open spec fn volume_effect(self, after: Self, action: ActionView, step: int) -> bool {
        &&& self.unchanged_but_player(after)
        &&& after.player.unchanged_but_volume(self.player)
        &&& after.player.volume == if self.player.has_sink {
            crate::fixed::clamp_int(self.player.volume + step, 0, crate::player::VOLUME_MAX as int)
        } else {
            self.player.volume as int
        }
        &&& action == if self.player.has_sink {
            ActionView::SetVolume(after.player.volume)
        } else {
            ActionView::Nothing
        }
    }

    /// Turns the volume one step up or down.
    pub fn step_volume(&mut self, up: bool) -> (action: Action)
        ensures
            old(self).volume_effect(
                *final(self),
                action@,
                if up {
                    crate::player::VOLUME_STEP as int
                } else {
                    -crate::player::VOLUME_STEP
                },
            ),
    {
        let applied: Option<u32> = if up {
            self.player.volume_up()
        } else {
            self.player.volume_down()
        };
        match applied {
            Some(volume) => Action::SetVolume(volume),
            None => Action::Nothing,
        }
    }

    /// Whether `after` is `self` but for the playlist panel: its name box,
    /// its songs and their cursor, the playlist in view, and the mode.
    pub open spec fn unchanged_but_playlist_panel(self, after: Self) -> bool {
        after == (App {
            playlist_input_name: after.playlist_input_name,
            playlist_songs: after.playlist_songs,
            playlist_songs_state: after.playlist_songs_state,
            viewing_playlist_id: after.viewing_playlist_id,
            input_mode: after.input_mode,
            ..self
        })
    }

    /// Whether `after` is `self` but for the search: its text and cursor,
    /// its results and their cursor, the status line, the loading flag, and
    /// the mode.
    pub open spec fn unchanged_but_search(self, after: Self) -> bool {
        after == (App {
            search_input: after.search_input,
            cursor_position: after.cursor_position,
            search_results: after.search_results,
            search_results_state: after.search_results_state,
            loading_status: after.loading_status,
            is_loading: after.is_loading,
            input_mode: after.input_mode,
            ..self
        })
    }

    /// The effect of opening the selected playlist: it comes into view, and
    /// its songs are asked for where the database is open. Nothing without a
    /// selected playlist.
    pub open spec fn open_playlist_effect(self, after: Self, action: ActionView) -> bool {
        match self.playlist_state.selected {
            Some(row) => if row < self.playlists@.len() {
                &&& after == (App {
                    viewing_playlist_id: Some(self.playlists@[row as int].id),
                    ..self
                })
                &&& action == if self.db_open {
                    ActionView::LoadSongs(self.playlists@[row as int].id)
                } else {
                    ActionView::Nothing
                }
            } else {
                after == self && action == ActionView::Nothing
            },
            None => after == self && action == ActionView::Nothing,
        }
    }

    /// Brings the selected playlist into view.
    pub fn open_playlist(&mut self) -> (action: Action)
        ensures
            old(self).open_playlist_effect(*final(self), action@),
    {
        match self.playlist_state.selected {
            Some(row) => {
                if row < self.playlists.len() {
                    let id: i64 = self.playlists[row].id;
                    self.viewing_playlist_id = Some(id);
                    if self.db_open {
                        return Action::LoadSongs(id);
                    }
                }
                Action::Nothing
            },
            None => Action::Nothing,
        }
    }

    /// The effect of submitting the name of a new playlist: the box empties
    /// and closes, and the playlist is to be created unless the name is blank
    /// or the database is shut.
    pub open spec fn submit_playlist_name_effect(self, after: Self, action: ActionView) -> bool {
        &&& self.unchanged_but_playlist_panel(after)
        &&& after.playlist_input_name@ == Seq::<char>::empty()
        &&& after.input_mode == InputMode::Normal
        &&& after.playlist_songs == self.playlist_songs
        &&& after.playlist_songs_state == self.playlist_songs_state
        &&& after.viewing_playlist_id == self.viewing_playlist_id
        &&& action == if !blank(self.playlist_input_name@) && self.db_open {
            ActionView::CreatePlaylist(self.playlist_input_name@)
        } else {
            ActionView::Nothing
        }
    }

    /// Submits the name of a new playlist.
    pub fn submit_playlist_name(&mut self) -> (action: Action)
        ensures
            old(self).submit_playlist_name_effect(*final(self), action@),
    {
        let name: String = self.playlist_input_name.clone();
        let create: bool = !is_blank(name.as_str()) && self.db_open;
        self.playlist_input_name = String::new();
        self.input_mode = InputMode::Normal;
        if create {
            Action::CreatePlaylist(name)
        } else {
            Action::Nothing
        }
    }

    /// The effect of a key in the name box that edits or leaves it.
    pub open spec fn name_box_effect(self, after: Self, transition: Transition) -> bool {
        &&& self.unchanged_but_playlist_panel(after)
        &&& after.playlist_songs == self.playlist_songs
        &&& after.playlist_songs_state == self.playlist_songs_state
        &&& after.viewing_playlist_id == self.viewing_playlist_id
        &&& match transition {
            Transition::CancelPlaylistName => after.playlist_input_name@ == Seq::<char>::empty()
                && after.input_mode == InputMode::Normal,
            Transition::NameBackspace => after.input_mode == self.input_mode
                && after.playlist_input_name@ == if self.playlist_input_name@.len() == 0 {
                self.playlist_input_name@
            } else {
                self.playlist_input_name@.drop_last()
            },
            Transition::NameChar(c) => after.input_mode == self.input_mode
                && after.playlist_input_name@ == self.playlist_input_name@.push(c),
            _ => false,
        }
    }

    /// Applies a key that edits or leaves the name box.
    pub fn name_box_key(&mut self, transition: Transition)
        requires
            transition == Transition::CancelPlaylistName || transition == Transition::NameBackspace
                || transition is NameChar,
        ensures
            old(self).name_box_effect(*final(self), transition),
    {
        match transition {
            Transition::CancelPlaylistName => {
                self.playlist_input_name = String::new();
                self.input_mode = InputMode::Normal;
            },
            Transition::NameBackspace => {
                let len: usize = self.playlist_input_name.as_str().unicode_len();
                if len > 0 {
                    self.playlist_input_name = remove_char(
                        self.playlist_input_name.as_str(),
                        len - 1,
                    );
                }
            },
            Transition::NameChar(c) => {
                self.playlist_input_name.push(c);
            },
            _ => {},
        }
    }

    /// The effect of a key that moves through the songs in view or leaves
    /// them.
    pub open spec fn songs_effect(self, after: Self, transition: Transition) -> bool {
        &&& self.unchanged_but_playlist_panel(after)
        &&& after.playlist_input_name == self.playlist_input_name
        &&& match transition {
            Transition::NextSong => after.playlist_songs == self.playlist_songs
                && after.viewing_playlist_id == self.viewing_playlist_id && after.input_mode
                == self.input_mode && after.playlist_songs_state.selected == Some(
                row_after(self.playlist_songs_state.selected, self.playlist_songs@.len() as int)
                    as usize,
            ),
            Transition::PreviousSong => after.playlist_songs == self.playlist_songs
                && after.viewing_playlist_id == self.viewing_playlist_id && after.input_mode
                == self.input_mode && after.playlist_songs_state.selected == Some(
                row_before(self.playlist_songs_state.selected, self.playlist_songs@.len() as int)
                    as usize,
            ),
            Transition::ClosePlaylist => after.playlist_songs@.len() == 0
                && after.viewing_playlist_id is None && after.input_mode == InputMode::Normal
                && after.playlist_songs_state == self.playlist_songs_state,
            _ => false,
        }
    }

    /// Applies a key that moves through the songs in view or leaves them.
    pub fn songs_key(&mut self, transition: Transition)
        requires
            transition == Transition::NextSong || transition == Transition::PreviousSong
                || transition == Transition::ClosePlaylist,
        ensures
            old(self).songs_effect(*final(self), transition),
    {
        match transition {
            Transition::NextSong => {
                select_next(&mut self.playlist_songs_state, self.playlist_songs.len());
            },
            Transition::PreviousSong => {
                select_previous(&mut self.playlist_songs_state, self.playlist_songs.len());
            },
            Transition::ClosePlaylist => {
                self.input_mode = InputMode::Normal;
                self.viewing_playlist_id = None;
                self.playlist_songs = Vec::new();
            },
            _ => {},
        }
    }

    /// Whether `after` is `self` but for the status line, the loading flag
    /// and the mode.
    pub open spec fn unchanged_but_status(self, after: Self) -> bool {
        after == (App {
            loading_status: after.loading_status,
            is_loading: after.is_loading,
            input_mode: after.input_mode,
            ..self
        })
    }

    /// The effect of playing the selected song: the status line names it,
    /// the interface waits, and its address is to be downloaded. Nothing
    /// without a selected song.
    pub open spec fn play_song_effect(self, after: Self, action: ActionView) -> bool {
        match self.playlist_songs_state.selected {
            Some(row) => if row < self.playlist_songs@.len() {
                &&& self.unchanged_but_status(after)
                &&& after.input_mode == self.input_mode
                &&& after.is_loading
                &&& status_text(after.loading_status) == Some(
                    progress_status("Playing: "@, self.playlist_songs@[row as int].title@),
                )
                &&& action == ActionView::LoadSource(self.playlist_songs@[row as int].url@)
            } else {
                after == self && action == ActionView::Nothing
            },
            None => after == self && action == ActionView::Nothing,
        }
    }

    /// Plays the selected song of the playlist in view.
    pub fn play_song(&mut self) -> (action: Action)
        ensures
            old(self).play_song_effect(*final(self), action@),
    {
        match self.playlist_songs_state.selected {
            Some(row) => {
                if row < self.playlist_songs.len() {
                    let line = progress_line("Playing: ", self.playlist_songs[row].title.as_str());
                    let url: String = self.playlist_songs[row].url.clone();
                    self.loading_status = Some(line);
                    self.is_loading = true;
                    return Action::LoadSource(url);
                }
                Action::Nothing
            },
            None => Action::Nothing,
        }
    }

    /// The effect of playing the selected search result: the status line
    /// names it, the interface waits and returns to normal mode, and its
    /// address is to be downloaded. Nothing without a selected result.
    pub open spec fn play_result_effect(self, after: Self, action: ActionView) -> bool {
        match self.search_results_state.selected {
            Some(row) => if row < self.search_results@.len() {
                &&& self.unchanged_but_status(after)
                &&& after.input_mode == InputMode::Normal
                &&& after.is_loading
                &&& status_text(after.loading_status) == Some(
                    progress_status("Downloading: "@, self.search_results@[row as int].0@),
                )
                &&& action == ActionView::LoadSource(self.search_results@[row as int].1@)
            } else {
                after == self && action == ActionView::Nothing
            },
            None => after == self && action == ActionView::Nothing,
        }
    }

    /// Plays the selected search result.
    pub fn play_result(&mut self) -> (action: Action)
        ensures
            old(self).play_result_effect(*final(self), action@),
    {
        match self.search_results_state.selected {
            Some(row) => {
                if row < self.search_results.len() {
                    let line = progress_line("Downloading: ", self.search_results[row].0.as_str());
                    let url: String = self.search_results[row].1.clone();
                    self.loading_status = Some(line);
                    self.is_loading = true;
                    self.input_mode = InputMode::Normal;
                    return Action::LoadSource(url);
                }
                Action::Nothing
            },
            None => Action::Nothing,
        }
    }

    /// The effect of submitting the search text: an address is to be
    /// downloaded, and the box closes; anything else is to be searched for,
    /// and the box stays open. Either way the status line says so, the
    /// interface waits, and the text empties.
    pub open spec fn submit_search_effect(self, after: Self, action: ActionView) -> bool {
        let query = self.search_input@;
        &&& self.unchanged_but_search(after)
        &&& after.search_results == self.search_results
        &&& after.search_results_state == self.search_results_state
        &&& after.search_input@ == Seq::<char>::empty()
        &&& after.cursor_position == 0
        &&& after.is_loading
        &&& if is_address(query) {
            &&& after.input_mode == InputMode::Normal
            &&& status_text(after.loading_status) == Some(
                progress_status("Downloading URL: "@, query),
            )
            &&& action == ActionView::LoadSource(query)
        } else {
            &&& after.input_mode == self.input_mode
            &&& status_text(after.loading_status) == Some(progress_status("Searching: "@, query))
            &&& action == ActionView::Search(query)
        }
    }

    /// Submits the search text.
    pub fn submit_search(&mut self) -> (action: Action)
        ensures
            old(self).submit_search_effect(*final(self), action@),
    {
        let query: String = self.search_input.clone();
        let address: bool = starts_with(query.as_str(), "http://") || starts_with(
            query.as_str(),
            "https://",
        );
        self.is_loading = true;
        self.search_input = String::new();
        self.cursor_position = 0;
        if address {
            self.loading_status = Some(progress_line("Downloading URL: ", query.as_str()));
            self.input_mode = InputMode::Normal;
            Action::LoadSource(query)
        } else {
            self.loading_status = Some(progress_line("Searching: ", query.as_str()));
            Action::Search(query)
        }
    }

    /// The effect of leaving the search results: they are dropped.
    pub open spec fn close_results_effect(self, after: Self) -> bool {
        &&& self.unchanged_but_search(after)
        &&& after.search_input == self.search_input
        &&& after.cursor_position == self.cursor_position
        &&& after.search_results_state == self.search_results_state
        &&& after.loading_status == self.loading_status
        &&& after.is_loading == self.is_loading
        &&& after.input_mode == InputMode::Normal
        &&& after.search_results@.len() == 0
    }

    /// Leaves the search results.
    pub fn close_results(&mut self)
        ensures
            old(self).close_results_effect(*final(self)),
    {
        self.input_mode = InputMode::Normal;
        self.search_results = Vec::new();
    }

    /// The effect of a key press at time `now`, by what the key means in
    /// the mode and on the tab that the interface is in.
    pub open spec fn key_effect(self, after: Self, action: ActionView, key: KeyEvent, now: u64) -> bool {
        match transition_of(self.input_mode, self.current_tab, key) {
            Transition::Ignore => after == self && action == ActionView::Nothing,
            Transition::Quit => after == self && action == ActionView::Quit,
            Transition::StartEditing => after == (App { input_mode: InputMode::Editing, ..self })
                && action == ActionView::Nothing,
            Transition::Scope => self.scope_effect(after, key) && action == ActionView::Nothing,
            Transition::PauseToggle => self.pause_effect(after, action, now),
            Transition::VolumeUp => self.volume_effect(
                after,
                action,
                crate::player::VOLUME_STEP as int,
            ),
            Transition::VolumeDown => self.volume_effect(
                after,
                action,
                -crate::player::VOLUME_STEP,
            ),
            Transition::NextStation => action == ActionView::Nothing && after == (App {
                radio_state: ListState {
                    selected: Some(
                        row_after(self.radio_state.selected, self.radio_stations@.len() as int)
                            as usize,
                    ),
                },
                ..self
            }),
            Transition::PreviousStation => action == ActionView::Nothing && after == (App {
                radio_state: ListState {
                    selected: Some(
                        row_before(self.radio_state.selected, self.radio_stations@.len() as int)
                            as usize,
                    ),
                },
                ..self
            }),
            Transition::NextTab => action == ActionView::Nothing && after == (App {
                current_tab: ((self.current_tab + 1) % (crate::state::TAB_COUNT as int)) as usize,
                ..self
            }),
            Transition::PreviousTab => action == ActionView::Nothing && after == (App {
                current_tab: if self.current_tab == 0 {
                    (crate::state::TAB_COUNT - 1) as usize
                } else {
                    (self.current_tab - 1) as usize
                },
                ..self
            }),
            Transition::NamePlaylist => action == ActionView::Nothing && after == (App {
                input_mode: InputMode::PlaylistNameInput,
                ..self
            }),
            Transition::OpenPlaylist => self.open_playlist_effect(after, action),
            Transition::RefreshPlaylists => after == self && action == if self.db_open {
                ActionView::RefreshPlaylists
            } else {
                ActionView::Nothing
            },
            Transition::SubmitPlaylistName => self.submit_playlist_name_effect(after, action),
            Transition::CancelPlaylistName => self.name_box_effect(
                after,
                Transition::CancelPlaylistName,
            ) && action == ActionView::Nothing,
            Transition::NameBackspace => self.name_box_effect(after, Transition::NameBackspace)
                && action == ActionView::Nothing,
            Transition::NameChar(c) => self.name_box_effect(after, Transition::NameChar(c))
                && action == ActionView::Nothing,
            Transition::NextSong => self.songs_effect(after, Transition::NextSong) && action
                == ActionView::Nothing,
            Transition::PreviousSong => self.songs_effect(after, Transition::PreviousSong)
                && action == ActionView::Nothing,
            Transition::ClosePlaylist => self.songs_effect(after, Transition::ClosePlaylist)
                && action == ActionView::Nothing,
            Transition::PlaySong => self.play_song_effect(after, action),
            Transition::SubmitSearch => self.submit_search_effect(after, action),
            Transition::StopEditing => action == ActionView::Nothing && after == (App {
                input_mode: InputMode::Normal,
                ..self
            }),
            Transition::DeleteChar => action == ActionView::Nothing
                && self.unchanged_but_search_text(after) && if self.cursor_position == 0 {
                after.search_input == self.search_input && after.cursor_position == 0
            } else {
                after.search_input@ == self.search_input@.remove(self.cursor_position - 1)
                    && after.cursor_position == self.cursor_position - 1
            },
            Transition::CursorLeft => action == ActionView::Nothing && after == (App {
                cursor_position: if self.cursor_position == 0 {
                    0
                } else {
                    (self.cursor_position - 1) as usize
                },
                ..self
            }),
            Transition::CursorRight => action == ActionView::Nothing && after == (App {
                cursor_position: if self.cursor_position == self.search_input@.len() {
                    self.cursor_position
                } else {
                    (self.cursor_position + 1) as usize
                },
                ..self
            }),
            Transition::TypeChar(c) => action == ActionView::Nothing
                && self.unchanged_but_search_text(after) && after.search_input@
                == self.search_input@.insert(self.cursor_position as int, c)
                && after.cursor_position == self.cursor_position + 1,
            Transition::NextResult => action == ActionView::Nothing
                && self.unchanged_but_result_cursor(after) && after.search_results_state.selected
                == if self.search_results@.len() == 0 {
                self.search_results_state.selected
            } else {
                Some(
                    row_after(
                        self.search_results_state.selected,
                        self.search_results@.len() as int,
                    ) as usize,
                )
            },
            Transition::PreviousResult => action == ActionView::Nothing
                && self.unchanged_but_result_cursor(after) && after.search_results_state.selected
                == if self.search_results@.len() == 0 {
                self.search_results_state.selected
            } else {
                Some(
                    row_before(
                        self.search_results_state.selected,
                        self.search_results@.len() as int,
                    ) as usize,
                )
            },
            Transition::CloseResults => self.close_results_effect(after) && action
                == ActionView::Nothing,
            Transition::PlayResult => self.play_result_effect(after, action),
        }
    }

    /// Applies a key press at time `now`, and returns the work that it
    /// leaves to the caller.
    pub fn handle_key(&mut self, key: &KeyEvent, now: u64) -> (action: Action)
        requires
            old(self).well_formed(),
        ensures
            old(self).key_effect(*final(self), action@, *key, now),
            final(self).well_formed(),
    {
        match classify(self.input_mode, self.current_tab, key) {
            Transition::Ignore => Action::Nothing,
            Transition::Quit => Action::Quit,
            Transition::StartEditing => {
                self.input_mode = InputMode::Editing;
                Action::Nothing
            },
            Transition::Scope => {
                self.scope_key(key);
                Action::Nothing
            },
            Transition::PauseToggle => self.toggle_pause(now),
            Transition::VolumeUp => self.step_volume(true),
            Transition::VolumeDown => self.step_volume(false),
            Transition::NextStation => {
                self.next_station();
                Action::Nothing
            },
            Transition::PreviousStation => {
                self.previous_station();
                Action::Nothing
            },
            Transition::NextTab => {
                self.next_tab();
                Action::Nothing
            },
            Transition::PreviousTab => {
                self.previous_tab();
                Action::Nothing
            },
            Transition::NamePlaylist => {
                self.input_mode = InputMode::PlaylistNameInput;
                Action::Nothing
            },
            Transition::OpenPlaylist => self.open_playlist(),
            Transition::RefreshPlaylists => if self.db_open {
                Action::RefreshPlaylists
            } else {
                Action::Nothing
            },
            Transition::SubmitPlaylistName => self.submit_playlist_name(),
            Transition::CancelPlaylistName => {
                self.name_box_key(Transition::CancelPlaylistName);
                Action::Nothing
            },
            Transition::NameBackspace => {
                self.name_box_key(Transition::NameBackspace);
                Action::Nothing
            },
            Transition::NameChar(c) => {
                self.name_box_key(Transition::NameChar(c));
                Action::Nothing
            },
            Transition::NextSong => {
                self.songs_key(Transition::NextSong);
                Action::Nothing
            },
            Transition::PreviousSong => {
                self.songs_key(Transition::PreviousSong);
                Action::Nothing
            },
            Transition::ClosePlaylist => {
                self.songs_key(Transition::ClosePlaylist);
                Action::Nothing
            },
            Transition::PlaySong => self.play_song(),
            Transition::SubmitSearch => self.submit_search(),
            Transition::StopEditing => {
                self.input_mode = InputMode::Normal;
                Action::Nothing
            },
            Transition::DeleteChar => {
                self.delete_char();
                Action::Nothing
            },
            Transition::CursorLeft => {
                self.move_cursor_left();
                Action::Nothing
            },
            Transition::CursorRight => {
                let len: usize = self.search_input.as_str().unicode_len();
                self.move_cursor_right();
                Action::Nothing
            },
            Transition::TypeChar(c) => {
                self.enter_char(c);
                Action::Nothing
            },
            Transition::NextResult => {
                self.next_search_result();
                Action::Nothing
            },
            Transition::PreviousResult => {
                self.previous_search_result();
                Action::Nothing
            },
            Transition::CloseResults => {
                self.close_results();
                Action::Nothing
            },
            Transition::PlayResult => self.play_result(),
        }
    }

    /// The interface as it starts: on the radio tab with Radio Freedom
    /// selected, in normal mode, nothing searched or loaded, the scope in the
    /// time domain at scale one over 200 samples and 200 cells.
    pub fn new(player: AudioPlayer, db_open: bool) -> (app: App)
        requires
            player.well_formed(),
        ensures
            app.well_formed(),
            app.player == player,
            app.db_open == db_open,
            app.current_tab == RADIO_TAB,
            app.radio_state.selected == Some(3usize),
            station_texts(app.radio_stations@) == station_names(),
            app.input_mode == InputMode::Normal,
            app.search_input@.len() == 0 && app.cursor_position == 0,
            app.loading_status is None && !app.is_loading,
            app.search_results@.len() == 0 && app.search_results_state.selected is None,
            app.playlists@.len() == 0 && app.playlist_state.selected is None,
            app.playlist_songs@.len() == 0 && app.playlist_songs_state.selected is None,
            app.playlist_input_name@.len() == 0 && app.viewing_playlist_id is None,
            !app.oscilloscope.vectorscope && app.oscilloscope.frame() == Seq::<Trace>::empty(),
            app.graph_config.samples == 200 && app.graph_config.width == 200,
            app.graph_config.sampling_rate == player.sample_rate,
            app.graph_config.scale == crate::fixed::SCALE_ONE,
            !app.graph_config.pause && !app.graph_config.scatter && !app.graph_config.references
                && !app.graph_config.show_ui,
            app.graph_config.palette@ == seq![PIPBOY_GREEN, COLOR_RED],
            app.graph_config.labels_color == PIPBOY_GREEN,
            app.graph_config.axis_color == Color::DarkGray,
    {
        let mut palette: Vec<Color> = Vec::new();
        palette.push(PIPBOY_GREEN);
        palette.push(COLOR_RED);
        let graph_config = GraphConfig {
            pause: false,
            samples: 200,
            sampling_rate: player.sample_rate,
            scale: crate::fixed::SCALE_ONE,
            width: 200,
            scatter: false,
            references: false,
            show_ui: false,
            palette,
            labels_color: PIPBOY_GREEN,
            axis_color: Color::DarkGray,
        };
        let mut radio_stations: Vec<String> = Vec::new();
        radio_stations.push(String::from_str("Classical Radio"));
        radio_stations.push(String::from_str("Diamond City Radio"));
        radio_stations.push(String::from_str("Nuka-Cola Family Radio"));
        radio_stations.push(String::from_str("Radio Freedom"));
        radio_stations.push(String::from_str("Distress Signal"));
        radio_stations.push(String::from_str("Distress Signal"));
        radio_stations.push(String::from_str("Distress Signal"));
        radio_stations.push(String::from_str("Emergency Frequency RJ1138"));
        radio_stations.push(String::from_str("Military Frequency AF95"));
        radio_stations.push(String::from_str("Silver Shroud Radio"));
        App {
            current_tab: RADIO_TAB,
            radio_state: ListState { selected: Some(3) },
            radio_stations,
            player,
            oscilloscope: Oscilloscope::new(),
            graph_config,
            input_mode: InputMode::Normal,
            search_input: String::new(),
            cursor_position: 0,
            loading_status: None,
            is_loading: false,
            search_results: Vec::new(),
            search_results_state: ListState::new(),
            db_open,
            playlists: Vec::new(),
            playlist_state: ListState::new(),
            playlist_songs: Vec::new(),
            playlist_songs_state: ListState::new(),
            playlist_input_name: String::new(),
            viewing_playlist_id: None,
        }
    }

    /// The effect of a report from a background task.
    pub open spec fn app_event_effect(self, after: Self, action: ActionView, event: AppEvent) -> bool {
        match event {
            AppEvent::AudioLoaded(path) => {
                &&& after == (App {
                    is_loading: false,
                    loading_status: after.loading_status,
                    current_tab: RADIO_TAB,
                    ..self
                })
                &&& status_text(after.loading_status) == Some("Playing URL"@)
                &&& action == ActionView::PlayFile(path@)
            },
            AppEvent::AudioError(message) => {
                &&& after == (App {
                    is_loading: false,
                    loading_status: after.loading_status,
                    ..self
                })
                &&& status_text(after.loading_status) == Some("Error: "@ + message@)
                &&& action == ActionView::Nothing
            },
            AppEvent::SearchFinished(results) => {
                &&& after == (App {
                    is_loading: false,
                    loading_status: after.loading_status,
                    search_results: results,
                    search_results_state: after.search_results_state,
                    input_mode: after.input_mode,
                    ..self
                })
                &&& status_text(after.loading_status) == Some(
                    "Found "@ + decimal_text(results@.len()) + " results"@,
                )
                &&& if results@.len() > 0 {
                    after.search_results_state.selected == Some(0usize) && after.input_mode
                        == InputMode::SearchResults
                } else {
                    after.search_results_state == self.search_results_state && after.input_mode
                        == InputMode::Normal
                }
                &&& action == ActionView::Nothing
            },
            AppEvent::SearchError(message) => {
                &&& after == (App {
                    is_loading: false,
                    loading_status: after.loading_status,
                    input_mode: InputMode::Normal,
                    ..self
                })
                &&& status_text(after.loading_status) == Some("Search Error: "@ + message@)
                &&& action == ActionView::Nothing
            },
        }
    }

    /// Takes up a report from a background task.
    pub fn on_app_event(&mut self, event: AppEvent) -> (action: Action)
        ensures
            old(self).app_event_effect(*final(self), action@, event),
            old(self).well_formed() ==> final(self).well_formed(),
    {
        self.is_loading = false;
        match event {
            AppEvent::AudioLoaded(path) => {
                self.loading_status = Some(String::from_str("Playing URL"));
                self.current_tab = RADIO_TAB;
                Action::PlayFile(path)
            },
            AppEvent::AudioError(message) => {
                self.loading_status = Some(joined("Error: ", message.as_str()));
                Action::Nothing
            },
            AppEvent::SearchFinished(results) => {
                let mut line = String::from_str("Found ");
                push_decimal(&mut line, results.len() as u64);
                line.append(" results");
                self.loading_status = Some(line);
                if results.len() > 0 {
                    self.search_results_state.select(Some(0));
                    self.input_mode = InputMode::SearchResults;
                } else {
                    self.input_mode = InputMode::Normal;
                }
                self.search_results = results;
                Action::Nothing
            },
            AppEvent::SearchError(message) => {
                self.loading_status = Some(joined("Search Error: ", message.as_str()));
                self.input_mode = InputMode::Normal;
                Action::Nothing
            },
        }
    }

    /// Takes up the songs of the playlist in view, which `LoadSongs` asked
    /// for: they are shown with the first one selected. Nothing where they
    /// could not be read.
    pub fn songs_loaded(&mut self, songs: Option<Vec<PlaylistEntry>>)
        ensures
            match songs {
                Some(list) => *final(self) == (App {
                    playlist_songs: list,
                    playlist_songs_state: ListState { selected: Some(0usize) },
                    input_mode: InputMode::PlaylistNavigation,
                    ..*old(self)
                }),
                None => *final(self) == *old(self),
            },
    {
        match songs {
            Some(list) => {
                self.playlist_songs = list;
                self.playlist_songs_state.select(Some(0));
                self.input_mode = InputMode::PlaylistNavigation;
            },
            None => {},
        }
    }

    /// Takes up the playlists, which `RefreshPlaylists` asked for, and
    /// selects the first where none was selected. Nothing where they could
    /// not be read.
    pub fn playlists_refreshed(&mut self, playlists: Option<Vec<Playlist>>)
        ensures
            match playlists {
                Some(list) => *final(self) == (App {
                    playlists: list,
                    playlist_state: if list@.len() > 0 && old(self).playlist_state.selected is None {
                        ListState { selected: Some(0usize) }
                    } else {
                        old(self).playlist_state
                    },
                    ..*old(self)
                }),
                None => *final(self) == *old(self),
            },
    {
        match playlists {
            Some(list) => {
                if list.len() > 0 && self.playlist_state.selected().is_none() {
                    self.playlist_state.select(Some(0));
                }
                self.playlists = list;
            },
            None => {},
        }
    }

    /// Takes up the playlists, which `ReloadPlaylists` asked for. Nothing
    /// where they could not be read.
    pub fn playlists_reloaded(&mut self, playlists: Option<Vec<Playlist>>)
        ensures
            match playlists {
                Some(list) => *final(self) == (App { playlists: list, ..*old(self) }),
                None => *final(self) == *old(self),
            },
    {
        match playlists {
            Some(list) => {
                self.playlists = list;
            },
            None => {},
        }
    }

    /// Takes up the outcome of `CreatePlaylist`: the status line says what
    /// happened, and after a success the playlists are to be read again.
    pub fn playlist_created(&mut self, name: &str, error: Option<&str>) -> (action: Action)
        ensures
            *final(self) == (App { loading_status: final(self).loading_status, ..*old(self) }),
            match error {
                Some(message) => status_text(final(self).loading_status) == Some(
                    "Error creating playlist: "@ + message@,
                ) && action@ == ActionView::Nothing,
                None => status_text(final(self).loading_status) == Some(
                    "Created playlist: "@ + name@,
                ) && action@ == ActionView::ReloadPlaylists,
            },
    {
        match error {
            Some(message) => {
                self.loading_status = Some(joined("Error creating playlist: ", message));
                Action::Nothing
            },
            None => {
                self.loading_status = Some(joined("Created playlist: ", name));
                Action::ReloadPlaylists
            },
        }
    }

    /// Whether an event is a key of the oscilloscope's own, which reaches it
    /// in every mode while the radio tab shows: the mode and the reference.
    pub open spec fn reaches_scope(self, event: Event) -> bool {
        self.current_tab == RADIO_TAB && (intent_of(event) == Some(Intent::ToggleMode)
            || intent_of(event) == Some(Intent::ToggleReference))
    }

    /// The effect of a terminal event at time `now`: a key of the
    /// oscilloscope's own first reaches the oscilloscope; every key then has
    /// the effect of `key_effect`; any other event has none.
    pub open spec fn event_effect(self, after: Self, action: ActionView, event: Event, now: u64) -> bool {
        match event {
            Event::Key(key) => if self.reaches_scope(event) {
                exists|between: App| #[trigger]
                    self.scope_effect(between, key) && between.key_effect(after, action, key, now)
            } else {
                self.key_effect(after, action, key, now)
            },
            _ => after == self && action == ActionView::Nothing,
        }
    }

    /// Applies a terminal event at time `now`, and returns the work that it
    /// leaves to the caller.
    pub fn handle_event(&mut self, event: &Event, now: u64) -> (action: Action)
        requires
            old(self).well_formed(),
        ensures
            old(self).event_effect(*final(self), action@, *event, now),
            final(self).well_formed(),
    {
        match event {
            Event::Key(key) => {
                let intent = crate::oscilloscope::recognize(event);
                let own: bool = match intent {
                    Some(Intent::ToggleMode) => true,
                    Some(Intent::ToggleReference) => true,
                    _ => false,
                };
                if self.current_tab == RADIO_TAB && own {
                    self.scope_key(key);
                    let ghost between = *self;
                    let action = self.handle_key(key, now);
                    assert(old(self).scope_effect(between, *key) && between.key_effect(
                        *self,
                        action@,
                        *key,
                        now,
                    ));
                    action
                } else {
                    self.handle_key(key, now)
                }
            },
            _ => Action::Nothing,
        }
    }
}

} // verus!
