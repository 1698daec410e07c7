//! The rows of the playlist database.

use vstd::prelude::*;

verus! {

/// A named playlist.
#[derive(Debug, Clone, PartialEq, Eq)]
pub struct Playlist {
    pub id: i64,
    pub name: String,
}

/// One song of a playlist.
#[derive(Debug, Clone, PartialEq, Eq)]
pub struct PlaylistEntry {
    pub id: i64,
    pub playlist_id: i64,
    pub url: String,
    pub title: String,
    /// The place of the song in its playlist, from 1.
    pub position: i32,
}

/// The position that a song added to a playlist gets, given the highest
/// position in it so far: one after it, and 1 in an empty playlist.
pub open spec fn position_after(highest: Option<i32>) -> int {
    match highest {
        Some(position) => position + 1,
        None => 1,
    }
}

/// The position for a song added to a playlist whose highest position so
/// far is `highest`.
pub fn next_position(highest: Option<i32>) -> (position: i32)
    requires
        highest != Some(i32::MAX),
    ensures
        position == position_after(highest),
{
    match highest {
        Some(position) => position + 1,
        None => 1,
    }
}

} // verus!
