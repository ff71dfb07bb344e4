//! Tracks, sessions, and the track index: the mapping from an absolute
//! session position to a track and an offset inside it.
//!
//! All times are whole milliseconds in session-global time.

use vstd::prelude::*;

verus! {

/// One contiguous audio file of a session.
#[derive(Debug, Clone, PartialEq, Eq)]
pub struct Track {
    /// Where the track begins, in session-global time.
    pub start_offset: i64,
    /// How long the track lasts.
    pub duration: i64,
    /// Where the server streams the track from.
    pub content_url: String,
    /// Path of the audio file on the server's own file system, if known.
    pub local_path: Option<String>,
}

/// What the server says there is to play: the tracks in playing order and
/// the position that was reached last.
#[derive(Debug, Clone, PartialEq, Eq)]
pub struct Session {
    pub tracks: Vec<Track>,
    pub current_time: i64,
}

/// The session-global time at which a track ends.
pub open spec fn track_end(t: Track) -> int {
    t.start_offset + t.duration
}

/// The invariant of a track list: no duration is negative, start offsets
/// never decrease, and no track begins before the one in front of it ends.
pub open spec fn well_formed(tracks: Seq<Track>) -> bool {
    &&& forall|i: int| 0 <= i < tracks.len() ==> (#[trigger] tracks[i]).duration >= 0
    &&& forall|i: int|
        0 <= i && i + 1 < tracks.len() ==> (#[trigger] tracks[i]).start_offset <= tracks[i
            + 1].start_offset
    &&& forall|i: int|
        0 <= i && i + 1 < tracks.len() ==> track_end(#[trigger] tracks[i]) <= tracks[i
            + 1].start_offset
}

/// The first track at or after index `from` that ends at or after
/// `position`, with the distance from that track's start to `position`.
pub open spec fn locate_from(tracks: Seq<Track>, position: int, from: int) -> Option<(int, int)>
    decreases tracks.len() - from,
{
    if from < 0 || from >= tracks.len() {
        None
    } else if track_end(tracks[from]) >= position {
        Some((from, position - tracks[from].start_offset))
    } else {
        locate_from(tracks, position, from + 1)
    }
}

/// The track index: the first track that ends at or after `position`, and
/// the offset of `position` inside it. `None` when every track ends before
/// `position`.
pub open spec fn located(tracks: Seq<Track>, position: int) -> Option<(int, int)> {
    locate_from(tracks, position, 0)
}

/// Whether `position` lies inside some track, both ends included.
pub open spec fn within_some_track(tracks: Seq<Track>, position: int) -> bool {
    exists|j: int|
        0 <= j < tracks.len() && (#[trigger] tracks[j]).start_offset <= position <= track_end(
            tracks[j],
        )
}

/// What `locate_from` finds, said without recursion: the found track ends
/// at or after `position`, every track between `from` and it ends before
/// `position`, and nothing is found exactly when all of them end before it.
pub proof fn lemma_locate_from(tracks: Seq<Track>, position: int, from: int)
    requires
        0 <= from <= tracks.len(),
    ensures
        match locate_from(tracks, position, from) {
            Some((i, offset)) => {
                &&& from <= i < tracks.len()
                &&& track_end(tracks[i]) >= position
                &&& offset == position - tracks[i].start_offset
                &&& forall|j: int| from <= j < i ==> track_end(#[trigger] tracks[j]) < position
            },
            None => forall|j: int|
                from <= j < tracks.len() ==> track_end(#[trigger] tracks[j]) < position,
        },
    decreases tracks.len() - from,
{
    if from < tracks.len() && track_end(tracks[from]) < position {
        lemma_locate_from(tracks, position, from + 1);
    }
}

/// In a well-formed track list an earlier track ends no later than any
/// later track begins, and so no later than it ends.
pub proof fn lemma_tracks_ordered(tracks: Seq<Track>, i: int, j: int)
    requires
        well_formed(tracks),
        0 <= i < j < tracks.len(),
    ensures
        track_end(tracks[i]) <= tracks[j].start_offset,
        track_end(tracks[i]) <= track_end(tracks[j]),
    decreases j - i,
{
    if i + 1 < j {
        lemma_tracks_ordered(tracks, i, j - 1);
        assert(track_end(tracks[j - 1]) <= tracks[j].start_offset);
    } else {
        assert(track_end(tracks[i]) <= tracks[i + 1].start_offset);
    }
}

/// A position inside some track of a well-formed list is found in exactly
/// one place: the offset runs from zero to the track's duration and
/// reaches the duration only at the track's end; every earlier track ends
/// before the position and no later track begins before it.
pub proof fn lemma_position_within_track(tracks: Seq<Track>, position: int)
    requires
        well_formed(tracks),
        within_some_track(tracks, position),
    ensures
        match located(tracks, position) {
            Some((i, offset)) => {
                &&& 0 <= i < tracks.len()
                &&& 0 <= offset <= tracks[i].duration
                &&& (offset < tracks[i].duration <==> position != track_end(tracks[i]))
                &&& forall|j: int| 0 <= j < i ==> track_end(#[trigger] tracks[j]) < position
                &&& forall|j: int|
                    i < j < tracks.len() ==> position <= (#[trigger] tracks[j]).start_offset
            },
            None => false,
        },
{
    lemma_locate_from(tracks, position, 0);
    let w = choose|j: int|
        0 <= j < tracks.len() && (#[trigger] tracks[j]).start_offset <= position <= track_end(
            tracks[j],
        );
    assert(track_end(tracks[w]) >= position);
    let (i, offset) = located(tracks, position).unwrap();
    assert(i <= w);
    if i < w {
        lemma_tracks_ordered(tracks, i, w);
    }
    assert(tracks[i].start_offset <= position);
    assert forall|j: int| i < j < tracks.len() implies position <= (
    #[trigger] tracks[j]).start_offset by {
        lemma_tracks_ordered(tracks, i, j);
    }
}

/// A position exactly at the end of track `i` of a well-formed list
/// resolves to that track or an earlier one, at the very end of the track
/// found, and never to a later track. When track `i` has a positive
/// duration the position resolves to track `i` itself.
pub proof fn lemma_boundary_resolves_to_earlier(tracks: Seq<Track>, i: int)
    requires
        well_formed(tracks),
        0 <= i < tracks.len(),
    ensures
        match located(tracks, track_end(tracks[i])) {
            Some((k, offset)) => {
                &&& 0 <= k <= i
                &&& offset == tracks[k].duration
                &&& (tracks[i].duration > 0 ==> k == i)
            },
            None => false,
        },
{
    let position = track_end(tracks[i]);
    lemma_locate_from(tracks, position, 0);
    let (k, offset) = located(tracks, position).unwrap();
    if k < i {
        lemma_tracks_ordered(tracks, k, i);
    }
}

/// The end of the last track: the total duration of the session. Zero for
/// an empty list.
pub open spec fn total_duration(tracks: Seq<Track>) -> int {
    if tracks.len() == 0 {
        0
    } else {
        track_end(tracks.last())
    }
}

/// In a well-formed, non-empty track list a position is out of range
/// exactly when it lies beyond the total duration.
pub proof fn lemma_out_of_range_is_beyond_total(tracks: Seq<Track>, position: int)
    requires
        well_formed(tracks),
        tracks.len() > 0,
    ensures
        located(tracks, position) is None <==> position > total_duration(tracks),
{
    lemma_locate_from(tracks, position, 0);
    let last = tracks.len() - 1;
    if located(tracks, position) is Some {
        let (i, offset) = located(tracks, position).unwrap();
        if i < last {
            lemma_tracks_ordered(tracks, i, last);
        }
    } else {
        assert(track_end(tracks[last]) < position);
    }
}

/// Finds the track that an absolute position falls into.
///
/// Returns the index of the first track whose end is at or after
/// `position`, together with `position` minus that track's start offset.
/// The offset is negative when `position` lies in front of the track found.
/// Returns `None` when every track ends before `position`.
pub fn locate(tracks: &Vec<Track>, position: i64) -> (result: Option<(usize, i128)>)
    ensures
        match result {
            Some((i, offset)) => {
                &&& located(tracks@, position as int) == Some((i as int, offset as int))
                &&& i < tracks.len()
                &&& track_end(tracks[i as int]) >= position
                &&& offset == position - tracks[i as int].start_offset
                &&& forall|j: int| 0 <= j < i ==> track_end(#[trigger] tracks[j]) < position
            },
            None => {
                &&& located(tracks@, position as int) is None
                &&& forall|j: int|
                    0 <= j < tracks.len() ==> track_end(#[trigger] tracks[j]) < position
            },
        },
{
    let mut index: usize = 0;
    while index < tracks.len()
        invariant
            index <= tracks.len(),
            located(tracks@, position as int) == locate_from(
                tracks@,
                position as int,
                index as int,
            ),
        decreases tracks.len() - index,
    {
        let track = &tracks[index];
        let end: i128 = track.start_offset as i128 + track.duration as i128;
        if end >= position as i128 {
            let offset: i128 = position as i128 - track.start_offset as i128;
            proof {
                lemma_locate_from(tracks@, position as int, 0);
            }
            return Some((index, offset));
        }
        index += 1;
    }
    proof {
        lemma_locate_from(tracks@, position as int, 0);
    }
    None
}

/// Checks the invariant of a track list.
pub fn is_well_formed(tracks: &Vec<Track>) -> (ok: bool)
    ensures
        ok == well_formed(tracks@),
{
    let mut index: usize = 0;
    while index < tracks.len()
        invariant
            index <= tracks.len(),
            forall|i: int| 0 <= i < index ==> (#[trigger] tracks[i]).duration >= 0,
            forall|i: int|
                0 <= i < index && i + 1 < tracks.len() ==> (#[trigger] tracks[i]).start_offset
                    <= tracks[i + 1].start_offset,
            forall|i: int|
                0 <= i < index && i + 1 < tracks.len() ==> track_end(#[trigger] tracks[i])
                    <= tracks[i + 1].start_offset,
        decreases tracks.len() - index,
    {
        let track = &tracks[index];
        if track.duration < 0 {
            return false;
        }
        if tracks.len() - index > 1 {
            let next = &tracks[index + 1];
            if track.start_offset > next.start_offset {
                return false;
            }
            if track.start_offset as i128 + track.duration as i128 > next.start_offset as i128 {
                assert(track_end(tracks[index as int]) > tracks[index + 1].start_offset);
                return false;
            }
        }
        index += 1;
    }
    true
}

impl Session {
    /// The total duration of the session: the end of its last track, or
    /// zero if it has none.
    pub fn total_duration(&self) -> (total: i128)
        ensures
            total == total_duration(self.tracks@),
    {
        if self.tracks.len() == 0 {
            0
        } else {
            let last = &self.tracks[self.tracks.len() - 1];
            last.start_offset as i128 + last.duration as i128
        }
    }
}

} // verus!
