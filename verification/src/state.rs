//! What the player shares with everyone who asks: its queue, the index of the
//! current track and whether it plays; and the events that tell of them.

use vstd::prelude::*;

use crate::song::{copy_queue, songs, Song, SongView};

verus! {

/// The shared state, as its texts and numbers.
pub struct PlaybackView {
    pub current_index: u32,
    pub queue: Seq<SongView>,
    pub is_playing: bool,
    pub paused: bool,
}

/// The queue status that clients are shown, as its texts and numbers.
pub struct StatusView {
    pub current_index: u32,
    pub queue: Seq<SongView>,
    pub is_playing: bool,
}

impl PlaybackView {
    /// What clients are shown of the state.
    pub open spec fn status(self) -> StatusView {
        StatusView {
            current_index: self.current_index,
            queue: self.queue,
            is_playing: self.is_playing,
        }
    }
}

/// The shared state of the player. It is paused where a pause has stopped it
/// from playing, so that the next pause lets it play on.
#[derive(Debug)]
pub struct AppState {
    pub(crate) song_queue: Vec<Song>,
    pub(crate) current_index: u32,
    pub(crate) is_playing: bool,
    pub(crate) paused: bool,
}

/// The queue status that clients are shown.
#[derive(Debug)]
pub struct QueueStatus {
    pub current_index: u32,
    pub queue: Vec<Song>,
    pub is_playing: bool,
}

impl View for AppState {
    type V = PlaybackView;

    closed spec fn view(&self) -> PlaybackView {
        PlaybackView {
            current_index: self.current_index,
            queue: songs(self.song_queue@),
            is_playing: self.is_playing,
            paused: self.paused,
        }
    }
}

impl View for QueueStatus {
    type V = StatusView;

    open spec fn view(&self) -> StatusView {
        StatusView {
            current_index: self.current_index,
            queue: songs(self.queue@),
            is_playing: self.is_playing,
        }
    }
}

/// The state that a server starts with: an empty queue, nothing playing.
pub open spec fn initial_state() -> PlaybackView {
    PlaybackView { current_index: 0, queue: Seq::empty(), is_playing: false, paused: false }
}

/// The state with the player shown as playing, or as not playing; either way
/// it is not paused.
pub open spec fn shown_playing(state: PlaybackView, playing: bool) -> PlaybackView {
    PlaybackView { is_playing: playing, paused: false, ..state }
}

/// The state after a pause: what played is paused, what was paused plays on,
/// and where there was neither nothing changes.
pub open spec fn pause_toggled(state: PlaybackView) -> PlaybackView {
    if state.is_playing {
        PlaybackView { is_playing: false, paused: true, ..state }
    } else if state.paused {
        PlaybackView { is_playing: true, paused: false, ..state }
    } else {
        state
    }
}

/// The state after the track that was playing has ended: the index counts on,
/// and wraps after the largest.
pub open spec fn after_track(state: PlaybackView) -> PlaybackView {
    PlaybackView {
        current_index: if state.current_index == u32::MAX {
            0
        } else {
            (state.current_index + 1) as u32
        },
        ..state
    }
}

impl AppState {
    /// An empty queue, nothing playing.
    pub fn new() -> (state: AppState)
        ensures
            state@ == initial_state(),
    {
        let state = AppState {
            song_queue: Vec::new(),
            current_index: 0,
            is_playing: false,
            paused: false,
        };
        proof {
            assert(songs(state.song_queue@) =~= Seq::<SongView>::empty());
        }
        state
    }

    /// The queue status that clients are shown: the state as it is.
    pub fn get_queue(&self) -> (status: QueueStatus)
        ensures
            status@ == self@.status(),
    {
        QueueStatus {
            current_index: self.current_index,
            queue: copy_queue(&self.song_queue),
            is_playing: self.is_playing,
        }
    }

    /// Counts the track that has ended, and hands out the status to broadcast.
    pub fn track_finished(&mut self) -> (status: QueueStatus)
        ensures
            final(self)@ == after_track(old(self)@),
            status@ == final(self)@.status(),
    {
        self.current_index = self.current_index.wrapping_add(1);
        self.get_queue()
    }

    pub(crate) fn set_playing(&mut self, playing: bool)
        ensures
            final(self)@ == shown_playing(old(self)@, playing),
    {
        self.is_playing = playing;
        self.paused = false;
    }

    pub(crate) fn toggle_pause(&mut self)
        ensures
            final(self)@ == pause_toggled(old(self)@),
    {
        if self.is_playing {
            self.is_playing = false;
            self.paused = true;
        } else if self.paused {
            self.is_playing = true;
            self.paused = false;
        }
    }

    pub(crate) fn reset_index(&mut self)
        ensures
            final(self)@ == (PlaybackView { current_index: 0, ..old(self)@ }),
    {
        self.current_index = 0;
    }

    pub(crate) fn queue_len(&self) -> (len: usize)
        ensures
            len == self@.queue.len(),
    {
        self.song_queue.len()
    }

    pub(crate) fn song_at(&self, index: usize) -> (song: &Song)
        requires
            index < self@.queue.len(),
        ensures
            song@ == self@.queue[index as int],
    {
        &self.song_queue[index]
    }

    pub(crate) fn push_song(&mut self, song: Song)
        ensures
            final(self)@ == (PlaybackView { queue: old(self)@.queue.push(song@), ..old(self)@ }),
    {
        let ghost before = self.song_queue@;
        self.song_queue.push(song);
        proof {
            assert(songs(self.song_queue@) =~= songs(before).push(song@));
        }
    }

    pub(crate) fn clear_queue(&mut self)
        ensures
            final(self)@ == (PlaybackView { queue: Seq::empty(), ..old(self)@ }),
    {
        self.song_queue.clear();
        proof {
            assert(songs(self.song_queue@) =~= Seq::<SongView>::empty());
        }
    }

    pub(crate) fn drop_songs(&mut self, count: usize)
        requires
            count <= old(self)@.queue.len(),
        ensures
            final(self)@ == (PlaybackView {
                queue: old(self)@.queue.skip(count as int),
                ..old(self)@
            }),
    {
        let ghost before = self.song_queue@;
        let rest = self.song_queue.split_off(count);
        self.song_queue = rest;
        proof {
            assert(songs(self.song_queue@) =~= songs(before).skip(count as int));
        }
    }
}

/// An event of the server's event stream.
#[derive(Debug, PartialEq, Eq)]
pub struct SseEvent {
    pub event_type: String,
    pub data: String,
}

/// Frames a queue status for the event stream: `json` is its JSON text, or
/// `None` where it could not be written, and then there is nothing to send.
pub fn queue_update(json: Option<String>) -> (event: Option<SseEvent>)
    ensures
        event is Some <==> json is Some,
        event matches Some(e) ==> e.event_type@ == "queue_update"@ && e.data@ == json->0@,
{
    match json {
        Some(data) => Some(SseEvent { event_type: "queue_update".to_owned(), data }),
        None => None,
    }
}

/// The status shows the state: its queue, its index and whether it plays.
pub proof fn law_status_shows_state(state: PlaybackView, status: QueueStatus)
    ensures
        state.status().current_index == state.current_index,
        state.status().queue == state.queue,
        state.status().is_playing == state.is_playing,
        status@.current_index == status.current_index,
        status@.queue == songs(status.queue@),
        status@.is_playing == status.is_playing,
{
}

/// A server starts with no song, at the first index, neither playing nor
/// paused.
pub proof fn law_starts_silent()
    ensures
        initial_state().queue.len() == 0,
        initial_state().current_index == 0,
        !initial_state().is_playing,
        !initial_state().paused,
{
}

/// The end of a track counts the index on by one, from the largest to 0, and
/// touches nothing else.
pub proof fn law_track_end_counts(state: PlaybackView)
    ensures
        after_track(state).current_index == (state.current_index + 1) % 0x1_0000_0000,
        after_track(state).queue == state.queue,
        after_track(state).is_playing == state.is_playing,
        after_track(state).paused == state.paused,
{
}

/// A pause turns playing into paused and paused into playing, starts nothing
/// that was not paused, and leaves the queue and the index.
pub proof fn law_pause_turns_over(state: PlaybackView)
    ensures
        state.is_playing ==> !pause_toggled(state).is_playing && pause_toggled(state).paused,
        !state.is_playing && state.paused ==> pause_toggled(state).is_playing
            && !pause_toggled(state).paused,
        !state.is_playing && !state.paused ==> !pause_toggled(state).is_playing
            && !pause_toggled(state).paused,
        pause_toggled(state).queue == state.queue,
        pause_toggled(state).current_index == state.current_index,
{
}

/// What is shown as playing or not is shown so, is not paused, and keeps its
/// queue and index.
pub proof fn law_shown_as_told(state: PlaybackView, playing: bool)
    ensures
        shown_playing(state, playing).is_playing == playing,
        !shown_playing(state, playing).paused,
        shown_playing(state, playing).queue == state.queue,
        shown_playing(state, playing).current_index == state.current_index,
{
}

} // verus!
