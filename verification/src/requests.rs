//! The requests: what each one makes of the shared state, which command it
//! sends to the audio player, and what it is answered.
//!
//! A request is taken in two halves, for its command has to be sent in
//! between. The function of the request decides, and `command_sent` gives the
//! answer once it is known whether the command could be sent.

use vstd::prelude::*;
use vstd::string::*;

use crate::player::{AudioCommand, CommandView};
use crate::song::{law_song_lies_in_its_album, request_song, requested_song, SongView};
use crate::state::{pause_toggled, shown_playing, AppState, PlaybackView};

verus! {

/// A request whose command is being sent.
#[derive(Debug, PartialEq, Eq)]
pub enum Pending {
    Stop,
    Play { artist: String, song: String },
    AddToQueue { song: String },
    PlayQueueIndex { title: String },
    Next,
    Previous,
    Pause,
    SetVolume { shown: String },
}

/// A request whose command is being sent, as its texts.
pub enum PendingView {
    Stop,
    Play { artist: Seq<char>, song: Seq<char> },
    AddToQueue { song: Seq<char> },
    PlayQueueIndex { title: Seq<char> },
    Next,
    Previous,
    Pause,
    SetVolume { shown: Seq<char> },
}

impl View for Pending {
    type V = PendingView;

    open spec fn view(&self) -> PendingView {
        match *self {
            Pending::Stop => PendingView::Stop,
            Pending::Play { artist, song } => PendingView::Play { artist: artist@, song: song@ },
            Pending::AddToQueue { song } => PendingView::AddToQueue { song: song@ },
            Pending::PlayQueueIndex { title } => PendingView::PlayQueueIndex { title: title@ },
            Pending::Next => PendingView::Next,
            Pending::Previous => PendingView::Previous,
            Pending::Pause => PendingView::Pause,
            Pending::SetVolume { shown } => PendingView::SetVolume { shown: shown@ },
        }
    }
}

/// What comes of a request: an answer, or a command to send first.
#[derive(Debug, PartialEq, Eq)]
pub enum Outcome {
    Answer(String),
    Send(AudioCommand, Pending),
}

/// What comes of a request, as its texts.
pub enum OutcomeView {
    Answer(Seq<char>),
    Send(CommandView, PendingView),
}

impl View for Outcome {
    type V = OutcomeView;

    open spec fn view(&self) -> OutcomeView {
        match *self {
            Outcome::Answer(text) => OutcomeView::Answer(text@),
            Outcome::Send(command, pending) => OutcomeView::Send(command@, pending@),
        }
    }
}

/// A volume that a request asks for: the bits of the number, and the number
/// as it is shown.
#[derive(Debug, PartialEq, Eq)]
pub struct AskedVolume {
    pub bits: u32,
    pub shown: String,
}

/// The state with a song added to the queue.
pub open spec fn with_song(
    state: PlaybackView,
    artist: Seq<char>,
    album: Seq<char>,
    song: Seq<char>,
) -> PlaybackView {
    PlaybackView { queue: state.queue.push(requested_song(artist, album, song)), ..state }
}

/// The state after a request to play a song.
pub open spec fn after_play_song(
    state: PlaybackView,
    artist: Seq<char>,
    album: Seq<char>,
    song: Seq<char>,
) -> PlaybackView {
    PlaybackView { current_index: 0, ..shown_playing(with_song(state, artist, album, song), true) }
}

/// The state after a request to add a song to the queue: where no command is
/// sent, the player is shown as playing at once.
pub open spec fn after_add_to_queue(
    state: PlaybackView,
    artist: Seq<char>,
    album: Seq<char>,
    song: Seq<char>,
) -> PlaybackView {
    let added = with_song(state, artist, album, song);
    if state.queue.len() == 0 {
        added
    } else {
        shown_playing(added, true)
    }
}

/// The state after a request to jump to a song of the queue.
pub open spec fn after_play_queue_index(state: PlaybackView, index: int) -> PlaybackView {
    if 0 <= index < state.queue.len() {
        shown_playing(state, true)
    } else {
        state
    }
}

/// What comes of a request to play a song.
pub open spec fn play_song_outcome(
    artist: Seq<char>,
    album: Seq<char>,
    song: Seq<char>,
) -> OutcomeView {
    OutcomeView::Send(
        CommandView::Play(requested_song(artist, album, song).path),
        PendingView::Play { artist, song },
    )
}

/// What comes of a request to add a song to the queue.
pub open spec fn add_to_queue_outcome(
    state: PlaybackView,
    artist: Seq<char>,
    album: Seq<char>,
    song: Seq<char>,
) -> OutcomeView {
    if state.queue.len() == 0 {
        OutcomeView::Send(
            CommandView::Play(requested_song(artist, album, song).path),
            PendingView::AddToQueue { song },
        )
    } else {
        OutcomeView::Answer(added_answer(song))
    }
}

/// What comes of a request to jump to a song of the queue.
pub open spec fn play_queue_index_outcome(state: PlaybackView, index: int) -> OutcomeView {
    if 0 <= index < state.queue.len() {
        OutcomeView::Send(
            CommandView::PlayIndex(index),
            PendingView::PlayQueueIndex { title: state.queue[index].title },
        )
    } else {
        OutcomeView::Answer("Invalid queue index"@)
    }
}

/// The answer to a song that was added to the queue and may play.
pub open spec fn added_answer(song: Seq<char>) -> Seq<char> {
    "Added "@ + song + " to queue and started playback"@
}

fn joined(first: &str, second: &str, third: &str) -> (text: String)
    ensures
        text@ == first@ + second@ + third@,
{
    let mut text = first.to_owned();
    text.append(second);
    text.append(third);
    text
}

impl AppState {
    /// Asks the player to stop.
    pub fn stop_music(&self) -> (outcome: Outcome)
        ensures
            outcome@ == OutcomeView::Send(CommandView::Stop, PendingView::Stop),
    {
        Outcome::Send(AudioCommand::Stop, Pending::Stop)
    }

    /// Adds the song to the queue, starts the index again, shows the player
    /// as playing, and asks it to play the song.
    pub fn play_song(&mut self, artist: &str, album: &str, song: &str) -> (outcome: Outcome)
        ensures
            final(self)@ == after_play_song(old(self)@, artist@, album@, song@),
            outcome@ == play_song_outcome(artist@, album@, song@),
            final(self)@.queue.last() == (SongView {
                artist: artist@,
                album: album@,
                title: song@,
                path: "assets/music/"@ + artist@ + "/"@ + album@ + "/"@ + song@,
            }),
            outcome@ == OutcomeView::Send(
                CommandView::Play("assets/music/"@ + artist@ + "/"@ + album@ + "/"@ + song@),
                PendingView::Play { artist: artist@, song: song@ },
            ),
    {
        proof {
            law_song_lies_in_its_album(artist@, album@, song@);
        }
        let added = request_song(artist, album, song);
        let path = added.path.clone();
        self.push_song(added);
        self.reset_index();
        self.set_playing(true);
        Outcome::Send(
            AudioCommand::Play(path),
            Pending::Play { artist: artist.to_owned(), song: song.to_owned() },
        )
    }

    /// Adds the song to the queue. Where the queue was empty the player is
    /// asked to play it; else nothing is sent, and the player is shown as
    /// playing at once.
    pub fn add_to_queue(&mut self, artist: &str, album: &str, song: &str) -> (outcome: Outcome)
        ensures
            final(self)@ == after_add_to_queue(old(self)@, artist@, album@, song@),
            outcome@ == add_to_queue_outcome(old(self)@, artist@, album@, song@),
            final(self)@.queue.last() == (SongView {
                artist: artist@,
                album: album@,
                title: song@,
                path: "assets/music/"@ + artist@ + "/"@ + album@ + "/"@ + song@,
            }),
            old(self)@.queue.len() == 0 ==> outcome@ == OutcomeView::Send(
                CommandView::Play("assets/music/"@ + artist@ + "/"@ + album@ + "/"@ + song@),
                PendingView::AddToQueue { song: song@ },
            ),
    {
        proof {
            law_song_lies_in_its_album(artist@, album@, song@);
        }
        let queue_was_empty = self.queue_len() == 0;
        let added = request_song(artist, album, song);
        let path = added.path.clone();
        self.push_song(added);
        if queue_was_empty {
            return Outcome::Send(
                AudioCommand::Play(path),
                Pending::AddToQueue { song: song.to_owned() },
            );
        }
        self.set_playing(true);
        Outcome::Answer(joined("Added ", song, " to queue and started playback"))
    }

    /// Shows the player as playing and asks it to jump to a song of the queue.
    /// An index beyond the queue is refused, and changes nothing.
    pub fn play_queue_index(&mut self, index: usize) -> (outcome: Outcome)
        ensures
            final(self)@ == after_play_queue_index(old(self)@, index as int),
            outcome@ == play_queue_index_outcome(old(self)@, index as int),
    {
        if index >= self.queue_len() {
            return Outcome::Answer("Invalid queue index".to_owned());
        }
        let title = self.song_at(index).title.clone();
        self.set_playing(true);
        Outcome::Send(AudioCommand::PlayIndex(index), Pending::PlayQueueIndex { title })
    }

    /// Asks the player for the next song.
    pub fn next_song(&self) -> (outcome: Outcome)
        ensures
            outcome@ == OutcomeView::Send(CommandView::Next, PendingView::Next),
    {
        Outcome::Send(AudioCommand::Next, Pending::Next)
    }

    /// Asks the player for the previous song.
    pub fn previous_song(&self) -> (outcome: Outcome)
        ensures
            outcome@ == OutcomeView::Send(CommandView::Previous, PendingView::Previous),
    {
        Outcome::Send(AudioCommand::Previous, Pending::Previous)
    }

    /// Asks the player to pause, or to play on.
    pub fn pause_music(&self) -> (outcome: Outcome)
        ensures
            outcome@ == OutcomeView::Send(CommandView::Pause, PendingView::Pause),
    {
        Outcome::Send(AudioCommand::Pause, Pending::Pause)
    }

    /// Asks the player for a volume; `asked` is `None` where the request held
    /// no number, and then nothing is sent.
    pub fn set_volume(&self, asked: Option<AskedVolume>) -> (outcome: Outcome)
        ensures
            asked matches Some(volume) ==> outcome@ == OutcomeView::Send(
                CommandView::SetVolume(volume.bits),
                PendingView::SetVolume { shown: volume.shown@ },
            ),
            asked is None ==> outcome@ == OutcomeView::Answer("Invalid volume value"@),
    {
        match asked {
            Some(volume) => Outcome::Send(
                AudioCommand::SetVolume(volume.bits),
                Pending::SetVolume { shown: volume.shown },
            ),
            None => Outcome::Answer("Invalid volume value".to_owned()),
        }
    }

    /// Finishes a request, once it is known whether its command was sent, and
    /// gives its answer. A pause that was sent toggles: it shows a playing
    /// player as not playing, and a paused one as playing again.
    pub fn command_sent(&mut self, pending: Pending, sent: bool) -> (answer: String)
        ensures
            final(self)@ == after_sending(old(self)@, pending@, sent),
            answer@ == answer_of(pending@, sent),
    {
        match pending {
            Pending::Stop => {
                if !sent {
                    return "Error stopping music".to_owned();
                }
                self.set_playing(false);
                "Stopping Music".to_owned()
            },
            Pending::Play { artist, song } => {
                if !sent {
                    return "Error playing music".to_owned();
                }
                let mut answer = joined("Playing ", song.as_str(), " by ");
                answer.append(artist.as_str());
                answer
            },
            Pending::AddToQueue { song } => {
                if !sent {
                    return joined(
                        "Added ",
                        song.as_str(),
                        " to queue, but failed to start playback",
                    );
                }
                self.set_playing(true);
                joined("Added ", song.as_str(), " to queue and started playback")
            },
            Pending::PlayQueueIndex { title } => {
                if !sent {
                    return "Error playing music from queue".to_owned();
                }
                joined("Playing '", title.as_str(), "' from queue")
            },
            Pending::Next => {
                if !sent {
                    return "Error skipping to next song".to_owned();
                }
                "Playing next song".to_owned()
            },
            Pending::Previous => {
                if !sent {
                    return "Error going to previous song".to_owned();
                }
                self.set_playing(true);
                "Playing previous song".to_owned()
            },
            Pending::Pause => {
                if !sent {
                    return "Error pausing music".to_owned();
                }
                self.toggle_pause();
                "Pausing music".to_owned()
            },
            Pending::SetVolume { shown } => {
                if !sent {
                    return "Error setting volume".to_owned();
                }
                let mut answer = "Volume set to ".to_owned();
                answer.append(shown.as_str());
                answer
            },
        }
    }
}

/// The state once a request is finished.
pub open spec fn after_sending(
    state: PlaybackView,
    pending: PendingView,
    sent: bool,
) -> PlaybackView {
    if !sent {
        state
    } else {
        match pending {
            PendingView::Stop => shown_playing(state, false),
            PendingView::Pause => pause_toggled(state),
            PendingView::AddToQueue { .. } | PendingView::Previous => shown_playing(state, true),
            _ => state,
        }
    }
}

/// The answer to a request whose command was sent.
pub open spec fn sent_answer(pending: PendingView) -> Seq<char> {
    match pending {
        PendingView::Stop => "Stopping Music"@,
        PendingView::Play { artist, song } => "Playing "@ + song + " by "@ + artist,
        PendingView::AddToQueue { song } => added_answer(song),
        PendingView::PlayQueueIndex { title } => "Playing '"@ + title + "' from queue"@,
        PendingView::Next => "Playing next song"@,
        PendingView::Previous => "Playing previous song"@,
        PendingView::Pause => "Pausing music"@,
        PendingView::SetVolume { shown } => "Volume set to "@ + shown,
    }
}

/// The answer to a request whose command could not be sent.
pub open spec fn failed_answer(pending: PendingView) -> Seq<char> {
    match pending {
        PendingView::Stop => "Error stopping music"@,
        PendingView::Play { .. } => "Error playing music"@,
        PendingView::AddToQueue { song } => "Added "@ + song
            + " to queue, but failed to start playback"@,
        PendingView::PlayQueueIndex { .. } => "Error playing music from queue"@,
        PendingView::Next => "Error skipping to next song"@,
        PendingView::Previous => "Error going to previous song"@,
        PendingView::Pause => "Error pausing music"@,
        PendingView::SetVolume { .. } => "Error setting volume"@,
    }
}

/// The answer to a request.
pub open spec fn answer_of(pending: PendingView, sent: bool) -> Seq<char> {
    if sent {
        sent_answer(pending)
    } else {
        failed_answer(pending)
    }
}

/// What comes of a request is shown with all that it holds.
pub proof fn law_outcomes_are_shown_whole(text: String, command: AudioCommand, pending: Pending)
    ensures
        Outcome::Answer(text)@ == OutcomeView::Answer(text@),
        Outcome::Send(command, pending)@ == OutcomeView::Send(command@, pending@),
        Pending::Stop@ == PendingView::Stop,
        pending matches Pending::Play { artist, song } ==> pending@ == (PendingView::Play {
            artist: artist@,
            song: song@,
        }),
        pending matches Pending::AddToQueue { song } ==> pending@ == (PendingView::AddToQueue {
            song: song@,
        }),
        pending matches Pending::PlayQueueIndex { title } ==> pending@ == (
        PendingView::PlayQueueIndex { title: title@ }),
        Pending::Next@ == PendingView::Next,
        Pending::Previous@ == PendingView::Previous,
        Pending::Pause@ == PendingView::Pause,
        pending matches Pending::SetVolume { shown } ==> pending@ == (PendingView::SetVolume {
            shown: shown@,
        }),
{
}

} // verus!
