//! The audio player: what a command makes of the queue, and what it tells the
//! audio sink to do.
//!
//! A command is taken in two halves, for a track has to be read before it can
//! be queued up. `audio_player` decides on the command; where its step holds a
//! track to load, the track is opened and appended to the sink, and then
//! `track_appended` finishes the command.

use vstd::prelude::*;

use crate::song::SongView;
use crate::state::{AppState, PlaybackView, QueueStatus, StatusView};
use crate::volume::{clamp, clamped, HALF};

verus! {

/// What the audio player can be told. A volume is given by its bits.
#[derive(Debug, PartialEq, Eq)]
pub enum AudioCommand {
    Play(String),
    PlayIndex(usize),
    Pause,
    Stop,
    Next,
    Previous,
    SetVolume(u32),
}

/// A command as its texts and numbers.
pub enum CommandView {
    Play(Seq<char>),
    PlayIndex(int),
    Pause,
    Stop,
    Next,
    Previous,
    SetVolume(u32),
}

impl View for AudioCommand {
    type V = CommandView;

    open spec fn view(&self) -> CommandView {
        match *self {
            AudioCommand::Play(path) => CommandView::Play(path@),
            AudioCommand::PlayIndex(index) => CommandView::PlayIndex(index as int),
            AudioCommand::Pause => CommandView::Pause,
            AudioCommand::Stop => CommandView::Stop,
            AudioCommand::Next => CommandView::Next,
            AudioCommand::Previous => CommandView::Previous,
            AudioCommand::SetVolume(bits) => CommandView::SetVolume(bits),
        }
    }
}

/// What the sink is told directly: to stop and drop what it holds, to pause,
/// to play on, or to play at a volume, given by its bits.
#[derive(Debug, Clone, Copy, PartialEq, Eq, Structural)]
pub enum SinkAction {
    Stop,
    Pause,
    Play,
    SetVolume(u32),
}

/// Why a track is loaded.
#[derive(Debug, Clone, Copy, PartialEq, Eq, Structural)]
pub enum LoadReason {
    Play,
    Next,
    PlayIndex,
}

/// A track to load: the file at `path` is opened and decoded, the sink is set
/// to `volume` where there is one, and the track is appended to it, followed
/// by a notice of its end.
#[derive(Debug, PartialEq, Eq)]
pub struct Load {
    pub path: String,
    pub volume: Option<u32>,
    pub reason: LoadReason,
}

/// A track to load, as its texts and numbers.
pub struct LoadView {
    pub path: Seq<char>,
    pub volume: Option<u32>,
    pub reason: LoadReason,
}

impl View for Load {
    type V = LoadView;

    open spec fn view(&self) -> LoadView {
        LoadView { path: self.path@, volume: self.volume, reason: self.reason }
    }
}

/// What is to be done on a command, in this order: the sink's action, the
/// broadcast of a queue status, the loading of a track.
#[derive(Debug)]
pub struct Step {
    pub sink: Option<SinkAction>,
    pub broadcast: Option<QueueStatus>,
    pub load: Option<Load>,
}

/// What is to be done on a command, as its texts and numbers.
pub struct StepView {
    pub sink: Option<SinkAction>,
    pub broadcast: Option<StatusView>,
    pub load: Option<LoadView>,
}

impl View for Step {
    type V = StepView;

    open spec fn view(&self) -> StepView {
        StepView {
            sink: self.sink,
            broadcast: match self.broadcast {
                Some(status) => Some(status@),
                None => None,
            },
            load: match self.load {
                Some(load) => Some(load@),
                None => None,
            },
        }
    }
}

/// What the audio player keeps to itself: the volume that was last set.
#[derive(Debug)]
pub struct AudioPlayer {
    current_volume: u32,
}

impl AudioPlayer {
    /// The bits of the volume that was last set.
    pub closed spec fn volume(&self) -> u32 {
        self.current_volume
    }

    /// A player at half volume.
    pub fn new() -> (player: AudioPlayer)
        ensures
            player.volume() == HALF,
    {
        AudioPlayer { current_volume: HALF }
    }
}

/// The queue without its first song; an empty queue stays empty.
pub open spec fn advanced(queue: Seq<SongView>) -> Seq<SongView> {
    if queue.len() == 0 {
        queue
    } else {
        queue.skip(1)
    }
}

/// The state that a command leaves, before any track is loaded.
pub open spec fn commanded(state: PlaybackView, command: CommandView) -> PlaybackView {
    match command {
        CommandView::Next => PlaybackView { queue: advanced(state.queue), ..state },
        CommandView::PlayIndex(index) => if 0 <= index < state.queue.len() {
            PlaybackView { queue: state.queue.skip(index), ..state }
        } else {
            state
        },
        CommandView::Stop => PlaybackView { queue: Seq::empty(), current_index: 0, ..state },
        _ => state,
    }
}

/// The volume that a command leaves.
pub open spec fn commanded_volume(volume: u32, command: CommandView) -> u32 {
    match command {
        CommandView::SetVolume(bits) => clamped(bits),
        _ => volume,
    }
}

/// The track at the head of the queue, to be loaded at the sink's own volume.
pub open spec fn head_track(queue: Seq<SongView>, reason: LoadReason) -> Option<LoadView> {
    if queue.len() == 0 {
        None
    } else {
        Some(LoadView { path: queue[0].path, volume: None, reason })
    }
}

/// What is to be done on a command.
pub open spec fn commanded_step(
    state: PlaybackView,
    volume: u32,
    command: CommandView,
    sink_paused: bool,
) -> StepView {
    let after = commanded(state, command);
    match command {
        CommandView::Play(path) => StepView {
            sink: None,
            broadcast: None,
            load: Some(LoadView { path, volume: Some(volume), reason: LoadReason::Play }),
        },
        CommandView::PlayIndex(index) => StepView {
            sink: Some(SinkAction::Stop),
            broadcast: None,
            load: if 0 <= index < state.queue.len() {
                head_track(after.queue, LoadReason::PlayIndex)
            } else {
                None
            },
        },
        CommandView::Pause => StepView {
            sink: Some(
                if sink_paused {
                    SinkAction::Play
                } else {
                    SinkAction::Pause
                },
            ),
            broadcast: Some(after.status()),
            load: None,
        },
        CommandView::Stop => StepView {
            sink: Some(SinkAction::Stop),
            broadcast: Some(after.status()),
            load: None,
        },
        CommandView::Next => StepView {
            sink: Some(SinkAction::Stop),
            broadcast: if after.queue.len() == 0 {
                Some(after.status())
            } else {
                None
            },
            load: head_track(after.queue, LoadReason::Next),
        },
        CommandView::Previous => StepView { sink: None, broadcast: None, load: None },
        CommandView::SetVolume(bits) => StepView {
            sink: Some(SinkAction::SetVolume(clamped(bits))),
            broadcast: None,
            load: None,
        },
    }
}

/// Decides on a command, where `sink_paused` says whether the sink is paused.
pub fn audio_player(
    player: &mut AudioPlayer,
    state: &mut AppState,
    command: AudioCommand,
    sink_paused: bool,
) -> (step: Step)
    ensures
        final(state)@ == commanded(old(state)@, command@),
        final(player).volume() == commanded_volume(old(player).volume(), command@),
        step@ == commanded_step(old(state)@, old(player).volume(), command@, sink_paused),
        command is Next || command is PlayIndex || command is Stop ==> step.sink == Some(
            SinkAction::Stop,
        ),
{
    match command {
        AudioCommand::Play(path) => Step {
            sink: None,
            broadcast: None,
            load: Some(
                Load { path, volume: Some(player.current_volume), reason: LoadReason::Play },
            ),
        },
        AudioCommand::Pause => Step {
            sink: Some(
                if sink_paused {
                    SinkAction::Play
                } else {
                    SinkAction::Pause
                },
            ),
            broadcast: Some(state.get_queue()),
            load: None,
        },
        AudioCommand::Next => {
            if state.queue_len() > 0 {
                state.drop_songs(1);
            }
            if state.queue_len() > 0 {
                Step {
                    sink: Some(SinkAction::Stop),
                    broadcast: None,
                    load: Some(
                        Load {
                            path: state.song_at(0).path.clone(),
                            volume: None,
                            reason: LoadReason::Next,
                        },
                    ),
                }
            } else {
                Step {
                    sink: Some(SinkAction::Stop),
                    broadcast: Some(state.get_queue()),
                    load: None,
                }
            }
        },
        AudioCommand::Stop => {
            state.clear_queue();
            state.reset_index();
            Step { sink: Some(SinkAction::Stop), broadcast: Some(state.get_queue()), load: None }
        },
        AudioCommand::PlayIndex(index) => {
            if index >= state.queue_len() {
                return Step { sink: Some(SinkAction::Stop), broadcast: None, load: None };
            }
            state.drop_songs(index);
            Step {
                sink: Some(SinkAction::Stop),
                broadcast: None,
                load: Some(
                    Load {
                        path: state.song_at(0).path.clone(),
                        volume: None,
                        reason: LoadReason::PlayIndex,
                    },
                ),
            }
        },
        AudioCommand::Previous => Step { sink: None, broadcast: None, load: None },
        AudioCommand::SetVolume(bits) => {
            player.current_volume = clamp(bits);
            Step {
                sink: Some(SinkAction::SetVolume(player.current_volume)),
                broadcast: None,
                load: None,
            }
        },
    }
}

/// The state after a loaded track has been appended to the sink. Where the
/// track has replaced another one, the index starts again.
pub open spec fn appended(state: PlaybackView, reason: LoadReason) -> PlaybackView {
    match reason {
        LoadReason::Play => state,
        LoadReason::Next | LoadReason::PlayIndex => PlaybackView { current_index: 0, ..state },
    }
}

/// The status that is broadcast once a loaded track has been appended. On a
/// jump into the queue it goes out before the index starts again.
pub open spec fn appended_broadcast(state: PlaybackView, reason: LoadReason) -> StatusView {
    match reason {
        LoadReason::Play | LoadReason::PlayIndex => state.status(),
        LoadReason::Next => appended(state, reason).status(),
    }
}

/// Finishes the command that had a track loaded, once it has been appended to
/// the sink, and hands out the status to broadcast.
pub fn track_appended(state: &mut AppState, reason: LoadReason) -> (status: QueueStatus)
    ensures
        final(state)@ == appended(old(state)@, reason),
        status@ == appended_broadcast(old(state)@, reason),
{
    match reason {
        LoadReason::Play => state.get_queue(),
        LoadReason::Next => {
            state.reset_index();
            state.get_queue()
        },
        LoadReason::PlayIndex => {
            let status = state.get_queue();
            state.reset_index();
            status
        },
    }
}

/// A command is shown by its kind and what it holds.
pub proof fn law_commands_are_shown_whole(path: String, index: usize, bits: u32)
    ensures
        AudioCommand::Play(path)@ == CommandView::Play(path@),
        AudioCommand::PlayIndex(index)@ == CommandView::PlayIndex(index as int),
        AudioCommand::Pause@ == CommandView::Pause,
        AudioCommand::Stop@ == CommandView::Stop,
        AudioCommand::Next@ == CommandView::Next,
        AudioCommand::Previous@ == CommandView::Previous,
        AudioCommand::SetVolume(bits)@ == CommandView::SetVolume(bits),
{
}

/// A step is shown with all that is to be done.
pub proof fn law_steps_are_shown_whole(step: Step)
    ensures
        step@.sink == step.sink,
        step.broadcast is None <==> step@.broadcast is None,
        step.broadcast matches Some(status) ==> step@.broadcast == Some(status@),
        step.load is None <==> step@.load is None,
        step.load matches Some(load) ==> step@.load is Some && step@.load->0.path == load.path@
            && step@.load->0.volume == load.volume && step@.load->0.reason == load.reason,
{
}

} // verus!
