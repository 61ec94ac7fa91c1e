//! What holds of the player as a whole, over every run of it.

use vstd::prelude::*;

use crate::player::{
    advanced, appended, appended_broadcast, commanded, commanded_step, commanded_volume,
    CommandView, LoadReason, LoadView, SinkAction, StepView,
};
use crate::requests::{
    add_to_queue_outcome, after_add_to_queue, after_play_queue_index, after_play_song,
    after_sending, answer_of, failed_answer, play_queue_index_outcome, play_song_outcome, sent_answer,
    OutcomeView, PendingView,
};
use crate::song::{all_in_library, law_song_lies_in_its_album, requested_song, SongView};
use crate::state::{after_track, initial_state, PlaybackView};
use crate::volume::{clamped, in_range, law_clamp_keeps_range, law_clamp_settles, HALF};

verus! {

/// What can happen to the shared state.
pub enum Event {
    PlaySong { artist: Seq<char>, album: Seq<char>, song: Seq<char> },
    AddToQueue { artist: Seq<char>, album: Seq<char>, song: Seq<char> },
    PlayQueueIndex { index: int },
    CommandSent { pending: PendingView, sent: bool },
    Command { command: CommandView },
    TrackAppended { reason: LoadReason },
    TrackFinished,
}

/// The state after an event.
pub open spec fn after_event(state: PlaybackView, event: Event) -> PlaybackView {
    match event {
        Event::PlaySong { artist, album, song } => after_play_song(state, artist, album, song),
        Event::AddToQueue { artist, album, song } => after_add_to_queue(
            state,
            artist,
            album,
            song,
        ),
        Event::PlayQueueIndex { index } => after_play_queue_index(state, index),
        Event::CommandSent { pending, sent } => after_sending(state, pending, sent),
        Event::Command { command } => commanded(state, command),
        Event::TrackAppended { reason } => appended(state, reason),
        Event::TrackFinished => after_track(state),
    }
}

/// The state after a run of events from the start.
pub open spec fn after_events(events: Seq<Event>) -> PlaybackView
    decreases events.len(),
{
    if events.len() == 0 {
        initial_state()
    } else {
        after_event(after_events(events.drop_last()), events.last())
    }
}

/// The songs that a run of events asked for, in order.
pub open spec fn asked_songs(events: Seq<Event>) -> Seq<SongView>
    decreases events.len(),
{
    if events.len() == 0 {
        Seq::empty()
    } else {
        let before = asked_songs(events.drop_last());
        match events.last() {
            Event::PlaySong { artist, album, song } => before.push(
                requested_song(artist, album, song),
            ),
            Event::AddToQueue { artist, album, song } => before.push(
                requested_song(artist, album, song),
            ),
            _ => before,
        }
    }
}

/// Whether `end` is what is left of `whole` once some of its first songs are
/// dropped.
pub open spec fn is_end_of(end: Seq<SongView>, whole: Seq<SongView>) -> bool {
    end.len() <= whole.len() && end == whole.skip(whole.len() - end.len())
}

/// The queue keeps its order: after any run of events it holds the songs that
/// were asked for, in the order in which they were, but for some of the first.
pub proof fn law_queue_keeps_order(events: Seq<Event>)
    ensures
        is_end_of(after_events(events).queue, asked_songs(events)),
    decreases events.len(),
{
    if events.len() > 0 {
        law_queue_keeps_order(events.drop_last());
        let state = after_events(events.drop_last());
        let asked = asked_songs(events.drop_last());
        let after = after_events(events);
        assert(is_end_of(after.queue, asked_songs(events))) by {
            match events.last() {
                Event::PlaySong { artist, album, song } => {
                    let added = requested_song(artist, album, song);
                    assert(asked.push(added).skip(asked.len() - state.queue.len())
                        =~= state.queue.push(added));
                },
                Event::AddToQueue { artist, album, song } => {
                    let added = requested_song(artist, album, song);
                    assert(asked.push(added).skip(asked.len() - state.queue.len())
                        =~= state.queue.push(added));
                },
                Event::Command { command } => {
                    assert(after.queue =~= asked.skip(asked.len() - after.queue.len()));
                },
                _ => {},
            }
        }
    } else {
        assert(initial_state().queue =~= asked_songs(events).skip(0));
    }
}

/// Every song of the queue lies, after any run of events, in the folder of
/// its album and artist, under its title.
pub proof fn law_songs_lie_in_library(events: Seq<Event>)
    ensures
        all_in_library(after_events(events).queue),
    decreases events.len(),
{
    if events.len() > 0 {
        law_songs_lie_in_library(events.drop_last());
    }
}

/// A command to the player drops songs at the front of the queue and nowhere
/// else, and never changes whether the player is shown as playing, nor whether
/// it is paused.
pub proof fn law_commands_drop_from_front(state: PlaybackView, command: CommandView)
    ensures
        is_end_of(commanded(state, command).queue, state.queue),
        commanded(state, command).is_playing == state.is_playing,
        commanded(state, command).paused == state.paused,
{
    let after = commanded(state, command);
    assert(after.queue =~= state.queue.skip(state.queue.len() - after.queue.len()));
}

/// Where a command moves through the queue, the track that is loaded is the
/// song that the queue then starts with.
pub proof fn law_loaded_track_heads_queue(
    state: PlaybackView,
    volume: u32,
    command: CommandView,
    sink_paused: bool,
)
    requires
        command is Next || command is PlayIndex,
        commanded_step(state, volume, command, sink_paused).load is Some,
    ensures
        commanded(state, command).queue.len() > 0,
        commanded_step(state, volume, command, sink_paused).load->0.path == commanded(
            state,
            command,
        ).queue[0].path,
{
}

/// The queue after going on to the next song a number of times.
pub open spec fn advanced_times(queue: Seq<SongView>, times: nat) -> Seq<SongView>
    decreases times,
{
    if times == 0 {
        queue
    } else {
        advanced(advanced_times(queue, (times - 1) as nat))
    }
}

/// Going on a number of times drops as many songs, until the queue is empty.
proof fn lemma_advanced_times(queue: Seq<SongView>, times: nat)
    ensures
        advanced_times(queue, times) == if times <= queue.len() {
            queue.skip(times as int)
        } else {
            Seq::empty()
        },
    decreases times,
{
    if times > 0 {
        lemma_advanced_times(queue, (times - 1) as nat);
        if times <= queue.len() {
            assert(queue.skip(times - 1).skip(1) =~= queue.skip(times as int));
        } else {
            assert(advanced_times(queue, (times - 1) as nat) =~= Seq::empty());
        }
    } else {
        assert(queue.skip(0) =~= queue);
    }
}

/// To jump to a song of the queue is to go on to the next song as many times:
/// the queue is the same.
pub proof fn law_jump_is_repeated_next(state: PlaybackView, index: int)
    requires
        0 <= index < state.queue.len(),
    ensures
        commanded(state, CommandView::PlayIndex(index)).queue == advanced_times(
            state.queue,
            index as nat,
        ),
{
    lemma_advanced_times(state.queue, index as nat);
}

/// To stop, the request and the player between them return the state to the
/// one at the start, whichever of the two comes first.
pub proof fn law_stop_returns_to_start(state: PlaybackView)
    ensures
        after_sending(commanded(state, CommandView::Stop), PendingView::Stop, true)
            == initial_state(),
        commanded(after_sending(state, PendingView::Stop, true), CommandView::Stop)
            == initial_state(),
{
}

/// Whether the sink is paused once it was told something.
pub open spec fn paused_after(action: Option<SinkAction>, sink_paused: bool) -> bool {
    match action {
        Some(SinkAction::Pause) => true,
        Some(SinkAction::Play) => false,
        _ => sink_paused,
    }
}

/// A pause toggles: the first one changes whether the sink is paused, the
/// second one changes it back, and neither touches the queue or the index.
pub proof fn law_pause_toggles(state: PlaybackView, volume: u32, sink_paused: bool)
    ensures
        ({
            let first = commanded_step(state, volume, CommandView::Pause, sink_paused);
            let then_paused = paused_after(first.sink, sink_paused);
            let second = commanded_step(state, volume, CommandView::Pause, then_paused);
            &&& then_paused == !sink_paused
            &&& paused_after(second.sink, then_paused) == sink_paused
        }),
        commanded(state, CommandView::Pause) == state,
{
}

/// A paused player is not shown as playing, after any run of events.
pub proof fn law_paused_is_not_playing(events: Seq<Event>)
    ensures
        !(after_events(events).paused && after_events(events).is_playing),
    decreases events.len(),
{
    if events.len() > 0 {
        law_paused_is_not_playing(events.drop_last());
    }
}

/// Two requests to pause, each with the player's step, bring back both what
/// the sink does and what clients are shown, whether the player takes its
/// step before or after the request is finished. In between, a player that was
/// playing is shown as not playing and the sink has changed over; a player
/// that was neither playing nor paused is not shown as playing at any time.
pub proof fn law_two_pauses_bring_back(state: PlaybackView, volume: u32, sink_paused: bool)
    ensures
        ({
            let once = after_sending(
                commanded(state, CommandView::Pause),
                PendingView::Pause,
                true,
            );
            let once_paused = paused_after(
                commanded_step(state, volume, CommandView::Pause, sink_paused).sink,
                sink_paused,
            );
            let twice = after_sending(commanded(once, CommandView::Pause), PendingView::Pause, true);
            let twice_paused = paused_after(
                commanded_step(once, volume, CommandView::Pause, once_paused).sink,
                once_paused,
            );
            &&& once == commanded(
                after_sending(state, PendingView::Pause, true),
                CommandView::Pause,
            )
            &&& once_paused == !sink_paused
            &&& state.is_playing ==> !once.is_playing
            &&& !state.is_playing && !state.paused ==> !once.is_playing
            &&& twice_paused == sink_paused
            &&& twice.status() == state.status()
        }),
{
}

/// The volume that the player keeps after a run of commands from the start.
pub open spec fn volume_after(commands: Seq<CommandView>) -> u32
    decreases commands.len(),
{
    if commands.len() == 0 {
        HALF
    } else {
        commanded_volume(volume_after(commands.drop_last()), commands.last())
    }
}

/// The volume that the player keeps is always in range.
pub proof fn law_volume_in_range(commands: Seq<CommandView>)
    ensures
        in_range(volume_after(commands)),
    decreases commands.len(),
{
    if commands.len() > 0 {
        law_volume_in_range(commands.drop_last());
        if let CommandView::SetVolume(bits) = commands.last() {
            law_clamp_settles(bits);
        }
    }
}

/// The sink is never told a volume out of range.
pub proof fn law_sink_volume_in_range(
    commands: Seq<CommandView>,
    state: PlaybackView,
    command: CommandView,
    sink_paused: bool,
)
    ensures
        ({
            let step = commanded_step(state, volume_after(commands), command, sink_paused);
            &&& step.sink matches Some(SinkAction::SetVolume(bits)) ==> in_range(bits)
            &&& step.load matches Some(load) ==> (load.volume matches Some(bits) ==> in_range(
                bits,
            ))
        }),
{
    law_volume_in_range(commands);
    if let CommandView::SetVolume(bits) = command {
        law_clamp_settles(bits);
    }
}

/// A volume stays set: whatever other commands come in between, a song that
/// is played is loaded at the volume that was set last.
pub proof fn law_volume_stays_set(
    earlier: Seq<CommandView>,
    bits: u32,
    later: Seq<CommandView>,
    state: PlaybackView,
    path: Seq<char>,
    sink_paused: bool,
)
    requires
        forall|i: int| 0 <= i < later.len() ==> !(#[trigger] later[i] is SetVolume),
    ensures
        commanded_step(
            state,
            volume_after(earlier.push(CommandView::SetVolume(bits)) + later),
            CommandView::Play(path),
            sink_paused,
        ).load == Some(
            LoadView { path, volume: Some(clamped(bits)), reason: LoadReason::Play },
        ),
    decreases later.len(),
{
    let set = earlier.push(CommandView::SetVolume(bits));
    if later.len() == 0 {
        assert(set + later =~= set);
        assert(set.drop_last() =~= earlier);
    } else {
        law_volume_stays_set(earlier, bits, later.drop_last(), state, path, sink_paused);
        assert((set + later).drop_last() =~= set + later.drop_last());
        assert((set + later).last() == later.last());
    }
}

/// Whether a command is one that clients are told about.
pub open spec fn is_announced(state: PlaybackView, command: CommandView) -> bool {
    match command {
        CommandView::Play(_) | CommandView::Pause | CommandView::Stop | CommandView::Next => true,
        CommandView::PlayIndex(index) => 0 <= index < state.queue.len(),
        CommandView::Previous | CommandView::SetVolume(_) => false,
    }
}

/// Clients are told once about a command: at once, or when its track has been
/// appended, and then of the queue that it left.
pub proof fn law_one_broadcast_per_command(
    state: PlaybackView,
    volume: u32,
    command: CommandView,
    sink_paused: bool,
)
    ensures
        ({
            let step = commanded_step(state, volume, command, sink_paused);
            let after = commanded(state, command);
            &&& is_announced(state, command) <==> step.broadcast is Some || step.load is Some
            &&& !(step.broadcast is Some && step.load is Some)
            &&& step.broadcast matches Some(shown) ==> shown == after.status()
            &&& step.load matches Some(load) ==> appended_broadcast(after, load.reason).queue
                == after.queue
        }),
{
}

/// A request whose command could not be sent leaves the state as it was, and
/// its answer is not the one that it would get otherwise.
pub proof fn law_failure_is_told(state: PlaybackView, pending: PendingView)
    ensures
        after_sending(state, pending, false) == state,
        failed_answer(pending) != sent_answer(pending),
{
    reveal_strlit("Error stopping music");
    reveal_strlit("Stopping Music");
    reveal_strlit("Error playing music");
    reveal_strlit("Playing ");
    reveal_strlit("Added ");
    reveal_strlit(" to queue and started playback");
    reveal_strlit(" to queue, but failed to start playback");
    reveal_strlit("Error playing music from queue");
    reveal_strlit("Playing '");
    reveal_strlit("Error skipping to next song");
    reveal_strlit("Playing next song");
    reveal_strlit("Error going to previous song");
    reveal_strlit("Playing previous song");
    reveal_strlit("Error pausing music");
    reveal_strlit("Pausing music");
    reveal_strlit("Error setting volume");
    reveal_strlit("Volume set to ");
    match pending {
        PendingView::AddToQueue { song } => {
            assert(failed_answer(pending).len() != sent_answer(pending).len());
        },
        _ => {
            assert(failed_answer(pending)[0] == 'E');
            assert(sent_answer(pending)[0] != 'E');
        },
    }
}

/// A song that is asked for is the one that is loaded: the command of the
/// request to play it has the player load the song that joined the queue.
pub proof fn law_played_song_is_loaded(
    state: PlaybackView,
    volume: u32,
    artist: Seq<char>,
    album: Seq<char>,
    song: Seq<char>,
    sink_paused: bool,
)
    ensures
        play_song_outcome(artist, album, song) is Send,
        ({
            let after = after_play_song(state, artist, album, song);
            let command = play_song_outcome(artist, album, song)->Send_0;
            let step = commanded_step(after, volume, command, sink_paused);
            &&& after.queue.last() == requested_song(artist, album, song)
            &&& step.load is Some
            &&& step.load->0.path == after.queue.last().path
        }),
{
}

/// A song that is added to an empty queue is loaded; one that is added to
/// another queue waits at its end, and nothing is sent.
pub proof fn law_added_song_plays_or_waits(
    state: PlaybackView,
    volume: u32,
    artist: Seq<char>,
    album: Seq<char>,
    song: Seq<char>,
    sink_paused: bool,
)
    ensures
        ({
            let after = after_add_to_queue(state, artist, album, song);
            &&& after.queue.last() == requested_song(artist, album, song)
            &&& match add_to_queue_outcome(state, artist, album, song) {
                OutcomeView::Send(command, pending) => {
                    let step = commanded_step(after, volume, command, sink_paused);
                    &&& state.queue.len() == 0
                    &&& step.load is Some
                    &&& step.load->0.path == after.queue[0].path
                },
                OutcomeView::Answer(_) => state.queue.len() > 0,
            }
        }),
{
}

/// A jump in the queue is granted exactly where there is such a song. Its
/// command then has the player load that song, the one that the answer names;
/// a refused one changes nothing.
pub proof fn law_jump_loads_named_song(
    state: PlaybackView,
    volume: u32,
    index: int,
    sink_paused: bool,
)
    ensures
        ({
            let after = after_play_queue_index(state, index);
            match play_queue_index_outcome(state, index) {
                OutcomeView::Send(command, pending) => {
                    let step = commanded_step(after, volume, command, sink_paused);
                    &&& 0 <= index < state.queue.len()
                    &&& pending == PendingView::PlayQueueIndex { title: state.queue[index].title }
                    &&& step.load is Some
                    &&& step.load->0.path == state.queue[index].path
                    &&& commanded(after, command).queue[0] == state.queue[index]
                },
                OutcomeView::Answer(_) => {
                    &&& !(0 <= index < state.queue.len())
                    &&& after == state
                },
            }
        }),
{
}

/// What the sink holds after a step and its load, if it held `tracks` before,
/// each given by its path: to stop drops all of them, a load comes last.
pub open spec fn sink_after(step: StepView, tracks: Seq<Seq<char>>) -> Seq<Seq<char>> {
    let kept = if step.sink == Some(SinkAction::Stop) {
        Seq::empty()
    } else {
        tracks
    };
    match step.load {
        Some(load) => kept.push(load.path),
        None => kept,
    }
}

/// To jump to a song of the queue cuts off whatever the sink holds: it then
/// holds that song alone. The queue starts with the song and goes on as it
/// did, and nothing else of the state or the volume changes.
pub proof fn law_jump_replaces_track(
    state: PlaybackView,
    volume: u32,
    index: int,
    sink_paused: bool,
    tracks: Seq<Seq<char>>,
)
    requires
        0 <= index < state.queue.len(),
    ensures
        ({
            let command = CommandView::PlayIndex(index);
            let step = commanded_step(state, volume, command, sink_paused);
            let after = commanded(state, command);
            &&& step.sink == Some(SinkAction::Stop)
            &&& step.broadcast is None
            &&& step.load == Some(
                LoadView {
                    path: state.queue[index].path,
                    volume: None,
                    reason: LoadReason::PlayIndex,
                },
            )
            &&& sink_after(step, tracks) == seq![state.queue[index].path]
            &&& state.queue == state.queue.take(index) + after.queue
            &&& after.queue.len() == state.queue.len() - index
            &&& forall|i: int|
                0 <= i < after.queue.len() ==> #[trigger] after.queue[i] == state.queue[index + i]
            &&& after.current_index == state.current_index
            &&& after.is_playing == state.is_playing
            &&& after.paused == state.paused
            &&& commanded_volume(volume, command) == volume
        }),
{
    let command = CommandView::PlayIndex(index);
    let step = commanded_step(state, volume, command, sink_paused);
    assert(sink_after(step, tracks) =~= seq![state.queue[index].path]);
    assert(state.queue =~= state.queue.take(index) + commanded(state, command).queue);
}

/// A jump to where there is no song stops the sink, and does nothing else.
pub proof fn law_jump_beyond_queue_stops(
    state: PlaybackView,
    volume: u32,
    index: int,
    sink_paused: bool,
    tracks: Seq<Seq<char>>,
)
    requires
        !(0 <= index < state.queue.len()),
    ensures
        ({
            let command = CommandView::PlayIndex(index);
            let step = commanded_step(state, volume, command, sink_paused);
            &&& step.sink == Some(SinkAction::Stop)
            &&& step.broadcast is None
            &&& step.load is None
            &&& sink_after(step, tracks).len() == 0
            &&& commanded(state, command) == state
            &&& commanded_volume(volume, command) == volume
        }),
{
}

/// To go on cuts off whatever the sink holds. Where there is a second song the
/// sink then holds it alone, and the queue starts with it.
pub proof fn law_next_replaces_track(
    state: PlaybackView,
    volume: u32,
    sink_paused: bool,
    tracks: Seq<Seq<char>>,
)
    requires
        state.queue.len() >= 2,
    ensures
        ({
            let step = commanded_step(state, volume, CommandView::Next, sink_paused);
            let after = commanded(state, CommandView::Next);
            &&& step.sink == Some(SinkAction::Stop)
            &&& step.broadcast is None
            &&& step.load == Some(
                LoadView { path: state.queue[1].path, volume: None, reason: LoadReason::Next },
            )
            &&& sink_after(step, tracks) == seq![state.queue[1].path]
            &&& state.queue == seq![state.queue[0]] + after.queue
            &&& after.current_index == state.current_index
            &&& after.is_playing == state.is_playing
            &&& after.paused == state.paused
            &&& commanded_volume(volume, CommandView::Next) == volume
        }),
{
    let step = commanded_step(state, volume, CommandView::Next, sink_paused);
    assert(sink_after(step, tracks) =~= seq![state.queue[1].path]);
    assert(state.queue =~= seq![state.queue[0]] + commanded(state, CommandView::Next).queue);
}

/// To go on from the last song, or from none, leaves the sink and the queue
/// empty, and tells so at once; the index stays.
pub proof fn law_next_at_end_stops(
    state: PlaybackView,
    volume: u32,
    sink_paused: bool,
    tracks: Seq<Seq<char>>,
)
    requires
        state.queue.len() <= 1,
    ensures
        ({
            let step = commanded_step(state, volume, CommandView::Next, sink_paused);
            let after = commanded(state, CommandView::Next);
            &&& step.sink == Some(SinkAction::Stop)
            &&& step.load is None
            &&& step.broadcast is Some
            &&& step.broadcast->0.queue.len() == 0
            &&& step.broadcast->0.current_index == state.current_index
            &&& step.broadcast->0.is_playing == state.is_playing
            &&& sink_after(step, tracks).len() == 0
            &&& after.queue.len() == 0
            &&& after.current_index == state.current_index
            &&& after.is_playing == state.is_playing
            &&& after.paused == state.paused
            &&& commanded_volume(volume, CommandView::Next) == volume
        }),
{
}

/// To stop leaves the sink and the queue empty and the index at 0, and tells
/// so at once.
pub proof fn law_stop_empties(
    state: PlaybackView,
    volume: u32,
    sink_paused: bool,
    tracks: Seq<Seq<char>>,
)
    ensures
        ({
            let step = commanded_step(state, volume, CommandView::Stop, sink_paused);
            let after = commanded(state, CommandView::Stop);
            &&& step.sink == Some(SinkAction::Stop)
            &&& step.load is None
            &&& step.broadcast is Some
            &&& step.broadcast->0.queue.len() == 0
            &&& step.broadcast->0.current_index == 0
            &&& step.broadcast->0.is_playing == state.is_playing
            &&& sink_after(step, tracks).len() == 0
            &&& after.queue.len() == 0
            &&& after.current_index == 0
            &&& after.is_playing == state.is_playing
            &&& after.paused == state.paused
            &&& commanded_volume(volume, CommandView::Stop) == volume
        }),
{
}

/// To play a song loads it, at the player's volume, behind what the sink
/// holds, and changes no more.
pub proof fn law_play_appends_track(
    state: PlaybackView,
    volume: u32,
    path: Seq<char>,
    sink_paused: bool,
    tracks: Seq<Seq<char>>,
)
    ensures
        ({
            let command = CommandView::Play(path);
            let step = commanded_step(state, volume, command, sink_paused);
            &&& step.sink is None
            &&& step.broadcast is None
            &&& step.load == Some(
                LoadView { path, volume: Some(volume), reason: LoadReason::Play },
            )
            &&& sink_after(step, tracks) == tracks + seq![path]
            &&& commanded(state, command) == state
            &&& commanded_volume(volume, command) == volume
        }),
{
    assert(tracks.push(path) =~= tracks + seq![path]);
}

/// A pause tells a paused sink to play on and any other to pause, and tells
/// the state at once. The sink keeps its tracks, and nothing else changes.
pub proof fn law_pause_keeps_tracks(
    state: PlaybackView,
    volume: u32,
    sink_paused: bool,
    tracks: Seq<Seq<char>>,
)
    ensures
        ({
            let step = commanded_step(state, volume, CommandView::Pause, sink_paused);
            &&& sink_paused ==> step.sink == Some(SinkAction::Play)
            &&& !sink_paused ==> step.sink == Some(SinkAction::Pause)
            &&& step.load is None
            &&& step.broadcast is Some
            &&& step.broadcast->0.queue == state.queue
            &&& step.broadcast->0.current_index == state.current_index
            &&& step.broadcast->0.is_playing == state.is_playing
            &&& sink_after(step, tracks) == tracks
            &&& commanded(state, CommandView::Pause) == state
            &&& commanded_volume(volume, CommandView::Pause) == volume
        }),
{
}

/// A volume from 0.0 to 1.0 is handed to the sink and kept, bit for bit; one
/// above becomes 1.0 and one below 0.0. It touches no track and no state.
pub proof fn law_volume_is_told_as_asked(
    state: PlaybackView,
    volume: u32,
    bits: u32,
    sink_paused: bool,
    tracks: Seq<Seq<char>>,
)
    ensures
        ({
            let command = CommandView::SetVolume(bits);
            let step = commanded_step(state, volume, command, sink_paused);
            let kept = commanded_volume(volume, command);
            &&& step.sink == Some(SinkAction::SetVolume(kept))
            &&& bits <= 0x3f80_0000 ==> kept == bits
            &&& 0x3f80_0000 <= bits <= 0x7f80_0000 ==> kept == 0x3f80_0000
            &&& 0x7f80_0000 < bits <= 0x8000_0000 ==> kept == bits
            &&& 0x8000_0000 < bits <= 0xff80_0000 ==> kept == 0
            &&& 0xff80_0000 < bits ==> kept == bits
            &&& step.broadcast is None
            &&& step.load is None
            &&& sink_after(step, tracks) == tracks
            &&& commanded(state, command) == state
        }),
{
    law_clamp_keeps_range(bits);
}

/// Nothing is done to go back to the previous song.
pub proof fn law_previous_does_nothing(
    state: PlaybackView,
    volume: u32,
    sink_paused: bool,
    tracks: Seq<Seq<char>>,
)
    ensures
        ({
            let step = commanded_step(state, volume, CommandView::Previous, sink_paused);
            &&& step.sink is None
            &&& step.broadcast is None
            &&& step.load is None
            &&& sink_after(step, tracks) == tracks
            &&& commanded(state, CommandView::Previous) == state
            &&& commanded_volume(volume, CommandView::Previous) == volume
        }),
{
}

/// The player starts at the volume 0.5.
pub proof fn law_starts_at_half_volume()
    ensures
        volume_after(Seq::empty()) == 0x3f00_0000,
{
}

/// Once a track has been appended the queue and the flags are as they were.
/// The index starts again where the track has replaced another one. Clients
/// are shown the index from then on after going on, and the one before after
/// a jump.
pub proof fn law_appended_track_counts_anew(state: PlaybackView, reason: LoadReason)
    ensures
        appended(state, reason).queue == state.queue,
        appended(state, reason).is_playing == state.is_playing,
        appended(state, reason).paused == state.paused,
        reason is Play ==> appended(state, reason).current_index == state.current_index,
        reason is Next ==> appended(state, reason).current_index == 0,
        reason is PlayIndex ==> appended(state, reason).current_index == 0,
        appended_broadcast(state, reason).queue == state.queue,
        appended_broadcast(state, reason).is_playing == state.is_playing,
        reason is Play ==> appended_broadcast(state, reason).current_index == state.current_index,
        reason is Next ==> appended_broadcast(state, reason).current_index == 0,
        reason is PlayIndex ==> appended_broadcast(state, reason).current_index
            == state.current_index,
{
}

/// A request to play a song puts it behind all the others of the queue, under
/// the names and the path that the request gives, starts the index again and
/// shows the player as playing; and it sends the player that path.
pub proof fn law_play_request_adds_song(
    state: PlaybackView,
    artist: Seq<char>,
    album: Seq<char>,
    song: Seq<char>,
)
    ensures
        ({
            let path = "assets/music/"@ + artist + "/"@ + album + "/"@ + song;
            let after = after_play_song(state, artist, album, song);
            &&& after.queue == state.queue + seq![SongView { artist, album, title: song, path }]
            &&& after.current_index == 0
            &&& after.is_playing
            &&& !after.paused
            &&& play_song_outcome(artist, album, song) == OutcomeView::Send(
                CommandView::Play(path),
                PendingView::Play { artist, song },
            )
        }),
{
    law_song_lies_in_its_album(artist, album, song);
    let added = requested_song(artist, album, song);
    assert(state.queue.push(added) =~= state.queue + seq![added]);
}

/// A request to add a song puts it behind all the others of the queue, under
/// the names and the path that the request gives, and keeps the index. Into an
/// empty queue, it sends the player that path and leaves the flags; into any
/// other, it sends nothing and shows the player as playing.
pub proof fn law_add_request_adds_song(
    state: PlaybackView,
    artist: Seq<char>,
    album: Seq<char>,
    song: Seq<char>,
)
    ensures
        ({
            let path = "assets/music/"@ + artist + "/"@ + album + "/"@ + song;
            let after = after_add_to_queue(state, artist, album, song);
            let outcome = add_to_queue_outcome(state, artist, album, song);
            &&& after.queue == state.queue + seq![SongView { artist, album, title: song, path }]
            &&& after.current_index == state.current_index
            &&& state.queue.len() == 0 ==> {
                &&& after.is_playing == state.is_playing
                &&& after.paused == state.paused
                &&& outcome == OutcomeView::Send(
                    CommandView::Play(path),
                    PendingView::AddToQueue { song },
                )
            }
            &&& state.queue.len() > 0 ==> {
                &&& after.is_playing
                &&& !after.paused
                &&& outcome == OutcomeView::Answer(
                    "Added "@ + song + " to queue and started playback"@,
                )
            }
        }),
{
    law_song_lies_in_its_album(artist, album, song);
    let added = requested_song(artist, album, song);
    assert(state.queue.push(added) =~= state.queue + seq![added]);
}

/// A request to jump is granted for every song of the queue: it sends that
/// index, names that song, and shows the player as playing. It is refused for
/// any other index.
pub proof fn law_jump_request_is_granted_in_queue(state: PlaybackView, index: int)
    ensures
        ({
            let after = after_play_queue_index(state, index);
            let outcome = play_queue_index_outcome(state, index);
            &&& after.queue == state.queue
            &&& after.current_index == state.current_index
            &&& 0 <= index < state.queue.len() ==> {
                &&& after.is_playing
                &&& !after.paused
                &&& outcome == OutcomeView::Send(
                    CommandView::PlayIndex(index),
                    PendingView::PlayQueueIndex { title: state.queue[index].title },
                )
            }
            &&& index < 0 || index >= state.queue.len() ==> {
                &&& after == state
                &&& outcome == OutcomeView::Answer("Invalid queue index"@)
            }
        }),
{
}

/// Once its command was sent, a stop shows the player as not playing, an added
/// song and the previous one show it as playing, a pause turns it over, and no
/// other request touches the flags. No request touches the queue or the index
/// then, and one whose command was not sent touches nothing.
pub proof fn law_sent_command_shows_playing(state: PlaybackView, pending: PendingView, sent: bool)
    ensures
        ({
            let after = after_sending(state, pending, sent);
            &&& after.queue == state.queue
            &&& after.current_index == state.current_index
            &&& !sent ==> after == state
            &&& sent && pending is Stop ==> !after.is_playing && !after.paused
            &&& sent && pending is AddToQueue ==> after.is_playing && !after.paused
            &&& sent && pending is Previous ==> after.is_playing && !after.paused
            &&& sent && pending is Pause && state.is_playing ==> !after.is_playing && after.paused
            &&& sent && pending is Pause && !state.is_playing && state.paused ==> after.is_playing
                && !after.paused
            &&& sent && pending is Pause && !state.is_playing && !state.paused ==> after == state
            &&& pending is Play || pending is PlayQueueIndex || pending is Next
                || pending is SetVolume ==> after == state
        }),
{
}

/// What requests are answered, word for word, where their command was sent.
pub proof fn law_answers_when_sent(artist: Seq<char>, song: Seq<char>, shown: Seq<char>)
    ensures
        answer_of(PendingView::Stop, true) == "Stopping Music"@,
        answer_of(PendingView::Play { artist, song }, true) == "Playing "@ + song + " by "@
            + artist,
        answer_of(PendingView::AddToQueue { song }, true) == "Added "@ + song
            + " to queue and started playback"@,
        answer_of(PendingView::PlayQueueIndex { title: song }, true) == "Playing '"@ + song
            + "' from queue"@,
        answer_of(PendingView::Next, true) == "Playing next song"@,
        answer_of(PendingView::Previous, true) == "Playing previous song"@,
        answer_of(PendingView::Pause, true) == "Pausing music"@,
        answer_of(PendingView::SetVolume { shown }, true) == "Volume set to "@ + shown,
{
}

/// What requests are answered, word for word, where their command could not
/// be sent.
pub proof fn law_answers_when_not_sent(artist: Seq<char>, song: Seq<char>, shown: Seq<char>)
    ensures
        answer_of(PendingView::Stop, false) == "Error stopping music"@,
        answer_of(PendingView::Play { artist, song }, false) == "Error playing music"@,
        answer_of(PendingView::AddToQueue { song }, false) == "Added "@ + song
            + " to queue, but failed to start playback"@,
        answer_of(PendingView::PlayQueueIndex { title: song }, false)
            == "Error playing music from queue"@,
        answer_of(PendingView::Next, false) == "Error skipping to next song"@,
        answer_of(PendingView::Previous, false) == "Error going to previous song"@,
        answer_of(PendingView::Pause, false) == "Error pausing music"@,
        answer_of(PendingView::SetVolume { shown }, false) == "Error setting volume"@,
{
}

} // verus!
