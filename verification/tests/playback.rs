use rust_box::player::{
    audio_player, track_appended, AudioCommand, AudioPlayer, Load, LoadReason, SinkAction, Step,
};
use rust_box::requests::{AskedVolume, Outcome, Pending};
use rust_box::state::{queue_update, AppState, QueueStatus};

fn titles(status: &QueueStatus) -> Vec<String> {
    status.queue.iter().map(|song| song.title.clone()).collect()
}

fn queue(state: &AppState) -> Vec<String> {
    titles(&state.get_queue())
}

fn state_of(songs: &[&str]) -> AppState {
    let mut state = AppState::new();
    for song in songs {
        state.play_song("Nina", "Live", song);
    }
    state
}

fn step(state: &mut AppState, command: AudioCommand) -> Step {
    let mut player = AudioPlayer::new();
    audio_player(&mut player, state, command, false)
}

fn path(song: &str) -> String {
    format!("assets/music/Nina/Live/{}", song)
}

fn load(song: &str, volume: Option<u32>, reason: LoadReason) -> Option<Load> {
    Some(Load { path: path(song), volume, reason })
}

fn answer(state: &mut AppState, outcome: Outcome, sent: bool) -> String {
    match outcome {
        Outcome::Answer(text) => text,
        Outcome::Send(_, pending) => state.command_sent(pending, sent),
    }
}

#[test]
fn starts_empty() {
    let status = AppState::new().get_queue();
    assert_eq!(status.current_index, 0);
    assert!(status.queue.is_empty());
    assert!(!status.is_playing);
}

#[test]
fn play_song_joins_the_queue_and_is_loaded() {
    let mut state = state_of(&["a.mp3"]);
    state.track_finished();
    let outcome = state.play_song("Nina", "Live", "b.mp3");
    let status = state.get_queue();
    assert_eq!(titles(&status), vec!["a.mp3", "b.mp3"]);
    assert_eq!(status.queue[1].artist, "Nina");
    assert_eq!(status.queue[1].album, "Live");
    assert_eq!(status.queue[1].path, path("b.mp3"));
    assert_eq!(status.current_index, 0);
    assert!(status.is_playing);
    assert_eq!(
        outcome,
        Outcome::Send(
            AudioCommand::Play(path("b.mp3")),
            Pending::Play { artist: "Nina".to_string(), song: "b.mp3".to_string() }
        )
    );

    let played = step(&mut state, AudioCommand::Play(path("b.mp3")));
    assert_eq!(played.sink, None);
    assert!(played.broadcast.is_none());
    assert_eq!(played.load, load("b.mp3", Some(0.5f32.to_bits()), LoadReason::Play));
    let shown = track_appended(&mut state, LoadReason::Play);
    assert_eq!(titles(&shown), vec!["a.mp3", "b.mp3"]);

    assert_eq!(answer(&mut state, outcome, true), "Playing b.mp3 by Nina");
    let outcome = state.play_song("Nina", "Live", "c.mp3");
    assert_eq!(answer(&mut state, outcome, false), "Error playing music");
}

#[test]
fn add_to_an_empty_queue_plays() {
    let mut state = AppState::new();
    let outcome = state.add_to_queue("Nina", "Live", "a.mp3");
    assert_eq!(
        outcome,
        Outcome::Send(AudioCommand::Play(path("a.mp3")), Pending::AddToQueue { song: "a.mp3".to_string() })
    );
    assert!(!state.get_queue().is_playing);
    assert_eq!(answer(&mut state, outcome, true), "Added a.mp3 to queue and started playback");
    assert!(state.get_queue().is_playing);

    let mut state = AppState::new();
    let outcome = state.add_to_queue("Nina", "Live", "a.mp3");
    assert_eq!(answer(&mut state, outcome, false), "Added a.mp3 to queue, but failed to start playback");
    assert!(!state.get_queue().is_playing);
    assert_eq!(queue(&state), vec!["a.mp3"]);
}

#[test]
fn add_to_another_queue_waits() {
    let mut state = state_of(&["a.mp3"]);
    let outcome = state.pause_music();
    answer(&mut state, outcome, true);
    assert!(!state.get_queue().is_playing);
    let outcome = state.add_to_queue("Nina", "Live", "b.mp3");
    assert_eq!(outcome, Outcome::Answer("Added b.mp3 to queue and started playback".to_string()));
    assert!(state.get_queue().is_playing);
    assert_eq!(queue(&state), vec!["a.mp3", "b.mp3"]);
}

#[test]
fn jump_loads_the_named_song() {
    let mut state = state_of(&["a.mp3", "b.mp3", "c.mp3"]);
    state.track_finished();
    let outcome = state.play_queue_index(2);
    assert_eq!(
        outcome,
        Outcome::Send(AudioCommand::PlayIndex(2), Pending::PlayQueueIndex { title: "c.mp3".to_string() })
    );
    let jumped = step(&mut state, AudioCommand::PlayIndex(2));
    assert_eq!(jumped.sink, Some(SinkAction::Stop));
    assert!(jumped.broadcast.is_none());
    assert_eq!(jumped.load, load("c.mp3", None, LoadReason::PlayIndex));
    assert_eq!(queue(&state), vec!["c.mp3"]);
    let shown = track_appended(&mut state, LoadReason::PlayIndex);
    assert_eq!(shown.current_index, 1);
    assert_eq!(state.get_queue().current_index, 0);
    assert_eq!(answer(&mut state, outcome, true), "Playing 'c.mp3' from queue");
    let outcome = state.play_queue_index(0);
    assert_eq!(answer(&mut state, outcome, false), "Error playing music from queue");
}

#[test]
fn jump_beyond_the_queue_is_refused() {
    let mut state = state_of(&["a.mp3"]);
    let outcome = state.pause_music();
    answer(&mut state, outcome, true);
    assert_eq!(state.play_queue_index(1), Outcome::Answer("Invalid queue index".to_string()));
    assert!(!state.get_queue().is_playing);

    let jumped = step(&mut state, AudioCommand::PlayIndex(1));
    assert_eq!(jumped.sink, Some(SinkAction::Stop));
    assert!(jumped.broadcast.is_none());
    assert_eq!(jumped.load, None);
    assert_eq!(queue(&state), vec!["a.mp3"]);
}

#[test]
fn jump_is_repeated_next() {
    let mut jumped = state_of(&["a.mp3", "b.mp3", "c.mp3", "d.mp3"]);
    step(&mut jumped, AudioCommand::PlayIndex(2));
    let mut stepped = state_of(&["a.mp3", "b.mp3", "c.mp3", "d.mp3"]);
    step(&mut stepped, AudioCommand::Next);
    let last = step(&mut stepped, AudioCommand::Next);
    assert_eq!(queue(&jumped), queue(&stepped));
    assert_eq!(queue(&jumped), vec!["c.mp3", "d.mp3"]);
    assert_eq!(last.load, load("c.mp3", None, LoadReason::Next));
}

#[test]
fn jump_to_the_first_song_keeps_the_queue() {
    let mut state = state_of(&["a.mp3", "b.mp3"]);
    let jumped = step(&mut state, AudioCommand::PlayIndex(0));
    assert_eq!(jumped.load, load("a.mp3", None, LoadReason::PlayIndex));
    assert_eq!(queue(&state), vec!["a.mp3", "b.mp3"]);
}

#[test]
fn next_drops_the_first_song() {
    let mut state = state_of(&["a.mp3", "b.mp3"]);
    state.track_finished();
    let next = step(&mut state, AudioCommand::Next);
    assert_eq!(next.sink, Some(SinkAction::Stop));
    assert!(next.broadcast.is_none());
    assert_eq!(next.load, load("b.mp3", None, LoadReason::Next));
    assert_eq!(state.get_queue().current_index, 1);
    let shown = track_appended(&mut state, LoadReason::Next);
    assert_eq!(shown.current_index, 0);
    assert_eq!(titles(&shown), vec!["b.mp3"]);
    assert_eq!(state.get_queue().current_index, 0);
}

#[test]
fn next_at_the_end_stops() {
    let mut state = state_of(&["a.mp3"]);
    state.track_finished();
    let next = step(&mut state, AudioCommand::Next);
    assert_eq!(next.sink, Some(SinkAction::Stop));
    assert_eq!(next.load, None);
    let shown = next.broadcast.unwrap();
    assert!(shown.queue.is_empty());
    assert_eq!(shown.current_index, 1);
    assert!(shown.is_playing);

    let next = step(&mut state, AudioCommand::Next);
    assert_eq!(next.load, None);
    assert!(next.broadcast.unwrap().queue.is_empty());
}

#[test]
fn next_song_answers() {
    let mut state = state_of(&["a.mp3"]);
    assert_eq!(state.next_song(), Outcome::Send(AudioCommand::Next, Pending::Next));
    assert_eq!(state.command_sent(Pending::Next, true), "Playing next song");
    assert_eq!(state.command_sent(Pending::Next, false), "Error skipping to next song");
    assert_eq!(queue(&state), vec!["a.mp3"]);
}

#[test]
fn previous_song_changes_nothing_but_the_flag() {
    let mut state = AppState::new();
    assert_eq!(state.previous_song(), Outcome::Send(AudioCommand::Previous, Pending::Previous));
    assert_eq!(state.command_sent(Pending::Previous, false), "Error going to previous song");
    assert!(!state.get_queue().is_playing);
    assert_eq!(state.command_sent(Pending::Previous, true), "Playing previous song");
    assert!(state.get_queue().is_playing);

    let step = step(&mut state, AudioCommand::Previous);
    assert_eq!(step.sink, None);
    assert_eq!(step.load, None);
    assert!(step.broadcast.is_none());
}

#[test]
fn stop_returns_to_the_start() {
    let mut state = state_of(&["a.mp3", "b.mp3"]);
    state.track_finished();
    assert_eq!(state.stop_music(), Outcome::Send(AudioCommand::Stop, Pending::Stop));
    assert_eq!(state.command_sent(Pending::Stop, false), "Error stopping music");
    assert!(state.get_queue().is_playing);
    assert_eq!(state.command_sent(Pending::Stop, true), "Stopping Music");

    let stopped = step(&mut state, AudioCommand::Stop);
    assert_eq!(stopped.sink, Some(SinkAction::Stop));
    assert_eq!(stopped.load, None);
    assert!(stopped.broadcast.unwrap().queue.is_empty());
    let status = state.get_queue();
    assert!(status.queue.is_empty());
    assert_eq!(status.current_index, 0);
    assert!(!status.is_playing);
}

#[test]
fn pause_toggles() {
    let mut state = state_of(&["a.mp3"]);
    let mut player = AudioPlayer::new();
    let first = audio_player(&mut player, &mut state, AudioCommand::Pause, false);
    assert_eq!(first.sink, Some(SinkAction::Pause));
    assert_eq!(titles(&first.broadcast.unwrap()), vec!["a.mp3"]);
    let second = audio_player(&mut player, &mut state, AudioCommand::Pause, true);
    assert_eq!(second.sink, Some(SinkAction::Play));

    assert_eq!(state.pause_music(), Outcome::Send(AudioCommand::Pause, Pending::Pause));
    assert_eq!(state.command_sent(Pending::Pause, false), "Error pausing music");
    assert!(state.get_queue().is_playing);
    assert_eq!(state.command_sent(Pending::Pause, true), "Pausing music");
    assert!(!state.get_queue().is_playing);
}

#[test]
fn second_pause_plays_on() {
    let mut state = state_of(&["a.mp3"]);
    assert_eq!(state.command_sent(Pending::Pause, true), "Pausing music");
    assert!(!state.get_queue().is_playing);
    let paused = step(&mut state, AudioCommand::Pause);
    assert!(!paused.broadcast.unwrap().is_playing);
    assert_eq!(state.command_sent(Pending::Pause, false), "Error pausing music");
    assert!(!state.get_queue().is_playing);
    assert_eq!(state.command_sent(Pending::Pause, true), "Pausing music");
    assert!(state.get_queue().is_playing);
    state.command_sent(Pending::Pause, true);
    assert!(!state.get_queue().is_playing);
}

#[test]
fn pause_starts_nothing_that_was_not_paused() {
    let mut state = AppState::new();
    state.command_sent(Pending::Pause, true);
    assert!(!state.get_queue().is_playing);
    state.command_sent(Pending::Pause, true);
    assert!(!state.get_queue().is_playing);

    let mut state = state_of(&["a.mp3"]);
    state.command_sent(Pending::Pause, true);
    state.command_sent(Pending::Stop, true);
    state.command_sent(Pending::Pause, true);
    assert!(!state.get_queue().is_playing);
}

#[test]
fn pause_after_another_start_pauses() {
    let mut state = state_of(&["a.mp3", "b.mp3"]);
    state.command_sent(Pending::Pause, true);
    state.play_queue_index(1);
    assert!(state.get_queue().is_playing);
    state.command_sent(Pending::Pause, true);
    assert!(!state.get_queue().is_playing);
    state.command_sent(Pending::Pause, true);
    assert!(state.get_queue().is_playing);
}

#[test]
fn volume_stays_set() {
    let mut state = AppState::new();
    let mut player = AudioPlayer::new();
    let set = audio_player(&mut player, &mut state, AudioCommand::SetVolume(3.0f32.to_bits()), false);
    assert_eq!(set.sink, Some(SinkAction::SetVolume(1.0f32.to_bits())));
    assert_eq!(set.load, None);
    assert!(set.broadcast.is_none());
    audio_player(&mut player, &mut state, AudioCommand::Pause, false);
    let played = audio_player(&mut player, &mut state, AudioCommand::Play(path("a.mp3")), false);
    assert_eq!(played.load, load("a.mp3", Some(1.0f32.to_bits()), LoadReason::Play));
}

#[test]
fn set_volume_answers() {
    let mut state = AppState::new();
    let asked = AskedVolume { bits: 0.25f32.to_bits(), shown: "0.25".to_string() };
    let outcome = state.set_volume(Some(asked));
    assert_eq!(
        outcome,
        Outcome::Send(
            AudioCommand::SetVolume(0.25f32.to_bits()),
            Pending::SetVolume { shown: "0.25".to_string() }
        )
    );
    assert_eq!(answer(&mut state, outcome, true), "Volume set to 0.25");
    assert_eq!(
        state.command_sent(Pending::SetVolume { shown: "0.25".to_string() }, false),
        "Error setting volume"
    );
    assert_eq!(state.set_volume(None), Outcome::Answer("Invalid volume value".to_string()));
}

#[test]
fn finished_tracks_are_counted() {
    let mut state = state_of(&["a.mp3", "b.mp3"]);
    let shown = state.track_finished();
    assert_eq!(shown.current_index, 1);
    assert_eq!(titles(&shown), vec!["a.mp3", "b.mp3"]);
    assert_eq!(state.track_finished().current_index, 2);
    assert_eq!(state.get_queue().current_index, 2);
}

#[test]
fn queue_keeps_the_order_of_requests() {
    let mut state = state_of(&["a.mp3", "b.mp3"]);
    step(&mut state, AudioCommand::Next);
    state.add_to_queue("Nina", "Live", "c.mp3");
    state.play_song("Nina", "Live", "d.mp3");
    assert_eq!(queue(&state), vec!["b.mp3", "c.mp3", "d.mp3"]);
    for song in state.get_queue().queue {
        assert_eq!(song.path, path(&song.title));
    }
}

#[test]
fn queue_update_frames_the_json() {
    let event = queue_update(Some("{}".to_string())).unwrap();
    assert_eq!(event.event_type, "queue_update");
    assert_eq!(event.data, "{}");
    assert_eq!(queue_update(None), None);
}
