# Rust Box

The core of a web music player, written in Rust and verified with Verus: the
song queue, the audio player's decisions, the answers to requests, the listing
of the music folders and the search through them.

- `src/song.rs`, `src/state.rs`: songs, where they lie, and the shared state
- `src/player.rs`: what a command makes of the queue and tells the audio sink
- `src/requests.rs`: what each request changes, sends and is answered
- `src/folders.rs`, `src/search.rs`: what is listed and found
- `src/text.rs`, `src/volume.rs`: file names, search terms, volumes
- `src/laws.rs`: what holds of the player over every run; the other modules
  end with their own laws
- `app/`: the web server around it (axum, tokio) and the audio thread (rodio,
  which needs the ALSA development files on Linux)
- `tests/`: tests of the library

Music lies in `assets/music/Artist/Album/`, and the page that is served in
`assets/index.html`.
