//! The decisions of a web music player: what its queue holds, what its audio
//! sink is told to do, what each request is answered, and what the music
//! folders list and find.

pub mod folders;
pub mod laws;
pub mod player;
pub mod requests;
pub mod search;
pub mod song;
pub mod state;
pub mod text;
pub mod volume;
