//! Songs and where they lie.

use vstd::prelude::*;
use vstd::string::*;

verus! {

/// A song of the queue.
#[derive(Debug)]
pub struct Song {
    pub artist: String,
    pub album: String,
    pub title: String,
    pub path: String,
}

/// A song as its texts.
pub struct SongView {
    pub artist: Seq<char>,
    pub album: Seq<char>,
    pub title: Seq<char>,
    pub path: Seq<char>,
}

impl View for Song {
    type V = SongView;

    open spec fn view(&self) -> SongView {
        SongView {
            artist: self.artist@,
            album: self.album@,
            title: self.title@,
            path: self.path@,
        }
    }
}

impl Clone for Song {
    fn clone(&self) -> (copy: Song)
        ensures
            copy@ == self@,
    {
        Song {
            artist: self.artist.clone(),
            album: self.album.clone(),
            title: self.title.clone(),
            path: self.path.clone(),
        }
    }
}

/// The songs of a queue as their texts.
pub open spec fn songs(queue: Seq<Song>) -> Seq<SongView> {
    queue.map_values(|song: Song| song@)
}

/// Copies a queue.
pub fn copy_queue(queue: &Vec<Song>) -> (copy: Vec<Song>)
    ensures
        songs(copy@) == songs(queue@),
{
    let mut copy: Vec<Song> = Vec::new();
    let mut i: usize = 0;
    while i < queue.len()
        invariant
            i <= queue@.len(),
            copy@.len() == i,
            forall|k: int| 0 <= k < i ==> (#[trigger] copy@[k])@ == queue@[k]@,
        decreases queue@.len() - i,
    {
        copy.push(queue[i].clone());
        i = i + 1;
    }
    proof {
        assert(songs(copy@) =~= songs(queue@));
    }
    copy
}

/// The folder of the music library.
pub open spec fn library_path() -> Seq<char> {
    "assets/music"@
}

/// The folder of an artist.
pub open spec fn artist_path_of(artist: Seq<char>) -> Seq<char> {
    library_path() + "/"@ + artist
}

/// The folder of an album.
pub open spec fn album_path_of(artist: Seq<char>, album: Seq<char>) -> Seq<char> {
    artist_path_of(artist) + "/"@ + album
}

/// The file of a song.
pub open spec fn song_path_of(artist: Seq<char>, album: Seq<char>, song: Seq<char>) -> Seq<char> {
    album_path_of(artist, album) + "/"@ + song
}

/// The folder of the music library.
pub fn music_path() -> (path: String)
    ensures
        path@ == library_path(),
{
    "assets/music".to_owned()
}

/// The folder of an artist.
pub fn artist_path(artist: &str) -> (path: String)
    ensures
        path@ == artist_path_of(artist@),
        path@ == "assets/music/"@ + artist@,
{
    proof {
        law_song_lies_in_its_album(artist@, Seq::empty(), Seq::empty());
    }
    let mut path = music_path();
    path.append("/");
    path.append(artist);
    path
}

/// The folder of an album.
pub fn album_path(artist: &str, album: &str) -> (path: String)
    ensures
        path@ == album_path_of(artist@, album@),
        path@ == "assets/music/"@ + artist@ + "/"@ + album@,
{
    proof {
        law_song_lies_in_its_album(artist@, album@, Seq::empty());
    }
    let mut path = artist_path(artist);
    path.append("/");
    path.append(album);
    path
}

/// The file of a song.
pub fn song_path(artist: &str, album: &str, song: &str) -> (path: String)
    ensures
        path@ == song_path_of(artist@, album@, song@),
        path@ == "assets/music/"@ + artist@ + "/"@ + album@ + "/"@ + song@,
{
    proof {
        law_song_lies_in_its_album(artist@, album@, song@);
    }
    let mut path = album_path(artist, album);
    path.append("/");
    path.append(song);
    path
}

/// The song that a request names: its title is the file's name.
pub open spec fn requested_song(artist: Seq<char>, album: Seq<char>, song: Seq<char>) -> SongView {
    SongView { artist, album, title: song, path: song_path_of(artist, album, song) }
}

/// Makes the song that a request names.
pub fn request_song(artist: &str, album: &str, song: &str) -> (result: Song)
    ensures
        result@ == requested_song(artist@, album@, song@),
{
    Song {
        artist: artist.to_owned(),
        album: album.to_owned(),
        title: song.to_owned(),
        path: song_path(artist, album, song),
    }
}

/// Whether every song of a queue lies where its artist, album and title say.
pub open spec fn all_in_library(queue: Seq<SongView>) -> bool {
    forall|i: int|
        0 <= i < queue.len() ==> #[trigger] queue[i] == requested_song(
            queue[i].artist,
            queue[i].album,
            queue[i].title,
        )
}

/// A song that is asked for is shown under the names it is asked for by, and
/// lies in the folder `assets/music`, there in the folder of the artist, there
/// in that of the album, whatever the names are.
pub proof fn law_song_lies_in_its_album(artist: Seq<char>, album: Seq<char>, song: Seq<char>)
    ensures
        requested_song(artist, album, song) == (SongView {
            artist,
            album,
            title: song,
            path: "assets/music/"@ + artist + "/"@ + album + "/"@ + song,
        }),
        song_path_of(artist, album, song) == "assets/music/"@ + artist + "/"@ + album + "/"@
            + song,
        song_path_of(artist, album, song) == album_path_of(artist, album) + "/"@ + song,
        album_path_of(artist, album) == "assets/music/"@ + artist + "/"@ + album,
        album_path_of(artist, album) == artist_path_of(artist) + "/"@ + album,
        artist_path_of(artist) == "assets/music/"@ + artist,
        library_path() == "assets/music"@,
{
    reveal_strlit("assets/music/");
    reveal_strlit("assets/music");
    reveal_strlit("/");
    assert("assets/music"@ + "/"@ =~= "assets/music/"@);
}

/// Two songs of one album lie at different places if they have different file
/// names.
pub proof fn law_songs_of_album_lie_apart(
    artist: Seq<char>,
    album: Seq<char>,
    song: Seq<char>,
    other: Seq<char>,
)
    requires
        song != other,
    ensures
        requested_song(artist, album, song).path != requested_song(artist, album, other).path,
{
    let folder = album_path_of(artist, album) + "/"@;
    if folder + song == folder + other {
        assert((folder + song).skip(folder.len() as int) =~= song);
        assert((folder + other).skip(folder.len() as int) =~= other);
    }
}

/// A song is shown with each of its texts, and a queue song by song.
pub proof fn law_songs_are_shown_whole(song: Song, queue: Seq<Song>)
    ensures
        song@.artist == song.artist@,
        song@.album == song.album@,
        song@.title == song.title@,
        song@.path == song.path@,
        songs(queue).len() == queue.len(),
        forall|i: int| 0 <= i < queue.len() ==> #[trigger] songs(queue)[i] == queue[i]@,
{
}

} // verus!
