//! The music folders: what is listed of the library, of an artist and of an
//! album, given what was read of their folders.

use vstd::prelude::*;
use vstd::string::*;

use crate::text::{
    ascii_lowercase_text, ends_with, ends_with_text, extension, extension_of, is_ascii_text,
    law_ending_text_comes_last, law_extension_follows_last_dot, law_no_extension_without_dot,
    lowercase, same_text, stem, stem_of,
};

verus! {

/// One entry of a folder: one that could not be read; one whose name is not
/// Unicode, with the nearest text to it; or one with its name.
#[derive(Debug, PartialEq, Eq)]
pub enum Entry {
    Unreadable,
    NotUnicode(String),
    Named(String),
}

/// The name of an entry, where it has one.
pub open spec fn name_of(entry: Entry) -> Option<Seq<char>> {
    match entry {
        Entry::Named(name) => Some(name@),
        _ => None,
    }
}

/// The name of an entry as it is shown: one that is not Unicode is shown by
/// the nearest text.
pub open spec fn shown_name_of(entry: Entry) -> Option<Seq<char>> {
    match entry {
        Entry::Unreadable => None,
        Entry::NotUnicode(text) => Some(text@),
        Entry::Named(name) => Some(name@),
    }
}

/// A text that may be missing, as its characters.
pub open spec fn opt_text(text: Option<&str>) -> Option<Seq<char>> {
    match text {
        Some(t) => Some(t@),
        None => None,
    }
}

impl Entry {
    /// The name of the entry, where it has one.
    pub fn name(&self) -> (name: Option<&str>)
        ensures
            opt_text(name) == name_of(*self),
    {
        match self {
            Entry::Named(name) => Some(name.as_str()),
            _ => None,
        }
    }

    /// The name of the entry as it is shown.
    pub fn shown_name(&self) -> (name: Option<&str>)
        ensures
            opt_text(name) == shown_name_of(*self),
    {
        match self {
            Entry::Unreadable => None,
            Entry::NotUnicode(text) => Some(text.as_str()),
            Entry::Named(name) => Some(name.as_str()),
        }
    }
}

/// An album's folder: its entry in the artist's folder, and its own entries
/// where it could be read.
#[derive(Debug, PartialEq, Eq)]
pub struct AlbumFolder {
    pub entry: Entry,
    pub files: Option<Vec<Entry>>,
}

/// A file of an album's folder, with the title that its metadata hold, where
/// they could be read and hold one.
#[derive(Debug, PartialEq, Eq)]
pub struct TrackFile {
    pub entry: Entry,
    pub tag_title: Option<String>,
}

/// An album as it is listed, or a track of one.
#[derive(Debug, PartialEq, Eq)]
pub struct Album {
    pub artist: String,
    pub title: String,
    pub cover_art_path: String,
    pub filename: String,
}

/// An album as its texts.
pub struct AlbumView {
    pub artist: Seq<char>,
    pub title: Seq<char>,
    pub cover_art_path: Seq<char>,
    pub filename: Seq<char>,
}

impl View for Album {
    type V = AlbumView;

    open spec fn view(&self) -> AlbumView {
        AlbumView {
            artist: self.artist@,
            title: self.title@,
            cover_art_path: self.cover_art_path@,
            filename: self.filename@,
        }
    }
}

/// Texts as their characters.
pub open spec fn texts(list: Seq<String>) -> Seq<Seq<char>> {
    list.map_values(|text: String| text@)
}

/// Albums as their texts.
pub open spec fn albums(list: Seq<Album>) -> Seq<AlbumView> {
    list.map_values(|album: Album| album@)
}

/// The names of the entries that have one, in order.
pub open spec fn names(entries: Seq<Entry>) -> Seq<Seq<char>>
    decreases entries.len(),
{
    if entries.len() == 0 {
        Seq::empty()
    } else {
        match name_of(entries.last()) {
            Some(name) => names(entries.drop_last()).push(name),
            None => names(entries.drop_last()),
        }
    }
}

/// Lists the artists of the library, given the entries of its folder, or
/// `None` where it could not be read.
pub fn get_library(entries: Option<&Vec<Entry>>) -> (library: Vec<String>)
    ensures
        entries matches Some(e) ==> texts(library@) == names(e@),
        entries is None ==> library@.len() == 0,
{
    let mut library: Vec<String> = Vec::new();
    if let Some(entries) = entries {
        let mut i: usize = 0;
        proof {
            assert(texts(library@) =~= names(entries@.take(0)));
        }
        while i < entries.len()
            invariant
                i <= entries@.len(),
                texts(library@) == names(entries@.take(i as int)),
            decreases entries@.len() - i,
        {
            proof {
                assert(entries@.take(i + 1).drop_last() =~= entries@.take(i as int));
            }
            let ghost before = library@;
            if let Some(name) = entries[i].name() {
                library.push(name.to_owned());
                proof {
                    assert(texts(library@) =~= texts(before).push(name@));
                }
            }
            i = i + 1;
        }
        proof {
            assert(entries@.take(entries@.len() as int) =~= entries@);
        }
    }
    library
}

/// Whether a file name is that of a picture.
pub open spec fn is_picture(name: Seq<char>) -> bool {
    ends_with_text(name, ".jpg"@) || ends_with_text(name, ".png"@)
}

/// The name of the first picture among the entries; empty where there is none.
pub open spec fn first_picture(entries: Seq<Entry>) -> Seq<char>
    decreases entries.len(),
{
    if entries.len() == 0 {
        Seq::empty()
    } else if name_of(entries[0]) is Some && is_picture(name_of(entries[0])->0) {
        name_of(entries[0])->0
    } else {
        first_picture(entries.skip(1))
    }
}

/// Finds the cover art among the files of an album: the first picture.
fn cover_art(entries: &Vec<Entry>) -> (cover: String)
    ensures
        cover@ == first_picture(entries@),
{
    let mut i: usize = 0;
    proof {
        assert(entries@.skip(0) =~= entries@);
    }
    while i < entries.len()
        invariant
            i <= entries@.len(),
            first_picture(entries@) == first_picture(entries@.skip(i as int)),
        decreases entries@.len() - i,
    {
        proof {
            assert(entries@.skip(i as int).skip(1) =~= entries@.skip(i + 1));
        }
        if let Some(name) = entries[i].name() {
            if ends_with(name, ".jpg") || ends_with(name, ".png") {
                return name.to_owned();
            }
        }
        i = i + 1;
    }
    String::new()
}

/// The albums of an artist: one for each folder entry with a name, in order,
/// under the first picture of its folder.
pub open spec fn artist_albums(artist: Seq<char>, folders: Seq<AlbumFolder>) -> Seq<AlbumView>
    decreases folders.len(),
{
    if folders.len() == 0 {
        Seq::empty()
    } else {
        let before = artist_albums(artist, folders.drop_last());
        match name_of(folders.last().entry) {
            Some(title) => before.push(folder_album(artist, title, folders.last().files)),
            None => before,
        }
    }
}

/// The album that a folder holds.
pub open spec fn folder_album(
    artist: Seq<char>,
    title: Seq<char>,
    files: Option<Vec<Entry>>,
) -> AlbumView {
    let cover = match files {
        Some(f) => first_picture(f@),
        None => Seq::empty(),
    };
    AlbumView { artist, title, cover_art_path: cover, filename: cover }
}

/// Lists the albums of an artist, given the album folders in the artist's
/// folder, or `None` where it could not be read.
pub fn get_artist_dir(artist: &str, folders: Option<&Vec<AlbumFolder>>) -> (list: Vec<Album>)
    ensures
        folders matches Some(f) ==> albums(list@) == artist_albums(artist@, f@),
        folders is None ==> list@.len() == 0,
{
    let mut list: Vec<Album> = Vec::new();
    if let Some(folders) = folders {
        let mut i: usize = 0;
        proof {
            assert(albums(list@) =~= artist_albums(artist@, folders@.take(0)));
        }
        while i < folders.len()
            invariant
                i <= folders@.len(),
                albums(list@) == artist_albums(artist@, folders@.take(i as int)),
            decreases folders@.len() - i,
        {
            proof {
                assert(folders@.take(i + 1).drop_last() =~= folders@.take(i as int));
            }
            let ghost before = list@;
            if let Some(title) = folders[i].entry.name() {
                let cover = match &folders[i].files {
                    Some(files) => cover_art(files),
                    None => String::new(),
                };
                let album = Album {
                    artist: artist.to_owned(),
                    title: title.to_owned(),
                    filename: cover.clone(),
                    cover_art_path: cover,
                };
                let ghost shown = album@;
                list.push(album);
                proof {
                    assert(albums(list@) =~= albums(before).push(shown));
                    assert(shown == folder_album(artist@, title@, folders@[i as int].files));
                }
            }
            i = i + 1;
        }
        proof {
            assert(folders@.take(folders@.len() as int) =~= folders@);
        }
    }
    list
}

/// Whether an extension in lower case is that of a track that an album lists.
pub open spec fn is_track_ext(lower: Seq<char>) -> bool {
    lower == "flac"@ || lower == "wav"@ || lower == "mp3"@ || lower == "mp4"@
}

/// Whether a file name is that of a track that an album lists: it has an
/// extension, and in lower case that is a track's.
pub open spec fn is_track(name: Seq<char>) -> bool {
    match extension_of(name) {
        Some(ext) => is_track_ext(lowercase(ext)),
        None => false,
    }
}

/// Whether an extension in lower case is that of a track that an album lists.
pub fn is_track_extension(lower: &str) -> (result: bool)
    ensures
        result == is_track_ext(lower@),
{
    same_text(lower, "flac") || same_text(lower, "wav") || same_text(lower, "mp3") || same_text(
        lower,
        "mp4",
    )
}

/// Whether a file name is that of a track that an album lists. The letters of
/// an ASCII extension may be of either case.
pub fn is_track_name(name: &str) -> (result: bool)
    ensures
        result == is_track(name@),
        extension_of(name@) matches Some(ext) ==> is_ascii_text(ext) ==> result == is_track_ext(
            ascii_lowercase_text(ext),
        ),
{
    match extension(name) {
        Some(ext) => is_track_extension(ext.as_str().to_lowercase().as_str()),
        None => false,
    }
}

/// The title of a track: that of its metadata, or else its file name up to
/// the last dot.
pub open spec fn track_title(name: Seq<char>, tag_title: Option<String>) -> Seq<char> {
    match tag_title {
        Some(title) => title@,
        None => stem_of(name),
    }
}

/// The tracks of an album: one for each file with a track's name, in order.
pub open spec fn album_tracks(
    artist: Seq<char>,
    cover: Seq<char>,
    files: Seq<TrackFile>,
) -> Seq<AlbumView>
    decreases files.len(),
{
    if files.len() == 0 {
        Seq::empty()
    } else {
        let before = album_tracks(artist, cover, files.drop_last());
        match name_of(files.last().entry) {
            Some(name) => if is_track(name) {
                before.push(
                    AlbumView {
                        artist,
                        title: track_title(name, files.last().tag_title),
                        cover_art_path: cover,
                        filename: name,
                    },
                )
            } else {
                before
            },
            None => before,
        }
    }
}

/// Lists the tracks of an album. Its folder is read twice, for the cover art
/// and for the tracks; each of the two is `None` where it could not be read.
pub fn get_artist_albums(
    artist: &str,
    entries: Option<&Vec<Entry>>,
    files: Option<&Vec<TrackFile>>,
) -> (list: Vec<Album>)
    ensures
        entries matches Some(e) ==> (files matches Some(f) ==> albums(list@) == album_tracks(
            artist@,
            first_picture(e@),
            f@,
        )),
        entries is None || files is None ==> list@.len() == 0,
{
    let mut list: Vec<Album> = Vec::new();
    if let Some(entries) = entries {
        let cover = cover_art(entries);
        if let Some(files) = files {
            let mut i: usize = 0;
            proof {
                assert(albums(list@) =~= album_tracks(artist@, cover@, files@.take(0)));
            }
            while i < files.len()
                invariant
                    i <= files@.len(),
                    albums(list@) == album_tracks(artist@, cover@, files@.take(i as int)),
                decreases files@.len() - i,
            {
                proof {
                    assert(files@.take(i + 1).drop_last() =~= files@.take(i as int));
                }
                let ghost before = list@;
                if let Some(name) = files[i].entry.name() {
                    if is_track_name(name) {
                        let title = match &files[i].tag_title {
                            Some(title) => title.clone(),
                            None => stem(name),
                        };
                        let track = Album {
                            artist: artist.to_owned(),
                            title,
                            filename: name.to_owned(),
                            cover_art_path: cover.clone(),
                        };
                        let ghost shown = track@;
                        list.push(track);
                        proof {
                            assert(albums(list@) =~= albums(before).push(shown));
                        }
                    }
                }
                i = i + 1;
            }
            proof {
                assert(files@.take(files@.len() as int) =~= files@);
            }
        }
    }
    list
}

/// The entries of album folders.
pub open spec fn entries_of(folders: Seq<AlbumFolder>) -> Seq<Entry> {
    folders.map_values(|folder: AlbumFolder| folder.entry)
}

/// An artist's list holds one album for each entry with a name, in order and
/// under that name, and all of them are the artist's.
pub proof fn law_albums_are_named_entries(artist: Seq<char>, folders: Seq<AlbumFolder>)
    ensures
        artist_albums(artist, folders).map_values(|album: AlbumView| album.title) == names(
            entries_of(folders),
        ),
        forall|i: int|
            0 <= i < artist_albums(artist, folders).len() ==> (#[trigger] artist_albums(
                artist,
                folders,
            )[i]).artist == artist,
    decreases folders.len(),
{
    let titles = |album: AlbumView| album.title;
    let list = artist_albums(artist, folders);
    if folders.len() == 0 {
        assert(list.map_values(titles) =~= names(entries_of(folders)));
    } else {
        law_albums_are_named_entries(artist, folders.drop_last());
        let before = artist_albums(artist, folders.drop_last());
        assert(entries_of(folders).drop_last() =~= entries_of(folders.drop_last()));
        if name_of(folders.last().entry) is Some {
            assert(list.map_values(titles) =~= before.map_values(titles).push(
                name_of(folders.last().entry)->0,
            ));
        }
    }
}

/// Whether an entry is a picture.
pub open spec fn is_picture_entry(entry: Entry) -> bool {
    name_of(entry) is Some && is_picture(name_of(entry)->0)
}

/// The cover art is the first picture of the folder: the name of a picture
/// before which there is no other, and empty only where there is none.
pub proof fn law_cover_is_first_picture(entries: Seq<Entry>)
    ensures
        (forall|i: int| 0 <= i < entries.len() ==> !is_picture_entry(#[trigger] entries[i]))
            ==> first_picture(entries).len() == 0,
        forall|i: int|
            0 <= i < entries.len() && is_picture_entry(#[trigger] entries[i]) && (forall|k: int|
                0 <= k < i ==> !is_picture_entry(#[trigger] entries[k])) ==> first_picture(entries)
                == name_of(entries[i])->0,
    decreases entries.len(),
{
    if entries.len() > 0 && !is_picture_entry(entries[0]) {
        let rest = entries.skip(1);
        law_cover_is_first_picture(rest);
        assert(forall|k: int| 0 <= k < rest.len() ==> #[trigger] rest[k] == entries[k + 1]);
        assert forall|i: int|
            0 <= i < entries.len() && is_picture_entry(#[trigger] entries[i]) && (forall|k: int|
                0 <= k < i ==> !is_picture_entry(#[trigger] entries[k])) implies first_picture(
            entries,
        ) == name_of(entries[i])->0 by {
            assert(rest[i - 1] == entries[i]);
            assert forall|k: int| 0 <= k < i - 1 implies !is_picture_entry(#[trigger] rest[k]) by {
                assert(rest[k] == entries[k + 1]);
            }
        }
    }
}

/// The names of the files of an album that are tracks, in order.
pub open spec fn track_names(files: Seq<TrackFile>) -> Seq<Seq<char>> {
    names(files.map_values(|file: TrackFile| file.entry)).filter(|name: Seq<char>| is_track(name))
}

/// An album's list holds one line for each file with a track's name, in order
/// and under that name, and all of them show the same artist and cover art.
pub proof fn law_tracks_are_track_files(
    artist: Seq<char>,
    cover: Seq<char>,
    files: Seq<TrackFile>,
)
    ensures
        album_tracks(artist, cover, files).map_values(|track: AlbumView| track.filename)
            == track_names(files),
        forall|i: int|
            0 <= i < album_tracks(artist, cover, files).len() ==> {
                let track = #[trigger] album_tracks(artist, cover, files)[i];
                track.artist == artist && track.cover_art_path == cover
            },
    decreases files.len(),
{
    let filenames = |track: AlbumView| track.filename;
    let entries = files.map_values(|file: TrackFile| file.entry);
    let list = album_tracks(artist, cover, files);
    reveal(Seq::filter);
    if files.len() == 0 {
        assert(list.map_values(filenames) =~= track_names(files));
    } else {
        law_tracks_are_track_files(artist, cover, files.drop_last());
        let before = album_tracks(artist, cover, files.drop_last());
        assert(entries.drop_last() =~= files.drop_last().map_values(
            |file: TrackFile| file.entry,
        ));
        if let Some(name) = name_of(files.last().entry) {
            assert(names(entries).drop_last() =~= names(entries.drop_last()));
            if is_track(name) {
                assert(list.map_values(filenames) =~= before.map_values(filenames).push(name));
            }
        }
    }
}

/// Only an entry with a name has one; one that is not Unicode is still shown.
pub proof fn law_entry_names(name: String, text: &str)
    ensures
        name_of(Entry::Named(name)) == Some(name@),
        name_of(Entry::NotUnicode(name)) is None,
        name_of(Entry::Unreadable) is None,
        shown_name_of(Entry::Named(name)) == Some(name@),
        shown_name_of(Entry::NotUnicode(name)) == Some(name@),
        shown_name_of(Entry::Unreadable) is None,
        opt_text(Some(text)) == Some(text@),
        opt_text(None) is None,
{
}

/// The names of two folders' entries, one after the other, are the names of
/// the one and then those of the other.
pub proof fn law_names_join(first: Seq<Entry>, second: Seq<Entry>)
    ensures
        names(first + second) == names(first) + names(second),
    decreases second.len(),
{
    if second.len() == 0 {
        assert(first + second =~= first);
        assert(names(first) + names(second) =~= names(first));
    } else {
        law_names_join(first, second.drop_last());
        assert((first + second).drop_last() =~= first + second.drop_last());
        assert((first + second).last() == second.last());
        assert(names(first + second) =~= names(first) + names(second));
    }
}

/// Of one entry the name is listed, where it has one, and else nothing.
pub proof fn law_names_of_one(entry: Entry)
    ensures
        entry matches Entry::Named(name) ==> names(seq![entry]) == seq![name@],
        !(entry is Named) ==> names(seq![entry]).len() == 0,
        names(Seq::empty()).len() == 0,
{
    reveal_with_fuel(names, 2);
    assert(seq![entry].drop_last() =~= Seq::empty());
    if let Entry::Named(name) = entry {
        assert(names(seq![entry]) =~= seq![name@]);
    }
}

/// A picture's name is some text and then `.jpg` or `.png`, and every such
/// name is a picture's.
pub proof fn law_picture_names(name: Seq<char>)
    ensures
        is_picture(name) <==> (exists|before: Seq<char>|
            name == #[trigger] (before + ".jpg"@)) || (exists|before: Seq<char>|
            name == #[trigger] (before + ".png"@)),
{
    law_ending_text_comes_last(name, ".jpg"@);
    law_ending_text_comes_last(name, ".png"@);
}

/// The cover art is the picture at any place before which there is none.
pub proof fn law_first_picture_is_cover(entries: Seq<Entry>, at: int)
    requires
        0 <= at < entries.len(),
        entries[at] is Named,
        is_picture(entries[at]->Named_0@),
        forall|k: int|
            0 <= k < at && (#[trigger] entries[k] is Named) ==> !is_picture(
                entries[k]->Named_0@,
            ),
    ensures
        first_picture(entries) == entries[at]->Named_0@,
    decreases entries.len(),
{
    if at > 0 {
        let rest = entries.skip(1);
        assert(entries[0] is Named ==> !is_picture(entries[0]->Named_0@));
        assert forall|k: int| 0 <= k < at - 1 && (#[trigger] rest[k] is Named) implies !is_picture(
            rest[k]->Named_0@,
        ) by {
            assert(rest[k] == entries[k + 1]);
        }
        assert(rest[at - 1] == entries[at]);
        law_first_picture_is_cover(rest, at - 1);
    }
}

/// Without a picture there is no cover art.
pub proof fn law_no_cover_without_picture(entries: Seq<Entry>)
    requires
        forall|k: int|
            0 <= k < entries.len() && (#[trigger] entries[k] is Named) ==> !is_picture(
                entries[k]->Named_0@,
            ),
    ensures
        first_picture(entries).len() == 0,
    decreases entries.len(),
{
    if entries.len() > 0 {
        let rest = entries.skip(1);
        assert(entries[0] is Named ==> !is_picture(entries[0]->Named_0@));
        assert forall|k: int|
            0 <= k < rest.len() && (#[trigger] rest[k] is Named) implies !is_picture(
            rest[k]->Named_0@,
        ) by {
            assert(rest[k] == entries[k + 1]);
        }
        law_no_cover_without_picture(rest);
    }
}

/// Each album is listed for itself, wherever its folder stands: the albums of
/// some folders and then others are those of the ones and then of the others.
pub proof fn law_albums_join(
    artist: Seq<char>,
    first: Seq<AlbumFolder>,
    second: Seq<AlbumFolder>,
)
    ensures
        artist_albums(artist, first + second) == artist_albums(artist, first) + artist_albums(
            artist,
            second,
        ),
    decreases second.len(),
{
    if second.len() == 0 {
        assert(first + second =~= first);
        assert(artist_albums(artist, first) + artist_albums(artist, second) =~= artist_albums(
            artist,
            first,
        ));
    } else {
        law_albums_join(artist, first, second.drop_last());
        assert((first + second).drop_last() =~= first + second.drop_last());
        assert((first + second).last() == second.last());
        assert(artist_albums(artist, first + second) =~= artist_albums(artist, first)
            + artist_albums(artist, second));
    }
}

/// A folder with a name is listed as an album of the artist under that name,
/// with the first picture of its own files, or none where they could not be
/// read. Another folder is not listed.
pub proof fn law_album_of_one_folder(artist: Seq<char>, folder: AlbumFolder)
    ensures
        folder.entry matches Entry::Named(name) ==> {
            let list = artist_albums(artist, seq![folder]);
            &&& list.len() == 1
            &&& list[0].artist == artist
            &&& list[0].title == name@
            &&& list[0].filename == list[0].cover_art_path
            &&& folder.files matches Some(files) ==> list[0].cover_art_path == first_picture(files@)
            &&& folder.files is None ==> list[0].cover_art_path.len() == 0
        },
        !(folder.entry is Named) ==> artist_albums(artist, seq![folder]).len() == 0,
        artist_albums(artist, Seq::empty()).len() == 0,
{
    reveal_with_fuel(artist_albums, 2);
    assert(seq![folder].drop_last() =~= Seq::empty());
}

/// Each track is listed for itself, wherever its file stands: the tracks of
/// some files and then others are those of the ones and then of the others.
pub proof fn law_tracks_join(
    artist: Seq<char>,
    cover: Seq<char>,
    first: Seq<TrackFile>,
    second: Seq<TrackFile>,
)
    ensures
        album_tracks(artist, cover, first + second) == album_tracks(artist, cover, first)
            + album_tracks(artist, cover, second),
    decreases second.len(),
{
    if second.len() == 0 {
        assert(first + second =~= first);
        assert(album_tracks(artist, cover, first) + album_tracks(artist, cover, second)
            =~= album_tracks(artist, cover, first));
    } else {
        law_tracks_join(artist, cover, first, second.drop_last());
        assert((first + second).drop_last() =~= first + second.drop_last());
        assert((first + second).last() == second.last());
        assert(album_tracks(artist, cover, first + second) =~= album_tracks(artist, cover, first)
            + album_tracks(artist, cover, second));
    }
}

/// A file with a track's name is listed under it, with the album's artist and
/// cover art, and titled as its own metadata say, or else as its name does up
/// to the last dot. Another file is not listed.
pub proof fn law_track_of_one_file(artist: Seq<char>, cover: Seq<char>, file: TrackFile)
    ensures
        file.entry matches Entry::Named(name) ==> {
            let list = album_tracks(artist, cover, seq![file]);
            &&& is_track(name@) ==> {
                &&& list.len() == 1
                &&& list[0].artist == artist
                &&& list[0].cover_art_path == cover
                &&& list[0].filename == name@
                &&& file.tag_title matches Some(title) ==> list[0].title == title@
                &&& file.tag_title is None ==> list[0].title == stem_of(name@)
            }
            &&& !is_track(name@) ==> list.len() == 0
        },
        !(file.entry is Named) ==> album_tracks(artist, cover, seq![file]).len() == 0,
        album_tracks(artist, cover, Seq::empty()).len() == 0,
{
    reveal_with_fuel(album_tracks, 2);
    assert(seq![file].drop_last() =~= Seq::empty());
}

/// An untagged track is titled with what stands before the last dot of its
/// name.
pub proof fn law_untagged_title_is_stem(stem: Seq<char>, ending: Seq<char>)
    requires
        !ending.contains('.'),
    ensures
        track_title(stem + seq!['.'] + ending, None) == stem,
{
    law_extension_follows_last_dot(stem, ending);
}

/// A name is a track's exactly where it is some text, a dot and an ending
/// whose lower case is `flac`, `wav`, `mp3` or `mp4`.
pub proof fn law_track_names(stem: Seq<char>, ending: Seq<char>)
    requires
        !ending.contains('.'),
        stem + seq!['.'] + ending != seq!['.', '.'],
    ensures
        is_track(stem + seq!['.'] + ending) <==> stem.len() > 0 && (lowercase(ending) == "flac"@
            || lowercase(ending) == "wav"@ || lowercase(ending) == "mp3"@ || lowercase(ending)
            == "mp4"@),
        is_track_ext(ending) <==> ending == "flac"@ || ending == "wav"@ || ending == "mp3"@
            || ending == "mp4"@,
{
    law_extension_follows_last_dot(stem, ending);
}

/// A name without a dot, or `..`, is no track's.
pub proof fn law_no_track_without_dot(name: Seq<char>)
    requires
        !name.contains('.') || name == seq!['.', '.'],
    ensures
        !is_track(name),
{
    if !name.contains('.') {
        law_no_extension_without_dot(name);
    } else {
        assert(seq!['.'] + seq!['.'] + Seq::<char>::empty() =~= name);
        law_extension_follows_last_dot(seq!['.'], Seq::empty());
    }
}

/// An album is shown with each of its texts, and a list one by one.
pub proof fn law_albums_are_shown_whole(album: Album, list: Seq<Album>, library: Seq<String>)
    ensures
        album@.artist == album.artist@,
        album@.title == album.title@,
        album@.cover_art_path == album.cover_art_path@,
        album@.filename == album.filename@,
        albums(list).len() == list.len(),
        forall|i: int| 0 <= i < list.len() ==> #[trigger] albums(list)[i] == list[i]@,
        texts(library).len() == library.len(),
        forall|i: int| 0 <= i < library.len() ==> #[trigger] texts(library)[i] == library[i]@,
{
}

} // verus!
