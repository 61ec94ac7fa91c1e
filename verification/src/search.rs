//! The search through the music folders.

use vstd::prelude::*;
use vstd::string::*;

use crate::folders::{opt_text, shown_name_of, track_title, AlbumFolder, Entry, TrackFile};
use crate::text::{
    ascii_lowercase_text, contains, contains_text, extension, extension_of, is_ascii_text,
    law_contained_text_is_between_others, law_extension_follows_last_dot, law_extension_is_ending,
    lowercase, same_text, stem, stem_of,
};

verus! {

/// The most results that a search gives.
pub const RESULT_LIMIT: usize = 20;

/// An album's folder as a search reads it: for the cover art, and for the
/// tracks, where it could be read.
#[derive(Debug, PartialEq, Eq)]
pub struct AlbumDir {
    pub folder: AlbumFolder,
    pub tracks: Option<Vec<TrackFile>>,
}

/// An artist's folder as a search reads it: its entry in the library's
/// folder, and its albums where it could be read.
#[derive(Debug, PartialEq, Eq)]
pub struct ArtistDir {
    pub entry: Entry,
    pub albums: Option<Vec<AlbumDir>>,
}

/// A track that a search has found.
#[derive(Debug, PartialEq, Eq)]
pub struct SearchResult {
    pub title: String,
    pub artist: String,
    pub album: String,
    pub cover_art_path: String,
    pub file_extension: String,
    pub filename: String,
}

/// A track that a search has found, as its texts.
pub struct ResultView {
    pub title: Seq<char>,
    pub artist: Seq<char>,
    pub album: Seq<char>,
    pub cover_art_path: Seq<char>,
    pub file_extension: Seq<char>,
    pub filename: Seq<char>,
}

impl View for SearchResult {
    type V = ResultView;

    open spec fn view(&self) -> ResultView {
        ResultView {
            title: self.title@,
            artist: self.artist@,
            album: self.album@,
            cover_art_path: self.cover_art_path@,
            file_extension: self.file_extension@,
            filename: self.filename@,
        }
    }
}

/// Results as their texts.
pub open spec fn found(list: Seq<SearchResult>) -> Seq<ResultView> {
    list.map_values(|result: SearchResult| result@)
}

/// What is searched for: a text, and the filter that says where. Both are in
/// lower case.
#[derive(Debug, PartialEq, Eq)]
pub struct SearchTerms {
    pub query: String,
    pub filter: String,
}

/// What is searched for, as its texts.
pub struct TermsView {
    pub query: Seq<char>,
    pub filter: Seq<char>,
}

impl View for SearchTerms {
    type V = TermsView;

    open spec fn view(&self) -> TermsView {
        TermsView { query: self.query@, filter: self.filter@ }
    }
}

/// The terms of a request: a missing text is empty, a missing filter is `all`.
pub open spec fn terms_of(query: Option<Seq<char>>, filter: Option<Seq<char>>) -> TermsView {
    TermsView {
        query: match query {
            Some(text) => lowercase(text),
            None => Seq::empty(),
        },
        filter: match filter {
            Some(text) => lowercase(text),
            None => "all"@,
        },
    }
}

impl SearchTerms {
    /// The terms of a request. ASCII text is put into lower case letter by
    /// letter.
    pub fn new(query: Option<&str>, filter: Option<&str>) -> (terms: SearchTerms)
        ensures
            terms@ == terms_of(opt_text(query), opt_text(filter)),
            terms@.query.len() == 0 <==> (query is None || query->0@.len() == 0),
            query matches Some(text) ==> is_ascii_text(text@) ==> terms@.query
                == ascii_lowercase_text(text@),
            filter matches Some(text) ==> is_ascii_text(text@) ==> terms@.filter
                == ascii_lowercase_text(text@),
    {
        let query = match query {
            Some(text) => text.to_lowercase(),
            None => {
                let none = String::new();
                let lower = none.as_str().to_lowercase();
                proof {
                    assert(lower@ =~= Seq::empty());
                }
                lower
            },
        };
        let filter = match filter {
            Some(text) => text.to_lowercase(),
            None => {
                proof {
                    reveal_strlit("all");
                    assert(ascii_lowercase_text("all"@) =~= "all"@);
                }
                "all".to_lowercase()
            },
        };
        SearchTerms { query, filter }
    }
}

/// Whether a track is wanted, given its artist, album and title in lower case.
/// Without a filter each of the three may hold the text; among the songs only
/// the title may. No other filter wants any track.
pub open spec fn is_wanted(
    terms: TermsView,
    artist: Seq<char>,
    album: Seq<char>,
    title: Seq<char>,
) -> bool {
    ||| terms.filter == "all"@ && contains_text(artist, terms.query)
    ||| terms.filter == "all"@ && contains_text(album, terms.query)
    ||| (terms.filter == "all"@ || terms.filter == "songs"@) && contains_text(title, terms.query)
}

/// Whether a track is wanted, given its artist, album and title in lower case.
pub fn wants(terms: &SearchTerms, artist: &str, album: &str, title: &str) -> (result: bool)
    ensures
        result == is_wanted(terms@, artist@, album@, title@),
        terms.filter@ == "songs"@ ==> (result <==> exists|before: Seq<char>, after: Seq<char>|
            title@ == #[trigger] (before + terms.query@ + after)),
        terms.filter@ == "all"@ ==> (result <==> {
            ||| exists|before: Seq<char>, after: Seq<char>|
                artist@ == #[trigger] (before + terms.query@ + after)
            ||| exists|before: Seq<char>, after: Seq<char>|
                album@ == #[trigger] (before + terms.query@ + after)
            ||| exists|before: Seq<char>, after: Seq<char>|
                title@ == #[trigger] (before + terms.query@ + after)
        }),
{
    proof {
        law_wanted_where_text_stands(terms@, artist@, album@, title@);
    }
    let query = terms.query.as_str();
    let filter = terms.filter.as_str();
    if (same_text(filter, "all") || same_text(filter, "artists")) && contains(artist, query) {
        proof {
            reveal_strlit("all");
            reveal_strlit("artists");
            reveal_strlit("songs");
            assert("artists"@.len() != "songs"@.len());
        }
        same_text(filter, "all") || same_text(filter, "songs")
    } else if (same_text(filter, "all") || same_text(filter, "albums")) && contains(album, query) {
        proof {
            reveal_strlit("all");
            reveal_strlit("albums");
            reveal_strlit("songs");
            assert("albums"@.len() != "songs"@.len());
        }
        same_text(filter, "all") || same_text(filter, "songs")
    } else if same_text(filter, "all") || same_text(filter, "songs") {
        contains(title, query)
    } else {
        false
    }
}

/// Whether an extension is that of a track that a search finds.
pub open spec fn is_song_ext(ext: Seq<char>) -> bool {
    ext == "mp3"@ || ext == "flac"@ || ext == "wav"@
}

/// Whether a file name is that of a track that a search finds.
pub open spec fn is_song(name: Seq<char>) -> bool {
    match extension_of(name) {
        Some(ext) => is_song_ext(ext),
        None => false,
    }
}

fn is_song_extension(ext: &str) -> (result: bool)
    ensures
        result == is_song_ext(ext@),
{
    same_text(ext, "mp3") || same_text(ext, "flac") || same_text(ext, "wav")
}

/// Whether a file name is that of a track that a search finds.
pub fn is_song_name(name: &str) -> (result: bool)
    ensures
        result == is_song(name@),
{
    match extension(name) {
        Some(ext) => is_song_extension(ext.as_str()),
        None => false,
    }
}

/// Whether a file name is that of a picture.
pub open spec fn has_picture_ext(name: Seq<char>) -> bool {
    match extension_of(name) {
        Some(ext) => ext == "jpg"@ || ext == "png"@,
        None => false,
    }
}

/// The name of the first picture among the entries, as it is shown; empty
/// where there is none.
pub open spec fn first_shown_picture(entries: Seq<Entry>) -> Seq<char>
    decreases entries.len(),
{
    if entries.len() == 0 {
        Seq::empty()
    } else if shown_name_of(entries[0]) is Some && has_picture_ext(shown_name_of(entries[0])->0) {
        shown_name_of(entries[0])->0
    } else {
        first_shown_picture(entries.skip(1))
    }
}

fn is_picture_name(name: &str) -> (result: bool)
    ensures
        result == has_picture_ext(name@),
{
    match extension(name) {
        Some(ext) => same_text(ext.as_str(), "jpg") || same_text(ext.as_str(), "png"),
        None => false,
    }
}

fn shown_cover_art(entries: &Vec<Entry>) -> (cover: String)
    ensures
        cover@ == first_shown_picture(entries@),
{
    let mut i: usize = 0;
    proof {
        assert(entries@.skip(0) =~= entries@);
    }
    while i < entries.len()
        invariant
            i <= entries@.len(),
            first_shown_picture(entries@) == first_shown_picture(entries@.skip(i as int)),
        decreases entries@.len() - i,
    {
        proof {
            assert(entries@.skip(i as int).skip(1) =~= entries@.skip(i + 1));
        }
        if let Some(name) = entries[i].shown_name() {
            if is_picture_name(name) {
                return name.to_owned();
            }
        }
        i = i + 1;
    }
    String::new()
}

/// The cover art that a search shows for an album.
pub open spec fn cover_of(album: AlbumDir) -> Seq<char> {
    match album.folder.files {
        Some(files) => first_shown_picture(files@),
        None => Seq::empty(),
    }
}

/// The title of a track: that of its metadata, or else its file name without
/// its extension.
pub open spec fn song_title(name: Seq<char>, tag_title: Option<String>) -> Seq<char> {
    match tag_title {
        Some(title) => title@,
        None => stem_of(name),
    }
}

/// A file as a search would show it; `None` where it is no track.
pub open spec fn shown_track(
    artist: Seq<char>,
    album: Seq<char>,
    cover: Seq<char>,
    file: TrackFile,
) -> Option<ResultView> {
    match shown_name_of(file.entry) {
        Some(name) => if is_song(name) {
            let ext = extension_of(name)->0;
            Some(
                ResultView {
                    title: song_title(name, file.tag_title),
                    artist,
                    album,
                    cover_art_path: cover,
                    file_extension: ext,
                    filename: name,
                },
            )
        } else {
            None
        },
        None => None,
    }
}

/// Whether a search wants a track that it would show.
pub open spec fn wants_track(terms: TermsView, track: ResultView) -> bool {
    is_wanted(terms, lowercase(track.artist), lowercase(track.album), lowercase(track.title))
}

/// The wanted tracks among the files of an album, in order.
pub open spec fn found_in_files(
    terms: TermsView,
    artist: Seq<char>,
    album: Seq<char>,
    cover: Seq<char>,
    files: Seq<TrackFile>,
) -> Seq<ResultView>
    decreases files.len(),
{
    if files.len() == 0 {
        Seq::empty()
    } else {
        let before = found_in_files(terms, artist, album, cover, files.drop_last());
        match shown_track(artist, album, cover, files.last()) {
            Some(track) => if wants_track(terms, track) {
                before.push(track)
            } else {
                before
            },
            None => before,
        }
    }
}

/// The wanted tracks of an album.
pub open spec fn found_in_album(terms: TermsView, artist: Seq<char>, album: AlbumDir) -> Seq<
    ResultView,
> {
    match shown_name_of(album.folder.entry) {
        Some(name) => match album.tracks {
            Some(files) => found_in_files(terms, artist, name, cover_of(album), files@),
            None => Seq::empty(),
        },
        None => Seq::empty(),
    }
}

/// The wanted tracks of albums, in order.
pub open spec fn found_in_albums(
    terms: TermsView,
    artist: Seq<char>,
    albums: Seq<AlbumDir>,
) -> Seq<ResultView>
    decreases albums.len(),
{
    if albums.len() == 0 {
        Seq::empty()
    } else {
        found_in_albums(terms, artist, albums.drop_last()) + found_in_album(
            terms,
            artist,
            albums.last(),
        )
    }
}

/// The wanted tracks of an artist.
pub open spec fn found_in_artist(terms: TermsView, artist: ArtistDir) -> Seq<ResultView> {
    match shown_name_of(artist.entry) {
        Some(name) => match artist.albums {
            Some(albums) => found_in_albums(terms, name, albums@),
            None => Seq::empty(),
        },
        None => Seq::empty(),
    }
}

/// The wanted tracks of the library, in order.
pub open spec fn found_in_library(terms: TermsView, artists: Seq<ArtistDir>) -> Seq<ResultView>
    decreases artists.len(),
{
    if artists.len() == 0 {
        Seq::empty()
    } else {
        found_in_library(terms, artists.drop_last()) + found_in_artist(terms, artists.last())
    }
}

/// The first results, up to the limit.
pub open spec fn limited(results: Seq<ResultView>) -> Seq<ResultView> {
    if results.len() <= RESULT_LIMIT {
        results
    } else {
        results.take(RESULT_LIMIT as int)
    }
}

/// What a search gives: nothing for the empty text, else the first of the
/// wanted tracks.
pub open spec fn search_results(terms: TermsView, artists: Seq<ArtistDir>) -> Seq<ResultView> {
    if terms.query.len() == 0 {
        Seq::empty()
    } else {
        limited(found_in_library(terms, artists))
    }
}

fn find_in_file(
    terms: &SearchTerms,
    artist: &str,
    album: &str,
    cover: &str,
    file: &TrackFile,
) -> (result: Option<SearchResult>)
    ensures
        ({
            let track = shown_track(artist@, album@, cover@, *file);
            &&& result is Some <==> track is Some && wants_track(terms@, track->0)
            &&& result matches Some(r) ==> r@ == track->0
        }),
{
    let name = match file.entry.shown_name() {
        Some(name) => name,
        None => {
            return None;
        },
    };
    let ext = match extension(name) {
        Some(ext) => ext,
        None => {
            return None;
        },
    };
    if !is_song_extension(ext.as_str()) {
        return None;
    }
    let title = match &file.tag_title {
        Some(title) => title.clone(),
        None => stem(name),
    };
    let wanted = wants(
        terms,
        artist.to_lowercase().as_str(),
        album.to_lowercase().as_str(),
        title.as_str().to_lowercase().as_str(),
    );
    if wanted {
        Some(
            SearchResult {
                title,
                artist: artist.to_owned(),
                album: album.to_owned(),
                cover_art_path: cover.to_owned(),
                file_extension: ext,
                filename: name.to_owned(),
            },
        )
    } else {
        None
    }
}

fn find_in_files(
    terms: &SearchTerms,
    artist: &str,
    album: &str,
    cover: &str,
    files: &Vec<TrackFile>,
    results: &mut Vec<SearchResult>,
)
    ensures
        found(final(results)@) == found(old(results)@) + found_in_files(
            terms@,
            artist@,
            album@,
            cover@,
            files@,
        ),
{
    let ghost start = found(results@);
    let mut i: usize = 0;
    proof {
        assert(start =~= start + found_in_files(terms@, artist@, album@, cover@, files@.take(0)));
    }
    while i < files.len()
        invariant
            i <= files@.len(),
            found(results@) == start + found_in_files(
                terms@,
                artist@,
                album@,
                cover@,
                files@.take(i as int),
            ),
        decreases files@.len() - i,
    {
        let ghost before = results@;
        proof {
            assert(files@.take(i + 1).drop_last() =~= files@.take(i as int));
        }
        if let Some(result) = find_in_file(terms, artist, album, cover, &files[i]) {
            let ghost track = result@;
            results.push(result);
            proof {
                assert(found(results@) =~= found(before).push(track));
                assert(found(results@) =~= start + found_in_files(
                    terms@,
                    artist@,
                    album@,
                    cover@,
                    files@.take(i + 1),
                ));
            }
        }
        i = i + 1;
    }
    proof {
        assert(files@.take(files@.len() as int) =~= files@);
    }
}

fn find_in_album(
    terms: &SearchTerms,
    artist: &str,
    album: &AlbumDir,
    results: &mut Vec<SearchResult>,
)
    ensures
        found(final(results)@) == found(old(results)@) + found_in_album(terms@, artist@, *album),
{
    proof {
        assert(found(results@) + Seq::<ResultView>::empty() =~= found(results@));
    }
    let name = match album.folder.entry.shown_name() {
        Some(name) => name,
        None => {
            return ;
        },
    };
    let cover = match &album.folder.files {
        Some(files) => shown_cover_art(files),
        None => String::new(),
    };
    if let Some(files) = &album.tracks {
        find_in_files(terms, artist, name, cover.as_str(), files, results);
    }
}

fn find_in_artist(terms: &SearchTerms, artist: &ArtistDir, results: &mut Vec<SearchResult>)
    ensures
        found(final(results)@) == found(old(results)@) + found_in_artist(terms@, *artist),
{
    let ghost start = found(results@);
    proof {
        assert(start + Seq::<ResultView>::empty() =~= start);
    }
    let name = match artist.entry.shown_name() {
        Some(name) => name,
        None => {
            return ;
        },
    };
    if let Some(albums) = &artist.albums {
        let mut i: usize = 0;
        proof {
            assert(start =~= start + found_in_albums(terms@, name@, albums@.take(0)));
        }
        while i < albums.len()
            invariant
                i <= albums@.len(),
                found(results@) == start + found_in_albums(terms@, name@, albums@.take(i as int)),
            decreases albums@.len() - i,
        {
            find_in_album(terms, name, &albums[i], results);
            proof {
                assert(albums@.take(i + 1).drop_last() =~= albums@.take(i as int));
                assert(found(results@) =~= start + found_in_albums(
                    terms@,
                    name@,
                    albums@.take(i + 1),
                ));
            }
            i = i + 1;
        }
        proof {
            assert(albums@.take(albums@.len() as int) =~= albums@);
        }
    }
}

/// Searches the library for the terms; `artists` is `None` where its folder
/// could not be read.
pub fn find_songs(terms: &SearchTerms, artists: Option<&Vec<ArtistDir>>) -> (results: Vec<
    SearchResult,
>)
    ensures
        artists matches Some(a) ==> found(results@) == search_results(terms@, a@),
        artists is None ==> results@.len() == 0,
        results@.len() <= 20,
{
    let mut results: Vec<SearchResult> = Vec::new();
    if terms.query.as_str().is_empty() {
        proof {
            assert(found(results@) =~= Seq::<ResultView>::empty());
        }
        return results;
    }
    if let Some(artists) = artists {
        let mut i: usize = 0;
        proof {
            assert(found(results@) =~= found_in_library(terms@, artists@.take(0)));
        }
        while i < artists.len()
            invariant
                i <= artists@.len(),
                found(results@) == found_in_library(terms@, artists@.take(i as int)),
            decreases artists@.len() - i,
        {
            find_in_artist(terms, &artists[i], &mut results);
            proof {
                assert(artists@.take(i + 1).drop_last() =~= artists@.take(i as int));
            }
            i = i + 1;
        }
        let ghost all = results@;
        proof {
            assert(artists@.take(artists@.len() as int) =~= artists@);
        }
        results.truncate(RESULT_LIMIT);
        proof {
            assert(found(results@) =~= limited(found(all)));
        }
    }
    results
}

/// Whether a search asks for nothing: its text is missing or empty.
pub fn asks_nothing(query: Option<&str>) -> (result: bool)
    ensures
        result == (query is None || query->0@.len() == 0),
{
    match query {
        Some(text) => text.is_empty(),
        None => true,
    }
}

/// Answers a search request, given the text and the filter that it holds and
/// what was read of the music folders, or `None` where the library's folder
/// could not be read.
pub fn search_songs(
    query: Option<&str>,
    filter: Option<&str>,
    artists: Option<&Vec<ArtistDir>>,
) -> (results: Vec<SearchResult>)
    ensures
        artists matches Some(a) ==> found(results@) == search_results(
            terms_of(opt_text(query), opt_text(filter)),
            a@,
        ),
        artists is None ==> results@.len() == 0,
        query is None || query->0@.len() == 0 ==> results@.len() == 0,
{
    let terms = SearchTerms::new(query, filter);
    let results = find_songs(&terms, artists);
    proof {
        assert(artists is Some ==> found(results@).len() == results@.len());
    }
    results
}

/// A search gives the first of the tracks that it wants, and no more than the
/// limit; the empty text finds nothing.
pub proof fn law_results_are_limited(terms: TermsView, artists: Seq<ArtistDir>)
    ensures
        search_results(terms, artists).len() <= RESULT_LIMIT,
        terms.query.len() == 0 ==> search_results(terms, artists).len() == 0,
        search_results(terms, artists) == found_in_library(terms, artists).take(
            search_results(terms, artists).len() as int,
        ),
{
    let all = found_in_library(terms, artists);
    assert(all.take(all.len() as int) =~= all);
    assert(all.take(0) =~= Seq::empty());
}

/// A search ignores case: two texts with the same lower case, under two
/// filters with the same lower case, find the same.
pub proof fn law_search_ignores_case(
    query: Seq<char>,
    other_query: Seq<char>,
    filter: Seq<char>,
    other_filter: Seq<char>,
    artists: Seq<ArtistDir>,
)
    requires
        lowercase(query) == lowercase(other_query),
        lowercase(filter) == lowercase(other_filter),
    ensures
        search_results(terms_of(Some(query), Some(filter)), artists) == search_results(
            terms_of(Some(other_query), Some(other_filter)),
            artists,
        ),
{
}

/// Whether a track is one that a search may show for its terms.
pub open spec fn is_match(terms: TermsView, track: ResultView) -> bool {
    &&& wants_track(terms, track)
    &&& is_song(track.filename)
    &&& extension_of(track.filename) == Some(track.file_extension)
}

/// Whether a search may show each of the tracks for its terms.
pub open spec fn all_match(terms: TermsView, tracks: Seq<ResultView>) -> bool {
    forall|i: int| 0 <= i < tracks.len() ==> is_match(terms, #[trigger] tracks[i])
}

proof fn lemma_files_match(
    terms: TermsView,
    artist: Seq<char>,
    album: Seq<char>,
    cover: Seq<char>,
    files: Seq<TrackFile>,
)
    ensures
        all_match(terms, found_in_files(terms, artist, album, cover, files)),
    decreases files.len(),
{
    if files.len() > 0 {
        lemma_files_match(terms, artist, album, cover, files.drop_last());
    }
}

proof fn lemma_albums_match(terms: TermsView, artist: Seq<char>, albums: Seq<AlbumDir>)
    ensures
        all_match(terms, found_in_albums(terms, artist, albums)),
    decreases albums.len(),
{
    if albums.len() > 0 {
        lemma_albums_match(terms, artist, albums.drop_last());
        let album = albums.last();
        if shown_name_of(album.folder.entry) is Some && album.tracks is Some {
            lemma_files_match(
                terms,
                artist,
                shown_name_of(album.folder.entry)->0,
                cover_of(album),
                album.tracks->0@,
            );
        }
    }
}

/// Every track that is found is wanted, and is a file with a song's name,
/// shown with its extension.
pub proof fn law_found_tracks_match(terms: TermsView, artists: Seq<ArtistDir>)
    ensures
        all_match(terms, found_in_library(terms, artists)),
        all_match(terms, search_results(terms, artists)),
    decreases artists.len(),
{
    if artists.len() > 0 {
        law_found_tracks_match(terms, artists.drop_last());
        let artist = artists.last();
        if shown_name_of(artist.entry) is Some && artist.albums is Some {
            lemma_albums_match(terms, shown_name_of(artist.entry)->0, artist.albums->0@);
        }
    }
}

/// No filter but `all` and `songs` finds anything.
pub proof fn law_other_filters_find_nothing(terms: TermsView, artists: Seq<ArtistDir>)
    requires
        terms.filter != "all"@,
        terms.filter != "songs"@,
    ensures
        search_results(terms, artists).len() == 0,
{
    law_found_tracks_match(terms, artists);
    let results = search_results(terms, artists);
    if results.len() > 0 {
        assert(is_match(terms, results[0]));
    }
}

/// Whether every track of `narrow` is one of `wide`.
pub open spec fn finds_all_of(wide: Seq<ResultView>, narrow: Seq<ResultView>) -> bool {
    forall|i: int| 0 <= i < narrow.len() ==> wide.contains(#[trigger] narrow[i])
}

proof fn lemma_finds_all_of_sum(
    wide: Seq<ResultView>,
    narrow: Seq<ResultView>,
    more_wide: Seq<ResultView>,
    more_narrow: Seq<ResultView>,
)
    requires
        finds_all_of(wide, narrow),
        finds_all_of(more_wide, more_narrow),
    ensures
        finds_all_of(wide + more_wide, narrow + more_narrow),
{
    let sum = narrow + more_narrow;
    assert forall|i: int| 0 <= i < sum.len() implies (wide + more_wide).contains(
        #[trigger] sum[i],
    ) by {
        if i < narrow.len() {
            let k = choose|k: int| 0 <= k < wide.len() && wide[k] == narrow[i];
            assert((wide + more_wide)[k] == sum[i]);
        } else {
            let j = i - narrow.len();
            assert(more_wide.contains(more_narrow[j]));
            let k = choose|k: int| 0 <= k < more_wide.len() && more_wide[k] == more_narrow[j];
            assert((wide + more_wide)[wide.len() + k] == sum[i]);
        }
    }
}

proof fn lemma_files_narrowed(
    query: Seq<char>,
    artist: Seq<char>,
    album: Seq<char>,
    cover: Seq<char>,
    files: Seq<TrackFile>,
)
    ensures
        finds_all_of(
            found_in_files(TermsView { query, filter: "all"@ }, artist, album, cover, files),
            found_in_files(TermsView { query, filter: "songs"@ }, artist, album, cover, files),
        ),
    decreases files.len(),
{
    if files.len() > 0 {
        lemma_files_narrowed(query, artist, album, cover, files.drop_last());
        let all = TermsView { query, filter: "all"@ };
        let songs = TermsView { query, filter: "songs"@ };
        let wide = found_in_files(all, artist, album, cover, files);
        let narrow = found_in_files(songs, artist, album, cover, files);
        let wide_before = found_in_files(all, artist, album, cover, files.drop_last());
        let narrow_before = found_in_files(songs, artist, album, cover, files.drop_last());
        let track = shown_track(artist, album, cover, files.last());
        reveal_strlit("all");
        reveal_strlit("songs");
        assert("songs"@.len() != "all"@.len());
        assert forall|i: int| 0 <= i < narrow.len() implies wide.contains(#[trigger] narrow[i]) by {
            if i < narrow_before.len() {
                assert(wide_before.contains(narrow_before[i]));
                let k = choose|k: int|
                    0 <= k < wide_before.len() && wide_before[k] == narrow_before[i];
                assert(wide[k] == narrow[i]);
            } else {
                assert(wide.last() == narrow[i]);
                assert(wide[wide.len() - 1] == narrow[i]);
            }
        }
    }
}

proof fn lemma_albums_narrowed(query: Seq<char>, artist: Seq<char>, albums: Seq<AlbumDir>)
    ensures
        finds_all_of(
            found_in_albums(TermsView { query, filter: "all"@ }, artist, albums),
            found_in_albums(TermsView { query, filter: "songs"@ }, artist, albums),
        ),
    decreases albums.len(),
{
    if albums.len() > 0 {
        lemma_albums_narrowed(query, artist, albums.drop_last());
        let all = TermsView { query, filter: "all"@ };
        let songs = TermsView { query, filter: "songs"@ };
        let album = albums.last();
        if shown_name_of(album.folder.entry) is Some && album.tracks is Some {
            lemma_files_narrowed(
                query,
                artist,
                shown_name_of(album.folder.entry)->0,
                cover_of(album),
                album.tracks->0@,
            );
        }
        lemma_finds_all_of_sum(
            found_in_albums(all, artist, albums.drop_last()),
            found_in_albums(songs, artist, albums.drop_last()),
            found_in_album(all, artist, album),
            found_in_album(songs, artist, album),
        );
    }
}

/// The filter `songs` only narrows: what it finds is found without it too.
pub proof fn law_songs_filter_narrows(query: Seq<char>, artists: Seq<ArtistDir>)
    ensures
        finds_all_of(
            found_in_library(TermsView { query, filter: "all"@ }, artists),
            found_in_library(TermsView { query, filter: "songs"@ }, artists),
        ),
    decreases artists.len(),
{
    if artists.len() > 0 {
        law_songs_filter_narrows(query, artists.drop_last());
        let all = TermsView { query, filter: "all"@ };
        let songs = TermsView { query, filter: "songs"@ };
        let artist = artists.last();
        if shown_name_of(artist.entry) is Some && artist.albums is Some {
            lemma_albums_narrowed(query, shown_name_of(artist.entry)->0, artist.albums->0@);
        }
        lemma_finds_all_of_sum(
            found_in_library(all, artists.drop_last()),
            found_in_library(songs, artists.drop_last()),
            found_in_artist(all, artist),
            found_in_artist(songs, artist),
        );
    }
}

/// Whether a track stands in a folder of the music library, and how a search
/// would show it.
pub open spec fn stands_in_library(
    artists: Seq<ArtistDir>,
    a: int,
    b: int,
    t: int,
    track: ResultView,
) -> bool {
    &&& 0 <= a < artists.len()
    &&& artists[a].albums is Some
    &&& 0 <= b < artists[a].albums->0@.len()
    &&& artists[a].albums->0@[b].tracks is Some
    &&& 0 <= t < artists[a].albums->0@[b].tracks->0@.len()
    &&& shown_name_of(artists[a].entry) is Some
    &&& shown_name_of(artists[a].albums->0@[b].folder.entry) is Some
    &&& shown_track(
        shown_name_of(artists[a].entry)->0,
        shown_name_of(artists[a].albums->0@[b].folder.entry)->0,
        cover_of(artists[a].albums->0@[b]),
        artists[a].albums->0@[b].tracks->0@[t],
    ) == Some(track)
}

proof fn lemma_sum_contains(
    left: Seq<ResultView>,
    right: Seq<ResultView>,
    track: ResultView,
)
    requires
        left.contains(track) || right.contains(track),
    ensures
        (left + right).contains(track),
{
    if left.contains(track) {
        let k = choose|k: int| 0 <= k < left.len() && left[k] == track;
        assert((left + right)[k] == track);
    } else {
        let k = choose|k: int| 0 <= k < right.len() && right[k] == track;
        assert((left + right)[left.len() + k] == track);
    }
}

proof fn lemma_found_among_files(
    terms: TermsView,
    artist: Seq<char>,
    album: Seq<char>,
    cover: Seq<char>,
    files: Seq<TrackFile>,
    t: int,
    track: ResultView,
)
    requires
        0 <= t < files.len(),
        shown_track(artist, album, cover, files[t]) == Some(track),
        wants_track(terms, track),
    ensures
        found_in_files(terms, artist, album, cover, files).contains(track),
    decreases files.len(),
{
    let list = found_in_files(terms, artist, album, cover, files);
    let before = found_in_files(terms, artist, album, cover, files.drop_last());
    if t == files.len() - 1 {
        assert(list[list.len() - 1] == track);
    } else {
        assert(files.drop_last()[t] == files[t]);
        lemma_found_among_files(terms, artist, album, cover, files.drop_last(), t, track);
        let k = choose|k: int| 0 <= k < before.len() && before[k] == track;
        assert(list[k] == track);
    }
}

proof fn lemma_found_among_albums(
    terms: TermsView,
    artist: Seq<char>,
    albums: Seq<AlbumDir>,
    b: int,
    track: ResultView,
)
    requires
        0 <= b < albums.len(),
        found_in_album(terms, artist, albums[b]).contains(track),
    ensures
        found_in_albums(terms, artist, albums).contains(track),
    decreases albums.len(),
{
    if b < albums.len() - 1 {
        assert(albums.drop_last()[b] == albums[b]);
        lemma_found_among_albums(terms, artist, albums.drop_last(), b, track);
    }
    lemma_sum_contains(
        found_in_albums(terms, artist, albums.drop_last()),
        found_in_album(terms, artist, albums.last()),
        track,
    );
}

proof fn lemma_found_among_artists(
    terms: TermsView,
    artists: Seq<ArtistDir>,
    a: int,
    track: ResultView,
)
    requires
        0 <= a < artists.len(),
        found_in_artist(terms, artists[a]).contains(track),
    ensures
        found_in_library(terms, artists).contains(track),
    decreases artists.len(),
{
    if a < artists.len() - 1 {
        assert(artists.drop_last()[a] == artists[a]);
        lemma_found_among_artists(terms, artists.drop_last(), a, track);
    }
    lemma_sum_contains(
        found_in_library(terms, artists.drop_last()),
        found_in_artist(terms, artists.last()),
        track,
    );
}

/// No wanted track is missed: each one that stands in a folder is found, and
/// is among the results where they are not more than the limit.
pub proof fn law_wanted_tracks_are_found(
    terms: TermsView,
    artists: Seq<ArtistDir>,
    a: int,
    b: int,
    t: int,
    track: ResultView,
)
    requires
        stands_in_library(artists, a, b, t, track),
        wants_track(terms, track),
    ensures
        found_in_library(terms, artists).contains(track),
        terms.query.len() > 0 && found_in_library(terms, artists).len() <= RESULT_LIMIT
            ==> search_results(terms, artists).contains(track),
{
    let artist = shown_name_of(artists[a].entry)->0;
    let albums = artists[a].albums->0@;
    lemma_found_among_files(
        terms,
        artist,
        shown_name_of(albums[b].folder.entry)->0,
        cover_of(albums[b]),
        albums[b].tracks->0@,
        t,
        track,
    );
    lemma_found_among_albums(terms, artist, albums, b, track);
    lemma_found_among_artists(terms, artists, a, track);
}

/// A search and an album show a track under the same title.
pub proof fn law_titles_agree(name: Seq<char>, tag_title: Option<String>)
    ensures
        song_title(name, tag_title) == track_title(name, tag_title),
{
}

/// What is searched for is what the request holds, in lower case; without a
/// filter everything is searched, without a text nothing is searched for.
pub proof fn law_terms_are_those_asked(query: Seq<char>, filter: Seq<char>)
    ensures
        terms_of(Some(query), Some(filter)).query == lowercase(query),
        terms_of(Some(query), Some(filter)).filter == lowercase(filter),
        terms_of(Some(query), None).query == lowercase(query),
        terms_of(Some(query), None).filter == "all"@,
        terms_of(None, Some(filter)).query.len() == 0,
        terms_of(None, Some(filter)).filter == lowercase(filter),
        terms_of(None, None).query.len() == 0,
        terms_of(None, None).filter == "all"@,
{
}

/// A track is wanted without a filter exactly where its artist, its album or
/// its title is some text, the text that is searched for, and some text; among
/// the songs exactly where its title is; and under no other filter. What the
/// text is made of does not matter.
pub proof fn law_wanted_where_text_stands(
    terms: TermsView,
    artist: Seq<char>,
    album: Seq<char>,
    title: Seq<char>,
)
    ensures
        terms.filter == "all"@ ==> (is_wanted(terms, artist, album, title) <==> {
            ||| exists|before: Seq<char>, after: Seq<char>|
                artist == #[trigger] (before + terms.query + after)
            ||| exists|before: Seq<char>, after: Seq<char>|
                album == #[trigger] (before + terms.query + after)
            ||| exists|before: Seq<char>, after: Seq<char>|
                title == #[trigger] (before + terms.query + after)
        }),
        terms.filter == "songs"@ ==> (is_wanted(terms, artist, album, title) <==> exists|
            before: Seq<char>,
            after: Seq<char>,
        |
            title == #[trigger] (before + terms.query + after)),
        terms.filter != "all"@ && terms.filter != "songs"@ ==> !is_wanted(
            terms,
            artist,
            album,
            title,
        ),
{
    reveal_strlit("all");
    reveal_strlit("songs");
    assert("songs"@.len() != "all"@.len());
    law_contained_text_is_between_others(artist, terms.query);
    law_contained_text_is_between_others(album, terms.query);
    law_contained_text_is_between_others(title, terms.query);
}

/// A track in lower case holds the text: its artist, album or title without a
/// filter, its title among the songs.
pub proof fn law_track_wanted_where_text_stands(
    terms: TermsView,
    track: ResultView,
    before: Seq<char>,
    after: Seq<char>,
)
    ensures
        terms.filter == "all"@ && lowercase(track.artist) == before + terms.query + after
            ==> wants_track(terms, track),
        terms.filter == "all"@ && lowercase(track.album) == before + terms.query + after
            ==> wants_track(terms, track),
        terms.filter == "all"@ && lowercase(track.title) == before + terms.query + after
            ==> wants_track(terms, track),
        terms.filter == "songs"@ && lowercase(track.title) == before + terms.query + after
            ==> wants_track(terms, track),
{
    law_wanted_where_text_stands(
        terms,
        lowercase(track.artist),
        lowercase(track.album),
        lowercase(track.title),
    );
}

/// A track that is wanted holds the text in lower case: in its artist, album
/// or title without a filter, in its title among the songs.
pub proof fn law_wanted_track_holds_text(terms: TermsView, track: ResultView)
    requires
        wants_track(terms, track),
    ensures
        terms.filter == "all"@ || terms.filter == "songs"@,
        ({
            ||| exists|before: Seq<char>, after: Seq<char>|
                lowercase(track.title) == #[trigger] (before + terms.query + after)
            ||| terms.filter == "all"@ && exists|before: Seq<char>, after: Seq<char>|
                lowercase(track.artist) == #[trigger] (before + terms.query + after)
            ||| terms.filter == "all"@ && exists|before: Seq<char>, after: Seq<char>|
                lowercase(track.album) == #[trigger] (before + terms.query + after)
        }),
{
    law_wanted_where_text_stands(
        terms,
        lowercase(track.artist),
        lowercase(track.album),
        lowercase(track.title),
    );
}

/// A name is a song's exactly where it is at least one character, and then
/// `.mp3`, `.flac` or `.wav`.
pub proof fn law_song_names(name: Seq<char>)
    ensures
        is_song(name) <==> {
            ||| exists|stem: Seq<char>|
                stem.len() > 0 && name == #[trigger] (stem + seq!['.'] + "mp3"@)
            ||| exists|stem: Seq<char>|
                stem.len() > 0 && name == #[trigger] (stem + seq!['.'] + "flac"@)
            ||| exists|stem: Seq<char>|
                stem.len() > 0 && name == #[trigger] (stem + seq!['.'] + "wav"@)
        },
{
    reveal_strlit("mp3");
    reveal_strlit("flac");
    reveal_strlit("wav");
    law_extension_is_ending(name, "mp3"@);
    law_extension_is_ending(name, "flac"@);
    law_extension_is_ending(name, "wav"@);
}

/// A name is a picture's, to a search, exactly where it is at least one
/// character, and then `.jpg` or `.png`.
pub proof fn law_shown_picture_names(name: Seq<char>)
    ensures
        has_picture_ext(name) <==> {
            ||| exists|stem: Seq<char>|
                stem.len() > 0 && name == #[trigger] (stem + seq!['.'] + "jpg"@)
            ||| exists|stem: Seq<char>|
                stem.len() > 0 && name == #[trigger] (stem + seq!['.'] + "png"@)
        },
{
    reveal_strlit("jpg");
    reveal_strlit("png");
    law_extension_is_ending(name, "jpg"@);
    law_extension_is_ending(name, "png"@);
}

/// The cover art that is shown is the picture at any place before which there
/// is none.
pub proof fn law_first_shown_picture_is_cover(entries: Seq<Entry>, at: int)
    requires
        0 <= at < entries.len(),
        shown_name_of(entries[at]) is Some,
        has_picture_ext(shown_name_of(entries[at])->0),
        forall|k: int|
            0 <= k < at && (#[trigger] shown_name_of(entries[k])) is Some ==> !has_picture_ext(
                shown_name_of(entries[k])->0,
            ),
    ensures
        first_shown_picture(entries) == shown_name_of(entries[at])->0,
    decreases entries.len(),
{
    if at > 0 {
        let rest = entries.skip(1);
        assert(shown_name_of(entries[0]) is Some ==> !has_picture_ext(
            shown_name_of(entries[0])->0,
        ));
        assert forall|k: int|
            0 <= k < at - 1 && (#[trigger] shown_name_of(rest[k])) is Some implies !has_picture_ext(
            shown_name_of(rest[k])->0,
        ) by {
            assert(shown_name_of(rest[k]) == shown_name_of(entries[k + 1]));
        }
        assert(rest[at - 1] == entries[at]);
        law_first_shown_picture_is_cover(rest, at - 1);
    }
}

/// Without a picture no cover art is shown.
pub proof fn law_no_shown_cover_without_picture(entries: Seq<Entry>)
    requires
        forall|k: int|
            0 <= k < entries.len() && (#[trigger] shown_name_of(entries[k])) is Some
                ==> !has_picture_ext(shown_name_of(entries[k])->0),
    ensures
        first_shown_picture(entries).len() == 0,
    decreases entries.len(),
{
    if entries.len() > 0 {
        let rest = entries.skip(1);
        assert(shown_name_of(entries[0]) is Some ==> !has_picture_ext(
            shown_name_of(entries[0])->0,
        ));
        assert forall|k: int|
            0 <= k < rest.len() && (#[trigger] shown_name_of(rest[k])) is Some
            implies !has_picture_ext(shown_name_of(rest[k])->0) by {
            assert(shown_name_of(rest[k]) == shown_name_of(entries[k + 1]));
        }
        law_no_shown_cover_without_picture(rest);
    }
}

/// A file that is named some text, a dot and `mp3`, `flac` or `wav` is shown
/// with the names of its folders and its file, with that extension, and with
/// the title of its own metadata, or else that text.
pub proof fn law_file_is_shown_as_named(
    artist: Seq<char>,
    album: Seq<char>,
    cover: Seq<char>,
    file: TrackFile,
    stem: Seq<char>,
    ext: Seq<char>,
)
    requires
        shown_name_of(file.entry) == Some(stem + seq!['.'] + ext),
        stem.len() > 0,
        ext == "mp3"@ || ext == "flac"@ || ext == "wav"@,
    ensures
        ({
            let track = shown_track(artist, album, cover, file);
            &&& track is Some
            &&& track->0.artist == artist
            &&& track->0.album == album
            &&& track->0.cover_art_path == cover
            &&& track->0.file_extension == ext
            &&& track->0.filename == stem + seq!['.'] + ext
            &&& file.tag_title matches Some(title) ==> track->0.title == title@
            &&& file.tag_title is None ==> track->0.title == stem
        }),
{
    reveal_strlit("mp3");
    reveal_strlit("flac");
    reveal_strlit("wav");
    law_extension_follows_last_dot(stem, ext);
}

/// A file that could not be read, or whose name is no song's, is not shown.
pub proof fn law_other_files_are_not_shown(
    artist: Seq<char>,
    album: Seq<char>,
    cover: Seq<char>,
    file: TrackFile,
)
    ensures
        shown_name_of(file.entry) is None ==> shown_track(artist, album, cover, file) is None,
        shown_name_of(file.entry) matches Some(name) ==> (shown_track(
            artist,
            album,
            cover,
            file,
        ) is Some <==> is_song(name)),
{
}

/// Of one file the track is found, where it is one and is wanted.
pub proof fn law_found_in_one_file(
    terms: TermsView,
    artist: Seq<char>,
    album: Seq<char>,
    cover: Seq<char>,
    file: TrackFile,
)
    ensures
        ({
            let list = found_in_files(terms, artist, album, cover, seq![file]);
            &&& shown_track(artist, album, cover, file) matches Some(track) ==> {
                &&& wants_track(terms, track) ==> list == seq![track]
                &&& !wants_track(terms, track) ==> list.len() == 0
            }
            &&& shown_track(artist, album, cover, file) is None ==> list.len() == 0
        }),
        found_in_files(terms, artist, album, cover, Seq::empty()).len() == 0,
{
    reveal_with_fuel(found_in_files, 2);
    assert(seq![file].drop_last() =~= Seq::empty());
    if let Some(track) = shown_track(artist, album, cover, file) {
        if wants_track(terms, track) {
            assert(found_in_files(terms, artist, album, cover, seq![file]) =~= seq![track]);
        }
    }
}

/// Each file is searched for itself, wherever it stands.
pub proof fn law_found_files_join(
    terms: TermsView,
    artist: Seq<char>,
    album: Seq<char>,
    cover: Seq<char>,
    first: Seq<TrackFile>,
    second: Seq<TrackFile>,
)
    ensures
        found_in_files(terms, artist, album, cover, first + second) == found_in_files(
            terms,
            artist,
            album,
            cover,
            first,
        ) + found_in_files(terms, artist, album, cover, second),
    decreases second.len(),
{
    let left = found_in_files(terms, artist, album, cover, first);
    let right = found_in_files(terms, artist, album, cover, second);
    if second.len() == 0 {
        assert(first + second =~= first);
        assert(left + right =~= left);
    } else {
        law_found_files_join(terms, artist, album, cover, first, second.drop_last());
        assert((first + second).drop_last() =~= first + second.drop_last());
        assert((first + second).last() == second.last());
        assert(found_in_files(terms, artist, album, cover, first + second) =~= left + right);
    }
}

/// Each album is searched for itself, wherever it stands.
pub proof fn law_found_albums_join(
    terms: TermsView,
    artist: Seq<char>,
    first: Seq<AlbumDir>,
    second: Seq<AlbumDir>,
)
    ensures
        found_in_albums(terms, artist, first + second) == found_in_albums(terms, artist, first)
            + found_in_albums(terms, artist, second),
    decreases second.len(),
{
    let left = found_in_albums(terms, artist, first);
    let right = found_in_albums(terms, artist, second);
    if second.len() == 0 {
        assert(first + second =~= first);
        assert(left + right =~= left);
    } else {
        law_found_albums_join(terms, artist, first, second.drop_last());
        assert((first + second).drop_last() =~= first + second.drop_last());
        assert((first + second).last() == second.last());
        assert(found_in_albums(terms, artist, first + second) =~= left + right);
    }
}

/// Each artist is searched for itself, wherever it stands.
pub proof fn law_found_artists_join(
    terms: TermsView,
    first: Seq<ArtistDir>,
    second: Seq<ArtistDir>,
)
    ensures
        found_in_library(terms, first + second) == found_in_library(terms, first)
            + found_in_library(terms, second),
    decreases second.len(),
{
    let left = found_in_library(terms, first);
    let right = found_in_library(terms, second);
    if second.len() == 0 {
        assert(first + second =~= first);
        assert(left + right =~= left);
    } else {
        law_found_artists_join(terms, first, second.drop_last());
        assert((first + second).drop_last() =~= first + second.drop_last());
        assert((first + second).last() == second.last());
        assert(found_in_library(terms, first + second) =~= left + right);
    }
}

/// An album's files are searched under its own name, with the first picture of
/// its own folder; one that could not be read holds nothing.
pub proof fn law_found_in_one_album(terms: TermsView, artist: Seq<char>, album: AlbumDir)
    ensures
        ({
            let list = found_in_albums(terms, artist, seq![album]);
            &&& shown_name_of(album.folder.entry) matches Some(name) ==> {
                &&& album.tracks matches Some(files) ==> {
                    &&& album.folder.files matches Some(entries) ==> list == found_in_files(
                        terms,
                        artist,
                        name,
                        first_shown_picture(entries@),
                        files@,
                    )
                    &&& album.folder.files is None ==> list == found_in_files(
                        terms,
                        artist,
                        name,
                        Seq::empty(),
                        files@,
                    )
                }
            }
            &&& shown_name_of(album.folder.entry) is None || album.tracks is None ==> list.len()
                == 0
        }),
        found_in_albums(terms, artist, Seq::empty()).len() == 0,
{
    reveal_with_fuel(found_in_albums, 2);
    assert(seq![album].drop_last() =~= Seq::empty());
    assert(found_in_albums(terms, artist, seq![album]) =~= found_in_album(terms, artist, album));
}

/// An artist's albums are searched under the artist's own name; an artist whose
/// folder could not be read has none.
pub proof fn law_found_in_one_artist(terms: TermsView, artist: ArtistDir)
    ensures
        ({
            let list = found_in_library(terms, seq![artist]);
            &&& shown_name_of(artist.entry) matches Some(name) ==> (artist.albums matches Some(
                albums,
            ) ==> list == found_in_albums(terms, name, albums@))
            &&& shown_name_of(artist.entry) is None || artist.albums is None ==> list.len() == 0
        }),
        found_in_library(terms, Seq::empty()).len() == 0,
{
    reveal_with_fuel(found_in_library, 2);
    assert(seq![artist].drop_last() =~= Seq::empty());
    assert(found_in_library(terms, seq![artist]) =~= found_in_artist(terms, artist));
}

/// A search for a text gives all of the tracks that it finds, in order, up to
/// twenty of them, and exactly twenty where there are more.
pub proof fn law_first_twenty_are_given(terms: TermsView, artists: Seq<ArtistDir>)
    ensures
        ({
            let all = found_in_library(terms, artists);
            let results = search_results(terms, artists);
            &&& terms.query.len() > 0 && all.len() <= 20 ==> results == all
            &&& terms.query.len() > 0 && all.len() > 20 ==> results.len() == 20
            &&& terms.query.len() == 0 ==> results.len() == 0
            &&& forall|i: int| 0 <= i < results.len() ==> #[trigger] results[i] == all[i]
        }),
{
}

/// A search gives every song file of the library whose artist's or album's
/// name, or whose title, holds the text in lower case, as long as it finds no
/// more than twenty: the file that is named some text, a dot and `mp3`, `flac`
/// or `wav`, in the given folders.
pub proof fn law_holding_file_is_given(
    terms: TermsView,
    artists: Seq<ArtistDir>,
    a: int,
    b: int,
    t: int,
    track: ResultView,
    before: Seq<char>,
    after: Seq<char>,
)
    requires
        stands_in_library(artists, a, b, t, track),
        terms.query.len() > 0,
        found_in_library(terms, artists).len() <= 20,
        ({
            ||| terms.filter == "all"@ && lowercase(track.artist) == before + terms.query + after
            ||| terms.filter == "all"@ && lowercase(track.album) == before + terms.query + after
            ||| terms.filter == "all"@ && lowercase(track.title) == before + terms.query + after
            ||| terms.filter == "songs"@ && lowercase(track.title) == before + terms.query + after
        }),
    ensures
        search_results(terms, artists).contains(track),
{
    law_track_wanted_where_text_stands(terms, track, before, after);
    law_wanted_tracks_are_found(terms, artists, a, b, t, track);
    law_first_twenty_are_given(terms, artists);
}

/// A result is shown with each of its texts, terms too, and a list one by one.
pub proof fn law_results_are_shown_whole(
    result: SearchResult,
    list: Seq<SearchResult>,
    terms: SearchTerms,
)
    ensures
        result@.title == result.title@,
        result@.artist == result.artist@,
        result@.album == result.album@,
        result@.cover_art_path == result.cover_art_path@,
        result@.file_extension == result.file_extension@,
        result@.filename == result.filename@,
        found(list).len() == list.len(),
        forall|i: int| 0 <= i < list.len() ==> #[trigger] found(list)[i] == list[i]@,
        terms@.query == terms.query@,
        terms@.filter == terms.filter@,
{
}

} // verus!
