use rust_box::folders::{get_artist_albums, AlbumFolder, Entry, TrackFile};
use rust_box::search::{
    asks_nothing, find_songs, is_song_name, search_songs, wants, AlbumDir, ArtistDir, SearchResult, SearchTerms,
};

fn named(name: &str) -> Entry {
    Entry::Named(name.to_string())
}

fn file(name: &str, tag: Option<&str>) -> TrackFile {
    TrackFile { entry: named(name), tag_title: tag.map(|t| t.to_string()) }
}

fn album(name: &str, files: Vec<TrackFile>) -> AlbumDir {
    let entries = files.iter().map(|f| named(f.entry.shown_name().unwrap_or(""))).collect();
    AlbumDir { folder: AlbumFolder { entry: named(name), files: Some(entries) }, tracks: Some(files) }
}

fn library() -> Vec<ArtistDir> {
    vec![
        ArtistDir {
            entry: named("Nina Blue"),
            albums: Some(vec![
                album(
                    "Live",
                    vec![
                        file("cover.jpg", None),
                        file("one.mp3", Some("Sunrise")),
                        file("two.flac", None),
                        file("three.MP3", None),
                        file("notes.txt", None),
                    ],
                ),
                album("Studio", vec![file("four.wav", None), file(".png", None), file("back.png", None)]),
            ]),
        },
        ArtistDir { entry: Entry::Unreadable, albums: Some(vec![album("Live", vec![file("x.mp3", None)])]) },
        ArtistDir { entry: named("readme"), albums: None },
        ArtistDir {
            entry: Entry::NotUnicode("Od\u{fffd}".to_string()),
            albums: Some(vec![
                album("Sunday", vec![file("blue.mp3.mp3", None)]),
                AlbumDir {
                    folder: AlbumFolder { entry: Entry::Unreadable, files: None },
                    tracks: Some(vec![file("blue.mp3", None)]),
                },
            ]),
        },
    ]
}

fn titles(results: &Vec<SearchResult>) -> Vec<String> {
    results.iter().map(|r| r.title.clone()).collect()
}

fn search(query: &str, filter: Option<&str>) -> Vec<SearchResult> {
    search_songs(Some(query), filter, Some(&library()))
}

#[test]
fn artist_match_gives_all_songs() {
    let results = search("BLUE", None);
    assert_eq!(titles(&results), vec!["Sunrise", "two", "four", "blue.mp3"]);
    assert_eq!(
        results[0],
        SearchResult {
            title: "Sunrise".to_string(),
            artist: "Nina Blue".to_string(),
            album: "Live".to_string(),
            cover_art_path: "cover.jpg".to_string(),
            file_extension: "mp3".to_string(),
            filename: "one.mp3".to_string(),
        }
    );
    assert_eq!(results[2].cover_art_path, "back.png");
    assert_eq!(results[3].artist, "Od\u{fffd}");
    assert_eq!(results[3].cover_art_path, "");
    assert_eq!(results[3].filename, "blue.mp3.mp3");
}

#[test]
fn album_match_gives_its_songs() {
    assert_eq!(titles(&search("studio", Some("all"))), vec!["four"]);
    assert_eq!(titles(&search("sun", Some("ALL"))), vec!["Sunrise", "blue.mp3"]);
}

#[test]
fn songs_filter_looks_at_titles_only() {
    assert_eq!(titles(&search("blue", Some("songs"))), vec!["blue.mp3"]);
    assert_eq!(titles(&search("sun", Some("Songs"))), vec!["Sunrise"]);
    for result in search("u", Some("songs")) {
        assert!(search("u", Some("all")).contains(&result));
    }
}

#[test]
fn other_filters_find_nothing() {
    for filter in ["artists", "albums", "", "everything"] {
        assert_eq!(search("blue", Some(filter)), Vec::<SearchResult>::new());
        assert_eq!(search("live", Some(filter)), Vec::<SearchResult>::new());
    }
}

#[test]
fn empty_query_finds_nothing() {
    assert_eq!(search("", None), Vec::<SearchResult>::new());
    assert_eq!(search_songs(None, None, Some(&library())), Vec::<SearchResult>::new());
    assert!(asks_nothing(None));
    assert!(asks_nothing(Some("")));
    assert!(!asks_nothing(Some("a")));
}

#[test]
fn unreadable_library_finds_nothing() {
    assert_eq!(search_songs(Some("a"), None, None), Vec::<SearchResult>::new());
}

#[test]
fn results_are_limited_to_the_first_twenty() {
    let files: Vec<TrackFile> = (0..30).map(|i| file(&format!("{}.mp3", i), None)).collect();
    let artists = vec![ArtistDir { entry: named("Many"), albums: Some(vec![album("All", files)]) }];
    let results = search_songs(Some("many"), None, Some(&artists));
    assert_eq!(results.len(), 20);
    assert_eq!(results[0].title, "0");
    assert_eq!(results[19].title, "19");
}

#[test]
fn lower_case_is_unicode() {
    let artists = vec![ArtistDir { entry: named("ÉTOILE"), albums: Some(vec![album("X", vec![file("a.mp3", None)])]) }];
    assert_eq!(search_songs(Some("Étoile"), None, Some(&artists)).len(), 1);
    let terms = SearchTerms::new(Some("ÀB"), None);
    assert_eq!(terms.query, "àb");
    assert_eq!(terms.filter, "all");
    assert_eq!(find_songs(&terms, Some(&artists)).len(), 0);
}

#[test]
fn wanted_by_artist_album_or_title() {
    let all = SearchTerms { query: "x".to_string(), filter: "all".to_string() };
    assert!(wants(&all, "axa", "b", "c"));
    assert!(wants(&all, "a", "bx", "c"));
    assert!(wants(&all, "a", "b", "xc"));
    assert!(!wants(&all, "a", "b", "c"));
    let songs = SearchTerms { query: "x".to_string(), filter: "songs".to_string() };
    assert!(!wants(&songs, "x", "x", "c"));
    assert!(wants(&songs, "a", "b", "x"));
    let artists = SearchTerms { query: "x".to_string(), filter: "artists".to_string() };
    assert!(!wants(&artists, "x", "x", "x"));
    let albums = SearchTerms { query: "x".to_string(), filter: "albums".to_string() };
    assert!(!wants(&albums, "x", "x", "x"));
}

#[test]
fn song_names() {
    assert!(is_song_name("a.mp3"));
    assert!(is_song_name("a.flac"));
    assert!(is_song_name("a.wav"));
    assert!(!is_song_name("a.mp4"));
    assert!(!is_song_name("a.MP3"));
    assert!(!is_song_name(".mp3"));
}

#[test]
fn search_ignores_case() {
    assert_eq!(search("sUn", Some("sOnGs")), search("SuN", Some("SONGS")));
    assert_eq!(search("sUn", Some("sOnGs")).len(), 1);
}

#[test]
fn untagged_title_is_the_name_without_its_extension() {
    let artists =
        vec![ArtistDir { entry: named("A"), albums: Some(vec![album("B", vec![file("a.mp3.live.mp3", None)])]) }];
    assert_eq!(
        search_songs(Some("live"), Some("songs"), Some(&artists)),
        vec![SearchResult {
            title: "a.mp3.live".to_string(),
            artist: "A".to_string(),
            album: "B".to_string(),
            cover_art_path: "".to_string(),
            file_extension: "mp3".to_string(),
            filename: "a.mp3.live.mp3".to_string(),
        }]
    );
    let files = vec![file("a.mp3.live.mp3", None)];
    let listed = get_artist_albums("A", Some(&vec![]), Some(&files));
    assert_eq!(listed[0].title, "a.mp3.live");
}
