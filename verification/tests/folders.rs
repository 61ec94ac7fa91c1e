use rust_box::folders::{
    get_artist_albums, get_artist_dir, get_library, is_track_extension, is_track_name, Album, AlbumFolder, Entry,
    TrackFile,
};
use rust_box::song::{album_path, artist_path, music_path, song_path};

fn named(name: &str) -> Entry {
    Entry::Named(name.to_string())
}

fn album(artist: &str, title: &str, cover: &str, filename: &str) -> Album {
    Album {
        artist: artist.to_string(),
        title: title.to_string(),
        cover_art_path: cover.to_string(),
        filename: filename.to_string(),
    }
}

fn file(name: &str, tag: Option<&str>) -> TrackFile {
    TrackFile { entry: named(name), tag_title: tag.map(|t| t.to_string()) }
}

#[test]
fn paths_lie_under_the_library() {
    assert_eq!(music_path(), "assets/music");
    assert_eq!(artist_path("Nina"), "assets/music/Nina");
    assert_eq!(album_path("Nina", "Live"), "assets/music/Nina/Live");
    assert_eq!(song_path("Nina", "Live", "one.mp3"), "assets/music/Nina/Live/one.mp3");
}

#[test]
fn library_lists_names_in_order() {
    let entries = vec![
        named("Zed"),
        Entry::Unreadable,
        Entry::NotUnicode("A\u{fffd}".to_string()),
        named("Abe"),
    ];
    assert_eq!(get_library(Some(&entries)), vec!["Zed".to_string(), "Abe".to_string()]);
    assert_eq!(get_library(None), Vec::<String>::new());
}

#[test]
fn entry_names() {
    assert_eq!(named("a").name(), Some("a"));
    assert_eq!(named("a").shown_name(), Some("a"));
    assert_eq!(Entry::NotUnicode("b".to_string()).name(), None);
    assert_eq!(Entry::NotUnicode("b".to_string()).shown_name(), Some("b"));
    assert_eq!(Entry::Unreadable.name(), None);
    assert_eq!(Entry::Unreadable.shown_name(), None);
}

#[test]
fn artist_lists_albums_with_first_picture() {
    let folders = vec![
        AlbumFolder {
            entry: named("Live"),
            files: Some(vec![
                named("one.mp3"),
                named("COVER.JPG"),
                Entry::NotUnicode("x.jpg".to_string()),
                named("back.png"),
                named("front.jpg"),
            ]),
        },
        AlbumFolder { entry: Entry::Unreadable, files: Some(vec![named("a.jpg")]) },
        AlbumFolder { entry: named("readme.txt"), files: None },
        AlbumFolder { entry: named("Dots"), files: Some(vec![named(".png")]) },
    ];
    assert_eq!(
        get_artist_dir("Nina", Some(&folders)),
        vec![
            album("Nina", "Live", "back.png", "back.png"),
            album("Nina", "readme.txt", "", ""),
            album("Nina", "Dots", ".png", ".png"),
        ]
    );
    assert_eq!(get_artist_dir("Nina", None), Vec::<Album>::new());
}

#[test]
fn album_lists_tracks() {
    let entries = vec![named("one.mp3"), named("cover.jpg"), named("other.png")];
    let files = vec![
        file("one.mp3", Some("First")),
        file("cover.jpg", None),
        file("two.part.FLAC", None),
        file("three.Wav", None),
        file("four.mp4", None),
        file("five.ogg", None),
        file("mp3", None),
        file(".mp3", None),
        TrackFile { entry: Entry::NotUnicode("six.mp3".to_string()), tag_title: None },
        TrackFile { entry: Entry::Unreadable, tag_title: None },
    ];
    assert_eq!(
        get_artist_albums("Nina", Some(&entries), Some(&files)),
        vec![
            album("Nina", "First", "cover.jpg", "one.mp3"),
            album("Nina", "two.part", "cover.jpg", "two.part.FLAC"),
            album("Nina", "three", "cover.jpg", "three.Wav"),
            album("Nina", "four", "cover.jpg", "four.mp4"),
        ]
    );
    assert_eq!(get_artist_albums("Nina", None, Some(&files)), Vec::<Album>::new());
    assert_eq!(get_artist_albums("Nina", Some(&entries), None), Vec::<Album>::new());
}

#[test]
fn track_extensions() {
    for lower in ["flac", "wav", "mp3", "mp4"] {
        assert!(is_track_extension(lower));
    }
    assert!(!is_track_extension("MP3"));
    assert!(!is_track_extension("ogg"));
    assert!(is_track_name("a.MP3"));
    assert!(!is_track_name("a.mp33"));
    assert!(!is_track_name("flac"));
}
