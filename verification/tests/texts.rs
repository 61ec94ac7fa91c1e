use rust_box::text::{characters, contains, ends_with, extension, same_text, stem};

fn ext(name: &str) -> Option<String> {
    extension(name)
}

#[test]
fn characters_are_unicode_scalars() {
    assert_eq!(characters("aé♫"), vec!['a', 'é', '♫']);
    assert_eq!(characters(""), Vec::<char>::new());
}

#[test]
fn extension_agrees_with_paths() {
    let names = [
        "song.mp3", "song.tar.gz", "song", ".hidden", ".hidden.png", "song.", "..", ".", "...", "a..b", "", "é.ü",
    ];
    for name in names {
        let expected = std::path::Path::new(name).extension().map(|e| e.to_string_lossy().into_owned());
        assert_eq!(ext(name), expected, "{}", name);
    }
    assert_eq!(ext("song.mp3"), Some("mp3".to_string()));
}

#[test]
fn stem_agrees_with_split() {
    for name in ["song.mp3", "a.b.c", "song", ".hidden", "song.", ""] {
        let expected = name.rsplit_once('.').map(|(stem, _)| stem.to_string()).unwrap_or_else(|| name.to_string());
        assert_eq!(stem(name), expected);
    }
    assert_eq!(stem("a.b.c"), "a.b");
}

#[test]
fn contains_agrees_with_std() {
    for (whole, part) in [("hello", "ell"), ("hello", ""), ("", ""), ("", "a"), ("ab", "abc"), ("aab", "ab"), ("é♫", "♫"), ("ab", "b"), ("ab", "ba")] {
        assert_eq!(contains(whole, part), whole.contains(part));
        assert_eq!(ends_with(whole, part), whole.ends_with(part));
        assert_eq!(same_text(whole, part), whole == part);
    }
    assert!(same_text("all", "all"));
    assert!(!same_text("all", "All"));
}

#[test]
fn name_is_stem_dot_and_extension() {
    let name = "01. Intro.flac";
    assert_eq!(format!("{}.{}", stem(name), extension(name).unwrap()), name);
}
