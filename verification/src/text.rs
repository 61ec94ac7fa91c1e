//! Text: the few operations on strings that file names and search terms need.

use vstd::prelude::*;
use vstd::string::*;

verus! {

/// What `str::to_lowercase` makes of a text: Unicode's lower case mapping.
pub uninterp spec fn lowercase(text: Seq<char>) -> Seq<char>;

/// Whether every character of the text is an ASCII one.
pub open spec fn is_ascii_text(text: Seq<char>) -> bool {
    forall|i: int| 0 <= i < text.len() ==> (#[trigger] text[i] as u32) < 128
}

/// The ASCII lower case of one character: `A` to `Z` become `a` to `z`.
pub open spec fn ascii_lowercase(c: char) -> char {
    if 'A' <= c && c <= 'Z' {
        ((c as u32) + 32) as char
    } else {
        c
    }
}

/// The ASCII lower case of a text.
pub open spec fn ascii_lowercase_text(text: Seq<char>) -> Seq<char> {
    text.map_values(|c: char| ascii_lowercase(c))
}

/// `str::to_lowercase` is Unicode's mapping, here only named: the result is a
/// function of the text alone. Claimed of it besides: it is empty exactly on
/// the empty text, for each character maps to one or more, and on ASCII text
/// it maps the letters `A` to `Z` and keeps the rest.
pub assume_specification[ str::to_lowercase ](s: &str) -> (res: String)
    ensures
        res@ == lowercase(s@),
        res@.len() == 0 <==> s@.len() == 0,
        is_ascii_text(s@) ==> res@ == ascii_lowercase_text(s@),
;

/// The characters of a text.
pub fn characters(text: &str) -> (result: Vec<char>)
    ensures
        result@ == text@,
{
    let mut result: Vec<char> = Vec::new();
    for c in it: text.chars()
        invariant
            it.seq() == text@,
            result@ == it.seq().take(it.index() as int),
    {
        proof {
            assert(it.seq().take(it.index() + 1) == it.seq().take(it.index() as int).push(c));
        }
        result.push(c);
    }
    proof {
        assert(text@.take(text@.len() as int) == text@);
    }
    result
}

/// Whether `part` stands in `whole` from index `at` on.
pub open spec fn stands_at(whole: Seq<char>, part: Seq<char>, at: int) -> bool {
    &&& 0 <= at
    &&& at + part.len() <= whole.len()
    &&& whole.subrange(at, at + part.len()) == part
}

/// Whether `part` stands in `whole` somewhere.
pub open spec fn contains_text(whole: Seq<char>, part: Seq<char>) -> bool {
    exists|at: int| #[trigger] stands_at(whole, part, at)
}

/// Whether `whole` ends in `part`.
pub open spec fn ends_with_text(whole: Seq<char>, part: Seq<char>) -> bool {
    stands_at(whole, part, whole.len() - part.len())
}

/// Decides whether `part` stands in `whole` at `at`.
fn is_at(whole: &Vec<char>, part: &Vec<char>, at: usize) -> (result: bool)
    requires
        at <= whole@.len(),
    ensures
        result == stands_at(whole@, part@, at as int),
{
    if part.len() > whole.len() - at {
        return false;
    }
    let mut i: usize = 0;
    while i < part.len()
        invariant
            at + part@.len() <= whole.len(),
            i <= part@.len(),
            forall|k: int| 0 <= k < i ==> whole@[at + k] == part@[k],
        decreases part@.len() - i,
    {
        if whole[at + i] != part[i] {
            proof {
                let s = whole@.subrange(at as int, at + part@.len());
                assert(s[i as int] == whole@[at + i]);
            }
            return false;
        }
        i = i + 1;
    }
    proof {
        assert(whole@.subrange(at as int, at + part@.len()) =~= part@);
    }
    true
}

/// Whether two texts are the same.
pub fn same_text(a: &str, b: &str) -> (result: bool)
    ensures
        result == (a@ == b@),
{
    let left = characters(a);
    let right = characters(b);
    if left.len() != right.len() {
        return false;
    }
    let result = is_at(&left, &right, 0);
    proof {
        assert(left@.subrange(0, left@.len() as int) =~= left@);
    }
    result
}

/// Whether `part` stands in `whole`. The empty text stands in every text.
pub fn contains(whole: &str, part: &str) -> (result: bool)
    ensures
        result == contains_text(whole@, part@),
{
    let haystack = characters(whole);
    let needle = characters(part);
    let mut at: usize = 0;
    while at <= haystack.len() && needle.len() <= haystack.len() - at
        invariant
            haystack@ == whole@,
            needle@ == part@,
            at <= haystack@.len() + 1,
            forall|k: int| 0 <= k < at ==> !#[trigger] stands_at(whole@, part@, k),
        decreases haystack@.len() + 1 - at,
    {
        if is_at(&haystack, &needle, at) {
            return true;
        }
        if at == haystack.len() {
            return false;
        }
        at = at + 1;
    }
    false
}

/// Whether `whole` ends in `part`.
pub fn ends_with(whole: &str, part: &str) -> (result: bool)
    ensures
        result == ends_with_text(whole@, part@),
{
    let haystack = characters(whole);
    let needle = characters(part);
    if needle.len() > haystack.len() {
        return false;
    }
    is_at(&haystack, &needle, haystack.len() - needle.len())
}

/// The index of the last `c` in the text, or -1 where there is none.
pub open spec fn last_index_of(text: Seq<char>, c: char) -> int
    decreases text.len(),
{
    if text.len() == 0 {
        -1
    } else if text.last() == c {
        text.len() - 1
    } else {
        last_index_of(text.drop_last(), c)
    }
}

/// What `last_index_of` finds is the last place of `c`.
proof fn lemma_last_index_of(text: Seq<char>, c: char)
    ensures
        -1 <= last_index_of(text, c) < text.len(),
        last_index_of(text, c) >= 0 ==> text[last_index_of(text, c)] == c,
        forall|k: int| last_index_of(text, c) < k < text.len() ==> text[k] != c,
    decreases text.len(),
{
    if text.len() > 0 && text.last() != c {
        lemma_last_index_of(text.drop_last(), c);
        assert forall|k: int| last_index_of(text, c) < k < text.len() implies text[k] != c by {
            if k < text.len() - 1 {
                assert(text.drop_last()[k] == text[k]);
            }
        }
    }
}

/// Finds the last dot of a name.
fn last_dot(name: &Vec<char>) -> (result: Option<usize>)
    ensures
        result matches Some(i) ==> i == last_index_of(name@, '.') && i < name@.len(),
        result is None ==> last_index_of(name@, '.') == -1,
{
    let mut end: usize = name.len();
    proof {
        assert(name@.take(end as int) == name@);
    }
    while end > 0
        invariant
            end <= name@.len(),
            last_index_of(name@, '.') == last_index_of(name@.take(end as int), '.'),
        decreases end,
    {
        proof {
            assert(name@.take(end as int).drop_last() == name@.take(end - 1));
            assert(name@.take(end as int).last() == name@[end - 1]);
        }
        if name[end - 1] == '.' {
            return Some(end - 1);
        }
        end = end - 1;
    }
    None
}

/// The extension of a folder entry's name: what follows its last dot. A name
/// without a dot has none, nor one whose only dot opens it, nor `..`.
pub open spec fn extension_of(name: Seq<char>) -> Option<Seq<char>> {
    let dot = last_index_of(name, '.');
    if dot <= 0 || name == seq!['.', '.'] {
        None
    } else {
        Some(name.skip(dot + 1))
    }
}

/// The extension of a folder entry's name, which holds no path separator.
pub fn extension(name: &str) -> (result: Option<String>)
    ensures
        result is Some <==> extension_of(name@) is Some,
        result matches Some(ext) ==> ext@ == extension_of(name@)->0,
{
    let letters = characters(name);
    match last_dot(&letters) {
        None => None,
        Some(dot) => {
            if dot == 0 {
                return None;
            }
            if letters.len() == 2 && letters[0] == '.' && letters[1] == '.' {
                proof {
                    assert(letters@ =~= seq!['.', '.']);
                }
                return None;
            }
            proof {
                if name@ == seq!['.', '.'] {
                    assert(letters@[0] == '.' && letters@[1] == '.');
                }
                assert(name@.subrange(dot + 1, name@.len() as int) =~= name@.skip(dot + 1));
            }
            Some(name.substring_char(dot + 1, letters.len()).to_owned())
        },
    }
}

/// A file name up to its last dot; all of it where it has none.
pub open spec fn stem_of(name: Seq<char>) -> Seq<char> {
    let dot = last_index_of(name, '.');
    if dot < 0 {
        name
    } else {
        name.take(dot)
    }
}

/// The file name up to its last dot; all of it where it has none.
pub fn stem(name: &str) -> (result: String)
    ensures
        result@ == stem_of(name@),
{
    let letters = characters(name);
    match last_dot(&letters) {
        None => name.to_owned(),
        Some(dot) => {
            proof {
                assert(name@.subrange(0, dot as int) =~= name@.take(dot as int));
            }
            name.substring_char(0, dot).to_owned()
        },
    }
}

/// A name with an extension is its stem, a dot and the extension, and no dot
/// stands in the extension.
pub proof fn law_name_is_stem_and_extension(name: Seq<char>)
    requires
        extension_of(name) is Some,
    ensures
        name == stem_of(name) + seq!['.'] + extension_of(name)->0,
        !extension_of(name)->0.contains('.'),
{
    lemma_last_index_of(name, '.');
    let dot = last_index_of(name, '.');
    let ext = extension_of(name)->0;
    assert(name =~= stem_of(name) + seq!['.'] + ext);
    assert forall|k: int| 0 <= k < ext.len() implies ext[k] != '.' by {
        assert(ext[k] == name[dot + 1 + k]);
    }
}

/// A text stands in another one exactly where the other one is made of some
/// text, this one, and some text; and it stands where the first of them ends.
pub proof fn law_contained_text_is_between_others(whole: Seq<char>, part: Seq<char>)
    ensures
        contains_text(whole, part) <==> exists|before: Seq<char>, after: Seq<char>|
            whole == #[trigger] (before + part + after),
        forall|before: Seq<char>, after: Seq<char>|
            stands_at(#[trigger] (before + part + after), part, before.len() as int),
{
    assert forall|before: Seq<char>, after: Seq<char>| stands_at(
        #[trigger] (before + part + after),
        part,
        before.len() as int,
    ) by {
        let text = before + part + after;
        assert(text.subrange(before.len() as int, (before.len() + part.len()) as int) =~= part);
    }
    if contains_text(whole, part) {
        let at = choose|at: int| #[trigger] stands_at(whole, part, at);
        let before = whole.take(at);
        let after = whole.skip(at + part.len());
        assert forall|k: int| 0 <= k < part.len() implies whole[at + k] == part[k] by {
            assert(whole.subrange(at, at + part.len())[k] == whole[at + k]);
        }
        assert(whole =~= before + part + after);
    }
    if exists|before: Seq<char>, after: Seq<char>| whole == #[trigger] (before + part + after) {
        let (before, after) = choose|before: Seq<char>, after: Seq<char>|
            whole == #[trigger] (before + part + after);
        assert(stands_at(whole, part, before.len() as int));
    }
}

/// A text ends in another one exactly where it is some text and then that one.
pub proof fn law_ending_text_comes_last(whole: Seq<char>, part: Seq<char>)
    ensures
        ends_with_text(whole, part) <==> exists|before: Seq<char>|
            whole == #[trigger] (before + part),
{
    if ends_with_text(whole, part) {
        let at = whole.len() - part.len();
        assert forall|k: int| 0 <= k < part.len() implies whole[at + k] == part[k] by {
            assert(whole.subrange(at, at + part.len())[k] == whole[at + k]);
        }
        assert(whole =~= whole.take(at) + part);
    }
    if exists|before: Seq<char>| whole == #[trigger] (before + part) {
        let before = choose|before: Seq<char>| whole == #[trigger] (before + part);
        assert(whole.subrange(before.len() as int, whole.len() as int) =~= part);
    }
}

/// Of a name that is made of a stem, a dot and an ending without a dot, the
/// stem is the stem. The ending is the extension, unless the dot opens the
/// name or the name is `..`.
pub proof fn law_extension_follows_last_dot(stem: Seq<char>, ending: Seq<char>)
    requires
        !ending.contains('.'),
    ensures
        stem_of(stem + seq!['.'] + ending) == stem,
        stem.len() > 0 && stem + seq!['.'] + ending != seq!['.', '.'] ==> extension_of(
            stem + seq!['.'] + ending,
        ) == Some(ending),
        stem.len() == 0 || stem + seq!['.'] + ending == seq!['.', '.'] ==> extension_of(
            stem + seq!['.'] + ending,
        ) is None,
{
    let name = stem + seq!['.'] + ending;
    let dot = last_index_of(name, '.');
    lemma_last_index_of(name, '.');
    assert(name[stem.len() as int] == '.');
    if dot > stem.len() {
        assert(name[dot] == ending[dot - stem.len() - 1]);
        assert(ending.contains('.'));
    }
    assert(name.take(dot) =~= stem);
    assert(name.skip(dot + 1) =~= ending);
}

/// A name without a dot has no extension, and is its own stem.
pub proof fn law_no_extension_without_dot(name: Seq<char>)
    requires
        !name.contains('.'),
    ensures
        extension_of(name) is None,
        stem_of(name) == name,
{
    lemma_last_index_of(name, '.');
    let dot = last_index_of(name, '.');
    if dot >= 0 {
        assert(name.contains(name[dot]));
    }
}

/// The extension of a name that ends in a dot and the extension, after at
/// least one character; and such an ending is the only way to have it.
pub proof fn law_extension_is_ending(name: Seq<char>, ext: Seq<char>)
    requires
        ext.len() > 0,
        !ext.contains('.'),
    ensures
        extension_of(name) == Some(ext) <==> exists|stem: Seq<char>|
            stem.len() > 0 && name == #[trigger] (stem + seq!['.'] + ext),
{
    if extension_of(name) == Some(ext) {
        law_name_is_stem_and_extension(name);
        lemma_last_index_of(name, '.');
        assert(stem_of(name).len() > 0);
        assert(name == stem_of(name) + seq!['.'] + ext);
    }
    if exists|stem: Seq<char>| stem.len() > 0 && name == #[trigger] (stem + seq!['.'] + ext) {
        let stem = choose|stem: Seq<char>|
            stem.len() > 0 && name == #[trigger] (stem + seq!['.'] + ext);
        assert(name.len() > 2);
        law_extension_follows_last_dot(stem, ext);
    }
}

} // verus!
