//! File names: splitting a path's last component into stem and extension,
//! recognising image extensions, and joining a directory with a file name.

use vstd::prelude::*;

verus! {

/// What `Path::file_name` gives for a path: its last normal component.
pub uninterp spec fn file_name_spec(path: Seq<char>) -> Option<Seq<char>>;

/// What `str::to_lowercase` gives for a string.
pub uninterp spec fn lower_of(s: Seq<char>) -> Seq<char>;

/// The characters of an optional string.
pub open spec fn view_opt(o: Option<String>) -> Option<Seq<char>> {
    match o {
        Some(s) => Some(s@),
        None => None,
    }
}

/// Relies on `std::path::Path::file_name`: the last component of the path,
/// `None` when the path ends in `..` or has no normal component.
#[verifier::external_body]
fn path_file_name(path: &str) -> (r: Option<String>)
    ensures
        view_opt(r) == file_name_spec(path@),
{
    std::path::Path::new(path).file_name().map(|n| n.to_string_lossy().into_owned())
}

/// Relies on `str::to_lowercase`: the result depends on the characters alone.
#[verifier::external_body]
fn lowercase(s: &str) -> (r: String)
    ensures
        r@ == lower_of(s@),
{
    s.to_lowercase()
}

/// Index of the last occurrence of `c` in `s`, or -1.
pub open spec fn last_index_of(s: Seq<char>, c: char) -> int
    decreases s.len(),
{
    if s.len() == 0 {
        -1
    } else if s.last() == c {
        s.len() - 1
    } else {
        last_index_of(s.drop_last(), c)
    }
}

/// The index of the dot that separates stem from extension, if any: the last
/// dot, unless it opens the name, and never in `..`.
pub open spec fn split_dot(name: Seq<char>) -> Option<int> {
    let k = last_index_of(name, '.');
    if name =~= seq!['.', '.'] || k <= 0 {
        None
    } else {
        Some(k)
    }
}

/// The stem of a file name: the part before the separating dot, or the whole
/// name when there is none.
pub open spec fn stem_spec(name: Seq<char>) -> Seq<char> {
    match split_dot(name) {
        Some(k) => name.subrange(0, k),
        None => name,
    }
}

/// The extension of a file name: the part after the separating dot.
pub open spec fn extension_spec(name: Seq<char>) -> Option<Seq<char>> {
    match split_dot(name) {
        Some(k) => Some(name.subrange(k + 1, name.len() as int)),
        None => None,
    }
}

pub open spec fn path_stem(path: Seq<char>) -> Option<Seq<char>> {
    match file_name_spec(path) {
        Some(n) => Some(stem_spec(n)),
        None => None,
    }
}

pub open spec fn path_extension(path: Seq<char>) -> Option<Seq<char>> {
    match file_name_spec(path) {
        Some(n) => extension_spec(n),
        None => None,
    }
}

pub proof fn lemma_last_index_bounds(s: Seq<char>, c: char)
    ensures
        -1 <= last_index_of(s, c) < s.len(),
        last_index_of(s, c) >= 0 ==> s[last_index_of(s, c)] == c,
        forall|j: int| last_index_of(s, c) < j < s.len() ==> s[j] != c,
    decreases s.len(),
{
    if s.len() > 0 && s.last() != c {
        lemma_last_index_bounds(s.drop_last(), c);
        assert forall|j: int| last_index_of(s, c) < j < s.len() implies s[j] != c by {
            if j < s.len() - 1 {
                assert(s[j] == s.drop_last()[j]);
            }
        }
    }
}

/// Finds the last occurrence of `c` in `s`.
fn find_last(s: &str, c: char) -> (r: Option<usize>)
    ensures
        match r {
            Some(k) => last_index_of(s@, c) == k as int,
            None => last_index_of(s@, c) == -1,
        },
{
    let n = s.unicode_len();
    let mut i: usize = n;
    assert(s@.subrange(0, n as int) =~= s@);
    while i > 0
        invariant
            i <= n == s@.len(),
            last_index_of(s@, c) == last_index_of(s@.subrange(0, i as int), c),
        decreases i,
    {
        let ch = s.get_char(i - 1);
        if ch == c {
            return Some(i - 1);
        }
        assert(s@.subrange(0, i as int).drop_last() =~= s@.subrange(0, i - 1));
        i = i - 1;
    }
    None
}

/// Splits a file name at its separating dot.
fn split_at_dot(name: &str) -> (r: Option<usize>)
    ensures
        match r {
            Some(k) => split_dot(name@) == Some(k as int),
            None => split_dot(name@) is None,
        },
{
    let n = name.unicode_len();
    if n == 2 && name.get_char(0) == '.' && name.get_char(1) == '.' {
        assert(name@ =~= seq!['.', '.']);
        return None;
    }
    match find_last(name, '.') {
        Some(k) => {
            if k == 0 {
                None
            } else {
                Some(k)
            }
        },
        None => None,
    }
}

/// The stem of a file name: the part before its separating dot, or the whole
/// name.
pub fn name_stem(name: &str) -> (r: String)
    ensures
        r@ == stem_spec(name@),
{
    proof {
        lemma_last_index_bounds(name@, '.');
    }
    match split_at_dot(name) {
        Some(k) => String::from_str(name.substring_char(0, k)),
        None => String::from_str(name),
    }
}

/// The extension of a file name: the part after its separating dot, if any.
pub fn name_extension(name: &str) -> (r: Option<String>)
    ensures
        view_opt(r) == extension_spec(name@),
{
    proof {
        lemma_last_index_bounds(name@, '.');
    }
    let n = name.unicode_len();
    match split_at_dot(name) {
        Some(k) => Some(String::from_str(name.substring_char(k + 1, n))),
        None => None,
    }
}

/// The stem of the path's file name (`Path::file_stem`).
pub fn stem_of(path: &str) -> (r: Option<String>)
    ensures
        view_opt(r) == path_stem(path@),
{
    match path_file_name(path) {
        Some(name) => Some(name_stem(name.as_str())),
        None => None,
    }
}

/// The extension of the path's file name (`Path::extension`).
pub fn extension_of(path: &str) -> (r: Option<String>)
    ensures
        view_opt(r) == path_extension(path@),
{
    match path_file_name(path) {
        Some(name) => name_extension(name.as_str()),
        None => None,
    }
}

/// The extensions that mark a file as an image, compared in lower case.
pub open spec fn image_extension(e: Seq<char>) -> bool {
    e =~= seq!['j', 'p', 'g'] || e =~= seq!['j', 'p', 'e', 'g'] || e =~= seq!['p', 'n', 'g']
        || e =~= seq!['g', 'i', 'f'] || e =~= seq!['b', 'm', 'p'] || e =~= seq!['t', 'i', 'f', 'f']
        || e =~= seq!['w', 'e', 'b', 'p']
}

/// Whether the path names an image, judged by its lower-cased extension.
pub open spec fn image_path(path: Seq<char>) -> bool {
    match path_extension(path) {
        Some(e) => image_extension(lower_of(e)),
        None => false,
    }
}

/// Whether an already lower-cased extension is one of the image extensions.
pub fn is_image_extension(lower: &str) -> (r: bool)
    ensures
        r == image_extension(lower@),
{
    let n = lower.unicode_len();
    if n == 3 {
        let a = lower.get_char(0);
        let b = lower.get_char(1);
        let c = lower.get_char(2);
        let r = (a == 'j' && b == 'p' && c == 'g') || (a == 'p' && b == 'n' && c == 'g') || (a
            == 'g' && b == 'i' && c == 'f') || (a == 'b' && b == 'm' && c == 'p');
        assert(lower@ =~= seq![a, b, c]);
        r
    } else if n == 4 {
        let a = lower.get_char(0);
        let b = lower.get_char(1);
        let c = lower.get_char(2);
        let d = lower.get_char(3);
        let r = (a == 'j' && b == 'p' && c == 'e' && d == 'g') || (a == 't' && b == 'i' && c
            == 'f' && d == 'f') || (a == 'w' && b == 'e' && c == 'b' && d == 'p');
        assert(lower@ =~= seq![a, b, c, d]);
        r
    } else {
        false
    }
}

/// Whether the path names an image file: its extension, lower-cased, is one
/// of jpg, jpeg, png, gif, bmp, tiff and webp.
pub fn is_image_file(file_path: &str) -> (r: bool)
    ensures
        r == image_path(file_path@),
{
    match extension_of(file_path) {
        Some(ext) => {
            let lower = lowercase(ext.as_str());
            is_image_extension(lower.as_str())
        },
        None => false,
    }
}

/// `dir` joined with `name` as `Path::join` does it on Unix, where `/` is the
/// only separator: a separator goes between them unless `dir` is empty or
/// already ends in one; an absolute `name` replaces `dir`.
pub open spec fn joined(dir: Seq<char>, name: Seq<char>) -> Seq<char> {
    if name.len() > 0 && name[0] == '/' {
        name
    } else if dir.len() == 0 || dir.last() == '/' {
        dir + name
    } else {
        dir + seq!['/'] + name
    }
}

/// Joins a directory and a file name into a path, with Unix separators.
pub fn join_path(dir: &str, name: &str) -> (r: String)
    ensures
        r@ == joined(dir@, name@),
{
    let nn = name.unicode_len();
    if nn > 0 && name.get_char(0) == '/' {
        return String::from_str(name);
    }
    let nd = dir.unicode_len();
    let mut r = String::from_str(dir);
    if nd > 0 && dir.get_char(nd - 1) != '/' {
        r.append("/");
    }
    r.append(name);
    proof {
        reveal_strlit("/");
    }
    r
}

} // verus!
