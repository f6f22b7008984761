//! Strings and `/`-separated paths, stated over their character sequences.

use vstd::prelude::*;
use vstd::string::StrSliceExecFns;

verus! {

/// The characters of `s`, in order.
pub fn chars_of(s: &str) -> (out: Vec<char>)
    ensures
        out@ == s@,
{
    let mut out: Vec<char> = Vec::new();
    for c in it: s.chars()
        invariant
            out@ == it.seq().take(it.index() as int),
            it.seq() == s@,
    {
        out.push(c);
    }
    out
}

/// Whether two strings hold the same characters.
pub fn str_equal(a: &str, b: &str) -> (same: bool)
    ensures
        same == (a@ == b@),
{
    let x = chars_of(a);
    let y = chars_of(b);
    if x.len() != y.len() {
        return false;
    }
    let mut i: usize = 0;
    while i < x.len()
        invariant
            i <= x.len(),
            x.len() == y.len(),
            x@ == a@,
            y@ == b@,
            forall|j: int| 0 <= j < i ==> x@[j] == y@[j],
        decreases x.len() - i,
    {
        if x[i] != y[i] {
            return false;
        }
        i = i + 1;
    }
    assert(x@ =~= y@);
    true
}

/// Whether `c` occurs in `s`.
pub fn contains_char(s: &str, c: char) -> (found: bool)
    ensures
        found == s@.contains(c),
{
    let x = chars_of(s);
    let mut i: usize = 0;
    while i < x.len()
        invariant
            i <= x.len(),
            x@ == s@,
            forall|j: int| 0 <= j < i ==> x@[j] != c,
        decreases x.len() - i,
    {
        if x[i] == c {
            return true;
        }
        i = i + 1;
    }
    false
}

/// The path without the separators and `.` components that end it.
pub open spec fn without_trailing(path: Seq<char>) -> Seq<char>
    decreases path.len(),
{
    if path.len() >= 1 && path.last() == '/' {
        without_trailing(path.drop_last())
    } else if path.len() >= 2 && path[path.len() - 2] == '/' && path.last() == '.' {
        without_trailing(path.subrange(0, path.len() - 2))
    } else {
        path
    }
}

/// Where the last `/`-separated segment of `path` starts.
pub open spec fn segment_start(path: Seq<char>) -> int
    decreases path.len(),
{
    if path.len() == 0 || path.last() == '/' {
        path.len() as int
    } else {
        segment_start(path.drop_last())
    }
}

/// The name of the file or directory that a path ends in: its last
/// component, once trailing separators and `.` components are dropped.
/// A path that ends in `..`, or that has no component left, names nothing.
pub open spec fn file_name_of(path: Seq<char>) -> Option<Seq<char>> {
    let kept = without_trailing(path);
    let name = kept.subrange(segment_start(kept), kept.len() as int);
    if name.len() == 0 || name == seq!['.'] || name == seq!['.', '.'] {
        None
    } else {
        Some(name)
    }
}

/// The position of the last `.` in a file name, or -1.
pub open spec fn last_dot(name: Seq<char>) -> int
    decreases name.len(),
{
    if name.len() == 0 {
        -1
    } else if name.last() == '.' {
        name.len() - 1
    } else {
        last_dot(name.drop_last())
    }
}

/// A file name without its extension: the part before the last `.`, or the
/// whole name where it has no `.` beyond a leading one.
pub open spec fn name_stem(name: Seq<char>) -> Seq<char> {
    let dot = last_dot(name);
    if dot <= 0 {
        name
    } else {
        name.subrange(0, dot)
    }
}

/// A file name's extension: the part after the last `.`, where the name has
/// a `.` beyond a leading one.
pub open spec fn name_extension(name: Seq<char>) -> Option<Seq<char>> {
    let dot = last_dot(name);
    if dot <= 0 {
        None
    } else {
        Some(name.subrange(dot + 1, name.len() as int))
    }
}

/// The stem of the file that a path names.
pub open spec fn file_stem_of(path: Seq<char>) -> Option<Seq<char>> {
    match file_name_of(path) {
        Some(name) => Some(name_stem(name)),
        None => None,
    }
}

/// The extension of the file that a path names.
pub open spec fn extension_of(path: Seq<char>) -> Option<Seq<char>> {
    match file_name_of(path) {
        Some(name) => name_extension(name),
        None => None,
    }
}

/// The length of `without_trailing` of the first `len` characters of `path`.
fn trimmed_len(path: &Vec<char>) -> (end: usize)
    ensures
        end <= path.len(),
        without_trailing(path@) == path@.take(end as int),
{
    let mut end: usize = path.len();
    assert(path@.take(end as int) =~= path@);
    loop
        invariant
            end <= path.len(),
            without_trailing(path@) == without_trailing(path@.take(end as int)),
        ensures
            end <= path.len(),
            without_trailing(path@) == path@.take(end as int),
        decreases end,
    {
        let ghost cur = path@.take(end as int);
        if end >= 1 && path[end - 1] == '/' {
            assert(cur.drop_last() =~= path@.take(end - 1));
            end = end - 1;
        } else if end >= 2 && path[end - 2] == '/' && path[end - 1] == '.' {
            assert(cur.subrange(0, cur.len() - 2) =~= path@.take(end - 2));
            end = end - 2;
        } else {
            break;
        }
    }
    end
}

/// Where the last segment of the first `end` characters of `path` starts.
fn segment_start_in(path: &Vec<char>, end: usize) -> (start: usize)
    requires
        end <= path.len(),
    ensures
        start <= end,
        start == segment_start(path@.take(end as int)),
{
    let mut start: usize = end;
    let ghost whole = path@.take(end as int);
    assert(whole.subrange(0, end as int) =~= whole);
    loop
        invariant
            start <= end <= path.len(),
            whole == path@.take(end as int),
            segment_start(whole) == segment_start(whole.subrange(0, start as int)),
        ensures
            start <= end,
            start == segment_start(whole),
        decreases start,
    {
        let ghost cur = whole.subrange(0, start as int);
        if start == 0 || path[start - 1] == '/' {
            break;
        }
        assert(cur.drop_last() =~= whole.subrange(0, start - 1));
        start = start - 1;
    }
    start
}

/// The name of the file or directory that `path` ends in.
pub fn file_name(path: &str) -> (name: Option<&str>)
    ensures
        name is Some == file_name_of(path@) is Some,
        name is Some ==> name->0@ == file_name_of(path@)->0,
{
    let chars = chars_of(path);
    let end = trimmed_len(&chars);
    let start = segment_start_in(&chars, end);
    let ghost kept = without_trailing(path@);
    let ghost name = kept.subrange(segment_start(kept), kept.len() as int);
    assert(name =~= path@.subrange(start as int, end as int));
    let len = end - start;
    if len == 0 {
        return None;
    }
    if len == 1 && chars[start] == '.' {
        assert(name =~= seq!['.']);
        return None;
    }
    if len == 2 && chars[start] == '.' && chars[start + 1] == '.' {
        assert(name =~= seq!['.', '.']);
        return None;
    }
    assert(name != seq!['.']) by {
        if name == seq!['.'] {
            assert(name.len() == 1);
            assert(name[0] == '.');
        }
    }
    assert(name != seq!['.', '.']) by {
        if name == seq!['.', '.'] {
            assert(name.len() == 2);
            assert(name[0] == '.');
            assert(name[1] == '.');
        }
    }
    Some(path.substring_char(start, end))
}

/// The position of the last `.` among the characters of `name`, if any.
fn last_dot_in(name: &Vec<char>) -> (dot: Option<usize>)
    ensures
        match dot {
            Some(d) => d < name.len() && d == last_dot(name@),
            None => last_dot(name@) == -1,
        },
{
    let mut end: usize = name.len();
    assert(name@.take(end as int) =~= name@);
    while end > 0
        invariant
            end <= name.len(),
            last_dot(name@) == last_dot(name@.take(end as int)),
        decreases end,
    {
        let ghost cur = name@.take(end as int);
        if name[end - 1] == '.' {
            return Some(end - 1);
        }
        assert(cur.drop_last() =~= name@.take(end - 1));
        end = end - 1;
    }
    None
}

/// The stem of a file name.
pub fn stem_of_name(name: &str) -> (stem: &str)
    ensures
        stem@ == name_stem(name@),
{
    let chars = chars_of(name);
    match last_dot_in(&chars) {
        Some(dot) if dot > 0 => name.substring_char(0, dot),
        _ => name,
    }
}

/// The extension of a file name, if it has one.
pub fn extension_of_name(name: &str) -> (extension: Option<&str>)
    ensures
        extension is Some == name_extension(name@) is Some,
        extension is Some ==> extension->0@ == name_extension(name@)->0,
{
    let chars = chars_of(name);
    match last_dot_in(&chars) {
        Some(dot) if dot > 0 => Some(name.substring_char(dot + 1, chars.len())),
        _ => None,
    }
}

/// The stem of the file that `path` names, if it names one.
pub fn file_stem(path: &str) -> (stem: Option<&str>)
    ensures
        stem is Some == file_stem_of(path@) is Some,
        stem is Some ==> stem->0@ == file_stem_of(path@)->0,
{
    match file_name(path) {
        Some(name) => Some(stem_of_name(name)),
        None => None,
    }
}

/// The extension of the file that `path` names, if it has one.
pub fn extension(path: &str) -> (ext: Option<&str>)
    ensures
        ext is Some == extension_of(path@) is Some,
        ext is Some ==> ext->0@ == extension_of(path@)->0,
{
    match file_name(path) {
        Some(name) => extension_of_name(name),
        None => None,
    }
}

/// Whether a text can name a file of a directory: it is not empty, holds
/// no separator, and is no dot component.
pub open spec fn is_safe_stem(stem: Seq<char>) -> bool {
    &&& stem.len() > 0
    &&& !stem.contains('/')
    &&& !stem.contains('\\')
    &&& stem != seq!['.']
    &&& stem != seq!['.', '.']
}

/// Whether `stem` can name a file of a directory.
pub fn stem_is_safe(stem: &str) -> (safe: bool)
    ensures
        safe == is_safe_stem(stem@),
{
    let chars = chars_of(stem);
    if chars.len() == 0 {
        return false;
    }
    if contains_char(stem, '/') || contains_char(stem, '\\') {
        return false;
    }
    if chars.len() == 1 && chars[0] == '.' {
        assert(stem@ =~= seq!['.']);
        return false;
    }
    if chars.len() == 2 && chars[0] == '.' && chars[1] == '.' {
        assert(stem@ =~= seq!['.', '.']);
        return false;
    }
    assert(stem@ != seq!['.']) by {
        if stem@ == seq!['.'] {
            assert(stem@.len() == 1);
            assert(stem@[0] == '.');
        }
    }
    assert(stem@ != seq!['.', '.']) by {
        if stem@ == seq!['.', '.'] {
            assert(stem@.len() == 2);
            assert(stem@[0] == '.');
            assert(stem@[1] == '.');
        }
    }
    true
}

/// The character sequences of a list of strings.
pub open spec fn views(strings: Seq<String>) -> Seq<Seq<char>> {
    strings.map_values(|s: String| s@)
}

/// A file named `stem.extension` in a directory is read back as such: the
/// path's file name is that name, its stem `stem`, its extension `extension`.
pub proof fn lemma_file_in_directory(
    directory: Seq<char>,
    stem: Seq<char>,
    extension: Seq<char>,
)
    requires
        stem.len() > 0,
        !stem.contains('/'),
        extension.len() > 0,
        !extension.contains('/'),
        !extension.contains('.'),
    ensures
        file_name_of(directory + seq!['/'] + (stem + seq!['.'] + extension)) == Some(
            stem + seq!['.'] + extension,
        ),
        file_stem_of(directory + seq!['/'] + (stem + seq!['.'] + extension)) == Some(stem),
        extension_of(directory + seq!['/'] + (stem + seq!['.'] + extension)) == Some(extension),
{
    let name = stem + seq!['.'] + extension;
    let path = directory + seq!['/'] + name;
    assert(name.len() >= 2);
    assert(!name.contains('/')) by {
        if name.contains('/') {
            let k = choose|k: int| 0 <= k < name.len() && name[k] == '/';
            if k < stem.len() {
                assert(stem[k] == '/');
            } else if k > stem.len() {
                assert(extension[k - stem.len() - 1] == '/');
            }
        }
    }
    // the name ends the path, and nothing is trimmed from it
    assert(without_trailing(path) == path) by {
        assert(path.last() == name.last());
        if path.last() == '/' {
            assert(name[name.len() - 1] == '/');
        }
        assert(path[path.len() - 2] == name[name.len() - 2]);
        if path[path.len() - 2] == '/' {
            assert(name[name.len() - 2] == '/');
        }
    }
    lemma_segment_after_separator(directory + seq!['/'], name);
    assert(path =~= (directory + seq!['/']) + name);
    assert(path.subrange(directory.len() as int + 1, path.len() as int) =~= name);
    assert(name.len() >= 3);
    assert(seq!['.', '.'].len() == 2);
    assert(seq!['.'].len() == 1);
    lemma_last_dot_before_plain(stem, extension);
    assert(name.subrange(0, stem.len() as int) =~= stem);
    assert(name.subrange(stem.len() as int + 1, name.len() as int) =~= extension);
}

/// The last segment of a path that ends in a separator-free name, after a
/// separator, starts where the name starts.
proof fn lemma_segment_after_separator(front: Seq<char>, name: Seq<char>)
    requires
        front.len() > 0,
        front.last() == '/',
        !name.contains('/'),
    ensures
        segment_start(front + name) == front.len(),
    decreases name.len(),
{
    let path = front + name;
    if name.len() == 0 {
        assert(path =~= front);
    } else {
        assert(path.last() == name.last());
        if path.last() == '/' {
            assert(name[name.len() - 1] == '/');
        }
        assert(path.drop_last() =~= front + name.drop_last());
        assert(!name.drop_last().contains('/')) by {
            if name.drop_last().contains('/') {
                let k = choose|k: int| 0 <= k < name.drop_last().len() && name.drop_last()[k] == '/';
                assert(name[k] == '/');
            }
        }
        lemma_segment_after_separator(front, name.drop_last());
    }
}

/// In `stem.extension`, with no dot in the extension, the last dot is the
/// one between the two.
proof fn lemma_last_dot_before_plain(stem: Seq<char>, extension: Seq<char>)
    requires
        !extension.contains('.'),
    ensures
        last_dot(stem + seq!['.'] + extension) == stem.len(),
    decreases extension.len(),
{
    let name = stem + seq!['.'] + extension;
    if extension.len() == 0 {
        assert(name.last() == '.');
    } else {
        assert(name.last() == extension.last());
        if name.last() == '.' {
            assert(extension[extension.len() - 1] == '.');
        }
        assert(name.drop_last() =~= stem + seq!['.'] + extension.drop_last());
        assert(!extension.drop_last().contains('.')) by {
            if extension.drop_last().contains('.') {
                let k = choose|k: int|
                    0 <= k < extension.drop_last().len() && extension.drop_last()[k] == '.';
                assert(extension[k] == '.');
            }
        }
        lemma_last_dot_before_plain(stem, extension.drop_last());
    }
}

/// A copy of a list of strings.
pub fn clone_strings(strings: &Vec<String>) -> (copy: Vec<String>)
    ensures
        views(copy@) == views(strings@),
{
    let mut copy: Vec<String> = Vec::new();
    let mut i: usize = 0;
    while i < strings.len()
        invariant
            i <= strings.len(),
            views(copy@) == views(strings@.take(i as int)),
        decreases strings.len() - i,
    {
        let ghost before = copy@;
        copy.push(strings[i].clone());
        assert(views(copy@) =~= views(before).push(strings@[i as int]@));
        assert(views(strings@.take(i + 1)) =~= views(strings@.take(i as int)).push(
            strings@[i as int]@,
        ));
        i = i + 1;
    }
    assert(strings@.take(strings@.len() as int) =~= strings@);
    copy
}

/// A text in lower case, as `str::to_lowercase` gives it.
pub uninterp spec fn lowercase_of(text: Seq<char>) -> Seq<char>;

/// Calls `str::to_lowercase`: the lower case of a text depends on the text
/// alone.
#[verifier::external_body]
pub(crate) fn lowercase(text: &str) -> (lower: String)
    ensures
        lower@ == lowercase_of(text@),
{
    text.to_lowercase()
}

} // verus!
