//! Paths as text: the final component of a path, its stem and its extension.
//!
//! A path is a string whose components are separated by `/`, read by the
//! rules of `std::path` for such paths: separators that follow each other
//! count as one, a component `.` counts only at the very start, and what is
//! left at the end after separators and `.` components is the final
//! component. A final component `..` is no file name.

use vstd::prelude::*;
use crate::text::{chars_of, push_text, string_of};

verus! {

/// The index of the last `c` in `s`, or -1 if there is none.
pub open spec fn last_index(s: Seq<char>, c: char) -> int
    decreases s.len(),
{
    if s.len() == 0 {
        -1
    } else if s.last() == c {
        s.len() - 1
    } else {
        last_index(s.drop_last(), c)
    }
}

/// What [`last_index`] finds is the last occurrence; -1 means that `c` does
/// not occur.
pub proof fn lemma_last_index(s: Seq<char>, c: char)
    ensures
        -1 <= last_index(s, c) < s.len(),
        last_index(s, c) >= 0 ==> s[last_index(s, c)] == c,
        forall|j: int| last_index(s, c) < j < s.len() ==> s[j] != c,
    decreases s.len(),
{
    if s.len() > 0 && s.last() != c {
        let shorter = s.drop_last();
        lemma_last_index(shorter, c);
        assert forall|j: int| last_index(s, c) < j < s.len() implies s[j] != c by {
            if j < shorter.len() {
                assert(s[j] == shorter[j]);
            }
        }
    }
}

/// The number of characters at the start of a path that stand before its
/// components: one for a leading `/`, one for a leading `.` that is a
/// component of its own, else none.
pub open spec fn body_start(path: Seq<char>) -> int {
    if path.len() > 0 && path[0] == '/' {
        1
    } else if path.len() > 0 && path[0] == '.' && (path.len() == 1 || path[1] == '/') {
        1
    } else {
        0
    }
}

/// The length of a path without what does not count at its end: trailing
/// separators and trailing components `.`. Nothing is taken from the first
/// `floor` characters.
pub open spec fn trimmed_len(path: Seq<char>, floor: int) -> int
    decreases path.len(),
{
    if path.len() == 0 || path.len() <= floor {
        path.len() as int
    } else if path.last() == '/' {
        trimmed_len(path.drop_last(), floor)
    } else if path.last() == '.' && (path.len() - 1 == floor || path[path.len() - 2] == '/') {
        trimmed_len(path.drop_last(), floor)
    } else {
        path.len() as int
    }
}

/// Where the final component of a path ends.
pub open spec fn name_end(path: Seq<char>) -> int {
    trimmed_len(path, 0)
}

/// Where the final component of a path starts: after the last `/` before
/// its end.
pub open spec fn name_start(path: Seq<char>) -> int {
    last_index(path.take(name_end(path)), '/') + 1
}

/// The file name of a path: its final component, which is what stands
/// between the last `/` and the end once trailing separators and trailing
/// components `.` are set aside. A path without components (the empty path,
/// `/`, `.`) and a path that ends in `..` have no file name.
pub open spec fn file_name_of(path: Seq<char>) -> Option<Seq<char>> {
    let name = path.subrange(name_start(path), name_end(path));
    if name_end(path) == 0 || name == seq!['.', '.'] {
        None
    } else {
        Some(name)
    }
}

/// Where the extension of a file name starts, or `None` if it has none: the
/// place after the last `.`, unless the name has no `.`, or its only `.` is
/// its first character, or the name is `..`.
pub open spec fn extension_start(name: Seq<char>) -> Option<int> {
    let dot = last_index(name, '.');
    if dot <= 0 || name == seq!['.', '.'] {
        None
    } else {
        Some(dot + 1)
    }
}

/// The extension of a path: that of its file name, without the `.`.
pub open spec fn extension_of(path: Seq<char>) -> Option<Seq<char>> {
    match file_name_of(path) {
        Some(name) => match extension_start(name) {
            Some(start) => Some(name.subrange(start, name.len() as int)),
            None => None,
        },
        None => None,
    }
}

/// The stem of a path: its file name without the extension and its `.`.
pub open spec fn stem_of(path: Seq<char>) -> Option<Seq<char>> {
    match file_name_of(path) {
        Some(name) => match extension_start(name) {
            Some(start) => Some(name.subrange(0, start - 1)),
            None => Some(name),
        },
        None => None,
    }
}

/// The length of the parent of a path that has a file name: what stands
/// before the file name, without the separators and components `.` at its
/// end.
pub open spec fn parent_len(path: Seq<char>) -> int {
    trimmed_len(path.take(name_start(path)), body_start(path))
}

/// A directory path followed by a name that holds no `/`, with one `/`
/// between them where the directory does not end in one.
pub open spec fn joined(dir: Seq<char>, name: Seq<char>) -> Seq<char> {
    if dir.len() == 0 {
        name
    } else if dir.last() == '/' {
        dir + name
    } else {
        dir + "/"@ + name
    }
}

/// The path with its file name replaced: the parent joined with the new
/// name. A path without a file name is taken whole as the directory.
pub open spec fn with_file_name_of(path: Seq<char>, name: Seq<char>) -> Seq<char> {
    match file_name_of(path) {
        Some(_) => joined(path.take(parent_len(path)), name),
        None => joined(path, name),
    }
}

/// Trimming takes from the end alone and leaves a component at the end that
/// counts: not a separator, and not a component `.`.
pub proof fn lemma_trimmed_len(path: Seq<char>, floor: int)
    requires
        0 <= floor,
    ensures
        0 <= trimmed_len(path, floor) <= path.len(),
        path.len() >= floor ==> trimmed_len(path, floor) >= floor,
        trimmed_len(path, floor) > floor ==> path[trimmed_len(path, floor) - 1] != '/',
    decreases path.len(),
{
    if path.len() == 0 || path.len() <= floor {
    } else if path.last() == '/' || (path.last() == '.' && (path.len() - 1 == floor
        || path[path.len() - 2] == '/')) {
        lemma_trimmed_len(path.drop_last(), floor);
    }
}

/// A file name holds at least one character and no `/`.
pub proof fn lemma_file_name(path: Seq<char>)
    ensures
        0 <= name_start(path) <= name_end(path) <= path.len(),
        file_name_of(path) is Some ==> file_name_of(path)->Some_0.len() > 0 && !file_name_of(
            path,
        )->Some_0.contains('/'),
{
    let end = name_end(path);
    lemma_trimmed_len(path, 0);
    let head = path.take(end);
    lemma_last_index(head, '/');
    if file_name_of(path) is Some {
        let name = file_name_of(path)->Some_0;
        assert(head[end - 1] == path[end - 1]);
        assert forall|i: int| 0 <= i < name.len() implies name[i] != '/' by {
            assert(name[i] == head[name_start(path) + i]);
        }
    }
}

/// A separator at the end of a path changes nothing of its file name, and
/// so nothing of its extension and its stem.
pub proof fn lemma_trailing_separator(path: Seq<char>)
    ensures
        file_name_of(path.push('/')) == file_name_of(path),
        extension_of(path.push('/')) == extension_of(path),
        stem_of(path.push('/')) == stem_of(path),
{
    let longer = path.push('/');
    let end = name_end(path);
    lemma_trimmed_len(path, 0);
    lemma_file_name(path);
    assert(longer.drop_last() =~= path);
    assert(name_end(longer) == end);
    assert(longer.take(end) =~= path.take(end));
    assert(longer.subrange(name_start(path), end) =~= path.subrange(name_start(path), end));
}

/// A component `.` at the end of a path changes nothing of its file name,
/// and so nothing of its extension and its stem.
pub proof fn lemma_trailing_dot(path: Seq<char>)
    ensures
        file_name_of(path.push('/').push('.')) == file_name_of(path),
        extension_of(path.push('/').push('.')) == extension_of(path),
        stem_of(path.push('/').push('.')) == stem_of(path),
{
    let longer = path.push('/').push('.');
    let end = name_end(path);
    lemma_trimmed_len(path, 0);
    lemma_file_name(path);
    lemma_trailing_separator(path);
    assert(longer.drop_last() =~= path.push('/'));
    assert(longer[longer.len() - 2] == '/');
    assert(path.push('/').drop_last() =~= path);
    assert(name_end(longer) == end);
    assert(longer.take(end) =~= path.take(end));
    assert(longer.subrange(name_start(path), end) =~= path.subrange(name_start(path), end));
}

/// The last `/` of a directory part that ends in `/`, followed by a name
/// without `/`, is the one at the end of the directory part.
proof fn lemma_last_separator(dir: Seq<char>, name: Seq<char>)
    requires
        dir.len() == 0 || dir.last() == '/',
        !name.contains('/'),
    ensures
        last_index(dir + name, '/') == dir.len() - 1,
{
    let whole = dir + name;
    lemma_last_index(whole, '/');
    let found = last_index(whole, '/');
    if found >= dir.len() {
        assert(whole[found] == name[found - dir.len()]);
        assert(name.contains(name[found - dir.len()]));
    }
    if dir.len() > 0 {
        assert(whole[dir.len() - 1] == dir.last());
    }
}

/// A path that ends in the component `..` has no file name.
pub proof fn lemma_parent_component_is_no_name(dir: Seq<char>)
    requires
        dir.len() == 0 || dir.last() == '/',
    ensures
        file_name_of(dir + seq!['.', '.']) is None,
        extension_of(dir + seq!['.', '.']) is None,
        stem_of(dir + seq!['.', '.']) is None,
{
    let dots = seq!['.', '.'];
    let path = dir + dots;
    assert(path.last() == '.');
    assert(path[path.len() - 2] == '.');
    assert(name_end(path) == path.len());
    assert(path.take(path.len() as int) =~= path);
    assert(!dots.contains('/')) by {
        assert forall|i: int| 0 <= i < dots.len() implies dots[i] != '/' by {}
    }
    lemma_last_separator(dir, dots);
    assert(path.subrange(dir.len() as int, path.len() as int) =~= dots);
}

/// A name that holds no `/` and is neither `.` nor `..`, alone or after a
/// directory part that ends in `/`, is the file name of the path.
pub proof fn lemma_file_name_of_plain_name(dir: Seq<char>, name: Seq<char>)
    requires
        dir.len() == 0 || dir.last() == '/',
        name.len() > 0,
        !name.contains('/'),
        name != seq!['.'],
        name != seq!['.', '.'],
    ensures
        file_name_of(dir + name) == Some(name),
{
    let path = dir + name;
    assert(path.last() == name.last());
    assert(name.contains(name.last()));
    if name.len() >= 2 {
        assert(path[path.len() - 2] == name[name.len() - 2]);
        assert(name.contains(name[name.len() - 2]));
    } else {
        assert(name[0] != '.') by {
            if name[0] == '.' {
                assert(name =~= seq!['.']);
            }
        }
    }
    assert(name_end(path) == path.len());
    assert(path.take(path.len() as int) =~= path);
    lemma_last_separator(dir, name);
    assert(path.subrange(dir.len() as int, path.len() as int) =~= name);
}

/// The stem and the extension of a path hold no `/`, and the stem holds at
/// least one character.
pub proof fn lemma_stem_and_extension(path: Seq<char>)
    ensures
        stem_of(path) is Some ==> stem_of(path)->Some_0.len() > 0 && !stem_of(
            path,
        )->Some_0.contains('/'),
        extension_of(path) is Some ==> !extension_of(path)->Some_0.contains('/'),
        stem_of(path) is Some <==> file_name_of(path) is Some,
{
    lemma_file_name(path);
    if file_name_of(path) is Some {
        let name = file_name_of(path)->Some_0;
        lemma_last_index(name, '.');
        assert forall|part: Seq<char>, from: int, to: int|
            0 <= from <= to <= name.len() && part == name.subrange(from, to) implies !part.contains(
            '/',
        ) by {
            assert forall|i: int| 0 <= i < part.len() implies part[i] != '/' by {
                assert(name.contains(name[from + i]));
            }
        }
        match extension_start(name) {
            Some(start) => {
                assert(stem_of(path)->Some_0 == name.subrange(0, start - 1));
                assert(extension_of(path)->Some_0 == name.subrange(start, name.len() as int));
            },
            None => {},
        }
    }
}

/// Whether a name can stand as the file name of a path: it holds at least
/// one character and no `/`, and is neither `.` nor `..`.
pub open spec fn is_plain_name(name: Seq<char>) -> bool {
    name.len() > 0 && !name.contains('/') && name != seq!['.'] && name != seq!['.', '.']
}

/// After its file name was replaced, a path has the new name as its file
/// name.
pub proof fn lemma_replaced_name(path: Seq<char>, name: Seq<char>)
    requires
        is_plain_name(name),
    ensures
        file_name_of(with_file_name_of(path, name)) == Some(name),
{
    let base = match file_name_of(path) {
        Some(_) => path.take(parent_len(path)),
        None => path,
    };
    if base.len() == 0 {
        lemma_file_name_of_plain_name(Seq::empty(), name);
        assert(Seq::<char>::empty() + name =~= name);
    } else if base.last() == '/' {
        lemma_file_name_of_plain_name(base, name);
    } else {
        let dir = base + "/"@;
        reveal_strlit("/");
        assert(dir.last() == '/');
        lemma_file_name_of_plain_name(dir, name);
    }
}

/// A separator at the end of a path that has a file name changes nothing
/// of the path with its file name replaced.
pub proof fn lemma_replace_ignores_trailing_separator(path: Seq<char>, name: Seq<char>)
    requires
        file_name_of(path) is Some,
    ensures
        with_file_name_of(path.push('/'), name) == with_file_name_of(path, name),
{
    let longer = path.push('/');
    lemma_trailing_separator(path);
    lemma_trimmed_len(path, 0);
    lemma_file_name(path);
    let end = name_end(path);
    assert(longer.drop_last() =~= path);
    assert(name_end(longer) == end);
    assert(longer.take(end) =~= path.take(end));
    let start = name_start(path);
    assert(longer.take(start) =~= path.take(start));
    if path.len() == 1 {
        assert(path.last() == path[0]);
        assert(trimmed_len(path.drop_last(), 0) == 0);
        assert(path[0] != '/' && path[0] != '.');
    }
    assert(body_start(longer) == body_start(path));
    assert(longer.take(parent_len(path)) =~= path.take(parent_len(path))) by {
        lemma_trimmed_len(path.take(start), body_start(path));
    }
}

/// Computes [`last_index`] on the first `end` characters.
fn find_last(s: &Vec<char>, end: usize, c: char) -> (r: Option<usize>)
    requires
        end <= s.len(),
    ensures
        match r {
            Some(i) => i == last_index(s@.subrange(0, end as int), c) && i < end,
            None => last_index(s@.subrange(0, end as int), c) == -1,
        },
{
    let mut i: usize = end;
    while i > 0
        invariant
            i <= end <= s.len(),
            last_index(s@.subrange(0, end as int), c) == last_index(s@.subrange(0, i as int), c),
        decreases i,
    {
        let ghost prefix = s@.subrange(0, i as int);
        assert(prefix.last() == s@[i - 1]);
        assert(prefix.drop_last() =~= s@.subrange(0, i - 1));
        if s[i - 1] == c {
            return Some(i - 1);
        }
        i = i - 1;
    }
    assert(s@.subrange(0, 0).len() == 0);
    None
}

/// Computes [`trimmed_len`] on the first `len` characters.
fn trim_end(s: &Vec<char>, len: usize, floor: usize) -> (t: usize)
    requires
        len <= s.len(),
    ensures
        t == trimmed_len(s@.take(len as int), floor as int),
        t <= len,
{
    let mut t: usize = len;
    loop
        invariant_except_break
            t <= len <= s.len(),
            trimmed_len(s@.take(len as int), floor as int) == trimmed_len(
                s@.take(t as int),
                floor as int,
            ),
        ensures
            t <= len,
            t == trimmed_len(s@.take(len as int), floor as int),
        decreases t,
    {
        let ghost head = s@.take(t as int);
        if t == 0 || t <= floor {
            break;
        }
        assert(head.last() == s@[t - 1]);
        assert(head.drop_last() =~= s@.take(t - 1));
        let c: char = s[t - 1];
        if c == '/' {
            t = t - 1;
        } else if c == '.' && (t - 1 == floor || s[t - 2] == '/') {
            proof {
                if t - 1 != floor {
                    assert(head[t - 2] == s@[t - 2]);
                }
            }
            t = t - 1;
        } else {
            proof {
                if t - 1 != floor {
                    assert(head[t - 2] == s@[t - 2]);
                }
            }
            break;
        }
    }
    t
}

/// Where the file name of the path starts and ends, if it has one.
fn name_bounds(path: &Vec<char>) -> (r: Option<(usize, usize)>)
    ensures
        match r {
            Some((start, end)) => file_name_of(path@) == Some(
                path@.subrange(start as int, end as int),
            ) && start == name_start(path@) && end == name_end(path@) && start < end
                && end <= path.len(),
            None => file_name_of(path@) is None,
        },
{
    proof {
        assert(path@.take(path.len() as int) =~= path@);
        lemma_file_name(path@);
    }
    let end: usize = trim_end(path, path.len(), 0);
    if end == 0 {
        return None;
    }
    assert(path@.subrange(0, end as int) =~= path@.take(end as int));
    let start: usize = match find_last(path, end, '/') {
        Some(i) => i + 1,
        None => 0,
    };
    proof {
        lemma_trimmed_len(path@, 0);
        lemma_last_index(path@.take(end as int), '/');
        assert(path@.take(end as int)[end - 1] == path@[end - 1]);
    }
    let ghost name = path@.subrange(start as int, end as int);
    let is_dots: bool = end - start == 2 && path[start] == '.' && path[start + 1] == '.';
    proof {
        if is_dots {
            assert(name =~= seq!['.', '.']);
        } else if name.len() == 2 {
            assert(name[0] == path@[start as int] && name[1] == path@[start + 1]);
            assert(seq!['.', '.'][0] == '.' && seq!['.', '.'][1] == '.');
        }
    }
    if is_dots {
        None
    } else {
        Some((start, end))
    }
}

/// The characters of `s` from `from` up to `to`.
pub fn slice_chars(s: &Vec<char>, from: usize, to: usize) -> (r: Vec<char>)
    requires
        from <= to <= s.len(),
    ensures
        r@ == s@.subrange(from as int, to as int),
{
    let mut r: Vec<char> = Vec::new();
    let mut i: usize = from;
    while i < to
        invariant
            from <= i <= to <= s.len(),
            r@ == s@.subrange(from as int, i as int),
        decreases to - i,
    {
        r.push(s[i]);
        assert(s@.subrange(from as int, i + 1) =~= s@.subrange(from as int, i as int).push(
            s@[i as int],
        ));
        i = i + 1;
    }
    r
}

/// Where the extension of the name starts, if it has one.
fn find_extension(name: &Vec<char>) -> (r: Option<usize>)
    ensures
        match r {
            Some(start) => extension_start(name@) == Some(start as int) && 1 <= start <= name.len(),
            None => extension_start(name@) is None,
        },
{
    proof {
        assert(name@.subrange(0, name.len() as int) =~= name@);
        lemma_last_index(name@, '.');
    }
    let is_dots: bool = name.len() == 2 && name[0] == '.' && name[1] == '.';
    proof {
        if is_dots {
            assert(name@ =~= seq!['.', '.']);
        }
    }
    match find_last(name, name.len(), '.') {
        Some(dot) => if dot == 0 || is_dots {
            None
        } else {
            Some(dot + 1)
        },
        None => None,
    }
}

/// The characters of the file name of a path, if it has one.
fn name_chars(path: &str) -> (r: Option<Vec<char>>)
    ensures
        match r {
            Some(name) => file_name_of(path@) == Some(name@),
            None => file_name_of(path@) is None,
        },
{
    let chars = chars_of(path);
    match name_bounds(&chars) {
        Some((start, end)) => Some(slice_chars(&chars, start, end)),
        None => None,
    }
}

/// The file name of a path, if it has one.
pub fn file_name(path: &str) -> (r: Option<String>)
    ensures
        match r {
            Some(name) => file_name_of(path@) == Some(name@),
            None => file_name_of(path@) is None,
        },
{
    match name_chars(path) {
        Some(name) => Some(string_of(&name)),
        None => None,
    }
}

/// The extension of a path, as it is written.
pub fn extension(path: &str) -> (ext: Option<String>)
    ensures
        match ext {
            Some(e) => extension_of(path@) == Some(e@),
            None => extension_of(path@) is None,
        },
{
    match name_chars(path) {
        Some(name) => match find_extension(&name) {
            Some(from) => Some(string_of(&slice_chars(&name, from, name.len()))),
            None => None,
        },
        None => None,
    }
}

/// The stem of a path.
pub fn stem(path: &str) -> (r: Option<String>)
    ensures
        match r {
            Some(s) => stem_of(path@) == Some(s@),
            None => stem_of(path@) is None,
        },
{
    match name_chars(path) {
        Some(name) => match find_extension(&name) {
            Some(from) => Some(string_of(&slice_chars(&name, 0, from - 1))),
            None => Some(string_of(&name)),
        },
        None => None,
    }
}

/// Joins a directory path and a name that holds no `/`.
pub fn join(dir: &str, name: &str) -> (path: String)
    ensures
        path@ == joined(dir@, name@),
{
    let chars = chars_of(dir);
    let mut path = String::from_str(dir);
    if chars.len() == 0 {
        assert(path@ + name@ =~= name@);
    } else if chars[chars.len() - 1] != '/' {
        push_text(&mut path, "/");
    }
    push_text(&mut path, name);
    path
}

/// The path with its file name replaced by `name`, which holds no `/`.
pub fn with_file_name(path: &str, name: &str) -> (r: String)
    ensures
        r@ == with_file_name_of(path@, name@),
{
    let chars = chars_of(path);
    match name_bounds(&chars) {
        Some((start, _)) => {
            let floor: usize = if chars.len() > 0 && chars[0] == '/' {
                1
            } else if chars.len() > 0 && chars[0] == '.' && (chars.len() == 1 || chars[1] == '/') {
                1
            } else {
                0
            };
            let keep: usize = trim_end(&chars, start, floor);
            assert(chars@.subrange(0, keep as int) =~= chars@.take(start as int).take(keep as int));
            assert(chars@.take(start as int).take(keep as int) =~= chars@.take(keep as int));
            let dir = string_of(&slice_chars(&chars, 0, keep));
            join(dir.as_str(), name)
        },
        None => join(path, name),
    }
}

} // verus!
