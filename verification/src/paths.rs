//! Paths as text, under the separator rules of the system they are for.

use vstd::prelude::*;
use vstd::string::*;

use crate::text;

verus! {

/// The system whose path and capture rules apply.
#[derive(Debug, Clone, Copy, PartialEq, Eq, Structural)]
pub enum HostSystem {
    Windows,
    Other,
}

/// `std::path::is_separator` tells whether a character separates path components on
/// the system that the program runs on. A slash always does; for other characters it
/// depends on that system and is not stated.
pub assume_specification[ std::path::is_separator ](c: char) -> (r: bool)
    ensures
        c == '/' ==> r,
;

impl HostSystem {
    /// Windows where a backslash separates path components, another system where not.
    pub open spec fn told_by(backslash_separates: bool) -> HostSystem {
        if backslash_separates {
            HostSystem::Windows
        } else {
            HostSystem::Other
        }
    }

    /// Windows where a backslash separates path components, another system where not.
    pub fn from_backslash(separates: bool) -> (r: Self)
        ensures
            r == HostSystem::told_by(separates),
    {
        if separates {
            HostSystem::Windows
        } else {
            HostSystem::Other
        }
    }

    /// The system that the program runs on, as `std::path::is_separator` tells of a
    /// backslash: the one where it separates path components is Windows.
    pub fn current() -> (r: Self)
        ensures
            exists|answer: bool|
                #[trigger] call_ensures(std::path::is_separator, ('\\',), answer) && r
                    == HostSystem::told_by(answer),
    {
        let separates = std::path::is_separator;
        HostSystem::from_backslash(separates('\\'))
    }
}

/// A character that ends a path component.
pub open spec fn is_separator(host: HostSystem, c: char) -> bool {
    c == '/' || host == HostSystem::Windows && c == '\\'
}

/// The separator that is written between two components.
pub open spec fn separator(host: HostSystem) -> char {
    match host {
        HostSystem::Windows => '\\',
        HostSystem::Other => '/',
    }
}

/// An ASCII letter.
pub open spec fn is_letter(c: char) -> bool {
    'a' <= c <= 'z' || 'A' <= c <= 'Z'
}

/// `path` begins with a drive, such as `C:`.
pub open spec fn has_drive(host: HostSystem, path: Seq<char>) -> bool {
    host == HostSystem::Windows && path.len() >= 2 && is_letter(path[0]) && path[1] == ':'
}

/// `path` is a Windows path that is taken as written: only a backslash separates its
/// components, and `.` is one of them.
pub open spec fn is_verbatim(host: HostSystem, path: Seq<char>) -> bool {
    host == HostSystem::Windows && path.len() >= 4 && path[0] == '\\' && path[1] == '\\'
        && path[2] == '?' && path[3] == '\\'
}

/// A character that ends a component of a path, verbatim or not.
pub open spec fn cuts(host: HostSystem, verbatim: bool, c: char) -> bool {
    if verbatim {
        c == '\\'
    } else {
        is_separator(host, c)
    }
}

/// Where the component ends that begins at `from`.
pub open spec fn component_end(
    host: HostSystem,
    verbatim: bool,
    path: Seq<char>,
    from: int,
) -> int
    decreases path.len() - from,
{
    if from >= path.len() || cuts(host, verbatim, path[from]) {
        from
    } else {
        component_end(host, verbatim, path, from + 1)
    }
}

/// How much of `path` names the volume it lies on. On Windows this is a drive such as
/// `C:`, a share such as `\\server\share`, a device such as `\\.\COM1`, or the verbatim
/// form of one of them behind `\\?\`; elsewhere nothing.
pub open spec fn prefix_len(host: HostSystem, path: Seq<char>) -> int {
    if is_verbatim(host, path) {
        if path.len() >= 8 && path[4] == 'U' && path[5] == 'N' && path[6] == 'C' && path[7]
            == '\\' {
            let server = component_end(host, true, path, 8);
            let share = component_end(host, true, path, server + 1);
            if share > server + 1 {
                share
            } else {
                server
            }
        } else {
            component_end(host, true, path, 4)
        }
    } else if host == HostSystem::Windows && path.len() >= 2 && is_separator(host, path[0])
        && is_separator(host, path[1]) {
        if path.len() >= 4 && path[2] == '.' && is_separator(host, path[3]) {
            component_end(host, false, path, 4)
        } else {
            let server = component_end(host, false, path, 2);
            let share = component_end(host, false, path, server + 1);
            if server > 2 && share > server + 1 {
                share
            } else {
                0
            }
        }
    } else if has_drive(host, path) {
        2
    } else {
        0
    }
}

/// Where the components of `path` begin: behind its volume and its root.
pub open spec fn body_start(host: HostSystem, path: Seq<char>) -> int {
    let volume = prefix_len(host, path);
    if volume < path.len() && cuts(host, is_verbatim(host, path), path[volume]) {
        volume + 1
    } else {
        volume
    }
}

/// `path` begins at the root of its volume. Every volume but a drive has one, written or not.
pub open spec fn rooted(host: HostSystem, path: Seq<char>) -> bool {
    body_start(host, path) > prefix_len(host, path) || prefix_len(host, path) > 0 && !has_drive(
        host,
        path,
    )
}

/// The relative path `name` below the directory `base`. Nothing is put between
/// the two where `base` is empty, ends in a separator or is a bare drive.
pub open spec fn join_path(host: HostSystem, base: Seq<char>, name: Seq<char>) -> Seq<char> {
    if base.len() == 0 || cuts(host, is_verbatim(host, base), base.last()) || base.len() == 2
        && has_drive(host, base) {
        base + name
    } else {
        base.push(separator(host)) + name
    }
}

/// `path` without separators and `.` components at its end, but not shorter than `floor`.
pub open spec fn trimmed(
    host: HostSystem,
    verbatim: bool,
    path: Seq<char>,
    floor: int,
) -> Seq<char>
    decreases path.len(),
{
    if path.len() == 0 || path.len() <= floor {
        path
    } else if cuts(host, verbatim, path.last()) {
        trimmed(host, verbatim, path.drop_last(), floor)
    } else if !verbatim && path.len() >= 2 && path.last() == '.' && is_separator(
        host,
        path[path.len() - 2],
    ) {
        trimmed(host, verbatim, path.drop_last(), floor)
    } else {
        path
    }
}

/// `path` up to the end of its last component.
pub open spec fn path_body(host: HostSystem, path: Seq<char>) -> Seq<char> {
    trimmed(host, is_verbatim(host, path), path, body_start(host, path))
}

/// Where the last component of `path` begins, at `floor` or behind it.
pub open spec fn component_start(
    host: HostSystem,
    verbatim: bool,
    path: Seq<char>,
    floor: int,
) -> int
    decreases path.len(),
{
    if path.len() == 0 || path.len() <= floor || cuts(host, verbatim, path.last()) {
        path.len() as int
    } else {
        component_start(host, verbatim, path.drop_last(), floor)
    }
}

/// Where the last component of `path` begins.
pub open spec fn name_start(host: HostSystem, path: Seq<char>) -> int {
    component_start(
        host,
        is_verbatim(host, path),
        path_body(host, path),
        body_start(host, path),
    )
}

/// The file name of `path`: its last component, unless that is empty, `.` or `..`.
pub open spec fn file_name(host: HostSystem, path: Seq<char>) -> Option<Seq<char>> {
    let name = path_body(host, path).skip(name_start(host, path));
    if name.len() == 0 || name == seq!['.'] || name == seq!['.', '.'] {
        None
    } else {
        Some(name)
    }
}

/// The directory that `path` lies in: `path` without its last component.
pub open spec fn parent(host: HostSystem, path: Seq<char>) -> Seq<char> {
    trimmed(
        host,
        is_verbatim(host, path),
        path_body(host, path).take(name_start(host, path)),
        body_start(host, path),
    )
}

/// `name` in the directory that `path` lies in, or `name` below `path` where that has no
/// file name.
pub open spec fn with_file_name(host: HostSystem, path: Seq<char>, name: Seq<char>) -> Seq<char> {
    match file_name(host, path) {
        Some(_) => join_path(host, parent(host, path), name),
        None => join_path(host, path, name),
    }
}

/// The position of the last full stop in `name`.
pub open spec fn last_stop(name: Seq<char>) -> Option<int>
    decreases name.len(),
{
    if name.len() == 0 {
        None
    } else if name.last() == '.' {
        Some(name.len() - 1)
    } else {
        last_stop(name.drop_last())
    }
}

/// The extension of the file name `name`: what follows its last full stop, unless
/// that is its first character.
pub open spec fn extension(name: Seq<char>) -> Option<Seq<char>> {
    match last_stop(name) {
        Some(i) => if i == 0 || name == seq!['.', '.'] {
            None
        } else {
            Some(name.skip(i + 1))
        },
        None => None,
    }
}

/// The file name `name` without its extension.
pub open spec fn stem(name: Seq<char>) -> Seq<char> {
    match extension(name) {
        Some(ext) => name.take(name.len() - ext.len() - 1),
        None => name,
    }
}

/// A last full stop stands inside the name.
proof fn lemma_last_stop(name: Seq<char>)
    ensures
        match last_stop(name) {
            Some(i) => 0 <= i < name.len(),
            None => true,
        },
    decreases name.len(),
{
    if name.len() > 0 {
        lemma_last_stop(name.drop_last());
    }
}

/// Whether `c` ends a path component.
fn separates(host: HostSystem, c: char) -> (r: bool)
    ensures
        r == is_separator(host, c),
{
    c == '/' || host == HostSystem::Windows && c == '\\'
}

/// Whether `path[..2]` is a drive.
fn drive_at(host: HostSystem, path: &Vec<char>) -> (r: bool)
    ensures
        r == has_drive(host, path@),
{
    host == HostSystem::Windows && path.len() >= 2 && ('a' <= path[0] && path[0] <= 'z' || 'A'
        <= path[0] && path[0] <= 'Z') && path[1] == ':'
}

/// Whether `path` is taken as written.
fn verbatim_at(host: HostSystem, path: &Vec<char>) -> (r: bool)
    ensures
        r == is_verbatim(host, path@),
{
    host == HostSystem::Windows && path.len() >= 4 && path[0] == '\\' && path[1] == '\\'
        && path[2] == '?' && path[3] == '\\'
}

/// Whether `c` ends a component of a path, verbatim or not.
fn cuts_at(host: HostSystem, verbatim: bool, c: char) -> (r: bool)
    ensures
        r == cuts(host, verbatim, c),
{
    if verbatim {
        c == '\\'
    } else {
        separates(host, c)
    }
}

/// Where the component ends that begins at `from`.
fn end_of(host: HostSystem, verbatim: bool, path: &Vec<char>, from: usize) -> (r: usize)
    requires
        from <= path.len(),
    ensures
        from <= r <= path.len(),
        r == component_end(host, verbatim, path@, from as int),
{
    let mut i: usize = from;
    while i < path.len() && !cuts_at(host, verbatim, path[i])
        invariant
            from <= i <= path.len(),
            component_end(host, verbatim, path@, i as int) == component_end(
                host,
                verbatim,
                path@,
                from as int,
            ),
        decreases path.len() - i,
    {
        i += 1;
    }
    i
}

/// Where a second component ends that stands behind the one that ends at `from`; `from`
/// where there is none.
fn second_end(host: HostSystem, verbatim: bool, path: &Vec<char>, from: usize) -> (r: usize)
    requires
        from <= path.len(),
    ensures
        from <= r <= path.len(),
        r == if component_end(host, verbatim, path@, from + 1) > from + 1 {
            component_end(host, verbatim, path@, from + 1)
        } else {
            from as int
        },
{
    if from < path.len() {
        let share = end_of(host, verbatim, path, from + 1);
        if share > from + 1 {
            share
        } else {
            from
        }
    } else {
        from
    }
}

/// How much of `path` names the volume it lies on.
fn volume_of(host: HostSystem, path: &Vec<char>) -> (r: usize)
    ensures
        r <= path.len(),
        r == prefix_len(host, path@),
{
    if verbatim_at(host, path) {
        if path.len() >= 8 && path[4] == 'U' && path[5] == 'N' && path[6] == 'C' && path[7]
            == '\\' {
            let server = end_of(host, true, path, 8);
            second_end(host, true, path, server)
        } else {
            end_of(host, true, path, 4)
        }
    } else if host == HostSystem::Windows && path.len() >= 2 && separates(host, path[0])
        && separates(host, path[1]) {
        if path.len() >= 4 && path[2] == '.' && separates(host, path[3]) {
            end_of(host, false, path, 4)
        } else {
            let server = end_of(host, false, path, 2);
            let share = second_end(host, false, path, server);
            if server > 2 && share > server {
                share
            } else {
                0
            }
        }
    } else if drive_at(host, path) {
        2
    } else {
        0
    }
}

/// Where the components of `path` begin.
fn start_of_body(host: HostSystem, path: &Vec<char>) -> (r: usize)
    ensures
        r <= path.len(),
        r == body_start(host, path@),
{
    let volume = volume_of(host, path);
    if volume < path.len() && cuts_at(host, verbatim_at(host, path), path[volume]) {
        volume + 1
    } else {
        volume
    }
}

/// The relative path `name` below `base`.
pub fn joined(host: HostSystem, base: &str, name: &str) -> (r: String)
    ensures
        r@ == join_path(host, base@, name@),
{
    let chars = text::chars_of(base);
    let mut out = base.to_owned();
    if chars.len() > 0 && !cuts_at(host, verbatim_at(host, &chars), chars[chars.len() - 1]) && !(
    chars.len() == 2 && drive_at(host, &chars)) {
        out.push(
            match host {
                HostSystem::Windows => '\\',
                HostSystem::Other => '/',
            },
        );
    }
    out.append(name);
    out
}

/// The length of the first `n` characters without separators and `.` components at their
/// end, but not shorter than `floor`.
fn trimmed_len(
    host: HostSystem,
    verbatim: bool,
    path: &Vec<char>,
    n: usize,
    floor: usize,
) -> (r: usize)
    requires
        floor <= n <= path.len(),
    ensures
        floor <= r <= n,
        path@.take(r as int) == trimmed(host, verbatim, path@.take(n as int), floor as int),
{
    let mut k: usize = n;
    while k > floor && (cuts_at(host, verbatim, path[k - 1]) || !verbatim && k >= 2 && path[k - 1]
        == '.' && separates(host, path[k - 2]))
        invariant
            floor <= k <= n <= path.len(),
            trimmed(host, verbatim, path@.take(k as int), floor as int) == trimmed(
                host,
                verbatim,
                path@.take(n as int),
                floor as int,
            ),
        decreases k,
    {
        assert(path@.take(k as int).drop_last() =~= path@.take(k - 1));
        k -= 1;
    }
    k
}

/// Where the last component of the first `n` characters begins.
fn start_of_component(
    host: HostSystem,
    verbatim: bool,
    path: &Vec<char>,
    n: usize,
    floor: usize,
) -> (k: usize)
    requires
        floor <= n <= path.len(),
    ensures
        floor <= k <= n,
        k == component_start(host, verbatim, path@.take(n as int), floor as int),
{
    let mut k: usize = n;
    while k > floor && !cuts_at(host, verbatim, path[k - 1])
        invariant
            floor <= k <= n <= path.len(),
            component_start(host, verbatim, path@.take(k as int), floor as int)
                == component_start(host, verbatim, path@.take(n as int), floor as int),
        decreases k,
    {
        assert(path@.take(k as int).drop_last() =~= path@.take(k - 1));
        k -= 1;
    }
    k
}

/// Where the last component of `path` begins and ends.
fn name_bounds(host: HostSystem, path: &Vec<char>) -> (r: (usize, usize))
    ensures
        body_start(host, path@) <= r.0 <= r.1 <= path.len(),
        path@.take(r.1 as int) == path_body(host, path@),
        r.0 == name_start(host, path@),
{
    let verbatim = verbatim_at(host, path);
    let floor = start_of_body(host, path);
    assert(path@.take(path@.len() as int) =~= path@);
    let n = trimmed_len(host, verbatim, path, path.len(), floor);
    (start_of_component(host, verbatim, path, n, floor), n)
}

/// The file name of `path`.
pub fn name_of(host: HostSystem, path: &str) -> (r: Option<String>)
    ensures
        match r {
            Some(name) => file_name(host, path@) == Some(name@),
            None => file_name(host, path@) is None,
        },
{
    let chars = text::chars_of(path);
    let (k, n) = name_bounds(host, &chars);
    let ghost name = chars@.take(n as int).skip(k as int);
    assert(name =~= chars@.subrange(k as int, n as int));
    let dot = chars.len() > k && chars[k] == '.';
    if n == k || n - k == 1 && dot || n - k == 2 && dot && chars[k + 1] == '.' {
        assert(n == k + 1 && dot ==> name =~= seq!['.']);
        assert(n == k + 2 && dot && chars@[k + 1] == '.' ==> name =~= seq!['.', '.']);
        None
    } else {
        assert(name != seq!['.']) by {
            assert(seq!['.'][0] == '.');
        }
        assert(name != seq!['.', '.']) by {
            assert(seq!['.', '.'][0] == '.' && seq!['.', '.'][1] == '.');
        }
        Some(text::text_of(&chars, k, n))
    }
}

/// The directory that `path` lies in.
fn parent_of(host: HostSystem, path: &str) -> (r: String)
    ensures
        r@ == parent(host, path@),
{
    let chars = text::chars_of(path);
    let (k, n) = name_bounds(host, &chars);
    let floor = start_of_body(host, &chars);
    assert(chars@.take(n as int).take(k as int) =~= chars@.take(k as int));
    let m = trimmed_len(host, verbatim_at(host, &chars), &chars, k, floor);
    assert(chars@.subrange(0, m as int) =~= chars@.take(m as int));
    text::text_of(&chars, 0, m)
}

/// `name` in the directory that `path` lies in.
pub fn sibling(host: HostSystem, path: &str, name: &str) -> (r: String)
    ensures
        r@ == with_file_name(host, path@, name@),
{
    match name_of(host, path) {
        Some(_) => {
            let directory = parent_of(host, path);
            joined(host, directory.as_str(), name)
        },
        None => joined(host, path, name),
    }
}

/// The position of the last full stop, counted up by one; 0 where there is none.
fn stop_of(name: &Vec<char>) -> (n: usize)
    ensures
        n <= name.len(),
        last_stop(name@) == if n == 0 {
            None::<int>
        } else {
            Some(n - 1)
        },
{
    let mut n: usize = name.len();
    assert(name@.take(n as int) =~= name@);
    while n > 0 && name[n - 1] != '.'
        invariant
            n <= name.len(),
            last_stop(name@.take(n as int)) == last_stop(name@),
        decreases n,
    {
        assert(name@.take(n as int).drop_last() =~= name@.take(n - 1));
        n -= 1;
    }
    n
}

/// The extension of the file name `name`.
pub fn extension_of(name: &str) -> (r: Option<String>)
    ensures
        match r {
            Some(ext) => extension(name@) == Some(ext@),
            None => extension(name@) is None,
        },
{
    let chars = text::chars_of(name);
    let n = stop_of(&chars);
    if n <= 1 || n == 2 && chars.len() == 2 && chars[0] == '.' {
        assert(n == 2 && chars.len() == 2 && chars@[0] == '.' ==> {
            &&& last_stop(chars@) == Some(1int)
            &&& (chars@.last() != '.' ==> last_stop(chars@) == last_stop(chars@.drop_last()))
        });
        proof {
            if n == 2 {
                lemma_last_stop(chars@.drop_last());
                assert(chars@ =~= seq!['.', '.']);
            }
        }
        None
    } else {
        assert(chars@ != seq!['.', '.']) by {
            assert(seq!['.', '.'][0] == '.' && seq!['.', '.'].len() == 2);
        }
        assert(chars@.subrange(n as int, chars@.len() as int) =~= chars@.skip(n as int));
        Some(text::text_of(&chars, n, chars.len()))
    }
}

/// The file name `name` without its extension.
pub fn stem_of(name: &str) -> (r: String)
    ensures
        r@ == stem(name@),
{
    match extension_of(name) {
        Some(_) => {
            let chars = text::chars_of(name);
            let n = stop_of(&chars);
            assert(chars@.subrange(0, n - 1) =~= chars@.take(n - 1));
            text::text_of(&chars, 0, n - 1)
        },
        None => name.to_owned(),
    }
}

/// `path` with the extension of its file name replaced by `ext`; `path` itself
/// where it has no file name.
pub open spec fn with_extension(host: HostSystem, path: Seq<char>, ext: Seq<char>) -> Seq<char> {
    match file_name(host, path) {
        Some(name) => path_body(host, path).take(name_start(host, path)) + stem(name).push('.')
            + ext,
        None => path,
    }
}

/// `path` with the extension of its file name replaced.
pub fn extended(host: HostSystem, path: &str, ext: &str) -> (r: String)
    ensures
        r@ == with_extension(host, path@, ext@),
{
    match name_of(host, path) {
        Some(name) => {
            let chars = text::chars_of(path);
            let (k, n) = name_bounds(host, &chars);
            assert(chars@.subrange(0, k as int) =~= chars@.take(n as int).take(k as int));
            let mut out = text::text_of(&chars, 0, k);
            let kept = stem_of(name.as_str());
            out.append(kept.as_str());
            out.push('.');
            out.append(ext);
            assert(out@ =~= with_extension(host, path@, ext@));
            out
        },
        None => path.to_owned(),
    }
}

/// The ASCII upper case of `c`.
pub open spec fn ascii_upper(c: char) -> char {
    if 'a' <= c <= 'z' {
        ((c as u32) - 32) as char
    } else {
        c
    }
}

/// The character at position `i` of the volume's name, with separators written as `/`
/// where either may stand and a drive letter in upper case.
pub open spec fn prefix_char(host: HostSystem, path: Seq<char>, i: int) -> char {
    if is_verbatim(host, path) {
        if i == 4 && prefix_len(host, path) == 6 && is_letter(path[4]) && path[5] == ':' {
            ascii_upper(path[i])
        } else {
            path[i]
        }
    } else if is_separator(host, path[i]) {
        '/'
    } else if i == 0 && has_drive(host, path) {
        ascii_upper(path[i])
    } else {
        path[i]
    }
}

/// The name of the volume that `path` lies on, in one spelling.
pub open spec fn prefix_text(host: HostSystem, path: Seq<char>) -> Seq<char> {
    Seq::new(prefix_len(host, path) as nat, |i: int| prefix_char(host, path, i))
}

/// What of `path` stands behind its volume, with the separators written as `/` where
/// either may stand.
pub open spec fn slashed(host: HostSystem, path: Seq<char>) -> Seq<char> {
    let rest = path.skip(prefix_len(host, path));
    Seq::new(
        rest.len(),
        |i: int|
            if !is_verbatim(host, path) && is_separator(host, rest[i]) {
                '/'
            } else {
                rest[i]
            },
    )
}

/// The components among the first `n` of the pieces between separators: those that are
/// not empty, and where `dots` is not set, not `.` either; a leading `.` counts.
pub open spec fn kept(cut: Seq<Seq<char>>, dots: bool, n: int) -> Seq<Seq<char>>
    decreases n,
{
    if n <= 0 {
        Seq::empty()
    } else if cut[n - 1].len() == 0 || cut[n - 1] == seq!['.'] && n > 1 && !dots {
        kept(cut, dots, n - 1)
    } else {
        kept(cut, dots, n - 1).push(cut[n - 1])
    }
}

/// The components of `path` behind its volume.
pub open spec fn components(host: HostSystem, path: Seq<char>) -> Seq<Seq<char>> {
    let verbatim = is_verbatim(host, path);
    let cut = text::split(
        slashed(host, path),
        if verbatim {
            '\\'
        } else {
            '/'
        },
    );
    kept(cut, verbatim, cut.len() as int)
}

/// Two paths that name the same place, component by component.
pub open spec fn path_eq(host: HostSystem, a: Seq<char>, b: Seq<char>) -> bool {
    &&& is_verbatim(host, a) == is_verbatim(host, b)
    &&& prefix_text(host, a) == prefix_text(host, b)
    &&& rooted(host, a) == rooted(host, b)
    &&& components(host, a) == components(host, b)
}

/// A component does not end before it begins.
proof fn lemma_component_end(host: HostSystem, verbatim: bool, path: Seq<char>, from: int)
    ensures
        from <= component_end(host, verbatim, path, from),
    decreases path.len() - from,
{
    if from < path.len() && !cuts(host, verbatim, path[from]) {
        lemma_component_end(host, verbatim, path, from + 1);
    }
}

/// A path of one plain component is not the same as one that lies two components deep.
pub(crate) proof fn lemma_nested_is_not_plain(
    host: HostSystem,
    base: Seq<char>,
    first: Seq<char>,
    second: Seq<char>,
    plain: Seq<char>,
)
    requires
        first.len() >= 2,
        second.len() >= 2,
        plain.len() >= 2,
        plain[1] != ':',
        forall|i: int| 0 <= i < first.len() ==> first[i] != '/' && first[i] != '\\',
        forall|i: int| 0 <= i < second.len() ==> second[i] != '/' && second[i] != '\\',
        forall|i: int| 0 <= i < plain.len() ==> plain[i] != '/' && plain[i] != '\\',
    ensures
        !path_eq(host, join_path(host, join_path(host, base, first), second), plain),
{
    let outer = join_path(host, base, first);
    let path = join_path(host, outer, second);
    assert(prefix_len(host, plain) == 0 && !is_verbatim(host, plain));
    assert(slashed(host, plain) =~= plain);
    assert(!plain.contains('/'));
    text::lemma_split_one(plain, '/');
    assert(seq![plain][0] == plain);
    reveal_with_fuel(kept, 2);
    assert(components(host, plain).len() <= 1);
    if !is_verbatim(host, path) && prefix_len(host, path) == 0 {
        let n = outer.len() - first.len();
        assert(outer.last() == first.last());
        assert(path =~= outer.push(separator(host)) + second) by {
            assert(outer.len() == 2 ==> n == 0 && outer =~= first);
            assert(is_verbatim(host, outer) ==> is_verbatim(host, path));
        }
        let written = slashed(host, path);
        assert(path.skip(0) =~= path);
        let before = written.take(n);
        assert(n > 0 ==> before.last() == '/') by {
            if n > 0 {
                assert(is_verbatim(host, base) ==> is_verbatim(host, path));
                assert(base.len() == 2 && has_drive(host, base) ==> has_drive(host, path));
                assert(is_separator(host, path[n - 1]));
            }
        }
        assert(written =~= (before + first).push('/') + second);
        assert(!first.contains('/') && !second.contains('/'));
        text::lemma_split_last(before + first, second, '/');
        if n > 0 {
            assert(before + first =~= before.drop_last().push('/') + first);
            text::lemma_split_last(before.drop_last(), first, '/');
        } else {
            assert(before + first =~= first);
            text::lemma_split_one(first, '/');
        }
        let cut = text::split(written, '/');
        let k = cut.len() as int;
        assert(cut[k - 1] == second && cut[k - 2] == first);
        assert(first != seq!['.'] && second != seq!['.']) by {
            assert(seq!['.'].len() == 1);
        }
        assert(kept(cut, false, k - 1) == kept(cut, false, k - 2).push(first));
        assert(kept(cut, false, k) == kept(cut, false, k - 1).push(second));
        assert(components(host, path).len() >= 2);
    } else if !is_verbatim(host, path) {
        lemma_component_end(host, false, path, 4);
        assert(prefix_text(host, path).len() != prefix_text(host, plain).len());
    }
}

/// The ASCII upper case of `c`.
fn upper(c: char) -> (r: char)
    ensures
        r == ascii_upper(c),
{
    if 'a' <= c && c <= 'z' {
        ((c as u8) - 32) as char
    } else {
        c
    }
}

/// The name of the volume that `path` lies on, in one spelling.
fn prefix_of(host: HostSystem, path: &Vec<char>) -> (r: String)
    ensures
        r@ == prefix_text(host, path@),
{
    let volume = volume_of(host, path);
    let verbatim = verbatim_at(host, path);
    let drive = drive_at(host, path);
    let mut out = String::new();
    let mut i: usize = 0;
    while i < volume
        invariant
            i <= volume <= path.len(),
            volume == prefix_len(host, path@),
            verbatim == is_verbatim(host, path@),
            drive == has_drive(host, path@),
            out@ == prefix_text(host, path@).take(i as int),
        decreases volume - i,
    {
        let c = path[i];
        let lettered = 'a' <= c && c <= 'z' || 'A' <= c && c <= 'Z';
        out.push(
            if verbatim {
                if i == 4 && volume == 6 && lettered && path[5] == ':' {
                    upper(c)
                } else {
                    c
                }
            } else if separates(host, c) {
                '/'
            } else if i == 0 && drive {
                upper(c)
            } else {
                c
            },
        );
        i += 1;
        assert(prefix_text(host, path@).take(i as int) =~= prefix_text(host, path@).take(
            i - 1,
        ).push(prefix_char(host, path@, i - 1)));
    }
    assert(prefix_text(host, path@).take(i as int) =~= prefix_text(host, path@));
    out
}

/// `slashed` as text.
fn slashed_text(host: HostSystem, path: &Vec<char>) -> (r: String)
    ensures
        r@ == slashed(host, path@),
{
    let volume = volume_of(host, path);
    let verbatim = verbatim_at(host, path);
    let mut out = String::new();
    let mut i: usize = volume;
    while i < path.len()
        invariant
            volume <= i <= path.len(),
            volume == prefix_len(host, path@),
            verbatim == is_verbatim(host, path@),
            out@ == slashed(host, path@).take(i - volume),
        decreases path.len() - i,
    {
        let c = path[i];
        assert(path@.skip(volume as int)[i - volume] == c);
        out.push(
            if !verbatim && separates(host, c) {
                '/'
            } else {
                c
            },
        );
        i += 1;
        assert(slashed(host, path@).take(i - volume) =~= slashed(host, path@).take(
            i - 1 - volume,
        ).push(slashed(host, path@)[i - 1 - volume]));
    }
    assert(slashed(host, path@).take(i - volume) =~= slashed(host, path@));
    out
}

/// The components of `path`.
fn components_of(host: HostSystem, path: &Vec<char>) -> (r: Vec<String>)
    ensures
        r.deep_view() == components(host, path@),
{
    let verbatim = verbatim_at(host, path);
    let cut = text::pieces(
        slashed_text(host, path).as_str(),
        if verbatim {
            '\\'
        } else {
            '/'
        },
    );
    let ghost all = cut.deep_view();
    let mut out: Vec<String> = Vec::new();
    let mut i: usize = 0;
    assert(out.deep_view() =~= Seq::empty());
    while i < cut.len()
        invariant
            i <= cut.len(),
            all == cut.deep_view(),
            out.deep_view() == kept(all, verbatim, i as int),
        decreases cut.len() - i,
    {
        assert(all[i as int] == cut@[i as int]@);
        let piece = text::chars_of(cut[i].as_str());
        let dot = piece.len() == 1 && piece[0] == '.';
        assert(dot ==> piece@ =~= seq!['.']);
        assert(piece@ == seq!['.'] ==> dot) by {
            assert(seq!['.'].len() == 1 && seq!['.'][0] == '.');
        }
        if !(piece.len() == 0 || dot && i > 0 && !verbatim) {
            text::push_text(&mut out, cut[i].as_str());
        }
        i += 1;
    }
    out
}

/// Whether `path` begins at the root of its volume.
fn is_rooted(host: HostSystem, path: &Vec<char>) -> (r: bool)
    ensures
        r == rooted(host, path@),
{
    let volume = volume_of(host, path);
    start_of_body(host, path) > volume || volume > 0 && !drive_at(host, path)
}

/// Whether two lists of texts are the same.
pub fn same_texts(a: &Vec<String>, b: &Vec<String>) -> (r: bool)
    ensures
        r == (a.deep_view() == b.deep_view()),
{
    if a.len() != b.len() {
        assert(a.deep_view().len() != b.deep_view().len());
        return false;
    }
    let mut i: usize = 0;
    while i < a.len()
        invariant
            i <= a.len() == b.len(),
            forall|j: int| 0 <= j < i ==> a@[j]@ == b@[j]@,
        decreases a.len() - i,
    {
        if !text::same(a[i].as_str(), b[i].as_str()) {
            assert(a.deep_view()[i as int] != b.deep_view()[i as int]);
            return false;
        }
        i += 1;
    }
    assert(a.deep_view() =~= b.deep_view());
    true
}

/// Whether two paths name the same place, component by component.
pub fn same_path(host: HostSystem, a: &str, b: &str) -> (r: bool)
    ensures
        r == path_eq(host, a@, b@),
{
    let x = text::chars_of(a);
    let y = text::chars_of(b);
    verbatim_at(host, &x) == verbatim_at(host, &y) && text::same(
        prefix_of(host, &x).as_str(),
        prefix_of(host, &y).as_str(),
    ) && is_rooted(host, &x) == is_rooted(host, &y) && same_texts(
        &components_of(host, &x),
        &components_of(host, &y),
    )
}

} // verus!
