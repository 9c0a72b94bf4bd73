//! How paths are put together and taken apart.

use vstd::prelude::*;

use crate::laws::publishing;
use crate::paths;
use crate::paths::HostSystem;
use crate::text;

verus! {

/// The last full stop stands where it is found, and none stands behind it.
proof fn lemma_last_stop(name: Seq<char>)
    ensures
        match paths::last_stop(name) {
            Some(i) => 0 <= i < name.len() && name[i] == '.' && forall|j: int|
                i < j < name.len() ==> #[trigger] name[j] != '.',
            None => !name.contains('.'),
        },
    decreases name.len(),
{
    if name.len() > 0 && name.last() != '.' {
        let front = name.drop_last();
        lemma_last_stop(front);
        match paths::last_stop(front) {
            Some(i) => {
                assert(name[i] == front[i]);
                assert forall|j: int| i < j < name.len() implies #[trigger] name[j] != '.' by {
                    if j < front.len() {
                        assert(front[j] == name[j]);
                    }
                }
            },
            None => {
                if name.contains('.') {
                    let k = name.index_of('.');
                    if k < front.len() {
                        assert(front[k] == '.');
                    }
                }
            },
        }
    }
}

/// A file's name is its stem, a full stop and its extension, where it has one: the stem is
/// not empty, and the extension has no full stop in it. A name without an extension is its
/// own stem.
pub proof fn names_are_stem_and_extension(
    name: &str,
    ext: Option<String>,
    stem: String,
)
    requires
        call_ensures(paths::extension_of, (name,), ext),
        call_ensures(paths::stem_of, (name,), stem),
    ensures
        ext matches Some(found) ==> name@ == stem@.push('.') + found@ && stem@.len() > 0
            && !found@.contains('.'),
        ext is None ==> stem@ == name@ && forall|i: int|
            0 < i < name@.len() ==> #[trigger] name@[i] != '.' || name@ == seq!['.', '.'],
{
    lemma_last_stop(name@);
    match paths::last_stop(name@) {
        Some(i) => {
            if ext is Some {
                let found = ext.unwrap();
                assert(found@ =~= name@.skip(i + 1));
                assert(name@ =~= stem@.push('.') + found@);
                if found@.contains('.') {
                    let k = found@.index_of('.');
                    assert(name@[i + 1 + k] == '.');
                }
            }
        },
        None => {
            assert forall|j: int| 0 < j < name@.len() implies #[trigger] name@[j] != '.' by {
                if name@[j] == '.' {
                    assert(name@.contains('.'));
                }
            }
        },
    }
}

/// What is put behind a name with a full stop is its extension.
pub proof fn extensions_are_what_follows(
    stem: Seq<char>,
    end: Seq<char>,
    name: &str,
    ext: Option<String>,
)
    requires
        call_ensures(paths::extension_of, (name,), ext),
        name@ == stem.push('.') + end,
        stem.len() > 0,
        stem != seq!['.'] || end.len() > 0,
        !end.contains('.'),
    ensures
        ext matches Some(found) && found@ == end,
{
    lemma_last_stop(name@);
    let at = stem.len() as int;
    assert(name@[at] == '.');
    match paths::last_stop(name@) {
        Some(i) => {
            if i < at {
                assert(name@[at] != '.');
            }
            if i > at {
                assert(name@[i] == end[i - at - 1]);
                assert(end.contains('.'));
            }
            assert(name@.skip(i + 1) =~= end);
            if name@ == seq!['.', '.'] {
                assert(name@.len() == 2);
                assert(stem =~= seq!['.']);
                assert(end.len() == 0);
            }
        },
        None => {
            assert(name@.contains('.'));
        },
    }
}

/// A name of one component: not empty, without separators, and neither `.` nor `..`.
pub open spec fn is_plain_name(host: HostSystem, name: Seq<char>) -> bool {
    &&& name.len() > 0
    &&& name != seq!['.']
    &&& name != seq!['.', '.']
    &&& forall|i: int| 0 <= i < name.len() ==> !paths::is_separator(host, #[trigger] name[i])
    &&& host == HostSystem::Windows ==> !name.contains(':')
}

/// A path whose volume, if it has one, is a drive.
pub open spec fn is_usual(host: HostSystem, base: Seq<char>) -> bool {
    host == HostSystem::Other || paths::has_drive(host, base)
}

/// Where the last component of a path begins that ends in a plain name.
proof fn lemma_component_start(host: HostSystem, front: Seq<char>, name: Seq<char>, floor: int)
    requires
        forall|i: int| 0 <= i < name.len() ==> !paths::is_separator(host, #[trigger] name[i]),
        floor <= front.len(),
        front.len() == 0 || front.len() <= floor || paths::is_separator(host, front.last()),
    ensures
        paths::component_start(host, false, front + name, floor) == front.len(),
    decreases name.len(),
{
    let path = front + name;
    if name.len() == 0 {
        assert(path =~= front);
    } else {
        let shorter = name.drop_last();
        assert(path.last() == name[name.len() - 1]);
        assert(path.drop_last() =~= front + shorter);
        assert forall|i: int| 0 <= i < shorter.len() implies !paths::is_separator(
            host,
            #[trigger] shorter[i],
        ) by {
            assert(shorter[i] == name[i]);
        }
        lemma_component_start(host, front, shorter, floor);
    }
}

/// What a directory is written as before a name below it.
pub open spec fn directory(host: HostSystem, base: Seq<char>) -> Seq<char> {
    paths::join_path(host, base, Seq::empty())
}

/// The parts of a path below a usual directory.
proof fn lemma_joined(host: HostSystem, base: Seq<char>, name: Seq<char>)
    requires
        is_usual(host, base),
        is_plain_name(host, name),
    ensures
        ({
            let path = paths::join_path(host, base, name);
            let front = directory(host, base);
            &&& path == front + name
            &&& !paths::is_verbatim(host, path)
            &&& paths::body_start(host, path) <= front.len()
            &&& front.len() == 0 || front.len() <= paths::body_start(host, path)
                || paths::is_separator(host, front.last())
            &&& paths::path_body(host, path) == path
            &&& paths::name_start(host, path) == front.len()
        }),
{
    let path = paths::join_path(host, base, name);
    let front = directory(host, base);
    assert(path =~= front + name);
    assert(!paths::is_verbatim(host, base));
    if host == HostSystem::Windows {
        assert(base.len() >= 2 && path[0] == base[0] && path[1] == base[1]);
        assert(paths::has_drive(host, path));
        assert(paths::prefix_len(host, path) == 2);
        if front.len() == 2 {
            assert(path[2] == name[0]);
        }
    } else {
        assert(paths::prefix_len(host, path) == 0);
        if front.len() == 0 {
            assert(path[0] == name[0]);
        }
    }
    let floor = paths::body_start(host, path);
    assert(floor <= front.len());
    let last = name.len() - 1;
    assert(path.last() == name[last]);
    assert(!paths::is_separator(host, name[last]));
    if path.last() == '.' && path.len() >= 2 {
        if name.len() == 1 {
            assert(name =~= seq!['.']);
        } else {
            assert(path[path.len() - 2] == name[last - 1]);
        }
    }
    assert(paths::path_body(host, path) == path);
    lemma_component_start(host, front, name, floor);
}

/// A file below a directory has the name it was given, and its path begins with the
/// directory's.
pub proof fn files_keep_the_name_they_are_given(
    host: HostSystem,
    base: &str,
    name: &str,
    path: String,
    shown: &str,
    r: Option<String>,
)
    requires
        call_ensures(paths::joined, (host, base, name), path),
        shown@ == path@,
        call_ensures(paths::name_of, (host, shown), r),
        is_usual(host, base@),
        is_plain_name(host, name@),
    ensures
        r matches Some(found) && found@ == name@,
        text::starts_with(path@, base@),
        publishing::ends_with(path@, name@),
{
    lemma_joined(host, base@, name@);
    let front = directory(host, base@);
    assert((front + name@).skip(front.len() as int) =~= name@);
    crate::laws::obs::lemma_below(host, base@, name@);
}

/// What is put between a directory and a name is one separator of the system, unless the
/// directory is empty, ends in one, or is a bare drive.
pub proof fn directories_are_set_off(host: HostSystem, base: &str, name: &str, r: String)
    requires
        call_ensures(paths::joined, (host, base, name), r),
        is_usual(host, base@),
    ensures
        base@.len() == 0 ==> r@ == name@,
        base@.len() > 0 && base@.last() == '/' ==> r@ == base@ + name@,
        host == HostSystem::Windows && base@.len() > 0 && base@.last() == '\\' ==> r@ == base@
            + name@,
        host == HostSystem::Windows && base@.len() > 2 && base@.last() != '/' && base@.last()
            != '\\' ==> r@ == base@.push('\\') + name@,
        host == HostSystem::Other && base@.len() > 0 && base@.last() != '/' ==> r@ == base@.push(
            '/',
        ) + name@,
{
    if base@.len() == 0 {
        assert(r@ =~= name@);
    }
}

/// A file beside another lies in the same directory: beside a file below a directory, it lies
/// below that directory.
pub proof fn siblings_share_their_directory(
    host: HostSystem,
    base: &str,
    first: &str,
    second: &str,
    path: String,
    shown: &str,
    beside: String,
    below: String,
)
    requires
        call_ensures(paths::joined, (host, base, first), path),
        shown@ == path@,
        call_ensures(paths::sibling, (host, shown, second), beside),
        call_ensures(paths::joined, (host, base, second), below),
        is_usual(host, base@),
        is_plain_name(host, first@),
        host == HostSystem::Windows ==> base@.len() > 3,
        base@.len() > 1,
        !paths::is_separator(host, base@.last()),
        base@.last() != '.',
    ensures
        beside@ == below@,
{
    lemma_joined(host, base@, first@);
    let front = directory(host, base@);
    let p = path@;
    assert(p.skip(front.len() as int) =~= first@);
    assert(paths::file_name(host, p) is Some);
    let floor = paths::body_start(host, p);
    assert(p.take(front.len() as int) =~= front);
    assert(front =~= base@.push(paths::separator(host)));
    assert(front.drop_last() =~= base@);
    assert(front.last() == paths::separator(host));
    if host == HostSystem::Windows {
        assert(p[0] == base@[0] && p[1] == base@[1]);
        assert(floor <= 3);
    } else {
        assert(floor <= 1);
    }
    assert(paths::trimmed(host, false, base@, floor) == base@);
    assert(paths::trimmed(host, false, front, floor) == base@);
    assert(paths::parent(host, p) == base@);
}

/// Two paths are the same or not, whichever is named first; a path is the same as itself, and
/// paths that are the same as a third are the same.
pub proof fn sameness_is_an_equivalence(
    host: HostSystem,
    a: &str,
    b: &str,
    c: &str,
    aa: bool,
    ab: bool,
    ba: bool,
    bc: bool,
    ac: bool,
)
    requires
        call_ensures(paths::same_path, (host, a, a), aa),
        call_ensures(paths::same_path, (host, a, b), ab),
        call_ensures(paths::same_path, (host, b, a), ba),
        call_ensures(paths::same_path, (host, b, c), bc),
        call_ensures(paths::same_path, (host, a, c), ac),
    ensures
        aa,
        ab == ba,
        ab && bc ==> ac,
        a@ == b@ ==> ab,
{
}

/// Two plain names are the same path only where they are the same name; on every system the
/// case of their letters counts.
pub proof fn plain_names_are_compared_letter_by_letter(
    host: HostSystem,
    a: &str,
    b: &str,
    r: bool,
)
    requires
        call_ensures(paths::same_path, (host, a, b), r),
        is_plain_name(host, a@),
        is_plain_name(host, b@),
    ensures
        r <==> a@ == b@,
{
    lemma_plain_components(host, a@);
    lemma_plain_components(host, b@);
    assert(paths::components(host, a@)[0] == a@);
    assert(paths::components(host, b@)[0] == b@);
}

/// A plain name is its own only component.
proof fn lemma_plain_components(host: HostSystem, name: Seq<char>)
    requires
        is_plain_name(host, name),
    ensures
        paths::components(host, name) == seq![name],
        !paths::is_verbatim(host, name),
        paths::prefix_len(host, name) == 0,
{
    assert(!paths::is_separator(host, name[0]));
    assert(!paths::is_verbatim(host, name));
    if paths::has_drive(host, name) {
        assert(name[1] == ':');
        assert(name.contains(':'));
    }
    assert(paths::prefix_len(host, name) == 0);
    assert(name.skip(0) =~= name);
    assert forall|i: int| 0 <= i < name.len() implies paths::slashed(host, name)[i] == name[i] by {
        assert(!paths::is_separator(host, name[i]));
    }
    assert(paths::slashed(host, name) =~= name);
    if name.contains('/') {
        let k = name.index_of('/');
        assert(paths::is_separator(host, name[k]));
    }
    text::lemma_split_one(name, '/');
    let cut = text::split(name, '/');
    assert(cut == seq![name]);
    reveal_with_fuel(paths::kept, 3);
    assert(paths::kept(cut, false, 0) =~= Seq::empty());
    assert(cut[0] == name);
    assert(paths::kept(cut, false, 1) =~= seq![name]);
}

/// A separator at the end of a path makes no other path of it.
pub proof fn separators_at_the_end_do_not_count(path: &str, longer: &str, r: bool)
    requires
        call_ensures(paths::same_path, (HostSystem::Other, path, longer), r),
        longer@ == path@.push('/'),
        path@.len() > 0,
    ensures
        r,
{
    let a = path@;
    let b = longer@;
    let host = HostSystem::Other;
    assert(paths::prefix_len(host, a) == 0 && paths::prefix_len(host, b) == 0);
    assert(a.skip(0) =~= a && b.skip(0) =~= b);
    assert(paths::slashed(host, a) =~= a);
    assert(paths::slashed(host, b) =~= b);
    let none = Seq::<char>::empty();
    assert(b =~= a.push('/') + none);
    text::lemma_split_last(a, none, '/');
    text::lemma_split_nonempty(a, '/');
    let ca = text::split(a, '/');
    let cb = text::split(b, '/');
    assert(cb == ca.push(none));
    lemma_kept_prefix(ca, cb, ca.len() as int);
    assert(b[0] == a[0]);
    assert(paths::prefix_text(host, a) =~= paths::prefix_text(host, b));
    assert(paths::components(host, a) == paths::components(host, b));
}

/// What is kept of the first pieces depends on them only.
proof fn lemma_kept_prefix(a: Seq<Seq<char>>, b: Seq<Seq<char>>, n: int)
    requires
        0 <= n <= a.len() <= b.len(),
        forall|i: int| 0 <= i < a.len() ==> a[i] == #[trigger] b[i],
    ensures
        paths::kept(a, false, n) == paths::kept(b, false, n),
    decreases n,
{
    if n > 0 {
        lemma_kept_prefix(a, b, n - 1);
        assert(a[n - 1] == b[n - 1]);
    }
}

/// The extension of a file's name is replaced, and its directory and stem are kept.
pub proof fn extensions_are_replaced(
    host: HostSystem,
    base: &str,
    name: &str,
    ext: &str,
    path: String,
    shown: &str,
    stem: String,
    r: String,
)
    requires
        call_ensures(paths::joined, (host, base, name), path),
        shown@ == path@,
        call_ensures(paths::extended, (host, shown, ext), r),
        call_ensures(paths::stem_of, (name,), stem),
        is_usual(host, base@),
        is_plain_name(host, name@),
    ensures
        publishing::ends_with(r@, stem@.push('.') + ext@),
        text::starts_with(r@, base@),
        r@.len() == path@.len() - name@.len() + stem@.len() + 1 + ext@.len(),
{
    lemma_joined(host, base@, name@);
    let front = directory(host, base@);
    assert((front + name@).skip(front.len() as int) =~= name@);
    assert(path@.take(front.len() as int) =~= front);
    let end = stem@.push('.') + ext@;
    assert(r@ =~= front + end);
    assert(r@.skip(r@.len() - end.len()) =~= end);
    assert(r@.subrange(0, base@.len() as int) =~= base@);
}

/// A system is Windows exactly where a backslash separates.
pub proof fn systems_are_told_by_their_separator(separates: bool, r: HostSystem)
    requires
        call_ensures(HostSystem::from_backslash, (separates,), r),
    ensures
        r == HostSystem::Windows <==> separates,
        paths::is_separator(r, '\\') == separates,
        paths::is_separator(r, '/'),
{
}

/// Paths on a drive are the same where they differ only in the case of the drive's letter and
/// in which of the two separators is written; paths on different drives are not.
pub proof fn drives_are_compared_without_case(a: &str, b: &str, r: bool)
    requires
        call_ensures(paths::same_path, (HostSystem::Windows, a, b), r),
        paths::has_drive(HostSystem::Windows, a@),
        paths::has_drive(HostSystem::Windows, b@),
    ensures
        text::ascii_lower(a@[0]) == text::ascii_lower(b@[0]) && a@.len() == b@.len() && (forall|
            i: int,
        |
            2 <= i < a@.len() ==> #[trigger] a@[i] == b@[i] || (a@[i] == '/' || a@[i] == '\\') && (
            b@[i] == '/' || b@[i] == '\\')) ==> r,
        text::ascii_lower(a@[0]) != text::ascii_lower(b@[0]) ==> !r,
{
    let host = HostSystem::Windows;
    let x = a@;
    let y = b@;
    assert(paths::prefix_len(host, x) == 2 && paths::prefix_len(host, y) == 2);
    let p = paths::prefix_text(host, x);
    let q = paths::prefix_text(host, y);
    assert(p[0] == paths::ascii_upper(x[0]) && q[0] == paths::ascii_upper(y[0]));
    assert(p[1] == ':' && q[1] == ':');
    if text::ascii_lower(x[0]) == text::ascii_lower(y[0]) && x.len() == y.len() && (forall|i: int|
        2 <= i < x.len() ==> #[trigger] x[i] == y[i] || (x[i] == '/' || x[i] == '\\') && (y[i]
            == '/' || y[i] == '\\')) {
        assert(p =~= q);
        assert forall|i: int| 0 <= i < x.len() - 2 implies paths::slashed(host, x)[i]
            == paths::slashed(host, y)[i] by {
            assert(x.skip(2)[i] == x[i + 2] && y.skip(2)[i] == y[i + 2]);
        }
        assert(paths::slashed(host, x) =~= paths::slashed(host, y));
        if x.len() > 2 {
            assert(x[2] == x[2]);
        }
        assert(paths::rooted(host, x) == paths::rooted(host, y));
    }
}

/// A component `.` inside a path does not count, one at its beginning does; and a path from
/// the root is not one from where the program is.
pub proof fn dots_count_at_the_beginning_only(
    base: Seq<char>,
    name: Seq<char>,
    straight: &str,
    dotted: &str,
    plain: &str,
    here: &str,
    root: &str,
    inside: bool,
    leading: bool,
    rooted: bool,
)
    requires
        call_ensures(paths::same_path, (HostSystem::Other, straight, dotted), inside),
        call_ensures(paths::same_path, (HostSystem::Other, plain, here), leading),
        call_ensures(paths::same_path, (HostSystem::Other, plain, root), rooted),
        is_plain_name(HostSystem::Other, name),
        straight@ == base.push('/') + name,
        dotted@ == base.push('/').push('.').push('/') + name,
        plain@ == name,
        here@ == seq!['.', '/'] + name,
        root@ == seq!['/'] + name,
    ensures
        inside,
        !leading,
        !rooted,
{
    let host = HostSystem::Other;
    let dot = seq!['.'];
    assert(dotted@ =~= (base.push('/') + dot).push('/') + name);
    lemma_no_slash(host, name);
    assert(!dot.contains('/'));
    text::lemma_split_last(base, name, '/');
    text::lemma_split_last(base, dot, '/');
    text::lemma_split_last(base.push('/') + dot, name, '/');
    text::lemma_split_nonempty(base, '/');
    let cut = text::split(base, '/');
    let n = cut.len() as int;
    let ca = cut.push(name);
    let cb = cut.push(dot).push(name);
    lemma_other_components(straight@);
    lemma_other_components(dotted@);
    lemma_kept_prefix(cut, ca, n);
    lemma_kept_prefix(cut, cb, n);
    assert(paths::kept(cb, false, n + 1) == paths::kept(cb, false, n));
    assert(cb[n + 1] == name && ca[n] == name);
    assert(paths::components(host, straight@) == paths::kept(cut, false, n).push(name));
    assert(paths::components(host, dotted@) == paths::kept(cut, false, n).push(name));
    assert(straight@[0] == dotted@[0]);
    assert(paths::prefix_text(host, straight@) =~= paths::prefix_text(host, dotted@));
    lemma_plain_components(host, name);
    text::lemma_split_one(dot, '/');
    text::lemma_split_last(dot, name, '/');
    assert(here@ =~= dot.push('/') + name);
    lemma_other_components(here@);
    let ch = seq![dot].push(name);
    reveal_with_fuel(paths::kept, 3);
    assert(ch[0] == dot && ch[1] == name);
    assert(paths::kept(ch, false, 1).len() == 1);
    assert(paths::components(host, here@).len() == 2);
    assert(root@[0] == '/');
    assert(!paths::is_separator(host, name[0]));
}

/// Plain names have no slash in them.
proof fn lemma_no_slash(host: HostSystem, name: Seq<char>)
    requires
        is_plain_name(host, name),
    ensures
        !name.contains('/'),
{
    if name.contains('/') {
        let k = name.index_of('/');
        assert(paths::is_separator(host, name[k]));
    }
}

/// Where there are no volumes, the components are what stands between slashes.
proof fn lemma_other_components(path: Seq<char>)
    ensures
        paths::components(HostSystem::Other, path) == paths::kept(
            text::split(path, '/'),
            false,
            text::split(path, '/').len() as int,
        ),
        paths::prefix_len(HostSystem::Other, path) == 0,
{
    let host = HostSystem::Other;
    assert(path.skip(0) =~= path);
    assert(paths::slashed(host, path) =~= path);
}

/// Separators and `.` components behind a name do not hide it.
pub proof fn names_are_found_before_trailing_dots(
    front: Seq<char>,
    name: Seq<char>,
    path: &str,
    r: Option<String>,
)
    requires
        call_ensures(paths::name_of, (HostSystem::Other, path), r),
        front.len() == 0 || front.last() == '/',
        is_plain_name(HostSystem::Other, name),
        path@ == front + name || path@ == (front + name).push('/') || path@ == (front + name).push(
            '/',
        ).push('.'),
    ensures
        r matches Some(found) && found@ == name,
{
    let host = HostSystem::Other;
    let whole = front + name;
    let s = path@;
    assert(paths::prefix_len(host, s) == 0);
    assert(s[0] == whole[0]);
    assert(!paths::is_separator(host, name[0]));
    let floor = paths::body_start(host, s);
    assert(floor <= front.len() && floor <= 1);
    let last = name.len() - 1;
    assert(whole.last() == name[last]);
    assert(!paths::is_separator(host, name[last]));
    if whole.last() == '.' && whole.len() >= 2 {
        if name.len() == 1 {
            assert(name =~= seq!['.']);
        } else {
            assert(whole[whole.len() - 2] == name[last - 1]);
        }
    }
    assert(paths::trimmed(host, false, whole, floor) == whole);
    let slashed = whole.push('/');
    assert(slashed.drop_last() =~= whole);
    assert(paths::trimmed(host, false, slashed, floor) == whole);
    let dotted = slashed.push('.');
    assert(dotted.drop_last() =~= slashed);
    assert(dotted[dotted.len() - 2] == '/');
    assert(paths::trimmed(host, false, dotted, floor) == whole);
    lemma_component_start(host, front, name, floor);
    assert(whole.skip(front.len() as int) =~= name);
}

/// A component ends at the next separator, or with the path.
proof fn lemma_component_ends(verbatim: bool, path: Seq<char>, from: int, to: int)
    requires
        0 <= from <= to <= path.len(),
        forall|i: int|
            from <= i < to ==> !paths::cuts(HostSystem::Windows, verbatim, #[trigger] path[i]),
        to == path.len() || paths::cuts(HostSystem::Windows, verbatim, path[to]),
    ensures
        paths::component_end(HostSystem::Windows, verbatim, path, from) == to,
    decreases to - from,
{
    if from < to {
        assert(!paths::cuts(HostSystem::Windows, verbatim, path[from]));
        lemma_component_ends(verbatim, path, from + 1, to);
    }
}

/// A volume that is written out, and what lies at its root.
proof fn lemma_on_volume(volume: Seq<char>, name: Seq<char>)
    requires
        is_plain_name(HostSystem::Windows, name),
        paths::prefix_len(HostSystem::Windows, volume) == volume.len(),
        paths::prefix_len(HostSystem::Windows, volume.push('\\') + name) == volume.len(),
    ensures
        paths::file_name(HostSystem::Windows, volume) is None,
        paths::file_name(HostSystem::Windows, volume.push('\\') + name) == Some(name),
{
    let host = HostSystem::Windows;
    assert(paths::path_body(host, volume) == volume);
    assert(volume.skip(volume.len() as int).len() == 0);
    let front = volume.push('\\');
    let path = front + name;
    let verbatim = paths::is_verbatim(host, path);
    assert(path[volume.len() as int] == '\\');
    let floor = paths::body_start(host, path);
    assert(floor == front.len());
    let last = name.len() - 1;
    assert(path.last() == name[last]);
    assert(!paths::is_separator(host, name[last]));
    if path.last() == '.' {
        if name.len() == 1 {
            assert(name =~= seq!['.']);
        } else {
            assert(path[path.len() - 2] == name[last - 1]);
        }
    }
    assert(paths::path_body(host, path) == path);
    lemma_name_at_root(verbatim, front, name);
    assert(path.skip(front.len() as int) =~= name);
}

/// The name directly behind the root begins there.
proof fn lemma_name_at_root(verbatim: bool, front: Seq<char>, name: Seq<char>)
    requires
        forall|i: int|
            0 <= i < name.len() ==> !paths::is_separator(HostSystem::Windows, #[trigger] name[i]),
    ensures
        paths::component_start(HostSystem::Windows, verbatim, front + name, front.len() as int)
            == front.len(),
    decreases name.len(),
{
    let path = front + name;
    if name.len() == 0 {
        assert(path =~= front);
    } else {
        let shorter = name.drop_last();
        assert(path.last() == name[name.len() - 1]);
        assert(path.drop_last() =~= front + shorter);
        assert forall|i: int| 0 <= i < shorter.len() implies !paths::is_separator(
            HostSystem::Windows,
            #[trigger] shorter[i],
        ) by {
            assert(shorter[i] == name[i]);
        }
        lemma_name_at_root(verbatim, front, shorter);
    }
}

/// A share is named by its server and its own name together: neither is a file name, and what
/// lies directly in the share is.
pub proof fn shares_are_volumes(
    server: Seq<char>,
    share: Seq<char>,
    name: Seq<char>,
    volume: &str,
    path: &str,
    r: Option<String>,
    s: Option<String>,
)
    requires
        call_ensures(paths::name_of, (HostSystem::Windows, volume), r),
        call_ensures(paths::name_of, (HostSystem::Windows, path), s),
        is_plain_name(HostSystem::Windows, server),
        is_plain_name(HostSystem::Windows, share),
        is_plain_name(HostSystem::Windows, name),
        server != seq!['?'],
        volume@ == seq!['\\', '\\'] + server.push('\\') + share,
        path@ == volume@.push('\\') + name,
    ensures
        r is None,
        s matches Some(found) && found@ == name,
{
    assert(volume@.take(volume@.len() as int) =~= volume@);
    assert(path@.take(volume@.len() as int) =~= volume@);
    lemma_share_prefix(server, share, volume@, volume@);
    lemma_share_prefix(server, share, volume@, path@);
    lemma_on_volume(volume@, name);
}

/// The volume of a path in a share.
proof fn lemma_share_prefix(server: Seq<char>, share: Seq<char>, volume: Seq<char>, path: Seq<char>)
    requires
        is_plain_name(HostSystem::Windows, server),
        is_plain_name(HostSystem::Windows, share),
        server != seq!['?'],
        volume == seq!['\\', '\\'] + server.push('\\') + share,
        path.len() >= volume.len(),
        path.take(volume.len() as int) == volume,
        path.len() == volume.len() || path[volume.len() as int] == '\\',
    ensures
        paths::prefix_len(HostSystem::Windows, path) == volume.len(),
{
    let host = HostSystem::Windows;
    assert forall|i: int| 0 <= i < volume.len() implies #[trigger] path[i] == volume[i] by {
        assert(path.take(volume.len() as int)[i] == path[i]);
    }
    assert(path[0] == '\\' && path[1] == '\\');
    let end = 2 + server.len() as int;
    assert(volume[end] == '\\');
    assert(path[2] == server[0]);
    if server.len() == 1 {
        assert(server =~= seq![server[0]]);
    } else {
        assert(path[3] == server[1]);
        assert(!paths::is_separator(host, server[1]));
    }
    assert(!paths::is_verbatim(host, path));
    assert forall|i: int| 2 <= i < end implies !paths::cuts(host, false, #[trigger] path[i]) by {
        assert(volume[i] == server[i - 2]);
    }
    lemma_component_ends(false, path, 2, end);
    assert forall|i: int| end + 1 <= i < volume.len() implies !paths::cuts(
        host,
        false,
        #[trigger] path[i],
    ) by {
        assert(volume[i] == share[i - end - 1]);
    }
    lemma_component_ends(false, path, end + 1, volume.len() as int);
    assert(path.len() >= 4 && path[2] == '.' && paths::is_separator(host, path[3])
        ==> server.len() == 1);
}

/// The same holds of a share behind the mark of paths that are taken as written.
pub proof fn verbatim_shares_are_volumes(
    server: Seq<char>,
    share: Seq<char>,
    name: Seq<char>,
    volume: &str,
    path: &str,
    r: Option<String>,
    s: Option<String>,
)
    requires
        call_ensures(paths::name_of, (HostSystem::Windows, volume), r),
        call_ensures(paths::name_of, (HostSystem::Windows, path), s),
        is_plain_name(HostSystem::Windows, server),
        is_plain_name(HostSystem::Windows, share),
        is_plain_name(HostSystem::Windows, name),
        volume@ == seq!['\\', '\\', '?', '\\', 'U', 'N', 'C', '\\'] + server.push('\\')
            + share,
        path@ == volume@.push('\\') + name,
    ensures
        r is None,
        s matches Some(found) && found@ == name,
{
    assert(volume@.take(volume@.len() as int) =~= volume@);
    assert(path@.take(volume@.len() as int) =~= volume@);
    lemma_verbatim_share(server, share, volume@, volume@);
    lemma_verbatim_share(server, share, volume@, path@);
    lemma_on_volume(volume@, name);
}

/// The volume of a path in a share that is taken as written.
proof fn lemma_verbatim_share(
    server: Seq<char>,
    share: Seq<char>,
    volume: Seq<char>,
    path: Seq<char>,
)
    requires
        is_plain_name(HostSystem::Windows, server),
        is_plain_name(HostSystem::Windows, share),
        volume == seq!['\\', '\\', '?', '\\', 'U', 'N', 'C', '\\'] + server.push('\\')
            + share,
        path.len() >= volume.len(),
        path.take(volume.len() as int) == volume,
        path.len() == volume.len() || path[volume.len() as int] == '\\',
    ensures
        paths::prefix_len(HostSystem::Windows, path) == volume.len(),
{
    let host = HostSystem::Windows;
    assert forall|i: int| 0 <= i < volume.len() implies #[trigger] path[i] == volume[i] by {
        assert(path.take(volume.len() as int)[i] == path[i]);
    }
    assert(path[0] == '\\' && path[1] == '\\' && path[2] == '?' && path[3] == '\\');
    assert(path[4] == 'U' && path[5] == 'N' && path[6] == 'C' && path[7] == '\\');
    let end = 8 + server.len() as int;
    assert(volume[end] == '\\');
    assert forall|i: int| 8 <= i < end implies !paths::cuts(host, true, #[trigger] path[i]) by {
        assert(volume[i] == server[i - 8]);
        assert(!paths::is_separator(host, server[i - 8]));
    }
    lemma_component_ends(true, path, 8, end);
    assert forall|i: int| end + 1 <= i < volume.len() implies !paths::cuts(
        host,
        true,
        #[trigger] path[i],
    ) by {
        assert(volume[i] == share[i - end - 1]);
        assert(!paths::is_separator(host, share[i - end - 1]));
    }
    lemma_component_ends(true, path, end + 1, volume.len() as int);
}

} // verus!
