//! File-system paths, held as text: joining them as `PathBuf::push` does on
//! Unix, their components, and their spelling inside Wine.
use vstd::prelude::*;

use crate::text::{chars_of, concat, has_prefix, push_char, push_str, str_eq};

verus! {

/// One component of a path (`std::path::Component`), its text taken as
/// lossy UTF-8.
#[derive(Debug, Clone)]
pub enum PathPart {
    Prefix(String),
    RootDir,
    CurDir,
    ParentDir,
    Normal(String),
}

/// A `PathPart` with its text taken as characters.
pub enum PathPartView {
    Prefix(Seq<char>),
    RootDir,
    CurDir,
    ParentDir,
    Normal(Seq<char>),
}

impl View for PathPart {
    type V = PathPartView;

    open spec fn view(&self) -> PathPartView {
        match self {
            PathPart::Prefix(s) => PathPartView::Prefix(s@),
            PathPart::RootDir => PathPartView::RootDir,
            PathPart::CurDir => PathPartView::CurDir,
            PathPart::ParentDir => PathPartView::ParentDir,
            PathPart::Normal(s) => PathPartView::Normal(s@),
        }
    }
}

pub open spec fn part_views(parts: Seq<PathPart>) -> Seq<PathPartView> {
    parts.map_values(|p: PathPart| p@)
}

/// The pieces of `s` between `/` separators, empty ones included.
pub open spec fn pieces(s: Seq<char>) -> Seq<Seq<char>>
    decreases s.len(),
{
    if s.len() == 0 {
        seq![Seq::empty()]
    } else {
        let ps = pieces(s.drop_last());
        if s.last() == '/' {
            ps.push(Seq::empty())
        } else {
            ps.update(ps.len() - 1, ps.last().push(s.last()))
        }
    }
}

/// The components that the pieces of a path stand for: empty pieces and
/// `.` are dropped, `..` is the parent folder, any other piece a name.
pub open spec fn piece_parts(ps: Seq<Seq<char>>) -> Seq<PathPartView>
    decreases ps.len(),
{
    if ps.len() == 0 {
        Seq::empty()
    } else {
        let rest = piece_parts(ps.drop_last());
        let p = ps.last();
        if p.len() == 0 || p == seq!['.'] {
            rest
        } else if p == seq!['.', '.'] {
            rest.push(PathPartView::ParentDir)
        } else {
            rest.push(PathPartView::Normal(p))
        }
    }
}

/// What `Path::components` yields for `path` on Unix, as the standard library
/// documents it: the root first if `path` begins with `/`; `.` first if a
/// relative `path` begins with the piece `.`; then its pieces, with repeated
/// separators, a trailing separator and every other `.` ignored.
pub open spec fn path_components(path: Seq<char>) -> Seq<PathPartView> {
    let rooted = path.len() > 0 && path[0] == '/';
    let current = !rooted && path.len() > 0 && path[0] == '.' && (path.len() == 1 || path[1]
        == '/');
    (if rooted {
        seq![PathPartView::RootDir]
    } else if current {
        seq![PathPartView::CurDir]
    } else {
        Seq::empty()
    }) + piece_parts(pieces(path))
}

proof fn lemma_pieces_nonempty(s: Seq<char>)
    ensures
        pieces(s).len() >= 1,
    decreases s.len(),
{
    if s.len() > 0 {
        lemma_pieces_nonempty(s.drop_last());
    }
}

/// Text without a separator extends the last piece.
proof fn lemma_pieces_extend(a: Seq<char>, n: Seq<char>)
    requires
        !n.contains('/'),
    ensures
        pieces(a + n).len() == pieces(a).len(),
        pieces(a + n).drop_last() == pieces(a).drop_last(),
        pieces(a + n).last() == pieces(a).last() + n,
    decreases n.len(),
{
    lemma_pieces_nonempty(a);
    if n.len() == 0 {
        assert(a + n =~= a);
        assert(pieces(a).last() + n =~= pieces(a).last());
    } else {
        let m = n.drop_last();
        assert(!m.contains('/')) by {
            if m.contains('/') {
                let k = choose|k: int| 0 <= k < m.len() && m[k] == '/';
                assert(n[k] == '/');
            }
        }
        lemma_pieces_extend(a, m);
        assert((a + n).drop_last() =~= a + m);
        assert((a + n).last() == n.last());
        assert(n.last() != '/') by {
            assert(n[n.len() - 1] == n.last());
        }
        let ps = pieces(a + m);
        lemma_pieces_nonempty(a + m);
        assert(pieces(a + n) == ps.update(ps.len() - 1, ps.last().push(n.last())));
        assert(pieces(a + n).drop_last() =~= ps.drop_last());
        assert(ps.last().push(n.last()) =~= pieces(a).last() + n);
    }
}

/// After a folder ending in a separator (or nothing), the pieces of `r`
/// follow the folder's pieces.
proof fn lemma_pieces_concat(a: Seq<char>, r: Seq<char>)
    requires
        a.len() == 0 || a.last() == '/',
    ensures
        pieces(a + r) == pieces(a).drop_last() + pieces(r),
    decreases r.len(),
{
    lemma_pieces_nonempty(a);
    if r.len() == 0 {
        assert(a + r =~= a);
        if a.len() == 0 {
            assert(pieces(a) =~= seq![Seq::<char>::empty()]);
        } else {
            assert(a.drop_last().push('/') =~= a);
        }
        assert(pieces(a).drop_last() + pieces(r) =~= pieces(a));
    } else {
        let r1 = r.drop_last();
        let c = r.last();
        lemma_pieces_concat(a, r1);
        lemma_pieces_nonempty(r1);
        assert((a + r).drop_last() =~= a + r1);
        assert((a + r).last() == c);
        let x = pieces(a).drop_last();
        let y = pieces(r1);
        if c == '/' {
            assert((x + y).push(Seq::<char>::empty()) =~= x + y.push(Seq::<char>::empty()));
        } else {
            assert((x + y).update(x.len() + y.len() - 1, (x + y).last().push(c)) =~= x + y.update(
                y.len() - 1,
                y.last().push(c),
            ));
        }
    }
}

proof fn lemma_piece_parts_concat(x: Seq<Seq<char>>, y: Seq<Seq<char>>)
    ensures
        piece_parts(x + y) == piece_parts(x) + piece_parts(y),
    decreases y.len(),
{
    if y.len() == 0 {
        assert(x + y =~= x);
        assert(piece_parts(x) + piece_parts(y) =~= piece_parts(x));
    } else {
        lemma_piece_parts_concat(x, y.drop_last());
        assert((x + y).drop_last() =~= x + y.drop_last());
        assert((x + y).last() == y.last());
        let px = piece_parts(x);
        let py = piece_parts(y.drop_last());
        assert((px + py).push(PathPartView::ParentDir) =~= px + py.push(PathPartView::ParentDir));
        assert(forall|n: Seq<char>| (px + py).push(PathPartView::Normal(n)) =~= px + py.push(
            PathPartView::Normal(n),
        ));
    }
}

/// A path that names a file keeps that name when joined onto any folder.
pub proof fn joined_keeps_file_name(base: Seq<char>, r: Seq<char>)
    requires
        file_name_of(path_components(r)) is Some,
    ensures
        file_name_of(path_components(joined(base, r))) == file_name_of(path_components(r)),
{
    if r.len() > 0 && r[0] == '/' {
    } else {
        let a = if base.len() == 0 || base.last() == '/' {
            base
        } else {
            base + seq!['/']
        };
        if base.len() > 0 && base.last() != '/' {
            assert(a.last() == '/');
        }
        let j = joined(base, r);
        assert(j == a + r);
        lemma_pieces_concat(a, r);
        lemma_piece_parts_concat(pieces(a).drop_last(), pieces(r));
        let pr = piece_parts(pieces(r));
        let head_r = if r.len() > 0 && r[0] == '.' && (r.len() == 1 || r[1] == '/') {
            seq![PathPartView::CurDir]
        } else {
            Seq::<PathPartView>::empty()
        };
        assert(path_components(r) == head_r + pr);
        if pr.len() == 0 {
            assert(head_r + pr =~= head_r);
            assert(false);
        }
        assert((head_r + pr).last() == pr.last());
        let head_j = if j.len() > 0 && j[0] == '/' {
            seq![PathPartView::RootDir]
        } else if j.len() > 0 && j[0] == '.' && (j.len() == 1 || j[1] == '/') {
            seq![PathPartView::CurDir]
        } else {
            Seq::<PathPartView>::empty()
        };
        let pa = piece_parts(pieces(a).drop_last());
        assert(path_components(j) == head_j + (pa + pr));
        assert((head_j + (pa + pr)).last() == pr.last());
    }
}

/// A component that can follow the first: a name or `..`.
pub open spec fn is_inner_part(x: PathPartView) -> bool {
    x is Normal || x is ParentDir
}

proof fn lemma_piece_parts_inner(ps: Seq<Seq<char>>)
    ensures
        forall|i: int| 0 <= i < piece_parts(ps).len() ==> is_inner_part(#[trigger] piece_parts(ps)[i]),
    decreases ps.len(),
{
    if ps.len() > 0 {
        lemma_piece_parts_inner(ps.drop_last());
        let rest = piece_parts(ps.drop_last());
        assert forall|i: int| 0 <= i < piece_parts(ps).len() implies is_inner_part(
            #[trigger] piece_parts(ps)[i],
        ) by {
            if i < rest.len() {
                assert(piece_parts(ps)[i] == rest[i]);
            }
        }
    }
}

/// Past the first, every component of a path is a name or `..`.
pub proof fn later_components_are_inner(p: Seq<char>, i: int)
    requires
        1 <= i < path_components(p).len(),
    ensures
        is_inner_part(path_components(p)[i]),
{
    lemma_piece_parts_inner(pieces(p));
    let rooted = p.len() > 0 && p[0] == '/';
    let current = !rooted && p.len() > 0 && p[0] == '.' && (p.len() == 1 || p[1] == '/');
    let head = if rooted {
        seq![PathPartView::RootDir]
    } else if current {
        seq![PathPartView::CurDir]
    } else {
        Seq::<PathPartView>::empty()
    };
    let pp = piece_parts(pieces(p));
    assert(path_components(p) == head + pp);
    assert((head + pp)[i] == pp[i - head.len()]);
}

/// Joined onto a folder, a relative path that does not begin with `.` adds
/// its components to the folder's.
pub proof fn joined_components(c: Seq<char>, r: Seq<char>)
    requires
        r.len() == 0 || r[0] != '/',
        !(r.len() > 0 && r[0] == '.' && (r.len() == 1 || r[1] == '/')),
    ensures
        path_components(joined(c, r)) == path_components(c) + path_components(r),
{
    let a = if c.len() == 0 || c.last() == '/' {
        c
    } else {
        c + seq!['/']
    };
    let j = joined(c, r);
    assert(j == a + r);
    if c.len() > 0 && c.last() != '/' {
        assert(a.last() == '/');
    }
    lemma_pieces_concat(a, r);
    lemma_piece_parts_concat(pieces(a).drop_last(), pieces(r));
    lemma_pieces_nonempty(c);
    // The folder's own pieces.
    if c.len() == 0 {
        assert(pieces(a).drop_last() =~= Seq::<Seq<char>>::empty());
        assert(piece_parts(pieces(c)) =~= Seq::<PathPartView>::empty());
        assert(piece_parts(Seq::<Seq<char>>::empty()) =~= Seq::<PathPartView>::empty());
        assert(j =~= r);
        assert(path_components(c) =~= Seq::<PathPartView>::empty());
        assert(path_components(c) + path_components(r) =~= path_components(r));
    } else {
        if c.last() == '/' {
            assert(c.drop_last().push('/') =~= c);
            assert(pieces(c) == pieces(c.drop_last()).push(Seq::<char>::empty()));
            assert(pieces(a).drop_last() =~= pieces(c.drop_last()));
            assert(piece_parts(pieces(c)) == piece_parts(pieces(c.drop_last())));
        } else {
            assert(a.drop_last() =~= c);
            assert(pieces(a) == pieces(c).push(Seq::<char>::empty()));
            assert(pieces(a).drop_last() =~= pieces(c));
        }
        assert(piece_parts(pieces(a).drop_last()) == piece_parts(pieces(c)));
        assert(j[0] == c[0]);
        if c.len() == 1 && c[0] != '/' {
            assert(a[1] == '/');
            assert(j[1] == a[1]);
        } else if c.len() > 1 {
            assert(j[1] == c[1]);
        }
        let pc = piece_parts(pieces(c));
        let pr = piece_parts(pieces(r));
        let head_c = if c[0] == '/' {
            seq![PathPartView::RootDir]
        } else if c[0] == '.' && (c.len() == 1 || c[1] == '/') {
            seq![PathPartView::CurDir]
        } else {
            Seq::<PathPartView>::empty()
        };
        assert(path_components(c) == head_c + pc);
        assert(path_components(j) == head_c + (pc + pr));
        assert(path_components(r) == Seq::<PathPartView>::empty() + pr);
        assert(head_c + (pc + pr) =~= (head_c + pc) + (Seq::<PathPartView>::empty() + pr));
    }
}

/// Joining a name (not empty, without separator, neither `.` nor `..`) to
/// any folder gives a path whose file name is that name.
pub proof fn joined_name_is_file_name(base: Seq<char>, name: Seq<char>)
    requires
        name.len() > 0,
        !name.contains('/'),
        name != seq!['.'],
        name != seq!['.', '.'],
    ensures
        file_name_of(path_components(joined(base, name))) == Some(name),
{
    let j = joined(base, name);
    assert(!(name[0] == '/'));
    let a = if base.len() == 0 || base.last() == '/' {
        base
    } else {
        base + seq!['/']
    };
    assert(j == a + name);
    lemma_pieces_nonempty(a);
    if base.len() == 0 {
        assert(a =~= Seq::<char>::empty());
        assert(pieces(a).last() == Seq::<char>::empty());
    } else if base.last() == '/' {
        assert(a.drop_last() =~= base.drop_last());
        assert(pieces(a).last() == Seq::<char>::empty());
    } else {
        assert(a.drop_last() =~= base);
        assert(a.last() == '/');
        assert(pieces(a).last() == Seq::<char>::empty());
    }
    lemma_pieces_extend(a, name);
    let ps = pieces(j);
    assert(ps.last() =~= name);
    assert(ps.len() > 0);
    let parts = piece_parts(ps);
    assert(parts == piece_parts(ps.drop_last()).push(PathPartView::Normal(name)));
    let head = if j.len() > 0 && j[0] == '/' {
        seq![PathPartView::RootDir]
    } else if j.len() > 0 && j[0] == '.' && (j.len() == 1 || j[1] == '/') {
        seq![PathPartView::CurDir]
    } else {
        Seq::<PathPartView>::empty()
    };
    assert(path_components(j) == head + parts);
    assert((head + parts).last() == parts.last());
}

/// `Path::components` on Unix: the components of `path`, as
/// `path_components` spells them out.
#[verifier::external_body]
pub(crate) fn components(path: &str) -> (r: Vec<PathPart>)
    ensures
        part_views(r@) == path_components(path@),
{
    std::path::Path::new(path).components().map(|c| match c {
        std::path::Component::Prefix(p) => PathPart::Prefix(p.as_os_str().to_string_lossy().into_owned()),
        std::path::Component::RootDir => PathPart::RootDir,
        std::path::Component::CurDir => PathPart::CurDir,
        std::path::Component::ParentDir => PathPart::ParentDir,
        std::path::Component::Normal(s) => PathPart::Normal(s.to_string_lossy().into_owned()),
    }).collect()
}

/// `base.join(part)` on Unix (`PathBuf::push`): an absolute `part` replaces
/// `base`; otherwise a `/` is put between them unless `base` is empty or
/// already ends with one.
pub open spec fn joined(base: Seq<char>, part: Seq<char>) -> Seq<char> {
    if part.len() > 0 && part[0] == '/' {
        part
    } else if base.len() == 0 || base.last() == '/' {
        base + part
    } else {
        base + seq!['/'] + part
    }
}

/// `Path::join` on Unix.
pub fn path_join(base: &str, part: &str) -> (r: String)
    ensures
        r@ == joined(base@, part@),
{
    let b = chars_of(base);
    let p = chars_of(part);
    if p.len() > 0 && p[0] == '/' {
        return part.to_owned();
    }
    if b.len() == 0 || b[b.len() - 1] == '/' {
        concat(base, part)
    } else {
        let mut r = base.to_owned();
        push_char(&mut r, '/');
        push_str(&mut r, part);
        r
    }
}

/// The last component of a path, when it is a name (`Path::file_name`).
pub open spec fn file_name_of(parts: Seq<PathPartView>) -> Option<Seq<char>> {
    if parts.len() > 0 {
        match parts.last() {
            PathPartView::Normal(n) => Some(n),
            _ => None,
        }
    } else {
        None
    }
}

/// Whether `path` names a folder that the anime-game launcher used
/// as its default game folder (`Genshin Impact` or `YuanShen`).
pub open spec fn is_default_genshin_name(name: Option<Seq<char>>) -> bool {
    match name {
        Some(n) => n == "Genshin Impact"@ || n == "YuanShen"@,
        None => false,
    }
}

/// Whether `path`'s last component is `Genshin Impact` or `YuanShen`: the
/// default game folders that configurations of the older launcher hold.
pub fn is_default_genshin_path(path: &str) -> (b: bool)
    ensures
        b == is_default_genshin_name(file_name_of(path_components(path@))),
{
    let parts = components(path);
    if parts.len() == 0 {
        return false;
    }
    match &parts[parts.len() - 1] {
        PathPart::Normal(name) => {
            assert(part_views(parts@).last() == parts@[parts@.len() - 1]@);
            str_eq(name.as_str(), "Genshin Impact") || str_eq(name.as_str(), "YuanShen")
        },
        _ => {
            assert(part_views(parts@).last() == parts@[parts@.len() - 1]@);
            false
        },
    }
}

/// The spelling that Wine gives a Unix path: drive `Z:` then the names of
/// the components, each after a backslash (`.` and `..` are skipped).
pub open spec fn wine_spelling(parts: Seq<PathPartView>) -> Seq<char>
    decreases parts.len(),
{
    if parts.len() == 0 {
        "Z:"@
    } else {
        let acc = wine_spelling(parts.drop_last());
        match parts.last() {
            PathPartView::RootDir => acc.push('\\'),
            PathPartView::Normal(v) => {
                if acc.len() > 0 && acc.last() == '\\' {
                    acc + v
                } else {
                    acc.push('\\') + v
                }
            },
            _ => acc,
        }
    }
}

/// Whatever the path, Wine's spelling of it is on drive `Z:`.
pub proof fn wine_paths_are_on_drive_z(parts: Seq<PathPartView>)
    ensures
        wine_spelling(parts).len() >= 2,
        wine_spelling(parts).take(2) == "Z:"@,
    decreases parts.len(),
{
    reveal_strlit("Z:");
    if parts.len() > 0 {
        let acc = wine_spelling(parts.drop_last());
        wine_paths_are_on_drive_z(parts.drop_last());
        let r = wine_spelling(parts);
        assert(r.len() >= acc.len());
        assert forall|j: int| 0 <= j < 2 implies r[j] == acc[j] by {}
        assert(r.take(2) =~= acc.take(2));
    } else {
        assert(wine_spelling(parts).take(2) =~= "Z:"@);
    }
}

/// `wine_spelling` of the given components.
pub fn wine_path_from_parts(parts: &Vec<PathPart>) -> (r: String)
    ensures
        r@ == wine_spelling(part_views(parts@)),
{
    let mut r = String::new();
    push_str(&mut r, "Z:");
    let mut last_is_sep = false;
    let mut i: usize = 0;
    proof {
        reveal_strlit("Z:");
    }
    while i < parts.len()
        invariant
            i <= parts@.len(),
            r@ == wine_spelling(part_views(parts@.take(i as int))),
            r@.len() >= 2,
            last_is_sep == (r@.last() == '\\'),
        decreases parts@.len() - i,
    {
        let ghost prev = part_views(parts@.take(i as int));
        assert(part_views(parts@.take(i + 1)).drop_last() =~= prev);
        assert(part_views(parts@.take(i + 1)).last() == parts@[i as int]@);
        match &parts[i] {
            PathPart::RootDir => {
                push_char(&mut r, '\\');
                last_is_sep = true;
            },
            PathPart::Normal(v) => {
                if !last_is_sep {
                    push_char(&mut r, '\\');
                    last_is_sep = true;
                }
                let ghost before = r@;
                push_str(&mut r, v.as_str());
                let vv = chars_of(v.as_str());
                if vv.len() > 0 {
                    last_is_sep = vv[vv.len() - 1] == '\\';
                    assert(r@.last() == vv@.last());
                } else {
                    assert(r@ =~= before);
                }
            },
            _ => {},
        }
        i += 1;
    }
    assert(parts@.take(parts@.len() as int) =~= parts@);
    r
}

/// `wine_path`: how Wine spells the Unix path `path`
/// (`/home/au/game` becomes `Z:\home\au\game`).
pub fn wine_path(path: &str) -> (r: String)
    ensures
        r@ == wine_spelling(path_components(path@)),
{
    let parts = components(path);
    wine_path_from_parts(&parts)
}

/// What `Path::with_extension` makes of `path` and `extension`.
pub uninterp spec fn path_with_extension(path: Seq<char>, extension: Seq<char>) -> Seq<char>;

/// `Path::with_extension`: `path` with the extension of its last component
/// replaced by (or extended with) `extension`.  The result is named by
/// `path_with_extension`; nothing more of it is stated here.  The standard
/// library panics on an extension that holds a path separator, so such an
/// extension is not admitted.
#[verifier::external_body]
pub(crate) fn with_extension(path: &str, extension: &str) -> (r: String)
    requires
        !extension@.contains('/'),
    ensures
        r@ == path_with_extension(path@, extension@),
{
    std::path::Path::new(path).with_extension(extension).to_string_lossy().into_owned()
}

/// `path` lies in the tree of `base`: `base`'s components begin `path`'s.
pub open spec fn components_begin_with(path: Seq<PathPartView>, base: Seq<PathPartView>) -> bool {
    base.len() <= path.len() && path.take(base.len() as int) == base
}

} // verus!

verus! {

/// What `Path::strip_prefix` leaves of `path` once `base` is taken off its
/// front, if `base` is a prefix of it.
pub uninterp spec fn path_strip_prefix(path: Seq<char>, base: Seq<char>) -> Option<Seq<char>>;

/// `Path::strip_prefix`: the rest of `path` below `base`.  The standard
/// library documents that this fails exactly when `path` does not start with
/// `base`, where only whole components count, and that the rest, joined onto
/// `base`, gives back `path`: its components are those of `path` after
/// `base`'s.  Both are stated; the text of the rest is named by
/// `path_strip_prefix`.
#[verifier::external_body]
pub(crate) fn strip_path_prefix(path: &str, base: &str) -> (r: Option<String>)
    ensures
        opt_chars(r) == path_strip_prefix(path@, base@),
        r is Some <==> components_begin_with(path_components(path@), path_components(base@)),
        r matches Some(rest) ==> path_components(rest@) == path_components(path@).skip(
            path_components(base@).len() as int,
        ),
{
    std::path::Path::new(path).strip_prefix(base).ok().map(|p| p.to_string_lossy().into_owned())
}

pub open spec fn opt_chars(o: Option<String>) -> Option<Seq<char>> {
    match o {
        Some(s) => Some(s@),
        None => None,
    }
}

/// Whether `Path` considers the two paths equal: they have the same
/// components.
pub open spec fn same_path(a: Seq<char>, b: Seq<char>) -> bool {
    path_components(a) == path_components(b)
}

/// `==` on `Path`, which compares the paths' components.
#[verifier::external_body]
pub(crate) fn paths_equal(a: &str, b: &str) -> (r: bool)
    ensures
        r == same_path(a@, b@),
{
    std::path::Path::new(a) == std::path::Path::new(b)
}

} // verus!
