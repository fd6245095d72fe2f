//! UTF-8 file system paths, as text.

use crate::text;
use camino::Utf8Path;
use vstd::prelude::*;

verus! {

/// Whether `name` is a plain file name: one component on every system.
pub open spec fn plain_name(name: Seq<char>) -> bool {
    name.len() > 0 && name != "."@ && name != ".."@ && forall|i: int|
        0 <= i < name.len() ==> #[trigger] name[i] != '/' && name[i] != '\\' && name[i] != ':'
}

/// Whether the component of a verbatim path that begins at `at` is one or two
/// dots.
pub open spec fn dots_at(dir: Seq<char>, at: int) -> bool {
    at < dir.len() && dir[at] == '.' && (at + 1 == dir.len() || dir[at + 1] == '\\' || (dir[at + 1]
        == '.' && (at + 2 == dir.len() || dir[at + 2] == '\\')))
}

/// Whether a directory keeps its form when a name is put behind it. A verbatim
/// Windows path, with the mark `\\?\`, is normalised on the way, which shows
/// where it has doubled separators or components of one or two dots.
pub open spec fn tidy(dir: Seq<char>) -> bool {
    text::occurs_at(dir, "\\\\?\\"@, 0) ==> forall|i: int|
        3 <= i < dir.len() - 1 && #[trigger] dir[i] == '\\' ==> dir[i + 1] != '\\' && !dots_at(
            dir,
            i + 1,
        )
}

/// Whether nothing may stand between a directory and a name behind it: the
/// directory ends in a separator or a drive's colon.
pub open spec fn ends_open(dir: Seq<char>) -> bool {
    dir.last() == '/' || dir.last() == '\\' || dir.last() == ':'
}

/// Whether `path` is `dir` followed by `name`, with a separator between the two
/// unless the directory is empty or ends in one.
pub open spec fn behind(dir: Seq<char>, name: Seq<char>, path: Seq<char>) -> bool {
    if dir.len() == 0 {
        path == name
    } else {
        path == dir + seq!['/'] + name || path == dir + seq!['\\'] + name || (ends_open(dir) && path
            == dir + name)
    }
}

/// Whether `path` ends in `name`.
pub open spec fn ends_in(path: Seq<char>, name: Seq<char>) -> bool {
    text::occurs_at(path, name, path.len() - name.len())
}

/// Whether `path` is that of `name` in the directory `dir`: it ends in the name,
/// and begins with the directory as far as that is tidy.
pub open spec fn under(dir: Seq<char>, name: Seq<char>, path: Seq<char>) -> bool {
    ends_in(path, name) && (tidy(dir) ==> behind(dir, name, path))
}

/// The path of `name` in the directory `dir` where a slash separates components.
pub open spec fn slash_joined(dir: Seq<char>, name: Seq<char>) -> Seq<char> {
    if dir.len() == 0 || dir.last() == '/' {
        dir + name
    } else {
        dir + "/"@ + name
    }
}

/// Whether a path reads the same on every system: single slashes separate its
/// components, and no component but the first is a dot.
pub open spec fn portable(path: Seq<char>) -> bool {
    &&& path.len() > 0
    &&& path.last() != '/'
    &&& forall|i: int| 0 <= i < path.len() ==> #[trigger] path[i] != '\\' && path[i] != ':'
    &&& forall|i: int|
        0 <= i < path.len() - 1 && #[trigger] path[i] == '/' ==> path[i + 1] != '/' && !(path[i + 1]
            == '.' && (i + 2 == path.len() || path[i + 2] == '/'))
}

/// Whether `path` is that of the plain name `name` in the portable directory
/// `dir`, on every system.
pub open spec fn splits(dir: Seq<char>, name: Seq<char>, path: Seq<char>) -> bool {
    portable(dir) && plain_name(name) && path == dir + seq!['/'] + name
}

/// Names of which neither is the end of the other have different paths in one
/// directory.
pub proof fn different_names_are_different_paths(
    dir: Seq<char>,
    a: Seq<char>,
    b: Seq<char>,
    first: Seq<char>,
    second: Seq<char>,
)
    requires
        !ends_in(a, b),
        !ends_in(b, a),
        under(dir, a, first),
        under(dir, b, second),
    ensures
        first != second,
{
    if first == second {
        let at = first.len() - a.len();
        let start = first.len() - b.len();
        if a.len() <= b.len() {
            assert(b.subrange(b.len() - a.len(), b.len() as int) =~= first.subrange(
                at,
                at + a.len(),
            )) by {
                assert(b == first.subrange(start, start + b.len()));
            }
        } else {
            assert(a.subrange(a.len() - b.len(), a.len() as int) =~= first.subrange(
                start,
                start + b.len(),
            )) by {
                assert(a == first.subrange(at, at + a.len()));
            }
        }
    }
}

/// What stands before one name in a directory stands before every name there.
pub proof fn a_directory_has_one_beginning(
    dir: Seq<char>,
    lead: Seq<char>,
    name: Seq<char>,
    other: Seq<char>,
)
    requires
        plain_name(name),
        under(dir, name, lead + name),
    ensures
        under(dir, other, lead + other),
{
    let whole = lead + other;
    assert(whole.subrange(lead.len() as int, whole.len() as int) =~= other);
    if tidy(dir) {
        let path = lead + name;
        assert(path.take(lead.len() as int) =~= lead);
        if dir.len() == 0 {
            assert(lead =~= dir);
            assert(whole =~= other);
        } else if path == dir + seq!['/'] + name {
            assert((dir + seq!['/'] + name).take(lead.len() as int) =~= dir + seq!['/']);
        } else if path == dir + seq!['\\'] + name {
            assert((dir + seq!['\\'] + name).take(lead.len() as int) =~= dir + seq!['\\']);
        } else {
            assert((dir + name).take(lead.len() as int) =~= dir);
        }
    }
}

/// The path of `name` in `dir` where a slash separates components.
pub fn join_slash(dir: &str, name: &str) -> (res: String)
    ensures
        res@ == slash_joined(dir@, name@),
{
    let chars: Vec<char> = text::chars_of(dir);
    if chars.len() == 0 || chars[chars.len() - 1] == '/' {
        text::concat(dir, name)
    } else {
        text::concat3(dir, "/", name)
    }
}

/// A path that was joined with a slash is that of the name in the directory.
pub proof fn a_slash_joins(dir: Seq<char>, name: Seq<char>)
    ensures
        under(dir, name, slash_joined(dir, name)),
{
    reveal_strlit("/");
    let path = slash_joined(dir, name);
    assert(path.subrange(path.len() - name.len(), path.len() as int) =~= name);
    assert("/"@ =~= seq!['/']);
    assert(dir.len() == 0 ==> path =~= name);
}

/// The pieces of a path between its slashes.
pub open spec fn pieces(path: Seq<char>) -> Seq<Seq<char>>
    decreases path.len(),
{
    if path.len() == 0 {
        seq![path]
    } else {
        let head = pieces(path.drop_last());
        if path.last() == '/' {
            head.push(Seq::empty())
        } else {
            head.drop_last().push(head.last().push(path.last()))
        }
    }
}

/// Whether the piece at position `at` counts: doubled slashes make none, and a
/// dot counts at the beginning only.
pub open spec fn counts(piece: Seq<char>, at: int) -> bool {
    piece.len() > 0 && (at == 0 || piece != "."@)
}

/// The pieces that count.
pub open spec fn counted(pieces: Seq<Seq<char>>) -> Seq<Seq<char>>
    decreases pieces.len(),
{
    if pieces.len() == 0 {
        pieces
    } else if counts(pieces.last(), pieces.len() - 1) {
        counted(pieces.drop_last()).push(pieces.last())
    } else {
        counted(pieces.drop_last())
    }
}

/// Whether a path has the same components on every system: slashes alone
/// separate them, and it begins with one slash at most.
pub open spec fn slashed(path: Seq<char>) -> bool {
    &&& forall|i: int| 0 <= i < path.len() ==> #[trigger] path[i] != '\\' && path[i] != ':'
    &&& path.len() > 1 && path[0] == '/' ==> path[1] != '/'
}

/// Whether two slashed paths have the same components.
pub open spec fn same_components(a: Seq<char>, b: Seq<char>) -> bool {
    (a.len() > 0 && a[0] == '/') == (b.len() > 0 && b[0] == '/') && counted(pieces(a)) == counted(
        pieces(b),
    )
}

/// Whether `same` tells if two paths are equal, as far as that does not depend
/// on the machine: a path is equal to itself, and slashed paths are equal if
/// they have the same components.
pub open spec fn agrees(a: Seq<char>, b: Seq<char>, same: bool) -> bool {
    (a == b ==> same) && (slashed(a) && slashed(b) ==> same == same_components(a, b))
}

/// The pieces with slashes between them.
spec fn glued(pieces: Seq<Seq<char>>) -> Seq<char>
    decreases pieces.len(),
{
    if pieces.len() == 0 {
        Seq::empty()
    } else if pieces.len() == 1 {
        pieces[0]
    } else {
        glued(pieces.drop_last()) + seq!['/'] + pieces.last()
    }
}

proof fn lemma_glued(path: Seq<char>)
    ensures
        pieces(path).len() > 0,
        glued(pieces(path)) == path,
    decreases path.len(),
{
    if path.len() > 0 {
        let before = path.drop_last();
        let head = pieces(before);
        let all = pieces(path);
        lemma_glued(before);
        if path.last() == '/' {
            assert(all.drop_last() =~= head);
            assert(glued(all) =~= path);
        } else {
            assert(all.drop_last() =~= head.drop_last());
            assert(glued(all) =~= glued(head).push(path.last()));
            assert(before.push(path.last()) =~= path);
        }
    }
}

/// Whether no slash follows a slash, and no dot alone stands behind one but at
/// the end.
spec fn orderly(path: Seq<char>) -> bool {
    forall|i: int|
        0 <= i < path.len() - 1 && #[trigger] path[i] == '/' ==> path[i + 1] != '/' && !(path[i + 1]
            == '.' && i + 2 < path.len() && path[i + 2] == '/')
}

/// In an orderly path every piece counts but the first, which may be empty, and
/// the last, which stands at the end of the path.
proof fn lemma_orderly_pieces(path: Seq<char>)
    requires
        orderly(path),
    ensures
        ({
            let all = pieces(path);
            &&& all.len() > 0
            &&& all.last().len() <= path.len()
            &&& all.last() == path.skip(path.len() - all.last().len())
            &&& all.len() == 1 ==> all.last().len() == path.len()
            &&& all.len() > 1 ==> all.last().len() < path.len() && path[path.len() - all.last().len()
                - 1] == '/' && (all[0].len() == 0 <==> path[0] == '/')
            &&& forall|i: int| 0 < i < all.len() - 1 ==> counts(#[trigger] all[i], i)
        }),
    decreases path.len(),
{
    if path.len() > 0 {
        let before = path.drop_last();
        assert forall|i: int| 0 <= i < before.len() - 1 && #[trigger] before[i] == '/' implies before[
        i + 1] != '/' && !(before[i + 1] == '.' && i + 2 < before.len() && before[i + 2] == '/') by {
            assert(path[i] == '/');
        }
        lemma_orderly_pieces(before);
        let head = pieces(before);
        let all = pieces(path);
        reveal_strlit(".");
        if path.last() == '/' {
            assert(all.last() =~= path.skip(path.len() as int));
            let last = head.last();
            let start = before.len() - last.len();
            if head.len() > 1 {
                assert(path[start - 1] == '/');
                assert(path[start] != '/');
                assert(last.len() > 0);
                if last == "."@ {
                    assert(last[0] == before[start]);
                    assert(path[start + 1] == '/');
                }
                assert(counts(last, head.len() - 1));
            } else {
                assert(last.len() == before.len());
                if before.len() > 0 {
                    assert(last[0] == before[0]);
                    lemma_first_piece(before);
                }
            }
            assert forall|i: int| 0 < i < all.len() - 1 implies counts(#[trigger] all[i], i) by {
                assert(all[i] == head[i]);
            }
        } else {
            assert(all.last() =~= path.skip(path.len() - all.last().len()));
            assert forall|i: int| 0 < i < all.len() - 1 implies counts(#[trigger] all[i], i) by {
                assert(all[i] == head[i]);
            }
            if all.len() > 1 {
                assert(all[0] == head[0]);
                assert(path[0] == before[0]);
            }
        }
    }
}

/// A path of one piece holds no slash.
proof fn lemma_first_piece(path: Seq<char>)
    requires
        pieces(path).len() == 1,
    ensures
        forall|i: int| 0 <= i < path.len() ==> #[trigger] path[i] != '/',
    decreases path.len(),
{
    if path.len() > 0 {
        let before = path.drop_last();
        lemma_glued(before);
        if path.last() != '/' {
            lemma_first_piece(before);
            assert forall|i: int| 0 <= i < path.len() implies #[trigger] path[i] != '/' by {
                if i < before.len() {
                    assert(before[i] == path[i]);
                }
            }
        }
    }
}

proof fn lemma_all_counted(list: Seq<Seq<char>>, from: int)
    requires
        0 <= from <= 1,
        from <= list.len(),
        from == 1 ==> !counts(list[0], 0),
        forall|i: int| from <= i < list.len() ==> counts(#[trigger] list[i], i),
    ensures
        counted(list) == list.skip(from),
    decreases list.len(),
{
    if list.len() > from {
        let head = list.drop_last();
        assert forall|i: int| from <= i < head.len() implies counts(#[trigger] head[i], i) by {
            assert(head[i] == list[i]);
        }
        lemma_all_counted(head, from);
        assert(counts(list[list.len() - 1], list.len() - 1));
        assert(counted(list) =~= list.skip(from));
    } else if from == 1 {
        assert(list.last() == list[0]);
        assert(counted(list.drop_last()) =~= list.skip(1));
    }
}

/// A portable path is made up of its components.
proof fn lemma_portable_pieces(path: Seq<char>)
    requires
        portable(path),
    ensures
        counted(pieces(path)) == pieces(path).skip(
            if path[0] == '/' {
                1int
            } else {
                0
            },
        ),
        path[0] == '/' ==> pieces(path)[0] == Seq::<char>::empty(),
        glued(pieces(path)) == path,
        pieces(path).len() > 0,
{
    let all = pieces(path);
    lemma_orderly_pieces(path);
    lemma_glued(path);
    reveal_strlit(".");
    let last = all.last();
    let start = path.len() - last.len();
    if all.len() > 1 {
        assert(path[start - 1] == '/');
        assert(start < path.len());
        assert(last.len() > 0);
        if last == "."@ {
            assert(last[0] == path[start]);
        }
        assert(counts(last, all.len() - 1));
        if path[0] == '/' {
            assert(all[0] =~= Seq::<char>::empty());
            lemma_all_counted(all, 1);
        } else {
            lemma_all_counted(all, 0);
        }
    } else {
        lemma_first_piece(path);
        assert(path[0] != '/');
        lemma_all_counted(all, 0);
    }
}

/// Different portable paths have different components.
pub proof fn portable_paths_are_their_components(a: Seq<char>, b: Seq<char>, same: bool)
    requires
        portable(a),
        portable(b),
        agrees(a, b, same),
    ensures
        same == (a == b),
{
    assert(slashed(a)) by {
        if a.len() > 1 && a[0] == '/' {
            assert(a[1] != '/');
        }
    }
    assert(slashed(b)) by {
        if b.len() > 1 && b[0] == '/' {
            assert(b[1] != '/');
        }
    }
    if same {
        lemma_portable_pieces(a);
        lemma_portable_pieces(b);
        let first = pieces(a);
        let second = pieces(b);
        if a[0] == '/' {
            assert(first =~= seq![Seq::<char>::empty()] + first.skip(1));
            assert(second =~= seq![Seq::<char>::empty()] + second.skip(1));
        } else {
            assert(first =~= first.skip(0));
            assert(second =~= second.skip(0));
        }
    }
}

/// Wraps `Utf8Path::join`: a plain file name is put behind the directory, after
/// a separator where one is needed, and is what the path ends in. Which separator
/// that is depends on the machine. Nothing is said of names that are not plain,
/// nor of what a directory that is not tidy is turned into.
#[verifier::external_body]
pub(crate) fn join(dir: &str, name: &str) -> (res: String)
    ensures
        plain_name(name@) ==> under(dir@, name@, res@),
{
    Utf8Path::new(dir).join(name).into_string()
}

/// Wraps `Utf8Path::parent`: the path without its final component, which is a
/// shorter beginning of it. Where components end depends on the machine, but
/// for a plain name behind a slash in a portable directory.
#[verifier::external_body]
pub(crate) fn parent(path: &str) -> (res: Option<String>)
    ensures
        res matches Some(dir) ==> dir@.len() < path@.len() && dir@ == path@.take(
            dir@.len() as int,
        ),
        forall|dir: Seq<char>, name: Seq<char>| #[trigger]
            splits(dir, name, path@) ==> res is Some && res->0@ == dir,
{
    Utf8Path::new(path).parent().map(|dir| dir.to_string())
}

/// Wraps `Utf8Path::file_name`: the final component, if it is a name, which is
/// a part of the path. Where components end depends on the machine, but for a
/// plain name behind a slash in a portable directory.
#[verifier::external_body]
pub(crate) fn file_name(path: &str) -> (res: Option<String>)
    ensures
        res matches Some(name) ==> name@.len() > 0 && exists|at: int|
            text::occurs_at(path@, name@, at),
        forall|dir: Seq<char>, name: Seq<char>| #[trigger]
            splits(dir, name, path@) ==> res is Some && res->0@ == name,
{
    Utf8Path::new(path).file_name().map(|name| name.to_string())
}

/// Wraps the equality of `Utf8Path`, which compares component by component.
/// Repeated separators, and dots but at the beginning, make no component. What
/// else separates components depends on the machine.
#[verifier::external_body]
pub(crate) fn same_path(a: &str, b: &str) -> (res: bool)
    ensures
        agrees(a@, b@, res),
{
    Utf8Path::new(a) == Utf8Path::new(b)
}

} // verus!
