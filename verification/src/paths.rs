//! Paths and their parts, as far as they are the same on every system.
//!
//! A path is text here. A slash separates names on every system; a backslash does so on some,
//! where a colon can end the name of a drive and two separators at the beginning can start the
//! name of a share. Paths without these are read alike everywhere.

use vstd::prelude::*;

verus! {

/// Where a character stands last in a text, or -1.
pub open spec fn last_place(s: Seq<char>, c: char) -> int
    decreases s.len(),
{
    if s.len() == 0 {
        -1
    } else if s.last() == c {
        s.len() - 1
    } else {
        last_place(s.drop_last(), c)
    }
}

/// A character that separates names, or a name from a drive, on some system.
pub open spec fn is_separator(c: char) -> bool {
    c == '/' || c == '\\' || c == ':'
}

/// A path in which the slash is the only separator, and which is read alike on every system.
pub open spec fn is_slash_path(path: Seq<char>) -> bool {
    &&& forall|i: int| 0 <= i < path.len() ==> is_separator(#[trigger] path[i]) ==> path[i] == '/'
    &&& !(path.len() >= 2 && path[0] == '/' && path[1] == '/')
}

/// The names in a path with slashes. Empty ones do not count, and neither does a single dot but
/// at the beginning.
pub open spec fn path_names(path: Seq<char>) -> Seq<Seq<char>>
    decreases path.len(),
{
    let slash = last_place(path, '/');
    if 0 <= slash < path.len() {
        let last = path.skip(slash + 1);
        if last.len() == 0 || last == seq!['.'] {
            path_names(path.take(slash))
        } else {
            path_names(path.take(slash)).push(last)
        }
    } else if path.len() == 0 {
        Seq::empty()
    } else {
        seq![path]
    }
}

/// The parts of a path.
#[verifier::ext_equal]
pub struct PathParts {
    /// The path begins at the root.
    pub rooted: bool,
    pub names: Seq<Seq<char>>,
}

impl PathParts {
    /// Without the last name.
    pub open spec fn above(self) -> PathParts {
        PathParts { names: self.names.drop_last(), ..self }
    }
}

/// The parts of a path with slashes.
pub open spec fn path_parts(path: Seq<char>) -> PathParts {
    PathParts { rooted: path.len() > 0 && path[0] == '/', names: path_names(path) }
}

/// A path with slashes, at least one name, and nothing in it that does not count.
pub open spec fn is_normal_path(path: Seq<char>) -> bool {
    is_slash_path(path) && has_only_names(path)
}

/// Between the slashes of a path stand names that count, and behind the last one too.
pub open spec fn has_only_names(path: Seq<char>) -> bool
    decreases path.len(),
{
    let slash = last_place(path, '/');
    if 0 <= slash < path.len() {
        let last = path.skip(slash + 1);
        last.len() > 0 && last != seq!['.'] && (slash > 0 ==> has_only_names(path.take(slash)))
    } else {
        path.len() > 0
    }
}

/// A normal path without its last name: empty where that is its only one.
pub open spec fn path_above(path: Seq<char>) -> Seq<char> {
    let slash = last_place(path, '/');
    if slash < 0 {
        Seq::empty()
    } else if slash == 0 {
        seq!['/']
    } else {
        path.take(slash)
    }
}

/// What the path of the directory above can be: none where there is no name to leave out, else
/// the beginning of the path with one name less. Of a normal path only the last name and the
/// slash before it are left out. Of a path that is not read alike everywhere the system decides
/// where that name begins.
pub open spec fn is_parent_of(path: Seq<char>, parent: Option<Seq<char>>) -> bool {
    &&& parent matches Some(above) ==> above.len() < path.len() && above == path.take(
        above.len() as int,
    )
    &&& is_slash_path(path) ==> match parent {
        Some(above) => path_names(path).len() > 0 && path_parts(above) == path_parts(path).above(),
        None => path_names(path).len() == 0,
    }
    &&& is_normal_path(path) ==> parent == Some(path_above(path))
}

/// The path is read alike everywhere, and is not just the current directory.
pub open spec fn has_known_name(path: Seq<char>) -> bool {
    is_slash_path(path) && path_names(path) != seq![seq!['.']]
}

/// The last name of a path with slashes, unless it stands for the directory above.
pub open spec fn file_name_in(path: Seq<char>) -> Option<Seq<char>> {
    if path_names(path).len() == 0 || path_names(path).last() == seq!['.', '.'] {
        None
    } else {
        Some(path_names(path).last())
    }
}

/// What the file name of a path can be. Of a path that is not read alike everywhere the system
/// decides which name is the last one, but it is not empty. Nothing more is said of the current
/// directory.
pub open spec fn is_file_name_of(path: Seq<char>, name: Option<Seq<char>>) -> bool {
    &&& has_known_name(path) ==> name == file_name_in(path)
    &&& name matches Some(name) ==> name.len() > 0
}

/// What follows the last dot of a name, unless that is its first character.
pub open spec fn name_extension(name: Seq<char>) -> Option<Seq<char>> {
    let dot = last_place(name, '.');
    if dot > 0 {
        Some(name.skip(dot + 1))
    } else {
        None
    }
}

/// What follows the last character that is a separator on some system.
pub open spec fn bare_name(path: Seq<char>) -> Seq<char>
    decreases path.len(),
{
    if path.len() == 0 || is_separator(path.last()) {
        Seq::empty()
    } else {
        bare_name(path.drop_last()).push(path.last())
    }
}

/// The path can begin with the name of a share.
pub open spec fn may_name_a_share(path: Seq<char>) -> bool {
    path.len() >= 2 && is_separator(path[0]) && is_separator(path[1])
}

/// What the extension of a path's file name can be. An extension that stands behind every
/// separator, whichever the system has, is the path's extension on all of them. Of other paths
/// that are not read alike everywhere the system decides, and nothing is said of the current
/// directory.
pub open spec fn is_extension_of(path: Seq<char>, extension: Option<Seq<char>>) -> bool {
    &&& has_known_name(path) ==> extension == match file_name_in(path) {
        Some(name) => name_extension(name),
        None => None,
    }
    &&& !may_name_a_share(path) && bare_name(path) != seq!['.', '.'] && name_extension(
        bare_name(path),
    ) is Some ==> extension == name_extension(bare_name(path))
}

/// What stands above a normal path has the same parts but for the last name.
pub proof fn normal_paths_have_a_parent(path: Seq<char>)
    requires
        is_normal_path(path),
    ensures
        is_parent_of(path, Some(path_above(path))),
{
    lemma_last_place(path, '/');
    let slash = last_place(path, '/');
    let above = path_above(path);
    if slash < 0 {
        assert(path_names(path).drop_last() =~= Seq::<Seq<char>>::empty());
        assert(path_names(above) =~= Seq::<Seq<char>>::empty());
        assert(above =~= path.take(0));
        assert(path_parts(above) =~= path_parts(path).above());
    } else if slash == 0 {
        lemma_root_has_no_names();
        assert(path.take(0) =~= Seq::<char>::empty());
        assert(path_names(path).drop_last() =~= Seq::<Seq<char>>::empty());
        assert(path.skip(1).len() > 0);
        assert(above =~= path.take(1));
        assert(path_parts(above) =~= path_parts(path).above());
    } else {
        assert(path_names(path).drop_last() =~= path_names(above));
        assert(above[0] == path[0]);
        assert(path_parts(above) =~= path_parts(path).above());
    }
}

/// Neither the root nor an empty path has a name, so nothing is above them.
pub proof fn nothing_is_above_the_root(path: Seq<char>, parent: Option<Seq<char>>)
    requires
        path.len() == 0 || path == seq!['/'],
        is_parent_of(path, parent),
    ensures
        parent is None,
{
    lemma_root_has_no_names();
    assert(is_slash_path(path));
}

/// The directory above is named by a shorter path.
pub proof fn parents_have_shorter_paths(path: Seq<char>, above: Seq<char>)
    requires
        is_parent_of(path, Some(above)),
    ensures
        above.len() < path.len(),
        is_slash_path(path) ==> is_slash_path(above),
{
    if is_slash_path(path) {
        assert forall|i: int| 0 <= i < above.len() && is_separator(#[trigger] above[i]) implies
            above[i] == '/' by {
            assert(above[i] == path[i]);
        }
        if above.len() >= 2 {
            assert(above[0] == path[0] && above[1] == path[1]);
        }
    }
}

proof fn lemma_root_has_no_names()
    ensures
        path_names(seq!['/']).len() == 0,
        path_names(Seq::<char>::empty()).len() == 0,
{
    let root = seq!['/'];
    assert(root.last() == '/');
    assert(last_place(root, '/') == 0);
    assert(root.take(0) =~= Seq::<char>::empty());
    assert(last_place(root.take(0), '/') == -1);
    assert(root.skip(1).len() == 0);
    assert(path_names(root.take(0)).len() == 0);
}

proof fn lemma_last_place(s: Seq<char>, c: char)
    ensures
        -1 <= last_place(s, c) < s.len(),
        last_place(s, c) >= 0 ==> s[last_place(s, c)] == c,
        forall|i: int| last_place(s, c) < i < s.len() ==> #[trigger] s[i] != c,
    decreases s.len(),
{
    if s.len() > 0 && s.last() != c {
        lemma_last_place(s.drop_last(), c);
        assert forall|i: int| last_place(s, c) < i < s.len() implies #[trigger] s[i] != c by {
            if i < s.len() - 1 {
                assert(s.drop_last()[i] == s[i]);
            }
        }
    }
}

} // verus!
