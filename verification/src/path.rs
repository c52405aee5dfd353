//! Paths as text.
//!
//! A path is a text whose components are separated by `/`. The operations
//! here are purely lexical: they never ask the file system anything, and
//! `..` components are not resolved. Separators at the end of a path count
//! for nothing, and neither do `.` components there: `/a/b/.` and `/a/b/`
//! lead where `/a/b` leads.

use crate::text::{append_chars, copy_chars, sub_chars, to_chars, to_text};
use vstd::prelude::*;

verus! {

/// Why a path could not be resolved.
#[derive(Debug, Clone, Copy, PartialEq, Eq, Structural)]
pub enum PathError {
    /// The path starts with `~` and no home directory is known.
    HomeUnknown,
}

/// The text `.`.
pub open spec fn dot() -> Seq<char> {
    seq!['.']
}

/// The text `..`, the name of the parent pseudo-entry.
pub open spec fn dot_dot() -> Seq<char> {
    seq!['.', '.']
}

/// The text `/`, the root directory.
pub open spec fn root() -> Seq<char> {
    seq!['/']
}

/// A path that starts at the root.
pub open spec fn is_absolute(p: Seq<char>) -> bool {
    p.len() > 0 && p[0] == '/'
}

/// A path whose last character is a separator.
pub open spec fn ends_with_separator(p: Seq<char>) -> bool {
    p.len() > 0 && p.last() == '/'
}

/// A name that can stand for one directory entry: not empty, without a
/// separator, and neither `.` nor `..`.
pub open spec fn is_plain_name(n: Seq<char>) -> bool {
    &&& n.len() > 0
    &&& !n.contains('/')
    &&& n != dot()
    &&& n != dot_dot()
}

/// `rel` resolved against `base`: an absolute `rel` replaces `base`;
/// otherwise `rel` is appended, after a separator unless `base` is empty or
/// already ends with one.
pub open spec fn joined(base: Seq<char>, rel: Seq<char>) -> Seq<char> {
    if is_absolute(rel) {
        rel
    } else if base.len() == 0 || base.last() == '/' {
        base + rel
    } else {
        base + root() + rel
    }
}

/// Whether `p` ends with a `.` component behind a separator.
pub open spec fn ends_with_dot_component(p: Seq<char>) -> bool {
    p.len() >= 2 && p.last() == '.' && p[p.len() - 2] == '/'
}

/// `p` without the separators and the `.` components at its end. A `.`
/// that is the whole path stays.
pub open spec fn trimmed(p: Seq<char>) -> Seq<char>
    decreases p.len(),
{
    if p.len() > 0 && (p.last() == '/' || ends_with_dot_component(p)) {
        trimmed(p.drop_last())
    } else {
        p
    }
}

/// `p` without the separators at its start.
pub open spec fn without_leading_separators(p: Seq<char>) -> Seq<char>
    decreases p.len(),
{
    if p.len() > 0 && p[0] == '/' {
        without_leading_separators(p.skip(1))
    } else {
        p
    }
}

/// The index just behind the last separator of `p`, or 0 where `p` has none.
pub open spec fn name_start(p: Seq<char>) -> int
    decreases p.len(),
{
    if p.len() == 0 {
        0
    } else if p.last() == '/' {
        p.len() as int
    } else {
        name_start(p.drop_last())
    }
}

/// The last component of `p`, separators and `.` components at the end
/// ignored. Empty for the empty path and for the root.
pub open spec fn last_component(p: Seq<char>) -> Seq<char> {
    let t = trimmed(p);
    t.skip(name_start(t))
}

/// The name of the entry that `p` leads to: its last component, unless that
/// is empty, `..`, or a `.` that is the whole path.
pub open spec fn file_name_of(p: Seq<char>) -> Option<Seq<char>> {
    let n = last_component(p);
    if n.len() == 0 || n == dot() || n == dot_dot() {
        None
    } else {
        Some(n)
    }
}

/// The path of the directory that holds `p`: `p` without its last
/// component. The root and the empty path have no parent; a single
/// relative component has the empty path as its parent.
pub open spec fn parent_of(p: Seq<char>) -> Option<Seq<char>> {
    let t = trimmed(p);
    if t.len() == 0 {
        None
    } else {
        let d = trimmed(t.take(name_start(t)));
        if d.len() == 0 && name_start(t) > 0 {
            Some(root())
        } else {
            Some(d)
        }
    }
}

/// Whether the first component of `p` is `~`.
pub open spec fn names_home(p: Seq<char>) -> bool {
    p.len() > 0 && p[0] == '~' && (p.len() == 1 || p[1] == '/')
}

/// `p` with a leading `~` component replaced by `home`.
pub open spec fn expanded(p: Seq<char>, home: Seq<char>) -> Seq<char> {
    if names_home(p) {
        joined(home, without_leading_separators(p.skip(1)))
    } else {
        p
    }
}

/// What `normalize_path` returns.
pub open spec fn normalized(p: Seq<char>, home: Option<Seq<char>>) -> Result<
    Seq<char>,
    PathError,
> {
    if names_home(p) {
        match home {
            Some(h) => Ok(expanded(p, h)),
            None => Err(PathError::HomeUnknown),
        }
    } else {
        Ok(p)
    }
}

/// The index of the last `.` in `n`, or -1 where `n` has none.
pub open spec fn last_dot(n: Seq<char>) -> int
    decreases n.len(),
{
    if n.len() == 0 {
        -1
    } else if n.last() == '.' {
        n.len() - 1
    } else {
        last_dot(n.drop_last())
    }
}

/// The extension of the name `n`: what follows its last `.`, unless the
/// name has no `.` or its only `.` is its first character.
pub open spec fn extension_of(n: Seq<char>) -> Option<Seq<char>> {
    let d = last_dot(n);
    if d <= 0 {
        None
    } else {
        Some(n.skip(d + 1))
    }
}

/// The trimmed path is the beginning of the path, ends neither with a
/// separator nor with a `.` component, and is trimmed itself.
pub proof fn lemma_trimmed_bounds(p: Seq<char>)
    ensures
        trimmed(p).len() <= p.len(),
        trimmed(p) == p.take(trimmed(p).len() as int),
        trimmed(p).len() > 0 ==> trimmed(p).last() != '/',
        !ends_with_dot_component(trimmed(p)),
        trimmed(trimmed(p)) == trimmed(p),
    decreases p.len(),
{
    if p.len() > 0 && (p.last() == '/' || ends_with_dot_component(p)) {
        lemma_trimmed_bounds(p.drop_last());
        assert(trimmed(p) =~= p.take(trimmed(p).len() as int));
    } else {
        assert(p =~= p.take(p.len() as int));
    }
}

/// A separator at the end of a path counts for nothing, and neither does
/// a `.` component there: the path leads to the same name in the same
/// directory with it or without.
pub proof fn lemma_end_counts_for_nothing(p: Seq<char>)
    ensures
        file_name_of(p + root()) == file_name_of(p),
        parent_of(p + root()) == parent_of(p),
        file_name_of(p + root() + dot()) == file_name_of(p),
        parent_of(p + root() + dot()) == parent_of(p),
{
    let with_separator = p + root();
    let with_dot = p + root() + dot();
    assert(with_separator.drop_last() =~= p);
    assert(with_dot.drop_last() =~= with_separator);
    assert(with_dot[with_dot.len() - 2] == '/');
    assert(trimmed(with_separator) == trimmed(p));
    assert(trimmed(with_dot) == trimmed(with_separator));
}

/// A path that ends with a plain name is trimmed.
pub proof fn lemma_plain_name_ends_trimmed(prefix: Seq<char>, name: Seq<char>)
    requires
        is_plain_name(name),
        prefix.len() == 0 || prefix.last() == '/',
    ensures
        trimmed(prefix + name) == prefix + name,
{
    let p = prefix + name;
    assert(name.contains(name.last()));
    assert(p.last() == name.last());
    if p.last() == '.' && p.len() >= 2 {
        if name.len() >= 2 {
            assert(name.contains(name[name.len() - 2]));
            assert(p[p.len() - 2] == name[name.len() - 2]);
        } else {
            assert(name =~= dot());
        }
    }
}

/// Behind a prefix that is empty or ends with a separator, a text without
/// separators is the last component: the name starts where the prefix ends.
pub proof fn lemma_name_start_of_appended_name(prefix: Seq<char>, name: Seq<char>)
    requires
        !name.contains('/'),
        prefix.len() == 0 || prefix.last() == '/',
    ensures
        name_start(prefix + name) == prefix.len(),
    decreases name.len(),
{
    let p = prefix + name;
    if name.len() == 0 {
        assert(p =~= prefix);
    } else {
        assert(name.contains(name.last()));
        assert(p.last() == name.last());
        assert(p.drop_last() =~= prefix + name.drop_last());
        assert forall|i: int| 0 <= i < name.drop_last().len() implies name.drop_last()[i]
            != '/' by {
            assert(name.contains(name[i]));
        }
        assert(!name.drop_last().contains('/'));
        lemma_name_start_of_appended_name(prefix, name.drop_last());
    }
}

/// The entry reached by joining a plain name to a directory has that name.
pub proof fn lemma_file_name_of_joined(dir: Seq<char>, name: Seq<char>)
    requires
        is_plain_name(name),
    ensures
        file_name_of(joined(dir, name)) == Some(name),
{
    assert(name.contains(name[0]));
    assert(name.contains(name.last()));
    let prefix = if dir.len() == 0 || dir.last() == '/' {
        dir
    } else {
        dir + root()
    };
    let p = joined(dir, name);
    assert(p =~= prefix + name);
    lemma_plain_name_ends_trimmed(prefix, name);
    lemma_name_start_of_appended_name(prefix, name);
    assert(p.skip(prefix.len() as int) =~= name);
}

/// A directory path without anything at its end that counts for nothing:
/// empty, the root, or with neither a separator nor a `.` component at its
/// end.
pub open spec fn is_tidy(dir: Seq<char>) -> bool {
    dir.len() == 0 || dir == root() || trimmed(dir) == dir
}

/// What a plain name is joined to is tidy afterwards.
pub proof fn lemma_joined_is_tidy(dir: Seq<char>, name: Seq<char>)
    requires
        is_plain_name(name),
    ensures
        is_tidy(joined(dir, name)),
{
    assert(name.contains(name[0]));
    let prefix = if dir.len() == 0 || dir.last() == '/' {
        dir
    } else {
        dir + root()
    };
    assert(joined(dir, name) =~= prefix + name);
    lemma_plain_name_ends_trimmed(prefix, name);
}

/// The entry reached by joining a plain name to a tidy directory lies in
/// that directory.
pub proof fn lemma_parent_of_joined(dir: Seq<char>, name: Seq<char>)
    requires
        is_plain_name(name),
        is_tidy(dir),
    ensures
        parent_of(joined(dir, name)) == Some(dir),
{
    assert(name.contains(name[0]));
    assert(name.contains(name.last()));
    let prefix = if dir.len() == 0 || dir.last() == '/' {
        dir
    } else {
        dir + root()
    };
    let p = joined(dir, name);
    assert(p =~= prefix + name);
    lemma_plain_name_ends_trimmed(prefix, name);
    lemma_name_start_of_appended_name(prefix, name);
    assert(name_start(p) == prefix.len());
    assert(p.take(prefix.len() as int) =~= prefix);
    let d = trimmed(prefix);
    lemma_trimmed_bounds(dir);
    if dir.len() == 0 {
        assert(d == dir);
    } else if dir.last() == '/' {
        assert(dir =~= root());
        assert(prefix.drop_last() =~= Seq::<char>::empty());
        assert(trimmed(prefix.drop_last()) =~= Seq::<char>::empty());
        assert(d.len() == 0);
    } else {
        assert(prefix.last() == '/');
        assert(prefix.drop_last() =~= dir);
        if dir == root() {
        } else {
            assert(trimmed(dir) == dir);
        }
        assert(d == dir);
    }
}

/// What is resolved against an absolute path is absolute, and so is the
/// parent of an absolute path.
pub proof fn lemma_absolute_paths(base: Seq<char>, rel: Seq<char>)
    requires
        is_absolute(base),
    ensures
        is_absolute(joined(base, rel)),
        parent_of(base) matches Some(p) ==> is_absolute(p),
{
    let t = trimmed(base);
    lemma_trimmed_bounds(base);
    if t.len() > 0 {
        lemma_name_start_positive(t);
        let head = t.take(name_start(t));
        lemma_trimmed_bounds(head);
        let d = trimmed(head);
        if d.len() > 0 {
            assert(d[0] == head[0]);
        }
    }
}

/// The name of an absolute path starts behind a separator.
proof fn lemma_name_start_positive(p: Seq<char>)
    requires
        is_absolute(p),
    ensures
        1 <= name_start(p) <= p.len(),
    decreases p.len(),
{
    if p.last() != '/' {
        assert(p.len() > 1);
        assert(p.drop_last()[0] == p[0]);
        lemma_name_start_positive(p.drop_last());
    }
}

/// The length of `trimmed(p)`.
fn trimmed_len(p: &Vec<char>) -> (n: usize)
    ensures
        n == trimmed(p@).len(),
        n <= p.len(),
{
    let mut n: usize = p.len();
    assert(p@.take(n as int) =~= p@);
    while n > 0 && (p[n - 1] == '/' || (n >= 2 && p[n - 1] == '.' && p[n - 2] == '/'))
        invariant
            n <= p.len(),
            trimmed(p@) == trimmed(p@.take(n as int)),
        decreases n,
    {
        assert(p@.take(n as int).drop_last() =~= p@.take(n - 1));
        n -= 1;
    }
    n
}

/// `name_start(p.take(len))`.
fn name_start_within(p: &Vec<char>, len: usize) -> (n: usize)
    requires
        len <= p.len(),
    ensures
        n == name_start(p@.take(len as int)),
        n <= len,
{
    let mut n: usize = len;
    while n > 0 && p[n - 1] != '/'
        invariant
            n <= len,
            len <= p.len(),
            name_start(p@.take(len as int)) == name_start(p@.take(n as int)),
        decreases n,
    {
        assert(p@.take(n as int).drop_last() =~= p@.take(n - 1));
        n -= 1;
    }
    n
}

/// `joined`, on characters.
pub fn join_chars(base: &Vec<char>, rel: &Vec<char>) -> (r: Vec<char>)
    ensures
        r@ == joined(base@, rel@),
{
    if rel.len() > 0 && rel[0] == '/' {
        return copy_chars(rel);
    }
    let mut r = copy_chars(base);
    if base.len() > 0 && base[base.len() - 1] != '/' {
        r.push('/');
        assert(r@ =~= base@ + root());
    }
    append_chars(&mut r, rel);
    r
}

/// `file_name_of`, on characters.
pub fn file_name_chars(p: &Vec<char>) -> (r: Option<Vec<char>>)
    ensures
        match r {
            Some(v) => file_name_of(p@) == Some(v@),
            None => file_name_of(p@) is None,
        },
{
    let end = trimmed_len(p);
    let start = name_start_within(p, end);
    proof {
        lemma_trimmed_bounds(p@);
    }
    let n = sub_chars(p, start, end);
    assert(n@ =~= last_component(p@));
    let is_dot = n.len() == 1 && n[0] == '.';
    let is_dot_dot = n.len() == 2 && n[0] == '.' && n[1] == '.';
    assert(is_dot == (n@ == dot())) by {
        if is_dot {
            assert(n@ =~= dot());
        }
    }
    assert(is_dot_dot == (n@ == dot_dot())) by {
        if is_dot_dot {
            assert(n@ =~= dot_dot());
        }
    }
    if n.len() == 0 || is_dot || is_dot_dot {
        None
    } else {
        Some(n)
    }
}

/// `parent_of`, on characters.
pub fn parent_chars(p: &Vec<char>) -> (r: Option<Vec<char>>)
    ensures
        match r {
            Some(v) => parent_of(p@) == Some(v@),
            None => parent_of(p@) is None,
        },
{
    let end = trimmed_len(p);
    if end == 0 {
        return None;
    }
    proof {
        lemma_trimmed_bounds(p@);
    }
    let start = name_start_within(p, end);
    let head = sub_chars(p, 0, start);
    assert(head@ =~= trimmed(p@).take(name_start(trimmed(p@))));
    let keep = trimmed_len(&head);
    if keep == 0 && start > 0 {
        let mut r: Vec<char> = Vec::new();
        r.push('/');
        assert(r@ =~= root());
        Some(r)
    } else {
        proof {
            lemma_trimmed_bounds(head@);
        }
        let r = sub_chars(&head, 0, keep);
        assert(r@ =~= trimmed(head@));
        Some(r)
    }
}

/// Whether the first component of `p` is `~`.
pub fn chars_name_home(p: &Vec<char>) -> (r: bool)
    ensures
        r == names_home(p@),
{
    p.len() > 0 && p[0] == '~' && (p.len() == 1 || p[1] == '/')
}

/// `expanded`, on characters.
pub fn expand_chars(p: &Vec<char>, home: &Vec<char>) -> (r: Vec<char>)
    ensures
        r@ == expanded(p@, home@),
{
    if !chars_name_home(p) {
        return copy_chars(p);
    }
    let mut i: usize = 1;
    assert(p@.skip(1).skip(0) =~= p@.skip(1));
    while i < p.len() && p[i] == '/'
        invariant
            1 <= i <= p.len(),
            without_leading_separators(p@.skip(1)) == without_leading_separators(
                p@.skip(i as int),
            ),
        decreases p.len() - i,
    {
        assert(p@.skip(i as int).skip(1) =~= p@.skip(i + 1));
        i += 1;
    }
    let rest = sub_chars(p, i, p.len());
    assert(rest@ =~= p@.skip(i as int));
    join_chars(home, &rest)
}

/// `extension_of`, on characters.
pub fn extension_chars(n: &Vec<char>) -> (r: Option<Vec<char>>)
    ensures
        match r {
            Some(v) => extension_of(n@) == Some(v@),
            None => extension_of(n@) is None,
        },
{
    let mut d: usize = n.len();
    assert(n@.take(d as int) =~= n@);
    while d > 0 && n[d - 1] != '.'
        invariant
            d <= n.len(),
            last_dot(n@) == last_dot(n@.take(d as int)),
        decreases d,
    {
        assert(n@.take(d as int).drop_last() =~= n@.take(d - 1));
        d -= 1;
    }
    assert(last_dot(n@) == d - 1) by {
        if d > 0 {
            assert(n@.take(d as int).last() == '.');
        }
    }
    if d <= 1 {
        None
    } else {
        let r = sub_chars(n, d, n.len());
        assert(r@ =~= n@.skip(d as int));
        Some(r)
    }
}

/// Resolves `rel` against `base`.
pub fn join(base: &str, rel: &str) -> (r: String)
    ensures
        r@ == joined(base@, rel@),
{
    to_text(&join_chars(&to_chars(base), &to_chars(rel)))
}

/// The name of the entry that `p` leads to, if it has one.
pub fn file_name(p: &str) -> (r: Option<String>)
    ensures
        r.deep_view() == file_name_of(p@),
{
    match file_name_chars(&to_chars(p)) {
        Some(n) => Some(to_text(&n)),
        None => None,
    }
}

/// The directory that holds `p`, if there is one.
pub fn parent(p: &str) -> (r: Option<String>)
    ensures
        r.deep_view() == parent_of(p@),
{
    match parent_chars(&to_chars(p)) {
        Some(d) => Some(to_text(&d)),
        None => None,
    }
}

/// The extension of the name `n`, if it has one.
pub fn extension(n: &str) -> (r: Option<String>)
    ensures
        r.deep_view() == extension_of(n@),
{
    match extension_chars(&to_chars(n)) {
        Some(e) => Some(to_text(&e)),
        None => None,
    }
}

/// Replaces a leading `~` component by the home directory. A path that does
/// not start with `~` is returned as it is, whether or not a home directory
/// is known.
pub fn normalize_path(p: &str, home: Option<&str>) -> (r: Result<String, PathError>)
    ensures
        match normalized(p@, home.deep_view()) {
            Ok(q) => r matches Ok(s) && s@ == q,
            Err(e) => r == Err::<String, PathError>(e),
        },
{
    let chars = to_chars(p);
    if chars_name_home(&chars) {
        match home {
            Some(h) => Ok(to_text(&expand_chars(&chars, &to_chars(h)))),
            None => Err(PathError::HomeUnknown),
        }
    } else {
        Ok(to_text(&chars))
    }
}

} // verus!
