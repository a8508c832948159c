//! Paths held as text: joining, and spotting `..` components.

use vstd::prelude::*;
use crate::limits::strs_view;

verus! {

/// `base` with the relative path `part` appended, as `Path::join` does it on
/// Unix: a `/` is put between unless `base` is empty or already ends in one.
pub open spec fn path_join(base: Seq<char>, part: Seq<char>) -> Seq<char> {
    if base.len() == 0 || base.last() == '/' {
        base + part
    } else {
        base + "/"@ + part
    }
}

/// Appends the relative path `part` to `base`.
pub fn join_path(base: &str, part: &str) -> (r: String)
    ensures
        r@ == path_join(base@, part@),
{
    let n = base.unicode_len();
    let mut r = String::from_str(base);
    if n == 0 || base.get_char(n - 1) == '/' {
        r.append(part);
    } else {
        r.append("/");
        r.append(part);
    }
    r
}

/// A component of `p` is `..`: two dots bounded by separators or the ends.
pub open spec fn has_parent_component(p: Seq<char>) -> bool {
    exists|i: int|
        0 <= i && i + 2 <= p.len() && #[trigger] p[i] == '.' && p[i + 1] == '.' && (i == 0 || p[i
            - 1] == '/') && (i + 2 == p.len() || p[i + 2] == '/')
}

/// Whether one of the components of the path `p` refers to the parent directory.
pub fn parent_component_in(p: &str) -> (r: bool)
    ensures
        r == has_parent_component(p@),
{
    let v = crate::text::chars_of(p);
    let n = v.len();
    let mut i: usize = 0;
    while i < n && 2 <= n - i
        invariant
            i <= n,
            v@ == p@,
            n == v@.len(),
            forall|j: int|
                0 <= j < i ==> !(j + 2 <= v@.len() && #[trigger] v@[j] == '.' && v@[j + 1] == '.' && (
                j == 0 || v@[j - 1] == '/') && (j + 2 == v@.len() || v@[j + 2] == '/')),
        decreases n - i,
    {
        if v[i] == '.' && v[i + 1] == '.' && (i == 0 || v[i - 1] == '/') && (i + 2 == n || v[i
            + 2] == '/') {
            return true;
        }
        i = i + 1;
    }
    false
}

/// The paths of `paths` with no `..` component, in order.
pub open spec fn without_parent_refs(paths: Seq<Seq<char>>) -> Seq<Seq<char>>
    decreases paths.len(),
{
    if paths.len() == 0 {
        Seq::empty()
    } else {
        let rest = without_parent_refs(paths.drop_last());
        if has_parent_component(paths.last()) {
            rest
        } else {
            rest.push(paths.last())
        }
    }
}

/// Drops the paths that climb out through a `..` component.
pub fn keep_contained_paths(paths: &Vec<String>) -> (r: Vec<String>)
    ensures
        strs_view(r@) == without_parent_refs(strs_view(paths@)),
{
    let mut r: Vec<String> = Vec::new();
    let mut i: usize = 0;
    while i < paths.len()
        invariant
            i <= paths@.len(),
            strs_view(r@) == without_parent_refs(strs_view(paths@).take(i as int)),
        decreases paths.len() - i,
    {
        assert(strs_view(paths@).take(i + 1).drop_last() =~= strs_view(paths@).take(i as int));
        if !parent_component_in(paths[i].as_str()) {
            r.push(paths[i].clone());
            assert(strs_view(r@) =~= strs_view(r@).drop_last().push(paths@[i as int]@));
        }
        i = i + 1;
    }
    assert(strs_view(paths@).take(paths@.len() as int) =~= strs_view(paths@));
    r
}

} // verus!
