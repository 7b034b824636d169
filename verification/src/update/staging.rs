//! The files of a staged legacy release (one without a manifest): every regular file below
//! the release root, in the order of `Path`'s `<`, component by component.
use vstd::prelude::*;

use super::error::{ErrorView, UpdateError, err_view};
use crate::text::{chars_lt, chars_of, join, join_vec, lemma_lex_order, lex_lt, str_eq, string_of_all};

verus! {

/// What a directory listing found at a path below the release root.
#[derive(Clone, Copy, Debug, PartialEq, Eq, Structural)]
pub enum ListedKind {
    File,
    Directory,
    /// A link or another special file.
    Other,
}

/// One path below the release root, as its components, and what is there.
#[derive(Clone, Debug)]
pub struct ListedEntry {
    pub components: Vec<String>,
    pub kind: ListedKind,
}

pub open spec fn texts(v: Seq<String>) -> Seq<Seq<char>> {
    v.map_values(|s: String| s@)
}

/// `Path`'s `<` on relative paths: component by component, a proper prefix first.
pub open spec fn path_lt_from(a: Seq<Seq<char>>, b: Seq<Seq<char>>, i: int) -> bool
    decreases a.len() - i,
{
    if i >= a.len() {
        i < b.len()
    } else if i >= b.len() {
        false
    } else if a[i] != b[i] {
        lex_lt(a[i], b[i])
    } else {
        path_lt_from(a, b, i + 1)
    }
}

pub open spec fn path_lt(a: Seq<Seq<char>>, b: Seq<Seq<char>>) -> bool {
    path_lt_from(a, b, 0)
}

proof fn lemma_path_from_facts(a: Seq<Seq<char>>, b: Seq<Seq<char>>, c: Seq<Seq<char>>, i: int)
    requires
        0 <= i,
        i <= a.len(),
        i <= b.len(),
        i <= c.len(),
        a.subrange(0, i) == b.subrange(0, i),
        b.subrange(0, i) == c.subrange(0, i),
    ensures
        !path_lt_from(a, a, i),
        path_lt_from(a, b, i) ==> !path_lt_from(b, a, i),
        a != b ==> path_lt_from(a, b, i) || path_lt_from(b, a, i),
        path_lt_from(a, b, i) && path_lt_from(b, c, i) ==> path_lt_from(a, c, i),
    decreases a.len() - i,
{
    if i < a.len() && i < b.len() {
        lemma_lex_order(a[i], b[i], a[i]);
    }
    if i < a.len() && i < b.len() && i < c.len() {
        lemma_lex_order(a[i], b[i], c[i]);
        lemma_lex_order(b[i], a[i], c[i]);
        lemma_lex_order(a[i], c[i], b[i]);
    }
    if i < a.len() && i < b.len() && i < c.len() && a[i] == b[i] && b[i] == c[i] {
        assert(a.subrange(0, i + 1) == a.subrange(0, i).push(a[i]));
        assert(b.subrange(0, i + 1) == b.subrange(0, i).push(b[i]));
        assert(c.subrange(0, i + 1) == c.subrange(0, i).push(c[i]));
        lemma_path_from_facts(a, b, c, i + 1);
    } else if i < a.len() && i < b.len() && a[i] == b[i] {
        assert(a.subrange(0, i + 1) == a.subrange(0, i).push(a[i]));
        assert(b.subrange(0, i + 1) == b.subrange(0, i).push(b[i]));
        lemma_path_from_facts(a, b, b, i + 1);
    }
    if a != b && i == a.len() && i == b.len() {
        assert(a =~= a.subrange(0, i));
        assert(b =~= b.subrange(0, i));
    }
    if i < a.len() {
        lemma_lex_order(a[i], a[i], a[i]);
        assert(a.subrange(0, i + 1) == a.subrange(0, i).push(a[i]));
        lemma_path_from_facts(a, a, a, i + 1);
    }
}

/// `<` on relative paths is a strict total order.
pub proof fn lemma_path_order(a: Seq<Seq<char>>, b: Seq<Seq<char>>, c: Seq<Seq<char>>)
    ensures
        !path_lt(a, a),
        path_lt(a, b) ==> !path_lt(b, a),
        a != b ==> path_lt(a, b) || path_lt(b, a),
        path_lt(a, b) && path_lt(b, c) ==> path_lt(a, c),
{
    assert(a.subrange(0, 0) =~= b.subrange(0, 0));
    assert(b.subrange(0, 0) =~= c.subrange(0, 0));
    lemma_path_from_facts(a, b, c, 0);
}

fn components_lt(a: &Vec<String>, b: &Vec<String>) -> (r: bool)
    ensures
        r == path_lt(texts(a@), texts(b@)),
{
    let ghost ta = texts(a@);
    let ghost tb = texts(b@);
    let mut i: usize = 0;
    while i < a.len() && i < b.len()
        invariant
            i <= a.len(),
            i <= b.len(),
            ta == texts(a@),
            tb == texts(b@),
            path_lt(ta, tb) == path_lt_from(ta, tb, i as int),
        decreases a.len() - i,
    {
        if !str_eq(a[i].as_str(), b[i].as_str()) {
            return chars_lt(&chars_of(a[i].as_str()), &chars_of(b[i].as_str()));
        }
        i = i + 1;
    }
    i < b.len()
}

/// No path comes before an earlier one.
pub open spec fn in_path_order(s: Seq<Seq<Seq<char>>>) -> bool {
    forall|i: int, j: int| 0 <= i < j < s.len() ==> !path_lt(#[trigger] s[j], #[trigger] s[i])
}

pub open spec fn listed_views(v: Seq<Vec<String>>) -> Seq<Seq<Seq<char>>> {
    v.map_values(|c: Vec<String>| texts(c@))
}

/// The component lists of the regular files of a listing, in listing order.
pub open spec fn listed_files(listing: Seq<ListedEntry>) -> Seq<Seq<Seq<char>>>
    decreases listing.len(),
{
    if listing.len() == 0 {
        Seq::empty()
    } else {
        let rest = listed_files(listing.drop_last());
        if listing.last().kind == ListedKind::File {
            rest.push(texts(listing.last().components@))
        } else {
            rest
        }
    }
}

pub open spec fn has_special(listing: Seq<ListedEntry>) -> bool {
    exists|i: int| 0 <= i < listing.len() && #[trigger] listing[i].kind == ListedKind::Other
}

pub open spec fn special_file_view() -> ErrorView {
    err_view("update_release_layout_invalid"@, "更新包包含不支持的链接或特殊文件。"@)
}

/// The regular files in path order, their components joined with `\`.
pub open spec fn release_files_shown(files: Seq<Seq<Seq<char>>>, shown: Seq<Seq<char>>) -> bool {
    exists|sorted: Seq<Seq<Seq<char>>>|
        #![trigger sorted.to_multiset()]
        in_path_order(sorted) && sorted.to_multiset() == files.to_multiset() && shown == sorted.map_values(
            |c: Seq<Seq<char>>| join(c, '\\'),
        )
}

fn sort_paths(listing: &Vec<ListedEntry>) -> (r: Vec<Vec<String>>)
    ensures
        in_path_order(listed_views(r@)),
        listed_views(r@).to_multiset() == listed_files(listing@).to_multiset(),
{
    let mut out: Vec<Vec<String>> = Vec::new();
    let mut i: usize = 0;
    proof {
        assert(listed_views(out@) =~= Seq::<Seq<Seq<char>>>::empty());
        assert(listing@.subrange(0, 0) =~= Seq::<ListedEntry>::empty());
    }
    while i < listing.len()
        invariant
            i <= listing.len(),
            listed_views(out@).to_multiset() == listed_files(listing@.subrange(0, i as int)).to_multiset(),
            in_path_order(listed_views(out@)),
        decreases listing.len() - i,
    {
        let ghost prefix = listing@.subrange(0, i as int);
        let ghost next = listing@.subrange(0, i as int + 1);
        proof {
            assert(next.drop_last() =~= prefix);
            assert(next.last() == listing@[i as int]);
        }
        if listing[i].kind == ListedKind::File {
            let item = &listing[i].components;
            let ghost p = texts(item@);
            let mut pos: usize = 0;
            while pos < out.len() && !components_lt(item, &out[pos])
                invariant
                    pos <= out.len(),
                    p == texts(item@),
                    forall|k: int| 0 <= k < pos ==> !path_lt(p, #[trigger] listed_views(out@)[k]),
                decreases out.len() - pos,
            {
                pos = pos + 1;
            }
            let ghost before = listed_views(out@);
            out.insert(pos, item.clone());
            proof {
                let after = listed_views(out@);
                assert(after =~= before.insert(pos as int, p));
                vstd::seq_lib::to_multiset_insert(before, pos as int, p);
                vstd::seq_lib::to_multiset_build(listed_files(prefix), p);
                assert(after.to_multiset() == before.to_multiset().insert(p));
                assert(listed_files(next) == listed_files(prefix).push(p));
                assert(pos < before.len() ==> path_lt(p, before[pos as int]));
                assert forall|a: int, b: int| 0 <= a < b < after.len() implies !path_lt(
                    #[trigger] after[b],
                    #[trigger] after[a],
                ) by {
                    if b < pos {
                    } else if b == pos {
                    } else if a < pos {
                        if path_lt(before[b - 1], before[a]) {
                        }
                    } else if a == pos {
                        lemma_path_order(before[b - 1], p, before[pos as int]);
                        if b - 1 > pos {
                            assert(!path_lt(before[b - 1], before[pos as int]));
                        }
                    } else {
                        assert(!path_lt(before[b - 1], before[a - 1]));
                    }
                }
            }
        } else {
            proof {
                assert(listed_files(next) == listed_files(prefix));
            }
        }
        i = i + 1;
    }
    proof {
        assert(listing@.subrange(0, listing@.len() as int) =~= listing@);
    }
    out
}

fn joined_path(components: &Vec<String>) -> (r: String)
    ensures
        r@ == join(texts(components@), '\\'),
{
    let mut parts: Vec<Vec<char>> = Vec::new();
    let mut i: usize = 0;
    while i < components.len()
        invariant
            i <= components.len(),
            parts@.map_values(|p: Vec<char>| p@) == texts(components@).subrange(0, i as int),
        decreases components.len() - i,
    {
        let ghost before = parts@;
        let piece = chars_of(components[i].as_str());
        parts.push(piece);
        proof {
            assert(parts@.map_values(|p: Vec<char>| p@) =~= before.map_values(|p: Vec<char>| p@).push(
                components@[i as int]@,
            ));
            assert(texts(components@).subrange(0, i + 1) =~= texts(components@).subrange(0, i as int).push(
                components@[i as int]@,
            ));
        }
        i = i + 1;
    }
    proof {
        assert(texts(components@).subrange(0, components@.len() as int) =~= texts(components@));
    }
    let v = join_vec(&parts, '\\');
    string_of_all(&v)
}

/// The files of a staged legacy release from a listing of everything below its root: a
/// link or special file refuses the release; otherwise the regular files, sorted as
/// paths, with `\` between components.
pub fn collect_release_files(listing: &Vec<ListedEntry>) -> (r: Result<Vec<String>, UpdateError>)
    ensures
        has_special(listing@) ==> (r matches Err(e) && e@ == special_file_view()),
        !has_special(listing@) ==> (r matches Ok(v) && release_files_shown(listed_files(listing@), texts(v@))),
{
    let mut k: usize = 0;
    while k < listing.len()
        invariant
            k <= listing.len(),
            forall|j: int| 0 <= j < k ==> listing@[j].kind != ListedKind::Other,
        decreases listing.len() - k,
    {
        if listing[k].kind == ListedKind::Other {
            return Err(UpdateError::new("update_release_layout_invalid", String::from_str("更新包包含不支持的链接或特殊文件。")));
        }
        k = k + 1;
    }
    let sorted = sort_paths(listing);
    let mut out: Vec<String> = Vec::new();
    let mut i: usize = 0;
    while i < sorted.len()
        invariant
            i <= sorted.len(),
            texts(out@) == listed_views(sorted@).subrange(0, i as int).map_values(
                |c: Seq<Seq<char>>| join(c, '\\'),
            ),
        decreases sorted.len() - i,
    {
        let ghost before = out@;
        out.push(joined_path(&sorted[i]));
        proof {
            assert(texts(out@) =~= texts(before).push(join(listed_views(sorted@)[i as int], '\\')));
            assert(listed_views(sorted@).subrange(0, i as int + 1).map_values(|c: Seq<Seq<char>>| join(c, '\\'))
                =~= listed_views(sorted@).subrange(0, i as int).map_values(|c: Seq<Seq<char>>| join(c, '\\')).push(
                join(listed_views(sorted@)[i as int], '\\'),
            ));
        }
        i = i + 1;
    }
    proof {
        assert(listed_views(sorted@).subrange(0, sorted@.len() as int) =~= listed_views(sorted@));
        assert(release_files_shown(listed_files(listing@), texts(out@))) by {
            let w = listed_views(sorted@);
            assert(w.to_multiset() == listed_files(listing@).to_multiset());
        }
    }
    Ok(out)
}

} // verus!
