//! Windows path rules (the host is a Windows application): separators, drive prefixes,
//! absolute paths, joining, and the components that `std::path::Path` yields on Windows.
use vstd::prelude::*;

use crate::text::{append_chars, chars_of, split, split_vec, string_of_all};

verus! {

pub open spec fn is_sep(c: char) -> bool {
    c == '/' || c == '\\'
}

pub open spec fn is_alpha(c: char) -> bool {
    ('a' <= c && c <= 'z') || ('A' <= c && c <= 'Z')
}

/// A drive prefix such as `C:`.
pub open spec fn drive_prefix(p: Seq<char>) -> bool {
    p.len() >= 2 && is_alpha(p[0]) && p[1] == ':'
}

/// `Path::is_absolute` on Windows: a UNC or verbatim prefix (`\\`), or a drive prefix followed by a separator.
pub open spec fn is_absolute_path(p: Seq<char>) -> bool {
    (p.len() >= 2 && p[0] == '\\' && p[1] == '\\') || (drive_prefix(p) && p.len() >= 3 && is_sep(
        p[2],
    ))
}

/// A plain relative name: no prefix and no leading separator.
pub open spec fn plain_relative(p: Seq<char>) -> bool {
    !drive_prefix(p) && !(p.len() > 0 && is_sep(p[0]))
}

/// Whether joining onto `base` inserts a separator.
pub open spec fn needs_separator(base: Seq<char>) -> bool {
    base.len() > 0 && !is_sep(base.last()) && !(base.len() == 2 && drive_prefix(base))
}

/// `Path::join` on Windows for a child that does not start with a separator:
/// a child with a drive prefix replaces the base.
pub open spec fn joined(base: Seq<char>, child: Seq<char>) -> Seq<char> {
    if drive_prefix(child) {
        child
    } else if needs_separator(base) {
        base + seq!['\\'] + child
    } else {
        base + child
    }
}

pub fn char_is_sep(c: char) -> (b: bool)
    ensures
        b == is_sep(c),
{
    c == '/' || c == '\\'
}

pub fn char_is_alpha(c: char) -> (b: bool)
    ensures
        b == is_alpha(c),
{
    ('a' <= c && c <= 'z') || ('A' <= c && c <= 'Z')
}

pub fn has_drive_prefix(v: &Vec<char>) -> (b: bool)
    ensures
        b == drive_prefix(v@),
{
    v.len() >= 2 && char_is_alpha(v[0]) && v[1] == ':'
}

/// `Path::is_absolute` on Windows.
pub fn is_absolute(p: &str) -> (b: bool)
    ensures
        b == is_absolute_path(p@),
{
    let v = chars_of(p);
    (v.len() >= 2 && v[0] == '\\' && v[1] == '\\') || (has_drive_prefix(&v) && v.len() >= 3
        && char_is_sep(v[2]))
}

/// `Path::join` on Windows for a child that does not start with a separator.
pub fn join_path(base: &str, child: &str) -> (r: String)
    requires
        !(child@.len() > 0 && is_sep(child@[0])),
    ensures
        r@ == joined(base@, child@),
{
    let c = chars_of(child);
    let r = join_chars(&chars_of(base), &c);
    string_of_all(&r)
}

/// `Path::join` on Windows for a child that does not start with a separator, as characters.
pub fn join_chars(b: &Vec<char>, c: &Vec<char>) -> (r: Vec<char>)
    requires
        !(c@.len() > 0 && is_sep(c@[0])),
    ensures
        r@ == joined(b@, c@),
{
    if has_drive_prefix(c) {
        return c.clone();
    }
    let mut out = b.clone();
    assert(out@ == b@);
    if b.len() > 0 && !char_is_sep(b[b.len() - 1]) && !(b.len() == 2 && has_drive_prefix(&b)) {
        out.push('\\');
    }
    append_chars(&mut out, c);
    out
}

/// One component of a Windows path.
pub enum Component {
    Prefix,
    RootDir,
    CurDir,
    ParentDir,
    Normal(Seq<char>),
}

/// The components of the pieces between separators: empty pieces and `.` are skipped
/// (a leading `.` is the current directory when allowed), `..` is the parent.
pub open spec fn body_components(pieces: Seq<Seq<char>>, allow_cur: bool) -> Seq<Component>
    decreases pieces.len(),
{
    if pieces.len() == 0 {
        Seq::<Component>::empty()
    } else {
        let rest = body_components(pieces.drop_last(), allow_cur);
        let p = pieces.last();
        if p.len() == 0 {
            rest
        } else if p == seq!['.'] {
            if allow_cur && pieces.len() == 1 {
                rest.push(Component::CurDir)
            } else {
                rest
            }
        } else if p == seq!['.', '.'] {
            rest.push(Component::ParentDir)
        } else {
            rest.push(Component::Normal(p))
        }
    }
}

/// `Path::components` on Windows (for the forms that start with a drive, a separator or a name).
pub open spec fn path_components(p: Seq<char>) -> Seq<Component> {
    let has_prefix = drive_prefix(p);
    let rest = if has_prefix {
        p.subrange(2, p.len() as int)
    } else {
        p
    };
    let has_root = rest.len() > 0 && is_sep(rest[0]);
    let head: Seq<Component> = if has_prefix {
        seq![Component::Prefix]
    } else {
        Seq::<Component>::empty()
    };
    let head2: Seq<Component> = if has_root {
        head.push(Component::RootDir)
    } else {
        head
    };
    head2 + body_components(split(rest, seq!['/', '\\']), !has_root)
}

pub open spec fn is_normal(c: Component) -> bool {
    c is Normal
}

/// A relative file path made only of normal components.
pub open spec fn safe_relative(p: Seq<char>) -> bool {
    let cs = path_components(p);
    cs.len() > 0 && forall|k: int| 0 <= k < cs.len() ==> is_normal(#[trigger] cs[k])
}

/// The normal components of the pieces, when every non-empty piece other than `.` is normal.
pub open spec fn all_pieces_normal(pieces: Seq<Seq<char>>) -> bool {
    forall|k: int|
        0 <= k < pieces.len() ==> (#[trigger] pieces[k]) != seq!['.', '.'] && !(pieces[k]
            == seq!['.'] && k == 0)
}

/// The components of a path, one entry per component, with the text of normal ones.
pub struct ComponentList {
    pub kinds: Vec<u8>,
    pub texts: Vec<Vec<char>>,
}

pub open spec fn kind_of(c: Component) -> u8 {
    match c {
        Component::Prefix => 0,
        Component::RootDir => 1,
        Component::CurDir => 2,
        Component::ParentDir => 3,
        Component::Normal(_) => 4,
    }
}

pub open spec fn text_of(c: Component) -> Seq<char> {
    match c {
        Component::Normal(t) => t,
        _ => Seq::<char>::empty(),
    }
}

pub open spec fn list_matches(l: ComponentList, cs: Seq<Component>) -> bool {
    &&& l.kinds@.len() == cs.len()
    &&& l.texts@.len() == cs.len()
    &&& forall|k: int| 0 <= k < cs.len() ==> #[trigger] l.kinds@[k] == kind_of(cs[k])
    &&& forall|k: int| 0 <= k < cs.len() ==> (#[trigger] l.texts@[k])@ == text_of(cs[k])
}

pub proof fn lemma_kind_normal(c: Component)
    ensures
        (kind_of(c) == 4) == is_normal(c),
        kind_of(c) == 4 ==> c == Component::Normal(text_of(c)),
{
}

fn is_dot(p: &Vec<char>) -> (b: bool)
    ensures
        b == (p@ == seq!['.']),
{
    let r = p.len() == 1 && p[0] == '.';
    proof {
        if p@.len() == 1 && p@[0] == '.' {
            assert(p@ == seq!['.']);
        }
    }
    r
}

fn is_dot_dot(p: &Vec<char>) -> (b: bool)
    ensures
        b == (p@ == seq!['.', '.']),
{
    let r = p.len() == 2 && p[0] == '.' && p[1] == '.';
    proof {
        if p@.len() == 2 && p@[0] == '.' && p@[1] == '.' {
            assert(p@ == seq!['.', '.']);
        }
    }
    r
}

/// The components of a Windows path.
pub fn components(p: &Vec<char>) -> (r: ComponentList)
    ensures
        list_matches(r, path_components(p@)),
{
    let has_prefix = has_drive_prefix(p);
    let rest = if has_prefix {
        crate::text::slice_of(p, 2, p.len())
    } else {
        p.clone()
    };
    let has_root = rest.len() > 0 && char_is_sep(rest[0]);
    let mut kinds: Vec<u8> = Vec::new();
    let mut texts: Vec<Vec<char>> = Vec::new();
    if has_prefix {
        kinds.push(0);
        texts.push(Vec::new());
    }
    if has_root {
        kinds.push(1);
        texts.push(Vec::new());
    }
    let ghost head: Seq<Component> = if has_prefix {
        seq![Component::Prefix]
    } else {
        Seq::<Component>::empty()
    };
    let ghost head2: Seq<Component> = if has_root {
        head.push(Component::RootDir)
    } else {
        head
    };
    proof {
        assert(rest@ == (if has_prefix {
            p@.subrange(2, p@.len() as int)
        } else {
            p@
        }));
        assert(kinds@.len() == head2.len());
        assert forall|k: int| 0 <= k < head2.len() implies #[trigger] kinds@[k] == kind_of(
            head2[k],
        ) && texts@[k]@ == text_of(head2[k]) by {}
    }
    let seps = vec!['/', '\\'];
    proof {
        assert(seps@ == seq!['/', '\\']);
    }
    let pieces = split_vec(&rest, &seps);
    let ghost spec_pieces = split(rest@, seq!['/', '\\']);
    let allow_cur = !has_root;
    let mut i: usize = 0;
    while i < pieces.len()
        invariant
            i <= pieces@.len() == spec_pieces.len(),
            forall|k: int| 0 <= k < pieces@.len() ==> (#[trigger] pieces@[k])@ == spec_pieces[k],
            list_matches(
                ComponentList { kinds, texts },
                head2 + body_components(spec_pieces.subrange(0, i as int), allow_cur),
            ),
        decreases pieces.len() - i,
    {
        let ghost before = spec_pieces.subrange(0, i as int);
        let ghost after = spec_pieces.subrange(0, i + 1);
        let ghost old_list = head2 + body_components(before, allow_cur);
        proof {
            assert(after.drop_last() == before);
            assert(after.last() == pieces@[i as int]@);
        }
        let piece = &pieces[i];
        if piece.len() == 0 {
        } else if is_dot(piece) {
            if allow_cur && i == 0 {
                kinds.push(2);
                texts.push(Vec::new());
            }
        } else if is_dot_dot(piece) {
            kinds.push(3);
            texts.push(Vec::new());
        } else {
            kinds.push(4);
            texts.push(piece.clone());
        }
        i = i + 1;
        proof {
            assert(spec_pieces.subrange(0, i as int) == after);
            let new_list = head2 + body_components(after, allow_cur);
            if piece@.len() == 0 || (piece@ == seq!['.'] && !(allow_cur && i == 1)) {
                assert(new_list == old_list);
            } else {
                assert(new_list.drop_last() == old_list);
            }
        }
    }
    proof {
        assert(spec_pieces.subrange(0, spec_pieces.len() as int) == spec_pieces);
    }
    ComponentList { kinds, texts }
}

/// Whether the path is relative and made only of normal components.
pub fn is_safe_relative(p: &Vec<char>) -> (b: bool)
    ensures
        b == safe_relative(p@),
{
    let list = components(p);
    let ghost cs = path_components(p@);
    if list.kinds.len() == 0 {
        return false;
    }
    let mut k: usize = 0;
    while k < list.kinds.len()
        invariant
            cs == path_components(p@),
            k <= list.kinds@.len() == cs.len(),
            list_matches(list, cs),
            forall|j: int| 0 <= j < k ==> is_normal(#[trigger] cs[j]),
        decreases list.kinds.len() - k,
    {
        proof {
            lemma_kind_normal(cs[k as int]);
        }
        if list.kinds[k] != 4 {
            proof {
                assert(list.kinds@[k as int] == kind_of(cs[k as int]));
                assert(!is_normal(cs[k as int]));
            }
            return false;
        }
        k = k + 1;
    }
    true
}


/// No piece of a split holds a separator.
pub proof fn lemma_split_pieces_no_sep(s: Seq<char>, seps: Seq<char>)
    ensures
        forall|k: int, j: int|
            0 <= k < split(s, seps).len() && 0 <= j < split(s, seps)[k].len() ==> !seps.contains(
                #[trigger] split(s, seps)[k][j],
            ),
    decreases s.len(),
{
    if s.len() > 0 {
        lemma_split_pieces_no_sep(s.drop_last(), seps);
        let p = split(s.drop_last(), seps);
        crate::update::release::lemma_split_nonempty(s.drop_last(), seps);
        if !seps.contains(s.last()) {
            let q = split(s, seps);
            assert forall|k: int, j: int| 0 <= k < q.len() && 0 <= j < q[k].len() implies !seps.contains(
                #[trigger] q[k][j],
            ) by {
                if k == q.len() - 1 {
                    if j < p.last().len() {
                        assert(q[k][j] == p[k][j]);
                    }
                } else {
                    assert(q[k] == p[k]);
                }
            }
        } else {
            let q = split(s, seps);
            assert forall|k: int, j: int| 0 <= k < q.len() && 0 <= j < q[k].len() implies !seps.contains(
                #[trigger] q[k][j],
            ) by {
                if k < q.len() - 1 {
                    assert(q[k] == p[k]);
                }
            }
        }
    }
}

/// The text of a normal component is non-empty and holds no separator.
pub open spec fn clean_text(t: Seq<char>) -> bool {
    t.len() > 0 && forall|j: int| 0 <= j < t.len() ==> !is_sep(#[trigger] t[j])
}

pub proof fn lemma_body_texts(pieces: Seq<Seq<char>>, allow_cur: bool)
    requires
        forall|k: int, j: int|
            0 <= k < pieces.len() && 0 <= j < pieces[k].len() ==> !is_sep(#[trigger] pieces[k][j]),
    ensures
        forall|k: int|
            0 <= k < body_components(pieces, allow_cur).len() && #[trigger] body_components(
                pieces,
                allow_cur,
            )[k] is Normal ==> clean_text(text_of(body_components(pieces, allow_cur)[k])),
    decreases pieces.len(),
{
    if pieces.len() > 0 {
        let d = pieces.drop_last();
        assert forall|k: int, j: int| 0 <= k < d.len() && 0 <= j < d[k].len() implies !is_sep(
            #[trigger] d[k][j],
        ) by {
            assert(d[k] == pieces[k]);
        }
        lemma_body_texts(d, allow_cur);
        let last = pieces.last();
        assert forall|j: int| 0 <= j < last.len() implies !is_sep(#[trigger] last[j]) by {
            assert(last[j] == pieces[pieces.len() - 1][j]);
        }
    }
}

/// Every normal component of a path has clean text.
pub proof fn lemma_component_texts(p: Seq<char>)
    ensures
        forall|k: int|
            0 <= k < path_components(p).len() && #[trigger] path_components(p)[k] is Normal
                ==> clean_text(text_of(path_components(p)[k])),
{
    let has_prefix = drive_prefix(p);
    let rest = if has_prefix {
        p.subrange(2, p.len() as int)
    } else {
        p
    };
    let has_root = rest.len() > 0 && is_sep(rest[0]);
    let seps = seq!['/', '\\'];
    lemma_split_pieces_no_sep(rest, seps);
    let pieces = split(rest, seps);
    assert forall|k: int, j: int| 0 <= k < pieces.len() && 0 <= j < pieces[k].len() implies !is_sep(
        #[trigger] pieces[k][j],
    ) by {
        if is_sep(pieces[k][j]) {
            assert(seps.contains(pieces[k][j]));
        }
    }
    lemma_body_texts(pieces, !has_root);
    let cs = path_components(p);
    let head_len: int = (if has_prefix { 1int } else { 0int }) + (if has_root { 1int } else { 0int });
    assert forall|k: int| 0 <= k < cs.len() && #[trigger] cs[k] is Normal implies clean_text(
        text_of(cs[k]),
    ) by {
        if k >= head_len {
            assert(cs[k] == body_components(pieces, !has_root)[k - head_len]);
        }
    }
}

/// A path whose first component is normal or the current directory starts neither with a
/// separator nor with a drive prefix.
pub proof fn lemma_first_plain(p: Seq<char>)
    requires
        path_components(p).len() > 0,
        path_components(p)[0] is Normal || path_components(p)[0] is CurDir,
    ensures
        plain_relative(p),
{
}

/// A safe relative path starts neither with a separator nor with a drive prefix.
pub proof fn lemma_safe_relative_plain(p: Seq<char>)
    requires
        safe_relative(p),
    ensures
        plain_relative(p),
{
    let cs = path_components(p);
    assert(is_normal(cs[0]));
}


pub proof fn lemma_body_no_root(pieces: Seq<Seq<char>>, allow_cur: bool)
    ensures
        forall|k: int|
            0 <= k < body_components(pieces, allow_cur).len() ==> !(#[trigger] body_components(
                pieces,
                allow_cur,
            )[k] is RootDir) && !(body_components(pieces, allow_cur)[k] is Prefix),
    decreases pieces.len(),
{
    if pieces.len() > 0 {
        lemma_body_no_root(pieces.drop_last(), allow_cur);
    }
}

/// After a leading normal component, no component is a prefix or a root.
pub proof fn lemma_no_root_after_normal(p: Seq<char>)
    requires
        path_components(p).len() > 0,
        path_components(p)[0] is Normal,
    ensures
        forall|k: int|
            0 <= k < path_components(p).len() ==> !(#[trigger] path_components(p)[k] is RootDir)
                && !(path_components(p)[k] is Prefix),
{
    let has_prefix = drive_prefix(p);
    let rest = if has_prefix {
        p.subrange(2, p.len() as int)
    } else {
        p
    };
    let has_root = rest.len() > 0 && is_sep(rest[0]);
    let pieces = split(rest, seq!['/', '\\']);
    lemma_body_no_root(pieces, !has_root);
    assert(!has_prefix);
    assert(!has_root);
    assert(path_components(p) == body_components(pieces, !has_root));
}

/// Pieces that are all names (non-empty, neither `.` nor `..`) give one normal component each.
pub proof fn lemma_body_all_normal(pieces: Seq<Seq<char>>, allow_cur: bool)
    requires
        forall|k: int|
            0 <= k < pieces.len() ==> (#[trigger] pieces[k]).len() > 0 && pieces[k] != seq!['.']
                && pieces[k] != seq!['.', '.'],
    ensures
        body_components(pieces, allow_cur).len() == pieces.len(),
        forall|k: int|
            0 <= k < pieces.len() ==> #[trigger] body_components(pieces, allow_cur)[k]
                == Component::Normal(pieces[k]),
    decreases pieces.len(),
{
    if pieces.len() > 0 {
        let d = pieces.drop_last();
        assert forall|k: int| 0 <= k < d.len() implies (#[trigger] d[k]).len() > 0 && d[k] != seq![
            '.',
        ] && d[k] != seq!['.', '.'] by {
            assert(d[k] == pieces[k]);
        }
        lemma_body_all_normal(d, allow_cur);
        assert(pieces.last() == pieces[pieces.len() - 1]);
        let b = body_components(pieces, allow_cur);
        assert forall|k: int| 0 <= k < pieces.len() implies #[trigger] b[k] == Component::Normal(
            pieces[k],
        ) by {
            if k < d.len() {
                assert(d[k] == pieces[k]);
            }
        }
    }
}

} // verus!
