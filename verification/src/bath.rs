//! Paths as lists of parts, and what can be decided from the parts alone.
//!
//! A path is a `Vec<PathPart>`: the parts that the platform's parser finds in
//! it, in order. Nothing here looks at the file system.

use vstd::prelude::*;
use vstd::string::*;

verus! {

/// One part of a path. Names are the bytes that the platform has for them.
#[derive(Debug, PartialEq, Eq)]
pub enum PathPart {
    /// A drive or share name, as Windows has them. Only the first part of a
    /// path can be a prefix.
    Prefix(Vec<u8>),
    /// The root directory, after the prefix where there is one.
    RootDir,
    /// A `.`.
    CurDir,
    /// A `..`.
    ParentDir,
    /// A name.
    Normal(Vec<u8>),
}

/// A part of a path as plain values.
pub ghost enum PathPartView {
    Prefix(Seq<u8>),
    RootDir,
    CurDir,
    ParentDir,
    Normal(Seq<u8>),
}

impl View for PathPart {
    type V = PathPartView;

    open spec fn view(&self) -> PathPartView {
        match *self {
            PathPart::Prefix(p) => PathPartView::Prefix(p@),
            PathPart::RootDir => PathPartView::RootDir,
            PathPart::CurDir => PathPartView::CurDir,
            PathPart::ParentDir => PathPartView::ParentDir,
            PathPart::Normal(n) => PathPartView::Normal(n@),
        }
    }
}

/// A path as plain values: the view of each part, in order.
pub open spec fn path_view(parts: Seq<PathPart>) -> Seq<PathPartView> {
    parts.map_values(|p: PathPart| p@)
}

/// No part but the first is a prefix.
pub open spec fn prefix_leads(parts: Seq<PathPartView>) -> bool {
    forall|i: int| 0 < i < parts.len() ==> !(#[trigger] parts[i] is Prefix)
}

/// The prefix that a path starts with, as a path of its own; empty where it
/// starts with none.
pub open spec fn kept_prefix(parts: Seq<PathPartView>) -> Seq<PathPartView> {
    if parts.len() > 0 && parts[0] is Prefix {
        seq![parts[0]]
    } else {
        Seq::empty()
    }
}

/// What a normalized path becomes when one more part follows it: a prefix
/// starts the path anew, a root goes back to just behind the prefix, a `.`
/// changes nothing, a `..` takes the last name away if the path ends in one,
/// and a name is added.
pub open spec fn followed_by(acc: Seq<PathPartView>, part: PathPartView) -> Seq<PathPartView> {
    match part {
        PathPartView::Prefix(_) => seq![part],
        PathPartView::RootDir => kept_prefix(acc).push(part),
        PathPartView::CurDir => acc,
        PathPartView::ParentDir => if acc.len() > 0 && acc.last() is Normal {
            acc.drop_last()
        } else {
            acc
        },
        PathPartView::Normal(_) => acc.push(part),
    }
}

/// The normalized path: the parts taken in turn from the left, each applied
/// to what the parts before it gave.
pub open spec fn normalized(parts: Seq<PathPartView>) -> Seq<PathPartView>
    decreases parts.len(),
{
    if parts.len() == 0 {
        Seq::empty()
    } else {
        followed_by(normalized(parts.drop_last()), parts.last())
    }
}

/// A path is in normal form when it is an optional prefix, an optional root
/// and then names only.
pub open spec fn is_normal_form(parts: Seq<PathPartView>) -> bool {
    forall|i: int|
        0 <= i < parts.len() ==> match #[trigger] parts[i] {
            PathPartView::Prefix(_) => i == 0,
            PathPartView::RootDir => i == 0 || (i == 1 && parts[0] is Prefix),
            PathPartView::CurDir => false,
            PathPartView::ParentDir => false,
            PathPartView::Normal(_) => true,
        }
}

/// A normalized path holds no `.` and no `..`: it is in normal form.
pub proof fn lemma_normalized_is_normal_form(parts: Seq<PathPartView>)
    ensures
        is_normal_form(normalized(parts)),
    decreases parts.len(),
{
    if parts.len() > 0 {
        lemma_normalized_is_normal_form(parts.drop_last());
    }
}

/// Normalizing changes nothing in a path that is in normal form.
pub proof fn lemma_normal_form_is_fixed(parts: Seq<PathPartView>)
    requires
        is_normal_form(parts),
    ensures
        normalized(parts) == parts,
    decreases parts.len(),
{
    if parts.len() > 0 {
        let init = parts.drop_last();
        assert forall|i: int| 0 <= i < init.len() implies match #[trigger] init[i] {
            PathPartView::Prefix(_) => i == 0,
            PathPartView::RootDir => i == 0 || (i == 1 && init[0] is Prefix),
            PathPartView::CurDir => false,
            PathPartView::ParentDir => false,
            PathPartView::Normal(_) => true,
        } by {
            assert(init[i] == parts[i]);
        }
        lemma_normal_form_is_fixed(init);
        let last = parts.last();
        assert(last == parts[parts.len() - 1]);
        match last {
            PathPartView::Prefix(_) => {
                assert(parts.len() == 1);
                assert(followed_by(init, last) =~= parts);
            },
            PathPartView::RootDir => {
                if parts.len() == 2 {
                    assert(init[0] == parts[0]);
                }
                assert(followed_by(init, last) =~= parts);
            },
            PathPartView::CurDir => {},
            PathPartView::ParentDir => {},
            PathPartView::Normal(_) => {
                assert(followed_by(init, last) =~= parts);
            },
        }
    }
}

/// Normalizing twice gives what normalizing once gives.
pub proof fn lemma_normalized_is_idempotent(parts: Seq<PathPartView>)
    ensures
        normalized(normalized(parts)) == normalized(parts),
{
    lemma_normalized_is_normal_form(parts);
    lemma_normal_form_is_fixed(normalized(parts));
}

/// A `.` anywhere in a path is resolved from the text alone: the path up to
/// it normalizes as the path without it.
pub proof fn lemma_cur_dir_is_dropped(parts: Seq<PathPartView>)
    ensures
        normalized(parts.push(PathPartView::CurDir)) == normalized(parts),
{
    assert(parts.push(PathPartView::CurDir).drop_last() =~= parts);
}

/// A `..` after a name is resolved from the text alone: it takes the name
/// back.
pub proof fn lemma_parent_dir_takes_name_back(parts: Seq<PathPartView>, name: Seq<u8>)
    ensures
        normalized(parts.push(PathPartView::Normal(name)).push(PathPartView::ParentDir))
            == normalized(parts),
{
    let named = parts.push(PathPartView::Normal(name));
    assert(named.drop_last() =~= parts);
    assert(normalized(named) == normalized(parts).push(PathPartView::Normal(name)));
    assert(named.push(PathPartView::ParentDir).drop_last() =~= named);
    assert(normalized(named.push(PathPartView::ParentDir)) == normalized(named).drop_last());
    assert(normalized(parts).push(PathPartView::Normal(name)).drop_last() =~= normalized(parts));
}

/// A `..` at the root, behind a prefix or at the start of a path has nothing
/// to take back and is dropped.
pub proof fn lemma_parent_dir_stops_at_root(parts: Seq<PathPartView>)
    requires
        normalized(parts).len() == 0 || !(normalized(parts).last() is Normal),
    ensures
        normalized(parts.push(PathPartView::ParentDir)) == normalized(parts),
{
    assert(parts.push(PathPartView::ParentDir).drop_last() =~= parts);
}

impl Clone for PathPart {
    /// A copy of a part.
    fn clone(&self) -> (r: PathPart)
        ensures
            r@ == self@,
    {
        match self {
            PathPart::Prefix(p) => PathPart::Prefix(p.clone()),
            PathPart::RootDir => PathPart::RootDir,
            PathPart::CurDir => PathPart::CurDir,
            PathPart::ParentDir => PathPart::ParentDir,
            PathPart::Normal(n) => PathPart::Normal(n.clone()),
        }
    }
}

/// A copy of a path.
pub fn clone_parts(parts: &Vec<PathPart>) -> (r: Vec<PathPart>)
    ensures
        path_view(r@) == path_view(parts@),
{
    let mut r: Vec<PathPart> = Vec::new();
    let mut i: usize = 0;
    while i < parts.len()
        invariant
            i <= parts.len(),
            path_view(r@) == path_view(parts@).subrange(0, i as int),
        decreases parts.len() - i,
    {
        let ghost before = r@;
        let part = parts[i].clone();
        r.push(part);
        assert(path_view(r@) =~= path_view(before).push(part@));
        assert(path_view(r@) =~= path_view(parts@).subrange(0, i as int + 1));
        i = i + 1;
    }
    assert(path_view(parts@).subrange(0, parts.len() as int) =~= path_view(parts@));
    r
}

/// Whether no part but the first is a prefix.
pub fn prefix_leads_in(parts: &Vec<PathPart>) -> (r: bool)
    ensures
        r == prefix_leads(path_view(parts@)),
{
    let mut i: usize = 1;
    while i < parts.len()
        invariant
            1 <= i,
            forall|j: int| 0 < j < i && j < parts.len() ==> !(#[trigger] path_view(parts@)[j] is Prefix),
        decreases parts.len() - i,
    {
        match &parts[i] {
            PathPart::Prefix(_) => {
                assert(path_view(parts@)[i as int] is Prefix);
                return false;
            },
            _ => {},
        }
        i = i + 1;
    }
    true
}

/// Cleans a path from its text alone, so that only a prefix, a root and names
/// are left: `.` is dropped, and `..` takes back the name before it, or is
/// dropped where there is none to take back. The path is one in which only
/// the first part can be a prefix, as every parsed path is.
pub fn normalize(parts: &Vec<PathPart>) -> (r: Vec<PathPart>)
    requires
        prefix_leads(path_view(parts@)),
    ensures
        path_view(r@) == normalized(path_view(parts@)),
{
    let ghost whole = path_view(parts@);
    let mut ret: Vec<PathPart> = Vec::new();
    let mut i: usize = 0;
    assert(whole.subrange(0, 0) =~= Seq::<PathPartView>::empty());
    while i < parts.len()
        invariant
            i <= parts.len(),
            whole == path_view(parts@),
            path_view(ret@) == normalized(whole.subrange(0, i as int)),
        decreases parts.len() - i,
    {
        let ghost before = path_view(ret@);
        match &parts[i] {
            PathPart::Prefix(p) => {
                ret.clear();
                ret.push(PathPart::Prefix(p.clone()));
            },
            PathPart::RootDir => {
                let keep = ret.len() > 0 && match &ret[0] {
                    PathPart::Prefix(_) => true,
                    _ => false,
                };
                if keep {
                    ret.truncate(1);
                } else {
                    ret.clear();
                }
                ret.push(PathPart::RootDir);
            },
            PathPart::CurDir => {},
            PathPart::ParentDir => {
                let ends_in_name = ret.len() > 0 && match &ret[ret.len() - 1] {
                    PathPart::Normal(_) => true,
                    _ => false,
                };
                if ends_in_name {
                    ret.pop();
                }
            },
            PathPart::Normal(c) => {
                ret.push(PathPart::Normal(c.clone()));
            },
        }
        proof {
            assert(whole.subrange(0, i as int + 1).drop_last() =~= whole.subrange(0, i as int));
            assert(whole.subrange(0, i as int + 1).last() == parts@[i as int]@);
            assert(path_view(ret@) =~= followed_by(before, parts@[i as int]@));
        }
        i = i + 1;
    }
    assert(whole.subrange(0, parts.len() as int) =~= whole);
    ret
}

/// The last part of a path if it is a name: the name that the path ends in.
pub open spec fn file_name_spec(parts: Seq<PathPartView>) -> Option<Seq<u8>> {
    if parts.len() > 0 {
        match parts.last() {
            PathPartView::Normal(name) => Some(name),
            _ => None,
        }
    } else {
        None
    }
}

/// The view of an optional name.
pub open spec fn opt_bytes(name: Option<Vec<u8>>) -> Option<Seq<u8>> {
    match name {
        Some(n) => Some(n@),
        None => None,
    }
}

/// The name that a path ends in; `None` for a path that is empty or ends in
/// something else, such as `..` or the root.
pub fn basename(parts: &Vec<PathPart>) -> (r: Option<Vec<u8>>)
    ensures
        opt_bytes(r) == file_name_spec(path_view(parts@)),
{
    if parts.len() > 0 {
        match &parts[parts.len() - 1] {
            PathPart::Normal(name) => Some(name.clone()),
            _ => None,
        }
    } else {
        None
    }
}

/// The number of parts that are left when the path is normalized.
pub fn len(parts: &Vec<PathPart>) -> (r: usize)
    requires
        prefix_leads(path_view(parts@)),
    ensures
        r == normalized(path_view(parts@)).len(),
{
    normalize(parts).len()
}

/// A name starts with a dot.
pub open spec fn starts_with_dot(name: Seq<u8>) -> bool {
    name.len() > 0 && name[0] == 0x2e
}

/// What `is_hidden` answers: whether the normalized path ends in a name, and
/// that name does not start with a dot.
pub open spec fn is_hidden_spec(parts: Seq<PathPartView>) -> bool {
    match file_name_spec(normalized(parts)) {
        Some(name) => !starts_with_dot(name),
        None => false,
    }
}

/// True where the normalized path ends in a name that does not start with a
/// dot; false where the name starts with a dot or the path ends in no name.
pub fn is_hidden(parts: &Vec<PathPart>) -> (r: bool)
    requires
        prefix_leads(path_view(parts@)),
    ensures
        r == is_hidden_spec(path_view(parts@)),
{
    let clean = normalize(parts);
    if clean.len() > 0 {
        match &clean[clean.len() - 1] {
            PathPart::Normal(name) => {
                let dotted = name.len() > 0 && name[0] == 0x2eu8;
                !dotted
            },
            _ => false,
        }
    } else {
        false
    }
}

/// Whether the path has no parts at all.
pub fn is_empty(parts: &Vec<PathPart>) -> (r: bool)
    ensures
        r == (parts@.len() == 0),
{
    parts.len() == 0
}

/// The path that is the root directory alone.
pub fn root_dir() -> (r: Vec<PathPart>)
    ensures
        path_view(r@) == seq![PathPartView::RootDir],
{
    let mut r: Vec<PathPart> = Vec::new();
    r.push(PathPart::RootDir);
    assert(path_view(r@) =~= seq![PathPartView::RootDir]);
    r
}

/// `path` seen from `base`: an absolute path, or one with a prefix, stands
/// for itself; one that starts at the root keeps only the prefix of `base`
/// before it; any other follows `base`.
pub open spec fn joined(
    base: Seq<PathPartView>,
    path: Seq<PathPartView>,
    absolute: bool,
) -> Seq<PathPartView> {
    if absolute || (path.len() > 0 && path[0] is Prefix) {
        path
    } else if path.len() > 0 && path[0] is RootDir {
        kept_prefix(base) + path
    } else {
        base + path
    }
}

/// Joining two paths in which only the first part can be a prefix gives such
/// a path.
pub proof fn lemma_joined_prefix_leads(
    base: Seq<PathPartView>,
    path: Seq<PathPartView>,
    absolute: bool,
)
    requires
        prefix_leads(base),
        prefix_leads(path),
    ensures
        prefix_leads(joined(base, path, absolute)),
{
    let j = joined(base, path, absolute);
    assert forall|i: int| 0 < i < j.len() implies !(#[trigger] j[i] is Prefix) by {
        if absolute || (path.len() > 0 && path[0] is Prefix) {
        } else if path.len() > 0 && path[0] is RootDir {
            let k = kept_prefix(base).len() as int;
            if i >= k {
                assert(j[i] == path[i - k]);
                if i - k > 0 {
                    assert(!(path[i - k] is Prefix));
                }
            }
        } else {
            if i < base.len() {
                assert(j[i] == base[i]);
            } else {
                assert(j[i] == path[i - base.len()]);
                if i - base.len() > 0 {
                    assert(!(path[i - base.len()] is Prefix));
                }
            }
        }
    }
}

/// The normalized path that `path` stands for when relative paths start at
/// `base`. `absolute` says whether the platform takes `path` for absolute.
pub fn abs(parts: &Vec<PathPart>, absolute: bool, base: &Vec<PathPart>) -> (r: Vec<PathPart>)
    requires
        prefix_leads(path_view(parts@)),
        prefix_leads(path_view(base@)),
    ensures
        path_view(r@) == normalized(joined(path_view(base@), path_view(parts@), absolute)),
{
    let starts_with_prefix = parts.len() > 0 && match &parts[0] {
        PathPart::Prefix(_) => true,
        _ => false,
    };
    let starts_at_root = parts.len() > 0 && match &parts[0] {
        PathPart::RootDir => true,
        _ => false,
    };
    let mut whole: Vec<PathPart> = Vec::new();
    if absolute || starts_with_prefix {
    } else if starts_at_root {
        if base.len() > 0 {
            match &base[0] {
                PathPart::Prefix(p) => {
                    whole.push(PathPart::Prefix(p.clone()));
                },
                _ => {},
            }
        }
        assert(path_view(whole@) =~= kept_prefix(path_view(base@)));
    } else {
        whole = clone_parts(base);
    }
    let mut tail = clone_parts(parts);
    let ghost head = path_view(whole@);
    whole.append(&mut tail);
    proof {
        assert(path_view(whole@) =~= head + path_view(parts@));
        assert(Seq::<PathPartView>::empty() + path_view(parts@) =~= path_view(parts@));
        lemma_joined_prefix_leads(path_view(base@), path_view(parts@), absolute);
    }
    normalize(&whole)
}

/// The index of the last dot in a text, if it holds one.
pub open spec fn last_dot(text: Seq<char>) -> Option<int>
    decreases text.len(),
{
    if text.len() == 0 {
        None
    } else if text.last() == '.' {
        Some(text.len() - 1)
    } else {
        last_dot(text.drop_last())
    }
}

/// `last_dot` finds a dot, and no dot comes after it; where it finds none
/// the text holds none.
pub proof fn lemma_last_dot(text: Seq<char>)
    ensures
        match last_dot(text) {
            Some(i) => 0 <= i < text.len() && text[i] == '.' && forall|j: int|
                i < j < text.len() ==> text[j] != '.',
            None => forall|j: int| 0 <= j < text.len() ==> text[j] != '.',
        },
    decreases text.len(),
{
    if text.len() > 0 && text.last() != '.' {
        let init = text.drop_last();
        lemma_last_dot(init);
        assert forall|j: int| 0 <= j < init.len() implies init[j] == text[j] by {}
        match last_dot(init) {
            Some(i) => {
                assert forall|j: int| i < j < text.len() implies text[j] != '.' by {
                    if j < init.len() {
                        assert(init[j] != '.');
                    }
                }
            },
            None => {
                assert forall|j: int| 0 <= j < text.len() implies text[j] != '.' by {
                    if j < init.len() {
                        assert(init[j] != '.');
                    }
                }
            },
        }
    }
}

/// A name split around its last dot into stem and extension. A name without
/// a dot, or with its only dot in front, is all stem.
pub open spec fn split_ext_spec(text: Seq<char>) -> (Seq<char>, Seq<char>) {
    match last_dot(text) {
        Some(i) => if i == 0 {
            (text, Seq::empty())
        } else {
            (text.subrange(0, i), text.subrange(i + 1, text.len() as int))
        },
        None => (text, Seq::empty()),
    }
}

/// Splits a name around its last dot: the stem, then the extension without
/// the dot.
pub fn split_ext<'a>(p: &'a str) -> (r: [&'a str; 2])
    ensures
        r[0]@ == split_ext_spec(p@).0,
        r[1]@ == split_ext_spec(p@).1,
{
    broadcast use vstd::string::group_string_axioms;

    let total = p.unicode_len();
    let mut dot: Option<usize> = None;
    let mut n: usize = 0;
    for c in it: p.chars()
        invariant
            it.seq() == p@,
            n == it.index(),
            total == p@.len(),
            match dot {
                Some(i) => Some(i as int) == last_dot(p@.subrange(0, n as int)),
                None => last_dot(p@.subrange(0, n as int)) is None,
            },
    {
        proof {
            assert(p@.subrange(0, n as int + 1).drop_last() =~= p@.subrange(0, n as int));
        }
        if c == '.' {
            dot = Some(n);
        }
        n = n + 1;
    }
    assert(p@.subrange(0, n as int) =~= p@);
    proof {
        reveal_strlit("");
        lemma_last_dot(p@);
    }
    match dot {
        Some(i) => if i == 0 {
            [p, ""]
        } else {
            [p.substring_char(0, i), p.substring_char(i + 1, n)]
        },
        None => [p, ""],
    }
}

} // verus!
