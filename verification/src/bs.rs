//! What is decided about files once their attributes are read: whether a mode
//! lets a file be executed, and the order of files by the time they were last
//! changed. Reading and writing the attributes is the caller's part.

use crate::text::{ascii_lowercase_of, chars_of, to_ascii_lowercase};
use std::cmp::Ordering;
use vstd::prelude::*;

verus! {

/// The bits of a Unix mode that let the owner, the group and others execute.
pub const EXECUTABLE_BITS: u32 = 0o111;

/// Whether a Unix mode lets anybody execute the file.
pub fn mode_is_executable(mode: u32) -> (r: bool)
    ensures
        r == (mode & EXECUTABLE_BITS != 0),
{
    mode & EXECUTABLE_BITS != 0
}

/// The mode with execution allowed to all, and nothing else changed.
pub fn mode_with_executable(mode: u32) -> (r: u32)
    ensures
        r == mode | EXECUTABLE_BITS,
{
    mode | EXECUTABLE_BITS
}

/// Making a mode executable makes it executable, and keeps every bit that
/// was set.
pub proof fn lemma_mode_with_executable(mode: u32)
    ensures
        (mode | EXECUTABLE_BITS) & EXECUTABLE_BITS != 0,
        (mode | EXECUTABLE_BITS) & mode == mode,
        (mode | EXECUTABLE_BITS) | EXECUTABLE_BITS == mode | EXECUTABLE_BITS,
{
    assert((mode | 0o111u32) & 0o111u32 != 0) by (bit_vector);
    assert((mode | 0o111u32) & mode == mode) by (bit_vector);
    assert((mode | 0o111u32) | 0o111u32 == mode | 0o111u32) by (bit_vector);
}

/// The order of two files by the time they were last changed: the earlier
/// one first, and a file whose time could not be read after every file whose
/// time could.
pub open spec fn mtime_order_spec(a: Option<i128>, b: Option<i128>) -> Ordering {
    match (a, b) {
        (Some(x), Some(y)) => if x < y {
            Ordering::Less
        } else if x == y {
            Ordering::Equal
        } else {
            Ordering::Greater
        },
        (Some(_), None) => Ordering::Less,
        (None, Some(_)) => Ordering::Greater,
        (None, None) => Ordering::Equal,
    }
}

/// The order of two files by the time they were last changed.
pub fn mtime_order(a: &Option<i128>, b: &Option<i128>) -> (r: Ordering)
    ensures
        r == mtime_order_spec(*a, *b),
{
    match (a, b) {
        (Some(x), Some(y)) => if *x < *y {
            Ordering::Less
        } else if *x == *y {
            Ordering::Equal
        } else {
            Ordering::Greater
        },
        (Some(_), None) => Ordering::Less,
        (None, Some(_)) => Ordering::Greater,
        (None, None) => Ordering::Equal,
    }
}

/// `a` does not come after `b`.
pub open spec fn mtime_le(a: Option<i128>, b: Option<i128>) -> bool {
    mtime_order_spec(a, b) != Ordering::Greater
}

/// The order by time is total: any two times compare one way or the other,
/// two that compare both ways compare equal, and the order carries over a
/// time in between.
pub proof fn lemma_mtime_order_is_total(a: Option<i128>, b: Option<i128>, c: Option<i128>)
    ensures
        mtime_le(a, b) || mtime_le(b, a),
        mtime_le(a, b) && mtime_le(b, a) ==> mtime_order_spec(a, b) == Ordering::Equal,
        mtime_le(a, b) && mtime_le(b, c) ==> mtime_le(a, c),
        mtime_order_spec(a, a) == Ordering::Equal,
{
}

/// Entries are in order of their times.
pub open spec fn sorted_by_mtime<T>(entries: Seq<(Option<i128>, T)>) -> bool {
    forall|i: int, j: int|
        0 <= i <= j < entries.len() ==> mtime_le(
            (#[trigger] entries[i]).0,
            (#[trigger] entries[j]).0,
        )
}

/// The entries that carry the time `key`, in the order they stand in.
pub open spec fn with_mtime<T>(entries: Seq<(Option<i128>, T)>, key: Option<i128>) -> Seq<
    (Option<i128>, T),
> {
    entries.filter(|e: (Option<i128>, T)| e.0 == key)
}

/// `slice::sort_by` with `mtime_order` on the times: the entries are
/// rearranged into order, and entries that compare equal keep the order they
/// had, since the sort is stable.
#[verifier::external_body]
fn sort_by_time<T>(entries: &mut Vec<(Option<i128>, T)>)
    ensures
        final(entries)@.to_multiset() == old(entries)@.to_multiset(),
        sorted_by_mtime(final(entries)@),
        forall|key: Option<i128>| #[trigger]
            with_mtime(final(entries)@, key) == with_mtime(old(entries)@, key),
{
    entries.sort_by(|a, b| mtime_order(&a.0, &b.0))
}

/// Sorts entries by the time that each carries, earliest first; entries
/// without a time come last. Entries with equal times, and those without
/// one, keep the order they had among themselves.
pub fn sort_by_mtime<T>(entries: &mut Vec<(Option<i128>, T)>)
    ensures
        final(entries)@.to_multiset() == old(entries)@.to_multiset(),
        sorted_by_mtime(final(entries)@),
        forall|key: Option<i128>| #[trigger]
            with_mtime(final(entries)@, key) == with_mtime(old(entries)@, key),
{
    sort_by_time(entries)
}

/// Whether a file with this extension counts as executable on Windows: the
/// extension is `exe`, `bat`, `cmd` or `com`, in capital or small letters.
pub open spec fn extension_is_executable_spec(ext: Seq<char>) -> bool {
    let low = ascii_lowercase_of(ext);
    low == "exe"@ || low == "bat"@ || low == "cmd"@ || low == "com"@
}

fn same_chars(a: &Vec<char>, b: &Vec<char>) -> (r: bool)
    ensures
        r == (a@ == b@),
{
    if a.len() != b.len() {
        return false;
    }
    let mut i: usize = 0;
    while i < a.len()
        invariant
            i <= a.len(),
            a.len() == b.len(),
            forall|j: int| 0 <= j < i ==> a@[j] == b@[j],
        decreases a.len() - i,
    {
        if a[i] != b[i] {
            return false;
        }
        i = i + 1;
    }
    assert(a@ =~= b@);
    true
}

/// Whether a file with this extension counts as executable on Windows.
pub fn extension_is_executable(ext: &str) -> (r: bool)
    ensures
        r == extension_is_executable_spec(ext@),
{
    let low = to_ascii_lowercase(ext);
    same_chars(&low, &chars_of("exe")) || same_chars(&low, &chars_of("bat")) || same_chars(
        &low,
        &chars_of("cmd"),
    ) || same_chars(&low, &chars_of("com"))
}

/// What to do about a directory that is wanted.
#[derive(Clone, Copy, Debug, PartialEq, Eq, Structural)]
pub enum DirPlan {
    /// The path is empty: there is no directory to make, which is a failure.
    Refuse,
    /// The directory is there already.
    Keep,
    /// The directory, and its parents where they are missing, are to be made.
    Create,
}

/// What to do about a directory that is wanted, from whether its path is
/// empty and whether it exists.
pub fn create_dir_plan(path_is_empty: bool, exists: bool) -> (plan: DirPlan)
    ensures
        plan == (if path_is_empty {
            DirPlan::Refuse
        } else if exists {
            DirPlan::Keep
        } else {
            DirPlan::Create
        }),
{
    if path_is_empty {
        DirPlan::Refuse
    } else if exists {
        DirPlan::Keep
    } else {
        DirPlan::Create
    }
}

/// What to do about one entry of a directory that is being cleared.
#[derive(Clone, Copy, Debug, PartialEq, Eq, Structural)]
pub enum EntryPlan {
    /// The filter did not pick the entry: it stays.
    Keep,
    /// The entry is a directory: it is removed as one, which fails unless it
    /// is empty.
    RemoveDir,
    /// The entry is removed as a file.
    RemoveFile,
}

/// What to do about one entry of a directory that is being cleared, from
/// whether the filter picked it and whether it is a directory.
pub fn clear_entry_plan(picked: bool, is_dir: bool) -> (plan: EntryPlan)
    ensures
        plan == (if !picked {
            EntryPlan::Keep
        } else if is_dir {
            EntryPlan::RemoveDir
        } else {
            EntryPlan::RemoveFile
        }),
{
    if !picked {
        EntryPlan::Keep
    } else if is_dir {
        EntryPlan::RemoveDir
    } else {
        EntryPlan::RemoveFile
    }
}

} // verus!
