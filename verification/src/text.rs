//! Text helpers that the other modules share.

use vstd::prelude::*;
use vstd::string::*;

verus! {

/// `String::push` appends one character.
pub assume_specification[ String::push ](s: &mut String, ch: char)
    ensures
        final(s)@ == old(s)@.push(ch),
;

/// What `str::to_lowercase` makes of a text.
pub uninterp spec fn lowercase_of(text: Seq<char>) -> Seq<char>;

/// `str::to_lowercase`: the text in lower case, as Unicode defines it.
#[verifier::external_body]
pub(crate) fn to_lowercase(text: &str) -> (r: String)
    ensures
        r@ == lowercase_of(text@),
{
    text.to_lowercase()
}

/// Whether two texts are the same.
pub fn same_text(a: &str, b: &str) -> (r: bool)
    ensures
        r == (a@ == b@),
{
    let a = a.to_owned();
    let b = b.to_owned();
    a == b
}

/// The characters of a text.
pub fn chars_of(text: &str) -> (r: Vec<char>)
    ensures
        r@ == text@,
{
    broadcast use vstd::string::group_string_axioms;

    let mut r: Vec<char> = Vec::new();
    for c in it: text.chars()
        invariant
            it.seq() == text@,
            r@ == text@.subrange(0, it.index()),
    {
        r.push(c);
        assert(r@ =~= text@.subrange(0, it.index() + 1));
    }
    assert(text@.subrange(0, text@.len() as int) =~= text@);
    r
}

/// `part` stands in `text` from position `at` on.
pub open spec fn occurs_at(text: Seq<char>, part: Seq<char>, at: int) -> bool {
    0 <= at && at + part.len() <= text.len() && text.subrange(at, at + part.len()) == part
}

/// `part` stands somewhere in `text`.
pub open spec fn has_part(text: Seq<char>, part: Seq<char>) -> bool {
    exists|at: int| occurs_at(text, part, at)
}

fn matches_at(text: &Vec<char>, part: &Vec<char>, at: usize) -> (r: bool)
    requires
        at + part.len() <= text.len(),
    ensures
        r == occurs_at(text@, part@, at as int),
{
    let mut k: usize = 0;
    while k < part.len()
        invariant
            k <= part.len(),
            at + part.len() <= text.len(),
            text@.subrange(at as int, at + k) == part@.subrange(0, k as int),
        decreases part.len() - k,
    {
        if text[at + k] != part[k] {
            assert(text@.subrange(at as int, at + part.len())[k as int] != part@[k as int]);
            return false;
        }
        assert(text@.subrange(at as int, at + k + 1) =~= text@.subrange(at as int, at + k).push(
            text@[at + k],
        ));
        assert(part@.subrange(0, k + 1) =~= part@.subrange(0, k as int).push(part@[k as int]));
        k = k + 1;
    }
    assert(part@.subrange(0, part.len() as int) =~= part@);
    true
}

/// Whether `part` stands somewhere in `text`.
pub fn contains(text: &str, part: &str) -> (r: bool)
    ensures
        r == has_part(text@, part@),
{
    let all = chars_of(text);
    let wanted = chars_of(part);
    if wanted.len() > all.len() {
        return false;
    }
    let last = all.len() - wanted.len();
    let mut at: usize = 0;
    while at < last
        invariant
            at <= last,
            last == all.len() - wanted.len(),
            all@ == text@,
            wanted@ == part@,
            forall|j: int| 0 <= j < at ==> !occurs_at(all@, wanted@, j),
        decreases last - at,
    {
        if matches_at(&all, &wanted, at) {
            return true;
        }
        at = at + 1;
    }
    matches_at(&all, &wanted, last)
}

/// An ASCII capital letter as its small letter; any other character as it
/// is.
pub open spec fn ascii_lower_char(c: char) -> char {
    if 'A' <= c && c <= 'Z' {
        ((c as u8) + 32) as char
    } else {
        c
    }
}

/// A text with its ASCII capital letters made small.
pub open spec fn ascii_lowercase_of(text: Seq<char>) -> Seq<char> {
    text.map_values(|c: char| ascii_lower_char(c))
}

/// A text with its ASCII capital letters made small.
pub fn to_ascii_lowercase(text: &str) -> (r: Vec<char>)
    ensures
        r@ == ascii_lowercase_of(text@),
{
    let chars = chars_of(text);
    let mut r: Vec<char> = Vec::new();
    let mut i: usize = 0;
    while i < chars.len()
        invariant
            i <= chars.len(),
            chars@ == text@,
            r@ == ascii_lowercase_of(text@.subrange(0, i as int)),
        decreases chars.len() - i,
    {
        let c = chars[i];
        let low = if 'A' <= c && c <= 'Z' {
            ((c as u8) + 32) as char
        } else {
            c
        };
        r.push(low);
        assert(r@ =~= ascii_lowercase_of(text@.subrange(0, i as int + 1)));
        i = i + 1;
    }
    assert(text@.subrange(0, chars.len() as int) =~= text@);
    r
}

} // verus!
