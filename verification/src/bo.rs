//! Readers that hand a stream to a callback piece by piece.
//!
//! The pieces come from an iterator, as a reader split on a delimiter or into
//! lines gives them; opening the reader is the caller's part.

use vstd::prelude::*;
use vstd::std_specs::iter::IteratorSpec;
use vstd::string::*;
use vstd::utf8::{decode_utf8, valid_utf8};

verus! {

/// `std::io::Error`, the error of a read that failed. Nothing is known of
/// what it holds.
#[verifier::external_type_specification]
#[verifier::external_body]
pub struct ExIoError(std::io::Error);

/// Why a reader stopped before the end of its input.
#[derive(Debug)]
#[non_exhaustive]
pub enum MapReaderError<E> {
    /// The piece with this index, counted from 0, could not be read or was
    /// not text, or it is piece number `u32::MAX`, which is never read.
    ChunkError(usize),
    /// The callback refused a piece with this error.
    Custom(E),
}

/// What an error says of itself: a fixed opening, then the index or the
/// callback's error as it displays.
pub open spec fn error_message<E: core::fmt::Display>(e: MapReaderError<E>, text: Seq<char>) -> bool {
    match e {
        MapReaderError::ChunkError(i) => exists|shown: String| #[trigger]
            to_string_from_display_ensures::<usize>(&i, shown) && text == "Failed to read chunk: "@
                + shown@,
        MapReaderError::Custom(inner) => exists|shown: String| #[trigger]
            to_string_from_display_ensures::<E>(&inner, shown) && text == "Aborted: "@ + shown@,
    }
}

impl<E: core::fmt::Display> MapReaderError<E> {
    /// The error as a line of text.
    pub fn message(&self) -> (r: String)
        ensures
            error_message(*self, r@),
    {
        match self {
            MapReaderError::ChunkError(i) => {
                let shown = i.to_string();
                let mut r = "Failed to read chunk: ".to_owned();
                r.append(shown.as_str());
                r
            },
            MapReaderError::Custom(inner) => {
                let shown = inner.to_string();
                let mut r = "Aborted: ".to_owned();
                r.append(shown.as_str());
                r
            },
        }
    }
}

/// `String::from_utf8`, with the error dropped: the bytes as text where they
/// are UTF-8, else nothing.
#[verifier::external_body]
fn text_from_utf8(bytes: Vec<u8>) -> (r: Option<String>)
    ensures
        r is Some <==> valid_utf8(bytes@),
        r matches Some(s) ==> s@ == decode_utf8(bytes@),
{
    String::from_utf8(bytes).ok()
}

/// The text of a chunk that was read and is UTF-8.
pub open spec fn chunk_text(item: Result<Vec<u8>, std::io::Error>) -> Option<Seq<char>> {
    match item {
        Ok(bytes) => if valid_utf8(bytes@) {
            Some(decode_utf8(bytes@))
        } else {
            None
        },
        Err(_) => None,
    }
}

/// A chunk stops the reader when it could not be read, or when it is not
/// UTF-8 and such chunks are not to be skipped.
pub open spec fn chunk_stops(invalid_fail: bool, item: Result<Vec<u8>, std::io::Error>) -> bool {
    item is Err || (invalid_fail && chunk_text(item) is None)
}

/// The text of a line that was read.
pub open spec fn line_text(item: Result<String, std::io::Error>) -> Option<Seq<char>> {
    match item {
        Ok(s) => Some(s@),
        Err(_) => None,
    }
}

/// A line stops the reader when it could not be read and such lines are not
/// to be skipped.
pub open spec fn line_stops(invalid_fail: bool, item: Result<String, std::io::Error>) -> bool {
    invalid_fail && item is Err
}

/// What a reader does with one piece of its input.
#[derive(Debug, PartialEq, Eq)]
pub enum ReadStep {
    /// The piece is text: it goes to the callback.
    Give(String),
    /// The piece is passed over.
    Skip,
    /// The reader stops here with `ChunkError`.
    Stop,
}

/// The step for the piece with number `index`, counted from 0, from whether
/// it stops the reader and the text it holds: piece number `u32::MAX` and a
/// piece that stops the reader end the reading; other pieces are handed on
/// if they are text and passed over if not.
pub open spec fn step_fits(index: usize, stops: bool, text: Option<Seq<char>>, step: ReadStep) -> bool {
    if index == u32::MAX || stops {
        step is Stop
    } else {
        match text {
            Some(t) => step matches ReadStep::Give(s) && s@ == t,
            None => step is Skip,
        }
    }
}

/// What a reader of chunks does with the chunk number `index`.
pub fn chunk_step<const INVALID_FAIL: bool>(index: usize, chunk: std::io::Result<Vec<u8>>) -> (step:
    ReadStep)
    ensures
        step_fits(index, chunk_stops(INVALID_FAIL, chunk), chunk_text(chunk), step),
{
    if index == u32::MAX as usize {
        return ReadStep::Stop;
    }
    match chunk {
        Ok(bytes) => match text_from_utf8(bytes) {
            Some(s) => ReadStep::Give(s),
            None => if INVALID_FAIL {
                ReadStep::Stop
            } else {
                ReadStep::Skip
            },
        },
        Err(_) => ReadStep::Stop,
    }
}

/// What a reader of lines does with the line number `index`.
pub fn line_step<const INVALID_FAIL: bool>(index: usize, line: std::io::Result<String>) -> (step:
    ReadStep)
    ensures
        step_fits(index, line_stops(INVALID_FAIL, line), line_text(line), step),
{
    if index == u32::MAX as usize {
        return ReadStep::Stop;
    }
    match line {
        Ok(l) => ReadStep::Give(l),
        Err(_) => if INVALID_FAIL {
            ReadStep::Stop
        } else {
            ReadStep::Skip
        },
    }
}

/// The callback may answer `Ok` to this text.
pub open spec fn accepts<E, C: FnMut(String) -> Result<(), E>>(f: C, text: Seq<char>) -> bool {
    exists|s: String| s@ == text && #[trigger] call_ensures(f, (s,), Ok::<(), E>(()))
}

/// The callback may answer this error to this text.
pub open spec fn refuses<E, C: FnMut(String) -> Result<(), E>>(f: C, text: Seq<char>, e: E) -> bool {
    exists|s: String| s@ == text && #[trigger] call_ensures(f, (s,), Err::<(), E>(e))
}

/// A piece was passed: it did not stop the reader, and if it was text the
/// callback accepted it.
pub open spec fn passed<E, C: FnMut(String) -> Result<(), E>>(
    f: C,
    stops: bool,
    text: Option<Seq<char>>,
) -> bool {
    !stops && (text matches Some(t) ==> accepts(f, t))
}

/// What a reader returns for the pieces `stops` and `texts` describe, one
/// entry for each piece in turn: `Ok` when every piece was passed and there
/// are at most `u32::MAX` of them; else the first piece that was not passed
/// decides, with `ChunkError` and its index when it stopped the reader or is
/// piece number `u32::MAX`, and with the callback's error when the callback
/// refused it.
pub open spec fn reader_result<E, C: FnMut(String) -> Result<(), E>>(
    f: C,
    stops: Seq<bool>,
    texts: Seq<Option<Seq<char>>>,
    r: Result<(), MapReaderError<E>>,
) -> bool {
    match r {
        Ok(_) => stops.len() <= u32::MAX && forall|i: int|
            0 <= i < stops.len() ==> passed(f, #[trigger] stops[i], texts[i]),
        Err(MapReaderError::ChunkError(k)) => k < stops.len() && k <= u32::MAX && (k == u32::MAX
            || stops[k as int]) && forall|i: int|
            0 <= i < k ==> passed(f, #[trigger] stops[i], texts[i]),
        Err(MapReaderError::Custom(e)) => exists|k: int|
            0 <= k < stops.len() && k < u32::MAX && !#[trigger] stops[k] && (texts[k] matches Some(
                t,
            ) && refuses(f, t, e)) && forall|i: int|
                0 <= i < k ==> passed(f, #[trigger] stops[i], texts[i]),
    }
}

/// Hands each chunk to `f` as text, in turn, until one stops the reader or
/// `f` refuses one. A chunk that is not UTF-8 stops the reader if
/// `INVALID_FAIL`, and is skipped otherwise.
pub fn map_chunks<const INVALID_FAIL: bool, E>(
    iter: impl Iterator<Item = std::io::Result<Vec<u8>>>,
    f: impl FnMut(String) -> Result<(), E>,
) -> (r: Result<(), MapReaderError<E>>)
    requires
        forall|s: String| call_requires(f, (s,)),
    ensures
        iter.obeys_prophetic_iter_laws() ==> reader_result(
            f,
            iter.remaining().map_values(
                |item: Result<Vec<u8>, std::io::Error>| chunk_stops(INVALID_FAIL, item),
            ),
            iter.remaining().map_values(|item: Result<Vec<u8>, std::io::Error>| chunk_text(item)),
            r,
        ),
{
    let mut it = iter;
    let mut call = f;
    let ghost items = iter.remaining();
    let ghost stops = items.map_values(
        |item: Result<Vec<u8>, std::io::Error>| chunk_stops(INVALID_FAIL, item),
    );
    let ghost texts = items.map_values(|item: Result<Vec<u8>, std::io::Error>| chunk_text(item));
    let mut i: usize = 0;
    loop
        invariant
            i <= u32::MAX,
            call == f,
            forall|s: String| call_requires(f, (s,)),
            it.obeys_prophetic_iter_laws() == iter.obeys_prophetic_iter_laws(),
            items == iter.remaining(),
            stops == items.map_values(
                |item: Result<Vec<u8>, std::io::Error>| chunk_stops(INVALID_FAIL, item),
            ),
            texts == items.map_values(|item: Result<Vec<u8>, std::io::Error>| chunk_text(item)),
            it.obeys_prophetic_iter_laws() ==> i <= items.len() && it.remaining()
                == items.subrange(i as int, items.len() as int) && forall|j: int|
                0 <= j < i ==> passed(f, #[trigger] stops[j], texts[j]),
        decreases u32::MAX - i,
    {
        let chunk_result = match it.next() {
            Some(c) => c,
            None => {
                return Ok(());
            },
        };
        proof {
            if it.obeys_prophetic_iter_laws() {
                assert(chunk_result == items[i as int]);
                assert(items.subrange(i as int, items.len() as int).drop_first()
                    =~= items.subrange(i as int + 1, items.len() as int));
                assert(stops[i as int] == chunk_stops(INVALID_FAIL, chunk_result));
                assert(texts[i as int] == chunk_text(chunk_result));
            }
        }
        match chunk_step::<INVALID_FAIL>(i, chunk_result) {
            ReadStep::Give(s) => {
                let ghost text = s;
                let res = call(s);
                match res {
                    Ok(unit) => {
                        assert(unit == ());
                        assert(call_ensures(f, (text,), Ok::<(), E>(())));
                    },
                    Err(e) => {
                        assert(call_ensures(f, (text,), Err::<(), E>(e)));
                        return Err(MapReaderError::Custom(e));
                    },
                }
            },
            ReadStep::Skip => {},
            ReadStep::Stop => {
                return Err(MapReaderError::ChunkError(i));
            },
        }
        i = i + 1;
    }
}

/// Hands each line to `f`, in turn, until one stops the reader or `f` refuses
/// one. A line that could not be read stops the reader if `INVALID_FAIL`, and
/// is skipped otherwise.
pub fn map_reader_lines<const INVALID_FAIL: bool, E>(
    lines: impl Iterator<Item = std::io::Result<String>>,
    f: impl FnMut(String) -> Result<(), E>,
) -> (r: Result<(), MapReaderError<E>>)
    requires
        forall|s: String| call_requires(f, (s,)),
    ensures
        lines.obeys_prophetic_iter_laws() ==> reader_result(
            f,
            lines.remaining().map_values(
                |item: Result<String, std::io::Error>| line_stops(INVALID_FAIL, item),
            ),
            lines.remaining().map_values(|item: Result<String, std::io::Error>| line_text(item)),
            r,
        ),
{
    let mut it = lines;
    let mut call = f;
    let ghost items = lines.remaining();
    let ghost stops = items.map_values(
        |item: Result<String, std::io::Error>| line_stops(INVALID_FAIL, item),
    );
    let ghost texts = items.map_values(|item: Result<String, std::io::Error>| line_text(item));
    let mut i: usize = 0;
    loop
        invariant
            i <= u32::MAX,
            call == f,
            forall|s: String| call_requires(f, (s,)),
            it.obeys_prophetic_iter_laws() == lines.obeys_prophetic_iter_laws(),
            items == lines.remaining(),
            stops == items.map_values(
                |item: Result<String, std::io::Error>| line_stops(INVALID_FAIL, item),
            ),
            texts == items.map_values(|item: Result<String, std::io::Error>| line_text(item)),
            it.obeys_prophetic_iter_laws() ==> i <= items.len() && it.remaining()
                == items.subrange(i as int, items.len() as int) && forall|j: int|
                0 <= j < i ==> passed(f, #[trigger] stops[j], texts[j]),
        decreases u32::MAX - i,
    {
        let line = match it.next() {
            Some(l) => l,
            None => {
                return Ok(());
            },
        };
        proof {
            if it.obeys_prophetic_iter_laws() {
                assert(line == items[i as int]);
                assert(items.subrange(i as int, items.len() as int).drop_first()
                    =~= items.subrange(i as int + 1, items.len() as int));
                assert(stops[i as int] == line_stops(INVALID_FAIL, line));
                assert(texts[i as int] == line_text(line));
            }
        }
        match line_step::<INVALID_FAIL>(i, line) {
            ReadStep::Give(s) => {
                let ghost text = s;
                let res = call(s);
                match res {
                    Ok(unit) => {
                        assert(unit == ());
                        assert(call_ensures(f, (text,), Ok::<(), E>(())));
                    },
                    Err(e) => {
                        assert(call_ensures(f, (text,), Err::<(), E>(e)));
                        return Err(MapReaderError::Custom(e));
                    },
                }
            },
            ReadStep::Skip => {},
            ReadStep::Stop => {
                return Err(MapReaderError::ChunkError(i));
            },
        }
        i = i + 1;
    }
}

} // verus!
