//! Small conversions: optional updates, errors with a prefix, and the level
//! filter that a name stands for.

use crate::text::{lowercase_of, same_text, to_lowercase};
use vstd::prelude::*;
use vstd::std_specs::convert::FromSpec;
use vstd::string::*;

verus! {

/// Updates of a value from an `Option`: `None` leaves the value as it is.
pub trait MaybeExt: Sized {
    /// Takes the value of a `Some` in place of the value that was there.
    fn maybe_take(&mut self, maybe: Option<Self>)
        ensures
            *final(self) == (match maybe {
                Some(v) => v,
                None => *old(self),
            }),
    ;

    /// Takes a clone of the value of a `Some` in place of the value that was
    /// there.
    fn maybe_clone(&mut self, maybe: &Option<Self>) where Self: Clone
        ensures
            match *maybe {
                Some(v) => cloned(v, *final(self)),
                None => *final(self) == *old(self),
            },
    ;
}

impl<T> MaybeExt for T {
    fn maybe_take(&mut self, maybe: Option<T>) {
        if let Some(v) = maybe {
            *self = v;
        }
    }

    fn maybe_clone(&mut self, maybe: &Option<T>) where T: Clone {
        if let Some(v) = maybe {
            *self = v.clone();
        }
    }
}

/// `prefix`, a colon and a space, then `text`.
pub open spec fn prefixed_spec(prefix: Seq<char>, text: Seq<char>) -> Seq<char> {
    prefix + ": "@ + text
}

/// Puts `prefix`, a colon and a space before `text`.
pub fn prefixed(prefix: &str, text: &str) -> (r: String)
    ensures
        r@ == prefixed_spec(prefix@, text@),
{
    let mut r = prefix.to_owned();
    r.append(": ");
    r.append(text);
    r
}

/// Conversions of the error of a `Result`.
pub trait ResultExt<T, E>: Sized {
    /// Converts the error into `Q`.
    fn cast_err<Q: From<E>>(self) -> Result<T, Q>;

    /// Turns the error into the text `{prefix}: {error}`.
    fn prefix_err(self, prefix: &str) -> Result<T, String> where E: core::fmt::Display;
}

impl<T, E> ResultExt<T, E> for Result<T, E> {
    /// Converts the error into `Q`; an `Ok` is kept.
    fn cast_err<Q: From<E>>(self) -> (r: Result<T, Q>)
        ensures
            match self {
                Ok(v) => r == Ok::<T, Q>(v),
                Err(e) => r is Err && call_ensures(Q::from, (e,), r->Err_0) && (Q::obeys_from_spec()
                    ==> r->Err_0 == Q::from_spec(e)),
            },
    {
        match self {
            Ok(v) => Ok(v),
            Err(e) => Err(Q::from(e)),
        }
    }

    /// Turns the error into the text it displays as, behind `prefix`, a colon
    /// and a space; an `Ok` is kept.
    fn prefix_err(self, prefix: &str) -> (r: Result<T, String>) where E: core::fmt::Display
        ensures
            match self {
                Ok(v) => r == Ok::<T, String>(v),
                Err(e) => r is Err && exists|text: String| #[trigger]
                    to_string_from_display_ensures::<E>(&e, text) && r->Err_0@ == prefixed_spec(
                        prefix@,
                        text@,
                    ),
            },
    {
        match self {
            Ok(val) => Ok(val),
            Err(e) => {
                let text = e.to_string();
                Err(prefixed(prefix, text.as_str()))
            },
        }
    }
}

/// How much of a log is let through, from nothing to everything.
#[derive(Clone, Copy, Debug, PartialEq, Eq, Structural)]
pub enum LevelFilter {
    Off,
    Error,
    Warn,
    Info,
    Debug,
    Trace,
}

/// The filter that a name in lower case stands for. A name that is none of
/// the five, and no name at all, stand for `Info`.
pub open spec fn level_filter_named(name: Option<Seq<char>>) -> LevelFilter {
    match name {
        Some(n) => if n == "trace"@ {
            LevelFilter::Trace
        } else if n == "debug"@ {
            LevelFilter::Debug
        } else if n == "info"@ {
            LevelFilter::Info
        } else if n == "warn"@ {
            LevelFilter::Warn
        } else if n == "error"@ {
            LevelFilter::Error
        } else {
            LevelFilter::Info
        },
        None => LevelFilter::Info,
    }
}

/// The filter that a name in lower case stands for.
pub fn level_filter_from_name(name: &Option<String>) -> (r: LevelFilter)
    ensures
        r == level_filter_named(
            match *name {
                Some(n) => Some(n@),
                None => None,
            },
        ),
{
    match name {
        Some(n) => {
            if same_text(n.as_str(), "trace") {
                LevelFilter::Trace
            } else if same_text(n.as_str(), "debug") {
                LevelFilter::Debug
            } else if same_text(n.as_str(), "info") {
                LevelFilter::Info
            } else if same_text(n.as_str(), "warn") {
                LevelFilter::Warn
            } else if same_text(n.as_str(), "error") {
                LevelFilter::Error
            } else {
                LevelFilter::Info
            }
        },
        None => LevelFilter::Info,
    }
}

/// The filter that the environment asks for. `rust_log` is the value of the
/// variable `RUST_LOG`, or `None` where it is not set; upper and lower case
/// count alike.
pub fn level_filter_from_env(rust_log: Option<String>) -> (r: LevelFilter)
    ensures
        r == level_filter_named(
            match rust_log {
                Some(v) => Some(lowercase_of(v@)),
                None => None,
            },
        ),
{
    let lowered = match rust_log {
        Some(v) => Some(to_lowercase(v.as_str())),
        None => None,
    };
    level_filter_from_name(&lowered)
}

} // verus!
