//! Command lines for a shell: quoting of arguments, and which shell to ask.
//!
//! Starting a process is the caller's part; what is decided here is the text
//! that it is started with.

use crate::text::{contains, has_part, lowercase_of, to_lowercase};
use vstd::prelude::*;
use vstd::string::*;
use vstd::utf8::encode_utf8;

verus! {

/// Names and values for the environment of a process.
pub type EnvVars = Vec<(String, String)>;

/// What stands for one character inside single quotes: a single quote closes
/// the quotes, stands escaped, and opens them again; any other character
/// stands for itself.
pub open spec fn sh_piece(c: char) -> Seq<char> {
    if c == '\'' {
        seq!['\'', '\\', '\'', '\'']
    } else {
        seq![c]
    }
}

/// A text with each of its characters replaced by its piece.
pub open spec fn sh_escaped(text: Seq<char>) -> Seq<char>
    decreases text.len(),
{
    if text.len() == 0 {
        Seq::empty()
    } else {
        sh_piece(text.first()) + sh_escaped(text.drop_first())
    }
}

/// A text as one shell word: escaped, between single quotes.
pub open spec fn sh_quoted(text: Seq<char>) -> Seq<char> {
    seq!['\''] + sh_escaped(text) + seq!['\'']
}

/// A model of how a shell reads a word made of single-quoted stretches and
/// backslash escapes, starting inside quotes or outside: inside, a quote ends
/// the stretch and every other character is taken as it is; outside, a quote
/// starts a stretch and a backslash takes the next character as it is.
/// Anything else outside quotes is beyond this model and gives `None`, as
/// does a word that ends inside quotes or on a backslash.
pub open spec fn sh_read(word: Seq<char>, in_quotes: bool) -> Option<Seq<char>>
    decreases word.len(),
{
    if word.len() == 0 {
        if in_quotes {
            None
        } else {
            Some(Seq::empty())
        }
    } else if in_quotes {
        if word[0] == '\'' {
            sh_read(word.drop_first(), false)
        } else {
            match sh_read(word.drop_first(), true) {
                Some(rest) => Some(seq![word[0]] + rest),
                None => None,
            }
        }
    } else if word[0] == '\'' {
        sh_read(word.drop_first(), true)
    } else if word[0] == '\\' && word.len() >= 2 {
        match sh_read(word.skip(2), false) {
            Some(rest) => Some(seq![word[1]] + rest),
            None => None,
        }
    } else {
        None
    }
}

/// Escaping goes character by character: one more character adds its piece.
pub proof fn lemma_sh_escaped_push(text: Seq<char>, c: char)
    ensures
        sh_escaped(text.push(c)) == sh_escaped(text) + sh_piece(c),
    decreases text.len(),
{
    if text.len() == 0 {
        assert(text.push(c).drop_first() =~= Seq::<char>::empty());
        assert(sh_escaped(Seq::<char>::empty()) =~= Seq::<char>::empty());
        assert(text.push(c).first() == c);
        assert(sh_escaped(text.push(c)) =~= sh_piece(c) + Seq::<char>::empty());
        assert(sh_escaped(text) + sh_piece(c) =~= sh_piece(c));
    } else {
        lemma_sh_escaped_push(text.drop_first(), c);
        assert(text.push(c).drop_first() =~= text.drop_first().push(c));
        assert(text.push(c).first() == text.first());
        assert(sh_escaped(text.push(c)) =~= sh_escaped(text) + sh_piece(c));
    }
}

/// Inside quotes, an escaped text followed by `tail` reads as the text
/// followed by what `tail` reads as.
pub proof fn lemma_sh_read_escaped(text: Seq<char>, tail: Seq<char>)
    ensures
        sh_read(sh_escaped(text) + tail, true) == (match sh_read(tail, true) {
            Some(rest) => Some(text + rest),
            None => None,
        }),
    decreases text.len(),
{
    if text.len() == 0 {
        assert(sh_escaped(text) + tail =~= tail);
        match sh_read(tail, true) {
            Some(rest) => {
                assert(text + rest =~= rest);
            },
            None => {},
        }
    } else {
        let c = text.first();
        let after = sh_escaped(text.drop_first()) + tail;
        lemma_sh_read_escaped(text.drop_first(), tail);
        let word = sh_escaped(text) + tail;
        assert(word =~= sh_piece(c) + after);
        if c == '\'' {
            let w1 = word.drop_first();
            assert(w1 =~= seq!['\\', '\'', '\''] + after);
            assert(sh_read(word, true) == sh_read(w1, false));
            let w3 = w1.skip(2);
            assert(w3 =~= seq!['\''] + after);
            assert(w1[1] == '\'');
            assert(w3.drop_first() =~= after);
            assert(sh_read(w3, false) == sh_read(after, true));
        } else {
            assert(word.drop_first() =~= after);
            assert(word[0] == c);
        }
        match sh_read(tail, true) {
            Some(rest) => {
                assert(seq![c] + (text.drop_first() + rest) =~= text + rest);
            },
            None => {},
        }
    }
}

/// Quoting round-trips: a shell reads the quoted word as the text that was
/// quoted, whatever the text holds, single quotes included.
pub proof fn lemma_sh_quoted_reads_back(text: Seq<char>)
    ensures
        sh_read(sh_quoted(text), false) == Some(text),
{
    let close = seq!['\''];
    let word = sh_quoted(text);
    assert(word.drop_first() =~= sh_escaped(text) + close);
    assert(word[0] == '\'');
    lemma_sh_read_escaped(text, close);
    assert(close.drop_first() =~= Seq::<char>::empty());
    assert(sh_read(Seq::<char>::empty(), false) == Some(Seq::<char>::empty()));
    assert(sh_read(close, true) == Some(Seq::<char>::empty()));
    assert(text + Seq::<char>::empty() =~= text);
}

/// Quotes a text as one shell word.
pub fn sh_quote(text: &str) -> (r: String)
    ensures
        r@ == sh_quoted(text@),
{
    broadcast use vstd::string::group_string_axioms;

    let mut out = String::new();
    out.push('\'');
    let ghost mut n: int = 0;
    for c in it: text.chars()
        invariant
            it.seq() == text@,
            n == it.index(),
            out@ == seq!['\''] + sh_escaped(text@.subrange(0, n)),
    {
        proof {
            lemma_sh_escaped_push(text@.subrange(0, n), c);
            assert(text@.subrange(0, n + 1) =~= text@.subrange(0, n).push(c));
        }
        let ghost before = out@;
        if c == '\'' {
            out.push('\'');
            out.push('\\');
            out.push('\'');
            out.push('\'');
        } else {
            out.push(c);
        }
        proof {
            assert(out@ =~= before + sh_piece(c));
            assert(out@ =~= seq!['\''] + sh_escaped(text@.subrange(0, n + 1)));
            n = n + 1;
        }
    }
    assert(text@.subrange(0, n) =~= text@);
    out.push('\'');
    assert(out@ =~= sh_quoted(text@));
    out
}

/// One argument of a command: text, or bytes that are no text.
#[derive(Debug, PartialEq, Eq)]
pub enum ShArg {
    /// An argument that is valid UTF-8. It is quoted.
    Text(String),
    /// An argument that is not valid UTF-8. It is passed on as it is.
    Raw(Vec<u8>),
}

/// An argument as plain values.
pub ghost enum ShArgView {
    Text(Seq<char>),
    Raw(Seq<u8>),
}

impl View for ShArg {
    type V = ShArgView;

    open spec fn view(&self) -> ShArgView {
        match *self {
            ShArg::Text(s) => ShArgView::Text(s@),
            ShArg::Raw(bytes) => ShArgView::Raw(bytes@),
        }
    }
}

impl Clone for ShArg {
    /// A copy of an argument: the same kind, with the same content.
    fn clone(&self) -> (r: ShArg)
        ensures
            r@ == self@,
    {
        match self {
            ShArg::Text(s) => ShArg::Text(s.clone()),
            ShArg::Raw(bytes) => ShArg::Raw(bytes.clone()),
        }
    }
}

/// The bytes that stand for one argument in a command line.
pub open spec fn sh_arg_bytes(arg: ShArg) -> Seq<u8> {
    match arg {
        ShArg::Text(s) => encode_utf8(sh_quoted(s@)),
        ShArg::Raw(bytes) => bytes@,
    }
}

/// The command line for a list of arguments: each argument's bytes, with one
/// space between two of them.
pub open spec fn sh_command(inputs: Seq<ShArg>) -> Seq<u8>
    decreases inputs.len(),
{
    if inputs.len() == 0 {
        Seq::empty()
    } else if inputs.len() == 1 {
        sh_arg_bytes(inputs[0])
    } else {
        sh_command(inputs.drop_last()) + seq![0x20u8] + sh_arg_bytes(inputs.last())
    }
}

/// Joins arguments into one command line for a shell. Text is quoted;
/// arguments that are not text are not escaped.
pub fn format_sh_command(inputs: &Vec<ShArg>) -> (cmd: Vec<u8>)
    ensures
        cmd@ == sh_command(inputs@),
{
    let mut cmd: Vec<u8> = Vec::new();
    let mut i: usize = 0;
    assert(inputs@.subrange(0, 0) =~= Seq::<ShArg>::empty());
    while i < inputs.len()
        invariant
            i <= inputs.len(),
            cmd@ == sh_command(inputs@.subrange(0, i as int)),
        decreases inputs.len() - i,
    {
        let ghost before = cmd@;
        if i > 0 {
            cmd.push(0x20u8);
        }
        match &inputs[i] {
            ShArg::Text(s) => {
                let quoted = sh_quote(s.as_str());
                cmd.extend_from_slice(quoted.as_str().as_bytes());
            },
            ShArg::Raw(bytes) => {
                cmd.extend_from_slice(bytes.as_slice());
            },
        }
        proof {
            let upto = inputs@.subrange(0, i as int + 1);
            assert(upto.drop_last() =~= inputs@.subrange(0, i as int));
            assert(upto.last() == inputs@[i as int]);
            if i == 0 {
                assert(upto[0] == inputs@[0]);
                assert(cmd@ =~= sh_arg_bytes(inputs@[0]));
            } else {
                assert(cmd@ =~= before + seq![0x20u8] + sh_arg_bytes(inputs@[i as int]));
            }
        }
        i = i + 1;
    }
    assert(inputs@.subrange(0, inputs.len() as int) =~= inputs@);
    cmd
}

/// The shell to run scripts with on Unix, and the flag that makes it take a
/// script as an argument: the shell that the environment names in `SHELL`,
/// handed over in `shell_var`, or `/bin/sh` where it names none; the flag is
/// `-c`.
pub fn unix_shell(shell_var: Option<String>) -> (r: (String, String))
    ensures
        r.0@ == (match shell_var {
            Some(path) => path@,
            None => "/bin/sh"@,
        }),
        r.1@ == "-c"@,
{
    let path = match shell_var {
        Some(path) => path,
        None => "/bin/sh".to_owned(),
    };
    (path, "-c".to_owned())
}

/// The flag that makes a Windows shell take a command as an argument, from
/// the shell's path in lower case: PowerShell takes `-Command`, any other
/// shell `/C`.
pub fn windows_shell_flag(lowered_path: &str) -> (r: String)
    ensures
        r@ == (if has_part(lowered_path@, "powershell"@) {
            "-Command"@
        } else {
            "/C"@
        }),
{
    if contains(lowered_path, "powershell") {
        "-Command".to_owned()
    } else {
        "/C".to_owned()
    }
}

/// The shell to run scripts with on Windows, and the flag that makes it take
/// a command as an argument: the shell that the environment names in
/// `COMSPEC`, handed over in `comspec`, or `cmd.exe` where it names none;
/// the flag goes by the path, upper and lower case alike.
pub fn windows_shell(comspec: Option<String>) -> (r: (String, String))
    ensures
        r.0@ == (match comspec {
            Some(path) => path@,
            None => "cmd.exe"@,
        }),
        r.1@ == (if has_part(lowercase_of(r.0@), "powershell"@) {
            "-Command"@
        } else {
            "/C"@
        }),
{
    let path = match comspec {
        Some(path) => path,
        None => "cmd.exe".to_owned(),
    };
    let lowered = to_lowercase(path.as_str());
    let flag = windows_shell_flag(lowered.as_str());
    (path, flag)
}

} // verus!
