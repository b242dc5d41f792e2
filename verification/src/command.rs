//! The slash-command dispatcher.
//!
//! One committed input line either starts with the command prefix — then
//! its trimmed, lowercased remainder is looked up in a small fixed table —
//! or it is conversational text to be sent as a prompt. Unrecognized
//! commands keep the caller in input mode without sending anything.

use vstd::prelude::*;
use crate::session::Input;
use crate::store::UseContext;
use crate::terminal::push_char;

verus! {

/// The whitespace trimmed away around a command word: the Unicode
/// white-space characters.
pub open spec fn is_ws(c: char) -> bool {
    ||| c == ' ' || c == '\t' || c == '\n' || c == '\r' || c == '\u{B}' || c == '\u{C}'
    ||| c == '\u{85}' || c == '\u{A0}' || c == '\u{1680}'
    ||| ('\u{2000}' <= c && c <= '\u{200A}')
    ||| c == '\u{2028}' || c == '\u{2029}' || c == '\u{202F}' || c == '\u{205F}' || c == '\u{3000}'
}

/// Lowercasing of the letters command words are made of.
pub open spec fn lower_char(c: char) -> char {
    if 'A' <= c && c <= 'Z' {
        ((c as u32) + 32) as char
    } else {
        c
    }
}

/// Leading whitespace removed.
pub open spec fn trim_front(s: Seq<char>) -> Seq<char>
    decreases s.len(),
{
    if s.len() > 0 && is_ws(s.first()) {
        trim_front(s.drop_first())
    } else {
        s
    }
}

/// Trailing whitespace removed.
pub open spec fn trim_back(s: Seq<char>) -> Seq<char>
    decreases s.len(),
{
    if s.len() > 0 && is_ws(s.last()) {
        trim_back(s.drop_last())
    } else {
        s
    }
}

/// The shape a line is matched in: trimmed and lowercased.
pub open spec fn normalize(s: Seq<char>) -> Seq<char> {
    trim_back(trim_front(s)).map_values(|c: char| lower_char(c))
}

fn char_is_ws(c: char) -> (r: bool)
    ensures
        r == is_ws(c),
{
    c == ' ' || c == '\t' || c == '\n' || c == '\r' || c == '\u{B}' || c == '\u{C}' || c == '\u{85}'
        || c == '\u{A0}' || c == '\u{1680}' || ('\u{2000}' <= c && c <= '\u{200A}') || c == '\u{2028}'
        || c == '\u{2029}' || c == '\u{202F}' || c == '\u{205F}' || c == '\u{3000}'
}

fn char_lower(c: char) -> (r: char)
    ensures
        r == lower_char(c),
{
    if 'A' <= c && c <= 'Z' {
        ((c as u8) + 32) as char
    } else {
        c
    }
}

/// Trims and lowercases a line, the way commands are matched.
pub fn normalize_line(s: &str) -> (r: String)
    ensures
        r@ == normalize(s@),
{
    let mut t: &str = s;
    while t.unicode_len() > 0 && char_is_ws(t.get_char(0))
        invariant
            trim_front(t@) == trim_front(s@),
        decreases t@.len(),
    {
        let n = t.unicode_len();
        let rest = t.substring_char(1, n);
        proof {
            assert(rest@ =~= t@.drop_first());
        }
        t = rest;
    }
    assert(t@ == trim_front(s@));
    while t.unicode_len() > 0 && char_is_ws(t.get_char(t.unicode_len() - 1))
        invariant
            trim_back(t@) == trim_back(trim_front(s@)),
        decreases t@.len(),
    {
        let n = t.unicode_len();
        let rest = t.substring_char(0, n - 1);
        proof {
            assert(rest@ =~= t@.drop_last());
        }
        t = rest;
    }
    assert(t@ == trim_back(trim_front(s@)));
    let mut out = String::new();
    let n = t.unicode_len();
    let mut i: usize = 0;
    while i < n
        invariant
            i <= n,
            n == t@.len(),
            t@ == trim_back(trim_front(s@)),
            out@ == t@.take(i as int).map_values(|c: char| lower_char(c)),
        decreases n - i,
    {
        let c = t.get_char(i);
        let l = char_lower(c);
        push_char(&mut out, l);
        i = i + 1;
        proof {
            assert(out@ =~= t@.take(i as int).map_values(|c: char| lower_char(c)));
        }
    }
    proof {
        assert(t@.take(n as int) =~= t@);
    }
    out
}

/// What the dispatcher tells the caller to do with one committed line.
#[derive(Debug)]
pub enum Directive {
    /// Hand this instruction to the session controller.
    Forward(Input),
    /// Terminate the program cleanly.
    Quit,
    /// Print the help screen and prompt again.
    Help,
    /// Unrecognized command: print an error and prompt again.
    Invalid,
}

/// The quit command and its aliases.
pub open spec fn is_quit_word(n: Seq<char>) -> bool {
    n == "/exit"@ || n == "/quit"@ || n == "/q"@ || n == "/stop"@
}

/// The help command and its aliases.
pub open spec fn is_help_word(n: Seq<char>) -> bool {
    n == "/help"@ || n == "/h"@
}

/// The clear command and its aliases.
pub open spec fn is_clear_word(n: Seq<char>) -> bool {
    n == "/clear"@ || n == "/c"@ || n == "/new"@ || n == "/n"@
}

/// The command words of each context preset.
pub open spec fn preset_word(n: Seq<char>) -> Option<UseContext> {
    if n == "/programming"@ || n == "/prog"@ || n == "/p"@ {
        Some(UseContext::Programming)
    } else if n == "/short"@ || n == "/s"@ {
        Some(UseContext::Short)
    } else if n == "/basic"@ || n == "/b"@ {
        Some(UseContext::Basic)
    } else {
        None
    }
}

fn eq_lit(n: &String, lit: &str) -> (r: bool)
    ensures
        r == (n@ == lit@),
{
    let l = String::from_str(lit);
    n.eq(&l)
}

/// Classifies one committed line. Lines not starting with the prefix are
/// conversational text, kept verbatim; prefixed lines are matched
/// case-insensitively, ignoring surrounding whitespace.
pub fn dispatch_line(line: &str) -> (r: Directive)
    ensures
        ({
            let n = normalize(line@);
            if !(line@.len() > 0 && line@.first() == '/') {
                r matches Directive::Forward(Input::Text(t)) && t@ == line@
            } else if is_quit_word(n) {
                r is Quit
            } else if is_help_word(n) {
                r is Help
            } else if preset_word(n) is Some {
                r matches Directive::Forward(Input::Context(p)) && Some(p) == preset_word(n)
            } else if is_clear_word(n) {
                r matches Directive::Forward(Input::Clear)
            } else {
                r is Invalid
            }
        }),
{
    if !(line.unicode_len() > 0 && line.get_char(0) == '/') {
        return Directive::Forward(Input::Text(line.to_owned()));
    }
    let n = normalize_line(line);
    if eq_lit(&n, "/exit") || eq_lit(&n, "/quit") || eq_lit(&n, "/q") || eq_lit(&n, "/stop") {
        Directive::Quit
    } else if eq_lit(&n, "/help") || eq_lit(&n, "/h") {
        Directive::Help
    } else if eq_lit(&n, "/programming") || eq_lit(&n, "/prog") || eq_lit(&n, "/p") {
        Directive::Forward(Input::Context(UseContext::Programming))
    } else if eq_lit(&n, "/short") || eq_lit(&n, "/s") {
        Directive::Forward(Input::Context(UseContext::Short))
    } else if eq_lit(&n, "/basic") || eq_lit(&n, "/b") {
        Directive::Forward(Input::Context(UseContext::Basic))
    } else if eq_lit(&n, "/clear") || eq_lit(&n, "/c") || eq_lit(&n, "/new") || eq_lit(&n, "/n") {
        Directive::Forward(Input::Clear)
    } else {
        Directive::Invalid
    }
}

/// Whether the caller stays in input mode after this directive: always,
/// except for conversational text, which goes out as a prompt.
pub fn stays_in_input_mode(d: &Directive) -> (r: bool)
    ensures
        r == !(d matches Directive::Forward(Input::Text(_))),
{
    match d {
        Directive::Forward(Input::Text(_)) => false,
        _ => true,
    }
}

} // verus!
