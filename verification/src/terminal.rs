//! Raw-mode input handling: the multi-line input buffer and the keystroke
//! state machine that fills it.
//!
//! Capturing keystrokes and echoing them is terminal work done outside;
//! each captured keystroke is handed in as a plain `KeyPress`, and the
//! transition function below is the single source of truth for what it
//! does to the buffer and whether it commits or exits.

use vstd::prelude::*;

verus! {

/// Relies on String::push: appends the character to the end of the string.
#[verifier::external_body]
pub(crate) fn push_char(s: &mut String, c: char)
    ensures
        final(s)@ == old(s)@.push(c),
{
    s.push(c);
}

/// Relies on String::pop: removes the last character and returns it;
/// on an empty string it returns nothing and changes nothing.
#[verifier::external_body]
fn pop_char(s: &mut String) -> (r: Option<char>)
    ensures
        old(s)@.len() == 0 ==> final(s)@ == old(s)@ && r is None,
        old(s)@.len() > 0 ==> final(s)@ == old(s)@.drop_last() && r == Some(old(s)@.last()),
{
    s.pop()
}

/// Appending a character to the current (last) line.
pub open spec fn push_op(v: Seq<Seq<char>>, c: char) -> Seq<Seq<char>> {
    if v.len() == 0 {
        v
    } else {
        v.update(v.len() - 1, v.last().push(c))
    }
}

/// Removing the last character of the current line; never merges lines.
pub open spec fn pop_op(v: Seq<Seq<char>>) -> Seq<Seq<char>> {
    if v.len() == 0 || v.last().len() == 0 {
        v
    } else {
        v.update(v.len() - 1, v.last().drop_last())
    }
}

/// The committed text: lines joined by newlines.
pub open spec fn join_lines(v: Seq<Seq<char>>) -> Seq<char>
    decreases v.len(),
{
    if v.len() == 0 {
        Seq::empty()
    } else if v.len() == 1 {
        v[0]
    } else {
        join_lines(v.drop_last()) + seq!['\n'] + v.last()
    }
}

/// The multi-line text being typed; always at least one line.
pub struct InputBuffer {
    lines: Vec<String>,
}

impl View for InputBuffer {
    type V = Seq<Seq<char>>;

    closed spec fn view(&self) -> Seq<Seq<char>> {
        self.lines.deep_view()
    }
}

impl InputBuffer {
    /// A fresh buffer: one empty line.
    pub fn new() -> (r: InputBuffer)
        ensures
            r@ =~= seq![Seq::<char>::empty()],
    {
        let mut lines: Vec<String> = Vec::new();
        lines.push(String::new());
        InputBuffer { lines }
    }

    /// Starts a new empty line; multi-line entry continues.
    pub fn newline(&mut self)
        ensures
            final(self)@ == old(self)@.push(Seq::<char>::empty()),
    {
        self.lines.push(String::new());
        proof {
            assert(final(self)@ =~= old(self)@.push(Seq::<char>::empty()));
        }
    }

    /// Appends a character to the current line.
    pub fn push(&mut self, c: char)
        ensures
            final(self)@ == push_op(old(self)@, c),
    {
        let n = self.lines.len();
        if n > 0 {
            push_char(&mut self.lines[n - 1], c);
            proof {
                assert(final(self)@ =~= push_op(old(self)@, c));
            }
        }
    }

    /// Removes the last character of the current line, if it has one.
    pub fn pop(&mut self)
        ensures
            final(self)@ == pop_op(old(self)@),
    {
        let n = self.lines.len();
        if n > 0 {
            pop_char(&mut self.lines[n - 1]);
            proof {
                assert(final(self)@ =~= pop_op(old(self)@));
            }
        }
    }

    /// The lines paired with their indices, for the echo display.
    pub fn lines_numbered(&self) -> (r: Vec<(usize, String)>)
        ensures
            r@.len() == self@.len(),
            forall|i: int|
                0 <= i < r@.len() ==> (#[trigger] r@[i]).0 == i && r@[i].1@ == self@[i],
    {
        let mut out: Vec<(usize, String)> = Vec::new();
        let mut i: usize = 0;
        while i < self.lines.len()
            invariant
                i <= self.lines.len(),
                self.lines.deep_view() == self@,
                out@.len() == i,
                forall|j: int| 0 <= j < i ==> (#[trigger] out@[j]).0 == j && out@[j].1@ == self@[j],
            decreases self.lines.len() - i,
        {
            out.push((i, self.lines[i].clone()));
            proof {
                assert(out@[i as int].1@ == self@[i as int]);
            }
            i = i + 1;
        }
        out
    }

    /// The lines themselves, in order.
    pub fn lines(&self) -> (r: &Vec<String>)
        ensures
            r.deep_view() == self@,
    {
        &self.lines
    }

    /// The whole buffer as one committed string, lines joined by newlines.
    pub fn joined(&self) -> (r: String)
        ensures
            r@ == join_lines(self@),
    {
        let mut out = String::new();
        let mut i: usize = 0;
        while i < self.lines.len()
            invariant
                i <= self.lines.len(),
                self.lines.deep_view() == self@,
                out@ == join_lines(self@.take(i as int)),
            decreases self.lines.len() - i,
        {
            if i > 0 {
                push_char(&mut out, '\n');
            }
            out.append(self.lines[i].as_str());
            i = i + 1;
            proof {
                assert(self@.take(i as int).drop_last() =~= self@.take(i as int - 1));
                if i > 1 {
                    assert(out@ =~= join_lines(self@.take(i as int)));
                } else {
                    assert(out@ =~= join_lines(self@.take(1)));
                }
            }
        }
        proof {
            assert(self@.take(self.lines.len() as int) =~= self@);
        }
        out
    }
}

/// A keystroke's code, reduced to what the reader reacts to.
#[derive(Clone, Copy, PartialEq, Eq, Structural, Debug)]
pub enum Key {
    Char(char),
    Enter,
    Backspace,
    Other,
}

/// One captured keystroke: code plus the two modifiers that matter.
#[derive(Clone, Copy, PartialEq, Eq, Structural, Debug)]
pub struct KeyPress {
    pub code: Key,
    pub ctrl: bool,
    pub shift: bool,
}

/// What the reader does after a keystroke.
#[derive(Clone, Copy, PartialEq, Eq, Structural, Debug)]
pub enum KeyAction {
    /// Keep reading keystrokes.
    Stay,
    /// Enter without shift: return the buffer to the caller.
    Commit,
    /// Ctrl+C or Ctrl+D: leave raw mode and terminate.
    Exit,
}

/// What a keystroke does: Ctrl+C and Ctrl+D exit, plain Enter commits,
/// everything else just edits or is ignored.
pub open spec fn key_action(k: KeyPress) -> KeyAction {
    if k.ctrl {
        if k.code == Key::Char('c') || k.code == Key::Char('d') {
            KeyAction::Exit
        } else {
            KeyAction::Stay
        }
    } else if k.shift {
        KeyAction::Stay
    } else if k.code == Key::Enter {
        KeyAction::Commit
    } else {
        KeyAction::Stay
    }
}

/// How a keystroke edits the buffer: with shift held only Enter acts and
/// opens a new line; unmodified characters append, Backspace removes,
/// anything else is ignored.
pub open spec fn key_buffer(v: Seq<Seq<char>>, k: KeyPress) -> Seq<Seq<char>> {
    if k.ctrl {
        v
    } else if k.shift {
        if k.code == Key::Enter {
            v.push(Seq::empty())
        } else {
            v
        }
    } else {
        match k.code {
            Key::Char(c) => push_op(v, c),
            Key::Backspace => pop_op(v),
            _ => v,
        }
    }
}

/// The keystroke state machine: one transition of buffer and control flow.
pub fn handle_key(buf: &mut InputBuffer, k: KeyPress) -> (r: KeyAction)
    ensures
        final(buf)@ == key_buffer(old(buf)@, k),
        r == key_action(k),
{
    if k.ctrl {
        return match k.code {
            Key::Char(c) => if c == 'c' || c == 'd' {
                KeyAction::Exit
            } else {
                KeyAction::Stay
            },
            _ => KeyAction::Stay,
        };
    }
    if k.shift {
        if k.code == Key::Enter {
            buf.newline();
        }
        return KeyAction::Stay;
    }
    match k.code {
        Key::Enter => KeyAction::Commit,
        Key::Backspace => {
            buf.pop();
            KeyAction::Stay
        },
        Key::Char(c) => {
            buf.push(c);
            KeyAction::Stay
        },
        Key::Other => KeyAction::Stay,
    }
}

} // verus!
