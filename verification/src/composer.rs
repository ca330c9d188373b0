//! The structured commit-message form: a cursor-addressable, multi-field,
//! multi-line editor, modelled as a state machine over one keystroke at a
//! time.  The surrounding raw-input loop reads keys and redraws; every
//! decision about fields and buffers is made here.

use vstd::prelude::*;

verus! {

/// The four logical positions of the form, in ring order
/// `Scope -> Subject -> Body -> Submit -> Scope`.
#[derive(Clone, Copy, Debug, PartialEq, Eq, Structural)]
pub enum Field {
    Scope,
    Subject,
    Body,
    Submit,
}

/// One input event, as the raw-input loop reports it.
#[derive(Clone, Copy, Debug, PartialEq, Eq, Structural)]
pub enum Key {
    Up,
    Down,
    Enter,
    Backspace,
    Char(char),
    Cancel,
    Other,
}

/// What one step of the form loop decided.
#[derive(Clone, Copy, Debug, PartialEq, Eq, Structural)]
pub enum ComposerStatus {
    Editing,
    Submitted,
    Cancelled,
}

/// The position above `f` in the ring.
pub open spec fn ring_up(f: Field) -> Field {
    match f {
        Field::Scope => Field::Submit,
        Field::Subject => Field::Scope,
        Field::Body => Field::Subject,
        Field::Submit => Field::Body,
    }
}

/// The position below `f` in the ring.
pub open spec fn ring_down(f: Field) -> Field {
    match f {
        Field::Scope => Field::Subject,
        Field::Subject => Field::Body,
        Field::Body => Field::Submit,
        Field::Submit => Field::Scope,
    }
}

/// The outcome of one step: cancel always aborts, Enter on `Submit` ends
/// the form, anything else keeps editing.
pub open spec fn step_status(active: Field, k: Key) -> ComposerStatus {
    if k is Cancel {
        ComposerStatus::Cancelled
    } else if k is Enter && active is Submit {
        ComposerStatus::Submitted
    } else {
        ComposerStatus::Editing
    }
}

/// The active field after one step: Up and Down move along the ring, Enter
/// advances from `Scope` or `Subject`, and nothing else moves.
pub open spec fn step_field(active: Field, k: Key) -> Field {
    match k {
        Key::Up => ring_up(active),
        Key::Down => ring_down(active),
        Key::Enter => match active {
            Field::Scope => Field::Subject,
            Field::Subject => Field::Body,
            _ => active,
        },
        _ => active,
    }
}

/// The buffer belonging to position `this` after one step in which
/// `active` was the active field: characters append, backspace removes the
/// last character, Enter appends a newline to the body only, and inactive
/// buffers never change.
pub open spec fn step_buffer(buf: Seq<char>, active: Field, this: Field, k: Key) -> Seq<char> {
    if active == this {
        match k {
            Key::Char(c) => buf.push(c),
            Key::Backspace => if buf.len() == 0 {
                buf
            } else {
                buf.drop_last()
            },
            Key::Enter => if this is Body {
                buf.push('\n')
            } else {
                buf
            },
            _ => buf,
        }
    } else {
        buf
    }
}

/// Relies on String::push: appends the given character to the end of the
/// string.
#[verifier::external_body]
fn push_char(s: &mut String, c: char)
    ensures
        final(s)@ == old(s)@.push(c),
{
    s.push(c);
}

/// Removes the last character of `s`, if any.
fn drop_last_char(s: &mut String)
    ensures
        final(s)@ == if old(s)@.len() == 0 {
            old(s)@
        } else {
            old(s)@.drop_last()
        },
{
    let len = s.unicode_len();
    if len > 0 {
        let piece = s.as_str().substring_char(0, len - 1);
        let t = String::from_str(piece);
        proof {
            assert(t@ =~= s@.drop_last());
        }
        *s = t;
    }
}

/// The form state: the active position and the three text buffers.
pub struct Composer {
    pub active: Field,
    pub scope: String,
    pub subject: String,
    pub body: String,
}

impl Composer {
    /// A fresh form: empty buffers, editing starts on the scope field.
    pub fn new() -> (c: Composer)
        ensures
            c.active == Field::Scope,
            c.scope@ == Seq::<char>::empty(),
            c.subject@ == Seq::<char>::empty(),
            c.body@ == Seq::<char>::empty(),
    {
        Composer {
            active: Field::Scope,
            scope: String::new(),
            subject: String::new(),
            body: String::new(),
        }
    }

    /// Applies one keystroke.  The returned status and the new state are
    /// pinned exactly by the transition functions above.
    pub fn step(&mut self, k: Key) -> (st: ComposerStatus)
        ensures
            st == step_status(old(self).active, k),
            final(self).active == step_field(old(self).active, k),
            final(self).scope@ == step_buffer(old(self).scope@, old(self).active, Field::Scope, k),
            final(self).subject@ == step_buffer(
                old(self).subject@,
                old(self).active,
                Field::Subject,
                k,
            ),
            final(self).body@ == step_buffer(old(self).body@, old(self).active, Field::Body, k),
    {
        match k {
            Key::Up => {
                self.active = match self.active {
                    Field::Scope => Field::Submit,
                    Field::Subject => Field::Scope,
                    Field::Body => Field::Subject,
                    Field::Submit => Field::Body,
                };
                ComposerStatus::Editing
            },
            Key::Down => {
                self.active = match self.active {
                    Field::Scope => Field::Subject,
                    Field::Subject => Field::Body,
                    Field::Body => Field::Submit,
                    Field::Submit => Field::Scope,
                };
                ComposerStatus::Editing
            },
            Key::Enter => {
                match self.active {
                    Field::Submit => ComposerStatus::Submitted,
                    Field::Scope => {
                        self.active = Field::Subject;
                        ComposerStatus::Editing
                    },
                    Field::Subject => {
                        self.active = Field::Body;
                        ComposerStatus::Editing
                    },
                    Field::Body => {
                        push_char(&mut self.body, '\n');
                        ComposerStatus::Editing
                    },
                }
            },
            Key::Backspace => {
                match self.active {
                    Field::Scope => drop_last_char(&mut self.scope),
                    Field::Subject => drop_last_char(&mut self.subject),
                    Field::Body => drop_last_char(&mut self.body),
                    Field::Submit => (),
                }
                ComposerStatus::Editing
            },
            Key::Char(c) => {
                match self.active {
                    Field::Scope => push_char(&mut self.scope, c),
                    Field::Subject => push_char(&mut self.subject, c),
                    Field::Body => push_char(&mut self.body, c),
                    Field::Submit => (),
                }
                ComposerStatus::Editing
            },
            Key::Cancel => ComposerStatus::Cancelled,
            Key::Other => ComposerStatus::Editing,
        }
    }
}

/// The number of newline characters in `s`.
pub open spec fn newline_count(s: Seq<char>) -> nat
    decreases s.len(),
{
    if s.len() == 0 {
        0
    } else {
        newline_count(s.drop_last()) + if s.last() == '\n' {
            1nat
        } else {
            0nat
        }
    }
}

/// Pressing Enter while the body field is active appends exactly one
/// newline — the newline count of the body buffer rises by one — and the
/// active field does not change.
pub proof fn lemma_enter_on_body(buf: Seq<char>, active: Field)
    requires
        active is Body,
    ensures
        step_field(active, Key::Enter) == active,
        newline_count(step_buffer(buf, active, Field::Body, Key::Enter)) == newline_count(buf)
            + 1,
{
    let after = step_buffer(buf, active, Field::Body, Key::Enter);
    assert(after == buf.push('\n'));
    assert(after.drop_last() =~= buf);
    assert(after.last() == '\n');
}

} // verus!
