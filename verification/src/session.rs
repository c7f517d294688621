//! The event-dispatch state machine that drives one input cycle.
//!
//! A session owns the value stack, the edit buffer and the error-row state.
//! The host loop polls the terminal, hands each normalized key to
//! [`Session::on_key`], and carries out the [`HostCall`] it gets back: the
//! two floating-point tasks the core cannot perform itself, parsing a
//! committed token and combining two operands, are answered through
//! [`Session::parsed`] and [`Session::computed`] as 64-bit IEEE-754 bit
//! patterns.
use vstd::prelude::*;

use crate::input::{is_numeric, is_numeric_char, EditBuffer};
use crate::platform::Key;
use crate::render::{slot_ops_ok, PaintOp};
use crate::repl::{CalcError, Repl};

verus! {

/// A binary operator of the calculator.
#[derive(Clone, Copy, Debug, PartialEq, Eq, Structural)]
pub enum BinOp {
    Add,
    Sub,
    Mul,
    Div,
}

/// What the host must do to finish dispatching a key.
#[derive(Debug, PartialEq)]
pub enum HostCall {
    /// Nothing: the dispatch is complete.
    Done,
    /// Parse this committed token as a double and answer through `parsed`.
    Parse(String),
    /// Combine the two operands, given bottom-first, with the operator, and
    /// answer through `computed`.
    Compute(BinOp, u64, u64),
}

/// The observable state of a session.
pub ghost struct SessionView {
    /// The value stack, bottom to top, as bit patterns.
    pub stack: Seq<u64>,
    /// The edit buffer's text.
    pub buffer: Seq<char>,
    /// What the error row shows, if anything.
    pub error: Option<CalcError>,
    /// Whether the loop keeps going; quitting clears this.
    pub running: bool,
}

/// The binary operator a key stands for, if any.
pub open spec fn char_op(c: char) -> Option<BinOp> {
    if c == '+' {
        Some(BinOp::Add)
    } else if c == '-' {
        Some(BinOp::Sub)
    } else if c == '*' {
        Some(BinOp::Mul)
    } else if c == '/' {
        Some(BinOp::Div)
    } else {
        None
    }
}

/// The full dispatch table: how one key takes the session from `pre` to
/// `post`, and which host call it asks for.
pub open spec fn on_key_spec(pre: SessionView, key: Key, post: SessionView, call: HostCall) -> bool {
    match key {
        Key::Char(c) => if c == 'q' {
            post == (SessionView { running: false, error: None, ..pre }) && call == HostCall::Done
        } else if c == 'd' {
            call == HostCall::Done && post.buffer == pre.buffer && post.running == pre.running
                && if pre.stack.len() >= 1 {
                post.stack == pre.stack.take(pre.stack.len() - 1) && post.error is None
            } else {
                post.stack == pre.stack && post.error == Some(CalcError::InsufficientOperands)
            }
        } else if c == 'n' {
            call == HostCall::Done && post.buffer == pre.buffer && post.running == pre.running
                && if pre.stack.len() >= 1 {
                post.stack == crate::repl::spec_negate(pre.stack) && post.error is None
            } else {
                post.stack == pre.stack && post.error == Some(CalcError::InsufficientOperands)
            }
        } else if char_op(c) is Some {
            post.buffer == pre.buffer && post.running == pre.running && post.stack == pre.stack
                && if pre.stack.len() >= 2 {
                post.error is None && call == HostCall::Compute(
                    char_op(c).unwrap(),
                    pre.stack[pre.stack.len() - 2],
                    pre.stack[pre.stack.len() - 1],
                )
            } else {
                post.error == Some(CalcError::InsufficientOperands) && call == HostCall::Done
            }
        } else if is_numeric_char(c) {
            post == (SessionView { buffer: pre.buffer.push(c), error: None, ..pre })
                && call == HostCall::Done
        } else {
            post == (SessionView { error: Some(CalcError::UnhandledKey), ..pre })
                && call == HostCall::Done
        },
        Key::Enter => post == (SessionView { buffer: Seq::empty(), error: None, ..pre })
            && (call matches HostCall::Parse(t) && t@ == pre.buffer),
        Key::Backspace => call == HostCall::Done && post == (SessionView {
            buffer: if pre.buffer.len() > 0 {
                pre.buffer.drop_last()
            } else {
                pre.buffer
            },
            error: None,
            ..pre
        }),
    }
}

/// One interactive calculator session: the stack engine, the edit buffer,
/// the error row, and whether the loop keeps going.
pub struct Session {
    repl: Repl,
    buffer: EditBuffer,
    error: Option<CalcError>,
    running: bool,
}

impl View for Session {
    type V = SessionView;

    closed spec fn view(&self) -> SessionView {
        SessionView {
            stack: self.repl@,
            buffer: self.buffer@,
            error: self.error,
            running: self.running,
        }
    }
}

impl Session {
    /// A fresh session: empty stack, empty buffer, no error, running.
    pub fn new() -> (s: Session)
        ensures
            s@ == (SessionView {
                stack: Seq::empty(),
                buffer: Seq::empty(),
                error: None,
                running: true,
            }),
    {
        Session { repl: Repl::new(), buffer: EditBuffer::new(), error: None, running: true }
    }

    /// Whether the loop keeps going.
    pub fn is_running(&self) -> (r: bool)
        ensures
            r == self@.running,
    {
        self.running
    }

    /// The stack contents, bottom to top, as bit patterns.
    pub fn stack_values(&self) -> (v: &Vec<u64>)
        ensures
            v@ == self@.stack,
    {
        self.repl.values()
    }

    /// The edit buffer's text.
    pub fn buffer_text(&self) -> (s: String)
        ensures
            s@ == self@.buffer,
    {
        self.buffer.text()
    }

    /// What the error row shows, if anything.
    pub fn error(&self) -> (e: Option<CalcError>)
        ensures
            e == self@.error,
    {
        self.error
    }

    /// Render the stack band for this session's stack.  `texts` holds the
    /// host-formatted decimal text of each stack value and `truncs` each
    /// value truncated toward zero to a 64-bit integer, both indexed like
    /// the stack itself, bottom to top.
    pub fn draw_stack(&self, texts: &Vec<String>, truncs: &Vec<i64>) -> (ops: Vec<PaintOp>)
        requires
            texts@.len() == self@.stack.len(),
            truncs@.len() == self@.stack.len(),
        ensures
            ops@.len() == 40,
            forall|i: int|
                0 <= i < 10 ==> #[trigger] slot_ops_ok(ops@, self@.stack, texts@, truncs@, i),
    {
        self.repl.draw(texts, truncs)
    }

    /// Dispatch one key: route it to the stack engine or the edit buffer,
    /// record what the error row shows, and say what float work, if any,
    /// the host owes before the next key.
    pub fn on_key(&mut self, key: Key) -> (call: HostCall)
        ensures
            on_key_spec(old(self)@, key, final(self)@, call),
    {
        match key {
            Key::Char(c) => {
                if c == 'q' {
                    self.running = false;
                    self.error = None;
                    HostCall::Done
                } else if c == 'd' {
                    self.error = self.repl.drop().err();
                    HostCall::Done
                } else if c == 'n' {
                    self.error = self.repl.negate().err();
                    HostCall::Done
                } else if c == '+' || c == '-' || c == '*' || c == '/' {
                    let op = if c == '+' {
                        BinOp::Add
                    } else if c == '-' {
                        BinOp::Sub
                    } else if c == '*' {
                        BinOp::Mul
                    } else {
                        BinOp::Div
                    };
                    match self.repl.top_two() {
                        Ok((x, y)) => {
                            self.error = None;
                            HostCall::Compute(op, x, y)
                        },
                        Err(e) => {
                            self.error = Some(e);
                            HostCall::Done
                        },
                    }
                } else if is_numeric(c) {
                    self.buffer.append(c);
                    self.error = None;
                    HostCall::Done
                } else {
                    self.error = Some(CalcError::UnhandledKey);
                    HostCall::Done
                }
            },
            Key::Enter => {
                let text = self.buffer.text();
                self.buffer.clear();
                self.error = None;
                HostCall::Parse(text)
            },
            Key::Backspace => {
                self.buffer.backspace();
                self.error = None;
                HostCall::Done
            },
        }
    }

    /// Take the host's answer to a `Parse` request.  A parsed value is
    /// pushed onto the stack; a failed parse puts `ParseFailure` on the
    /// error row and leaves the stack alone.  The buffer was already
    /// cleared when the token was committed.
    pub fn parsed(&mut self, value: Option<u64>)
        ensures
            final(self)@ == (SessionView {
                stack: match value {
                    Some(v) => old(self)@.stack.push(v),
                    None => old(self)@.stack,
                },
                error: match value {
                    Some(_) => None,
                    None => Some(CalcError::ParseFailure),
                },
                ..old(self)@
            }),
    {
        self.error = self.repl.consume(value).err();
    }

    /// Take the host's answer to a `Compute` request: the combination of
    /// the two operands the request carried.  The operands are replaced by
    /// the result; if the stack shrank below two entries in the meantime
    /// nothing is popped and `InsufficientOperands` is reported.
    pub fn computed(&mut self, result: u64)
        ensures
            final(self)@ == (SessionView {
                stack: if old(self)@.stack.len() >= 2 {
                    old(self)@.stack.take(old(self)@.stack.len() - 2).push(result)
                } else {
                    old(self)@.stack
                },
                error: if old(self)@.stack.len() >= 2 {
                    None
                } else {
                    Some(CalcError::InsufficientOperands)
                },
                ..old(self)@
            }),
    {
        self.error = self.repl.binary_op(result).err();
    }
}

} // verus!
