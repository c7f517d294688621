//! The renderer: from calculator state to the fixed screen layout.
//!
//! A render pass is a list of paint operations over rows and columns; the
//! host replays them onto whatever backend satisfies the capability trait.
//! The layout: a two-row header, a band of ten stack slots on rows 3
//! through 12 with the top of the stack on row 12, the error row at 14 and
//! the edit-buffer row at 15.  Each filled slot shows a two-digit ordinal
//! label, the value's decimal text, and the value truncated toward zero to
//! a 64-bit integer in hexadecimal and binary at a fixed column offset.
//! A slot's row is cleared before it is written, so stale text from the
//! previous cycle never shows through.
use vstd::prelude::*;

use crate::input::chars_to_string;
use crate::platform::{terror, tclear, tinput, twrite, Terminal};
use crate::repl::{spec_message, CalcError, Repl};

verus! {

/// The character for the digit `d` in any base up to sixteen: `0`-`9`,
/// then `a`-`f`.
pub open spec fn digit_char(d: u64) -> char {
    if d < 10 {
        ((48 + d) as u8) as char
    } else {
        ((87 + d) as u8) as char
    }
}

/// The digits of `n` written in base `base`, most significant first, with
/// no leading zeros; zero itself has no digits.
pub open spec fn rep_digits(n: nat, base: nat) -> Seq<char>
    decreases n,
    when 2 <= base
    via rep_digits_decreases
{
    if n == 0 {
        Seq::empty()
    } else {
        rep_digits(n / base, base).push(digit_char((n % base) as u64))
    }
}

#[via_fn]
proof fn rep_digits_decreases(n: nat, base: nat) {
    if n != 0 {
        assert(n / base < n) by (nonlinear_arith)
            requires
                n > 0,
                2 <= base,
        ;
    }
}

/// `n` leading zero characters.
pub open spec fn zeros(n: int) -> Seq<char> {
    Seq::new(n as nat, |i: int| '0')
}

/// `s` left-padded with zeros to at least `width` characters.
pub open spec fn pad_left(width: int, s: Seq<char>) -> Seq<char> {
    if s.len() >= width {
        s
    } else {
        zeros(width - s.len()) + s
    }
}

/// The digits of `x` in base `base`, least significant first.
fn digits_rev(x0: u64, base: u64) -> (v: Vec<char>)
    requires
        2 <= base <= 16,
    ensures
        v@.reverse() == rep_digits(x0 as nat, base as nat),
{
    let mut v: Vec<char> = Vec::new();
    let mut x: u64 = x0;
    while x > 0
        invariant
            2 <= base <= 16,
            rep_digits(x as nat, base as nat) + v@.reverse() == rep_digits(
                x0 as nat,
                base as nat,
            ),
        decreases x,
    {
        let d: u64 = x % base;
        let c: char = if d < 10 {
            ((48 + d) as u8) as char
        } else {
            ((87 + d) as u8) as char
        };
        let ghost prev = v@;
        let ghost xprev = x as nat;
        v.push(c);
        x = x / base;
        proof {
            assert(c == digit_char(d));
            assert(v@.reverse() =~= seq![c] + prev.reverse());
            assert(rep_digits(xprev, base as nat) == rep_digits(x as nat, base as nat).push(
                digit_char(d),
            ));
            assert(rep_digits(x as nat, base as nat).push(digit_char(d)) + prev.reverse()
                =~= rep_digits(x as nat, base as nat) + (seq![c] + prev.reverse()));
        }
    }
    proof {
        assert(rep_digits(0nat, base as nat) + v@.reverse() =~= v@.reverse());
    }
    v
}

/// `x` written in base `base`, zero-padded on the left to at least `width`
/// characters.
fn format_padded(x: u64, base: u64, width: usize) -> (v: Vec<char>)
    requires
        2 <= base <= 16,
    ensures
        v@ == pad_left(width as int, rep_digits(x as nat, base as nat)),
{
    let rev = digits_rev(x, base);
    let ghost digits = rep_digits(x as nat, base as nat);
    proof {
        assert(rev@.len() == digits.len());
    }
    let pad_n: usize = if rev.len() >= width {
        0
    } else {
        width - rev.len()
    };
    let mut v: Vec<char> = Vec::new();
    proof {
        assert(v@ =~= zeros(0));
    }
    while v.len() < pad_n
        invariant
            v@ == zeros(v@.len() as int),
            v@.len() <= pad_n,
        decreases pad_n - v.len(),
    {
        v.push('0');
        proof {
            assert(v@ =~= zeros(v@.len() as int));
        }
    }
    let ghost pad = v@;
    let n = rev.len();
    for j in 0..n
        invariant
            n == rev@.len(),
            rev@.reverse() == digits,
            v@ == pad + digits.take(j as int),
    {
        v.push(rev[n - 1 - j]);
        proof {
            assert(rev@[n - 1 - j as int] == digits[j as int]);
            assert(v@ =~= pad + digits.take(j + 1));
        }
    }
    proof {
        assert(digits.take(n as int) =~= digits);
        assert(v@ =~= pad_left(width as int, digits));
    }
    v
}

/// The two-digit ordinal label of stack slot `n`: the number zero-padded
/// to two digits, a colon and a space.
pub open spec fn spec_label(n: int) -> Seq<char> {
    pad_left(2, rep_digits(n as nat, 10)) + seq![':', ' ']
}

/// The ordinal label of stack slot `n`, as printed at the left edge of the
/// slot's row.
pub fn slot_label(n: u64) -> (s: String)
    ensures
        s@ == spec_label(n as int),
{
    let mut v = format_padded(n, 10, 2);
    v.push(':');
    v.push(' ');
    proof {
        assert(v@ =~= spec_label(n as int));
    }
    chars_to_string(&v)
}

/// The secondary rendering of a value truncated to the 64-bit integer `t`:
/// its two's-complement bit pattern in zero-padded hexadecimal and in
/// binary of at least eight digits.
pub open spec fn spec_alt_repr(t: i64) -> Seq<char> {
    seq!['0', 'x'] + pad_left(16, rep_digits((t as u64) as nat, 16)) + seq![' ', '|', ' ', '0', 'b']
        + pad_left(8, rep_digits((t as u64) as nat, 2))
}

/// Render the secondary representation of a value truncated toward zero to
/// the 64-bit integer `t`.
pub fn alt_repr(t: i64) -> (s: String)
    ensures
        s@ == spec_alt_repr(t),
{
    let u: u64 = t as u64;
    let mut v: Vec<char> = Vec::new();
    v.push('0');
    v.push('x');
    let mut hex = format_padded(u, 16, 16);
    v.append(&mut hex);
    v.push(' ');
    v.push('|');
    v.push(' ');
    v.push('0');
    v.push('b');
    let mut bin = format_padded(u, 2, 8);
    v.append(&mut bin);
    proof {
        assert(v@ =~= spec_alt_repr(t));
    }
    chars_to_string(&v)
}

/// One paint operation of a render pass.
#[derive(Debug, PartialEq)]
pub enum PaintOp {
    /// Paint text in the ordinary style, white on black.
    Text { row: usize, col: usize, text: String },
    /// Paint text in the edit-buffer style, green on black.
    InputText { row: usize, col: usize, text: String },
    /// Paint text in the error style, red on black.
    ErrorText { row: usize, col: usize, text: String },
    /// Blank a whole row.
    ClearRow { row: usize },
}

/// The row of stack slot `i`: the top of the stack sits at the bottom of
/// the band, the deepest visible entry at its top.
pub open spec fn slot_row(i: int) -> int {
    12 - i
}

/// The four paint operations of stack slot `i` within a render pass:
/// clear the row, the ordinal label at the left edge, the value's decimal
/// text, and its secondary representation; the two texts are empty for a
/// slot beyond the stack's depth.
pub open spec fn slot_ops_ok(
    ops: Seq<PaintOp>,
    stack: Seq<u64>,
    texts: Seq<String>,
    truncs: Seq<i64>,
    i: int,
) -> bool {
    &&& (ops[4 * i] matches PaintOp::ClearRow { row } && row == slot_row(i))
    &&& (ops[4 * i + 1] matches PaintOp::Text { row, col, text } && row == slot_row(i) && col == 0
        && text@ == spec_label(i + 1))
    &&& (ops[4 * i + 2] matches PaintOp::Text { row, col, text } && row == slot_row(i) && col == 4
        && text@ == (if i < stack.len() {
        texts[stack.len() - 1 - i]@
    } else {
        Seq::<char>::empty()
    }))
    &&& (ops[4 * i + 3] matches PaintOp::Text { row, col, text } && row == slot_row(i) && col == 34
        && text@ == (if i < stack.len() {
        spec_alt_repr(truncs[stack.len() - 1 - i])
    } else {
        Seq::<char>::empty()
    }))
}

impl Repl {
    /// Render the stack band: ten slots, each cleared and repainted, the
    /// topmost value in slot one.  `texts` holds the host-formatted
    /// decimal text of each stack value and `truncs` each value truncated
    /// toward zero to a 64-bit integer, both indexed like the stack
    /// itself, bottom to top.
    pub fn draw(&self, texts: &Vec<String>, truncs: &Vec<i64>) -> (ops: Vec<PaintOp>)
        requires
            texts@.len() == self@.len(),
            truncs@.len() == self@.len(),
        ensures
            ops@.len() == 40,
            forall|i: int|
                0 <= i < 10 ==> #[trigger] slot_ops_ok(ops@, self@, texts@, truncs@, i),
    {
        let n = self.values().len();
        let mut ops: Vec<PaintOp> = Vec::new();
        for i in 0..10usize
            invariant
                n == self@.len(),
                texts@.len() == n,
                truncs@.len() == n,
                ops@.len() == 4 * i,
                forall|k: int|
                    0 <= k < i ==> #[trigger] slot_ops_ok(ops@, self@, texts@, truncs@, k),
        {
            let ghost before = ops@;
            let row: usize = 12 - i;
            ops.push(PaintOp::ClearRow { row });
            ops.push(PaintOp::Text { row, col: 0, text: slot_label((i + 1) as u64) });
            if i < n {
                ops.push(PaintOp::Text { row, col: 4, text: texts[n - 1 - i].clone() });
                ops.push(PaintOp::Text { row, col: 34, text: alt_repr(truncs[n - 1 - i]) });
            } else {
                ops.push(PaintOp::Text { row, col: 4, text: String::new() });
                ops.push(PaintOp::Text { row, col: 34, text: String::new() });
            }
            proof {
                assert forall|k: int| 0 <= k < i + 1 implies #[trigger] slot_ops_ok(
                    ops@,
                    self@,
                    texts@,
                    truncs@,
                    k,
                ) by {
                    assert(forall|j: int| 0 <= j < before.len() ==> ops@[j] == before[j]);
                    if k < i {
                        assert(slot_ops_ok(before, self@, texts@, truncs@, k));
                    }
                }
            }
        }
        ops
    }
}

/// The paint operations of the edit-buffer row: the row cleared, then the
/// typed text in the edit-buffer style.
pub fn input_ops(text: String) -> (ops: Vec<PaintOp>)
    ensures
        ops@.len() == 2,
        ops@[0] == (PaintOp::ClearRow { row: 15 }),
        ops@[1] matches PaintOp::InputText { row, col, text: t } && row == 15 && col == 1 && t@
            == text@,
{
    let mut ops: Vec<PaintOp> = Vec::new();
    ops.push(PaintOp::ClearRow { row: 15 });
    ops.push(PaintOp::InputText { row: 15, col: 1, text });
    ops
}

/// The paint operations of the error row: the row cleared, then the
/// current failure's message in the error style, if there is one.
pub fn error_ops(err: Option<CalcError>) -> (ops: Vec<PaintOp>)
    ensures
        ops@[0] == (PaintOp::ClearRow { row: 14 }),
        match err {
            Some(e) => ops@.len() == 2 && (ops@[1] matches PaintOp::ErrorText { row, col, text }
                && row == 14 && col == 1 && text@ == spec_message(e)),
            None => ops@.len() == 1,
        },
{
    let mut ops: Vec<PaintOp> = Vec::new();
    ops.push(PaintOp::ClearRow { row: 14 });
    match err {
        Some(e) => {
            ops.push(PaintOp::ErrorText { row: 14, col: 1, text: e.message() });
        },
        None => {},
    }
    ops
}

/// The paint operations of the static header: the greeting and the key
/// help line, painted once when the loop starts.
pub fn header_ops() -> (ops: Vec<PaintOp>)
    ensures
        ops@.len() == 2,
        ops@[0] matches PaintOp::Text { row, col, text } && row == 0 && col == 0 && text@
            == "welcome to ripple!"@,
        ops@[1] matches PaintOp::Text { row, col, text } && row == 1 && col == 0 && text@
            == "q: quit, d: drop, n: negate"@,
{
    let mut ops: Vec<PaintOp> = Vec::new();
    ops.push(PaintOp::Text { row: 0, col: 0, text: "welcome to ripple!".to_owned() });
    ops.push(PaintOp::Text { row: 1, col: 0, text: "q: quit, d: drop, n: negate".to_owned() });
    ops
}

/// Replay a render pass onto a terminal backend, one capability call per
/// paint operation.
pub fn replay<T: Terminal>(term: &mut T, ops: &Vec<PaintOp>) {
    let n = ops.len();
    for i in 0..n
        invariant
            n == ops@.len(),
    {
        match &ops[i] {
            PaintOp::Text { row, col, text } => twrite(term, *row, *col, text.as_str()),
            PaintOp::InputText { row, col, text } => tinput(term, *row, *col, text.as_str()),
            PaintOp::ErrorText { row, col, text } => terror(term, *row, *col, text.as_str()),
            PaintOp::ClearRow { row } => tclear(term, *row, 1),
        }
    }
}

} // verus!
