//! The stack engine: an ordered stack of double-precision values and the
//! operations that mutate it.
//!
//! A value on the stack is kept as the 64-bit IEEE-754 bit pattern of the
//! double it stands for.  Every structural operation (push, pop-pair, drop,
//! negate) is verified here; the host supplies the results of the
//! floating-point computations themselves (parsing a literal, combining two
//! operands), since those cannot be carried out in verified code.
use vstd::prelude::*;

verus! {

/// The sign bit of an IEEE-754 double's bit pattern.
pub const SIGN_BIT: u64 = 0x8000_0000_0000_0000;

/// The bit pattern of the additive inverse of the double with bit pattern
/// `x`: negating a double flips exactly its sign bit, for every value,
/// zeros, infinities and NaNs included.
pub open spec fn flip_sign(x: u64) -> u64 {
    x ^ SIGN_BIT
}

/// The stack after `negate` succeeds on `s`: the top value replaced by its
/// additive inverse.
pub open spec fn spec_negate(s: Seq<u64>) -> Seq<u64> {
    s.update(s.len() - 1, flip_sign(s[s.len() - 1]))
}

/// The stack after one successful commit of the value `v` onto `s`.
pub open spec fn spec_commit(s: Seq<u64>, v: u64) -> Seq<u64> {
    s.push(v)
}

/// The stack after committing each value of `vals`, in order, onto `s`.
pub open spec fn spec_commit_all(s: Seq<u64>, vals: Seq<u64>) -> Seq<u64>
    decreases vals.len(),
{
    if vals.len() == 0 {
        s
    } else {
        spec_commit_all(spec_commit(s, vals[0]), vals.drop_first())
    }
}

/// Committing the values `vals` in order leaves the stack holding exactly
/// its old contents followed by `vals`, bottom to top.
pub proof fn lemma_commits_in_order(s: Seq<u64>, vals: Seq<u64>)
    ensures
        spec_commit_all(s, vals) == s + vals,
    decreases vals.len(),
{
    if vals.len() == 0 {
        assert(spec_commit_all(s, vals) =~= s + vals);
    } else {
        lemma_commits_in_order(s.push(vals[0]), vals.drop_first());
        assert(s.push(vals[0]) + vals.drop_first() =~= s + vals);
    }
}

/// Negating the top of a stack twice returns the stack to its original
/// contents.
pub proof fn lemma_negate_twice(s: Seq<u64>)
    requires
        s.len() >= 1,
    ensures
        spec_negate(spec_negate(s)) == s,
{
    let x = s[s.len() - 1];
    assert(flip_sign(flip_sign(x)) == x) by {
        assert(x ^ 0x8000_0000_0000_0000u64 ^ 0x8000_0000_0000_0000u64 == x)
            by (bit_vector);
    }
    assert(spec_negate(spec_negate(s)) =~= s);
}

/// A recoverable failure of the calculator core.
#[derive(Clone, Copy, Debug, PartialEq, Eq, Structural)]
pub enum CalcError {
    /// The committed text was not a valid numeric literal.
    ParseFailure,
    /// An operation was requested with fewer stack entries than it needs.
    InsufficientOperands,
    /// A key that the calculator does not recognize was pressed.
    UnhandledKey,
}

/// The text shown on the error row for each failure.
pub open spec fn spec_message(e: CalcError) -> Seq<char> {
    match e {
        CalcError::ParseFailure => "invalid float literal"@,
        CalcError::InsufficientOperands => "need more operands"@,
        CalcError::UnhandledKey => "unhandled keypress"@,
    }
}

impl CalcError {
    /// The text shown on the error row for this failure.
    pub fn message(&self) -> (s: String)
        ensures
            s@ == spec_message(*self),
    {
        match self {
            CalcError::ParseFailure => "invalid float literal".to_owned(),
            CalcError::InsufficientOperands => "need more operands".to_owned(),
            CalcError::UnhandledKey => "unhandled keypress".to_owned(),
        }
    }
}

/// The value stack.  The last element of the view is the top of the stack.
pub struct Repl {
    stack: Vec<u64>,
}

impl View for Repl {
    type V = Seq<u64>;

    closed spec fn view(&self) -> Seq<u64> {
        self.stack@
    }
}

impl Repl {
    /// A calculator with an empty stack.
    pub fn new() -> (r: Repl)
        ensures
            r@ == Seq::<u64>::empty(),
    {
        Repl { stack: Vec::new() }
    }

    /// The stack contents, bottom to top, as bit patterns.
    pub fn values(&self) -> (v: &Vec<u64>)
        ensures
            v@ == self@,
    {
        &self.stack
    }

    /// Commit the outcome of parsing the edit buffer.  A parsed value is
    /// pushed; a failed parse reports `ParseFailure` and leaves the stack
    /// unchanged.
    pub fn consume(&mut self, parsed: Option<u64>) -> (r: Result<(), CalcError>)
        ensures
            match parsed {
                Some(v) => r is Ok && final(self)@ == spec_commit(old(self)@, v),
                None => r == Err::<(), CalcError>(CalcError::ParseFailure)
                    && final(self)@ == old(self)@,
            },
    {
        match parsed {
            Some(v) => {
                self.stack.push(v);
                Ok(())
            },
            None => Err(CalcError::ParseFailure),
        }
    }

    /// The two operands a binary operator would consume, without popping
    /// them: `x` was pushed before `y`, so the operator computes `x <op> y`.
    pub fn top_two(&self) -> (r: Result<(u64, u64), CalcError>)
        ensures
            self@.len() >= 2 ==> r == Ok::<(u64, u64), CalcError>(
                (self@[self@.len() - 2], self@[self@.len() - 1]),
            ),
            self@.len() < 2 ==> r == Err::<(u64, u64), CalcError>(
                CalcError::InsufficientOperands,
            ),
    {
        let n = self.stack.len();
        if n < 2 {
            Err(CalcError::InsufficientOperands)
        } else {
            Ok((self.stack[n - 2], self.stack[n - 1]))
        }
    }

    /// Replace the two topmost values by `result`, the host-computed
    /// combination of those operands.  With fewer than two entries nothing
    /// is popped and `InsufficientOperands` is reported.
    pub fn binary_op(&mut self, result: u64) -> (r: Result<(), CalcError>)
        ensures
            old(self)@.len() >= 2 ==> r is Ok
                && final(self)@ == old(self)@.take(old(self)@.len() - 2).push(result),
            old(self)@.len() < 2 ==> r == Err::<(), CalcError>(
                CalcError::InsufficientOperands,
            ) && final(self)@ == old(self)@,
    {
        if self.stack.len() < 2 {
            return Err(CalcError::InsufficientOperands);
        }
        let ghost before = self.stack@;
        let _y = self.stack.pop().unwrap();
        let _x = self.stack.pop().unwrap();
        self.stack.push(result);
        proof {
            assert(self.stack@ =~= before.take(before.len() - 2).push(result));
        }
        Ok(())
    }

    /// Replace the two topmost values by the host-computed sum of the pair
    /// returned by `top_two`.
    pub fn add(&mut self, result: u64) -> (r: Result<(), CalcError>)
        ensures
            old(self)@.len() >= 2 ==> r is Ok
                && final(self)@ == old(self)@.take(old(self)@.len() - 2).push(result),
            old(self)@.len() < 2 ==> r == Err::<(), CalcError>(
                CalcError::InsufficientOperands,
            ) && final(self)@ == old(self)@,
    {
        self.binary_op(result)
    }

    /// Replace the two topmost values by the host-computed difference of the
    /// pair returned by `top_two`.
    pub fn sub(&mut self, result: u64) -> (r: Result<(), CalcError>)
        ensures
            old(self)@.len() >= 2 ==> r is Ok
                && final(self)@ == old(self)@.take(old(self)@.len() - 2).push(result),
            old(self)@.len() < 2 ==> r == Err::<(), CalcError>(
                CalcError::InsufficientOperands,
            ) && final(self)@ == old(self)@,
    {
        self.binary_op(result)
    }

    /// Replace the two topmost values by the host-computed product of the
    /// pair returned by `top_two`.
    pub fn mul(&mut self, result: u64) -> (r: Result<(), CalcError>)
        ensures
            old(self)@.len() >= 2 ==> r is Ok
                && final(self)@ == old(self)@.take(old(self)@.len() - 2).push(result),
            old(self)@.len() < 2 ==> r == Err::<(), CalcError>(
                CalcError::InsufficientOperands,
            ) && final(self)@ == old(self)@,
    {
        self.binary_op(result)
    }

    /// Replace the two topmost values by the host-computed quotient of the
    /// pair returned by `top_two`.
    pub fn div(&mut self, result: u64) -> (r: Result<(), CalcError>)
        ensures
            old(self)@.len() >= 2 ==> r is Ok
                && final(self)@ == old(self)@.take(old(self)@.len() - 2).push(result),
            old(self)@.len() < 2 ==> r == Err::<(), CalcError>(
                CalcError::InsufficientOperands,
            ) && final(self)@ == old(self)@,
    {
        self.binary_op(result)
    }

    /// Pop and discard the top of the stack.  On an empty stack nothing is
    /// popped and `InsufficientOperands` is reported.
    pub fn drop(&mut self) -> (r: Result<(), CalcError>)
        ensures
            old(self)@.len() >= 1 ==> r is Ok
                && final(self)@ == old(self)@.take(old(self)@.len() - 1),
            old(self)@.len() < 1 ==> r == Err::<(), CalcError>(
                CalcError::InsufficientOperands,
            ) && final(self)@ == old(self)@,
    {
        if self.stack.len() < 1 {
            return Err(CalcError::InsufficientOperands);
        }
        let ghost before = self.stack@;
        self.stack.pop();
        proof {
            assert(self.stack@ =~= before.take(before.len() - 1));
        }
        Ok(())
    }

    /// Replace the top of the stack by its additive inverse.  On an empty
    /// stack nothing changes and `InsufficientOperands` is reported.
    pub fn negate(&mut self) -> (r: Result<(), CalcError>)
        ensures
            old(self)@.len() >= 1 ==> r is Ok
                && final(self)@ == spec_negate(old(self)@),
            old(self)@.len() < 1 ==> r == Err::<(), CalcError>(
                CalcError::InsufficientOperands,
            ) && final(self)@ == old(self)@,
    {
        if self.stack.len() < 1 {
            return Err(CalcError::InsufficientOperands);
        }
        let ghost before = self.stack@;
        let x = self.stack.pop().unwrap();
        self.stack.push(x ^ SIGN_BIT);
        proof {
            assert(self.stack@ =~= spec_negate(before));
        }
        Ok(())
    }
}

} // verus!
