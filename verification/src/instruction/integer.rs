//! The integer instructions: checked arithmetic on the integer stack.

use crate::instruction::{meets, Error, ErrorSeverity, Outcome, PushInstructionError};
use crate::push_vm::push_state::{MachineView, PushState};
use crate::push_vm::stack::StackError;
use vstd::prelude::*;

verus! {

/// An instruction on the integer stack. Where two operands are taken, the
/// top of the stack is the left one.
#[derive(Clone, Copy, Debug, PartialEq, Eq, Structural)]
pub enum IntInstruction {
    /// Pushes a constant.
    Push(i64),
    /// Replaces the top by its negation. The least integer has none, which
    /// counts as an overflow.
    Negate,
    /// Replaces the top by its absolute value. The least integer has none,
    /// which counts as an overflow.
    Abs,
    /// Adds one to the top.
    Inc,
    /// Takes one from the top.
    Dec,
    /// Replaces the top two by their sum.
    Add,
    /// Replaces the top two by their difference.
    Subtract,
    /// Replaces the top two by their product.
    Multiply,
    /// Replaces the top two by their quotient, or by 1 if the divisor is 0.
    ProtectedDivide,
    /// Replaces the top two by their remainder, or by 0 if the divisor is 0.
    Mod,
    /// Replaces the top by its square.
    Square,
}

/// How an integer instruction fails on operands that are present.
#[derive(Clone, Copy, Debug, PartialEq, Eq, Structural)]
pub enum IntInstructionError {
    /// The result does not fit in an integer of the machine.
    Overflow { op: IntInstruction },
}

/// The absolute value of an integer.
pub open spec fn magnitude(x: int) -> int {
    if x < 0 {
        -x
    } else {
        x
    }
}

/// The quotient of `x` by `d`, rounded towards zero.
pub open spec fn truncated_quotient(x: int, d: int) -> int
    recommends
        d != 0,
{
    if (x < 0) == (d < 0) {
        magnitude(x) / magnitude(d)
    } else {
        -(magnitude(x) / magnitude(d))
    }
}

/// The remainder that goes with [`truncated_quotient`]: it has the sign of
/// `x`.
pub open spec fn truncated_remainder(x: int, d: int) -> int
    recommends
        d != 0,
{
    if x < 0 {
        -(magnitude(x) % magnitude(d))
    } else {
        magnitude(x) % magnitude(d)
    }
}

impl IntInstruction {
    /// The number of operands that the instruction takes off the stack.
    pub open spec fn arity(self) -> nat {
        match self {
            IntInstruction::Push(_) => 0,
            IntInstruction::Negate
            | IntInstruction::Abs
            | IntInstruction::Inc
            | IntInstruction::Dec
            | IntInstruction::Square => 1,
            IntInstruction::Add
            | IntInstruction::Subtract
            | IntInstruction::Multiply
            | IntInstruction::ProtectedDivide
            | IntInstruction::Mod => 2,
        }
    }

    /// The result as a mathematical integer, with `x` the top of the stack
    /// and `y` the value beneath it. An instruction of one operand ignores
    /// `y`, and a constant ignores both.
    pub open spec fn exact(self, x: int, y: int) -> int {
        match self {
            IntInstruction::Push(value) => value as int,
            IntInstruction::Negate => -x,
            IntInstruction::Abs => magnitude(x),
            IntInstruction::Inc => x + 1,
            IntInstruction::Dec => x - 1,
            IntInstruction::Square => x * x,
            IntInstruction::Add => x + y,
            IntInstruction::Subtract => x - y,
            IntInstruction::Multiply => x * y,
            IntInstruction::ProtectedDivide => if y == 0 {
                1
            } else {
                truncated_quotient(x, y)
            },
            IntInstruction::Mod => if y == 0 {
                0
            } else {
                truncated_remainder(x, y)
            },
        }
    }

    /// Whether the machine cannot give the result. That is so where the
    /// exact result is not an integer of the machine, and for the remainder
    /// of the least integer by -1, whose quotient is not one.
    pub open spec fn overflows(self, x: int, y: int) -> bool {
        ||| self.exact(x, y) < i64::MIN
        ||| self.exact(x, y) > i64::MAX
        ||| (self == IntInstruction::Mod && x == i64::MIN && y == -1)
    }

    /// The result on the machine: the exact one, unless it overflows.
    pub open spec fn result(self, x: i64, y: i64) -> Option<i64> {
        if self.overflows(x as int, y as int) {
            None
        } else {
            Some(self.exact(x as int, y as int) as i64)
        }
    }

    /// Computes the result of the instruction on the operands `x`, the top
    /// of the stack, and `y`, the value beneath it.
    pub fn compute(self, x: i64, y: i64) -> (value: Option<i64>)
        ensures
            value == self.result(x, y),
    {
        match self {
            IntInstruction::Push(value) => Some(value),
            IntInstruction::Negate => 0i64.checked_sub(x),
            IntInstruction::Abs => if x < 0 {
                0i64.checked_sub(x)
            } else {
                Some(x)
            },
            IntInstruction::Inc => x.checked_add(1),
            IntInstruction::Dec => x.checked_sub(1),
            IntInstruction::Square => x.checked_mul(x),
            IntInstruction::Add => x.checked_add(y),
            IntInstruction::Subtract => x.checked_sub(y),
            IntInstruction::Multiply => x.checked_mul(y),
            IntInstruction::ProtectedDivide => if y == 0 {
                Some(1)
            } else {
                x.checked_div(y)
            },
            IntInstruction::Mod => if y == 0 {
                Some(0)
            } else {
                x.checked_rem(y)
            },
        }
    }
}

impl IntInstruction {
    /// What the instruction does to a state. Too few operands: a
    /// recoverable underflow. A result that the machine cannot hold: a
    /// recoverable overflow. A constant for which there is no room: a fatal
    /// stack overflow. Otherwise the operands give way to the result.
    pub open spec fn outcome(self, state: MachineView) -> Outcome {
        let present = state.integers.len();
        if present < self.arity() {
            Outcome::Failed {
                error: PushInstructionError::StackError(
                    StackError::Underflow {
                        num_requested: self.arity() as usize,
                        num_present: present as usize,
                    },
                ),
                severity: ErrorSeverity::Recoverable,
            }
        } else {
            let x = if self.arity() >= 1 {
                state.top_int()
            } else {
                0
            };
            let y = if self.arity() >= 2 {
                state.second_int()
            } else {
                0
            };
            match self.result(x, y) {
                None => Outcome::Failed {
                    error: PushInstructionError::IntInstructionError(
                        IntInstructionError::Overflow { op: self },
                    ),
                    severity: ErrorSeverity::Recoverable,
                },
                Some(value) => if self.arity() == 0 && !state.has_room() {
                    Outcome::Failed {
                        error: PushInstructionError::StackError(StackError::Overflow),
                        severity: ErrorSeverity::Fatal,
                    }
                } else {
                    Outcome::Next(state.with_ints_replaced(self.arity(), value))
                },
            }
        }
    }

    /// The number of operands that the instruction takes off the stack.
    pub fn operands(self) -> (count: usize)
        ensures
            count == self.arity(),
    {
        match self {
            IntInstruction::Push(_) => 0,
            IntInstruction::Negate
            | IntInstruction::Abs
            | IntInstruction::Inc
            | IntInstruction::Dec
            | IntInstruction::Square => 1,
            IntInstruction::Add
            | IntInstruction::Subtract
            | IntInstruction::Multiply
            | IntInstruction::ProtectedDivide
            | IntInstruction::Mod => 2,
        }
    }

    /// Performs the instruction. A failure hands the state back untouched.
    pub fn perform(&self, state: PushState) -> (result: Result<PushState, Error>)
        ensures
            meets(result, self.outcome(state@), state@),
    {
        let op = *self;
        let count = op.operands();
        let present = state.int_stack().size();
        if present < count {
            let error = StackError::Underflow { num_requested: count, num_present: present };
            return Err(Error::recoverable(state, PushInstructionError::StackError(error)));
        }
        let operands: (i64, i64) = if count == 0 {
            (0, 0)
        } else if count == 1 {
            match state.int_stack().top() {
                Ok(x) => (*x, 0),
                Err(_) => (0, 0),
            }
        } else {
            match state.int_stack().top2() {
                Ok((x, y)) => (*x, *y),
                Err(_) => (0, 0),
            }
        };
        match op.compute(operands.0, operands.1) {
            None => {
                let error = IntInstructionError::Overflow { op };
                Err(Error::recoverable(state, PushInstructionError::IntInstructionError(error)))
            },
            Some(value) => {
                if count == 0 {
                    assert(state@.integers.take(present as int) == state@.integers);
                    state.push_int(value)
                } else {
                    Ok(state.replace_ints(count, value))
                }
            },
        }
    }
}

/// What an integer instruction leaves when its result does not fit.
pub open spec fn recoverable_overflow(op: IntInstruction) -> Outcome {
    Outcome::Failed {
        error: PushInstructionError::IntInstructionError(IntInstructionError::Overflow { op }),
        severity: ErrorSeverity::Recoverable,
    }
}

/// Adding two integers whose sum is out of range is a recoverable overflow:
/// the state stays as it was, both operands on the stack.
pub proof fn lemma_add_overflow_is_recoverable(state: MachineView)
    requires
        state.integers.len() >= 2,
        state.top_int() + state.second_int() > i64::MAX || state.top_int() + state.second_int()
            < i64::MIN,
    ensures
        IntInstruction::Add.outcome(state) == recoverable_overflow(IntInstruction::Add),
{
}

/// Stepping past the largest integer, or below the least, is a recoverable
/// overflow: the state stays as it was, the operand on top.
pub proof fn lemma_step_past_the_bounds_is_recoverable(state: MachineView)
    requires
        state.integers.len() >= 1,
    ensures
        state.top_int() == i64::MAX ==> IntInstruction::Inc.outcome(state) == recoverable_overflow(
            IntInstruction::Inc,
        ),
        state.top_int() == i64::MIN ==> IntInstruction::Dec.outcome(state) == recoverable_overflow(
            IntInstruction::Dec,
        ),
{
}

/// Division and remainder by zero never fail: the quotient counts as 1 and
/// the remainder as 0, whatever the dividend.
pub proof fn lemma_zero_divisor_is_protected(state: MachineView)
    requires
        state.integers.len() >= 2,
        state.second_int() == 0,
    ensures
        IntInstruction::ProtectedDivide.outcome(state) == Outcome::Next(
            state.with_ints_replaced(2, 1),
        ),
        IntInstruction::Mod.outcome(state) == Outcome::Next(state.with_ints_replaced(2, 0)),
{
}

/// An integer instruction other than a constant never fails fatally, and
/// never leaves more on the stacks than it found.
pub proof fn lemma_arithmetic_never_grows(op: IntInstruction, state: MachineView)
    requires
        op.arity() >= 1,
    ensures
        op.outcome(state) matches Outcome::Failed { severity, .. } ==> severity
            == ErrorSeverity::Recoverable,
        op.outcome(state) matches Outcome::Next(next) ==> next.size() <= state.size(),
{
}

} // verus!
