//! The instructions of the machine, and how one of them fails.

pub mod integer;

use crate::instruction::integer::{IntInstruction, IntInstructionError};
use crate::push_vm::push_state::{bound_value, InputValue, MachineView, PushState};
use crate::push_vm::stack::StackError;
use vstd::prelude::*;

verus! {

/// One instruction of a program.
#[derive(Debug, PartialEq, Eq)]
pub enum PushInstruction {
    /// Pushes the value bound to the named input.
    InputVar(String),
    /// An instruction on integers.
    IntInstruction(IntInstruction),
}

/// Why an instruction failed.
#[derive(Debug, PartialEq, Eq)]
pub enum PushInstructionError {
    /// A stack held too few operands, or the machine had no room.
    StackError(StackError),
    /// An integer instruction could not represent its result.
    IntInstructionError(IntInstructionError),
    /// The program names an input that was never bound.
    UnknownInput(String),
}

impl From<StackError> for PushInstructionError {
    fn from(error: StackError) -> (wrapped: Self) {
        PushInstructionError::StackError(error)
    }
}

impl vstd::std_specs::convert::FromSpecImpl<StackError> for PushInstructionError {
    open spec fn obeys_from_spec() -> bool {
        true
    }

    open spec fn from_spec(error: StackError) -> Self {
        PushInstructionError::StackError(error)
    }
}

impl From<IntInstructionError> for PushInstructionError {
    fn from(error: IntInstructionError) -> (wrapped: Self) {
        PushInstructionError::IntInstructionError(error)
    }
}

impl vstd::std_specs::convert::FromSpecImpl<IntInstructionError> for PushInstructionError {
    open spec fn obeys_from_spec() -> bool {
        true
    }

    open spec fn from_spec(error: IntInstructionError) -> Self {
        PushInstructionError::IntInstructionError(error)
    }
}

/// Whether evaluation goes on after a failure.
#[derive(Clone, Copy, Debug, PartialEq, Eq, Structural)]
pub enum ErrorSeverity {
    /// The instruction counts as a no-op and evaluation goes on.
    Recoverable,
    /// Evaluation of the program stops.
    Fatal,
}

/// What one instruction does to a state.
pub enum Outcome {
    /// The instruction succeeded and left this state.
    Next(MachineView),
    /// The instruction failed and left the state as it was.
    Failed { error: PushInstructionError, severity: ErrorSeverity },
}

/// A failed instruction: what went wrong, how badly, and the state as it
/// stood before the instruction touched it.
#[derive(Debug)]
pub struct Error {
    state: PushState,
    error: PushInstructionError,
    severity: ErrorSeverity,
}

impl Error {
    /// The state before the failed instruction, as plain mathematics.
    pub closed spec fn state_view(&self) -> MachineView {
        self.state@
    }

    /// What went wrong.
    pub closed spec fn cause(&self) -> PushInstructionError {
        self.error
    }

    /// Whether evaluation can go on.
    pub closed spec fn severity(&self) -> ErrorSeverity {
        self.severity
    }

    /// A failure after which evaluation goes on with `state`.
    pub fn recoverable(state: PushState, error: PushInstructionError) -> (failure: Self)
        ensures
            failure.state_view() == state@,
            failure.cause() == error,
            failure.severity() == ErrorSeverity::Recoverable,
    {
        Error { state, error, severity: ErrorSeverity::Recoverable }
    }

    /// A failure that stops the evaluation.
    pub fn fatal(state: PushState, error: PushInstructionError) -> (failure: Self)
        ensures
            failure.state_view() == state@,
            failure.cause() == error,
            failure.severity() == ErrorSeverity::Fatal,
    {
        Error { state, error, severity: ErrorSeverity::Fatal }
    }

    /// The state as it stood before the failed instruction.
    pub fn state(&self) -> (state: &PushState)
        ensures
            state@ == self.state_view(),
    {
        &self.state
    }

    /// Gives the state back, for evaluation to go on with.
    pub fn into_state(self) -> (state: PushState)
        ensures
            state@ == self.state_view(),
    {
        self.state
    }

    /// What went wrong.
    pub fn error(&self) -> (error: &PushInstructionError)
        ensures
            *error == self.cause(),
    {
        &self.error
    }

    /// Whether the failed instruction counts as a no-op.
    pub fn is_recoverable(&self) -> (recoverable: bool)
        ensures
            recoverable == (self.severity() == ErrorSeverity::Recoverable),
    {
        match self.severity {
            ErrorSeverity::Recoverable => true,
            ErrorSeverity::Fatal => false,
        }
    }

    /// Whether the failure stops the evaluation.
    pub fn is_fatal(&self) -> (fatal: bool)
        ensures
            fatal == (self.severity() == ErrorSeverity::Fatal),
    {
        match self.severity {
            ErrorSeverity::Recoverable => false,
            ErrorSeverity::Fatal => true,
        }
    }
}

/// `result` is what `outcome` asks for on a state that was `before`: the
/// next state on success, and on failure the error, its severity and the
/// state unchanged.
pub open spec fn meets(result: Result<PushState, Error>, outcome: Outcome, before: MachineView) -> bool {
    match outcome {
        Outcome::Next(next) => result matches Ok(after) && after@ == next,
        Outcome::Failed { error, severity } => result matches Err(failure) && failure.state_view()
            == before && failure.cause() == error && failure.severity() == severity,
    }
}

/// A state within its capacity stays within it, whatever one instruction
/// does.
pub proof fn lemma_outcome_stays_within_capacity(instruction: PushInstruction, state: MachineView)
    requires
        state.size() <= state.max_stack_size,
    ensures
        instruction.outcome(state) matches Outcome::Next(next) ==> next.size()
            <= next.max_stack_size,
{
}

impl PushInstruction {
    /// What the instruction does to a state. An input that was never bound
    /// is a fault of the program and fatal, and so is a bound value for
    /// which the machine has no room.
    pub open spec fn outcome(self, state: MachineView) -> Outcome {
        match self {
            PushInstruction::IntInstruction(op) => op.outcome(state),
            PushInstruction::InputVar(name) => match bound_value(state.inputs, name@) {
                None => Outcome::Failed {
                    error: PushInstructionError::UnknownInput(name),
                    severity: ErrorSeverity::Fatal,
                },
                Some(value) => if !state.has_room() {
                    Outcome::Failed {
                        error: PushInstructionError::StackError(StackError::Overflow),
                        severity: ErrorSeverity::Fatal,
                    }
                } else {
                    match value {
                        InputValue::Int(number) => Outcome::Next(state.with_int(number)),
                        InputValue::Bool(flag) => Outcome::Next(state.with_bool(flag)),
                    }
                },
            },
        }
    }

    /// No instruction touches the exec stack, the capacity or the inputs.
    pub proof fn lemma_outcome_keeps_the_rest(self, state: MachineView)
        ensures
            self.outcome(state) matches Outcome::Next(next) ==> next.instructions == state.instructions
                && next.max_stack_size == state.max_stack_size && next.inputs == state.inputs,
    {
    }

    /// Performs the instruction. A failure hands the state back untouched.
    pub fn perform(&self, state: PushState) -> (result: Result<PushState, Error>)
        ensures
            meets(result, self.outcome(state@), state@),
    {
        match self {
            PushInstruction::IntInstruction(op) => op.perform(state),
            PushInstruction::InputVar(name) => {
                match state.input(name) {
                    None => Err(
                        Error::fatal(state, PushInstructionError::UnknownInput(name.clone())),
                    ),
                    Some(InputValue::Int(number)) => state.push_int(number),
                    Some(InputValue::Bool(flag)) => state.push_bool(flag),
                }
            },
        }
    }
}

} // verus!
