//! The state of the machine: its stacks and its input bindings.

use crate::instruction::{
    meets, Error, ErrorSeverity, Outcome, PushInstruction, PushInstructionError,
};
use crate::push_vm::stack::{Stack, StackError};
use vstd::prelude::*;

verus! {

/// A value bound to a named input.
#[derive(Clone, Copy, Debug, PartialEq, Eq, Structural)]
pub enum InputValue {
    Int(i64),
    Bool(bool),
}

/// One named input and the value bound to it.
#[derive(Debug)]
struct Binding {
    name: String,
    value: InputValue,
}

/// What a machine state is, as plain mathematics. Each stack is listed from
/// the bottom up.
pub struct MachineView {
    pub max_stack_size: nat,
    pub instructions: Seq<PushInstruction>,
    pub integers: Seq<i64>,
    pub booleans: Seq<bool>,
    pub inputs: Seq<(Seq<char>, InputValue)>,
}

/// The value bound to `name`: that of the binding made last, if there is
/// one.
pub open spec fn bound_value(inputs: Seq<(Seq<char>, InputValue)>, name: Seq<char>) -> Option<
    InputValue,
>
    decreases inputs.len(),
{
    if inputs.len() == 0 {
        None
    } else if inputs.last().0 == name {
        Some(inputs.last().1)
    } else {
        bound_value(inputs.drop_last(), name)
    }
}

impl MachineView {
    /// The number of items on all stacks together.
    pub open spec fn size(self) -> nat {
        self.instructions.len() + self.integers.len() + self.booleans.len()
    }

    /// Whether there is room for one more item.
    pub open spec fn has_room(self) -> bool {
        self.size() < self.max_stack_size
    }

    /// The integer on top of the stack.
    pub open spec fn top_int(self) -> i64
        recommends
            self.integers.len() >= 1,
    {
        self.integers[self.integers.len() - 1]
    }

    /// The integer beneath the top of the stack.
    pub open spec fn second_int(self) -> i64
        recommends
            self.integers.len() >= 2,
    {
        self.integers[self.integers.len() - 2]
    }

    /// The state with the top `count` integers replaced by `value`.
    pub open spec fn with_ints_replaced(self, count: nat, value: i64) -> MachineView
        recommends
            count <= self.integers.len(),
    {
        MachineView { integers: self.integers.take(self.integers.len() - count).push(value), ..self }
    }

    /// The state with `value` on top of the integer stack.
    pub open spec fn with_int(self, value: i64) -> MachineView {
        MachineView { integers: self.integers.push(value), ..self }
    }

    /// The state with `value` on top of the boolean stack.
    pub open spec fn with_bool(self, value: bool) -> MachineView {
        MachineView { booleans: self.booleans.push(value), ..self }
    }

    /// The state with the top of the exec stack taken off.
    pub open spec fn without_next(self) -> MachineView {
        MachineView { instructions: self.instructions.drop_last(), ..self }
    }
}

/// What pushing one item does: `pushed` if there is room, and a fatal stack
/// overflow if there is none.
pub open spec fn push_outcome(state: MachineView, pushed: MachineView) -> Outcome {
    if state.has_room() {
        Outcome::Next(pushed)
    } else {
        Outcome::Failed {
            error: PushInstructionError::StackError(StackError::Overflow),
            severity: ErrorSeverity::Fatal,
        }
    }
}

/// How the evaluation of a program ends.
pub enum RunOutcome {
    /// Every instruction was run or skipped; this is what was left.
    Finished(MachineView),
    /// An instruction failed fatally on the given state.
    Halted { state: MachineView, error: PushInstructionError },
}

/// Runs the instructions of the exec stack from the top down. A recoverable
/// failure skips the instruction; a fatal one stops the run.
pub open spec fn run(state: MachineView) -> RunOutcome
    decreases state.instructions.len(),
{
    if state.instructions.len() == 0 {
        RunOutcome::Finished(state)
    } else {
        let rest = state.without_next();
        match state.instructions.last().outcome(rest) {
            Outcome::Next(next) => run(MachineView { instructions: rest.instructions, ..next }),
            Outcome::Failed { error, severity } => if severity == ErrorSeverity::Recoverable {
                run(rest)
            } else {
                RunOutcome::Halted { state: rest, error }
            },
        }
    }
}

/// The whole state of one machine. All stacks together never hold more than
/// `max_stack_size` items.
#[derive(Debug)]
pub struct PushState {
    max_stack_size: usize,
    instructions: Stack<PushInstruction>,
    integers: Stack<i64>,
    booleans: Stack<bool>,
    inputs: Vec<Binding>,
}

impl View for PushState {
    type V = MachineView;

    closed spec fn view(&self) -> MachineView {
        MachineView {
            max_stack_size: self.max_stack_size as nat,
            instructions: self.instructions@,
            integers: self.integers@,
            booleans: self.booleans@,
            inputs: Seq::new(
                self.inputs@.len(),
                |i: int| (self.inputs@[i].name@, self.inputs@[i].value),
            ),
        }
    }
}

impl PushState {
    #[verifier::type_invariant]
    spec fn within_capacity(&self) -> bool {
        self.instructions@.len() + self.integers@.len() + self.booleans@.len() <= self.max_stack_size
    }

    /// Starts the construction of a state.
    pub fn builder() -> (builder: Builder)
        ensures
            builder.max_stack_size() == usize::MAX,
    {
        Builder { max_stack_size: usize::MAX }
    }

    /// The largest number of items that all stacks may hold together.
    pub fn max_stack_size(&self) -> (max: usize)
        ensures
            max == self@.max_stack_size,
    {
        self.max_stack_size
    }

    /// The number of items on all stacks together, which is never more
    /// than the capacity.
    pub fn size(&self) -> (n: usize)
        ensures
            n == self@.size(),
            n <= self@.max_stack_size,
    {
        proof {
            use_type_invariant(self);
        }
        self.instructions.size() + self.integers.size() + self.booleans.size()
    }

    /// The stack of instructions still to run.
    pub fn exec_stack(&self) -> (stack: &Stack<PushInstruction>)
        ensures
            stack@ == self@.instructions,
    {
        &self.instructions
    }

    /// The stack of integers.
    pub fn int_stack(&self) -> (stack: &Stack<i64>)
        ensures
            stack@ == self@.integers,
    {
        &self.integers
    }

    /// The stack of booleans.
    pub fn bool_stack(&self) -> (stack: &Stack<bool>)
        ensures
            stack@ == self@.booleans,
    {
        &self.booleans
    }

    /// The value bound to the input `name`, if any.
    pub fn input(&self, name: &String) -> (value: Option<InputValue>)
        ensures
            value == bound_value(self@.inputs, name@),
    {
        let mut i: usize = self.inputs.len();
        assert(self@.inputs.take(i as int) == self@.inputs);
        while i > 0
            invariant
                i <= self.inputs@.len(),
                bound_value(self@.inputs, name@) == bound_value(
                    self@.inputs.take(i as int),
                    name@,
                ),
            decreases i,
        {
            i -= 1;
            assert(self@.inputs.take(i + 1).drop_last() == self@.inputs.take(i as int));
            if self.inputs[i].name == *name {
                return Some(self.inputs[i].value);
            }
        }
        None
    }

    /// Puts `value` on the integer stack. A machine without room hands
    /// itself back unchanged, in a fatal error.
    pub fn push_int(self, value: i64) -> (pushed: Result<PushState, Error>)
        ensures
            meets(pushed, push_outcome(self@, self@.with_int(value)), self@),
    {
        if self.size() < self.max_stack_size {
            let PushState { max_stack_size, instructions, integers, booleans, inputs } = self;
            let mut integers = integers;
            integers.push(value);
            Ok(PushState { max_stack_size, instructions, integers, booleans, inputs })
        } else {
            Err(Error::fatal(self, PushInstructionError::StackError(StackError::Overflow)))
        }
    }

    /// Puts `value` on the boolean stack. A machine without room hands
    /// itself back unchanged, in a fatal error.
    pub fn push_bool(self, value: bool) -> (pushed: Result<PushState, Error>)
        ensures
            meets(pushed, push_outcome(self@, self@.with_bool(value)), self@),
    {
        if self.size() < self.max_stack_size {
            let PushState { max_stack_size, instructions, integers, booleans, inputs } = self;
            let mut booleans = booleans;
            booleans.push(value);
            Ok(PushState { max_stack_size, instructions, integers, booleans, inputs })
        } else {
            Err(Error::fatal(self, PushInstructionError::StackError(StackError::Overflow)))
        }
    }

    /// Takes `count` integers off the stack and puts `value` in their place.
    pub(crate) fn replace_ints(self, count: usize, value: i64) -> (state: PushState)
        requires
            1 <= count <= self@.integers.len(),
        ensures
            state@ == self@.with_ints_replaced(count as nat, value),
    {
        proof {
            use_type_invariant(&self);
        }
        let PushState { max_stack_size, instructions, integers, booleans, inputs } = self;
        let mut integers = integers;
        integers.replace(count, value);
        PushState { max_stack_size, instructions, integers, booleans, inputs }
    }

    /// Takes the next instruction off the exec stack, if there is one.
    pub fn next_instruction(self) -> (taken: (Option<PushInstruction>, PushState))
        ensures
            self@.instructions.len() > 0 ==> taken.0 == Some(self@.instructions.last())
                && taken.1@ == self@.without_next(),
            self@.instructions.len() == 0 ==> taken.0.is_none() && taken.1@ == self@,
    {
        proof {
            use_type_invariant(&self);
        }
        let PushState { max_stack_size, instructions, integers, booleans, inputs } = self;
        let mut instructions = instructions;
        let next = match instructions.pop() {
            Ok(instruction) => Some(instruction),
            Err(_) => None,
        };
        (next, PushState { max_stack_size, instructions, integers, booleans, inputs })
    }

    /// Runs the program on the exec stack until it is used up or an
    /// instruction fails fatally. An instruction that fails recoverably is
    /// skipped: the state goes on as it was before it.
    pub fn run_to_completion(self) -> (result: Result<PushState, Error>)
        ensures
            match run(self@) {
                RunOutcome::Finished(end) => result matches Ok(state) && state@ == end,
                RunOutcome::Halted { state, error } => result matches Err(failure)
                    && failure.state_view() == state && failure.cause() == error
                    && failure.severity() == ErrorSeverity::Fatal,
            },
    {
        let mut state = self;
        loop
            invariant
                run(state@) == run(self@),
            decreases state@.instructions.len(),
        {
            let (next, rest) = state.next_instruction();
            match next {
                None => {
                    return Ok(rest);
                },
                Some(instruction) => {
                    proof {
                        instruction.lemma_outcome_keeps_the_rest(rest@);
                    }
                    match instruction.perform(rest) {
                        Ok(next) => {
                            state = next;
                        },
                        Err(failure) => {
                            if failure.is_recoverable() {
                                state = failure.into_state();
                            } else {
                                return Err(failure);
                            }
                        },
                    }
                },
            }
        }
    }
}

/// A state under construction, before it has a program.
#[derive(Debug)]
pub struct Builder {
    max_stack_size: usize,
}

impl Builder {
    /// The capacity that the state will have.
    pub closed spec fn max_stack_size(&self) -> nat {
        self.max_stack_size as nat
    }

    /// Sets the largest number of items that all stacks may hold together.
    pub fn with_max_stack_size(self, max_stack_size: usize) -> (builder: Self)
        ensures
            builder.max_stack_size() == max_stack_size,
    {
        Builder { max_stack_size }
    }

    /// Loads the program, its first instruction on top of the exec stack.
    /// A program longer than the capacity is refused.
    pub fn with_program(self, program: Vec<PushInstruction>) -> (loaded: Result<
        LoadedBuilder,
        StackError,
    >)
        ensures
            program@.len() <= self.max_stack_size() ==> (loaded matches Ok(builder) && builder@
                == (MachineView {
                max_stack_size: self.max_stack_size(),
                instructions: program@.reverse(),
                integers: Seq::<i64>::empty(),
                booleans: Seq::<bool>::empty(),
                inputs: Seq::<(Seq<char>, InputValue)>::empty(),
            })),
            program@.len() > self.max_stack_size() ==> loaded == Err::<LoadedBuilder, StackError>(
                StackError::Overflow,
            ),
    {
        if program.len() > self.max_stack_size {
            return Err(StackError::Overflow);
        }
        let ghost listed = program@;
        let mut program = program;
        let mut stacked: Vec<PushInstruction> = Vec::with_capacity(program.len());
        while program.len() > 0
            invariant
                program@.len() + stacked@.len() == listed.len(),
                program@ == listed.take(program@.len() as int),
                forall|k: int|
                    0 <= k < stacked@.len() ==> stacked@[k] == listed[listed.len() - 1 - k],
            decreases program@.len(),
        {
            let instruction = program.pop().unwrap();
            stacked.push(instruction);
        }
        assert(stacked@ == listed.reverse());
        let state = PushState {
            max_stack_size: self.max_stack_size,
            instructions: Stack::from_values(stacked),
            integers: Stack::new(),
            booleans: Stack::new(),
            inputs: Vec::new(),
        };
        assert(state@.inputs == Seq::<(Seq<char>, InputValue)>::empty());
        Ok(LoadedBuilder { state })
    }
}

/// A state under construction that has its program.
#[derive(Debug)]
pub struct LoadedBuilder {
    state: PushState,
}

impl View for LoadedBuilder {
    type V = MachineView;

    closed spec fn view(&self) -> MachineView {
        self.state@
    }
}

impl LoadedBuilder {
    /// Binds the input `name` to an integer.
    pub fn with_int_input(self, name: &str, value: i64) -> (builder: Self)
        ensures
            builder@ == (MachineView {
                inputs: self@.inputs.push((name@, InputValue::Int(value))),
                ..self@
            }),
    {
        self.with_input(name, InputValue::Int(value))
    }

    /// Binds the input `name` to a boolean.
    pub fn with_bool_input(self, name: &str, value: bool) -> (builder: Self)
        ensures
            builder@ == (MachineView {
                inputs: self@.inputs.push((name@, InputValue::Bool(value))),
                ..self@
            }),
    {
        self.with_input(name, InputValue::Bool(value))
    }

    fn with_input(self, name: &str, value: InputValue) -> (builder: Self)
        ensures
            builder@ == (MachineView { inputs: self@.inputs.push((name@, value)), ..self@ }),
    {
        let ghost before = self.state@;
        proof {
            use_type_invariant(&self.state);
        }
        let PushState { max_stack_size, instructions, integers, booleans, inputs } = self.state;
        let mut inputs = inputs;
        inputs.push(Binding { name: name.to_owned(), value });
        let state = PushState { max_stack_size, instructions, integers, booleans, inputs };
        assert(state@.inputs == before.inputs.push((name@, value)));
        LoadedBuilder { state }
    }

    /// The finished state.
    pub fn build(self) -> (state: PushState)
        ensures
            state@ == self@,
    {
        self.state
    }
}

} // verus!
