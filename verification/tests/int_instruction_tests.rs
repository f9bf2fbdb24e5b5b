use ec_engine::instruction::integer::{IntInstruction, IntInstructionError};
use ec_engine::instruction::{ErrorSeverity, PushInstruction, PushInstructionError};
use ec_engine::push_vm::push_state::{InputValue, PushState};
use ec_engine::push_vm::stack::{Stack, StackError};
use ec_engine::push_vm::PushInteger;

fn empty_state() -> PushState {
    PushState::builder()
        .with_max_stack_size(100)
        .with_program(vec![])
        .unwrap()
        .build()
}

fn state_with(x: PushInteger, y: PushInteger) -> PushState {
    empty_state().push_int(y).unwrap().push_int(x).unwrap()
}

/// The integer stack from the bottom up.
fn ints(state: &PushState) -> Vec<PushInteger> {
    state.int_stack().values().clone()
}

#[test]
fn add() {
    let x = 409;
    let y = 512;
    let state = PushState::builder()
        .with_max_stack_size(100)
        .with_program(vec![])
        .unwrap()
        .build();
    let state = state.push_int(y).unwrap();
    let state = state.push_int(x).unwrap();
    let result = IntInstruction::Add.perform(state).unwrap();
    assert_eq!(result.int_stack().size(), 1);
    assert_eq!(*result.int_stack().top().unwrap(), x + y);
}

#[test]
fn add_overflows() {
    let x = 4_098_586_571_925_584_936;
    let y = 5_124_785_464_929_190_872;
    let state = PushState::builder()
        .with_max_stack_size(100)
        .with_program(vec![])
        .unwrap()
        .build();
    let state = state.push_int(y).unwrap();
    let state = state.push_int(x).unwrap();
    let result = IntInstruction::Add.perform(state).unwrap_err();
    assert_eq!(result.state().int_stack().size(), 2);
    assert_eq!(
        result.error(),
        &PushInstructionError::from(IntInstructionError::Overflow {
            op: IntInstruction::Add
        })
    );
    assert!(result.is_recoverable());
}

#[test]
fn inc_overflows() {
    let x = PushInteger::MAX;
    let state = PushState::builder()
        .with_max_stack_size(100)
        .with_program(vec![])
        .unwrap()
        .build();
    let state = state.push_int(x).unwrap();
    let result = IntInstruction::Inc.perform(state).unwrap_err();
    assert_eq!(result.state().int_stack().size(), 1);
    assert_eq!(
        result.state().int_stack().top().unwrap(),
        &PushInteger::MAX
    );
    assert_eq!(
        result.error(),
        &IntInstructionError::Overflow {
            op: IntInstruction::Inc
        }
        .into()
    );
    assert!(result.is_recoverable());
}

#[test]
fn dec_overflows() {
    let x = PushInteger::MIN;
    let state = PushState::builder()
        .with_max_stack_size(100)
        .with_program(vec![])
        .unwrap()
        .build();
    let state = state.push_int(x).unwrap();
    let result = IntInstruction::Dec.perform(state).unwrap_err();
    assert_eq!(result.state().int_stack().size(), 1);
    assert_eq!(
        result.state().int_stack().top().unwrap(),
        &PushInteger::MIN
    );
    assert_eq!(
        result.error(),
        &IntInstructionError::Overflow {
            op: IntInstruction::Dec
        }
        .into()
    );
    assert!(result.is_recoverable());
}

#[test]
fn add_overflow_leaves_both_operands_in_place() {
    let x = 4_098_586_571_925_584_936;
    let y = 5_124_785_464_929_190_872;
    let failure = IntInstruction::Add.perform(state_with(x, y)).unwrap_err();
    assert_eq!(ints(failure.state()), vec![y, x]);
    assert!(!failure.is_fatal());
    let state = failure.into_state();
    assert_eq!(*state.int_stack().top().unwrap(), x);
}

#[test]
fn negate_and_abs() {
    for x in [0, 1, -1, 37, -512, PushInteger::MAX, PushInteger::MIN + 1] {
        let state = empty_state().push_int(x).unwrap();
        let result = IntInstruction::Negate.perform(state).unwrap();
        assert_eq!(ints(&result), vec![-x]);
        let state = empty_state().push_int(x).unwrap();
        let result = IntInstruction::Abs.perform(state).unwrap();
        assert_eq!(ints(&result), vec![x.abs()]);
    }
}

#[test]
fn negate_and_abs_of_the_least_integer_overflow() {
    for op in [IntInstruction::Negate, IntInstruction::Abs] {
        let state = empty_state().push_int(PushInteger::MIN).unwrap();
        let failure = op.perform(state).unwrap_err();
        assert!(failure.is_recoverable());
        assert_eq!(
            failure.error(),
            &PushInstructionError::IntInstructionError(IntInstructionError::Overflow { op })
        );
        assert_eq!(ints(failure.state()), vec![PushInteger::MIN]);
    }
}

#[test]
fn square() {
    let state = empty_state().push_int(-12).unwrap();
    assert_eq!(ints(&IntInstruction::Square.perform(state).unwrap()), vec![144]);
    let state = empty_state().push_int(3_037_000_500).unwrap();
    let failure = IntInstruction::Square.perform(state).unwrap_err();
    assert!(failure.is_recoverable());
    assert_eq!(ints(failure.state()), vec![3_037_000_500]);
}

#[test]
fn inc_and_dec() {
    let state = empty_state().push_int(41).unwrap();
    assert_eq!(ints(&IntInstruction::Inc.perform(state).unwrap()), vec![42]);
    let state = empty_state().push_int(-41).unwrap();
    assert_eq!(ints(&IntInstruction::Dec.perform(state).unwrap()), vec![-42]);
}

#[test]
fn subtract_takes_the_second_from_the_top() {
    let result = IntInstruction::Subtract.perform(state_with(10, 3)).unwrap();
    assert_eq!(ints(&result), vec![7]);
    let failure = IntInstruction::Subtract
        .perform(state_with(PushInteger::MIN, 1))
        .unwrap_err();
    assert!(failure.is_recoverable());
    assert_eq!(ints(failure.state()), vec![1, PushInteger::MIN]);
}

#[test]
fn multiply() {
    let result = IntInstruction::Multiply.perform(state_with(-6, 7)).unwrap();
    assert_eq!(ints(&result), vec![-42]);
    let failure = IntInstruction::Multiply
        .perform(state_with(PushInteger::MAX, 2))
        .unwrap_err();
    assert_eq!(
        failure.error(),
        &PushInstructionError::IntInstructionError(IntInstructionError::Overflow {
            op: IntInstruction::Multiply
        })
    );
}

#[test]
fn protected_divide_zero_denominator() {
    for x in [0, 1, -1, 409, PushInteger::MAX, PushInteger::MIN] {
        let result = IntInstruction::ProtectedDivide
            .perform(state_with(x, 0))
            .unwrap();
        assert_eq!(ints(&result), vec![1]);
    }
}

#[test]
fn mod_zero_denominator() {
    for x in [0, 1, -1, 409, PushInteger::MAX, PushInteger::MIN] {
        let result = IntInstruction::Mod.perform(state_with(x, 0)).unwrap();
        assert_eq!(ints(&result), vec![0]);
    }
}

#[test]
fn protected_divide_rounds_towards_zero() {
    for (x, y) in [(7, 2), (-7, 2), (7, -2), (-7, -2), (0, 5), (6, 3), (PushInteger::MIN, 2)] {
        let result = IntInstruction::ProtectedDivide
            .perform(state_with(x, y))
            .unwrap();
        assert_eq!(ints(&result), vec![x / y]);
        let result = IntInstruction::Mod.perform(state_with(x, y)).unwrap();
        assert_eq!(ints(&result), vec![x % y]);
    }
}

#[test]
fn dividing_the_least_integer_by_minus_one_overflows() {
    for op in [IntInstruction::ProtectedDivide, IntInstruction::Mod] {
        let failure = op.perform(state_with(PushInteger::MIN, -1)).unwrap_err();
        assert!(failure.is_recoverable());
        assert_eq!(
            failure.error(),
            &PushInstructionError::IntInstructionError(IntInstructionError::Overflow { op })
        );
        assert_eq!(ints(failure.state()), vec![-1, PushInteger::MIN]);
    }
}

#[test]
fn compute_gives_the_checked_result() {
    assert_eq!(IntInstruction::Add.compute(409, 512), Some(921));
    assert_eq!(IntInstruction::Add.compute(PushInteger::MAX, 1), None);
    assert_eq!(IntInstruction::Subtract.compute(5, 8), Some(-3));
    assert_eq!(IntInstruction::Multiply.compute(1 << 32, 1 << 31), None);
    assert_eq!(IntInstruction::ProtectedDivide.compute(9, 0), Some(1));
    assert_eq!(IntInstruction::ProtectedDivide.compute(-9, 2), Some(-4));
    assert_eq!(IntInstruction::Mod.compute(-9, 2), Some(-1));
    assert_eq!(IntInstruction::Mod.compute(9, 0), Some(0));
    assert_eq!(IntInstruction::Mod.compute(PushInteger::MIN, -1), None);
    assert_eq!(IntInstruction::Negate.compute(5, 99), Some(-5));
    assert_eq!(IntInstruction::Abs.compute(-5, 99), Some(5));
    assert_eq!(IntInstruction::Square.compute(-5, 99), Some(25));
    assert_eq!(IntInstruction::Push(17).compute(1, 2), Some(17));
    assert_eq!(IntInstruction::Add.operands(), 2);
    assert_eq!(IntInstruction::Inc.operands(), 1);
    assert_eq!(IntInstruction::Push(3).operands(), 0);
}

#[test]
fn a_missing_operand_is_a_recoverable_underflow() {
    let state = empty_state().push_int(5).unwrap();
    let failure = IntInstruction::Add.perform(state).unwrap_err();
    assert!(failure.is_recoverable());
    assert_eq!(
        failure.error(),
        &PushInstructionError::StackError(StackError::Underflow {
            num_requested: 2,
            num_present: 1
        })
    );
    assert_eq!(ints(failure.state()), vec![5]);
    let failure = IntInstruction::Inc.perform(empty_state()).unwrap_err();
    assert_eq!(
        failure.error(),
        &PushInstructionError::from(StackError::Underflow {
            num_requested: 1,
            num_present: 0
        })
    );
}

#[test]
fn int_ops_do_not_crash() {
    let ops = [
        IntInstruction::Push(7),
        IntInstruction::Negate,
        IntInstruction::Abs,
        IntInstruction::Inc,
        IntInstruction::Dec,
        IntInstruction::Add,
        IntInstruction::Subtract,
        IntInstruction::Multiply,
        IntInstruction::ProtectedDivide,
        IntInstruction::Mod,
        IntInstruction::Square,
    ];
    let values = [0, 1, -1, 2, -2, PushInteger::MAX, PushInteger::MIN];
    for op in ops {
        for x in values {
            for y in values {
                let state = state_with(x, y).push_bool(true).unwrap();
                match op.perform(state) {
                    Ok(next) => assert!(next.size() <= 4),
                    Err(failure) => {
                        assert!(failure.is_recoverable());
                        assert_eq!(ints(failure.state()), vec![y, x]);
                    }
                }
            }
        }
    }
}

#[test]
fn pushing_past_the_capacity_is_refused() {
    let state = PushState::builder()
        .with_max_stack_size(2)
        .with_program(vec![])
        .unwrap()
        .build();
    let state = state.push_int(1).unwrap().push_bool(true).unwrap();
    assert_eq!(state.size(), 2);
    let failure = state.push_int(3).unwrap_err();
    assert!(failure.is_fatal());
    assert_eq!(
        failure.error(),
        &PushInstructionError::StackError(StackError::Overflow)
    );
    let state = failure.into_state();
    assert_eq!(state.size(), 2);
    let failure = IntInstruction::Push(9).perform(state).unwrap_err();
    assert!(failure.is_fatal());
    assert_eq!(failure.state().int_stack().size(), 1);
    assert_eq!(*failure.state().bool_stack().top().unwrap(), true);
}

#[test]
fn a_program_longer_than_the_capacity_fails_the_builder() {
    let program = vec![
        PushInstruction::IntInstruction(IntInstruction::Push(1)),
        PushInstruction::IntInstruction(IntInstruction::Push(2)),
        PushInstruction::IntInstruction(IntInstruction::Add),
    ];
    let refused = PushState::builder()
        .with_max_stack_size(2)
        .with_program(program)
        .unwrap_err();
    assert_eq!(refused, StackError::Overflow);
}

#[test]
fn the_first_instruction_of_a_program_is_on_top() {
    let program = vec![
        PushInstruction::IntInstruction(IntInstruction::Push(1)),
        PushInstruction::IntInstruction(IntInstruction::Add),
    ];
    let state = PushState::builder()
        .with_max_stack_size(3)
        .with_program(program)
        .unwrap()
        .build();
    assert_eq!(state.exec_stack().size(), 2);
    assert_eq!(
        state.exec_stack().top().unwrap(),
        &PushInstruction::IntInstruction(IntInstruction::Push(1))
    );
    let (next, rest) = state.next_instruction();
    assert_eq!(next, Some(PushInstruction::IntInstruction(IntInstruction::Push(1))));
    assert_eq!(rest.exec_stack().size(), 1);
}

#[test]
fn a_program_runs_to_completion_past_recoverable_errors() {
    let program = vec![
        PushInstruction::IntInstruction(IntInstruction::Add),
        PushInstruction::IntInstruction(IntInstruction::Push(PushInteger::MAX)),
        PushInstruction::IntInstruction(IntInstruction::Inc),
        PushInstruction::IntInstruction(IntInstruction::Push(-1)),
        PushInstruction::IntInstruction(IntInstruction::Add),
        PushInstruction::InputVar("x".to_string()),
        PushInstruction::IntInstruction(IntInstruction::Multiply),
    ];
    let state = PushState::builder()
        .with_max_stack_size(64)
        .with_program(program)
        .unwrap()
        .with_int_input("x", 3)
        .with_bool_input("flag", true)
        .build();
    assert_eq!(state.input(&"x".to_string()), Some(InputValue::Int(3)));
    assert_eq!(state.input(&"flag".to_string()), Some(InputValue::Bool(true)));
    assert_eq!(state.input(&"y".to_string()), None);
    let end = state.run_to_completion().unwrap();
    assert!(end.exec_stack().is_empty());
    assert_eq!(ints(&end), vec![PushInteger::MAX - 1, 3]);
    assert_eq!(end.bool_stack().values(), &Vec::<bool>::new());
}

#[test]
fn an_unbound_input_stops_the_run() {
    let program = vec![
        PushInstruction::IntInstruction(IntInstruction::Push(5)),
        PushInstruction::InputVar("missing".to_string()),
        PushInstruction::IntInstruction(IntInstruction::Inc),
    ];
    let state = PushState::builder()
        .with_max_stack_size(64)
        .with_program(program)
        .unwrap()
        .with_bool_input("flag", false)
        .build();
    let failure = state.run_to_completion().unwrap_err();
    assert!(failure.is_fatal());
    assert_eq!(
        failure.error(),
        &PushInstructionError::UnknownInput("missing".to_string())
    );
    assert_eq!(ints(failure.state()), vec![5]);
    assert_eq!(failure.state().exec_stack().size(), 1);
}

#[test]
fn a_later_binding_of_an_input_wins() {
    let state = PushState::builder()
        .with_max_stack_size(8)
        .with_program(vec![PushInstruction::InputVar("x".to_string())])
        .unwrap()
        .with_int_input("x", 1)
        .with_bool_input("x", true)
        .build();
    let end = state.run_to_completion().unwrap();
    assert_eq!(end.int_stack().size(), 0);
    assert_eq!(end.bool_stack().top(), Ok(&true));
    assert_eq!(end.int_stack().top(), Err(StackError::Underflow { num_requested: 1, num_present: 0 }));
    assert_eq!(ErrorSeverity::Fatal == ErrorSeverity::Recoverable, false);
}

#[test]
fn a_stack_on_its_own_hands_out_its_top() {
    let mut stack = Stack::from_values(vec![1, 2, 3]);
    assert_eq!(stack.size(), 3);
    assert!(!stack.is_empty());
    assert_eq!(stack.top(), Ok(&3));
    assert_eq!(stack.top2(), Ok((&3, &2)));
    assert_eq!(stack.pop(), Ok(3));
    assert_eq!(stack.pop(), Ok(2));
    assert_eq!(
        stack.top2(),
        Err(StackError::Underflow { num_requested: 2, num_present: 1 })
    );
    assert_eq!(stack.pop(), Ok(1));
    assert_eq!(
        stack.pop(),
        Err(StackError::Underflow { num_requested: 1, num_present: 0 })
    );
    assert!(Stack::<bool>::new().is_empty());
}
