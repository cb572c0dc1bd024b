//! Running programs: instruction semantics, halting and the counters.

use gdlk::ast::{Instruction, RegisterRef, StackRef, ValueSource};
use gdlk::compiler::compile;
use gdlk::error::RuntimeError;
use gdlk::machine::{Machine, MachineStatus};
use gdlk::validation::{HardwareSpec, ProgramSpec, Valid};

fn hardware(num_registers: usize, num_stacks: usize, max_stack_length: usize) -> Valid<HardwareSpec> {
    Valid::validate(HardwareSpec {
        num_registers,
        num_stacks,
        max_stack_length,
    })
    .unwrap()
}

fn machine_for(
    hw: &Valid<HardwareSpec>,
    input: Vec<i32>,
    expected_output: Vec<i32>,
    src: &str,
) -> Machine {
    let puzzle = Valid::validate(ProgramSpec {
        input,
        expected_output,
    })
    .unwrap();
    Machine::allocate(compile(hw, src).unwrap(), &puzzle)
}

#[test]
fn test_allocate_is_ready() {
    let machine = machine_for(&hardware(2, 3, 4), vec![1, 2], vec![9], "READ RX0");
    assert_eq!(machine.status(), MachineStatus::Ready);
    assert_eq!(machine.cycle_count(), 0);
    assert_eq!(machine.program_counter(), 0);
    assert_eq!(machine.registers(), &vec![0, 0]);
    assert_eq!(machine.stacks(), &vec![Vec::<i32>::new(); 3]);
    assert_eq!(machine.input(), &vec![1, 2]);
    assert!(machine.output().is_empty());
    assert!(!machine.is_complete());
    assert!(!machine.is_successful());
    assert_eq!(machine.error(), None);
}

#[test]
fn test_compile_binds_operands() {
    let program = compile(&hardware(2, 1, 4), "SET RX1 -12\nPUSH RS0 S0\n\tPOP S0 RX0\r\nWRITE RLI").unwrap();
    assert_eq!(program.len(), 4);
    assert_eq!(
        program.get(0),
        Some(Instruction::Assign(RegisterRef::User(1), ValueSource::Const(-12)))
    );
    assert_eq!(
        program.get(1),
        Some(Instruction::Push(
            ValueSource::Register(RegisterRef::StackLength(0)),
            StackRef { index: 0 }
        ))
    );
    assert_eq!(
        program.get(2),
        Some(Instruction::Pop(StackRef { index: 0 }, RegisterRef::User(0)))
    );
    assert_eq!(
        program.get(3),
        Some(Instruction::Write(ValueSource::Register(RegisterRef::InputLength)))
    );
    assert_eq!(program.get(4), None);
    assert_eq!(program.get_hardware().num_registers, 2);
}

#[test]
fn test_echo_succeeds() {
    let mut machine = machine_for(&hardware(1, 0, 0), vec![7], vec![7], "READ RX0\nWRITE RX0\n");
    assert_eq!(machine.execute_all(), Ok(true));
    assert_eq!(machine.output(), &vec![7]);
    assert!(machine.input().is_empty());
    assert_eq!(machine.cycle_count(), 2);
    assert_eq!(machine.status(), MachineStatus::HaltedSuccess);
    assert!(machine.is_complete());
    assert!(machine.is_successful());
}

#[test]
fn test_wrong_output_fails() {
    let mut machine = machine_for(&hardware(1, 0, 0), vec![7], vec![8], "READ RX0\nWRITE RX0");
    assert_eq!(machine.execute_all(), Ok(false));
    assert_eq!(machine.status(), MachineStatus::HaltedFailure);
    assert!(machine.is_complete());
    assert!(!machine.is_successful());
}

#[test]
fn test_output_must_match_in_length_and_order() {
    let hw = hardware(1, 0, 0);
    let mut short = machine_for(&hw, vec![], vec![1, 2], "WRITE 1");
    assert_eq!(short.execute_all(), Ok(false));
    let mut swapped = machine_for(&hw, vec![], vec![1, 2], "WRITE 2\nWRITE 1");
    assert_eq!(swapped.execute_all(), Ok(false));
    let mut exact = machine_for(&hw, vec![], vec![1, 2], "WRITE 1\nWRITE 2");
    assert_eq!(exact.execute_all(), Ok(true));
}

#[test]
fn test_success_needs_a_halted_machine() {
    let machine = machine_for(&hardware(1, 0, 0), vec![], vec![], "SET RX0 1");
    assert!(machine.output().is_empty());
    assert!(!machine.is_successful());
    assert_eq!(machine.status(), MachineStatus::Ready);
}

#[test]
fn test_arithmetic() {
    let mut machine = machine_for(
        &hardware(2, 0, 0),
        vec![],
        vec![],
        "SET RX0 5\nADD RX0 3\nSUB RX0 10\nMUL RX0 -4\nSET RX1 RX0\nADD RX1 RX1",
    );
    assert_eq!(machine.execute_all(), Ok(true));
    assert_eq!(machine.registers(), &vec![8, 16]);
    assert_eq!(machine.cycle_count(), 6);
}

#[test]
fn test_arithmetic_wraps_on_overflow() {
    let mut machine = machine_for(
        &hardware(3, 0, 0),
        vec![],
        vec![],
        "SET RX0 2147483647\nADD RX0 1\nSET RX1 -2147483648\nSUB RX1 1\nSET RX2 65536\nMUL RX2 65537",
    );
    assert_eq!(machine.execute_all(), Ok(true));
    assert_eq!(machine.registers(), &vec![i32::MIN, i32::MAX, 65536]);
}

#[test]
fn test_input_length_register_counts_waiting_values() {
    let mut machine = machine_for(
        &hardware(1, 0, 0),
        vec![4, 5, 6],
        vec![3, 2],
        "WRITE RLI\nREAD RX0\nWRITE RLI",
    );
    assert_eq!(machine.execute_all(), Ok(true));
    assert_eq!(machine.output(), &vec![3, 2]);
    assert_eq!(machine.input(), &vec![5, 6]);
    assert_eq!(machine.registers(), &vec![4]);
}

#[test]
fn test_stack_push_pop() {
    let mut machine = machine_for(
        &hardware(1, 2, 3),
        vec![],
        vec![2, 2, 1],
        "PUSH 1 S1\nPUSH 2 S1\nWRITE RS1\nPOP S1 RX0\nWRITE RX0\nWRITE RS1",
    );
    assert_eq!(machine.execute_all(), Ok(true));
    assert_eq!(machine.stacks(), &vec![vec![], vec![1]]);
    assert_eq!(machine.get_state().stacks, vec![vec![], vec![1]]);
    assert_eq!(machine.get_state().cycle_count, 6);
}

#[test]
fn test_read_from_empty_input_halts_with_error() {
    let mut machine = machine_for(&hardware(1, 0, 0), vec![1], vec![], "READ RX0\nREAD RX0\nWRITE 1");
    assert_eq!(machine.execute_next(), Ok(()));
    assert_eq!(machine.status(), MachineStatus::Running);
    assert_eq!(machine.execute_next(), Err(RuntimeError::InputExhausted));
    assert_eq!(machine.status(), MachineStatus::HaltedError);
    assert_eq!(machine.error(), Some(RuntimeError::InputExhausted));
    assert_eq!(machine.cycle_count(), 1);
    assert_eq!(machine.program_counter(), 1);
    assert!(machine.is_complete());
    assert!(!machine.is_successful());
    assert_eq!(machine.execute_next(), Err(RuntimeError::Terminated));
    assert_eq!(machine.execute_all(), Ok(false));
}

#[test]
fn test_execute_all_returns_the_error() {
    let mut machine = machine_for(&hardware(1, 1, 1), vec![], vec![], "PUSH 1 S0\nPUSH 2 S0\nWRITE 1");
    assert_eq!(
        machine.execute_all(),
        Err(RuntimeError::StackOverflow {
            stack: StackRef { index: 0 }
        })
    );
    assert_eq!(machine.cycle_count(), 1);
    assert_eq!(machine.stacks(), &vec![vec![1]]);
    assert!(machine.output().is_empty());
    assert_eq!(machine.status(), MachineStatus::HaltedError);
}

#[test]
fn test_pop_from_empty_stack_halts_with_error() {
    let mut machine = machine_for(&hardware(1, 1, 1), vec![], vec![], "POP S0 RX0");
    assert_eq!(
        machine.execute_next(),
        Err(RuntimeError::StackUnderflow {
            stack: StackRef { index: 0 }
        })
    );
    assert_eq!(machine.cycle_count(), 0);
}

#[test]
fn test_push_to_stack_without_capacity_fails() {
    let mut machine = machine_for(&hardware(1, 1, 0), vec![], vec![], "PUSH 1 S0");
    assert_eq!(
        machine.execute_all(),
        Err(RuntimeError::StackOverflow {
            stack: StackRef { index: 0 }
        })
    );
}

#[test]
fn test_step_on_halted_machine_fails_and_changes_nothing() {
    let mut machine = machine_for(&hardware(1, 0, 0), vec![], vec![3], "WRITE 3");
    assert_eq!(machine.execute_next(), Ok(()));
    assert!(machine.is_complete());
    assert!(machine.is_successful());
    assert_eq!(machine.execute_next(), Err(RuntimeError::Terminated));
    assert_eq!(machine.execute_next(), Err(RuntimeError::Terminated));
    assert_eq!(machine.cycle_count(), 1);
    assert_eq!(machine.program_counter(), 1);
    assert_eq!(machine.output(), &vec![3]);
    assert_eq!(machine.status(), MachineStatus::HaltedSuccess);
    assert_eq!(machine.execute_all(), Ok(true));
}

#[test]
fn test_cycle_count_counts_executed_instructions() {
    let mut machine = machine_for(
        &hardware(1, 0, 0),
        vec![],
        vec![],
        "SET RX0 1\nADD RX0 1\nADD RX0 1\nADD RX0 1\nADD RX0 1",
    );
    for n in 1..=5usize {
        assert_eq!(machine.execute_next(), Ok(()));
        assert_eq!(machine.cycle_count(), n);
        assert_eq!(machine.program_counter(), n);
    }
    assert_eq!(machine.registers(), &vec![5]);
    assert!(machine.is_complete());
}

#[test]
fn test_runtime_error_messages() {
    assert_eq!(
        RuntimeError::InputExhausted.message(),
        "Read attempted while input is empty"
    );
    assert_eq!(
        RuntimeError::StackOverflow {
            stack: StackRef { index: 12 }
        }
        .message(),
        "Overflow on stack S12"
    );
    assert_eq!(
        RuntimeError::StackUnderflow {
            stack: StackRef { index: 0 }
        }
        .message(),
        "Cannot pop from empty stack S0"
    );
    assert_eq!(
        RuntimeError::Terminated.message(),
        "Program has already terminated"
    );
}
