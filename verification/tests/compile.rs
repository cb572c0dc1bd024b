//! Compiling: the grammar, the binding rules and the validation before both.

use gdlk::ast::{RegisterRef, StackRef};
use gdlk::compiler::compile;
use gdlk::error::{CompileError, SyntaxErrorKind};
use gdlk::render::format_errors;
use gdlk::validation::{HardwareSpec, InvalidField, ProgramSpec, Valid};

fn small() -> Valid<HardwareSpec> {
    Valid::validate(HardwareSpec {
        num_registers: 1,
        num_stacks: 1,
        max_stack_length: 5,
    })
    .unwrap()
}

fn errors_of(src: &str) -> Vec<CompileError> {
    compile(&small(), src).unwrap_err()
}

#[test]
fn test_empty_source_is_one_parse_error_on_any_hardware() {
    for (registers, stacks, length) in [(1, 0, 0), (16, 16, 256), (3, 2, 1)] {
        let hw = Valid::validate(HardwareSpec {
            num_registers: registers,
            num_stacks: stacks,
            max_stack_length: length,
        })
        .unwrap();
        assert_eq!(
            compile(&hw, "").unwrap_err(),
            vec![CompileError::ParseError {
                position: 0,
                kind: SyntaxErrorKind::ExpectedKeyword,
                text: vec![],
            }]
        );
    }
}

#[test]
fn test_blank_source_is_a_parse_error_at_its_end() {
    let errors = errors_of(" \n\t\n");
    assert_eq!(
        errors,
        vec![CompileError::ParseError {
            position: 4,
            kind: SyntaxErrorKind::ExpectedKeyword,
            text: vec![],
        }]
    );
    assert_eq!(
        format_errors(&errors),
        "Parse error: 4: in Alpha, got empty input\n\n"
    );
}

#[test]
fn test_unknown_keyword() {
    let errors = errors_of("WRITE 1\n  JMP RX0\nWRITE 2");
    assert_eq!(
        errors,
        vec![CompileError::ParseError {
            position: 10,
            kind: SyntaxErrorKind::InvalidKeyword,
            text: b"JMP RX0\nWRITE 2".to_vec(),
        }]
    );
    assert_eq!(
        errors[0].message(),
        "Parse error: Invalid keyword: JMP RX0\nWRITE 2"
    );
    assert_eq!(
        format_errors(&errors_of("read RX0")),
        "Parse error: Invalid keyword: read RX0"
    );
}

#[test]
fn test_trailing_text_after_instruction() {
    assert_eq!(
        errors_of("SET RX0 1 2"),
        vec![CompileError::ParseError {
            position: 9,
            kind: SyntaxErrorKind::InvalidKeyword,
            text: b" 2".to_vec(),
        }]
    );
}

#[test]
fn test_bad_operands() {
    assert_eq!(
        format_errors(&errors_of("READ")),
        "Parse error: Invalid register: "
    );
    assert_eq!(
        format_errors(&errors_of("READ 5")),
        "Parse error: Invalid register: 5"
    );
    assert_eq!(
        format_errors(&errors_of("READ RX")),
        "Parse error: Invalid register: RX"
    );
    assert_eq!(
        format_errors(&errors_of("WRITE x1")),
        "Parse error: Invalid value: x1"
    );
    assert_eq!(
        format_errors(&errors_of("SET RX0\nWRITE 1")),
        "Parse error: Invalid value: \nWRITE 1"
    );
    assert_eq!(
        format_errors(&errors_of("PUSH 1 RX0")),
        "Parse error: Invalid stack: RX0"
    );
    assert_eq!(
        format_errors(&errors_of("POP RX0 S0")),
        "Parse error: Invalid stack: RX0 S0"
    );
    assert_eq!(
        format_errors(&errors_of("WRITE RQ1")),
        "Parse error: Invalid value: RQ1"
    );
}

#[test]
fn test_parsing_stops_at_the_first_syntax_error() {
    let errors = errors_of("FOO\nBAR\nSET RX9 1");
    assert_eq!(errors.len(), 1);
    assert_eq!(
        errors[0].message(),
        "Parse error: Invalid keyword: FOO\nBAR\nSET RX9 1"
    );
}

#[test]
fn test_literal_range() {
    let hw = small();
    assert!(compile(&hw, "SET RX0 2147483647").is_ok());
    assert!(compile(&hw, "SET RX0 -2147483648").is_ok());
    assert!(compile(&hw, "SET RX0 0000000000000000007").is_ok());
    assert_eq!(
        format_errors(&errors_of("SET RX0 2147483648")),
        "Parse error: Invalid value: 2147483648"
    );
    assert_eq!(
        format_errors(&errors_of("SET RX0 -2147483649")),
        "Parse error: Invalid value: -2147483649"
    );
    assert_eq!(
        format_errors(&errors_of("SET RX0 -")),
        "Parse error: Invalid value: -"
    );
    assert_eq!(
        format_errors(&errors_of("SET RX4294967296 1")),
        "Parse error: Invalid register: RX4294967296 1"
    );
}

#[test]
fn test_non_ascii_text_in_a_parse_error() {
    assert_eq!(
        format_errors(&errors_of("WRITE \u{e9}t\u{e9}")),
        "Parse error: Invalid value: \u{e9}t\u{e9}"
    );
}

#[test]
fn test_errors_keep_source_order_across_kinds() {
    let errors = errors_of("PUSH RX3 S4\nSET RLI RX10\nPOP S1 RS0\nWRITE 1");
    assert_eq!(
        errors,
        vec![
            CompileError::InvalidRegisterReference {
                name: RegisterRef::User(3)
            },
            CompileError::InvalidStackReference {
                name: StackRef { index: 4 }
            },
            CompileError::ReadOnlyWrite {
                name: RegisterRef::InputLength
            },
            CompileError::InvalidRegisterReference {
                name: RegisterRef::User(10)
            },
            CompileError::InvalidStackReference {
                name: StackRef { index: 1 }
            },
            CompileError::ReadOnlyWrite {
                name: RegisterRef::StackLength(0)
            },
        ]
    );
    assert_eq!(
        format_errors(&errors),
        "Invalid reference to register RX3\nInvalid reference to stack S4\nCannot write to read-only register RLI\nInvalid reference to register RX10\nInvalid reference to stack S1\nCannot write to read-only register RS0"
    );
}

#[test]
fn test_missing_read_only_register_draws_both_errors() {
    assert_eq!(
        format_errors(&errors_of("SET RS3 1")),
        "Invalid reference to register RS3\nCannot write to read-only register RS3"
    );
}

#[test]
fn test_compile_twice_gives_the_same_result() {
    let hw = small();
    let bad = "SET RLI 5\nPUSH 1 S9\nREAD RX2";
    assert_eq!(compile(&hw, bad).unwrap_err(), compile(&hw, bad).unwrap_err());
    let good = "READ RX0\nPUSH RX0 S0\nPOP S0 RX0\nWRITE RX0";
    let first = compile(&hw, good).unwrap();
    let second = compile(&hw, good).unwrap();
    assert_eq!(first.len(), second.len());
    for i in 0..first.len() {
        assert_eq!(first.get(i), second.get(i));
    }
    assert_eq!(first.get_hardware(), second.get_hardware());
}

#[test]
fn test_hardware_validation() {
    assert_eq!(
        Valid::validate(HardwareSpec {
            num_registers: 0,
            num_stacks: 0,
            max_stack_length: 0,
        })
        .unwrap_err(),
        vec![InvalidField::NumRegisters]
    );
    assert_eq!(
        Valid::validate(HardwareSpec {
            num_registers: 17,
            num_stacks: 17,
            max_stack_length: 257,
        })
        .unwrap_err(),
        vec![
            InvalidField::NumRegisters,
            InvalidField::NumStacks,
            InvalidField::MaxStackLength
        ]
    );
    let valid = Valid::validate(HardwareSpec {
        num_registers: 16,
        num_stacks: 16,
        max_stack_length: 256,
    })
    .unwrap();
    assert_eq!(valid.get().num_stacks, 16);
    assert!(Valid::validate(*valid.get()).is_ok());
}

#[test]
fn test_program_spec_validation() {
    assert_eq!(
        Valid::validate(ProgramSpec {
            input: vec![0; 257],
            expected_output: vec![0; 257],
        })
        .unwrap_err(),
        vec![InvalidField::Input, InvalidField::ExpectedOutput]
    );
    assert_eq!(
        Valid::validate(ProgramSpec {
            input: vec![0; 256],
            expected_output: vec![0; 300],
        })
        .unwrap_err(),
        vec![InvalidField::ExpectedOutput]
    );
    let valid = Valid::validate(ProgramSpec {
        input: vec![1, 2],
        expected_output: vec![],
    })
    .unwrap();
    assert_eq!(valid.get().input, vec![1, 2]);
}
