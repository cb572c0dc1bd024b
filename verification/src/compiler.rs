//! Binding a parsed program to a hardware configuration.

use vstd::prelude::*;
use vstd::string::StringSliceAdditionalSpecFns;
use vstd::utf8::{encode_utf8_valid_utf8, valid_utf8};
use crate::ast::{Instruction, RegisterRef, StackRef, ValueSource};
use crate::error::{view_errors, CompileError, CompileErrorView, SyntaxError, SyntaxErrorKind};
use crate::lexer::{skip, tail, ByteClass};
use crate::parser::{lemma_syntax_error_text_is_valid_utf8, parse, parse_from, parse_source};
use crate::validation::{HardwareSpec, Valid, Validate};

verus! {

/// The error, if any, of naming `register` on `hardware`.
pub open spec fn register_errors(hardware: HardwareSpec, register: RegisterRef) -> Seq<
    CompileErrorView,
> {
    if register.exists_on(hardware) {
        Seq::empty()
    } else {
        seq![CompileErrorView::InvalidRegisterReference { name: register }]
    }
}

/// The errors of writing to `register` on `hardware`: that it does not
/// exist, then that it is read-only. A register can draw both.
pub open spec fn dest_errors(hardware: HardwareSpec, register: RegisterRef) -> Seq<
    CompileErrorView,
> {
    register_errors(hardware, register) + if register.writable() {
        Seq::<CompileErrorView>::empty()
    } else {
        seq![CompileErrorView::ReadOnlyWrite { name: register }]
    }
}

/// The error, if any, of reading `value` on `hardware`.
pub open spec fn value_errors(hardware: HardwareSpec, value: ValueSource) -> Seq<CompileErrorView> {
    match value {
        ValueSource::Const(_) => Seq::empty(),
        ValueSource::Register(register) => register_errors(hardware, register),
    }
}

/// The error, if any, of naming `stack` on `hardware`.
pub open spec fn stack_errors(hardware: HardwareSpec, stack: StackRef) -> Seq<CompileErrorView> {
    if stack.exists_on(hardware) {
        Seq::empty()
    } else {
        seq![CompileErrorView::InvalidStackReference { name: stack }]
    }
}

/// The errors of one instruction, operand by operand in the order in
/// which the source writes them.
pub open spec fn instruction_errors(hardware: HardwareSpec, instruction: Instruction) -> Seq<
    CompileErrorView,
> {
    match instruction {
        Instruction::Read(dest) => dest_errors(hardware, dest),
        Instruction::Write(value) => value_errors(hardware, value),
        Instruction::Assign(dest, value) => dest_errors(hardware, dest) + value_errors(
            hardware,
            value,
        ),
        Instruction::Add(dest, value) => dest_errors(hardware, dest) + value_errors(
            hardware,
            value,
        ),
        Instruction::Sub(dest, value) => dest_errors(hardware, dest) + value_errors(
            hardware,
            value,
        ),
        Instruction::Mul(dest, value) => dest_errors(hardware, dest) + value_errors(
            hardware,
            value,
        ),
        Instruction::Push(value, stack) => value_errors(hardware, value) + stack_errors(
            hardware,
            stack,
        ),
        Instruction::Pop(stack, dest) => stack_errors(hardware, stack) + dest_errors(
            hardware,
            dest,
        ),
    }
}

/// The errors of a whole program: those of each instruction, in program
/// order.
pub open spec fn program_errors(hardware: HardwareSpec, instructions: Seq<Instruction>) -> Seq<
    CompileErrorView,
>
    decreases instructions.len(),
{
    if instructions.len() == 0 {
        Seq::empty()
    } else {
        program_errors(hardware, instructions.drop_last()) + instruction_errors(
            hardware,
            instructions.last(),
        )
    }
}

/// Whether every operand of `instruction` exists on `hardware` and every
/// register it writes is writable.
pub open spec fn instruction_ok(hardware: HardwareSpec, instruction: Instruction) -> bool {
    instruction_errors(hardware, instruction).len() == 0
}

/// Whether `instructions` is a program that `hardware` can run: it is not
/// empty and each instruction is bound.
pub open spec fn program_ok(hardware: HardwareSpec, instructions: Seq<Instruction>) -> bool {
    &&& instructions.len() > 0
    &&& forall|i: int| 0 <= i < instructions.len() ==> instruction_ok(hardware, #[trigger] instructions[i])
}

/// A program without errors is one whose every instruction is bound.
pub proof fn lemma_no_errors_all_ok(hardware: HardwareSpec, instructions: Seq<Instruction>)
    ensures
        program_errors(hardware, instructions).len() == 0 <==> forall|i: int|
            0 <= i < instructions.len() ==> instruction_ok(hardware, #[trigger] instructions[i]),
    decreases instructions.len(),
{
    if instructions.len() > 0 {
        let front = instructions.drop_last();
        lemma_no_errors_all_ok(hardware, front);
        assert(forall|i: int| 0 <= i < front.len() ==> front[i] == instructions[i]);
        if program_errors(hardware, instructions).len() == 0 {
            assert forall|i: int| 0 <= i < instructions.len() implies instruction_ok(
                hardware,
                #[trigger] instructions[i],
            ) by {
                if i < front.len() {
                    assert(front[i] == instructions[i]);
                }
            }
        }
        if forall|i: int|
            0 <= i < instructions.len() ==> instruction_ok(hardware, #[trigger] instructions[i]) {
            assert forall|i: int| 0 <= i < front.len() implies instruction_ok(
                hardware,
                #[trigger] front[i],
            ) by {
                assert(front[i] == instructions[i]);
            }
            assert(instruction_ok(hardware, instructions[instructions.len() - 1]));
        }
    }
}

/// A program bound to the hardware it was compiled for. Only
/// [`compile`] makes one, and nothing changes it afterwards.
#[derive(Debug)]
pub struct Program {
    instructions: Vec<Instruction>,
    hardware: HardwareSpec,
}

impl Program {
    #[verifier::type_invariant]
    spec fn bound(&self) -> bool {
        &&& self.hardware.field_errors().len() == 0
        &&& program_ok(self.hardware, self.instructions@)
    }

    /// The instructions, in program order.
    pub closed spec fn instructions(&self) -> Seq<Instruction> {
        self.instructions@
    }

    /// The hardware the program is bound to.
    pub closed spec fn hardware(&self) -> HardwareSpec {
        self.hardware
    }

    /// The hardware the program is bound to. It is valid, and the program
    /// uses nothing that it lacks.
    pub fn get_hardware(&self) -> (r: &HardwareSpec)
        ensures
            *r == self.hardware(),
            r.field_errors().len() == 0,
            program_ok(self.hardware(), self.instructions()),
    {
        proof {
            use_type_invariant(self);
        }
        &self.hardware
    }

    /// The number of instructions; never zero.
    pub fn len(&self) -> (r: usize)
        ensures
            r == self.instructions().len(),
            r > 0,
    {
        proof {
            use_type_invariant(self);
        }
        self.instructions.len()
    }

    /// The instruction at `index`, if there is one.
    pub fn get(&self, index: usize) -> (r: Option<Instruction>)
        ensures
            r == if index < self.instructions().len() {
                Some(self.instructions()[index as int])
            } else {
                None
            },
            r matches Some(instruction) ==> instruction_ok(self.hardware(), instruction),
    {
        proof {
            use_type_invariant(self);
        }
        if index < self.instructions.len() {
            Some(self.instructions[index])
        } else {
            None
        }
    }
}

/// What compiling `src` for `hardware` gives: the parsed instructions if
/// they draw no error, else every error of the program in source order.
/// A syntax error stands alone, with the rest of the source as its text.
pub open spec fn compile_spec(hardware: HardwareSpec, src: Seq<u8>) -> Result<
    Seq<Instruction>,
    Seq<CompileErrorView>,
> {
    match parse_source(src) {
        Err(error) => Err(
            seq![
                CompileErrorView::ParseError {
                    position: error.position,
                    kind: error.kind,
                    text: src.subrange(error.position as int, src.len() as int),
                },
            ],
        ),
        Ok(instructions) => {
            let errors = program_errors(hardware, instructions);
            if errors.len() == 0 {
                Ok(instructions)
            } else {
                Err(errors)
            }
        },
    }
}

/// Whether the source text that each syntax error in `errors` carries is
/// valid UTF-8.
pub open spec fn texts_are_valid(errors: Seq<CompileErrorView>) -> bool {
    forall|i: int|
        0 <= i < errors.len() ==> (#[trigger] errors[i] matches CompileErrorView::ParseError {
            text,
            ..
        } ==> valid_utf8(text))
}

/// Binding errors are never syntax errors.
pub proof fn lemma_program_errors_are_binding_errors(
    hardware: HardwareSpec,
    instructions: Seq<Instruction>,
)
    ensures
        forall|i: int|
            0 <= i < program_errors(hardware, instructions).len() ==> !(#[trigger] program_errors(
                hardware,
                instructions,
            )[i] is ParseError),
    decreases instructions.len(),
{
    if instructions.len() > 0 {
        lemma_program_errors_are_binding_errors(hardware, instructions.drop_last());
        let front = program_errors(hardware, instructions.drop_last());
        let back = instruction_errors(hardware, instructions.last());
        assert forall|j: int| 0 <= j < back.len() implies !(#[trigger] back[j] is ParseError) by {}
        assert forall|i: int| 0 <= i < (front + back).len() implies !(#[trigger] (front + back)[i]
            is ParseError) by {
            if i >= front.len() {
                assert((front + back)[i] == back[i - front.len()]);
            }
        }
    }
}

/// The errors of compiling text hold only text: the source text that a
/// syntax error carries is valid UTF-8 whenever the source is.
pub proof fn lemma_error_texts_are_valid(hardware: HardwareSpec, src: Seq<u8>)
    requires
        valid_utf8(src),
        src.len() <= usize::MAX,
    ensures
        compile_spec(hardware, src) matches Err(errors) ==> texts_are_valid(errors),
{
    lemma_syntax_error_text_is_valid_utf8(src);
    match parse_source(src) {
        Ok(instructions) => lemma_program_errors_are_binding_errors(hardware, instructions),
        Err(_) => {},
    }
}

/// Whether `result` is the outcome `expected` of compiling for `hardware`.
pub open spec fn compiled_as(
    result: Result<Program, Vec<CompileError>>,
    hardware: HardwareSpec,
    expected: Result<Seq<Instruction>, Seq<CompileErrorView>>,
) -> bool {
    match result {
        Ok(program) => {
            &&& expected == Ok::<Seq<Instruction>, Seq<CompileErrorView>>(program.instructions())
            &&& program.hardware() == hardware
        },
        Err(errors) => {
            &&& errors@.len() > 0
            &&& expected == Err::<Seq<Instruction>, Seq<CompileErrorView>>(view_errors(errors@))
        },
    }
}

fn check_register(hardware: &HardwareSpec, register: RegisterRef, errors: &mut Vec<CompileError>)
    ensures
        view_errors(final(errors)@) == view_errors(old(errors)@) + register_errors(
            *hardware,
            register,
        ),
{
    if !register.is_valid_for(hardware) {
        errors.push(CompileError::InvalidRegisterReference { name: register });
    }
    assert(view_errors(errors@) =~= view_errors(old(errors)@) + register_errors(
        *hardware,
        register,
    ));
}

fn check_dest(hardware: &HardwareSpec, register: RegisterRef, errors: &mut Vec<CompileError>)
    ensures
        view_errors(final(errors)@) == view_errors(old(errors)@) + dest_errors(*hardware, register),
{
    check_register(hardware, register, errors);
    let ghost middle = errors@;
    if !register.is_writable() {
        errors.push(CompileError::ReadOnlyWrite { name: register });
    }
    assert(view_errors(errors@) =~= view_errors(middle) + if register.writable() {
        Seq::<CompileErrorView>::empty()
    } else {
        seq![CompileErrorView::ReadOnlyWrite { name: register }]
    });
    assert(view_errors(errors@) =~= view_errors(old(errors)@) + dest_errors(*hardware, register));
}

fn check_value(hardware: &HardwareSpec, value: ValueSource, errors: &mut Vec<CompileError>)
    ensures
        view_errors(final(errors)@) == view_errors(old(errors)@) + value_errors(*hardware, value),
{
    match value {
        ValueSource::Const(_) => {
            assert(view_errors(errors@) =~= view_errors(old(errors)@) + value_errors(
                *hardware,
                value,
            ));
        },
        ValueSource::Register(register) => check_register(hardware, register, errors),
    }
}

fn check_stack(hardware: &HardwareSpec, stack: StackRef, errors: &mut Vec<CompileError>)
    ensures
        view_errors(final(errors)@) == view_errors(old(errors)@) + stack_errors(*hardware, stack),
{
    if !stack.is_valid_for(hardware) {
        errors.push(CompileError::InvalidStackReference { name: stack });
    }
    assert(view_errors(errors@) =~= view_errors(old(errors)@) + stack_errors(*hardware, stack));
}

/// Appends the errors of one instruction to `errors`.
pub fn check_instruction(
    hardware: &HardwareSpec,
    instruction: Instruction,
    errors: &mut Vec<CompileError>,
)
    ensures
        view_errors(final(errors)@) == view_errors(old(errors)@) + instruction_errors(
            *hardware,
            instruction,
        ),
{
    let ghost before = view_errors(errors@);
    match instruction {
        Instruction::Read(dest) => check_dest(hardware, dest, errors),
        Instruction::Write(value) => check_value(hardware, value, errors),
        Instruction::Assign(dest, value) | Instruction::Add(dest, value) | Instruction::Sub(
            dest,
            value,
        ) | Instruction::Mul(dest, value) => {
            check_dest(hardware, dest, errors);
            check_value(hardware, value, errors);
            assert(view_errors(errors@) =~= before + (dest_errors(*hardware, dest) + value_errors(
                *hardware,
                value,
            )));
        },
        Instruction::Push(value, stack) => {
            check_value(hardware, value, errors);
            check_stack(hardware, stack, errors);
            assert(view_errors(errors@) =~= before + (value_errors(*hardware, value)
                + stack_errors(*hardware, stack)));
        },
        Instruction::Pop(stack, dest) => {
            check_stack(hardware, stack, errors);
            check_dest(hardware, dest, errors);
            assert(view_errors(errors@) =~= before + (stack_errors(*hardware, stack) + dest_errors(
                *hardware,
                dest,
            )));
        },
    }
}

/// Checks every instruction against `hardware` and collects all errors,
/// never stopping at the first.
pub fn check_program(hardware: &HardwareSpec, instructions: &Vec<Instruction>) -> (errors: Vec<
    CompileError,
>)
    ensures
        view_errors(errors@) == program_errors(*hardware, instructions@),
{
    let mut errors: Vec<CompileError> = Vec::new();
    let mut i: usize = 0;
    assert(view_errors(errors@) =~= program_errors(*hardware, instructions@.subrange(0, 0)));
    while i < instructions.len()
        invariant
            i <= instructions@.len(),
            view_errors(errors@) == program_errors(*hardware, instructions@.subrange(0, i as int)),
        decreases instructions@.len() - i,
    {
        check_instruction(hardware, instructions[i], &mut errors);
        proof {
            let next = instructions@.subrange(0, i + 1);
            assert(next.drop_last() =~= instructions@.subrange(0, i as int));
            assert(next.last() == instructions@[i as int]);
        }
        i += 1;
    }
    assert(instructions@.subrange(0, i as int) =~= instructions@);
    errors
}

/// Compiles `source` for `hardware`: parses it, then binds every operand.
/// A source with a syntax error yields that one error. A source that
/// parses yields either a program or every binding error in it.
pub fn compile(hardware: &Valid<HardwareSpec>, source: &str) -> (r: Result<
    Program,
    Vec<CompileError>,
>)
    ensures
        compiled_as(r, hardware.value(), compile_spec(hardware.value(), source.spec_bytes())),
        r matches Err(errors) ==> texts_are_valid(view_errors(errors@)),
{
    let hw = *hardware.get();
    let src = source.as_bytes();
    let length: usize = src.len();
    proof {
        assert(src@.len() == length);
        encode_utf8_valid_utf8(source@);
        lemma_error_texts_are_valid(hw, src@);
    }
    match parse(src) {
        Err(error) => {
            let text = tail(src, error.position);
            let mut errors: Vec<CompileError> = Vec::new();
            errors.push(
                CompileError::ParseError { position: error.position, kind: error.kind, text },
            );
            assert(view_errors(errors@) =~= seq![
                CompileErrorView::ParseError {
                    position: error.position,
                    kind: error.kind,
                    text: src@.subrange(error.position as int, src@.len() as int),
                },
            ]);
            Err(errors)
        },
        Ok(instructions) => {
            let errors = check_program(&hw, &instructions);
            assert(view_errors(errors@).len() == errors@.len());
            if errors.len() == 0 {
                proof {
                    lemma_no_errors_all_ok(hw, instructions@);
                }
                Ok(Program { instructions, hardware: hw })
            } else {
                Err(errors)
            }
        },
    }
}

/// Compiling an empty source fails, whatever the hardware, with exactly
/// one error: a keyword was expected at position 0.
pub proof fn lemma_empty_source_is_one_parse_error(hardware: HardwareSpec)
    ensures
        compile_spec(hardware, Seq::<u8>::empty()) == Err::<
            Seq<Instruction>,
            Seq<CompileErrorView>,
        >(
            seq![
                CompileErrorView::ParseError {
                    position: 0,
                    kind: SyntaxErrorKind::ExpectedKeyword,
                    text: Seq::<u8>::empty(),
                },
            ],
        ),
{
    let src = Seq::<u8>::empty();
    assert(skip(src, 0, ByteClass::Space) == 0);
    assert(parse_from(src, 0, Seq::<Instruction>::empty()) == Err::<
        Seq<Instruction>,
        SyntaxError,
    >(SyntaxError { position: 0, kind: SyntaxErrorKind::ExpectedKeyword }));
    assert(src.subrange(0, 0) =~= Seq::<u8>::empty());
}

/// Compiling is a function of the hardware and the source: two runs on
/// the same pair give the same instructions for the same hardware, or
/// the same errors in the same order.
pub proof fn lemma_compile_is_deterministic(
    hardware: HardwareSpec,
    src: Seq<u8>,
    first: Result<Program, Vec<CompileError>>,
    second: Result<Program, Vec<CompileError>>,
)
    requires
        compiled_as(first, hardware, compile_spec(hardware, src)),
        compiled_as(second, hardware, compile_spec(hardware, src)),
    ensures
        match (first, second) {
            (Ok(p), Ok(q)) => p.instructions() == q.instructions() && p.hardware() == q.hardware(),
            (Err(e), Err(f)) => view_errors(e@) == view_errors(f@),
            _ => false,
        },
{
}

/// A compile never fails with an empty list, and never succeeds on a
/// program that draws an error.
pub proof fn lemma_compile_fails_iff_errors(hardware: HardwareSpec, src: Seq<u8>)
    ensures
        match compile_spec(hardware, src) {
            Ok(instructions) => parse_source(src) == Ok::<Seq<Instruction>, SyntaxError>(
                instructions,
            ) && program_errors(hardware, instructions).len() == 0,
            Err(errors) => errors.len() > 0,
        },
{
}

} // verus!
