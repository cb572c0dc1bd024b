//! The grammar of the language: one instruction per line, a keyword
//! followed by its operands, all separated by spaces or tabs.

use vstd::prelude::*;
use vstd::utf8::valid_utf8;
use crate::ast::{Instruction, RegisterRef, StackRef, ValueSource};
use crate::error::{SyntaxError, SyntaxErrorKind};
use crate::lexer::{
    at_word_edge, has_word3, has_word4, has_word5, is_line_end, lemma_skip_bounds,
    lemma_skip_stops, lemma_tail_is_valid_utf8, number_at, read_number, skip, skip_class,
    word_is3, word_is4, word_is5, ByteClass,
};

verus! {

/// The largest index that a register or stack name may carry.
pub const MAX_INDEX: u32 = 4294967295;

/// The keywords of the language.
#[derive(Clone, Copy, Debug, PartialEq, Eq, Structural)]
pub enum Opcode {
    Read,
    Write,
    Assign,
    Add,
    Sub,
    Mul,
    Push,
    Pop,
}

/// The keyword written from `start` up to `end`, if it is one.
pub open spec fn opcode_at(src: Seq<u8>, start: int, end: int) -> Option<Opcode> {
    if word_is4(src, start, end, 82, 69, 65, 68) {
        Some(Opcode::Read)
    } else if word_is5(src, start, end, 87, 82, 73, 84, 69) {
        Some(Opcode::Write)
    } else if word_is3(src, start, end, 83, 69, 84) {
        Some(Opcode::Assign)
    } else if word_is3(src, start, end, 65, 68, 68) {
        Some(Opcode::Add)
    } else if word_is3(src, start, end, 83, 85, 66) {
        Some(Opcode::Sub)
    } else if word_is3(src, start, end, 77, 85, 76) {
        Some(Opcode::Mul)
    } else if word_is4(src, start, end, 80, 85, 83, 72) {
        Some(Opcode::Push)
    } else if word_is3(src, start, end, 80, 79, 80) {
        Some(Opcode::Pop)
    } else {
        None
    }
}

/// Reads the keyword written from `start` up to `end`.
pub fn read_opcode(src: &[u8], start: usize, end: usize) -> (r: Option<Opcode>)
    requires
        start <= end <= src@.len(),
    ensures
        r == opcode_at(src@, start as int, end as int),
{
    if has_word4(src, start, end, 82, 69, 65, 68) {
        Some(Opcode::Read)
    } else if has_word5(src, start, end, 87, 82, 73, 84, 69) {
        Some(Opcode::Write)
    } else if has_word3(src, start, end, 83, 69, 84) {
        Some(Opcode::Assign)
    } else if has_word3(src, start, end, 65, 68, 68) {
        Some(Opcode::Add)
    } else if has_word3(src, start, end, 83, 85, 66) {
        Some(Opcode::Sub)
    } else if has_word3(src, start, end, 77, 85, 76) {
        Some(Opcode::Mul)
    } else if has_word4(src, start, end, 80, 85, 83, 72) {
        Some(Opcode::Push)
    } else if has_word3(src, start, end, 80, 79, 80) {
        Some(Opcode::Pop)
    } else {
        None
    }
}

/// The register named from `start` up to `end`: `RLI`, `RS` and an index,
/// or `RX` and an index.
pub open spec fn register_at(src: Seq<u8>, start: int, end: int) -> Option<RegisterRef> {
    if word_is3(src, start, end, 82, 76, 73) {
        Some(RegisterRef::InputLength)
    } else if 0 <= start && start + 2 <= end <= src.len() && src[start] == 82 && src[start + 1]
        == 83 {
        match number_at(src, start + 2, end, MAX_INDEX as nat) {
            Some(n) => Some(RegisterRef::StackLength(n as usize)),
            None => None,
        }
    } else if 0 <= start && start + 2 <= end <= src.len() && src[start] == 82 && src[start + 1]
        == 88 {
        match number_at(src, start + 2, end, MAX_INDEX as nat) {
            Some(n) => Some(RegisterRef::User(n as usize)),
            None => None,
        }
    } else {
        None
    }
}

/// Reads the register named from `start` up to `end`.
pub fn read_register(src: &[u8], start: usize, end: usize) -> (r: Option<RegisterRef>)
    requires
        start <= end <= src@.len(),
    ensures
        r == register_at(src@, start as int, end as int),
{
    if has_word3(src, start, end, 82, 76, 73) {
        Some(RegisterRef::InputLength)
    } else if end - start >= 2 && src[start] == 82 && src[start + 1] == 83 {
        match read_number(src, start + 2, end, MAX_INDEX) {
            Some(n) => Some(RegisterRef::StackLength(n as usize)),
            None => None,
        }
    } else if end - start >= 2 && src[start] == 82 && src[start + 1] == 88 {
        match read_number(src, start + 2, end, MAX_INDEX) {
            Some(n) => Some(RegisterRef::User(n as usize)),
            None => None,
        }
    } else {
        None
    }
}

/// The stack named from `start` up to `end`: `S` and an index.
pub open spec fn stack_at(src: Seq<u8>, start: int, end: int) -> Option<StackRef> {
    if 0 <= start < end <= src.len() && src[start] == 83 {
        match number_at(src, start + 1, end, MAX_INDEX as nat) {
            Some(n) => Some(StackRef { index: n as usize }),
            None => None,
        }
    } else {
        None
    }
}

/// Reads the stack named from `start` up to `end`.
pub fn read_stack(src: &[u8], start: usize, end: usize) -> (r: Option<StackRef>)
    requires
        start <= end <= src@.len(),
    ensures
        r == stack_at(src@, start as int, end as int),
{
    if start < end && src[start] == 83 {
        match read_number(src, start + 1, end, MAX_INDEX) {
            Some(n) => Some(StackRef { index: n as usize }),
            None => None,
        }
    } else {
        None
    }
}

/// The value written from `start` up to `end`: a register name (anything
/// that starts with `R` must be one), or a decimal literal with an
/// optional minus sign that fits the machine's integer.
pub open spec fn value_at(src: Seq<u8>, start: int, end: int) -> Option<ValueSource> {
    if 0 <= start < end <= src.len() && src[start] == 82 {
        match register_at(src, start, end) {
            Some(register) => Some(ValueSource::Register(register)),
            None => None,
        }
    } else if 0 <= start < end <= src.len() && src[start] == 45 {
        match number_at(src, start + 1, end, 2147483648) {
            Some(n) => Some(ValueSource::Const((-(n as int)) as i32)),
            None => None,
        }
    } else {
        match number_at(src, start, end, 2147483647) {
            Some(n) => Some(ValueSource::Const(n as i32)),
            None => None,
        }
    }
}

/// Reads the value written from `start` up to `end`.
pub fn read_value(src: &[u8], start: usize, end: usize) -> (r: Option<ValueSource>)
    requires
        start <= end <= src@.len(),
    ensures
        r == value_at(src@, start as int, end as int),
{
    if start < end && src[start] == 82 {
        match read_register(src, start, end) {
            Some(register) => Some(ValueSource::Register(register)),
            None => None,
        }
    } else if start < end && src[start] == 45 {
        match read_number(src, start + 1, end, 2147483648) {
            Some(n) => {
                let value: i64 = 0 - (n as i64);
                Some(ValueSource::Const(value as i32))
            },
            None => None,
        }
    } else {
        match read_number(src, start, end, 2147483647) {
            Some(n) => Some(ValueSource::Const(n as i32)),
            None => None,
        }
    }
}

/// A syntax error of the given kind at `position`.
pub open spec fn syntax_error(position: int, kind: SyntaxErrorKind) -> SyntaxError {
    SyntaxError { position: position as usize, kind }
}

/// The instruction that combines a register with a value.
pub open spec fn combine(opcode: Opcode, dest: RegisterRef, value: ValueSource) -> Instruction {
    match opcode {
        Opcode::Add => Instruction::Add(dest, value),
        Opcode::Sub => Instruction::Sub(dest, value),
        Opcode::Mul => Instruction::Mul(dest, value),
        _ => Instruction::Assign(dest, value),
    }
}

/// The instruction whose keyword starts at `pos`, with the position just
/// after its last operand; or the first syntax error in it. An error at an
/// operand is placed where that operand starts or should have started.
pub open spec fn instruction_at(src: Seq<u8>, pos: int) -> Result<(Instruction, int), SyntaxError> {
    let end = skip(src, pos, ByteClass::Word);
    let s1 = skip(src, end, ByteClass::Blank);
    let e1 = skip(src, s1, ByteClass::Word);
    let s2 = skip(src, e1, ByteClass::Blank);
    let e2 = skip(src, s2, ByteClass::Word);
    match opcode_at(src, pos, end) {
        None => Err(syntax_error(pos, SyntaxErrorKind::InvalidKeyword)),
        Some(Opcode::Read) => match register_at(src, s1, e1) {
            Some(dest) => Ok((Instruction::Read(dest), e1)),
            None => Err(syntax_error(s1, SyntaxErrorKind::InvalidRegister)),
        },
        Some(Opcode::Write) => match value_at(src, s1, e1) {
            Some(value) => Ok((Instruction::Write(value), e1)),
            None => Err(syntax_error(s1, SyntaxErrorKind::InvalidValue)),
        },
        Some(Opcode::Push) => match value_at(src, s1, e1) {
            Some(value) => match stack_at(src, s2, e2) {
                Some(stack) => Ok((Instruction::Push(value, stack), e2)),
                None => Err(syntax_error(s2, SyntaxErrorKind::InvalidStack)),
            },
            None => Err(syntax_error(s1, SyntaxErrorKind::InvalidValue)),
        },
        Some(Opcode::Pop) => match stack_at(src, s1, e1) {
            Some(stack) => match register_at(src, s2, e2) {
                Some(dest) => Ok((Instruction::Pop(stack, dest), e2)),
                None => Err(syntax_error(s2, SyntaxErrorKind::InvalidRegister)),
            },
            None => Err(syntax_error(s1, SyntaxErrorKind::InvalidStack)),
        },
        Some(opcode) => match register_at(src, s1, e1) {
            Some(dest) => match value_at(src, s2, e2) {
                Some(value) => Ok((combine(opcode, dest, value), e2)),
                None => Err(syntax_error(s2, SyntaxErrorKind::InvalidValue)),
            },
            None => Err(syntax_error(s1, SyntaxErrorKind::InvalidRegister)),
        },
    }
}

/// An instruction that was read ends after the place where it started,
/// inside the source.
pub proof fn lemma_instruction_advances(src: Seq<u8>, pos: int)
    requires
        0 <= pos <= src.len(),
    ensures
        instruction_at(src, pos) matches Ok((_, end)) ==> pos < end <= src.len(),
{
    let end = skip(src, pos, ByteClass::Word);
    lemma_skip_bounds(src, pos, ByteClass::Word);
    let s1 = skip(src, end, ByteClass::Blank);
    lemma_skip_bounds(src, end, ByteClass::Blank);
    let e1 = skip(src, s1, ByteClass::Word);
    lemma_skip_bounds(src, s1, ByteClass::Word);
    let s2 = skip(src, e1, ByteClass::Blank);
    lemma_skip_bounds(src, e1, ByteClass::Blank);
    lemma_skip_bounds(src, s2, ByteClass::Word);
}

/// Reads the instruction whose keyword starts at `pos`.
pub fn read_instruction(src: &[u8], pos: usize) -> (r: Result<(Instruction, usize), SyntaxError>)
    requires
        pos <= src@.len(),
    ensures
        match r {
            Ok((instruction, end)) => instruction_at(src@, pos as int) == Ok::<
                (Instruction, int),
                SyntaxError,
            >((instruction, end as int)) && pos < end <= src@.len(),
            Err(error) => instruction_at(src@, pos as int) == Err::<
                (Instruction, int),
                SyntaxError,
            >(error),
        },
{
    proof {
        lemma_instruction_advances(src@, pos as int);
    }
    let end = skip_class(src, pos, ByteClass::Word);
    let s1 = skip_class(src, end, ByteClass::Blank);
    let e1 = skip_class(src, s1, ByteClass::Word);
    let s2 = skip_class(src, e1, ByteClass::Blank);
    let e2 = skip_class(src, s2, ByteClass::Word);
    match read_opcode(src, pos, end) {
        None => Err(SyntaxError { position: pos, kind: SyntaxErrorKind::InvalidKeyword }),
        Some(Opcode::Read) => match read_register(src, s1, e1) {
            Some(dest) => Ok((Instruction::Read(dest), e1)),
            None => Err(SyntaxError { position: s1, kind: SyntaxErrorKind::InvalidRegister }),
        },
        Some(Opcode::Write) => match read_value(src, s1, e1) {
            Some(value) => Ok((Instruction::Write(value), e1)),
            None => Err(SyntaxError { position: s1, kind: SyntaxErrorKind::InvalidValue }),
        },
        Some(Opcode::Push) => match read_value(src, s1, e1) {
            Some(value) => match read_stack(src, s2, e2) {
                Some(stack) => Ok((Instruction::Push(value, stack), e2)),
                None => Err(SyntaxError { position: s2, kind: SyntaxErrorKind::InvalidStack }),
            },
            None => Err(SyntaxError { position: s1, kind: SyntaxErrorKind::InvalidValue }),
        },
        Some(Opcode::Pop) => match read_stack(src, s1, e1) {
            Some(stack) => match read_register(src, s2, e2) {
                Some(dest) => Ok((Instruction::Pop(stack, dest), e2)),
                None => Err(SyntaxError { position: s2, kind: SyntaxErrorKind::InvalidRegister }),
            },
            None => Err(SyntaxError { position: s1, kind: SyntaxErrorKind::InvalidStack }),
        },
        Some(opcode) => match read_register(src, s1, e1) {
            Some(dest) => match read_value(src, s2, e2) {
                Some(value) => {
                    let instruction = match opcode {
                        Opcode::Add => Instruction::Add(dest, value),
                        Opcode::Sub => Instruction::Sub(dest, value),
                        Opcode::Mul => Instruction::Mul(dest, value),
                        _ => Instruction::Assign(dest, value),
                    };
                    Ok((instruction, e2))
                },
                None => Err(SyntaxError { position: s2, kind: SyntaxErrorKind::InvalidValue }),
            },
            None => Err(SyntaxError { position: s1, kind: SyntaxErrorKind::InvalidRegister }),
        },
    }
}

/// Whether nothing but blanks stands between `pos` and the end of its line.
pub open spec fn line_ends_at(src: Seq<u8>, pos: int) -> bool {
    let rest = skip(src, pos, ByteClass::Blank);
    rest >= src.len() || is_line_end(src[rest])
}

/// The program that `src` spells from `pos` on, after the instructions
/// `done` that stand before `pos`.
///
/// Whitespace before an instruction is skipped. Text after an instruction
/// on its line is an invalid keyword at the place where the instruction
/// ends. A source without any instruction is an error at its end.
pub open spec fn parse_from(src: Seq<u8>, pos: int, done: Seq<Instruction>) -> Result<
    Seq<Instruction>,
    SyntaxError,
>
    decreases src.len() - pos,
    via parse_from_decreases
{
    let start = skip(src, pos, ByteClass::Space);
    if !(0 <= pos <= src.len()) || start >= src.len() {
        if done.len() == 0 {
            Err(syntax_error(start, SyntaxErrorKind::ExpectedKeyword))
        } else {
            Ok(done)
        }
    } else {
        match instruction_at(src, start) {
            Err(error) => Err(error),
            Ok((instruction, end)) => if line_ends_at(src, end) {
                parse_from(src, end, done.push(instruction))
            } else {
                Err(syntax_error(end, SyntaxErrorKind::InvalidKeyword))
            },
        }
    }
}

#[via_fn]
proof fn parse_from_decreases(src: Seq<u8>, pos: int, done: Seq<Instruction>) {
    if 0 <= pos <= src.len() {
        lemma_skip_bounds(src, pos, ByteClass::Space);
        lemma_instruction_advances(src, skip(src, pos, ByteClass::Space));
    }
}

/// An instruction that starts at the edge of a word ends at whitespace or
/// at the end of the source, and a syntax error in it is placed at the
/// edge of a word.
pub proof fn lemma_instruction_edges(src: Seq<u8>, pos: int)
    requires
        0 <= pos <= src.len(),
        at_word_edge(src, pos),
    ensures
        match instruction_at(src, pos) {
            Ok((_, end)) => pos < end <= src.len() && (end == src.len() || ByteClass::Space.holds(
                src[end],
            )),
            Err(error) => 0 <= error.position <= src.len() && (src.len() <= usize::MAX
                ==> at_word_edge(src, error.position as int)),
        },
{
    lemma_instruction_advances(src, pos);
    lemma_instruction_error_inside(src, pos);
    let end = skip(src, pos, ByteClass::Word);
    lemma_skip_bounds(src, pos, ByteClass::Word);
    lemma_skip_stops(src, pos, ByteClass::Word);
    let s1 = skip(src, end, ByteClass::Blank);
    lemma_skip_bounds(src, end, ByteClass::Blank);
    lemma_skip_stops(src, end, ByteClass::Blank);
    let e1 = skip(src, s1, ByteClass::Word);
    lemma_skip_bounds(src, s1, ByteClass::Word);
    lemma_skip_stops(src, s1, ByteClass::Word);
    let s2 = skip(src, e1, ByteClass::Blank);
    lemma_skip_bounds(src, e1, ByteClass::Blank);
    lemma_skip_stops(src, e1, ByteClass::Blank);
    let e2 = skip(src, s2, ByteClass::Word);
    lemma_skip_bounds(src, s2, ByteClass::Word);
    lemma_skip_stops(src, s2, ByteClass::Word);
    if end < s1 {
        assert(ByteClass::Blank.holds(src[s1 - 1]));
    }
    if e1 < s2 {
        assert(ByteClass::Blank.holds(src[s2 - 1]));
    }
    assert(at_word_edge(src, s1));
    assert(at_word_edge(src, s2));
}

/// Every syntax error is placed at the edge of a word: at an end of the
/// source or next to whitespace.
pub proof fn lemma_syntax_error_at_word_edge(src: Seq<u8>, pos: int, done: Seq<Instruction>)
    requires
        0 <= pos <= src.len() <= usize::MAX,
        pos == 0 || pos == src.len() || ByteClass::Space.holds(src[pos]),
    ensures
        parse_from(src, pos, done) matches Err(error) ==> at_word_edge(
            src,
            error.position as int,
        ),
    decreases src.len() - pos,
{
    let start = skip(src, pos, ByteClass::Space);
    lemma_skip_bounds(src, pos, ByteClass::Space);
    lemma_skip_stops(src, pos, ByteClass::Space);
    if start < src.len() {
        if pos < start {
            assert(ByteClass::Space.holds(src[start - 1]));
        }
        lemma_instruction_edges(src, start);
        match instruction_at(src, start) {
            Ok((instruction, end)) => {
                if line_ends_at(src, end) {
                    lemma_syntax_error_at_word_edge(src, end, done.push(instruction));
                }
            },
            Err(_) => {},
        }
    }
}

/// The source text from a syntax error on is valid UTF-8 if the source
/// is: an error never falls inside a character.
pub proof fn lemma_syntax_error_text_is_valid_utf8(src: Seq<u8>)
    requires
        valid_utf8(src),
        src.len() <= usize::MAX,
    ensures
        parse_source(src) matches Err(error) ==> valid_utf8(
            src.subrange(error.position as int, src.len() as int),
        ),
{
    lemma_syntax_error_at_word_edge(src, 0, Seq::empty());
    match parse_source(src) {
        Err(error) => lemma_tail_is_valid_utf8(src, error.position as int),
        Ok(_) => {},
    }
}

/// The instructions that `src` spells, or its first syntax error.
pub open spec fn parse_source(src: Seq<u8>) -> Result<Seq<Instruction>, SyntaxError> {
    parse_from(src, 0, Seq::empty())
}

/// Whether `result` is what the grammar says of a source.
pub open spec fn parsed_as(
    result: Result<Vec<Instruction>, SyntaxError>,
    expected: Result<Seq<Instruction>, SyntaxError>,
) -> bool {
    match result {
        Ok(instructions) => expected == Ok::<Seq<Instruction>, SyntaxError>(instructions@),
        Err(error) => expected == Err::<Seq<Instruction>, SyntaxError>(error),
    }
}

/// Parses a whole source into its instructions, stopping at the first
/// syntax error.
pub fn parse(src: &[u8]) -> (r: Result<Vec<Instruction>, SyntaxError>)
    ensures
        parsed_as(r, parse_source(src@)),
        r matches Ok(instructions) ==> instructions@.len() > 0,
        r matches Err(error) ==> error.position <= src@.len(),
{
    let mut done: Vec<Instruction> = Vec::new();
    let mut pos: usize = 0;
    loop
        invariant
            pos <= src@.len(),
            parse_source(src@) == parse_from(src@, pos as int, done@),
        decreases src@.len() - pos,
    {
        let start = skip_class(src, pos, ByteClass::Space);
        if start >= src.len() {
            if done.len() == 0 {
                return Err(SyntaxError { position: start, kind: SyntaxErrorKind::ExpectedKeyword });
            } else {
                return Ok(done);
            }
        }
        match read_instruction(src, start) {
            Err(error) => {
                proof {
                    lemma_instruction_error_inside(src@, start as int);
                }
                return Err(error);
            },
            Ok((instruction, end)) => {
                let rest = skip_class(src, end, ByteClass::Blank);
                if rest < src.len() && !(src[rest] == 10 || src[rest] == 13) {
                    return Err(
                        SyntaxError { position: end, kind: SyntaxErrorKind::InvalidKeyword },
                    );
                }
                done.push(instruction);
                pos = end;
            },
        }
    }
}

/// A syntax error in an instruction is placed inside the source.
pub proof fn lemma_instruction_error_inside(src: Seq<u8>, pos: int)
    requires
        0 <= pos <= src.len(),
    ensures
        instruction_at(src, pos) matches Err(error) ==> error.position <= src.len(),
{
    let end = skip(src, pos, ByteClass::Word);
    lemma_skip_bounds(src, pos, ByteClass::Word);
    let s1 = skip(src, end, ByteClass::Blank);
    lemma_skip_bounds(src, end, ByteClass::Blank);
    let e1 = skip(src, s1, ByteClass::Word);
    lemma_skip_bounds(src, s1, ByteClass::Word);
    lemma_skip_bounds(src, e1, ByteClass::Blank);
}

} // verus!
