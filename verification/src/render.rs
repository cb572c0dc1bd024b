//! The text of every error, as a user reads it.

use vstd::prelude::*;
use vstd::string::StringExecFns;
use vstd::utf8::{decode_utf8, valid_utf8};
use crate::ast::{RegisterRef, StackRef};
use crate::error::{CompileError, CompileErrorView, RuntimeError, SyntaxErrorKind};

verus! {

/// The text that a lossy UTF-8 decoding of `bytes` gives.
pub uninterp spec fn lossy_text(bytes: Seq<u8>) -> Seq<char>;

/// Decodes `bytes` as UTF-8 with `String::from_utf8_lossy`, which never
/// fails: it replaces what is not valid UTF-8. The result depends on the
/// bytes alone, and for valid UTF-8 it is the text that the bytes encode;
/// nothing more is claimed of it.
#[verifier::external_body]
fn decode_lossy(bytes: &Vec<u8>) -> (text: String)
    ensures
        text@ == lossy_text(bytes@),
        valid_utf8(bytes@) ==> text@ == decode_utf8(bytes@),
{
    String::from_utf8_lossy(bytes).into_owned()
}

/// The text that `bytes` stand for: what they encode if they are valid
/// UTF-8, as the source text of a syntax error always is, and their lossy
/// decoding if not.
pub open spec fn text_of(bytes: Seq<u8>) -> Seq<char> {
    if valid_utf8(bytes) {
        decode_utf8(bytes)
    } else {
        lossy_text(bytes)
    }
}

/// How a single decimal digit is written.
pub open spec fn digit_text(digit: nat) -> Seq<char> {
    if digit == 0 {
        "0"@
    } else if digit == 1 {
        "1"@
    } else if digit == 2 {
        "2"@
    } else if digit == 3 {
        "3"@
    } else if digit == 4 {
        "4"@
    } else if digit == 5 {
        "5"@
    } else if digit == 6 {
        "6"@
    } else if digit == 7 {
        "7"@
    } else if digit == 8 {
        "8"@
    } else {
        "9"@
    }
}

/// How a number is written in decimal, without leading zeros.
pub open spec fn decimal_text(n: nat) -> Seq<char>
    decreases n,
{
    if n < 10 {
        digit_text(n)
    } else {
        decimal_text(n / 10) + digit_text(n % 10)
    }
}

/// Appends `n` in decimal to `out`.
pub fn append_decimal(out: &mut String, n: usize)
    ensures
        final(out)@ == old(out)@ + decimal_text(n as nat),
    decreases n,
{
    if n >= 10 {
        append_decimal(out, n / 10);
    }
    let digit: usize = n % 10;
    let text = if digit == 0 {
        "0"
    } else if digit == 1 {
        "1"
    } else if digit == 2 {
        "2"
    } else if digit == 3 {
        "3"
    } else if digit == 4 {
        "4"
    } else if digit == 5 {
        "5"
    } else if digit == 6 {
        "6"
    } else if digit == 7 {
        "7"
    } else if digit == 8 {
        "8"
    } else {
        "9"
    };
    out.append(text);
    assert(out@ =~= old(out)@ + decimal_text(n as nat));
}

/// The name of a register as the source writes it.
pub open spec fn register_name(register: RegisterRef) -> Seq<char> {
    match register {
        RegisterRef::InputLength => "RLI"@,
        RegisterRef::StackLength(stack) => "RS"@ + decimal_text(stack as nat),
        RegisterRef::User(index) => "RX"@ + decimal_text(index as nat),
    }
}

/// The name of a stack as the source writes it.
pub open spec fn stack_name(stack: StackRef) -> Seq<char> {
    "S"@ + decimal_text(stack.index as nat)
}

/// Appends the name of `register` to `out`.
pub fn append_register_name(out: &mut String, register: RegisterRef)
    ensures
        final(out)@ == old(out)@ + register_name(register),
{
    match register {
        RegisterRef::InputLength => {
            out.append("RLI");
        },
        RegisterRef::StackLength(stack) => {
            out.append("RS");
            append_decimal(out, stack);
        },
        RegisterRef::User(index) => {
            out.append("RX");
            append_decimal(out, index);
        },
    }
    assert(out@ =~= old(out)@ + register_name(register));
}

/// Appends the name of `stack` to `out`.
pub fn append_stack_name(out: &mut String, stack: StackRef)
    ensures
        final(out)@ == old(out)@ + stack_name(stack),
{
    out.append("S");
    append_decimal(out, stack.index);
    assert(out@ =~= old(out)@ + stack_name(stack));
}

/// What a syntax error says: what was expected, then the source text
/// from the place of the error on.
pub open spec fn syntax_message(kind: SyntaxErrorKind, position: usize, text: Seq<char>) -> Seq<
    char,
> {
    match kind {
        SyntaxErrorKind::ExpectedKeyword => decimal_text(position as nat)
            + ": in Alpha, got empty input\n\n"@,
        SyntaxErrorKind::InvalidKeyword => "Invalid keyword: "@ + text,
        SyntaxErrorKind::InvalidRegister => "Invalid register: "@ + text,
        SyntaxErrorKind::InvalidStack => "Invalid stack: "@ + text,
        SyntaxErrorKind::InvalidValue => "Invalid value: "@ + text,
    }
}

/// Appends what a syntax error says to `out`. `text` is the source from
/// the place of the error on, decoded.
pub fn append_syntax_message(out: &mut String, kind: SyntaxErrorKind, position: usize, text: &str)
    ensures
        final(out)@ == old(out)@ + syntax_message(kind, position, text@),
{
    match kind {
        SyntaxErrorKind::ExpectedKeyword => {
            append_decimal(out, position);
            out.append(": in Alpha, got empty input\n\n");
        },
        SyntaxErrorKind::InvalidKeyword => {
            out.append("Invalid keyword: ");
            out.append(text);
        },
        SyntaxErrorKind::InvalidRegister => {
            out.append("Invalid register: ");
            out.append(text);
        },
        SyntaxErrorKind::InvalidStack => {
            out.append("Invalid stack: ");
            out.append(text);
        },
        SyntaxErrorKind::InvalidValue => {
            out.append("Invalid value: ");
            out.append(text);
        },
    }
    assert(out@ =~= old(out)@ + syntax_message(kind, position, text@));
}

/// What a compile error says.
pub open spec fn compile_error_message(error: CompileErrorView) -> Seq<char> {
    match error {
        CompileErrorView::ParseError { position, kind, text } => "Parse error: "@ + syntax_message(
            kind,
            position,
            text_of(text),
        ),
        CompileErrorView::InvalidRegisterReference { name } => "Invalid reference to register "@
            + register_name(name),
        CompileErrorView::InvalidStackReference { name } => "Invalid reference to stack "@
            + stack_name(name),
        CompileErrorView::ReadOnlyWrite { name } => "Cannot write to read-only register "@
            + register_name(name),
    }
}

/// What a list of compile errors says: one message per error, in order,
/// with a line feed between two messages.
pub open spec fn compile_errors_message(errors: Seq<CompileErrorView>) -> Seq<char>
    decreases errors.len(),
{
    if errors.len() == 0 {
        Seq::empty()
    } else if errors.len() == 1 {
        compile_error_message(errors[0])
    } else {
        compile_errors_message(errors.drop_last()) + "\n"@ + compile_error_message(errors.last())
    }
}

/// What a runtime error says.
pub open spec fn runtime_error_message(error: RuntimeError) -> Seq<char> {
    match error {
        RuntimeError::InputExhausted => "Read attempted while input is empty"@,
        RuntimeError::StackOverflow { stack } => "Overflow on stack "@ + stack_name(stack),
        RuntimeError::StackUnderflow { stack } => "Cannot pop from empty stack "@ + stack_name(
            stack,
        ),
        RuntimeError::Terminated => "Program has already terminated"@,
    }
}

impl CompileError {
    /// Appends what the error says to `out`.
    pub fn append_message(&self, out: &mut String)
        ensures
            final(out)@ == old(out)@ + compile_error_message(self@),
    {
        match self {
            CompileError::ParseError { position, kind, text } => {
                let decoded = decode_lossy(text);
                out.append("Parse error: ");
                append_syntax_message(out, *kind, *position, decoded.as_str());
            },
            CompileError::InvalidRegisterReference { name } => {
                out.append("Invalid reference to register ");
                append_register_name(out, *name);
            },
            CompileError::InvalidStackReference { name } => {
                out.append("Invalid reference to stack ");
                append_stack_name(out, *name);
            },
            CompileError::ReadOnlyWrite { name } => {
                out.append("Cannot write to read-only register ");
                append_register_name(out, *name);
            },
        }
        assert(out@ =~= old(out)@ + compile_error_message(self@));
    }

    /// What the error says.
    pub fn message(&self) -> (text: String)
        ensures
            text@ == compile_error_message(self@),
    {
        let mut text = String::new();
        self.append_message(&mut text);
        assert(text@ =~= compile_error_message(self@));
        text
    }
}

impl RuntimeError {
    /// What the error says.
    pub fn message(&self) -> (text: String)
        ensures
            text@ == runtime_error_message(*self),
    {
        let mut text = String::new();
        match self {
            RuntimeError::InputExhausted => {
                text.append("Read attempted while input is empty");
            },
            RuntimeError::StackOverflow { stack } => {
                text.append("Overflow on stack ");
                append_stack_name(&mut text, *stack);
            },
            RuntimeError::StackUnderflow { stack } => {
                text.append("Cannot pop from empty stack ");
                append_stack_name(&mut text, *stack);
            },
            RuntimeError::Terminated => {
                text.append("Program has already terminated");
            },
        }
        assert(text@ =~= runtime_error_message(*self));
        text
    }
}

/// What a list of compile errors says: one message per line, in order.
pub fn format_errors(errors: &Vec<CompileError>) -> (text: String)
    ensures
        text@ == compile_errors_message(crate::error::view_errors(errors@)),
{
    let mut text = String::new();
    let mut i: usize = 0;
    let ghost views = crate::error::view_errors(errors@);
    while i < errors.len()
        invariant
            i <= errors@.len(),
            views == crate::error::view_errors(errors@),
            text@ == compile_errors_message(views.subrange(0, i as int)),
        decreases errors@.len() - i,
    {
        if i > 0 {
            text.append("\n");
        }
        errors[i].append_message(&mut text);
        proof {
            let next = views.subrange(0, i + 1);
            assert(next.drop_last() =~= views.subrange(0, i as int));
            assert(next.last() == errors@[i as int]@);
            assert(text@ =~= compile_errors_message(next));
        }
        i += 1;
    }
    assert(views.subrange(0, i as int) =~= views);
    text
}

} // verus!
