//! The instructions of the language and the operands they name.

use vstd::prelude::*;
use crate::validation::{HardwareSpec, LangValue};

verus! {

/// A register as a program names it.
#[derive(Clone, Copy, Debug, PartialEq, Eq, Structural)]
pub enum RegisterRef {
    /// `RLI`: the number of values still waiting in the input queue.
    /// Read-only.
    InputLength,
    /// `RS<n>`: the current length of stack `n`. Read-only.
    StackLength(usize),
    /// `RX<n>`: general-purpose register `n`. Read-write.
    User(usize),
}

impl RegisterRef {
    /// Whether the hardware has this register.
    pub open spec fn exists_on(self, hardware: HardwareSpec) -> bool {
        match self {
            RegisterRef::InputLength => true,
            RegisterRef::StackLength(stack) => stack < hardware.num_stacks,
            RegisterRef::User(index) => index < hardware.num_registers,
        }
    }

    /// Whether a program may write to this register.
    pub open spec fn writable(self) -> bool {
        self is User
    }

    /// Whether the hardware has this register.
    pub fn is_valid_for(&self, hardware: &HardwareSpec) -> (r: bool)
        ensures
            r == self.exists_on(*hardware),
    {
        match self {
            RegisterRef::InputLength => true,
            RegisterRef::StackLength(stack) => *stack < hardware.num_stacks,
            RegisterRef::User(index) => *index < hardware.num_registers,
        }
    }

    /// Whether a program may write to this register.
    pub fn is_writable(&self) -> (r: bool)
        ensures
            r == self.writable(),
    {
        match self {
            RegisterRef::User(_) => true,
            _ => false,
        }
    }
}

/// A stack as a program names it: `S<n>`.
#[derive(Clone, Copy, Debug, PartialEq, Eq, Structural)]
pub struct StackRef {
    pub index: usize,
}

impl StackRef {
    /// Whether the hardware has this stack.
    pub open spec fn exists_on(self, hardware: HardwareSpec) -> bool {
        self.index < hardware.num_stacks
    }

    /// Whether the hardware has this stack.
    pub fn is_valid_for(&self, hardware: &HardwareSpec) -> (r: bool)
        ensures
            r == self.exists_on(*hardware),
    {
        self.index < hardware.num_stacks
    }
}

/// Where an instruction takes a value from.
#[derive(Clone, Copy, Debug, PartialEq, Eq, Structural)]
pub enum ValueSource {
    /// A literal written in the source.
    Const(LangValue),
    /// The current value of a register.
    Register(RegisterRef),
}

/// One instruction of a program.
#[derive(Clone, Copy, Debug, PartialEq, Eq, Structural)]
pub enum Instruction {
    /// `READ dest`: moves the next input value into `dest`.
    Read(RegisterRef),
    /// `WRITE src`: appends the value of `src` to the output.
    Write(ValueSource),
    /// `SET dest src`: stores the value of `src` in `dest`.
    Assign(RegisterRef, ValueSource),
    /// `ADD dest src`: adds the value of `src` to `dest`.
    Add(RegisterRef, ValueSource),
    /// `SUB dest src`: subtracts the value of `src` from `dest`.
    Sub(RegisterRef, ValueSource),
    /// `MUL dest src`: multiplies `dest` by the value of `src`.
    Mul(RegisterRef, ValueSource),
    /// `PUSH src stack`: pushes the value of `src` onto `stack`.
    Push(ValueSource, StackRef),
    /// `POP stack dest`: moves the top of `stack` into `dest`.
    Pop(StackRef, RegisterRef),
}

} // verus!
