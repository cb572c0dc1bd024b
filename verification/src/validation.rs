//! Hardware and program descriptions, and the validation that guards them.

use vstd::prelude::*;

verus! {

/// The fixed-width integer that every register, stack slot and queue holds.
pub type LangValue = i32;

/// Largest number of user registers a machine may have.
pub const MAX_REGISTERS: usize = 16;

/// Largest number of stacks a machine may have.
pub const MAX_STACKS: usize = 16;

/// Largest capacity a single stack may be given.
pub const MAX_STACK_LENGTH: usize = 256;

/// Largest number of values in a program's input or expected output.
pub const MAX_QUEUE_LENGTH: usize = 256;

/// The capacity of a machine: how many registers and stacks a program may
/// use, and how deep each stack may grow.
#[derive(Clone, Copy, Debug, PartialEq, Eq, Structural)]
pub struct HardwareSpec {
    pub num_registers: usize,
    pub num_stacks: usize,
    pub max_stack_length: usize,
}

/// A puzzle instance: the values fed to a program and the values it has to
/// produce for the run to count as a success.
#[derive(Clone, Debug)]
pub struct ProgramSpec {
    pub input: Vec<LangValue>,
    pub expected_output: Vec<LangValue>,
}

/// A field of a description that is outside its allowed range.
#[derive(Clone, Copy, Debug, PartialEq, Eq, Structural)]
pub enum InvalidField {
    /// `num_registers` is zero or above [`MAX_REGISTERS`].
    NumRegisters,
    /// `num_stacks` is above [`MAX_STACKS`].
    NumStacks,
    /// `max_stack_length` is above [`MAX_STACK_LENGTH`].
    MaxStackLength,
    /// `input` holds more than [`MAX_QUEUE_LENGTH`] values.
    Input,
    /// `expected_output` holds more than [`MAX_QUEUE_LENGTH`] values.
    ExpectedOutput,
}

/// A description with rules on its fields.
pub trait Validate: Sized {
    /// The fields that break a rule, in declaration order.
    spec fn field_errors(&self) -> Seq<InvalidField>;

    /// Checks every field and reports each one that breaks a rule.
    fn check(&self) -> (errors: Vec<InvalidField>)
        ensures
            errors@ == self.field_errors(),
    ;
}

impl Validate for HardwareSpec {
    open spec fn field_errors(&self) -> Seq<InvalidField> {
        let registers = if 1 <= self.num_registers <= MAX_REGISTERS {
            Seq::<InvalidField>::empty()
        } else {
            seq![InvalidField::NumRegisters]
        };
        let stacks = if self.num_stacks <= MAX_STACKS {
            Seq::<InvalidField>::empty()
        } else {
            seq![InvalidField::NumStacks]
        };
        let length = if self.max_stack_length <= MAX_STACK_LENGTH {
            Seq::<InvalidField>::empty()
        } else {
            seq![InvalidField::MaxStackLength]
        };
        registers + stacks + length
    }

    fn check(&self) -> (errors: Vec<InvalidField>) {
        let mut errors: Vec<InvalidField> = Vec::new();
        if self.num_registers < 1 || self.num_registers > MAX_REGISTERS {
            errors.push(InvalidField::NumRegisters);
        }
        if self.num_stacks > MAX_STACKS {
            errors.push(InvalidField::NumStacks);
        }
        if self.max_stack_length > MAX_STACK_LENGTH {
            errors.push(InvalidField::MaxStackLength);
        }
        assert(errors@ =~= self.field_errors());
        errors
    }
}

impl Validate for ProgramSpec {
    open spec fn field_errors(&self) -> Seq<InvalidField> {
        let input = if self.input@.len() <= MAX_QUEUE_LENGTH {
            Seq::<InvalidField>::empty()
        } else {
            seq![InvalidField::Input]
        };
        let output = if self.expected_output@.len() <= MAX_QUEUE_LENGTH {
            Seq::<InvalidField>::empty()
        } else {
            seq![InvalidField::ExpectedOutput]
        };
        input + output
    }

    fn check(&self) -> (errors: Vec<InvalidField>) {
        let mut errors: Vec<InvalidField> = Vec::new();
        if self.input.len() > MAX_QUEUE_LENGTH {
            errors.push(InvalidField::Input);
        }
        if self.expected_output.len() > MAX_QUEUE_LENGTH {
            errors.push(InvalidField::ExpectedOutput);
        }
        assert(errors@ =~= self.field_errors());
        errors
    }
}

/// A value that has passed its validation rules. The only way to make one
/// is [`Valid::validate`], so holding one proves the rules were checked.
#[derive(Debug)]
pub struct Valid<T: Validate> {
    inner: T,
}

impl<T: Validate> Valid<T> {
    #[verifier::type_invariant]
    spec fn sound(&self) -> bool {
        self.inner.field_errors().len() == 0
    }

    /// The value that was validated.
    pub closed spec fn value(&self) -> T {
        self.inner
    }

    /// Wraps `value` if every field obeys its rule, and reports the
    /// offending fields otherwise.
    pub fn validate(value: T) -> (r: Result<Self, Vec<InvalidField>>)
        ensures
            match r {
                Ok(valid) => value.field_errors().len() == 0 && valid.value() == value,
                Err(errors) => errors@.len() > 0 && errors@ == value.field_errors(),
            },
    {
        let errors = value.check();
        if errors.len() == 0 {
            Ok(Valid { inner: value })
        } else {
            Err(errors)
        }
    }

    /// Read access to the validated value. It obeys every rule, so
    /// validating it again succeeds.
    pub fn get(&self) -> (r: &T)
        ensures
            *r == self.value(),
            r.field_errors().len() == 0,
    {
        proof {
            use_type_invariant(self);
        }
        &self.inner
    }
}

} // verus!
