//! The execution engine: a machine that runs a bound program one
//! instruction at a time.
//!
//! Arithmetic wraps around on overflow. The register `RLI` reads as the
//! number of values still waiting in the input queue, and `RS<n>` as the
//! current length of stack `n`.

use vstd::prelude::*;
use crate::ast::{Instruction, RegisterRef, ValueSource};
use crate::compiler::{instruction_ok, program_ok, Program};
use crate::error::RuntimeError;
use crate::validation::{
    HardwareSpec, LangValue, ProgramSpec, Valid, Validate, MAX_QUEUE_LENGTH, MAX_STACK_LENGTH,
};

verus! {

/// Where a machine is in its life.
#[derive(Clone, Copy, Debug, PartialEq, Eq, Structural)]
pub enum MachineStatus {
    /// Allocated; no instruction has been executed yet.
    Ready,
    /// At least one instruction has been executed and more remain.
    Running,
    /// The program ran to its end and the output is the expected one.
    HaltedSuccess,
    /// The program ran to its end and the output is not the expected one.
    HaltedFailure,
    /// An instruction failed.
    HaltedError,
}

/// The mathematical value of a machine.
pub struct MachineModel {
    pub hardware: HardwareSpec,
    pub program: Seq<Instruction>,
    pub expected_output: Seq<LangValue>,
    pub registers: Seq<LangValue>,
    pub stacks: Seq<Seq<LangValue>>,
    pub input: Seq<LangValue>,
    pub output: Seq<LangValue>,
    pub program_counter: nat,
    pub cycle_count: nat,
    pub error: Option<RuntimeError>,
}

impl MachineModel {
    /// The machine as it is right after allocation.
    pub open spec fn initial(
        hardware: HardwareSpec,
        program: Seq<Instruction>,
        input: Seq<LangValue>,
        expected_output: Seq<LangValue>,
    ) -> MachineModel {
        MachineModel {
            hardware,
            program,
            expected_output,
            registers: Seq::new(hardware.num_registers as nat, |i: int| 0i32),
            stacks: Seq::new(hardware.num_stacks as nat, |i: int| Seq::<LangValue>::empty()),
            input,
            output: Seq::empty(),
            program_counter: 0,
            cycle_count: 0,
            error: None,
        }
    }

    /// The invariant of every machine: the storage has the shape that the
    /// hardware gives it, the program is bound to that hardware, and one
    /// cycle has passed for every instruction behind the program counter.
    pub open spec fn wf(self) -> bool {
        &&& self.hardware.field_errors().len() == 0
        &&& program_ok(self.hardware, self.program)
        &&& self.registers.len() == self.hardware.num_registers
        &&& self.stacks.len() == self.hardware.num_stacks
        &&& forall|i: int|
            0 <= i < self.stacks.len() ==> (#[trigger] self.stacks[i]).len()
                <= self.hardware.max_stack_length
        &&& self.input.len() <= MAX_QUEUE_LENGTH
        &&& self.program_counter <= self.program.len()
        &&& self.program.len() <= usize::MAX
        &&& self.cycle_count == self.program_counter
    }

    /// Whether the machine has halted.
    pub open spec fn is_terminal(self) -> bool {
        self.error is Some || self.program_counter >= self.program.len()
    }

    /// Whether the machine has halted in success: the program ran to its
    /// end without an error and the output is exactly the expected one.
    pub open spec fn is_successful(self) -> bool {
        &&& self.error is None
        &&& self.program_counter >= self.program.len()
        &&& self.output == self.expected_output
    }

    /// Where the machine is in its life.
    pub open spec fn status(self) -> MachineStatus {
        if self.error is Some {
            MachineStatus::HaltedError
        } else if self.program_counter >= self.program.len() {
            if self.output == self.expected_output {
                MachineStatus::HaltedSuccess
            } else {
                MachineStatus::HaltedFailure
            }
        } else if self.cycle_count == 0 {
            MachineStatus::Ready
        } else {
            MachineStatus::Running
        }
    }

    /// What reading `register` gives.
    pub open spec fn register_value(self, register: RegisterRef) -> LangValue {
        match register {
            RegisterRef::InputLength => self.input.len() as i32,
            RegisterRef::StackLength(stack) => self.stacks[stack as int].len() as i32,
            RegisterRef::User(index) => self.registers[index as int],
        }
    }

    /// What `source` stands for.
    pub open spec fn source_value(self, source: ValueSource) -> LangValue {
        match source {
            ValueSource::Const(value) => value,
            ValueSource::Register(register) => self.register_value(register),
        }
    }

    /// The machine after `value` is written to `dest`. Only user
    /// registers take a value.
    pub open spec fn with_register(self, dest: RegisterRef, value: LangValue) -> MachineModel {
        match dest {
            RegisterRef::User(index) => MachineModel {
                registers: self.registers.update(index as int, value),
                ..self
            },
            _ => self,
        }
    }

    /// The storage after `instruction`, or why it cannot be executed.
    /// Counters are left as they are.
    pub open spec fn apply(self, instruction: Instruction) -> Result<MachineModel, RuntimeError> {
        match instruction {
            Instruction::Read(dest) => if self.input.len() == 0 {
                Err(RuntimeError::InputExhausted)
            } else {
                Ok(
                    MachineModel { input: self.input.remove(0), ..self }.with_register(
                        dest,
                        self.input[0],
                    ),
                )
            },
            Instruction::Write(source) => Ok(
                MachineModel { output: self.output.push(self.source_value(source)), ..self },
            ),
            Instruction::Assign(dest, source) => Ok(
                self.with_register(dest, self.source_value(source)),
            ),
            Instruction::Add(dest, source) => Ok(
                self.with_register(
                    dest,
                    self.register_value(dest).wrapping_add(self.source_value(source)),
                ),
            ),
            Instruction::Sub(dest, source) => Ok(
                self.with_register(
                    dest,
                    self.register_value(dest).wrapping_sub(self.source_value(source)),
                ),
            ),
            Instruction::Mul(dest, source) => Ok(
                self.with_register(
                    dest,
                    self.register_value(dest).wrapping_mul(self.source_value(source)),
                ),
            ),
            Instruction::Push(source, stack) => if self.stacks[stack.index as int].len()
                >= self.hardware.max_stack_length {
                Err(RuntimeError::StackOverflow { stack })
            } else {
                Ok(
                    MachineModel {
                        stacks: self.stacks.update(
                            stack.index as int,
                            self.stacks[stack.index as int].push(self.source_value(source)),
                        ),
                        ..self
                    },
                )
            },
            Instruction::Pop(stack, dest) => if self.stacks[stack.index as int].len() == 0 {
                Err(RuntimeError::StackUnderflow { stack })
            } else {
                Ok(
                    MachineModel {
                        stacks: self.stacks.update(
                            stack.index as int,
                            self.stacks[stack.index as int].drop_last(),
                        ),
                        ..self
                    }.with_register(dest, self.stacks[stack.index as int].last()),
                )
            },
        }
    }

    /// The machine after one step. A halted machine stays as it is. A
    /// failing instruction halts the machine with its error and changes
    /// nothing else. Any other instruction takes effect, and both counters
    /// go up by one.
    pub open spec fn step(self) -> MachineModel {
        if self.is_terminal() {
            self
        } else {
            match self.apply(self.program[self.program_counter as int]) {
                Ok(next) => MachineModel {
                    program_counter: self.program_counter + 1,
                    cycle_count: self.cycle_count + 1,
                    ..next
                },
                Err(error) => MachineModel { error: Some(error), ..self },
            }
        }
    }

    /// What one step reports: the error of the failing instruction, or
    /// [`RuntimeError::Terminated`] for a machine that has halted.
    pub open spec fn step_result(self) -> Result<(), RuntimeError> {
        if self.is_terminal() {
            Err(RuntimeError::Terminated)
        } else {
            match self.apply(self.program[self.program_counter as int]) {
                Ok(_) => Ok(()),
                Err(error) => Err(error),
            }
        }
    }

    /// How far the machine is from halting, at most.
    pub open spec fn fuel(self) -> nat {
        if self.is_terminal() {
            0
        } else {
            (self.program.len() - self.program_counter + 1) as nat
        }
    }

    /// The machine after it has stepped until it halted.
    pub open spec fn run(self) -> MachineModel
        decreases self.fuel(),
    {
        if self.is_terminal() {
            self
        } else {
            self.step().run()
        }
    }

    /// What running to the end reports: for a machine that had halted
    /// before, whether it halted in success; else the error that stopped
    /// the run, or whether the run ended in success.
    pub open spec fn run_result(self) -> Result<bool, RuntimeError> {
        if self.is_terminal() {
            Ok(self.is_successful())
        } else {
            match self.run().error {
                Some(error) => Err(error),
                None => Ok(self.run().is_successful()),
            }
        }
    }

    /// The machine after `count` steps.
    pub open spec fn after(self, count: nat) -> MachineModel
        decreases count,
    {
        if count == 0 {
            self
        } else {
            self.step().after((count - 1) as nat)
        }
    }
}

/// A step keeps the invariant.
pub proof fn lemma_step_keeps_wf(machine: MachineModel)
    requires
        machine.wf(),
    ensures
        machine.step().wf(),
{
    if !machine.is_terminal() {
        let instruction = machine.program[machine.program_counter as int];
        assert(instruction_ok(machine.hardware, instruction));
        lemma_apply_keeps_wf(machine, instruction);
    }
}

/// The effect of a bound instruction keeps the invariant.
pub proof fn lemma_apply_keeps_wf(machine: MachineModel, instruction: Instruction)
    requires
        machine.wf(),
        instruction_ok(machine.hardware, instruction),
    ensures
        machine.apply(instruction) matches Ok(next) ==> next.wf(),
{
    match machine.apply(instruction) {
        Ok(next) => {
            assert forall|i: int| 0 <= i < next.stacks.len() implies (#[trigger] next.stacks[i]).len()
                <= next.hardware.max_stack_length by {
                assert(machine.stacks[i].len() <= machine.hardware.max_stack_length);
            }
        },
        Err(_) => {},
    }
}

/// Running always ends: from any machine, stepping until the machine
/// halts reaches a halted machine, and the invariant holds there.
pub proof fn lemma_run_halts(machine: MachineModel)
    requires
        machine.wf(),
    ensures
        machine.run().is_terminal(),
        machine.run().wf(),
    decreases machine.fuel(),
{
    if !machine.is_terminal() {
        lemma_step_keeps_wf(machine);
        lemma_run_halts(machine.step());
    }
}

/// A machine that ran to the end of its program without an error is
/// successful exactly if its output is the expected output. A machine
/// that has not halted, or halted on an error, is never successful.
pub proof fn lemma_success_iff_expected_output(machine: MachineModel)
    ensures
        machine.is_terminal() && machine.error is None ==> (machine.is_successful() <==> machine.output
            == machine.expected_output),
        !machine.is_terminal() || machine.error is Some ==> !machine.is_successful(),
{
}

/// After `count` steps that all succeed, the cycle count has grown by
/// `count`; from a freshly allocated machine it is `count`.
pub proof fn lemma_cycles_count_steps(machine: MachineModel, count: nat)
    requires
        machine.wf(),
        forall|k: nat| k < count ==> (#[trigger] machine.after(k)).step_result() is Ok,
    ensures
        machine.after(count).cycle_count == machine.cycle_count + count,
        machine.after(count).wf(),
    decreases count,
{
    if count > 0 {
        assert(machine.after(0).step_result() is Ok);
        lemma_step_keeps_wf(machine);
        let next = machine.step();
        assert forall|k: nat| k < count - 1 implies (#[trigger] next.after(k)).step_result() is Ok by {
            assert(machine.after(k + 1) == next.after(k));
            assert(machine.after(k + 1).step_result() is Ok);
        }
        lemma_cycles_count_steps(next, (count - 1) as nat);
    }
}

/// A halted machine never moves again: every further step fails with
/// [`RuntimeError::Terminated`] and leaves the machine as it is.
pub proof fn lemma_halted_stays_halted(machine: MachineModel, count: nat)
    requires
        machine.is_terminal(),
    ensures
        machine.step_result() == Err::<(), RuntimeError>(RuntimeError::Terminated),
        machine.after(count) == machine,
    decreases count,
{
    if count > 0 {
        lemma_halted_stays_halted(machine, (count - 1) as nat);
    }
}

/// The values of a bank of stacks, stack by stack.
pub open spec fn stacks_view(stacks: Seq<Vec<LangValue>>) -> Seq<Seq<LangValue>> {
    Seq::new(stacks.len(), |i: int| stacks[i]@)
}

/// A copy of `values`.
pub fn copy_values(values: &Vec<LangValue>) -> (copy: Vec<LangValue>)
    ensures
        copy@ == values@,
{
    let mut copy: Vec<LangValue> = Vec::new();
    let mut i: usize = 0;
    while i < values.len()
        invariant
            i <= values@.len(),
            copy@ == values@.subrange(0, i as int),
        decreases values@.len() - i,
    {
        copy.push(values[i]);
        proof {
            assert(copy@ =~= values@.subrange(0, i + 1));
        }
        i += 1;
    }
    proof {
        assert(copy@ =~= values@);
    }
    copy
}

/// Whether two sequences hold the same values in the same order.
pub fn same_values(left: &Vec<LangValue>, right: &Vec<LangValue>) -> (r: bool)
    ensures
        r == (left@ == right@),
{
    if left.len() != right.len() {
        return false;
    }
    let mut i: usize = 0;
    while i < left.len()
        invariant
            i <= left@.len(),
            left@.len() == right@.len(),
            left@.subrange(0, i as int) == right@.subrange(0, i as int),
        decreases left@.len() - i,
    {
        if left[i] != right[i] {
            return false;
        }
        proof {
            assert(left@.subrange(0, i + 1) =~= left@.subrange(0, i as int).push(left@[i as int]));
            assert(right@.subrange(0, i + 1) =~= right@.subrange(0, i as int).push(
                right@[i as int],
            ));
        }
        i += 1;
    }
    proof {
        assert(left@ =~= left@.subrange(0, i as int));
        assert(right@ =~= right@.subrange(0, i as int));
    }
    true
}

/// What an observer sees of a machine.
#[derive(Debug)]
pub struct MachineState {
    /// The user registers, by index.
    pub registers: Vec<LangValue>,
    /// The stacks, by index, each from bottom to top.
    pub stacks: Vec<Vec<LangValue>>,
    /// The input that has not been read yet, next value first.
    pub input: Vec<LangValue>,
    /// The output written so far, oldest value first.
    pub output: Vec<LangValue>,
    /// The index of the next instruction.
    pub program_counter: usize,
    /// The number of instructions executed.
    pub cycle_count: usize,
}

/// A machine: a bound program, the puzzle it runs against, and the state
/// that execution changes.
#[derive(Debug)]
pub struct Machine {
    program: Program,
    expected_output: Vec<LangValue>,
    state: MachineState,
    error: Option<RuntimeError>,
}

impl View for Machine {
    type V = MachineModel;

    closed spec fn view(&self) -> MachineModel {
        MachineModel {
            hardware: self.program.hardware(),
            program: self.program.instructions(),
            expected_output: self.expected_output@,
            registers: self.state.registers@,
            stacks: stacks_view(self.state.stacks@),
            input: self.state.input@,
            output: self.state.output@,
            program_counter: self.state.program_counter as nat,
            cycle_count: self.state.cycle_count as nat,
            error: self.error,
        }
    }
}

impl Machine {
    /// The invariant that allocation establishes and every step keeps.
    pub open spec fn wf(&self) -> bool {
        self@.wf()
    }

    /// Makes a machine for `program` and `puzzle`: registers at
    /// zero, stacks empty, the puzzle's input waiting, nothing written,
    /// both counters at zero.
    pub fn allocate(program: Program, puzzle: &Valid<ProgramSpec>) -> (machine: Machine)
        ensures
            machine.wf(),
            machine@ == MachineModel::initial(
                program.hardware(),
                program.instructions(),
                puzzle.value().input@,
                puzzle.value().expected_output@,
            ),
    {
        let hardware = *program.get_hardware();
        let length = program.len();
        let values = puzzle.get();
        let mut registers: Vec<LangValue> = Vec::new();
        while registers.len() < hardware.num_registers
            invariant
                registers@.len() <= hardware.num_registers,
                forall|i: int| 0 <= i < registers@.len() ==> registers@[i] == 0,
            decreases hardware.num_registers - registers@.len(),
        {
            registers.push(0);
        }
        let mut stacks: Vec<Vec<LangValue>> = Vec::new();
        while stacks.len() < hardware.num_stacks
            invariant
                stacks@.len() <= hardware.num_stacks,
                forall|i: int| 0 <= i < stacks@.len() ==> (#[trigger] stacks@[i])@.len() == 0,
            decreases hardware.num_stacks - stacks@.len(),
        {
            stacks.push(Vec::new());
        }
        let machine = Machine {
            program,
            expected_output: copy_values(&values.expected_output),
            state: MachineState {
                registers,
                stacks,
                input: copy_values(&values.input),
                output: Vec::new(),
                program_counter: 0,
                cycle_count: 0,
            },
            error: None,
        };
        proof {
            let model = MachineModel::initial(
                program.hardware(),
                program.instructions(),
                puzzle.value().input@,
                puzzle.value().expected_output@,
            );
            assert(machine@.registers =~= model.registers);
            assert(machine@.stacks =~~= model.stacks);
            assert(machine@.output =~= model.output);
        }
        machine
    }

    /// Whether the machine has halted.
    pub fn is_complete(&self) -> (r: bool)
        ensures
            r == self@.is_terminal(),
    {
        self.error.is_some() || self.state.program_counter >= self.program.len()
    }

    /// Whether the machine has halted in success.
    pub fn is_successful(&self) -> (r: bool)
        ensures
            r == self@.is_successful(),
    {
        self.error.is_none() && self.state.program_counter >= self.program.len() && same_values(
            &self.state.output,
            &self.expected_output,
        )
    }

    /// Where the machine is in its life.
    pub fn status(&self) -> (r: MachineStatus)
        ensures
            r == self@.status(),
    {
        if self.error.is_some() {
            MachineStatus::HaltedError
        } else if self.state.program_counter >= self.program.len() {
            if same_values(&self.state.output, &self.expected_output) {
                MachineStatus::HaltedSuccess
            } else {
                MachineStatus::HaltedFailure
            }
        } else if self.state.cycle_count == 0 {
            MachineStatus::Ready
        } else {
            MachineStatus::Running
        }
    }

    /// The error that halted the machine, if one did.
    pub fn error(&self) -> (r: Option<RuntimeError>)
        ensures
            r == self@.error,
    {
        self.error
    }

    /// The user registers, by index.
    pub fn registers(&self) -> (r: &Vec<LangValue>)
        ensures
            r@ == self@.registers,
    {
        &self.state.registers
    }

    /// The stacks, by index, each from bottom to top.
    pub fn stacks(&self) -> (r: &Vec<Vec<LangValue>>)
        ensures
            stacks_view(r@) == self@.stacks,
    {
        &self.state.stacks
    }

    /// The input that has not been read yet, next value first.
    pub fn input(&self) -> (r: &Vec<LangValue>)
        ensures
            r@ == self@.input,
    {
        &self.state.input
    }

    /// The output written so far, oldest value first.
    pub fn output(&self) -> (r: &Vec<LangValue>)
        ensures
            r@ == self@.output,
    {
        &self.state.output
    }

    /// The number of instructions executed.
    pub fn cycle_count(&self) -> (r: usize)
        ensures
            r == self@.cycle_count,
    {
        self.state.cycle_count
    }

    /// The index of the next instruction.
    pub fn program_counter(&self) -> (r: usize)
        ensures
            r == self@.program_counter,
    {
        self.state.program_counter
    }

    /// The state, for an observer to read.
    pub fn get_state(&self) -> (r: &MachineState)
        ensures
            r.registers@ == self@.registers,
            stacks_view(r.stacks@) == self@.stacks,
            r.input@ == self@.input,
            r.output@ == self@.output,
            r.program_counter == self@.program_counter,
            r.cycle_count == self@.cycle_count,
    {
        &self.state
    }

    /// Reads `register`.
    pub fn register_value(&self, register: RegisterRef) -> (r: LangValue)
        requires
            self.wf(),
            register.exists_on(self@.hardware),
        ensures
            r == self@.register_value(register),
    {
        match register {
            RegisterRef::InputLength => self.state.input.len() as i32,
            RegisterRef::StackLength(stack) => {
                assert(self@.stacks[stack as int].len() <= MAX_STACK_LENGTH);
                self.state.stacks[stack].len() as i32
            },
            RegisterRef::User(index) => self.state.registers[index],
        }
    }

    /// Evaluates `source`.
    pub fn source_value(&self, source: ValueSource) -> (r: LangValue)
        requires
            self.wf(),
            source matches ValueSource::Register(register) ==> register.exists_on(self@.hardware),
        ensures
            r == self@.source_value(source),
    {
        match source {
            ValueSource::Const(value) => value,
            ValueSource::Register(register) => self.register_value(register),
        }
    }

    fn store(&mut self, dest: RegisterRef, value: LangValue)
        requires
            old(self).wf(),
            dest.exists_on(old(self)@.hardware),
            dest.writable(),
        ensures
            final(self).wf(),
            final(self)@ == old(self)@.with_register(dest, value),
    {
        match dest {
            RegisterRef::User(index) => {
                self.state.registers.set(index, value);
                assert(self@ =~= old(self)@.with_register(dest, value));
            },
            _ => {},
        }
    }

    fn apply(&mut self, instruction: Instruction) -> (r: Result<(), RuntimeError>)
        requires
            old(self).wf(),
            instruction_ok(old(self)@.hardware, instruction),
        ensures
            final(self).wf(),
            match r {
                Ok(()) => old(self)@.apply(instruction) == Ok::<MachineModel, RuntimeError>(
                    final(self)@,
                ),
                Err(error) => old(self)@.apply(instruction) == Err::<MachineModel, RuntimeError>(
                    error,
                ) && final(self)@ == old(self)@,
            },
    {
        proof {
            lemma_apply_keeps_wf(self@, instruction);
        }
        match instruction {
            Instruction::Read(dest) => {
                if self.state.input.len() == 0 {
                    return Err(RuntimeError::InputExhausted);
                }
                let value = self.state.input.remove(0);
                assert(self@ =~= MachineModel { input: old(self)@.input.remove(0), ..old(self)@ });
                self.store(dest, value);
                Ok(())
            },
            Instruction::Write(source) => {
                let value = self.source_value(source);
                self.state.output.push(value);
                assert(self@ =~= old(self)@.apply(instruction).unwrap());
                Ok(())
            },
            Instruction::Assign(dest, source) => {
                let value = self.source_value(source);
                self.store(dest, value);
                Ok(())
            },
            Instruction::Add(dest, source) => {
                let value = self.register_value(dest).wrapping_add(self.source_value(source));
                self.store(dest, value);
                Ok(())
            },
            Instruction::Sub(dest, source) => {
                let value = self.register_value(dest).wrapping_sub(self.source_value(source));
                self.store(dest, value);
                Ok(())
            },
            Instruction::Mul(dest, source) => {
                let value = self.register_value(dest).wrapping_mul(self.source_value(source));
                self.store(dest, value);
                Ok(())
            },
            Instruction::Push(source, stack) => {
                let value = self.source_value(source);
                let capacity = self.program.get_hardware().max_stack_length;
                if self.state.stacks[stack.index].len() >= capacity {
                    return Err(RuntimeError::StackOverflow { stack });
                }
                self.state.stacks[stack.index].push(value);
                assert(self@.stacks =~~= old(self)@.apply(instruction).unwrap().stacks);
                assert(self@ =~= old(self)@.apply(instruction).unwrap());
                Ok(())
            },
            Instruction::Pop(stack, dest) => {
                if self.state.stacks[stack.index].len() == 0 {
                    return Err(RuntimeError::StackUnderflow { stack });
                }
                let value = self.state.stacks[stack.index].pop().unwrap();
                assert(self@.stacks =~~= old(self)@.stacks.update(
                    stack.index as int,
                    old(self)@.stacks[stack.index as int].drop_last(),
                ));
                assert(self@ =~= MachineModel {
                    stacks: old(self)@.stacks.update(
                        stack.index as int,
                        old(self)@.stacks[stack.index as int].drop_last(),
                    ),
                    ..old(self)@
                });
                self.store(dest, value);
                Ok(())
            },
        }
    }

    /// Executes the instruction at the program counter. On success both
    /// counters go up by one. A failing instruction halts the machine with
    /// its error, which is also returned, and changes nothing else. A
    /// machine that has halted is left as it is, and the call fails with
    /// [`RuntimeError::Terminated`].
    pub fn execute_next(&mut self) -> (r: Result<(), RuntimeError>)
        requires
            old(self).wf(),
        ensures
            final(self).wf(),
            final(self)@ == old(self)@.step(),
            r == old(self)@.step_result(),
            old(self)@.is_terminal() ==> r == Err::<(), RuntimeError>(RuntimeError::Terminated)
                && final(self)@ == old(self)@,
    {
        if self.is_complete() {
            return Err(RuntimeError::Terminated);
        }
        let instruction = match self.program.get(self.state.program_counter) {
            Some(instruction) => instruction,
            None => {
                return Err(RuntimeError::Terminated);
            },
        };
        match self.apply(instruction) {
            Ok(()) => {
                self.state.program_counter += 1;
                self.state.cycle_count += 1;
                assert(self@ =~= old(self)@.step());
                Ok(())
            },
            Err(error) => {
                self.error = Some(error);
                assert(self@ =~= old(self)@.step());
                Err(error)
            },
        }
    }

    /// Steps until the machine halts. Returns whether it halted in
    /// success, or the error of the instruction that failed. On a machine
    /// that had halted before, nothing is executed and the answer is
    /// whether it had halted in success.
    pub fn execute_all(&mut self) -> (r: Result<bool, RuntimeError>)
        requires
            old(self).wf(),
        ensures
            final(self).wf(),
            final(self)@.is_terminal(),
            final(self)@ == old(self)@.run(),
            r == old(self)@.run_result(),
    {
        while !self.is_complete()
            invariant
                self.wf(),
                self@.run() == old(self)@.run(),
                old(self)@.is_terminal() ==> self@ == old(self)@,
                !old(self)@.is_terminal() ==> self@.error is None,
            decreases self@.fuel(),
        {
            match self.execute_next() {
                Ok(()) => {},
                Err(error) => {
                    return Err(error);
                },
            }
        }
        Ok(self.is_successful())
    }
}

} // verus!
