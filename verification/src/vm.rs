//! The executable machine: the state it owns and the engine that runs it.
//!
//! Every public operation is specified against the mathematical model in
//! `state`: a step of the engine performs exactly `state::step_spec` on the
//! view of the machine.

use vstd::prelude::*;

use crate::codec::{Value, VmError, modulo};
use crate::state;
use crate::state::{State, Step};

verus! {

/// What a stretch of execution came to.
#[derive(Clone, Copy, Debug, PartialEq, Eq, Structural)]
pub enum Outcome {
    /// The last instruction completed and the machine can take another step.
    Running,
    /// The program reached a clean halt.
    Halted,
    /// An `in` instruction needs a line of input before it can complete.
    NeedInput,
    /// A fatal error stopped the machine.
    Failed(VmError),
}

/// The virtual machine: a memory image of 16-bit cells, eight registers,
/// an unbounded stack, the instruction pointer, the queue of pending input
/// codes and the characters written so far.
#[derive(Debug)]
pub struct VM {
    memory: Vec<u16>,
    registers: Vec<u16>,
    stack: Vec<u16>,
    pointer: usize,
    input_buffer: Vec<u16>,
    output_buffer: Vec<u16>,
}

impl View for VM {
    type V = State;

    closed spec fn view(&self) -> State {
        State {
            memory: self.memory@,
            registers: self.registers@,
            stack: self.stack@,
            pointer: self.pointer as nat,
            input: self.input_buffer@,
            output: self.output_buffer@,
        }
    }
}

impl VM {
    /// A fresh machine: no program, zeroed registers, empty stack, pointer
    /// at address 0, nothing read and nothing written.
    pub fn boot() -> (vm: VM)
        ensures
            vm@ == state::init_state(),
            vm@.inv(),
    {
        let mut registers: Vec<u16> = Vec::new();
        registers.push(0);
        registers.push(0);
        registers.push(0);
        registers.push(0);
        registers.push(0);
        registers.push(0);
        registers.push(0);
        registers.push(0);
        let vm = VM {
            memory: Vec::new(),
            registers,
            stack: Vec::new(),
            pointer: 0,
            input_buffer: Vec::new(),
            output_buffer: Vec::new(),
        };
        proof {
            assert(vm@.registers =~= state::init_state().registers);
            assert(vm@ =~= state::init_state());
        }
        vm
    }

    /// Replace the memory image with a program, word 0 at address 0. The
    /// image must fit the machine's 15-bit address space.
    pub fn load_program(self, program: Vec<u16>) -> (vm: Self)
        requires
            self@.inv(),
            program@.len() <= 32768,
        ensures
            vm@ == (State { memory: program@, ..self@ }),
            vm@.inv(),
    {
        let mut vm = self;
        vm.memory = program;
        vm
    }

    /// Read the cell at `pointer` and classify it as an operand.
    fn get_value(&self, pointer: usize) -> (r: Result<Value, VmError>)
        ensures
            r == state::get_value(self@, pointer as int),
    {
        if pointer >= self.memory.len() {
            Err(VmError::OutOfBounds)
        } else {
            let value = self.memory[pointer];
            if value < 32768 {
                Ok(Value::Number(value))
            } else if value < 32776 {
                Ok(Value::Register((value - 32768) as usize))
            } else {
                Err(VmError::IllegalWord)
            }
        }
    }

    /// Resolve the operand cell at `pointer`: a literal is itself, a
    /// register reference is the register's contents.
    fn read_value(&self, pointer: usize) -> (r: Result<u16, VmError>)
        requires
            self@.inv(),
        ensures
            r == state::read_value(self@, pointer as int),
    {
        match self.get_value(pointer) {
            Ok(Value::Number(n)) => Ok(n),
            Ok(Value::Register(r)) => Ok(self.registers[r]),
            Err(e) => Err(e),
        }
    }

    /// Resolve the operand cell at the instruction pointer itself.
    fn read_value_at_pointer(&self) -> (r: Result<u16, VmError>)
        requires
            self@.inv(),
        ensures
            r == state::read_value(self@, self@.pointer as int),
    {
        self.read_value(self.pointer)
    }

    /// The operand cell at `pointer`, which must name a register.
    fn get_register(&self, pointer: usize) -> (r: Result<usize, VmError>)
        ensures
            r == state::get_register(self@, pointer as int),
            r matches Ok(i) ==> i < 8,
    {
        match self.get_value(pointer) {
            Ok(Value::Number(_)) => Err(VmError::ExpectedRegister),
            Ok(Value::Register(r)) => Ok(r),
            Err(e) => Err(e),
        }
    }

    /// `set a b`: store a resolved value into a register.
    fn set(&mut self) -> (r: Result<(), VmError>)
        requires
            old(self)@.inv(),
            old(self)@.pointer < old(self)@.memory.len(),
        ensures
            final(self)@.inv(),
            (match r {
                Ok(()) => state::set_spec(old(self)@) == Step::Next(final(self)@),
                Err(e) => final(self)@ == old(self)@ && state::set_spec(old(self)@)
                    == Step::Fail(e),
            }),
    {
        let reg = match self.get_register(self.pointer + 1) {
            Ok(r) => r,
            Err(e) => return Err(e),
        };
        let value = match self.read_value(self.pointer + 2) {
            Ok(v) => v,
            Err(e) => return Err(e),
        };
        self.registers.set(reg, value);
        self.pointer = self.pointer + 3;
        Ok(())
    }

    /// `push a`: push a resolved value onto the stack.
    fn push(&mut self) -> (r: Result<(), VmError>)
        requires
            old(self)@.inv(),
            old(self)@.pointer < old(self)@.memory.len(),
        ensures
            final(self)@.inv(),
            (match r {
                Ok(()) => state::push_spec(old(self)@) == Step::Next(final(self)@),
                Err(e) => final(self)@ == old(self)@ && state::push_spec(old(self)@)
                    == Step::Fail(e),
            }),
    {
        let value = match self.read_value(self.pointer + 1) {
            Ok(v) => v,
            Err(e) => return Err(e),
        };
        self.stack.push(value);
        self.pointer = self.pointer + 2;
        Ok(())
    }

    /// `pop a`: move the top of the stack into a register.
    fn pop(&mut self) -> (r: Result<(), VmError>)
        requires
            old(self)@.inv(),
            old(self)@.pointer < old(self)@.memory.len(),
        ensures
            final(self)@.inv(),
            (match r {
                Ok(()) => state::pop_spec(old(self)@) == Step::Next(final(self)@),
                Err(e) => final(self)@ == old(self)@ && state::pop_spec(old(self)@)
                    == Step::Fail(e),
            }),
    {
        let reg = match self.get_register(self.pointer + 1) {
            Ok(r) => r,
            Err(e) => return Err(e),
        };
        let value = match self.stack.pop() {
            Some(v) => v,
            None => return Err(VmError::StackUnderflow),
        };
        self.registers.set(reg, value);
        self.pointer = self.pointer + 2;
        Ok(())
    }

    /// `eq a b c`: 1 into the register if the sources are equal, else 0.
    fn eq(&mut self) -> (r: Result<(), VmError>)
        requires
            old(self)@.inv(),
            old(self)@.pointer < old(self)@.memory.len(),
        ensures
            final(self)@.inv(),
            (match r {
                Ok(()) => state::eq_spec(old(self)@) == Step::Next(final(self)@),
                Err(e) => final(self)@ == old(self)@ && state::eq_spec(old(self)@)
                    == Step::Fail(e),
            }),
    {
        let reg = match self.get_register(self.pointer + 1) {
            Ok(r) => r,
            Err(e) => return Err(e),
        };
        let a = match self.read_value(self.pointer + 2) {
            Ok(v) => v,
            Err(e) => return Err(e),
        };
        let b = match self.read_value(self.pointer + 3) {
            Ok(v) => v,
            Err(e) => return Err(e),
        };
        let value: u16 = if a == b {
            1
        } else {
            0
        };
        self.registers.set(reg, value);
        self.pointer = self.pointer + 4;
        Ok(())
    }

    /// `gt a b c`: 1 into the register if the first source is greater.
    fn gt(&mut self) -> (r: Result<(), VmError>)
        requires
            old(self)@.inv(),
            old(self)@.pointer < old(self)@.memory.len(),
        ensures
            final(self)@.inv(),
            (match r {
                Ok(()) => state::gt_spec(old(self)@) == Step::Next(final(self)@),
                Err(e) => final(self)@ == old(self)@ && state::gt_spec(old(self)@)
                    == Step::Fail(e),
            }),
    {
        let reg = match self.get_register(self.pointer + 1) {
            Ok(r) => r,
            Err(e) => return Err(e),
        };
        let a = match self.read_value(self.pointer + 2) {
            Ok(v) => v,
            Err(e) => return Err(e),
        };
        let b = match self.read_value(self.pointer + 3) {
            Ok(v) => v,
            Err(e) => return Err(e),
        };
        let value: u16 = if a > b {
            1
        } else {
            0
        };
        self.registers.set(reg, value);
        self.pointer = self.pointer + 4;
        Ok(())
    }

    /// `jmp a`: jump to a resolved address.
    fn jmp(&mut self) -> (r: Result<(), VmError>)
        requires
            old(self)@.inv(),
            old(self)@.pointer < old(self)@.memory.len(),
        ensures
            final(self)@.inv(),
            (match r {
                Ok(()) => state::jmp_spec(old(self)@) == Step::Next(final(self)@),
                Err(e) => final(self)@ == old(self)@ && state::jmp_spec(old(self)@)
                    == Step::Fail(e),
            }),
    {
        let target = match self.read_value(self.pointer + 1) {
            Ok(v) => v,
            Err(e) => return Err(e),
        };
        self.pointer = target as usize;
        Ok(())
    }

    /// `jt a b`: jump if the first source is non-zero.
    fn jt(&mut self) -> (r: Result<(), VmError>)
        requires
            old(self)@.inv(),
            old(self)@.pointer < old(self)@.memory.len(),
        ensures
            final(self)@.inv(),
            (match r {
                Ok(()) => state::jt_spec(old(self)@) == Step::Next(final(self)@),
                Err(e) => final(self)@ == old(self)@ && state::jt_spec(old(self)@)
                    == Step::Fail(e),
            }),
    {
        let condition = match self.read_value(self.pointer + 1) {
            Ok(v) => v,
            Err(e) => return Err(e),
        };
        if condition != 0 {
            let target = match self.read_value(self.pointer + 2) {
                Ok(v) => v,
                Err(e) => return Err(e),
            };
            self.pointer = target as usize;
        } else {
            self.pointer = self.pointer + 3;
        }
        Ok(())
    }

    /// `jf a b`: jump if the first source is zero.
    fn jf(&mut self) -> (r: Result<(), VmError>)
        requires
            old(self)@.inv(),
            old(self)@.pointer < old(self)@.memory.len(),
        ensures
            final(self)@.inv(),
            (match r {
                Ok(()) => state::jf_spec(old(self)@) == Step::Next(final(self)@),
                Err(e) => final(self)@ == old(self)@ && state::jf_spec(old(self)@)
                    == Step::Fail(e),
            }),
    {
        let condition = match self.read_value(self.pointer + 1) {
            Ok(v) => v,
            Err(e) => return Err(e),
        };
        if condition == 0 {
            let target = match self.read_value(self.pointer + 2) {
                Ok(v) => v,
                Err(e) => return Err(e),
            };
            self.pointer = target as usize;
        } else {
            self.pointer = self.pointer + 3;
        }
        Ok(())
    }

    /// `add a b c`: sum of the sources, modulo 32768.
    fn add(&mut self) -> (r: Result<(), VmError>)
        requires
            old(self)@.inv(),
            old(self)@.pointer < old(self)@.memory.len(),
        ensures
            final(self)@.inv(),
            (match r {
                Ok(()) => state::add_spec(old(self)@) == Step::Next(final(self)@),
                Err(e) => final(self)@ == old(self)@ && state::add_spec(old(self)@)
                    == Step::Fail(e),
            }),
    {
        let reg = match self.get_register(self.pointer + 1) {
            Ok(r) => r,
            Err(e) => return Err(e),
        };
        let a = match self.read_value(self.pointer + 2) {
            Ok(v) => v,
            Err(e) => return Err(e),
        };
        let b = match self.read_value(self.pointer + 3) {
            Ok(v) => v,
            Err(e) => return Err(e),
        };
        let value = modulo(a as u32 + b as u32);
        self.registers.set(reg, value);
        self.pointer = self.pointer + 4;
        Ok(())
    }

    /// `mult a b c`: product of the sources, modulo 32768. The product is
    /// taken in 32-bit width before the reduction.
    fn mult(&mut self) -> (r: Result<(), VmError>)
        requires
            old(self)@.inv(),
            old(self)@.pointer < old(self)@.memory.len(),
        ensures
            final(self)@.inv(),
            (match r {
                Ok(()) => state::mult_spec(old(self)@) == Step::Next(final(self)@),
                Err(e) => final(self)@ == old(self)@ && state::mult_spec(old(self)@)
                    == Step::Fail(e),
            }),
    {
        let reg = match self.get_register(self.pointer + 1) {
            Ok(r) => r,
            Err(e) => return Err(e),
        };
        let a = match self.read_value(self.pointer + 2) {
            Ok(v) => v,
            Err(e) => return Err(e),
        };
        let b = match self.read_value(self.pointer + 3) {
            Ok(v) => v,
            Err(e) => return Err(e),
        };
        proof {
            assert((a as int) * (b as int) <= 65535 * 65535) by (nonlinear_arith)
                requires
                    a <= 65535,
                    b <= 65535,
            ;
        }
        let value = modulo(a as u32 * b as u32);
        self.registers.set(reg, value);
        self.pointer = self.pointer + 4;
        Ok(())
    }

    /// `mod a b c`: remainder of the sources; a zero divisor is fatal.
    fn mod_op(&mut self) -> (r: Result<(), VmError>)
        requires
            old(self)@.inv(),
            old(self)@.pointer < old(self)@.memory.len(),
        ensures
            final(self)@.inv(),
            (match r {
                Ok(()) => state::mod_spec(old(self)@) == Step::Next(final(self)@),
                Err(e) => final(self)@ == old(self)@ && state::mod_spec(old(self)@)
                    == Step::Fail(e),
            }),
    {
        let reg = match self.get_register(self.pointer + 1) {
            Ok(r) => r,
            Err(e) => return Err(e),
        };
        let a = match self.read_value(self.pointer + 2) {
            Ok(v) => v,
            Err(e) => return Err(e),
        };
        let b = match self.read_value(self.pointer + 3) {
            Ok(v) => v,
            Err(e) => return Err(e),
        };
        if b == 0 {
            return Err(VmError::DivisionByZero);
        }
        let value = a % b;
        self.registers.set(reg, value);
        self.pointer = self.pointer + 4;
        Ok(())
    }

    /// `and a b c`: bitwise and of the sources.
    fn and(&mut self) -> (r: Result<(), VmError>)
        requires
            old(self)@.inv(),
            old(self)@.pointer < old(self)@.memory.len(),
        ensures
            final(self)@.inv(),
            (match r {
                Ok(()) => state::and_spec(old(self)@) == Step::Next(final(self)@),
                Err(e) => final(self)@ == old(self)@ && state::and_spec(old(self)@)
                    == Step::Fail(e),
            }),
    {
        let reg = match self.get_register(self.pointer + 1) {
            Ok(r) => r,
            Err(e) => return Err(e),
        };
        let a = match self.read_value(self.pointer + 2) {
            Ok(v) => v,
            Err(e) => return Err(e),
        };
        let b = match self.read_value(self.pointer + 3) {
            Ok(v) => v,
            Err(e) => return Err(e),
        };
        let value = (a & b) % 32768;
        self.registers.set(reg, value);
        self.pointer = self.pointer + 4;
        Ok(())
    }

    /// `or a b c`: bitwise or of the sources.
    fn or(&mut self) -> (r: Result<(), VmError>)
        requires
            old(self)@.inv(),
            old(self)@.pointer < old(self)@.memory.len(),
        ensures
            final(self)@.inv(),
            (match r {
                Ok(()) => state::or_spec(old(self)@) == Step::Next(final(self)@),
                Err(e) => final(self)@ == old(self)@ && state::or_spec(old(self)@)
                    == Step::Fail(e),
            }),
    {
        let reg = match self.get_register(self.pointer + 1) {
            Ok(r) => r,
            Err(e) => return Err(e),
        };
        let a = match self.read_value(self.pointer + 2) {
            Ok(v) => v,
            Err(e) => return Err(e),
        };
        let b = match self.read_value(self.pointer + 3) {
            Ok(v) => v,
            Err(e) => return Err(e),
        };
        let value = (a | b) % 32768;
        self.registers.set(reg, value);
        self.pointer = self.pointer + 4;
        Ok(())
    }

    /// `not a b`: 15-bit complement of the source.
    fn not(&mut self) -> (r: Result<(), VmError>)
        requires
            old(self)@.inv(),
            old(self)@.pointer < old(self)@.memory.len(),
        ensures
            final(self)@.inv(),
            (match r {
                Ok(()) => state::not_spec(old(self)@) == Step::Next(final(self)@),
                Err(e) => final(self)@ == old(self)@ && state::not_spec(old(self)@)
                    == Step::Fail(e),
            }),
    {
        let reg = match self.get_register(self.pointer + 1) {
            Ok(r) => r,
            Err(e) => return Err(e),
        };
        let a = match self.read_value(self.pointer + 2) {
            Ok(v) => v,
            Err(e) => return Err(e),
        };
        let value = (!a) % 32768;
        self.registers.set(reg, value);
        self.pointer = self.pointer + 3;
        Ok(())
    }

    /// `rmem a b`: fetch the raw cell at a resolved address into a
    /// register, without classifying it.
    fn rmem(&mut self) -> (r: Result<(), VmError>)
        requires
            old(self)@.inv(),
            old(self)@.pointer < old(self)@.memory.len(),
        ensures
            final(self)@.inv(),
            (match r {
                Ok(()) => state::rmem_spec(old(self)@) == Step::Next(final(self)@),
                Err(e) => final(self)@ == old(self)@ && state::rmem_spec(old(self)@)
                    == Step::Fail(e),
            }),
    {
        let reg = match self.get_register(self.pointer + 1) {
            Ok(r) => r,
            Err(e) => return Err(e),
        };
        let address = match self.read_value(self.pointer + 2) {
            Ok(v) => v,
            Err(e) => return Err(e),
        };
        if address as usize >= self.memory.len() {
            return Err(VmError::OutOfBounds);
        }
        let value = self.memory[address as usize];
        self.registers.set(reg, value);
        self.pointer = self.pointer + 3;
        Ok(())
    }

    /// `wmem a b`: store a resolved value at a resolved address.
    fn wmem(&mut self) -> (r: Result<(), VmError>)
        requires
            old(self)@.inv(),
            old(self)@.pointer < old(self)@.memory.len(),
        ensures
            final(self)@.inv(),
            (match r {
                Ok(()) => state::wmem_spec(old(self)@) == Step::Next(final(self)@),
                Err(e) => final(self)@ == old(self)@ && state::wmem_spec(old(self)@)
                    == Step::Fail(e),
            }),
    {
        let address = match self.read_value(self.pointer + 1) {
            Ok(v) => v,
            Err(e) => return Err(e),
        };
        let value = match self.read_value(self.pointer + 2) {
            Ok(v) => v,
            Err(e) => return Err(e),
        };
        if address as usize >= self.memory.len() {
            return Err(VmError::OutOfBounds);
        }
        self.memory.set(address as usize, value);
        self.pointer = self.pointer + 3;
        Ok(())
    }

    /// `call a`: push the address of the next instruction, then jump.
    fn call(&mut self) -> (r: Result<(), VmError>)
        requires
            old(self)@.inv(),
            old(self)@.pointer < old(self)@.memory.len(),
        ensures
            final(self)@.inv(),
            (match r {
                Ok(()) => state::call_spec(old(self)@) == Step::Next(final(self)@),
                Err(e) => final(self)@ == old(self)@ && state::call_spec(old(self)@)
                    == Step::Fail(e),
            }),
    {
        let target = match self.read_value(self.pointer + 1) {
            Ok(v) => v,
            Err(e) => return Err(e),
        };
        self.stack.push((self.pointer + 2) as u16);
        self.pointer = target as usize;
        Ok(())
    }

    /// `ret`: jump to the address popped from the stack.
    fn ret(&mut self) -> (r: Result<(), VmError>)
        requires
            old(self)@.inv(),
            old(self)@.pointer < old(self)@.memory.len(),
        ensures
            final(self)@.inv(),
            (match r {
                Ok(()) => state::ret_spec(old(self)@) == Step::Next(final(self)@),
                Err(e) => final(self)@ == old(self)@ && state::ret_spec(old(self)@)
                    == Step::Fail(e),
            }),
    {
        let target = match self.stack.pop() {
            Some(v) => v,
            None => return Err(VmError::StackUnderflow),
        };
        self.pointer = target as usize;
        Ok(())
    }

    /// `out a`: append a resolved character code to the output buffer.
    fn out(&mut self) -> (r: Result<(), VmError>)
        requires
            old(self)@.inv(),
            old(self)@.pointer < old(self)@.memory.len(),
        ensures
            final(self)@.inv(),
            (match r {
                Ok(()) => state::out_spec(old(self)@) == Step::Next(final(self)@),
                Err(e) => final(self)@ == old(self)@ && state::out_spec(old(self)@)
                    == Step::Fail(e),
            }),
    {
        let value = match self.read_value(self.pointer + 1) {
            Ok(v) => v,
            Err(e) => return Err(e),
        };
        self.output_buffer.push(value);
        self.pointer = self.pointer + 2;
        Ok(())
    }

    /// `in a`: move the front of the input queue into a register. The
    /// caller has already made sure the queue is not empty.
    fn in_op(&mut self) -> (r: Result<(), VmError>)
        requires
            old(self)@.inv(),
            old(self)@.pointer < old(self)@.memory.len(),
            old(self)@.input.len() > 0,
        ensures
            final(self)@.inv(),
            (match r {
                Ok(()) => state::in_spec(old(self)@) == Step::Next(final(self)@),
                Err(e) => final(self)@ == old(self)@ && state::in_spec(old(self)@)
                    == Step::Fail(e),
            }),
    {
        let reg = match self.get_register(self.pointer + 1) {
            Ok(r) => r,
            Err(e) => return Err(e),
        };
        let code = self.input_buffer.remove(0);
        self.registers.set(reg, code);
        self.pointer = self.pointer + 2;
        Ok(())
    }

    /// `noop`: advance past the single cell.
    fn noop(&mut self) -> (r: Result<(), VmError>)
        requires
            old(self)@.inv(),
            old(self)@.pointer < old(self)@.memory.len(),
        ensures
            final(self)@.inv(),
            r == Ok::<(), VmError>(()),
            state::noop_spec(old(self)@) == Step::Next(final(self)@),
    {
        self.pointer = self.pointer + 1;
        Ok(())
    }

    /// One step of the machine: resolve the cell at the pointer as the
    /// opcode and dispatch. Performs exactly `state::step_spec` on the view.
    pub fn step(&mut self) -> (r: Outcome)
        requires
            old(self)@.inv(),
        ensures
            final(self)@.inv(),
            (match r {
                Outcome::Running => state::step_spec(old(self)@) == Step::Next(final(self)@),
                Outcome::Halted => final(self)@ == old(self)@ && state::step_spec(old(self)@)
                    == Step::Halted,
                Outcome::NeedInput => final(self)@ == old(self)@ && state::step_spec(old(self)@)
                    == Step::NeedInput,
                Outcome::Failed(e) => final(self)@ == old(self)@ && state::step_spec(old(self)@)
                    == Step::Fail(e),
            }),
    {
        let op = match self.read_value_at_pointer() {
            Ok(op) => op,
            Err(e) => return Outcome::Failed(e),
        };
        proof {
            assert(self@.pointer < self@.memory.len());
        }
        if op == 0 {
            return Outcome::Halted;
        }
        let outcome: Result<(), VmError> = if op == 1 {
            self.set()
        } else if op == 2 {
            self.push()
        } else if op == 3 {
            self.pop()
        } else if op == 4 {
            self.eq()
        } else if op == 5 {
            self.gt()
        } else if op == 6 {
            self.jmp()
        } else if op == 7 {
            self.jt()
        } else if op == 8 {
            self.jf()
        } else if op == 9 {
            self.add()
        } else if op == 10 {
            self.mult()
        } else if op == 11 {
            self.mod_op()
        } else if op == 12 {
            self.and()
        } else if op == 13 {
            self.or()
        } else if op == 14 {
            self.not()
        } else if op == 15 {
            self.rmem()
        } else if op == 16 {
            self.wmem()
        } else if op == 17 {
            self.call()
        } else if op == 18 {
            self.ret()
        } else if op == 19 {
            self.out()
        } else if op == 20 {
            if self.input_buffer.len() == 0 {
                return Outcome::NeedInput;
            }
            self.in_op()
        } else if op == 21 {
            self.noop()
        } else {
            return Outcome::Failed(VmError::UnknownOpcode);
        };
        match outcome {
            Ok(()) => Outcome::Running,
            Err(e) => Outcome::Failed(e),
        }
    }

    /// Run the machine until it halts, fails, needs a line of input, or has
    /// taken `max_steps` complete steps. The machine it leaves behind is
    /// reachable from the starting one by complete steps; any outcome but
    /// `Running` says how the next step would stall, and `Running` means
    /// the budget ran out after exactly `max_steps` steps.
    pub fn run(&mut self, max_steps: usize) -> (r: Outcome)
        requires
            old(self)@.inv(),
        ensures
            final(self)@.inv(),
            exists|n: nat| state::advance(old(self)@, n) == Some(final(self)@),
            (match r {
                Outcome::Running => state::advance(old(self)@, max_steps as nat)
                    == Some(final(self)@),
                Outcome::Halted => state::step_spec(final(self)@) == Step::Halted,
                Outcome::NeedInput => state::step_spec(final(self)@) == Step::NeedInput,
                Outcome::Failed(e) => state::step_spec(final(self)@) == Step::Fail(e),
            }),
    {
        let ghost start = self@;
        let mut steps: usize = 0;
        while steps < max_steps
            invariant
                self@.inv(),
                start == old(self)@,
                steps <= max_steps,
                state::advance(start, steps as nat) == Some(self@),
            decreases max_steps - steps,
        {
            let ghost pre = self@;
            let outcome = self.step();
            match outcome {
                Outcome::Running => {
                    proof {
                        assert(state::advance(start, steps as nat + 1) == Some(self@));
                    }
                    steps = steps + 1;
                },
                _ => {
                    return outcome;
                },
            }
        }
        Outcome::Running
    }

    /// Append a line of input, one character code per word, to the back of
    /// the input queue.
    pub fn feed_line(&mut self, codes: Vec<u16>)
        requires
            forall|i: int| 0 <= i < codes@.len() ==> codes@[i] < 32768,
        ensures
            final(self)@ == (State { input: old(self)@.input + codes@, ..old(self)@ }),
    {
        let mut codes = codes;
        self.input_buffer.append(&mut codes);
    }

    /// The instruction pointer.
    pub fn pointer(&self) -> (r: usize)
        ensures
            r == self@.pointer,
    {
        self.pointer
    }

    /// The contents of one of the eight registers.
    pub fn register(&self, r: usize) -> (v: u16)
        requires
            self@.inv(),
            r < 8,
        ensures
            v == self@.registers[r as int],
    {
        self.registers[r]
    }

    /// Preload one of the eight registers with a word.
    pub fn set_register(&mut self, r: usize, v: u16)
        requires
            old(self)@.inv(),
            r < 8,
            v < 32768,
        ensures
            final(self)@ == (State {
                registers: old(self)@.registers.update(r as int, v),
                ..old(self)@
            }),
    {
        self.registers.set(r, v);
    }

    /// How many words the stack holds.
    pub fn stack_len(&self) -> (n: usize)
        ensures
            n == self@.stack.len(),
    {
        self.stack.len()
    }

    /// Drain the output buffer: everything written since the last call, in
    /// the order it was written.
    pub fn take_output(&mut self) -> (out: Vec<u16>)
        ensures
            out@ == old(self)@.output,
            final(self)@ == (State { output: Seq::empty(), ..old(self)@ }),
    {
        let mut out: Vec<u16> = Vec::new();
        core::mem::swap(&mut out, &mut self.output_buffer);
        out
    }
}

} // verus!
