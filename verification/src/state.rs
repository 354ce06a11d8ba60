//! The mathematical model of the machine and of one execution step.
//!
//! `State` holds the whole machine as mathematical sequences; `step_spec`
//! says exactly what one instruction does to it, including which fatal
//! error it raises and in which order operands are examined. The executable
//! engine in `vm` is proved to follow this model step by step.

use vstd::prelude::*;

use crate::codec::{
    Value, VmError, classify, word_add, word_and, word_mod, word_mul, word_not, word_or,
};

verus! {

/// The machine, as mathematics: the memory image, the eight registers, the
/// stack (last element on top), the instruction pointer, the queue of
/// pending input codes (front at index 0), and everything written so far.
#[verifier::ext_equal]
pub struct State {
    pub memory: Seq<u16>,
    pub registers: Seq<u16>,
    pub stack: Seq<u16>,
    pub pointer: nat,
    pub input: Seq<u16>,
    pub output: Seq<u16>,
}

impl State {
    /// The machine limits: exactly eight registers, and a memory image that
    /// fits the 15-bit address space.
    pub open spec fn inv(self) -> bool {
        &&& self.registers.len() == 8
        &&& self.memory.len() <= 32768
    }
}

/// The state of the machine at boot, before a program is loaded.
pub open spec fn init_state() -> State {
    State {
        memory: Seq::empty(),
        registers: seq![0u16, 0u16, 0u16, 0u16, 0u16, 0u16, 0u16, 0u16],
        stack: Seq::empty(),
        pointer: 0,
        input: Seq::empty(),
        output: Seq::empty(),
    }
}

/// What one step of the machine comes to.
pub enum Step {
    /// The instruction completed and this is the machine after it.
    Next(State),
    /// A clean halt: the cell at the pointer resolves to opcode 0.
    Halted,
    /// An `in` instruction found the input queue empty; the machine is
    /// unchanged and waits for a line of input.
    NeedInput,
    /// A fatal error; the machine is left as it was.
    Fail(VmError),
}

/// Read the cell at address `a` and classify it as an operand.
pub open spec fn get_value(s: State, a: int) -> Result<Value, VmError> {
    if !(0 <= a < s.memory.len()) {
        Err(VmError::OutOfBounds)
    } else {
        classify(s.memory[a])
    }
}

/// Resolve the operand cell at address `a` to a concrete value: a literal
/// is itself, a register reference is the register's current contents.
pub open spec fn read_value(s: State, a: int) -> Result<u16, VmError> {
    match get_value(s, a) {
        Ok(Value::Number(n)) => Ok(n),
        Ok(Value::Register(r)) => Ok(s.registers[r as int]),
        Err(e) => Err(e),
    }
}

/// The operand cell at address `a`, which must name a register.
pub open spec fn get_register(s: State, a: int) -> Result<usize, VmError> {
    match get_value(s, a) {
        Ok(Value::Number(_)) => Err(VmError::ExpectedRegister),
        Ok(Value::Register(r)) => Ok(r),
        Err(e) => Err(e),
    }
}

/// `set a b`: store a resolved value into a register.
pub open spec fn set_spec(s: State) -> Step {
    let p = s.pointer as int;
    match get_register(s, p + 1) {
        Err(e) => Step::Fail(e),
        Ok(r) => match read_value(s, p + 2) {
            Err(e) => Step::Fail(e),
            Ok(v) => Step::Next(State {
                registers: s.registers.update(r as int, v),
                pointer: s.pointer + 3,
                ..s
            }),
        },
    }
}

/// `push a`: push a resolved value onto the stack.
pub open spec fn push_spec(s: State) -> Step {
    let p = s.pointer as int;
    match read_value(s, p + 1) {
        Err(e) => Step::Fail(e),
        Ok(v) => Step::Next(State { stack: s.stack.push(v), pointer: s.pointer + 2, ..s }),
    }
}

/// `pop a`: move the top of the stack into a register.
pub open spec fn pop_spec(s: State) -> Step {
    let p = s.pointer as int;
    match get_register(s, p + 1) {
        Err(e) => Step::Fail(e),
        Ok(r) => if s.stack.len() == 0 {
            Step::Fail(VmError::StackUnderflow)
        } else {
            Step::Next(State {
                registers: s.registers.update(r as int, s.stack.last()),
                stack: s.stack.drop_last(),
                pointer: s.pointer + 2,
                ..s
            })
        },
    }
}

/// The common shape of the register-destination instructions with two
/// resolved sources: read the destination register and both sources, store
/// `f` of the sources, and advance past the four cells.
pub open spec fn store_binary_spec(s: State, f: spec_fn(u16, u16) -> u16) -> Step {
    let p = s.pointer as int;
    match get_register(s, p + 1) {
        Err(e) => Step::Fail(e),
        Ok(r) => match read_value(s, p + 2) {
            Err(e) => Step::Fail(e),
            Ok(a) => match read_value(s, p + 3) {
                Err(e) => Step::Fail(e),
                Ok(b) => Step::Next(State {
                    registers: s.registers.update(r as int, f(a, b)),
                    pointer: s.pointer + 4,
                    ..s
                }),
            },
        },
    }
}

/// `eq a b c`: 1 if the sources are equal, else 0.
pub open spec fn eq_spec(s: State) -> Step {
    store_binary_spec(s, |a: u16, b: u16| if a == b { 1u16 } else { 0u16 })
}

/// `gt a b c`: 1 if the first source is greater, else 0.
pub open spec fn gt_spec(s: State) -> Step {
    store_binary_spec(s, |a: u16, b: u16| if a > b { 1u16 } else { 0u16 })
}

/// `jmp a`: jump to a resolved address.
pub open spec fn jmp_spec(s: State) -> Step {
    let p = s.pointer as int;
    match read_value(s, p + 1) {
        Err(e) => Step::Fail(e),
        Ok(v) => Step::Next(State { pointer: v as nat, ..s }),
    }
}

/// `jt a b`: jump if the first source is non-zero. The target operand is
/// only examined when the jump is taken.
pub open spec fn jt_spec(s: State) -> Step {
    let p = s.pointer as int;
    match read_value(s, p + 1) {
        Err(e) => Step::Fail(e),
        Ok(c) => if c != 0 {
            match read_value(s, p + 2) {
                Err(e) => Step::Fail(e),
                Ok(t) => Step::Next(State { pointer: t as nat, ..s }),
            }
        } else {
            Step::Next(State { pointer: s.pointer + 3, ..s })
        },
    }
}

/// `jf a b`: jump if the first source is zero. The target operand is only
/// examined when the jump is taken.
pub open spec fn jf_spec(s: State) -> Step {
    let p = s.pointer as int;
    match read_value(s, p + 1) {
        Err(e) => Step::Fail(e),
        Ok(c) => if c == 0 {
            match read_value(s, p + 2) {
                Err(e) => Step::Fail(e),
                Ok(t) => Step::Next(State { pointer: t as nat, ..s }),
            }
        } else {
            Step::Next(State { pointer: s.pointer + 3, ..s })
        },
    }
}

/// `add a b c`: sum of the sources, modulo 32768.
pub open spec fn add_spec(s: State) -> Step {
    store_binary_spec(s, |a: u16, b: u16| word_add(a, b))
}

/// `mult a b c`: product of the sources, modulo 32768.
pub open spec fn mult_spec(s: State) -> Step {
    store_binary_spec(s, |a: u16, b: u16| word_mul(a, b))
}

/// `mod a b c`: remainder of the sources; a zero divisor is fatal.
pub open spec fn mod_spec(s: State) -> Step {
    let p = s.pointer as int;
    match get_register(s, p + 1) {
        Err(e) => Step::Fail(e),
        Ok(r) => match read_value(s, p + 2) {
            Err(e) => Step::Fail(e),
            Ok(a) => match read_value(s, p + 3) {
                Err(e) => Step::Fail(e),
                Ok(b) => if b == 0 {
                    Step::Fail(VmError::DivisionByZero)
                } else {
                    Step::Next(State {
                        registers: s.registers.update(r as int, word_mod(a, b)),
                        pointer: s.pointer + 4,
                        ..s
                    })
                },
            },
        },
    }
}

/// `and a b c`: bitwise and of the sources.
pub open spec fn and_spec(s: State) -> Step {
    store_binary_spec(s, |a: u16, b: u16| word_and(a, b))
}

/// `or a b c`: bitwise or of the sources.
pub open spec fn or_spec(s: State) -> Step {
    store_binary_spec(s, |a: u16, b: u16| word_or(a, b))
}

/// `not a b`: 15-bit complement of the source.
pub open spec fn not_spec(s: State) -> Step {
    let p = s.pointer as int;
    match get_register(s, p + 1) {
        Err(e) => Step::Fail(e),
        Ok(r) => match read_value(s, p + 2) {
            Err(e) => Step::Fail(e),
            Ok(a) => Step::Next(State {
                registers: s.registers.update(r as int, word_not(a)),
                pointer: s.pointer + 3,
                ..s
            }),
        },
    }
}

/// `rmem a b`: fetch the raw cell at a resolved address into a register.
/// The fetched cell is not classified: a stored register reference is
/// moved as the bare 16-bit value it is.
pub open spec fn rmem_spec(s: State) -> Step {
    let p = s.pointer as int;
    match get_register(s, p + 1) {
        Err(e) => Step::Fail(e),
        Ok(r) => match read_value(s, p + 2) {
            Err(e) => Step::Fail(e),
            Ok(a) => if a < s.memory.len() {
                Step::Next(State {
                    registers: s.registers.update(r as int, s.memory[a as int]),
                    pointer: s.pointer + 3,
                    ..s
                })
            } else {
                Step::Fail(VmError::OutOfBounds)
            },
        },
    }
}

/// `wmem a b`: store a resolved value at a resolved address. The stored
/// value is always a literal word.
pub open spec fn wmem_spec(s: State) -> Step {
    let p = s.pointer as int;
    match read_value(s, p + 1) {
        Err(e) => Step::Fail(e),
        Ok(a) => match read_value(s, p + 2) {
            Err(e) => Step::Fail(e),
            Ok(v) => if a < s.memory.len() {
                Step::Next(State {
                    memory: s.memory.update(a as int, v),
                    pointer: s.pointer + 3,
                    ..s
                })
            } else {
                Step::Fail(VmError::OutOfBounds)
            },
        },
    }
}

/// `call a`: push the address of the next instruction, then jump.
pub open spec fn call_spec(s: State) -> Step {
    let p = s.pointer as int;
    match read_value(s, p + 1) {
        Err(e) => Step::Fail(e),
        Ok(t) => Step::Next(State {
            stack: s.stack.push((s.pointer + 2) as u16),
            pointer: t as nat,
            ..s
        }),
    }
}

/// `ret`: jump to the address popped from the stack.
pub open spec fn ret_spec(s: State) -> Step {
    if s.stack.len() == 0 {
        Step::Fail(VmError::StackUnderflow)
    } else {
        Step::Next(State { stack: s.stack.drop_last(), pointer: s.stack.last() as nat, ..s })
    }
}

/// `out a`: append a resolved character code to the output.
pub open spec fn out_spec(s: State) -> Step {
    let p = s.pointer as int;
    match read_value(s, p + 1) {
        Err(e) => Step::Fail(e),
        Ok(c) => Step::Next(State { output: s.output.push(c), pointer: s.pointer + 2, ..s }),
    }
}

/// `in a`: move the front of the input queue into a register; with an
/// empty queue the machine waits for input before anything is examined.
pub open spec fn in_spec(s: State) -> Step {
    let p = s.pointer as int;
    if s.input.len() == 0 {
        Step::NeedInput
    } else {
        match get_register(s, p + 1) {
            Err(e) => Step::Fail(e),
            Ok(r) => Step::Next(State {
                registers: s.registers.update(r as int, s.input[0]),
                input: s.input.remove(0),
                pointer: s.pointer + 2,
                ..s
            }),
        }
    }
}

/// `noop`: advance past the single cell.
pub open spec fn noop_spec(s: State) -> Step {
    Step::Next(State { pointer: s.pointer + 1, ..s })
}

/// One step of the machine: resolve the cell at the pointer as the opcode
/// and dispatch. Opcode 0 is a clean halt; anything above 21 is fatal.
pub open spec fn step_spec(s: State) -> Step {
    match read_value(s, s.pointer as int) {
        Err(e) => Step::Fail(e),
        Ok(op) => if op == 0 {
            Step::Halted
        } else if op == 1 {
            set_spec(s)
        } else if op == 2 {
            push_spec(s)
        } else if op == 3 {
            pop_spec(s)
        } else if op == 4 {
            eq_spec(s)
        } else if op == 5 {
            gt_spec(s)
        } else if op == 6 {
            jmp_spec(s)
        } else if op == 7 {
            jt_spec(s)
        } else if op == 8 {
            jf_spec(s)
        } else if op == 9 {
            add_spec(s)
        } else if op == 10 {
            mult_spec(s)
        } else if op == 11 {
            mod_spec(s)
        } else if op == 12 {
            and_spec(s)
        } else if op == 13 {
            or_spec(s)
        } else if op == 14 {
            not_spec(s)
        } else if op == 15 {
            rmem_spec(s)
        } else if op == 16 {
            wmem_spec(s)
        } else if op == 17 {
            call_spec(s)
        } else if op == 18 {
            ret_spec(s)
        } else if op == 19 {
            out_spec(s)
        } else if op == 20 {
            in_spec(s)
        } else if op == 21 {
            noop_spec(s)
        } else {
            Step::Fail(VmError::UnknownOpcode)
        },
    }
}

/// The machine after `n` further steps, when all of them complete; `None`
/// when one of the first `n` steps halts, waits for input, or fails.
pub open spec fn advance(s: State, n: nat) -> Option<State>
    decreases n,
{
    if n == 0 {
        Some(s)
    } else {
        match advance(s, (n - 1) as nat) {
            Some(t) => match step_spec(t) {
                Step::Next(u) => Some(u),
                _ => None::<State>,
            },
            None => None::<State>,
        }
    }
}

} // verus!
