//! The laws of the machine: invariants every complete step preserves, and
//! the round-trip behaviour of paired instructions.

use vstd::prelude::*;

use crate::codec::{
    Value, VmError, word_add, word_and, word_mod, word_mul, word_not, word_or,
};
use crate::state::{
    State, Step, advance, get_register, get_value, init_state, read_value, step_spec,
    store_binary_spec,
};

verus! {

/// Every value the machine acts on is a proper 15-bit word: the eight
/// registers, the stack, and the pending input all hold values below
/// 32768, and the memory image fits the address space.
pub open spec fn words_only(s: State) -> bool {
    &&& s.registers.len() == 8
    &&& forall|i: int| 0 <= i < s.registers.len() ==> s.registers[i] < 32768
    &&& forall|i: int| 0 <= i < s.stack.len() ==> s.stack[i] < 32768
    &&& forall|i: int| 0 <= i < s.input.len() ==> s.input[i] < 32768
    &&& s.memory.len() <= 32768
}

/// If the coming instruction is `rmem`, the cell it fetches holds a
/// literal. `rmem` moves the raw cell, so fetching a stored register
/// reference is the one way a register could come to hold a non-word.
pub open spec fn rmem_fetches_word(s: State) -> bool {
    read_value(s, s.pointer as int) == Ok::<u16, VmError>(15u16) ==> (match read_value(
        s,
        s.pointer as int + 2,
    ) {
        Ok(a) => a < s.memory.len() ==> s.memory[a as int] < 32768,
        Err(_) => true,
    })
}

/// If the coming instruction is `call`, the return address it pushes fits
/// a 15-bit word. A call in the last two cells of a full image would push
/// a return address of 32768 or more onto the stack.
pub open spec fn call_link_is_word(s: State) -> bool {
    read_value(s, s.pointer as int) == Ok::<u16, VmError>(17u16) ==> s.pointer + 2 < 32768
}

/// Resolving an operand of a machine whose registers hold words yields a
/// word: a literal is one by its range, a register reference reads one.
proof fn lemma_read_value_is_word(s: State, a: int)
    requires
        s.registers.len() == 8,
        forall|i: int| 0 <= i < s.registers.len() ==> s.registers[i] < 32768,
    ensures
        read_value(s, a) matches Ok(v) ==> v < 32768,
{
}

/// Updating one register with a word keeps a word-only machine word-only,
/// whatever the instruction did to the pointer.
proof fn lemma_store_register_preserves(s: State, t: State, r: int, v: u16)
    requires
        words_only(s),
        v < 32768,
        0 <= r < 8,
        t.memory == s.memory,
        t.stack == s.stack,
        t.input == s.input,
        t.registers == s.registers.update(r, v),
    ensures
        words_only(t),
{
    assert forall|i: int| 0 <= i < t.registers.len() implies t.registers[i] < 32768 by {
        if i != r {
            assert(t.registers[i] == s.registers[i]);
        }
    }
}

/// The common register-destination instructions preserve a word-only
/// machine when what they store is a word.
proof fn lemma_store_binary_preserves(s: State, t: State, f: spec_fn(u16, u16) -> u16)
    requires
        words_only(s),
        store_binary_spec(s, f) == Step::Next(t),
        forall|a: u16, b: u16| a < 32768 && b < 32768 ==> #[trigger] f(a, b) < 32768,
    ensures
        words_only(t),
{
    let p = s.pointer as int;
    match get_register(s, p + 1) {
        Ok(r) => match read_value(s, p + 2) {
            Ok(a) => match read_value(s, p + 3) {
                Ok(b) => {
                    lemma_read_value_is_word(s, p + 2);
                    lemma_read_value_is_word(s, p + 3);
                    lemma_store_register_preserves(s, t, r as int, f(a, b));
                },
                Err(_) => assert(false),
            },
            Err(_) => assert(false),
        },
        Err(_) => assert(false),
    }
}

/// Law: a complete step of a word-only machine leaves it word-only —
/// every register, stack cell and pending input code stays below 32768 —
/// provided an `rmem` fetches a literal and a `call` pushes a return
/// address in the word range; those are the two instructions that can
/// smuggle a bare 16-bit value into a register or onto the stack.
pub proof fn lemma_step_preserves_words(s: State, t: State)
    requires
        words_only(s),
        step_spec(s) == Step::Next(t),
        rmem_fetches_word(s),
        call_link_is_word(s),
    ensures
        words_only(t),
{
    let p = s.pointer as int;
    match read_value(s, p) {
        Err(_) => assert(false),
        Ok(op) => {
            if op == 1 {
                // set
                match get_register(s, p + 1) {
                    Ok(r) => match read_value(s, p + 2) {
                        Ok(v) => {
                            lemma_read_value_is_word(s, p + 2);
                            lemma_store_register_preserves(s, t, r as int, v);
                        },
                        Err(_) => assert(false),
                    },
                    Err(_) => assert(false),
                }
            } else if op == 2 {
                // push
                match read_value(s, p + 1) {
                    Ok(v) => {
                        lemma_read_value_is_word(s, p + 1);
                        assert forall|i: int| 0 <= i < t.stack.len() implies t.stack[i] < 32768
                        by {
                            if i != s.stack.len() {
                                assert(t.stack[i] == s.stack[i]);
                            }
                        }
                    },
                    Err(_) => assert(false),
                }
            } else if op == 3 {
                // pop
                match get_register(s, p + 1) {
                    Ok(r) => {
                        assert(s.stack.len() > 0);
                        assert(s.stack.last() < 32768);
                        assert forall|i: int| 0 <= i < t.registers.len() implies t.registers[i]
                            < 32768 by {
                            if i != r {
                                assert(t.registers[i] == s.registers[i]);
                            }
                        }
                        assert forall|i: int| 0 <= i < t.stack.len() implies t.stack[i] < 32768 by {
                            assert(t.stack[i] == s.stack[i]);
                        }
                    },
                    Err(_) => assert(false),
                }
            } else if op == 4 {
                lemma_store_binary_preserves(
                    s,
                    t,
                    |a: u16, b: u16| if a == b { 1u16 } else { 0u16 },
                );
            } else if op == 5 {
                lemma_store_binary_preserves(
                    s,
                    t,
                    |a: u16, b: u16| if a > b { 1u16 } else { 0u16 },
                );
            } else if op == 9 {
                lemma_store_binary_preserves(s, t, |a: u16, b: u16| word_add(a, b));
            } else if op == 10 {
                lemma_store_binary_preserves(s, t, |a: u16, b: u16| word_mul(a, b));
            } else if op == 11 {
                // mod
                match get_register(s, p + 1) {
                    Ok(r) => match read_value(s, p + 2) {
                        Ok(a) => match read_value(s, p + 3) {
                            Ok(b) => {
                                lemma_read_value_is_word(s, p + 3);
                                assert(b != 0);
                                assert(word_mod(a, b) < 32768);
                                lemma_store_register_preserves(s, t, r as int, word_mod(a, b));
                            },
                            Err(_) => assert(false),
                        },
                        Err(_) => assert(false),
                    },
                    Err(_) => assert(false),
                }
            } else if op == 12 {
                lemma_store_binary_preserves(s, t, |a: u16, b: u16| word_and(a, b));
            } else if op == 13 {
                lemma_store_binary_preserves(s, t, |a: u16, b: u16| word_or(a, b));
            } else if op == 14 {
                // not
                match get_register(s, p + 1) {
                    Ok(r) => match read_value(s, p + 2) {
                        Ok(a) => {
                            lemma_store_register_preserves(s, t, r as int, word_not(a));
                        },
                        Err(_) => assert(false),
                    },
                    Err(_) => assert(false),
                }
            } else if op == 15 {
                // rmem
                match get_register(s, p + 1) {
                    Ok(r) => match read_value(s, p + 2) {
                        Ok(a) => {
                            assert(a < s.memory.len());
                            assert(s.memory[a as int] < 32768);
                            lemma_store_register_preserves(s, t, r as int, s.memory[a as int]);
                        },
                        Err(_) => assert(false),
                    },
                    Err(_) => assert(false),
                }
            } else if op == 16 {
                // wmem: registers, stack and input untouched; the image
                // keeps its length.
                assert(t.registers == s.registers);
                assert(t.memory.len() == s.memory.len());
            } else if op == 17 {
                // call
                assert(s.pointer + 2 < 32768);
                assert forall|i: int| 0 <= i < t.stack.len() implies t.stack[i] < 32768 by {
                    if i != s.stack.len() {
                        assert(t.stack[i] == s.stack[i]);
                    }
                }
            } else if op == 20 {
                // in
                match get_register(s, p + 1) {
                    Ok(r) => {
                        assert(s.input.len() > 0);
                        assert(s.input[0] < 32768);
                        assert(t.registers == s.registers.update(r as int, s.input[0]));
                        assert forall|i: int| 0 <= i < t.registers.len() implies t.registers[i]
                            < 32768 by {
                            if i != r {
                                assert(t.registers[i] == s.registers[i]);
                            }
                        }
                        assert forall|i: int| 0 <= i < t.input.len() implies t.input[i] < 32768 by {
                            assert(t.input[i] == s.input[i + 1]);
                        }
                    },
                    Err(_) => assert(false),
                }
            } else {
                // jmp, jt, jf, ret, out, noop: no register, stack cell or
                // input code gains a value; ret only shortens the stack.
            }
        },
    }
}

/// A machine fresh from boot with any fitting program image loaded holds
/// only words: the base case of the preservation law.
pub proof fn lemma_loaded_machine_words_only(program: Seq<u16>)
    requires
        program.len() <= 32768,
    ensures
        words_only(State { memory: program, ..init_state() }),
{
}

/// Law: the word invariant holds after every instruction — any number of
/// complete steps from a word-only machine leaves it word-only, as long as
/// each step along the way meets the `rmem` and `call` side conditions.
pub proof fn lemma_advance_preserves_words(s: State, t: State, n: nat)
    requires
        words_only(s),
        advance(s, n) == Some(t),
        forall|k: nat|
            k < n ==> (match #[trigger] advance(s, k) {
                Some(u) => rmem_fetches_word(u) && call_link_is_word(u),
                None => true,
            }),
    ensures
        words_only(t),
    decreases n,
{
    if n > 0 {
        match advance(s, (n - 1) as nat) {
            Some(u) => {
                lemma_advance_preserves_words(s, u, (n - 1) as nat);
                assert(advance(s, (n - 1) as nat) == Some(u));
                lemma_step_preserves_words(u, t);
            },
            None => {
                assert(false);
            },
        }
    }
}

/// Law: the guest cannot plant a register reference, or anything else
/// outside the word range, in memory. A complete step of a machine whose
/// registers hold words leaves every memory cell either untouched or
/// holding a literal below 32768 — `wmem` stores resolved values only. So
/// a cell in the register-reference range can only have come from the
/// loaded image.
pub proof fn lemma_guest_writes_store_words(s: State, t: State)
    requires
        s.registers.len() == 8,
        forall|i: int| 0 <= i < s.registers.len() ==> s.registers[i] < 32768,
        step_spec(s) == Step::Next(t),
    ensures
        t.memory.len() == s.memory.len(),
        forall|a: int|
            0 <= a < t.memory.len() ==> t.memory[a] == s.memory[a] || t.memory[a] < 32768,
{
    let p = s.pointer as int;
    match read_value(s, p) {
        Err(_) => assert(false),
        Ok(op) => {
            if op == 16 {
                // wmem
                match read_value(s, p + 1) {
                    Ok(a) => match read_value(s, p + 2) {
                        Ok(v) => {
                            lemma_read_value_is_word(s, p + 2);
                            assert forall|i: int| 0 <= i < t.memory.len() implies t.memory[i]
                                == s.memory[i] || t.memory[i] < 32768 by {
                                if i != a as int {
                                    assert(t.memory[i] == s.memory[i]);
                                }
                            }
                        },
                        Err(_) => assert(false),
                    },
                    Err(_) => assert(false),
                }
            } else {
                // every other instruction leaves the image untouched
            }
        },
    }
}

/// Law: once a loaded image holds no cell of 32776 or more, no complete
/// step introduces one; illegal words can only predate execution.
pub proof fn lemma_memory_stays_legal(s: State, t: State)
    requires
        s.registers.len() == 8,
        forall|i: int| 0 <= i < s.registers.len() ==> s.registers[i] < 32768,
        step_spec(s) == Step::Next(t),
        forall|a: int| 0 <= a < s.memory.len() ==> s.memory[a] < 32776,
    ensures
        forall|a: int| 0 <= a < t.memory.len() ==> t.memory[a] < 32776,
{
    lemma_guest_writes_store_words(s, t);
}

/// Law: the machine's arithmetic is closed over 15-bit words — every
/// result an arithmetic instruction can store from word sources is itself
/// in `[0, 32768)`.
pub proof fn lemma_arithmetic_closure(a: u16, b: u16)
    requires
        a < 32768,
        b < 32768,
    ensures
        word_add(a, b) < 32768,
        word_mul(a, b) < 32768,
        word_and(a, b) < 32768,
        word_or(a, b) < 32768,
        word_not(a) < 32768,
        b != 0 ==> word_mod(a, b) < 32768,
{
}

/// Law: `push v` followed at once by `pop r` restores the stack exactly
/// and leaves the resolved value of `v` in the register `r`.
pub proof fn lemma_push_then_pop(s: State, t: State, u: State)
    requires
        s.registers.len() == 8,
        read_value(s, s.pointer as int) == Ok::<u16, VmError>(2u16),
        step_spec(s) == Step::Next(t),
        read_value(t, t.pointer as int) == Ok::<u16, VmError>(3u16),
        step_spec(t) == Step::Next(u),
    ensures
        u.stack == s.stack,
        (match (get_register(t, t.pointer as int + 1), read_value(s, s.pointer as int + 1)) {
            (Ok(r), Ok(v)) => 0 <= r < u.registers.len() && u.registers[r as int] == v,
            _ => false,
        }),
{
    match read_value(s, s.pointer as int + 1) {
        Ok(v) => {
            assert(t.stack == s.stack.push(v));
            match get_register(t, t.pointer as int + 1) {
                Ok(r) => {
                    assert(t.stack.last() == v);
                    assert(u.stack =~= s.stack);
                    assert(u.registers == t.registers.update(r as int, v));
                },
                Err(_) => assert(false),
            }
        },
        Err(_) => assert(false),
    }
}

/// Law: `call` records the address of the instruction after itself, and a
/// `ret` reached with the stack as the call left it jumps exactly there,
/// restoring the stack to its depth before the call — calls and returns
/// balance.
pub proof fn lemma_call_then_ret(s: State, t: State, w: State, u: State)
    requires
        s.inv(),
        read_value(s, s.pointer as int) == Ok::<u16, VmError>(17u16),
        step_spec(s) == Step::Next(t),
        w.stack == t.stack,
        read_value(w, w.pointer as int) == Ok::<u16, VmError>(18u16),
        step_spec(w) == Step::Next(u),
    ensures
        u.pointer == s.pointer + 2,
        u.stack == s.stack,
{
    match read_value(s, s.pointer as int) {
        Ok(_) => {
            assert(s.pointer < s.memory.len());
            assert(s.pointer + 2 < 65536);
            assert(t.stack == s.stack.push((s.pointer + 2) as u16));
            assert(w.stack.last() == (s.pointer + 2) as u16);
            assert(u.stack =~= s.stack);
        },
        Err(_) => assert(false),
    }
}

/// Law: a value just stored by `set` compares equal to itself — after
/// `set r v`, an `eq` whose first source is the register `r` and whose
/// second source resolves to what the set resolved writes 1, provided
/// nothing wrote to `r` in between.
pub proof fn lemma_set_then_eq(s: State, t: State, w: State, u: State)
    requires
        s.registers.len() == 8,
        read_value(s, s.pointer as int) == Ok::<u16, VmError>(1u16),
        step_spec(s) == Step::Next(t),
        read_value(w, w.pointer as int) == Ok::<u16, VmError>(4u16),
        step_spec(w) == Step::Next(u),
        (match get_register(s, s.pointer as int + 1) {
            Ok(r) => {
                // nothing wrote to the register since the set ...
                &&& w.registers.len() == t.registers.len()
                &&& w.registers[r as int] == t.registers[r as int]
                // ... and the eq's first source names that register,
                &&& get_value(w, w.pointer as int + 2) == Ok::<Value, VmError>(
                    Value::Register(r),
                )
            },
            Err(_) => false,
        }),
        // while its second source resolves to what the set resolved:
        read_value(w, w.pointer as int + 3) == read_value(s, s.pointer as int + 2),
    ensures
        (match get_register(w, w.pointer as int + 1) {
            Ok(d) => 0 <= d < u.registers.len() && u.registers[d as int] == 1,
            Err(_) => false,
        }),
{
    match get_register(s, s.pointer as int + 1) {
        Ok(r) => match read_value(s, s.pointer as int + 2) {
            Ok(v) => {
                assert(t.registers == s.registers.update(r as int, v));
                assert(t.registers[r as int] == v);
                assert(read_value(w, w.pointer as int + 2) == Ok::<u16, VmError>(v));
                match get_register(w, w.pointer as int + 1) {
                    Ok(d) => {
                        assert(u.registers == w.registers.update(d as int, 1u16));
                    },
                    Err(_) => assert(false),
                }
            },
            Err(_) => assert(false),
        },
        Err(_) => assert(false),
    }
}

} // verus!
