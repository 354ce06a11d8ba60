use puzzle_vm::codec::VmError;
use puzzle_vm::loader::words_from_bytes;
use puzzle_vm::vm::{Outcome, VM};

const FUEL: usize = 10_000;

fn run_program(program: Vec<u16>) -> (VM, Outcome) {
    let mut vm = VM::boot().load_program(program);
    let outcome = vm.run(FUEL);
    (vm, outcome)
}

#[test]
fn emits_hi_and_halts() {
    let (mut vm, outcome) = run_program(vec![19, 72, 19, 105, 0]);
    assert_eq!(outcome, Outcome::Halted);
    assert_eq!(vm.take_output(), vec![72, 105]);
}

#[test]
fn add_with_preloaded_registers() {
    let mut vm = VM::boot().load_program(vec![9, 32768, 32769, 32770, 19, 32768, 0]);
    vm.set_register(1, 1);
    vm.set_register(2, 2);
    let outcome = vm.run(FUEL);
    assert_eq!(outcome, Outcome::Halted);
    assert_eq!(vm.register(0), 3);
    assert_eq!(vm.take_output(), vec![3]);
}

#[test]
fn add_with_set_instructions() {
    let (mut vm, outcome) = run_program(vec![
        1, 32769, 1, 1, 32770, 2, 9, 32768, 32769, 32770, 19, 32768, 0,
    ]);
    assert_eq!(outcome, Outcome::Halted);
    assert_eq!(vm.register(0), 3);
    assert_eq!(vm.take_output(), vec![3]);
}

#[test]
fn jump_skips_to_halt() {
    let (mut vm, outcome) = run_program(vec![6, 3, 0, 19, 65, 0]);
    assert_eq!(outcome, Outcome::Halted);
    assert_eq!(vm.take_output(), vec![65]);
}

#[test]
fn call_emits_and_returns_to_halt() {
    let (mut vm, outcome) = run_program(vec![17, 4, 0, 0, 19, 66, 18]);
    assert_eq!(outcome, Outcome::Halted);
    assert_eq!(vm.take_output(), vec![66]);
    // The call pushed 0 + 2, so the ret lands on the halt at address 2.
    assert_eq!(vm.pointer(), 2);
    assert_eq!(vm.stack_len(), 0);
}

#[test]
fn eq_then_jt_skips_the_false_branch() {
    // eq stores (5==5)=1 in r0 and jt jumps on it to address 9 — a halt —
    // so the 'N' at addresses 7..9 is never emitted.
    let (mut vm, outcome) = run_program(vec![
        4, 32768, 5, 5, 7, 32768, 9, 19, 78, 0, 19, 89, 0,
    ]);
    assert_eq!(outcome, Outcome::Halted);
    assert_eq!(vm.register(0), 1);
    assert_eq!(vm.take_output(), Vec::<u16>::new());
}

#[test]
fn eq_then_jt_reaches_the_true_branch() {
    // As above, but the jump lands on the 'Y' branch at address 10.
    let (mut vm, outcome) = run_program(vec![
        4, 32768, 5, 5, 7, 32768, 10, 19, 78, 0, 19, 89, 0,
    ]);
    assert_eq!(outcome, Outcome::Halted);
    assert_eq!(vm.register(0), 1);
    assert_eq!(vm.take_output(), vec![89]);
}

#[test]
fn echoes_one_character_from_input() {
    let mut vm = VM::boot().load_program(vec![20, 32768, 19, 32768, 0]);
    let outcome = vm.run(FUEL);
    assert_eq!(outcome, Outcome::NeedInput);
    vm.feed_line(vec![120, 10]);
    let outcome = vm.run(FUEL);
    assert_eq!(outcome, Outcome::Halted);
    assert_eq!(vm.take_output(), vec![120]);
}

#[test]
fn add_wraps_at_word_boundary() {
    let mut vm = VM::boot().load_program(vec![9, 32768, 32769, 32770, 0]);
    vm.set_register(1, 32767);
    vm.set_register(2, 1);
    assert_eq!(vm.run(FUEL), Outcome::Halted);
    assert_eq!(vm.register(0), 0);
}

#[test]
fn mult_wraps_at_word_boundary() {
    let mut vm = VM::boot().load_program(vec![10, 32768, 32769, 32770, 0]);
    vm.set_register(1, 32767);
    vm.set_register(2, 32767);
    assert_eq!(vm.run(FUEL), Outcome::Halted);
    assert_eq!(vm.register(0), 1);
}

#[test]
fn not_complements_fifteen_bits() {
    let (vm, outcome) = run_program(vec![14, 32768, 0, 14, 32769, 32767, 0]);
    assert_eq!(outcome, Outcome::Halted);
    assert_eq!(vm.register(0), 32767);
    assert_eq!(vm.register(1), 0);
}

#[test]
fn mod_takes_remainders() {
    let (vm, outcome) = run_program(vec![11, 32768, 5, 3, 11, 32769, 0, 7, 0]);
    assert_eq!(outcome, Outcome::Halted);
    assert_eq!(vm.register(0), 2);
    assert_eq!(vm.register(1), 0);
}

#[test]
fn and_or_mask_words() {
    let (vm, outcome) = run_program(vec![
        12, 32768, 12, 10, 13, 32769, 12, 10, 0,
    ]);
    assert_eq!(outcome, Outcome::Halted);
    assert_eq!(vm.register(0), 8);
    assert_eq!(vm.register(1), 14);
}

#[test]
fn gt_compares_words() {
    let (vm, outcome) = run_program(vec![5, 32768, 7, 3, 5, 32769, 3, 7, 0]);
    assert_eq!(outcome, Outcome::Halted);
    assert_eq!(vm.register(0), 1);
    assert_eq!(vm.register(1), 0);
}

#[test]
fn word_32770_names_register_two() {
    let (vm, outcome) = run_program(vec![1, 32770, 7, 0]);
    assert_eq!(outcome, Outcome::Halted);
    assert_eq!(vm.register(2), 7);
}

#[test]
fn push_then_pop_round_trips() {
    let (vm, outcome) = run_program(vec![2, 5, 3, 32770, 0]);
    assert_eq!(outcome, Outcome::Halted);
    assert_eq!(vm.register(2), 5);
    assert_eq!(vm.stack_len(), 0);
}

#[test]
fn set_then_eq_sees_the_stored_value() {
    let (vm, outcome) = run_program(vec![1, 32768, 42, 4, 32769, 32768, 42, 0]);
    assert_eq!(outcome, Outcome::Halted);
    assert_eq!(vm.register(1), 1);
}

#[test]
fn rmem_fetches_the_raw_cell() {
    let (vm, outcome) = run_program(vec![15, 32768, 4, 0, 7, 0]);
    assert_eq!(outcome, Outcome::Halted);
    assert_eq!(vm.register(0), 7);
}

#[test]
fn rmem_does_not_resolve_a_stored_register_reference() {
    // Address 4 holds 32769, the encoding of register 1. A fetch that ran
    // the cell through operand resolution would store the contents of
    // register 1 instead of the raw cell.
    let mut vm = VM::boot().load_program(vec![15, 32768, 4, 0, 32769]);
    vm.set_register(1, 99);
    assert_eq!(vm.run(FUEL), Outcome::Halted);
    assert_eq!(vm.register(0), 32769);
}

#[test]
fn wmem_overwrites_a_cell() {
    // Write 0 (halt) over the cell that would otherwise be an unknown
    // opcode.
    let (vm, outcome) = run_program(vec![16, 3, 0, 999]);
    assert_eq!(outcome, Outcome::Halted);
    assert_eq!(vm.pointer(), 3);
}

#[test]
fn loader_pairs_bytes_little_endian() {
    assert_eq!(words_from_bytes(&[0x12, 0x34]), vec![0x3412]);
}

#[test]
fn loader_drops_an_odd_trailing_byte() {
    assert_eq!(words_from_bytes(&[0x12, 0x34, 0x56]), vec![0x3412]);
    assert_eq!(words_from_bytes(&[0x56]), Vec::<u16>::new());
    assert_eq!(words_from_bytes(&[]), Vec::<u16>::new());
}

#[test]
fn illegal_word_is_fatal() {
    let (_, outcome) = run_program(vec![32776, 0]);
    assert_eq!(outcome, Outcome::Failed(VmError::IllegalWord));
}

#[test]
fn literal_destination_is_fatal() {
    let (_, outcome) = run_program(vec![1, 5, 0, 0]);
    assert_eq!(outcome, Outcome::Failed(VmError::ExpectedRegister));
}

#[test]
fn unknown_opcode_is_fatal() {
    let (_, outcome) = run_program(vec![22, 0]);
    assert_eq!(outcome, Outcome::Failed(VmError::UnknownOpcode));
}

#[test]
fn pop_on_empty_stack_is_fatal() {
    let (_, outcome) = run_program(vec![3, 32768, 0]);
    assert_eq!(outcome, Outcome::Failed(VmError::StackUnderflow));
}

#[test]
fn ret_on_empty_stack_is_fatal() {
    let (_, outcome) = run_program(vec![18, 0]);
    assert_eq!(outcome, Outcome::Failed(VmError::StackUnderflow));
}

#[test]
fn division_by_zero_is_fatal() {
    let (_, outcome) = run_program(vec![11, 32768, 5, 0, 0]);
    assert_eq!(outcome, Outcome::Failed(VmError::DivisionByZero));
}

#[test]
fn running_off_the_image_is_fatal() {
    let (_, outcome) = run_program(vec![21, 21]);
    assert_eq!(outcome, Outcome::Failed(VmError::OutOfBounds));
    let (_, outcome2) = run_program(vec![6, 100, 0]);
    assert_eq!(outcome2, Outcome::Failed(VmError::OutOfBounds));
}

#[test]
fn run_reports_an_exhausted_step_budget() {
    let mut vm = VM::boot().load_program(vec![21, 21, 21, 0]);
    assert_eq!(vm.run(2), Outcome::Running);
    assert_eq!(vm.pointer(), 2);
    assert_eq!(vm.run(FUEL), Outcome::Halted);
}

#[test]
fn step_advances_one_instruction() {
    let mut vm = VM::boot().load_program(vec![21, 0]);
    assert_eq!(vm.step(), Outcome::Running);
    assert_eq!(vm.pointer(), 1);
    assert_eq!(vm.step(), Outcome::Halted);
}

#[test]
fn take_output_drains_the_buffer() {
    let (mut vm, outcome) = run_program(vec![19, 72, 0]);
    assert_eq!(outcome, Outcome::Halted);
    assert_eq!(vm.take_output(), vec![72]);
    assert_eq!(vm.take_output(), Vec::<u16>::new());
}

#[test]
fn input_queue_survives_across_reads() {
    // Two `in` instructions served by one fed line.
    let mut vm = VM::boot().load_program(vec![20, 32768, 20, 32769, 0]);
    assert_eq!(vm.run(FUEL), Outcome::NeedInput);
    vm.feed_line(vec![104, 105, 10]);
    assert_eq!(vm.run(FUEL), Outcome::Halted);
    assert_eq!(vm.register(0), 104);
    assert_eq!(vm.register(1), 105);
}
