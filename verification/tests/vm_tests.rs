use wordvm::input::InputFeed;
use wordvm::isa::{Arg, DecodeError, LoadError, Op, RuntimeError};
use wordvm::run::RunStop;
use wordvm::step::StepCtl;
use wordvm::vm::VM;

/// Packs words into a little-endian byte image.
fn image(words: &[u16]) -> Vec<u8> {
    let mut bytes: Vec<u8> = Vec::new();
    for w in words {
        bytes.push((w & 0xff) as u8);
        bytes.push((w >> 8) as u8);
    }
    bytes
}

/// Loads a word image into a fresh machine.
fn boot(words: &[u16]) -> VM {
    let mut vm = VM::new();
    vm.load(&image(words)).expect("image loads");
    vm
}

/// Runs a booted machine with the given input characters and a generous step
/// budget, returning the run result and the collected output.
fn run_words(
    words: &[u16],
    input: &[u16],
) -> (VM, Result<RunStop, RuntimeError>, Vec<u16>) {
    let mut vm = boot(words);
    let mut feed = InputFeed::new();
    feed.feed(&input.to_vec());
    let mut out: Vec<u16> = Vec::new();
    let r = vm.run(&mut feed, &mut out, 10_000);
    (vm, r, out)
}

#[test]
fn add_wraps_modulo_32768() {
    // Add reg0 <- 32767 + 1 wraps to 0.
    let (vm, r, _) = run_words(&[9, 32768, 32767, 1, 0], &[]);
    assert_eq!(r, Ok(RunStop::Halted));
    assert_eq!(vm.register(0), 0);
}

#[test]
fn add_plain_sum() {
    let (vm, r, _) = run_words(&[9, 32768, 1200, 34, 0], &[]);
    assert_eq!(r, Ok(RunStop::Halted));
    assert_eq!(vm.register(0), 1234);
}

#[test]
fn mult_wraps_modulo_32768() {
    // 1000 * 1000 = 1000000; 1000000 mod 32768 = 16960.
    let (vm, r, _) = run_words(&[10, 32768, 1000, 1000, 0], &[]);
    assert_eq!(r, Ok(RunStop::Halted));
    assert_eq!(vm.register(0), 16960);
}

#[test]
fn eq_produces_exactly_one_or_zero() {
    let (vm, _, _) = run_words(&[4, 32768, 5, 5, 0], &[]);
    assert_eq!(vm.register(0), 1);
    let (vm, _, _) = run_words(&[4, 32768, 5, 6, 0], &[]);
    assert_eq!(vm.register(0), 0);
}

#[test]
fn gt_produces_exactly_one_or_zero() {
    let (vm, _, _) = run_words(&[5, 32768, 7, 3, 0], &[]);
    assert_eq!(vm.register(0), 1);
    let (vm, _, _) = run_words(&[5, 32768, 3, 7, 0], &[]);
    assert_eq!(vm.register(0), 0);
}

#[test]
fn jt_transfers_only_on_nonzero() {
    // 0: Jt cond 7; 3: Out 65; 5: Halt; 6: pad; 7: Out 66; 9: Halt.
    let taken = [7, 1, 7, 19, 65, 0, 0, 19, 66, 0];
    let (_, r, out) = run_words(&taken, &[]);
    assert_eq!(r, Ok(RunStop::Halted));
    assert_eq!(out, vec![66]);
    let not_taken = [7, 0, 7, 19, 65, 0, 0, 19, 66, 0];
    let (_, r, out) = run_words(&not_taken, &[]);
    assert_eq!(r, Ok(RunStop::Halted));
    assert_eq!(out, vec![65]);
}

#[test]
fn jf_transfers_only_on_zero() {
    let taken = [8, 0, 7, 19, 65, 0, 0, 19, 66, 0];
    let (_, r, out) = run_words(&taken, &[]);
    assert_eq!(r, Ok(RunStop::Halted));
    assert_eq!(out, vec![66]);
    let not_taken = [8, 1, 7, 19, 65, 0, 0, 19, 66, 0];
    let (_, r, out) = run_words(&not_taken, &[]);
    assert_eq!(r, Ok(RunStop::Halted));
    assert_eq!(out, vec![65]);
}

#[test]
fn jmp_is_unconditional() {
    // 0: Jmp 4; 2: Out 65; 4: Out 66; 6: Halt.
    let (_, r, out) = run_words(&[6, 4, 19, 65, 19, 66, 0], &[]);
    assert_eq!(r, Ok(RunStop::Halted));
    assert_eq!(out, vec![66]);
}

#[test]
fn push_pop_round_trip() {
    // Push 42; Pop reg3; Halt.
    let (vm, r, _) = run_words(&[2, 42, 3, 32771, 0], &[]);
    assert_eq!(r, Ok(RunStop::Halted));
    assert_eq!(vm.register(3), 42);
    assert_eq!(vm.stack_depth(), 0);
}

#[test]
fn call_ret_resumes_after_call() {
    // 0: Call 4; 2: Halt; 3: pad; 4: Set reg0 7; 7: Ret.
    let (vm, r, _) = run_words(&[17, 4, 0, 0, 1, 32768, 7, 18], &[]);
    assert_eq!(r, Ok(RunStop::Halted));
    assert_eq!(vm.register(0), 7);
    assert_eq!(vm.stack_depth(), 0);
    // The Halt the machine stopped at is the word right after the Call.
    assert_eq!(vm.pc(), 3);
}

#[test]
fn unknown_opcode_fails_decoding() {
    let (_, r, _) = run_words(&[22], &[]);
    assert_eq!(r, Err(RuntimeError::Decode(DecodeError::UnknownOpcode)));
    let (_, r, _) = run_words(&[21, 500, 0], &[]);
    assert_eq!(r, Err(RuntimeError::Decode(DecodeError::UnknownOpcode)));
}

#[test]
fn op_try_from_covers_the_table() {
    assert_eq!(Op::try_from(0), Ok(Op::Halt));
    assert_eq!(Op::try_from(1), Ok(Op::SetReg));
    assert_eq!(Op::try_from(11), Ok(Op::Mod));
    assert_eq!(Op::try_from(21), Ok(Op::Noop));
    assert_eq!(Op::try_from(22), Err(DecodeError::UnknownOpcode));
    assert_eq!(Op::try_from(65535), Err(DecodeError::UnknownOpcode));
}

#[test]
fn arg_try_from_splits_literals_and_registers() {
    assert_eq!(Arg::try_from(0), Ok(Arg::Literal(0)));
    assert_eq!(Arg::try_from(32767), Ok(Arg::Literal(32767)));
    assert_eq!(Arg::try_from(32768), Ok(Arg::Register(0)));
    assert_eq!(Arg::try_from(32775), Ok(Arg::Register(7)));
    assert_eq!(Arg::try_from(32776), Err(DecodeError::InvalidOperandEncoding));
}

#[test]
fn invalid_operand_encoding_fails_run() {
    let (_, r, _) = run_words(&[1, 32776, 0], &[]);
    assert_eq!(r, Err(RuntimeError::Decode(DecodeError::InvalidOperandEncoding)));
}

#[test]
fn literal_destination_is_invalid() {
    let (_, r, _) = run_words(&[9, 5, 1, 1], &[]);
    assert_eq!(r, Err(RuntimeError::InvalidDestination));
}

#[test]
fn pop_on_empty_stack_underflows() {
    let (_, r, _) = run_words(&[3, 32768], &[]);
    assert_eq!(r, Err(RuntimeError::StackUnderflow));
}

#[test]
fn ret_on_empty_stack_halts_gracefully() {
    let (_, r, _) = run_words(&[18], &[]);
    assert_eq!(r, Ok(RunStop::Halted));
}

#[test]
fn mod_by_zero_fails() {
    let (_, r, _) = run_words(&[11, 32768, 5, 0], &[]);
    assert_eq!(r, Err(RuntimeError::DivisionByZero));
}

#[test]
fn mod_computes_remainder() {
    let (vm, r, _) = run_words(&[11, 32768, 17, 5, 0], &[]);
    assert_eq!(r, Ok(RunStop::Halted));
    assert_eq!(vm.register(0), 2);
}

#[test]
fn out_of_character_range_fails() {
    let (_, r, _) = run_words(&[19, 300], &[]);
    assert_eq!(r, Err(RuntimeError::NonCharacterValue));
}

#[test]
fn bitwise_and_or_not() {
    let (vm, _, _) = run_words(&[12, 32768, 12, 10, 0], &[]);
    assert_eq!(vm.register(0), 8);
    let (vm, _, _) = run_words(&[13, 32768, 12, 10, 0], &[]);
    assert_eq!(vm.register(0), 14);
    let (vm, _, _) = run_words(&[14, 32768, 0, 0], &[]);
    assert_eq!(vm.register(0), 0x7fff);
    let (vm, _, _) = run_words(&[14, 32768, 0x7fff, 0], &[]);
    assert_eq!(vm.register(0), 0);
}

#[test]
fn wmem_rmem_round_trip() {
    // Wmem 100 1234; Rmem reg0 100; Halt.
    let (vm, r, _) = run_words(&[16, 100, 1234, 15, 32768, 100, 0], &[]);
    assert_eq!(r, Ok(RunStop::Halted));
    assert_eq!(vm.register(0), 1234);
    assert_eq!(vm.memory_at(100), 1234);
}

#[test]
fn rmem_past_end_of_memory_fails() {
    let (_, r, _) = run_words(&[15, 32768, 32767], &[]);
    assert_eq!(r, Err(RuntimeError::OutOfRangeAddress));
}

#[test]
fn wmem_past_end_of_memory_fails() {
    let (_, r, _) = run_words(&[16, 32767, 1], &[]);
    assert_eq!(r, Err(RuntimeError::OutOfRangeAddress));
}

#[test]
fn jump_to_end_of_memory_stops_gracefully() {
    let (_, r, _) = run_words(&[6, 32767], &[]);
    assert_eq!(r, Ok(RunStop::Halted));
}

#[test]
fn step_budget_stops_an_endless_loop() {
    let (_, r, _) = {
        let mut vm = boot(&[6, 0]);
        let mut feed = InputFeed::new();
        let mut out: Vec<u16> = Vec::new();
        let r = vm.run(&mut feed, &mut out, 10);
        (vm, r, out)
    };
    assert_eq!(r, Ok(RunStop::StepLimit));
}

#[test]
fn arithmetic_scenario_writes_code_eleven() {
    // Set reg0 5; Set reg1 6; Add reg0 reg0 reg1; Out reg0; Halt.
    let words = [1, 32768, 5, 1, 32769, 6, 9, 32768, 32768, 32769, 19, 32768, 0];
    let (vm, r, out) = run_words(&words, &[]);
    assert_eq!(r, Ok(RunStop::Halted));
    assert_eq!(vm.register(0), 11);
    assert_eq!(out, vec![11]);
}

#[test]
fn echo_scenario_reads_and_writes_a() {
    // In reg0; Out reg0; Halt — with input line "A\n".
    let words = [20, 32768, 19, 32768, 0];
    let (vm, r, out) = run_words(&words, &[65, 10]);
    assert_eq!(r, Ok(RunStop::Halted));
    assert_eq!(vm.register(0), 65);
    assert_eq!(out, vec![65]);
}

#[test]
fn input_exhaustion_pauses_and_feeding_resumes() {
    let words = [20, 32768, 19, 32768, 0];
    let mut vm = boot(&words);
    let mut feed = InputFeed::new();
    let mut out: Vec<u16> = Vec::new();
    assert_eq!(vm.run(&mut feed, &mut out, 1000), Ok(RunStop::NeedInput));
    assert_eq!(out, vec![]);
    feed.feed(&vec![66, 10]);
    assert_eq!(vm.run(&mut feed, &mut out, 1000), Ok(RunStop::Halted));
    assert_eq!(vm.register(0), 66);
    assert_eq!(out, vec![66]);
}

#[test]
fn odd_length_image_fails_loading() {
    let mut vm = VM::new();
    let r = vm.load(&vec![1, 2, 3]);
    assert_eq!(r, Err(LoadError::UnpairedTrailingByte));
}

#[test]
fn words_are_little_endian() {
    let mut vm = VM::new();
    vm.load(&vec![0x34, 0x12]).expect("image loads");
    assert_eq!(vm.memory_at(0), 0x1234);
    assert_eq!(vm.memory_at(1), 0);
}

#[test]
fn oversized_image_is_truncated_silently() {
    // Two more bytes than memory can hold: the surplus pair is dropped.
    let mut bytes: Vec<u8> = Vec::new();
    for _ in 0..32768 {
        bytes.push(0xff);
        bytes.push(0x01);
    }
    let mut vm = VM::new();
    assert_eq!(vm.load(&bytes), Ok(()));
    assert_eq!(vm.memory_at(32766), 0x01ff);
    // A trailing odd byte past capacity is dropped too, not an error.
    bytes.push(0x7f);
    let mut vm = VM::new();
    assert_eq!(vm.load(&bytes), Ok(()));
}

#[test]
fn fresh_machine_is_all_zero() {
    let vm = VM::new();
    assert_eq!(vm.pc(), 0);
    assert_eq!(vm.stack_depth(), 0);
    for r in 0..8 {
        assert_eq!(vm.register(r), 0);
    }
    assert_eq!(vm.memory_at(0), 0);
    assert_eq!(vm.memory_at(32766), 0);
}

#[test]
fn read_instruction_decodes_slots_in_order() {
    let mut vm = boot(&[9, 32768, 5, 6]);
    let inst = vm.read_instruction().expect("decodes");
    assert!(matches!(inst.op, Op::Add));
    assert_eq!(inst.a, Some(Arg::Register(0)));
    assert_eq!(inst.b, Some(Arg::Literal(5)));
    assert_eq!(inst.c, Some(Arg::Literal(6)));
    assert_eq!(vm.pc(), 4);
}

#[test]
fn read_next_advances_the_counter() {
    let mut vm = boot(&[21, 7]);
    assert_eq!(vm.read_next(), Ok(21));
    assert_eq!(vm.read_next(), Ok(7));
    assert_eq!(vm.pc(), 2);
}

#[test]
fn read_argument_classifies_words() {
    let mut vm = boot(&[123, 32770]);
    assert_eq!(vm.read_argument(), Ok(Arg::Literal(123)));
    assert_eq!(vm.read_argument(), Ok(Arg::Register(2)));
}

#[test]
fn get_value_resolves_registers() {
    // Set reg2 9; Halt — then resolve operands against the final state.
    let (vm, _, _) = run_words(&[1, 32770, 9, 0], &[]);
    assert_eq!(vm.get_value(Arg::Literal(5)), 5);
    assert_eq!(vm.get_value(Arg::Register(2)), 9);
}

#[test]
fn instruction_new_leaves_slots_empty() {
    let inst = wordvm::isa::Instruction::new(Op::Noop);
    assert!(matches!(inst.op, Op::Noop));
    assert_eq!(inst.a, None);
    assert_eq!(inst.b, None);
    assert_eq!(inst.c, None);
}

#[test]
fn step_reports_one_output_at_a_time() {
    let mut vm = boot(&[19, 72, 19, 73, 0]);
    let mut feed = InputFeed::new();
    assert_eq!(vm.step(&mut feed), StepCtl::Output(72));
    assert_eq!(vm.step(&mut feed), StepCtl::Output(73));
    assert_eq!(vm.step(&mut feed), StepCtl::Halted);
}

#[test]
fn step_waits_without_consuming_when_input_is_dry() {
    let mut vm = boot(&[20, 32768, 0]);
    let mut feed = InputFeed::new();
    assert_eq!(vm.step(&mut feed), StepCtl::NeedInput);
    assert_eq!(vm.pc(), 0);
    feed.feed(&vec![90]);
    assert_eq!(vm.step(&mut feed), StepCtl::Running);
    assert_eq!(vm.register(0), 90);
}

#[test]
fn input_feed_serves_characters_in_order() {
    let mut feed = InputFeed::new();
    assert_eq!(feed.next_char(), None);
    feed.feed(&vec![104, 105, 10]);
    assert_eq!(feed.remaining(), 3);
    assert_eq!(feed.next_char(), Some(104));
    feed.feed(&vec![33]);
    assert_eq!(feed.next_char(), Some(105));
    assert_eq!(feed.next_char(), Some(10));
    assert_eq!(feed.next_char(), Some(33));
    assert_eq!(feed.next_char(), None);
}

#[test]
fn noop_only_advances() {
    let (vm, r, out) = run_words(&[21, 21, 0], &[]);
    assert_eq!(r, Ok(RunStop::Halted));
    assert_eq!(vm.pc(), 3);
    assert_eq!(out, vec![]);
    assert_eq!(vm.stack_depth(), 0);
}

#[test]
fn set_copies_resolved_value() {
    // Set reg1 5; Set reg0 reg1; Halt.
    let (vm, r, _) = run_words(&[1, 32769, 5, 1, 32768, 32769, 0], &[]);
    assert_eq!(r, Ok(RunStop::Halted));
    assert_eq!(vm.register(0), 5);
    assert_eq!(vm.register(1), 5);
}

#[test]
fn out_accepts_the_whole_byte_range() {
    let (_, r, out) = run_words(&[19, 0, 19, 255, 0], &[]);
    assert_eq!(r, Ok(RunStop::Halted));
    assert_eq!(out, vec![0, 255]);
}

#[test]
fn run_resumes_after_a_step_limit_pause() {
    let mut vm = boot(&[21, 19, 77, 0]);
    let mut feed = InputFeed::new();
    let mut out: Vec<u16> = Vec::new();
    assert_eq!(vm.run(&mut feed, &mut out, 1), Ok(RunStop::StepLimit));
    assert_eq!(out, vec![]);
    assert_eq!(vm.run(&mut feed, &mut out, 100), Ok(RunStop::Halted));
    assert_eq!(out, vec![77]);
}

#[test]
fn read_argument_failure_leaves_the_expected_counter() {
    // Invalid encoding: the word was consumed, so the counter moved by one.
    let mut vm = boot(&[32776]);
    assert_eq!(
        vm.read_argument(),
        Err(RuntimeError::Decode(DecodeError::InvalidOperandEncoding))
    );
    assert_eq!(vm.pc(), 1);
    // Counter already past the end of memory: nothing read, counter unmoved.
    let mut vm = boot(&[6, 32767]);
    let mut feed = InputFeed::new();
    let mut out: Vec<u16> = Vec::new();
    assert_eq!(vm.run(&mut feed, &mut out, 10), Ok(RunStop::Halted));
    assert_eq!(vm.pc(), 32767);
    assert_eq!(vm.read_argument(), Err(RuntimeError::OutOfRangeAddress));
    assert_eq!(vm.pc(), 32767);
}
