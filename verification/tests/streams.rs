use contract_bench::code::create_code;
use contract_bench::instructions::{
    body, body_counted, body_repeated, check_counters, emit, Body, CountedInstruction, Instruction,
};
use contract_bench::module::ModuleDefinition;
use parity_wasm::elements::{Instruction as W, Module};

#[test]
fn single_shot_emits_the_sequence_once() {
    let stream = body(vec![Instruction::I32Const(4), Instruction::Call(0), Instruction::End]);
    assert_eq!(
        stream.instructions,
        vec![Instruction::I32Const(4), Instruction::Call(0), Instruction::End]
    );
}

#[test]
fn empty_body_is_the_terminator_alone() {
    assert_eq!(Body::empty().instructions, vec![Instruction::End]);
    let copy = Body::empty().duplicate();
    assert_eq!(copy.instructions, vec![Instruction::End]);
}

#[test]
fn cyclic_repeat_has_n_times_k_instructions_and_a_terminator() {
    let pattern = [Instruction::I32Const(4), Instruction::I32Const(0), Instruction::Call(0)];
    for n in [0u32, 1, 2, 7, 100] {
        let stream = body_repeated(n, &pattern);
        assert_eq!(stream.instructions.len(), n as usize * 3 + 1);
        assert_eq!(*stream.instructions.last().unwrap(), Instruction::End);
        for (i, instruction) in stream.instructions[..n as usize * 3].iter().enumerate() {
            assert_eq!(*instruction, pattern[i % 3]);
        }
    }
}

#[test]
fn cyclic_repeat_of_nothing_is_the_terminator() {
    assert_eq!(body_repeated(5, &[]).instructions, vec![Instruction::End]);
    assert_eq!(body_repeated(0, &[Instruction::Nop]).instructions, vec![Instruction::End]);
}

#[test]
fn cyclic_repeat_decodes_to_the_same_count() {
    let pattern = [Instruction::I32Const(42), Instruction::Drop];
    let definition = ModuleDefinition { call_body: Some(body_repeated(9, &pattern)), ..Default::default() };
    let module = create_code(definition).unwrap();
    let decoded = parity_wasm::deserialize_buffer::<Module>(&module.code).unwrap();
    let elements = decoded.code_section().unwrap().bodies()[1].code().elements().to_vec();
    assert_eq!(elements.len(), 9 * 2 + 1);
    assert_eq!(elements[18], W::End);
    assert_eq!(elements[16], W::I32Const(42));
    assert_eq!(elements[17], W::Drop);
}

#[test]
fn counted_repeat_advances_the_counter() {
    let stream = body_counted(
        4,
        vec![
            CountedInstruction::Counter(100, 32),
            CountedInstruction::Regular(Instruction::I32Const(0)),
            CountedInstruction::Regular(Instruction::Call(0)),
        ],
    );
    assert_eq!(stream.instructions.len(), 4 * 3 + 1);
    for i in 0..4usize {
        assert_eq!(stream.instructions[3 * i], Instruction::I32Const(100 + 32 * i as i32));
        assert_eq!(stream.instructions[3 * i + 1], Instruction::I32Const(0));
        assert_eq!(stream.instructions[3 * i + 2], Instruction::Call(0));
    }
    assert_eq!(stream.instructions[12], Instruction::End);
}

#[test]
fn counted_repeat_emissions_strictly_increase() {
    let stream = body_counted(50, vec![CountedInstruction::Counter(7, 3)]);
    let mut last: Option<i32> = None;
    for (i, instruction) in stream.instructions[..50].iter().enumerate() {
        match instruction {
            Instruction::I32Const(value) => {
                assert_eq!(*value, 7 + 3 * i as i32);
                if let Some(before) = last {
                    assert!(before < *value);
                }
                last = Some(*value);
            }
            _ => panic!("a counter emits a constant"),
        }
    }
}

#[test]
fn counted_repeat_keeps_two_counters_apart() {
    let stream = body_counted(
        3,
        vec![CountedInstruction::Counter(0, 1), CountedInstruction::Counter(1000, 10)],
    );
    assert_eq!(
        stream.instructions,
        vec![
            Instruction::I32Const(0),
            Instruction::I32Const(1000),
            Instruction::I32Const(1),
            Instruction::I32Const(1010),
            Instruction::I32Const(2),
            Instruction::I32Const(1020),
            Instruction::End,
        ]
    );
}

#[test]
fn counted_repeat_beyond_the_signed_range_wraps_the_operand() {
    // the counter itself stays within 32 bits; the constant is its signed reading
    let stream = body_counted(2, vec![CountedInstruction::Counter(0x7fff_ffff, 1)]);
    assert_eq!(
        stream.instructions,
        vec![Instruction::I32Const(i32::MAX), Instruction::I32Const(i32::MIN), Instruction::End]
    );
}

#[test]
fn counted_repeat_zero_times_is_the_terminator() {
    let stream = body_counted(0, vec![CountedInstruction::Counter(5, 5)]);
    assert_eq!(stream.instructions, vec![Instruction::End]);
}

#[test]
fn counters_are_checked_against_the_range() {
    let fits = vec![CountedInstruction::Counter(u32::MAX - 10, 5), CountedInstruction::Regular(Instruction::Nop)];
    assert!(check_counters(2, &fits));
    assert!(!check_counters(3, &fits));
    assert!(check_counters(u32::MAX, &vec![CountedInstruction::Counter(0, 1)]));
    assert!(!check_counters(u32::MAX, &vec![CountedInstruction::Counter(1, 1)]));
    assert!(check_counters(u32::MAX, &vec![CountedInstruction::Regular(Instruction::End)]));
    assert!(check_counters(7, &vec![]));
}

#[test]
fn emitting_a_slot_advances_it() {
    let (instruction, next) = emit(CountedInstruction::Counter(10, 4));
    assert_eq!(instruction, Instruction::I32Const(10));
    assert_eq!(next, CountedInstruction::Counter(14, 4));
    let (instruction, next) = emit(CountedInstruction::Regular(Instruction::Drop));
    assert_eq!(instruction, Instruction::Drop);
    assert_eq!(next, CountedInstruction::Regular(Instruction::Drop));
}
