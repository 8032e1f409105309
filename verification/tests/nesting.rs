use contract_bench::code::create_code;
use contract_bench::instructions::{body, body_repeated, Body, Instruction};
use contract_bench::module::ModuleDefinition;
use contract_bench::nesting::is_well_nested;
use parity_wasm::elements::Module;

fn round_trips(stream: Vec<Instruction>) -> bool {
    let definition = ModuleDefinition { call_body: Some(body(stream)), ..Default::default() };
    let module = create_code(definition).unwrap();
    match parity_wasm::deserialize_buffer::<Module>(&module.code) {
        Ok(decoded) => parity_wasm::serialize(decoded).unwrap() == module.code,
        Err(_) => false,
    }
}

fn streams() -> Vec<Vec<Instruction>> {
    vec![
        vec![Instruction::End],
        vec![],
        vec![Instruction::Nop],
        vec![Instruction::End, Instruction::Nop, Instruction::End],
        vec![Instruction::End, Instruction::End],
        vec![Instruction::I32Const(0), Instruction::If, Instruction::Return, Instruction::End, Instruction::End],
        vec![Instruction::I32Const(0), Instruction::If, Instruction::Return, Instruction::End],
        vec![Instruction::If, Instruction::If, Instruction::End, Instruction::Else, Instruction::End, Instruction::End],
        vec![Instruction::If, Instruction::End, Instruction::End, Instruction::If, Instruction::End],
        vec![Instruction::I32Const(4), Instruction::I32Const(0), Instruction::Call(0), Instruction::End],
    ]
}

#[test]
fn well_nested_bodies_are_told_apart() {
    let expected = [true, false, false, false, false, true, false, true, false, true];
    for (stream, expected) in streams().into_iter().zip(expected) {
        assert_eq!(is_well_nested(&body(stream.clone())), expected, "{:?}", stream);
    }
}

#[test]
fn exactly_the_well_nested_bodies_round_trip() {
    for stream in streams() {
        assert_eq!(round_trips(stream.clone()), is_well_nested(&body(stream.clone())), "{:?}", stream);
    }
}

#[test]
fn repeated_balanced_patterns_are_well_nested() {
    let expansion = [Instruction::I32Const(0), Instruction::If, Instruction::Return, Instruction::End];
    for repetitions in [0u32, 1, 2, 50] {
        let repeated = body_repeated(repetitions, &expansion);
        assert!(is_well_nested(&repeated));
        assert!(round_trips(repeated.instructions));
    }
    assert!(is_well_nested(&Body::empty()));
    let unbalanced = body_repeated(2, &[Instruction::If]);
    assert!(!is_well_nested(&unbalanced));
}
