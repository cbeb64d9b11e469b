use mobile_prover::{
    advance, advance_verify, assemble_noir_record, assemble_vm_record, frequency, m31_from_u32,
    materialize_positional, start_run, EntryPoint, MobileError, MobileVmError, ProgramInterface,
    RunStage, StageEvent, VerifyEvent, VerifyStage,
};

fn program() -> ProgramInterface {
    ProgramInterface {
        entrypoints: vec![
            EntryPoint { name: "fibonacci_loop".to_string(), num_args: 1 },
            EntryPoint { name: "add".to_string(), num_args: 2 },
            EntryPoint { name: "main".to_string(), num_args: 0 },
        ],
    }
}

#[test]
fn lookup_finds_declared_entry_point() {
    let p = program();
    assert_eq!(p.get_entrypoint(&"add".to_string()), Some(1));
    let e = p.resolve_entrypoint(&"fibonacci_loop".to_string()).unwrap();
    assert_eq!(e.num_args, 1);
}

#[test]
fn lookup_is_case_sensitive() {
    let p = program();
    assert_eq!(p.get_entrypoint(&"Main".to_string()), None);
}

#[test]
fn missing_entry_point_is_named_error() {
    let p = program();
    match p.resolve_entrypoint(&"nope".to_string()) {
        Err(MobileError::Vm(m)) => assert_eq!(m, "Entrypoint nope not found"),
        other => panic!("unexpected {:?}", other),
    }
}

#[test]
fn extra_positional_inputs_are_dropped() {
    assert_eq!(materialize_positional(&vec![1, 2, 3], 1), vec![1]);
    assert_eq!(materialize_positional(&vec![1, 2, 3], 5), vec![1, 2, 3]);
    assert_eq!(materialize_positional(&vec![116507], 1), vec![116507]);
    assert_eq!(materialize_positional(&vec![], 2), Vec::<u32>::new());
}

#[test]
fn positional_inputs_are_reduced_into_m31() {
    assert_eq!(m31_from_u32(2147483647), 0);
    assert_eq!(m31_from_u32(u32::MAX), 1);
    assert_eq!(m31_from_u32(2147483646), 2147483646);
    assert_eq!(materialize_positional(&vec![2147483650, 9], 2), vec![3, 9]);
}

#[test]
fn start_run_truncates_to_arity() {
    match start_run(&program(), &"fibonacci_loop".to_string(), &vec![116507, 2, 3]) {
        RunStage::Ready { runner_inputs } => assert_eq!(runner_inputs, vec![116507]),
        other => panic!("unexpected {:?}", other),
    }
}

#[test]
fn start_run_rejects_unknown_entry_point() {
    match start_run(&program(), &"missing".to_string(), &vec![1]) {
        RunStage::Failed(MobileError::Vm(m)) => assert_eq!(m, "Entrypoint missing not found"),
        other => panic!("unexpected {:?}", other),
    }
}

fn finished_run(exec: u64, prove: u64, overall: u64) -> RunStage {
    let s = start_run(&program(), &"fibonacci_loop".to_string(), &vec![116507]);
    let s = advance(s, StageEvent::Executed { return_values: vec![394756528], num_steps: 500, nanos: exec });
    let s = advance(s, StageEvent::Adapted);
    let s = advance(s, StageEvent::Proved { proof_nanos: prove, overall_nanos: overall, proof_size: 1234 });
    advance(s, StageEvent::Serialized { proof: "{}".to_string() })
}

#[test]
fn full_run_assembles_record() {
    match finished_run(250_000_000, 1_000_000_000, 2_000_000_000) {
        RunStage::Finished(rec) => {
            assert_eq!(rec.return_values, vec![394756528]);
            assert_eq!(rec.num_steps, 500);
            assert_eq!(rec.execution_frequency, Some(2000));
            assert_eq!(rec.proof_frequency, Some(500));
            assert_eq!(rec.overall_frequency, Some(250));
            assert_eq!(rec.proof_size, 1234);
            assert_eq!(rec.proof, "{}");
        }
        other => panic!("unexpected {:?}", other),
    }
}

#[test]
fn reported_values_do_not_depend_on_timing() {
    let (a, b) = (finished_run(1, 2, 3), finished_run(7_000, 90_000, 100_000));
    match (a, b) {
        (RunStage::Finished(x), RunStage::Finished(y)) => {
            assert_eq!(x.return_values, y.return_values);
            assert_eq!(x.num_steps, y.num_steps);
        }
        other => panic!("unexpected {:?}", other),
    }
}

#[test]
fn zero_duration_is_flagged() {
    match finished_run(0, 1_000_000_000, 1_000_000_000) {
        RunStage::Finished(rec) => {
            assert_eq!(rec.execution_frequency, None);
            assert_eq!(rec.proof_frequency, Some(500));
        }
        other => panic!("unexpected {:?}", other),
    }
}

#[test]
fn each_stage_failure_has_its_kind() {
    let ready = || start_run(&program(), &"add".to_string(), &vec![1, 2]);
    match advance(ready(), StageEvent::Failed("bad opcode".to_string())) {
        RunStage::Failed(MobileError::Vm(m)) => assert_eq!(m, "bad opcode"),
        other => panic!("unexpected {:?}", other),
    }
    let executed = || advance(ready(), StageEvent::Executed { return_values: vec![3], num_steps: 4, nanos: 5 });
    match advance(executed(), StageEvent::Failed("shape".to_string())) {
        RunStage::Failed(MobileError::Adapter(m)) => assert_eq!(m, "shape"),
        other => panic!("unexpected {:?}", other),
    }
    let adapted = || advance(executed(), StageEvent::Adapted);
    match advance(adapted(), StageEvent::Failed("constraint".to_string())) {
        RunStage::Failed(MobileError::Proof(m)) => assert_eq!(m, "constraint"),
        other => panic!("unexpected {:?}", other),
    }
    let proved = advance(adapted(), StageEvent::Proved { proof_nanos: 1, overall_nanos: 2, proof_size: 3 });
    match advance(proved, StageEvent::Failed("encode".to_string())) {
        RunStage::Failed(MobileError::Json(m)) => assert_eq!(m, "encode"),
        other => panic!("unexpected {:?}", other),
    }
}

#[test]
fn failure_is_terminal() {
    let failed = RunStage::Failed(MobileError::Vm("x".to_string()));
    match advance(failed, StageEvent::Adapted) {
        RunStage::Failed(MobileError::Vm(m)) => assert_eq!(m, "x"),
        other => panic!("unexpected {:?}", other),
    }
}

#[test]
fn out_of_order_event_keeps_stage() {
    let ready = start_run(&program(), &"main".to_string(), &vec![]);
    match advance(ready, StageEvent::Adapted) {
        RunStage::Ready { runner_inputs } => assert!(runner_inputs.is_empty()),
        other => panic!("unexpected {:?}", other),
    }
}

#[test]
fn verification_separates_malformed_from_invalid() {
    match advance_verify(VerifyStage::Received, VerifyEvent::Failed("eof".to_string())) {
        VerifyStage::Failed(MobileError::Json(m)) => assert_eq!(m, "eof"),
        other => panic!("unexpected {:?}", other),
    }
    let d = advance_verify(VerifyStage::Received, VerifyEvent::Deserialized);
    match advance_verify(d, VerifyEvent::Failed("bad root".to_string())) {
        VerifyStage::Failed(MobileError::Verification(m)) => assert_eq!(m, "bad root"),
        other => panic!("unexpected {:?}", other),
    }
    let d = advance_verify(VerifyStage::Received, VerifyEvent::Deserialized);
    match advance_verify(d, VerifyEvent::Verified { nanos: 42 }) {
        VerifyStage::Verified { verification_nanos } => assert_eq!(verification_nanos, 42),
        other => panic!("unexpected {:?}", other),
    }
}

#[test]
fn frequency_rounds_down_and_flags_zero() {
    assert_eq!(frequency(10, 1_000_000_000), Some(10));
    assert_eq!(frequency(3, 2_000_000_000), Some(1));
    assert_eq!(frequency(1, 1), Some(1_000_000_000));
    assert_eq!(frequency(u64::MAX, 1), Some(u64::MAX as u128 * 1_000_000_000));
    assert_eq!(frequency(5, 0), None);
}

#[test]
fn vm_record_metrics() {
    let r = assemble_vm_record(55, 100, 500_000_000, 1_000_000_000);
    assert_eq!(r.return_value, 55);
    assert_eq!(r.steps_per_second_execution, Some(200));
    assert_eq!(r.steps_per_second_e2e, Some(100));
}

#[test]
fn noir_record_metrics() {
    let r = assemble_noir_record(None, Some(mobile_prover::InputValue::String("0x0".to_string())), 100, 500_000_000, 250_000_000, 1_000_000_000, 7, "p".to_string()).unwrap();
    assert_eq!(r.return_value, "");
    assert_eq!(r.expected_return_value, "0x0");
    assert_eq!(r.constraint_count, 100);
    assert_eq!(r.witness_generation_frequency, Some(200));
    assert_eq!(r.proof_generation_frequency, Some(400));
    assert_eq!(r.overall_frequency, Some(100));
    assert_eq!(r.proof_size, 7);
    assert_eq!(r.proof, "p");
}

#[test]
fn error_texts() {
    assert_eq!(MobileError::Json("eof".to_string()).to_string(), "JSON parsing error: eof");
    assert_eq!(MobileError::Proof("x".to_string()).to_string(), "Proof generation error: x");
    assert_eq!(MobileVmError::from_vm_message("oob".to_string()).to_string(), "VM Error: oob");
    assert_eq!(MobileVmError::Io { message: "denied".to_string() }.to_string(), "IO Error: denied");
    assert_eq!(MobileVmError::Json { message: "eof".to_string() }.to_string(), "JSON parsing error: eof");
    assert_eq!(MobileError::Verification("v".to_string()).to_string(), "Verification error: v");
}
