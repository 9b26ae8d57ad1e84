use sb_harness::error::SbHarnessError;
use sb_harness::harness::{RunResult, SbHarness, SbHarnessFactory};
use sb_harness::scheduler::Scheduler;
use sb_harness::state::ShellboundState;
use wasmtime::component::TypedFunc;
use wasmtime::Store;

/// A component that counts up to `iterations` in a loop and ends with that number.
fn spinner(iterations: u32) -> Vec<u8> {
    binary(&format!(
        r#"
(component
  (core module $main
    (func (export "run") (result i32)
      (local $i i32)
      (loop $again
        (local.set $i (i32.add (local.get $i) (i32.const 1)))
        (br_if $again (i32.lt_u (local.get $i) (i32.const {iterations}))))
      (local.get $i)))
  (core instance $main (instantiate $main))
  (func (export "process-run") (result u32) (canon lift (core func $main "run"))))
"#
    ))
}

/// Ends at once with 7.
const SEVEN: &str = r#"
(component
  (core module $main
    (func (export "run") (result i32) (i32.const 7)))
  (core instance $main (instantiate $main))
  (func (export "process-run") (result u32) (canon lift (core func $main "run"))))
"#;

/// Spins for a while, then traps.
const TRAP: &str = r#"
(component
  (core module $main
    (func (export "run") (result i32)
      (local $i i32)
      (loop $again
        (local.set $i (i32.add (local.get $i) (i32.const 1)))
        (br_if $again (i32.lt_u (local.get $i) (i32.const 1000))))
      unreachable))
  (core instance $main (instantiate $main))
  (func (export "process-run") (result u32) (canon lift (core func $main "run"))))
"#;

/// Imports both capabilities of the host, with their types, and uses neither.
const IMPORTS_BOTH: &str = r#"
(component
  (type $bytes (list u8))
  (import "read-stdin" (func $read (param "max-bytes" u32) (result $bytes)))
  (import "write-stdout" (func $write (param "data" $bytes) (result s32)))
  (core module $main
    (func (export "run") (result i32) (i32.const 11)))
  (core instance $main (instantiate $main))
  (func (export "process-run") (result u32) (canon lift (core func $main "run"))))
"#;

/// Imports a capability of the host with a type that it does not have.
const WRONG_IMPORT_TYPE: &str = r#"
(component
  (import "read-stdin" (func $read (param "max-bytes" string) (result u32)))
  (core module $main
    (func (export "run") (result i32) (i32.const 11)))
  (core instance $main (instantiate $main))
  (func (export "process-run") (result u32) (canon lift (core func $main "run"))))
"#;

/// Exports an entry point that takes an argument.
const WRONG_ENTRY_TYPE: &str = r#"
(component
  (core module $main
    (func (export "run") (param i32) (result i32) (local.get 0)))
  (core instance $main (instantiate $main))
  (func (export "process-run") (param "seed" u32) (result u32)
    (canon lift (core func $main "run"))))
"#;

/// Exports no entry point.
const NO_ENTRY: &str = r#"
(component
  (core module $main
    (func (export "run") (result i32) (i32.const 7)))
  (core instance $main (instantiate $main))
  (func (export "other") (result u32) (canon lift (core func $main "run"))))
"#;

/// Imports a capability that the host does not offer.
const UNKNOWN_IMPORT: &str = r#"
(component
  (import "launch-missiles" (func $launch (param "count" u32)))
  (core module $main
    (func (export "run") (result i32) (i32.const 7)))
  (core instance $main (instantiate $main))
  (func (export "process-run") (result u32) (canon lift (core func $main "run"))))
"#;

fn binary(text: &str) -> Vec<u8> {
    wat::parse_str(text).expect("the test's component text is valid")
}

fn create(
    factory: &SbHarnessFactory,
    wasm: &[u8],
    id: u32,
    input: &str,
    fuel_per_step: u64,
) -> Result<SbHarness, SbHarnessError> {
    factory.create(
        wasm,
        id,
        format!("hello_{id}"),
        String::from(input),
        fuel_per_step,
        |func: TypedFunc<(), (u32,)>, mut store: Store<ShellboundState>| async move {
            func.call_async(&mut store, ()).await
        },
    )
}

/// Steps to the end; the result and the number of steps it took.
fn run_to_end(harness: &mut SbHarness) -> (Result<u32, SbHarnessError>, u32) {
    let mut steps = 0;
    loop {
        steps += 1;
        assert!(steps < 1_000_000, "the process does not end");
        match harness.step() {
            Ok(RunResult::Complete(value)) => return (Ok(value), steps),
            Ok(RunResult::Incomplete) => {}
            Err(e) => return (Err(e), steps),
        }
    }
}

fn begin(
    func: TypedFunc<(), (u32,)>,
    mut store: Store<ShellboundState>,
) -> impl std::future::Future<Output = Result<(u32,), wasmtime::Error>> {
    async move { func.call_async(&mut store, ()).await }
}

#[test]
fn a_failed_load_is_a_loading_error_with_the_engines_text() {
    let factory = SbHarnessFactory::new().unwrap();
    for fuel_per_step in [0, 1000, u64::MAX] {
        let loaded = Err(wasmtime::Error::msg("not a component"));
        let name = String::from("hello_0");
        match factory.create_loaded(loaded, 0, name, String::from("seed"), fuel_per_step, begin) {
            Err(SbHarnessError::BinaryLoading(text)) => assert_eq!(text, "not a component"),
            Err(other) => panic!("a failed load gave {other:?}"),
            Ok(_) => panic!("a failed load gave a harness"),
        }
    }
}

#[test]
fn a_loaded_component_with_an_interval_of_zero_is_a_refueling_error() {
    let factory = SbHarnessFactory::new().unwrap();
    let mut config = wasmtime::Config::new();
    config.wasm_component_model(true);
    let engine = wasmtime::Engine::new(&config).unwrap();
    let loaded = wasmtime::component::Component::from_binary(&engine, &binary(SEVEN));
    assert!(loaded.is_ok());
    assert!(matches!(
        factory.create_loaded(loaded, 0, String::from("p"), String::new(), 0, begin),
        Err(SbHarnessError::ProcessRefueling(_))
    ));
}

#[test]
fn a_component_of_another_engine_is_an_instantiation_error() {
    let factory = SbHarnessFactory::new().unwrap();
    let mut config = wasmtime::Config::new();
    config.wasm_component_model(true);
    let engine = wasmtime::Engine::new(&config).unwrap();
    let loaded = wasmtime::component::Component::from_binary(&engine, &binary(SEVEN));
    assert!(loaded.is_ok());
    assert!(matches!(
        factory.create_loaded(loaded, 0, String::from("p"), String::new(), 1000, begin),
        Err(SbHarnessError::ProgramInstantiation(_))
    ));
}

#[test]
fn the_header_of_a_core_module_is_a_loading_error() {
    let factory = SbHarnessFactory::new().unwrap();
    let header = [0x00, 0x61, 0x73, 0x6d, 0x01, 0x00, 0x00, 0x00];
    assert!(matches!(
        create(&factory, &header, 0, "", 1000),
        Err(SbHarnessError::BinaryLoading(_))
    ));
    assert!(matches!(
        create(&factory, &[], 7, "seed", u64::MAX),
        Err(SbHarnessError::BinaryLoading(_))
    ));
}

#[test]
fn factory_builds() {
    assert!(SbHarnessFactory::new().is_ok());
}

#[test]
fn malformed_bytes_are_a_loading_error() {
    let factory = SbHarnessFactory::new().unwrap();
    for bytes in [&b""[..], b"not a module", b"\0asm", &[0xffu8; 64]] {
        match create(&factory, bytes, 0, "", 1000) {
            Err(SbHarnessError::BinaryLoading(_)) => {}
            Err(other) => panic!("malformed bytes gave {other:?}"),
            Ok(_) => panic!("malformed bytes gave a harness"),
        }
    }
}

#[test]
fn the_text_format_is_not_a_binary() {
    let factory = SbHarnessFactory::new().unwrap();
    assert!(matches!(
        create(&factory, SEVEN.as_bytes(), 0, "", 1000),
        Err(SbHarnessError::BinaryLoading(_))
    ));
}

#[test]
fn a_core_module_is_not_a_component() {
    let factory = SbHarnessFactory::new().unwrap();
    let module = binary(r#"(module (func (export "process-run") (result i32) (i32.const 1)))"#);
    assert!(matches!(
        create(&factory, &module, 0, "", 1000),
        Err(SbHarnessError::BinaryLoading(_))
    ));
}

#[test]
fn an_interval_of_zero_is_a_refueling_error() {
    let factory = SbHarnessFactory::new().unwrap();
    assert!(matches!(
        create(&factory, &binary(SEVEN), 0, "", 0),
        Err(SbHarnessError::ProcessRefueling(_))
    ));
}

#[test]
fn an_unknown_import_is_an_instantiation_error() {
    let factory = SbHarnessFactory::new().unwrap();
    assert!(matches!(
        create(&factory, &binary(UNKNOWN_IMPORT), 0, "", 1000),
        Err(SbHarnessError::ProgramInstantiation(_))
    ));
}

#[test]
fn both_capabilities_are_bound_with_their_types() {
    let factory = SbHarnessFactory::new().unwrap();
    let mut harness = create(&factory, &binary(IMPORTS_BOTH), 0, "abc", 1000).unwrap();
    assert_eq!(harness.step().unwrap(), RunResult::Complete(11));
}

#[test]
fn a_capability_of_another_type_is_an_instantiation_error() {
    let factory = SbHarnessFactory::new().unwrap();
    assert!(matches!(
        create(&factory, &binary(WRONG_IMPORT_TYPE), 0, "", 1000),
        Err(SbHarnessError::ProgramInstantiation(_))
    ));
}

#[test]
fn an_entry_point_of_another_type_is_an_instantiation_error() {
    let factory = SbHarnessFactory::new().unwrap();
    assert!(matches!(
        create(&factory, &binary(WRONG_ENTRY_TYPE), 0, "", 1000),
        Err(SbHarnessError::ProgramInstantiation(_))
    ));
}

#[test]
fn a_missing_entry_point_is_an_instantiation_error() {
    let factory = SbHarnessFactory::new().unwrap();
    assert!(matches!(
        create(&factory, &binary(NO_ENTRY), 0, "", 1000),
        Err(SbHarnessError::ProgramInstantiation(_))
    ));
}

#[test]
fn a_short_program_completes_in_one_step() {
    let factory = SbHarnessFactory::new().unwrap();
    let mut harness = create(&factory, &binary(SEVEN), 0, "", 1000).unwrap();
    assert_eq!(harness.step().unwrap(), RunResult::Complete(7));
    match harness.step() {
        Err(SbHarnessError::ProcessRun(text)) => assert_eq!(text, "Process has already completed"),
        other => panic!("a step after the end answered {other:?}"),
    }
}

#[test]
fn a_small_interval_takes_several_steps_and_a_large_one_a_single_step() {
    let factory = SbHarnessFactory::new().unwrap();
    let wasm = spinner(10_000);
    let mut small = create(&factory, &wasm, 0, "Hello from hello_0!", 1000).unwrap();
    let (result, steps) = run_to_end(&mut small);
    assert_eq!(result.unwrap(), 10_000);
    assert!(steps > 1, "a yield interval of 1000 ended in {steps} step");
    let mut large = create(&factory, &wasm, 0, "Hello from hello_0!", u64::MAX).unwrap();
    assert_eq!(large.step().unwrap(), RunResult::Complete(10_000));
}

#[test]
fn a_smaller_interval_takes_more_steps() {
    let factory = SbHarnessFactory::new().unwrap();
    let wasm = spinner(10_000);
    let mut coarse = create(&factory, &wasm, 0, "", 5000).unwrap();
    let mut fine = create(&factory, &wasm, 1, "", 500).unwrap();
    let (coarse_result, coarse_steps) = run_to_end(&mut coarse);
    let (fine_result, fine_steps) = run_to_end(&mut fine);
    assert_eq!(coarse_result.unwrap(), 10_000);
    assert_eq!(fine_result.unwrap(), 10_000);
    assert!(coarse_steps > 1);
    assert!(fine_steps > coarse_steps);
}

#[test]
fn a_trap_is_a_run_error_and_ends_the_process() {
    let factory = SbHarnessFactory::new().unwrap();
    let mut harness = create(&factory, &binary(TRAP), 0, "", 100).unwrap();
    let (result, steps) = run_to_end(&mut harness);
    assert!(matches!(result, Err(SbHarnessError::ProcessRun(_))));
    assert!(steps > 1);
    match harness.step() {
        Err(SbHarnessError::ProcessRun(text)) => assert_eq!(text, "Process has already completed"),
        other => panic!("a step after the end answered {other:?}"),
    }
}

#[test]
fn the_same_program_takes_the_same_steps_to_the_same_result() {
    let factory = SbHarnessFactory::new().unwrap();
    let wasm = spinner(3000);
    let mut first = create(&factory, &wasm, 4, "Hello from hello_4!", 250).unwrap();
    let mut second = create(&factory, &wasm, 4, "Hello from hello_4!", 250).unwrap();
    let (first_result, first_steps) = run_to_end(&mut first);
    let (second_result, second_steps) = run_to_end(&mut second);
    assert_eq!(first_result.unwrap(), 3000);
    assert_eq!(second_result.unwrap(), 3000);
    assert_eq!(first_steps, second_steps);
}

#[test]
fn ten_processes_round_robin() {
    let factory = SbHarnessFactory::new().unwrap();
    let iterations: Vec<u32> = (0..10).map(|id| 500 + 700 * id).collect();
    let harnesses = iterations
        .iter()
        .enumerate()
        .map(|(id, n)| create(&factory, &spinner(*n), id as u32, "Hello!", 300).unwrap())
        .collect();
    let mut scheduler = Scheduler::new(harnesses);
    assert!(scheduler.run(100_000));
    let expected: Vec<(u32, u32)> = (0..10).zip(iterations.iter().copied()).collect();
    assert_eq!(scheduler.results().into_iter().collect::<Vec<_>>(), expected);
    let longest = (0..10).map(|id| scheduler.steps(id)).max().unwrap();
    assert_eq!(scheduler.rounds(), longest);
    assert!(scheduler.steps(0) > 1);
    for id in 0..9 {
        assert!(scheduler.steps(id) < scheduler.steps(id + 1));
    }
}

#[test]
fn one_factory_makes_independent_harnesses() {
    let factory = SbHarnessFactory::new().unwrap();
    let mut long = create(&factory, &spinner(5000), 0, "first", 1000).unwrap();
    let mut short = create(&factory, &spinner(50), 1, "second", 1000).unwrap();
    assert_eq!(long.step().unwrap(), RunResult::Incomplete);
    assert_eq!(run_to_end(&mut short).0.unwrap(), 50);
    assert_eq!(run_to_end(&mut long).0.unwrap(), 5000);
}
