use polkavm::{BackendKind, Config, Engine, GasMeteringKind, Module, ModuleConfig, ProgramBlob, Reg};
use polkavm_common::program::{Instruction, InstructionSetKind};
use polkavm_common::writer::ProgramBlobBuilder;
use pvm_host::bench::{benchmark, GAS_BUDGET};
use pvm_host::driver::{entry_setup, run_once, EntrySetup, Interrupt, RunError};

fn module_for(code: &[Instruction], aux_size: u32) -> Module {
    let mut builder = ProgramBlobBuilder::new(InstructionSetKind::Latest64);
    builder.add_export_by_basic_block(0, b"run");
    builder.set_code(code, &[]);
    let blob = ProgramBlob::parse(builder.into_vec().unwrap().into()).unwrap();
    let mut config = Config::new();
    config.set_backend(Some(BackendKind::Interpreter));
    let engine = Engine::new(&config).unwrap();
    let mut module_config = ModuleConfig::new();
    module_config.set_gas_metering(Some(GasMeteringKind::Sync));
    module_config.set_aux_data_size(aux_size);
    Module::from_blob(&engine, &module_config, blob).unwrap()
}

fn setup_of(module: &Module) -> EntrySetup {
    let exports: Vec<(Vec<u8>, u32)> = module
        .exports()
        .map(|e| (e.symbol().as_bytes().to_vec(), e.program_counter().0))
        .collect();
    entry_setup(&exports, b"run", module.default_sp(), module.memory_map().aux_data_address())
        .expect("the program exports run")
}

/// Reads the first auxiliary byte and adds the length: `a0 = aux[0] + len`.
fn first_byte_plus_len() -> Vec<Instruction> {
    vec![
        Instruction::load_indirect_u8(Reg::A0.into(), Reg::A0.into(), 0),
        Instruction::add_64(Reg::A0.into(), Reg::A0.into(), Reg::A1.into()),
        Instruction::jump_indirect(Reg::RA.into(), 0),
    ]
}

#[test]
fn run_once_passes_aux_data_and_returns_result() {
    let aux = [40u8, 1, 1];
    let module = module_for(&first_byte_plus_len(), aux.len() as u32);
    let setup = setup_of(&module);
    let outcome = run_once(&module, &setup, &aux, GAS_BUDGET).expect("finishes");
    assert_eq!(outcome.result, 43);
    assert!(outcome.gas_used > 0);
    assert!(outcome.gas_used <= GAS_BUDGET);
}

#[test]
fn run_once_is_deterministic() {
    let aux = [7u8; 16];
    let module = module_for(&first_byte_plus_len(), aux.len() as u32);
    let setup = setup_of(&module);
    let a = run_once(&module, &setup, &aux, GAS_BUDGET).expect("finishes");
    let b = run_once(&module, &setup, &aux, GAS_BUDGET).expect("finishes");
    assert_eq!(a, b);
    assert_eq!(a.result, 7 + 16);
}

#[test]
fn run_once_reports_a_trap() {
    let module = module_for(&[Instruction::trap], 4);
    let setup = setup_of(&module);
    match run_once(&module, &setup, &[1, 2, 3, 4], GAS_BUDGET) {
        Err(RunError::Interrupted(k)) => assert_eq!(k, Interrupt::Trap),
        other => panic!("unexpected: {:?}", other),
    }
}

#[test]
fn run_once_reports_running_out_of_gas() {
    let aux = [1u8];
    let module = module_for(&first_byte_plus_len(), 1);
    let setup = setup_of(&module);
    match run_once(&module, &setup, &aux, 1) {
        Err(RunError::Interrupted(k)) => assert_eq!(k, Interrupt::NotEnoughGas),
        other => panic!("unexpected: {:?}", other),
    }
}

#[test]
fn benchmark_makes_the_configured_warm_runs() {
    let aux = [5u8, 0];
    let module = module_for(&first_byte_plus_len(), aux.len() as u32);
    let setup = setup_of(&module);
    let cold = run_once(&module, &setup, &aux, GAS_BUDGET).unwrap();
    let b = benchmark(&module, &setup, &aux, GAS_BUDGET, Some(10)).expect("finishes");
    assert_eq!(b.result, 7);
    assert_eq!(b.gas_used, cold.gas_used);
    assert_eq!(b.warm_runs, 10);
    assert!(b.warm_average_nanos.is_some());
    let b = benchmark(&module, &setup, &aux, GAS_BUDGET, None).expect("finishes");
    assert_eq!(b.warm_runs, 0);
    assert_eq!(b.warm_average_nanos, None);
}
