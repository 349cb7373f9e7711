use vstd::prelude::*;

verus! {

#[verifier::external_type_specification]
#[verifier::external_body]
pub struct ExModule(polkavm::Module);

#[verifier::external_type_specification]
#[verifier::external_body]
pub struct ExRawInstance(polkavm::RawInstance);

#[verifier::external_type_specification]
#[verifier::external_body]
pub struct ExVmError(polkavm::Error);

#[verifier::external_type_specification]
#[verifier::external_body]
pub struct ExMemoryAccessError(polkavm::MemoryAccessError);

/// The registers that the calling convention of a guest's entry point uses.
#[derive(Clone, Copy, Debug, PartialEq, Eq, Structural)]
pub enum Register {
    /// The return address.
    Ra,
    /// The stack pointer.
    Sp,
    /// The first argument, and the result.
    A0,
    /// The second argument.
    A1,
}

/// Why a run of an instance handed control back to the host.
#[derive(Clone, Copy, Debug, PartialEq, Eq, Structural)]
pub enum Interrupt {
    /// The guest returned to the host.
    Finished,
    /// The guest trapped.
    Trap,
    /// The guest made a host call with this number.
    Ecalli(u32),
    /// The guest touched memory that it may not, at this address.
    Segfault(u32),
    /// The gas ran out.
    NotEnoughGas,
    /// One instruction was executed under step tracing.
    Step,
}

/// Why a run did not produce a result.
#[derive(Debug)]
pub enum RunError {
    /// A fresh instance could not be made.
    Instantiate(polkavm::Error),
    /// The auxiliary data could not be written into the instance.
    MemoryWrite(polkavm::MemoryAccessError),
    /// The engine failed to run the instance.
    Execution(polkavm::Error),
    /// The guest stopped other than by returning to the host.
    Interrupted(Interrupt),
    /// The remaining gas is negative or above the budget.
    GasOutOfRange(i64),
    /// The program exports no entry point of the expected name.
    MissingEntryPoint,
}

/// Where a program starts and what it is handed, read from its module.
#[derive(Clone, Copy, Debug, PartialEq, Eq, Structural)]
pub struct EntrySetup {
    /// The program counter of the entry point.
    pub entry_pc: u32,
    /// The stack pointer that the program expects at entry.
    pub default_sp: u64,
    /// The guest address of the auxiliary data region.
    pub aux_address: u32,
}

/// What a run that finished normally gives.
#[derive(Clone, Copy, Debug, PartialEq, Eq, Structural)]
pub struct RunOutcome {
    /// The value of the result register.
    pub result: u64,
    /// The gas that the run consumed.
    pub gas_used: u64,
}

/// The gas that a run started with `gas_budget` consumed, given what remains.
pub open spec fn gas_used_spec(gas_budget: u64, remaining: i64) -> Option<u64> {
    if 0 <= remaining <= gas_budget {
        Some((gas_budget - remaining) as u64)
    } else {
        None
    }
}

/// The gas consumed by a run that started with `gas_budget` and has
/// `remaining` left; an error where `remaining` cannot come from such a run.
pub fn gas_used(gas_budget: u64, remaining: i64) -> (r: Result<u64, RunError>)
    ensures
        gas_used_spec(gas_budget, remaining) matches Some(u) ==> (r matches Ok(v) && v == u),
        gas_used_spec(gas_budget, remaining) is None ==> (r matches Err(RunError::GasOutOfRange(g))
            && g == remaining),
{
    if remaining < 0 || remaining as u64 > gas_budget {
        Err(RunError::GasOutOfRange(remaining))
    } else {
        Ok(gas_budget - remaining as u64)
    }
}

/// Accepts only a normal return to the host.
pub fn check_interrupt(kind: Interrupt) -> (r: Result<(), RunError>)
    ensures
        r is Ok <==> kind == Interrupt::Finished,
        r matches Err(e) ==> (e matches RunError::Interrupted(k) && k == kind),
{
    match kind {
        Interrupt::Finished => Ok(()),
        _ => Err(RunError::Interrupted(kind)),
    }
}

/// The export list's entries as (symbol, program counter) pairs, viewed.
pub open spec fn exports_view(v: Seq<(Vec<u8>, u32)>) -> Seq<(Seq<u8>, u32)> {
    v.map_values(|e: (Vec<u8>, u32)| (e.0@, e.1))
}

/// The program counter of the first export named `name`.
pub open spec fn find_export_spec(exports: Seq<(Seq<u8>, u32)>, name: Seq<u8>) -> Option<u32>
    decreases exports.len(),
{
    if exports.len() == 0 {
        None
    } else if exports[0].0 == name {
        Some(exports[0].1)
    } else {
        find_export_spec(exports.drop_first(), name)
    }
}

/// The program counter of the first export named `name`.
pub fn find_export(exports: &Vec<(Vec<u8>, u32)>, name: &[u8]) -> (r: Option<u32>)
    ensures
        r == find_export_spec(exports_view(exports@), name@),
{
    let mut i: usize = 0;
    assert(exports_view(exports@).subrange(0, exports@.len() as int) =~= exports_view(exports@));
    while i < exports.len()
        invariant
            i <= exports@.len(),
            find_export_spec(exports_view(exports@), name@) == find_export_spec(
                exports_view(exports@).subrange(i as int, exports@.len() as int),
                name@,
            ),
        decreases exports@.len() - i,
    {
        let ghost rest = exports_view(exports@).subrange(i as int, exports@.len() as int);
        assert(rest.drop_first() =~= exports_view(exports@).subrange(i + 1, exports@.len() as int));
        if bytes_equal(exports[i].0.as_slice(), name) {
            return Some(exports[i].1);
        }
        i = i + 1;
    }
    None
}

/// Whether two byte strings are equal.
pub fn bytes_equal(a: &[u8], b: &[u8]) -> (r: bool)
    ensures
        r == (a@ == b@),
{
    if a.len() != b.len() {
        return false;
    }
    let mut i: usize = 0;
    while i < a.len()
        invariant
            a@.len() == b@.len(),
            i <= a@.len(),
            forall|j: int| 0 <= j < i ==> a@[j] == b@[j],
        decreases a@.len() - i,
    {
        if a[i] != b[i] {
            return false;
        }
        i = i + 1;
    }
    assert(a@ =~= b@);
    true
}

/// Relies on `polkavm::Module::instantiate`: a fresh instance of the module.
#[verifier::external_body]
fn instantiate(module: &polkavm::Module) -> (r: Result<polkavm::RawInstance, polkavm::Error>) {
    module.instantiate()
}

/// Relies on `polkavm::RawInstance::set_next_program_counter`.
#[verifier::external_body]
fn set_next_program_counter(instance: &mut polkavm::RawInstance, pc: u32) {
    instance.set_next_program_counter(polkavm::ProgramCounter(pc))
}

/// Relies on `polkavm::RawInstance::set_reg`.
#[verifier::external_body]
fn set_reg(instance: &mut polkavm::RawInstance, reg: Register, value: u64) {
    let reg = match reg {
        Register::Ra => polkavm::Reg::RA,
        Register::Sp => polkavm::Reg::SP,
        Register::A0 => polkavm::Reg::A0,
        Register::A1 => polkavm::Reg::A1,
    };
    instance.set_reg(reg, value)
}

/// Relies on `polkavm::RawInstance::reg`.
#[verifier::external_body]
fn reg(instance: &polkavm::RawInstance, reg: Register) -> u64 {
    let reg = match reg {
        Register::Ra => polkavm::Reg::RA,
        Register::Sp => polkavm::Reg::SP,
        Register::A0 => polkavm::Reg::A0,
        Register::A1 => polkavm::Reg::A1,
    };
    instance.reg(reg)
}

/// Relies on `polkavm::RawInstance::write_memory`.
#[verifier::external_body]
fn write_memory(instance: &mut polkavm::RawInstance, address: u32, data: &[u8]) -> (r: Result<
    (),
    polkavm::MemoryAccessError,
>) {
    instance.write_memory(address, data)
}

/// Relies on `polkavm::RawInstance::set_gas`.
#[verifier::external_body]
fn set_gas(instance: &mut polkavm::RawInstance, gas: i64) {
    instance.set_gas(gas)
}

/// Relies on `polkavm::RawInstance::gas`: the gas remaining.
#[verifier::external_body]
fn gas(instance: &polkavm::RawInstance) -> i64 {
    instance.gas()
}

/// Relies on `polkavm::RawInstance::run`: runs until the next interrupt.
#[verifier::external_body]
fn run_instance(instance: &mut polkavm::RawInstance) -> (r: Result<Interrupt, polkavm::Error>) {
    match instance.run()? {
        polkavm::InterruptKind::Finished => Ok(Interrupt::Finished),
        polkavm::InterruptKind::Trap => Ok(Interrupt::Trap),
        polkavm::InterruptKind::Ecalli(n) => Ok(Interrupt::Ecalli(n)),
        polkavm::InterruptKind::Segfault(s) => Ok(Interrupt::Segfault(s.page_address)),
        polkavm::InterruptKind::NotEnoughGas => Ok(Interrupt::NotEnoughGas),
        polkavm::InterruptKind::Step => Ok(Interrupt::Step),
    }
}

/// Relies on `polkavm::RETURN_TO_HOST`, the address at which a guest hands
/// control back; its documentation gives it as `0xffff0000`.
#[verifier::external_body]
fn return_to_host() -> (r: u64)
    ensures
        r == 0xffff0000,
{
    polkavm::RETURN_TO_HOST
}

/// Where a program starts and what it is handed, from the module's export
/// list, its default stack pointer and its auxiliary data address: the
/// program counter of the first export named `name`, where there is one.
pub fn entry_setup(exports: &Vec<(Vec<u8>, u32)>, name: &[u8], default_sp: u64, aux_address: u32)
    -> (r: Result<EntrySetup, RunError>)
    ensures
        r is Ok <==> find_export_spec(exports_view(exports@), name@) is Some,
        r matches Ok(s) ==> Some(s.entry_pc) == find_export_spec(exports_view(exports@), name@)
            && s.default_sp == default_sp && s.aux_address == aux_address,
        r matches Err(e) ==> e is MissingEntryPoint,
{
    match find_export(exports, name) {
        None => Err(RunError::MissingEntryPoint),
        Some(pc) => Ok(EntrySetup { entry_pc: pc, default_sp, aux_address }),
    }
}

/// The state in which a fresh instance starts a run.
#[derive(Clone, Copy, Debug, PartialEq, Eq, Structural)]
pub struct EntryState {
    /// The program counter to start at.
    pub pc: u32,
    /// The return address: the one that hands control back to the host.
    pub ra: u64,
    /// The stack pointer.
    pub sp: u64,
    /// Where the auxiliary data is written.
    pub aux_address: u32,
    /// The first argument: the address of the auxiliary data.
    pub a0: u64,
    /// The second argument: the length of the auxiliary data.
    pub a1: u64,
    /// The gas to start with.
    pub gas: i64,
}

/// The state in which a run of the program described by `setup` starts,
/// handed `aux_len` bytes of auxiliary data and `gas_budget` gas.
pub fn entry_state(setup: &EntrySetup, aux_len: usize, gas_budget: u64) -> (r: EntryState)
    requires
        gas_budget <= i64::MAX,
    ensures
        r.pc == setup.entry_pc,
        r.ra == 0xffff0000,
        r.sp == setup.default_sp,
        r.aux_address == setup.aux_address,
        r.a0 == setup.aux_address as u64,
        r.a1 == aux_len as u64,
        r.gas == gas_budget as i64,
{
    EntryState {
        pc: setup.entry_pc,
        ra: return_to_host(),
        sp: setup.default_sp,
        aux_address: setup.aux_address,
        a0: setup.aux_address as u64,
        a1: aux_len as u64,
        gas: gas_budget as i64,
    }
}

/// Runs the program of `module` once, in a fresh instance started in
/// `entry_state(setup, aux.len(), gas_budget)`, with `aux` written at the
/// auxiliary address. Only a normal return to the host counts.
pub fn run_once(module: &polkavm::Module, setup: &EntrySetup, aux: &[u8], gas_budget: u64) -> (r:
    Result<RunOutcome, RunError>)
    requires
        gas_budget <= i64::MAX,
    ensures
        r matches Ok(o) ==> o.gas_used <= gas_budget,
        r matches Err(RunError::Interrupted(k)) ==> k != Interrupt::Finished,
        r matches Err(RunError::GasOutOfRange(g)) ==> g < 0 || g > gas_budget,
{
    let state = entry_state(setup, aux.len(), gas_budget);
    let mut instance = match instantiate(module) {
        Ok(i) => i,
        Err(e) => return Err(RunError::Instantiate(e)),
    };
    set_next_program_counter(&mut instance, state.pc);
    set_reg(&mut instance, Register::Ra, state.ra);
    set_reg(&mut instance, Register::Sp, state.sp);
    if let Err(e) = write_memory(&mut instance, state.aux_address, aux) {
        return Err(RunError::MemoryWrite(e));
    }
    set_reg(&mut instance, Register::A0, state.a0);
    set_reg(&mut instance, Register::A1, state.a1);
    set_gas(&mut instance, state.gas);
    let kind = match run_instance(&mut instance) {
        Ok(k) => k,
        Err(e) => return Err(RunError::Execution(e)),
    };
    if let Err(e) = check_interrupt(kind) {
        return Err(e);
    }
    let result = reg(&instance, Register::A0);
    match gas_used(gas_budget, gas(&instance)) {
        Ok(used) => Ok(RunOutcome { result, gas_used: used }),
        Err(e) => Err(e),
    }
}

} // verus!
