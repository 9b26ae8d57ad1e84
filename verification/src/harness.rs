//! One sandboxed process behind a handle that is stepped by hand, and the factory that makes
//! such handles from a module's bytes.

use crate::engine::{
    bound_names, component_loads, describe, engine_components, engine_metered, engine_suspends,
    entry_point, error_text, export_name, made_around,
    instantiate, link_read_stdin, link_write_stdout, linker_suspends, lives_in, load_component,
    new_config, new_engine, new_linker, new_store, set_async_support, set_component_model,
    set_consume_fuel, set_fuel, set_yield_interval, store_fuel, store_interval, store_metered,
    store_suspends,
};
use crate::error::SbHarnessError;
use crate::pollable::{Pollable, PollableResult};
use crate::state::ShellboundState;
use std::future::Future;
use vstd::prelude::*;
use vstd::string::StringExecFns;

verus! {

/// What one step of a harness found.
#[derive(Debug, PartialEq, Eq, Structural)]
pub enum RunResult {
    /// The process ended on this step, with this result.
    Complete(u32),
    /// The process used up its budget for this step and suspended; step it again later.
    Incomplete,
}

/// Whether a step's answer is the error for a process that had already ended: `ProcessRun`
/// with the text "Process has already completed".
pub open spec fn reports_stale(result: Result<RunResult, SbHarnessError>) -> bool {
    result matches Err(e) && e is ProcessRun && e.detail() == "Process has already completed"@
}

/// What a step answers for each thing that the poll behind it can find. A value that is ready
/// ends the process with that value; an engine error that is ready ends it with `ProcessRun`
/// and the error's own text;
/// a pending poll leaves it running; a stale poll is an error of the caller and is reported as
/// `ProcessRun` with the text "Process has already completed".
pub fn step_result(poll: PollableResult<Result<(u32,), wasmtime::Error>>) -> (result: Result<
    RunResult,
    SbHarnessError,
>)
    ensures
        poll matches PollableResult::Ready(Ok(value)) ==> result == Ok::<
            RunResult,
            SbHarnessError,
        >(RunResult::Complete(value.0)),
        poll matches PollableResult::Ready(Err(e)) ==> result is Err && result->Err_0 is ProcessRun
            && result->Err_0.detail() == error_text(e),
        poll is Pending ==> result == Ok::<RunResult, SbHarnessError>(RunResult::Incomplete),
        poll is Stale ==> reports_stale(result),
{
    match poll {
        PollableResult::Ready(Ok((value,))) => Ok(RunResult::Complete(value)),
        PollableResult::Ready(Err(e)) => Err(SbHarnessError::ProcessRun(describe(&e))),
        PollableResult::Pending => Ok(RunResult::Incomplete),
        PollableResult::Stale => Err(
            SbHarnessError::ProcessRun(String::from_str("Process has already completed")),
        ),
    }
}

/// The handle on one sandboxed process: the one call of its entry point, suspended between
/// steps.
pub struct SbHarness {
    pollable: Pollable<Result<(u32,), wasmtime::Error>>,
}

impl SbHarness {
    /// Whether the process has ended, with a result or with an error. A harness that has ended
    /// stays so.
    pub closed spec fn ended(&self) -> bool {
        self.pollable.is_stale()
    }

    /// A harness around a call of an entry point that has not been polled to its end.
    pub fn new(pollable: Pollable<Result<(u32,), wasmtime::Error>>) -> (harness: Self)
        ensures
            harness.ended() == pollable.is_stale(),
    {
        SbHarness { pollable }
    }

    /// Runs the process until it ends or has used up one yield interval of budget.
    ///
    /// On a harness that has ended, the step fails with `ProcessRun` and the text
    /// "Process has already completed", and the harness stays ended. On a live one, the step
    /// answers `Incomplete` and the harness stays live, or it answers `Complete` or fails with
    /// `ProcessRun` and the harness has ended.
    pub fn step(&mut self) -> (result: Result<RunResult, SbHarnessError>)
        ensures
            old(self).ended() ==> final(self).ended(),
            old(self).ended() ==> reports_stale(result),
            !old(self).ended() ==> (result matches Ok(RunResult::Incomplete)
                <==> !final(self).ended()),
            result matches Err(e) ==> e is ProcessRun,
    {
        let poll_result = self.pollable.poll();
        step_result(poll_result)
    }
}

/// The engine and the bound capabilities from which harnesses are made. Both are fixed once the
/// factory is built, and any number of independent harnesses can be made from them.
pub struct SbHarnessFactory {
    engine: wasmtime::Engine,
    linker: wasmtime::component::Linker<ShellboundState>,
}

impl SbHarnessFactory {
    /// Builds the engine for components, with metered execution and suspension, and binds the
    /// two capabilities of [`ShellboundState`] under the names `write-stdout` and `read-stdin`.
    ///
    /// Whether the engine accepts the configuration is up to the engine: where it does not, the
    /// answer is `EngineInitialization`. Where it does, exactly those two names are bound: two
    /// different names always fit into a linker that holds none, so `LinkerSetup` never comes.
    pub fn new() -> (factory: Result<Self, SbHarnessError>)
        ensures
            factory matches Ok(f) ==> f.valid(),
            factory matches Ok(f) ==> f.capabilities() == capability_names(),
            factory matches Err(e) ==> e is EngineInitialization,
    {
        let mut config = new_config();
        set_component_model(&mut config, true);
        set_consume_fuel(&mut config, true);
        set_async_support(&mut config, true);
        Self::around(new_engine(&config))
    }

    /// Makes a harness for one process from a module's bytes.
    ///
    /// The module is loaded; a fresh execution context is made around the process's own state,
    /// whose waiting input is the bytes of `args`; the context is told to suspend every
    /// `fuel_per_step` units of budget; the module is instantiated against the bound
    /// capabilities and its entry point `process-run`, a function of no arguments and one
    /// 32-bit result, is taken from the instance; the total budget is raised to the largest
    /// there is; and `begin` is handed the entry point and the context, to start the one call of
    /// it. The call, suspended before its first step, is the harness.
    ///
    /// The first stage that fails ends the attempt, and no harness is made then. The failure is
    /// `BinaryLoading` exactly where the engine does not load the bytes. After a load it is
    /// `ProcessRefueling` exactly where the interval is 0, the one interval that is refused;
    /// the budget is never refused. With any other interval there is a harness, unless the
    /// engine fails the instantiation, or the module has no such entry point, which is
    /// `ProgramInstantiation`. The instantiation is given one poll: a module whose
    /// instantiation suspends is not instantiated.
    pub fn create<B, F>(
        &self,
        wasm_bytes: &[u8],
        process_id: u32,
        process_name: String,
        args: String,
        fuel_per_step: u64,
        begin: B,
    ) -> (harness: Result<SbHarness, SbHarnessError>) where
        B: FnOnce(wasmtime::component::TypedFunc<(), (u32,)>, wasmtime::Store<ShellboundState>) -> F,
        F: Future<Output = Result<(u32,), wasmtime::Error>> + 'static,

        requires
            self.valid(),
            forall|func: wasmtime::component::TypedFunc<(), (u32,)>, store: wasmtime::Store<ShellboundState>|
                prepared(func, store, fuel_per_step, process_id, process_name@, args@)
                    ==> call_requires(begin, (func, store)),
        ensures
            harness matches Ok(h) ==> !h.ended(),
            harness matches Err(SbHarnessError::BinaryLoading(_)) <==> !self.loads(wasm_bytes@),
            harness matches Err(SbHarnessError::ProcessRefueling(_)) <==> self.loads(wasm_bytes@)
                && fuel_per_step == 0,
            self.loads(wasm_bytes@) && fuel_per_step != 0 ==> harness is Ok || harness matches Err(
                SbHarnessError::ProgramInstantiation(_),
            ),
    {
        let loaded = load_component(&self.engine, wasm_bytes);
        self.create_loaded(loaded, process_id, process_name, args, fuel_per_step, begin)
    }

    /// Makes a harness of what the engine answered when it was asked to load the module.
    ///
    /// A module that the engine did not load is `BinaryLoading` with the engine's reason,
    /// whatever the other arguments are, and nothing else is done. After a load, an interval of
    /// 0 is `ProcessRefueling`; with any other interval there is a harness, for a process with
    /// the state made of `process_id`, `process_name` and the bytes of `args`, unless the engine
    /// fails the instantiation or the module has no entry point (`ProgramInstantiation`).
    pub fn create_loaded<B, F>(
        &self,
        loaded: Result<wasmtime::component::Component, wasmtime::Error>,
        process_id: u32,
        process_name: String,
        args: String,
        fuel_per_step: u64,
        begin: B,
    ) -> (harness: Result<SbHarness, SbHarnessError>) where
        B: FnOnce(wasmtime::component::TypedFunc<(), (u32,)>, wasmtime::Store<ShellboundState>) -> F,
        F: Future<Output = Result<(u32,), wasmtime::Error>> + 'static,

        requires
            self.valid(),
            forall|func: wasmtime::component::TypedFunc<(), (u32,)>, store: wasmtime::Store<ShellboundState>|
                prepared(func, store, fuel_per_step, process_id, process_name@, args@)
                    ==> call_requires(begin, (func, store)),
        ensures
            harness matches Ok(h) ==> !h.ended(),
            harness matches Err(SbHarnessError::BinaryLoading(_)) <==> loaded is Err,
            loaded matches Err(e) ==> harness is Err && harness->Err_0.detail() == error_text(e),
            harness matches Err(SbHarnessError::ProcessRefueling(_)) <==> loaded is Ok
                && fuel_per_step == 0,
            loaded is Ok && fuel_per_step != 0 ==> harness is Ok || harness matches Err(
                SbHarnessError::ProgramInstantiation(_),
            ),
    {
        let component = match loaded {
            Ok(component) => component,
            Err(e) => {
                return Err(SbHarnessError::BinaryLoading(describe(&e)));
            },
        };
        let state = ShellboundState::new(process_id, process_name, args);
        let mut store = new_store(&self.engine, state);
        match set_yield_interval(&mut store, fuel_per_step) {
            Ok(()) => {},
            Err(e) => {
                return Err(SbHarnessError::ProcessRefueling(describe(&e)));
            },
        }
        let instantiated = instantiate(&self.linker, &mut store, &component);
        proof {
            assert forall|func: wasmtime::component::TypedFunc<(), (u32,)>, s: wasmtime::Store<ShellboundState>|
                ready(func, s, store_interval(store), made_around(store)) implies call_requires(
                begin,
                (func, s),
            ) by {
                assert(prepared(func, s, fuel_per_step, process_id, process_name@, args@));
            }
        }
        Self::create_instantiated(instantiated, store, begin)
    }

    /// Makes a harness of what the engine answered when it was asked to instantiate the module
    /// in `store`. No instance is `ProgramInstantiation`, whether the engine refused or the
    /// instantiation did not come to an end at once, and so is an instance that does not export
    /// the entry point.
    fn create_instantiated<B, F>(
        instantiated: Option<Result<wasmtime::component::Instance, wasmtime::Error>>,
        store: wasmtime::Store<ShellboundState>,
        begin: B,
    ) -> (harness: Result<SbHarness, SbHarnessError>) where
        B: FnOnce(wasmtime::component::TypedFunc<(), (u32,)>, wasmtime::Store<ShellboundState>) -> F,
        F: Future<Output = Result<(u32,), wasmtime::Error>> + 'static,

        requires
            store_suspends(store),
            store_metered(store),
            instantiated matches Some(Ok(instance)) ==> lives_in(instance, store),
            forall|func: wasmtime::component::TypedFunc<(), (u32,)>, s: wasmtime::Store<ShellboundState>|
                ready(func, s, store_interval(store), made_around(store)) ==> call_requires(
                    begin,
                    (func, s),
                ),
        ensures
            harness matches Ok(h) ==> !h.ended(),
            harness matches Err(e) ==> e is ProgramInstantiation,
            !(instantiated matches Some(Ok(_))) ==> harness is Err,
            instantiated matches Some(Err(e)) ==> harness is Err && harness->Err_0.detail()
                == error_text(e),
            instantiated is None ==> harness is Err && harness->Err_0.detail()
                == "Instantiation did not complete"@,
    {
        let ghost interval = store_interval(store);
        let ghost made = made_around(store);
        let mut store = store;
        let instance = match instantiated {
            Some(Ok(instance)) => instance,
            Some(Err(e)) => {
                return Err(SbHarnessError::ProgramInstantiation(describe(&e)));
            },
            None => {
                return Err(
                    SbHarnessError::ProgramInstantiation(
                        String::from_str("Instantiation did not complete"),
                    ),
                );
            },
        };
        let exported = entry_point(&instance, &mut store, "process-run");
        proof {
            assert(store_interval(store) == interval && made_around(store) == made);
        }
        Self::create_exporting(exported, store, begin)
    }

    /// Makes a harness of what the engine answered when it was asked for the entry point of
    /// the instance. No entry point is `ProgramInstantiation`. With the entry point there is
    /// always a harness: the budget is raised, and the one call of the entry point that `begin`
    /// starts, suspended before its first step, is the harness.
    fn create_exporting<B, F>(
        exported: Result<wasmtime::component::TypedFunc<(), (u32,)>, wasmtime::Error>,
        store: wasmtime::Store<ShellboundState>,
        begin: B,
    ) -> (harness: Result<SbHarness, SbHarnessError>) where
        B: FnOnce(wasmtime::component::TypedFunc<(), (u32,)>, wasmtime::Store<ShellboundState>) -> F,
        F: Future<Output = Result<(u32,), wasmtime::Error>> + 'static,

        requires
            store_suspends(store),
            store_metered(store),
            exported matches Ok(func) ==> export_name(func) == "process-run"@,
            forall|func: wasmtime::component::TypedFunc<(), (u32,)>, s: wasmtime::Store<ShellboundState>|
                ready(func, s, store_interval(store), made_around(store)) ==> call_requires(
                    begin,
                    (func, s),
                ),
        ensures
            harness is Ok <==> exported is Ok,
            harness matches Ok(h) ==> !h.ended(),
            harness matches Err(e) ==> e is ProgramInstantiation,
            exported matches Err(e) ==> harness is Err && harness->Err_0.detail() == error_text(e),
    {
        let ghost interval = store_interval(store);
        let ghost made = made_around(store);
        let mut store = store;
        let process_run_func = match exported {
            Ok(func) => func,
            Err(e) => {
                return Err(SbHarnessError::ProgramInstantiation(describe(&e)));
            },
        };
        match set_fuel(&mut store, u64::MAX) {
            Ok(()) => {},
            Err(e) => {
                return Err(SbHarnessError::ProcessRefueling(describe(&e)));
            },
        }
        proof {
            assert(ready(process_run_func, store, interval, made));
        }
        let call = begin(process_run_func, store);
        Ok(SbHarness { pollable: Pollable::new(call) })
    }

    /// Whether the factory's engine loads the bytes as a component.
    pub closed spec fn loads(&self, binary: Seq<u8>) -> bool {
        component_loads(self.engine, binary)
    }

    /// Whether the factory's engine loads components, meters execution and supports
    /// suspension, as every factory that [`SbHarnessFactory::new`] made does.
    pub closed spec fn valid(&self) -> bool {
        &&& engine_components(self.engine)
        &&& engine_metered(self.engine)
        &&& engine_suspends(self.engine)
        &&& linker_suspends(self.linker)
    }

    /// The names under which the factory has bound capabilities for its processes.
    pub closed spec fn capabilities(&self) -> Set<Seq<char>> {
        bound_names(self.linker)
    }

    /// The factory around what the engine answered when it was asked for an engine with
    /// components, metering and suspension.
    ///
    /// The engine's refusal is `EngineInitialization`. Its engine becomes a factory: a linker
    /// for that engine is made and the two capabilities are bound in it, `write-stdout` first.
    fn around(made: Result<wasmtime::Engine, wasmtime::Error>) -> (factory: Result<
        Self,
        SbHarnessError,
    >)
        requires
            made matches Ok(engine) ==> engine_components(engine) && engine_metered(engine)
                && engine_suspends(engine),
        ensures
            factory is Ok <==> made is Ok,
            factory matches Ok(f) ==> f.engine == made->Ok_0 && f.valid() && f.capabilities()
                == capability_names(),
            factory matches Err(e) ==> e is EngineInitialization,
            made matches Err(e) ==> factory is Err && factory->Err_0.detail() == error_text(e),
    {
        let engine = match made {
            Ok(engine) => engine,
            Err(e) => {
                return Err(SbHarnessError::EngineInitialization(describe(&e)));
            },
        };
        let mut linker = new_linker(&engine);
        proof {
            reveal_strlit("write-stdout");
            reveal_strlit("read-stdin");
            assert("write-stdout"@.len() != "read-stdin"@.len());
        }
        match link_write_stdout(&mut linker, "write-stdout") {
            Ok(()) => {},
            Err(e) => {
                return Err(SbHarnessError::LinkerSetup(describe(&e)));
            },
        }
        match link_read_stdin(&mut linker, "read-stdin") {
            Ok(()) => {},
            Err(e) => {
                return Err(SbHarnessError::LinkerSetup(describe(&e)));
            },
        }
        proof {
            assert(bound_names(linker) =~= capability_names());
        }
        Ok(SbHarnessFactory { engine, linker })
    }
}

/// The names of the two capabilities that every process is offered.
pub open spec fn capability_names() -> Set<Seq<char>> {
    set!["write-stdout"@, "read-stdin"@]
}

/// Whether a function and an execution context are what the one call of a process is started
/// with: the function is the export `process-run`; the context's engine supports suspension, a
/// call in it suspends every `interval` units of fuel, it has the largest budget there is, and
/// it was made around the state `made`.
pub open spec fn ready(
    func: wasmtime::component::TypedFunc<(), (u32,)>,
    store: wasmtime::Store<ShellboundState>,
    interval: u64,
    made: ShellboundState,
) -> bool {
    &&& export_name(func) == "process-run"@
    &&& store_suspends(store)
    &&& store_interval(store) == interval
    &&& store_fuel(store) == u64::MAX
    &&& made_around(store) == made
}

/// Whether a function and an execution context are what the one call of the process with this
/// id, this name and this input is started with: they are ready, with an interval of
/// `fuel_per_step`, and the context was made around the state of a process that has that id and
/// that name, whose waiting input is the bytes of `args`, in UTF-8, and that has no records
/// yet.
pub open spec fn prepared(
    func: wasmtime::component::TypedFunc<(), (u32,)>,
    store: wasmtime::Store<ShellboundState>,
    fuel_per_step: u64,
    process_id: u32,
    process_name: Seq<char>,
    args: Seq<char>,
) -> bool {
    &&& ready(func, store, fuel_per_step, made_around(store))
    &&& made_around(store).process_id == process_id
    &&& made_around(store).process_name@ == process_name
    &&& made_around(store).stdin_waiting@ == vstd::utf8::encode_utf8(args)
    &&& made_around(store).diagnostics@.len() == 0
}

} // verus!
