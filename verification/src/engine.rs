//! The sandboxed-execution engine, as far as this library drives it. Every function here makes
//! one call into `wasmtime` and is believed, not proved. None promises what the engine decides;
//! what they state is how its settings travel from a configuration to the engine made of it
//! and on to that engine's linkers and stores, so that the calls which need a setting can ask
//! for it.

use crate::state::ShellboundState;
use vstd::prelude::*;

verus! {

#[verifier::external_type_specification]
#[verifier::external_body]
pub struct ExError(wasmtime::Error);

#[verifier::external_type_specification]
#[verifier::external_body]
pub struct ExConfig(wasmtime::Config);

#[verifier::external_type_specification]
#[verifier::external_body]
pub struct ExEngine(wasmtime::Engine);

#[verifier::external_type_specification]
#[verifier::external_body]
pub struct ExComponent(wasmtime::component::Component);

#[verifier::external_type_specification]
#[verifier::external_body]
pub struct ExInstance(wasmtime::component::Instance);

#[verifier::external_type_specification]
#[verifier::external_body]
#[verifier::reject_recursive_types(T)]
pub struct ExLinker<T>(wasmtime::component::Linker<T>);

#[verifier::external_type_specification]
#[verifier::external_body]
#[verifier::reject_recursive_types(T)]
pub struct ExStore<T>(wasmtime::Store<T>);

#[verifier::external_type_specification]
#[verifier::external_body]
#[verifier::reject_recursive_types(Params)]
#[verifier::reject_recursive_types(Return)]
pub struct ExTypedFunc<Params, Return>(wasmtime::component::TypedFunc<Params, Return>);

/// The text that an error of the engine shows for itself.
pub uninterp spec fn error_text(error: wasmtime::Error) -> Seq<char>;

/// The text that the engine's error shows for itself (its `Display`).
#[verifier::external_body]
pub(crate) fn describe(error: &wasmtime::Error) -> (text: String)
    ensures
        text@ == error_text(*error),
{
    format!("{}", error)
}

/// Whether a configuration loads modules as components.
pub uninterp spec fn config_components(config: wasmtime::Config) -> bool;

/// Whether a configuration meters execution.
pub uninterp spec fn config_metered(config: wasmtime::Config) -> bool;

/// Whether a configuration lets a running call suspend and be resumed.
pub uninterp spec fn config_suspends(config: wasmtime::Config) -> bool;

/// Whether an engine loads modules as components.
pub uninterp spec fn engine_components(engine: wasmtime::Engine) -> bool;

/// Whether an engine meters execution.
pub uninterp spec fn engine_metered(engine: wasmtime::Engine) -> bool;

/// Whether an engine lets a running call suspend and be resumed.
pub uninterp spec fn engine_suspends(engine: wasmtime::Engine) -> bool;

/// Whether the engine of a linker lets a running call suspend and be resumed.
pub uninterp spec fn linker_suspends(linker: wasmtime::component::Linker<ShellboundState>) -> bool;

/// The names that are defined at the root of a linker.
pub uninterp spec fn bound_names(linker: wasmtime::component::Linker<ShellboundState>) -> Set<
    Seq<char>,
>;

/// Whether an engine loads the bytes as a component.
pub uninterp spec fn component_loads(engine: wasmtime::Engine, binary: Seq<u8>) -> bool;

/// The state that a store was made around.
pub uninterp spec fn made_around(store: wasmtime::Store<ShellboundState>) -> ShellboundState;

/// Whether the engine of a store lets a running call suspend and be resumed.
pub uninterp spec fn store_suspends(store: wasmtime::Store<ShellboundState>) -> bool;

/// Whether the engine of a store meters execution.
pub uninterp spec fn store_metered(store: wasmtime::Store<ShellboundState>) -> bool;

/// The amount of fuel after which a call running in a store suspends.
pub uninterp spec fn store_interval(store: wasmtime::Store<ShellboundState>) -> u64;

/// The fuel that a store has left for its calls.
pub uninterp spec fn store_fuel(store: wasmtime::Store<ShellboundState>) -> u64;

/// The name of the export that a function was taken from its instance as.
pub uninterp spec fn export_name(func: wasmtime::component::TypedFunc<(), (u32,)>) -> Seq<char>;

/// Whether an instance was made in a store, which then owns it.
pub uninterp spec fn lives_in(
    instance: wasmtime::component::Instance,
    store: wasmtime::Store<ShellboundState>,
) -> bool;

/// `Config::new`: the engine's default configuration.
#[verifier::external_body]
pub(crate) fn new_config() -> (config: wasmtime::Config)
{
    wasmtime::Config::new()
}

/// `Config::wasm_component_model`: sets whether modules are loaded as components, and nothing
/// else.
#[verifier::external_body]
pub(crate) fn set_component_model(config: &mut wasmtime::Config, enable: bool)
    ensures
        config_components(*final(config)) == enable,
        config_metered(*final(config)) == config_metered(*old(config)),
        config_suspends(*final(config)) == config_suspends(*old(config)),
{
    config.wasm_component_model(enable);
}

/// `Config::consume_fuel`: sets whether execution is metered, and nothing else.
#[verifier::external_body]
pub(crate) fn set_consume_fuel(config: &mut wasmtime::Config, enable: bool)
    ensures
        config_metered(*final(config)) == enable,
        config_components(*final(config)) == config_components(*old(config)),
        config_suspends(*final(config)) == config_suspends(*old(config)),
{
    config.consume_fuel(enable);
}

/// `Config::async_support`: sets whether a running call can suspend and be resumed, and nothing
/// else.
#[verifier::external_body]
pub(crate) fn set_async_support(config: &mut wasmtime::Config, enable: bool)
    ensures
        config_suspends(*final(config)) == enable,
        config_components(*final(config)) == config_components(*old(config)),
        config_metered(*final(config)) == config_metered(*old(config)),
{
    config.async_support(enable);
}

/// `Engine::new`: an engine for the configuration, or the engine's reason for rejecting it. An
/// engine keeps the settings of the configuration it was made for.
#[verifier::external_body]
pub(crate) fn new_engine(config: &wasmtime::Config) -> (engine: Result<
    wasmtime::Engine,
    wasmtime::Error,
>)
    ensures
        engine matches Ok(e) ==> engine_components(e) == config_components(*config),
        engine matches Ok(e) ==> engine_metered(e) == config_metered(*config),
        engine matches Ok(e) ==> engine_suspends(e) == config_suspends(*config),
{
    wasmtime::Engine::new(config)
}

/// `component::Linker::new`: a linker for the engine with nothing defined in it.
#[verifier::external_body]
pub(crate) fn new_linker(engine: &wasmtime::Engine) -> (linker: wasmtime::component::Linker<
    ShellboundState,
>)
    ensures
        bound_names(linker) == Set::<Seq<char>>::empty(),
        linker_suspends(linker) == engine_suspends(*engine),
{
    wasmtime::component::Linker::new(engine)
}

/// `LinkerInstance::func_wrap_async` on the linker's root: binds `name` to
/// [`ShellboundState::write_stdout`] on the calling process's state. The call is for linkers of
/// an engine with suspension only. A name that is not defined yet is always accepted; when the
/// call succeeds the name is defined, and when it fails the linker is as it was.
#[verifier::external_body]
pub(crate) fn link_write_stdout(
    linker: &mut wasmtime::component::Linker<ShellboundState>,
    name: &str,
) -> (linked: Result<(), wasmtime::Error>)
    requires
        linker_suspends(*old(linker)),
    ensures
        linker_suspends(*final(linker)),
        !bound_names(*old(linker)).contains(name@) ==> linked is Ok,
        linked is Ok ==> bound_names(*final(linker)) == bound_names(*old(linker)).insert(name@),
        linked is Err ==> bound_names(*final(linker)) == bound_names(*old(linker)),
{
    linker.root().func_wrap_async(
        name,
        |mut caller: wasmtime::StoreContextMut<'_, ShellboundState>, (data,): (Vec<u8>,)| {
            Box::new(std::future::ready(Ok((caller.data_mut().write_stdout(data),))))
        },
    )
}

/// `LinkerInstance::func_wrap_async` on the linker's root: binds `name` to
/// [`ShellboundState::read_stdin`] on the calling process's state. The call is for linkers of
/// an engine with suspension only. A name that is not defined yet is always accepted; when the
/// call succeeds the name is defined, and when it fails the linker is as it was.
#[verifier::external_body]
pub(crate) fn link_read_stdin(
    linker: &mut wasmtime::component::Linker<ShellboundState>,
    name: &str,
) -> (linked: Result<(), wasmtime::Error>)
    requires
        linker_suspends(*old(linker)),
    ensures
        linker_suspends(*final(linker)),
        !bound_names(*old(linker)).contains(name@) ==> linked is Ok,
        linked is Ok ==> bound_names(*final(linker)) == bound_names(*old(linker)).insert(name@),
        linked is Err ==> bound_names(*final(linker)) == bound_names(*old(linker)),
{
    linker.root().func_wrap_async(
        name,
        |mut caller: wasmtime::StoreContextMut<'_, ShellboundState>, (max_bytes,): (u32,)| {
            Box::new(std::future::ready(Ok((caller.data_mut().read_stdin(max_bytes),))))
        },
    )
}

/// `component::Component::from_binary`: the compiled component, or the engine's reason for
/// rejecting the bytes. Whether an engine loads given bytes is up to the engine and the bytes
/// alone.
#[verifier::external_body]
pub(crate) fn load_component(engine: &wasmtime::Engine, binary: &[u8]) -> (component: Result<
    wasmtime::component::Component,
    wasmtime::Error,
>)
    ensures
        component is Ok <==> component_loads(*engine, binary@),
{
    wasmtime::component::Component::from_binary(engine, binary)
}

/// `Store::new`: a fresh execution context of the engine, made around `state`, which it owns.
#[verifier::external_body]
pub(crate) fn new_store(engine: &wasmtime::Engine, state: ShellboundState) -> (store:
    wasmtime::Store<ShellboundState>)
    ensures
        made_around(store) == state,
        store_suspends(store) == engine_suspends(*engine),
        store_metered(store) == engine_metered(*engine),
{
    wasmtime::Store::new(engine, state)
}

/// Whether a store takes an interval after which its calls suspend: its engine meters
/// execution and supports suspension, and the interval is not 0.
pub open spec fn accepts_interval(store: wasmtime::Store<ShellboundState>, interval: u64) -> bool {
    store_metered(store) && store_suspends(store) && interval != 0
}

/// `Store::fuel_async_yield_interval` with `Some(interval)`: the engine accepts exactly where
/// it meters execution and supports suspension and the interval is not 0; a call running in
/// the store then suspends from now on each time it has used up that much fuel.
#[verifier::external_body]
pub(crate) fn set_yield_interval(
    store: &mut wasmtime::Store<ShellboundState>,
    interval: u64,
) -> (set: Result<(), wasmtime::Error>)
    ensures
        made_around(*final(store)) == made_around(*old(store)),
        store_suspends(*final(store)) == store_suspends(*old(store)),
        store_metered(*final(store)) == store_metered(*old(store)),
        set is Ok <==> accepts_interval(*old(store), interval),
        set is Ok ==> store_interval(*final(store)) == interval,
{
    store.fuel_async_yield_interval(Some(interval))
}

/// `Store::set_fuel`: the engine accepts exactly where it meters execution; the store then has
/// that much fuel left for its calls. Nothing else of the store changes.
#[verifier::external_body]
pub(crate) fn set_fuel(store: &mut wasmtime::Store<ShellboundState>, fuel: u64) -> (set: Result<
    (),
    wasmtime::Error,
>)
    ensures
        set is Ok <==> store_metered(*old(store)),
        made_around(*final(store)) == made_around(*old(store)),
        store_suspends(*final(store)) == store_suspends(*old(store)),
        store_metered(*final(store)) == store_metered(*old(store)),
        store_interval(*final(store)) == store_interval(*old(store)),
        forall|instance: wasmtime::component::Instance| #[trigger]
            lives_in(instance, *final(store)) == lives_in(instance, *old(store)),
        set is Ok ==> store_fuel(*final(store)) == fuel,
{
    store.set_fuel(fuel)
}

/// `component::Linker::instantiate_async`, polled once with `futures::FutureExt::now_or_never`:
/// the component's instance, which then lives in `store`, or the engine's reason for not making
/// one, or nothing where the instantiation suspended and was given up. The call is for stores
/// of an engine with suspension only.
#[verifier::external_body]
pub(crate) fn instantiate(
    linker: &wasmtime::component::Linker<ShellboundState>,
    store: &mut wasmtime::Store<ShellboundState>,
    component: &wasmtime::component::Component,
) -> (instance: Option<Result<wasmtime::component::Instance, wasmtime::Error>>)
    requires
        store_suspends(*old(store)),
    ensures
        made_around(*final(store)) == made_around(*old(store)),
        store_suspends(*final(store)),
        store_metered(*final(store)) == store_metered(*old(store)),
        store_interval(*final(store)) == store_interval(*old(store)),
        instance matches Some(Ok(made)) ==> lives_in(made, *final(store)),
{
    futures::FutureExt::now_or_never(linker.instantiate_async(store, component))
}

/// `component::Instance::get_typed_func`: the export `name` as a function of no arguments and
/// one 32-bit result, or the engine's reason why there is none. The call is for an instance
/// that lives in `store` only. It runs nothing, and the store keeps its settings and its fuel.
#[verifier::external_body]
pub(crate) fn entry_point(
    instance: &wasmtime::component::Instance,
    store: &mut wasmtime::Store<ShellboundState>,
    name: &str,
) -> (func: Result<wasmtime::component::TypedFunc<(), (u32,)>, wasmtime::Error>)
    requires
        lives_in(*instance, *old(store)),
    ensures
        func matches Ok(found) ==> export_name(found) == name@,
        made_around(*final(store)) == made_around(*old(store)),
        lives_in(*instance, *final(store)),
        store_suspends(*final(store)) == store_suspends(*old(store)),
        store_metered(*final(store)) == store_metered(*old(store)),
        store_interval(*final(store)) == store_interval(*old(store)),
        store_fuel(*final(store)) == store_fuel(*old(store)),
{
    instance.get_typed_func::<(), (u32,)>(store, name)
}

} // verus!
