use vstd::prelude::*;

verus! {

use crate::errors::{StageError, StageErrorKind};

// ---------------------------------------------------------------------------
// The sandboxing engine's types, declared so that verified code can hold
// and pass values of them. Every value of these types is opaque here:
// what the engine does with them is stated, call by call, on the
// wrappers below, and nowhere else.
// ---------------------------------------------------------------------------

#[verifier::external_type_specification]
#[verifier::external_body]
pub struct ExEngine(wasmtime::Engine);

#[verifier::external_type_specification]
#[verifier::external_body]
pub struct ExWasiCtx(wasi_common::WasiCtx);

#[verifier::external_type_specification]
#[verifier::external_body]
pub struct ExWasiCtxBuilder(wasi_common::sync::WasiCtxBuilder);

#[verifier::external_type_specification]
#[verifier::external_body]
pub struct ExDir(wasi_common::sync::Dir);

/// The capture sink of one invocation: an in-memory byte pipe of the
/// engine. Verus refuses the pipe type's own declaration (its generic
/// carries an outside trait bound), so the pipe is held opaquely here.
#[verifier::external_body]
pub struct Sink {
    pipe: wasi_common::pipe::WritePipe<std::io::Cursor<Vec<u8>>>,
}

/// The compiled, linked core of one stage: an engine together with a
/// module and a linker that were both built from that same engine.
/// The three are paired by construction — `core_from_file` and
/// `core_from_bytes` are the only constructors, and each derives the
/// module and the linker from the one engine it stores — which is
/// exactly the condition under which the engine's instantiate,
/// entrypoint-lookup and call operations are documented never to panic.
#[verifier::external_body]
pub struct StageCore {
    engine: wasmtime::Engine,
    module: wasmtime::Module,
    linker: wasmtime::Linker<wasi_common::WasiCtx>,
}

// ---------------------------------------------------------------------------
// One wrapper per engine call. Nothing is promised of what the engine
// computes: its results depend on the program image, the host file
// system and the sandboxed execution, so each wrapper states only what
// holds of every outcome.
// ---------------------------------------------------------------------------

/// Relies on `wasmtime::Config` and `wasmtime::Engine::new`: a fresh
/// engine whose linear memories reserve only a bounded stretch of
/// address space, so that many stages can stand side by side. The three
/// settings tune how address space is reserved and nothing else: what a
/// guest program can observe is exactly as with a default engine.
#[verifier::external_body]
pub(crate) fn engine_new() -> Result<wasmtime::Engine, String> {
    let mut c = wasmtime::Config::new();
    c.memory_reservation(1 << 26);
    c.memory_guard_size(1 << 16);
    c.memory_reservation_for_growth(1 << 24);
    wasmtime::Engine::new(&c).map_err(|x| format!("Invalid engine config: {}", x))
}

/// Relies on `wasmtime::Module::from_file` (loads and compiles the
/// program at `path`, failing if missing or invalid), `Linker::new` and
/// `wasi_common::sync::add_to_linker` (exposes exactly the fixed WASI
/// capability surface). Module and linker are built from the one engine
/// passed in, so the returned core is internally paired.
#[verifier::external_body]
pub(crate) fn core_from_file(engine: wasmtime::Engine, path: &str) -> (r: Result<
    StageCore,
    StageError,
>)
    ensures
        r matches Err(e) ==> e.kind == StageErrorKind::Compile || e.kind == StageErrorKind::Link,
{
    let module = wasmtime::Module::from_file(&engine, path).map_err(|x| StageError {
        kind: StageErrorKind::Compile,
        msg: format!("Invalid module: {}", x),
    })?;
    let mut linker = wasmtime::Linker::new(&engine);
    wasi_common::sync::add_to_linker(&mut linker, |t| t).map_err(|x| StageError {
        kind: StageErrorKind::Link,
        msg: format!("Unable to setup linker: {}", x),
    })?;
    Ok(StageCore { engine, module, linker })
}

/// Relies on `wasmtime::Module::new` (compiles a program image held in
/// memory, failing if invalid), `Linker::new` and
/// `wasi_common::sync::add_to_linker`, exactly as `core_from_file`.
#[verifier::external_body]
pub(crate) fn core_from_bytes(engine: wasmtime::Engine, image: &[u8]) -> (r: Result<
    StageCore,
    StageError,
>)
    ensures
        r matches Err(e) ==> e.kind == StageErrorKind::Compile || e.kind == StageErrorKind::Link,
{
    let module = wasmtime::Module::new(&engine, image).map_err(|x| StageError {
        kind: StageErrorKind::Compile,
        msg: format!("Invalid module: {}", x),
    })?;
    let mut linker = wasmtime::Linker::new(&engine);
    wasi_common::sync::add_to_linker(&mut linker, |t| t).map_err(|x| StageError {
        kind: StageErrorKind::Link,
        msg: format!("Unable to setup linker: {}", x),
    })?;
    Ok(StageCore { engine, module, linker })
}

/// Relies on `wasi_common::sync::WasiCtxBuilder::new`: a fresh context
/// builder granting no capability at all.
#[verifier::external_body]
pub(crate) fn builder_new() -> wasi_common::sync::WasiCtxBuilder {
    wasi_common::sync::WasiCtxBuilder::new()
}

/// Relies on `cap_std::fs::Dir::open_ambient_dir`: a capability handle
/// for the host directory at `host`, failing if it cannot be opened.
#[verifier::external_body]
pub(crate) fn open_host_dir(host: &str) -> Result<wasi_common::sync::Dir, String> {
    wasi_common::sync::Dir::open_ambient_dir(host, wasi_common::sync::ambient_authority()).map_err(
        |x| format!("Unable to open host dir: {}", x),
    )
}

/// Relies on `wasi_common::sync::WasiCtxBuilder::preopened_dir`: grants
/// the sandbox the directory `d` under the guest path `guest`.
#[verifier::external_body]
pub(crate) fn builder_preopen(
    b: &mut wasi_common::sync::WasiCtxBuilder,
    d: wasi_common::sync::Dir,
    guest: &str,
) -> Result<(), String> {
    b.preopened_dir(d, guest).map(|_| ()).map_err(|x| format!("Unable to map dir: {}", x))
}

/// Relies on `wasi_common::sync::WasiCtxBuilder::env`: exports `val`
/// under `key` inside the sandbox, failing on an invalid assignment.
#[verifier::external_body]
pub(crate) fn builder_env(
    b: &mut wasi_common::sync::WasiCtxBuilder,
    key: &str,
    val: &str,
) -> Result<(), String> {
    b.env(key, val).map(|_| ()).map_err(|x| format!("Unable to set env: {}", x))
}

/// Relies on `wasi_common::sync::WasiCtxBuilder::inherit_stderr`: the
/// sandbox's diagnostics go straight to the host's error stream.
#[verifier::external_body]
pub(crate) fn builder_inherit_stderr(b: &mut wasi_common::sync::WasiCtxBuilder) {
    b.inherit_stderr();
}

/// Relies on `wasi_common::sync::WasiCtxBuilder::stdin` and
/// `ReadPipe::from`: the sandbox reads exactly the bytes of `input` on
/// its standard input.
#[verifier::external_body]
pub(crate) fn builder_stdin_bytes(b: &mut wasi_common::sync::WasiCtxBuilder, input: Vec<u8>) {
    b.stdin(Box::new(wasi_common::pipe::ReadPipe::from(input)));
}

/// Relies on `WritePipe::new_in_memory`: a fresh, empty, growable
/// capture sink, shared with nothing.
#[verifier::external_body]
pub(crate) fn sink_new() -> Sink {
    Sink { pipe: wasi_common::pipe::WritePipe::new_in_memory() }
}

/// Relies on `WritePipe::clone`: a second handle to the same sink.
#[verifier::external_body]
pub(crate) fn sink_clone(s: &Sink) -> Sink {
    Sink { pipe: s.pipe.clone() }
}

/// Relies on `wasi_common::sync::WasiCtxBuilder::stdout`: the sandbox's
/// standard output is captured in the sink `s`.
#[verifier::external_body]
pub(crate) fn builder_stdout_sink(b: &mut wasi_common::sync::WasiCtxBuilder, s: Sink) {
    b.stdout(Box::new(s.pipe));
}

/// Relies on `wasi_common::sync::WasiCtxBuilder::build`: the finished
/// context. Consumes the builder, so no builder is ever built twice.
#[verifier::external_body]
pub(crate) fn builder_build(b: wasi_common::sync::WasiCtxBuilder) -> wasi_common::WasiCtx {
    let mut b = b;
    b.build()
}

/// Relies on `wasmtime::Store::new`, `Linker::instantiate`,
/// `Instance::get_typed_func` and `TypedFunc::call`: one invocation, in
/// a fresh single-use store owning the context. The store is created
/// here from the core's own engine, and instance and entrypoint live
/// only inside this call, so the documented panic conditions of these
/// calls (an item from another engine, a value used with a foreign
/// store) cannot arise. The store is dropped before returning, so the
/// capture sink's handle inside the context is released on every path.
/// Instantiation failure is a Link error, a missing or mismatched
/// `_start` an Entrypoint error, an aborted execution a Trap error.
#[verifier::external_body]
pub(crate) fn run_entrypoint(core: &StageCore, ctx: wasi_common::WasiCtx) -> (r: Result<
    (),
    StageError,
>)
    ensures
        r matches Err(e) ==> e.kind == StageErrorKind::Link || e.kind == StageErrorKind::Entrypoint
            || e.kind == StageErrorKind::Trap,
{
    let mut s = wasmtime::Store::new(&core.engine, ctx);
    let inst = core.linker.instantiate(&mut s, &core.module).map_err(|x| StageError {
        kind: StageErrorKind::Link,
        msg: format!("Unable to get an instance: {}", x),
    })?;
    let entry = inst.get_typed_func::<(), ()>(&mut s, "_start").map_err(|x| StageError {
        kind: StageErrorKind::Entrypoint,
        msg: format!("No entry point: {}", x),
    })?;
    entry.call(&mut s, ()).map_err(|x| StageError {
        kind: StageErrorKind::Trap,
        msg: format!("Unable to call main: {}", x),
    })
}

/// Relies on `WritePipe::try_into_inner`: the bytes the sandbox wrote,
/// available once the sink's other handles are gone.
#[verifier::external_body]
pub(crate) fn sink_take(s: Sink) -> Result<Vec<u8>, String> {
    match s.pipe.try_into_inner() {
        Ok(c) => Ok(c.into_inner()),
        Err(_) => Err(String::from("Unable to get buffer")),
    }
}

} // verus!
