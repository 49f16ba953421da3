use vstd::prelude::*;

verus! {

use crate::errors::{PipeError, StageError, StageErrorKind};
use crate::module::{ModuleInfo, ModuleInfoConsumer};
use crate::pairs::{effective_pairs, effective_pairs_by_snd, last_wins, last_wins_by_snd, PairModel};
use crate::parse::RecordModel;
use crate::process::Process;
use crate::sandbox::{
    builder_build, builder_env, builder_inherit_stderr, builder_new, builder_preopen,
    builder_stdin_bytes, builder_stdout_sink, core_from_bytes, core_from_file, engine_new,
    open_host_dir, run_entrypoint, sink_clone, sink_new, sink_take, Sink, StageCore,
};

/// Collects the three parts of one stage descriptor on their way into a
/// compiled stage.
pub struct BuilderSource {
    /// Path of the stage's compiled program.
    pub program_path: String,
    /// Environment entries, as the descriptor states them.
    pub env_pairs: Vec<(String, String)>,
    /// Directory mappings, as the descriptor states them.
    pub map_pairs: Vec<(String, String)>,
}

impl BuilderSource {
    /// A source holding nothing yet.
    pub fn empty() -> (r: Self)
        ensures
            r.program_path@ == Seq::<char>::empty(),
            r.env_pairs@ == Seq::<(String, String)>::empty(),
            r.map_pairs@ == Seq::<(String, String)>::empty(),
    {
        Self { program_path: String::new(), env_pairs: Vec::new(), map_pairs: Vec::new() }
    }
}

impl ModuleInfoConsumer for BuilderSource {
    open spec fn path_taken(pre: Self, post: Self, m: Seq<char>) -> bool {
        post.program_path@ == m && post.env_pairs == pre.env_pairs && post.map_pairs
            == pre.map_pairs
    }

    open spec fn env_taken(pre: Self, post: Self, e: Seq<PairModel>) -> bool {
        post.env_pairs.deep_view() == e && post.program_path == pre.program_path && post.map_pairs
            == pre.map_pairs
    }

    open spec fn map_taken(pre: Self, post: Self, m: Seq<PairModel>) -> bool {
        post.map_pairs.deep_view() == m && post.program_path == pre.program_path && post.env_pairs
            == pre.env_pairs
    }

    fn consume_module_path(&mut self, m: String) {
        self.program_path = m;
    }

    fn consume_env(&mut self, e: Vec<(String, String)>) {
        self.env_pairs = e;
    }

    fn consume_map(&mut self, m: Vec<(String, String)>) {
        self.map_pairs = m;
    }
}

/// One compiled pipeline stage: the compiled program and capability
/// linker (paired inside one `StageCore`), and the effective
/// configuration entries, all immutable after construction and reused
/// by every invocation. The entries are already reduced by ordered,
/// last-wins application. The fields are private on purpose: every
/// stage is assembled by this module's constructors, so its core stays
/// internally paired and `process` cannot be driven into the engine's
/// panic conditions.
pub struct CtxProcess {
    core: StageCore,
    env_pairs: Vec<(String, String)>,
    dir_pairs: Vec<(String, String)>,
}

impl CtxProcess {
    /// The effective environment entries, as contracts see them.
    pub closed spec fn spec_env_pairs(&self) -> Seq<PairModel> {
        self.env_pairs.deep_view()
    }

    /// The effective directory mappings, as contracts see them.
    pub closed spec fn spec_dir_pairs(&self) -> Seq<PairModel> {
        self.dir_pairs.deep_view()
    }

    /// The effective environment entries: the last entry per key.
    pub fn env_pairs(&self) -> (r: &Vec<(String, String)>)
        ensures
            r.deep_view() == self.spec_env_pairs(),
    {
        &self.env_pairs
    }

    /// The effective directory mappings: the last mapping per guest path.
    pub fn dir_pairs(&self) -> (r: &Vec<(String, String)>)
        ensures
            r.deep_view() == self.spec_dir_pairs(),
    {
        &self.dir_pairs
    }
}

/// Whether the stage `p` was assembled from the record `q`: its entries
/// are exactly the survivors of ordered, last-wins application of the
/// record's entries.
pub open spec fn assembled(p: CtxProcess, q: RecordModel) -> bool {
    &&& p.spec_env_pairs() == last_wins(q.env)
    &&& p.spec_dir_pairs() == last_wins_by_snd(q.map)
}

impl CtxProcess {
    /// Build one fresh sandbox context seeded with `input`: open and
    /// preopen each effective directory mapping in order, export each
    /// effective environment entry in order, inherit the host's error
    /// stream, wire the input to stdin and a fresh capture sink to
    /// stdout. A failed build is discarded wholesale.
    fn build_sandbox(&self, input: Vec<u8>) -> (r: Result<(wasi_common::WasiCtx, Sink), StageError>)
        ensures
            r matches Err(e) ==> e.kind == StageErrorKind::DirMap || e.kind == StageErrorKind::Env,
    {
        let mut b = builder_new();
        let mut i: usize = 0;
        while i < self.dir_pairs.len()
            invariant
                i <= self.dir_pairs@.len(),
            decreases self.dir_pairs@.len() - i,
        {
            let d = match open_host_dir(self.dir_pairs[i].0.as_str()) {
                Err(m) => {
                    return Err(StageError { kind: StageErrorKind::DirMap, msg: m });
                },
                Ok(d) => d,
            };
            match builder_preopen(&mut b, d, self.dir_pairs[i].1.as_str()) {
                Err(m) => {
                    return Err(StageError { kind: StageErrorKind::DirMap, msg: m });
                },
                Ok(()) => {},
            }
            i += 1;
        }
        let mut j: usize = 0;
        while j < self.env_pairs.len()
            invariant
                j <= self.env_pairs@.len(),
            decreases self.env_pairs@.len() - j,
        {
            match builder_env(&mut b, self.env_pairs[j].0.as_str(), self.env_pairs[j].1.as_str()) {
                Err(m) => {
                    return Err(StageError { kind: StageErrorKind::Env, msg: m });
                },
                Ok(()) => {},
            }
            j += 1;
        }
        builder_inherit_stderr(&mut b);
        builder_stdin_bytes(&mut b, input);
        let sink = sink_new();
        let hand = sink_clone(&sink);
        builder_stdout_sink(&mut b, hand);
        let ctx = builder_build(b);
        Ok((ctx, sink))
    }
}

impl Process for CtxProcess {
    /// A stage shares nothing across invocations: it is exactly as it
    /// was, whatever the sandboxed program did, and a failure is never a
    /// compilation failure (compilation happened at assembly time).
    open spec fn post(
        pre: Self,
        now: Self,
        input: Seq<u8>,
        outcome: Result<Seq<u8>, StageError>,
    ) -> bool {
        &&& now == pre
        &&& (outcome matches Err(e) ==> e.kind != StageErrorKind::Compile)
    }

    /// One invocation: a fresh sandbox context seeded with `i`, run the
    /// compiled program's entrypoint once in a fresh single-use store,
    /// then drain the capture sink into `o`. A trap is terminal; nothing
    /// is retried, and on any failure `o` is left exactly as passed.
    fn process(&mut self, i: &[u8], o: &mut Vec<u8>) -> (r: Result<(), StageError>)
        ensures
            r matches Err(_) ==> final(o)@ == old(o)@,
    {
        let input = vstd::slice::slice_to_vec(i);
        let (ctx, sink) = match self.build_sandbox(input) {
            Err(e) => {
                return Err(e);
            },
            Ok(x) => x,
        };
        match run_entrypoint(&self.core, ctx) {
            Err(e) => {
                return Err(e);
            },
            Ok(()) => {},
        }
        let mut out = match sink_take(sink) {
            Err(m) => {
                return Err(StageError { kind: StageErrorKind::Io, msg: m });
            },
            Ok(v) => v,
        };
        o.clear();
        o.append(&mut out);
        Ok(())
    }
}

/// Compile one stage from its descriptor: load and compile the program,
/// set up the capability linker, and keep the effective configuration
/// entries, reduced once here by ordered, last-wins application.
pub fn new_boxed_processor_from_module_info(m: ModuleInfo) -> (r: Result<
    CtxProcess,
    StageError,
>)
    ensures
        match r {
            Ok(p) => assembled(p, m.model()),
            Err(e) => e.kind == StageErrorKind::Compile || e.kind == StageErrorKind::Link,
        },
{
    let ghost model = m.model();
    let mut src = BuilderSource::empty();
    let ghost src0 = src;
    m.into_consumer(&mut src);
    proof {
        let (c1, c2): (BuilderSource, BuilderSource) = choose|c1: BuilderSource,
            c2: BuilderSource|
            #![trigger BuilderSource::env_taken(c1, c2, model.env)]
            BuilderSource::path_taken(src0, c1, model.path) && BuilderSource::env_taken(
                c1,
                c2,
                model.env,
            ) && BuilderSource::map_taken(c2, src, model.map);
        assert(src.program_path@ == model.path);
        assert(src.env_pairs.deep_view() == model.env);
        assert(src.map_pairs.deep_view() == model.map);
    }
    let env_eff = effective_pairs(&src.env_pairs);
    let dir_eff = effective_pairs_by_snd(&src.map_pairs);
    let engine = match engine_new() {
        Err(msg) => {
            return Err(StageError { kind: StageErrorKind::Compile, msg });
        },
        Ok(x) => x,
    };
    let core = match core_from_file(engine, src.program_path.as_str()) {
        Err(e) => {
            return Err(e);
        },
        Ok(c) => c,
    };
    Ok(CtxProcess { core, env_pairs: env_eff, dir_pairs: dir_eff })
}

impl crate::process::ProcessBuilder<CtxProcess> for ModuleInfo {
    /// One descriptor builds one stage: compile it, or report why not.
    fn build(self) -> (r: Result<CtxProcess, StageError>)
        ensures
            match r {
                Ok(p) => assembled(p, self.model()),
                Err(e) => e.kind == StageErrorKind::Compile || e.kind == StageErrorKind::Link,
            },
    {
        new_boxed_processor_from_module_info(self)
    }
}

/// Compile one stage from a program image held in memory, with its
/// environment entries and directory mappings; entries are reduced by
/// ordered, last-wins application exactly as for a descriptor.
pub fn new_processor_from_bytes(
    image: &[u8],
    env: &Vec<(String, String)>,
    map: &Vec<(String, String)>,
) -> (r: Result<CtxProcess, StageError>)
    ensures
        match r {
            Ok(p) => p.spec_env_pairs() == last_wins(env.deep_view())
                && p.spec_dir_pairs() == last_wins_by_snd(map.deep_view()),
            Err(e) => e.kind == StageErrorKind::Compile || e.kind == StageErrorKind::Link,
        },
{
    let env_eff = effective_pairs(env);
    let dir_eff = effective_pairs_by_snd(map);
    let engine = match engine_new() {
        Err(msg) => {
            return Err(StageError { kind: StageErrorKind::Compile, msg });
        },
        Ok(x) => x,
    };
    let core = match core_from_bytes(engine, image) {
        Err(e) => {
            return Err(e);
        },
        Ok(c) => c,
    };
    Ok(CtxProcess { core, env_pairs: env_eff, dir_pairs: dir_eff })
}

/// Compile every descriptor into its stage, in order, stopping at the
/// first failure; the error carries the failing descriptor's 1-based
/// position, and no partial pipeline is returned.
pub fn new_pipes_from_modules(ms: Vec<ModuleInfo>) -> (r: Result<Vec<CtxProcess>, PipeError>)
    ensures
        match r {
            Ok(v) => v@.len() == ms@.len() && forall|i: int|
                0 <= i < ms@.len() ==> assembled(#[trigger] v@[i], ms@[i].model()),
            Err(e) => 1 <= e.stage <= ms@.len() && (e.error.kind == StageErrorKind::Compile
                || e.error.kind == StageErrorKind::Link),
        },
{
    let ghost ms0 = ms@;
    let mut queue = ms;
    let total = queue.len();
    let mut out: Vec<CtxProcess> = Vec::new();
    while queue.len() > 0
        invariant
            ms0 == ms@,
            ms0.len() == total,
            out@.len() + queue@.len() == ms0.len(),
            queue@ == ms0.subrange(out@.len() as int, ms0.len() as int),
            forall|j: int| 0 <= j < out@.len() ==> assembled(#[trigger] out@[j], ms0[j].model()),
        decreases queue@.len(),
    {
        let m = queue.remove(0);
        assert(m == ms0[out@.len() as int]);
        assert(queue@ =~= ms0.subrange(out@.len() as int + 1, ms0.len() as int));
        match new_boxed_processor_from_module_info(m) {
            Err(e) => {
                return Err(PipeError { stage: out.len() + 1, error: e });
            },
            Ok(p) => {
                out.push(p);
            },
        }
    }
    assert(ms0.subrange(out@.len() as int, ms0.len() as int).len() == 0);
    Ok(out)
}

} // verus!
