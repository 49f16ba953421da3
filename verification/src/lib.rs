//! Chains sandboxed WebAssembly programs into a single-pass byte
//! pipeline. Each stage is compiled once and then invoked inside a
//! fresh, capability-scoped WASI context per call: it sees only the
//! directories mapped to it, the environment entries set for it, and
//! the stdin/stdout wired by the builder. The executor threads two
//! reusable buffers through the ordered stages, moving each stage's
//! output into the next stage's input, and stops at the first failure,
//! naming the failing stage's 1-based position. A pipeline is a vector
//! over one stage type: heterogeneous stages share a pipeline through a
//! single type (an enum over the kinds) implementing `Process`.

use vstd::prelude::*;

pub mod errors;
pub mod module;
pub mod pairs;
pub mod process;
mod sandbox;
pub mod stage;
pub mod parse;

pub use errors::ConfigError;
pub use errors::PipesError;
pub use errors::RunError;
pub use errors::PipeError;
pub use errors::StageError;
pub use errors::StageErrorKind;

pub use module::{ModuleInfo, ModuleInfoConsumer, ModuleInfoSource, new_json_module_info_iter};
pub use process::{mem2pipes2mem, read2pipes2write, Process, ProcessBuilder};
pub use stage::{new_boxed_processor_from_module_info, new_pipes_from_modules, new_processor_from_bytes, CtxProcess};

verus! {

use crate::parse::parse_record;
use crate::stage::assembled;

/// Turn configuration lines into a ready pipeline: parse every line in
/// order (stopping at the first malformed one, named by its 1-based
/// number), then compile every stage in order (stopping at the first
/// failing one, named by its 1-based position). On success the stages
/// stand in line order, each assembled from its own record.
pub fn strings2pipes(lines: &Vec<String>) -> (r: Result<Vec<CtxProcess>, PipesError>)
    ensures
        match r {
            Ok(v) => v@.len() == lines@.len() && forall|i: int|
                0 <= i < lines@.len() ==> (#[trigger] parse_record(
                    lines.deep_view()[i],
                )) is Some && assembled(v@[i], parse_record(lines.deep_view()[i])->Some_0),
            Err(e) => match e {
                PipesError::Config(c) => match c {
                    ConfigError::Malformed(nline, _) => {
                        &&& 1 <= nline <= lines@.len()
                        &&& parse_record(lines.deep_view()[nline - 1]) is None
                        &&& forall|j: int|
                            0 <= j < nline - 1 ==> (#[trigger] parse_record(
                                lines.deep_view()[j],
                            )) is Some
                    },
                },
                PipesError::Assembly(pe) => {
                    &&& 1 <= pe.stage <= lines@.len()
                    &&& (pe.error.kind == errors::StageErrorKind::Compile || pe.error.kind
                        == errors::StageErrorKind::Link)
                    &&& forall|j: int|
                        0 <= j < lines@.len() ==> (#[trigger] parse_record(
                            lines.deep_view()[j],
                        )) is Some
                },
            },
        },
{
    let ms = match new_json_module_info_iter(lines) {
        Err(c) => {
            return Err(PipesError::Config(c));
        },
        Ok(ms) => ms,
    };
    let ghost ms_snap = ms@;
    match new_pipes_from_modules(ms) {
        Err(p) => {
            proof {
                assert forall|j: int| 0 <= j < lines@.len() implies (#[trigger] parse_record(
                    lines.deep_view()[j],
                )) is Some by {
                    assert(parse_record(lines.deep_view()[j]) == Some(ms_snap[j].model()));
                }
            }
            Err(PipesError::Assembly(p))
        },
        Ok(v) => {
            proof {
                assert forall|i: int| 0 <= i < lines@.len() implies (#[trigger] parse_record(
                    lines.deep_view()[i],
                )) is Some && assembled(v@[i], parse_record(lines.deep_view()[i])->Some_0) by {
                    assert(parse_record(lines.deep_view()[i]) == Some(ms_snap[i].model()));
                    assert(assembled(v@[i], ms_snap[i].model()));
                }
            }
            Ok(v)
        },
    }
}

} // verus!
