use vstd::prelude::*;

verus! {

/// The kind of terminal failure a stage can raise, from compilation
/// through sandboxed execution. Every failure is terminal: nothing in
/// the pipeline retries.
#[derive(Clone, Copy, Debug, PartialEq, Eq, Structural)]
pub enum StageErrorKind {
    /// The program image could not be loaded or compiled.
    Compile,
    /// The capability linker could not be set up.
    Link,
    /// A host directory could not be opened or preopened.
    DirMap,
    /// An environment variable could not be assigned.
    Env,
    /// The compiled program has no matching entrypoint.
    Entrypoint,
    /// Sandboxed execution aborted.
    Trap,
    /// The capture sink could not be drained.
    Io,
}

/// A terminal failure of one stage: its kind plus a human-readable cause.
#[derive(Clone, Debug)]
pub struct StageError {
    pub kind: StageErrorKind,
    pub msg: String,
}

/// A configuration record that could not be parsed: the 1-based number of
/// the first invalid line, and a human-readable cause.
#[derive(Clone, Debug)]
pub enum ConfigError {
    Malformed(usize, String),
}

impl ConfigError {
    /// The 1-based number of the line the error names.
    pub fn line(&self) -> (n: usize)
        ensures
            n == self.spec_line(),
    {
        match self {
            ConfigError::Malformed(n, _) => *n,
        }
    }

    /// The 1-based line number, seen from contracts.
    pub open spec fn spec_line(&self) -> usize {
        match self {
            ConfigError::Malformed(n, _) => *n,
        }
    }
}

/// A whole-pipeline failure: the failing stage's 1-based position and
/// the error that stage raised.
#[derive(Clone, Debug)]
pub struct PipeError {
    pub stage: usize,
    pub error: StageError,
}

/// A whole-run failure: reading the input failed, a stage of the
/// pipeline failed, or writing the output failed.
#[derive(Clone, Debug)]
pub enum RunError {
    Input(StageError),
    Pipe(PipeError),
    Output(StageError),
}

/// A failure while turning configuration text into a pipeline: either a
/// record would not parse, or a stage would not assemble.
#[derive(Clone, Debug)]
pub enum PipesError {
    Config(ConfigError),
    Assembly(PipeError),
}

} // verus!
