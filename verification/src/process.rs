use vstd::prelude::*;

verus! {

use crate::errors::{PipeError, RunError, StageError, StageErrorKind};

/// One configured unit of sandboxed computation: the uniform capability
/// `process(input bytes) -> output bytes`. A pipeline holds one stage
/// type; to mix kinds of stages in one pipeline, give a single type (an
/// enum over the kinds) this trait.
pub trait Process: Sized {
    /// What one invocation may do: relates the unit before and after the
    /// call, the input bytes, and the outcome (the output bytes on
    /// success, the stage's error on failure).
    open spec fn post(
        pre: Self,
        now: Self,
        input: Seq<u8>,
        outcome: Result<Seq<u8>, StageError>,
    ) -> bool {
        true
    }

    /// Run the unit once on input `i`, leaving its output in `o`.
    fn process(&mut self, i: &[u8], o: &mut Vec<u8>) -> (r: Result<(), StageError>)
        ensures
            match r {
                Ok(()) => Self::post(*old(self), *final(self), i@, Ok(final(o)@)),
                Err(e) => Self::post(*old(self), *final(self), i@, Err(e)),
            },
    ;
}

/// Builds one execution unit, consuming the builder.
pub trait ProcessBuilder<P: Process>: Sized {
    fn build(self) -> Result<P, StageError>;
}

/// A successful chain of custody through a pipeline: `mids` threads the
/// buffers through the units, `mids[0]` being the pipeline input and
/// `mids[j + 1]` the output that unit `j` produced from `mids[j]`, every
/// unit succeeding.
pub open spec fn chain_ok<P: Process>(pres: Seq<P>, posts: Seq<P>, mids: Seq<Seq<u8>>) -> bool {
    &&& posts.len() == pres.len()
    &&& mids.len() == pres.len() + 1
    &&& forall|j: int|
        0 <= j < pres.len() ==> P::post(pres[j], #[trigger] posts[j], mids[j], Ok(mids[j + 1]))
}

/// A chain of custody cut short at the failing unit: units before the
/// 1-based position `e.stage` each succeeded on their input, unit
/// `e.stage` failed with `e.error` on the buffer handed to it, and every
/// unit after it was never run — it is exactly as it was.
pub open spec fn chain_err<P: Process>(
    pres: Seq<P>,
    posts: Seq<P>,
    mids: Seq<Seq<u8>>,
    e: PipeError,
) -> bool {
    let k = e.stage as int - 1;
    &&& 1 <= e.stage <= pres.len()
    &&& posts.len() == pres.len()
    &&& mids.len() == e.stage
    &&& forall|j: int|
        0 <= j < k ==> P::post(pres[j], #[trigger] posts[j], mids[j], Ok(mids[j + 1]))
    &&& P::post(pres[k], posts[k], mids[k], Err(e.error))
    &&& forall|j: int| k < j < pres.len() ==> #[trigger] posts[j] == pres[j]
}

/// Run the ordered units over the buffers: `ibuf` starts as the whole
/// input, each unit's output becomes the next unit's input, and on
/// success `obuf` ends with the last unit's output (the input itself when
/// there are no units). On a unit's failure the run stops at once: the
/// error carries that unit's 1-based position, and no later unit runs.
pub fn mem2pipes2mem<P: Process>(units: &mut Vec<P>, ibuf: &mut Vec<u8>, obuf: &mut Vec<u8>) -> (r:
    Result<(), PipeError>)
    ensures
        final(units)@.len() == old(units)@.len(),
        match r {
            Ok(()) => {
                &&& exists|mids: Seq<Seq<u8>>|
                    #![trigger chain_ok::<P>(old(units)@, final(units)@, mids)]
                    chain_ok(old(units)@, final(units)@, mids) && mids[0] == old(ibuf)@
                        && mids.last() == final(obuf)@
                &&& old(units)@.len() == 0 ==> final(obuf)@ == old(ibuf)@
                &&& final(ibuf)@ == Seq::<u8>::empty()
            },
            Err(e) => exists|mids: Seq<Seq<u8>>|
                #![trigger chain_err::<P>(old(units)@, final(units)@, mids, e)]
                chain_err(old(units)@, final(units)@, mids, e) && mids[0] == old(ibuf)@,
        },
{
    let ghost units0 = units@;
    let ghost input0 = ibuf@;
    let n = units.len();
    let ghost mut mids: Seq<Seq<u8>> = seq![ibuf@];
    let mut k: usize = 0;
    while k < n
        invariant
            units0 == old(units)@,
            input0 == old(ibuf)@,
            n == units@.len(),
            units@.len() == units0.len(),
            k <= n,
            mids.len() == k + 1,
            mids[0] == input0,
            mids.last() == ibuf@,
            forall|j: int|
                0 <= j < k ==> P::post(units0[j], #[trigger] units@[j], mids[j], Ok(mids[j + 1])),
            forall|j: int| k <= j < n ==> #[trigger] units@[j] == units0[j],
        decreases n - k,
    {
        obuf.clear();
        let step = units[k].process(ibuf.as_slice(), obuf);
        match step {
            Err(e) => {
                let pe = PipeError { stage: k + 1, error: e };
                proof {
                    assert(chain_err(units0, units@, mids, pe));
                }
                return Err(pe);
            },
            Ok(()) => {
                proof {
                    mids = mids.push(obuf@);
                }
                ibuf.clear();
                ibuf.append(obuf);
                k += 1;
            },
        }
    }
    obuf.clear();
    obuf.append(ibuf);
    proof {
        assert(chain_ok(units0, units@, mids));
    }
    Ok(())
}

/// Relies on `std::io::Read::read_to_end`: reads the stream to its end,
/// appending everything read after the buffer's prior contents.
#[verifier::external_body]
fn read_all<R: std::io::Read>(r: &mut R, buf: &mut Vec<u8>) -> (res: Result<(), String>)
    ensures
        res is Ok ==> final(buf)@.len() >= old(buf)@.len() && final(buf)@.subrange(
            0,
            old(buf)@.len() as int,
        ) == old(buf)@,
{
    match r.read_to_end(buf) {
        Ok(_) => Ok(()),
        Err(e) => Err(format!("Unable to read input: {}", e)),
    }
}

/// Relies on `std::io::Write::write_all`: writes the whole slice or
/// reports the first error.
#[verifier::external_body]
fn write_out<W: std::io::Write>(w: &mut W, data: &[u8]) -> (res: Result<(), String>) {
    w.write_all(data).map_err(|e| format!("Unable to write data: {}", e))
}

/// Relies on `std::io::Write::flush`.
#[verifier::external_body]
fn flush_out<W: std::io::Write>(w: &mut W) -> (res: Result<(), String>) {
    w.flush().map_err(|e| format!("Unable to flush: {}", e))
}

/// Read the whole input from `r`, run it through the units, and write
/// the result to `w`. On any failure nothing more is written: a failed
/// read or write surfaces as a host I/O error, a failed unit as the
/// pipeline error carrying its 1-based position.
pub fn read2pipes2write<R: std::io::Read, P: Process, W: std::io::Write>(
    r: &mut R,
    units: &mut Vec<P>,
    w: &mut W,
    ibuf: &mut Vec<u8>,
    obuf: &mut Vec<u8>,
) -> (res: Result<(), RunError>)
    ensures
        final(units)@.len() == old(units)@.len(),
        match res {
            Ok(()) => {
                &&& exists|mids: Seq<Seq<u8>>|
                    #![trigger chain_ok::<P>(old(units)@, final(units)@, mids)]
                    chain_ok(old(units)@, final(units)@, mids) && mids.last() == final(obuf)@
                &&& final(ibuf)@ == Seq::<u8>::empty()
            },
            Err(re) => match re {
                RunError::Input(e) => e.kind == StageErrorKind::Io && final(units)@ == old(units)@
                    && final(obuf)@ == old(obuf)@,
                RunError::Pipe(e) => exists|mids: Seq<Seq<u8>>|
                    #![trigger chain_err::<P>(old(units)@, final(units)@, mids, e)]
                    chain_err(old(units)@, final(units)@, mids, e),
                RunError::Output(e) => e.kind == StageErrorKind::Io && exists|mids: Seq<Seq<u8>>|
                    #![trigger chain_ok::<P>(old(units)@, final(units)@, mids)]
                    chain_ok(old(units)@, final(units)@, mids) && mids.last() == final(obuf)@,
            },
        },
{
    ibuf.clear();
    match read_all(r, ibuf) {
        Err(m) => {
            return Err(RunError::Input(StageError { kind: StageErrorKind::Io, msg: m }));
        },
        Ok(()) => {},
    }
    match mem2pipes2mem(units, ibuf, obuf) {
        Err(e) => {
            return Err(RunError::Pipe(e));
        },
        Ok(()) => {},
    }
    match write_out(w, obuf.as_slice()) {
        Err(m) => {
            return Err(RunError::Output(StageError { kind: StageErrorKind::Io, msg: m }));
        },
        Ok(()) => {},
    }
    match flush_out(w) {
        Err(m) => {
            return Err(RunError::Output(StageError { kind: StageErrorKind::Io, msg: m }));
        },
        Ok(()) => {},
    }
    Ok(())
}

} // verus!
