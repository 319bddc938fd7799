//! The protocol between the library and the process whose memory it inspects.
//!
//! Every operation that reads the target's memory is a state machine: it asks
//! for one value at a time (`Step::Read`), the caller performs the read and
//! hands the value back to `ReadMachine::resume`, until the machine is done
//! (`Step::Done`). Values are handed back zero-extended to `u64`, exactly as
//! many bytes as the requested width.
use vstd::prelude::*;

verus! {

/// How many bytes a read or write covers.
#[derive(PartialEq, Eq, Structural, Clone, Copy, Debug)]
pub enum Width {
    U8,
    U16,
    U32,
    U64,
}

/// A request to read one value of `width` bytes at `address`.
#[derive(PartialEq, Eq, Structural, Clone, Copy, Debug)]
pub struct Read {
    pub address: u64,
    pub width: Width,
}

/// A request to write `value` (its low `width` bytes) at `address`.
#[derive(PartialEq, Eq, Structural, Clone, Copy, Debug)]
pub struct Write {
    pub address: u64,
    pub width: Width,
    pub value: u64,
}

/// One step of a memory-reading operation: either a read that the caller
/// performs before resuming the machine, or the final result.
pub enum Step<M, R> {
    Read(M, Read),
    Done(R),
}

/// A view of the target's memory: the value that each read gives.
pub type Oracle = spec_fn(Read) -> u64;

/// An operation driven by reads of the target's memory.
pub trait ReadMachine: Sized {
    type Output;

    /// The step that follows when the pending read answered `reply`.
    spec fn next(self, reply: u64) -> Step<Self, Self::Output>;

    /// Hands the value of the pending read to the machine.
    fn resume(self, reply: u64) -> (step: Step<Self, Self::Output>)
        ensures
            step == self.next(reply),
    ;
}

/// The result of driving `step` against `oracle` for at most `fuel` reads,
/// or `None` if the operation needs more reads than that.
pub open spec fn run<M: ReadMachine>(step: Step<M, M::Output>, oracle: Oracle, fuel: nat) -> Option<
    M::Output,
>
    decreases fuel,
{
    match step {
        Step::Done(r) => Some(r),
        Step::Read(m, req) => if fuel == 0 {
            None
        } else {
            run(m.next(oracle(req)), oracle, (fuel - 1) as nat)
        },
    }
}

/// A run that finishes within some fuel gives the same result with more fuel.
pub proof fn lemma_run_monotonic<M: ReadMachine>(
    step: Step<M, M::Output>,
    oracle: Oracle,
    fuel: nat,
    more: nat,
)
    requires
        run(step, oracle, fuel) is Some,
        fuel <= more,
    ensures
        run(step, oracle, more) == run(step, oracle, fuel),
    decreases fuel,
{
    match step {
        Step::Done(_) => {},
        Step::Read(m, req) => {
            lemma_run_monotonic(m.next(oracle(req)), oracle, (fuel - 1) as nat, (more - 1) as nat);
        },
    }
}

/// One read of a run: the machine is resumed with the oracle's answer.
pub proof fn lemma_run_read<M: ReadMachine>(m: M, read: Read, oracle: Oracle, fuel: nat)
    requires
        fuel > 0,
    ensures
        run(Step::<M, M::Output>::Read(m, read), oracle, fuel) == run(m.next(oracle(read)), oracle, (fuel - 1) as nat),
{
}

} // verus!
