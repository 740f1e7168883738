//! One direction of a relay: bytes move from a source to a sink through one
//! buffer, a read and then as many writes as it takes, until the source ends
//! or an operation fails.
//!
//! The loop itself never waits. It says which operation it needs next
//! (`CopyLoop::request`), the caller performs it, and `CopyLoop::advance`
//! takes what the operation reported.

use vstd::prelude::*;

verus! {

/// What one read or one write reported.
#[derive(Debug, PartialEq, Eq)]
pub enum IoOutcome<E> {
    /// The operation moved this many bytes.
    Done(usize),
    /// The operation was interrupted before it moved anything.
    Interrupted,
    /// The operation failed for good.
    Failed(E),
}

/// Why a copy loop stopped before its source ended.
#[derive(Debug, PartialEq, Eq)]
pub enum CopyError<E> {
    /// A write reported no error and no byte.
    WriteZero,
    /// A read or a write failed; the failure is handed on untouched.
    Io(E),
}

/// The operation a copy loop waits for.
#[derive(Clone, Copy, Debug, PartialEq, Eq)]
pub enum CopyRequest {
    /// Read from the source into the start of the buffer, `capacity` bytes at
    /// least being available there.
    Read { capacity: usize },
    /// Write the bytes of the buffer from `start` up to `end` to the sink.
    Write { start: usize, end: usize },
}

/// Where a copy loop stands between two operations.
pub ghost enum CopyPhase {
    /// The buffer is empty and a read is outstanding.
    Reading,
    /// The buffer holds `filled` bytes, of which the sink has taken `written`.
    Writing { filled: nat, written: nat },
}

/// The mathematical state of a copy loop.
pub ghost struct CopyState {
    /// The size the buffer was made with.
    pub capacity: nat,
    /// The bytes of all chunks that the sink has taken in full.
    pub transferred: nat,
    pub phase: CopyPhase,
}

/// What a state and an outcome lead to.
pub ghost enum CopyNext<E> {
    /// The loop goes on from this state.
    Continue(CopyState),
    /// The loop is over, with the total or the failure.
    Finished(Result<nat, CopyError<E>>),
}

impl CopyState {
    /// The state of a loop that has not moved anything yet.
    pub open spec fn initial(capacity: nat) -> CopyState {
        CopyState { capacity, transferred: 0, phase: CopyPhase::Reading }
    }

    /// In the writing phase, part of the chunk is still to be written.
    pub open spec fn wf(self) -> bool {
        match self.phase {
            CopyPhase::Reading => true,
            CopyPhase::Writing { filled, written } => written < filled,
        }
    }

    /// The operation that the loop waits for in this state.
    pub open spec fn request(self) -> CopyRequest {
        match self.phase {
            CopyPhase::Reading => CopyRequest::Read { capacity: self.capacity as usize },
            CopyPhase::Writing { filled, written } => CopyRequest::Write {
                start: written as usize,
                end: filled as usize,
            },
        }
    }

    /// The transition of the copy loop.
    ///
    /// A read of zero bytes ends the loop with the total. A read of `n > 0`
    /// bytes opens the writing phase for a chunk of `n`. A write of zero bytes
    /// is the write-zero failure. A write that leaves part of the chunk open
    /// moves the write position; one that completes the chunk adds the chunk
    /// to the total and returns to reading. An interrupted operation changes
    /// nothing, and any other failure ends the loop with that failure.
    pub open spec fn next<E>(self, outcome: IoOutcome<E>) -> CopyNext<E> {
        match outcome {
            IoOutcome::Interrupted => CopyNext::Continue(self),
            IoOutcome::Failed(e) => CopyNext::Finished(Err(CopyError::Io(e))),
            IoOutcome::Done(n) => match self.phase {
                CopyPhase::Reading => if n == 0 {
                    CopyNext::Finished(Ok(self.transferred))
                } else {
                    CopyNext::Continue(
                        CopyState {
                            phase: CopyPhase::Writing { filled: n as nat, written: 0 },
                            ..self
                        },
                    )
                },
                CopyPhase::Writing { filled, written } => if n == 0 {
                    CopyNext::Finished(Err(CopyError::WriteZero))
                } else if written + n < filled {
                    CopyNext::Continue(
                        CopyState {
                            phase: CopyPhase::Writing { filled, written: written + n as nat },
                            ..self
                        },
                    )
                } else {
                    CopyNext::Continue(
                        CopyState {
                            transferred: self.transferred + filled,
                            phase: CopyPhase::Reading,
                            ..self
                        },
                    )
                },
            },
        }
    }

    /// Whether the total still fits its counter after this outcome.
    pub open spec fn fits<E>(self, outcome: IoOutcome<E>) -> bool {
        self.phase is Reading && outcome is Done ==> self.transferred + outcome->Done_0
            <= u64::MAX
    }

    /// Where the loop stands after the outcomes of `trace`, one after the
    /// other. Once the loop is over, later outcomes are not looked at.
    pub open spec fn run<E>(self, trace: Seq<IoOutcome<E>>) -> CopyNext<E>
        decreases trace.len(),
    {
        if trace.len() == 0 {
            CopyNext::Continue(self)
        } else {
            match self.next(trace[0]) {
                CopyNext::Continue(after) => after.run(trace.drop_first()),
                CopyNext::Finished(result) => CopyNext::Finished(result),
            }
        }
    }
}

/// The outcomes of a trace with the interrupted ones left out.
pub open spec fn without_interrupts<E>(trace: Seq<IoOutcome<E>>) -> Seq<IoOutcome<E>>
    decreases trace.len(),
{
    if trace.len() == 0 {
        trace
    } else if trace[0] is Interrupted {
        without_interrupts(trace.drop_first())
    } else {
        seq![trace[0]] + without_interrupts(trace.drop_first())
    }
}

/// A copy loop between two operations.
#[derive(Debug)]
pub struct CopyLoop {
    capacity: usize,
    transferred: u64,
    filled: usize,
    written: usize,
}

/// What `CopyLoop::advance` returns.
#[derive(Debug)]
pub enum CopyStep<E> {
    /// The loop goes on; ask it for its next request.
    Continue(CopyLoop),
    /// The loop is over: the bytes transferred, or why it stopped.
    Finished(Result<u64, CopyError<E>>),
}

impl<E> View for CopyStep<E> {
    type V = CopyNext<E>;

    open spec fn view(&self) -> CopyNext<E> {
        match *self {
            CopyStep::Continue(copy_loop) => CopyNext::Continue(copy_loop@),
            CopyStep::Finished(Ok(total)) => CopyNext::Finished(Ok(total as nat)),
            CopyStep::Finished(Err(e)) => CopyNext::Finished(Err(e)),
        }
    }
}

impl View for CopyLoop {
    type V = CopyState;

    closed spec fn view(&self) -> CopyState {
        CopyState {
            capacity: self.capacity as nat,
            transferred: self.transferred as nat,
            phase: if self.filled == 0 {
                CopyPhase::Reading
            } else {
                CopyPhase::Writing { filled: self.filled as nat, written: self.written as nat }
            },
        }
    }
}

impl CopyLoop {
    #[verifier::type_invariant]
    spec fn inv(self) -> bool {
        &&& self.filled == 0 ==> self.written == 0
        &&& self.filled > 0 ==> self.written < self.filled
        &&& self.transferred + self.filled <= u64::MAX
    }

    /// A loop that has moved nothing, for a buffer of `buf_size` bytes.
    pub fn new(buf_size: usize) -> (copy_loop: CopyLoop)
        ensures
            copy_loop@ == CopyState::initial(buf_size as nat),
    {
        CopyLoop { capacity: buf_size, transferred: 0, filled: 0, written: 0 }
    }

    /// The size the buffer is to be made with.
    pub fn capacity(&self) -> (capacity: usize)
        ensures
            capacity == self@.capacity,
    {
        self.capacity
    }

    /// The bytes of the chunks written in full so far.
    pub fn transferred(&self) -> (total: u64)
        ensures
            total == self@.transferred,
    {
        self.transferred
    }

    /// The operation that the loop waits for.
    pub fn request(&self) -> (request: CopyRequest)
        ensures
            self@.wf(),
            request == self@.request(),
    {
        proof {
            use_type_invariant(self);
        }
        if self.filled == 0 {
            CopyRequest::Read { capacity: self.capacity }
        } else {
            CopyRequest::Write { start: self.written, end: self.filled }
        }
    }

    /// Whether `advance` may take this outcome: the total must still fit its
    /// 64-bit counter once the bytes of a read are added.
    pub fn accepts<E>(&self, outcome: &IoOutcome<E>) -> (ok: bool)
        ensures
            ok == self@.fits(*outcome),
    {
        match outcome {
            IoOutcome::Done(n) => self.filled != 0 || *n as u64 <= u64::MAX - self.transferred,
            _ => true,
        }
    }

    /// Takes what the requested operation reported and moves the loop on.
    pub fn advance<E>(self, outcome: IoOutcome<E>) -> (step: CopyStep<E>)
        requires
            self@.fits(outcome),
        ensures
            step@ == self@.next(outcome),
            step matches CopyStep::Continue(after) ==> after@.wf(),
    {
        proof {
            use_type_invariant(&self);
        }
        match outcome {
            IoOutcome::Interrupted => CopyStep::Continue(self),
            IoOutcome::Failed(e) => CopyStep::Finished(Err(CopyError::Io(e))),
            IoOutcome::Done(n) => {
                if self.filled == 0 {
                    if n == 0 {
                        CopyStep::Finished(Ok(self.transferred))
                    } else {
                        CopyStep::Continue(
                            CopyLoop {
                                capacity: self.capacity,
                                transferred: self.transferred,
                                filled: n,
                                written: 0,
                            },
                        )
                    }
                } else if n == 0 {
                    CopyStep::Finished(Err(CopyError::WriteZero))
                } else if n < self.filled - self.written {
                    CopyStep::Continue(
                        CopyLoop {
                            capacity: self.capacity,
                            transferred: self.transferred,
                            filled: self.filled,
                            written: self.written + n,
                        },
                    )
                } else {
                    CopyStep::Continue(
                        CopyLoop {
                            capacity: self.capacity,
                            transferred: self.transferred + self.filled as u64,
                            filled: 0,
                            written: 0,
                        },
                    )
                }
            },
        }
    }
}

/// A source that ends at once: a loop that has moved nothing and whose first
/// read reports zero bytes is over, with a total of zero.
pub proof fn lemma_clean_end<E>(capacity: nat)
    ensures
        CopyState::initial(capacity).next(IoOutcome::<E>::Done(0)) == CopyNext::<E>::Finished(
            Ok(0),
        ),
{
}

/// A source that ends: in the reading phase a read of zero bytes ends the
/// loop with the total reached so far, and no other outcome ends it well.
pub proof fn lemma_end_of_source<E>(state: CopyState, outcome: IoOutcome<E>)
    ensures
        state.next(outcome) is Finished && state.next(outcome)->Finished_0 is Ok <==> state.phase
            is Reading && outcome == IoOutcome::<E>::Done(0),
        state.phase is Reading ==> state.next(IoOutcome::<E>::Done(0)) == CopyNext::<E>::Finished(
            Ok(state.transferred),
        ),
{
}

/// A write of zero bytes is never taken for success or for the end of the
/// source: in the writing phase it ends the loop with the write-zero failure,
/// and that failure comes from nothing else.
pub proof fn lemma_write_zero<E>(state: CopyState, outcome: IoOutcome<E>)
    ensures
        state.next(outcome) == CopyNext::<E>::Finished(Err(CopyError::WriteZero)) <==> state.phase
            is Writing && outcome == IoOutcome::<E>::Done(0),
{
}

/// A failure that is not an interruption ends the loop in either phase, and
/// the failure comes out as it went in.
pub proof fn lemma_failure_ends<E>(state: CopyState, failure: E)
    ensures
        state.next(IoOutcome::Failed(failure)) == CopyNext::Finished(
            Err(CopyError::Io(failure)),
        ),
{
}

/// Interruptions are invisible: a trace leads to the same state, the same
/// total or the same failure as the trace without its interrupted outcomes.
pub proof fn lemma_interrupts_transparent<E>(state: CopyState, trace: Seq<IoOutcome<E>>)
    ensures
        state.run(trace) == state.run(without_interrupts(trace)),
    decreases trace.len(),
{
    if trace.len() > 0 {
        let rest = trace.drop_first();
        if trace[0] is Interrupted {
            lemma_interrupts_transparent(state, rest);
        } else {
            let kept = seq![trace[0]] + without_interrupts(rest);
            assert(kept[0] == trace[0]);
            assert(kept.drop_first() == without_interrupts(rest));
            match state.next(trace[0]) {
                CopyNext::Continue(after) => {
                    lemma_interrupts_transparent(after, rest);
                },
                CopyNext::Finished(_) => {},
            }
        }
    }
}

/// Every state that a well-formed state leads to is well formed.
pub proof fn lemma_next_wf<E>(state: CopyState, outcome: IoOutcome<E>)
    requires
        state.wf(),
    ensures
        state.next(outcome) matches CopyNext::Continue(after) ==> after.wf(),
{
}

/// The buffer keeps the size it was made with, and the total never goes
/// down: it grows by a whole chunk when the last byte of the chunk is
/// written, and at no other time.
pub proof fn lemma_next_steady<E>(state: CopyState, outcome: IoOutcome<E>)
    requires
        state.wf(),
    ensures
        state.next(outcome) matches CopyNext::Continue(after) ==> {
            &&& after.capacity == state.capacity
            &&& after.transferred >= state.transferred
            &&& (after.transferred != state.transferred) <==> (state.phase is Writing
                && after.phase is Reading)
            &&& (state.phase is Writing && after.phase is Reading) ==> after.transferred
                == state.transferred + state.phase->filled
        },
        state.next(outcome) matches CopyNext::Finished(Ok(total)) ==> total == state.transferred,
{
}

} // verus!
