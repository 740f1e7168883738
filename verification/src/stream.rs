//! The bytes behind a copy loop.
//!
//! `CopyLoop` counts; it never sees a byte. This module follows the bytes
//! that the loop's requests move, as a model: a read puts its bytes at the
//! start of the buffer, a write of `n` bytes hands the sink the `n` bytes that
//! start at the requested position. Over that model it is proved that the
//! sink gets what the source gave, in order, nothing twice and nothing left
//! out.

use crate::copy::{CopyNext, CopyPhase, CopyState, IoOutcome};
use vstd::prelude::*;

verus! {

/// One operation with its bytes: the outcome, and for a read the bytes that
/// it put into the buffer.
pub ghost struct Operation<E> {
    pub outcome: IoOutcome<E>,
    pub data: Seq<u8>,
}

/// The bytes on both sides of a copy loop, and in its buffer.
pub ghost struct Streams {
    /// All bytes that the source has delivered.
    pub taken: Seq<u8>,
    /// All bytes that the sink has accepted.
    pub given: Seq<u8>,
    /// The chunk in the buffer.
    pub buffer: Seq<u8>,
}

/// Where a run of operations ended, and the bytes on both sides by then.
pub ghost struct Relayed<E> {
    pub next: CopyNext<E>,
    pub streams: Streams,
}

impl Streams {
    /// Nothing delivered, nothing accepted.
    pub open spec fn empty() -> Streams {
        Streams { taken: Seq::empty(), given: Seq::empty(), buffer: Seq::empty() }
    }

    /// Whether `op` can happen in `state`: a read delivers as many bytes as
    /// it reports, and a write accepts no more than it was offered.
    pub open spec fn admits<E>(state: CopyState, op: Operation<E>) -> bool {
        op.outcome matches IoOutcome::Done(n) ==> match state.phase {
            CopyPhase::Reading => op.data.len() == n,
            CopyPhase::Writing { filled, written } => written + n <= filled,
        }
    }

    /// The bytes after `op` has happened in `state`.
    pub open spec fn after<E>(self, state: CopyState, op: Operation<E>) -> Streams {
        match op.outcome {
            IoOutcome::Done(n) => match state.phase {
                CopyPhase::Reading => Streams {
                    taken: self.taken + op.data,
                    given: self.given,
                    buffer: op.data,
                },
                CopyPhase::Writing { filled, written } => Streams {
                    taken: self.taken,
                    given: self.given + self.buffer.subrange(written as int, written + n),
                    buffer: self.buffer,
                },
            },
            _ => self,
        }
    }

    /// Nothing is lost and nothing is doubled: what the source delivered is
    /// what the sink accepted, followed by the part of the chunk that is
    /// still to be written; and the loop's count agrees with the sink.
    pub open spec fn exact(self, state: CopyState) -> bool {
        match state.phase {
            CopyPhase::Reading => {
                &&& self.taken == self.given
                &&& self.given.len() == state.transferred
            },
            CopyPhase::Writing { filled, written } => {
                &&& written < filled
                &&& self.buffer.len() == filled
                &&& self.taken == self.given + self.buffer.subrange(written as int, filled as int)
                &&& self.given.len() == state.transferred + written
            },
        }
    }

    /// Whether each operation of `ops` can happen in the state that the ones
    /// before it lead to.
    pub open spec fn admits_all<E>(state: CopyState, ops: Seq<Operation<E>>) -> bool
        decreases ops.len(),
    {
        ops.len() > 0 ==> {
            &&& Self::admits(state, ops[0])
            &&& state.next(ops[0].outcome) matches CopyNext::Continue(after) ==> Self::admits_all(
                after,
                ops.drop_first(),
            )
        }
    }

    /// The loop and the bytes after the operations of `ops`, one after the
    /// other. The operation that ends the loop moves no byte.
    pub open spec fn relay<E>(self, state: CopyState, ops: Seq<Operation<E>>) -> Relayed<E>
        decreases ops.len(),
    {
        if ops.len() == 0 {
            Relayed { next: CopyNext::Continue(state), streams: self }
        } else {
            match state.next(ops[0].outcome) {
                CopyNext::Continue(after) => self.after(state, ops[0]).relay(
                    after,
                    ops.drop_first(),
                ),
                CopyNext::Finished(result) => Relayed {
                    next: CopyNext::Finished(result),
                    streams: self,
                },
            }
        }
    }
}

/// One operation keeps the bytes exact: if nothing was lost or doubled
/// before an operation that the loop survives, nothing is afterwards.
pub proof fn lemma_operation_exact<E>(streams: Streams, state: CopyState, op: Operation<E>)
    requires
        streams.exact(state),
        Streams::admits(state, op),
    ensures
        state.next(op.outcome) matches CopyNext::Continue(after) ==> streams.after(
            state,
            op,
        ).exact(after),
{
    if let CopyNext::Continue(after) = state.next(op.outcome) {
        if let IoOutcome::Done(n) = op.outcome {
            match state.phase {
                CopyPhase::Reading => {
                    assert(op.data.subrange(0, n as int) == op.data);
                },
                CopyPhase::Writing { filled, written } => {
                    let pending = streams.buffer.subrange(written as int, filled as int);
                    let sent = streams.buffer.subrange(written as int, written + n);
                    let left = streams.buffer.subrange(written + n, filled as int);
                    assert(pending == sent + left);
                    assert(streams.given + pending == (streams.given + sent) + left);
                    if written + n == filled {
                        assert(left == Seq::<u8>::empty());
                        assert((streams.given + sent) + left == streams.given + sent);
                    }
                },
            }
        }
    }
}

/// A copy loop is exact to the byte. Whatever the source and the sink do,
/// after any run of operations the sink has accepted a prefix of what the
/// source delivered; and when the loop ends with a total, the sink has
/// accepted exactly the bytes that the source delivered, in their order, and
/// the total is their number.
pub proof fn lemma_relay_exact<E>(streams: Streams, state: CopyState, ops: Seq<Operation<E>>)
    requires
        streams.exact(state),
        Streams::admits_all(state, ops),
    ensures
        ({
            let end = streams.relay(state, ops);
            &&& end.streams.given.is_prefix_of(end.streams.taken)
            &&& end.next matches CopyNext::Continue(after) ==> end.streams.exact(after)
            &&& end.next matches CopyNext::Finished(Ok(total)) ==> {
                &&& end.streams.given == end.streams.taken
                &&& total == end.streams.taken.len()
            }
        }),
    decreases ops.len(),
{
    if ops.len() == 0 {
        lemma_exact_prefix(streams, state);
    } else {
        match state.next(ops[0].outcome) {
            CopyNext::Continue(after) => {
                lemma_operation_exact(streams, state, ops[0]);
                lemma_relay_exact(streams.after(state, ops[0]), after, ops.drop_first());
            },
            CopyNext::Finished(result) => {
                lemma_exact_prefix(streams, state);
            },
        }
    }
}

/// While the bytes are exact, the sink holds a prefix of what the source
/// delivered.
pub proof fn lemma_exact_prefix(streams: Streams, state: CopyState)
    requires
        streams.exact(state),
    ensures
        streams.given.is_prefix_of(streams.taken),
{
    assert(streams.given == streams.taken.subrange(0, streams.given.len() as int));
}

/// An operation on one of two relays side by side.
pub ghost struct Turn<E> {
    /// Whether the operation belongs to the first relay.
    pub first: bool,
    pub op: Operation<E>,
}

/// The operations of `turns` that belong to the first relay, or those that
/// belong to the second, in their order.
pub open spec fn turns_of<E>(turns: Seq<Turn<E>>, first: bool) -> Seq<Operation<E>>
    decreases turns.len(),
{
    if turns.len() == 0 {
        Seq::empty()
    } else if turns[0].first == first {
        seq![turns[0].op] + turns_of(turns.drop_first(), first)
    } else {
        turns_of(turns.drop_first(), first)
    }
}

/// Two copy loops side by side, each between its own source and sink.
pub ghost struct Pair<E> {
    pub first: Relayed<E>,
    pub second: Relayed<E>,
}

impl<E> Relayed<E> {
    /// A loop that is about to start in `state`, with the bytes `streams`.
    pub open spec fn start(state: CopyState, streams: Streams) -> Relayed<E> {
        Relayed { next: CopyNext::Continue(state), streams }
    }

    /// This loop after one more operation; a loop that is over stays as it
    /// is.
    pub open spec fn after_one(self, op: Operation<E>) -> Relayed<E> {
        match self.next {
            CopyNext::Continue(state) => match state.next(op.outcome) {
                CopyNext::Continue(after) => Relayed {
                    next: CopyNext::Continue(after),
                    streams: self.streams.after(state, op),
                },
                CopyNext::Finished(result) => Relayed {
                    next: CopyNext::Finished(result),
                    streams: self.streams,
                },
            },
            CopyNext::Finished(_) => self,
        }
    }

    /// This loop after the operations of `ops`, one after the other.
    pub open spec fn after_all(self, ops: Seq<Operation<E>>) -> Relayed<E>
        decreases ops.len(),
    {
        if ops.len() == 0 {
            self
        } else {
            self.after_one(ops[0]).after_all(ops.drop_first())
        }
    }
}

impl<E> Pair<E> {
    /// The two loops after the operations of `turns`, each operation applied
    /// to the loop it belongs to, in the order in which they happened.
    pub open spec fn interleave(self, turns: Seq<Turn<E>>) -> Pair<E>
        decreases turns.len(),
    {
        if turns.len() == 0 {
            self
        } else if turns[0].first {
            Pair { first: self.first.after_one(turns[0].op), second: self.second }.interleave(
                turns.drop_first(),
            )
        } else {
            Pair { first: self.first, second: self.second.after_one(turns[0].op) }.interleave(
                turns.drop_first(),
            )
        }
    }
}

/// Running a loop one operation at a time is running it over the whole
/// sequence.
pub proof fn lemma_after_all_is_relay<E>(streams: Streams, state: CopyState, ops: Seq<Operation<E>>)
    ensures
        Relayed::<E>::start(state, streams).after_all(ops) == streams.relay(state, ops),
    decreases ops.len(),
{
    if ops.len() > 0 {
        match state.next(ops[0].outcome) {
            CopyNext::Continue(after) => {
                lemma_after_all_is_relay(streams.after(state, ops[0]), after, ops.drop_first());
            },
            CopyNext::Finished(result) => {
                lemma_over_stays(
                    Relayed { next: CopyNext::Finished(result), streams },
                    ops.drop_first(),
                );
            },
        }
    }
}

/// A loop that is over is not moved by later operations.
pub proof fn lemma_over_stays<E>(end: Relayed<E>, ops: Seq<Operation<E>>)
    requires
        end.next is Finished,
    ensures
        end.after_all(ops) == end,
    decreases ops.len(),
{
    if ops.len() > 0 {
        lemma_over_stays(end, ops.drop_first());
    }
}

/// Two relays do not touch each other. However the operations of two copy
/// loops are interleaved, each loop ends up where its own operations alone
/// lead it, with the bytes that its own source delivered: nothing of one
/// connection reaches the other.
pub proof fn lemma_relays_isolated<E>(pair: Pair<E>, turns: Seq<Turn<E>>)
    ensures
        pair.interleave(turns).first == pair.first.after_all(turns_of(turns, true)),
        pair.interleave(turns).second == pair.second.after_all(turns_of(turns, false)),
    decreases turns.len(),
{
    if turns.len() > 0 {
        let rest = turns.drop_first();
        let op = turns[0].op;
        if turns[0].first {
            let own = seq![op] + turns_of(rest, true);
            assert(own[0] == op);
            assert(own.drop_first() == turns_of(rest, true));
            lemma_relays_isolated(Pair { first: pair.first.after_one(op), second: pair.second }, rest);
        } else {
            let own = seq![op] + turns_of(rest, false);
            assert(own[0] == op);
            assert(own.drop_first() == turns_of(rest, false));
            lemma_relays_isolated(Pair { first: pair.first, second: pair.second.after_one(op) }, rest);
        }
    }
}

/// A fresh loop between an untouched source and an untouched sink is exact.
pub proof fn lemma_fresh_exact(capacity: nat)
    ensures
        Streams::empty().exact(CopyState::initial(capacity)),
{
}

} // verus!
