//! One relay: an inbound and an outbound connection, and the two copy loops
//! between them.
//!
//! Each connection is split into a half to read from and a half to write to.
//! Each direction owns the reading half of one connection and the writing
//! half of the other, so the two directions share nothing. The relay is over
//! when both directions are: the end of one does not end the other.

use crate::copy::CopyError;
use vstd::prelude::*;
use vstd::string::StringExecFns;

verus! {

/// The two connections of a relay.
#[derive(Clone, Copy, Debug, PartialEq, Eq)]
pub enum Side {
    Inbound,
    Outbound,
}

/// The two directions of a relay.
#[derive(Clone, Copy, Debug, PartialEq, Eq)]
pub enum Direction {
    InboundToOutbound,
    OutboundToInbound,
}

impl Direction {
    /// The connection that this direction reads from.
    pub open spec fn spec_source(self) -> Side {
        match self {
            Direction::InboundToOutbound => Side::Inbound,
            Direction::OutboundToInbound => Side::Outbound,
        }
    }

    /// The connection that this direction writes to.
    pub open spec fn spec_sink(self) -> Side {
        match self {
            Direction::InboundToOutbound => Side::Outbound,
            Direction::OutboundToInbound => Side::Inbound,
        }
    }

    /// The other direction.
    pub open spec fn spec_reverse(self) -> Direction {
        match self {
            Direction::InboundToOutbound => Direction::OutboundToInbound,
            Direction::OutboundToInbound => Direction::InboundToOutbound,
        }
    }

    /// The connection that this direction reads from.
    #[verifier::when_used_as_spec(spec_source)]
    pub fn source(self) -> (side: Side)
        ensures
            side == self.spec_source(),
    {
        match self {
            Direction::InboundToOutbound => Side::Inbound,
            Direction::OutboundToInbound => Side::Outbound,
        }
    }

    /// The connection that this direction writes to.
    #[verifier::when_used_as_spec(spec_sink)]
    pub fn sink(self) -> (side: Side)
        ensures
            side == self.spec_sink(),
    {
        match self {
            Direction::InboundToOutbound => Side::Outbound,
            Direction::OutboundToInbound => Side::Inbound,
        }
    }

    /// The other direction.
    #[verifier::when_used_as_spec(spec_reverse)]
    pub fn reverse(self) -> (other: Direction)
        ensures
            other == self.spec_reverse(),
    {
        match self {
            Direction::InboundToOutbound => Direction::OutboundToInbound,
            Direction::OutboundToInbound => Direction::InboundToOutbound,
        }
    }
}

/// How one direction ended: the bytes it transferred, or why it stopped.
pub type Outcome<E> = Result<u64, CopyError<E>>;

/// A relay and what is known of the end of its two directions.
#[derive(Debug)]
pub struct RelayTask<E> {
    /// The name of the relay in the log.
    pub name: String,
    /// How the direction from inbound to outbound ended, once it has.
    pub inbound_to_outbound: Option<Outcome<E>>,
    /// How the direction from outbound to inbound ended, once it has.
    pub outbound_to_inbound: Option<Outcome<E>>,
}

impl<E> RelayTask<E> {
    /// How `direction` ended, if it has.
    pub open spec fn outcome(self, direction: Direction) -> Option<Outcome<E>> {
        match direction {
            Direction::InboundToOutbound => self.inbound_to_outbound,
            Direction::OutboundToInbound => self.outbound_to_inbound,
        }
    }

    /// Whether the relay is over: both directions have ended.
    pub open spec fn complete(self) -> bool {
        self.inbound_to_outbound is Some && self.outbound_to_inbound is Some
    }

    /// The relay with `direction` ended in `outcome`.
    pub open spec fn finished(self, direction: Direction, outcome: Outcome<E>) -> RelayTask<E> {
        match direction {
            Direction::InboundToOutbound => RelayTask {
                inbound_to_outbound: Some(outcome),
                ..self
            },
            Direction::OutboundToInbound => RelayTask {
                outbound_to_inbound: Some(outcome),
                ..self
            },
        }
    }

    /// A relay of which neither direction has ended.
    pub fn new(name: String) -> (task: RelayTask<E>)
        ensures
            task.name == name,
            task.inbound_to_outbound is None,
            task.outbound_to_inbound is None,
    {
        RelayTask { name, inbound_to_outbound: None, outbound_to_inbound: None }
    }

    /// Whether `direction` is still running.
    pub fn is_running(&self, direction: Direction) -> (running: bool)
        ensures
            running == (self.outcome(direction) is None),
    {
        match direction {
            Direction::InboundToOutbound => self.inbound_to_outbound.is_none(),
            Direction::OutboundToInbound => self.outbound_to_inbound.is_none(),
        }
    }

    /// Records how `direction` ended. A direction ends once.
    pub fn finish(self, direction: Direction, outcome: Outcome<E>) -> (task: RelayTask<E>)
        requires
            self.outcome(direction) is None,
        ensures
            task == self.finished(direction, outcome),
    {
        match direction {
            Direction::InboundToOutbound => RelayTask {
                name: self.name,
                inbound_to_outbound: Some(outcome),
                outbound_to_inbound: self.outbound_to_inbound,
            },
            Direction::OutboundToInbound => RelayTask {
                name: self.name,
                inbound_to_outbound: self.inbound_to_outbound,
                outbound_to_inbound: Some(outcome),
            },
        }
    }

    /// Whether the relay is over.
    pub fn is_complete(&self) -> (complete: bool)
        ensures
            complete == self.complete(),
    {
        self.inbound_to_outbound.is_some() && self.outbound_to_inbound.is_some()
    }
}

/// The separator between the two peers in a relay's name.
pub open spec fn separator() -> Seq<char> {
    seq![' ', '<', '-', '>', ' ']
}

/// The name of a relay in the log: the peer of the inbound connection, an
/// arrow in both directions, the peer of the outbound connection.
pub fn relay_name(inbound_peer: &str, outbound_peer: &str) -> (name: String)
    ensures
        name@ == inbound_peer@ + separator() + outbound_peer@,
{
    let mut name = inbound_peer.to_owned();
    proof {
        reveal_strlit(" <-> ");
        assert(" <-> "@ =~= separator());
    }
    name.append(" <-> ");
    name.append(outbound_peer);
    name
}

/// The two directions share no half of a connection: they read from
/// different connections and write to different connections.
pub proof fn lemma_directions_disjoint(direction: Direction)
    ensures
        direction.spec_source() != direction.spec_reverse().spec_source(),
        direction.spec_sink() != direction.spec_reverse().spec_sink(),
        direction.spec_source() != direction.spec_sink(),
        direction.spec_reverse() != direction,
        direction.spec_reverse().spec_reverse() == direction,
{
}

/// The end of one direction leaves the other as it was, whether that one is
/// still running or has ended: the relay is a join of its two directions and
/// no race between them.
pub proof fn lemma_finish_independent<E>(
    task: RelayTask<E>,
    direction: Direction,
    outcome: Outcome<E>,
)
    ensures
        task.finished(direction, outcome).outcome(direction) == Some(outcome),
        task.finished(direction, outcome).outcome(direction.spec_reverse()) == task.outcome(
            direction.spec_reverse(),
        ),
        task.finished(direction, outcome).name == task.name,
{
}

/// A relay is over exactly when both of its directions have ended, however
/// they ended and in whichever order.
pub proof fn lemma_complete_is_join<E>(
    task: RelayTask<E>,
    direction: Direction,
    outcome: Outcome<E>,
)
    ensures
        task.complete() <==> task.outcome(direction) is Some && task.outcome(
            direction.spec_reverse(),
        ) is Some,
        task.finished(direction, outcome).complete() <==> task.outcome(direction.spec_reverse())
            is Some,
{
}

} // verus!
