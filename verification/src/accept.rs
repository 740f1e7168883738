//! The accept loop: each inbound connection gets one attempt to dial the
//! target, and a pair that is complete is handed out to be relayed.
//!
//! The loop never waits. It is advanced with what an accept or a dial brought
//! (a connection, or none when it failed) and answers with what to do next.
//! It holds no connection but the inbound one between its accept and the
//! attempt to dial for it; it keeps nothing of a pair once that is handed
//! out, so it is ready to accept again while relays run.

use vstd::prelude::*;

verus! {

/// What went wrong before the loop went back to accepting. Neither stops
/// the loop.
#[derive(Clone, Copy, Debug, PartialEq, Eq)]
pub enum Setback {
    /// No inbound connection could be accepted.
    AcceptFailed,
    /// The target could not be reached; the inbound connection was dropped.
    DialFailed,
}

/// The accept loop between two operations.
#[derive(Debug, PartialEq, Eq)]
pub enum AcceptLoop<C> {
    /// An accept is outstanding.
    Accepting,
    /// The inbound connection is here and the dial for it is outstanding.
    Dialing { inbound: C },
}

/// What the accept loop asks for.
#[derive(Debug, PartialEq, Eq)]
pub enum Command<C> {
    /// Accept the next inbound connection; `after` names the setback to
    /// report first, if there was one.
    Accept { after: Option<Setback> },
    /// Dial the target.
    Dial,
    /// Tune both connections, start their relay task without waiting for
    /// it, and accept the next inbound connection.
    Relay { inbound: C, outbound: C },
}

/// What advancing the accept loop gives: the loop, and what to do next.
#[derive(Debug, PartialEq, Eq)]
pub struct Advance<C> {
    pub state: AcceptLoop<C>,
    pub command: Command<C>,
}

impl<C> AcceptLoop<C> {
    /// The transition of the accept loop. `arrived` is what the outstanding
    /// operation brought: the connection, or none when it failed.
    ///
    /// A failed accept and a failed dial both lead back to accepting, the
    /// second without the inbound connection. An accepted connection is kept
    /// for one dial. A dialed connection goes out with the inbound one it was
    /// dialed for, and the loop accepts again.
    pub open spec fn next(self, arrived: Option<C>) -> Advance<C> {
        match self {
            AcceptLoop::Accepting => match arrived {
                None => Advance {
                    state: AcceptLoop::Accepting,
                    command: Command::Accept { after: Some(Setback::AcceptFailed) },
                },
                Some(inbound) => Advance {
                    state: AcceptLoop::Dialing { inbound },
                    command: Command::Dial,
                },
            },
            AcceptLoop::Dialing { inbound } => match arrived {
                None => Advance {
                    state: AcceptLoop::Accepting,
                    command: Command::Accept { after: Some(Setback::DialFailed) },
                },
                Some(outbound) => Advance {
                    state: AcceptLoop::Accepting,
                    command: Command::Relay { inbound, outbound },
                },
            },
        }
    }

    /// The loop and the commands after what `arrivals` brought, one after the
    /// other: the state in the end, and every command on the way.
    pub open spec fn run(self, arrivals: Seq<Option<C>>) -> (AcceptLoop<C>, Seq<Command<C>>)
        decreases arrivals.len(),
    {
        if arrivals.len() == 0 {
            (self, Seq::empty())
        } else {
            let first = self.next(arrivals[0]);
            let rest = first.state.run(arrivals.drop_first());
            (rest.0, seq![first.command] + rest.1)
        }
    }

    /// The loop as it starts: accepting.
    pub fn new() -> (state: AcceptLoop<C>)
        ensures
            state == AcceptLoop::<C>::Accepting,
    {
        AcceptLoop::Accepting
    }

    /// The command that starts the loop, and that follows a relay: accept.
    pub fn first_command() -> (command: Command<C>)
        ensures
            command == (Command::<C>::Accept { after: None }),
    {
        Command::Accept { after: None }
    }

    /// Takes what the outstanding accept or dial brought and says what to do
    /// next.
    pub fn advance(self, arrived: Option<C>) -> (advance: Advance<C>)
        ensures
            advance == self.next(arrived),
    {
        match self {
            AcceptLoop::Accepting => match arrived {
                None => Advance {
                    state: AcceptLoop::Accepting,
                    command: Command::Accept { after: Some(Setback::AcceptFailed) },
                },
                Some(inbound) => Advance {
                    state: AcceptLoop::Dialing { inbound },
                    command: Command::Dial,
                },
            },
            AcceptLoop::Dialing { inbound } => match arrived {
                None => Advance {
                    state: AcceptLoop::Accepting,
                    command: Command::Accept { after: Some(Setback::DialFailed) },
                },
                Some(outbound) => Advance {
                    state: AcceptLoop::Accepting,
                    command: Command::Relay { inbound, outbound },
                },
            },
        }
    }
}

/// The number of `Relay` commands among `commands`.
pub open spec fn relays<C>(commands: Seq<Command<C>>) -> nat
    decreases commands.len(),
{
    if commands.len() == 0 {
        0
    } else if commands[0] is Relay {
        1 + relays(commands.drop_first())
    } else {
        relays(commands.drop_first())
    }
}

/// The number of connections among `arrivals`.
pub open spec fn connections<C>(arrivals: Seq<Option<C>>) -> nat
    decreases arrivals.len(),
{
    if arrivals.len() == 0 {
        0
    } else if arrivals[0] is Some {
        1 + connections(arrivals.drop_first())
    } else {
        connections(arrivals.drop_first())
    }
}

/// No failure stops the loop: after a failed accept or a failed dial the
/// loop is accepting again, and holds no connection.
pub proof fn lemma_failure_recovers<C>(state: AcceptLoop<C>)
    ensures
        state.next(None).state == AcceptLoop::<C>::Accepting,
        state.next(None).command is Accept,
        state.next(None).command->after == Some(
            if state is Accepting {
                Setback::AcceptFailed
            } else {
                Setback::DialFailed
            },
        ),
{
}

/// A pair is relayed exactly when a dial succeeds, and it is the inbound
/// connection that the dial was made for with the connection that the dial
/// brought; nothing else is ever handed out.
pub proof fn lemma_relay_pairs<C>(state: AcceptLoop<C>, arrived: Option<C>)
    ensures
        state.next(arrived).command is Relay <==> state is Dialing && arrived is Some,
        state.next(arrived).command matches Command::Relay { inbound, outbound } ==> state
            == (AcceptLoop::Dialing { inbound }) && arrived == Some(outbound),
{
}

/// After a failed dial the proxy still serves: the next inbound connection
/// is dialed for, and when that dial succeeds the two are relayed.
pub proof fn lemma_serves_after_failed_dial<C>(dropped: C, inbound: C, outbound: C)
    ensures
        AcceptLoop::<C>::Accepting.run(seq![Some(dropped), None, Some(inbound), Some(outbound)])
            == (
            AcceptLoop::<C>::Accepting,
            seq![
                Command::Dial,
                Command::Accept { after: Some(Setback::DialFailed) },
                Command::Dial,
                Command::Relay { inbound, outbound },
            ],
        ),
{
    let a0 = seq![Some(dropped), None, Some(inbound), Some(outbound)];
    let a1 = seq![None, Some(inbound), Some(outbound)];
    let a2 = seq![Some(inbound), Some(outbound)];
    let a3 = seq![Some(outbound)];
    let a4 = Seq::<Option<C>>::empty();
    assert(a0.drop_first() == a1);
    assert(a1.drop_first() == a2);
    assert(a2.drop_first() == a3);
    assert(a3.drop_first() == a4);
    let s0 = AcceptLoop::<C>::Accepting;
    let s1 = AcceptLoop::Dialing { inbound: dropped };
    let s3 = AcceptLoop::Dialing { inbound };
    assert(s0.run(a4) == (s0, Seq::<Command<C>>::empty()));
    assert(s3.run(a3).0 == s0);
    assert(s3.run(a3).1 == seq![Command::Relay { inbound, outbound }]);
    assert(s0.run(a2).0 == s0);
    assert(s0.run(a2).1 == seq![Command::Dial, Command::Relay { inbound, outbound }]);
    assert(s1.run(a1).0 == s0);
    assert(s1.run(a1).1 == seq![
        Command::Accept { after: Some(Setback::DialFailed) },
        Command::Dial,
        Command::Relay { inbound, outbound },
    ]);
    assert(s0.run(a0).0 == s0);
    assert(s0.run(a0).1 == seq![
        Command::Dial,
        Command::Accept { after: Some(Setback::DialFailed) },
        Command::Dial,
        Command::Relay { inbound, outbound },
    ]);
}

/// Each relay takes two connections of its own: however accepts and dials
/// turn out, the loop never hands out more pairs than half the connections
/// that arrived, and it holds at most the one inbound connection that is
/// waiting for its dial.
pub proof fn lemma_relays_bounded<C>(state: AcceptLoop<C>, arrivals: Seq<Option<C>>)
    ensures
        2 * relays(state.run(arrivals).1) + (if state.run(arrivals).0 is Dialing {
            1nat
        } else {
            0nat
        }) <= connections(arrivals) + (if state is Dialing {
            1nat
        } else {
            0nat
        }),
    decreases arrivals.len(),
{
    if arrivals.len() > 0 {
        let first = state.next(arrivals[0]);
        let rest = first.state.run(arrivals.drop_first());
        lemma_relays_bounded(first.state, arrivals.drop_first());
        let commands = seq![first.command] + rest.1;
        assert(commands[0] == first.command);
        assert(commands.drop_first() == rest.1);
    }
}

} // verus!
