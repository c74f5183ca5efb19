//! The relay between the control connections and the stream that is playing:
//! one pending seek request and the channel of the current stream.

use crate::command::{Command, Timestamp};
use vstd::prelude::*;

verus! {

/// The sending end of the command channel of one stream, known by the
/// number of that stream.
#[derive(Clone, Copy, Debug, PartialEq, Eq, Structural)]
pub struct PipewireLoopTx {
    pub stream: u64,
}

/// A command on its way to a stream.
#[derive(Debug, PartialEq, Eq)]
pub struct Delivery {
    pub to: PipewireLoopTx,
    pub command: Command,
}

/// What the relay did with a command.
#[derive(Debug, PartialEq, Eq)]
pub enum Routed {
    /// A seek: it is now the pending seek request.
    Stored,
    /// A command for the stream that is playing: to send on its channel.
    Forward(Delivery),
    /// A command for the stream that is playing, and none is: gone.
    Dropped,
    /// `Done` or `Quit`: nothing for the relay to do.
    Ignored,
}

/// What the relay holds.
pub struct RelayView {
    /// The seek request that no callback has taken yet.
    pub pending_seek: Option<Timestamp>,
    /// The channel of the stream that is playing.
    pub bound: Option<PipewireLoopTx>,
}

/// What can happen to the relay.
pub enum RelayEvent {
    /// A connection hands in a command.
    Submit(Command),
    /// A new stream takes the relay over.
    Rebind(PipewireLoopTx),
    /// The stream that was playing is torn down.
    Release,
    /// A buffer-fill callback takes the pending seek request.
    TakeSeek,
}

/// Whether `command` is for the stream that is playing.
pub open spec fn is_for_stream(command: Command) -> bool {
    command is Volume || command is Play || command is Pause || command is Toggle
        || command is Skip
}

impl RelayView {
    /// The relay after `command` was handed in, and what became of the command.
    pub open spec fn submit(self, command: Command) -> (RelayView, Routed) {
        match command {
            Command::Seek(time) => (
                RelayView { pending_seek: Some(time), bound: self.bound },
                Routed::Stored,
            ),
            Command::Done | Command::Quit => (self, Routed::Ignored),
            _ => match self.bound {
                Some(to) => (self, Routed::Forward(Delivery { to, command })),
                None => (self, Routed::Dropped),
            },
        }
    }

    /// The relay after `event`.
    pub open spec fn step(self, event: RelayEvent) -> RelayView {
        match event {
            RelayEvent::Submit(command) => self.submit(command).0,
            RelayEvent::Rebind(tx) => RelayView { pending_seek: self.pending_seek, bound: Some(tx) },
            RelayEvent::Release => RelayView { pending_seek: self.pending_seek, bound: None },
            RelayEvent::TakeSeek => RelayView { pending_seek: None, bound: self.bound },
        }
    }

    /// The relay after `events`, in their order.
    pub open spec fn run(self, events: Seq<RelayEvent>) -> RelayView
        decreases events.len(),
    {
        if events.len() == 0 {
            self
        } else {
            self.step(events[0]).run(events.drop_first())
        }
    }

    /// The commands that `events` send to streams, in their order.
    pub open spec fn deliveries(self, events: Seq<RelayEvent>) -> Seq<Delivery>
        decreases events.len(),
    {
        if events.len() == 0 {
            Seq::empty()
        } else {
            let rest = self.step(events[0]).deliveries(events.drop_first());
            match events[0] {
                RelayEvent::Submit(command) => match self.submit(command).1 {
                    Routed::Forward(delivery) => seq![delivery] + rest,
                    _ => rest,
                },
                _ => rest,
            }
        }
    }

    /// The seeks that the callbacks among `events` take, in their order.
    pub open spec fn seeks_taken(self, events: Seq<RelayEvent>) -> Seq<Timestamp>
        decreases events.len(),
    {
        if events.len() == 0 {
            Seq::empty()
        } else {
            let rest = self.step(events[0]).seeks_taken(events.drop_first());
            match (events[0], self.pending_seek) {
                (RelayEvent::TakeSeek, Some(time)) => seq![time] + rest,
                _ => rest,
            }
        }
    }
}

/// Whether none of `events` binds or releases the relay.
pub open spec fn keeps_binding(events: Seq<RelayEvent>) -> bool {
    forall|i: int|
        0 <= i < events.len() ==> !(#[trigger] events[i] is Rebind) && !(events[i] is Release)
}

/// `n` callbacks in a row.
pub open spec fn callbacks(n: nat) -> Seq<RelayEvent> {
    Seq::new(n, |i: int| RelayEvent::TakeSeek)
}

/// A command for the stream that is playing, handed in while none is, is
/// never delivered: whatever happens afterwards, every stream sees what it
/// would have seen had the command never been handed in.
pub proof fn lemma_unbound_command_is_lost(
    relay: RelayView,
    command: Command,
    later: Seq<RelayEvent>,
)
    requires
        relay.bound is None,
        !(command is Seek),
    ensures
        relay.deliveries(seq![RelayEvent::Submit(command)] + later) == relay.deliveries(later),
        relay.seeks_taken(seq![RelayEvent::Submit(command)] + later) == relay.seeks_taken(later),
        relay.run(seq![RelayEvent::Submit(command)] + later) == relay.run(later),
{
    let events = seq![RelayEvent::Submit(command)] + later;
    assert(events.drop_first() =~= later);
    assert(relay.step(events[0]) == relay);
}

/// While the relay stays bound to one stream, every delivery goes to that
/// stream: none reaches a stream bound before it or after it.
pub proof fn lemma_deliveries_reach_bound_stream(
    relay: RelayView,
    tx: PipewireLoopTx,
    events: Seq<RelayEvent>,
)
    requires
        relay.bound == Some(tx),
        keeps_binding(events),
    ensures
        forall|i: int|
            0 <= i < relay.deliveries(events).len() ==> (#[trigger] relay.deliveries(
                events,
            )[i]).to == tx,
        relay.run(events).bound == Some(tx),
    decreases events.len(),
{
    if events.len() > 0 {
        let next = relay.step(events[0]);
        let rest = events.drop_first();
        assert(!(events[0] is Rebind) && !(events[0] is Release));
        assert forall|i: int| 0 <= i < rest.len() implies !(#[trigger] rest[i] is Rebind) && !(
        rest[i] is Release) by {
            assert(rest[i] == events[i + 1]);
        }
        lemma_deliveries_reach_bound_stream(next, tx, rest);
    }
}

/// While no stream is bound, nothing is delivered.
pub proof fn lemma_nothing_delivered_while_unbound(relay: RelayView, events: Seq<RelayEvent>)
    requires
        relay.bound is None,
        keeps_binding(events),
    ensures
        relay.deliveries(events) == Seq::<Delivery>::empty(),
        relay.run(events).bound is None,
    decreases events.len(),
{
    if events.len() > 0 {
        let next = relay.step(events[0]);
        let rest = events.drop_first();
        assert(!(events[0] is Rebind) && !(events[0] is Release));
        assert forall|i: int| 0 <= i < rest.len() implies !(#[trigger] rest[i] is Rebind) && !(
        rest[i] is Release) by {
            assert(rest[i] == events[i + 1]);
        }
        lemma_nothing_delivered_while_unbound(next, rest);
    }
}

/// Callbacks on a relay without a pending seek take no seek.
pub proof fn lemma_no_seek_without_request(relay: RelayView, n: nat)
    requires
        relay.pending_seek is None,
    ensures
        relay.seeks_taken(callbacks(n)) == Seq::<Timestamp>::empty(),
    decreases n,
{
    if n > 0 {
        let events = callbacks(n);
        assert(events.drop_first() =~= callbacks((n - 1) as nat));
        assert(relay.step(events[0]) == relay);
        lemma_no_seek_without_request(relay, (n - 1) as nat);
    }
}

/// Two seeks handed in before a callback takes either are one seek, to the
/// second position: the callbacks that follow take that one and no other.
pub proof fn lemma_seeks_coalesce(relay: RelayView, first: Timestamp, second: Timestamp, n: nat)
    ensures
        relay.seeks_taken(
            seq![
                RelayEvent::Submit(Command::Seek(first)),
                RelayEvent::Submit(Command::Seek(second)),
            ] + callbacks(n),
        ) == if n == 0 {
            Seq::<Timestamp>::empty()
        } else {
            seq![second]
        },
{
    let events = seq![
        RelayEvent::Submit(Command::Seek(first)),
        RelayEvent::Submit(Command::Seek(second)),
    ] + callbacks(n);
    let after_first = relay.step(events[0]);
    let tail = events.drop_first();
    let after_second = after_first.step(tail[0]);
    assert(tail.drop_first() =~= callbacks(n));
    assert(after_second.pending_seek == Some(second));
    assert(relay.seeks_taken(events) == after_first.seeks_taken(tail));
    assert(after_first.seeks_taken(tail) == after_second.seeks_taken(callbacks(n)));
    if n > 0 {
        let taken = after_second.step(callbacks(n)[0]);
        assert(callbacks(n).drop_first() =~= callbacks((n - 1) as nat));
        lemma_no_seek_without_request(taken, (n - 1) as nat);
        assert(after_second.seeks_taken(callbacks(n)) =~= seq![second]);
    }
}

/// The state that the control connections and the playing stream share.
pub struct PlayerState {
    seek_request: Option<Timestamp>,
    stream_tx: Option<PipewireLoopTx>,
}

impl View for PlayerState {
    type V = RelayView;

    closed spec fn view(&self) -> RelayView {
        RelayView { pending_seek: self.seek_request, bound: self.stream_tx }
    }
}

impl PlayerState {
    /// A relay with no pending seek and no stream.
    pub fn new() -> (state: PlayerState)
        ensures
            state@ == (RelayView { pending_seek: None, bound: None }),
    {
        PlayerState { seek_request: None, stream_tx: None }
    }

    /// Asks for a seek to `time`. A request that no callback has taken yet is
    /// overwritten.
    pub fn seek_to(&mut self, time: Timestamp)
        ensures
            final(self)@ == old(self)@.step(RelayEvent::Submit(Command::Seek(time))),
            final(self)@.pending_seek == Some(time),
            final(self)@.bound == old(self)@.bound,
    {
        self.seek_request = Some(time);
    }

    /// Takes the pending seek request, if there is one: the next call finds none.
    pub fn get_seek(&mut self) -> (time: Option<Timestamp>)
        ensures
            time == old(self)@.pending_seek,
            final(self)@ == old(self)@.step(RelayEvent::TakeSeek),
            final(self)@.pending_seek is None,
            final(self)@.bound == old(self)@.bound,
    {
        let time: Option<Timestamp> = self.seek_request;
        self.seek_request = None;
        time
    }

    /// Addresses `command` to the stream that is playing. Without one the
    /// command is gone.
    pub fn send(&self, command: Command) -> (delivery: Option<Delivery>)
        ensures
            delivery == match self@.bound {
                Some(to) => Some(Delivery { to, command }),
                None => None,
            },
    {
        match self.stream_tx {
            Some(to) => Some(Delivery { to, command }),
            None => None,
        }
    }

    /// Binds the relay to the channel of a new stream. What was sent to the
    /// stream before it and not taken stays behind with that stream's channel.
    pub fn update_tx(&mut self, tx: PipewireLoopTx)
        ensures
            final(self)@ == old(self)@.step(RelayEvent::Rebind(tx)),
            final(self)@.bound == Some(tx),
            final(self)@.pending_seek == old(self)@.pending_seek,
    {
        self.stream_tx = Some(tx);
    }

    /// Unbinds the relay when the stream that was playing is torn down.
    pub fn release_tx(&mut self)
        ensures
            final(self)@ == old(self)@.step(RelayEvent::Release),
            final(self)@.bound is None,
            final(self)@.pending_seek == old(self)@.pending_seek,
    {
        self.stream_tx = None;
    }

    /// The channel of the stream that is playing.
    pub fn bound(&self) -> (tx: Option<PipewireLoopTx>)
        ensures
            tx == self@.bound,
    {
        self.stream_tx
    }

    /// Routes one command: a seek becomes the pending seek request, `Done`
    /// and `Quit` are left to the connection, and any other command goes to
    /// the stream that is playing or, without one, nowhere.
    pub fn submit(&mut self, command: Command) -> (routed: Routed)
        ensures
            (final(self)@, routed) == old(self)@.submit(command),
            final(self)@ == old(self)@.step(RelayEvent::Submit(command)),
    {
        match command {
            Command::Seek(time) => {
                self.seek_to(time);
                Routed::Stored
            },
            Command::Done => Routed::Ignored,
            Command::Quit => Routed::Ignored,
            command => match self.send(command) {
                Some(delivery) => Routed::Forward(delivery),
                None => Routed::Dropped,
            },
        }
    }
}

} // verus!
