//! The handles on the channel to the signalling server's WebSocket, and the lists
//! of what was handed over through them.
//!
//! An [`Outbox`] or a [`WeakOutbox`] is the only way to the channel. Only the
//! hand-over itself puts anything on its list, and a new outbox starts with an empty
//! one. To hand over takes `&mut`, and so does to make another outbox, which is
//! counted: whoever has an outbox behind `&` hands nothing over, and whoever leaves
//! an outbox as it was has handed nothing over either.

use crate::error::SinkError;
use crate::protocol::Message;
use tokio::sync::mpsc::UnboundedSender;
use tokio::sync::mpsc::WeakUnboundedSender;
use vstd::prelude::*;

verus! {

/// What travels over the channel. An error ends the WebSocket.
pub type Outbound = Result<Message, SinkError>;

/// `tokio::sync::mpsc::UnboundedSender`, a handle that keeps the channel open.
#[verifier::external_type_specification]
#[verifier::external_body]
#[verifier::reject_recursive_types(T)]
pub struct ExUnboundedSender<T>(tokio::sync::mpsc::UnboundedSender<T>);

/// `tokio::sync::mpsc::WeakUnboundedSender`, a handle that does not.
#[verifier::external_type_specification]
#[verifier::external_body]
#[verifier::reject_recursive_types(T)]
pub struct ExWeakUnboundedSender<T>(tokio::sync::mpsc::WeakUnboundedSender<T>);

/// One entry of an outbox's list: the handle, what was handed to its channel, and
/// whether the channel took it.
pub struct Handover {
    pub through: UnboundedSender<Outbound>,
    pub value: Outbound,
    pub taken: bool,
}

/// A handle that keeps the channel open, with the list of what was handed over
/// through it.
pub struct Outbox {
    sender: UnboundedSender<Outbound>,
    handed: Ghost<Seq<Handover>>,
    proxies: Ghost<nat>,
}

/// A handle that does not keep the channel open, with the list of what was handed
/// over through it.
pub struct WeakOutbox {
    sender: WeakUnboundedSender<Outbound>,
    handed: Ghost<Seq<Handover>>,
    copies: Ghost<nat>,
    origin: Ghost<UnboundedSender<Outbound>>,
    generation: Ghost<nat>,
}

/// What a weak outbox needs to hand something over: a handle that keeps the channel
/// open for that long. It hands nothing over by itself.
pub struct Lease {
    sender: UnboundedSender<Outbound>,
}

impl Outbox {
    pub closed spec fn handle(self) -> UnboundedSender<Outbound> {
        self.sender
    }

    /// All that was handed to the channel through this outbox, the first first.
    pub closed spec fn handed(self) -> Seq<Handover> {
        self.handed@
    }

    /// How many weak outboxes were made of this one.
    pub closed spec fn proxies(self) -> nat {
        self.proxies@
    }

    /// The outbox has handed over one thing more than before, and nothing else has
    /// changed.
    pub open spec fn extends(self, before: Outbox, entry: Handover) -> bool {
        &&& self.handle() == before.handle()
        &&& self.proxies() == before.proxies()
        &&& self.handed() == before.handed().push(entry)
    }

    /// One more weak outbox was made than before, and nothing else has changed.
    pub open spec fn lends(self, before: Outbox) -> bool {
        &&& self.handle() == before.handle()
        &&& self.proxies() == before.proxies() + 1
        &&& self.handed() == before.handed()
    }

    pub fn new(sender: UnboundedSender<Outbound>) -> (r: Outbox)
        ensures
            r.handle() == sender,
            r.handed() == Seq::<Handover>::empty(),
            r.proxies() == 0,
    {
        Outbox { sender, handed: Ghost(Seq::empty()), proxies: Ghost(0) }
    }
}

impl Lease {
    pub closed spec fn handle(self) -> UnboundedSender<Outbound> {
        self.sender
    }
}

impl WeakOutbox {
    pub closed spec fn handle(self) -> WeakUnboundedSender<Outbound> {
        self.sender
    }

    /// All that was handed to the channel through this outbox, the first first.
    pub closed spec fn handed(self) -> Seq<Handover> {
        self.handed@
    }

    /// How many outboxes were made of this one.
    pub closed spec fn copies(self) -> nat {
        self.copies@
    }

    /// The handle that keeps the channel open, and that this one goes back to.
    pub closed spec fn origin(self) -> UnboundedSender<Outbound> {
        self.origin@
    }

    /// How many weak outboxes stand between this one and the handle that it goes
    /// back to.
    pub closed spec fn generation(self) -> nat {
        self.generation@
    }

    /// Nothing was handed over through the outbox, and none was made of it.
    pub open spec fn is_new(self) -> bool {
        &&& self.handed() == Seq::<Handover>::empty()
        &&& self.copies() == 0
    }

    /// The outbox has handed over one thing more than before, and nothing else has
    /// changed.
    pub open spec fn extends(self, before: WeakOutbox, entry: Handover) -> bool {
        &&& self.handle() == before.handle()
        &&& self.origin() == before.origin()
        &&& self.generation() == before.generation()
        &&& self.copies() == before.copies()
        &&& self.handed() == before.handed().push(entry)
    }

    /// One more outbox was made than before, and nothing else has changed.
    pub open spec fn lends(self, before: WeakOutbox) -> bool {
        &&& self.handle() == before.handle()
        &&& self.origin() == before.origin()
        &&& self.generation() == before.generation()
        &&& self.copies() == before.copies() + 1
        &&& self.handed() == before.handed()
    }
}

/// `tokio::sync::mpsc::UnboundedSender::send` on the outbox's own handle: the
/// channel takes the value, or the value comes back. Which of the two depends on
/// whether the receiving half is closed when the call is made, and is left open. The
/// call is put on the outbox's list.
#[verifier::external_body]
pub(crate) fn hand_over(outbox: &mut Outbox, value: Outbound) -> (r: Result<(), Outbound>)
    ensures
        r matches Err(returned) ==> returned == value,
        final(outbox).extends(
            *old(outbox),
            (Handover { through: old(outbox).handle(), value, taken: r is Ok }),
        ),
{
    outbox.sender.send(value).map_err(|error| error.0)
}

/// `tokio::sync::mpsc::UnboundedSender::send` on a leased handle: the channel takes
/// the value, or the value comes back. Which of the two depends on whether the
/// receiving half is closed when the call is made, and is left open. The call is put
/// on the list of the outbox for which the handle was leased.
#[verifier::external_body]
pub(crate) fn hand_over_leased(outbox: &mut WeakOutbox, lease: &Lease, value: Outbound) -> (r:
    Result<(), Outbound>)
    ensures
        r matches Err(returned) ==> returned == value,
        final(outbox).extends(
            *old(outbox),
            (Handover { through: lease.handle(), value, taken: r is Ok }),
        ),
{
    lease.sender.send(value).map_err(|error| error.0)
}

/// `tokio::sync::mpsc::UnboundedSender::downgrade`: a weak handle on the channel of
/// the outbox, which it is said to go back to. Nothing was handed over through the
/// new outbox yet, and the old one counts it.
#[verifier::external_body]
pub(crate) fn downgrade(outbox: &mut Outbox) -> (r: WeakOutbox)
    ensures
        final(outbox).lends(*old(outbox)),
        r.is_new(),
        r.origin() == old(outbox).handle(),
        r.generation() == 0,
{
    WeakOutbox {
        sender: outbox.sender.downgrade(),
        handed: Ghost(Seq::empty()),
        copies: Ghost(0),
        origin: Ghost(outbox.handle()),
        generation: Ghost(0),
    }
}

/// `Clone` of `tokio::sync::mpsc::WeakUnboundedSender`: another weak handle on the
/// same channel, which goes back to what the first one goes back to. Nothing was
/// handed over through the new outbox yet, and the old one counts it.
#[verifier::external_body]
pub(crate) fn duplicate(outbox: &mut WeakOutbox) -> (r: WeakOutbox)
    ensures
        final(outbox).lends(*old(outbox)),
        r.is_new(),
        r.origin() == old(outbox).origin(),
        r.generation() == old(outbox).generation() + 1,
{
    WeakOutbox {
        sender: outbox.sender.clone(),
        handed: Ghost(Seq::empty()),
        copies: Ghost(0),
        origin: Ghost(outbox.origin()),
        generation: Ghost(outbox.generation() + 1),
    }
}

/// `tokio::sync::mpsc::WeakUnboundedSender::upgrade`: a handle on the channel, or
/// none. Which of the two depends on the handles that are alive when the call is
/// made, and is left open.
#[verifier::external_body]
pub(crate) fn upgrade(outbox: &WeakOutbox) -> Option<Lease> {
    match outbox.sender.upgrade() {
        Some(sender) => Some(Lease { sender }),
        None => None,
    }
}

/// `tokio::sync::mpsc::UnboundedSender::is_closed`: whether the receiving half is
/// closed when the call is made, which is left open.
#[verifier::external_body]
pub(crate) fn is_closed(lease: &Lease) -> bool {
    lease.sender.is_closed()
}

/// A list that is extended keeps what it had, in its order, and has one entry more,
/// at its end; the handle, what it goes back to and the counts stay.
pub proof fn law_lists_grow_at_their_end(
    before: WeakOutbox,
    after: WeakOutbox,
    entry: Handover,
)
    requires
        after.extends(before, entry),
    ensures
        after.handed().len() == before.handed().len() + 1,
        forall|i: int|
            0 <= i < before.handed().len() ==> #[trigger] after.handed()[i] == before.handed()[i],
        after.handed()[before.handed().len() as int] == entry,
        after.handle() == before.handle(),
        after.origin() == before.origin(),
        after.generation() == before.generation(),
        after.copies() == before.copies(),
{
}

/// The same of an outbox that keeps the channel open.
pub proof fn law_lists_of_sinks_grow_at_their_end(before: Outbox, after: Outbox, entry: Handover)
    requires
        after.extends(before, entry),
    ensures
        after.handed().len() == before.handed().len() + 1,
        forall|i: int|
            0 <= i < before.handed().len() ==> #[trigger] after.handed()[i] == before.handed()[i],
        after.handed()[before.handed().len() as int] == entry,
        after.handle() == before.handle(),
        after.proxies() == before.proxies(),
{
}

/// To make another outbox hands nothing over, and a new one has handed over nothing.
pub proof fn law_lending_hands_nothing_over(
    sink: (Outbox, Outbox),
    proxy: (WeakOutbox, WeakOutbox),
    new: WeakOutbox,
)
    ensures
        sink.1.lends(sink.0) ==> {
            &&& sink.1.handed() == sink.0.handed()
            &&& sink.1.handle() == sink.0.handle()
            &&& sink.1.proxies() == sink.0.proxies() + 1
        },
        proxy.1.lends(proxy.0) ==> {
            &&& proxy.1.handed() == proxy.0.handed()
            &&& proxy.1.handle() == proxy.0.handle()
            &&& proxy.1.origin() == proxy.0.origin()
            &&& proxy.1.generation() == proxy.0.generation()
            &&& proxy.1.copies() == proxy.0.copies() + 1
        },
        new.is_new() ==> new.handed().len() == 0 && new.copies() == 0,
{
}

} // verus!
