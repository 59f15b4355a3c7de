//! How messages go to the signalling server's WebSocket.
//!
//! How the channel answers depends on its other end and on the handles that are
//! alive when it is asked. The relations of this module tie an answer to what was
//! asked: they hold of the answers that can come, and only a call shows that one
//! does.

use crate::error::SinkError;
use crate::outbox::downgrade;
use crate::outbox::duplicate;
use crate::outbox::hand_over;
use crate::outbox::hand_over_leased;
use crate::outbox::is_closed;
use crate::outbox::upgrade;
use crate::outbox::Handover;
use crate::outbox::Lease;
use crate::outbox::Outbound;
use crate::outbox::Outbox;
use crate::outbox::WeakOutbox;
use crate::protocol::Message;
use tokio::sync::mpsc::UnboundedSender;
use vstd::prelude::*;

verus! {

/// `lease` can come of asking a weak outbox for a lease of its channel.
pub closed spec fn leased(outbox: WeakOutbox, lease: Option<Lease>) -> bool {
    call_ensures(upgrade, (&outbox,), lease)
}

/// `closed` can come of asking whether the other end of a leased channel is closed.
pub closed spec fn reported_closed(lease: Lease, closed: bool) -> bool {
    call_ensures(is_closed, (&lease,), closed)
}

/// Calls a function, and keeps that its answer came from the call.
fn ask<A, R, F: Fn(A) -> R>(function: F, argument: A) -> (answer: R)
    requires
        call_requires(function, (argument,)),
    ensures
        call_ensures(function, (argument,), answer),
{
    function(argument)
}

/// What becomes of a message, by the answer of the channel.
pub fn delivery(answer: Result<(), Outbound>) -> (r: Result<(), SinkError>)
    ensures
        match answer {
            Ok(()) => r is Ok,
            Err(Ok(message)) => r == Err::<(), SinkError>(SinkError::Undelivered(message)),
            Err(Err(error)) => r == Err::<(), SinkError>(error),
        },
{
    match answer {
        Ok(()) => Ok(()),
        Err(Ok(message)) => Err(SinkError::Undelivered(message)),
        Err(Err(error)) => Err(error),
    }
}

/// The entry for a message that was handed over, by how its delivery went.
pub open spec fn entry(
    through: UnboundedSender<Outbound>,
    message: Message,
    r: Result<(), SinkError>,
) -> Handover {
    Handover { through, value: Ok(message), taken: r is Ok }
}

/// What a delivery comes to: the channel took the message, or the message is in the
/// error.
pub open spec fn is_delivery(message: Message, r: Result<(), SinkError>) -> bool {
    r is Ok || r == Err::<(), SinkError>(SinkError::Undelivered(message))
}

/// A message was handed over once through a weak outbox, and `r` says whether the
/// channel took it; or there was no handle on the channel, `r` says so, and nothing
/// was handed over.
pub open spec fn sent(
    before: WeakOutbox,
    after: WeakOutbox,
    message: Message,
    r: Result<(), SinkError>,
) -> bool {
    ||| {
        &&& leased(before, None)
        &&& r == Err::<(), SinkError>(SinkError::SenderUnavailable)
        &&& after == before
    }
    ||| exists|lease: Lease|
        {
            &&& #[trigger] leased(before, Some(lease))
            &&& after.extends(before, entry(lease.handle(), message, r))
            &&& is_delivery(message, r)
        }
}

/// A message was handed over once through a weak outbox, and `r` says whether the
/// channel took it; or the other end of the channel was closed, and nothing was
/// handed over; or there was no handle on the channel, `r` says so, and nothing was
/// handed over.
pub open spec fn sent_unless_closed(
    before: WeakOutbox,
    after: WeakOutbox,
    message: Message,
    r: Result<(), SinkError>,
) -> bool {
    ||| {
        &&& leased(before, None)
        &&& r == Err::<(), SinkError>(SinkError::SenderUnavailable)
        &&& after == before
    }
    ||| exists|lease: Lease|
        {
            &&& leased(before, Some(lease))
            &&& #[trigger] reported_closed(lease, true)
            &&& r is Ok
            &&& after == before
        }
    ||| exists|lease: Lease|
        {
            &&& leased(before, Some(lease))
            &&& #[trigger] reported_closed(lease, false)
            &&& after.extends(before, entry(lease.handle(), message, r))
            &&& is_delivery(message, r)
        }
}

impl Outbox {
    /// Hands a message to the channel.
    pub fn send(&mut self, message: Message) -> (r: Result<(), SinkError>)
        ensures
            final(self).extends(*old(self), entry(old(self).handle(), message, r)),
            is_delivery(message, r),
    {
        delivery(hand_over(self, Ok(message)))
    }

    /// Ends the WebSocket with an error. The error comes back if the channel does
    /// not take it.
    pub fn end(&mut self, error: SinkError) -> (r: Result<(), SinkError>)
        ensures
            final(self).extends(
                *old(self),
                (Handover { through: old(self).handle(), value: Err(error), taken: r is Ok }),
            ),
            r is Ok || r == Err::<(), SinkError>(error),
    {
        delivery(hand_over(self, Err(error)))
    }

    /// A weak outbox on the same channel, through which nothing was handed over
    /// yet.
    pub fn downgrade(&mut self) -> (r: WeakOutbox)
        ensures
            final(self).lends(*old(self)),
            r.is_new(),
            r.origin() == old(self).handle(),
            r.generation() == 0,
    {
        downgrade(self)
    }
}

impl WeakOutbox {
    /// Hands a message to the channel, while the channel has a handle.
    pub fn send(&mut self, message: Message) -> (r: Result<(), SinkError>)
        ensures
            sent(*old(self), *final(self), message, r),
    {
        let lease = ask(upgrade, &*self);
        assert(leased(*old(self), lease));
        match lease {
            Some(lease) => delivery(hand_over_leased(self, &lease, Ok(message))),
            None => Err(SinkError::SenderUnavailable),
        }
    }

    /// Hands a message to the channel, while the channel has a handle, unless its
    /// other end is closed.
    pub fn send_unless_closed(&mut self, message: Message) -> (r: Result<(), SinkError>)
        ensures
            sent_unless_closed(*old(self), *final(self), message, r),
    {
        let lease = ask(upgrade, &*self);
        assert(leased(*old(self), lease));
        match lease {
            Some(lease) => {
                let closed = ask(is_closed, &lease);
                assert(reported_closed(lease, closed));
                if closed {
                    return Ok(());
                }
                delivery(hand_over_leased(self, &lease, Ok(message)))
            },
            None => Err(SinkError::SenderUnavailable),
        }
    }

    /// Another weak outbox on the same channel, through which nothing was handed
    /// over yet.
    pub fn duplicate(&mut self) -> (r: WeakOutbox)
        ensures
            final(self).lends(*old(self)),
            r.is_new(),
            r.origin() == old(self).origin(),
            r.generation() == old(self).generation() + 1,
    {
        duplicate(self)
    }
}

/// Nothing but messages was handed over: never an error, which would end the
/// WebSocket.
pub open spec fn only_messages(handed: Seq<Handover>) -> bool {
    forall|i: int| 0 <= i < handed.len() ==> (#[trigger] handed[i]).value is Ok
}

/// To send a message puts no error on the channel: an outbox through which nothing
/// but messages was handed over stays one.
pub proof fn law_no_error_is_handed_over(
    before: WeakOutbox,
    after: WeakOutbox,
    message: Message,
    r: Result<(), SinkError>,
)
    requires
        sent(before, after, message, r) || sent_unless_closed(before, after, message, r),
        only_messages(before.handed()),
    ensures
        only_messages(after.handed()),
{
}

/// To send a message hands over that message once or nothing at all, and it is
/// handed over where the outcome tells that the channel answered.
pub proof fn law_a_message_is_handed_over_once(
    before: WeakOutbox,
    after: WeakOutbox,
    message: Message,
    r: Result<(), SinkError>,
)
    requires
        sent(before, after, message, r) || sent_unless_closed(before, after, message, r),
    ensures
        after.handed() == before.handed() || exists|lease: Lease|
            {
                &&& #[trigger] leased(before, Some(lease))
                &&& after.handed() == before.handed().push(entry(lease.handle(), message, r))
            },
        r == Err::<(), SinkError>(SinkError::SenderUnavailable) ==> after == before,
        r == Err::<(), SinkError>(SinkError::Undelivered(message)) || (sent(
            before,
            after,
            message,
            r,
        ) && r is Ok) ==> after.handed().len() == before.handed().len() + 1,
{
}

/// Only the sink keeps its channel open: a weak outbox holds a weak handle, and
/// whatever is sent through it, it goes back to the same sink as before.
pub proof fn law_weak_outboxes_go_back_to_their_sink(
    before: WeakOutbox,
    after: WeakOutbox,
    message: Message,
    r: Result<(), SinkError>,
)
    requires
        sent(before, after, message, r) || sent_unless_closed(before, after, message, r),
    ensures
        after.handle() == before.handle(),
        after.origin() == before.origin(),
        after.copies() == before.copies(),
{
}

/// How the outcome of sending a message tells what happened: the channel took the
/// message, or refused it and it came back, and either way it was handed over once; or
/// no handle on the channel was left, and nothing was handed over. There is no other
/// outcome.
pub proof fn law_outcomes_of_sending(
    before: WeakOutbox,
    after: WeakOutbox,
    message: Message,
    r: Result<(), SinkError>,
)
    requires
        sent(before, after, message, r),
    ensures
        match r {
            Err(SinkError::SenderUnavailable) => leased(before, None) && after == before,
            Err(error) => {
                &&& error == SinkError::Undelivered(message)
                &&& after.handed().len() == before.handed().len() + 1
                &&& after.handed().drop_last() == before.handed()
                &&& after.handed().last().value == Ok::<Message, SinkError>(message)
                &&& !after.handed().last().taken
                &&& exists|lease: Lease|
                    #[trigger] leased(before, Some(lease)) && after.handed().last().through
                        == lease.handle()
            },
            Ok(_) => {
                &&& after.handed().len() == before.handed().len() + 1
                &&& after.handed().drop_last() == before.handed()
                &&& after.handed().last().value == Ok::<Message, SinkError>(message)
                &&& after.handed().last().taken
                &&& exists|lease: Lease|
                    #[trigger] leased(before, Some(lease)) && after.handed().last().through
                        == lease.handle()
            },
        },
{
    if r != Err::<(), SinkError>(SinkError::SenderUnavailable) {
        let lease = choose|lease: Lease|
            {
                &&& #[trigger] leased(before, Some(lease))
                &&& after.extends(before, entry(lease.handle(), message, r))
                &&& is_delivery(message, r)
            };
        assert(after.handed().drop_last() =~= before.handed());
        assert(after.handed().last() == entry(lease.handle(), message, r));
    }
}

/// How the outcome of sending a message on an open channel tells what happened. Where
/// nothing was handed over, no handle on the channel was left, as the outcome says, or
/// its other end was reported closed.
pub proof fn law_outcomes_of_sending_unless_closed(
    before: WeakOutbox,
    after: WeakOutbox,
    message: Message,
    r: Result<(), SinkError>,
)
    requires
        sent_unless_closed(before, after, message, r),
    ensures
        match r {
            Err(SinkError::SenderUnavailable) => leased(before, None) && after == before,
            Err(error) => {
                &&& error == SinkError::Undelivered(message)
                &&& after.handed().len() == before.handed().len() + 1
                &&& after.handed().drop_last() == before.handed()
                &&& after.handed().last().value == Ok::<Message, SinkError>(message)
                &&& !after.handed().last().taken
            },
            Ok(_) => {
                ||| {
                    &&& after == before
                    &&& exists|lease: Lease|
                        leased(before, Some(lease)) && #[trigger] reported_closed(lease, true)
                }
                ||| {
                    &&& after.handed().len() == before.handed().len() + 1
                    &&& after.handed().drop_last() == before.handed()
                    &&& after.handed().last().value == Ok::<Message, SinkError>(message)
                    &&& after.handed().last().taken
                    &&& exists|lease: Lease|
                        {
                            &&& leased(before, Some(lease))
                            &&& #[trigger] reported_closed(lease, false)
                            &&& after.handed().last().through == lease.handle()
                        }
                }
            },
        },
{
    if exists|lease: Lease|
        {
            &&& leased(before, Some(lease))
            &&& #[trigger] reported_closed(lease, false)
            &&& after.extends(before, entry(lease.handle(), message, r))
            &&& is_delivery(message, r)
        } {
        let lease = choose|lease: Lease|
            {
                &&& leased(before, Some(lease))
                &&& #[trigger] reported_closed(lease, false)
                &&& after.extends(before, entry(lease.handle(), message, r))
                &&& is_delivery(message, r)
            };
        assert(after.handed().drop_last() =~= before.handed());
        assert(after.handed().last() == entry(lease.handle(), message, r));
    }
}

/// What is said of a lease, and of a closed channel, is what the handles answer.
pub(crate) proof fn law_answers_are_those_of_the_handles(
    outbox: WeakOutbox,
    lease: Option<Lease>,
    open: Lease,
    closed: bool,
)
    ensures
        leased(outbox, lease) <==> call_ensures(upgrade, (&outbox,), lease),
        reported_closed(open, closed) <==> call_ensures(is_closed, (&open,), closed),
{
}

/// A message that was delivered through the sink's own outbox is on its list once,
/// with whether the channel took it.
pub proof fn law_outcomes_of_a_sinks_sending(
    before: Outbox,
    after: Outbox,
    message: Message,
    r: Result<(), SinkError>,
)
    requires
        after.extends(before, entry(before.handle(), message, r)),
        is_delivery(message, r),
    ensures
        after.handed().len() == before.handed().len() + 1,
        after.handed().drop_last() == before.handed(),
        after.handed().last().value == Ok::<Message, SinkError>(message),
        after.handed().last().through == before.handle(),
        after.handed().last().taken <==> r is Ok,
        r matches Err(error) ==> error == SinkError::Undelivered(message),
{
    assert(after.handed().drop_last() =~= before.handed());
}

/// Nothing but messages was handed over exactly where every entry is a message.
pub proof fn law_only_messages(handed: Seq<Handover>, index: int)
    requires
        only_messages(handed),
        0 <= index < handed.len(),
    ensures
        handed[index].value matches Ok(message),
{
}

} // verus!
