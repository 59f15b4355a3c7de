//! Offers: the replies that hold them, and their way to the peer.
//!
//! An offer is sent once it was made the local description: [`PreparedOffer`] gives
//! out the signal for that, and only what remains of it then, a [`SignalledOffer`],
//! can be sent.

use crate::protocol::BindAnswer;
use crate::protocol::MediaNegotiation;
use crate::protocol::Message;
use crate::protocol::RTCSessionDescription;
use crate::protocol::Sdp;
use crate::signal::Signal;
use vstd::prelude::*;

verus! {

/// Why an offer did not come about.
#[derive(Debug, PartialEq, Eq)]
pub enum OfferFailure {
    /// The WebRTC element did not reply.
    NoResponse,
    /// The reply holds no offer.
    NoOffer,
    /// The reply is an error, with this message.
    Refused(String),
}

impl OfferFailure {
    pub open spec fn spec_message(self) -> Seq<char> {
        match self {
            OfferFailure::NoResponse => "Offer creation future got no response"@,
            OfferFailure::NoOffer => "Response got no \"offer\""@,
            OfferFailure::Refused(message) => "Failed to send SDP offer: "@ + message@,
        }
    }

    /// What a log says of the failure.
    pub fn message(&self) -> (r: String)
        ensures
            r@ == self.spec_message(),
    {
        match self {
            OfferFailure::NoResponse => "Offer creation future got no response".to_owned(),
            OfferFailure::NoOffer => "Response got no \"offer\"".to_owned(),
            OfferFailure::Refused(message) => "Failed to send SDP offer: ".to_owned().concat(
                message.as_str(),
            ),
        }
    }
}

/// What the WebRTC element replies to the request for an offer: nothing, an
/// error, or a structure whose field may hold the offer.
pub type OfferReply<D> = Result<Option<Result<Option<D>, String>>, String>;

/// The offer that a reply holds, or why there is none.
pub fn offer_of_reply<D>(reply: OfferReply<D>) -> (r: Result<D, OfferFailure>)
    ensures
        match reply {
            Ok(Some(Ok(Some(offer)))) => r == Ok::<D, OfferFailure>(offer),
            Ok(Some(Ok(None))) => r == Err::<D, OfferFailure>(OfferFailure::NoOffer),
            Ok(Some(Err(message))) => r == Err::<D, OfferFailure>(OfferFailure::Refused(message)),
            Ok(None) => r == Err::<D, OfferFailure>(OfferFailure::NoResponse),
            Err(message) => r == Err::<D, OfferFailure>(OfferFailure::Refused(message)),
        },
{
    let reply = match reply {
        Ok(Some(reply)) => reply,
        Ok(None) => return Err(OfferFailure::NoResponse),
        Err(message) => return Err(OfferFailure::Refused(message)),
    };
    match reply {
        Ok(Some(offer)) => Ok(offer),
        Ok(None) => Err(OfferFailure::NoOffer),
        Err(message) => Err(OfferFailure::Refused(message)),
    }
}

/// An offer that is ready to become the local description.
#[derive(Debug)]
pub struct PreparedOffer<D> {
    offer: D,
    message: Message,
}

/// An offer whose signal was given out, and that may be sent.
#[derive(Debug)]
pub struct SignalledOffer {
    message: Message,
}

impl<D> PreparedOffer<D> {
    /// The description that becomes the local one.
    pub closed spec fn offer(self) -> D {
        self.offer
    }

    /// The message that brings the offer to the peer.
    pub closed spec fn message(self) -> Message {
        self.message
    }

    /// The offer of a session, with the text that it has.
    pub fn new(bind: BindAnswer, offer: D, sdp: String) -> (r: PreparedOffer<D>)
        ensures
            r.offer() == offer,
            r.message().is_offer(bind, sdp@),
    {
        PreparedOffer {
            offer,
            message: Message::from(
                MediaNegotiation { bind, sdp: RTCSessionDescription::Offer(Sdp { sdp }) },
            ),
        }
    }

    /// Gives out the signal that makes the offer the local description. What remains
    /// is the same offer, which may be sent.
    pub fn signal(self) -> (r: (Signal<D>, SignalledOffer))
        ensures
            r.0 == Signal::SetLocalDescription(self.offer()),
            r.1.message() == self.message(),
    {
        (Signal::SetLocalDescription(self.offer), SignalledOffer { message: self.message })
    }
}

impl SignalledOffer {
    /// The message that brings the offer to the peer.
    pub closed spec fn message(self) -> Message {
        self.message
    }

    pub(crate) fn into_message(self) -> (r: Message)
        ensures
            r == self.message(),
    {
        self.message
    }
}

/// Why an offer did not come about is told with the whole message of the error.
pub proof fn law_failures_are_told_whole(message: String)
    ensures
        ({
            let told = OfferFailure::Refused(message).spec_message();
            &&& told.len() == "Failed to send SDP offer: "@.len() + message@.len()
            &&& told.subrange(0, "Failed to send SDP offer: "@.len() as int)
                == "Failed to send SDP offer: "@
            &&& told.subrange("Failed to send SDP offer: "@.len() as int, told.len() as int)
                == message@
        }),
        OfferFailure::NoResponse.spec_message() == "Offer creation future got no response"@,
        OfferFailure::NoOffer.spec_message() == "Response got no \"offer\""@,
{
}

} // verus!
