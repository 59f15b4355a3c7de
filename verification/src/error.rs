//! What can go wrong in a sink.

use crate::link::LinkFailure;
use crate::protocol::Message;
use crate::protocol::SessionId;
use vstd::prelude::*;

verus! {

#[derive(Debug)]
pub enum SinkError {
    /// No strong handle on the channel is left.
    SenderUnavailable,
    /// The channel did not take the message.
    Undelivered(Message),
    /// The channel did not take the message, which is an answer to an offer.
    AnswerUndelivered(Message),
    /// The sink already has a pad of a tee.
    AlreadyLinked(SessionId),
    LinkFailed(LinkFailure),
    /// The WebRTC element gave no sink pad.
    NoSinkPad,
    /// The multimedia framework refused a request, with this message.
    Refused(String),
    /// The thread that builds the WebRTC element panicked, with this message.
    BuildPanicked(String),
    /// A WebRTC sink has no session description of its own.
    SdpUnavailable,
    /// The text of a description that was just built cannot be read.
    UnreadableSdp,
    /// The text is no session description, as this message says.
    InvalidSdp(String),
}

impl SinkError {
    pub open spec fn spec_message(self) -> Seq<char> {
        match self {
            SinkError::SenderUnavailable => "Failed accessing MPSC Sender"@,
            SinkError::Undelivered(_) => "channel closed"@,
            SinkError::AnswerUndelivered(_) => "Failed to send SDP answer"@,
            SinkError::AlreadyLinked(id) => "Tee's src pad from WebRTCBin "@ + crate::protocol::hyphenated(
                id.bits,
            )
                + " has already been configured"@,
            SinkError::LinkFailed(failure) => failure.spec_message(),
            SinkError::NoSinkPad => "Failed requesting sink pad for webrtcsink"@,
            SinkError::Refused(message) => message@,
            SinkError::BuildPanicked(message) => message@,
            SinkError::SdpUnavailable => {
                "Not available: WebRTC Sink should only be connected by means of its Signalling protocol."@
            },
            SinkError::UnreadableSdp => "Failed reading the received SDP"@,
            SinkError::InvalidSdp(message) => message@,
        }
    }

    /// What a log says of the error.
    pub fn message(&self) -> (r: String)
        ensures
            r@ == self.spec_message(),
    {
        match self {
            SinkError::SenderUnavailable => "Failed accessing MPSC Sender".to_owned(),
            SinkError::Undelivered(_) => "channel closed".to_owned(),
            SinkError::AnswerUndelivered(_) => "Failed to send SDP answer".to_owned(),
            SinkError::AlreadyLinked(id) => "Tee's src pad from WebRTCBin ".to_owned().concat(
                id.text().as_str(),
            ).concat(" has already been configured"),
            SinkError::LinkFailed(failure) => failure.message(),
            SinkError::NoSinkPad => "Failed requesting sink pad for webrtcsink".to_owned(),
            SinkError::Refused(message) => message.clone(),
            SinkError::BuildPanicked(message) => message.clone(),
            SinkError::SdpUnavailable => {
                "Not available: WebRTC Sink should only be connected by means of its Signalling protocol.".to_owned()
            },
            SinkError::UnreadableSdp => "Failed reading the received SDP".to_owned(),
            SinkError::InvalidSdp(message) => message.clone(),
        }
    }
}

/// What others said of an error is told whole, whatever it is.
pub proof fn law_messages_are_told_whole(message: String, failure: LinkFailure)
    ensures
        SinkError::Refused(message).spec_message() == message@,
        SinkError::BuildPanicked(message).spec_message() == message@,
        SinkError::InvalidSdp(message).spec_message() == message@,
        SinkError::LinkFailed(failure).spec_message() == failure.spec_message(),
{
}

/// A sink that is linked again is told with its session, whichever it is.
pub proof fn law_a_second_link_is_told_with_its_session(id: SessionId)
    ensures
        ({
            let told = SinkError::AlreadyLinked(id).spec_message();
            let from = "Tee's src pad from WebRTCBin "@.len() as int;
            &&& told.len() == from + 36 + " has already been configured"@.len()
            &&& told.subrange(0, from) == "Tee's src pad from WebRTCBin "@
            &&& told.subrange(from, from + 36) == crate::protocol::hyphenated(id.bits)
            &&& told.subrange(from + 36, told.len() as int) == " has already been configured"@
        }),
{
}

/// What is told of a message that the channel did not take does not depend on it.
pub proof fn law_undelivered_messages_are_told_alike(message: Message)
    ensures
        SinkError::Undelivered(message).spec_message() == "channel closed"@,
        SinkError::AnswerUndelivered(message).spec_message() == "Failed to send SDP answer"@,
{
}

} // verus!
