//! What a sink does when its WebRTC element reports something.
//!
//! A proxy keeps neither the sink nor the channel alive: it holds a weak outbox.
//! A reaction that may tell the peer something takes `&mut self`, and says what was
//! handed over. One that takes `&self` tells the peer nothing: it could not.

use crate::error::SinkError;
use crate::offer::PreparedOffer;
use crate::offer::SignalledOffer;
use crate::outbox::Handover;
use crate::outbox::Lease;
use crate::outbox::Outbound;
use crate::outbox::WeakOutbox;
use crate::protocol::BindAnswer;
use crate::protocol::EndSessionQuestion;
use crate::protocol::IceNegotiation;
use crate::protocol::MediaNegotiation;
use crate::protocol::Message;
use crate::protocol::Negotiation;
use crate::protocol::Question;
use crate::protocol::RTCIceCandidateInit;
use crate::protocol::RTCSessionDescription;
use crate::protocol::Sdp;
use crate::sdp::customize_sdp;
use crate::signal::Signal;
use crate::states::DtlsTransportState;
use crate::states::IceConnectionState;
use crate::states::IceGatheringState;
use crate::states::PeerConnectionState;
use tokio::sync::mpsc::UnboundedSender;
use vstd::prelude::*;

verus! {

/// A sink as its WebRTC element's callbacks see it.
pub struct WebRTCSinkWeakProxy {
    pub bind: BindAnswer,
    pub sender: WeakOutbox,
}

/// A request to the source of the stream for a key unit.
#[derive(Clone, Copy, Debug, PartialEq, Eq, Structural)]
pub struct KeyUnitRequest {
    /// Whether all headers come with it.
    pub all_headers: bool,
}

impl KeyUnitRequest {
    /// Which of the WebRTC element's source pads the request goes to: the first
    /// alone, and none where there is no pad.
    pub fn receiver(&self, src_pads: usize) -> (r: Option<usize>)
        ensures
            r == (if src_pads > 0 {
                Some(0usize)
            } else {
                None::<usize>
            }),
    {
        if src_pads > 0 {
            Some(0)
        } else {
            None
        }
    }
}

/// How long, in seconds, a new sink sleeps before it looks whether its peer is
/// connected. A peer has ten seconds to connect.
pub const NEGOTIATION_SLEEP_SECONDS: u64 = 9;

/// How long, in seconds, it then still waits for its peer.
pub const NEGOTIATION_WAIT_SECONDS: u64 = 1;

/// An answer that the channel did not take is told from other messages.
pub open spec fn of_answer(r: Result<(), SinkError>) -> Result<(), SinkError> {
    match r {
        Err(SinkError::Undelivered(message)) => Err(SinkError::AnswerUndelivered(message)),
        _ => r,
    }
}

/// The outcome of a reaction that requests no key unit.
pub open spec fn without_request(r: Result<(), SinkError>) -> Result<
    Option<KeyUnitRequest>,
    SinkError,
> {
    match r {
        Ok(_) => Ok(None),
        Err(error) => Err(error),
    }
}

/// The peer was asked once to end the session for this reason, and `r` says how
/// that went; or nothing was handed over, because the peer's end of the channel is
/// closed or, as `r` says, because no handle on it is left.
pub open spec fn asked_to_end(
    before: WebRTCSinkWeakProxy,
    after: WebRTCSinkWeakProxy,
    reason: Seq<char>,
    r: Result<(), SinkError>,
) -> bool {
    &&& after.bind == before.bind
    &&& exists|message: Message|
        {
            &&& message.is_end_session(before.bind, reason)
            &&& #[trigger] crate::channel::sent_unless_closed(
                before.sender,
                after.sender,
                message,
                r,
            )
        }
}

/// The peer was sent an answer once, and `r` says how that went; or nothing was
/// handed over because, as `r` says, no handle on the channel is left.
pub open spec fn answered_with(
    before: WebRTCSinkWeakProxy,
    after: WebRTCSinkWeakProxy,
    sdp: Seq<char>,
    r: Result<(), SinkError>,
) -> bool {
    &&& after.bind == before.bind
    &&& exists|message: Message, inner: Result<(), SinkError>|
        {
            &&& message.is_answer(before.bind, sdp)
            &&& #[trigger] crate::channel::sent(before.sender, after.sender, message, inner)
            &&& r == of_answer(inner)
        }
}

/// The peer was sent a candidate once, and `r` says how that went; or nothing was
/// handed over because, as `r` says, no handle on the channel is left.
pub open spec fn proposed(
    before: WebRTCSinkWeakProxy,
    after: WebRTCSinkWeakProxy,
    sdp_m_line_index: u32,
    candidate: Seq<char>,
    r: Result<(), SinkError>,
) -> bool {
    &&& after.bind == before.bind
    &&& exists|message: Message|
        {
            &&& message.is_candidate(before.bind, sdp_m_line_index, candidate)
            &&& #[trigger] crate::channel::sent(before.sender, after.sender, message, r)
        }
}

impl WebRTCSinkWeakProxy {
    /// All that was handed to the channel through this proxy, the first first.
    pub open spec fn handed(self) -> Seq<Handover> {
        self.sender.handed()
    }

    /// Another proxy of the same sink, through which nothing was handed over yet.
    pub fn duplicate(&mut self) -> (r: WebRTCSinkWeakProxy)
        ensures
            final(self).bind == old(self).bind,
            final(self).sender.lends(old(self).sender),
            r.bind == old(self).bind,
            r.sender.is_new(),
            r.sender.origin() == old(self).sender.origin(),
            r.sender.generation() == old(self).sender.generation() + 1,
    {
        WebRTCSinkWeakProxy { bind: self.bind, sender: self.sender.duplicate() }
    }

    /// The message that asks the peer to end the session.
    pub fn end_question(&self, reason: String) -> (r: Message)
        ensures
            r.is_end_session(self.bind, reason@),
    {
        Message::Question(Question::EndSession(EndSessionQuestion { bind: self.bind, reason }))
    }

    /// Asks the peer to end the session, unless its end of the channel is closed.
    pub fn terminate(&mut self, reason: String) -> (r: Result<(), SinkError>)
        ensures
            asked_to_end(*old(self), *final(self), reason@, r),
    {
        let question = self.end_question(reason);
        let r = self.sender.send_unless_closed(question);
        assert(crate::channel::sent_unless_closed(old(self).sender, self.sender, question, r));
        r
    }

    /// The peer is asked to end the session if it did not connect in time, and
    /// only then.
    pub fn on_negotiation_deadline(&mut self, peer_connected: bool) -> (r: Result<(), SinkError>)
        ensures
            if peer_connected {
                r is Ok && *final(self) == *old(self)
            } else {
                asked_to_end(*old(self), *final(self), "WebRTC negotiation timeout"@, r)
            },
    {
        if peer_connected {
            return Ok(());
        }
        self.terminate("WebRTC negotiation timeout".to_owned())
    }

    /// A transport that is closed or failed ends the session; in any other state
    /// the peer is told nothing.
    pub fn on_dtls_transport_state_change(&mut self, state: &DtlsTransportState) -> (r: Result<
        (),
        SinkError,
    >)
        ensures
            match state.spec_end_reason() {
                Some(reason) => asked_to_end(*old(self), *final(self), reason, r),
                None => r is Ok && *final(self) == *old(self),
            },
    {
        match state.end_reason() {
            Some(reason) => self.terminate(reason),
            None => Ok(()),
        }
    }

    /// The WebRTC element needs a negotiation: it is asked for an offer.
    pub fn on_negotiation_needed<D>(&self) -> (r: Result<Signal<D>, SinkError>)
        ensures
            r == Ok::<Signal<D>, SinkError>(Signal::CreateOffer),
    {
        Ok(Signal::CreateOffer)
    }

    /// The WebRTC element has created an offer, whose text is given: the text out
    /// of which the offer is to be built anew.
    pub fn on_offer_created(&self, offer: Result<String, String>) -> (r: Result<String, SinkError>)
        ensures
            is_customized(offer, r),
    {
        customized(offer)
    }

    /// The offer was built anew, and its text read back: it is ready to become the
    /// local description, and then to be sent to the peer.
    pub fn on_offer_rebuilt<D>(&self, rebuilt: Result<(D, Option<String>), String>) -> (r: Result<
        PreparedOffer<D>,
        SinkError,
    >)
        ensures
            match rebuilt {
                Ok((offer, Some(sdp))) => {
                    &&& r matches Ok(prepared)
                    &&& prepared.offer() == offer
                    &&& prepared.message().is_offer(self.bind, sdp@)
                },
                Ok((_, None)) => r == Err::<PreparedOffer<D>, SinkError>(SinkError::UnreadableSdp),
                Err(message) => r == Err::<PreparedOffer<D>, SinkError>(
                    SinkError::Refused(message),
                ),
            },
    {
        match rebuilt {
            Ok((offer, Some(sdp))) => Ok(PreparedOffer::new(self.bind, offer, sdp)),
            Ok((_, None)) => Err(SinkError::UnreadableSdp),
            Err(message) => Err(SinkError::Refused(message)),
        }
    }

    /// The offer was made the local description: its message is sent to the peer.
    pub fn send_offer(&mut self, offer: SignalledOffer) -> (r: Result<(), SinkError>)
        ensures
            final(self).bind == old(self).bind,
            crate::channel::sent(old(self).sender, final(self).sender, offer.message(), r),
    {
        self.sender.send(offer.into_message())
    }

    /// The WebRTC element has created an answer, whose text is given: the text out
    /// of which the answer is to be built anew.
    pub fn on_answer_created(&self, answer: Result<String, String>) -> (r: Result<
        String,
        SinkError,
    >)
        ensures
            is_customized(answer, r),
    {
        customized(answer)
    }

    /// The answer was built anew, and its text read back: it is sent to the peer.
    /// An answer that could not be built or read is not.
    pub fn on_answer_rebuilt(&mut self, rebuilt: Result<Option<String>, String>) -> (r: Result<
        (),
        SinkError,
    >)
        ensures
            match rebuilt {
                Ok(Some(sdp)) => answered_with(*old(self), *final(self), sdp@, r),
                Ok(None) => {
                    &&& r == Err::<(), SinkError>(SinkError::UnreadableSdp)
                    &&& *final(self) == *old(self)
                },
                Err(message) => {
                    &&& r == Err::<(), SinkError>(SinkError::Refused(message))
                    &&& *final(self) == *old(self)
                },
            },
    {
        let sdp = match rebuilt {
            Ok(Some(sdp)) => sdp,
            Ok(None) => return Err(SinkError::UnreadableSdp),
            Err(message) => return Err(SinkError::Refused(message)),
        };
        let message = Message::from(
            MediaNegotiation { bind: self.bind, sdp: RTCSessionDescription::Answer(Sdp { sdp }) },
        );
        let inner = self.sender.send(message);
        assert(crate::channel::sent(old(self).sender, self.sender, message, inner));
        match inner {
            Err(SinkError::Undelivered(message)) => Err(SinkError::AnswerUndelivered(message)),
            other => other,
        }
    }

    /// The WebRTC element has found a candidate: it is sent to the peer.
    pub fn on_ice_candidate(&mut self, sdp_m_line_index: &u32, candidate: &str) -> (r: Result<
        (),
        SinkError,
    >)
        ensures
            proposed(*old(self), *final(self), *sdp_m_line_index, candidate@, r),
    {
        let message = Message::from(
            IceNegotiation {
                bind: self.bind,
                ice: RTCIceCandidateInit {
                    candidate: Some(candidate.to_owned()),
                    sdp_mid: None,
                    sdp_m_line_index: Some(*sdp_m_line_index),
                    username_fragment: None,
                },
            },
        );
        let r = self.sender.send(message);
        assert(crate::channel::sent(old(self).sender, self.sender, message, r));
        r
    }

    /// The gathering of candidates asks nothing of the sink, in any state.
    pub fn on_ice_gathering_state_change(&self, _state: &IceGatheringState) -> (r: Result<
        (),
        SinkError,
    >)
        ensures
            r is Ok,
    {
        Ok(())
    }

    /// A complete ICE connection starts with a key unit; one that is lost ends the
    /// session. In any other state the peer is told nothing.
    pub fn on_ice_connection_state_change(&mut self, state: &IceConnectionState) -> (r: Result<
        Option<KeyUnitRequest>,
        SinkError,
    >)
        ensures
            state.spec_end_reason() is None ==> {
                &&& r == Ok::<Option<KeyUnitRequest>, SinkError>(
                    if *state is Completed {
                        Some(KeyUnitRequest { all_headers: true })
                    } else {
                        None
                    },
                )
                &&& *final(self) == *old(self)
            },
            state.spec_end_reason() matches Some(reason) ==> exists|inner: Result<(), SinkError>|
                {
                    &&& #[trigger] asked_to_end(*old(self), *final(self), reason, inner)
                    &&& r == without_request(inner)
                },
    {
        match state {
            IceConnectionState::Completed => Ok(Some(KeyUnitRequest { all_headers: true })),
            _ => match state.end_reason() {
                Some(reason) => {
                    assert(state.spec_end_reason()->0 == reason@);
                    match self.terminate(reason) {
                        Ok(_) => Ok(None),
                        Err(error) => Err(error),
                    }
                },
                None => Ok(None),
            },
        }
    }

    /// A peer connection that is lost ends the session; in any other state the peer
    /// is told nothing.
    pub fn on_connection_state_change(&mut self, state: &PeerConnectionState) -> (r: Result<
        (),
        SinkError,
    >)
        ensures
            match state.spec_end_reason() {
                Some(reason) => asked_to_end(*old(self), *final(self), reason, r),
                None => r is Ok && *final(self) == *old(self),
            },
    {
        match state.end_reason() {
            Some(reason) => self.terminate(reason),
            None => Ok(()),
        }
    }

    /// The peer has sent a description: it becomes the remote one.
    pub fn handle_sdp<D>(&self, sdp: D) -> (r: Result<Signal<D>, SinkError>)
        ensures
            r == Ok::<Signal<D>, SinkError>(Signal::SetRemoteDescription(sdp)),
    {
        Ok(Signal::SetRemoteDescription(sdp))
    }

    /// The peer has sent a candidate: it is added.
    pub fn handle_ice<D>(&self, sdp_m_line_index: &u32, candidate: &str) -> (r: Result<
        Signal<D>,
        SinkError,
    >)
        ensures
            r matches Ok(signal) && signal.adds_candidate(*sdp_m_line_index, candidate@),
    {
        Ok(Signal::add_ice_candidate(sdp_m_line_index, candidate))
    }
}

/// `r` is the customized text of a description, or why there is none.
pub open spec fn is_customized(
    text: Result<String, String>,
    r: Result<String, SinkError>,
) -> bool {
    match text {
        Ok(text) => match crate::sdp::parsed_sdp(text@) {
            Ok(session) => r matches Ok(sdp) && sdp@ == crate::sdp::sdp_text(
                crate::sdp::customized_session(session),
            ),
            Err(message) => r matches Err(SinkError::InvalidSdp(text)) && text@ == message,
        },
        Err(message) => r == Err::<String, SinkError>(SinkError::Refused(message)),
    }
}

/// The customized text of a description whose text could be read.
fn customized(text: Result<String, String>) -> (r: Result<String, SinkError>)
    ensures
        is_customized(text, r),
{
    match text {
        Ok(text) => customize_sdp(text.as_str()),
        Err(message) => Err(SinkError::Refused(message)),
    }
}

/// Every message that a sink sends belongs to its session.
pub proof fn law_messages_belong_to_the_session(
    message: Message,
    bind: BindAnswer,
    text: Seq<char>,
    sdp_m_line_index: u32,
)
    requires
        message.is_start_session(bind) || message.is_end_session(bind, text) || message.is_offer(
            bind,
            text,
        ) || message.is_answer(bind, text) || message.is_candidate(bind, sdp_m_line_index, text),
    ensures
        message.bind() == bind,
{
}

/// A reaction hands at most one thing to the channel, a message of its session and
/// never an error.
pub proof fn law_a_reaction_hands_over_one_message_at_most(
    before: WebRTCSinkWeakProxy,
    after: WebRTCSinkWeakProxy,
    text: Seq<char>,
    sdp_m_line_index: u32,
    r: Result<(), SinkError>,
)
    requires
        asked_to_end(before, after, text, r) || answered_with(before, after, text, r) || proposed(
            before,
            after,
            sdp_m_line_index,
            text,
            r,
        ),
    ensures
        after.bind == before.bind,
        after.handed() == before.handed() || exists|
            sender: UnboundedSender<Outbound>,
            message: Message,
        |
            {
                &&& message.bind() == before.bind
                &&& after.handed() == before.handed().push(
                    #[trigger] crate::channel::entry(sender, message, r),
                )
            },
        crate::channel::only_messages(before.handed()) ==> crate::channel::only_messages(
            after.handed(),
        ),
        r == Err::<(), SinkError>(SinkError::SenderUnavailable) ==> after == before,
{
    if asked_to_end(before, after, text, r) {
        let message = choose|message: Message|
            {
                &&& message.is_end_session(before.bind, text)
                &&& #[trigger] crate::channel::sent_unless_closed(
                    before.sender,
                    after.sender,
                    message,
                    r,
                )
            };
        lemma_one_message_at_most(before, after, message, r, r);
    } else if answered_with(before, after, text, r) {
        let (message, inner) = choose|message: Message, inner: Result<(), SinkError>|
            {
                &&& message.is_answer(before.bind, text)
                &&& #[trigger] crate::channel::sent(before.sender, after.sender, message, inner)
                &&& r == of_answer(inner)
            };
        lemma_one_message_at_most(before, after, message, inner, r);
    } else {
        let message = choose|message: Message|
            {
                &&& message.is_candidate(before.bind, sdp_m_line_index, text)
                &&& #[trigger] crate::channel::sent(before.sender, after.sender, message, r)
            };
        lemma_one_message_at_most(before, after, message, r, r);
    }
}

proof fn lemma_one_message_at_most(
    before: WebRTCSinkWeakProxy,
    after: WebRTCSinkWeakProxy,
    message: Message,
    inner: Result<(), SinkError>,
    r: Result<(), SinkError>,
)
    requires
        crate::channel::sent(before.sender, after.sender, message, inner)
            || crate::channel::sent_unless_closed(before.sender, after.sender, message, inner),
        inner is Ok <==> r is Ok,
    ensures
        after.handed() == before.handed() || exists|sender: UnboundedSender<Outbound>|
            after.handed() == before.handed().push(
                #[trigger] crate::channel::entry(sender, message, r),
            ),
        crate::channel::only_messages(before.handed()) ==> crate::channel::only_messages(
            after.handed(),
        ),
{
    crate::channel::law_a_message_is_handed_over_once(before.sender, after.sender, message, inner);
    if after.handed() != before.handed() {
        let lease = choose|lease: Lease|
            {
                &&& #[trigger] crate::channel::leased(before.sender, Some(lease))
                &&& after.handed() == before.handed().push(
                    crate::channel::entry(lease.handle(), message, inner),
                )
            };
        assert(crate::channel::entry(lease.handle(), message, inner) == crate::channel::entry(
            lease.handle(),
            message,
            r,
        ));
    }
    if crate::channel::only_messages(before.handed()) {
        crate::channel::law_no_error_is_handed_over(before.sender, after.sender, message, inner);
    }
}

/// How the outcome of asking the peer to end a session tells what happened, for every
/// session and every reason. The question was handed over once, with this session and
/// the whole reason, and the channel took it or it came back; or the peer's end of the
/// channel was reported closed, and nothing was handed over; or no handle on the
/// channel was left, as the outcome says, and nothing was handed over.
pub proof fn law_outcomes_of_asking_to_end(
    before: WebRTCSinkWeakProxy,
    after: WebRTCSinkWeakProxy,
    reason: Seq<char>,
    r: Result<(), SinkError>,
)
    requires
        asked_to_end(before, after, reason, r),
    ensures
        after.bind == before.bind,
        match r {
            Err(SinkError::SenderUnavailable) => {
                crate::channel::leased(before.sender, None) && after == before
            },
            Err(error) => {
                &&& after.sender.handed().len() == before.sender.handed().len() + 1
                &&& after.sender.handed().drop_last() == before.sender.handed()
                &&& !after.sender.handed().last().taken
                &&& after.sender.handed().last().value matches Ok(
                    Message::Question(Question::EndSession(question)),
                )
                &&& question.bind == before.bind
                &&& question.reason@ == reason
                &&& error == SinkError::Undelivered(
                    Message::Question(Question::EndSession(question)),
                )
            },
            Ok(_) => {
                ||| {
                    &&& after == before
                    &&& exists|lease: Lease|
                        crate::channel::leased(before.sender, Some(lease))
                            && #[trigger] crate::channel::reported_closed(lease, true)
                }
                ||| {
                    &&& exists|lease: Lease|
                        crate::channel::leased(before.sender, Some(lease))
                            && #[trigger] crate::channel::reported_closed(lease, false)
                    &&& after.sender.handed().len() == before.sender.handed().len() + 1
                    &&& after.sender.handed().drop_last() == before.sender.handed()
                    &&& after.sender.handed().last().taken
                    &&& after.sender.handed().last().value matches Ok(
                        Message::Question(Question::EndSession(question)),
                    )
                    &&& question.bind == before.bind
                    &&& question.reason@ == reason
                }
            },
        },
{
    let message = choose|message: Message|
        {
            &&& message.is_end_session(before.bind, reason)
            &&& #[trigger] crate::channel::sent_unless_closed(
                before.sender,
                after.sender,
                message,
                r,
            )
        };
    crate::channel::law_outcomes_of_sending_unless_closed(
        before.sender,
        after.sender,
        message,
        r,
    );
}

/// How the outcome of sending an answer tells what happened, for every session and
/// every text. The answer was handed over once, with this session and the whole text,
/// and the channel took it or it came back, as the outcome says; or no handle on the
/// channel was left, as the outcome says, and nothing was handed over.
pub proof fn law_outcomes_of_answering(
    before: WebRTCSinkWeakProxy,
    after: WebRTCSinkWeakProxy,
    text: Seq<char>,
    r: Result<(), SinkError>,
)
    requires
        answered_with(before, after, text, r),
    ensures
        after.bind == before.bind,
        r is Err ==> {
            ||| r == Err::<(), SinkError>(SinkError::SenderUnavailable)
            ||| r->Err_0 is AnswerUndelivered
        },
        if r == Err::<(), SinkError>(SinkError::SenderUnavailable) {
            crate::channel::leased(before.sender, None) && after == before
        } else {
            &&& after.sender.handed().len() == before.sender.handed().len() + 1
            &&& after.sender.handed().drop_last() == before.sender.handed()
            &&& after.sender.handed().last().taken <==> r is Ok
            &&& after.sender.handed().last().value matches Ok(message)
            &&& message matches Message::Negotiation(Negotiation::MediaNegotiation(media))
            &&& media.bind == before.bind
            &&& media.sdp matches RTCSessionDescription::Answer(answer)
            &&& answer.sdp@ == text
            &&& r matches Err(error) ==> error == SinkError::AnswerUndelivered(message)
        },
{
    let (message, inner) = choose|message: Message, inner: Result<(), SinkError>|
        {
            &&& message.is_answer(before.bind, text)
            &&& #[trigger] crate::channel::sent(before.sender, after.sender, message, inner)
            &&& r == of_answer(inner)
        };
    crate::channel::law_outcomes_of_sending(before.sender, after.sender, message, inner);
}

/// How the outcome of sending a candidate tells what happened, for every session,
/// every media section and every candidate. It was handed over once, with this session,
/// this media section and the whole candidate, and the channel took it or it came back;
/// or no handle on the channel was left, as the outcome says, and nothing was handed
/// over.
pub proof fn law_outcomes_of_proposing(
    before: WebRTCSinkWeakProxy,
    after: WebRTCSinkWeakProxy,
    index: u32,
    text: Seq<char>,
    r: Result<(), SinkError>,
)
    requires
        proposed(before, after, index, text, r),
    ensures
        after.bind == before.bind,
        if r == Err::<(), SinkError>(SinkError::SenderUnavailable) {
            crate::channel::leased(before.sender, None) && after == before
        } else {
            &&& after.sender.handed().len() == before.sender.handed().len() + 1
            &&& after.sender.handed().drop_last() == before.sender.handed()
            &&& after.sender.handed().last().taken <==> r is Ok
            &&& after.sender.handed().last().value matches Ok(message)
            &&& message matches Message::Negotiation(Negotiation::IceNegotiation(negotiation))
            &&& negotiation.bind == before.bind
            &&& negotiation.ice.sdp_m_line_index == Some(index)
            &&& negotiation.ice.sdp_mid is None
            &&& negotiation.ice.username_fragment is None
            &&& negotiation.ice.candidate matches Some(candidate)
            &&& candidate@ == text
            &&& r matches Err(error) ==> error == SinkError::Undelivered(message)
        },
{
    let message = choose|message: Message|
        {
            &&& message.is_candidate(before.bind, index, text)
            &&& #[trigger] crate::channel::sent(before.sender, after.sender, message, r)
        };
    crate::channel::law_outcomes_of_sending(before.sender, after.sender, message, r);
}

/// The text of a description that could not be read is refused with the same message,
/// one that is no description with the parser's; any other is customized, whatever its
/// length.
pub proof fn law_outcomes_of_customizing(
    text: Result<String, String>,
    r: Result<String, SinkError>,
)
    requires
        is_customized(text, r),
    ensures
        text matches Err(message) ==> r == Err::<String, SinkError>(SinkError::Refused(message)),
        text matches Ok(sdp) ==> {
            &&& crate::sdp::parsed_sdp(sdp@) matches Err(message) ==> (r matches Err(
                SinkError::InvalidSdp(said),
            ) && said@ == message)
            &&& crate::sdp::parsed_sdp(sdp@) matches Ok(session) ==> (r matches Ok(customized)
                && customized@ == crate::sdp::sdp_text(crate::sdp::customized_session(session)))
        },
{
}

/// What is made of an outcome says neither more nor less: an answer that came back is
/// told as one, and anything else stays; and where no key unit is requested, an error
/// stays the error.
pub proof fn law_outcomes_are_told(r: Result<(), SinkError>)
    ensures
        of_answer(r) is Ok <==> r is Ok,
        r matches Err(SinkError::Undelivered(message)) ==> of_answer(r) == Err::<(), SinkError>(
            SinkError::AnswerUndelivered(message),
        ),
        !(r matches Err(SinkError::Undelivered(_))) ==> of_answer(r) == r,
        r is Ok ==> without_request(r) == Ok::<Option<KeyUnitRequest>, SinkError>(None),
        r matches Err(error) ==> without_request(r) == Err::<Option<KeyUnitRequest>, SinkError>(
            error,
        ),
{
}

/// What a proxy has handed over is what is on the list of its outbox.
pub proof fn law_the_list_of_a_proxy(proxy: WebRTCSinkWeakProxy)
    ensures
        proxy.handed() == proxy.sender.handed(),
{
}

} // verus!
