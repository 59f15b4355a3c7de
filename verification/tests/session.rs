use tokio::sync::mpsc::unbounded_channel;
use tokio::sync::mpsc::UnboundedReceiver;
use tokio::sync::mpsc::UnboundedSender;
use webrtc_sink::channel::delivery;
use webrtc_sink::elements::child_property;
use webrtc_sink::elements::queue_plan;
use webrtc_sink::elements::sink_pad_template;
use webrtc_sink::elements::transceiver_plan;
use webrtc_sink::elements::webrtcbin_plan;
use webrtc_sink::elements::ElementPlan;
use webrtc_sink::elements::Property;
use webrtc_sink::elements::PropertyValue;
use webrtc_sink::elements::TransceiverDirection;
use webrtc_sink::error::SinkError;
use webrtc_sink::link::LinkProcess;
use webrtc_sink::link::LinkStep;
use webrtc_sink::link::UnlinkStep;
use webrtc_sink::offer::offer_of_reply;
use webrtc_sink::offer::OfferFailure;
use webrtc_sink::outbox::Outbound;
use webrtc_sink::outbox::Outbox;
use webrtc_sink::protocol::Answer;
use webrtc_sink::protocol::BindAnswer;
use webrtc_sink::protocol::EndSessionQuestion;
use webrtc_sink::protocol::IceNegotiation;
use webrtc_sink::protocol::MediaNegotiation;
use webrtc_sink::protocol::Message;
use webrtc_sink::protocol::Negotiation;
use webrtc_sink::protocol::PeerId;
use webrtc_sink::protocol::Question;
use webrtc_sink::protocol::RTCIceCandidateInit;
use webrtc_sink::protocol::RTCSessionDescription;
use webrtc_sink::protocol::Sdp;
use webrtc_sink::protocol::SessionId;
use webrtc_sink::proxy::KeyUnitRequest;
use webrtc_sink::proxy::WebRTCSinkWeakProxy;
use webrtc_sink::proxy::NEGOTIATION_SLEEP_SECONDS;
use webrtc_sink::proxy::NEGOTIATION_WAIT_SECONDS;
use webrtc_sink::signal::Signal;
use webrtc_sink::sink::MadeElements;
use webrtc_sink::sink::MadeQueue;
use webrtc_sink::sink::Parts;
use webrtc_sink::sink::WebRTCSink;
use webrtc_sink::states::DtlsTransportState;
use webrtc_sink::states::IceConnectionState;
use webrtc_sink::states::IceGatheringState;
use webrtc_sink::states::PeerConnectionState;

const BIND: BindAnswer = BindAnswer {
    consumer_id: PeerId { bits: 1 },
    producer_id: PeerId { bits: 2 },
    session_id: SessionId { bits: 0x936da01f_9abd_4d9d_80c7_02af85c822a8 },
};

const SESSION_TEXT: &str = "936da01f-9abd-4d9d-80c7-02af85c822a8";

const SDP: &str = "v=0\r\no=- 1 2 IN IP4 127.0.0.1\r\ns=-\r\nc=IN IP4 0.0.0.0\r\nt=0 0\r\n\
    m=video 9 UDP/TLS/RTP/SAVPF 96\r\na=sendrecv\r\na=rtpmap:96 H264/90000\r\n\
    a=fmtp:96 profile-level-id=64001f\r\n";

const CUSTOMIZED_SDP: &str = "v=0\r\no=- 1 2 IN IP4 127.0.0.1\r\ns=-\r\nc=IN IP4 0.0.0.0\r\nt=0 0\r\n\
    m=video 9 UDP/TLS/RTP/SAVPF 96\r\na=rtpmap:96 H264/90000\r\n\
    a=fmtp:96 profile-level-id=42e01f;level-asymmetry-allowed=1\r\n";

fn parts() -> Parts<&'static str, u8> {
    Parts { queue: "queue", webrtcbin: "webrtcbin", webrtcbin_sink_pad: 7 }
}

fn new_sink() -> (WebRTCSink<&'static str, u8>, UnboundedReceiver<Outbound>) {
    let (sender, mut receiver) = unbounded_channel();
    let sink = WebRTCSink::try_new(BIND, sender, parts()).ok().unwrap();
    assert_eq!(receive(&mut receiver), Some(Message::Answer(Answer::StartSession(BIND))));
    (sink, receiver)
}

fn receive(receiver: &mut UnboundedReceiver<Outbound>) -> Option<Message> {
    receiver.try_recv().ok().map(|outbound| outbound.unwrap())
}

fn end_session(reason: &str) -> Message {
    Message::Question(Question::EndSession(EndSessionQuestion {
        bind: BIND,
        reason: reason.to_string(),
    }))
}

fn orphan() -> WebRTCSinkWeakProxy {
    let (mut sink, _receiver) = new_sink();
    sink.downgrade()
}

#[test]
fn new_sink_is_unlinked_and_starts_its_session() {
    let (sink, mut receiver) = new_sink();
    assert_eq!(sink.queue, "queue");
    assert_eq!(sink.webrtcbin, "webrtcbin");
    assert_eq!(sink.webrtcbin_sink_pad, 7);
    assert_eq!(sink.tee_src_pad, None);
    assert_eq!(sink.bind, BIND);
    assert_eq!(sink.end_reason, None);
    assert_eq!(receive(&mut receiver), None);
}

#[test]
fn no_sink_without_a_channel() {
    let (sender, receiver) = unbounded_channel();
    drop(receiver);
    let error = WebRTCSink::try_new(BIND, sender, parts()).err().unwrap().error;
    assert_eq!(error.message(), "channel closed");
    match error {
        SinkError::Undelivered(message) => {
            assert_eq!(message, Message::Answer(Answer::StartSession(BIND)))
        }
        other => panic!("{other:?}"),
    }
}

#[test]
fn parts_are_made_one_after_the_other() {
    let made = MadeQueue::try_new(Ok("queue")).unwrap();
    let made = made.with_webrtcbin(Ok(Ok("webrtcbin"))).unwrap();
    let made = made.with_sink_pad(Some(7)).unwrap();
    assert_eq!(made.queue, "queue");
    assert_eq!(made.webrtcbin, "webrtcbin");
    assert_eq!(made.webrtcbin_sink_pad, 7);
}

#[test]
fn parts_that_cannot_be_made_are_errors() {
    let error = MadeQueue::<u8>::try_new(Err("no queue".to_string())).unwrap_err();
    assert!(matches!(&error, SinkError::Refused(_)));
    assert_eq!(error.message(), "no queue");

    let error = MadeQueue { queue: 1 }.with_webrtcbin(Ok(Err("no bin".to_string()))).unwrap_err();
    assert!(matches!(&error, SinkError::Refused(_)));
    assert_eq!(error.message(), "no bin");

    let error = MadeQueue { queue: 1 }.with_webrtcbin(Err("None".to_string())).unwrap_err();
    assert!(matches!(&error, SinkError::BuildPanicked(_)));
    assert_eq!(error.message(), "None");

    let error = MadeElements { queue: 1, webrtcbin: 2 }.with_sink_pad::<u8>(None).unwrap_err();
    assert!(matches!(&error, SinkError::NoSinkPad));
    assert_eq!(error.message(), "Failed requesting sink pad for webrtcsink");
}

#[test]
fn a_sink_is_linked_once() {
    let (mut sink, _receiver) = new_sink();
    assert_eq!(sink.link(3).unwrap(), LinkProcess::Linking(LinkStep::BlockTeePad));
    assert_eq!(sink.tee_src_pad, Some(3));
    let error = sink.link(4).unwrap_err();
    assert_eq!(sink.tee_src_pad, Some(3));
    assert!(matches!(&error, SinkError::AlreadyLinked(id) if *id == BIND.session_id));
    assert_eq!(
        error.message(),
        format!("Tee's src pad from WebRTCBin {SESSION_TEXT} has already been configured")
    );
}

#[test]
fn only_a_linked_sink_is_unlinked() {
    let (mut sink, _receiver) = new_sink();
    assert_eq!(sink.unlink(), None);
    assert!(sink.link(3).is_ok());
    assert_eq!(sink.unlink(), Some(UnlinkStep::BlockTeePad));
}

#[test]
fn plain_answers_of_a_sink() {
    let (sink, _receiver) = new_sink();
    assert_eq!(sink.get_id(), BIND.session_id);
    assert!(sink.start().is_ok());
    let error = sink.get_sdp().unwrap_err();
    assert!(matches!(&error, SinkError::SdpUnavailable));
    assert_eq!(
        error.message(),
        "Not available: WebRTC Sink should only be connected by means of its Signalling protocol."
    );
}

#[test]
fn what_the_peer_sends_is_handed_on() {
    let (sink, _receiver) = new_sink();
    let signal = sink.handle_sdp("description").unwrap();
    assert_eq!(signal, Signal::SetRemoteDescription("description"));
    assert_eq!(signal.name(), "set-remote-description");
    let signal: Signal<()> = sink.handle_ice(&2, "candidate:1").unwrap();
    assert_eq!(
        signal,
        Signal::AddIceCandidate { sdp_m_line_index: 2, candidate: "candidate:1".to_string() }
    );
    assert_eq!(signal.name(), "add-ice-candidate");
}

#[test]
fn negotiation_starts_with_an_offer() {
    let (mut sink, _receiver) = new_sink();
    let signal: Signal<()> = sink.downgrade().on_negotiation_needed().unwrap();
    assert_eq!(signal, Signal::CreateOffer);
    assert_eq!(signal.name(), "create-offer");
    assert_eq!(Signal::SetLocalDescription(()).name(), "set-local-description");
}

#[test]
fn offers_of_replies() {
    assert_eq!(offer_of_reply(Ok(Some(Ok(Some(5))))), Ok(5));
    let failures = [
        (offer_of_reply::<u8>(Ok(None)), OfferFailure::NoResponse, "Offer creation future got no response"),
        (offer_of_reply(Ok(Some(Ok(None)))), OfferFailure::NoOffer, "Response got no \"offer\""),
        (
            offer_of_reply(Ok(Some(Err("type".to_string())))),
            OfferFailure::Refused("type".to_string()),
            "Failed to send SDP offer: type",
        ),
        (
            offer_of_reply(Err("Expired".to_string())),
            OfferFailure::Refused("Expired".to_string()),
            "Failed to send SDP offer: Expired",
        ),
    ];
    for (result, failure, message) in failures {
        assert_eq!(failure.message(), message);
        assert_eq!(result, Err(failure));
    }
}

#[test]
fn offer_is_customized_and_sent() {
    let (mut sink, mut receiver) = new_sink();
    let mut proxy = sink.downgrade();
    let text = proxy.on_offer_created(Ok(SDP.to_string())).unwrap();
    assert_eq!(text, CUSTOMIZED_SDP);
    let prepared = proxy.on_offer_rebuilt(Ok(("rebuilt", Some(text)))).unwrap();
    let (signal, offer) = prepared.signal();
    assert_eq!(signal, Signal::SetLocalDescription("rebuilt"));
    assert_eq!(receive(&mut receiver), None);
    assert!(proxy.send_offer(offer).is_ok());
    assert_eq!(
        receive(&mut receiver),
        Some(Message::Negotiation(Negotiation::MediaNegotiation(MediaNegotiation {
            bind: BIND,
            sdp: RTCSessionDescription::Offer(Sdp { sdp: CUSTOMIZED_SDP.to_string() }),
        })))
    );
}

#[test]
fn answer_is_customized_and_sent() {
    let (mut sink, mut receiver) = new_sink();
    let mut proxy = sink.downgrade();
    let text = proxy.on_answer_created(Ok(SDP.to_string())).unwrap();
    assert_eq!(text, CUSTOMIZED_SDP);
    assert!(proxy.on_answer_rebuilt(Ok(Some(text))).is_ok());
    assert_eq!(
        receive(&mut receiver),
        Some(Message::Negotiation(Negotiation::MediaNegotiation(MediaNegotiation {
            bind: BIND,
            sdp: RTCSessionDescription::Answer(Sdp { sdp: CUSTOMIZED_SDP.to_string() }),
        })))
    );
}

#[test]
fn descriptions_that_fail_are_not_sent() {
    let (mut sink, mut receiver) = new_sink();
    let mut proxy = sink.downgrade();
    let error = proxy.on_offer_created(Err("no text".to_string())).unwrap_err();
    assert_eq!(error.message(), "no text");
    let error = proxy.on_answer_created(Err("no text".to_string())).unwrap_err();
    assert_eq!(error.message(), "no text");
    let error = proxy.on_offer_created(Ok("hello".to_string())).unwrap_err();
    assert!(matches!(error, SinkError::InvalidSdp(_)));
    let error = proxy.on_answer_created(Ok("hello".to_string())).unwrap_err();
    assert!(matches!(error, SinkError::InvalidSdp(_)));
    let error = proxy.on_offer_rebuilt(Ok((1, None))).unwrap_err();
    assert!(matches!(&error, SinkError::UnreadableSdp));
    assert_eq!(error.message(), "Failed reading the received SDP");
    let error = proxy.on_offer_rebuilt::<u8>(Err("bad".to_string())).unwrap_err();
    assert_eq!(error.message(), "bad");
    let error = proxy.on_answer_rebuilt(Ok(None)).unwrap_err();
    assert!(matches!(&error, SinkError::UnreadableSdp));
    let error = proxy.on_answer_rebuilt(Err("bad".to_string())).unwrap_err();
    assert_eq!(error.message(), "bad");
    assert_eq!(receive(&mut receiver), None);
}

#[test]
fn an_answer_that_is_not_taken_is_told() {
    let (mut sink, receiver) = new_sink();
    drop(receiver);
    let error = sink.downgrade().on_answer_rebuilt(Ok(Some("sdp".to_string()))).unwrap_err();
    assert_eq!(error.message(), "Failed to send SDP answer");
    match error {
        SinkError::AnswerUndelivered(Message::Negotiation(Negotiation::MediaNegotiation(media))) => {
            assert_eq!(media.bind, BIND)
        }
        other => panic!("{other:?}"),
    }
}

#[test]
fn candidate_is_sent() {
    let (mut sink, mut receiver) = new_sink();
    assert!(sink.downgrade().on_ice_candidate(&3, "candidate:9").is_ok());
    assert_eq!(
        receive(&mut receiver),
        Some(Message::Negotiation(Negotiation::IceNegotiation(IceNegotiation {
            bind: BIND,
            ice: RTCIceCandidateInit {
                candidate: Some("candidate:9".to_string()),
                sdp_mid: None,
                sdp_m_line_index: Some(3),
                username_fragment: None,
            },
        })))
    );
}

#[test]
fn candidate_that_is_not_taken_is_an_error() {
    let (mut sink, receiver) = new_sink();
    drop(receiver);
    let error = sink.downgrade().on_ice_candidate(&3, "candidate:9").unwrap_err();
    assert!(matches!(error, SinkError::Undelivered(Message::Negotiation(_))));
}

#[test]
fn nothing_is_sent_after_the_sink_is_gone() {
    let mut proxy = orphan();
    let offer = proxy.on_offer_rebuilt(Ok((1, Some("sdp".to_string())))).unwrap().signal().1;
    let results = [
        proxy.terminate("over".to_string()),
        proxy.on_ice_candidate(&0, "candidate"),
        proxy.on_answer_rebuilt(Ok(Some("sdp".to_string()))),
        proxy.send_offer(offer),
        proxy.on_negotiation_deadline(false),
    ];
    for result in results {
        let error = result.unwrap_err();
        assert!(matches!(&error, SinkError::SenderUnavailable));
        assert_eq!(error.message(), "Failed accessing MPSC Sender");
    }
}

#[test]
fn a_closed_channel_needs_no_end() {
    let (mut sink, receiver) = new_sink();
    drop(receiver);
    assert!(sink.downgrade().terminate("over".to_string()).is_ok());
}

#[test]
fn termination_asks_the_peer() {
    let (mut sink, mut receiver) = new_sink();
    assert_eq!(sink.downgrade().end_question("over".to_string()), end_session("over"));
    assert_eq!(receive(&mut receiver), None);
    assert!(sink.downgrade().terminate("over".to_string()).is_ok());
    assert_eq!(receive(&mut receiver), Some(end_session("over")));
    assert_eq!(receive(&mut receiver), None);
}

#[test]
fn a_copy_of_a_proxy_sends_to_the_same_channel() {
    let (mut sink, mut receiver) = new_sink();
    let mut copy = sink.downgrade().duplicate();
    assert_eq!(copy.bind, BIND);
    assert!(copy.terminate("over".to_string()).is_ok());
    assert_eq!(receive(&mut receiver), Some(end_session("over")));
}

#[test]
fn negotiation_has_ten_seconds() {
    assert_eq!(NEGOTIATION_SLEEP_SECONDS, 9);
    assert_eq!(NEGOTIATION_WAIT_SECONDS, 1);
    let (mut sink, mut receiver) = new_sink();
    assert!(sink.downgrade().on_negotiation_deadline(true).is_ok());
    assert_eq!(receive(&mut receiver), None);
    assert!(sink.downgrade().on_negotiation_deadline(false).is_ok());
    assert_eq!(receive(&mut receiver), Some(end_session("WebRTC negotiation timeout")));
}

#[test]
fn dtls_states_that_end_a_session() {
    let (mut sink, mut receiver) = new_sink();
    let states = [
        (DtlsTransportState::New, None),
        (DtlsTransportState::Closed, Some("DTLS closed with: Closed")),
        (DtlsTransportState::Failed, Some("DTLS closed with: Failed")),
        (DtlsTransportState::Connecting, None),
        (DtlsTransportState::Connected, None),
        (DtlsTransportState::Unknown, None),
    ];
    for (state, reason) in states {
        assert!(sink.downgrade().on_dtls_transport_state_change(&state).is_ok());
        assert_eq!(receive(&mut receiver), reason.map(end_session));
    }
}

#[test]
fn ice_states_that_end_a_session() {
    let (mut sink, mut receiver) = new_sink();
    let states = [
        (IceConnectionState::New, None),
        (IceConnectionState::Checking, None),
        (IceConnectionState::Connected, None),
        (IceConnectionState::Completed, None),
        (IceConnectionState::Failed, Some("ICE closed with: Failed")),
        (IceConnectionState::Disconnected, Some("ICE closed with: Disconnected")),
        (IceConnectionState::Closed, Some("ICE closed with: Closed")),
        (IceConnectionState::Unknown, None),
    ];
    for (state, reason) in states {
        let request = sink.downgrade().on_ice_connection_state_change(&state).unwrap();
        let expected = if state == IceConnectionState::Completed {
            Some(KeyUnitRequest { all_headers: true })
        } else {
            None
        };
        assert_eq!(request, expected);
        assert_eq!(receive(&mut receiver), reason.map(end_session));
    }
    let error = orphan().on_ice_connection_state_change(&IceConnectionState::Failed).unwrap_err();
    assert!(matches!(error, SinkError::SenderUnavailable));
}

#[test]
fn peer_states_that_end_a_session() {
    let (mut sink, mut receiver) = new_sink();
    let states = [
        (PeerConnectionState::New, None, false),
        (PeerConnectionState::Connecting, None, false),
        (PeerConnectionState::Connected, None, true),
        (PeerConnectionState::Disconnected, Some("Connectiong closed with: Disconnected"), false),
        (PeerConnectionState::Failed, Some("Connectiong closed with: Failed"), false),
        (PeerConnectionState::Closed, Some("Connectiong closed with: Closed"), false),
        (PeerConnectionState::Unknown, None, false),
    ];
    for (state, reason, completes) in states {
        assert!(sink.downgrade().on_connection_state_change(&state).is_ok());
        assert_eq!(receive(&mut receiver), reason.map(end_session));
        assert_eq!(state.completes_negotiation(), completes);
    }
}

#[test]
fn gathering_states_change_nothing() {
    let (mut sink, mut receiver) = new_sink();
    for state in [
        IceGatheringState::New,
        IceGatheringState::Gathering,
        IceGatheringState::Complete,
        IceGatheringState::Unknown,
    ] {
        assert!(sink.downgrade().on_ice_gathering_state_change(&state).is_ok());
        assert_eq!(receive(&mut receiver), None);
    }
}

#[test]
fn delivery_by_the_answer_of_the_channel() {
    assert!(delivery(Ok(())).is_ok());
    assert!(matches!(delivery(Err(Ok(end_session("x")))), Err(SinkError::Undelivered(m)) if m == end_session("x")));
    assert!(matches!(delivery(Err(Err(SinkError::NoSinkPad))), Err(SinkError::NoSinkPad)));
}

#[test]
fn messages_arrive_in_order() {
    let (sender, mut receiver): (UnboundedSender<Outbound>, _) = unbounded_channel();
    let mut outbox = Outbox::new(sender);
    assert!(outbox.send(end_session("first")).is_ok());
    assert!(outbox.downgrade().send(end_session("second")).is_ok());
    assert_eq!(receive(&mut receiver), Some(end_session("first")));
    assert_eq!(receive(&mut receiver), Some(end_session("second")));
    assert_eq!(receive(&mut receiver), None);
}

#[test]
fn a_weak_outbox_does_not_keep_the_channel_open() {
    let (sender, mut receiver): (UnboundedSender<Outbound>, _) = unbounded_channel();
    let mut outbox = Outbox::new(sender);
    let mut weak = outbox.downgrade();
    let mut copy = weak.duplicate();
    assert!(weak.send_unless_closed(end_session("first")).is_ok());
    assert_eq!(receive(&mut receiver), Some(end_session("first")));
    drop(outbox);
    assert!(matches!(weak.send(end_session("second")), Err(SinkError::SenderUnavailable)));
    assert!(matches!(
        copy.send_unless_closed(end_session("third")),
        Err(SinkError::SenderUnavailable)
    ));
    assert!(receiver.is_closed());
}

#[test]
fn an_error_ends_the_websocket() {
    let (mut sink, mut receiver) = new_sink();
    assert!(sink.sender.end(SinkError::NoSinkPad).is_ok());
    assert!(matches!(receiver.try_recv(), Ok(Err(SinkError::NoSinkPad))));
    drop(receiver);
    assert!(matches!(sink.sender.end(SinkError::NoSinkPad), Err(SinkError::NoSinkPad)));
}

#[test]
fn a_key_unit_is_requested_on_the_first_pad() {
    let request = KeyUnitRequest { all_headers: true };
    assert_eq!(request.receiver(0), None);
    assert_eq!(request.receiver(1), Some(0));
    assert_eq!(request.receiver(3), Some(0));
}

#[test]
fn a_weak_outbox_on_a_closed_channel() {
    let (sender, receiver): (UnboundedSender<Outbound>, _) = unbounded_channel();
    let mut outbox = Outbox::new(sender);
    drop(receiver);
    let mut weak = outbox.downgrade();
    assert!(matches!(weak.send(end_session("x")), Err(SinkError::Undelivered(m)) if m == end_session("x")));
    assert!(weak.send_unless_closed(end_session("x")).is_ok());
}

#[test]
fn linking_and_what_the_peer_sends_tell_the_peer_nothing() {
    let (mut sink, mut receiver) = new_sink();
    assert!(sink.link(3).is_ok());
    assert!(sink.link(4).is_err());
    assert_eq!(sink.unlink(), Some(UnlinkStep::BlockTeePad));
    assert!(sink.handle_sdp("description").is_ok());
    assert!(sink.handle_ice::<()>(&1, "candidate:1 1 UDP 2122252543 10.0.0.1 5000 typ host").is_ok());
    assert!(sink.downgrade().on_negotiation_needed::<()>().is_ok());
    assert!(sink.downgrade().on_offer_created(Ok(SDP.to_string())).is_ok());
    assert!(sink.downgrade().on_answer_created(Ok(SDP.to_string())).is_ok());
    assert_eq!(receive(&mut receiver), None);
}

fn text(name: &'static str, value: &str) -> Property {
    Property { name, value: PropertyValue::Text(value.to_string()) }
}

#[test]
fn plan_of_the_queue() {
    assert_eq!(
        queue_plan(),
        ElementPlan {
            factory: "queue",
            properties: vec![
                text("leaky", "downstream"),
                Property { name: "silent", value: PropertyValue::Flag(true) },
                Property { name: "flush-on-eos", value: PropertyValue::Flag(true) },
                Property { name: "max-size-buffers", value: PropertyValue::Number(0) },
            ],
        }
    );
}

#[test]
fn plan_of_the_webrtc_element() {
    assert_eq!(
        webrtcbin_plan(&BIND.session_id, "stun://0.0.0.0:3478", "turn://localhost:3478"),
        ElementPlan {
            factory: "webrtcbin",
            properties: vec![
                text("name", &format!("webrtcbin-{SESSION_TEXT}")),
                Property { name: "async-handling", value: PropertyValue::Flag(true) },
                Property { name: "latency", value: PropertyValue::Number(0) },
                text("stun-server", "stun://0.0.0.0:3478"),
                text("turn-server", "turn://localhost:3478"),
            ],
        }
    );
    assert_eq!(sink_pad_template(), "sink_%u");
}

#[test]
fn children_that_are_rtp_bins() {
    let clock = Some(text("ntp-time-source", "clock-time"));
    assert_eq!(child_property("rtpbin"), clock);
    assert_eq!(child_property("rtpbin0"), clock);
    assert_eq!(child_property("rtpbi"), None);
    assert_eq!(child_property("nicesink"), None);
    assert_eq!(child_property("xrtpbin"), None);
    assert_eq!(child_property(""), None);
}

#[test]
fn plan_of_the_transceiver() {
    let plan = transceiver_plan();
    assert_eq!(plan.direction, TransceiverDirection::SendOnly);
    assert!(!plan.do_nack);
}

#[test]
fn text_of_identifiers() {
    assert_eq!(BIND.session_id.text(), SESSION_TEXT);
    assert_eq!(SessionId { bits: 0 }.text(), "00000000-0000-0000-0000-000000000000");
    assert_eq!(SessionId { bits: u128::MAX }.text(), "ffffffff-ffff-ffff-ffff-ffffffffffff");
    assert_ne!(SessionId { bits: 1 }.text(), SessionId { bits: 1 << 127 }.text());
}
