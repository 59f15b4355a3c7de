//! A sink: its elements, its session and its channel.

use crate::error::SinkError;
use crate::link::LinkProcess;
use crate::link::UnlinkStep;
use crate::outbox::Handover;
use crate::outbox::Outbound;
use crate::outbox::Outbox;
use crate::protocol::Answer;
use crate::protocol::BindAnswer;
use crate::protocol::Message;
use crate::protocol::SessionId;
use crate::proxy::WebRTCSinkWeakProxy;
use crate::signal::Signal;
use tokio::sync::mpsc::UnboundedSender;
use vstd::prelude::*;

verus! {

/// A sink. `E` is an element and `P` a pad as the multimedia framework holds
/// them. What takes `&self` tells the peer nothing: it could not.
pub struct WebRTCSink<E, P> {
    pub queue: E,
    pub webrtcbin: E,
    pub webrtcbin_sink_pad: P,
    pub tee_src_pad: Option<P>,
    pub bind: BindAnswer,
    /// The channel to the WebSocket of the signalling server. An error ends the
    /// WebSocket.
    pub sender: Outbox,
    pub end_reason: Option<String>,
}

/// A sink that did not come about, because the channel did not take its first
/// message.
pub struct FailedStart {
    pub error: SinkError,
    pub sender: Outbox,
}

/// All that was handed to the channel of `handle` is that the session has started,
/// and `r` says whether the channel took it. No proxy was made.
pub open spec fn started(
    sender: Outbox,
    handle: UnboundedSender<Outbound>,
    bind: BindAnswer,
    r: Result<(), SinkError>,
) -> bool {
    let start = Message::Answer(Answer::StartSession(bind));
    &&& sender.handle() == handle
    &&& sender.proxies() == 0
    &&& sender.handed() == seq![crate::channel::entry(handle, start, r)]
    &&& crate::channel::is_delivery(start, r)
}

/// A sink in the making, of which the queue was made.
#[derive(Debug)]
pub struct MadeQueue<E> {
    pub queue: E,
}

/// A sink in the making, of which the queue and the WebRTC element were made.
#[derive(Debug)]
pub struct MadeElements<E> {
    pub queue: E,
    pub webrtcbin: E,
}

/// All parts of a sink.
#[derive(Debug)]
pub struct Parts<E, P> {
    pub queue: E,
    pub webrtcbin: E,
    pub webrtcbin_sink_pad: P,
}

impl<E> MadeQueue<E> {
    /// Takes what came of making the queue.
    pub fn try_new(queue: Result<E, String>) -> (r: Result<MadeQueue<E>, SinkError>)
        ensures
            match queue {
                Ok(queue) => r == Ok::<MadeQueue<E>, SinkError>(MadeQueue { queue }),
                Err(message) => r == Err::<MadeQueue<E>, SinkError>(SinkError::Refused(message)),
            },
    {
        match queue {
            Ok(queue) => Ok(MadeQueue { queue }),
            Err(message) => Err(SinkError::Refused(message)),
        }
    }

    /// Takes what came of making the WebRTC element on a thread of its own, which
    /// may have panicked.
    pub fn with_webrtcbin(self, webrtcbin: Result<Result<E, String>, String>) -> (r: Result<
        MadeElements<E>,
        SinkError,
    >)
        ensures
            match webrtcbin {
                Ok(Ok(webrtcbin)) => r == Ok::<MadeElements<E>, SinkError>(
                    (MadeElements { queue: self.queue, webrtcbin }),
                ),
                Ok(Err(message)) => r == Err::<MadeElements<E>, SinkError>(
                    SinkError::Refused(message),
                ),
                Err(message) => r == Err::<MadeElements<E>, SinkError>(
                    SinkError::BuildPanicked(message),
                ),
            },
    {
        match webrtcbin {
            Ok(Ok(webrtcbin)) => Ok(MadeElements { queue: self.queue, webrtcbin }),
            Ok(Err(message)) => Err(SinkError::Refused(message)),
            Err(message) => Err(SinkError::BuildPanicked(message)),
        }
    }
}

impl<E> MadeElements<E> {
    /// Takes what came of asking the WebRTC element for a sink pad.
    pub fn with_sink_pad<P>(self, pad: Option<P>) -> (r: Result<Parts<E, P>, SinkError>)
        ensures
            match pad {
                Some(pad) => r == Ok::<Parts<E, P>, SinkError>(
                    (Parts {
                        queue: self.queue,
                        webrtcbin: self.webrtcbin,
                        webrtcbin_sink_pad: pad,
                    }),
                ),
                None => r == Err::<Parts<E, P>, SinkError>(SinkError::NoSinkPad),
            },
    {
        match pad {
            Some(pad) => Ok(
                Parts { queue: self.queue, webrtcbin: self.webrtcbin, webrtcbin_sink_pad: pad },
            ),
            None => Err(SinkError::NoSinkPad),
        }
    }
}

impl<E, P> WebRTCSink<E, P> {
    /// All that was handed to the channel by the sink itself, the first first.
    pub open spec fn handed(self) -> Seq<Handover> {
        self.sender.handed()
    }

    /// Puts a sink together and tells the peer that its session has started, and
    /// nothing else. The sink is not linked yet, and has no proxy. There is no sink
    /// if the channel does not take the message.
    pub fn try_new(
        bind: BindAnswer,
        sender: UnboundedSender<Outbound>,
        parts: Parts<E, P>,
    ) -> (r: Result<WebRTCSink<E, P>, FailedStart>)
        ensures
            match r {
                Ok(sink) => {
                    &&& sink.queue == parts.queue
                    &&& sink.webrtcbin == parts.webrtcbin
                    &&& sink.webrtcbin_sink_pad == parts.webrtcbin_sink_pad
                    &&& sink.tee_src_pad is None
                    &&& sink.bind == bind
                    &&& sink.end_reason is None
                    &&& started(sink.sender, sender, bind, Ok(()))
                },
                Err(failed) => started(failed.sender, sender, bind, Err(failed.error)),
            },
    {
        let mut sender = Outbox::new(sender);
        match sender.send(Message::from(Answer::StartSession(bind))) {
            Ok(_) => Ok(
                WebRTCSink {
                    queue: parts.queue,
                    webrtcbin: parts.webrtcbin,
                    webrtcbin_sink_pad: parts.webrtcbin_sink_pad,
                    tee_src_pad: None,
                    bind,
                    sender,
                    end_reason: None,
                },
            ),
            Err(error) => Err(FailedStart { error, sender }),
        }
    }

    /// Starts linking the sink to a tee, over a pad of the tee. A sink is linked at
    /// most once: it has a pad from then on, however linking goes, and one that has
    /// a pad keeps it. The peer is told nothing, and no proxy is made.
    pub fn link(&mut self, tee_src_pad: P) -> (r: Result<LinkProcess, SinkError>)
        ensures
            match old(self).tee_src_pad {
                Some(_) => {
                    &&& r == Err::<LinkProcess, SinkError>(
                        SinkError::AlreadyLinked(old(self).bind.session_id),
                    )
                    &&& *final(self) == *old(self)
                },
                None => {
                    &&& r == Ok::<LinkProcess, SinkError>(
                        crate::link::process_after(Seq::empty()),
                    )
                    &&& *final(self) == (WebRTCSink {
                        tee_src_pad: Some(tee_src_pad),
                        ..*old(self)
                    })
                },
            },
            final(self).tee_src_pad is Some,
    {
        if self.tee_src_pad.is_some() {
            return Err(SinkError::AlreadyLinked(self.get_id()));
        }
        self.tee_src_pad = Some(tee_src_pad);
        Ok(LinkProcess::start())
    }

    /// The first step on the way out of a pipeline; none for a sink that has no
    /// pad of a tee.
    pub fn unlink(&self) -> (r: Option<UnlinkStep>)
        ensures
            r == match self.tee_src_pad {
                Some(_) => Some(crate::link::unlink_steps()[0]),
                None => None,
            },
    {
        match self.tee_src_pad {
            Some(_) => Some(UnlinkStep::BlockTeePad),
            None => None,
        }
    }

    /// A sink is known by its session.
    pub fn get_id(&self) -> (r: SessionId)
        ensures
            r == self.bind.session_id,
    {
        self.bind.session_id
    }

    /// A sink has no session description to show: peers connect over the
    /// signalling protocol.
    pub fn get_sdp(&self) -> (r: Result<String, SinkError>)
        ensures
            r == Err::<String, SinkError>(SinkError::SdpUnavailable),
    {
        Err(SinkError::SdpUnavailable)
    }

    /// There is nothing to start.
    pub fn start(&self) -> (r: Result<(), SinkError>)
        ensures
            r is Ok,
    {
        Ok(())
    }

    /// The sink as its callbacks see it. It does not keep the channel open.
    pub fn downgrade(&mut self) -> (r: WebRTCSinkWeakProxy)
        ensures
            final(self).sender.lends(old(self).sender),
            *final(self) == (WebRTCSink { sender: final(self).sender, ..*old(self) }),
            r.bind == old(self).bind,
            r.sender.is_new(),
            r.sender.origin() == old(self).sender.handle(),
            r.sender.generation() == 0,
    {
        WebRTCSinkWeakProxy { bind: self.bind, sender: self.sender.downgrade() }
    }

    /// The peer has sent a description: it becomes the remote one.
    pub fn handle_sdp<D>(&self, sdp: D) -> (r: Result<Signal<D>, SinkError>)
        ensures
            r == Ok::<Signal<D>, SinkError>(Signal::SetRemoteDescription(sdp)),
    {
        Ok(Signal::SetRemoteDescription(sdp))
    }

    /// The peer has sent a candidate: it is added.
    pub fn handle_ice<D>(&self, sdp_m_line_index: &u32, candidate: &str) -> (r: Result<
        Signal<D>,
        SinkError,
    >)
        ensures
            r matches Ok(signal) && signal.adds_candidate(*sdp_m_line_index, candidate@),
    {
        Ok(Signal::add_ice_candidate(sdp_m_line_index, candidate))
    }
}

/// To start a session puts no error on the channel.
pub proof fn law_a_start_is_a_message(
    sender: Outbox,
    handle: UnboundedSender<Outbound>,
    bind: BindAnswer,
    r: Result<(), SinkError>,
)
    requires
        started(sender, handle, bind, r),
    ensures
        crate::channel::only_messages(sender.handed()),
        sender.handed().len() == 1,
        sender.handed()[0].value matches Ok(message) && message.bind() == bind,
{
}

/// The first and only thing that a new sink hands over is the start of its session,
/// whatever the session is, and the outcome tells whether the channel took it.
pub proof fn law_a_sink_starts_with_its_start(
    sender: Outbox,
    handle: UnboundedSender<Outbound>,
    bind: BindAnswer,
    r: Result<(), SinkError>,
)
    requires
        started(sender, handle, bind, r),
    ensures
        sender.handle() == handle,
        sender.proxies() == 0,
        sender.handed().len() == 1,
        sender.handed()[0].through == handle,
        sender.handed()[0].value == Ok::<Message, SinkError>(
            Message::Answer(Answer::StartSession(bind)),
        ),
        sender.handed()[0].taken <==> r is Ok,
        r matches Err(error) ==> error == SinkError::Undelivered(
            Message::Answer(Answer::StartSession(bind)),
        ),
{
}

/// What a sink has handed over is what is on the list of its outbox.
pub proof fn law_the_list_of_a_sink<E, P>(sink: WebRTCSink<E, P>)
    ensures
        sink.handed() == sink.sender.handed(),
{
}

} // verus!
