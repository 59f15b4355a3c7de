# webrtc_sink

The WebRTC sink of a camera server, with its rules verified by Verus. A sink is
linked into a pipeline, negotiates a session with one peer over a signalling
channel, and asks the peer to end the session when a connection is lost.

- `src/sink.rs`: the sink, from its parts to its links and its proxies
- `src/proxy.rs`: what a sink does when its WebRTC element reports something
- `src/link.rs`: the way into a pipeline, the way back when it fails, and the way
  out
- `src/sdp.rs`: the customization of session descriptions, on `webrtc_sdp`
- `src/offer.rs`: offers, from the reply that holds one to the message
- `src/outbox.rs`: the handles on the channel to the WebSocket, on `tokio`, and the
  lists of what is handed over through them
- `src/channel.rs`: how messages go over the channel
- `src/protocol.rs`: the messages, and the text of identifiers
- `src/states.rs`, `src/signal.rs`, `src/elements.rs`, `src/error.rs`: states,
  signals, element setup and errors
- `app/`: the sink on GStreamer, which performs what the library decides
