use webrtc_sink::error::SinkError;
use webrtc_sink::sdp::customize_sdp;
use webrtc_sink::sdp::customize_session;
use webrtc_sink::sdp::CONSTRAINED_BASELINE_LEVEL_ID;

const HEAD: &str = "v=0\r\n\
    o=- 4611731400430051336 2 IN IP4 127.0.0.1\r\n\
    s=-\r\n\
    c=IN IP4 0.0.0.0\r\n\
    t=0 0\r\n";

fn with_media(media: &str) -> String {
    format!("{HEAD}{media}")
}

fn customized(media: &str) -> String {
    customize_sdp(&with_media(media)).unwrap()
}

#[test]
fn profile_is_customized_and_direction_removed() {
    let text = customized(
        "m=video 9 UDP/TLS/RTP/SAVPF 96\r\n\
         a=sendrecv\r\n\
         a=rtpmap:96 H264/90000\r\n\
         a=fmtp:96 profile-level-id=64001f;packetization-mode=1\r\n\
         a=rtcp-mux\r\n",
    );
    let expected = with_media(
        "m=video 9 UDP/TLS/RTP/SAVPF 96\r\n\
         a=rtpmap:96 H264/90000\r\n\
         a=rtcp-mux\r\n\
         a=fmtp:96 profile-level-id=42e01f;level-asymmetry-allowed=1;packetization-mode=1\r\n",
    );
    assert_eq!(text, expected);
}

#[test]
fn every_unwanted_direction_is_removed() {
    for direction in ["recvonly", "sendrecv", "inactive"] {
        let text = customized(&format!(
            "m=video 9 UDP/TLS/RTP/SAVPF 96\r\na={direction}\r\na=rtpmap:96 H264/90000\r\n"
        ));
        let expected =
            with_media("m=video 9 UDP/TLS/RTP/SAVPF 96\r\na=rtpmap:96 H264/90000\r\n");
        assert_eq!(text, expected);
    }
}

#[test]
fn sendonly_is_kept() {
    let media = "m=video 9 UDP/TLS/RTP/SAVPF 96\r\na=sendonly\r\na=rtpmap:96 H264/90000\r\n";
    assert_eq!(customized(media), with_media(media));
}

#[test]
fn every_section_is_customized() {
    let text = customized(
        "m=video 9 UDP/TLS/RTP/SAVPF 96\r\n\
         a=recvonly\r\n\
         a=rtpmap:96 H264/90000\r\n\
         a=fmtp:96 packetization-mode=1\r\n\
         m=video 9 UDP/TLS/RTP/SAVPF 97\r\n\
         a=inactive\r\n\
         a=rtpmap:97 H264/90000\r\n\
         a=fmtp:97 profile-level-id=64001f\r\n",
    );
    let expected = with_media(
        "m=video 9 UDP/TLS/RTP/SAVPF 96\r\n\
         a=rtpmap:96 H264/90000\r\n\
         a=fmtp:96 profile-level-id=42e01f;level-asymmetry-allowed=1;packetization-mode=1\r\n\
         m=video 9 UDP/TLS/RTP/SAVPF 97\r\n\
         a=rtpmap:97 H264/90000\r\n\
         a=fmtp:97 profile-level-id=42e01f;level-asymmetry-allowed=1\r\n",
    );
    assert_eq!(text, expected);
}

#[test]
fn last_format_parameters_are_announced() {
    let text = customized(
        "m=video 9 UDP/TLS/RTP/SAVPF 96 97\r\n\
         a=rtpmap:96 H264/90000\r\n\
         a=rtpmap:97 H264/90000\r\n\
         a=fmtp:96 profile-level-id=64001f;packetization-mode=1\r\n\
         a=fmtp:97 profile-level-id=4d001f;max-fs=99\r\n",
    );
    let expected = with_media(
        "m=video 9 UDP/TLS/RTP/SAVPF 96 97\r\n\
         a=rtpmap:96 H264/90000\r\n\
         a=rtpmap:97 H264/90000\r\n\
         a=fmtp:97 profile-level-id=42e01f;level-asymmetry-allowed=1;max-fs=99\r\n",
    );
    assert_eq!(text, expected);
}

#[test]
fn other_format_parameters_survive() {
    let text = customized(
        "m=audio 9 UDP/TLS/RTP/SAVPF 109\r\n\
         a=rtpmap:109 opus/48000/2\r\n\
         a=fmtp:109 maxplaybackrate=44100;stereo=1;useinbandfec=1\r\n",
    );
    let expected = with_media(
        "m=audio 9 UDP/TLS/RTP/SAVPF 109\r\n\
         a=rtpmap:109 opus/48000/2\r\n\
         a=fmtp:109 profile-level-id=42e01f;level-asymmetry-allowed=1;maxplaybackrate=44100;stereo=1;useinbandfec=1\r\n",
    );
    assert_eq!(text, expected);
}

#[test]
fn retransmission_parameters_survive() {
    let media = "m=video 9 UDP/TLS/RTP/SAVPF 97 98\r\n\
         a=rtpmap:97 H264/90000\r\n\
         a=rtpmap:98 rtx/90000\r\n\
         a=fmtp:98 apt=97;rtx-time=3000\r\n";
    assert_eq!(customized(media), with_media(media));
}

#[test]
fn no_media_is_left_alone() {
    assert_eq!(customize_sdp(HEAD).unwrap(), HEAD);
}

#[test]
fn customizing_again_changes_nothing() {
    let once = customized(
        "m=video 9 UDP/TLS/RTP/SAVPF 96 97\r\n\
         a=sendrecv\r\n\
         a=fmtp:96 profile-level-id=64001f\r\n\
         a=rtpmap:96 H264/90000\r\n\
         a=rtpmap:97 H264/90000\r\n\
         a=fmtp:97 profile-level-id=4d001f\r\n\
         a=rtcp-mux\r\n",
    );
    assert_eq!(customize_sdp(&once).unwrap(), once);
}

#[test]
fn a_text_that_is_no_description_is_refused() {
    match customize_sdp("hello") {
        Err(SinkError::InvalidSdp(message)) => assert!(!message.is_empty()),
        other => panic!("{other:?}"),
    }
}

#[test]
fn the_message_of_the_parser_is_kept() {
    let text = "v=0\r\no=- 0 0 IN IP4 127.0.0.1\r\ns=-\r\nc=IN IP4 0.0.0.0\r\n\
        m=video 9 UDP/TLS/RTP/SAVPF 96\r\n";
    let error = customize_sdp(text).unwrap_err();
    let expected = webrtc_sdp::parse_sdp(text, false).unwrap_err().to_string();
    assert_eq!(error.message(), expected);
    assert!(matches!(error, SinkError::InvalidSdp(_)));
}

#[test]
fn a_parsed_session_is_customized_in_place() {
    let text = with_media(
        "m=video 9 UDP/TLS/RTP/SAVPF 96\r\n\
         a=inactive\r\n\
         a=rtpmap:96 H264/90000\r\n\
         a=fmtp:96 profile-level-id=64001f\r\n",
    );
    let mut session = webrtc_sdp::parse_sdp(&text, false).unwrap();
    assert!(customize_session(&mut session).is_ok());
    assert_eq!(session.media.len(), 1);
    assert_eq!(session.media[0].get_attributes().len(), 2);
    match session.media[0].get_attributes().last() {
        Some(webrtc_sdp::attribute_type::SdpAttribute::Fmtp(fmtp)) => {
            assert_eq!(fmtp.payload_type, 96);
            assert_eq!(fmtp.parameters.profile_level_id, CONSTRAINED_BASELINE_LEVEL_ID);
            assert!(fmtp.parameters.level_asymmetry_allowed);
        }
        _ => panic!("no format parameters"),
    }
}

#[test]
fn the_announced_profile_is_constrained_baseline() {
    assert_eq!(CONSTRAINED_BASELINE_LEVEL_ID, 0x42e01f);
}
