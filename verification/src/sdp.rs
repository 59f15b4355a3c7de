//! Customization of session descriptions.
//!
//! A description is parsed and written by `webrtc_sdp`. In between, the
//! attributes of its media sections are edited: a section keeps no direction
//! that a sending sink cannot serve, and announces a profile that every browser
//! accepts.

use crate::error::SinkError;
use vstd::prelude::*;
use webrtc_sdp::attribute_type::RtxFmtpParameters;
use webrtc_sdp::attribute_type::SdpAttribute;
use webrtc_sdp::attribute_type::SdpAttributeFmtp;
use webrtc_sdp::attribute_type::SdpAttributeFmtpParameters;
use webrtc_sdp::attribute_type::SdpAttributeType;
use webrtc_sdp::SdpSession;

verus! {

/// The H.264 profile and level that is announced: constrained baseline.
pub const CONSTRAINED_BASELINE_LEVEL_ID: u32 = 0x42e01f;

/// `webrtc_sdp::SdpSession`, a parsed session description.
#[verifier::external_type_specification]
#[verifier::external_body]
pub struct ExSdpSession(webrtc_sdp::SdpSession);

/// A format parameter attribute: the payload type and every parameter.
pub struct Fmtp {
    pub payload_type: u8,
    pub packetization_mode: u32,
    pub level_asymmetry_allowed: bool,
    pub profile_level_id: u32,
    pub max_fs: u32,
    pub max_cpb: u32,
    pub max_dpb: u32,
    pub max_br: u32,
    pub max_mbps: u32,
    pub max_fr: u32,
    pub profile: Option<u8>,
    pub level_idx: Option<u8>,
    pub tier: Option<u8>,
    pub maxplaybackrate: u32,
    pub maxaveragebitrate: u32,
    pub usedtx: bool,
    pub stereo: bool,
    pub useinbandfec: bool,
    pub cbr: bool,
    pub ptime: u32,
    pub minptime: u32,
    pub maxptime: u32,
    pub encodings: Vec<u8>,
    pub dtmf_tones: String,
    /// The associated payload type, and the retransmission time.
    pub rtx: Option<(u8, Option<u32>)>,
    pub unknown_tokens: Vec<String>,
}

/// What a [`Fmtp`] holds.
#[verifier::ext_equal]
pub struct FmtpModel {
    pub payload_type: u8,
    pub packetization_mode: u32,
    pub level_asymmetry_allowed: bool,
    pub profile_level_id: u32,
    pub max_fs: u32,
    pub max_cpb: u32,
    pub max_dpb: u32,
    pub max_br: u32,
    pub max_mbps: u32,
    pub max_fr: u32,
    pub profile: Option<u8>,
    pub level_idx: Option<u8>,
    pub tier: Option<u8>,
    pub maxplaybackrate: u32,
    pub maxaveragebitrate: u32,
    pub usedtx: bool,
    pub stereo: bool,
    pub useinbandfec: bool,
    pub cbr: bool,
    pub ptime: u32,
    pub minptime: u32,
    pub maxptime: u32,
    pub encodings: Seq<u8>,
    pub dtmf_tones: Seq<char>,
    pub rtx: Option<(u8, Option<u32>)>,
    pub unknown_tokens: Seq<Seq<char>>,
}

impl View for Fmtp {
    type V = FmtpModel;

    open spec fn view(&self) -> FmtpModel {
        FmtpModel {
            payload_type: self.payload_type,
            packetization_mode: self.packetization_mode,
            level_asymmetry_allowed: self.level_asymmetry_allowed,
            profile_level_id: self.profile_level_id,
            max_fs: self.max_fs,
            max_cpb: self.max_cpb,
            max_dpb: self.max_dpb,
            max_br: self.max_br,
            max_mbps: self.max_mbps,
            max_fr: self.max_fr,
            profile: self.profile,
            level_idx: self.level_idx,
            tier: self.tier,
            maxplaybackrate: self.maxplaybackrate,
            maxaveragebitrate: self.maxaveragebitrate,
            usedtx: self.usedtx,
            stereo: self.stereo,
            useinbandfec: self.useinbandfec,
            cbr: self.cbr,
            ptime: self.ptime,
            minptime: self.minptime,
            maxptime: self.maxptime,
            encodings: self.encodings@,
            dtmf_tones: self.dtmf_tones@,
            rtx: self.rtx,
            unknown_tokens: self.unknown_tokens@.map_values(|token: String| token@),
        }
    }
}

/// An attribute of a media section. The sink tells four kinds apart; any other
/// attribute is the text that follows `a=` on its line.
#[verifier::ext_equal]
pub enum AttributeModel {
    Recvonly,
    Sendrecv,
    Inactive,
    Fmtp(FmtpModel),
    Other(Seq<char>),
}

/// A media section: the text of its lines before the attributes, and the
/// attributes in order.
#[verifier::ext_equal]
pub struct MediaModel {
    pub head: Seq<char>,
    pub attributes: Seq<AttributeModel>,
}

/// A session description: the text of its lines before the first media section,
/// and the media sections in order.
#[verifier::ext_equal]
pub struct SessionModel {
    pub head: Seq<char>,
    pub media: Seq<MediaModel>,
}

/// What a parsed session description holds, of all that its text shows.
pub uninterp spec fn session_model(session: SdpSession) -> SessionModel;

/// What `webrtc_sdp::parse_sdp` makes of a text when warnings are tolerated: the
/// session description, or the message of the error.
pub uninterp spec fn parsed_sdp(text: Seq<char>) -> Result<SessionModel, Seq<char>>;

/// The text that `webrtc_sdp` writes for a session description.
pub uninterp spec fn sdp_text(session: SessionModel) -> Seq<char>;

/// What a sink has to know of an attribute.
pub enum AttributeKind {
    Unwanted(UnwantedDirection),
    Fmtp,
    Other,
}

/// A direction that a sending sink cannot serve.
#[derive(Clone, Copy)]
pub enum UnwantedDirection {
    Recvonly,
    Sendrecv,
    Inactive,
}

impl UnwantedDirection {
    pub open spec fn model(self) -> AttributeModel {
        match self {
            UnwantedDirection::Recvonly => AttributeModel::Recvonly,
            UnwantedDirection::Sendrecv => AttributeModel::Sendrecv,
            UnwantedDirection::Inactive => AttributeModel::Inactive,
        }
    }
}

impl AttributeModel {
    pub open spec fn is_unwanted(self) -> bool {
        self is Recvonly || self is Sendrecv || self is Inactive
    }

    pub open spec fn has_kind(self, kind: AttributeKind) -> bool {
        match kind {
            AttributeKind::Unwanted(direction) => self == direction.model(),
            AttributeKind::Fmtp => self is Fmtp,
            AttributeKind::Other => self is Other,
        }
    }
}

pub open spec fn differs_from(attribute: AttributeModel) -> spec_fn(AttributeModel) -> bool {
    |a: AttributeModel| a != attribute
}

pub open spec fn is_no_fmtp() -> spec_fn(AttributeModel) -> bool {
    |a: AttributeModel| !(a is Fmtp)
}

/// The session description in which one media section has other attributes.
pub open spec fn with_attributes(
    session: SessionModel,
    media: int,
    attributes: Seq<AttributeModel>,
) -> SessionModel {
    SessionModel {
        media: session.media.update(
            media,
            (MediaModel { attributes: attributes, ..session.media[media] }),
        ),
        ..session
    }
}

/// `webrtc_sdp::parse_sdp`, with warnings tolerated: the result is a function of
/// the text. The error is handed on as its message.
#[verifier::external_body]
fn parse_sdp(text: &str) -> (r: Result<SdpSession, String>)
    ensures
        match r {
            Ok(session) => parsed_sdp(text@) == Ok::<SessionModel, Seq<char>>(
                session_model(session),
            ),
            Err(message) => parsed_sdp(text@) == Err::<SessionModel, Seq<char>>(message@),
        },
{
    webrtc_sdp::parse_sdp(text, false).map_err(|error| error.to_string())
}

/// `Display` of `webrtc_sdp::SdpSession`: the text is a function of what the
/// session holds.
#[verifier::external_body]
fn write_sdp(session: &SdpSession) -> (r: String)
    ensures
        r@ == sdp_text(session_model(*session)),
{
    session.to_string()
}

/// The length of the public field `media` of `webrtc_sdp::SdpSession`: the number
/// of media sections.
#[verifier::external_body]
fn media_count(session: &SdpSession) -> (r: usize)
    ensures
        r == session_model(*session).media.len(),
{
    session.media.len()
}

/// `webrtc_sdp::media_type::SdpMedia::get_attributes`: the attributes of a media
/// section in order. The kind of the one at `index` is handed out.
#[verifier::external_body]
fn attribute_kind(session: &SdpSession, media: usize, index: usize) -> (r: Option<AttributeKind>)
    requires
        media < session_model(*session).media.len(),
    ensures
        match r {
            Some(kind) => index < session_model(*session).media[media as int].attributes.len()
                && session_model(
                *session,
            ).media[media as int].attributes[index as int].has_kind(kind),
            None => index >= session_model(*session).media[media as int].attributes.len(),
        },
{
    match session.media[media].get_attributes().get(index)? {
        SdpAttribute::Recvonly => Some(AttributeKind::Unwanted(UnwantedDirection::Recvonly)),
        SdpAttribute::Sendrecv => Some(AttributeKind::Unwanted(UnwantedDirection::Sendrecv)),
        SdpAttribute::Inactive => Some(AttributeKind::Unwanted(UnwantedDirection::Inactive)),
        SdpAttribute::Fmtp(_) => Some(AttributeKind::Fmtp),
        _ => Some(AttributeKind::Other),
    }
}

/// `webrtc_sdp::media_type::SdpMedia::get_attributes` again: where the attribute
/// at `index` is a format parameter attribute, what it holds is handed out.
#[verifier::external_body]
fn fmtp_at(session: &SdpSession, media: usize, index: usize) -> (r: Option<Fmtp>)
    requires
        media < session_model(*session).media.len(),
        index < session_model(*session).media[media as int].attributes.len(),
    ensures
        match r {
            Some(fmtp) => session_model(
                *session,
            ).media[media as int].attributes[index as int] == AttributeModel::Fmtp(fmtp@),
            None => !(session_model(*session).media[media as int].attributes[index as int] is Fmtp),
        },
{
    let SdpAttribute::Fmtp(fmtp) = &session.media[media].get_attributes()[index] else { return None };
    let SdpAttributeFmtpParameters {
        packetization_mode, level_asymmetry_allowed, profile_level_id, max_fs, max_cpb, max_dpb, max_br,
        max_mbps, max_fr, profile, level_idx, tier, maxplaybackrate, maxaveragebitrate, usedtx, stereo,
        useinbandfec, cbr, ptime, minptime, maxptime, encodings, dtmf_tones, rtx, unknown_tokens,
    } = fmtp.parameters.clone();
    Some(Fmtp {
        payload_type: fmtp.payload_type, rtx: rtx.map(|rtx| (rtx.apt, rtx.rtx_time)),
        packetization_mode, level_asymmetry_allowed, profile_level_id, max_fs, max_cpb, max_dpb, max_br,
        max_mbps, max_fr, profile, level_idx, tier, maxplaybackrate, maxaveragebitrate, usedtx, stereo,
        useinbandfec, cbr, ptime, minptime, maxptime, encodings, dtmf_tones, unknown_tokens,
    })
}

/// `webrtc_sdp::media_type::SdpMedia::remove_attribute`: every attribute of the
/// given kind leaves the media section; the others keep their order, and the
/// rest of the session stays as it is.
#[verifier::external_body]
fn remove_attribute(session: &mut SdpSession, media: usize, direction: UnwantedDirection)
    requires
        media < session_model(*old(session)).media.len(),
    ensures
        session_model(*final(session)) == with_attributes(
            session_model(*old(session)),
            media as int,
            session_model(*old(session)).media[media as int].attributes.filter(
                differs_from(direction.model()),
            ),
        ),
{
    session.media[media].remove_attribute(match direction {
        UnwantedDirection::Recvonly => SdpAttributeType::Recvonly,
        UnwantedDirection::Sendrecv => SdpAttributeType::Sendrecv,
        UnwantedDirection::Inactive => SdpAttributeType::Inactive,
    })
}

/// `webrtc_sdp::media_type::SdpMedia::set_attribute`, for a format parameter
/// attribute: every such attribute leaves the media section and the given one is
/// appended; the rest of the session stays as it is. Such an attribute is allowed
/// in a media section, so the call succeeds.
#[verifier::external_body]
fn set_fmtp(session: &mut SdpSession, media: usize, fmtp: Fmtp) -> (r: Result<(), String>)
    requires
        media < session_model(*old(session)).media.len(),
    ensures
        r is Ok,
        session_model(*final(session)) == with_attributes(
            session_model(*old(session)),
            media as int,
            session_model(*old(session)).media[media as int].attributes.filter(is_no_fmtp()).push(
                AttributeModel::Fmtp(fmtp@),
            ),
        ),
{
    let Fmtp {
        payload_type, packetization_mode, level_asymmetry_allowed, profile_level_id, max_fs, max_cpb, max_dpb,
        max_br, max_mbps, max_fr, profile, level_idx, tier, maxplaybackrate, maxaveragebitrate, usedtx, stereo,
        useinbandfec, cbr, ptime, minptime, maxptime, encodings, dtmf_tones, rtx, unknown_tokens,
    } = fmtp;
    let rtx = rtx.map(|(apt, rtx_time)| RtxFmtpParameters { apt, rtx_time });
    let parameters = SdpAttributeFmtpParameters {
        packetization_mode, level_asymmetry_allowed, profile_level_id, max_fs, max_cpb, max_dpb, max_br,
        max_mbps, max_fr, profile, level_idx, tier, maxplaybackrate, maxaveragebitrate, usedtx, stereo,
        useinbandfec, cbr, ptime, minptime, maxptime, encodings, dtmf_tones, rtx, unknown_tokens,
    };
    let attribute = SdpAttribute::Fmtp(SdpAttributeFmtp { payload_type, parameters });
    session.media[media].set_attribute(attribute).map_err(|error| error.to_string())
}

/// The parameters with the profile that every browser accepts.
pub open spec fn customized_fmtp(fmtp: FmtpModel) -> FmtpModel {
    FmtpModel {
        profile_level_id: CONSTRAINED_BASELINE_LEVEL_ID,
        level_asymmetry_allowed: true,
        ..fmtp
    }
}

/// The last format parameter attribute of a list.
pub open spec fn last_fmtp(attributes: Seq<AttributeModel>) -> Option<FmtpModel>
    decreases attributes.len(),
{
    if attributes.len() == 0 {
        None
    } else {
        match attributes.last() {
            AttributeModel::Fmtp(fmtp) => Some(fmtp),
            _ => last_fmtp(attributes.drop_last()),
        }
    }
}

pub open spec fn is_other() -> spec_fn(AttributeModel) -> bool {
    |a: AttributeModel| a is Other
}

/// The format parameter attribute that a media section announces: the last one
/// that it had, customized.
pub open spec fn announced_fmtp(attributes: Seq<AttributeModel>) -> Seq<AttributeModel> {
    match last_fmtp(attributes) {
        Some(fmtp) => seq![AttributeModel::Fmtp(customized_fmtp(fmtp))],
        None => seq![],
    }
}

/// The attributes of a customized media section: those that the sink does not
/// touch, in their order, and then the announced format parameters.
pub open spec fn customized_attributes(attributes: Seq<AttributeModel>) -> Seq<AttributeModel> {
    attributes.filter(is_other()) + announced_fmtp(attributes)
}

pub open spec fn customized_media(media: MediaModel) -> MediaModel {
    MediaModel { attributes: customized_attributes(media.attributes), ..media }
}

pub open spec fn customized_session(session: SessionModel) -> SessionModel {
    SessionModel {
        media: session.media.map_values(|media: MediaModel| customized_media(media)),
        ..session
    }
}

/// Whether an attribute is left once the attributes `seen` were looked at.
spec fn is_left(seen: Seq<AttributeModel>) -> spec_fn(AttributeModel) -> bool {
    |a: AttributeModel|
        {
            &&& !(a.is_unwanted() && seen.contains(a))
            &&& !(a is Fmtp && last_fmtp(seen) is Some)
        }
}

/// The attributes of a media section once the first `n` of them were looked at.
spec fn edited(attributes: Seq<AttributeModel>, n: int) -> Seq<AttributeModel> {
    attributes.filter(is_left(attributes.take(n))) + announced_fmtp(attributes.take(n))
}

proof fn lemma_filter_agrees<A>(s: Seq<A>, p: spec_fn(A) -> bool, q: spec_fn(A) -> bool)
    requires
        forall|i: int| 0 <= i < s.len() ==> p(#[trigger] s[i]) == q(s[i]),
    ensures
        s.filter(p) == s.filter(q),
    decreases s.len(),
{
    reveal(Seq::filter);
    if s.len() > 0 {
        assert forall|i: int| 0 <= i < s.drop_last().len() implies p(
            #[trigger] s.drop_last()[i],
        ) == q(s.drop_last()[i]) by {
            assert(s.drop_last()[i] == s[i]);
        }
        lemma_filter_agrees(s.drop_last(), p, q);
    }
}

proof fn lemma_filter_twice<A>(
    s: Seq<A>,
    p: spec_fn(A) -> bool,
    q: spec_fn(A) -> bool,
    both: spec_fn(A) -> bool,
)
    requires
        forall|i: int| 0 <= i < s.len() ==> both(#[trigger] s[i]) == (p(s[i]) && q(s[i])),
    ensures
        s.filter(p).filter(q) == s.filter(both),
    decreases s.len(),
{
    reveal(Seq::filter);
    if s.len() > 0 {
        let rest = s.drop_last();
        assert forall|i: int| 0 <= i < rest.len() implies both(#[trigger] rest[i]) == (p(rest[i])
            && q(rest[i])) by {
            assert(rest[i] == s[i]);
        }
        lemma_filter_twice(rest, p, q, both);
        if p(s.last()) {
            assert(rest.filter(p).push(s.last()).drop_last() =~= rest.filter(p));
        }
    }
}

proof fn lemma_filter_all<A>(s: Seq<A>, p: spec_fn(A) -> bool)
    requires
        forall|i: int| 0 <= i < s.len() ==> p(#[trigger] s[i]),
    ensures
        s.filter(p) == s,
    decreases s.len(),
{
    reveal(Seq::filter);
    if s.len() > 0 {
        assert forall|i: int| 0 <= i < s.drop_last().len() implies p(#[trigger] s.drop_last()[i]) by {
            assert(s.drop_last()[i] == s[i]);
        }
        lemma_filter_all(s.drop_last(), p);
        assert(s.drop_last().push(s.last()) =~= s);
    }
}

proof fn lemma_filter_single<A>(a: A, p: spec_fn(A) -> bool)
    ensures
        p(a) ==> seq![a].filter(p) == seq![a],
        !p(a) ==> seq![a].filter(p) == Seq::<A>::empty(),
{
    reveal(Seq::filter);
    assert(seq![a].drop_last() =~= Seq::<A>::empty());
    assert(Seq::<A>::empty().filter(p) =~= Seq::<A>::empty());
    if p(a) {
        assert(Seq::<A>::empty().push(a) =~= seq![a]);
    }
}

proof fn lemma_last_fmtp_is_present(attributes: Seq<AttributeModel>)
    ensures
        match last_fmtp(attributes) {
            Some(fmtp) => attributes.contains(AttributeModel::Fmtp(fmtp)),
            None => forall|i: int| 0 <= i < attributes.len() ==> !(#[trigger] attributes[i] is Fmtp),
        },
    decreases attributes.len(),
{
    if attributes.len() > 0 {
        lemma_last_fmtp_is_present(attributes.drop_last());
        match attributes.last() {
            AttributeModel::Fmtp(fmtp) => {
                assert(attributes[attributes.len() - 1] == AttributeModel::Fmtp(fmtp));
            },
            _ => {
                match last_fmtp(attributes.drop_last()) {
                    Some(fmtp) => {
                        let i = choose|i: int|
                            0 <= i < attributes.drop_last().len() && attributes.drop_last()[i]
                                == AttributeModel::Fmtp(fmtp);
                        assert(attributes[i] == AttributeModel::Fmtp(fmtp));
                    },
                    None => {
                        assert forall|i: int| 0 <= i < attributes.len() implies !(
                        #[trigger] attributes[i] is Fmtp) by {
                            if i < attributes.len() - 1 {
                                assert(attributes.drop_last()[i] == attributes[i]);
                            }
                        }
                    },
                }
            },
        }
    }
}

proof fn lemma_edited_at_start(attributes: Seq<AttributeModel>)
    ensures
        edited(attributes, 0) == attributes,
{
    assert(attributes.take(0) =~= Seq::<AttributeModel>::empty());
    lemma_filter_all(attributes, is_left(attributes.take(0)));
    assert(edited(attributes, 0) =~= attributes);
}

proof fn lemma_edited_at_end(attributes: Seq<AttributeModel>)
    ensures
        edited(attributes, attributes.len() as int) == customized_attributes(attributes),
{
    assert(attributes.take(attributes.len() as int) =~= attributes);
    lemma_last_fmtp_is_present(attributes);
    assert forall|i: int| 0 <= i < attributes.len() implies is_left(attributes)(
        #[trigger] attributes[i],
    ) == is_other()(attributes[i]) by {
        assert(attributes.contains(attributes[i]));
    }
    lemma_filter_agrees(attributes, is_left(attributes), is_other());
}

proof fn lemma_take_one_more(attributes: Seq<AttributeModel>, n: int)
    requires
        0 <= n < attributes.len(),
    ensures
        attributes.take(n + 1) == attributes.take(n).push(attributes[n]),
        attributes[n] is Fmtp ==> last_fmtp(attributes.take(n + 1)) == Some(
            attributes[n]->Fmtp_0,
        ),
        !(attributes[n] is Fmtp) ==> last_fmtp(attributes.take(n + 1)) == last_fmtp(
            attributes.take(n),
        ),
        forall|a: AttributeModel| #[trigger]
            attributes.take(n + 1).contains(a) <==> attributes.take(n).contains(a) || a
                == attributes[n],
{
    let before = attributes.take(n);
    let after = attributes.take(n + 1);
    assert(after =~= before.push(attributes[n]));
    assert(after.drop_last() =~= before);
    assert forall|a: AttributeModel| #[trigger]
        after.contains(a) <==> before.contains(a) || a == attributes[n] by {
        if before.contains(a) {
            let i = choose|i: int| 0 <= i < before.len() && before[i] == a;
            assert(after[i] == a);
        }
        if a == attributes[n] {
            assert(after[n] == a);
        }
        if after.contains(a) {
            let i = choose|i: int| 0 <= i < after.len() && after[i] == a;
            if i < n {
                assert(before[i] == a);
            }
        }
    }
}

proof fn lemma_edit_removes(attributes: Seq<AttributeModel>, n: int)
    requires
        0 <= n < attributes.len(),
        attributes[n].is_unwanted(),
    ensures
        edited(attributes, n).filter(differs_from(attributes[n])) == edited(attributes, n + 1),
{
    let p = is_left(attributes.take(n));
    let q = differs_from(attributes[n]);
    let both = is_left(attributes.take(n + 1));
    let announced = announced_fmtp(attributes.take(n));
    lemma_take_one_more(attributes, n);
    Seq::filter_distributes_over_add(attributes.filter(p), announced, q);
    lemma_filter_twice(attributes, p, q, both);
    match last_fmtp(attributes.take(n)) {
        Some(fmtp) => lemma_filter_single(AttributeModel::Fmtp(customized_fmtp(fmtp)), q),
        None => lemma_filter_all(announced, q),
    }
}

proof fn lemma_edit_announces(attributes: Seq<AttributeModel>, n: int)
    requires
        0 <= n < attributes.len(),
        attributes[n] is Fmtp,
    ensures
        edited(attributes, n).filter(is_no_fmtp()).push(
            AttributeModel::Fmtp(customized_fmtp(attributes[n]->Fmtp_0)),
        ) == edited(attributes, n + 1),
{
    let p = is_left(attributes.take(n));
    let q = is_no_fmtp();
    let both = is_left(attributes.take(n + 1));
    let announced = announced_fmtp(attributes.take(n));
    lemma_take_one_more(attributes, n);
    Seq::filter_distributes_over_add(attributes.filter(p), announced, q);
    lemma_filter_twice(attributes, p, q, both);
    match last_fmtp(attributes.take(n)) {
        Some(fmtp) => lemma_filter_single(AttributeModel::Fmtp(customized_fmtp(fmtp)), q),
        None => lemma_filter_all(announced, q),
    }
    assert(edited(attributes, n).filter(q) =~= attributes.filter(both));
    assert(edited(attributes, n + 1) =~= attributes.filter(both).push(
        AttributeModel::Fmtp(customized_fmtp(attributes[n]->Fmtp_0)),
    ));
}

proof fn lemma_edit_keeps(attributes: Seq<AttributeModel>, n: int)
    requires
        0 <= n < attributes.len(),
        attributes[n] is Other,
    ensures
        edited(attributes, n) == edited(attributes, n + 1),
{
    lemma_take_one_more(attributes, n);
    lemma_filter_agrees(
        attributes,
        is_left(attributes.take(n)),
        is_left(attributes.take(n + 1)),
    );
}

/// An attribute of a media section, with what the sink needs of it.
enum Attribute {
    Unwanted(UnwantedDirection),
    Fmtp(Fmtp),
    Other,
}

impl Attribute {
    spec fn stands_for(self, attribute: AttributeModel) -> bool {
        match self {
            Attribute::Unwanted(direction) => attribute == direction.model(),
            Attribute::Fmtp(fmtp) => attribute == AttributeModel::Fmtp(fmtp@),
            Attribute::Other => attribute is Other,
        }
    }
}

/// The attributes of a media section as they stand, in order.
fn get_attributes(session: &SdpSession, media: usize) -> (r: Vec<Attribute>)
    requires
        media < session_model(*session).media.len(),
    ensures
        r@.len() == session_model(*session).media[media as int].attributes.len(),
        forall|i: int|
            0 <= i < r@.len() ==> (#[trigger] r@[i]).stands_for(
                session_model(*session).media[media as int].attributes[i],
            ),
{
    let mut attributes: Vec<Attribute> = Vec::new();
    loop
        invariant
            media < session_model(*session).media.len(),
            attributes@.len() <= session_model(*session).media[media as int].attributes.len(),
            forall|i: int|
                0 <= i < attributes@.len() ==> (#[trigger] attributes@[i]).stands_for(
                    session_model(*session).media[media as int].attributes[i],
                ),
        ensures
            attributes@.len() == session_model(*session).media[media as int].attributes.len(),
        decreases
                session_model(*session).media[media as int].attributes.len() - attributes@.len(),
    {
        let index: usize = attributes.len();
        match attribute_kind(session, media, index) {
            Some(AttributeKind::Unwanted(direction)) => attributes.push(
                Attribute::Unwanted(direction),
            ),
            Some(AttributeKind::Fmtp) => match fmtp_at(session, media, index) {
                Some(fmtp) => attributes.push(Attribute::Fmtp(fmtp)),
                None => attributes.push(Attribute::Other),
            },
            Some(AttributeKind::Other) => attributes.push(Attribute::Other),
            None => break ,
        }
    }
    attributes
}

/// Gives a media section its customized attributes, and leaves the rest of the
/// session description as it is.
fn customize_media(session: &mut SdpSession, media: usize) -> (r: Result<(), SinkError>)
    requires
        media < session_model(*old(session)).media.len(),
    ensures
        r is Ok,
        session_model(*final(session)) == with_attributes(
            session_model(*old(session)),
            media as int,
            customized_attributes(session_model(*old(session)).media[media as int].attributes),
        ),
{
    let ghost before = session_model(*session);
    let ghost section = before.media[media as int].attributes;
    let attributes = get_attributes(session, media);
    let ghost snapshot = attributes@;
    proof {
        lemma_edited_at_start(section);
        assert(with_attributes(before, media as int, section) =~~= before);
    }
    for attribute in iter: attributes
        invariant
            media < before.media.len(),
            section == before.media[media as int].attributes,
            iter.seq() == snapshot,
            snapshot.len() == section.len(),
            forall|i: int|
                0 <= i < snapshot.len() ==> (#[trigger] snapshot[i]).stands_for(section[i]),
            session_model(*session) == with_attributes(
                before,
                media as int,
                edited(section, iter.index() as int),
            ),
    {
        let ghost n = iter.index() as int;
        assert(snapshot[n].stands_for(section[n]));
        assert(session_model(*session).media[media as int].attributes == edited(section, n));
        match attribute {
            Attribute::Unwanted(direction) => {
                remove_attribute(session, media, direction);
                proof {
                    lemma_edit_removes(section, n);
                }
            },
            Attribute::Fmtp(fmtp) => {
                let fmtp = Fmtp {
                    profile_level_id: CONSTRAINED_BASELINE_LEVEL_ID,
                    level_asymmetry_allowed: true,
                    ..fmtp
                };
                if let Err(message) = set_fmtp(session, media, fmtp) {
                    return Err(SinkError::InvalidSdp(message));
                }
                proof {
                    lemma_edit_announces(section, n);
                }
            },
            Attribute::Other => {
                proof {
                    lemma_edit_keeps(section, n);
                }
            },
        }
        assert(session_model(*session) =~~= with_attributes(
            before,
            media as int,
            edited(section, n + 1),
        ));
    }
    proof {
        lemma_edited_at_end(section);
    }
    Ok(())
}

/// A session description of which the first `n` media sections are customized.
spec fn customized_up_to(session: SessionModel, n: int) -> SessionModel {
    SessionModel {
        media: Seq::new(
            session.media.len(),
            |i: int|
                if i < n {
                    customized_media(session.media[i])
                } else {
                    session.media[i]
                },
        ),
        ..session
    }
}

/// Customizes every media section of a session description.
pub fn customize_session(session: &mut SdpSession) -> (r: Result<(), SinkError>)
    ensures
        r is Ok,
        session_model(*final(session)) == customized_session(session_model(*old(session))),
{
    let ghost before = session_model(*session);
    let count: usize = media_count(session);
    assert(customized_up_to(before, 0) =~~= before);
    for media in 0..count
        invariant
            count == before.media.len(),
            session_model(*session) == customized_up_to(before, media as int),
    {
        customize_media(session, media)?;
        assert(session_model(*session) =~~= customized_up_to(before, media + 1));
    }
    assert(customized_up_to(before, count as int) =~~= customized_session(before));
    Ok(())
}

/// Reads a session description, customizes its media sections and writes it
/// again. A text that is no session description is refused with the message of
/// the parser.
pub fn customize_sdp(sdp: &str) -> (r: Result<String, SinkError>)
    ensures
        match parsed_sdp(sdp@) {
            Ok(session) => r matches Ok(text) && text@ == sdp_text(customized_session(session)),
            Err(message) => r matches Err(SinkError::InvalidSdp(text)) && text@ == message,
        },
{
    match parse_sdp(sdp) {
        Ok(session) => {
            let mut session = session;
            customize_session(&mut session)?;
            Ok(write_sdp(&session))
        },
        Err(message) => Err(SinkError::InvalidSdp(message)),
    }
}

/// No media section of a customized session description has a direction that a
/// sending sink cannot serve.
pub proof fn law_no_unwanted_direction(session: SessionModel, media: int, index: int)
    requires
        0 <= media < session.media.len(),
        0 <= index < customized_session(session).media[media].attributes.len(),
    ensures
        !customized_session(session).media[media].attributes[index].is_unwanted(),
{
    let attributes = session.media[media].attributes;
    let others = attributes.filter(is_other());
    if index < others.len() {
        attributes.lemma_filter_pred(is_other(), index);
    }
}

/// Every format parameter attribute of a customized session description
/// announces constrained baseline and allows level asymmetry, and a media section
/// has at most one, its last attribute.
pub proof fn law_announced_profile(session: SessionModel, media: int, index: int)
    requires
        0 <= media < session.media.len(),
        0 <= index < customized_session(session).media[media].attributes.len(),
        customized_session(session).media[media].attributes[index] is Fmtp,
    ensures
        ({
            let fmtp = customized_session(session).media[media].attributes[index]->Fmtp_0;
            &&& fmtp.profile_level_id == CONSTRAINED_BASELINE_LEVEL_ID
            &&& fmtp.level_asymmetry_allowed
        }),
        index == customized_session(session).media[media].attributes.len() - 1,
{
    let attributes = session.media[media].attributes;
    let others = attributes.filter(is_other());
    if index < others.len() {
        attributes.lemma_filter_pred(is_other(), index);
    }
}

/// Customization keeps what precedes the attributes, and the other attributes in
/// their order; a media section announces format parameters exactly where it had
/// some.
pub proof fn law_rest_is_kept(session: SessionModel, media: int)
    requires
        0 <= media < session.media.len(),
    ensures
        customized_session(session).head == session.head,
        customized_session(session).media.len() == session.media.len(),
        customized_session(session).media[media].head == session.media[media].head,
        customized_session(session).media[media].attributes.filter(is_other())
            == session.media[media].attributes.filter(is_other()),
        (exists|i: int|
            0 <= i < customized_session(session).media[media].attributes.len()
                && #[trigger] customized_session(session).media[media].attributes[i] is Fmtp) <==> (
        exists|i: int|
            0 <= i < session.media[media].attributes.len()
                && #[trigger] session.media[media].attributes[i] is Fmtp),
{
    let attributes = session.media[media].attributes;
    let others = attributes.filter(is_other());
    let customized = customized_attributes(attributes);
    lemma_others_of_customized(attributes);
    lemma_last_fmtp_is_present(attributes);
    match last_fmtp(attributes) {
        Some(fmtp) => {
            assert(customized[others.len() as int] is Fmtp);
        },
        None => {
            assert(customized =~= others);
            assert forall|i: int| 0 <= i < customized.len() implies !(
            #[trigger] customized[i] is Fmtp) by {
                attributes.lemma_filter_pred(is_other(), i);
            }
        },
    }
}

/// The last format parameters of customized attributes are those that they
/// announce.
proof fn lemma_last_of_customized(attributes: Seq<AttributeModel>)
    ensures
        last_fmtp(customized_attributes(attributes)) == match last_fmtp(attributes) {
            Some(fmtp) => Some(customized_fmtp(fmtp)),
            None => None,
        },
{
    let customized = customized_attributes(attributes);
    match last_fmtp(attributes) {
        Some(fmtp) => {
            assert(customized.last() == AttributeModel::Fmtp(customized_fmtp(fmtp)));
        },
        None => {
            assert(customized =~= attributes.filter(is_other()));
            assert forall|i: int| 0 <= i < customized.len() implies !(
            #[trigger] customized[i] is Fmtp) by {
                attributes.lemma_filter_pred(is_other(), i);
            }
            lemma_last_fmtp_is_present(customized);
        },
    }
}

/// The other attributes of customized attributes are those that they had.
proof fn lemma_others_of_customized(attributes: Seq<AttributeModel>)
    ensures
        customized_attributes(attributes).filter(is_other()) == attributes.filter(is_other()),
{
    let others = attributes.filter(is_other());
    let announced = announced_fmtp(attributes);
    Seq::filter_distributes_over_add(others, announced, is_other());
    lemma_filter_twice(attributes, is_other(), is_other(), is_other());
    match last_fmtp(attributes) {
        Some(fmtp) => {
            lemma_filter_single(AttributeModel::Fmtp(customized_fmtp(fmtp)), is_other());
        },
        None => {
            lemma_filter_all(announced, is_other());
        },
    }
    assert(customized_attributes(attributes).filter(is_other()) =~= others);
}

proof fn lemma_customized_twice(attributes: Seq<AttributeModel>)
    ensures
        customized_attributes(customized_attributes(attributes)) == customized_attributes(
            attributes,
        ),
{
    lemma_last_of_customized(attributes);
    lemma_others_of_customized(attributes);
}

/// Customizing twice is customizing once.
#[verifier::spinoff_prover]
pub proof fn law_customizing_is_idempotent(session: SessionModel)
    ensures
        customized_session(customized_session(session)) == customized_session(session),
{
    let once = customized_session(session);
    let twice = customized_session(once);
    assert forall|m: int| 0 <= m < session.media.len() implies #[trigger] twice.media[m]
        == once.media[m] by {
        lemma_customized_twice(session.media[m].attributes);
    }
    assert(twice.media =~= once.media);
}

proof fn lemma_last_fmtp_at(attributes: Seq<AttributeModel>, index: int)
    requires
        0 <= index < attributes.len(),
        attributes[index] is Fmtp,
        forall|j: int| index < j < attributes.len() ==> !(#[trigger] attributes[j] is Fmtp),
    ensures
        last_fmtp(attributes) == Some(attributes[index]->Fmtp_0),
    decreases attributes.len(),
{
    if index < attributes.len() - 1 {
        let rest = attributes.drop_last();
        assert(!(attributes[attributes.len() - 1] is Fmtp));
        assert forall|j: int| index < j < rest.len() implies !(#[trigger] rest[j] is Fmtp) by {
            assert(rest[j] == attributes[j]);
        }
        lemma_last_fmtp_at(rest, index);
    }
}

/// A media section that has format parameters announces its last ones: the payload
/// type and every parameter are as they were, unknown ones among them, but for the
/// profile, which is constrained baseline, and for level asymmetry, which is allowed.
/// They are announced once, after all other attributes.
pub proof fn law_only_profile_and_asymmetry_change(session: SessionModel, media: int, index: int)
    requires
        0 <= media < session.media.len(),
        0 <= index < session.media[media].attributes.len(),
        session.media[media].attributes[index] is Fmtp,
        forall|j: int|
            index < j < session.media[media].attributes.len() ==> !(
            #[trigger] session.media[media].attributes[j] is Fmtp),
    ensures
        ({
            let had = session.media[media].attributes[index]->Fmtp_0;
            let customized = customized_session(session).media[media].attributes;
            let announced = customized.last()->Fmtp_0;
            &&& customized.len() > 0
            &&& customized.last() is Fmtp
            &&& forall|i: int|
                0 <= i < customized.len() - 1 ==> !(#[trigger] customized[i] is Fmtp)
            &&& announced.profile_level_id == 0x42e01f
            &&& announced.level_asymmetry_allowed
            &&& announced.payload_type == had.payload_type
            &&& announced.packetization_mode == had.packetization_mode
            &&& announced.max_fs == had.max_fs
            &&& announced.max_cpb == had.max_cpb
            &&& announced.max_dpb == had.max_dpb
            &&& announced.max_br == had.max_br
            &&& announced.max_mbps == had.max_mbps
            &&& announced.max_fr == had.max_fr
            &&& announced.profile == had.profile
            &&& announced.level_idx == had.level_idx
            &&& announced.tier == had.tier
            &&& announced.maxplaybackrate == had.maxplaybackrate
            &&& announced.maxaveragebitrate == had.maxaveragebitrate
            &&& announced.usedtx == had.usedtx
            &&& announced.stereo == had.stereo
            &&& announced.useinbandfec == had.useinbandfec
            &&& announced.cbr == had.cbr
            &&& announced.ptime == had.ptime
            &&& announced.minptime == had.minptime
            &&& announced.maxptime == had.maxptime
            &&& announced.encodings == had.encodings
            &&& announced.dtmf_tones == had.dtmf_tones
            &&& announced.rtx == had.rtx
            &&& announced.unknown_tokens == had.unknown_tokens
        }),
{
    let attributes = session.media[media].attributes;
    let others = attributes.filter(is_other());
    let customized = customized_attributes(attributes);
    lemma_last_fmtp_at(attributes, index);
    assert(customized_session(session).media[media].attributes == customized);
    assert forall|i: int| 0 <= i < customized.len() - 1 implies !(
    #[trigger] customized[i] is Fmtp) by {
        attributes.lemma_filter_pred(is_other(), i);
        assert(customized[i] == others[i]);
    }
}

proof fn lemma_others_stay(
    attributes: Seq<AttributeModel>,
    other: spec_fn(AttributeModel) -> bool,
)
    requires
        forall|a: AttributeModel| #[trigger] other(a) <==> a is Other,
    ensures
        customized_attributes(attributes).filter(other) == attributes.filter(other),
{
    let customized = customized_attributes(attributes);
    assert(customized.filter(other) == customized.filter(is_other())) by {
        lemma_filter_agrees(customized, other, is_other());
    }
    assert(attributes.filter(other) == attributes.filter(is_other())) by {
        lemma_filter_agrees(attributes, other, is_other());
    }
    assert(customized.filter(is_other()) == attributes.filter(is_other())) by {
        lemma_others_of_customized(attributes);
    }
}

/// A customized session description has the media sections that it had, in their
/// order, each with what precedes its attributes. The attributes that are neither a
/// direction nor format parameters are those that the section had, in their order.
pub proof fn law_sections_and_other_attributes_stay(
    session: SessionModel,
    media: int,
    other: spec_fn(AttributeModel) -> bool,
)
    requires
        0 <= media < session.media.len(),
        forall|a: AttributeModel| #[trigger] other(a) <==> a is Other,
    ensures
        customized_session(session).head == session.head,
        customized_session(session).media.len() == session.media.len(),
        customized_session(session).media[media].head == session.media[media].head,
        customized_session(session).media[media].attributes.filter(other)
            == session.media[media].attributes.filter(other),
{
    lemma_others_stay(session.media[media].attributes, other);
}

/// No attribute of a customized media section is a direction that a sending sink
/// cannot serve. Any other attribute but format parameters is one that the section
/// had, and format parameters are there only if the section had some.
pub proof fn law_what_a_customized_section_has(session: SessionModel, media: int, index: int)
    requires
        0 <= media < session.media.len(),
        0 <= index < customized_session(session).media[media].attributes.len(),
    ensures
        ({
            let attribute = customized_session(session).media[media].attributes[index];
            &&& !(attribute is Recvonly) && !(attribute is Sendrecv) && !(attribute is Inactive)
            &&& attribute is Other ==> session.media[media].attributes.contains(attribute)
            &&& attribute is Fmtp ==> exists|i: int|
                0 <= i < session.media[media].attributes.len()
                    && #[trigger] session.media[media].attributes[i] is Fmtp
        }),
{
    let had = session.media[media].attributes;
    let others = had.filter(is_other());
    lemma_last_fmtp_is_present(had);
    if index < others.len() {
        had.lemma_filter_pred(is_other(), index);
        had.lemma_filter_contains_rev(is_other(), others[index]);
        assert(customized_attributes(had)[index] == others[index]);
    }
}

/// No attribute of a media section is lost but for directions that a sending sink
/// cannot serve and format parameters.
pub proof fn law_what_a_section_keeps(session: SessionModel, media: int, index: int)
    requires
        0 <= media < session.media.len(),
        0 <= index < session.media[media].attributes.len(),
        session.media[media].attributes[index] is Other,
    ensures
        customized_session(session).media[media].attributes.contains(
            session.media[media].attributes[index],
        ),
{
    let had = session.media[media].attributes;
    let others = had.filter(is_other());
    had.lemma_filter_contains(is_other(), index);
    let k = choose|k: int| 0 <= k < others.len() && others[k] == had[index];
    assert(customized_attributes(had)[k] == had[index]);
}

/// What is held of format parameters is all that they are: every parameter, each of
/// the unknown ones in its place and whole.
pub proof fn law_format_parameters_are_held_whole(fmtp: Fmtp)
    ensures
        fmtp@.payload_type == fmtp.payload_type,
        fmtp@.packetization_mode == fmtp.packetization_mode,
        fmtp@.max_fs == fmtp.max_fs,
        fmtp@.max_cpb == fmtp.max_cpb,
        fmtp@.max_dpb == fmtp.max_dpb,
        fmtp@.max_br == fmtp.max_br,
        fmtp@.max_mbps == fmtp.max_mbps,
        fmtp@.max_fr == fmtp.max_fr,
        fmtp@.profile == fmtp.profile,
        fmtp@.level_idx == fmtp.level_idx,
        fmtp@.tier == fmtp.tier,
        fmtp@.maxplaybackrate == fmtp.maxplaybackrate,
        fmtp@.maxaveragebitrate == fmtp.maxaveragebitrate,
        fmtp@.usedtx == fmtp.usedtx,
        fmtp@.stereo == fmtp.stereo,
        fmtp@.useinbandfec == fmtp.useinbandfec,
        fmtp@.cbr == fmtp.cbr,
        fmtp@.ptime == fmtp.ptime,
        fmtp@.minptime == fmtp.minptime,
        fmtp@.maxptime == fmtp.maxptime,
        fmtp@.rtx == fmtp.rtx,
        fmtp@.level_asymmetry_allowed == fmtp.level_asymmetry_allowed,
        fmtp@.profile_level_id == fmtp.profile_level_id,
        fmtp@.encodings == fmtp.encodings@,
        fmtp@.dtmf_tones == fmtp.dtmf_tones@,
        fmtp@.unknown_tokens.len() == fmtp.unknown_tokens@.len(),
        forall|i: int|
            0 <= i < fmtp.unknown_tokens@.len() ==> #[trigger] fmtp@.unknown_tokens[i]
                == fmtp.unknown_tokens@[i]@,
{
}

} // verus!
