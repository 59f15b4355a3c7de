//! The messages of the signalling protocol that a sink sends to its peer.

use vstd::arithmetic::div_mod::*;
use vstd::arithmetic::power::*;
use vstd::prelude::*;
use vstd::std_specs::convert::FromSpec;
use vstd::std_specs::convert::FromSpecImpl;

verus! {

/// The identifier of a peer: the 128 bits of its UUID.
#[derive(Clone, Copy, Debug, PartialEq, Eq, Structural, Hash)]
pub struct PeerId {
    pub bits: u128,
}

/// The identifier of a session: the 128 bits of its UUID.
#[derive(Clone, Copy, Debug, PartialEq, Eq, Structural, Hash)]
pub struct SessionId {
    pub bits: u128,
}

/// What binds a consumer and a producer to a session.
#[derive(Clone, Copy, Debug, PartialEq, Eq, Structural, Hash)]
pub struct BindAnswer {
    pub consumer_id: PeerId,
    pub producer_id: PeerId,
    pub session_id: SessionId,
}

/// Any message that a sink sends.
#[derive(Clone, Debug, PartialEq, Eq)]
pub enum Message {
    Question(Question),
    Answer(Answer),
    Negotiation(Negotiation),
}

#[derive(Clone, Debug, PartialEq, Eq)]
pub enum Question {
    EndSession(EndSessionQuestion),
}

#[derive(Clone, Debug, PartialEq, Eq)]
pub enum Answer {
    StartSession(BindAnswer),
}

#[derive(Clone, Debug, PartialEq, Eq)]
pub enum Negotiation {
    MediaNegotiation(MediaNegotiation),
    IceNegotiation(IceNegotiation),
}

/// Asks the peer to end the session, and says why.
#[derive(Clone, Debug, PartialEq, Eq)]
pub struct EndSessionQuestion {
    pub bind: BindAnswer,
    pub reason: String,
}

#[derive(Clone, Debug, PartialEq, Eq)]
pub struct MediaNegotiation {
    pub bind: BindAnswer,
    pub sdp: RTCSessionDescription,
}

#[derive(Clone, Debug, PartialEq, Eq)]
pub struct IceNegotiation {
    pub bind: BindAnswer,
    pub ice: RTCIceCandidateInit,
}

#[derive(Clone, Debug, PartialEq, Eq)]
pub enum RTCSessionDescription {
    Answer(Sdp),
    Offer(Sdp),
}

#[derive(Clone, Debug, PartialEq, Eq)]
pub struct Sdp {
    pub sdp: String,
}

#[derive(Clone, Debug, PartialEq, Eq)]
pub struct RTCIceCandidateInit {
    pub candidate: Option<String>,
    pub sdp_mid: Option<String>,
    pub sdp_m_line_index: Option<u32>,
    pub username_fragment: Option<String>,
}

/// The character of a hexadecimal digit, in lower case.
pub open spec fn hex_digit(digit: int) -> char {
    if digit < 10 {
        ('0' as int + digit) as char
    } else {
        ('a' as int + digit - 10) as char
    }
}

/// Where the hyphens of a UUID's text stand.
pub open spec fn is_hyphen_place(place: int) -> bool {
    place == 8 || place == 13 || place == 18 || place == 23
}

/// How many digits stand before a place of a UUID's text.
pub open spec fn digits_before(place: int) -> int {
    if place < 8 {
        place
    } else if place < 13 {
        place - 1
    } else if place < 18 {
        place - 2
    } else if place < 23 {
        place - 3
    } else {
        place - 4
    }
}

/// A hexadecimal digit of a number, counted from the least significant.
pub open spec fn hex_digit_of(number: int, k: nat) -> int {
    number / pow(16, k) % 16
}

/// The text of a UUID: its 32 hexadecimal digits, the most significant first, in
/// groups of 8, 4, 4, 4 and 12 with hyphens between them.
pub open spec fn hyphenated(bits: u128) -> Seq<char> {
    Seq::new(
        36,
        |place: int|
            if is_hyphen_place(place) {
                '-'
            } else {
                hex_digit(hex_digit_of(bits as int, (31 - digits_before(place)) as nat))
            },
    )
}

/// `Display` of `uuid::Uuid`, for the UUID that `uuid::Uuid::from_u128` makes of
/// the bits: lower-case hexadecimal digits in five groups.
#[verifier::external_body]
fn uuid_text(bits: u128) -> (r: String)
    ensures
        r@ == hyphenated(bits),
{
    uuid::Uuid::from_u128(bits).to_string()
}

impl SessionId {
    /// The text of the identifier.
    pub fn text(&self) -> (r: String)
        ensures
            r@ == hyphenated(self.bits),
    {
        uuid_text(self.bits)
    }
}

impl Message {
    /// The session that the message belongs to.
    pub open spec fn bind(self) -> BindAnswer {
        match self {
            Message::Question(Question::EndSession(question)) => question.bind,
            Message::Answer(Answer::StartSession(bind)) => bind,
            Message::Negotiation(Negotiation::MediaNegotiation(media)) => media.bind,
            Message::Negotiation(Negotiation::IceNegotiation(ice)) => ice.bind,
        }
    }

    pub open spec fn is_start_session(self, bind: BindAnswer) -> bool {
        self == Message::Answer(Answer::StartSession(bind))
    }

    pub open spec fn is_end_session(self, bind: BindAnswer, reason: Seq<char>) -> bool {
        &&& self matches Message::Question(Question::EndSession(question))
        &&& question.bind == bind
        &&& question.reason@ == reason
    }

    pub open spec fn is_offer(self, bind: BindAnswer, sdp: Seq<char>) -> bool {
        &&& self matches Message::Negotiation(Negotiation::MediaNegotiation(media))
        &&& media.bind == bind
        &&& media.sdp matches RTCSessionDescription::Offer(offer)
        &&& offer.sdp@ == sdp
    }

    pub open spec fn is_answer(self, bind: BindAnswer, sdp: Seq<char>) -> bool {
        &&& self matches Message::Negotiation(Negotiation::MediaNegotiation(media))
        &&& media.bind == bind
        &&& media.sdp matches RTCSessionDescription::Answer(answer)
        &&& answer.sdp@ == sdp
    }

    pub open spec fn is_candidate(
        self,
        bind: BindAnswer,
        sdp_m_line_index: u32,
        candidate: Seq<char>,
    ) -> bool {
        &&& self matches Message::Negotiation(Negotiation::IceNegotiation(negotiation))
        &&& negotiation.bind == bind
        &&& negotiation.ice.candidate matches Some(text)
        &&& text@ == candidate
        &&& negotiation.ice.sdp_mid is None
        &&& negotiation.ice.sdp_m_line_index == Some(sdp_m_line_index)
        &&& negotiation.ice.username_fragment is None
    }
}

impl From<Answer> for Message {
    fn from(answer: Answer) -> (r: Message) {
        Message::Answer(answer)
    }
}

impl FromSpecImpl<Answer> for Message {
    open spec fn obeys_from_spec() -> bool {
        true
    }

    open spec fn from_spec(answer: Answer) -> Message {
        Message::Answer(answer)
    }
}

impl From<MediaNegotiation> for Message {
    fn from(negotiation: MediaNegotiation) -> (r: Message) {
        Message::Negotiation(Negotiation::MediaNegotiation(negotiation))
    }
}

impl FromSpecImpl<MediaNegotiation> for Message {
    open spec fn obeys_from_spec() -> bool {
        true
    }

    open spec fn from_spec(negotiation: MediaNegotiation) -> Message {
        Message::Negotiation(Negotiation::MediaNegotiation(negotiation))
    }
}

impl From<IceNegotiation> for Message {
    fn from(negotiation: IceNegotiation) -> (r: Message) {
        Message::Negotiation(Negotiation::IceNegotiation(negotiation))
    }
}

impl FromSpecImpl<IceNegotiation> for Message {
    open spec fn obeys_from_spec() -> bool {
        true
    }

    open spec fn from_spec(negotiation: IceNegotiation) -> Message {
        Message::Negotiation(Negotiation::IceNegotiation(negotiation))
    }
}

/// The place of a digit in a UUID's text.
spec fn place_of_digit(digit: int) -> int {
    if digit < 8 {
        digit
    } else if digit < 12 {
        digit + 1
    } else if digit < 16 {
        digit + 2
    } else if digit < 20 {
        digit + 3
    } else {
        digit + 4
    }
}

/// Numbers with the same hexadecimal digits are equal.
proof fn lemma_digits_tell(a: int, b: int, count: nat)
    requires
        0 <= a < pow(16, count),
        0 <= b < pow(16, count),
        forall|k: nat| k < count ==> hex_digit_of(a, k) == #[trigger] hex_digit_of(b, k),
    ensures
        a == b,
    decreases count,
{
    lemma_pow0(16);
    lemma_pow1(16);
    if count > 0 {
        let rest = (count - 1) as nat;
        lemma_pow_adds(16, 1, rest);
        assert(hex_digit_of(a, 0) == hex_digit_of(b, 0));
        assert forall|k: nat| k < rest implies hex_digit_of(a / 16, k) == #[trigger] hex_digit_of(
            b / 16,
            k,
        ) by {
            lemma_pow_positive(16, k);
            lemma_pow_adds(16, 1, k);
            lemma_div_denominator(a, 16, pow(16, k));
            lemma_div_denominator(b, 16, pow(16, k));
            assert(hex_digit_of(a, k + 1) == hex_digit_of(b, k + 1));
        }
        lemma_digits_tell(a / 16, b / 16, rest);
    }
}

/// The text of an identifier tells it from every other.
pub proof fn law_text_tells_identifiers_apart(a: SessionId, b: SessionId)
    requires
        hyphenated(a.bits) == hyphenated(b.bits),
    ensures
        a == b,
{
    assert forall|k: nat| k < 32 implies hex_digit_of(a.bits as int, k) == #[trigger] hex_digit_of(
        b.bits as int,
        k,
    ) by {
        let place = place_of_digit(31 - k);
        let (x, y) = (hex_digit_of(a.bits as int, k), hex_digit_of(b.bits as int, k));
        assert(!is_hyphen_place(place) && (31 - digits_before(place)) as nat == k);
        assert(hyphenated(a.bits)[place] == hex_digit(x));
        assert(hyphenated(b.bits)[place] == hex_digit(y));
        assert(hex_digit(x) == hex_digit(y));
        assert(0 <= x < 16 && 0 <= y < 16);
        assert(hex_digit(x) as int == if x < 10 { 48 + x } else { 87 + x });
        assert(hex_digit(y) as int == if y < 10 { 48 + y } else { 87 + y });
    }
    assert(pow(16, 32) == 0x1_0000_0000_0000_0000_0000_0000_0000_0000) by {
        lemma_pow1(16);
        lemma_pow_adds(16, 1, 1);
        assert(pow(16, 2) == 0x100);
        lemma_pow_adds(16, 2, 2);
        assert(pow(16, 4) == 0x1_0000);
        lemma_pow_adds(16, 4, 4);
        assert(pow(16, 8) == 0x1_0000_0000);
        lemma_pow_adds(16, 8, 8);
        assert(pow(16, 16) == 0x1_0000_0000_0000_0000);
        lemma_pow_adds(16, 16, 16);
    }
    lemma_digits_tell(a.bits as int, b.bits as int, 32);
}

/// The start of a session is told by nothing but an answer that binds it.
pub proof fn law_start_session_taken_apart(message: Message, bind: BindAnswer)
    ensures
        message.is_start_session(bind) <==> (message matches Message::Answer(
            Answer::StartSession(started),
        ) && started == bind),
{
}

/// A request to end a session is a question with the session and the whole reason,
/// whatever they are.
pub proof fn law_end_session_taken_apart(message: Message, bind: BindAnswer, reason: Seq<char>)
    ensures
        message.is_end_session(bind, reason) <==> (message matches Message::Question(
            Question::EndSession(question),
        ) && question.bind == bind && question.reason@ == reason),
{
}

/// An offer is a media negotiation of the session with the whole text as an offer,
/// whatever its length.
pub proof fn law_offer_taken_apart(message: Message, bind: BindAnswer, text: Seq<char>)
    ensures
        message.is_offer(bind, text) <==> (message matches Message::Negotiation(
            Negotiation::MediaNegotiation(media),
        ) && media.bind == bind && (media.sdp matches RTCSessionDescription::Offer(offer)
            && offer.sdp@ == text)),
{
}

/// An answer is a media negotiation of the session with the whole text as an answer,
/// whatever its length.
pub proof fn law_answer_taken_apart(message: Message, bind: BindAnswer, text: Seq<char>)
    ensures
        message.is_answer(bind, text) <==> (message matches Message::Negotiation(
            Negotiation::MediaNegotiation(media),
        ) && media.bind == bind && (media.sdp matches RTCSessionDescription::Answer(answer)
            && answer.sdp@ == text)),
{
}

/// A candidate is an ICE negotiation of the session with the whole candidate and its
/// media section, whichever it is, and with nothing else.
pub proof fn law_candidate_taken_apart(
    message: Message,
    bind: BindAnswer,
    index: u32,
    text: Seq<char>,
)
    ensures
        message.is_candidate(bind, index, text) <==> (message matches Message::Negotiation(
            Negotiation::IceNegotiation(negotiation),
        ) && negotiation.bind == bind && negotiation.ice.sdp_m_line_index == Some(index)
            && negotiation.ice.sdp_mid is None && negotiation.ice.username_fragment is None && (
        negotiation.ice.candidate matches Some(candidate) && candidate@ == text)),
{
}

/// What is sent can be read back: a message stands for one session and one content
/// only.
pub proof fn law_messages_are_unambiguous(
    message: Message,
    a: (BindAnswer, u32, Seq<char>),
    b: (BindAnswer, u32, Seq<char>),
)
    ensures
        message.is_start_session(a.0) && message.is_start_session(b.0) ==> a.0 == b.0,
        message.is_end_session(a.0, a.2) && message.is_end_session(b.0, b.2) ==> a.0 == b.0 && a.2
            == b.2,
        message.is_offer(a.0, a.2) && message.is_offer(b.0, b.2) ==> a.0 == b.0 && a.2 == b.2,
        message.is_answer(a.0, a.2) && message.is_answer(b.0, b.2) ==> a.0 == b.0 && a.2 == b.2,
        message.is_candidate(a.0, a.1, a.2) && message.is_candidate(b.0, b.1, b.2) ==> a == b,
        message.is_offer(a.0, a.2) ==> !message.is_answer(b.0, b.2),
{
}

/// The session of a message is the one that it holds.
pub proof fn law_the_session_of_a_message(message: Message)
    ensures
        message matches Message::Question(Question::EndSession(question)) ==> message.bind()
            == question.bind,
        message matches Message::Answer(Answer::StartSession(bind)) ==> message.bind() == bind,
        message matches Message::Negotiation(Negotiation::MediaNegotiation(media))
            ==> message.bind() == media.bind,
        message matches Message::Negotiation(Negotiation::IceNegotiation(ice)) ==> message.bind()
            == ice.bind,
{
}

/// The text of an identifier has 36 characters: hyphens at four places, and
/// hexadecimal digits in lower case at the others.
pub proof fn law_shape_of_identifiers(id: SessionId, place: int)
    requires
        0 <= place < 36,
    ensures
        hyphenated(id.bits).len() == 36,
        hyphenated(id.bits)[place] == '-' <==> (place == 8 || place == 13 || place == 18 || place
            == 23),
        hyphenated(id.bits)[place] == '-' || '0' <= hyphenated(id.bits)[place] <= '9' || 'a'
            <= hyphenated(id.bits)[place] <= 'f',
{
    let k = (31 - digits_before(place)) as nat;
    let x = hex_digit_of(id.bits as int, k);
    if !is_hyphen_place(place) {
        assert(hyphenated(id.bits)[place] == hex_digit(x));
        assert(0 <= x < 16);
        assert(hex_digit(x) as int == if x < 10 {
            48 + x
        } else {
            87 + x
        });
    }
}

/// A message that is made of a part holds that part, unchanged.
pub proof fn law_messages_hold_their_parts(
    answer: Answer,
    media: MediaNegotiation,
    ice: IceNegotiation,
)
    ensures
        <Message as FromSpec<Answer>>::from_spec(answer) == Message::Answer(answer),
        <Message as FromSpec<MediaNegotiation>>::from_spec(media) == Message::Negotiation(
            Negotiation::MediaNegotiation(media),
        ),
        <Message as FromSpec<IceNegotiation>>::from_spec(ice) == Message::Negotiation(
            Negotiation::IceNegotiation(ice),
        ),
{
}

} // verus!
