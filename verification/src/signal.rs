//! The signals that a sink emits on its WebRTC element.

use vstd::prelude::*;

verus! {

/// A signal with its arguments. `D` is a session description as the multimedia
/// framework holds it.
#[derive(Debug, PartialEq, Eq)]
pub enum Signal<D> {
    CreateOffer,
    SetLocalDescription(D),
    SetRemoteDescription(D),
    AddIceCandidate { sdp_m_line_index: u32, candidate: String },
}

impl<D> Signal<D> {
    pub open spec fn spec_name(self) -> Seq<char> {
        match self {
            Signal::CreateOffer => "create-offer"@,
            Signal::SetLocalDescription(_) => "set-local-description"@,
            Signal::SetRemoteDescription(_) => "set-remote-description"@,
            Signal::AddIceCandidate { .. } => "add-ice-candidate"@,
        }
    }

    pub open spec fn adds_candidate(self, index: u32, text: Seq<char>) -> bool {
        &&& self matches Signal::AddIceCandidate { sdp_m_line_index, candidate }
        &&& sdp_m_line_index == index
        &&& candidate@ == text
    }

    /// The signal that adds a candidate.
    pub fn add_ice_candidate(sdp_m_line_index: &u32, candidate: &str) -> (r: Signal<D>)
        ensures
            r.adds_candidate(*sdp_m_line_index, candidate@),
    {
        Signal::AddIceCandidate {
            sdp_m_line_index: *sdp_m_line_index,
            candidate: candidate.to_owned(),
        }
    }

    /// The name by which the WebRTC element knows the signal.
    pub fn name(&self) -> (r: &'static str)
        ensures
            r@ == self.spec_name(),
    {
        match self {
            Signal::CreateOffer => "create-offer",
            Signal::SetLocalDescription(_) => "set-local-description",
            Signal::SetRemoteDescription(_) => "set-remote-description",
            Signal::AddIceCandidate { .. } => "add-ice-candidate",
        }
    }
}

/// A candidate is added with its media section, whichever it is, and whole.
pub proof fn law_added_candidate_taken_apart<D>(signal: Signal<D>, index: u32, text: Seq<char>)
    ensures
        signal.adds_candidate(index, text) <==> (signal matches Signal::AddIceCandidate {
            sdp_m_line_index,
            candidate,
        } && sdp_m_line_index == index && candidate@ == text),
{
}

/// A signal adds one candidate to one media section only.
pub proof fn law_added_candidates_are_unambiguous<D>(
    signal: Signal<D>,
    a: (u32, Seq<char>),
    b: (u32, Seq<char>),
)
    requires
        signal.adds_candidate(a.0, a.1),
        signal.adds_candidate(b.0, b.1),
    ensures
        a == b,
{
}

/// A signal's name tells its kind, and nothing of its arguments.
pub proof fn law_names_tell_signals_apart<D>(a: Signal<D>, b: Signal<D>)
    ensures
        a is CreateOffer ==> a.spec_name() == "create-offer"@,
        a is SetLocalDescription ==> a.spec_name() == "set-local-description"@,
        a is SetRemoteDescription ==> a.spec_name() == "set-remote-description"@,
        a is AddIceCandidate ==> a.spec_name() == "add-ice-candidate"@,
        a.spec_name() == b.spec_name() <==> {
            ||| a is CreateOffer && b is CreateOffer
            ||| a is SetLocalDescription && b is SetLocalDescription
            ||| a is SetRemoteDescription && b is SetRemoteDescription
            ||| a is AddIceCandidate && b is AddIceCandidate
        },
{
    reveal_strlit("create-offer");
    reveal_strlit("set-local-description");
    reveal_strlit("set-remote-description");
    reveal_strlit("add-ice-candidate");
    assert("create-offer"@.len() == 12);
    assert("set-local-description"@.len() == 21);
    assert("set-remote-description"@.len() == 22);
    assert("add-ice-candidate"@.len() == 17);
}

} // verus!
