//! The states that the WebRTC element reports, and which of them end a session.

use vstd::prelude::*;

verus! {

/// The state of the DTLS transport of an RTP sender.
#[derive(Clone, Copy, Debug, PartialEq, Eq, Structural)]
pub enum DtlsTransportState {
    New,
    Closed,
    Failed,
    Connecting,
    Connected,
    Unknown,
}

/// The state of the ICE connection.
#[derive(Clone, Copy, Debug, PartialEq, Eq, Structural)]
pub enum IceConnectionState {
    New,
    Checking,
    Connected,
    Completed,
    Failed,
    Disconnected,
    Closed,
    Unknown,
}

/// The state of the gathering of ICE candidates.
#[derive(Clone, Copy, Debug, PartialEq, Eq, Structural)]
pub enum IceGatheringState {
    New,
    Gathering,
    Complete,
    Unknown,
}

/// The state of the connection to the peer.
#[derive(Clone, Copy, Debug, PartialEq, Eq, Structural)]
pub enum PeerConnectionState {
    New,
    Connecting,
    Connected,
    Disconnected,
    Failed,
    Closed,
    Unknown,
}

impl DtlsTransportState {
    /// Why a session ends in this state, if it does.
    pub open spec fn spec_end_reason(self) -> Option<Seq<char>> {
        match self {
            DtlsTransportState::Failed => Some("DTLS closed with: Failed"@),
            DtlsTransportState::Closed => Some("DTLS closed with: Closed"@),
            _ => None,
        }
    }

    /// Why a session ends in this state, if it does.
    pub fn end_reason(self) -> (r: Option<String>)
        ensures
            r matches Some(reason) ==> self.spec_end_reason() == Some(reason@),
            r is None ==> self.spec_end_reason() is None,
    {
        match self {
            DtlsTransportState::Failed => Some("DTLS closed with: Failed".to_owned()),
            DtlsTransportState::Closed => Some("DTLS closed with: Closed".to_owned()),
            _ => None,
        }
    }
}

impl IceConnectionState {
    /// Why a session ends in this state, if it does.
    pub open spec fn spec_end_reason(self) -> Option<Seq<char>> {
        match self {
            IceConnectionState::Failed => Some("ICE closed with: Failed"@),
            IceConnectionState::Closed => Some("ICE closed with: Closed"@),
            IceConnectionState::Disconnected => Some("ICE closed with: Disconnected"@),
            _ => None,
        }
    }

    /// Why a session ends in this state, if it does.
    pub fn end_reason(self) -> (r: Option<String>)
        ensures
            r matches Some(reason) ==> self.spec_end_reason() == Some(reason@),
            r is None ==> self.spec_end_reason() is None,
    {
        match self {
            IceConnectionState::Failed => Some("ICE closed with: Failed".to_owned()),
            IceConnectionState::Closed => Some("ICE closed with: Closed".to_owned()),
            IceConnectionState::Disconnected => Some("ICE closed with: Disconnected".to_owned()),
            _ => None,
        }
    }
}

impl PeerConnectionState {
    /// Why a session ends in this state, if it does.
    pub open spec fn spec_end_reason(self) -> Option<Seq<char>> {
        match self {
            PeerConnectionState::Disconnected => Some("Connectiong closed with: Disconnected"@),
            PeerConnectionState::Failed => Some("Connectiong closed with: Failed"@),
            PeerConnectionState::Closed => Some("Connectiong closed with: Closed"@),
            _ => None,
        }
    }

    /// Why a session ends in this state, if it does.
    pub fn end_reason(self) -> (r: Option<String>)
        ensures
            r matches Some(reason) ==> self.spec_end_reason() == Some(reason@),
            r is None ==> self.spec_end_reason() is None,
    {
        match self {
            PeerConnectionState::Disconnected => Some(
                "Connectiong closed with: Disconnected".to_owned(),
            ),
            PeerConnectionState::Failed => Some("Connectiong closed with: Failed".to_owned()),
            PeerConnectionState::Closed => Some("Connectiong closed with: Closed".to_owned()),
            _ => None,
        }
    }

    /// Whether the negotiation is complete, so that its deadline is void.
    pub fn completes_negotiation(self) -> (r: bool)
        ensures
            r <==> self is Connected,
    {
        match self {
            PeerConnectionState::Connected => true,
            _ => false,
        }
    }
}

/// A reason names the source of the report that ended the session: those of the
/// DTLS transport, the ICE connection and the peer connection differ.
pub proof fn law_reasons_name_their_source(
    dtls: DtlsTransportState,
    ice: IceConnectionState,
    peer: PeerConnectionState,
)
    ensures
        dtls.spec_end_reason() is Some ==> dtls.spec_end_reason() != ice.spec_end_reason()
            && dtls.spec_end_reason() != peer.spec_end_reason(),
        ice.spec_end_reason() is Some ==> ice.spec_end_reason() != peer.spec_end_reason(),
{
    reveal_strlit("DTLS closed with: Failed");
    reveal_strlit("DTLS closed with: Closed");
    reveal_strlit("ICE closed with: Failed");
    reveal_strlit("ICE closed with: Closed");
    reveal_strlit("ICE closed with: Disconnected");
    reveal_strlit("Connectiong closed with: Disconnected");
    reveal_strlit("Connectiong closed with: Failed");
    reveal_strlit("Connectiong closed with: Closed");
    if dtls.spec_end_reason() is Some {
        assert(dtls.spec_end_reason()->0[0] == 'D');
    }
    if ice.spec_end_reason() is Some {
        assert(ice.spec_end_reason()->0[0] == 'I');
    }
    if peer.spec_end_reason() is Some {
        assert(peer.spec_end_reason()->0[0] == 'C');
    }
}

/// A session ends exactly when its transport failed or closed, when its ICE connection
/// failed, closed or was lost, or when its peer connection was lost, failed or closed;
/// and the reason says in which state.
pub proof fn law_states_that_end_a_session(
    dtls: DtlsTransportState,
    ice: IceConnectionState,
    peer: PeerConnectionState,
)
    ensures
        dtls.spec_end_reason() is Some <==> (dtls is Failed || dtls is Closed),
        ice.spec_end_reason() is Some <==> (ice is Failed || ice is Closed || ice is Disconnected),
        peer.spec_end_reason() is Some <==> (peer is Disconnected || peer is Failed
            || peer is Closed),
        dtls is Failed ==> dtls.spec_end_reason() == Some("DTLS closed with: "@ + "Failed"@),
        dtls is Closed ==> dtls.spec_end_reason() == Some("DTLS closed with: "@ + "Closed"@),
        ice is Failed ==> ice.spec_end_reason() == Some("ICE closed with: "@ + "Failed"@),
        ice is Closed ==> ice.spec_end_reason() == Some("ICE closed with: "@ + "Closed"@),
        ice is Disconnected ==> ice.spec_end_reason() == Some(
            "ICE closed with: "@ + "Disconnected"@,
        ),
        peer is Failed ==> peer.spec_end_reason() == Some(
            "Connectiong closed with: "@ + "Failed"@,
        ),
        peer is Closed ==> peer.spec_end_reason() == Some(
            "Connectiong closed with: "@ + "Closed"@,
        ),
        peer is Disconnected ==> peer.spec_end_reason() == Some(
            "Connectiong closed with: "@ + "Disconnected"@,
        ),
{
    reveal_strlit("Failed");
    reveal_strlit("Closed");
    reveal_strlit("Disconnected");
    reveal_strlit("DTLS closed with: ");
    reveal_strlit("ICE closed with: ");
    reveal_strlit("Connectiong closed with: ");
    reveal_strlit("DTLS closed with: Failed");
    reveal_strlit("DTLS closed with: Closed");
    reveal_strlit("ICE closed with: Failed");
    reveal_strlit("ICE closed with: Closed");
    reveal_strlit("ICE closed with: Disconnected");
    reveal_strlit("Connectiong closed with: Disconnected");
    reveal_strlit("Connectiong closed with: Failed");
    reveal_strlit("Connectiong closed with: Closed");
    assert("DTLS closed with: Failed"@ =~= "DTLS closed with: "@ + "Failed"@);
    assert("DTLS closed with: Closed"@ =~= "DTLS closed with: "@ + "Closed"@);
    assert("ICE closed with: Failed"@ =~= "ICE closed with: "@ + "Failed"@);
    assert("ICE closed with: Closed"@ =~= "ICE closed with: "@ + "Closed"@);
    assert("ICE closed with: Disconnected"@ =~= "ICE closed with: "@ + "Disconnected"@);
    assert("Connectiong closed with: Failed"@ =~= "Connectiong closed with: "@ + "Failed"@);
    assert("Connectiong closed with: Closed"@ =~= "Connectiong closed with: "@ + "Closed"@);
    assert("Connectiong closed with: Disconnected"@ =~= "Connectiong closed with: "@
        + "Disconnected"@);
}

} // verus!
