use crate::context::ValidationContext;
use crate::error::Error;
use crate::types::{Any, ClientId, Height, StateID, Time};
use vstd::prelude::*;

verus! {

/// Version of the message schema that this library writes and reads.
pub const MESSAGE_SCHEMA_VERSION: u16 = 1;

/// Size of the header that precedes every encoded message.
pub const MESSAGE_HEADER_SIZE: usize = 32;

/// Type tag of an update-state message.
pub const MESSAGE_TYPE_UPDATE_STATE: u16 = 1;

/// Type tag of a (non-)membership message.
pub const MESSAGE_TYPE_STATE: u16 = 2;

/// Type tag of a misbehaviour message.
pub const MESSAGE_TYPE_MISBEHAVIOUR: u16 = 3;

/// A state that a light client emitted at a height.
#[derive(Debug, Clone, PartialEq, Eq)]
pub struct EmittedState(pub Height, pub Any);

/// A transition of a light client from an optional previous state to a new one.
#[derive(Debug, Clone, PartialEq, Eq)]
pub struct UpdateClientMessage {
    pub prev_height: Option<Height>,
    pub prev_state_id: Option<StateID>,
    pub post_height: Height,
    pub post_state_id: StateID,
    pub timestamp: Time,
    pub context: ValidationContext,
    pub emitted_states: Vec<EmittedState>,
}

/// The name under which the proxy-message variant is known.
pub type UpdateStateProxyMessage = UpdateClientMessage;

/// The mathematical value of an update message.
pub struct UpdateStateModel {
    pub prev_height: Option<Height>,
    pub prev_state_id: Option<StateID>,
    pub post_height: Height,
    pub post_state_id: StateID,
    pub timestamp: Time,
    pub context: ValidationContext,
    pub emitted_states: Seq<EmittedState>,
}

impl View for UpdateClientMessage {
    type V = UpdateStateModel;

    open spec fn view(&self) -> UpdateStateModel {
        UpdateStateModel {
            prev_height: self.prev_height,
            prev_state_id: self.prev_state_id,
            post_height: self.post_height,
            post_state_id: self.post_state_id,
            timestamp: self.timestamp,
            context: self.context,
            emitted_states: self.emitted_states@,
        }
    }
}

/// An assertion that a value is (or, without one, is not) stored at a path
/// of a counterparty chain's state at a height.
#[derive(Debug, Clone, PartialEq, Eq)]
pub struct VerifyMembershipProxyMessage {
    pub prefix: Vec<u8>,
    pub path: String,
    pub value: Option<[u8; 32]>,
    pub height: Height,
    pub state_id: StateID,
}

/// A state that a misbehaviour refers to.
#[derive(Debug, Clone, Copy, PartialEq, Eq)]
pub struct PrevState {
    pub height: Height,
    pub state_id: StateID,
}

/// Evidence that a client saw conflicting states.
#[derive(Debug, Clone, PartialEq, Eq)]
pub struct MisbehaviourProxyMessage {
    pub client_id: ClientId,
    pub prev_states: Vec<PrevState>,
    pub context: ValidationContext,
}

/// A message that the enclave signs.
#[derive(Debug, Clone, PartialEq, Eq)]
pub enum ProxyMessage {
    UpdateState(UpdateClientMessage),
    VerifyMembership(VerifyMembershipProxyMessage),
    Misbehaviour(MisbehaviourProxyMessage),
}

/// The 32 header bytes of a message of a type: the schema version and the
/// type tag, big-endian, then zeros.
pub open spec fn header_bytes(message_type: u16) -> Seq<u8> {
    Seq::new(
        32,
        |i: int|
            if i == 0 {
                (MESSAGE_SCHEMA_VERSION / 256) as u8
            } else if i == 1 {
                (MESSAGE_SCHEMA_VERSION % 256) as u8
            } else if i == 2 {
                (message_type / 256) as u8
            } else if i == 3 {
                (message_type % 256) as u8
            } else {
                0u8
            },
    )
}

impl UpdateClientMessage {
    /// An update that starts from a previous height must move past it.
    pub open spec fn spec_is_valid(&self) -> bool {
        self.prev_height matches Some(h) ==> h.spec_precedes(self.post_height)
    }

    pub fn validate(&self) -> (r: Result<(), Error>)
        ensures
            r is Ok <==> self.spec_is_valid(),
            r is Err ==> r == Err::<(), Error>(Error::InvalidMessage),
    {
        match &self.prev_height {
            Some(h) => {
                if h.precedes(&self.post_height) {
                    Ok(())
                } else {
                    Err(Error::InvalidMessage)
                }
            },
            None => Ok(()),
        }
    }
}

impl ProxyMessage {
    pub open spec fn spec_message_type(&self) -> u16 {
        match self {
            ProxyMessage::UpdateState(_) => MESSAGE_TYPE_UPDATE_STATE,
            ProxyMessage::VerifyMembership(_) => MESSAGE_TYPE_STATE,
            ProxyMessage::Misbehaviour(_) => MESSAGE_TYPE_MISBEHAVIOUR,
        }
    }

    pub fn message_type(&self) -> (r: u16)
        ensures
            r == self.spec_message_type(),
    {
        match self {
            ProxyMessage::UpdateState(_) => MESSAGE_TYPE_UPDATE_STATE,
            ProxyMessage::VerifyMembership(_) => MESSAGE_TYPE_STATE,
            ProxyMessage::Misbehaviour(_) => MESSAGE_TYPE_MISBEHAVIOUR,
        }
    }

    /// The header that precedes the message's encoding.
    pub fn header(&self) -> (r: [u8; 32])
        ensures
            r@ == header_bytes(self.spec_message_type()),
    {
        let t = self.message_type();
        let mut header = [0u8; 32];
        header[0] = (MESSAGE_SCHEMA_VERSION / 256) as u8;
        header[1] = (MESSAGE_SCHEMA_VERSION % 256) as u8;
        header[2] = (t / 256) as u8;
        header[3] = (t % 256) as u8;
        assert(header@ =~= header_bytes(t));
        header
    }

    /// Whether the message respects the invariants of its variant.
    pub open spec fn spec_is_valid(&self) -> bool {
        match self {
            ProxyMessage::UpdateState(m) => m.spec_is_valid(),
            _ => true,
        }
    }

    pub fn validate(&self) -> (r: Result<(), Error>)
        ensures
            r is Ok <==> self.spec_is_valid(),
            r is Err ==> r == Err::<(), Error>(Error::InvalidMessage),
    {
        match self {
            ProxyMessage::UpdateState(m) => m.validate(),
            ProxyMessage::VerifyMembership(_) => Ok(()),
            ProxyMessage::Misbehaviour(_) => Ok(()),
        }
    }
}

impl TryFrom<ProxyMessage> for UpdateClientMessage {
    type Error = Error;

    fn try_from(m: ProxyMessage) -> (r: Result<UpdateClientMessage, Error>) {
        let actual = m.message_type();
        match m {
            ProxyMessage::UpdateState(c) => Ok(c),
            _ => Err(Error::UnexpectedMessageType { expected: MESSAGE_TYPE_UPDATE_STATE, actual }),
        }
    }
}

impl vstd::std_specs::convert::TryFromSpecImpl<ProxyMessage> for UpdateClientMessage {
    open spec fn obeys_try_from_spec() -> bool {
        true
    }

    open spec fn try_from_spec(m: ProxyMessage) -> Result<UpdateClientMessage, Error> {
        match m {
            ProxyMessage::UpdateState(c) => Ok(c),
            _ => Err(Error::UnexpectedMessageType { expected: MESSAGE_TYPE_UPDATE_STATE, actual: m.spec_message_type() }),
        }
    }
}

impl From<UpdateClientMessage> for ProxyMessage {
    fn from(c: UpdateClientMessage) -> (r: ProxyMessage) {
        ProxyMessage::UpdateState(c)
    }
}

impl vstd::std_specs::convert::FromSpecImpl<UpdateClientMessage> for ProxyMessage {
    open spec fn obeys_from_spec() -> bool {
        true
    }

    open spec fn from_spec(c: UpdateClientMessage) -> ProxyMessage {
        ProxyMessage::UpdateState(c)
    }
}

impl TryFrom<ProxyMessage> for VerifyMembershipProxyMessage {
    type Error = Error;

    fn try_from(m: ProxyMessage) -> (r: Result<VerifyMembershipProxyMessage, Error>) {
        let actual = m.message_type();
        match m {
            ProxyMessage::VerifyMembership(c) => Ok(c),
            _ => Err(Error::UnexpectedMessageType { expected: MESSAGE_TYPE_STATE, actual }),
        }
    }
}

impl vstd::std_specs::convert::TryFromSpecImpl<ProxyMessage> for VerifyMembershipProxyMessage {
    open spec fn obeys_try_from_spec() -> bool {
        true
    }

    open spec fn try_from_spec(m: ProxyMessage) -> Result<VerifyMembershipProxyMessage, Error> {
        match m {
            ProxyMessage::VerifyMembership(c) => Ok(c),
            _ => Err(Error::UnexpectedMessageType { expected: MESSAGE_TYPE_STATE, actual: m.spec_message_type() }),
        }
    }
}

impl From<VerifyMembershipProxyMessage> for ProxyMessage {
    fn from(c: VerifyMembershipProxyMessage) -> (r: ProxyMessage) {
        ProxyMessage::VerifyMembership(c)
    }
}

impl vstd::std_specs::convert::FromSpecImpl<VerifyMembershipProxyMessage> for ProxyMessage {
    open spec fn obeys_from_spec() -> bool {
        true
    }

    open spec fn from_spec(c: VerifyMembershipProxyMessage) -> ProxyMessage {
        ProxyMessage::VerifyMembership(c)
    }
}

impl TryFrom<ProxyMessage> for MisbehaviourProxyMessage {
    type Error = Error;

    fn try_from(m: ProxyMessage) -> (r: Result<MisbehaviourProxyMessage, Error>) {
        let actual = m.message_type();
        match m {
            ProxyMessage::Misbehaviour(c) => Ok(c),
            _ => Err(Error::UnexpectedMessageType { expected: MESSAGE_TYPE_MISBEHAVIOUR, actual }),
        }
    }
}

impl vstd::std_specs::convert::TryFromSpecImpl<ProxyMessage> for MisbehaviourProxyMessage {
    open spec fn obeys_try_from_spec() -> bool {
        true
    }

    open spec fn try_from_spec(m: ProxyMessage) -> Result<MisbehaviourProxyMessage, Error> {
        match m {
            ProxyMessage::Misbehaviour(c) => Ok(c),
            _ => Err(Error::UnexpectedMessageType { expected: MESSAGE_TYPE_MISBEHAVIOUR, actual: m.spec_message_type() }),
        }
    }
}

impl From<MisbehaviourProxyMessage> for ProxyMessage {
    fn from(c: MisbehaviourProxyMessage) -> (r: ProxyMessage) {
        ProxyMessage::Misbehaviour(c)
    }
}

impl vstd::std_specs::convert::FromSpecImpl<MisbehaviourProxyMessage> for ProxyMessage {
    open spec fn obeys_from_spec() -> bool {
        true
    }

    open spec fn from_spec(c: MisbehaviourProxyMessage) -> ProxyMessage {
        ProxyMessage::Misbehaviour(c)
    }
}

} // verus!
