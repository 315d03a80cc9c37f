//! Turning service requests into enclave command inputs.
use crate::error::Error;
use crate::streaming::MsgUpdateClient;
use crate::types::{Address, Any, ClientId, Height};
use vstd::prelude::*;
use vstd::string::StrSliceExecFns;

verus! {

/// A character allowed in an identifier: alphanumeric or one of `._+-#[]<>`.
pub open spec fn is_identifier_char(c: char) -> bool {
    ||| 'a' <= c <= 'z'
    ||| 'A' <= c <= 'Z'
    ||| '0' <= c <= '9'
    ||| c == '.' || c == '_' || c == '+' || c == '-' || c == '#'
    ||| c == '[' || c == ']' || c == '<' || c == '>'
}

/// A client identifier: 9 to 64 allowed characters.
pub open spec fn is_client_identifier(s: Seq<char>) -> bool {
    &&& 9 <= s.len() <= 64
    &&& forall|i: int| 0 <= i < s.len() ==> is_identifier_char(#[trigger] s[i])
}

fn identifier_char(c: char) -> (r: bool)
    ensures
        r == is_identifier_char(c),
{
    ('a' <= c && c <= 'z') || ('A' <= c && c <= 'Z') || ('0' <= c && c <= '9') || c == '.' || c
        == '_' || c == '+' || c == '-' || c == '#' || c == '[' || c == ']' || c == '<' || c == '>'
}

impl ClientId {
    /// Reads a client identifier, checking its length and characters.
    pub fn parse(s: &str) -> (r: Result<ClientId, Error>)
        ensures
            r is Ok <==> is_client_identifier(s@),
            r matches Ok(id) ==> id.0@ == s@,
            r is Err ==> r == Err::<ClientId, Error>(Error::InputValidation),
    {
        let n = s.unicode_len();
        if n < 9 || n > 64 {
            return Err(Error::InputValidation);
        }
        let mut i: usize = 0;
        while i < n
            invariant
                0 <= i <= n,
                n == s@.len(),
                forall|j: int| 0 <= j < i ==> is_identifier_char(#[trigger] s@[j]),
            decreases n - i,
        {
            if !identifier_char(s.get_char(i)) {
                return Err(Error::InputValidation);
            }
            i = i + 1;
        }
        Ok(ClientId(s.to_owned()))
    }
}

impl Address {
    /// Reads an address from exactly 20 bytes.
    pub fn try_from_slice(b: &[u8]) -> (r: Result<Address, Error>)
        ensures
            r is Ok <==> b@.len() == 20,
            r matches Ok(a) ==> a.0@ == b@,
            r is Err ==> r == Err::<Address, Error>(Error::InputValidation),
    {
        if b.len() != 20 {
            return Err(Error::InputValidation);
        }
        let mut a = [0u8; 20];
        let mut i: usize = 0;
        while i < 20
            invariant
                0 <= i <= 20,
                b@.len() == 20,
                a@.len() == 20,
                forall|j: int| 0 <= j < i ==> a@[j] == b@[j],
            decreases 20 - i,
        {
            a[i] = b[i];
            i = i + 1;
        }
        assert(a@ =~= b@);
        Ok(Address(a))
    }
}

/// The input of an update-client command.
#[derive(Clone, Debug, PartialEq, Eq)]
pub struct UpdateClientInput {
    pub client_id: ClientId,
    pub any_header: Any,
    pub include_state: bool,
    pub signer: Address,
}

impl UpdateClientInput {
    /// Checks a request: the header must be there, the client identifier
    /// well formed, the signer 20 bytes.
    pub fn try_from_msg(msg: MsgUpdateClient) -> (r: Result<UpdateClientInput, Error>)
        ensures
            r is Ok <==> msg.header is Some && is_client_identifier(msg.client_id@)
                && msg.signer@.len() == 20,
            r matches Ok(input) ==> {
                &&& input.client_id.0@ == msg.client_id@
                &&& input.any_header == msg.header->0
                &&& input.include_state == msg.include_state
                &&& input.signer.0@ == msg.signer@
            },
            r is Err ==> r == Err::<UpdateClientInput, Error>(Error::InputValidation),
    {
        let any_header = match msg.header {
            Some(h) => h,
            None => return Err(Error::InputValidation),
        };
        let client_id = match ClientId::parse(&msg.client_id) {
            Ok(id) => id,
            Err(e) => return Err(e),
        };
        let signer = match Address::try_from_slice(msg.signer.as_slice()) {
            Ok(a) => a,
            Err(e) => return Err(e),
        };
        Ok(UpdateClientInput { client_id, any_header, include_state: msg.include_state, signer })
    }
}

/// A request to aggregate signed update messages.
#[derive(Clone, Debug, PartialEq, Eq)]
pub struct MsgAggregateMessages {
    pub signer: Vec<u8>,
    pub messages: Vec<Vec<u8>>,
    pub signatures: Vec<Vec<u8>>,
}

/// The input of an aggregate-messages command.
#[derive(Clone, Debug, PartialEq, Eq)]
pub struct AggregateMessagesInput {
    pub signer: Address,
    pub messages: Vec<Vec<u8>>,
    pub signatures: Vec<Vec<u8>>,
}

impl AggregateMessagesInput {
    /// Checks a request: the signer must be 20 bytes.
    pub fn try_from_msg(msg: MsgAggregateMessages) -> (r: Result<AggregateMessagesInput, Error>)
        ensures
            r is Ok <==> msg.signer@.len() == 20,
            r matches Ok(input) ==> input.signer.0@ == msg.signer@ && input.messages
                == msg.messages && input.signatures == msg.signatures,
            r is Err ==> r == Err::<AggregateMessagesInput, Error>(Error::InputValidation),
    {
        let signer = match Address::try_from_slice(msg.signer.as_slice()) {
            Ok(a) => a,
            Err(e) => return Err(e),
        };
        Ok(AggregateMessagesInput { signer, messages: msg.messages, signatures: msg.signatures })
    }
}

/// A request to create a client from its initial states.
#[derive(Clone, Debug, PartialEq, Eq)]
pub struct MsgCreateClient {
    pub client_id: String,
    pub client_state: Option<Any>,
    pub consensus_state: Option<Any>,
    pub signer: Vec<u8>,
}

/// The input of a create-client command.
#[derive(Clone, Debug, PartialEq, Eq)]
pub struct InitClientInput {
    pub client_id: String,
    pub any_client_state: Any,
    pub any_consensus_state: Any,
    pub signer: Address,
}

impl InitClientInput {
    /// Checks a request: both states must be there and the signer 20 bytes.
    pub fn try_from_msg(msg: MsgCreateClient) -> (r: Result<InitClientInput, Error>)
        ensures
            r is Ok <==> msg.client_state is Some && msg.consensus_state is Some
                && msg.signer@.len() == 20,
            r matches Ok(input) ==> {
                &&& input.client_id == msg.client_id
                &&& input.any_client_state == msg.client_state->0
                &&& input.any_consensus_state == msg.consensus_state->0
                &&& input.signer.0@ == msg.signer@
            },
            r is Err ==> r == Err::<InitClientInput, Error>(Error::InputValidation),
    {
        let any_client_state = match msg.client_state {
            Some(s) => s,
            None => return Err(Error::InputValidation),
        };
        let any_consensus_state = match msg.consensus_state {
            Some(s) => s,
            None => return Err(Error::InputValidation),
        };
        let signer = match Address::try_from_slice(msg.signer.as_slice()) {
            Ok(a) => a,
            Err(e) => return Err(e),
        };
        Ok(InitClientInput { client_id: msg.client_id, any_client_state, any_consensus_state, signer })
    }
}

/// A request to verify that a value is (or is not) stored at a path.
#[derive(Clone, Debug, PartialEq, Eq)]
pub struct MsgVerifyMembership {
    pub client_id: String,
    pub prefix: Vec<u8>,
    pub path: String,
    pub value: Vec<u8>,
    pub proof_height: Option<Height>,
    pub proof: Vec<u8>,
    pub signer: Vec<u8>,
}

/// A request to verify that nothing is stored at a path.
#[derive(Clone, Debug, PartialEq, Eq)]
pub struct MsgVerifyNonMembership {
    pub client_id: String,
    pub prefix: Vec<u8>,
    pub path: String,
    pub proof_height: Option<Height>,
    pub proof: Vec<u8>,
    pub signer: Vec<u8>,
}

/// A proof of (non-)membership and the height it was made at.
#[derive(Clone, Debug, PartialEq, Eq)]
pub struct CommitmentProofPair(pub Height, pub Vec<u8>);

/// The input of a membership command.
#[derive(Clone, Debug, PartialEq, Eq)]
pub struct VerifyMembershipInput {
    pub client_id: ClientId,
    pub prefix: Vec<u8>,
    pub proof: CommitmentProofPair,
    pub path: String,
    pub value: Vec<u8>,
    pub signer: Address,
}

/// The input of a non-membership command.
#[derive(Clone, Debug, PartialEq, Eq)]
pub struct VerifyNonMembershipInput {
    pub client_id: ClientId,
    pub prefix: Vec<u8>,
    pub proof: CommitmentProofPair,
    pub path: String,
    pub signer: Address,
}

/// Whether a membership request is well formed: a client identifier, a proof
/// height and a 20-byte signer.
pub open spec fn is_valid_membership_request(msg: MsgVerifyMembership) -> bool {
    is_client_identifier(msg.client_id@) && msg.proof_height is Some && msg.signer@.len() == 20
}

impl VerifyMembershipInput {
    /// Checks a membership request.
    pub fn try_from_msg(msg: MsgVerifyMembership) -> (r: Result<VerifyMembershipInput, Error>)
        ensures
            r is Ok <==> is_valid_membership_request(msg),
            r matches Ok(input) ==> {
                &&& input.client_id.0@ == msg.client_id@
                &&& input.prefix == msg.prefix
                &&& input.proof == CommitmentProofPair(msg.proof_height->0, msg.proof)
                &&& input.path == msg.path
                &&& input.value == msg.value
                &&& input.signer.0@ == msg.signer@
            },
            r is Err ==> r == Err::<VerifyMembershipInput, Error>(Error::InputValidation),
    {
        let client_id = match ClientId::parse(&msg.client_id) {
            Ok(id) => id,
            Err(e) => return Err(e),
        };
        let height = match msg.proof_height {
            Some(h) => h,
            None => return Err(Error::InputValidation),
        };
        let signer = match Address::try_from_slice(msg.signer.as_slice()) {
            Ok(a) => a,
            Err(e) => return Err(e),
        };
        Ok(
            VerifyMembershipInput {
                client_id,
                prefix: msg.prefix,
                proof: CommitmentProofPair(height, msg.proof),
                path: msg.path,
                value: msg.value,
                signer,
            },
        )
    }
}

impl VerifyNonMembershipInput {
    /// Checks a non-membership request: a client identifier, a proof height
    /// and a 20-byte signer.
    pub fn try_from_msg(msg: MsgVerifyNonMembership) -> (r: Result<VerifyNonMembershipInput, Error>)
        ensures
            r is Ok <==> is_client_identifier(msg.client_id@) && msg.proof_height is Some
                && msg.signer@.len() == 20,
            r matches Ok(input) ==> {
                &&& input.client_id.0@ == msg.client_id@
                &&& input.prefix == msg.prefix
                &&& input.proof == CommitmentProofPair(msg.proof_height->0, msg.proof)
                &&& input.path == msg.path
                &&& input.signer.0@ == msg.signer@
            },
            r is Err ==> r == Err::<VerifyNonMembershipInput, Error>(Error::InputValidation),
    {
        let client_id = match ClientId::parse(&msg.client_id) {
            Ok(id) => id,
            Err(e) => return Err(e),
        };
        let height = match msg.proof_height {
            Some(h) => h,
            None => return Err(Error::InputValidation),
        };
        let signer = match Address::try_from_slice(msg.signer.as_slice()) {
            Ok(a) => a,
            Err(e) => return Err(e),
        };
        Ok(
            VerifyNonMembershipInput {
                client_id,
                prefix: msg.prefix,
                proof: CommitmentProofPair(height, msg.proof),
                path: msg.path,
                signer,
            },
        )
    }
}

/// The input of a client query.
#[derive(Clone, Debug, PartialEq, Eq)]
pub struct QueryClientInput {
    pub client_id: ClientId,
}

impl QueryClientInput {
    /// Checks the queried client identifier.
    pub fn try_from_client_id(client_id: &str) -> (r: Result<QueryClientInput, Error>)
        ensures
            r is Ok <==> is_client_identifier(client_id@),
            r matches Ok(q) ==> q.client_id.0@ == client_id@,
            r is Err ==> r == Err::<QueryClientInput, Error>(Error::InputValidation),
    {
        match ClientId::parse(client_id) {
            Ok(id) => Ok(QueryClientInput { client_id: id }),
            Err(e) => Err(e),
        }
    }
}

} // verus!
