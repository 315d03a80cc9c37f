//! The encoding of membership and misbehaviour bodies, and of whole messages
//! behind their header.
use crate::abi::{
    abi_decode, abi_decoding, abi_encode, abi_encoding, data_of, decodable, decode_headered,
    encode_headered, headered_decoding, headered_encoding, params_of, AbiData, AbiParam,
    AbiParamModel, AbiValue,
};
use crate::codec::{
    context_decode_error, context_decodes_to, context_encoding, height_data, height_of_value,
    height_param, height_value, is_bytes32_data, is_height_data, state_id_of_value,
    state_id_value, update_state_decode_error, update_state_decodes_to, update_state_encoding,
    vec_of_bytes32,
};
use crate::context::ValidationContext;
use crate::error::Error;
use crate::message::{
    header_bytes, MisbehaviourProxyMessage, PrevState, ProxyMessage, UpdateClientMessage,
    VerifyMembershipProxyMessage, MESSAGE_SCHEMA_VERSION, MESSAGE_TYPE_MISBEHAVIOUR,
    MESSAGE_TYPE_STATE, MESSAGE_TYPE_UPDATE_STATE,
};
use crate::types::{ClientId, Height, StateID};
use vstd::prelude::*;

verus! {

/// The 32 bytes written for an absent membership value.
pub open spec fn zero_bytes32() -> Seq<u8> {
    Seq::new(32, |i: int| 0u8)
}

pub open spec fn value_or_zero(v: Option<[u8; 32]>) -> Seq<u8> {
    match v {
        Some(a) => a@,
        None => zero_bytes32(),
    }
}

/// The ABI value of a membership message.
pub open spec fn verify_membership_data(m: VerifyMembershipProxyMessage) -> AbiData {
    AbiData::Tuple(
        seq![
            AbiData::Bytes(m.prefix@),
            AbiData::Str(m.path@),
            AbiData::FixedBytes(value_or_zero(m.value)),
            height_data(m.height),
            AbiData::FixedBytes(m.state_id.0@),
        ],
    )
}

pub open spec fn verify_membership_encoding(m: VerifyMembershipProxyMessage) -> Seq<u8> {
    abi_encoding(seq![verify_membership_data(m)])
}

pub open spec fn verify_membership_params() -> Seq<AbiParamModel> {
    seq![
        AbiParamModel::Tuple(
            seq![
                AbiParamModel::Bytes,
                AbiParamModel::Str,
                AbiParamModel::FixedBytes(32),
                AbiParamModel::Tuple(seq![AbiParamModel::Uint(64), AbiParamModel::Uint(64)]),
                AbiParamModel::FixedBytes(32),
            ],
        ),
    ]
}

pub open spec fn is_verify_membership(ds: Seq<AbiData>) -> bool {
    &&& ds.len() == 1
    &&& ds[0] is Tuple
    &&& ds[0]->Tuple_0.len() == 5
    &&& ds[0]->Tuple_0[0] is Bytes
    &&& ds[0]->Tuple_0[1] is Str
    &&& is_bytes32_data(ds[0]->Tuple_0[2])
    &&& is_height_data(ds[0]->Tuple_0[3])
    &&& is_bytes32_data(ds[0]->Tuple_0[4])
}

/// Why bytes are not the encoding of a membership body, if they are not.
pub open spec fn verify_membership_decode_error(bytes: Seq<u8>) -> Option<Error> {
    match abi_decoding(verify_membership_params(), bytes) {
        Some(ds) => if is_verify_membership(ds) {
            None
        } else {
            Some(Error::InvalidAbi)
        },
        None => Some(Error::InvalidAbi),
    }
}

/// Whether bytes decode to the membership message: an all-zero value reads
/// as absent.
pub open spec fn verify_membership_decodes_to(
    bytes: Seq<u8>,
    m: VerifyMembershipProxyMessage,
) -> bool {
    &&& abi_decoding(verify_membership_params(), bytes) matches Some(ds)
    &&& is_verify_membership(ds)
    &&& ds[0] == verify_membership_data(m)
    &&& !(m.value matches Some(a) && a@ == zero_bytes32())
}

/// The ABI value of a state a misbehaviour refers to.
pub open spec fn prev_state_data(p: PrevState) -> AbiData {
    AbiData::Tuple(seq![height_data(p.height), AbiData::FixedBytes(p.state_id.0@)])
}

/// The ABI value of a misbehaviour message.
pub open spec fn misbehaviour_data(m: MisbehaviourProxyMessage) -> AbiData {
    AbiData::Tuple(
        seq![
            AbiData::Str(m.client_id.0@),
            AbiData::Array(m.prev_states@.map_values(|p: PrevState| prev_state_data(p))),
            AbiData::Bytes(context_encoding(m.context)),
        ],
    )
}

pub open spec fn misbehaviour_encoding(m: MisbehaviourProxyMessage) -> Seq<u8> {
    abi_encoding(seq![misbehaviour_data(m)])
}

pub open spec fn prev_state_params() -> AbiParamModel {
    AbiParamModel::Tuple(
        seq![
            AbiParamModel::Tuple(seq![AbiParamModel::Uint(64), AbiParamModel::Uint(64)]),
            AbiParamModel::FixedBytes(32),
        ],
    )
}

pub open spec fn misbehaviour_params() -> Seq<AbiParamModel> {
    seq![
        AbiParamModel::Tuple(
            seq![
                AbiParamModel::Str,
                AbiParamModel::Array(Box::new(prev_state_params())),
                AbiParamModel::Bytes,
            ],
        ),
    ]
}

pub open spec fn is_prev_state(d: AbiData) -> bool {
    &&& d is Tuple
    &&& d->Tuple_0.len() == 2
    &&& is_height_data(d->Tuple_0[0])
    &&& is_bytes32_data(d->Tuple_0[1])
}

pub open spec fn is_misbehaviour(ds: Seq<AbiData>) -> bool {
    &&& ds.len() == 1
    &&& ds[0] is Tuple
    &&& ds[0]->Tuple_0.len() == 3
    &&& ds[0]->Tuple_0[0] is Str
    &&& ds[0]->Tuple_0[1] is Array
    &&& forall|i: int|
        0 <= i < ds[0]->Tuple_0[1]->Array_0.len() ==> is_prev_state(
            #[trigger] ds[0]->Tuple_0[1]->Array_0[i],
        )
    &&& ds[0]->Tuple_0[2] is Bytes
}

/// Why bytes are not the encoding of a misbehaviour body, if they are not.
pub open spec fn misbehaviour_decode_error(bytes: Seq<u8>) -> Option<Error> {
    match abi_decoding(misbehaviour_params(), bytes) {
        None => Some(Error::InvalidAbi),
        Some(ds) => if !is_misbehaviour(ds) {
            Some(Error::InvalidAbi)
        } else {
            context_decode_error(ds[0]->Tuple_0[2]->Bytes_0)
        },
    }
}

/// Whether bytes decode to the misbehaviour message.
pub open spec fn misbehaviour_decodes_to(bytes: Seq<u8>, m: MisbehaviourProxyMessage) -> bool {
    &&& abi_decoding(misbehaviour_params(), bytes) matches Some(ds)
    &&& is_misbehaviour(ds)
    &&& ds[0]->Tuple_0[0] == AbiData::Str(m.client_id.0@)
    &&& ds[0]->Tuple_0[1] == AbiData::Array(
        m.prev_states@.map_values(|p: PrevState| prev_state_data(p)),
    )
    &&& context_decodes_to(ds[0]->Tuple_0[2]->Bytes_0, m.context)
}

fn value_bytes(v: &Option<[u8; 32]>) -> (r: Vec<u8>)
    ensures
        r@ == value_or_zero(*v),
{
    match v {
        Some(a) => vec_of_bytes32(a),
        None => {
            let z = StateID::zero();
            vec_of_bytes32(&z.0)
        },
    }
}

fn verify_membership_param_types() -> (r: Vec<AbiParam>)
    ensures
        params_of(r@) == verify_membership_params(),
        forall|i: int| 0 <= i < r@.len() ==> decodable(#[trigger] r@[i]@),
{
    let f0 = AbiParam::Bytes;
    let f1 = AbiParam::Str;
    let f2 = AbiParam::FixedBytes(32);
    let f3 = height_param();
    let f4 = AbiParam::FixedBytes(32);
    assert(f0@ == AbiParamModel::Bytes && f1@ == AbiParamModel::Str);
    assert(f2@ == AbiParamModel::FixedBytes(32) && f4@ == AbiParamModel::FixedBytes(32));
    assert(decodable(f0@) && decodable(f1@) && decodable(f2@) && decodable(f4@));
    let ghost fs = seq![f0@, f1@, f2@, f3@, f4@];
    let mut t: Vec<AbiParam> = Vec::new();
    t.push(f0);
    t.push(f1);
    t.push(f2);
    t.push(f3);
    t.push(f4);
    let p = AbiParam::Tuple(t);
    assert(p@->Tuple_0 =~= fs);
    assert(p@ == verify_membership_params()[0]);
    let mut r: Vec<AbiParam> = Vec::new();
    r.push(p);
    assert(params_of(r@) =~= verify_membership_params());
    r
}

fn misbehaviour_param_types() -> (r: Vec<AbiParam>)
    ensures
        params_of(r@) == misbehaviour_params(),
        forall|i: int| 0 <= i < r@.len() ==> decodable(#[trigger] r@[i]@),
{
    let h = height_param();
    let b = AbiParam::FixedBytes(32);
    assert(b@ == AbiParamModel::FixedBytes(32) && decodable(b@));
    let ghost hv = h@;
    let mut e: Vec<AbiParam> = Vec::new();
    e.push(h);
    e.push(b);
    let ep = AbiParam::Tuple(e);
    assert(ep@->Tuple_0 =~= prev_state_params()->Tuple_0);
    assert(prev_state_params()->Tuple_0[0] == hv);
    assert(forall|i: int| 0 <= i < 2 ==> decodable(#[trigger] prev_state_params()->Tuple_0[i]));
    assert(decodable(prev_state_params()));
    let f1 = AbiParam::Array(Box::new(ep));
    assert(f1@ == AbiParamModel::Array(Box::new(prev_state_params())));
    let f0 = AbiParam::Str;
    let f2 = AbiParam::Bytes;
    assert(f0@ == AbiParamModel::Str && f2@ == AbiParamModel::Bytes);
    assert(decodable(f0@) && decodable(f1@) && decodable(f2@));
    let ghost fs = seq![f0@, f1@, f2@];
    let mut t: Vec<AbiParam> = Vec::new();
    t.push(f0);
    t.push(f1);
    t.push(f2);
    let p = AbiParam::Tuple(t);
    assert(p@->Tuple_0 =~= fs);
    assert(p@ == misbehaviour_params()[0]);
    let mut r: Vec<AbiParam> = Vec::new();
    r.push(p);
    assert(params_of(r@) =~= misbehaviour_params());
    r
}

impl VerifyMembershipProxyMessage {
    /// The ABI encoding of the message's body.
    pub fn ethabi_encode(&self) -> (r: Vec<u8>)
        ensures
            r@ == verify_membership_encoding(*self),
    {
        let f0 = AbiValue::Bytes(self.prefix.clone());
        let f1 = AbiValue::Str(self.path.clone());
        let f2 = AbiValue::FixedBytes(value_bytes(&self.value));
        let f3 = height_value(self.height);
        let f4 = state_id_value(&self.state_id);
        let ghost fs = seq![f0@, f1@, f2@, f3@, f4@];
        let mut t: Vec<AbiValue> = Vec::new();
        t.push(f0);
        t.push(f1);
        t.push(f2);
        t.push(f3);
        t.push(f4);
        let tuple = AbiValue::Tuple(t);
        assert(tuple@->Tuple_0 =~= fs);
        assert(tuple@ == verify_membership_data(*self));
        let mut vs: Vec<AbiValue> = Vec::new();
        vs.push(tuple);
        assert(data_of(vs@) =~= seq![verify_membership_data(*self)]);
        abi_encode(vs)
    }

    /// Reads the body of a membership message back.
    pub fn ethabi_decode(bytes: &[u8]) -> (r: Result<VerifyMembershipProxyMessage, Error>)
        ensures
            r matches Ok(m) ==> verify_membership_decode_error(bytes@) is None
                && verify_membership_decodes_to(bytes@, m),
            r matches Err(e) ==> verify_membership_decode_error(bytes@) == Some(e),
    {
        let ds = match abi_decode(&verify_membership_param_types(), bytes) {
            Some(ds) => ds,
            None => return Err(Error::InvalidAbi),
        };
        let ghost d = data_of(ds@);
        if ds.len() != 1 {
            return Err(Error::InvalidAbi);
        }
        assert(d[0] == ds@[0]@);
        let t = match &ds[0] {
            AbiValue::Tuple(t) => t,
            _ => return Err(Error::InvalidAbi),
        };
        if t.len() != 5 {
            return Err(Error::InvalidAbi);
        }
        assert(d[0]->Tuple_0[0] == t@[0]@);
        assert(d[0]->Tuple_0[1] == t@[1]@);
        assert(d[0]->Tuple_0[2] == t@[2]@);
        assert(d[0]->Tuple_0[3] == t@[3]@);
        assert(d[0]->Tuple_0[4] == t@[4]@);
        let prefix = match &t[0] {
            AbiValue::Bytes(b) => b.clone(),
            _ => return Err(Error::InvalidAbi),
        };
        let path = match &t[1] {
            AbiValue::Str(s) => s.clone(),
            _ => return Err(Error::InvalidAbi),
        };
        let value = match state_id_of_value(&t[2]) {
            Some(id) => id,
            None => return Err(Error::InvalidAbi),
        };
        let height = match height_of_value(&t[3]) {
            Some(h) => h,
            None => return Err(Error::InvalidAbi),
        };
        let state_id = match state_id_of_value(&t[4]) {
            Some(id) => id,
            None => return Err(Error::InvalidAbi),
        };
        let value = if value == StateID::zero() {
            None
        } else {
            Some(value.0)
        };
        let m = VerifyMembershipProxyMessage { prefix, path, value, height, state_id };
        assert(d[0]->Tuple_0 =~= verify_membership_data(m)->Tuple_0);
        Ok(m)
    }
}

impl MisbehaviourProxyMessage {
    /// The ABI encoding of the message's body.
    pub fn ethabi_encode(&self) -> (r: Vec<u8>)
        ensures
            r@ == misbehaviour_encoding(*self),
    {
        let mut items: Vec<AbiValue> = Vec::new();
        let mut i: usize = 0;
        while i < self.prev_states.len()
            invariant
                0 <= i <= self.prev_states@.len(),
                data_of(items@) == self.prev_states@.subrange(0, i as int).map_values(
                    |p: PrevState| prev_state_data(p),
                ),
            decreases self.prev_states@.len() - i,
        {
            let p = self.prev_states[i];
            let h = height_value(p.height);
            let b = state_id_value(&p.state_id);
            let ghost pair = seq![h@, b@];
            let mut vs: Vec<AbiValue> = Vec::new();
            vs.push(h);
            vs.push(b);
            let v = AbiValue::Tuple(vs);
            assert(v@->Tuple_0 =~= pair);
            let ghost before = data_of(items@);
            items.push(v);
            assert(data_of(items@) =~= before.push(prev_state_data(self.prev_states@[i as int])));
            assert(self.prev_states@.subrange(0, i + 1) =~= self.prev_states@.subrange(
                0,
                i as int,
            ).push(self.prev_states@[i as int]));
            i = i + 1;
        }
        assert(self.prev_states@.subrange(0, i as int) =~= self.prev_states@);
        let f0 = AbiValue::Str(self.client_id.0.clone());
        let f1 = AbiValue::Array(items);
        let f2 = AbiValue::Bytes(self.context.ethabi_encode());
        assert(f1@->Array_0 =~= self.prev_states@.map_values(|p: PrevState| prev_state_data(p)));
        let ghost fs = seq![f0@, f1@, f2@];
        let mut t: Vec<AbiValue> = Vec::new();
        t.push(f0);
        t.push(f1);
        t.push(f2);
        let tuple = AbiValue::Tuple(t);
        assert(tuple@->Tuple_0 =~= fs);
        assert(tuple@ == misbehaviour_data(*self));
        let mut vs: Vec<AbiValue> = Vec::new();
        vs.push(tuple);
        assert(data_of(vs@) =~= seq![misbehaviour_data(*self)]);
        abi_encode(vs)
    }

    /// Reads the body of a misbehaviour message back.
    #[verifier::loop_isolation(false)]
    pub fn ethabi_decode(bytes: &[u8]) -> (r: Result<MisbehaviourProxyMessage, Error>)
        ensures
            r matches Ok(m) ==> misbehaviour_decode_error(bytes@) is None
                && misbehaviour_decodes_to(bytes@, m),
            r matches Err(e) ==> misbehaviour_decode_error(bytes@) == Some(e),
    {
        let ds = match abi_decode(&misbehaviour_param_types(), bytes) {
            Some(ds) => ds,
            None => return Err(Error::InvalidAbi),
        };
        let ghost d = data_of(ds@);
        if ds.len() != 1 {
            return Err(Error::InvalidAbi);
        }
        assert(d[0] == ds@[0]@);
        let t = match &ds[0] {
            AbiValue::Tuple(t) => t,
            _ => return Err(Error::InvalidAbi),
        };
        if t.len() != 3 {
            return Err(Error::InvalidAbi);
        }
        assert(d[0]->Tuple_0[0] == t@[0]@);
        assert(d[0]->Tuple_0[1] == t@[1]@);
        assert(d[0]->Tuple_0[2] == t@[2]@);
        let client_id = match &t[0] {
            AbiValue::Str(s) => s.clone(),
            _ => return Err(Error::InvalidAbi),
        };
        let items = match &t[1] {
            AbiValue::Array(a) => a,
            _ => return Err(Error::InvalidAbi),
        };
        let context_bytes = match &t[2] {
            AbiValue::Bytes(b) => b,
            _ => return Err(Error::InvalidAbi),
        };
        let ghost arr = d[0]->Tuple_0[1]->Array_0;
        assert(arr.len() == items@.len());
        assert(forall|j: int| 0 <= j < items@.len() ==> arr[j] == (#[trigger] items@[j])@);
        let mut prev_states: Vec<PrevState> = Vec::new();
        let mut i: usize = 0;
        while i < items.len()
            invariant
                0 <= i <= items@.len(),
                prev_states@.len() == i,
                forall|j: int| 0 <= j < i ==> is_prev_state(#[trigger] arr[j]),
                forall|j: int|
                    0 <= j < i ==> (#[trigger] arr[j]) == prev_state_data(prev_states@[j]),
            decreases items@.len() - i,
        {
            let p = match &items[i] {
                AbiValue::Tuple(p) => p,
                _ => {
                    assert(!is_prev_state(arr[i as int]));
                    return Err(Error::InvalidAbi);
                },
            };
            if p.len() != 2 {
                assert(!is_prev_state(arr[i as int]));
                return Err(Error::InvalidAbi);
            }
            assert(arr[i as int]->Tuple_0[0] == p@[0]@);
            assert(arr[i as int]->Tuple_0[1] == p@[1]@);
            let height = match height_of_value(&p[0]) {
                Some(h) => h,
                None => {
                    assert(!is_prev_state(arr[i as int]));
                    return Err(Error::InvalidAbi);
                },
            };
            let state_id = match state_id_of_value(&p[1]) {
                Some(id) => id,
                None => {
                    assert(!is_prev_state(arr[i as int]));
                    return Err(Error::InvalidAbi);
                },
            };
            let ps = PrevState { height, state_id };
            assert(arr[i as int]->Tuple_0 =~= prev_state_data(ps)->Tuple_0);
            prev_states.push(ps);
            i = i + 1;
        }
        assert(is_misbehaviour(d));
        let context = match ValidationContext::ethabi_decode(context_bytes.as_slice()) {
            Ok(c) => c,
            Err(e) => return Err(e),
        };
        let m = MisbehaviourProxyMessage { client_id: ClientId(client_id), prev_states, context };
        assert(arr =~= m.prev_states@.map_values(|p: PrevState| prev_state_data(p)));
        Ok(m)
    }
}

/// The encoding of a message's body.
pub open spec fn body_encoding(m: ProxyMessage) -> Seq<u8> {
    match m {
        ProxyMessage::UpdateState(u) => update_state_encoding(u@),
        ProxyMessage::VerifyMembership(v) => verify_membership_encoding(v),
        ProxyMessage::Misbehaviour(x) => misbehaviour_encoding(x),
    }
}

/// The encoding of a message: the header and the body as the ABI tuple
/// `(bytes32, bytes)`.
pub open spec fn message_encoding(m: ProxyMessage) -> Seq<u8> {
    headered_encoding(header_bytes(m.spec_message_type()), body_encoding(m))
}

/// The big-endian 16-bit number at two positions of a header.
pub open spec fn be16(h: Seq<u8>, i: int) -> int {
    h[i] * 256 + h[i + 1]
}

/// Why bytes are not the encoding of a message, if they are not.
pub open spec fn message_decode_error(bytes: Seq<u8>) -> Option<Error> {
    match headered_decoding(bytes) {
        None => Some(Error::InvalidAbi),
        Some((h, body)) => if be16(h, 0) != MESSAGE_SCHEMA_VERSION {
            Some(Error::InvalidMessageHeader)
        } else if be16(h, 2) == MESSAGE_TYPE_UPDATE_STATE {
            update_state_decode_error(body)
        } else if be16(h, 2) == MESSAGE_TYPE_STATE {
            verify_membership_decode_error(body)
        } else if be16(h, 2) == MESSAGE_TYPE_MISBEHAVIOUR {
            misbehaviour_decode_error(body)
        } else {
            Some(Error::InvalidAbi)
        },
    }
}

/// Whether bytes decode to the message; the reserved header bytes are
/// ignored.
pub open spec fn message_decodes_to(bytes: Seq<u8>, m: ProxyMessage) -> bool {
    headered_decoding(bytes) matches Some((h, body)) && be16(h, 0) == MESSAGE_SCHEMA_VERSION
        && be16(h, 2) == m.spec_message_type() && match m {
        ProxyMessage::UpdateState(u) => update_state_decodes_to(body, u@),
        ProxyMessage::VerifyMembership(v) => verify_membership_decodes_to(body, v),
        ProxyMessage::Misbehaviour(x) => misbehaviour_decodes_to(body, x),
    }
}

impl ProxyMessage {
    /// The message's header followed by its ABI-encoded body.
    pub fn to_bytes(self) -> (r: Vec<u8>)
        ensures
            r@ == message_encoding(self),
    {
        let header = self.header();
        let body = match &self {
            ProxyMessage::UpdateState(c) => c.ethabi_encode(),
            ProxyMessage::VerifyMembership(c) => c.ethabi_encode(),
            ProxyMessage::Misbehaviour(c) => c.ethabi_encode(),
        };
        encode_headered(header, body)
    }

    /// Reads a message back from its encoding; fails on an unsupported
    /// version, an unknown type tag or a malformed body.
    pub fn from_bytes(bytes: &[u8]) -> (r: Result<ProxyMessage, Error>)
        ensures
            r matches Ok(m) ==> message_decode_error(bytes@) is None && message_decodes_to(
                bytes@,
                m,
            ),
            r matches Err(e) ==> message_decode_error(bytes@) == Some(e),
    {
        let (header, body) = match decode_headered(bytes) {
            Some(p) => p,
            None => return Err(Error::InvalidAbi),
        };
        let version = (header[0] as u16) * 256 + (header[1] as u16);
        if version != MESSAGE_SCHEMA_VERSION {
            return Err(Error::InvalidMessageHeader);
        }
        let message_type = (header[2] as u16) * 256 + (header[3] as u16);
        if message_type == MESSAGE_TYPE_UPDATE_STATE {
            match UpdateClientMessage::ethabi_decode(body.as_slice()) {
                Ok(m) => Ok(ProxyMessage::UpdateState(m)),
                Err(e) => Err(e),
            }
        } else if message_type == MESSAGE_TYPE_STATE {
            match VerifyMembershipProxyMessage::ethabi_decode(body.as_slice()) {
                Ok(m) => Ok(ProxyMessage::VerifyMembership(m)),
                Err(e) => Err(e),
            }
        } else if message_type == MESSAGE_TYPE_MISBEHAVIOUR {
            match MisbehaviourProxyMessage::ethabi_decode(body.as_slice()) {
                Ok(m) => Ok(ProxyMessage::Misbehaviour(m)),
                Err(e) => Err(e),
            }
        } else {
            Err(Error::InvalidAbi)
        }
    }
}

} // verus!
