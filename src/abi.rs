//! Values of the Ethereum ABI's data model and the calls into the crates that
//! encode and decode them.
use alloy_sol_types::SolValue;
use ethabi::ethereum_types::{H160, U256};
use ethabi::{ParamType, Token};
use prost::Message;
use vstd::prelude::*;

verus! {

/// The mathematical value of an ABI value.
pub enum AbiData {
    Address(Seq<u8>),
    FixedBytes(Seq<u8>),
    Bytes(Seq<u8>),
    Int(int),
    Uint(int),
    Bool(bool),
    Str(Seq<char>),
    FixedArray(Seq<AbiData>),
    Array(Seq<AbiData>),
    Tuple(Seq<AbiData>),
}

/// The mathematical value of an ABI parameter type.
pub enum AbiParamModel {
    Address,
    Bytes,
    Uint(nat),
    Str,
    Array(Box<AbiParamModel>),
    FixedBytes(nat),
    Tuple(Seq<AbiParamModel>),
}

/// An ABI value, laid out as `ethabi`'s token; a 256-bit word is four 64-bit
/// limbs, least significant first.
#[derive(Debug)]
pub enum AbiValue {
    Address([u8; 20]),
    FixedBytes(Vec<u8>),
    Bytes(Vec<u8>),
    Int([u64; 4]),
    Uint([u64; 4]),
    Bool(bool),
    Str(String),
    FixedArray(Vec<AbiValue>),
    Array(Vec<AbiValue>),
    Tuple(Vec<AbiValue>),
}

/// An ABI parameter type, laid out as `ethabi`'s parameter type.
#[derive(Debug)]
pub enum AbiParam {
    Address,
    Bytes,
    Uint(usize),
    Str,
    Array(Box<AbiParam>),
    FixedBytes(usize),
    Tuple(Vec<AbiParam>),
}

/// The integer that four little-endian 64-bit limbs stand for.
pub open spec fn word_value(l: Seq<u64>) -> int {
    l[0] + l[1] * 0x1_0000_0000_0000_0000 + l[2] * 0x1_0000_0000_0000_0000_0000_0000_0000_0000
        + l[3] * 0x1_0000_0000_0000_0000_0000_0000_0000_0000_0000_0000_0000_0000
}

impl View for AbiValue {
    type V = AbiData;

    open spec fn view(&self) -> AbiData
        decreases self,
    {
        match self {
            AbiValue::Address(a) => AbiData::Address(a@),
            AbiValue::FixedBytes(b) => AbiData::FixedBytes(b@),
            AbiValue::Bytes(b) => AbiData::Bytes(b@),
            AbiValue::Int(l) => AbiData::Int(word_value(l@)),
            AbiValue::Uint(l) => AbiData::Uint(word_value(l@)),
            AbiValue::Bool(b) => AbiData::Bool(*b),
            AbiValue::Str(s) => AbiData::Str(s@),
            AbiValue::FixedArray(vs) => AbiData::FixedArray(
                Seq::new(
                    vs@.len(),
                    |i: int|
                        if 0 <= i < vs@.len() {
                            vs@[i].view()
                        } else {
                            AbiData::Bool(false)
                        },
                ),
            ),
            AbiValue::Array(vs) => AbiData::Array(
                Seq::new(
                    vs@.len(),
                    |i: int|
                        if 0 <= i < vs@.len() {
                            vs@[i].view()
                        } else {
                            AbiData::Bool(false)
                        },
                ),
            ),
            AbiValue::Tuple(vs) => AbiData::Tuple(
                Seq::new(
                    vs@.len(),
                    |i: int|
                        if 0 <= i < vs@.len() {
                            vs@[i].view()
                        } else {
                            AbiData::Bool(false)
                        },
                ),
            ),
        }
    }
}

impl View for AbiParam {
    type V = AbiParamModel;

    open spec fn view(&self) -> AbiParamModel
        decreases self,
    {
        match self {
            AbiParam::Address => AbiParamModel::Address,
            AbiParam::Bytes => AbiParamModel::Bytes,
            AbiParam::Uint(n) => AbiParamModel::Uint(*n as nat),
            AbiParam::Str => AbiParamModel::Str,
            AbiParam::Array(p) => AbiParamModel::Array(Box::new((**p).view())),
            AbiParam::FixedBytes(n) => AbiParamModel::FixedBytes(*n as nat),
            AbiParam::Tuple(ps) => AbiParamModel::Tuple(
                Seq::new(
                    ps@.len(),
                    |i: int|
                        if 0 <= i < ps@.len() {
                            ps@[i].view()
                        } else {
                            AbiParamModel::Bytes
                        },
                ),
            ),
        }
    }
}

pub open spec fn data_of(vs: Seq<AbiValue>) -> Seq<AbiData> {
    vs.map_values(|v: AbiValue| v@)
}

pub open spec fn params_of(ps: Seq<AbiParam>) -> Seq<AbiParamModel> {
    ps.map_values(|p: AbiParam| p@)
}

/// Parameter types that `ethabi::decode` reads without overflow or an
/// unbounded loop: byte strings of at most one word and non-empty tuples.
pub open spec fn decodable(p: AbiParamModel) -> bool
    decreases p,
{
    match p {
        AbiParamModel::FixedBytes(n) => 1 <= n <= 32,
        AbiParamModel::Uint(n) => 8 <= n <= 256,
        AbiParamModel::Array(q) => decodable(*q),
        AbiParamModel::Tuple(ps) => ps.len() > 0 && forall|i: int|
            0 <= i < ps.len() ==> decodable(#[trigger] ps[i]),
        _ => true,
    }
}

#[verifier::external_type_specification]
#[verifier::external_body]
pub struct ExToken(ethabi::Token);

#[verifier::external_type_specification]
#[verifier::external_body]
pub struct ExParamType(ethabi::ParamType);

/// Converts a value into `ethabi`'s token, variant for variant; only the
/// `ethabi` wrappers below call it.
#[verifier::external_body]
fn token_of(v: AbiValue) -> Token {
    match v {
        AbiValue::Address(a) => Token::Address(H160(a)),
        AbiValue::FixedBytes(b) => Token::FixedBytes(b),
        AbiValue::Bytes(b) => Token::Bytes(b),
        AbiValue::Int(l) => Token::Int(U256(l)),
        AbiValue::Uint(l) => Token::Uint(U256(l)),
        AbiValue::Bool(b) => Token::Bool(b),
        AbiValue::Str(s) => Token::String(s),
        AbiValue::FixedArray(vs) => Token::FixedArray(vs.into_iter().map(token_of).collect()),
        AbiValue::Array(vs) => Token::Array(vs.into_iter().map(token_of).collect()),
        AbiValue::Tuple(vs) => Token::Tuple(vs.into_iter().map(token_of).collect()),
    }
}

/// Converts `ethabi`'s token into a value, variant for variant; only the
/// `ethabi` wrappers below call it.
#[verifier::external_body]
fn value_of(t: Token) -> AbiValue {
    match t {
        Token::Address(a) => AbiValue::Address(a.0),
        Token::FixedBytes(b) => AbiValue::FixedBytes(b),
        Token::Bytes(b) => AbiValue::Bytes(b),
        Token::Int(x) => AbiValue::Int(x.0),
        Token::Uint(x) => AbiValue::Uint(x.0),
        Token::Bool(b) => AbiValue::Bool(b),
        Token::String(s) => AbiValue::Str(s),
        Token::FixedArray(ts) => AbiValue::FixedArray(ts.into_iter().map(value_of).collect()),
        Token::Array(ts) => AbiValue::Array(ts.into_iter().map(value_of).collect()),
        Token::Tuple(ts) => AbiValue::Tuple(ts.into_iter().map(value_of).collect()),
    }
}

/// Converts a parameter type into `ethabi`'s, variant for variant; only the
/// `ethabi` wrappers below call it.
#[verifier::external_body]
fn param_type_of(p: &AbiParam) -> ParamType {
    match p {
        AbiParam::Address => ParamType::Address,
        AbiParam::Bytes => ParamType::Bytes,
        AbiParam::Uint(n) => ParamType::Uint(*n),
        AbiParam::Str => ParamType::String,
        AbiParam::Array(q) => ParamType::Array(Box::new(param_type_of(q))),
        AbiParam::FixedBytes(n) => ParamType::FixedBytes(*n),
        AbiParam::Tuple(ps) => ParamType::Tuple(ps.iter().map(param_type_of).collect()),
    }
}

/// The ABI encoding of a sequence of values.
pub uninterp spec fn abi_encoding(values: Seq<AbiData>) -> Seq<u8>;

/// The values that bytes decode to as a sequence of parameters of the given
/// types, or `None` where they do not.
pub uninterp spec fn abi_decoding(params: Seq<AbiParamModel>, bytes: Seq<u8>) -> Option<
    Seq<AbiData>,
>;

/// Relies on `ethabi::encode`, whose result depends on the tokens alone.
#[verifier::external_body]
pub(crate) fn abi_encode(values: Vec<AbiValue>) -> (r: Vec<u8>)
    ensures
        r@ == abi_encoding(data_of(values@)),
{
    ethabi::encode(&values.into_iter().map(token_of).collect::<Vec<_>>())
}

/// Relies on `ethabi::decode`, whose result depends on the parameter types
/// and the bytes alone.
#[verifier::external_body]
pub(crate) fn abi_decode(params: &Vec<AbiParam>, bytes: &[u8]) -> (r: Option<Vec<AbiValue>>)
    requires
        forall|i: int| 0 <= i < params@.len() ==> decodable(#[trigger] params@[i]@),
    ensures
        r matches Some(vs) ==> abi_decoding(params_of(params@), bytes@) == Some(data_of(vs@)),
        r is None ==> abi_decoding(params_of(params@), bytes@) is None,
{
    let types = params.iter().map(param_type_of).collect::<Vec<_>>();
    ethabi::decode(&types, bytes).ok().map(|ts| ts.into_iter().map(value_of).collect())
}

/// The ABI encoding of the tuple `(bytes32 header, bytes message)`.
pub uninterp spec fn headered_encoding(header: Seq<u8>, message: Seq<u8>) -> Seq<u8>;

/// The `(bytes32 header, bytes message)` tuple that bytes decode to, if any.
pub uninterp spec fn headered_decoding(bytes: Seq<u8>) -> Option<(Seq<u8>, Seq<u8>)>;

/// Relies on `alloy_sol_types::SolValue::abi_encode` of the tuple
/// `(FixedBytes<32>, Bytes)`, i.e. `(bytes32, bytes)`.
#[verifier::external_body]
pub(crate) fn encode_headered(header: [u8; 32], message: Vec<u8>) -> (r: Vec<u8>)
    ensures
        r@ == headered_encoding(header@, message@),
{
    (alloy_sol_types::private::FixedBytes::<32>(header), alloy_sol_types::private::Bytes::from(
        message,
    )).abi_encode()
}

/// Relies on `alloy_sol_types::SolValue::abi_decode` (validating) of the tuple
/// `(FixedBytes<32>, Bytes)`.
#[verifier::external_body]
pub(crate) fn decode_headered(bytes: &[u8]) -> (r: Option<([u8; 32], Vec<u8>)>)
    ensures
        r matches Some(p) ==> headered_decoding(bytes@) == Some((p.0@, p.1@)),
        r is None ==> headered_decoding(bytes@) is None,
{
    <(alloy_sol_types::private::FixedBytes<32>, alloy_sol_types::private::Bytes)>::abi_decode(
        bytes,
        true,
    ).ok().map(|(h, m)| (h.0, m.to_vec()))
}

/// The protobuf encoding of a `google.protobuf.Any`.
pub uninterp spec fn any_encoding(type_url: Seq<char>, value: Seq<u8>) -> Seq<u8>;

/// The `google.protobuf.Any` that bytes decode to, if any.
pub uninterp spec fn any_decoding(bytes: Seq<u8>) -> Option<(Seq<char>, Seq<u8>)>;

/// Relies on `prost::Message::encode_to_vec` of `prost_types::Any`.
#[verifier::external_body]
pub(crate) fn encode_any(type_url: &String, value: &Vec<u8>) -> (r: Vec<u8>)
    ensures
        r@ == any_encoding(type_url@, value@),
{
    prost_types::Any { type_url: type_url.clone(), value: value.clone() }.encode_to_vec()
}

/// Relies on `prost::Message::decode` of `prost_types::Any`.
#[verifier::external_body]
pub(crate) fn decode_any(bytes: &[u8]) -> (r: Option<(String, Vec<u8>)>)
    ensures
        r matches Some(p) ==> any_decoding(bytes@) == Some((p.0@, p.1@)),
        r is None ==> any_decoding(bytes@) is None,
{
    prost_types::Any::decode(bytes).ok().map(|a| (a.type_url, a.value))
}

} // verus!
