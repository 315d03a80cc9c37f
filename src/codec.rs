//! Building the ABI values of messages and reading messages back from them.
use crate::abi::{
    abi_decode, abi_decoding, abi_encode, abi_encoding, data_of, decodable, params_of, word_value,
    AbiData, AbiParam, AbiParamModel, AbiValue,
};
use crate::context::{TrustingPeriodContext, ValidationContext};
use crate::error::Error;
use crate::abi::{any_decoding, any_encoding, decode_any, encode_any};
use crate::message::{EmittedState, UpdateClientMessage, UpdateStateModel};
use crate::types::{Any, Height, StateID, Time, MAX_UNIX_TIMESTAMP_NANOS};
use crate::update_client::{height_or_zero, state_id_or_zero};
use vstd::prelude::*;

verus! {

pub const WORD_64: u128 = 0x1_0000_0000_0000_0000;

/// A word that fits in 64 bits.
pub open spec fn is_u64_word(d: AbiData) -> bool {
    d is Uint && 0 <= d->Uint_0 < 0x1_0000_0000_0000_0000
}

/// A word that fits in 128 bits.
pub open spec fn is_u128_word(d: AbiData) -> bool {
    d is Uint && 0 <= d->Uint_0 < 0x1_0000_0000_0000_0000_0000_0000_0000_0000
}

proof fn lemma_word_range(l: Seq<u64>)
    requires
        l.len() == 4,
    ensures
        0 <= l[0] <= word_value(l),
        l[1] != 0 || l[2] != 0 || l[3] != 0 ==> word_value(l) >= 0x1_0000_0000_0000_0000,
        l[2] != 0 || l[3] != 0 ==> word_value(l) >= 0x1_0000_0000_0000_0000_0000_0000_0000_0000,
{
    let a = l[0] as int;
    let b = l[1] as int;
    let c = l[2] as int;
    let d = l[3] as int;
    assert(0 <= b * 0x1_0000_0000_0000_0000) by (nonlinear_arith)
        requires
            0 <= b,
    ;
    assert(0 <= c * 0x1_0000_0000_0000_0000_0000_0000_0000_0000) by (nonlinear_arith)
        requires
            0 <= c,
    ;
    assert(0 <= d * 0x1_0000_0000_0000_0000_0000_0000_0000_0000_0000_0000_0000_0000)
        by (nonlinear_arith)
        requires
            0 <= d,
    ;
    if b != 0 {
        assert(b * 0x1_0000_0000_0000_0000 >= 0x1_0000_0000_0000_0000) by (nonlinear_arith)
            requires
                b >= 1,
        ;
    }
    if c != 0 {
        assert(c * 0x1_0000_0000_0000_0000_0000_0000_0000_0000
            >= 0x1_0000_0000_0000_0000_0000_0000_0000_0000) by (nonlinear_arith)
            requires
                c >= 1,
        ;
    }
    if d != 0 {
        assert(d * 0x1_0000_0000_0000_0000_0000_0000_0000_0000_0000_0000_0000_0000
            >= 0x1_0000_0000_0000_0000_0000_0000_0000_0000) by (nonlinear_arith)
            requires
                d >= 1,
        ;
    }
}

/// The word holding a 64-bit integer.
pub fn u64_word(x: u64) -> (r: AbiValue)
    ensures
        r@ == AbiData::Uint(x as int),
{
    let r = AbiValue::Uint([x, 0, 0, 0]);
    r
}

/// The word holding a 128-bit integer.
pub fn u128_word(x: u128) -> (r: AbiValue)
    ensures
        r@ == AbiData::Uint(x as int),
{
    let lo = (x % WORD_64) as u64;
    let hi = (x / WORD_64) as u64;
    assert(x as int == (x % WORD_64) + (x / WORD_64) * WORD_64) by (nonlinear_arith);
    AbiValue::Uint([lo, hi, 0, 0])
}

/// The 64-bit integer a word holds, if it fits.
pub fn u64_of_word(v: &AbiValue) -> (r: Option<u64>)
    ensures
        r is Some <==> is_u64_word(v@),
        r matches Some(x) ==> v@ == AbiData::Uint(x as int),
{
    match v {
        AbiValue::Uint(l) => {
            proof {
                lemma_word_range(l@);
            }
            if l[1] == 0 && l[2] == 0 && l[3] == 0 {
                Some(l[0])
            } else {
                None
            }
        },
        _ => None,
    }
}

/// The 128-bit integer a word holds, if it fits.
pub fn u128_of_word(v: &AbiValue) -> (r: Option<u128>)
    ensures
        r is Some <==> is_u128_word(v@),
        r matches Some(x) ==> v@ == AbiData::Uint(x as int),
{
    match v {
        AbiValue::Uint(l) => {
            proof {
                lemma_word_range(l@);
            }
            if l[2] == 0 && l[3] == 0 {
                let x = (l[1] as u128) * WORD_64 + (l[0] as u128);
                Some(x)
            } else {
                None
            }
        },
        _ => None,
    }
}

/// The ABI value of a height: the tuple of its two numbers.
pub open spec fn height_data(h: Height) -> AbiData {
    AbiData::Tuple(
        seq![AbiData::Uint(h.revision_number as int), AbiData::Uint(h.revision_height as int)],
    )
}

/// The ABI value of a height, as decoding expects it.
pub open spec fn is_height_data(d: AbiData) -> bool {
    &&& d is Tuple
    &&& d->Tuple_0.len() == 2
    &&& is_u64_word(d->Tuple_0[0])
    &&& is_u64_word(d->Tuple_0[1])
}

pub fn height_value(h: Height) -> (r: AbiValue)
    ensures
        r@ == height_data(h),
{
    let a = u64_word(h.revision_number);
    let b = u64_word(h.revision_height);
    let mut vs: Vec<AbiValue> = Vec::new();
    vs.push(a);
    vs.push(b);
    let r = AbiValue::Tuple(vs);
    assert(r@->Tuple_0 =~= height_data(h)->Tuple_0);
    r
}

pub fn height_of_value(v: &AbiValue) -> (r: Option<Height>)
    ensures
        r is Some <==> is_height_data(v@),
        r matches Some(h) ==> v@ == height_data(h),
{
    match v {
        AbiValue::Tuple(vs) => {
            if vs.len() != 2 {
                return None;
            }
            assert(v@->Tuple_0[0] == vs@[0]@);
            assert(v@->Tuple_0[1] == vs@[1]@);
            let a = match u64_of_word(&vs[0]) {
                Some(a) => a,
                None => return None,
            };
            let b = match u64_of_word(&vs[1]) {
                Some(b) => b,
                None => return None,
            };
            let h = Height::new(a, b);
            assert(v@->Tuple_0 =~= height_data(h)->Tuple_0);
            Some(h)
        },
        _ => None,
    }
}

/// The parameter type of a height.
pub fn height_param() -> (r: AbiParam)
    ensures
        r@ == AbiParamModel::Tuple(seq![AbiParamModel::Uint(64), AbiParamModel::Uint(64)]),
        crate::abi::decodable(r@),
{
    let a = AbiParam::Uint(64);
    let b = AbiParam::Uint(64);
    assert(a@ == AbiParamModel::Uint(64) && b@ == AbiParamModel::Uint(64));
    let mut ps: Vec<AbiParam> = Vec::new();
    ps.push(a);
    ps.push(b);
    let r = AbiParam::Tuple(ps);
    assert(r@->Tuple_0 =~= seq![AbiParamModel::Uint(64), AbiParamModel::Uint(64)]);
    assert(crate::abi::decodable(AbiParamModel::Uint(64)));
    r
}

/// Copies the bytes of a 32-byte value into an array.
pub fn bytes32_of(b: &Vec<u8>) -> (r: Option<[u8; 32]>)
    ensures
        r is Some <==> b@.len() == 32,
        r matches Some(a) ==> a@ == b@,
{
    if b.len() != 32 {
        return None;
    }
    let mut a = [0u8; 32];
    let mut i: usize = 0;
    while i < 32
        invariant
            0 <= i <= 32,
            b@.len() == 32,
            a@.len() == 32,
            forall|j: int| 0 <= j < i ==> a@[j] == b@[j],
        decreases 32 - i,
    {
        a[i] = b[i];
        i = i + 1;
    }
    assert(a@ =~= b@);
    Some(a)
}

/// Copies the bytes of an array into a vector.
pub fn vec_of_bytes32(a: &[u8; 32]) -> (r: Vec<u8>)
    ensures
        r@ == a@,
{
    let mut r: Vec<u8> = Vec::new();
    let mut i: usize = 0;
    while i < 32
        invariant
            0 <= i <= 32,
            a@.len() == 32,
            r@ == a@.subrange(0, i as int),
        decreases 32 - i,
    {
        r.push(a[i]);
        i = i + 1;
        assert(r@ =~= a@.subrange(0, i as int));
    }
    assert(a@.subrange(0, 32) =~= a@);
    r
}

/// The ABI value of a state id: its 32 bytes.
pub fn state_id_value(id: &StateID) -> (r: AbiValue)
    ensures
        r@ == AbiData::FixedBytes(id.0@),
{
    AbiValue::FixedBytes(vec_of_bytes32(&id.0))
}

/// A 32-byte value, as decoding expects one.
pub open spec fn is_bytes32_data(d: AbiData) -> bool {
    d is FixedBytes && d->FixedBytes_0.len() == 32
}

pub fn state_id_of_value(v: &AbiValue) -> (r: Option<StateID>)
    ensures
        r is Some <==> is_bytes32_data(v@),
        r matches Some(id) ==> v@ == AbiData::FixedBytes(id.0@),
{
    match v {
        AbiValue::FixedBytes(b) => match bytes32_of(b) {
            Some(a) => Some(StateID(a)),
            None => None,
        },
        _ => None,
    }
}

/// Type tag of an empty context.
pub const CONTEXT_TYPE_EMPTY: u8 = 0;

/// Type tag of a trusting-period context.
pub const CONTEXT_TYPE_TRUSTING_PERIOD: u8 = 1;

/// The 32-byte header of a context: its type tag, then reserved zeros.
pub open spec fn context_header(tag: u8) -> Seq<u8> {
    Seq::new(32, |i: int| if i == 0 { tag } else { 0u8 })
}

pub open spec fn context_tag(c: ValidationContext) -> u8 {
    match c {
        ValidationContext::Empty => CONTEXT_TYPE_EMPTY,
        ValidationContext::TrustingPeriod(_) => CONTEXT_TYPE_TRUSTING_PERIOD,
    }
}

/// The ABI value of a trusting-period context: its four numbers in order.
pub open spec fn trusting_period_data(t: TrustingPeriodContext) -> AbiData {
    AbiData::Tuple(
        seq![
            AbiData::Uint(t.trusting_period as int),
            AbiData::Uint(t.clock_drift as int),
            AbiData::Uint(t.untrusted_header_timestamp@ as int),
            AbiData::Uint(t.trusted_state_timestamp@ as int),
        ],
    )
}

/// The payload that follows a context's header.
pub open spec fn context_payload(c: ValidationContext) -> Seq<u8> {
    match c {
        ValidationContext::Empty => Seq::empty(),
        ValidationContext::TrustingPeriod(t) => abi_encoding(seq![trusting_period_data(t)]),
    }
}

/// The tuple `(bytes32 header, bytes body)`.
pub open spec fn headered_data(header: Seq<u8>, body: Seq<u8>) -> AbiData {
    AbiData::Tuple(seq![AbiData::FixedBytes(header), AbiData::Bytes(body)])
}

/// The encoding of a context.
pub open spec fn context_encoding(c: ValidationContext) -> Seq<u8> {
    abi_encoding(seq![headered_data(context_header(context_tag(c)), context_payload(c))])
}

pub open spec fn headered_params() -> Seq<AbiParamModel> {
    seq![AbiParamModel::Tuple(seq![AbiParamModel::FixedBytes(32), AbiParamModel::Bytes])]
}

pub open spec fn trusting_period_params() -> Seq<AbiParamModel> {
    seq![
        AbiParamModel::Tuple(
            seq![
                AbiParamModel::Uint(128),
                AbiParamModel::Uint(128),
                AbiParamModel::Uint(128),
                AbiParamModel::Uint(128),
            ],
        ),
    ]
}

/// Decoded values of the shape `(bytes32, bytes)`.
pub open spec fn is_headered(ds: Seq<AbiData>) -> bool {
    &&& ds.len() == 1
    &&& ds[0] is Tuple
    &&& ds[0]->Tuple_0.len() == 2
    &&& is_bytes32_data(ds[0]->Tuple_0[0])
    &&& ds[0]->Tuple_0[1] is Bytes
}

pub open spec fn header_of(ds: Seq<AbiData>) -> Seq<u8> {
    ds[0]->Tuple_0[0]->FixedBytes_0
}

pub open spec fn body_of(ds: Seq<AbiData>) -> Seq<u8> {
    ds[0]->Tuple_0[1]->Bytes_0
}

/// Decoded values of the shape of a trusting-period payload.
pub open spec fn is_trusting_period(ds: Seq<AbiData>) -> bool {
    &&& ds.len() == 1
    &&& ds[0] is Tuple
    &&& ds[0]->Tuple_0.len() == 4
    &&& forall|i: int| 0 <= i < 4 ==> is_u128_word(#[trigger] ds[0]->Tuple_0[i])
}

pub open spec fn word_at(ds: Seq<AbiData>, i: int) -> int {
    ds[0]->Tuple_0[i]->Uint_0
}

/// Why bytes are not the encoding of a context, if they are not.
pub open spec fn context_decode_error(bytes: Seq<u8>) -> Option<Error> {
    match abi_decoding(headered_params(), bytes) {
        None => Some(Error::InvalidAbi),
        Some(ds) => if !is_headered(ds) {
            Some(Error::InvalidAbi)
        } else if header_of(ds)[0] == CONTEXT_TYPE_EMPTY {
            None
        } else if header_of(ds)[0] == CONTEXT_TYPE_TRUSTING_PERIOD {
            match abi_decoding(trusting_period_params(), body_of(ds)) {
                None => Some(Error::InvalidAbi),
                Some(ps) => if !is_trusting_period(ps) {
                    Some(Error::InvalidAbi)
                } else if word_at(ps, 2) > MAX_UNIX_TIMESTAMP_NANOS || word_at(ps, 3)
                    > MAX_UNIX_TIMESTAMP_NANOS {
                    Some(Error::TimestampOutOfRange)
                } else {
                    None
                },
            }
        } else {
            Some(Error::InvalidAbi)
        },
    }
}

/// Whether bytes decode to the context; the reserved header bytes and the
/// payload of an empty context are ignored.
pub open spec fn context_decodes_to(bytes: Seq<u8>, c: ValidationContext) -> bool {
    abi_decoding(headered_params(), bytes) matches Some(ds) && is_headered(ds) && match c {
        ValidationContext::Empty => header_of(ds)[0] == CONTEXT_TYPE_EMPTY,
        ValidationContext::TrustingPeriod(t) => {
            &&& header_of(ds)[0] == CONTEXT_TYPE_TRUSTING_PERIOD
            &&& abi_decoding(trusting_period_params(), body_of(ds)) matches Some(ps)
            &&& ps == seq![trusting_period_data(t)]
        },
    }
}

fn context_header_value(tag: u8) -> (r: AbiValue)
    ensures
        r@ == AbiData::FixedBytes(context_header(tag)),
{
    let mut h: Vec<u8> = Vec::new();
    h.push(tag);
    while h.len() < 32
        invariant
            1 <= h@.len() <= 32,
            h@ == context_header(tag).subrange(0, h@.len() as int),
        decreases 32 - h@.len(),
    {
        h.push(0u8);
        assert(h@ =~= context_header(tag).subrange(0, h@.len() as int));
    }
    assert(h@ =~= context_header(tag));
    AbiValue::FixedBytes(h)
}

fn headered_value(header: AbiValue, body: Vec<u8>) -> (r: Vec<AbiValue>)
    ensures
        data_of(r@) == seq![AbiData::Tuple(seq![header@, AbiData::Bytes(body@)])],
{
    let b = AbiValue::Bytes(body);
    let ghost hv = header@;
    let ghost bv = b@;
    let mut t: Vec<AbiValue> = Vec::new();
    t.push(header);
    t.push(b);
    let tuple = AbiValue::Tuple(t);
    assert(tuple@->Tuple_0 =~= seq![hv, bv]);
    let mut r: Vec<AbiValue> = Vec::new();
    r.push(tuple);
    assert(data_of(r@) =~= seq![AbiData::Tuple(seq![hv, bv])]);
    r
}

pub(crate) fn headered_param_types() -> (r: Vec<AbiParam>)
    ensures
        params_of(r@) == headered_params(),
        forall|i: int| 0 <= i < r@.len() ==> decodable(#[trigger] r@[i]@),
{
    let a = AbiParam::FixedBytes(32);
    let b = AbiParam::Bytes;
    assert(a@ == AbiParamModel::FixedBytes(32) && b@ == AbiParamModel::Bytes);
    let mut t: Vec<AbiParam> = Vec::new();
    t.push(a);
    t.push(b);
    let p = AbiParam::Tuple(t);
    assert(p@->Tuple_0 =~= seq![AbiParamModel::FixedBytes(32), AbiParamModel::Bytes]);
    assert(decodable(AbiParamModel::FixedBytes(32)) && decodable(AbiParamModel::Bytes));
    let mut r: Vec<AbiParam> = Vec::new();
    r.push(p);
    assert(params_of(r@) =~= headered_params());
    r
}

fn trusting_period_param_types() -> (r: Vec<AbiParam>)
    ensures
        params_of(r@) == trusting_period_params(),
        forall|i: int| 0 <= i < r@.len() ==> decodable(#[trigger] r@[i]@),
{
    let mut t: Vec<AbiParam> = Vec::new();
    let mut k: usize = 0;
    while k < 4
        invariant
            0 <= k <= 4,
            t@.len() == k,
            forall|i: int| 0 <= i < k ==> (#[trigger] t@[i])@ == AbiParamModel::Uint(128),
        decreases 4 - k,
    {
        let p = AbiParam::Uint(128);
        assert(p@ == AbiParamModel::Uint(128));
        t.push(p);
        k = k + 1;
    }
    let p = AbiParam::Tuple(t);
    assert(p@->Tuple_0 =~= trusting_period_params()[0]->Tuple_0);
    assert(decodable(AbiParamModel::Uint(128)));
    let mut r: Vec<AbiParam> = Vec::new();
    r.push(p);
    assert(params_of(r@) =~= trusting_period_params());
    r
}

fn trusting_period_value(t: &TrustingPeriodContext) -> (r: Vec<AbiValue>)
    ensures
        data_of(r@) == seq![trusting_period_data(*t)],
{
    let a = u128_word(t.trusting_period);
    let b = u128_word(t.clock_drift);
    let c = u128_word(t.untrusted_header_timestamp.as_unix_timestamp_nanos());
    let d = u128_word(t.trusted_state_timestamp.as_unix_timestamp_nanos());
    let ghost e = seq![a@, b@, c@, d@];
    let mut vs: Vec<AbiValue> = Vec::new();
    vs.push(a);
    vs.push(b);
    vs.push(c);
    vs.push(d);
    let tuple = AbiValue::Tuple(vs);
    assert(tuple@->Tuple_0 =~= e);
    let mut r: Vec<AbiValue> = Vec::new();
    r.push(tuple);
    assert(data_of(r@) =~= seq![trusting_period_data(*t)]);
    r
}

impl ValidationContext {
    /// The context's header, then its ABI-encoded payload.
    pub fn ethabi_encode(&self) -> (r: Vec<u8>)
        ensures
            r@ == context_encoding(*self),
    {
        let (tag, payload) = match self {
            ValidationContext::Empty => (CONTEXT_TYPE_EMPTY, Vec::new()),
            ValidationContext::TrustingPeriod(t) => (
                CONTEXT_TYPE_TRUSTING_PERIOD,
                abi_encode(trusting_period_value(t)),
            ),
        };
        assert(payload@ == context_payload(*self));
        let header = context_header_value(tag);
        abi_encode(headered_value(header, payload))
    }

    /// Reads a context back from its encoding.
    pub fn ethabi_decode(bytes: &[u8]) -> (r: Result<ValidationContext, Error>)
        ensures
            r matches Ok(c) ==> context_decode_error(bytes@) is None && context_decodes_to(
                bytes@,
                c,
            ),
            r matches Err(e) ==> context_decode_error(bytes@) == Some(e),
    {
        let ds = match abi_decode(&headered_param_types(), bytes) {
            Some(ds) => ds,
            None => return Err(Error::InvalidAbi),
        };
        let (header, body) = match headered_parts(&ds) {
            Some(p) => p,
            None => return Err(Error::InvalidAbi),
        };
        if header[0] == CONTEXT_TYPE_EMPTY {
            return Ok(ValidationContext::Empty);
        }
        if header[0] != CONTEXT_TYPE_TRUSTING_PERIOD {
            return Err(Error::InvalidAbi);
        }
        let ps = match abi_decode(&trusting_period_param_types(), body.as_slice()) {
            Some(ps) => ps,
            None => return Err(Error::InvalidAbi),
        };
        if ps.len() != 1 {
            return Err(Error::InvalidAbi);
        }
        assert(data_of(ps@)[0] == ps@[0]@);
        let words = match &ps[0] {
            AbiValue::Tuple(ws) => ws,
            _ => return Err(Error::InvalidAbi),
        };
        if words.len() != 4 {
            return Err(Error::InvalidAbi);
        }
        assert(forall|i: int| 0 <= i < 4 ==> data_of(ps@)[0]->Tuple_0[i] == words@[i]@);
        let tp = match u128_of_word(&words[0]) {
            Some(x) => x,
            None => {
                assert(!is_u128_word(data_of(ps@)[0]->Tuple_0[0]));
                return Err(Error::InvalidAbi);
            },
        };
        let cd = match u128_of_word(&words[1]) {
            Some(x) => x,
            None => {
                assert(!is_u128_word(data_of(ps@)[0]->Tuple_0[1]));
                return Err(Error::InvalidAbi);
            },
        };
        let un = match u128_of_word(&words[2]) {
            Some(x) => x,
            None => {
                assert(!is_u128_word(data_of(ps@)[0]->Tuple_0[2]));
                return Err(Error::InvalidAbi);
            },
        };
        let tr = match u128_of_word(&words[3]) {
            Some(x) => x,
            None => {
                assert(!is_u128_word(data_of(ps@)[0]->Tuple_0[3]));
                return Err(Error::InvalidAbi);
            },
        };
        let untrusted = match Time::from_unix_timestamp_nanos(un) {
            Ok(t) => t,
            Err(e) => return Err(e),
        };
        let trusted = match Time::from_unix_timestamp_nanos(tr) {
            Ok(t) => t,
            Err(e) => return Err(e),
        };
        let t = TrustingPeriodContext::new(tp, cd, untrusted, trusted);
        assert(data_of(ps@)[0]->Tuple_0 =~= trusting_period_data(t)->Tuple_0);
        assert(data_of(ps@) =~= seq![trusting_period_data(t)]);
        Ok(ValidationContext::TrustingPeriod(t))
    }
}

/// Splits decoded `(bytes32, bytes)` values into the header and the body.
pub(crate) fn headered_parts(ds: &Vec<AbiValue>) -> (r: Option<(&Vec<u8>, &Vec<u8>)>)
    ensures
        r is Some <==> is_headered(data_of(ds@)),
        r matches Some(p) ==> p.0@ == header_of(data_of(ds@)) && p.1@ == body_of(data_of(ds@)),
{
    if ds.len() != 1 {
        return None;
    }
    assert(data_of(ds@)[0] == ds@[0]@);
    match &ds[0] {
        AbiValue::Tuple(t) => {
            if t.len() != 2 {
                return None;
            }
            assert(data_of(ds@)[0]->Tuple_0[0] == t@[0]@);
            assert(data_of(ds@)[0]->Tuple_0[1] == t@[1]@);
            match (&t[0], &t[1]) {
                (AbiValue::FixedBytes(h), AbiValue::Bytes(b)) => {
                    if h.len() != 32 {
                        return None;
                    }
                    Some((h, b))
                },
                _ => None,
            }
        },
        _ => None,
    }
}

/// The ABI value of an emitted state: its height and the protobuf encoding of
/// its state.
pub open spec fn emitted_state_data(e: EmittedState) -> AbiData {
    AbiData::Tuple(
        seq![height_data(e.0), AbiData::Bytes(any_encoding(e.1.type_url@, e.1.value@))],
    )
}

/// The ABI value of an update: absent previous height and state id are
/// written as zeros.
pub open spec fn update_state_data(m: UpdateStateModel) -> AbiData {
    AbiData::Tuple(
        seq![
            height_data(height_or_zero(m.prev_height)),
            AbiData::FixedBytes(state_id_or_zero(m.prev_state_id)),
            height_data(m.post_height),
            AbiData::FixedBytes(m.post_state_id.0@),
            AbiData::Uint(m.timestamp@ as int),
            AbiData::Bytes(context_encoding(m.context)),
            AbiData::Array(m.emitted_states.map_values(|e: EmittedState| emitted_state_data(e))),
        ],
    )
}

/// The encoding of the body of an update message.
pub open spec fn update_state_encoding(m: UpdateStateModel) -> Seq<u8> {
    abi_encoding(seq![update_state_data(m)])
}

pub open spec fn emitted_state_params() -> AbiParamModel {
    AbiParamModel::Tuple(
        seq![
            AbiParamModel::Tuple(seq![AbiParamModel::Uint(64), AbiParamModel::Uint(64)]),
            AbiParamModel::Bytes,
        ],
    )
}

pub open spec fn update_state_params() -> Seq<AbiParamModel> {
    let height = AbiParamModel::Tuple(seq![AbiParamModel::Uint(64), AbiParamModel::Uint(64)]);
    seq![
        AbiParamModel::Tuple(
            seq![
                height,
                AbiParamModel::FixedBytes(32),
                height,
                AbiParamModel::FixedBytes(32),
                AbiParamModel::Uint(128),
                AbiParamModel::Bytes,
                AbiParamModel::Array(Box::new(emitted_state_params())),
            ],
        ),
    ]
}

/// Decoded values of the shape of an emitted state.
pub open spec fn is_emitted_state(d: AbiData) -> bool {
    &&& d is Tuple
    &&& d->Tuple_0.len() == 2
    &&& is_height_data(d->Tuple_0[0])
    &&& d->Tuple_0[1] is Bytes
}

/// Decoded values of the shape of an update body.
pub open spec fn is_update_state(ds: Seq<AbiData>) -> bool {
    &&& ds.len() == 1
    &&& ds[0] is Tuple
    &&& ds[0]->Tuple_0.len() == 7
    &&& is_height_data(ds[0]->Tuple_0[0])
    &&& is_bytes32_data(ds[0]->Tuple_0[1])
    &&& is_height_data(ds[0]->Tuple_0[2])
    &&& is_bytes32_data(ds[0]->Tuple_0[3])
    &&& is_u128_word(ds[0]->Tuple_0[4])
    &&& ds[0]->Tuple_0[5] is Bytes
    &&& ds[0]->Tuple_0[6] is Array
    &&& forall|i: int|
        0 <= i < ds[0]->Tuple_0[6]->Array_0.len() ==> is_emitted_state(
            #[trigger] ds[0]->Tuple_0[6]->Array_0[i],
        )
}

pub open spec fn field(ds: Seq<AbiData>, i: int) -> AbiData {
    ds[0]->Tuple_0[i]
}

pub open spec fn emitted_items(ds: Seq<AbiData>) -> Seq<AbiData> {
    ds[0]->Tuple_0[6]->Array_0
}

/// Why bytes are not the encoding of an update body, if they are not.
pub open spec fn update_state_decode_error(bytes: Seq<u8>) -> Option<Error> {
    match abi_decoding(update_state_params(), bytes) {
        None => Some(Error::InvalidAbi),
        Some(ds) => if !is_update_state(ds) {
            Some(Error::InvalidAbi)
        } else if field(ds, 4)->Uint_0 > MAX_UNIX_TIMESTAMP_NANOS {
            Some(Error::TimestampOutOfRange)
        } else if context_decode_error(field(ds, 5)->Bytes_0) is Some {
            context_decode_error(field(ds, 5)->Bytes_0)
        } else if exists|i: int|
            0 <= i < emitted_items(ds).len() && (any_decoding(
                #[trigger] emitted_items(ds)[i]->Tuple_0[1]->Bytes_0,
            ) is None) {
            Some(Error::InvalidAbi)
        } else {
            None
        },
    }
}

/// Whether bytes decode to the update: a zero previous height or state id
/// reads as absent.
pub open spec fn update_state_decodes_to(bytes: Seq<u8>, m: UpdateStateModel) -> bool {
    &&& abi_decoding(update_state_params(), bytes) matches Some(ds)
    &&& is_update_state(ds)
    &&& field(ds, 0) == height_data(height_or_zero(m.prev_height))
    &&& m.prev_height != Some(Height::zero())
    &&& field(ds, 1) == AbiData::FixedBytes(state_id_or_zero(m.prev_state_id))
    &&& !(m.prev_state_id matches Some(id) && id.is_zero())
    &&& field(ds, 2) == height_data(m.post_height)
    &&& field(ds, 3) == AbiData::FixedBytes(m.post_state_id.0@)
    &&& field(ds, 4) == AbiData::Uint(m.timestamp@ as int)
    &&& context_decodes_to(field(ds, 5)->Bytes_0, m.context)
    &&& emitted_items(ds).len() == m.emitted_states.len()
    &&& forall|i: int|
        0 <= i < m.emitted_states.len() ==> {
            &&& (#[trigger] emitted_items(ds)[i])->Tuple_0[0] == height_data(m.emitted_states[i].0)
            &&& any_decoding(emitted_items(ds)[i]->Tuple_0[1]->Bytes_0) == Some(
                (m.emitted_states[i].1.type_url@, m.emitted_states[i].1.value@),
            )
        }
}

fn emitted_state_value(e: &EmittedState) -> (r: AbiValue)
    ensures
        r@ == emitted_state_data(*e),
{
    let h = height_value(e.0);
    let b = AbiValue::Bytes(encode_any(&e.1.type_url, &e.1.value));
    let ghost pair = seq![h@, b@];
    let mut vs: Vec<AbiValue> = Vec::new();
    vs.push(h);
    vs.push(b);
    let r = AbiValue::Tuple(vs);
    assert(r@->Tuple_0 =~= pair);
    r
}

fn update_state_param_types() -> (r: Vec<AbiParam>)
    ensures
        params_of(r@) == update_state_params(),
        forall|i: int| 0 <= i < r@.len() ==> decodable(#[trigger] r@[i]@),
{
    let h = height_param();
    let b = AbiParam::Bytes;
    assert(b@ == AbiParamModel::Bytes && decodable(b@));
    let ghost hv = h@;
    let mut e: Vec<AbiParam> = Vec::new();
    e.push(h);
    e.push(b);
    let ep = AbiParam::Tuple(e);
    assert(ep@->Tuple_0 =~= emitted_state_params()->Tuple_0);
    let arr = AbiParam::Array(Box::new(ep));
    assert(arr@ == AbiParamModel::Array(Box::new(emitted_state_params())));
    assert(decodable(hv) && decodable(AbiParamModel::Bytes));
    assert(emitted_state_params()->Tuple_0[0] == hv);
    assert(forall|i: int| 0 <= i < 2 ==> decodable(#[trigger] emitted_state_params()->Tuple_0[i]));
    assert(decodable(emitted_state_params()));
    let f0 = height_param();
    let f1 = AbiParam::FixedBytes(32);
    let f2 = height_param();
    let f3 = AbiParam::FixedBytes(32);
    let f4 = AbiParam::Uint(128);
    let f5 = AbiParam::Bytes;
    assert(f1@ == AbiParamModel::FixedBytes(32) && f3@ == AbiParamModel::FixedBytes(32));
    assert(f4@ == AbiParamModel::Uint(128) && f5@ == AbiParamModel::Bytes);
    assert(decodable(f1@) && decodable(f4@) && decodable(f5@) && decodable(arr@));
    let ghost fs = seq![f0@, f1@, f2@, f3@, f4@, f5@, arr@];
    let mut t: Vec<AbiParam> = Vec::new();
    t.push(f0);
    t.push(f1);
    t.push(f2);
    t.push(f3);
    t.push(f4);
    t.push(f5);
    t.push(arr);
    let p = AbiParam::Tuple(t);
    assert(p@->Tuple_0 =~= fs);
    assert(p@ == update_state_params()[0]);
    let mut r: Vec<AbiParam> = Vec::new();
    r.push(p);
    assert(params_of(r@) =~= update_state_params());
    r
}

impl UpdateClientMessage {
    /// The ABI encoding of the message's body.
    pub fn ethabi_encode(&self) -> (r: Vec<u8>)
        ensures
            r@ == update_state_encoding(self@),
    {
        let prev_height = match self.prev_height {
            Some(h) => h,
            None => Height::new(0, 0),
        };
        let prev_state_id = match self.prev_state_id {
            Some(id) => id,
            None => StateID::zero(),
        };
        let mut items: Vec<AbiValue> = Vec::new();
        let mut i: usize = 0;
        while i < self.emitted_states.len()
            invariant
                0 <= i <= self.emitted_states@.len(),
                data_of(items@) == self.emitted_states@.subrange(0, i as int).map_values(
                    |e: EmittedState| emitted_state_data(e),
                ),
            decreases self.emitted_states@.len() - i,
        {
            let v = emitted_state_value(&self.emitted_states[i]);
            let ghost before = data_of(items@);
            items.push(v);
            assert(data_of(items@) =~= before.push(emitted_state_data(self.emitted_states@[i as int])));
            assert(self.emitted_states@.subrange(0, i + 1) =~= self.emitted_states@.subrange(0, i as int).push(self.emitted_states@[i as int]));
            i = i + 1;
            assert(data_of(items@) =~= self.emitted_states@.subrange(0, i as int).map_values(
                |e: EmittedState| emitted_state_data(e),
            ));
        }
        assert(self.emitted_states@.subrange(0, i as int) =~= self.emitted_states@);
        let f0 = height_value(prev_height);
        let f1 = state_id_value(&prev_state_id);
        let f2 = height_value(self.post_height);
        let f3 = state_id_value(&self.post_state_id);
        let f4 = u128_word(self.timestamp.as_unix_timestamp_nanos());
        let f5 = AbiValue::Bytes(self.context.ethabi_encode());
        let f6 = AbiValue::Array(items);
        let ghost fs = seq![f0@, f1@, f2@, f3@, f4@, f5@, f6@];
        assert(f6@->Array_0 =~= self.emitted_states@.map_values(
            |e: EmittedState| emitted_state_data(e),
        ));
        let mut t: Vec<AbiValue> = Vec::new();
        t.push(f0);
        t.push(f1);
        t.push(f2);
        t.push(f3);
        t.push(f4);
        t.push(f5);
        t.push(f6);
        let tuple = AbiValue::Tuple(t);
        assert(tuple@->Tuple_0 =~= fs);
        assert(tuple@ == update_state_data(self@));
        let mut vs: Vec<AbiValue> = Vec::new();
        vs.push(tuple);
        assert(data_of(vs@) =~= seq![update_state_data(self@)]);
        abi_encode(vs)
    }

    /// Reads the body of an update message back.
    #[verifier::rlimit(50)]
    #[verifier::loop_isolation(false)]
    pub fn ethabi_decode(bytes: &[u8]) -> (r: Result<UpdateClientMessage, Error>)
        ensures
            r matches Ok(m) ==> update_state_decode_error(bytes@) is None
                && update_state_decodes_to(bytes@, m@),
            r matches Err(e) ==> update_state_decode_error(bytes@) == Some(e),
    {
        let ds = match abi_decode(&update_state_param_types(), bytes) {
            Some(ds) => ds,
            None => return Err(Error::InvalidAbi),
        };
        let ghost d = data_of(ds@);
        if ds.len() != 1 {
            return Err(Error::InvalidAbi);
        }
        assert(d[0] == ds@[0]@);
        let t = match &ds[0] {
            AbiValue::Tuple(t) => t,
            _ => return Err(Error::InvalidAbi),
        };
        if t.len() != 7 {
            return Err(Error::InvalidAbi);
        }
        assert(field(d, 0) == t@[0]@);
        assert(field(d, 1) == t@[1]@);
        assert(field(d, 2) == t@[2]@);
        assert(field(d, 3) == t@[3]@);
        assert(field(d, 4) == t@[4]@);
        assert(field(d, 5) == t@[5]@);
        assert(field(d, 6) == t@[6]@);
        let prev_height = match height_of_value(&t[0]) {
            Some(h) => h,
            None => return Err(Error::InvalidAbi),
        };
        let prev_state_id = match state_id_of_value(&t[1]) {
            Some(id) => id,
            None => return Err(Error::InvalidAbi),
        };
        let post_height = match height_of_value(&t[2]) {
            Some(h) => h,
            None => return Err(Error::InvalidAbi),
        };
        let post_state_id = match state_id_of_value(&t[3]) {
            Some(id) => id,
            None => return Err(Error::InvalidAbi),
        };
        let nanos = match u128_of_word(&t[4]) {
            Some(x) => x,
            None => return Err(Error::InvalidAbi),
        };
        let context_bytes = match &t[5] {
            AbiValue::Bytes(b) => b,
            _ => return Err(Error::InvalidAbi),
        };
        let items = match &t[6] {
            AbiValue::Array(a) => a,
            _ => return Err(Error::InvalidAbi),
        };
        assert(emitted_items(d).len() == items@.len());
        assert(forall|i: int| 0 <= i < items@.len() ==> emitted_items(d)[i] == (#[trigger] items@[i])@);
        let mut heights: Vec<Height> = Vec::new();
        let mut i: usize = 0;
        while i < items.len()
            invariant
                0 <= i <= items@.len(),
                heights@.len() == i,
                emitted_items(d).len() == items@.len(),
                forall|j: int| 0 <= j < items@.len() ==> emitted_items(d)[j] == (#[trigger] items@[j])@,
                forall|j: int| 0 <= j < i ==> is_emitted_state(#[trigger] emitted_items(d)[j]),
                forall|j: int| 0 <= j < i ==> (#[trigger] emitted_items(d)[j])->Tuple_0[0] == height_data(heights@[j]),
            decreases items@.len() - i,
        {
            let p = match &items[i] {
                AbiValue::Tuple(p) => p,
                _ => {
                    assert(!is_emitted_state(emitted_items(d)[i as int]));
                    return Err(Error::InvalidAbi);
                },
            };
            if p.len() != 2 {
                assert(!is_emitted_state(emitted_items(d)[i as int]));
                return Err(Error::InvalidAbi);
            }
            assert(emitted_items(d)[i as int]->Tuple_0[0] == p@[0]@);
            assert(emitted_items(d)[i as int]->Tuple_0[1] == p@[1]@);
            let h = match height_of_value(&p[0]) {
                Some(h) => h,
                None => {
                    assert(!is_emitted_state(emitted_items(d)[i as int]));
                    return Err(Error::InvalidAbi);
                },
            };
            match &p[1] {
                AbiValue::Bytes(_) => {},
                _ => {
                    assert(!is_emitted_state(emitted_items(d)[i as int]));
                    return Err(Error::InvalidAbi);
                },
            }
            heights.push(h);
            i = i + 1;
        }
        assert(is_update_state(d));
        let timestamp = match Time::from_unix_timestamp_nanos(nanos) {
            Ok(t) => t,
            Err(e) => return Err(e),
        };
        let context = match ValidationContext::ethabi_decode(context_bytes.as_slice()) {
            Ok(c) => c,
            Err(e) => return Err(e),
        };
        let mut emitted_states: Vec<EmittedState> = Vec::new();
        let mut k: usize = 0;
        while k < items.len()
            invariant
                0 <= k <= items@.len(),
                heights@.len() == items@.len(),
                emitted_states@.len() == k,
                is_update_state(d),
                field(d, 4)->Uint_0 <= MAX_UNIX_TIMESTAMP_NANOS,
                context_decode_error(field(d, 5)->Bytes_0) is None,
                emitted_items(d).len() == items@.len(),
                forall|j: int| 0 <= j < items@.len() ==> emitted_items(d)[j] == (#[trigger] items@[j])@,
                forall|j: int| 0 <= j < items@.len() ==> (#[trigger] emitted_items(d)[j])->Tuple_0[0] == height_data(heights@[j]),
                forall|j: int|
                    0 <= j < k ==> {
                        &&& (#[trigger] emitted_states@[j]).0 == heights@[j]
                        &&& any_decoding(emitted_items(d)[j]->Tuple_0[1]->Bytes_0) == Some(
                            (emitted_states@[j].1.type_url@, emitted_states@[j].1.value@),
                        )
                    },
            decreases items@.len() - k,
        {
            assert(is_emitted_state(emitted_items(d)[k as int]));
            let p = match &items[k] {
                AbiValue::Tuple(p) => p,
                _ => return Err(Error::InvalidAbi),
            };
            assert(emitted_items(d)[k as int]->Tuple_0[1] == p@[1]@);
            let b = match &p[1] {
                AbiValue::Bytes(b) => b,
                _ => return Err(Error::InvalidAbi),
            };
            let (type_url, value) = match decode_any(b.as_slice()) {
                Some(a) => a,
                None => {
                    assert(any_decoding(emitted_items(d)[k as int]->Tuple_0[1]->Bytes_0) is None);
                    return Err(Error::InvalidAbi);
                },
            };
            emitted_states.push(EmittedState(heights[k], Any::new(type_url, value)));
            k = k + 1;
        }
        let prev_height = if prev_height.revision_number == 0 && prev_height.revision_height == 0 {
            None
        } else {
            Some(prev_height)
        };
        let prev_state_id = if prev_state_id == StateID::zero() {
            assert(prev_state_id.0@ =~= Seq::new(32, |i: int| 0u8));
            None
        } else {
            Some(prev_state_id)
        };
        let m = UpdateClientMessage {
            prev_height,
            prev_state_id,
            post_height,
            post_state_id,
            timestamp,
            context,
            emitted_states,
        };
        assert(field(d, 0) == height_data(height_or_zero(m.prev_height)));
        assert(field(d, 1) == AbiData::FixedBytes(state_id_or_zero(m.prev_state_id)));
        assert forall|j: int| 0 <= j < emitted_items(d).len() implies any_decoding(
            #[trigger] emitted_items(d)[j]->Tuple_0[1]->Bytes_0,
        ) is Some by {
            assert(emitted_states@[j].0 == heights@[j]);
        }
        assert(update_state_decode_error(bytes@) is None);
        assert(m@.emitted_states == emitted_states@);
        assert(update_state_decodes_to(bytes@, m@));
        Ok(m)
    }
}

/// The library's part of the context round trip: where ABI decoding gives
/// back the values that encoding was given, a context decodes to itself.
pub proof fn lemma_context_round_trip(c: ValidationContext, bytes: Seq<u8>)
    requires
        abi_decoding(headered_params(), bytes) == Some(
            seq![headered_data(context_header(context_tag(c)), context_payload(c))],
        ),
        c matches ValidationContext::TrustingPeriod(t) ==> abi_decoding(
            trusting_period_params(),
            abi_encoding(seq![trusting_period_data(t)]),
        ) == Some(seq![trusting_period_data(t)]),
        c matches ValidationContext::TrustingPeriod(t) ==> t.untrusted_header_timestamp@
            <= MAX_UNIX_TIMESTAMP_NANOS && t.trusted_state_timestamp@ <= MAX_UNIX_TIMESTAMP_NANOS,
    ensures
        context_decode_error(bytes) is None,
        context_decodes_to(bytes, c),
{
    let ds = seq![headered_data(context_header(context_tag(c)), context_payload(c))];
    assert(is_headered(ds));
    if let ValidationContext::TrustingPeriod(t) = c {
        let ps = seq![trusting_period_data(t)];
        assert(is_u128_word(ps[0]->Tuple_0[0]));
        assert(is_u128_word(ps[0]->Tuple_0[1]));
        assert(is_u128_word(ps[0]->Tuple_0[2]));
        assert(is_u128_word(ps[0]->Tuple_0[3]));
        assert(is_trusting_period(ps));
    }
}

/// The library's part of the update round trip: where ABI decoding gives
/// back the values that encoding was given, and the context and every
/// emitted state decode to themselves, an update without a zero previous
/// height or state id decodes to itself.
pub proof fn lemma_update_state_round_trip(m: UpdateStateModel, bytes: Seq<u8>)
    requires
        abi_decoding(update_state_params(), bytes) == Some(seq![update_state_data(m)]),
        context_decode_error(context_encoding(m.context)) is None,
        context_decodes_to(context_encoding(m.context), m.context),
        forall|i: int|
            0 <= i < m.emitted_states.len() ==> any_decoding(
                any_encoding(
                    (#[trigger] m.emitted_states[i]).1.type_url@,
                    m.emitted_states[i].1.value@,
                ),
            ) == Some((m.emitted_states[i].1.type_url@, m.emitted_states[i].1.value@)),
        m.timestamp@ <= MAX_UNIX_TIMESTAMP_NANOS,
        m.prev_height != Some(Height::zero()),
        !(m.prev_state_id matches Some(id) && id.is_zero()),
    ensures
        update_state_decode_error(bytes) is None,
        update_state_decodes_to(bytes, m),
{
    let ds = seq![update_state_data(m)];
    let items = emitted_items(ds);
    assert(items == m.emitted_states.map_values(|e: EmittedState| emitted_state_data(e)));
    assert forall|i: int| 0 <= i < items.len() implies is_emitted_state(#[trigger] items[i]) by {
        assert(items[i] == emitted_state_data(m.emitted_states[i]));
    }
    assert(is_u128_word(field(ds, 4)));
    assert(is_update_state(ds));
    assert forall|i: int| 0 <= i < items.len() implies any_decoding(
        #[trigger] items[i]->Tuple_0[1]->Bytes_0,
    ) is Some by {
        assert(items[i] == emitted_state_data(m.emitted_states[i]));
    }
    assert forall|i: int| 0 <= i < m.emitted_states.len() implies {
        &&& (#[trigger] items[i])->Tuple_0[0] == height_data(m.emitted_states[i].0)
        &&& any_decoding(items[i]->Tuple_0[1]->Bytes_0) == Some(
            (m.emitted_states[i].1.type_url@, m.emitted_states[i].1.value@),
        )
    } by {
        assert(items[i] == emitted_state_data(m.emitted_states[i]));
    }
}

} // verus!
