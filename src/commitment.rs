//! Commitment proofs: a message with the address and signature of the
//! enclave key that signed it.
use crate::abi::{
    abi_decode, abi_decoding, abi_encode, abi_encoding, data_of, decodable, params_of, AbiData,
    AbiParam, AbiParamModel, AbiValue,
};
use crate::error::Error;
use crate::types::Address;
use vstd::prelude::*;

verus! {

/// A message signed by an enclave key; the signature covers the keccak256
/// digest of the message and recovers to the signer.
#[derive(Clone, Debug, PartialEq, Eq)]
pub struct CommitmentProof {
    pub message: Vec<u8>,
    pub signer: Address,
    pub signature: Vec<u8>,
}

/// The ABI value of a proof: `(bytes message, address signer, bytes signature)`.
pub open spec fn commitment_proof_data(p: CommitmentProof) -> AbiData {
    AbiData::Tuple(
        seq![
            AbiData::Bytes(p.message@),
            AbiData::Address(p.signer.0@),
            AbiData::Bytes(p.signature@),
        ],
    )
}

pub open spec fn commitment_proof_encoding(p: CommitmentProof) -> Seq<u8> {
    abi_encoding(seq![commitment_proof_data(p)])
}

pub open spec fn commitment_proof_params() -> Seq<AbiParamModel> {
    seq![
        AbiParamModel::Tuple(
            seq![AbiParamModel::Bytes, AbiParamModel::Address, AbiParamModel::Bytes],
        ),
    ]
}

/// Decoded values of the shape of a proof.
pub open spec fn is_commitment_proof(ds: Seq<AbiData>) -> bool {
    &&& ds.len() == 1
    &&& ds[0] is Tuple
    &&& ds[0]->Tuple_0.len() == 3
    &&& ds[0]->Tuple_0[0] is Bytes
    &&& ds[0]->Tuple_0[1] is Address
    &&& ds[0]->Tuple_0[1]->Address_0.len() == 20
    &&& ds[0]->Tuple_0[2] is Bytes
}

/// Whether bytes are the encoding of a proof.
pub open spec fn is_commitment_proof_encoding(bytes: Seq<u8>) -> bool {
    abi_decoding(commitment_proof_params(), bytes) matches Some(ds) && is_commitment_proof(ds)
}

fn commitment_proof_param_types() -> (r: Vec<AbiParam>)
    ensures
        params_of(r@) == commitment_proof_params(),
        forall|i: int| 0 <= i < r@.len() ==> decodable(#[trigger] r@[i]@),
{
    let f0 = AbiParam::Bytes;
    let f1 = AbiParam::Address;
    let f2 = AbiParam::Bytes;
    assert(f0@ == AbiParamModel::Bytes && f1@ == AbiParamModel::Address && f2@
        == AbiParamModel::Bytes);
    assert(decodable(f0@) && decodable(f1@) && decodable(f2@));
    let ghost fs = seq![f0@, f1@, f2@];
    let mut t: Vec<AbiParam> = Vec::new();
    t.push(f0);
    t.push(f1);
    t.push(f2);
    let p = AbiParam::Tuple(t);
    assert(p@->Tuple_0 =~= fs);
    assert(p@ == commitment_proof_params()[0]);
    let mut r: Vec<AbiParam> = Vec::new();
    r.push(p);
    assert(params_of(r@) =~= commitment_proof_params());
    r
}

impl CommitmentProof {
    /// The ABI encoding of the proof.
    pub fn ethabi_encode(&self) -> (r: Vec<u8>)
        ensures
            r@ == commitment_proof_encoding(*self),
    {
        let f0 = AbiValue::Bytes(self.message.clone());
        let f1 = AbiValue::Address(self.signer.0);
        let f2 = AbiValue::Bytes(self.signature.clone());
        let ghost fs = seq![f0@, f1@, f2@];
        let mut t: Vec<AbiValue> = Vec::new();
        t.push(f0);
        t.push(f1);
        t.push(f2);
        let tuple = AbiValue::Tuple(t);
        assert(tuple@->Tuple_0 =~= fs);
        assert(tuple@ == commitment_proof_data(*self));
        let mut vs: Vec<AbiValue> = Vec::new();
        vs.push(tuple);
        assert(data_of(vs@) =~= seq![commitment_proof_data(*self)]);
        abi_encode(vs)
    }

    /// Reads a proof back from its encoding.
    pub fn ethabi_decode(bytes: &[u8]) -> (r: Result<CommitmentProof, Error>)
        ensures
            r is Ok <==> is_commitment_proof_encoding(bytes@),
            r matches Ok(p) ==> abi_decoding(commitment_proof_params(), bytes@) == Some(
                seq![commitment_proof_data(p)],
            ),
            r is Err ==> r == Err::<CommitmentProof, Error>(Error::InvalidAbi),
    {
        let ds = match abi_decode(&commitment_proof_param_types(), bytes) {
            Some(ds) => ds,
            None => return Err(Error::InvalidAbi),
        };
        let ghost d = data_of(ds@);
        if ds.len() != 1 {
            return Err(Error::InvalidAbi);
        }
        assert(d[0] == ds@[0]@);
        let t = match &ds[0] {
            AbiValue::Tuple(t) => t,
            _ => return Err(Error::InvalidAbi),
        };
        if t.len() != 3 {
            return Err(Error::InvalidAbi);
        }
        assert(d[0]->Tuple_0[0] == t@[0]@);
        assert(d[0]->Tuple_0[1] == t@[1]@);
        assert(d[0]->Tuple_0[2] == t@[2]@);
        let message = match &t[0] {
            AbiValue::Bytes(b) => b.clone(),
            _ => return Err(Error::InvalidAbi),
        };
        let signer = match &t[1] {
            AbiValue::Address(a) => Address(*a),
            _ => return Err(Error::InvalidAbi),
        };
        let signature = match &t[2] {
            AbiValue::Bytes(b) => b.clone(),
            _ => return Err(Error::InvalidAbi),
        };
        let p = CommitmentProof { message, signer, signature };
        assert(d[0]->Tuple_0 =~= commitment_proof_data(p)->Tuple_0);
        assert(d =~= seq![commitment_proof_data(p)]);
        Ok(p)
    }
}

} // verus!
