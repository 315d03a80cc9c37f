//! Assembling an update-client request that arrives in chunks.
use crate::error::Error;
use crate::types::Any;
use vstd::prelude::*;

verus! {

/// A request to update a client with a header.
#[derive(Clone, Debug, PartialEq, Eq)]
pub struct MsgUpdateClient {
    pub client_id: String,
    pub header: Option<Any>,
    pub include_state: bool,
    pub signer: Vec<u8>,
}

/// The request assembled from the first chunk: everything but the header
/// bytes, which the following chunks extend.
pub open spec fn assembled_from(first: MsgUpdateClient, value: Seq<u8>, m: MsgUpdateClient) -> bool {
    &&& m.client_id == first.client_id
    &&& m.include_state == first.include_state
    &&& m.signer@ == first.signer@
    &&& first.header matches Some(h0)
    &&& m.header matches Some(h)
    &&& h.type_url == h0.type_url
    &&& h.value@ == value
}

/// The header bytes of a sequence of chunks, concatenated.
pub open spec fn header_bytes_of(chunks: Seq<MsgUpdateClient>) -> Seq<u8>
    decreases chunks.len(),
{
    if chunks.len() == 0 {
        Seq::empty()
    } else {
        header_bytes_of(chunks.drop_last()) + match chunks.last().header {
            Some(h) => h.value@,
            None => Seq::empty(),
        }
    }
}

/// Folds the next chunk into the request assembled so far: the first chunk
/// is taken whole, each later one appends its header bytes. A chunk without
/// a header is refused.
pub fn append_chunk(assembled: Option<MsgUpdateClient>, chunk: MsgUpdateClient) -> (r: Result<
    MsgUpdateClient,
    Error,
>)
    ensures
        chunk.header is None ==> r == Err::<MsgUpdateClient, Error>(Error::InputValidation),
        chunk.header is Some && assembled is None ==> r == Ok::<MsgUpdateClient, Error>(chunk),
        chunk.header is Some && assembled is Some ==> (r matches Ok(m) && {
            let a = assembled->0;
            &&& m.client_id == a.client_id
            &&& m.include_state == a.include_state
            &&& m.signer == a.signer
            &&& (a.header matches Some(h0) ==> (m.header matches Some(h) && h.type_url
                == h0.type_url && h.value@ == h0.value@ + chunk.header->0.value@))
            &&& (a.header is None ==> m.header is None)
        }),
{
    let mut piece = match chunk.header {
        Some(h) => h,
        None => return Err(Error::InputValidation),
    };
    match assembled {
        None => Ok(MsgUpdateClient { header: Some(piece), ..chunk }),
        Some(a) => {
            let MsgUpdateClient { client_id, header, include_state, signer } = a;
            let header = match header {
                Some(h) => {
                    let mut value = h.value;
                    value.append(&mut piece.value);
                    Some(Any { type_url: h.type_url, value })
                },
                None => None,
            };
            Ok(MsgUpdateClient { client_id, header, include_state, signer })
        },
    }
}

/// Assembles a whole stream of chunks; an empty stream or a chunk without a
/// header is refused.
pub fn assemble_chunks(chunks: Vec<MsgUpdateClient>) -> (r: Result<MsgUpdateClient, Error>)
    ensures
        r is Ok <==> chunks@.len() > 0 && forall|i: int|
            0 <= i < chunks@.len() ==> (#[trigger] chunks@[i]).header is Some,
        r is Err ==> r == Err::<MsgUpdateClient, Error>(Error::InputValidation),
        r matches Ok(m) ==> assembled_from(chunks@[0], header_bytes_of(chunks@), m),
{
    let n = chunks.len();
    let ghost cs = chunks@;
    let mut rest = chunks;
    let mut rev: Vec<MsgUpdateClient> = Vec::new();
    while rest.len() > 0
        invariant
            rest@.len() + rev@.len() == n,
            n == cs.len(),
            rest@ == cs.subrange(0, rest@.len() as int),
            forall|i: int| 0 <= i < rev@.len() ==> #[trigger] rev@[i] == cs[n - 1 - i],
        decreases rest@.len(),
    {
        match rest.pop() {
            Some(c) => rev.push(c),
            None => {},
        }
    }
    let mut assembled: Option<MsgUpdateClient> = None;
    while rev.len() > 0
        invariant
            0 <= rev@.len() <= n,
            n == cs.len(),
            cs == chunks@,
            forall|i: int| 0 <= i < rev@.len() ==> #[trigger] rev@[i] == cs[n - 1 - i],
            forall|i: int| 0 <= i < n - rev@.len() ==> (#[trigger] cs[i]).header is Some,
            rev@.len() == n <==> assembled is None,
            assembled matches Some(m) ==> assembled_from(
                cs[0],
                header_bytes_of(cs.subrange(0, n - rev@.len())),
                m,
            ),
        decreases rev@.len(),
    {
        let ghost k = n - rev@.len();
        let c = match rev.pop() {
            Some(c) => c,
            None => return Err(Error::InputValidation),
        };
        assert(c == cs[k]);
        if c.header.is_none() {
            assert(cs[k].header is None);
            return Err(Error::InputValidation);
        }
        let ghost prev = assembled;
        assembled = match append_chunk(assembled, c) {
            Ok(m) => Some(m),
            Err(e) => return Err(e),
        };
        proof {
            let s = cs.subrange(0, k + 1);
            assert(s.drop_last() =~= cs.subrange(0, k));
            if k == 0 {
                assert(cs.subrange(0, 0) =~= Seq::<MsgUpdateClient>::empty());
                assert(header_bytes_of(cs.subrange(0, 0)) =~= Seq::<u8>::empty());
                assert(header_bytes_of(s) =~= cs[0].header->0.value@);
            }
        }
    }
    match assembled {
        Some(m) => {
            assert(cs.subrange(0, n as int) =~= cs);
            Ok(m)
        },
        None => Err(Error::InputValidation),
    }
}

} // verus!
