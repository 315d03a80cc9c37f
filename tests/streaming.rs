use lcp::streaming::{append_chunk, assemble_chunks, MsgUpdateClient};
use lcp::{Any, Error};

fn chunk(value: Vec<u8>, first: bool) -> MsgUpdateClient {
    MsgUpdateClient {
        client_id: if first { "07-tendermint-0".to_string() } else { String::new() },
        header: Some(Any::new(if first { "/ibc.lightclients.tendermint.v1.Header".to_string() } else { String::new() }, value)),
        include_state: first,
        signer: if first { vec![7u8; 20] } else { vec![] },
    }
}

#[test]
fn four_chunks_make_the_unary_request() {
    let header: Vec<u8> = (0..4096u32).map(|i| (i % 251) as u8).collect();
    let unary = chunk(header.clone(), true);
    let chunks = vec![
        chunk(header[0..1024].to_vec(), true),
        chunk(header[1024..2048].to_vec(), false),
        chunk(header[2048..3072].to_vec(), false),
        chunk(header[3072..4096].to_vec(), false),
    ];
    assert_eq!(assemble_chunks(chunks), Ok(unary));
}

#[test]
fn empty_stream_is_refused() {
    assert_eq!(assemble_chunks(vec![]), Err(Error::InputValidation));
}

#[test]
fn chunk_without_header_is_refused() {
    let mut second = chunk(vec![1], false);
    second.header = None;
    assert_eq!(assemble_chunks(vec![chunk(vec![0], true), second.clone()]), Err(Error::InputValidation));
    assert_eq!(append_chunk(None, second), Err(Error::InputValidation));
}

#[test]
fn append_extends_the_header() {
    let a = append_chunk(None, chunk(vec![1, 2], true)).unwrap();
    let b = append_chunk(Some(a), chunk(vec![3], false)).unwrap();
    assert_eq!(b.header.unwrap().value, vec![1, 2, 3]);
    assert_eq!(b.client_id, "07-tendermint-0");
}
