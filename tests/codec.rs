use ethabi::ethereum_types::U256;
use ethabi::Token;
use lcp::commitment::CommitmentProof;
use lcp::message::{MESSAGE_TYPE_MISBEHAVIOUR, MESSAGE_TYPE_STATE, MESSAGE_TYPE_UPDATE_STATE};
use lcp::{
    Any, ClientId, EmittedState, Error, Height, MisbehaviourProxyMessage, PrevState, ProxyMessage,
    StateID, Time, TrustingPeriodContext, UpdateClientMessage, ValidationContext,
    VerifyMembershipProxyMessage, MAX_UNIX_TIMESTAMP_NANOS,
};

fn sample_update() -> UpdateClientMessage {
    UpdateClientMessage {
        prev_height: None,
        prev_state_id: None,
        post_height: Height::new(1, 2),
        post_state_id: StateID::from([1u8; 32]),
        timestamp: Time::from_unix_timestamp_nanos(1_000_000_000).unwrap(),
        context: ValidationContext::default(),
        emitted_states: vec![],
    }
}

#[test]
fn update_state_header_carries_version_and_type() {
    let m = ProxyMessage::UpdateState(sample_update());
    let h = m.header();
    assert_eq!(&h[0..2], &[0x00, 0x01]);
    assert_eq!(&h[2..4], &[0x00, 0x01]);
    assert!(h[4..].iter().all(|b| *b == 0));
    let bytes = m.to_bytes();
    // (bytes32, bytes) as one tuple: an offset word, then the header word.
    assert_eq!(&bytes[32..64], &h[..]);
}

#[test]
fn message_types_are_tagged() {
    let v = VerifyMembershipProxyMessage {
        prefix: vec![1, 2],
        path: "/p".to_string(),
        value: None,
        height: Height::new(1, 1),
        state_id: StateID::from([3u8; 32]),
    };
    assert_eq!(ProxyMessage::VerifyMembership(v).message_type(), MESSAGE_TYPE_STATE);
    assert_eq!(ProxyMessage::UpdateState(sample_update()).message_type(), MESSAGE_TYPE_UPDATE_STATE);
    let x = MisbehaviourProxyMessage {
        client_id: ClientId("07-tendermint-0".to_string()),
        prev_states: vec![],
        context: ValidationContext::default(),
    };
    assert_eq!(ProxyMessage::Misbehaviour(x).header()[3], MESSAGE_TYPE_MISBEHAVIOUR as u8);
}

#[test]
fn update_state_round_trip_without_prev() {
    let m = ProxyMessage::UpdateState(sample_update());
    assert_eq!(ProxyMessage::from_bytes(&m.clone().to_bytes()), Ok(m));
}

#[test]
fn update_state_round_trip_with_everything() {
    let mut u = sample_update();
    u.prev_height = Some(Height::new(1, 1));
    u.prev_state_id = Some(StateID::from([9u8; 32]));
    u.timestamp = Time::from_unix_timestamp_nanos(MAX_UNIX_TIMESTAMP_NANOS).unwrap();
    u.context = TrustingPeriodContext::new(
        1_000_000_000,
        2_000_000_000,
        Time::from_unix_timestamp_nanos(3).unwrap(),
        Time::from_unix_timestamp_nanos(u64::MAX as u128 + 5).unwrap(),
    )
    .into();
    u.emitted_states = (0..40)
        .map(|i| EmittedState(Height::new(0, i), Any::new(format!("/t{}", i), vec![i as u8; i as usize])))
        .collect();
    let m = ProxyMessage::UpdateState(u);
    assert_eq!(ProxyMessage::from_bytes(&m.clone().to_bytes()), Ok(m));
}

#[test]
fn update_state_body_round_trip() {
    let u = sample_update();
    assert_eq!(UpdateClientMessage::ethabi_decode(&u.ethabi_encode()), Ok(u));
}

#[test]
fn verify_membership_round_trip() {
    for value in [None, Some([5u8; 32])] {
        let v = VerifyMembershipProxyMessage {
            prefix: b"ibc".to_vec(),
            path: "clients/07-tendermint-0/clientState".to_string(),
            value,
            height: Height::new(1, 100),
            state_id: StateID::from([3u8; 32]),
        };
        let m = ProxyMessage::VerifyMembership(v);
        assert_eq!(ProxyMessage::from_bytes(&m.clone().to_bytes()), Ok(m));
    }
}

#[test]
fn misbehaviour_round_trip() {
    let x = MisbehaviourProxyMessage {
        client_id: ClientId("07-tendermint-0".to_string()),
        prev_states: vec![
            PrevState { height: Height::new(1, 1), state_id: StateID::from([1u8; 32]) },
            PrevState { height: Height::new(1, 2), state_id: StateID::from([2u8; 32]) },
        ],
        context: TrustingPeriodContext::new(
            10,
            20,
            Time::from_unix_timestamp_nanos(30).unwrap(),
            Time::from_unix_timestamp_nanos(40).unwrap(),
        )
        .into(),
    };
    let m = ProxyMessage::Misbehaviour(x);
    assert_eq!(ProxyMessage::from_bytes(&m.clone().to_bytes()), Ok(m));
}

#[test]
fn bumped_version_is_refused() {
    let mut bytes = ProxyMessage::UpdateState(sample_update()).to_bytes();
    bytes[33] = 2;
    assert_eq!(ProxyMessage::from_bytes(&bytes), Err(Error::InvalidMessageHeader));
}

#[test]
fn unknown_type_is_refused() {
    let mut bytes = ProxyMessage::UpdateState(sample_update()).to_bytes();
    bytes[35] = 9;
    assert_eq!(ProxyMessage::from_bytes(&bytes), Err(Error::InvalidAbi));
}

#[test]
fn reserved_header_bytes_are_ignored() {
    let m = ProxyMessage::UpdateState(sample_update());
    let mut bytes = m.clone().to_bytes();
    bytes[40] = 0xff;
    assert_eq!(ProxyMessage::from_bytes(&bytes), Ok(m));
}

#[test]
fn garbage_is_refused() {
    assert_eq!(ProxyMessage::from_bytes(&[1, 2, 3]), Err(Error::InvalidAbi));
    assert_eq!(UpdateClientMessage::ethabi_decode(&[]), Err(Error::InvalidAbi));
}

#[test]
fn body_of_another_type_is_refused() {
    let v = VerifyMembershipProxyMessage {
        prefix: vec![],
        path: String::new(),
        value: None,
        height: Height::new(0, 1),
        state_id: StateID::from([3u8; 32]),
    };
    let mut bytes = ProxyMessage::VerifyMembership(v).to_bytes();
    bytes[35] = 1;
    assert!(ProxyMessage::from_bytes(&bytes).is_err());
}

#[test]
fn timestamp_out_of_range_is_refused_on_decode() {
    let height = |a: u64, b: u64| Token::Tuple(vec![Token::Uint(a.into()), Token::Uint(b.into())]);
    let body = ethabi::encode(&[Token::Tuple(vec![
        height(0, 0),
        Token::FixedBytes(vec![0u8; 32]),
        height(1, 2),
        Token::FixedBytes(vec![1u8; 32]),
        Token::Uint(U256::from(MAX_UNIX_TIMESTAMP_NANOS + 1)),
        Token::Bytes(ValidationContext::Empty.ethabi_encode()),
        Token::Array(vec![]),
    ])]);
    assert_eq!(UpdateClientMessage::ethabi_decode(&body), Err(Error::TimestampOutOfRange));
}

#[test]
fn context_round_trip() {
    for c in [
        ValidationContext::Empty,
        TrustingPeriodContext::new(
            1,
            2,
            Time::from_unix_timestamp_nanos(3).unwrap(),
            Time::from_unix_timestamp_nanos(4).unwrap(),
        )
        .into(),
    ] {
        let bytes = c.ethabi_encode();
        assert_eq!(ValidationContext::ethabi_decode(&bytes), Ok(c));
    }
}

#[test]
fn context_header_tags_the_kind() {
    // (bytes32 header, bytes payload): offset word, then the header word.
    let empty = ValidationContext::Empty.ethabi_encode();
    assert_eq!(empty[32], 0);
    let tp: ValidationContext = TrustingPeriodContext::new(
        1,
        2,
        Time::from_unix_timestamp_nanos(3).unwrap(),
        Time::from_unix_timestamp_nanos(4).unwrap(),
    )
    .into();
    let bytes = tp.ethabi_encode();
    assert_eq!(bytes[32], 1);
    assert!(bytes[33..64].iter().all(|b| *b == 0));
}

#[test]
fn unknown_context_tag_is_refused() {
    let mut bytes = ValidationContext::Empty.ethabi_encode();
    bytes[32] = 7;
    assert_eq!(ValidationContext::ethabi_decode(&bytes), Err(Error::InvalidAbi));
}

#[test]
fn emitted_state_is_protobuf_encoded() {
    let mut u = sample_update();
    u.emitted_states = vec![EmittedState(Height::new(1, 1), Any::new("/foo".to_string(), vec![1u8; 32]))];
    let bytes = u.ethabi_encode();
    // google.protobuf.Any: field 1 (type_url) is tagged 0x0a, its length 4.
    let needle = [0x0au8, 4, b'/', b'f', b'o', b'o', 0x12, 32];
    assert!(bytes.windows(needle.len()).any(|w| w == needle));
}

#[test]
fn try_from_picks_the_variant() {
    let m = ProxyMessage::UpdateState(sample_update());
    assert_eq!(UpdateClientMessage::try_from(m.clone()), Ok(sample_update()));
    assert_eq!(
        VerifyMembershipProxyMessage::try_from(m.clone()),
        Err(Error::UnexpectedMessageType { expected: MESSAGE_TYPE_STATE, actual: MESSAGE_TYPE_UPDATE_STATE })
    );
    assert_eq!(
        MisbehaviourProxyMessage::try_from(m),
        Err(Error::UnexpectedMessageType {
            expected: MESSAGE_TYPE_MISBEHAVIOUR,
            actual: MESSAGE_TYPE_UPDATE_STATE
        })
    );
}

#[test]
fn validate_checks_height_order() {
    let mut u = sample_update();
    assert_eq!(ProxyMessage::UpdateState(u.clone()).validate(), Ok(()));
    u.prev_height = Some(Height::new(1, 2));
    assert_eq!(ProxyMessage::UpdateState(u.clone()).validate(), Err(Error::InvalidMessage));
    u.prev_height = Some(Height::new(0, 9));
    assert_eq!(u.validate(), Ok(()));
}

#[test]
fn commitment_proof_round_trip() {
    let p = CommitmentProof {
        message: ProxyMessage::UpdateState(sample_update()).to_bytes(),
        signer: lcp::Address([0x42; 20]),
        signature: vec![0x1b; 65],
    };
    let bytes = p.ethabi_encode();
    // The signer is an address word: twelve zero bytes, then its twenty bytes.
    assert_eq!(&bytes[64..76], &[0u8; 12]);
    assert_eq!(&bytes[76..96], &[0x42u8; 20]);
    assert_eq!(CommitmentProof::ethabi_decode(&bytes), Ok(p));
    assert_eq!(CommitmentProof::ethabi_decode(&bytes[..40]), Err(Error::InvalidAbi));
}
