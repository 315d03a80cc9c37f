use lcp::enclave::{output_action, EnclaveCmd, HomeAction, IASRemoteAttestation, InitKey, OutputAction};
use lcp::light_client::{
    gen_client_id, TendermintLightClient, TENDERMINT_CLIENT_STATE_TYPE_URL,
    TENDERMINT_CONSENSUS_STATE_TYPE_URL, TENDERMINT_HEADER_TYPE_URL,
};
use lcp::registry::{
    register_implementations, LightClientKind, LightClientRegistry, TENDERMINT_CLIENT_TYPE,
};
use lcp::service::{
    AggregateMessagesInput, CommitmentProofPair, InitClientInput, MsgAggregateMessages,
    MsgCreateClient, MsgVerifyMembership, MsgVerifyNonMembership, QueryClientInput,
    UpdateClientInput, VerifyMembershipInput, VerifyNonMembershipInput,
};
use lcp::streaming::MsgUpdateClient;
use lcp::{Address, Any, ClientId, Error, Height, StateID, Time};

#[test]
fn existing_output_needs_force() {
    assert_eq!(output_action(false, false), Ok(OutputAction::Create));
    assert_eq!(output_action(true, true), Ok(OutputAction::Replace));
    assert_eq!(output_action(true, false), Err(Error::AlreadyInitialized));
    let k = InitKey { enclave: None, force: false };
    assert_eq!(k.key_file_action(true), Err(Error::AlreadyInitialized));
    let r = IASRemoteAttestation { enclave: None, force: true };
    assert_eq!(r.report_file_action(true), Ok(OutputAction::Replace));
}

#[test]
fn home_directory() {
    let init = EnclaveCmd::InitKey(InitKey { enclave: None, force: false });
    assert_eq!(init.home_action(false), Ok(HomeAction::Create));
    assert_eq!(init.home_action(true), Ok(HomeAction::Use));
    assert_eq!(EnclaveCmd::ShowAVR.home_action(false), Err(Error::NotFound));
    let ias = EnclaveCmd::IASRemoteAttestation(IASRemoteAttestation { enclave: None, force: false });
    assert_eq!(ias.home_action(false), Err(Error::NotFound));
}

fn t(n: u128) -> Time {
    Time::from_unix_timestamp_nanos(n).unwrap()
}

#[test]
fn update_preconditions() {
    let c = TendermintLightClient;
    assert_eq!(c.check_update(false, Some(t(100)), t(150), 50), Ok(()));
    assert_eq!(c.check_update(true, Some(t(100)), t(150), 50), Err(Error::ClientFrozen));
    assert_eq!(c.check_update(false, None, t(150), 50), Err(Error::ConsensusStateNotFound));
    assert_eq!(c.check_update(false, Some(t(200)), t(150), 50), Err(Error::InvalidConsensusStateTimestamp));
    assert_eq!(c.check_update(false, Some(t(100)), t(151), 50), Err(Error::HeaderNotWithinTrustPeriod));
}

#[test]
fn client_id_from_state_id() {
    let mut bytes = [0u8; 32];
    bytes[0] = 0xab;
    bytes[31] = 0x01;
    let id = gen_client_id(&StateID::from(bytes));
    assert_eq!(id.0, format!("0xab{}01", "00".repeat(30)));
}

#[test]
fn tendermint_type_urls() {
    let c = TendermintLightClient;
    let cs = Any::new(TENDERMINT_CLIENT_STATE_TYPE_URL.to_string(), vec![1]);
    let ss = Any::new(TENDERMINT_CONSENSUS_STATE_TYPE_URL.to_string(), vec![2]);
    let h = Any::new(TENDERMINT_HEADER_TYPE_URL.to_string(), vec![3]);
    assert_eq!(c.check_create(&cs, &ss), Ok(()));
    assert_eq!(c.check_create(&ss, &cs), Err(Error::UnexpectedClientType));
    assert_eq!(c.check_header(&h), Ok(()));
    assert_eq!(c.check_header(&cs), Err(Error::UnexpectedClientType));
}

#[test]
fn update_client_input_checks() {
    let msg = MsgUpdateClient {
        client_id: "07-tendermint-0".to_string(),
        header: Some(Any::new("/h".to_string(), vec![1, 2])),
        include_state: true,
        signer: vec![9u8; 20],
    };
    let input = UpdateClientInput::try_from_msg(msg.clone()).unwrap();
    assert_eq!(input.client_id, ClientId("07-tendermint-0".to_string()));
    assert_eq!(input.signer, Address([9u8; 20]));
    assert!(input.include_state);
    let mut no_header = msg.clone();
    no_header.header = None;
    assert_eq!(UpdateClientInput::try_from_msg(no_header), Err(Error::InputValidation));
    let mut short_id = msg.clone();
    short_id.client_id = "07-tm".to_string();
    assert_eq!(UpdateClientInput::try_from_msg(short_id), Err(Error::InputValidation));
    let mut bad_char = msg.clone();
    bad_char.client_id = "07-tendermint/0".to_string();
    assert_eq!(UpdateClientInput::try_from_msg(bad_char), Err(Error::InputValidation));
    let mut bad_signer = msg;
    bad_signer.signer = vec![1u8; 19];
    assert_eq!(UpdateClientInput::try_from_msg(bad_signer), Err(Error::InputValidation));
}

#[test]
fn aggregate_messages_input_checks() {
    let msg = MsgAggregateMessages { signer: vec![3u8; 20], messages: vec![vec![1]], signatures: vec![vec![2]] };
    let input = AggregateMessagesInput::try_from_msg(msg.clone()).unwrap();
    assert_eq!(input.signer, Address([3u8; 20]));
    assert_eq!(input.messages, vec![vec![1u8]]);
    let mut bad = msg;
    bad.signer = vec![];
    assert_eq!(AggregateMessagesInput::try_from_msg(bad), Err(Error::InputValidation));
}

#[test]
fn registry_holds_each_type_once() {
    let mut registry = LightClientRegistry::new();
    assert_eq!(registry.get(TENDERMINT_CLIENT_TYPE), None);
    register_implementations(&mut registry);
    assert_eq!(registry.get("07-tendermint"), Some(LightClientKind::Tendermint(TendermintLightClient)));
    assert_eq!(
        registry.put(TENDERMINT_CLIENT_TYPE.to_string(), LightClientKind::Tendermint(TendermintLightClient)),
        Err(Error::AlreadyRegistered)
    );
    assert_eq!(registry.get("09-localhost"), None);
}

#[test]
fn create_and_membership_inputs() {
    let create = MsgCreateClient {
        client_id: String::new(),
        client_state: Some(Any::new("/cs".to_string(), vec![1])),
        consensus_state: Some(Any::new("/ss".to_string(), vec![2])),
        signer: vec![4u8; 20],
    };
    assert_eq!(InitClientInput::try_from_msg(create.clone()).unwrap().signer, Address([4u8; 20]));
    let mut no_state = create;
    no_state.consensus_state = None;
    assert_eq!(InitClientInput::try_from_msg(no_state), Err(Error::InputValidation));

    let m = MsgVerifyMembership {
        client_id: "07-tendermint-0".to_string(),
        prefix: b"ibc".to_vec(),
        path: "/p".to_string(),
        value: vec![5],
        proof_height: Some(Height::new(1, 9)),
        proof: vec![6],
        signer: vec![1u8; 20],
    };
    let input = VerifyMembershipInput::try_from_msg(m.clone()).unwrap();
    assert_eq!(input.proof, CommitmentProofPair(Height::new(1, 9), vec![6]));
    let mut no_height = m;
    no_height.proof_height = None;
    assert_eq!(VerifyMembershipInput::try_from_msg(no_height), Err(Error::InputValidation));

    let n = MsgVerifyNonMembership {
        client_id: "07-tendermint-0".to_string(),
        prefix: vec![],
        path: "/q".to_string(),
        proof_height: Some(Height::new(0, 1)),
        proof: vec![],
        signer: vec![1u8; 20],
    };
    assert_eq!(VerifyNonMembershipInput::try_from_msg(n).unwrap().path, "/q");
    assert!(QueryClientInput::try_from_client_id("07-tendermint-0").is_ok());
    assert_eq!(QueryClientInput::try_from_client_id("short"), Err(Error::InputValidation));
}
