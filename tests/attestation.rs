use lcp::attestation::{
    enclave_key_address, report_data_for, BonsaiProverOptions, DCAPRemoteAttestation,
    EnclaveOpts, IASMode, IASRemoteAttestation, PcsClientConfig, ProveMode, ProverMode,
    SgxCollateralService, SimulateRemoteAttestation, UpdatePolicy, ZKDCAPRemoteAttestation,
    ZKDCAPSIMRemoteAttestation,
};
use lcp::{Address, Error};

fn service(pccs: Option<&str>, certs: Option<&str>) -> SgxCollateralService {
    SgxCollateralService {
        pccs_url: pccs.map(|s| s.to_string()),
        certs_service_url: certs.map(|s| s.to_string()),
        update_policy: UpdatePolicy::Early,
        expected_tcb_evaluation_data_number: Some(17),
    }
}

fn opts() -> EnclaveOpts {
    EnclaveOpts { path: None, debug: false }
}

#[test]
fn default_collateral_urls() {
    let s = service(None, None);
    assert_eq!(s.get_pccs_url(), "https://api.trustedservices.intel.com/");
    assert_eq!(s.get_certs_service_url(), "https://certificates.trustedservices.intel.com/");
}

#[test]
fn given_collateral_urls() {
    let s = service(Some("http://localhost:8081/"), Some("http://localhost:8082/"));
    assert_eq!(s.get_pccs_url(), "http://localhost:8081/");
    assert_eq!(s.get_certs_service_url(), "http://localhost:8082/");
}

#[test]
fn pcs_client_config_follows_policy() {
    let mut s = service(None, Some("http://c/"));
    assert_eq!(
        s.pcs_client_config(),
        PcsClientConfig {
            pccs_url: "https://api.trustedservices.intel.com/".to_string(),
            certs_service_url: "http://c/".to_string(),
            is_early_update: true,
            expected_tcb_evaluation_data_number: Some(17),
        }
    );
    s.update_policy = UpdatePolicy::Standard;
    assert!(!s.pcs_client_config().is_early_update);
    let d = DCAPRemoteAttestation { enclave: opts(), enclave_key: String::new(), collateral_service: s };
    assert_eq!(d.collateral_service.pcs_client_config().certs_service_url, "http://c/");
}

#[test]
fn update_policy_names_in_any_case() {
    assert_eq!(UpdatePolicy::parse("early"), Ok(UpdatePolicy::Early));
    assert_eq!(UpdatePolicy::parse("EARLY"), Ok(UpdatePolicy::Early));
    assert_eq!("Standard".parse::<UpdatePolicy>(), Ok(UpdatePolicy::Standard));
    assert_eq!(UpdatePolicy::parse("late"), Err(Error::InputValidation));
    assert_eq!(UpdatePolicy::from_lowercase("EARLY"), Err(Error::InputValidation));
}

#[test]
fn prove_mode_names() {
    assert_eq!(ProveMode::parse("dev"), Ok(ProveMode::Dev));
    assert_eq!("local".parse::<ProveMode>(), Ok(ProveMode::Local));
    assert_eq!(ProveMode::parse("bonsai"), Ok(ProveMode::Bonsai));
    assert_eq!(ProveMode::parse("Bonsai"), Err(Error::InputValidation));
}

#[test]
fn prover_modes() {
    let mut z = ZKDCAPRemoteAttestation {
        enclave: opts(),
        enclave_key: String::new(),
        collateral_service: service(None, None),
        allowed_tcb_statuses: vec![],
        allowed_advisory_ids: vec![],
        program_path: None,
        prove_mode: ProveMode::Bonsai,
        bonsai_api_url: Some("https://api.bonsai.xyz/".to_string()),
        bonsai_api_key: Some("SECRET-REDACTED".to_string()),
        disable_pre_execution: false,
    };
    let options = BonsaiProverOptions {
        api_url: Some("https://api.bonsai.xyz/".to_string()),
        api_key: Some("SECRET-REDACTED".to_string()),
    };
    assert_eq!(z.get_bonsai_prover_options(), Ok(options.clone()));
    assert_eq!(z.prover_mode(), Ok(ProverMode::Bonsai(options)));
    z.prove_mode = ProveMode::Dev;
    assert_eq!(z.prover_mode(), Ok(ProverMode::Dev));
    let s = ZKDCAPSIMRemoteAttestation {
        enclave: opts(),
        enclave_key: String::new(),
        program_path: None,
        prove_mode: ProveMode::Local,
        bonsai_api_url: None,
        bonsai_api_key: None,
        disable_pre_execution: true,
        advisory_ids: vec![],
        isv_enclave_quote_status: "UpToDate".to_string(),
        tcb_eval_data_num: 1,
    };
    assert_eq!(s.prover_mode(), ProverMode::Local);
}

#[test]
fn ias_mode() {
    let mut a = IASRemoteAttestation { enclave: opts(), enclave_key: String::new(), is_dev: true };
    assert_eq!(a.mode(), IASMode::Development);
    a.is_dev = false;
    assert_eq!(a.mode(), IASMode::Production);
}

#[test]
fn enclave_key_from_hex() {
    let a = Address::from_hex_string("0x00112233445566778899aabbccddeeff0011AABB").unwrap();
    assert_eq!(
        a,
        Address([
            0x00, 0x11, 0x22, 0x33, 0x44, 0x55, 0x66, 0x77, 0x88, 0x99, 0xaa, 0xbb, 0xcc, 0xdd, 0xee,
            0xff, 0x00, 0x11, 0xaa, 0xbb
        ])
    );
    assert_eq!(a.to_hex_string(), "00112233445566778899aabbccddeeff0011aabb");
    assert_eq!(Address::from_hex_string("00112233445566778899aabbccddeeff0011aabb"), Ok(a));
}

#[test]
fn bad_enclave_keys() {
    assert_eq!(Address::from_hex_string("0x0011"), Err(Error::InputValidation));
    assert_eq!(Address::from_hex_string("0x0"), Err(Error::InputValidation));
    assert_eq!(
        Address::from_hex_string("zz112233445566778899aabbccddeeff0011aabb"),
        Err(Error::InputValidation)
    );
}

#[test]
fn report_data_binds_the_address() {
    let a = Address([0x5a; 20]);
    let rd = report_data_for(&a);
    assert_eq!(&rd[..20], &[0x5a; 20]);
    assert!(rd[20..].iter().all(|b| *b == 0));
    assert_eq!(enclave_key_address(&rd), a);
}

#[test]
fn signing_certificate_modulus() {
    let key = [0xab, 0xcd, 0x01];
    assert_eq!(SimulateRemoteAttestation::check_cert_modulus("  Modulus=ABCD01\n", &key), Ok(()));
    assert_eq!(
        SimulateRemoteAttestation::check_cert_modulus("Modulus=ABCD02", &key),
        Err(Error::AttestationFailed)
    );
    assert_eq!(
        SimulateRemoteAttestation::check_cert_modulus("Exponent=ABCD01", &key),
        Err(Error::AttestationFailed)
    );
    assert_eq!(
        SimulateRemoteAttestation::check_cert_modulus("Modulus=ABCD0", &key),
        Err(Error::AttestationFailed)
    );
}
