//! The options of the remote-attestation commands and the decisions taken on
//! them before the enclave is asked for anything.
use crate::error::Error;
use crate::text::{decode_hex, hex_decoding};
use crate::types::Address;
use vstd::prelude::*;
use vstd::string::StrSliceExecFns;

verus! {

/// Where collateral is fetched from when no PCCS is named.
pub const DEFAULT_PCCS_URL: &'static str = "https://api.trustedservices.intel.com/";

/// Where certificates are fetched from when no certificate service is named.
pub const DEFAULT_CERTS_SERVICE_URL: &'static str = "https://certificates.trustedservices.intel.com/";

/// What an openssl modulus report begins with.
pub const MODULUS_PREFIX: &'static str = "Modulus=";

/// Whether two strings hold the same characters.
pub fn str_eq(a: &str, b: &str) -> (r: bool)
    ensures
        r == (a@ == b@),
{
    let n = a.unicode_len();
    if n != b.unicode_len() {
        return false;
    }
    let mut i: usize = 0;
    while i < n
        invariant
            0 <= i <= n,
            n == a@.len(),
            n == b@.len(),
            forall|j: int| 0 <= j < i ==> a@[j] == b@[j],
        decreases n - i,
    {
        if a.get_char(i) != b.get_char(i) {
            return false;
        }
        i = i + 1;
    }
    assert(a@ =~= b@);
    true
}

/// Whether two byte strings are equal.
pub fn slice_eq(a: &[u8], b: &[u8]) -> (r: bool)
    ensures
        r == (a@ == b@),
{
    if a.len() != b.len() {
        return false;
    }
    let mut i: usize = 0;
    while i < a.len()
        invariant
            0 <= i <= a@.len(),
            a@.len() == b@.len(),
            forall|j: int| 0 <= j < i ==> a@[j] == b@[j],
        decreases a@.len() - i,
    {
        if a[i] != b[i] {
            assert(a@[i as int] != b@[i as int]);
            return false;
        }
        i = i + 1;
    }
    assert(a@ =~= b@);
    true
}

/// The text with Unicode white space removed from both ends.
pub uninterp spec fn trimmed(s: Seq<char>) -> Seq<char>;

/// Relies on `str::trim`, whose result depends on the characters alone.
#[verifier::external_body]
fn trim(s: &str) -> (r: &str)
    ensures
        r@ == trimmed(s@),
{
    s.trim()
}

/// The text in lower case, as Unicode defines it.
pub uninterp spec fn lower_of(s: Seq<char>) -> Seq<char>;

/// Relies on `str::to_lowercase`, whose result depends on the characters
/// alone.
#[verifier::external_body]
fn lowercase(s: &str) -> (r: String)
    ensures
        r@ == lower_of(s@),
{
    s.to_lowercase()
}

/// Options that locate the enclave image and say how to load it.
#[derive(Clone, Debug, PartialEq, Eq)]
pub struct EnclaveOpts {
    pub path: Option<String>,
    pub debug: bool,
}

impl EnclaveOpts {
    pub fn is_debug(&self) -> (r: bool)
        ensures
            r == self.debug,
    {
        self.debug
    }
}

/// Which Intel Attestation Service to ask.
#[derive(Clone, Copy, Debug, PartialEq, Eq, Structural)]
pub enum IASMode {
    Development,
    Production,
}

/// Remote attestation of an enclave key with IAS.
#[derive(Clone, Debug, PartialEq, Eq)]
pub struct IASRemoteAttestation {
    pub enclave: EnclaveOpts,
    pub enclave_key: String,
    pub is_dev: bool,
}

impl IASRemoteAttestation {
    pub fn mode(&self) -> (r: IASMode)
        ensures
            r == (if self.is_dev {
                IASMode::Development
            } else {
                IASMode::Production
            }),
    {
        if self.is_dev {
            IASMode::Development
        } else {
            IASMode::Production
        }
    }
}

/// Simulated IAS attestation, signed with a key and certificate of the
/// caller's choosing.
#[derive(Clone, Debug, PartialEq, Eq)]
pub struct SimulateRemoteAttestation {
    pub enclave: EnclaveOpts,
    pub enclave_key: String,
    pub operator: Option<String>,
    pub signing_cert_path: String,
    pub signing_key_path: String,
    pub validate_cert: bool,
    pub advisory_ids: Vec<String>,
    pub isv_enclave_quote_status: String,
}

/// The hexadecimal digits after `Modulus=` in a trimmed openssl report, if
/// the report begins so.
pub open spec fn reported_modulus(output: Seq<char>) -> Option<Seq<char>> {
    let t = trimmed(output);
    if t.len() >= MODULUS_PREFIX@.len() && t.subrange(0, MODULUS_PREFIX@.len() as int)
        == MODULUS_PREFIX@ {
        Some(t.subrange(MODULUS_PREFIX@.len() as int, t.len() as int))
    } else {
        None
    }
}

impl SimulateRemoteAttestation {
    /// Checks that the modulus which `openssl x509 -modulus` reported for the
    /// signing certificate is the modulus of the signing key.
    pub fn check_cert_modulus(output: &str, key_modulus: &[u8]) -> (r: Result<(), Error>)
        ensures
            r is Ok <==> (reported_modulus(output@) matches Some(digits) && hex_decoding(digits)
                == Some(key_modulus@)),
            r is Err ==> r == Err::<(), Error>(Error::AttestationFailed),
    {
        let t = trim(output);
        let n = t.unicode_len();
        let p = MODULUS_PREFIX.unicode_len();
        if n < p || !str_eq(t.substring_char(0, p), MODULUS_PREFIX) {
            return Err(Error::AttestationFailed);
        }
        let digits = t.substring_char(p, n);
        let modulus = match decode_hex(digits) {
            Some(m) => m,
            None => return Err(Error::AttestationFailed),
        };
        if !slice_eq(modulus.as_slice(), key_modulus) {
            return Err(Error::AttestationFailed);
        }
        Ok(())
    }
}

/// How often TCB information is refreshed.
#[derive(Clone, Copy, Debug, PartialEq, Eq, Structural)]
pub enum UpdatePolicy {
    Early,
    Standard,
}

impl UpdatePolicy {
    /// Reads a policy from its lower-case name.
    pub fn from_lowercase(s: &str) -> (r: Result<UpdatePolicy, Error>)
        ensures
            r == (if s@ == "early"@ {
                Ok(UpdatePolicy::Early)
            } else if s@ == "standard"@ {
                Ok(UpdatePolicy::Standard)
            } else {
                Err(Error::InputValidation)
            }),
    {
        if str_eq(s, "early") {
            Ok(UpdatePolicy::Early)
        } else if str_eq(s, "standard") {
            Ok(UpdatePolicy::Standard)
        } else {
            Err(Error::InputValidation)
        }
    }

    /// Reads a policy from its name, in any case.
    pub fn parse(s: &str) -> (r: Result<UpdatePolicy, Error>)
        ensures
            r == (if lower_of(s@) == "early"@ {
                Ok(UpdatePolicy::Early)
            } else if lower_of(s@) == "standard"@ {
                Ok(UpdatePolicy::Standard)
            } else {
                Err(Error::InputValidation)
            }),
    {
        let lower = lowercase(s);
        UpdatePolicy::from_lowercase(&lower)
    }
}

impl core::str::FromStr for UpdatePolicy {
    type Err = Error;

    fn from_str(s: &str) -> Result<UpdatePolicy, Error> {
        UpdatePolicy::parse(s)
    }
}

/// What the verifier of DCAP quotes is told about where to fetch collateral.
#[derive(Clone, Debug, PartialEq, Eq)]
pub struct PcsClientConfig {
    pub pccs_url: String,
    pub certs_service_url: String,
    pub is_early_update: bool,
    pub expected_tcb_evaluation_data_number: Option<u32>,
}

/// The services that provide DCAP collateral.
#[derive(Clone, Debug, PartialEq, Eq)]
pub struct SgxCollateralService {
    pub pccs_url: Option<String>,
    pub certs_service_url: Option<String>,
    pub update_policy: UpdatePolicy,
    pub expected_tcb_evaluation_data_number: Option<u32>,
}

pub open spec fn or_default(o: Option<String>, default: Seq<char>) -> Seq<char> {
    match o {
        Some(s) => s@,
        None => default,
    }
}

impl SgxCollateralService {
    /// The PCCS URL, or the default one.
    pub fn get_pccs_url(&self) -> (r: String)
        ensures
            r@ == or_default(self.pccs_url, DEFAULT_PCCS_URL@),
    {
        match &self.pccs_url {
            Some(u) => u.clone(),
            None => DEFAULT_PCCS_URL.to_owned(),
        }
    }

    /// The certificate service URL, or the default one.
    pub fn get_certs_service_url(&self) -> (r: String)
        ensures
            r@ == or_default(self.certs_service_url, DEFAULT_CERTS_SERVICE_URL@),
    {
        match &self.certs_service_url {
            Some(u) => u.clone(),
            None => DEFAULT_CERTS_SERVICE_URL.to_owned(),
        }
    }

    /// The configuration of the client that fetches collateral.
    pub fn pcs_client_config(&self) -> (r: PcsClientConfig)
        ensures
            r.pccs_url@ == or_default(self.pccs_url, DEFAULT_PCCS_URL@),
            r.certs_service_url@ == or_default(self.certs_service_url, DEFAULT_CERTS_SERVICE_URL@),
            r.is_early_update == (self.update_policy == UpdatePolicy::Early),
            r.expected_tcb_evaluation_data_number == self.expected_tcb_evaluation_data_number,
    {
        PcsClientConfig {
            pccs_url: self.get_pccs_url(),
            certs_service_url: self.get_certs_service_url(),
            is_early_update: self.update_policy == UpdatePolicy::Early,
            expected_tcb_evaluation_data_number: self.expected_tcb_evaluation_data_number,
        }
    }
}

/// Remote attestation of an enclave key with DCAP.
#[derive(Clone, Debug, PartialEq, Eq)]
pub struct DCAPRemoteAttestation {
    pub enclave: EnclaveOpts,
    pub enclave_key: String,
    pub collateral_service: SgxCollateralService,
}

/// How a zkVM proof is produced.
#[derive(Clone, Copy, Debug, PartialEq, Eq, Structural)]
pub enum ProveMode {
    Dev,
    Local,
    Bonsai,
}

impl ProveMode {
    /// Reads a prove mode from its name.
    pub fn parse(s: &str) -> (r: Result<ProveMode, Error>)
        ensures
            r == (if s@ == "dev"@ {
                Ok(ProveMode::Dev)
            } else if s@ == "local"@ {
                Ok(ProveMode::Local)
            } else if s@ == "bonsai"@ {
                Ok(ProveMode::Bonsai)
            } else {
                Err(Error::InputValidation)
            }),
    {
        if str_eq(s, "dev") {
            Ok(ProveMode::Dev)
        } else if str_eq(s, "local") {
            Ok(ProveMode::Local)
        } else if str_eq(s, "bonsai") {
            Ok(ProveMode::Bonsai)
        } else {
            Err(Error::InputValidation)
        }
    }
}

impl core::str::FromStr for ProveMode {
    type Err = Error;

    fn from_str(s: &str) -> Result<ProveMode, Error> {
        ProveMode::parse(s)
    }
}

/// Where a remote prover is reached.
#[derive(Clone, Debug, PartialEq, Eq)]
pub struct BonsaiProverOptions {
    pub api_url: Option<String>,
    pub api_key: Option<String>,
}

/// The prover that a zkDCAP attestation runs.
#[derive(Clone, Debug, PartialEq, Eq)]
pub enum ProverMode {
    Dev,
    Local,
    Bonsai(BonsaiProverOptions),
}

fn clone_option(o: &Option<String>) -> (r: Option<String>)
    ensures
        r == *o,
{
    match o {
        Some(s) => Some(s.clone()),
        None => None,
    }
}

/// The prover for a prove mode and the remote prover's options.
pub open spec fn spec_prover_mode(
    mode: ProveMode,
    api_url: Option<String>,
    api_key: Option<String>,
) -> ProverMode {
    match mode {
        ProveMode::Dev => ProverMode::Dev,
        ProveMode::Local => ProverMode::Local,
        ProveMode::Bonsai => ProverMode::Bonsai(BonsaiProverOptions { api_url, api_key }),
    }
}

/// Remote attestation of an enclave key with DCAP verified inside a zkVM.
#[derive(Clone, Debug, PartialEq, Eq)]
pub struct ZKDCAPRemoteAttestation {
    pub enclave: EnclaveOpts,
    pub enclave_key: String,
    pub collateral_service: SgxCollateralService,
    pub allowed_tcb_statuses: Vec<String>,
    pub allowed_advisory_ids: Vec<String>,
    pub program_path: Option<String>,
    pub prove_mode: ProveMode,
    pub bonsai_api_url: Option<String>,
    pub bonsai_api_key: Option<String>,
    pub disable_pre_execution: bool,
}

impl ZKDCAPRemoteAttestation {
    pub fn get_bonsai_prover_options(&self) -> (r: Result<BonsaiProverOptions, Error>)
        ensures
            r == Ok::<BonsaiProverOptions, Error>(
                BonsaiProverOptions { api_url: self.bonsai_api_url, api_key: self.bonsai_api_key },
            ),
    {
        Ok(
            BonsaiProverOptions {
                api_url: clone_option(&self.bonsai_api_url),
                api_key: clone_option(&self.bonsai_api_key),
            },
        )
    }

    /// The prover that the attestation runs.
    pub fn prover_mode(&self) -> (r: Result<ProverMode, Error>)
        ensures
            r == Ok::<ProverMode, Error>(
                spec_prover_mode(self.prove_mode, self.bonsai_api_url, self.bonsai_api_key),
            ),
    {
        match self.prove_mode {
            ProveMode::Dev => Ok(ProverMode::Dev),
            ProveMode::Local => Ok(ProverMode::Local),
            ProveMode::Bonsai => match self.get_bonsai_prover_options() {
                Ok(o) => Ok(ProverMode::Bonsai(o)),
                Err(e) => Err(e),
            },
        }
    }
}

/// zkDCAP attestation against a simulated root of trust.
#[derive(Clone, Debug, PartialEq, Eq)]
pub struct ZKDCAPSIMRemoteAttestation {
    pub enclave: EnclaveOpts,
    pub enclave_key: String,
    pub program_path: Option<String>,
    pub prove_mode: ProveMode,
    pub bonsai_api_url: Option<String>,
    pub bonsai_api_key: Option<String>,
    pub disable_pre_execution: bool,
    pub advisory_ids: Vec<String>,
    pub isv_enclave_quote_status: String,
    pub tcb_eval_data_num: u32,
}

impl ZKDCAPSIMRemoteAttestation {
    /// The prover that the attestation runs.
    pub fn prover_mode(&self) -> (r: ProverMode)
        ensures
            r == spec_prover_mode(self.prove_mode, self.bonsai_api_url, self.bonsai_api_key),
    {
        match self.prove_mode {
            ProveMode::Dev => ProverMode::Dev,
            ProveMode::Local => ProverMode::Local,
            ProveMode::Bonsai => ProverMode::Bonsai(
                BonsaiProverOptions {
                    api_url: clone_option(&self.bonsai_api_url),
                    api_key: clone_option(&self.bonsai_api_key),
                },
            ),
        }
    }
}

/// The 64 bytes of report data that bind a quote to an enclave key: the
/// address, then zeros.
pub open spec fn report_data_of(address: Address) -> Seq<u8> {
    address.0@ + Seq::new(44, |i: int| 0u8)
}

/// The report data that binds a quote to the enclave key's address.
pub fn report_data_for(address: &Address) -> (r: [u8; 64])
    ensures
        r@ == report_data_of(*address),
{
    let mut r = [0u8; 64];
    let mut i: usize = 0;
    while i < 20
        invariant
            0 <= i <= 20,
            r@.len() == 64,
            address.0@.len() == 20,
            forall|j: int| 0 <= j < i ==> r@[j] == address.0@[j],
            forall|j: int| 20 <= j < 64 ==> r@[j] == 0,
        decreases 20 - i,
    {
        r[i] = address.0[i];
        i = i + 1;
    }
    assert(r@ =~= report_data_of(*address));
    r
}

/// The enclave key's address that report data binds: its first 20 bytes.
pub fn enclave_key_address(report_data: &[u8; 64]) -> (r: Address)
    ensures
        r.0@ == report_data@.subrange(0, 20),
{
    let mut a = [0u8; 20];
    let mut i: usize = 0;
    while i < 20
        invariant
            0 <= i <= 20,
            a@.len() == 20,
            report_data@.len() == 64,
            forall|j: int| 0 <= j < i ==> a@[j] == report_data@[j],
        decreases 20 - i,
    {
        a[i] = report_data[i];
        i = i + 1;
    }
    assert(a@ =~= report_data@.subrange(0, 20));
    Address(a)
}

/// The address read back from the report data made for it is the address.
pub proof fn lemma_report_data_binding(address: Address)
    ensures
        report_data_of(address).len() == 64,
        report_data_of(address).subrange(0, 20) == address.0@,
{
    assert(report_data_of(address).subrange(0, 20) =~= address.0@);
}

} // verus!
