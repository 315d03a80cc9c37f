//! The checks that precede a Tendermint client update.
use crate::error::Error;
use crate::text::{encode_hex, hex_encoding};
use crate::attestation::str_eq;
use crate::types::{Any, ClientId, StateID, Time};
use vstd::prelude::*;
use vstd::string::StringExecFns;

verus! {

/// The light client of Tendermint chains.
#[derive(Clone, Copy, Debug, Default, PartialEq, Eq, Structural)]
pub struct TendermintLightClient;

/// The type URL of a Tendermint client state.
pub const TENDERMINT_CLIENT_STATE_TYPE_URL: &'static str = "/ibc.lightclients.tendermint.v1.ClientState";

/// The type URL of a Tendermint consensus state.
pub const TENDERMINT_CONSENSUS_STATE_TYPE_URL: &'static str =
    "/ibc.lightclients.tendermint.v1.ConsensusState";

/// The type URL of a Tendermint header.
pub const TENDERMINT_HEADER_TYPE_URL: &'static str = "/ibc.lightclients.tendermint.v1.Header";

/// Why an update may not proceed, if it may not: a frozen client, a missing
/// latest consensus state, a consensus state from the future, or one older
/// than the trusting period (durations in nanoseconds).
pub open spec fn update_precondition_error(
    frozen: bool,
    latest_consensus_timestamp: Option<Time>,
    now: Time,
    trusting_period: u128,
) -> Option<Error> {
    if frozen {
        Some(Error::ClientFrozen)
    } else if latest_consensus_timestamp is None {
        Some(Error::ConsensusStateNotFound)
    } else if now@ < latest_consensus_timestamp->0@ {
        Some(Error::InvalidConsensusStateTimestamp)
    } else if now@ - latest_consensus_timestamp->0@ > trusting_period {
        Some(Error::HeaderNotWithinTrustPeriod)
    } else {
        None
    }
}

impl TendermintLightClient {
    /// Checks that the states a client is created from are Tendermint's.
    pub fn check_create(&self, client_state: &Any, consensus_state: &Any) -> (r: Result<(), Error>)
        ensures
            r is Ok <==> client_state.type_url@ == TENDERMINT_CLIENT_STATE_TYPE_URL@
                && consensus_state.type_url@ == TENDERMINT_CONSENSUS_STATE_TYPE_URL@,
            r is Err ==> r == Err::<(), Error>(Error::UnexpectedClientType),
    {
        if !str_eq(&client_state.type_url, TENDERMINT_CLIENT_STATE_TYPE_URL) {
            return Err(Error::UnexpectedClientType);
        }
        if !str_eq(&consensus_state.type_url, TENDERMINT_CONSENSUS_STATE_TYPE_URL) {
            return Err(Error::UnexpectedClientType);
        }
        Ok(())
    }

    /// Checks that an update carries a Tendermint header.
    pub fn check_header(&self, header: &Any) -> (r: Result<(), Error>)
        ensures
            r is Ok <==> header.type_url@ == TENDERMINT_HEADER_TYPE_URL@,
            r is Err ==> r == Err::<(), Error>(Error::UnexpectedClientType),
    {
        if str_eq(&header.type_url, TENDERMINT_HEADER_TYPE_URL) {
            Ok(())
        } else {
            Err(Error::UnexpectedClientType)
        }
    }

    /// Checks that a client may be updated now.
    pub fn check_update(
        &self,
        frozen: bool,
        latest_consensus_timestamp: Option<Time>,
        now: Time,
        trusting_period: u128,
    ) -> (r: Result<(), Error>)
        ensures
            r is Ok <==> update_precondition_error(
                frozen,
                latest_consensus_timestamp,
                now,
                trusting_period,
            ) is None,
            r matches Err(e) ==> update_precondition_error(
                frozen,
                latest_consensus_timestamp,
                now,
                trusting_period,
            ) == Some(e),
    {
        if frozen {
            return Err(Error::ClientFrozen);
        }
        let latest = match latest_consensus_timestamp {
            Some(t) => t.as_unix_timestamp_nanos(),
            None => return Err(Error::ConsensusStateNotFound),
        };
        let now = now.as_unix_timestamp_nanos();
        if now < latest {
            return Err(Error::InvalidConsensusStateTimestamp);
        }
        if now - latest > trusting_period {
            return Err(Error::HeaderNotWithinTrustPeriod);
        }
        Ok(())
    }
}

/// The identifier of the client whose initial states have the state id: the
/// id in hexadecimal after `0x`.
pub fn gen_client_id(state_id: &StateID) -> (r: ClientId)
    ensures
        r.0@ == "0x"@ + hex_encoding(state_id.0@),
{
    let digits = encode_hex(state_id.0.as_slice());
    let mut id = "0x".to_owned();
    id.append(&digits);
    ClientId(id)
}

} // verus!
