//! The `enclave` commands and the decisions taken on the files they write.
use crate::error::Error;
use vstd::prelude::*;

verus! {

/// Mints and seals a fresh enclave key.
#[derive(Clone, Debug, PartialEq, Eq)]
pub struct InitKey {
    pub enclave: Option<String>,
    pub force: bool,
}

/// Attests the enclave key with IAS and stores the endorsed report.
#[derive(Clone, Debug, PartialEq, Eq)]
pub struct IASRemoteAttestation {
    pub enclave: Option<String>,
    pub force: bool,
}

/// The `enclave` subcommands.
#[derive(Clone, Debug, PartialEq, Eq)]
pub enum EnclaveCmd {
    InitKey(InitKey),
    IASRemoteAttestation(IASRemoteAttestation),
    ShowAVR,
}

/// What to do before a command writes its output file.
#[derive(Clone, Copy, Debug, PartialEq, Eq, Structural)]
pub enum OutputAction {
    /// No file is there: write it.
    Create,
    /// A file is there and may be overwritten: remove it, then write it.
    Replace,
}

/// What to do about the home directory before a command runs.
#[derive(Clone, Copy, Debug, PartialEq, Eq, Structural)]
pub enum HomeAction {
    Create,
    Use,
}

/// The action on an output file: an existing file is only replaced when
/// forced.
pub open spec fn spec_output_action(exists: bool, force: bool) -> Result<OutputAction, Error> {
    if !exists {
        Ok(OutputAction::Create)
    } else if force {
        Ok(OutputAction::Replace)
    } else {
        Err(Error::AlreadyInitialized)
    }
}

pub fn output_action(exists: bool, force: bool) -> (r: Result<OutputAction, Error>)
    ensures
        r == spec_output_action(exists, force),
{
    if !exists {
        Ok(OutputAction::Create)
    } else if force {
        Ok(OutputAction::Replace)
    } else {
        Err(Error::AlreadyInitialized)
    }
}

impl InitKey {
    /// What to do with the sealed key file, given whether it exists.
    pub fn key_file_action(&self, exists: bool) -> (r: Result<OutputAction, Error>)
        ensures
            r == spec_output_action(exists, self.force),
    {
        output_action(exists, self.force)
    }
}

impl IASRemoteAttestation {
    /// What to do with the report file, given whether it exists.
    pub fn report_file_action(&self, exists: bool) -> (r: Result<OutputAction, Error>)
        ensures
            r == spec_output_action(exists, self.force),
    {
        output_action(exists, self.force)
    }
}

impl EnclaveCmd {
    /// Key initialisation creates a missing home directory; the other
    /// commands need it to exist.
    pub open spec fn spec_home_action(&self, exists: bool) -> Result<HomeAction, Error> {
        if exists {
            Ok(HomeAction::Use)
        } else if self is InitKey {
            Ok(HomeAction::Create)
        } else {
            Err(Error::NotFound)
        }
    }

    pub fn home_action(&self, exists: bool) -> (r: Result<HomeAction, Error>)
        ensures
            r == self.spec_home_action(exists),
    {
        if exists {
            Ok(HomeAction::Use)
        } else {
            match self {
                EnclaveCmd::InitKey(_) => Ok(HomeAction::Create),
                _ => Err(Error::NotFound),
            }
        }
    }
}

} // verus!
