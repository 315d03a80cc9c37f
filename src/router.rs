//! The in-enclave entry point: management commands run on their own; a
//! light-client command runs on the opened store, which is committed only if
//! the command succeeds and rolled back otherwise.
use crate::error::Error;
use crate::store::TxStore;
use vstd::prelude::*;

verus! {

/// The families of enclave commands.
#[derive(Clone, Copy, Debug, PartialEq, Eq, Structural)]
pub enum CommandKind {
    EnclaveManage,
    LightClient,
}

/// Where a command goes after the router's first step.
#[derive(Clone, Copy, Debug, PartialEq, Eq, Structural)]
pub enum Route {
    /// A management command: no enclave key and no store.
    Manage,
    /// A light-client command on the opened store.
    LightClient,
}

/// The first step of dispatching: routes the command and, for a light-client
/// command, opens the store for the enclave key.
pub fn dispatch(ek_pubkey: Option<&[u8]>, store: &mut TxStore, kind: CommandKind) -> (r: Result<
    Route,
    Error,
>)
    requires
        old(store).well_formed(),
    ensures
        final(store).well_formed(),
        final(store).committed_writes() == old(store).committed_writes(),
        final(store).sequence() == old(store).sequence(),
        kind == CommandKind::EnclaveManage ==> r == Ok::<Route, Error>(Route::Manage)
            && *final(store) == *old(store),
        kind == CommandKind::LightClient && ek_pubkey is None ==> r == Err::<Route, Error>(
            Error::MissingEnclaveKey,
        ) && *final(store) == *old(store),
        kind == CommandKind::LightClient ==> (ek_pubkey matches Some(p) ==> {
            &&& r is Ok <==> !(old(store).owner_key() matches Some(o) && o != p@)
            &&& r is Ok ==> r == Ok::<Route, Error>(Route::LightClient) && final(store).writes()
                == old(store).committed_writes()
            &&& r is Err ==> r == Err::<Route, Error>(Error::StoreError)
        }),
{
    match kind {
        CommandKind::EnclaveManage => Ok(Route::Manage),
        CommandKind::LightClient => match ek_pubkey {
            None => Err(Error::MissingEnclaveKey),
            Some(pk) => match store.load_state(Some(pk)) {
                Ok(()) => Ok(Route::LightClient),
                Err(e) => Err(e),
            },
        },
    }
}

/// The last step of a light-client command: commits the staged writes when
/// the command succeeded, and rolls them back when it failed.
pub fn finish<R>(store: &mut TxStore, outcome: Result<R, Error>) -> (r: Result<(R, u64), Error>)
    requires
        old(store).well_formed(),
    ensures
        final(store).well_formed(),
        outcome is Err ==> {
            &&& r == Err::<(R, u64), Error>(Error::CommandFailed)
            &&& final(store).committed_writes() == old(store).committed_writes()
            &&& final(store).writes() == old(store).committed_writes()
            &&& final(store).sequence() == old(store).sequence()
        },
        outcome matches Ok(res) ==> match r {
            Ok((res2, seq)) => {
                &&& res2 == res
                &&& seq == old(store).sequence() + 1
                &&& final(store).sequence() == seq
                &&& final(store).committed_writes() == old(store).writes()
            },
            Err(e) => {
                &&& e == Error::StoreError
                &&& old(store).sequence() == u64::MAX
                &&& *final(store) == *old(store)
            },
        },
{
    match outcome {
        Ok(res) => match store.commit() {
            Ok(seq) => Ok((res, seq)),
            Err(e) => Err(e),
        },
        Err(_) => {
            store.rollback();
            Err(Error::CommandFailed)
        },
    }
}

} // verus!
