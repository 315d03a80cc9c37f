//! The light clients an enclave knows, by client type.
use crate::attestation::str_eq;
use crate::error::Error;
use crate::light_client::TendermintLightClient;
use vstd::prelude::*;

verus! {

/// The client type of Tendermint light clients.
pub const TENDERMINT_CLIENT_TYPE: &'static str = "07-tendermint";

/// A light client the registry can hand out.
#[derive(Clone, Copy, Debug, PartialEq, Eq, Structural)]
pub enum LightClientKind {
    Tendermint(TendermintLightClient),
}

/// Client types mapped to light clients; each type is registered once.
pub struct LightClientRegistry {
    entries: Vec<(String, LightClientKind)>,
}

impl LightClientRegistry {
    /// The registered client types and their clients, in order of registration.
    pub closed spec fn entries(&self) -> Seq<(Seq<char>, LightClientKind)> {
        self.entries@.map_values(|e: (String, LightClientKind)| (e.0@, e.1))
    }

    /// Whether a client type is registered.
    pub open spec fn contains(&self, client_type: Seq<char>) -> bool {
        exists|i: int| 0 <= i < self.entries().len() && (#[trigger] self.entries()[i]).0 == client_type
    }

    pub fn new() -> (r: LightClientRegistry)
        ensures
            r.entries() == Seq::<(Seq<char>, LightClientKind)>::empty(),
    {
        let r = LightClientRegistry { entries: Vec::new() };
        assert(r.entries() =~= Seq::<(Seq<char>, LightClientKind)>::empty());
        r
    }

    /// The client registered for a type, if any.
    pub fn get(&self, client_type: &str) -> (r: Option<LightClientKind>)
        ensures
            r is Some <==> self.contains(client_type@),
            r matches Some(c) ==> exists|i: int|
                0 <= i < self.entries().len() && #[trigger] self.entries()[i] == (client_type@, c),
    {
        let mut i: usize = 0;
        while i < self.entries.len()
            invariant
                0 <= i <= self.entries@.len(),
                self.entries().len() == self.entries@.len(),
                forall|j: int| 0 <= j < i ==> (#[trigger] self.entries()[j]).0 != client_type@,
            decreases self.entries@.len() - i,
        {
            assert(self.entries()[i as int] == (self.entries@[i as int].0@, self.entries@[i as int].1));
            if str_eq(&self.entries[i].0, client_type) {
                return Some(self.entries[i].1);
            }
            i = i + 1;
        }
        None
    }

    /// Registers a client for a type; a type already registered is refused.
    pub fn put(&mut self, client_type: String, client: LightClientKind) -> (r: Result<(), Error>)
        ensures
            r is Err <==> old(self).contains(client_type@),
            r is Err ==> r == Err::<(), Error>(Error::AlreadyRegistered) && final(self).entries()
                == old(self).entries(),
            r is Ok ==> final(self).entries() == old(self).entries().push((client_type@, client)),
    {
        if self.get(&client_type).is_some() {
            return Err(Error::AlreadyRegistered);
        }
        let ghost before = self.entries();
        self.entries.push((client_type, client));
        assert(self.entries() =~= before.push((client_type@, client)));
        Ok(())
    }
}

/// Registers the Tendermint light client under its client type.
pub fn register_implementations(registry: &mut LightClientRegistry)
    requires
        !old(registry).contains(TENDERMINT_CLIENT_TYPE@),
    ensures
        final(registry).entries() == old(registry).entries().push(
            (TENDERMINT_CLIENT_TYPE@, LightClientKind::Tendermint(TendermintLightClient)),
        ),
{
    match registry.put(
        TENDERMINT_CLIENT_TYPE.to_owned(),
        LightClientKind::Tendermint(TendermintLightClient),
    ) {
        Ok(()) => {},
        Err(_) => {},
    }
}

} // verus!
