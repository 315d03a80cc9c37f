//! A key-value store whose writes are staged until they are committed or
//! rolled back.
use crate::attestation::slice_eq;
use crate::error::Error;
use vstd::prelude::*;

verus! {

/// The value a log of writes leaves at a key: the last one written.
pub open spec fn lookup(log: Seq<(Vec<u8>, Vec<u8>)>, key: Seq<u8>) -> Option<Seq<u8>>
    decreases log.len(),
{
    if log.len() == 0 {
        None
    } else if log.last().0@ == key {
        Some(log.last().1@)
    } else {
        lookup(log.drop_last(), key)
    }
}

/// The store: a log of writes whose first `committed` entries are durable and
/// the rest staged, a commit sequence number, and the enclave key it belongs
/// to once one has opened it.
pub struct TxStore {
    log: Vec<(Vec<u8>, Vec<u8>)>,
    committed: usize,
    seq: u64,
    owner: Option<Vec<u8>>,
}

impl TxStore {
    pub closed spec fn well_formed(&self) -> bool {
        self.committed <= self.log@.len()
    }

    /// All writes, committed and staged, in order.
    pub closed spec fn writes(&self) -> Seq<(Vec<u8>, Vec<u8>)> {
        self.log@
    }

    /// The committed writes, in order.
    pub closed spec fn committed_writes(&self) -> Seq<(Vec<u8>, Vec<u8>)> {
        self.log@.subrange(0, self.committed as int)
    }

    /// The number of commits so far.
    pub closed spec fn sequence(&self) -> u64 {
        self.seq
    }

    /// The public key of the enclave the store belongs to, once bound.
    pub closed spec fn owner_key(&self) -> Option<Seq<u8>> {
        match self.owner {
            Some(k) => Some(k@),
            None => None,
        }
    }

    pub fn new() -> (r: TxStore)
        ensures
            r.well_formed(),
            r.writes() == Seq::<(Vec<u8>, Vec<u8>)>::empty(),
            r.committed_writes() == Seq::<(Vec<u8>, Vec<u8>)>::empty(),
            r.sequence() == 0,
            r.owner_key() is None,
    {
        let r = TxStore { log: Vec::new(), committed: 0, seq: 0, owner: None };
        assert(r.log@.subrange(0, 0) =~= Seq::<(Vec<u8>, Vec<u8>)>::empty());
        r
    }

    /// Opens the committed state for a command: staged writes are dropped.
    /// The first key that opens the store binds it; another key is refused.
    pub fn load_state(&mut self, pubkey: Option<&[u8]>) -> (r: Result<(), Error>)
        requires
            old(self).well_formed(),
        ensures
            final(self).well_formed(),
            final(self).committed_writes() == old(self).committed_writes(),
            final(self).sequence() == old(self).sequence(),
            r is Err <==> (pubkey matches Some(p) && old(self).owner_key() matches Some(o) && o
                != p@),
            r is Err ==> r == Err::<(), Error>(Error::StoreError) && *final(self) == *old(self),
            r is Ok ==> final(self).writes() == old(self).committed_writes(),
            r is Ok ==> final(self).owner_key() == match old(self).owner_key() {
                Some(o) => Some(o),
                None => match pubkey {
                    Some(p) => Some(p@),
                    None => None,
                },
            },
    {
        match (&self.owner, pubkey) {
            (Some(o), Some(p)) => {
                if !slice_eq(o.as_slice(), p) {
                    return Err(Error::StoreError);
                }
            },
            (None, Some(p)) => {
                self.owner = Some(vstd::slice::slice_to_vec(p));
            },
            _ => {},
        }
        self.rollback();
        Ok(())
    }

    /// The value at a key, staged writes first.
    pub fn get(&self, key: &[u8]) -> (r: Option<Vec<u8>>)
        requires
            self.well_formed(),
        ensures
            match r {
                Some(v) => lookup(self.writes(), key@) == Some(v@),
                None => lookup(self.writes(), key@) is None,
            },
    {
        let mut i: usize = self.log.len();
        assert(self.log@.subrange(0, i as int) =~= self.log@);
        while i > 0
            invariant
                0 <= i <= self.log@.len(),
                lookup(self.log@, key@) == lookup(self.log@.subrange(0, i as int), key@),
            decreases i,
        {
            let ghost s = self.log@.subrange(0, i as int);
            assert(s.drop_last() =~= self.log@.subrange(0, i - 1));
            if slice_eq(self.log[i - 1].0.as_slice(), key) {
                return Some(self.log[i - 1].1.clone());
            }
            i = i - 1;
        }
        assert(self.log@.subrange(0, 0) =~= Seq::<(Vec<u8>, Vec<u8>)>::empty());
        None
    }

    /// Stages a write.
    pub fn set(&mut self, key: Vec<u8>, value: Vec<u8>)
        requires
            old(self).well_formed(),
        ensures
            final(self).well_formed(),
            final(self).writes() == old(self).writes().push((key, value)),
            final(self).committed_writes() == old(self).committed_writes(),
            final(self).sequence() == old(self).sequence(),
            final(self).owner_key() == old(self).owner_key(),
    {
        self.log.push((key, value));
        assert(self.log@.subrange(0, self.committed as int) =~= old(self).log@.subrange(
            0,
            self.committed as int,
        ));
    }

    /// Makes the staged writes durable and returns the new sequence number,
    /// one more than the last; fails when the sequence is exhausted.
    pub fn commit(&mut self) -> (r: Result<u64, Error>)
        requires
            old(self).well_formed(),
        ensures
            final(self).well_formed(),
            final(self).writes() == old(self).writes(),
            final(self).owner_key() == old(self).owner_key(),
            r is Err <==> old(self).sequence() == u64::MAX,
            r matches Ok(s) ==> s == old(self).sequence() + 1 && final(self).sequence() == s
                && final(self).committed_writes() == old(self).writes(),
            r is Err ==> r == Err::<u64, Error>(Error::StoreError) && *final(self) == *old(self),
    {
        if self.seq == u64::MAX {
            return Err(Error::StoreError);
        }
        self.seq = self.seq + 1;
        self.committed = self.log.len();
        assert(self.log@.subrange(0, self.committed as int) =~= self.log@);
        Ok(self.seq)
    }

    /// Drops the staged writes.
    pub fn rollback(&mut self)
        requires
            old(self).well_formed(),
        ensures
            final(self).well_formed(),
            final(self).writes() == old(self).committed_writes(),
            final(self).committed_writes() == old(self).committed_writes(),
            final(self).sequence() == old(self).sequence(),
            final(self).owner_key() == old(self).owner_key(),
    {
        self.log.truncate(self.committed);
        assert(self.log@ =~= old(self).log@.subrange(0, self.committed as int));
        assert(self.log@.subrange(0, self.committed as int) =~= self.log@);
    }
}

} // verus!
