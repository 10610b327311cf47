//! The key-store collaborator: per-DID storage of update, recovery,
//! next-update and signing keys, keyed by role.  This is the in-memory
//! model of the store interface; persistence lives outside the library and
//! hands values in and out as plain strings.

use vstd::prelude::*;

use crate::document::str_eq;
use crate::errors::KeyManagerError;

verus! {

/// The role a key plays for a DID.  The role determines which on-ledger
/// commitment the key is checked against and which store slot it occupies.
#[derive(Clone, Copy, Debug, PartialEq, Eq, Structural)]
pub enum KeyType {
    UpdateKey,
    RecoveryKey,
    NextUpdateKey,
    SigningKey,
}

/// One store event: a key saved to, or removed from, a (DID, role) slot.
/// Later entries shadow earlier ones.
#[derive(Debug)]
pub struct KeyEntry {
    pub did: String,
    pub key_type: KeyType,
    /// `Some` for a save, `None` for a removal.
    pub key: Option<String>,
}

/// The key store: a journal of save and remove events, read back through
/// `lookup`, which takes the latest event for each slot.
#[derive(Debug)]
pub struct KeyStore {
    pub entries: Vec<KeyEntry>,
}

/// The key currently held in the (did, key_type) slot: the latest entry
/// for the slot decides, and a removal entry leaves the slot empty.
pub open spec fn lookup(entries: Seq<KeyEntry>, did: Seq<char>, key_type: KeyType) -> Option<
    Seq<char>,
>
    decreases entries.len(),
{
    if entries.len() == 0 {
        None
    } else if entries.last().did@ == did && entries.last().key_type == key_type {
        match entries.last().key {
            Some(k) => Some(k@),
            None => None,
        }
    } else {
        lookup(entries.drop_last(), did, key_type)
    }
}

impl KeyStore {
    /// An empty store: every slot reads back as absent.
    pub fn new() -> (s: KeyStore)
        ensures
            s.entries@.len() == 0,
            forall|d: Seq<char>, kt: KeyType| lookup(s.entries@, d, kt) is None,
    {
        KeyStore { entries: Vec::new() }
    }

    /// Save `key` in the (did, key_type) slot, leaving every other slot as
    /// it was.  The in-memory store never fails to write.
    pub fn save_key(&mut self, did: &str, key_type: KeyType, key: &str) -> (r: Result<
        (),
        KeyManagerError,
    >)
        ensures
            r is Ok,
            lookup(final(self).entries@, did@, key_type) == Some(key@),
            forall|d: Seq<char>, kt: KeyType|
                d != did@ || kt != key_type ==> lookup(final(self).entries@, d, kt) == lookup(
                    old(self).entries@,
                    d,
                    kt,
                ),
    {
        let ghost previous = self.entries@;
        self.entries.push(
            KeyEntry { did: did.to_owned(), key_type, key: Some(key.to_owned()) },
        );
        proof {
            assert(self.entries@.drop_last() =~= previous);
        }
        Ok(())
    }

    /// Empty the (did, key_type) slot, leaving every other slot as it was.
    pub fn remove_key(&mut self, did: &str, key_type: KeyType)
        ensures
            lookup(final(self).entries@, did@, key_type) is None,
            forall|d: Seq<char>, kt: KeyType|
                d != did@ || kt != key_type ==> lookup(final(self).entries@, d, kt) == lookup(
                    old(self).entries@,
                    d,
                    kt,
                ),
    {
        let ghost previous = self.entries@;
        self.entries.push(KeyEntry { did: did.to_owned(), key_type, key: None });
        proof {
            assert(self.entries@.drop_last() =~= previous);
        }
    }

    /// Read the key in the (did, key_type) slot, or `NotFound` when the
    /// slot is empty.
    pub fn read_key(&self, did: &str, key_type: KeyType) -> (r: Result<String, KeyManagerError>)
        ensures
            r is Ok <==> lookup(self.entries@, did@, key_type) is Some,
            r matches Ok(k) ==> lookup(self.entries@, did@, key_type) == Some(k@),
            r matches Err(e) ==> e == KeyManagerError::NotFound,
    {
        let mut i: usize = self.entries.len();
        proof {
            assert(self.entries@.take(i as int) =~= self.entries@);
        }
        while i > 0
            invariant
                i <= self.entries@.len(),
                lookup(self.entries@, did@, key_type) == lookup(
                    self.entries@.take(i as int),
                    did@,
                    key_type,
                ),
            decreases i,
        {
            i -= 1;
            let entry = &self.entries[i];
            proof {
                assert(self.entries@.take(i as int + 1).last() == self.entries@[i as int]);
                assert(self.entries@.take(i as int + 1).drop_last() =~= self.entries@.take(
                    i as int,
                ));
            }
            if str_eq(entry.did.as_str(), did) && entry.key_type == key_type {
                match &entry.key {
                    Some(k) => {
                        return Ok(k.clone());
                    },
                    None => {
                        return Err(KeyManagerError::NotFound);
                    },
                }
            }
        }
        Err(KeyManagerError::NotFound)
    }
}

} // verus!
