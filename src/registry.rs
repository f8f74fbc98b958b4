use vstd::prelude::*;
use crate::address::{Address, Role};
use crate::error::ChannelError;
use crate::trust::Identifier;

verus! {

/// What the registry knows of one established channel.
#[derive(Clone, Copy, Debug, PartialEq, Eq, Structural)]
pub struct RegistryEntry {
    pub encryptor: Address,
    pub decryptor: Address,
    pub peer: Identifier,
    pub flow_control_id: u64,
    pub role: Role,
}

/// The directory of established channels, keyed by encryptor address.
pub struct SecureChannelRegistry {
    entries: Vec<RegistryEntry>,
    map: Ghost<Map<Address, RegistryEntry>>,
}

impl View for SecureChannelRegistry {
    type V = Map<Address, RegistryEntry>;

    closed spec fn view(&self) -> Map<Address, RegistryEntry> {
        self.map@
    }
}

impl SecureChannelRegistry {
    /// The entries are stored once each, keyed by their encryptor address,
    /// and agree with the map that the registry stands for.
    pub closed spec fn wf(&self) -> bool {
        &&& forall|i: int, j: int| 0 <= i < j < self.entries@.len()
            ==> #[trigger] self.entries@[i].encryptor != #[trigger] self.entries@[j].encryptor
        &&& forall|i: int| 0 <= i < self.entries@.len()
            ==> self.map@.contains_key(#[trigger] self.entries@[i].encryptor)
            && self.map@[self.entries@[i].encryptor] == self.entries@[i]
        &&& forall|a: Address| #[trigger] self.map@.contains_key(a)
            ==> exists|i: int| 0 <= i < self.entries@.len() && self.entries@[i].encryptor == a
    }

    pub fn new() -> (r: SecureChannelRegistry)
        ensures
            r.wf(),
            r@ == Map::<Address, RegistryEntry>::empty(),
    {
        SecureChannelRegistry { entries: Vec::new(), map: Ghost(Map::empty()) }
    }

    /// The position of the entry stored under `address`, if any.
    fn position(&self, address: Address) -> (r: Option<usize>)
        requires
            self.wf(),
        ensures
            match r {
                Some(i) => i < self.entries@.len() && self.entries@[i as int].encryptor == address,
                None => !self@.contains_key(address),
            },
    {
        let mut i: usize = 0;
        while i < self.entries.len()
            invariant
                i <= self.entries@.len(),
                forall|j: int| 0 <= j < i ==> self.entries@[j].encryptor != address,
            decreases self.entries.len() - i,
        {
            if self.entries[i].encryptor == address {
                return Some(i);
            }
            i = i + 1;
        }
        None
    }

    /// The entry of the channel whose encryptor is at `address`.
    pub fn lookup(&self, address: Address) -> (r: Option<RegistryEntry>)
        requires
            self.wf(),
        ensures
            r == (if self@.contains_key(address) {
                Some(self@[address])
            } else {
                None
            }),
    {
        match self.position(address) {
            Some(i) => Some(self.entries[i]),
            None => None,
        }
    }

    /// Records an established channel, replacing any entry under the same
    /// encryptor address.
    pub fn insert(&mut self, entry: RegistryEntry)
        requires
            old(self).wf(),
        ensures
            final(self).wf(),
            final(self)@ == old(self)@.insert(entry.encryptor, entry),
    {
        let ghost m = self.map@.insert(entry.encryptor, entry);
        match self.position(entry.encryptor) {
            Some(i) => {
                self.entries.set(i, entry);
                self.map = Ghost(m);
                assert forall|a: Address| #[trigger] self.map@.contains_key(a)
                    implies exists|k: int| 0 <= k < self.entries@.len() && self.entries@[k].encryptor == a by {
                    if a == entry.encryptor {
                        assert(self.entries@[i as int].encryptor == a);
                    } else {
                        assert(old(self).map@.contains_key(a));
                        let k = choose|k: int| 0 <= k < old(self).entries@.len() && old(self).entries@[k].encryptor == a;
                        assert(self.entries@[k].encryptor == a);
                    }
                }
            },
            None => {
                self.entries.push(entry);
                self.map = Ghost(m);
                assert forall|a: Address| #[trigger] self.map@.contains_key(a)
                    implies exists|k: int| 0 <= k < self.entries@.len() && self.entries@[k].encryptor == a by {
                    if a == entry.encryptor {
                        assert(self.entries@[self.entries@.len() - 1].encryptor == a);
                    } else {
                        assert(old(self).map@.contains_key(a));
                        let k = choose|k: int| 0 <= k < old(self).entries@.len() && old(self).entries@[k].encryptor == a;
                        assert(self.entries@[k].encryptor == a);
                    }
                }
            },
        }
    }

    /// Removes the channel whose encryptor is at `address`, handing back its
    /// entry; `ChannelNotFound` where none is registered there.
    pub fn remove(&mut self, address: Address) -> (r: Result<RegistryEntry, ChannelError>)
        requires
            old(self).wf(),
        ensures
            final(self).wf(),
            final(self)@ == old(self)@.remove(address),
            old(self)@.contains_key(address) ==> r == Ok::<RegistryEntry, ChannelError>(old(self)@[address]),
            !old(self)@.contains_key(address) ==> r == Err::<RegistryEntry, ChannelError>(ChannelError::ChannelNotFound),
    {
        match self.position(address) {
            None => {
                assert(self.map@.remove(address) =~= self.map@);
                Err(ChannelError::ChannelNotFound)
            },
            Some(i) => {
                let ghost old_entries = self.entries@;
                let e = self.entries.remove(i);
                self.map = Ghost(self.map@.remove(address));
                assert forall|j: int| 0 <= j < self.entries@.len()
                    implies self.map@.contains_key(#[trigger] self.entries@[j].encryptor)
                    && self.map@[self.entries@[j].encryptor] == self.entries@[j] by {
                    if j < i {
                        assert(self.entries@[j] == old_entries[j]);
                    } else {
                        assert(self.entries@[j] == old_entries[j + 1]);
                    }
                }
                assert forall|a: Address| #[trigger] self.map@.contains_key(a)
                    implies exists|k: int| 0 <= k < self.entries@.len() && self.entries@[k].encryptor == a by {
                    assert(old(self).map@.contains_key(a));
                    let k = choose|k: int| 0 <= k < old_entries.len() && old_entries[k].encryptor == a;
                    assert(k != i);
                    if k < i {
                        assert(self.entries@[k].encryptor == a);
                    } else {
                        assert(self.entries@[k - 1].encryptor == a);
                    }
                }
                Ok(e)
            },
        }
    }

    /// Every registered entry, each once.
    pub fn list(&self) -> (r: Vec<RegistryEntry>)
        requires
            self.wf(),
        ensures
            forall|i: int| 0 <= i < r@.len() ==> self@.contains_key(#[trigger] r@[i].encryptor)
                && self@[r@[i].encryptor] == r@[i],
            forall|i: int, j: int| 0 <= i < j < r@.len() ==> #[trigger] r@[i].encryptor != #[trigger] r@[j].encryptor,
            forall|a: Address| self@.contains_key(a) ==> exists|i: int| 0 <= i < r@.len() && #[trigger] r@[i].encryptor == a,
    {
        let mut r: Vec<RegistryEntry> = Vec::new();
        let mut i: usize = 0;
        while i < self.entries.len()
            invariant
                i <= self.entries@.len(),
                r@ == self.entries@.subrange(0, i as int),
            decreases self.entries.len() - i,
        {
            r.push(self.entries[i]);
            i = i + 1;
        }
        assert(r@ =~= self.entries@);
        r
    }
}

} // verus!
