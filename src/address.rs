use vstd::prelude::*;

verus! {

/// A logical endpoint address of the message-passing substrate.
#[derive(Clone, Copy, Debug, PartialEq, Eq, Structural)]
pub struct Address {
    pub value: u64,
}

/// Which side of the handshake a channel instance plays.
#[derive(Clone, Copy, Debug, PartialEq, Eq, Structural)]
pub enum Role {
    Initiator,
    Responder,
}

/// The endpoints of one channel instance, allocated together and never reused.
#[derive(Clone, Copy, Debug, PartialEq, Eq, Structural)]
pub struct Addresses {
    pub role: Role,
    pub encryptor: Address,
    pub decryptor: Address,
    pub handshake: Address,
    pub encryptor_api: Address,
}

impl Addresses {
    /// The four endpoint values of this instance.
    pub open spec fn values(self) -> Set<u64> {
        set![self.encryptor.value, self.decryptor.value, self.handshake.value, self.encryptor_api.value]
    }

    /// The four endpoints are pairwise different.
    pub open spec fn distinct(self) -> bool {
        &&& self.encryptor.value != self.decryptor.value
        &&& self.encryptor.value != self.handshake.value
        &&& self.encryptor.value != self.encryptor_api.value
        &&& self.decryptor.value != self.handshake.value
        &&& self.decryptor.value != self.encryptor_api.value
        &&& self.handshake.value != self.encryptor_api.value
    }

    /// Every endpoint value lies in `[lo, hi)`.
    pub open spec fn within(self, lo: nat, hi: nat) -> bool {
        forall|v: u64| #[trigger] self.values().contains(v) ==> lo <= v && v < hi
    }
}

/// Hands out addresses from a monotonically increasing counter, so that no
/// value is ever handed out twice by one allocator.
pub struct AddressAllocator {
    next: u64,
}

impl AddressAllocator {
    /// The first value that has not been handed out yet.
    pub closed spec fn next_free(&self) -> nat {
        self.next as nat
    }

    pub fn new() -> (r: AddressAllocator)
        ensures
            r.next_free() == 0,
    {
        AddressAllocator { next: 0 }
    }

    /// Whether four more values can be handed out.
    pub fn has_capacity(&self) -> (r: bool)
        ensures
            r == (self.next_free() + 4 <= u64::MAX),
    {
        self.next <= u64::MAX - 4
    }

    /// Allocates the four endpoints of a new channel instance for `role`.
    pub fn generate(&mut self, role: Role) -> (a: Addresses)
        requires
            old(self).next_free() + 4 <= u64::MAX,
        ensures
            a.role == role,
            a.distinct(),
            a.within(old(self).next_free(), final(self).next_free()),
            final(self).next_free() == old(self).next_free() + 4,
    {
        let base = self.next;
        self.next = base + 4;
        Addresses {
            role,
            encryptor: Address { value: base },
            decryptor: Address { value: base + 1 },
            handshake: Address { value: base + 2 },
            encryptor_api: Address { value: base + 3 },
        }
    }
}

/// Two instances whose endpoints lie in disjoint ranges share no endpoint:
/// instances allocated one after another by one allocator never collide.
pub proof fn lemma_allocations_disjoint(a: Addresses, b: Addresses, lo: nat, mid: nat, hi: nat)
    requires
        a.within(lo, mid),
        b.within(mid, hi),
    ensures
        a.values().disjoint(b.values()),
{
    assert forall|v: u64| a.values().contains(v) implies !b.values().contains(v) by {
        if b.values().contains(v) {
            assert(v < mid);
            assert(mid <= v);
        }
    }
}

} // verus!
