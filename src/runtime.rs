use vstd::prelude::*;
use crate::address::Role;
use crate::error::ChannelError;

verus! {

/// How many counters below the highest accepted one the decryptor still
/// accepts, to tolerate reordering by the transport.
pub const WINDOW: u64 = 32;

/// The direction of traffic that a key and its counters belong to.
#[derive(Clone, Copy, Debug, PartialEq, Eq, Structural)]
pub enum Direction {
    InitiatorToResponder,
    ResponderToInitiator,
}

/// The direction that the encryptor of `role` sends in.
pub open spec fn encrypt_direction(role: Role) -> Direction {
    match role {
        Role::Initiator => Direction::InitiatorToResponder,
        Role::Responder => Direction::ResponderToInitiator,
    }
}

/// The direction that the decryptor of `role` receives from.
pub open spec fn decrypt_direction(role: Role) -> Direction {
    match role {
        Role::Initiator => Direction::ResponderToInitiator,
        Role::Responder => Direction::InitiatorToResponder,
    }
}

/// Each side's encryptor feeds the other side's decryptor, and the two sides
/// never encrypt under the same direction.
pub proof fn lemma_directions_separate()
    ensures
        encrypt_direction(Role::Initiator) == decrypt_direction(Role::Responder),
        encrypt_direction(Role::Responder) == decrypt_direction(Role::Initiator),
        encrypt_direction(Role::Initiator) != encrypt_direction(Role::Responder),
{
}

/// The sending half of a channel: hands out a fresh sequence counter for each
/// payload, which becomes part of its nonce.
pub struct Encryptor {
    direction: Direction,
    next: u64,
}

impl Encryptor {
    /// The direction this encryptor sends in.
    pub closed spec fn direction(&self) -> Direction {
        self.direction
    }

    /// The counter that the next payload gets.
    pub closed spec fn next_counter(&self) -> nat {
        self.next as nat
    }

    pub fn new(role: Role) -> (r: Encryptor)
        ensures
            r.direction() == encrypt_direction(role),
            r.next_counter() == 0,
    {
        let direction = match role {
            Role::Initiator => Direction::InitiatorToResponder,
            Role::Responder => Direction::ResponderToInitiator,
        };
        Encryptor { direction, next: 0 }
    }

    /// The direction this encryptor sends in.
    pub fn sends_in(&self) -> (r: Direction)
        ensures
            r == self.direction(),
    {
        self.direction
    }

    /// Takes the counter for the next payload. The largest `u64` is never
    /// handed out: once it is reached the key is used up.
    pub fn take_counter(&mut self) -> (r: Result<u64, ChannelError>)
        ensures
            final(self).direction() == old(self).direction(),
            old(self).next_counter() < u64::MAX ==> r == Ok::<u64, ChannelError>(old(self).next_counter() as u64)
                && final(self).next_counter() == old(self).next_counter() + 1,
            old(self).next_counter() == u64::MAX ==> r == Err::<u64, ChannelError>(ChannelError::CounterExhausted)
                && final(self).next_counter() == old(self).next_counter(),
    {
        if self.next == u64::MAX {
            Err(ChannelError::CounterExhausted)
        } else {
            let c = self.next;
            self.next = c + 1;
            Ok(c)
        }
    }
}

/// Whether a decryptor that expects `next` and has accepted the counters
/// `seen` inside its window takes counter `c`: a counter above all accepted
/// ones, or one inside the window that was not accepted yet.
pub open spec fn acceptable(next: nat, seen: Set<u64>, c: u64) -> bool {
    &&& c < u64::MAX
    &&& (c >= next || (c + WINDOW >= next && !seen.contains(c)))
}

/// The expected counter after accepting `c`.
pub open spec fn next_after(next: nat, c: u64) -> nat {
    if c + 1 > next {
        (c + 1) as nat
    } else {
        next
    }
}

/// The accepted counters still inside the window after accepting `c`.
pub open spec fn seen_after(next: nat, seen: Set<u64>, c: u64) -> Set<u64> {
    Set::new(|x: u64| (seen.contains(x) || x == c) && x + WINDOW >= next_after(next, c))
}

/// The receiving half of a channel: rejects counters it has consumed or that
/// fall below its window, and stops taking anything once torn down.
pub struct Decryptor {
    direction: Direction,
    next: u64,
    recent: Vec<u64>,
    open: bool,
}

impl Decryptor {
    /// The direction this decryptor receives from.
    pub closed spec fn direction(&self) -> Direction {
        self.direction
    }

    /// One more than the highest counter accepted so far (0 before any).
    pub closed spec fn next_expected(&self) -> nat {
        self.next as nat
    }

    /// The accepted counters that still lie inside the window.
    pub closed spec fn seen(&self) -> Set<u64> {
        Set::new(|x: u64| self.recent@.contains(x))
    }

    /// The channel has not been torn down.
    pub closed spec fn is_open(&self) -> bool {
        self.open
    }

    /// The window holds only accepted counters below the expected one and at
    /// most `WINDOW` below it.
    pub closed spec fn wf(&self) -> bool {
        forall|i: int| 0 <= i < self.recent@.len() ==> #[trigger] self.recent@[i] < self.next
            && self.recent@[i] + WINDOW >= self.next
    }

    pub fn new(role: Role) -> (r: Decryptor)
        ensures
            r.wf(),
            r.direction() == decrypt_direction(role),
            r.next_expected() == 0,
            r.seen() == Set::<u64>::empty(),
            r.is_open(),
    {
        let direction = match role {
            Role::Initiator => Direction::ResponderToInitiator,
            Role::Responder => Direction::InitiatorToResponder,
        };
        let r = Decryptor { direction, next: 0, recent: Vec::new(), open: true };
        assert(r.seen() =~= Set::<u64>::empty());
        r
    }

    /// The direction this decryptor receives from.
    pub fn receives_from(&self) -> (r: Direction)
        ensures
            r == self.direction(),
    {
        self.direction
    }

    /// Takes in a ciphertext's sequence counter, given whether the ciphertext
    /// authenticated under the session key. Any rejection drops that message
    /// alone and leaves the decryptor as it was.
    pub fn receive(&mut self, counter: u64, authenticated: bool) -> (r: Result<(), ChannelError>)
        requires
            old(self).wf(),
        ensures
            final(self).wf(),
            final(self).direction() == old(self).direction(),
            final(self).is_open() == old(self).is_open(),
            !old(self).is_open() ==> r == Err::<(), ChannelError>(ChannelError::ChannelNotFound),
            old(self).is_open() && !acceptable(old(self).next_expected(), old(self).seen(), counter)
                ==> r == Err::<(), ChannelError>(ChannelError::ReplayOrOutOfOrder),
            old(self).is_open() && acceptable(old(self).next_expected(), old(self).seen(), counter) && !authenticated
                ==> r == Err::<(), ChannelError>(ChannelError::DecryptionFailed),
            r is Err ==> final(self).next_expected() == old(self).next_expected() && final(self).seen() == old(self).seen(),
            r is Ok <==> old(self).is_open() && acceptable(old(self).next_expected(), old(self).seen(), counter) && authenticated,
            r is Ok ==> final(self).next_expected() == next_after(old(self).next_expected(), counter)
                && final(self).seen() == seen_after(old(self).next_expected(), old(self).seen(), counter),
    {
        if !self.open {
            return Err(ChannelError::ChannelNotFound);
        }
        if counter == u64::MAX {
            return Err(ChannelError::ReplayOrOutOfOrder);
        }
        if counter < self.next {
            let in_window = self.next < WINDOW || counter >= self.next - WINDOW;
            let mut seen_before = false;
            let mut i: usize = 0;
            while i < self.recent.len()
                invariant
                    i <= self.recent.len(),
                    seen_before <==> exists|j: int| 0 <= j < i && self.recent@[j] == counter,
                decreases self.recent.len() - i,
            {
                if self.recent[i] == counter {
                    seen_before = true;
                }
                i = i + 1;
            }
            if !in_window || seen_before {
                return Err(ChannelError::ReplayOrOutOfOrder);
            }
        }
        if !authenticated {
            return Err(ChannelError::DecryptionFailed);
        }
        let ghost old_seen = self.seen();
        let ghost old_next = self.next as nat;
        let new_next = if counter >= self.next { counter + 1 } else { self.next };
        let mut kept: Vec<u64> = Vec::new();
        let mut i: usize = 0;
        while i < self.recent.len()
            invariant
                i <= self.recent.len(),
                new_next as nat == next_after(old_next, counter),
                forall|x: u64| kept@.contains(x) <==> (exists|j: int| 0 <= j < i && self.recent@[j] == x)
                    && x + WINDOW >= new_next,
            decreases self.recent.len() - i,
        {
            let x = self.recent[i];
            if new_next < WINDOW || x >= new_next - WINDOW {
                let ghost before = kept@;
                kept.push(x);
                assert forall|y: u64| kept@.contains(y) <==> (exists|j: int| 0 <= j < i + 1 && self.recent@[j] == y)
                    && y + WINDOW >= new_next by {
                    if kept@.contains(y) {
                        if y != x {
                            let k = choose|k: int| 0 <= k < kept@.len() && kept@[k] == y;
                            assert(before[k] == y);
                            assert(before.contains(y));
                        }
                    }
                    if (exists|j: int| 0 <= j < i + 1 && self.recent@[j] == y) && y + WINDOW >= new_next {
                        if y != x {
                            let j = choose|j: int| 0 <= j < i + 1 && self.recent@[j] == y;
                            assert(j < i);
                            assert(before.contains(y));
                            let k = choose|k: int| 0 <= k < before.len() && before[k] == y;
                            assert(kept@[k] == y);
                        } else {
                            assert(kept@[kept@.len() - 1] == y);
                        }
                    }
                }
            } else {
                assert forall|y: u64| kept@.contains(y) <==> (exists|j: int| 0 <= j < i + 1 && self.recent@[j] == y)
                    && y + WINDOW >= new_next by {
                    if (exists|j: int| 0 <= j < i + 1 && self.recent@[j] == y) && y + WINDOW >= new_next {
                        let j = choose|j: int| 0 <= j < i + 1 && self.recent@[j] == y;
                        assert(j < i);
                    }
                }
            }
            i = i + 1;
        }
        let ghost before = kept@;
        kept.push(counter);
        assert(kept@[kept@.len() - 1] == counter);
        assert(new_next as nat == next_after(old_next, counter));
        assert forall|y: u64| kept@.contains(y) == seen_after(old_next, old_seen, counter).contains(y) by {
            assert(seen_after(old_next, old_seen, counter).contains(y)
                == ((old_seen.contains(y) || y == counter) && y + WINDOW >= new_next));
            if kept@.contains(y) && y != counter {
                let k = choose|k: int| 0 <= k < kept@.len() && kept@[k] == y;
                assert(before[k] == y);
                assert(before.contains(y));
                let j = choose|j: int| 0 <= j < self.recent@.len() && self.recent@[j] == y;
                assert(self.recent@.contains(y));
            }
            if (old_seen.contains(y) || y == counter) && y + WINDOW >= new_next {
                if y != counter {
                    assert(self.recent@.contains(y));
                    let j = choose|j: int| 0 <= j < self.recent@.len() && self.recent@[j] == y;
                    assert(before.contains(y));
                    let k = choose|k: int| 0 <= k < before.len() && before[k] == y;
                    assert(kept@[k] == y);
                }
            }
        }
        self.next = new_next;
        self.recent = kept;
        assert(self.seen() =~= seen_after(old_next, old_seen, counter));
        assert forall|i: int| 0 <= i < self.recent@.len() implies #[trigger] self.recent@[i] < self.next
            && self.recent@[i] + WINDOW >= self.next by {
            let y = self.recent@[i];
            assert(self.recent@.contains(y));
            if y != counter {
                assert(old_seen.contains(y));
                let j = choose|j: int| 0 <= j < old(self).recent@.len() && old(self).recent@[j] == y;
            }
        }
        Ok(())
    }

    /// Tears the decryptor down: every later message is refused.
    pub fn close(&mut self)
        requires
            old(self).wf(),
        ensures
            final(self).wf(),
            !final(self).is_open(),
            final(self).direction() == old(self).direction(),
            final(self).next_expected() == old(self).next_expected(),
            final(self).seen() == old(self).seen(),
    {
        self.open = false;
    }
}

/// A counter that the decryptor has accepted is refused if it comes again:
/// replaying a delivered ciphertext yields `ReplayOrOutOfOrder`.
pub proof fn lemma_replay_rejected(next: nat, seen: Set<u64>, c: u64)
    requires
        acceptable(next, seen, c),
    ensures
        !acceptable(next_after(next, c), seen_after(next, seen, c), c),
{
    assert(seen_after(next, seen, c).contains(c));
}

/// Counters issued in increasing order are all accepted: whatever the
/// decryptor has accepted so far, a counter at or above the expected one
/// passes, so each payload of an encryptor reaches the peer's decryptor.
pub proof fn lemma_in_order_accepted(next: nat, seen: Set<u64>, c: u64)
    requires
        next <= c,
        c < u64::MAX,
    ensures
        acceptable(next, seen, c),
        next_after(next, c) == c + 1,
{
}

/// The eight big-endian bytes of a sequence counter.
pub open spec fn counter_bytes(c: u64) -> Seq<u8> {
    seq![
        ((c >> 56u64) & 0xffu64) as u8,
        ((c >> 48u64) & 0xffu64) as u8,
        ((c >> 40u64) & 0xffu64) as u8,
        ((c >> 32u64) & 0xffu64) as u8,
        ((c >> 24u64) & 0xffu64) as u8,
        ((c >> 16u64) & 0xffu64) as u8,
        ((c >> 8u64) & 0xffu64) as u8,
        (c & 0xffu64) as u8,
    ]
}

/// The counter that eight big-endian bytes stand for.
pub open spec fn counter_of(b: Seq<u8>) -> u64 {
    ((b[0] as u64) << 56u64) | ((b[1] as u64) << 48u64) | ((b[2] as u64) << 40u64) | ((b[3] as u64) << 32u64)
        | ((b[4] as u64) << 24u64) | ((b[5] as u64) << 16u64) | ((b[6] as u64) << 8u64) | (b[7] as u64)
}

/// Reading back the bytes of a counter gives the counter.
pub proof fn lemma_counter_bytes_round_trip(c: u64)
    ensures
        counter_of(counter_bytes(c)) == c,
{
    let b = counter_bytes(c);
    let b0 = ((c >> 56u64) & 0xffu64) as u8;
    let b1 = ((c >> 48u64) & 0xffu64) as u8;
    let b2 = ((c >> 40u64) & 0xffu64) as u8;
    let b3 = ((c >> 32u64) & 0xffu64) as u8;
    let b4 = ((c >> 24u64) & 0xffu64) as u8;
    let b5 = ((c >> 16u64) & 0xffu64) as u8;
    let b6 = ((c >> 8u64) & 0xffu64) as u8;
    let b7 = (c & 0xffu64) as u8;
    assert(b[0] == b0 && b[1] == b1 && b[2] == b2 && b[3] == b3 && b[4] == b4 && b[5] == b5 && b[6] == b6 && b[7] == b7);
    assert(((b0 as u64) << 56u64) | ((b1 as u64) << 48u64) | ((b2 as u64) << 40u64) | ((b3 as u64) << 32u64)
        | ((b4 as u64) << 24u64) | ((b5 as u64) << 16u64) | ((b6 as u64) << 8u64) | (b7 as u64) == c) by (bit_vector)
        requires
            b0 == ((c >> 56u64) & 0xffu64) as u8,
            b1 == ((c >> 48u64) & 0xffu64) as u8,
            b2 == ((c >> 40u64) & 0xffu64) as u8,
            b3 == ((c >> 32u64) & 0xffu64) as u8,
            b4 == ((c >> 24u64) & 0xffu64) as u8,
            b5 == ((c >> 16u64) & 0xffu64) as u8,
            b6 == ((c >> 8u64) & 0xffu64) as u8,
            b7 == (c & 0xffu64) as u8,
    ;
}

/// Tags a sealed payload with its sequence counter: the counter's eight
/// big-endian bytes, then the sealed bytes.
pub fn encode_frame(counter: u64, sealed: &Vec<u8>) -> (r: Vec<u8>)
    ensures
        r@ == counter_bytes(counter) + sealed@,
{
    let mut r: Vec<u8> = Vec::new();
    r.push(((counter >> 56u64) & 0xffu64) as u8);
    r.push(((counter >> 48u64) & 0xffu64) as u8);
    r.push(((counter >> 40u64) & 0xffu64) as u8);
    r.push(((counter >> 32u64) & 0xffu64) as u8);
    r.push(((counter >> 24u64) & 0xffu64) as u8);
    r.push(((counter >> 16u64) & 0xffu64) as u8);
    r.push(((counter >> 8u64) & 0xffu64) as u8);
    r.push((counter & 0xffu64) as u8);
    assert(r@ =~= counter_bytes(counter));
    let mut i: usize = 0;
    while i < sealed.len()
        invariant
            i <= sealed@.len(),
            r@ =~= counter_bytes(counter) + sealed@.subrange(0, i as int),
        decreases sealed.len() - i,
    {
        r.push(sealed[i]);
        i = i + 1;
        assert(r@ =~= counter_bytes(counter) + sealed@.subrange(0, i as int));
    }
    assert(sealed@.subrange(0, sealed@.len() as int) =~= sealed@);
    r
}

/// Splits a frame into its sequence counter and its sealed bytes; `None` for
/// a frame too short to hold a counter.
pub fn decode_frame(frame: &Vec<u8>) -> (r: Option<(u64, Vec<u8>)>)
    ensures
        frame@.len() < 8 ==> r is None,
        frame@.len() >= 8 ==> (r matches Some((c, sealed)) && c == counter_of(frame@.subrange(0, 8))
            && sealed@ == frame@.subrange(8, frame@.len() as int)),
{
    if frame.len() < 8 {
        return None;
    }
    let c: u64 = ((frame[0] as u64) << 56u64) | ((frame[1] as u64) << 48u64) | ((frame[2] as u64) << 40u64)
        | ((frame[3] as u64) << 32u64) | ((frame[4] as u64) << 24u64) | ((frame[5] as u64) << 16u64)
        | ((frame[6] as u64) << 8u64) | (frame[7] as u64);
    let mut sealed: Vec<u8> = Vec::new();
    let mut i: usize = 8;
    while i < frame.len()
        invariant
            8 <= i <= frame@.len(),
            sealed@ =~= frame@.subrange(8, i as int),
        decreases frame.len() - i,
    {
        sealed.push(frame[i]);
        i = i + 1;
        assert(sealed@ =~= frame@.subrange(8, i as int));
    }
    Some((c, sealed))
}

/// Decoding an encoded frame gives back its counter and its sealed bytes.
pub proof fn lemma_frame_round_trip(counter: u64, sealed: Seq<u8>)
    ensures
        ({
            let f = counter_bytes(counter) + sealed;
            &&& f.len() >= 8
            &&& counter_of(f.subrange(0, 8)) == counter
            &&& f.subrange(8, f.len() as int) == sealed
        }),
{
    let f = counter_bytes(counter) + sealed;
    assert(f.subrange(0, 8) =~= counter_bytes(counter));
    assert(f.subrange(8, f.len() as int) =~= sealed);
    lemma_counter_bytes_round_trip(counter);
}

} // verus!
