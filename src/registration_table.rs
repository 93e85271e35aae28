//! The registration table: a dense array of slots with a free list, handing out tokens
//! that pack a slot's index with a generation counter.
//!
//! A slot's generation grows each time the slot is reused, and a slot whose generation
//! is exhausted is retired rather than reused, so no token is ever handed out twice by
//! one table. A token whose registration has gone is recognised as stale, and a token
//! the table never handed out is recognised as unknown.

use vstd::prelude::*;
use vstd::pervasive::VecAdditionalExecFns;
use crate::reactor::{EventPoll, Reactor, ReadyEvent};

verus! {

/// The largest generation a slot can reach; a slot there is retired once vacated.
pub const MAXIMUM_GENERATION: u32 = 0xffff_ffff;

/// The number of slots a table can hold.
pub const MAXIMUM_SLOTS: usize = 0xffff_ffff;

/// The slot that a token names.
pub open spec fn token_slot(token: u64) -> u64 {
    token & 0xffff_ffff
}

/// The generation that a token names.
pub open spec fn token_generation(token: u64) -> u64 {
    token >> 32
}

/// The token for a slot and generation.
pub open spec fn make_token(slot: u64, generation: u64) -> u64 {
    (generation << 32) | slot
}

/// A token's slot and generation are those it was made from.
pub proof fn lemma_token_parts(slot: u64, generation: u64)
    requires
        slot <= 0xffff_ffff,
        generation <= 0xffff_ffff,
    ensures
        token_slot(make_token(slot, generation)) == slot,
        token_generation(make_token(slot, generation)) == generation,
{
    assert(((generation << 32) | slot) & 0xffff_ffff == slot && ((generation << 32) | slot) >> 32
        == generation) by (bit_vector)
        requires
            slot <= 0xffff_ffff,
            generation <= 0xffff_ffff,
    ;
}

/// A token is the token made from its own slot and generation, each of 32 bits.
pub proof fn lemma_token_identity(token: u64)
    ensures
        make_token(token_slot(token), token_generation(token)) == token,
        token_slot(token) <= 0xffff_ffff,
        token_generation(token) <= 0xffff_ffff,
{
    assert(((token >> 32) << 32) | (token & 0xffff_ffff) == token && token & 0xffff_ffff
        <= 0xffff_ffff && token >> 32 <= 0xffff_ffff) by (bit_vector);
}

/// Tokens with the same slot and generation are equal.
proof fn lemma_same_parts(a: u64, b: u64)
    requires
        token_slot(a) == token_slot(b),
        token_generation(a) == token_generation(b),
    ensures
        a == b,
{
    lemma_token_identity(a);
    lemma_token_identity(b);
}

/// Packs a slot and a generation into a token.
fn pack_token(slot: u32, generation: u32) -> (token: u64)
    ensures
        token == make_token(slot as u64, generation as u64),
        token_slot(token) == slot as u64,
        token_generation(token) == generation as u64,
{
    proof {
        lemma_token_parts(slot as u64, generation as u64);
    }
    ((generation as u64) << 32) | (slot as u64)
}

/// Splits a token into its slot and its generation.
fn unpack_token(token: u64) -> (parts: (usize, u32))
    ensures
        parts.0 as u64 == token_slot(token),
        parts.1 as u64 == token_generation(token),
{
    proof {
        lemma_token_identity(token);
    }
    ((token & 0xffff_ffff) as usize, (token >> 32) as u32)
}

/// One registered file descriptor: its flags and its handler.
pub struct Registration<H> {
    pub fd: i32,
    pub flags: u32,
    pub handler: H,
}

struct Slot<H> {
    generation: u32,
    registration: Option<Registration<H>>,
}

/// What happened when an event was handed to the table.
#[derive(Debug, Clone, Copy, PartialEq, Eq)]
pub enum Delivery {
    /// The registration's handler reacted, and returned this.
    Reacted(Result<(), ()>),
    /// The token was handed out once, but its registration has since been removed.
    Stale,
    /// The table never handed out this token.
    Unknown,
}

/// Maps tokens to registrations.
pub struct RegistrationTable<H> {
    slots: Vec<Slot<H>>,
    free: Vec<u32>,
}

impl<H> RegistrationTable<H> {
    spec fn slot_live(&self, token: u64) -> bool {
        let i = token_slot(token) as int;
        &&& i < self.slots@.len()
        &&& self.slots@[i].registration is Some
        &&& self.slots@[i].generation == token_generation(token)
    }

    /// The registrations, by token.
    pub closed spec fn view(&self) -> Map<u64, Registration<H>> {
        Map::new(
            |t: u64| self.slot_live(t),
            |t: u64| self.slots@[token_slot(t) as int].registration.unwrap(),
        )
    }

    /// Every token this table has handed out, registered now or not.
    pub closed spec fn issued(&self) -> Set<u64> {
        Set::new(
            |t: u64|
                token_slot(t) < self.slots@.len() && token_generation(t)
                    <= self.slots@[token_slot(t) as int].generation,
        )
    }

    /// Whether another registration can be made.
    pub closed spec fn spec_has_room(&self) -> bool {
        self.free@.len() > 0 || self.slots@.len() < MAXIMUM_SLOTS
    }

    /// The table's internal invariant.
    pub closed spec fn wf(&self) -> bool {
        &&& self.slots@.len() <= MAXIMUM_SLOTS
        &&& self.free@.no_duplicates()
        &&& forall|k: int|
            #![trigger self.free@[k]]
            0 <= k < self.free@.len() ==> {
                let i = self.free@[k] as int;
                &&& i < self.slots@.len()
                &&& self.slots@[i].registration is None
                &&& self.slots@[i].generation < MAXIMUM_GENERATION
            }
    }

    /// Every registration is under a token that was handed out.
    pub proof fn lemma_registered_tokens_issued(&self, token: u64)
        ensures
            self@.contains_key(token) ==> self.issued().contains(token),
    {
    }

    /// An empty table.
    pub fn new() -> (r: Self)
        ensures
            r.wf(),
            r@ == Map::<u64, Registration<H>>::empty(),
            r.issued() == Set::<u64>::empty(),
            r.spec_has_room(),
    {
        let r = RegistrationTable { slots: Vec::new(), free: Vec::new() };
        assert(r@ =~= Map::<u64, Registration<H>>::empty());
        assert(r.issued() =~= Set::<u64>::empty());
        r
    }

    /// Whether another registration can be made.
    pub fn has_room(&self) -> (r: bool)
        ensures
            r == self.spec_has_room(),
    {
        self.free.len() > 0 || self.slots.len() < MAXIMUM_SLOTS
    }

    /// Whether `token` names a current registration.
    pub fn contains(&self, token: u64) -> (r: bool)
        ensures
            r == self@.contains_key(token),
    {
        let (i, g) = unpack_token(token);
        i < self.slots.len() && self.slots[i].registration.is_some() && self.slots[i].generation
            == g
    }

    /// Whether the table holds no registration.
    pub fn is_empty(&self) -> (r: bool)
        requires
            self.wf(),
        ensures
            r == (self@ == Map::<u64, Registration<H>>::empty()),
    {
        let mut i: usize = 0;
        while i < self.slots.len()
            invariant
                i <= self.slots@.len(),
                self.slots@.len() <= MAXIMUM_SLOTS,
                forall|j: int| 0 <= j < i ==> self.slots@[j].registration is None,
            decreases self.slots@.len() - i,
        {
            if self.slots[i].registration.is_some() {
                let t = pack_token(i as u32, self.slots[i].generation);
                assert(self.slot_live(t));
                assert(self@.contains_key(t));
                return false;
            }
            i = i + 1;
        }
        assert(self@ =~= Map::<u64, Registration<H>>::empty());
        true
    }

    /// The file descriptor registered under `token`.
    pub fn fd(&self, token: u64) -> (r: Option<i32>)
        ensures
            r == (if self@.contains_key(token) { Some(self@[token].fd) } else { None::<i32> }),
    {
        let (i, g) = unpack_token(token);
        if i < self.slots.len() && self.slots[i].generation == g {
            match &self.slots[i].registration {
                Some(registration) => Some(registration.fd),
                None => None,
            }
        } else {
            None
        }
    }

    /// Registers `handler` for `fd` with `flags` under a token never handed out before.
    pub fn insert(&mut self, fd: i32, flags: u32, handler: H) -> (token: u64)
        requires
            old(self).wf(),
            old(self).spec_has_room(),
        ensures
            final(self).wf(),
            !old(self).issued().contains(token),
            !old(self)@.contains_key(token),
            final(self).issued() == old(self).issued().insert(token),
            final(self)@ == old(self)@.insert(token, Registration { fd, flags, handler }),
    {
        let registration = Registration { fd, flags, handler };
        if self.free.len() > 0 {
            let index = self.free.pop().unwrap();
            proof {
                assert(self.free@ == old(self).free@.drop_last());
                assert(old(self).free@[old(self).free@.len() - 1] == index);
            }
            let generation = self.slots[index as usize].generation + 1;
            let ghost registration_value = registration;
            self.slots.set(index as usize, Slot { generation, registration: Some(registration) });
            let token = pack_token(index, generation);
            proof {
                assert forall|k: int| 0 <= k < self.free@.len() implies self.free@[k] != index by {
                    assert(old(self).free@[k] == self.free@[k]);
                }
                assert forall|t: u64| #[trigger] self@.contains_key(t) == old(self)@.insert(
                    token,
                    registration_value,
                ).contains_key(t) by {
                    if token_slot(t) == index as u64 && token_generation(t) == generation as u64 {
                        lemma_same_parts(t, token);
                    }
                }
                assert(self@ =~= old(self)@.insert(token, registration_value));
                assert forall|t: u64| #[trigger] self.issued().contains(t) == old(
                    self,
                ).issued().insert(token).contains(t) by {
                    if token_slot(t) == index as u64 && token_generation(t) == generation as u64 {
                        lemma_same_parts(t, token);
                    }
                }
                assert(self.issued() =~= old(self).issued().insert(token));
            }
            token
        } else {
            let index = self.slots.len();
            let ghost registration_value = registration;
            self.slots.push(Slot { generation: 0, registration: Some(registration) });
            let token = pack_token(index as u32, 0);
            proof {
                assert(self.slots@[index as int].registration == Some(registration_value));
                assert forall|t: u64| #[trigger] self@.contains_key(t) == old(self)@.insert(
                    token,
                    registration_value,
                ).contains_key(t) by {
                    if token_slot(t) == index as u64 && token_generation(t) == 0 {
                        lemma_same_parts(t, token);
                    }
                }
                assert(self@ =~= old(self)@.insert(token, registration_value));
                assert forall|t: u64| #[trigger] self.issued().contains(t) == old(
                    self,
                ).issued().insert(token).contains(t) by {
                    if token_slot(t) == index as u64 && token_generation(t) == 0 {
                        lemma_same_parts(t, token);
                    }
                }
                assert(self.issued() =~= old(self).issued().insert(token));
            }
            token
        }
    }

    /// Removes the registration under `token`, if there is one, and hands it back.
    pub fn remove(&mut self, token: u64) -> (r: Option<Registration<H>>)
        requires
            old(self).wf(),
        ensures
            final(self).wf(),
            final(self).issued() == old(self).issued(),
            old(self)@.contains_key(token) ==> r == Some(old(self)@[token]) && final(self)@ == old(
                self,
            )@.remove(token),
            !old(self)@.contains_key(token) ==> r is None && final(self)@ == old(self)@,
            final(self).spec_has_room() || !old(self).spec_has_room(),
    {
        let (index, wanted_generation) = unpack_token(token);
        if index >= self.slots.len() || self.slots[index].generation != wanted_generation
            || self.slots[index].registration.is_none() {
            return None;
        }
        let generation = self.slots[index].generation;
        let mut vacated = Slot { generation, registration: None };
        self.slots.set_and_swap(index, &mut vacated);
        if generation < MAXIMUM_GENERATION {
            proof {
                assert forall|k: int| 0 <= k < self.free@.len() implies self.free@[k] != index by {}
            }
            self.free.push(index as u32);
        }
        proof {
            assert forall|t: u64| #[trigger] self@.contains_key(t) == old(self)@.remove(
                token,
            ).contains_key(t) by {
                if token_slot(t) == index as u64 && token_generation(t) == generation as u64 {
                    lemma_same_parts(t, token);
                }
            }
            assert(self@ =~= old(self)@.remove(token));
            assert(self.issued() =~= old(self).issued());
        }
        vacated.registration
    }

    /// Whether this table ever handed out `token`.
    pub fn was_issued(&self, token: u64) -> (r: bool)
        ensures
            r == self.issued().contains(token),
    {
        let (index, generation) = unpack_token(token);
        index < self.slots.len() && generation <= self.slots[index].generation
    }

    /// Records new flags for the registration under `token`.
    pub fn set_flags(&mut self, token: u64, flags: u32)
        requires
            old(self).wf(),
            old(self)@.contains_key(token),
        ensures
            final(self).wf(),
            final(self).issued() == old(self).issued(),
            final(self)@ == old(self)@.insert(
                token,
                Registration { flags, ..old(self)@[token] },
            ),
            final(self).spec_has_room() == old(self).spec_has_room(),
    {
        let (index, generation) = unpack_token(token);
        let mut taken = Slot { generation, registration: None };
        self.slots.set_and_swap(index, &mut taken);
        let registration = taken.registration.unwrap();
        let updated = Registration { fd: registration.fd, flags, handler: registration.handler };
        self.slots.set(index, Slot { generation, registration: Some(updated) });
        proof {
            assert forall|t: u64| #[trigger] self@.contains_key(t) == old(self)@.contains_key(t) by {
                if token_slot(t) == index as u64 && token_generation(t) == generation as u64 {
                    lemma_same_parts(t, token);
                }
            }
            assert forall|t: u64| #[trigger] self@.contains_key(t) && t != token implies self@[t]
                == old(self)@[t] by {
                if token_slot(t) == index as u64 {
                    lemma_same_parts(t, token);
                }
            }
            assert(self@ =~= old(self)@.insert(token, Registration { flags, ..old(self)@[token] }));
            assert(self.issued() =~= old(self).issued());
        }
    }
}

/// Whether `after` holds the registrations of `before`, with the same file descriptors and
/// flags, and the same handlers except perhaps the one under `token`.
pub open spec fn same_but_handler<H>(
    before: Map<u64, Registration<H>>,
    after: Map<u64, Registration<H>>,
    token: u64,
) -> bool {
    &&& after.dom() == before.dom()
    &&& forall|t: u64| #[trigger]
        after.contains_key(t) ==> after[t].fd == before[t].fd && after[t].flags == before[t].flags
            && (t != token ==> after[t] == before[t])
}

impl<H: Reactor> RegistrationTable<H> {
    /// Hands `event` to the handler registered under its token, and hands back what the
    /// handler returned.
    ///
    /// An event for a registration that has been removed is stale and is dropped; an
    /// event whose token this table never handed out is reported as unknown.
    pub fn deliver<P: EventPoll>(&mut self, event_poll: &P, event: ReadyEvent) -> (r: Delivery)
        requires
            old(self).wf(),
        ensures
            final(self).wf(),
            final(self).issued() == old(self).issued(),
            final(self).spec_has_room() == old(self).spec_has_room(),
            same_but_handler(old(self)@, final(self)@, event.token),
            (r is Unknown) == !old(self).issued().contains(event.token),
            (r is Stale) == (old(self).issued().contains(event.token) && !old(
                self,
            )@.contains_key(event.token)),
            (r is Reacted) == old(self)@.contains_key(event.token),
            !old(self)@.contains_key(event.token) ==> final(self)@ == old(self)@,
    {
        let token = event.token;
        let (index, generation) = unpack_token(token);
        if index >= self.slots.len() || generation > self.slots[index].generation {
            return Delivery::Unknown;
        }
        if generation != self.slots[index].generation || self.slots[index].registration.is_none() {
            return Delivery::Stale;
        }
        let mut taken = Slot { generation, registration: None };
        self.slots.set_and_swap(index, &mut taken);
        let mut registration = taken.registration.unwrap();
        let ghost before = registration;
        let reacted = registration.handler.react(event_poll, token, event.flags);
        let ghost after = registration;
        assert(after.fd == before.fd && after.flags == before.flags);
        self.slots.set(index, Slot { generation, registration: Some(registration) });
        proof {
            assert forall|t: u64| #[trigger] self@.contains_key(t) == old(self)@.contains_key(t) by {
                if token_slot(t) == index as u64 && token_generation(t) == generation as u64 {
                    lemma_same_parts(t, token);
                }
            }
            assert forall|t: u64| #[trigger] self@.contains_key(t) && t != token implies self@[t]
                == old(self)@[t] by {
                if token_slot(t) == index as u64 {
                    lemma_same_parts(t, token);
                }
            }
            assert(self@.dom() =~= old(self)@.dom());
            assert(self.issued() =~= old(self).issued());
        }
        Delivery::Reacted(reacted)
    }
}

} // verus!
