//! The registry: the kitty table, the owner table and the identifier
//! counter, with the create, transfer and breed operations on them.

use std::collections::HashMap;

use vstd::prelude::*;

use crate::dna::spec_child_dna;
use crate::dna::combine_dna_bytes;
use crate::dna::Kitty;
use crate::hashing::random_value;
use crate::hashing::spec_random_value;
use crate::AccountId;
use crate::KittyIndex;

verus! {

broadcast use vstd::std_specs::hash::group_hash_axioms;

/// Why an operation was refused. Every refusal leaves the registry exactly
/// as it was.
#[derive(Clone, Copy, Debug, PartialEq, Eq, Structural)]
pub enum Error {
    /// The identifier space is exhausted: the counter holds the largest
    /// representable identifier.
    KittiesCountOverflow,
    /// A kitty identifier did not resolve to an existing kitty.
    InvalidKittyId,
    /// Breeding needs two distinct parents.
    RequireDifferentParent,
    /// The caller of a transfer does not own the kitty.
    NotOwner,
}

/// What a successful operation reports to the outside world, as a plain
/// output value for the host to deliver.
#[derive(Clone, Copy, Debug, PartialEq, Eq, Structural)]
pub enum Event {
    /// A kitty with this identifier was created for this owner.
    Created(AccountId, KittyIndex),
    /// Ownership of this kitty passed from the first account to the second.
    Transferred(AccountId, AccountId, KittyIndex),
}

/// The registry's mathematical state: both tables as maps, and the counter.
pub struct RegistryView {
    /// Identifier to genetic payload.
    pub kitties: Map<KittyIndex, Kitty>,
    /// Identifier to owning account.
    pub owners: Map<KittyIndex, AccountId>,
    /// The identifier the next successful creation will use.
    pub count: KittyIndex,
}

impl RegistryView {
    /// Well-formed: the two tables bind exactly the same identifiers, and
    /// every bound identifier lies below the counter.
    pub open spec fn wf(self) -> bool {
        &&& forall|id: KittyIndex| #[trigger] self.kitties.contains_key(id) ==> id < self.count
        &&& forall|id: KittyIndex|
            #[trigger] self.owners.contains_key(id) ==> self.kitties.contains_key(id)
        &&& forall|id: KittyIndex|
            #[trigger] self.kitties.contains_key(id) ==> self.owners.contains_key(id)
    }
}

/// The kitty records, their owners, and the identifier counter.
pub struct Registry {
    kitty_table: HashMap<KittyIndex, Kitty>,
    owner_table: HashMap<KittyIndex, AccountId>,
    count: KittyIndex,
}

impl View for Registry {
    type V = RegistryView;

    closed spec fn view(&self) -> RegistryView {
        RegistryView { kitties: self.kitty_table@, owners: self.owner_table@, count: self.count }
    }
}

impl Registry {
    /// An empty registry: no kitties, no owners, counter at zero.
    pub fn new() -> (r: Registry)
        ensures
            r@.kitties == Map::<KittyIndex, Kitty>::empty(),
            r@.owners == Map::<KittyIndex, AccountId>::empty(),
            r@.count == 0,
            r@.wf(),
    {
        Registry { kitty_table: HashMap::new(), owner_table: HashMap::new(), count: 0 }
    }

    /// An empty registry whose counter starts at `count`, as if that many
    /// identifiers had already been spent.
    pub fn with_count(count: KittyIndex) -> (r: Registry)
        ensures
            r@.kitties == Map::<KittyIndex, Kitty>::empty(),
            r@.owners == Map::<KittyIndex, AccountId>::empty(),
            r@.count == count,
            r@.wf(),
    {
        Registry { kitty_table: HashMap::new(), owner_table: HashMap::new(), count }
    }

    /// The payload recorded under `kitty_id`, if that kitty exists.
    pub fn kitties(&self, kitty_id: KittyIndex) -> (r: Option<Kitty>)
        ensures
            r matches Some(k) ==> self@.kitties.contains_key(kitty_id) && k
                == self@.kitties[kitty_id],
            r is None ==> !self@.kitties.contains_key(kitty_id),
    {
        match self.kitty_table.get(&kitty_id) {
            Some(k) => Some(*k),
            None => None,
        }
    }

    /// How many kitties have been created: the next identifier to issue.
    pub fn kitties_count(&self) -> (r: KittyIndex)
        ensures
            r == self@.count,
    {
        self.count
    }

    /// The account that owns `kitty_id`, if that kitty exists.
    pub fn kitty_owner(&self, kitty_id: KittyIndex) -> (r: Option<AccountId>)
        ensures
            r matches Some(a) ==> self@.owners.contains_key(kitty_id) && a
                == self@.owners[kitty_id],
            r is None ==> !self@.owners.contains_key(kitty_id),
    {
        match self.owner_table.get(&kitty_id) {
            Some(a) => Some(*a),
            None => None,
        }
    }

    /// The identifier the next creation will use: the current counter value,
    /// read without mutation. Fails exactly when the identifier space is
    /// exhausted.
    pub fn next_kitty_id(&self) -> (r: Result<KittyIndex, Error>)
        ensures
            self@.count < KittyIndex::MAX ==> r == Ok::<KittyIndex, Error>(self@.count),
            self@.count == KittyIndex::MAX ==> r == Err::<KittyIndex, Error>(
                Error::KittiesCountOverflow,
            ),
    {
        if self.count == KittyIndex::MAX {
            return Err(Error::KittiesCountOverflow);
        }
        Ok(self.count)
    }

    /// Record `kitty` under `kitty_id` for `owner` and advance the counter to
    /// `kitty_id + 1`. The single path by which a kitty becomes visible and
    /// the counter advances.
    pub fn insert_kitty(&mut self, owner: &AccountId, kitty_id: KittyIndex, kitty: Kitty)
        requires
            old(self)@.wf(),
            old(self)@.count <= kitty_id < KittyIndex::MAX,
        ensures
            final(self)@.kitties == old(self)@.kitties.insert(kitty_id, kitty),
            final(self)@.owners == old(self)@.owners.insert(kitty_id, *owner),
            final(self)@.count == kitty_id + 1,
            final(self)@.wf(),
    {
        self.kitty_table.insert(kitty_id, kitty);
        self.count = kitty_id + 1;
        self.owner_table.insert(kitty_id, *owner);
        proof {
            let pre = old(self)@;
            let post = self@;
            assert forall|id: KittyIndex| #[trigger] post.kitties.contains_key(id) implies id
                < post.count by {
                if id != kitty_id {
                    assert(pre.kitties.contains_key(id));
                }
            }
            assert forall|id: KittyIndex| #[trigger] post.owners.contains_key(
                id,
            ) implies post.kitties.contains_key(id) by {
                if id != kitty_id {
                    assert(pre.owners.contains_key(id));
                }
            }
            assert forall|id: KittyIndex| #[trigger] post.kitties.contains_key(
                id,
            ) implies post.owners.contains_key(id) by {
                if id != kitty_id {
                    assert(pre.kitties.contains_key(id));
                }
            }
        }
    }

    /// Create a kitty for `sender`: issue the next identifier, derive the
    /// payload from `(seed, sender, extrinsic_index)`, record it under
    /// `sender`, and report the creation event. Fails exactly when the
    /// identifier space is exhausted, and then changes nothing.
    pub fn create(&mut self, sender: AccountId, seed: &[u8; 32], extrinsic_index: u32) -> (r:
        Result<(KittyIndex, Event), Error>)
        requires
            old(self)@.wf(),
        ensures
            final(self)@.wf(),
            old(self)@.count == KittyIndex::MAX ==> r == Err::<(KittyIndex, Event), Error>(
                Error::KittiesCountOverflow,
            ),
            match r {
                Ok((id, ev)) => {
                    &&& old(self)@.count < KittyIndex::MAX
                    &&& id == old(self)@.count
                    &&& ev == Event::Created(sender, id)
                    &&& final(self)@.count == id + 1
                    &&& final(self)@.kitties.contains_key(id)
                    &&& final(self)@.kitties[id]@ == spec_random_value(
                        seed@,
                        sender,
                        extrinsic_index,
                    )
                    &&& final(self)@.kitties.remove(id) == old(self)@.kitties
                    &&& final(self)@.owners == old(self)@.owners.insert(id, sender)
                },
                Err(e) => {
                    &&& e == Error::KittiesCountOverflow
                    &&& old(self)@.count == KittyIndex::MAX
                    &&& final(self)@ == old(self)@
                },
            },
    {
        let kitty_id = match self.next_kitty_id() {
            Ok(id) => id,
            Err(e) => {
                return Err(e);
            },
        };
        let dna = random_value(seed, sender, extrinsic_index);
        self.insert_kitty(&sender, kitty_id, Kitty(dna));
        proof {
            lemma_next_id_fresh(old(self)@);
            assert(self@.kitties.remove(kitty_id) =~= old(self)@.kitties);
        }
        Ok((kitty_id, Event::Created(sender, kitty_id)))
    }

    /// Pass ownership of `kitty_id` from `sender` to `to` and report the
    /// transfer event. Refused unless the kitty exists and `sender` owns it;
    /// the kitty table and the counter never change, and a refusal changes
    /// nothing at all.
    pub fn transfer(&mut self, sender: AccountId, to: AccountId, kitty_id: KittyIndex) -> (r:
        Result<Event, Error>)
        requires
            old(self)@.wf(),
        ensures
            final(self)@.wf(),
            final(self)@.kitties == old(self)@.kitties,
            final(self)@.count == old(self)@.count,
            match r {
                Ok(ev) => {
                    &&& old(self)@.owners.contains_key(kitty_id)
                    &&& old(self)@.owners[kitty_id] == sender
                    &&& ev == Event::Transferred(sender, to, kitty_id)
                    &&& final(self)@.owners == old(self)@.owners.insert(kitty_id, to)
                },
                Err(e) => {
                    &&& final(self)@ == old(self)@
                    &&& !(old(self)@.kitties.contains_key(kitty_id) && old(self)@.owners[kitty_id]
                        == sender)
                    &&& (e == Error::InvalidKittyId <==> !old(self)@.kitties.contains_key(kitty_id))
                    &&& (e == Error::NotOwner <==> old(self)@.kitties.contains_key(kitty_id)
                        && old(self)@.owners[kitty_id] != sender)
                },
            },
    {
        let current = match self.kitty_owner(kitty_id) {
            None => {
                return Err(Error::InvalidKittyId);
            },
            Some(a) => a,
        };
        if current != sender {
            return Err(Error::NotOwner);
        }
        self.owner_table.insert(kitty_id, to);
        proof {
            let pre = old(self)@;
            let post = self@;
            assert forall|id: KittyIndex| #[trigger] post.owners.contains_key(
                id,
            ) implies post.kitties.contains_key(id) by {
                if id != kitty_id {
                    assert(pre.owners.contains_key(id));
                }
            }
        }
        Ok(Event::Transferred(sender, to, kitty_id))
    }

    /// Breed a child for `sender` from two existing, distinct parents: fetch
    /// both payloads, derive the selector from `(seed, sender,
    /// extrinsic_index)`, combine the payloads bit by bit under it, and
    /// record the child under the next identifier. Any refusal changes
    /// nothing.
    pub fn do_breed(
        &mut self,
        sender: &AccountId,
        kitty_id_1: KittyIndex,
        kitty_id_2: KittyIndex,
        seed: &[u8; 32],
        extrinsic_index: u32,
    ) -> (r: Result<KittyIndex, Error>)
        requires
            old(self)@.wf(),
        ensures
            final(self)@.wf(),
            kitty_id_1 == kitty_id_2 ==> r is Err,
            old(self)@.count == KittyIndex::MAX ==> r is Err,
            match r {
                Ok(id) => {
                    &&& old(self)@.kitties.contains_key(kitty_id_1)
                    &&& old(self)@.kitties.contains_key(kitty_id_2)
                    &&& kitty_id_1 != kitty_id_2
                    &&& old(self)@.count < KittyIndex::MAX
                    &&& id == old(self)@.count
                    &&& final(self)@.count == id + 1
                    &&& final(self)@.kitties.contains_key(id)
                    &&& final(self)@.kitties[id]@ == spec_child_dna(
                        old(self)@.kitties[kitty_id_1]@,
                        old(self)@.kitties[kitty_id_2]@,
                        spec_random_value(seed@, *sender, extrinsic_index),
                    )
                    &&& final(self)@.kitties.remove(id) == old(self)@.kitties
                    &&& final(self)@.owners == old(self)@.owners.insert(id, *sender)
                },
                Err(e) => {
                    &&& final(self)@ == old(self)@
                    &&& !(old(self)@.kitties.contains_key(kitty_id_1)
                        && old(self)@.kitties.contains_key(kitty_id_2) && kitty_id_1 != kitty_id_2
                        && old(self)@.count < KittyIndex::MAX)
                    &&& (e == Error::InvalidKittyId <==> !old(self)@.kitties.contains_key(
                        kitty_id_1,
                    ) || !old(self)@.kitties.contains_key(kitty_id_2))
                    &&& (e == Error::RequireDifferentParent <==> old(self)@.kitties.contains_key(
                        kitty_id_1,
                    ) && old(self)@.kitties.contains_key(kitty_id_2) && kitty_id_1 == kitty_id_2)
                    &&& (e == Error::KittiesCountOverflow <==> old(self)@.kitties.contains_key(
                        kitty_id_1,
                    ) && old(self)@.kitties.contains_key(kitty_id_2) && kitty_id_1 != kitty_id_2
                        && old(self)@.count == KittyIndex::MAX)
                },
            },
    {
        let kitty1 = match self.kitties(kitty_id_1) {
            None => {
                return Err(Error::InvalidKittyId);
            },
            Some(k) => k,
        };
        let kitty2 = match self.kitties(kitty_id_2) {
            None => {
                return Err(Error::InvalidKittyId);
            },
            Some(k) => k,
        };
        if kitty_id_1 == kitty_id_2 {
            return Err(Error::RequireDifferentParent);
        }
        let kitty_id = match self.next_kitty_id() {
            Ok(id) => id,
            Err(e) => {
                return Err(e);
            },
        };
        let selector = random_value(seed, *sender, extrinsic_index);
        let new_dna = combine_dna_bytes(&kitty1.0, &kitty2.0, &selector);
        self.insert_kitty(sender, kitty_id, Kitty(new_dna));
        proof {
            lemma_next_id_fresh(old(self)@);
            assert(self@.kitties.remove(kitty_id) =~= old(self)@.kitties);
        }
        Ok(kitty_id)
    }

    /// Breed a child for `sender` and report the creation event; the child's
    /// identifier and payload are exactly those of [`Self::do_breed`].
    pub fn breed(
        &mut self,
        sender: AccountId,
        kitty_id_1: KittyIndex,
        kitty_id_2: KittyIndex,
        seed: &[u8; 32],
        extrinsic_index: u32,
    ) -> (r: Result<(KittyIndex, Event), Error>)
        requires
            old(self)@.wf(),
        ensures
            final(self)@.wf(),
            kitty_id_1 == kitty_id_2 ==> r is Err,
            old(self)@.count == KittyIndex::MAX ==> r is Err,
            match r {
                Ok((id, ev)) => {
                    &&& old(self)@.kitties.contains_key(kitty_id_1)
                    &&& old(self)@.kitties.contains_key(kitty_id_2)
                    &&& kitty_id_1 != kitty_id_2
                    &&& old(self)@.count < KittyIndex::MAX
                    &&& id == old(self)@.count
                    &&& ev == Event::Created(sender, id)
                    &&& final(self)@.count == id + 1
                    &&& final(self)@.kitties.contains_key(id)
                    &&& final(self)@.kitties[id]@ == spec_child_dna(
                        old(self)@.kitties[kitty_id_1]@,
                        old(self)@.kitties[kitty_id_2]@,
                        spec_random_value(seed@, sender, extrinsic_index),
                    )
                    &&& final(self)@.kitties.remove(id) == old(self)@.kitties
                    &&& final(self)@.owners == old(self)@.owners.insert(id, sender)
                },
                Err(e) => {
                    &&& final(self)@ == old(self)@
                    &&& !(old(self)@.kitties.contains_key(kitty_id_1)
                        && old(self)@.kitties.contains_key(kitty_id_2) && kitty_id_1 != kitty_id_2
                        && old(self)@.count < KittyIndex::MAX)
                    &&& (e == Error::InvalidKittyId <==> !old(self)@.kitties.contains_key(
                        kitty_id_1,
                    ) || !old(self)@.kitties.contains_key(kitty_id_2))
                    &&& (e == Error::RequireDifferentParent <==> old(self)@.kitties.contains_key(
                        kitty_id_1,
                    ) && old(self)@.kitties.contains_key(kitty_id_2) && kitty_id_1 == kitty_id_2)
                    &&& (e == Error::KittiesCountOverflow <==> old(self)@.kitties.contains_key(
                        kitty_id_1,
                    ) && old(self)@.kitties.contains_key(kitty_id_2) && kitty_id_1 != kitty_id_2
                        && old(self)@.count == KittyIndex::MAX)
                },
            },
    {
        match self.do_breed(&sender, kitty_id_1, kitty_id_2, seed, extrinsic_index) {
            Ok(id) => Ok((id, Event::Created(sender, id))),
            Err(e) => Err(e),
        }
    }
}

/// Uniqueness: in a well-formed registry the counter value itself is bound
/// in neither table, so the identifier a successful creation issues is
/// fresh: distinct from that of every kitty already recorded.
pub proof fn lemma_next_id_fresh(r: RegistryView)
    requires
        r.wf(),
    ensures
        !r.kitties.contains_key(r.count),
        !r.owners.contains_key(r.count),
{
}

/// Ownership existence: in a well-formed registry an identifier has a kitty
/// record exactly when it has an ownership record.
pub proof fn lemma_ownership_existence(r: RegistryView)
    requires
        r.wf(),
    ensures
        forall|id: KittyIndex| #[trigger]
            r.kitties.contains_key(id) <==> #[trigger] r.owners.contains_key(id),
{
}

} // verus!
