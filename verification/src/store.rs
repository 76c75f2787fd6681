//! A model of the ledger that holds the records.
//!
//! On the ledger a record lives at a storage address, and a request names the
//! address of the record it is about and carries the key of its signer. The
//! store keeps the records of this program by address and carries out whole
//! requests: it resolves the record, runs the operation of
//! [`crate::instruction`] on it and keeps what the operation wrote, or
//! nothing at all where the request fails.
//!
//! The contracts are stated over the store's view, a map from addresses to
//! records, and over the step functions below, which say for every map and
//! every request what the next map and the answer are.

use vstd::prelude::*;
use crate::address::{keys_equal, record_address_of, user_address, Key};
use crate::error::{CustomError, StoreError};
use crate::instruction::{clear_name, init_user, set_name, InitUser, UpdateName};
use crate::record::{zero_name, UserData};

verus! {

/// Allocation at `address` followed by `init_user` for `authority`: refused
/// where the address already holds a record, else the new record of
/// `authority` stands there.
pub open spec fn init_user_at_step(records: Map<Key, UserData>, address: Key, authority: Key) -> (
    Map<Key, UserData>,
    Result<(), StoreError>,
) {
    if records.dom().contains(address) {
        (records, Err(StoreError::AlreadyInUse))
    } else {
        (records.insert(address, UserData::created(authority)), Ok(()))
    }
}

/// The request `init_user` signed by `authority`: the record is created at
/// the address derived from the signer's key, and the answer is that
/// address.
pub open spec fn init_user_step(records: Map<Key, UserData>, authority: Key) -> (
    Map<Key, UserData>,
    Result<Key, StoreError>,
) {
    match record_address_of(authority) {
        None => (records, Err(StoreError::NoAddress)),
        Some(address) => match init_user_at_step(records, address, authority).1 {
            Ok(_) => (init_user_at_step(records, address, authority).0, Ok(address)),
            Err(refused) => (records, Err(refused)),
        },
    }
}

/// The request `set_name` signed by `authority` on the record at `record`.
pub open spec fn set_name_step(
    records: Map<Key, UserData>,
    record: Key,
    authority: Key,
    name: [u8; 64],
) -> (Map<Key, UserData>, Result<(), StoreError>) {
    if !records.dom().contains(record) {
        (records, Err(StoreError::NotInitialized))
    } else {
        let ctx = UpdateName { user_data: records[record], authority };
        match ctx.guard() {
            Ok(_) => (records.insert(record, ctx.after_set_name(name).user_data), Ok(())),
            Err(refused) => (records, Err(StoreError::Rejected(refused))),
        }
    }
}

/// The request `clear_name` signed by `authority` on the record at `record`.
pub open spec fn clear_name_step(records: Map<Key, UserData>, record: Key, authority: Key) -> (
    Map<Key, UserData>,
    Result<(), StoreError>,
) {
    if !records.dom().contains(record) {
        (records, Err(StoreError::NotInitialized))
    } else {
        let ctx = UpdateName { user_data: records[record], authority };
        match ctx.guard() {
            Ok(_) => (records.insert(record, ctx.after_clear_name().user_data), Ok(())),
            Err(refused) => (records, Err(StoreError::Rejected(refused))),
        }
    }
}

/// Every record stands at the address derived from its owner's key.
pub open spec fn at_derived_addresses(records: Map<Key, UserData>) -> bool {
    forall|address: Key| #[trigger]
        records.dom().contains(address) ==> record_address_of(records[address].owner)
            == Some(address)
}

/// What a read at `address` returns.
pub open spec fn lookup(records: Map<Key, UserData>, address: Key) -> Option<UserData> {
    if records.dom().contains(address) {
        Some(records[address])
    } else {
        None
    }
}

/// One record with the address it is stored at.
struct Slot {
    address: Key,
    data: UserData,
}

/// The map that a sequence of slots stands for.
spec fn records_of(slots: Seq<Slot>) -> Map<Key, UserData> {
    Map::new(
        |address: Key|
            exists|i: int| 0 <= i < slots.len() && (#[trigger] slots[i]).address == address,
        |address: Key| slots[index_of(slots, address)].data,
    )
}

/// The place of `address` among the slots.
spec fn index_of(slots: Seq<Slot>, address: Key) -> int {
    choose|i: int| 0 <= i < slots.len() && (#[trigger] slots[i]).address == address
}

/// No address occurs twice among the slots.
spec fn distinct(slots: Seq<Slot>) -> bool {
    forall|i: int, j: int|
        0 <= i < j < slots.len() ==> (#[trigger] slots[i]).address != (#[trigger] slots[j]).address
}

proof fn lemma_index_of(slots: Seq<Slot>, i: int)
    requires
        distinct(slots),
        0 <= i < slots.len(),
    ensures
        index_of(slots, slots[i].address) == i,
        records_of(slots).dom().contains(slots[i].address),
        records_of(slots)[slots[i].address] == slots[i].data,
{
    // The place chosen for the address holds it, as `i` does, and no two
    // places hold the same address.
    let k = index_of(slots, slots[i].address);
    assert(slots[k].address == slots[i].address);
}

proof fn lemma_push(slots: Seq<Slot>, slot: Slot)
    requires
        distinct(slots),
        !records_of(slots).dom().contains(slot.address),
    ensures
        distinct(slots.push(slot)),
        records_of(slots.push(slot)) == records_of(slots).insert(slot.address, slot.data),
{
    let next = slots.push(slot);
    let grown = records_of(slots).insert(slot.address, slot.data);
    assert(distinct(next));
    assert forall|address: Key| #[trigger]
        records_of(next).dom().contains(address) <==> grown.dom().contains(address) by {
        if records_of(slots).dom().contains(address) {
            assert(next[index_of(slots, address)].address == address);
        }
        if address == slot.address {
            assert(next[slots.len() as int].address == address);
        }
    }
    assert forall|address: Key| #[trigger]
        records_of(next).dom().contains(address) implies records_of(next)[address]
        == grown[address] by {
        let i = index_of(next, address);
        lemma_index_of(next, i);
        if i < slots.len() {
            lemma_index_of(slots, i);
        }
    }
}

proof fn lemma_update(slots: Seq<Slot>, i: int, data: UserData)
    requires
        distinct(slots),
        0 <= i < slots.len(),
    ensures
        distinct(slots.update(i, Slot { address: slots[i].address, data })),
        records_of(slots.update(i, Slot { address: slots[i].address, data })) == records_of(
            slots,
        ).insert(slots[i].address, data),
{
    let next = slots.update(i, Slot { address: slots[i].address, data });
    let written = records_of(slots).insert(slots[i].address, data);
    assert(distinct(next));
    assert forall|address: Key| #[trigger]
        records_of(next).dom().contains(address) <==> written.dom().contains(address) by {
        if records_of(slots).dom().contains(address) {
            assert(next[index_of(slots, address)].address == address);
        }
    }
    assert forall|address: Key| #[trigger]
        records_of(next).dom().contains(address) implies records_of(next)[address]
        == written[address] by {
        let k = index_of(next, address);
        lemma_index_of(next, k);
        lemma_index_of(slots, k);
    }
}

/// The records of this program, by storage address.
pub struct RecordStore {
    slots: Vec<Slot>,
}

impl View for RecordStore {
    type V = Map<Key, UserData>;

    closed spec fn view(&self) -> Map<Key, UserData> {
        records_of(self.slots@)
    }
}

impl RecordStore {
    /// No address holds two records, and every record stands at the address
    /// derived from its owner's key.
    #[verifier::type_invariant]
    spec fn well_formed(self) -> bool {
        &&& distinct(self.slots@)
        &&& at_derived_addresses(records_of(self.slots@))
    }

    /// A store without records.
    pub fn new() -> (store: RecordStore)
        ensures
            store@ == Map::<Key, UserData>::empty(),
    {
        RecordStore { slots: Vec::new() }
    }

    /// Where the record at `address` is kept, if there is one.
    fn find(&self, address: &Key) -> (place: Option<usize>)
        ensures
            place is Some <==> self@.dom().contains(*address),
            place matches Some(i) ==> i < self.slots@.len() && self.slots@[i as int].address
                == *address,
    {
        let mut i: usize = 0;
        while i < self.slots.len()
            invariant
                i <= self.slots@.len(),
                forall|j: int| 0 <= j < i ==> (#[trigger] self.slots@[j]).address != *address,
            decreases self.slots@.len() - i,
        {
            if keys_equal(&self.slots[i].address, address) {
                return Some(i);
            }
            i += 1;
        }
        None
    }

    /// Adds a record at an address that holds none.
    fn append(&mut self, slot: Slot)
        requires
            !old(self)@.dom().contains(slot.address),
            record_address_of(slot.data.owner) == Some(slot.address),
        ensures
            final(self)@ == old(self)@.insert(slot.address, slot.data),
    {
        proof {
            use_type_invariant(&*self);
            lemma_push(self.slots@, slot);
        }
        // The slots are taken out while they change, so that the store is
        // whole at every step.
        let mut slots: Vec<Slot> = Vec::new();
        core::mem::swap(&mut self.slots, &mut slots);
        slots.push(slot);
        core::mem::swap(&mut self.slots, &mut slots);
    }

    /// Overwrites the record kept at `place`, under the same owner.
    fn write(&mut self, place: usize, data: UserData)
        requires
            place < old(self).slots@.len(),
            data.owner == old(self).slots@[place as int].data.owner,
        ensures
            final(self)@ == old(self)@.insert(old(self).slots@[place as int].address, data),
    {
        proof {
            use_type_invariant(&*self);
            lemma_index_of(self.slots@, place as int);
            lemma_update(self.slots@, place as int, data);
        }
        let mut slots: Vec<Slot> = Vec::new();
        core::mem::swap(&mut self.slots, &mut slots);
        let address = slots[place].address;
        slots.set(place, Slot { address, data });
        core::mem::swap(&mut self.slots, &mut slots);
    }

    /// Reads the record at `address`. Reading needs no signer.
    pub fn get(&self, address: &Key) -> (found: Option<UserData>)
        ensures
            found == lookup(self@, *address),
            at_derived_addresses(self@),
    {
        proof {
            use_type_invariant(self);
        }
        match self.find(address) {
            Some(i) => {
                proof {
                    lemma_index_of(self.slots@, i as int);
                }
                Some(self.slots[i].data)
            },
            None => None,
        }
    }

    /// Creates the record of `authority` at `address`, the address derived
    /// from its key: the step of [`RecordStore::init_user`] that follows the
    /// derivation. Allocation is refused with [`StoreError::AlreadyInUse`]
    /// where `address` already holds a record, and the store is then left as
    /// it was.
    pub fn init_user_at(&mut self, address: Key, authority: Key) -> (result: Result<(), StoreError>)
        requires
            record_address_of(authority) == Some(address),
        ensures
            final(self)@ == init_user_at_step(old(self)@, address, authority).0,
            result == init_user_at_step(old(self)@, address, authority).1,
            at_derived_addresses(final(self)@),
    {
        proof {
            use_type_invariant(&*self);
        }
        if self.find(&address).is_some() {
            return Err(StoreError::AlreadyInUse);
        }
        // Allocation hands out zeroed storage.
        let mut ctx = InitUser { user_data: UserData::new([0u8; 32]), authority };
        match init_user(&mut ctx) {
            Ok(_) => {
                self.append(Slot { address, data: ctx.user_data });
                Ok(())
            },
            Err(refused) => Err(StoreError::Rejected(refused)),
        }
    }

    /// Carries out the request `init_user` signed by `authority`: derives the
    /// address of the signer's record, has storage allocated there and
    /// creates the record. Returns the address of the new record.
    pub fn init_user(&mut self, authority: Key) -> (result: Result<Key, StoreError>)
        ensures
            final(self)@ == init_user_step(old(self)@, authority).0,
            result == init_user_step(old(self)@, authority).1,
            at_derived_addresses(final(self)@),
    {
        proof {
            use_type_invariant(&*self);
        }
        match user_address(&authority) {
            None => Err(StoreError::NoAddress),
            Some((address, _)) => match self.init_user_at(address, authority) {
                Ok(_) => Ok(address),
                Err(refused) => Err(refused),
            },
        }
    }

    /// Carries out the request `set_name` signed by `authority` on the record
    /// at `record`. A request of anybody but the record's owner is refused
    /// with the ownership violation, and so is every request that names no
    /// record; a refused request changes nothing.
    pub fn set_name(&mut self, record: &Key, authority: Key, name: [u8; 64]) -> (result: Result<
        (),
        StoreError,
    >)
        ensures
            final(self)@ == set_name_step(old(self)@, *record, authority, name).0,
            result == set_name_step(old(self)@, *record, authority, name).1,
            at_derived_addresses(final(self)@),
    {
        proof {
            use_type_invariant(&*self);
        }
        let place = match self.find(record) {
            Some(place) => place,
            None => {
                return Err(StoreError::NotInitialized);
            },
        };
        proof {
            lemma_index_of(self.slots@, place as int);
        }
        let mut ctx = UpdateName { user_data: self.slots[place].data, authority };
        match set_name(&mut ctx, name) {
            Ok(_) => {
                self.write(place, ctx.user_data);
                Ok(())
            },
            Err(refused) => Err(StoreError::Rejected(refused)),
        }
    }

    /// Carries out the request `clear_name` signed by `authority` on the
    /// record at `record`; refused as [`RecordStore::set_name`] is.
    pub fn clear_name(&mut self, record: &Key, authority: Key) -> (result: Result<(), StoreError>)
        ensures
            final(self)@ == clear_name_step(old(self)@, *record, authority).0,
            result == clear_name_step(old(self)@, *record, authority).1,
            at_derived_addresses(final(self)@),
    {
        proof {
            use_type_invariant(&*self);
        }
        let place = match self.find(record) {
            Some(place) => place,
            None => {
                return Err(StoreError::NotInitialized);
            },
        };
        proof {
            lemma_index_of(self.slots@, place as int);
        }
        let mut ctx = UpdateName { user_data: self.slots[place].data, authority };
        match clear_name(&mut ctx) {
            Ok(_) => {
                self.write(place, ctx.user_data);
                Ok(())
            },
            Err(refused) => Err(StoreError::Rejected(refused)),
        }
    }
}

/// `init_user` by a signer creates the signer's record with an empty name,
/// at the address derived from the signer's key, and touches no other
/// record.
pub proof fn init_user_creates_the_record(records: Map<Key, UserData>, authority: Key)
    ensures
        init_user_step(records, authority).1 matches Ok(address) ==> {
            &&& record_address_of(authority) == Some(address)
            &&& !records.dom().contains(address)
            &&& init_user_step(records, authority).0 == records.insert(
                address,
                UserData::created(authority),
            )
            &&& init_user_step(records, authority).0[address].owner == authority
            &&& init_user_step(records, authority).0[address].name == zero_name()
        },
        init_user_step(records, authority).1 is Err ==> init_user_step(records, authority).0
            == records,
{
}

/// `init_user` requested twice by the same signer fails the second time, and
/// the second request changes nothing: the record that the first one created
/// stays as it is.
pub proof fn second_init_user_is_refused(records: Map<Key, UserData>, authority: Key)
    ensures
        init_user_step(init_user_step(records, authority).0, authority).1 is Err,
        init_user_step(init_user_step(records, authority).0, authority).0 == init_user_step(
            records,
            authority,
        ).0,
        init_user_step(records, authority).1 is Ok ==> init_user_step(
            init_user_step(records, authority).0,
            authority,
        ).1 == Err::<Key, StoreError>(StoreError::AlreadyInUse),
{
}

/// `set_name` and `clear_name` by the owner of the record succeed: the
/// record then holds the given name verbatim, or the empty name, under the
/// same owner, and no other record has changed.
pub proof fn owner_changes_the_name(
    records: Map<Key, UserData>,
    record: Key,
    authority: Key,
    name: [u8; 64],
)
    requires
        records.dom().contains(record),
        records[record].owner == authority,
    ensures
        set_name_step(records, record, authority, name).1 is Ok,
        set_name_step(records, record, authority, name).0 == records.insert(
            record,
            records[record].with_name(name),
        ),
        clear_name_step(records, record, authority).1 is Ok,
        clear_name_step(records, record, authority).0 == records.insert(
            record,
            records[record].with_name(zero_name()),
        ),
{
    assert(set_name_step(records, record, authority, name).0 =~= records.insert(
        record,
        records[record].with_name(name),
    ));
    assert(clear_name_step(records, record, authority).0 =~= records.insert(
        record,
        records[record].with_name(zero_name()),
    ));
}

/// `set_name` and `clear_name` by anybody but the owner of the record fail
/// with the ownership violation and change nothing.
pub proof fn stranger_is_refused(
    records: Map<Key, UserData>,
    record: Key,
    authority: Key,
    name: [u8; 64],
)
    requires
        records.dom().contains(record),
        records[record].owner != authority,
    ensures
        set_name_step(records, record, authority, name).1 == Err::<(), StoreError>(
            StoreError::Rejected(CustomError::NotOwner),
        ),
        set_name_step(records, record, authority, name).0 == records,
        clear_name_step(records, record, authority).1 == Err::<(), StoreError>(
            StoreError::Rejected(CustomError::NotOwner),
        ),
        clear_name_step(records, record, authority).0 == records,
{
}

/// A record cannot be taken over. Should the derivation give a second signer
/// the address at which somebody else's record stands, that signer can
/// neither create a record there nor change the one that stands there.
pub proof fn record_cannot_be_taken_over(
    records: Map<Key, UserData>,
    address: Key,
    intruder: Key,
    name: [u8; 64],
)
    requires
        records.dom().contains(address),
        records[address].owner != intruder,
        record_address_of(intruder) == Some(address),
    ensures
        init_user_step(records, intruder).0 == records,
        init_user_step(records, intruder).1 == Err::<Key, StoreError>(StoreError::AlreadyInUse),
        set_name_step(records, address, intruder, name).0 == records,
        set_name_step(records, address, intruder, name).1 is Err,
        clear_name_step(records, address, intruder).0 == records,
        clear_name_step(records, address, intruder).1 is Err,
{
}

/// `clear_name` requested twice in succession leaves the same records, and
/// gets the same answer, as requested once.
pub proof fn clear_name_twice_is_once(records: Map<Key, UserData>, record: Key, authority: Key)
    ensures
        clear_name_step(clear_name_step(records, record, authority).0, record, authority).0
            == clear_name_step(records, record, authority).0,
        clear_name_step(clear_name_step(records, record, authority).0, record, authority).1
            == clear_name_step(records, record, authority).1,
{
}

/// No request destroys a record or changes its owner: every address that
/// held a record before a request holds one after it, under the same owner.
pub proof fn records_are_kept(
    records: Map<Key, UserData>,
    address: Key,
    record: Key,
    authority: Key,
    name: [u8; 64],
)
    requires
        records.dom().contains(address),
    ensures
        init_user_step(records, authority).0.dom().contains(address),
        init_user_step(records, authority).0[address] == records[address],
        set_name_step(records, record, authority, name).0.dom().contains(address),
        set_name_step(records, record, authority, name).0[address].owner
            == records[address].owner,
        clear_name_step(records, record, authority).0.dom().contains(address),
        clear_name_step(records, record, authority).0[address].owner == records[address].owner,
{
}

/// Requests keep every record at the address derived from its owner's key.
pub proof fn requests_keep_derived_addresses(
    records: Map<Key, UserData>,
    record: Key,
    authority: Key,
    name: [u8; 64],
)
    requires
        at_derived_addresses(records),
    ensures
        at_derived_addresses(init_user_step(records, authority).0),
        at_derived_addresses(set_name_step(records, record, authority, name).0),
        at_derived_addresses(clear_name_step(records, record, authority).0),
{
    let created = init_user_step(records, authority).0;
    assert forall|address: Key| #[trigger]
        created.dom().contains(address) implies record_address_of(created[address].owner)
        == Some(address) by {
        if !records.dom().contains(address) {
            assert(created[address] == UserData::created(authority));
        }
    }
}

/// Where every record stands at the address derived from its owner's key,
/// an owner has one record at most, and a request that is admitted was made
/// on the signer's own record, the one at the address derived from the
/// signer's key.
pub proof fn one_record_per_owner(
    records: Map<Key, UserData>,
    first: Key,
    second: Key,
    authority: Key,
    name: [u8; 64],
)
    requires
        at_derived_addresses(records),
    ensures
        records.dom().contains(first) && records.dom().contains(second) && records[first].owner
            == records[second].owner ==> first == second,
        set_name_step(records, first, authority, name).1 is Ok ==> record_address_of(authority)
            == Some(first),
        clear_name_step(records, first, authority).1 is Ok ==> record_address_of(authority)
            == Some(first),
{
}

} // verus!
