//! The record and its persisted layout.

use vstd::prelude::*;
use crate::address::Key;

verus! {

/// Width of the name field in bytes.
pub const MAX_NAME_LEN: usize = 64;

/// The name of a record that holds no content: 64 zero bytes.
pub open spec fn zero_name() -> [u8; 64] {
    vstd::array::spec_array_fill_for_copy_type::<u8, 64>(0u8)
}

/// The sole entity of the registry.
#[derive(Clone, Copy, Debug, PartialEq, Eq)]
pub struct UserData {
    /// The principal permitted to change the record; written once, at
    /// creation.
    pub owner: Key,
    /// The payload. Shorter content is padded with zero bytes by the caller.
    pub name: [u8; 64],
}

impl UserData {
    /// Number of bytes that a record occupies in storage.
    pub const SIZE: usize = 32 + 64;

    /// The record that initialization writes for `owner`.
    pub open spec fn created(owner: Key) -> UserData {
        UserData { owner, name: zero_name() }
    }

    /// The same record with another name.
    pub open spec fn with_name(self, name: [u8; 64]) -> UserData {
        UserData { owner: self.owner, name }
    }

    /// The bytes of the record in storage: the owner, then the name.
    pub open spec fn layout(self) -> Seq<u8> {
        self.owner@ + self.name@
    }

    /// The record of `owner` with an empty name.
    pub fn new(owner: Key) -> (record: UserData)
        ensures
            record == UserData::created(owner),
    {
        UserData { owner, name: [0u8; 64] }
    }

    /// Writes the record out in its persisted layout.
    pub fn to_bytes(&self) -> (bytes: [u8; 96])
        ensures
            bytes@ == self.layout(),
    {
        let mut bytes = [0u8; 96];
        let mut i: usize = 0;
        while i < 32
            invariant
                i <= 32,
                forall|j: int| 0 <= j < i ==> bytes[j] == self.owner[j],
            decreases 32 - i,
        {
            bytes[i] = self.owner[i];
            i += 1;
        }
        let mut k: usize = 0;
        while k < 64
            invariant
                k <= 64,
                forall|j: int| 0 <= j < 32 ==> bytes[j] == self.owner[j],
                forall|j: int| 0 <= j < k ==> bytes[32 + j] == self.name[j],
            decreases 64 - k,
        {
            bytes[32 + k] = self.name[k];
            k += 1;
        }
        bytes
    }

    /// Reads a record from its persisted layout: the owner from the first
    /// 32 bytes, the name from the 64 bytes that follow. The input must be
    /// exactly [`UserData::SIZE`] bytes long; any other length is refused.
    pub fn from_bytes(bytes: &[u8]) -> (record: Option<UserData>)
        ensures
            record is Some <==> bytes@.len() == UserData::SIZE,
            record matches Some(r) ==> r.layout() == bytes@,
            record matches Some(r) ==> r.owner@ == bytes@.subrange(0, 32),
            record matches Some(r) ==> r.name@ == bytes@.subrange(32, 96),
    {
        if bytes.len() != UserData::SIZE {
            return None;
        }
        let mut owner = [0u8; 32];
        let mut i: usize = 0;
        while i < 32
            invariant
                i <= 32,
                bytes@.len() == 96,
                forall|j: int| 0 <= j < i ==> owner[j] == bytes@[j],
            decreases 32 - i,
        {
            owner[i] = bytes[i];
            i += 1;
        }
        let mut name = [0u8; 64];
        let mut k: usize = 0;
        while k < 64
            invariant
                k <= 64,
                bytes@.len() == 96,
                forall|j: int| 0 <= j < k ==> name[j] == bytes@[32 + j],
            decreases 64 - k,
        {
            name[k] = bytes[32 + k];
            k += 1;
        }
        Some(UserData { owner, name })
    }
}

/// The empty name is the one array of 64 zero bytes.
pub proof fn zero_name_is_all_zero(name: [u8; 64])
    ensures
        name == zero_name() <==> (forall|i: int| 0 <= i < 64 ==> name[i] == 0),
{
    if forall|i: int| 0 <= i < 64 ==> name[i] == 0 {
        assert(name =~= zero_name());
    }
}

/// Every record occupies exactly [`UserData::SIZE`] bytes: the width of an
/// owner plus [`MAX_NAME_LEN`].
pub proof fn layout_has_fixed_size(record: UserData)
    ensures
        record.layout().len() == UserData::SIZE,
        UserData::SIZE == 32 + MAX_NAME_LEN,
        record.name@.len() == MAX_NAME_LEN,
{
}

/// The layout loses nothing: records with the same bytes are the same
/// record.
pub proof fn layout_is_injective(a: UserData, b: UserData)
    requires
        a.layout() == b.layout(),
    ensures
        a == b,
{
    assert forall|i: int| 0 <= i < 32 implies a.owner[i] == b.owner[i] by {
        assert(a.layout()[i] == a.owner[i] && b.layout()[i] == b.owner[i]);
    }
    assert forall|i: int| 0 <= i < 64 implies a.name[i] == b.name[i] by {
        assert(a.layout()[32 + i] == a.name[i] && b.layout()[32 + i] == b.name[i]);
    }
    assert(a.owner =~= b.owner);
    assert(a.name =~= b.name);
}

} // verus!
