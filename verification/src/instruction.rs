//! The three operations on a record, and the guard that protects it.
//!
//! An operation runs as one state transition on the accounts that the
//! hosting runtime resolved for it: the record and the signer. The runtime
//! has verified the signer's signature; the operations trust it and decide
//! only whether this signer may change this record.

use vstd::prelude::*;
use crate::address::{keys_equal, Key};
use crate::error::CustomError;
use crate::record::{zero_name, UserData};

verus! {

/// The accounts of `init_user`.
#[derive(Clone, Copy, Debug, PartialEq, Eq)]
pub struct InitUser {
    /// The storage slot that the runtime allocated for the new record.
    pub user_data: UserData,
    /// The signer, who pays for the slot and becomes the owner.
    pub authority: Key,
}

/// The accounts of `set_name` and `clear_name`.
#[derive(Clone, Copy, Debug, PartialEq, Eq)]
pub struct UpdateName {
    /// The record to change.
    pub user_data: UserData,
    /// The signer of the request.
    pub authority: Key,
}

impl InitUser {
    /// Number of bytes to allocate for a new record: the 8 bytes by which the
    /// runtime tags the type of an account, then the record itself.
    pub const SPACE: usize = 8 + UserData::SIZE;

    /// The accounts after `init_user`: the record belongs to the signer and
    /// its name is empty, whatever the slot held before.
    pub open spec fn after_init_user(self) -> InitUser {
        InitUser { user_data: UserData::created(self.authority), authority: self.authority }
    }
}

impl UpdateName {
    /// The guard: the signer is the owner registered in the record.
    pub open spec fn authorized(self) -> bool {
        self.user_data.owner == self.authority
    }

    /// What `set_name` and `clear_name` return: success for the owner, the
    /// ownership violation for everybody else.
    pub open spec fn guard(self) -> Result<(), CustomError> {
        if self.authorized() {
            Ok(())
        } else {
            Err(CustomError::NotOwner)
        }
    }

    /// The accounts after `set_name`: for the owner the record holds `name`
    /// verbatim, for everybody else nothing has changed.
    pub open spec fn after_set_name(self, name: [u8; 64]) -> UpdateName {
        if self.authorized() {
            UpdateName { user_data: self.user_data.with_name(name), authority: self.authority }
        } else {
            self
        }
    }

    /// The accounts after `clear_name`: for the owner the name is empty, for
    /// everybody else nothing has changed.
    pub open spec fn after_clear_name(self) -> UpdateName {
        if self.authorized() {
            UpdateName {
                user_data: UserData::created(self.user_data.owner),
                authority: self.authority,
            }
        } else {
            self
        }
    }
}

/// Creates the record of the signer in the slot allocated for it: the signer
/// becomes the owner and the name is empty. Never fails.
pub fn init_user(ctx: &mut InitUser) -> (result: Result<(), CustomError>)
    ensures
        result is Ok,
        *final(ctx) == old(ctx).after_init_user(),
        final(ctx).user_data.owner == old(ctx).authority,
        final(ctx).user_data.name == zero_name(),
{
    ctx.user_data.owner = ctx.authority;
    ctx.user_data.name = [0u8; 64];
    Ok(())
}

/// Overwrites the name of the record with the 64 bytes of `name`, if the
/// signer is the record's owner. For any other signer it fails with
/// [`CustomError::NotOwner`] and leaves the accounts as they were.
pub fn set_name(ctx: &mut UpdateName, name: [u8; 64]) -> (result: Result<(), CustomError>)
    ensures
        result == old(ctx).guard(),
        *final(ctx) == old(ctx).after_set_name(name),
        old(ctx).authorized() ==> result is Ok && final(ctx).user_data.name == name,
        !old(ctx).authorized() ==> result is Err && *final(ctx) == *old(ctx),
        result matches Err(refused) ==> refused == CustomError::NotOwner,
        final(ctx).user_data.owner == old(ctx).user_data.owner,
{
    if !keys_equal(&ctx.user_data.owner, &ctx.authority) {
        return Err(CustomError::NotOwner);
    }
    ctx.user_data.name = name;
    Ok(())
}

/// Empties the name of the record, if the signer is the record's owner. For
/// any other signer it fails with [`CustomError::NotOwner`] and leaves the
/// accounts as they were.
pub fn clear_name(ctx: &mut UpdateName) -> (result: Result<(), CustomError>)
    ensures
        result == old(ctx).guard(),
        *final(ctx) == old(ctx).after_clear_name(),
        old(ctx).authorized() ==> result is Ok && final(ctx).user_data.name == zero_name(),
        !old(ctx).authorized() ==> result is Err && *final(ctx) == *old(ctx),
        result matches Err(refused) ==> refused == CustomError::NotOwner,
        final(ctx).user_data.owner == old(ctx).user_data.owner,
{
    if !keys_equal(&ctx.user_data.owner, &ctx.authority) {
        return Err(CustomError::NotOwner);
    }
    ctx.user_data.name = [0u8; 64];
    Ok(())
}

/// The space allocated for a new record holds the runtime's 8-byte tag and
/// the layout of the record, with no byte to spare.
pub proof fn space_holds_tag_and_record(record: UserData)
    ensures
        InitUser::SPACE == 8 + record.layout().len(),
{
}

/// Clearing a name is setting it to 64 zero bytes: both leave the same
/// accounts, for the owner and for everybody else.
pub proof fn clear_name_is_set_name_of_zeros(ctx: UpdateName)
    ensures
        ctx.after_clear_name() == ctx.after_set_name(zero_name()),
{
}

/// Clearing twice in succession leaves the same accounts as clearing once,
/// and the second call returns what the first returned.
pub proof fn clear_name_is_idempotent(ctx: UpdateName)
    ensures
        ctx.after_clear_name().after_clear_name() == ctx.after_clear_name(),
        ctx.after_clear_name().guard() == ctx.guard(),
{
}

/// The owner of a record is immutable: neither operation changes it, for any
/// signer, and neither changes the signer.
pub proof fn owner_is_immutable(ctx: UpdateName, name: [u8; 64])
    ensures
        ctx.after_set_name(name).user_data.owner == ctx.user_data.owner,
        ctx.after_clear_name().user_data.owner == ctx.user_data.owner,
        ctx.after_set_name(name).authority == ctx.authority,
        ctx.after_clear_name().authority == ctx.authority,
{
}

} // verus!
