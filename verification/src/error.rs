//! The failures that the operations report.

use vstd::prelude::*;

verus! {

/// The failure that the operations on a record raise themselves.
#[derive(Clone, Copy, Debug, PartialEq, Eq)]
pub enum CustomError {
    /// The signer of the request is not the owner registered in the record.
    NotOwner,
}

impl CustomError {
    /// The text shown to the caller.
    pub fn message(&self) -> (text: &'static str)
        ensures
            text@ == "Only the owner can modify this account."@,
    {
        match self {
            CustomError::NotOwner => "Only the owner can modify this account.",
        }
    }
}

/// The failures of a request carried out on a [`crate::store::RecordStore`].
#[derive(Clone, Copy, Debug, PartialEq, Eq)]
pub enum StoreError {
    /// No storage address can be derived for the signer.
    NoAddress,
    /// Allocation was refused: the target address already holds a record.
    AlreadyInUse,
    /// The address named by the request holds no record.
    NotInitialized,
    /// The operation ran and refused the request; nothing was written.
    Rejected(CustomError),
}

} // verus!
