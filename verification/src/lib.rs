//! A minimal on-chain name registry.
//!
//! Every principal controls exactly one fixed-size record. The record lives at
//! a storage address derived from the principal's public key, holds that key
//! as its owner together with a 64-byte name, and can be changed by its owner
//! only.
//!
//! * [`record`]: the record and its 96-byte persisted layout.
//! * [`address`]: the program's identity and the derivation of a record's
//!   storage address from its owner.
//! * [`instruction`]: the three operations (`init_user`, `set_name`,
//!   `clear_name`) and the ownership guard, on the accounts that the hosting
//!   runtime hands to one state transition.
//! * [`store`]: a model of the ledger that holds the records, on which whole
//!   sequences of requests are carried out.
//! * [`error`]: the failures that the operations report.
//!
//! All executable code is verified with Verus against the contracts written
//! next to it. The one exception is the call into the runtime's address
//! derivation, whose contract is trusted; see [`address`].

pub mod address;
pub mod error;
pub mod instruction;
pub mod record;
pub mod store;

pub use address::{keys_equal, user_address, Key, ID, USER_SEED};
pub use error::{CustomError, StoreError};
pub use instruction::{clear_name, init_user, set_name, InitUser, UpdateName};
pub use record::{UserData, MAX_NAME_LEN};
pub use store::RecordStore;
