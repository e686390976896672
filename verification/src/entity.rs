//! Plain records standing for the rows the handlers read and write.
//!
//! The database itself is reached through an ORM in the surrounding binary;
//! the verified logic only ever sees these values.

use vstd::prelude::*;

verus! {

/// A user row, as the authentication flow reads it.
///
/// A row that was not found is represented by `id == 0`, matching the
/// store's behaviour of handing back a defaulted record.
#[derive(Clone)]
pub struct UserRecord {
    pub id: u32,
    pub name: String,
    /// Hex digest of the account password, if one is set.
    pub password: Option<String>,
    /// Non-zero when the account is active.
    pub status: Option<i32>,
}

/// A guestbook row, as the admin screens list and edit it.
#[derive(Clone)]
pub struct GuestbookRecord {
    pub id: u32,
    pub name: String,
    pub message: String,
    pub phone: String,
    pub email: String,
    pub qq: String,
    pub weixin: String,
    pub status: Option<i32>,
}

/// An upload row, keyed by the checksum used for de-duplication.
#[derive(Clone)]
pub struct AttachRecord {
    pub id: u32,
    pub name: String,
    pub path: String,
    pub ext: String,
    pub size: u64,
    pub md5: String,
    pub status: i32,
}

/// A defaulted value, as the entity layer hands out for absent rows.
pub fn default<T: Default>() -> T {
    Default::default()
}

} // verus!
