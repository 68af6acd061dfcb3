//! The notifications a successful operation hands back to its caller, for an
//! off-system sink (indexer, UI) to record.

use vstd::prelude::*;
use crate::addr::Address;

verus! {

/// Emitted when a profile is created.
#[derive(Debug, PartialEq, Eq)]
pub struct CreateProfileEvent {
    pub profile_key: Address,
    pub profile_name: Vec<u8>,
    pub bio: Vec<u8>,
    pub gender: Vec<u8>,
    pub looking_for: Vec<u8>,
    pub created_at: i64,
}

/// Emitted when a profile's bio is replaced.
#[derive(Debug, PartialEq, Eq)]
pub struct UpdateProfileEvent {
    pub profile_key: Address,
    pub profile_name: Vec<u8>,
    pub bio: Vec<u8>,
    pub updated_at: i64,
}

/// Emitted when a profile is deleted.
#[derive(Debug, PartialEq, Eq)]
pub struct DeleteProfileEvent {
    pub profile_key: Address,
    pub profile_name: Vec<u8>,
    pub deleted_at: i64,
}

/// Emitted when a profile's paused flag is set.
#[derive(Debug, PartialEq, Eq)]
pub struct PauseProfileEvent {
    pub profile_key: Address,
    pub profile_name: Vec<u8>,
    pub paused: bool,
    pub updated_at: i64,
}

/// Emitted when a contribution is recorded.
#[derive(Debug, PartialEq, Eq)]
pub struct MakeLikeEvent {
    pub liker_key: Address,
    pub profile_key: Address,
    pub profile_name: Vec<u8>,
    pub amount: u64,
    pub created_at: i64,
}

/// Emitted when likes are withdrawn from a vault.
#[derive(Debug, PartialEq, Eq)]
pub struct WithdrawLikesSolEvent {
    pub profile_key: Address,
    pub profile_name: Vec<u8>,
    pub likes_in_lamports: u64,
    pub like_count: u64,
    pub withdrawn_at: i64,
}

} // verus!
