//! The two record kinds the service persists: the mutable [`Profile`] and
//! the immutable [`Like`]. Descriptive fields are byte strings with
//! per-field maximum lengths, enforced in bytes.

use vstd::prelude::*;
use crate::addr::Address;

verus! {

/// Maximum length of a profile name, in bytes.
pub const PROFILE_NAME_MAX_LEN: usize = 32;

/// Maximum length of a bio, in bytes.
pub const BIO_MAX_LEN: usize = 280;

/// Maximum length of a gender tag, in bytes.
pub const GENDER_MAX_LEN: usize = 16;

/// Maximum length of a looking-for tag, in bytes.
pub const LOOKING_FOR_MAX_LEN: usize = 16;

/// Maximum length of an avatar URI, in bytes.
pub const AVATAR_URI_MAX_LEN: usize = 200;

/// A user-authored profile record, one per (owner, profile name) pair. Its
/// paired vault holds contributed funds; the profile itself carries only
/// descriptive data and running totals.
pub struct Profile {
    /// The identity controlling the profile; immutable after creation.
    pub authority: Address,
    /// The profile's name; part of its address, immutable after creation.
    pub profile_name: Vec<u8>,
    /// Free-form self-description.
    pub bio: Vec<u8>,
    /// Gender tag.
    pub gender: Vec<u8>,
    /// Match preference tag.
    pub looking_for: Vec<u8>,
    /// Link to an avatar image.
    pub avatar_uri: Vec<u8>,
    /// Number of likes received; grows by one per contribution.
    pub like_count: u64,
    /// Running total of lamports received, less withdrawals.
    pub likes_in_lamports: u64,
    /// When the profile was created.
    pub created_at: i64,
    /// When the profile was last updated.
    pub updated_at: i64,
    /// Whether new contributions are rejected.
    pub paused: bool,
    /// When the profile was deleted, if ever.
    pub deleted_at: Option<i64>,
    /// When likes were last withdrawn, if ever.
    pub withdrawn_at: Option<i64>,
    /// The derivation salt of the paired vault.
    pub vault_bump: u8,
}

impl Profile {
    /// Every descriptive field is within its maximum length.
    pub open spec fn wf(self) -> bool {
        &&& self.profile_name@.len() <= PROFILE_NAME_MAX_LEN
        &&& self.bio@.len() <= BIO_MAX_LEN
        &&& self.gender@.len() <= GENDER_MAX_LEN
        &&& self.looking_for@.len() <= LOOKING_FOR_MAX_LEN
        &&& self.avatar_uri@.len() <= AVATAR_URI_MAX_LEN
    }
}

/// An immutable contribution record, one per like given. Never mutated or
/// deleted after creation; its address is seeded by the contributor, the
/// profile and the profile's like count at creation time, so repeated
/// contributions never collide.
pub struct Like {
    /// The identity that sent the like.
    pub liker_key: Address,
    /// The profile that received it.
    pub profile_key: Address,
    /// The profile's name at creation time.
    pub profile_name: Vec<u8>,
    /// The contributed amount, in lamports.
    pub likes_in_lamports: u64,
    /// When the contribution was made.
    pub created_at: i64,
}

/// A copy of a byte string.
pub fn bytes_clone(v: &Vec<u8>) -> (r: Vec<u8>)
    ensures
        r@ == v@,
{
    let mut r: Vec<u8> = Vec::new();
    let mut i: usize = 0;
    while i < v.len()
        invariant
            i <= v@.len(),
            r@ == v@.subrange(0, i as int),
        decreases v@.len() - i,
    {
        r.push(v[i]);
        proof {
            assert(r@ =~= v@.subrange(0, i as int + 1));
        }
        i = i + 1;
    }
    proof {
        assert(r@ =~= v@);
    }
    r
}

/// Whether two byte strings hold the same bytes.
pub fn bytes_eq(a: &Vec<u8>, b: &Vec<u8>) -> (r: bool)
    ensures
        r <==> a@ == b@,
{
    if a.len() != b.len() {
        return false;
    }
    let mut i: usize = 0;
    while i < a.len()
        invariant
            a@.len() == b@.len(),
            i <= a@.len(),
            forall|j: int| 0 <= j < i ==> a@[j] == b@[j],
        decreases a@.len() - i,
    {
        if a[i] != b[i] {
            return false;
        }
        i = i + 1;
    }
    proof {
        assert(a@ =~= b@);
    }
    true
}

} // verus!
