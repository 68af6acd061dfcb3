//! The service itself: a keyed store of profiles and like records, the
//! custody ledger, and the six operations callers invoke. Every operation
//! validates its caller-supplied references against re-derived addresses,
//! checks every precondition before mutating anything, and either commits
//! fully or returns a typed error with the state exactly as it was.

use vstd::prelude::*;
use crate::addr::{Address, derive_like_key, derive_profile_key, derive_vault_key, like_key_of,
    profile_key_of, vault_key_of};
use crate::errors::CustomError;
use crate::events::{CreateProfileEvent, DeleteProfileEvent, MakeLikeEvent, PauseProfileEvent,
    UpdateProfileEvent, WithdrawLikesSolEvent};
use crate::ledger::Ledger;
use crate::state::{AVATAR_URI_MAX_LEN, BIO_MAX_LEN, GENDER_MAX_LEN, LOOKING_FOR_MAX_LEN, Like,
    PROFILE_NAME_MAX_LEN, Profile, bytes_clone, bytes_eq};
use crate::store::KeyMap;

verus! {

/// References for creating a profile: the signing owner.
#[derive(Clone, Copy, Debug, PartialEq, Eq, Structural)]
pub struct CreateProfile {
    /// The signing identity that will own the new profile.
    pub authority: Address,
}

/// References for updating a profile's bio.
#[derive(Clone, Copy, Debug, PartialEq, Eq, Structural)]
pub struct UpdateProfile {
    /// The signing identity claiming ownership.
    pub authority: Address,
    /// The profile record to update.
    pub profile: Address,
}

/// References for pausing or resuming a profile.
#[derive(Clone, Copy, Debug, PartialEq, Eq, Structural)]
pub struct PauseProfile {
    /// The signing identity claiming ownership.
    pub authority: Address,
    /// The profile record to pause or resume.
    pub profile: Address,
}

/// References for deleting a profile and sweeping its vault.
#[derive(Clone, Copy, Debug, PartialEq, Eq, Structural)]
pub struct DeleteProfile {
    /// The signing identity claiming ownership.
    pub authority: Address,
    /// The profile record to delete.
    pub profile: Address,
    /// The paired vault, to be verified against the re-derived address.
    pub vault: Address,
    /// Where swept funds go, if this reference already holds a balance.
    pub recipient: Address,
}

/// References for contributing a like.
#[derive(Clone, Copy, Debug, PartialEq, Eq, Structural)]
pub struct GiveLike {
    /// The signing contributor, whose balance funds the like.
    pub liker: Address,
    /// The profile receiving the contribution.
    pub profile: Address,
    /// The paired vault, to be verified against the re-derived address.
    pub vault: Address,
}

/// References for withdrawing contributed funds.
#[derive(Clone, Copy, Debug, PartialEq, Eq, Structural)]
pub struct WithdrawLikes {
    /// The signing identity claiming ownership.
    pub authority: Address,
    /// The profile whose vault is drawn from.
    pub profile: Address,
    /// The paired vault, to be verified against the re-derived address.
    pub vault: Address,
    /// Where the withdrawn funds go.
    pub recipient: Address,
}

/// The record-and-escrow service: profile and like records addressed by
/// derived keys, and the lamport ledger holding every tracked balance.
pub struct Registry {
    /// The service's own address, under which sub-records are derived.
    pub program: Address,
    /// Profile records, keyed by derived profile address.
    pub profiles: KeyMap<Profile>,
    /// Like records, keyed by derived like address.
    pub likes: KeyMap<Like>,
    /// Lamport balances: vaults and externally owned wallets alike.
    pub ledger: Ledger,
}

impl Registry {
    /// The profile stored at `k`, if any.
    pub open spec fn profile_of(self, k: Address) -> Option<Profile> {
        self.profiles.spec_get(k)
    }

    /// The like record stored at `k`, if any.
    pub open spec fn like_of(self, k: Address) -> Option<Like> {
        self.likes.spec_get(k)
    }

    /// The balance held at `k`: zero when no ledger entry exists.
    pub open spec fn bal(self, k: Address) -> u64 {
        self.ledger.bal(k)
    }

    /// Whether a ledger entry exists for `k`.
    pub open spec fn has_account(self, k: Address) -> bool {
        self.ledger.has_account(k)
    }

    /// The sum of every balance the ledger tracks.
    pub open spec fn total(self) -> int {
        self.ledger.total()
    }

    /// Stores and ledger have distinct keys, and every stored profile keeps
    /// its field-length bounds.
    pub open spec fn wf(self) -> bool {
        &&& self.profiles.wf()
        &&& self.likes.wf()
        &&& self.ledger.wf()
        &&& forall|k: Address|
            (#[trigger] self.profile_of(k)) is Some ==> self.profile_of(k).unwrap().wf()
    }

    /// An empty service for the program at `program`: no records, no
    /// balances.
    pub fn new(program: Address) -> (r: Registry)
        ensures
            r.wf(),
            r.program == program,
            forall|k: Address| r.profile_of(k) is None,
            forall|k: Address| r.like_of(k) is None,
            forall|k: Address| !r.has_account(k) && r.bal(k) == 0,
            r.total() == 0,
    {
        Registry {
            program,
            profiles: KeyMap::new(),
            likes: KeyMap::new(),
            ledger: Ledger::new(),
        }
    }

    /// Funds `wallet` with `amount` lamports from outside the tracked set:
    /// the boundary through which externally owned balances enter the
    /// system. The total grows by exactly the funded amount.
    pub fn airdrop(&mut self, wallet: Address, amount: u64) -> (r: Result<(), CustomError>)
        requires
            old(self).wf(),
        ensures
            final(self).wf(),
            final(self).program == old(self).program,
            r == if old(self).bal(wallet) as int + amount > u64::MAX {
                Err::<(), CustomError>(CustomError::Overflow)
            } else {
                Ok(())
            },
            r is Err ==> *final(self) == *old(self),
            r is Ok ==> final(self).bal(wallet) == old(self).bal(wallet) + amount && forall|
                q: Address,
            |
                q != wallet ==> final(self).bal(q) == old(self).bal(q) && final(self).has_account(
                    q,
                ) == old(self).has_account(q),
            r is Ok ==> final(self).total() == old(self).total() + amount,
            r is Ok ==> final(self).profiles@ == old(self).profiles@ && final(self).likes@ == old(self).likes@,
    {
        let b = self.ledger.balance(&wallet);
        if amount > u64::MAX - b {
            return Err(CustomError::Overflow);
        }
        self.ledger.credit(&wallet, amount);
        proof {
            assert forall|k: Address| (#[trigger] self.profile_of(k)) is Some implies self.profile_of(
                k,
            ).unwrap().wf() by {
                assert(self.profile_of(k) == old(self).profile_of(k));
            }
        }
        Ok(())
    }

    /// Sets the paused flag of an owned profile and stamps the update time.
    /// No length or state precondition: the owner may set the flag to either
    /// value at any time.
    pub fn pause_profile(&mut self, ctx: PauseProfile, paused: bool, now: i64) -> (r: Result<
        PauseProfileEvent,
        CustomError,
    >)
        requires
            old(self).wf(),
        ensures
            final(self).wf(),
            final(self).program == old(self).program,
            final(self).total() == old(self).total(),
            match r {
                Err(e) => old(self).pause_profile_err(ctx) == Some(e) && *final(self) == *old(self),
                Ok(ev) => {
                    let p = old(self).profile_of(ctx.profile).unwrap();
                    &&& old(self).pause_profile_err(ctx) is None
                    &&& final(self).profile_of(ctx.profile) == Some(
                        Profile { paused, updated_at: now, ..p },
                    )
                    &&& forall|q: Address|
                        q != ctx.profile ==> final(self).profile_of(q) == old(self).profile_of(q)
                    &&& final(self).likes@ == old(self).likes@
                    &&& final(self).ledger@ == old(self).ledger@
                    &&& ev.profile_key == ctx.profile
                    &&& ev.profile_name@ == p.profile_name@
                    &&& ev.paused == paused
                    &&& ev.updated_at == now
                },
            },
    {
        let program = self.program;
        let ok = match self.profiles.get(&ctx.profile) {
            None => false,
            Some(p) => p.authority == ctx.authority && {
                match derive_profile_key(&program, &ctx.authority, &p.profile_name) {
                    Some(k) => k.0 == ctx.profile,
                    None => false,
                }
            },
        };
        if !ok {
            return Err(CustomError::Unauthorized);
        }
        let mut p = match self.profiles.remove(&ctx.profile) {
            Some(p) => p,
            None => {
                return Err(CustomError::Unauthorized);
            },
        };
        p.paused = paused;
        p.updated_at = now;
        let ev = PauseProfileEvent {
            profile_key: ctx.profile,
            profile_name: bytes_clone(&p.profile_name),
            paused,
            updated_at: now,
        };
        self.profiles.insert(ctx.profile, p);
        proof {
            assert forall|k: Address| (#[trigger] self.profile_of(k)) is Some implies self.profile_of(
                k,
            ).unwrap().wf() by {
                if k != ctx.profile {
                    assert(self.profile_of(k) == old(self).profile_of(k));
                }
            }
        }
        Ok(ev)
    }

    /// Replaces the bio of an owned profile and stamps the update time. A
    /// bio equal to the current one is rejected as [`CustomError::InvalidBio`]
    /// rather than accepted idempotently, before the new bio's length is even
    /// checked: this mirrors the service's external behaviour exactly.
    pub fn update_profile_bio(&mut self, ctx: UpdateProfile, bio: Vec<u8>, now: i64) -> (r: Result<
        UpdateProfileEvent,
        CustomError,
    >)
        requires
            old(self).wf(),
        ensures
            final(self).wf(),
            final(self).program == old(self).program,
            final(self).total() == old(self).total(),
            match r {
                Err(e) => old(self).update_profile_bio_err(ctx, bio@) == Some(e) && *final(self)
                    == *old(self),
                Ok(ev) => {
                    let p = old(self).profile_of(ctx.profile).unwrap();
                    &&& old(self).update_profile_bio_err(ctx, bio@) is None
                    &&& final(self).profile_of(ctx.profile) == Some(
                        Profile { bio: bio, updated_at: now, ..p },
                    )
                    &&& forall|q: Address|
                        q != ctx.profile ==> final(self).profile_of(q) == old(self).profile_of(q)
                    &&& final(self).likes@ == old(self).likes@
                    &&& final(self).ledger@ == old(self).ledger@
                    &&& ev.profile_key == ctx.profile
                    &&& ev.profile_name@ == p.profile_name@
                    &&& ev.bio@ == bio@
                    &&& ev.updated_at == now
                },
            },
    {
        let program = self.program;
        let err = match self.profiles.get(&ctx.profile) {
            None => Some(CustomError::Unauthorized),
            Some(p) => {
                let derived_ok = p.authority == ctx.authority && {
                    match derive_profile_key(&program, &ctx.authority, &p.profile_name) {
                        Some(k) => k.0 == ctx.profile,
                        None => false,
                    }
                };
                if !derived_ok {
                    Some(CustomError::Unauthorized)
                } else if bytes_eq(&bio, &p.bio) {
                    Some(CustomError::InvalidBio)
                } else if bio.len() > BIO_MAX_LEN {
                    Some(CustomError::InvalidBioLength)
                } else {
                    None
                }
            },
        };
        match err {
            Some(e) => {
                return Err(e);
            },
            None => {},
        }
        let mut p = match self.profiles.remove(&ctx.profile) {
            Some(p) => p,
            None => {
                return Err(CustomError::Unauthorized);
            },
        };
        p.bio = bio;
        p.updated_at = now;
        let ev = UpdateProfileEvent {
            profile_key: ctx.profile,
            profile_name: bytes_clone(&p.profile_name),
            bio: bytes_clone(&p.bio),
            updated_at: now,
        };
        self.profiles.insert(ctx.profile, p);
        proof {
            assert forall|k: Address| (#[trigger] self.profile_of(k)) is Some implies self.profile_of(
                k,
            ).unwrap().wf() by {
                if k != ctx.profile {
                    assert(self.profile_of(k) == old(self).profile_of(k));
                }
            }
        }
        Ok(ev)
    }

    /// The failure, if any, of replacing a bio through `ctx`: the profile
    /// must exist, be owned by the signer, sit at the re-derived address,
    /// and the new bio must differ from the current one and fit its bound.
    pub open spec fn update_profile_bio_err(self, ctx: UpdateProfile, bio: Seq<u8>) -> Option<
        CustomError,
    > {
        match self.profile_of(ctx.profile) {
            None => Some(CustomError::Unauthorized),
            Some(p) => {
                if p.authority != ctx.authority {
                    Some(CustomError::Unauthorized)
                } else if !(profile_key_of(self.program, ctx.authority, p.profile_name@) matches
                Some(k) && k.0 == ctx.profile) {
                    Some(CustomError::Unauthorized)
                } else if bio == p.bio@ {
                    Some(CustomError::InvalidBio)
                } else if bio.len() > BIO_MAX_LEN {
                    Some(CustomError::InvalidBioLength)
                } else {
                    None
                }
            },
        }
    }

    /// Creates a profile owned by the signer under `profile_name`, with an
    /// empty paired vault at the re-derived vault address. Every descriptive
    /// field is length-checked first; the derived addresses must be free, or
    /// custody of the new records cannot be established and the operation
    /// fails as [`CustomError::Unauthorized`].
    pub fn create_profile(
        &mut self,
        ctx: CreateProfile,
        profile_name: Vec<u8>,
        bio: Vec<u8>,
        gender: Vec<u8>,
        looking_for: Vec<u8>,
        avatar_uri: Vec<u8>,
        now: i64,
    ) -> (r: Result<CreateProfileEvent, CustomError>)
        requires
            old(self).wf(),
        ensures
            final(self).wf(),
            final(self).program == old(self).program,
            final(self).total() == old(self).total(),
            match r {
                Err(e) => old(self).create_profile_err(
                    ctx,
                    profile_name@,
                    bio@,
                    gender@,
                    looking_for@,
                    avatar_uri@,
                ) == Some(e) && *final(self) == *old(self),
                Ok(ev) => {
                    let pk = profile_key_of(
                        old(self).program,
                        ctx.authority,
                        profile_name@,
                    ).unwrap().0;
                    let vk = vault_key_of(old(self).program, pk).unwrap();
                    &&& old(self).create_profile_err(
                        ctx,
                        profile_name@,
                        bio@,
                        gender@,
                        looking_for@,
                        avatar_uri@,
                    ) is None
                    &&& final(self).profile_of(pk) == Some(
                        Profile {
                            authority: ctx.authority,
                            profile_name: profile_name,
                            bio: bio,
                            gender: gender,
                            looking_for: looking_for,
                            avatar_uri: avatar_uri,
                            like_count: 0,
                            likes_in_lamports: 0,
                            created_at: now,
                            updated_at: now,
                            paused: false,
                            deleted_at: None,
                            withdrawn_at: None,
                            vault_bump: vk.1,
                        },
                    )
                    &&& forall|q: Address|
                        q != pk ==> final(self).profile_of(q) == old(self).profile_of(q)
                    &&& final(self).has_account(vk.0) && final(self).bal(vk.0) == 0
                    &&& forall|q: Address|
                        q != vk.0 ==> final(self).bal(q) == old(self).bal(q)
                            && final(self).has_account(q) == old(self).has_account(q)
                    &&& final(self).likes@ == old(self).likes@
                    &&& ev.profile_key == pk
                    &&& ev.profile_name@ == profile_name@
                    &&& ev.bio@ == bio@
                    &&& ev.gender@ == gender@
                    &&& ev.looking_for@ == looking_for@
                    &&& ev.created_at == now
                },
            },
    {
        if profile_name.len() > PROFILE_NAME_MAX_LEN {
            return Err(CustomError::InvalidUsernameLength);
        }
        if bio.len() > BIO_MAX_LEN {
            return Err(CustomError::InvalidBioLength);
        }
        if gender.len() > GENDER_MAX_LEN {
            return Err(CustomError::InvalidGenderLength);
        }
        if looking_for.len() > LOOKING_FOR_MAX_LEN {
            return Err(CustomError::InvalidLookingForLength);
        }
        if avatar_uri.len() > AVATAR_URI_MAX_LEN {
            return Err(CustomError::InvalidAvatarURILength);
        }
        let program = self.program;
        let pk = match derive_profile_key(&program, &ctx.authority, &profile_name) {
            Some(k) => k.0,
            None => {
                return Err(CustomError::Unauthorized);
            },
        };
        if self.profiles.contains_key(&pk) {
            return Err(CustomError::Unauthorized);
        }
        let (vk, vault_bump) = match derive_vault_key(&program, &pk) {
            Some(k) => k,
            None => {
                return Err(CustomError::Unauthorized);
            },
        };
        if self.ledger.contains_account(&vk) {
            return Err(CustomError::Unauthorized);
        }
        let ev = CreateProfileEvent {
            profile_key: pk,
            profile_name: bytes_clone(&profile_name),
            bio: bytes_clone(&bio),
            gender: bytes_clone(&gender),
            looking_for: bytes_clone(&looking_for),
            created_at: now,
        };
        let p = Profile {
            authority: ctx.authority,
            profile_name,
            bio,
            gender,
            looking_for,
            avatar_uri,
            like_count: 0,
            likes_in_lamports: 0,
            created_at: now,
            updated_at: now,
            paused: false,
            deleted_at: None,
            withdrawn_at: None,
            vault_bump,
        };
        self.profiles.insert(pk, p);
        self.ledger.open_account(vk);
        proof {
            assert forall|k: Address| (#[trigger] self.profile_of(k)) is Some implies self.profile_of(
                k,
            ).unwrap().wf() by {
                if k != pk {
                    assert(self.profile_of(k) == old(self).profile_of(k));
                }
            }
        }
        Ok(ev)
    }

    /// The failure, if any, of creating a profile through `ctx`: each
    /// descriptive field within its bound, in checking order, and both
    /// derived record addresses free to take.
    pub open spec fn create_profile_err(
        self,
        ctx: CreateProfile,
        profile_name: Seq<u8>,
        bio: Seq<u8>,
        gender: Seq<u8>,
        looking_for: Seq<u8>,
        avatar_uri: Seq<u8>,
    ) -> Option<CustomError> {
        if profile_name.len() > PROFILE_NAME_MAX_LEN {
            Some(CustomError::InvalidUsernameLength)
        } else if bio.len() > BIO_MAX_LEN {
            Some(CustomError::InvalidBioLength)
        } else if gender.len() > GENDER_MAX_LEN {
            Some(CustomError::InvalidGenderLength)
        } else if looking_for.len() > LOOKING_FOR_MAX_LEN {
            Some(CustomError::InvalidLookingForLength)
        } else if avatar_uri.len() > AVATAR_URI_MAX_LEN {
            Some(CustomError::InvalidAvatarURILength)
        } else {
            match profile_key_of(self.program, ctx.authority, profile_name) {
                None => Some(CustomError::Unauthorized),
                Some(pk) => {
                    if self.profile_of(pk.0) is Some {
                        Some(CustomError::Unauthorized)
                    } else {
                        match vault_key_of(self.program, pk.0) {
                            None => Some(CustomError::Unauthorized),
                            Some(vk) => {
                                if self.has_account(vk.0) {
                                    Some(CustomError::Unauthorized)
                                } else {
                                    None
                                }
                            },
                        }
                    }
                },
            }
        }
    }

    /// Records a contribution: moves `amount` from the contributor's balance
    /// into the profile's vault, bumps the profile's counters by checked
    /// arithmetic, and appends an immutable like record at the address
    /// seeded by the like count before the increment.
    pub fn give_like(&mut self, ctx: GiveLike, amount: u64, now: i64) -> (r: Result<
        MakeLikeEvent,
        CustomError,
    >)
        requires
            old(self).wf(),
        ensures
            final(self).wf(),
            final(self).program == old(self).program,
            final(self).total() == old(self).total(),
            match r {
                Err(e) => old(self).give_like_err(ctx, amount) == Some(e) && *final(self) == *old(self),
                Ok(ev) => {
                    let p = old(self).profile_of(ctx.profile).unwrap();
                    let lk = like_key_of(
                        old(self).program,
                        ctx.liker,
                        ctx.profile,
                        p.like_count,
                    ).unwrap().0;
                    &&& old(self).give_like_err(ctx, amount) is None
                    &&& final(self).profile_of(ctx.profile) == Some(
                        Profile {
                            like_count: (p.like_count + 1) as u64,
                            likes_in_lamports: (p.likes_in_lamports + amount) as u64,
                            ..p
                        },
                    )
                    &&& forall|q: Address|
                        q != ctx.profile ==> final(self).profile_of(q) == old(self).profile_of(q)
                    &&& final(self).like_of(lk) matches Some(l)
                    &&& l.liker_key == ctx.liker
                    &&& l.profile_key == ctx.profile
                    &&& l.profile_name@ == p.profile_name@
                    &&& l.likes_in_lamports == amount
                    &&& l.created_at == now
                    &&& forall|q: Address|
                        q != lk ==> final(self).like_of(q) == old(self).like_of(q)
                    &&& ctx.liker == ctx.vault ==> forall|q: Address|
                        final(self).bal(q) == old(self).bal(q) && final(self).has_account(q)
                            == old(self).has_account(q)
                    &&& ctx.liker != ctx.vault ==> final(self).bal(ctx.liker) == old(self).bal(
                        ctx.liker,
                    ) - amount && final(self).bal(ctx.vault) == old(self).bal(ctx.vault) + amount
                        && final(self).has_account(ctx.liker) == old(self).has_account(ctx.liker)
                        && final(self).has_account(ctx.vault) == (old(self).has_account(ctx.vault)
                        || amount > 0)
                    &&& forall|q: Address|
                        q != ctx.liker && q != ctx.vault ==> final(self).bal(q) == old(self).bal(q)
                            && final(self).has_account(q) == old(self).has_account(q)
                    &&& ev.liker_key == ctx.liker
                    &&& ev.profile_key == ctx.profile
                    &&& ev.profile_name@ == p.profile_name@
                    &&& ev.amount == amount
                    &&& ev.created_at == now
                },
            },
    {
        let program = self.program;
        let err = match self.profiles.get(&ctx.profile) {
            None => Some(CustomError::Unauthorized),
            Some(p) => {
                if p.paused {
                    Some(CustomError::ProfilePaused)
                } else {
                    let vault_ok = match derive_vault_key(&program, &ctx.profile) {
                        Some(k) => k.0 == ctx.vault,
                        None => false,
                    };
                    let like_ok = match derive_like_key(
                        &program,
                        &ctx.liker,
                        &ctx.profile,
                        p.like_count,
                    ) {
                        Some(k) => !self.likes.contains_key(&k.0),
                        None => false,
                    };
                    if !vault_ok {
                        Some(CustomError::InvalidVaultAccount)
                    } else if !like_ok {
                        Some(CustomError::Unauthorized)
                    } else if self.ledger.balance(&ctx.liker) < amount {
                        Some(CustomError::InsufficientFunds)
                    } else if ctx.liker != ctx.vault && amount > u64::MAX - self.ledger.balance(
                        &ctx.vault,
                    ) {
                        Some(CustomError::Overflow)
                    } else if p.like_count == u64::MAX {
                        Some(CustomError::Overflow)
                    } else if amount > u64::MAX - p.likes_in_lamports {
                        Some(CustomError::Overflow)
                    } else {
                        None
                    }
                }
            },
        };
        match err {
            Some(e) => {
                return Err(e);
            },
            None => {},
        }
        let mut p = match self.profiles.remove(&ctx.profile) {
            Some(p) => p,
            None => {
                return Err(CustomError::Unauthorized);
            },
        };
        let lk = match derive_like_key(&program, &ctx.liker, &ctx.profile, p.like_count) {
            Some(k) => k.0,
            None => {
                proof {
                    assert(false);
                }
                return Err(CustomError::Unauthorized);
            },
        };
        self.ledger.transfer(&ctx.liker, &ctx.vault, amount);
        p.like_count = p.like_count + 1;
        p.likes_in_lamports = p.likes_in_lamports + amount;
        let like = Like {
            liker_key: ctx.liker,
            profile_key: ctx.profile,
            profile_name: bytes_clone(&p.profile_name),
            likes_in_lamports: amount,
            created_at: now,
        };
        let ev = MakeLikeEvent {
            liker_key: ctx.liker,
            profile_key: ctx.profile,
            profile_name: bytes_clone(&p.profile_name),
            amount,
            created_at: now,
        };
        self.profiles.insert(ctx.profile, p);
        self.likes.insert(lk, like);
        proof {
            assert forall|k: Address| (#[trigger] self.profile_of(k)) is Some implies self.profile_of(
                k,
            ).unwrap().wf() by {
                if k != ctx.profile {
                    assert(self.profile_of(k) == old(self).profile_of(k));
                }
            }
        }
        Ok(ev)
    }

    /// The failure, if any, of contributing through `ctx`: the profile must
    /// exist and not be paused, the vault must sit at the re-derived
    /// address, the like record's derived address must be free, the
    /// contributor must hold the amount, and neither counter nor balance may
    /// overflow.
    pub open spec fn give_like_err(self, ctx: GiveLike, amount: u64) -> Option<CustomError> {
        match self.profile_of(ctx.profile) {
            None => Some(CustomError::Unauthorized),
            Some(p) => {
                if p.paused {
                    Some(CustomError::ProfilePaused)
                } else if !(vault_key_of(self.program, ctx.profile) matches Some(k) && k.0
                    == ctx.vault) {
                    Some(CustomError::InvalidVaultAccount)
                } else if !(like_key_of(self.program, ctx.liker, ctx.profile, p.like_count) matches
                Some(k) && self.like_of(k.0) is None) {
                    Some(CustomError::Unauthorized)
                } else if self.bal(ctx.liker) < amount {
                    Some(CustomError::InsufficientFunds)
                } else if ctx.liker != ctx.vault && self.bal(ctx.vault) as int + amount
                    > u64::MAX {
                    Some(CustomError::Overflow)
                } else if p.like_count == u64::MAX {
                    Some(CustomError::Overflow)
                } else if p.likes_in_lamports as int + amount > u64::MAX {
                    Some(CustomError::Overflow)
                } else {
                    None
                }
            },
        }
    }

    /// Withdraws `amount` from an owned profile's vault to `ctx.recipient`.
    /// The amount must be positive, covered by the vault, and must leave the
    /// vault at or above `floor`, the externally supplied minimum balance a
    /// zero-data custody record needs to persist. On success the profile's
    /// running total falls by the amount and the withdrawal time is stamped.
    pub fn withdraw_likes(&mut self, ctx: WithdrawLikes, amount: u64, floor: u64, now: i64) -> (r:
        Result<WithdrawLikesSolEvent, CustomError>)
        requires
            old(self).wf(),
        ensures
            final(self).wf(),
            final(self).program == old(self).program,
            final(self).total() == old(self).total(),
            match r {
                Err(e) => old(self).withdraw_likes_err(ctx, amount, floor) == Some(e) && *final(self) == *old(self),
                Ok(ev) => {
                    let p = old(self).profile_of(ctx.profile).unwrap();
                    &&& old(self).withdraw_likes_err(ctx, amount, floor) is None
                    &&& final(self).profile_of(ctx.profile) == Some(
                        Profile {
                            likes_in_lamports: (p.likes_in_lamports - amount) as u64,
                            withdrawn_at: Some(now),
                            ..p
                        },
                    )
                    &&& forall|q: Address|
                        q != ctx.profile ==> final(self).profile_of(q) == old(self).profile_of(q)
                    &&& final(self).likes@ == old(self).likes@
                    &&& ctx.recipient == ctx.vault ==> forall|q: Address|
                        final(self).bal(q) == old(self).bal(q) && final(self).has_account(q)
                            == old(self).has_account(q)
                    &&& ctx.recipient != ctx.vault ==> final(self).bal(ctx.vault) == old(self).bal(
                        ctx.vault,
                    ) - amount && final(self).bal(ctx.recipient) == old(self).bal(ctx.recipient)
                        + amount && final(self).has_account(ctx.vault) == old(self).has_account(
                        ctx.vault,
                    ) && final(self).has_account(ctx.recipient) == (old(self).has_account(
                        ctx.recipient,
                    ) || amount > 0)
                    &&& forall|q: Address|
                        q != ctx.vault && q != ctx.recipient ==> final(self).bal(q) == old(self).bal(q)
                            && final(self).has_account(q) == old(self).has_account(q)
                    &&& final(self).bal(ctx.vault) >= floor
                    &&& ev.profile_key == ctx.profile
                    &&& ev.profile_name@ == p.profile_name@
                    &&& ev.likes_in_lamports == p.likes_in_lamports - amount
                    &&& ev.like_count == p.like_count
                    &&& ev.withdrawn_at == now
                },
            },
    {
        let program = self.program;
        let err = match self.profiles.get(&ctx.profile) {
            None => Some(CustomError::Unauthorized),
            Some(p) => {
                if p.authority != ctx.authority {
                    Some(CustomError::Unauthorized)
                } else {
                    let vault_ok = match derive_vault_key(&program, &ctx.profile) {
                        Some(k) => k.0 == ctx.vault,
                        None => false,
                    };
                    let vault_balance = self.ledger.balance(&ctx.vault);
                    if !vault_ok {
                        Some(CustomError::InvalidVaultAccount)
                    } else if !(amount > 0 && vault_balance >= amount) {
                        Some(CustomError::InsufficientFunds)
                    } else if vault_balance - amount < floor {
                        Some(CustomError::InsufficientFundsForRent)
                    } else if ctx.recipient != ctx.vault && amount > u64::MAX
                        - self.ledger.balance(&ctx.recipient) {
                        Some(CustomError::Overflow)
                    } else if p.likes_in_lamports < amount {
                        Some(CustomError::Overflow)
                    } else {
                        None
                    }
                }
            },
        };
        match err {
            Some(e) => {
                return Err(e);
            },
            None => {},
        }
        let mut p = match self.profiles.remove(&ctx.profile) {
            Some(p) => p,
            None => {
                return Err(CustomError::Unauthorized);
            },
        };
        self.ledger.transfer(&ctx.vault, &ctx.recipient, amount);
        p.likes_in_lamports = p.likes_in_lamports - amount;
        p.withdrawn_at = Some(now);
        let ev = WithdrawLikesSolEvent {
            profile_key: ctx.profile,
            profile_name: bytes_clone(&p.profile_name),
            likes_in_lamports: p.likes_in_lamports,
            like_count: p.like_count,
            withdrawn_at: now,
        };
        self.profiles.insert(ctx.profile, p);
        proof {
            assert forall|k: Address| (#[trigger] self.profile_of(k)) is Some implies self.profile_of(
                k,
            ).unwrap().wf() by {
                if k != ctx.profile {
                    assert(self.profile_of(k) == old(self).profile_of(k));
                }
            }
        }
        Ok(ev)
    }

    /// The failure, if any, of withdrawing through `ctx`: ownership, the
    /// re-derived vault address, a positive covered amount, the persistence
    /// floor, and checked arithmetic on the recipient's balance and the
    /// profile's running total.
    pub open spec fn withdraw_likes_err(self, ctx: WithdrawLikes, amount: u64, floor: u64) -> Option<
        CustomError,
    > {
        match self.profile_of(ctx.profile) {
            None => Some(CustomError::Unauthorized),
            Some(p) => {
                if p.authority != ctx.authority {
                    Some(CustomError::Unauthorized)
                } else if !(vault_key_of(self.program, ctx.profile) matches Some(k) && k.0
                    == ctx.vault) {
                    Some(CustomError::InvalidVaultAccount)
                } else if !(amount > 0 && self.bal(ctx.vault) >= amount) {
                    Some(CustomError::InsufficientFunds)
                } else if self.bal(ctx.vault) - amount < floor {
                    Some(CustomError::InsufficientFundsForRent)
                } else if ctx.recipient != ctx.vault && self.bal(ctx.recipient) as int + amount
                    > u64::MAX {
                    Some(CustomError::Overflow)
                } else if p.likes_in_lamports < amount {
                    Some(CustomError::Overflow)
                } else {
                    None
                }
            },
        }
    }

    /// Where a sweep sends the vault's funds: the supplied recipient if it
    /// already holds a positive balance, the owner otherwise.
    pub open spec fn sweep_dest(self, ctx: DeleteProfile) -> Address {
        if self.bal(ctx.recipient) > 0 {
            ctx.recipient
        } else {
            ctx.authority
        }
    }

    /// Deletes an owned profile: sweeps the vault's entire balance —
    /// bypassing the floor, since the vault itself is being retired — to the
    /// recipient if that reference holds a positive balance, otherwise to
    /// the owner, then closes the profile record and the emptied vault. Like
    /// records are history and stay untouched.
    pub fn delete_profile(&mut self, ctx: DeleteProfile, now: i64) -> (r: Result<
        DeleteProfileEvent,
        CustomError,
    >)
        requires
            old(self).wf(),
        ensures
            final(self).wf(),
            final(self).program == old(self).program,
            final(self).total() == old(self).total(),
            match r {
                Err(e) => old(self).delete_profile_err(ctx) == Some(e) && *final(self) == *old(self),
                Ok(ev) => {
                    let p = old(self).profile_of(ctx.profile).unwrap();
                    let vb = old(self).bal(ctx.vault);
                    let dest = old(self).sweep_dest(ctx);
                    &&& old(self).delete_profile_err(ctx) is None
                    &&& final(self).profile_of(ctx.profile) is None
                    &&& forall|q: Address|
                        q != ctx.profile ==> final(self).profile_of(q) == old(self).profile_of(q)
                    &&& final(self).likes@ == old(self).likes@
                    &&& vb == 0 ==> !final(self).has_account(ctx.vault) && forall|q: Address|
                        q != ctx.vault ==> final(self).bal(q) == old(self).bal(q) && final(self).has_account(q) == old(self).has_account(q)
                    &&& vb > 0 && dest == ctx.vault ==> forall|q: Address|
                        final(self).bal(q) == old(self).bal(q) && final(self).has_account(q)
                            == old(self).has_account(q)
                    &&& vb > 0 && dest != ctx.vault ==> !final(self).has_account(ctx.vault)
                        && final(self).bal(ctx.vault) == 0 && final(self).bal(dest) == old(self).bal(dest) + vb && forall|q: Address|
                        q != ctx.vault && q != dest ==> final(self).bal(q) == old(self).bal(q)
                            && final(self).has_account(q) == old(self).has_account(q)
                    &&& ev.profile_key == ctx.profile
                    &&& ev.profile_name@ == p.profile_name@
                    &&& ev.deleted_at == now
                },
            },
    {
        let program = self.program;
        let err = match self.profiles.get(&ctx.profile) {
            None => Some(CustomError::Unauthorized),
            Some(p) => {
                let derived_ok = p.authority == ctx.authority && {
                    match derive_profile_key(&program, &ctx.authority, &p.profile_name) {
                        Some(k) => k.0 == ctx.profile,
                        None => false,
                    }
                };
                if !derived_ok {
                    Some(CustomError::Unauthorized)
                } else {
                    let vault_ok = match derive_vault_key(&program, &ctx.profile) {
                        Some(k) => k.0 == ctx.vault,
                        None => false,
                    };
                    if !vault_ok {
                        Some(CustomError::InvalidVaultAccount)
                    } else {
                        let vb = self.ledger.balance(&ctx.vault);
                        if vb > 0 {
                            let dest = if self.ledger.balance(&ctx.recipient) > 0 {
                                ctx.recipient
                            } else {
                                ctx.authority
                            };
                            if dest != ctx.vault && vb > u64::MAX - self.ledger.balance(&dest) {
                                Some(CustomError::Overflow)
                            } else {
                                None
                            }
                        } else {
                            None
                        }
                    }
                }
            },
        };
        match err {
            Some(e) => {
                return Err(e);
            },
            None => {},
        }
        let p = match self.profiles.remove(&ctx.profile) {
            Some(p) => p,
            None => {
                return Err(CustomError::Unauthorized);
            },
        };
        let vb = self.ledger.balance(&ctx.vault);
        if vb > 0 {
            let dest = if self.ledger.balance(&ctx.recipient) > 0 {
                ctx.recipient
            } else {
                ctx.authority
            };
            self.ledger.transfer(&ctx.vault, &dest, vb);
        }
        if self.ledger.balance(&ctx.vault) == 0 {
            self.ledger.close_account(&ctx.vault);
        }
        let ev = DeleteProfileEvent {
            profile_key: ctx.profile,
            profile_name: p.profile_name,
            deleted_at: now,
        };
        proof {
            assert forall|k: Address| (#[trigger] self.profile_of(k)) is Some implies self.profile_of(
                k,
            ).unwrap().wf() by {
                assert(self.profile_of(k) == old(self).profile_of(k));
            }
        }
        Ok(ev)
    }

    /// The failure, if any, of deleting through `ctx`: ownership and the
    /// re-derived profile address, the re-derived vault address, and checked
    /// arithmetic on the sweep destination's balance.
    pub open spec fn delete_profile_err(self, ctx: DeleteProfile) -> Option<CustomError> {
        match self.profile_of(ctx.profile) {
            None => Some(CustomError::Unauthorized),
            Some(p) => {
                if p.authority != ctx.authority {
                    Some(CustomError::Unauthorized)
                } else if !(profile_key_of(self.program, ctx.authority, p.profile_name@) matches
                Some(k) && k.0 == ctx.profile) {
                    Some(CustomError::Unauthorized)
                } else if !(vault_key_of(self.program, ctx.profile) matches Some(k) && k.0
                    == ctx.vault) {
                    Some(CustomError::InvalidVaultAccount)
                } else {
                    let vb = self.bal(ctx.vault);
                    let dest = self.sweep_dest(ctx);
                    if vb > 0 && dest != ctx.vault && self.bal(dest) as int + vb > u64::MAX {
                        Some(CustomError::Overflow)
                    } else {
                        None
                    }
                }
            },
        }
    }

    /// The failure, if any, of pausing or resuming through `ctx`: the
    /// profile must exist, be owned by the signer, and sit at the address
    /// re-derived from the signer and its stored name.
    pub open spec fn pause_profile_err(self, ctx: PauseProfile) -> Option<CustomError> {
        match self.profile_of(ctx.profile) {
            None => Some(CustomError::Unauthorized),
            Some(p) => {
                if p.authority != ctx.authority {
                    Some(CustomError::Unauthorized)
                } else if !(profile_key_of(self.program, ctx.authority, p.profile_name@) matches
                Some(k) && k.0 == ctx.profile) {
                    Some(CustomError::Unauthorized)
                } else {
                    None
                }
            },
        }
    }
}

/// Two states that agree on everything except, possibly, the paused flags of
/// their stored profiles.
pub open spec fn agree_up_to_paused(s1: Registry, s2: Registry) -> bool {
    &&& s2.program == s1.program
    &&& s2.ledger@ == s1.ledger@
    &&& s2.likes@ == s1.likes@
    &&& forall|k: Address|
        #![trigger s1.profile_of(k), s2.profile_of(k)]
        match (s1.profile_of(k), s2.profile_of(k)) {
            (Some(p1), Some(p2)) => p2 == (Profile { paused: p2.paused, ..p1 }),
            (None, None) => true,
            _ => false,
        }
}

/// The paused flag gates contributions and nothing else: whether a bio
/// update, a pause toggle, a deletion or a withdrawal is admitted — and with
/// which error it is refused — is the same in two states that differ only in
/// paused flags. Only `give_like` reads the flag.
pub proof fn lemma_paused_gates_only_contributions(
    s1: Registry,
    s2: Registry,
    ctx_update: UpdateProfile,
    bio: Seq<u8>,
    ctx_pause: PauseProfile,
    ctx_delete: DeleteProfile,
    ctx_withdraw: WithdrawLikes,
    amount: u64,
    floor: u64,
)
    requires
        agree_up_to_paused(s1, s2),
    ensures
        s1.update_profile_bio_err(ctx_update, bio) == s2.update_profile_bio_err(ctx_update, bio),
        s1.pause_profile_err(ctx_pause) == s2.pause_profile_err(ctx_pause),
        s1.delete_profile_err(ctx_delete) == s2.delete_profile_err(ctx_delete),
        s1.withdraw_likes_err(ctx_withdraw, amount, floor) == s2.withdraw_likes_err(
            ctx_withdraw,
            amount,
            floor,
        ),
{
    assert(s1.profile_of(ctx_update.profile) == s1.profile_of(ctx_update.profile));
    assert(s1.profile_of(ctx_pause.profile) == s1.profile_of(ctx_pause.profile));
    assert(s1.profile_of(ctx_delete.profile) == s1.profile_of(ctx_delete.profile));
    assert(s1.profile_of(ctx_withdraw.profile) == s1.profile_of(ctx_withdraw.profile));
}

/// Authority enforcement: a lifecycle operation whose signer is not the
/// stored profile's owner is refused as Unauthorized — and, by each
/// operation's own contract, a refused operation leaves the state exactly as
/// it was.
pub proof fn lemma_non_owner_is_refused(
    s: Registry,
    ctx_update: UpdateProfile,
    bio: Seq<u8>,
    ctx_pause: PauseProfile,
    ctx_delete: DeleteProfile,
    ctx_withdraw: WithdrawLikes,
    amount: u64,
    floor: u64,
)
    ensures
        (s.profile_of(ctx_update.profile) matches Some(p) && p.authority != ctx_update.authority)
            ==> s.update_profile_bio_err(ctx_update, bio) == Some(CustomError::Unauthorized),
        (s.profile_of(ctx_pause.profile) matches Some(p) && p.authority != ctx_pause.authority)
            ==> s.pause_profile_err(ctx_pause) == Some(CustomError::Unauthorized),
        (s.profile_of(ctx_delete.profile) matches Some(p) && p.authority != ctx_delete.authority)
            ==> s.delete_profile_err(ctx_delete) == Some(CustomError::Unauthorized),
        (s.profile_of(ctx_withdraw.profile) matches Some(p) && p.authority
            != ctx_withdraw.authority) ==> s.withdraw_likes_err(ctx_withdraw, amount, floor)
            == Some(CustomError::Unauthorized),
{
}

} // verus!
