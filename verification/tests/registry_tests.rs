//! The service's operations: lifecycle, custody, conservation, and every
//! typed error.

use secret::addr::{derive_vault_key, Address};
use secret::errors::CustomError;
use secret::registry::{
    CreateProfile, DeleteProfile, GiveLike, PauseProfile, Registry, UpdateProfile, WithdrawLikes,
};

fn addr(n: u64) -> Address {
    Address { w0: n, w1: 0, w2: 0, w3: n.wrapping_mul(31) }
}

fn words(a: &Address) -> (u64, u64, u64, u64) {
    (a.w0, a.w1, a.w2, a.w3)
}

const PROGRAM: u64 = 900_001;

fn new_registry() -> Registry {
    Registry::new(addr(PROGRAM))
}

/// Creates alice's profile and returns (profile key, vault key).
fn setup_alice(r: &mut Registry, owner: Address) -> (Address, Address) {
    let ev = r
        .create_profile(
            CreateProfile { authority: owner },
            b"alice".to_vec(),
            b"hi".to_vec(),
            b"f".to_vec(),
            b"m".to_vec(),
            b"uri".to_vec(),
            1_000,
        )
        .expect("create_profile");
    let profile = ev.profile_key;
    let (vault, _) = derive_vault_key(&r.program, &profile).unwrap();
    (profile, vault)
}

fn total(r: &Registry) -> u128 {
    r.ledger.accounts.iter().map(|(_, b)| *b as u128).sum()
}

fn balance(r: &Registry, k: &Address) -> u64 {
    r.ledger
        .accounts
        .iter()
        .find(|(a, _)| words(a) == words(k))
        .map(|(_, b)| *b)
        .unwrap_or(0)
}

#[test]
fn end_to_end_scenario() {
    let mut r = new_registry();
    let owner = addr(1);
    let liker = addr(2);
    let recipient = addr(3);

    let ev = r
        .create_profile(
            CreateProfile { authority: owner },
            b"alice".to_vec(),
            b"hi".to_vec(),
            b"f".to_vec(),
            b"m".to_vec(),
            b"uri".to_vec(),
            1_000,
        )
        .expect("create_profile");
    assert_eq!(ev.profile_name, b"alice".to_vec());
    assert_eq!(ev.bio, b"hi".to_vec());
    assert_eq!(ev.gender, b"f".to_vec());
    assert_eq!(ev.looking_for, b"m".to_vec());
    assert_eq!(ev.created_at, 1_000);
    let profile = ev.profile_key;
    let (vault, _) = derive_vault_key(&r.program, &profile).unwrap();

    let p = &r.profiles.entries[0].1;
    assert_eq!(p.like_count, 0);
    assert_eq!(p.likes_in_lamports, 0);
    assert!(!p.paused);
    assert_eq!(p.deleted_at, None);
    assert_eq!(p.withdrawn_at, None);

    r.airdrop(liker, 1_000).unwrap();

    let ev = r
        .give_like(GiveLike { liker, profile, vault }, 100, 1_100)
        .expect("first like");
    assert_eq!(ev.amount, 100);
    assert_eq!(ev.profile_name, b"alice".to_vec());
    let p = &r.profiles.entries[0].1;
    assert_eq!(p.like_count, 1);
    assert_eq!(p.likes_in_lamports, 100);
    assert_eq!(r.likes.entries.len(), 1);
    let like = &r.likes.entries[0].1;
    assert_eq!(words(&like.liker_key), words(&liker));
    assert_eq!(words(&like.profile_key), words(&profile));
    assert_eq!(like.profile_name, b"alice".to_vec());
    assert_eq!(like.likes_in_lamports, 100);
    assert_eq!(like.created_at, 1_100);
    assert_eq!(balance(&r, &vault), 100);
    assert_eq!(balance(&r, &liker), 900);

    r.give_like(GiveLike { liker, profile, vault }, 50, 1_200)
        .expect("second like");
    let p = &r.profiles.entries[0].1;
    assert_eq!(p.like_count, 2);
    assert_eq!(p.likes_in_lamports, 150);
    assert_eq!(r.likes.entries.len(), 2);
    assert_eq!(balance(&r, &vault), 150);

    let ev = r
        .withdraw_likes(
            WithdrawLikes { authority: owner, profile, vault, recipient },
            120,
            0,
            1_300,
        )
        .expect("withdraw");
    assert_eq!(ev.likes_in_lamports, 30);
    assert_eq!(ev.like_count, 2);
    assert_eq!(ev.withdrawn_at, 1_300);
    let p = &r.profiles.entries[0].1;
    assert_eq!(p.likes_in_lamports, 30);
    assert_eq!(p.withdrawn_at, Some(1_300));
    assert_eq!(balance(&r, &vault), 30);
    assert_eq!(balance(&r, &recipient), 120);
}

#[test]
fn conservation_across_operations() {
    let mut r = new_registry();
    let owner = addr(1);
    let liker = addr(2);
    let recipient = addr(3);
    r.airdrop(liker, 5_000).unwrap();
    r.airdrop(recipient, 1).unwrap();
    let funded = total(&r);
    assert_eq!(funded, 5_001);

    let (profile, vault) = setup_alice(&mut r, owner);
    assert_eq!(total(&r), funded);
    r.give_like(GiveLike { liker, profile, vault }, 2_000, 2_000).unwrap();
    assert_eq!(total(&r), funded);
    r.withdraw_likes(
        WithdrawLikes { authority: owner, profile, vault, recipient },
        500,
        0,
        2_100,
    )
    .unwrap();
    assert_eq!(total(&r), funded);
    // A failing operation moves nothing.
    let err = r.withdraw_likes(
        WithdrawLikes { authority: owner, profile, vault, recipient },
        u64::MAX,
        0,
        2_200,
    );
    assert_eq!(err, Err(CustomError::InsufficientFunds));
    assert_eq!(total(&r), funded);
    r.delete_profile(
        DeleteProfile { authority: owner, profile, vault, recipient },
        2_300,
    )
    .unwrap();
    assert_eq!(total(&r), funded);
}

#[test]
fn withdraw_more_than_balance_fails_insufficient_funds() {
    let mut r = new_registry();
    let owner = addr(1);
    let liker = addr(2);
    let (profile, vault) = setup_alice(&mut r, owner);
    r.airdrop(liker, 500).unwrap();
    r.give_like(GiveLike { liker, profile, vault }, 200, 1_100).unwrap();
    let before_balance = balance(&r, &vault);
    let before_total = r.profiles.entries[0].1.likes_in_lamports;

    let res = r.withdraw_likes(
        WithdrawLikes { authority: owner, profile, vault, recipient: addr(3) },
        201,
        0,
        1_200,
    );
    assert_eq!(res, Err(CustomError::InsufficientFunds));
    assert_eq!(balance(&r, &vault), before_balance);
    assert_eq!(r.profiles.entries[0].1.likes_in_lamports, before_total);
    assert_eq!(r.profiles.entries[0].1.withdrawn_at, None);

    // A zero amount is rejected the same way.
    let res = r.withdraw_likes(
        WithdrawLikes { authority: owner, profile, vault, recipient: addr(3) },
        0,
        0,
        1_200,
    );
    assert_eq!(res, Err(CustomError::InsufficientFunds));
}

#[test]
fn withdraw_below_floor_fails_for_rent() {
    let mut r = new_registry();
    let owner = addr(1);
    let liker = addr(2);
    let (profile, vault) = setup_alice(&mut r, owner);
    r.airdrop(liker, 500).unwrap();
    r.give_like(GiveLike { liker, profile, vault }, 100, 1_100).unwrap();

    let res = r.withdraw_likes(
        WithdrawLikes { authority: owner, profile, vault, recipient: addr(3) },
        60,
        50,
        1_200,
    );
    assert_eq!(res, Err(CustomError::InsufficientFundsForRent));
    assert_eq!(balance(&r, &vault), 100);
    assert_eq!(r.profiles.entries[0].1.likes_in_lamports, 100);

    // Exactly reaching the floor is allowed.
    r.withdraw_likes(
        WithdrawLikes { authority: owner, profile, vault, recipient: addr(3) },
        50,
        50,
        1_300,
    )
    .expect("withdraw to the floor");
    assert_eq!(balance(&r, &vault), 50);
}

#[test]
fn update_bio_with_identical_string_fails_noop() {
    let mut r = new_registry();
    let owner = addr(1);
    let (profile, _) = setup_alice(&mut r, owner);
    let updated_at_before = r.profiles.entries[0].1.updated_at;

    let res = r.update_profile_bio(
        UpdateProfile { authority: owner, profile },
        b"hi".to_vec(),
        9_999,
    );
    assert_eq!(res, Err(CustomError::InvalidBio));
    assert_eq!(r.profiles.entries[0].1.updated_at, updated_at_before);
    assert_eq!(r.profiles.entries[0].1.bio, b"hi".to_vec());
}

#[test]
fn update_bio_replaces_bio_and_timestamp() {
    let mut r = new_registry();
    let owner = addr(1);
    let (profile, _) = setup_alice(&mut r, owner);

    let ev = r
        .update_profile_bio(UpdateProfile { authority: owner, profile }, b"new bio".to_vec(), 2_000)
        .expect("update bio");
    assert_eq!(ev.bio, b"new bio".to_vec());
    assert_eq!(ev.updated_at, 2_000);
    assert_eq!(r.profiles.entries[0].1.bio, b"new bio".to_vec());
    assert_eq!(r.profiles.entries[0].1.updated_at, 2_000);

    // The no-op check comes before the length check: an identical bio is
    // rejected as InvalidBio, an oversized different one as InvalidBioLength.
    let long = vec![b'x'; 281];
    let res = r.update_profile_bio(UpdateProfile { authority: owner, profile }, long, 2_100);
    assert_eq!(res, Err(CustomError::InvalidBioLength));
}

#[test]
fn counter_overflow_fails_and_changes_nothing() {
    let mut r = new_registry();
    let owner = addr(1);
    let liker = addr(2);
    let (profile, vault) = setup_alice(&mut r, owner);
    r.airdrop(liker, 1_000).unwrap();

    r.profiles.entries[0].1.like_count = u64::MAX;
    let res = r.give_like(GiveLike { liker, profile, vault }, 10, 1_100);
    assert_eq!(res, Err(CustomError::Overflow));
    assert_eq!(r.profiles.entries[0].1.like_count, u64::MAX);
    assert_eq!(r.profiles.entries[0].1.likes_in_lamports, 0);
    assert_eq!(balance(&r, &liker), 1_000);
    assert_eq!(balance(&r, &vault), 0);
    assert_eq!(r.likes.entries.len(), 0);

    r.profiles.entries[0].1.like_count = 0;
    r.profiles.entries[0].1.likes_in_lamports = u64::MAX - 5;
    let res = r.give_like(GiveLike { liker, profile, vault }, 10, 1_200);
    assert_eq!(res, Err(CustomError::Overflow));
    assert_eq!(r.profiles.entries[0].1.likes_in_lamports, u64::MAX - 5);
    assert_eq!(balance(&r, &liker), 1_000);
}

#[test]
fn airdrop_overflow_fails() {
    let mut r = new_registry();
    let wallet = addr(9);
    r.airdrop(wallet, u64::MAX).unwrap();
    assert_eq!(r.airdrop(wallet, 1), Err(CustomError::Overflow));
    assert_eq!(balance(&r, &wallet), u64::MAX);
}

#[test]
fn non_owner_operations_fail_unauthorized() {
    let mut r = new_registry();
    let owner = addr(1);
    let outsider = addr(66);
    let (profile, vault) = setup_alice(&mut r, owner);
    let before_len = r.profiles.entries.len();

    let res = r.update_profile_bio(
        UpdateProfile { authority: outsider, profile },
        b"stolen".to_vec(),
        2_000,
    );
    assert_eq!(res, Err(CustomError::Unauthorized));

    let res = r.pause_profile(PauseProfile { authority: outsider, profile }, true, 2_000);
    assert_eq!(res, Err(CustomError::Unauthorized));

    let res = r.delete_profile(
        DeleteProfile { authority: outsider, profile, vault, recipient: addr(3) },
        2_000,
    );
    assert_eq!(res, Err(CustomError::Unauthorized));

    let res = r.withdraw_likes(
        WithdrawLikes { authority: outsider, profile, vault, recipient: addr(3) },
        1,
        0,
        2_000,
    );
    assert_eq!(res, Err(CustomError::Unauthorized));

    assert_eq!(r.profiles.entries.len(), before_len);
    assert_eq!(r.profiles.entries[0].1.bio, b"hi".to_vec());
    assert!(!r.profiles.entries[0].1.paused);

    // A reference to a record that does not exist is refused the same way.
    let res = r.pause_profile(PauseProfile { authority: owner, profile: addr(123) }, true, 2_000);
    assert_eq!(res, Err(CustomError::Unauthorized));
}

#[test]
fn paused_profile_rejects_likes_but_allows_administration() {
    let mut r = new_registry();
    let owner = addr(1);
    let liker = addr(2);
    let (profile, vault) = setup_alice(&mut r, owner);
    r.airdrop(liker, 1_000).unwrap();

    let ev = r
        .pause_profile(PauseProfile { authority: owner, profile }, true, 2_000)
        .expect("pause");
    assert!(ev.paused);
    assert!(r.profiles.entries[0].1.paused);

    let res = r.give_like(GiveLike { liker, profile, vault }, 100, 2_100);
    assert_eq!(res, Err(CustomError::ProfilePaused));
    assert_eq!(balance(&r, &liker), 1_000);
    assert_eq!(r.likes.entries.len(), 0);

    // Administrative operations are unaffected by the paused flag.
    r.update_profile_bio(UpdateProfile { authority: owner, profile }, b"still here".to_vec(), 2_200)
        .expect("update while paused");

    r.pause_profile(PauseProfile { authority: owner, profile }, false, 2_300)
        .expect("resume");
    r.give_like(GiveLike { liker, profile, vault }, 100, 2_400)
        .expect("like after resume");
    assert_eq!(r.profiles.entries[0].1.like_count, 1);
}

#[test]
fn create_profile_length_errors() {
    let mut r = new_registry();
    let owner = addr(1);
    let name = |n: usize| vec![b'a'; n];

    let res = r.create_profile(
        CreateProfile { authority: owner },
        name(33),
        vec![],
        vec![],
        vec![],
        vec![],
        0,
    );
    assert_eq!(res, Err(CustomError::InvalidUsernameLength));
    let res = r.create_profile(
        CreateProfile { authority: owner },
        name(32),
        name(281),
        vec![],
        vec![],
        vec![],
        0,
    );
    assert_eq!(res, Err(CustomError::InvalidBioLength));
    let res = r.create_profile(
        CreateProfile { authority: owner },
        name(32),
        name(280),
        name(17),
        vec![],
        vec![],
        0,
    );
    assert_eq!(res, Err(CustomError::InvalidGenderLength));
    let res = r.create_profile(
        CreateProfile { authority: owner },
        name(32),
        name(280),
        name(16),
        name(17),
        vec![],
        0,
    );
    assert_eq!(res, Err(CustomError::InvalidLookingForLength));
    let res = r.create_profile(
        CreateProfile { authority: owner },
        name(32),
        name(280),
        name(16),
        name(16),
        name(201),
        0,
    );
    assert_eq!(res, Err(CustomError::InvalidAvatarURILength));
    assert_eq!(r.profiles.entries.len(), 0);

    // All fields at their exact maxima are accepted.
    r.create_profile(
        CreateProfile { authority: owner },
        name(32),
        name(280),
        name(16),
        name(16),
        name(200),
        0,
    )
    .expect("maximal lengths");
}

#[test]
fn create_same_name_twice_fails_unauthorized() {
    let mut r = new_registry();
    let owner = addr(1);
    setup_alice(&mut r, owner);
    let res = r.create_profile(
        CreateProfile { authority: owner },
        b"alice".to_vec(),
        b"other".to_vec(),
        b"f".to_vec(),
        b"m".to_vec(),
        b"uri".to_vec(),
        2_000,
    );
    assert_eq!(res, Err(CustomError::Unauthorized));
    assert_eq!(r.profiles.entries.len(), 1);

    // A different name, and a different owner under the old name, both work.
    r.create_profile(
        CreateProfile { authority: owner },
        b"alice2".to_vec(),
        b"hi".to_vec(),
        b"f".to_vec(),
        b"m".to_vec(),
        b"uri".to_vec(),
        2_000,
    )
    .expect("same owner, new name");
    r.create_profile(
        CreateProfile { authority: addr(2) },
        b"alice".to_vec(),
        b"hi".to_vec(),
        b"f".to_vec(),
        b"m".to_vec(),
        b"uri".to_vec(),
        2_000,
    )
    .expect("new owner, same name");
    assert_eq!(r.profiles.entries.len(), 3);
}

#[test]
fn wrong_vault_reference_is_rejected() {
    let mut r = new_registry();
    let owner = addr(1);
    let liker = addr(2);
    let (profile, vault) = setup_alice(&mut r, owner);
    r.airdrop(liker, 1_000).unwrap();
    let wrong = addr(4_444);
    assert_ne!(words(&wrong), words(&vault));

    let res = r.give_like(GiveLike { liker, profile, vault: wrong }, 100, 1_100);
    assert_eq!(res, Err(CustomError::InvalidVaultAccount));
    let res = r.withdraw_likes(
        WithdrawLikes { authority: owner, profile, vault: wrong, recipient: addr(3) },
        1,
        0,
        1_100,
    );
    assert_eq!(res, Err(CustomError::InvalidVaultAccount));
    let res = r.delete_profile(
        DeleteProfile { authority: owner, profile, vault: wrong, recipient: addr(3) },
        1_100,
    );
    assert_eq!(res, Err(CustomError::InvalidVaultAccount));
}

#[test]
fn delete_sweeps_to_funded_recipient() {
    let mut r = new_registry();
    let owner = addr(1);
    let liker = addr(2);
    let recipient = addr(3);
    let (profile, vault) = setup_alice(&mut r, owner);
    r.airdrop(liker, 1_000).unwrap();
    r.airdrop(recipient, 7).unwrap();
    r.give_like(GiveLike { liker, profile, vault }, 300, 1_100).unwrap();

    let ev = r
        .delete_profile(DeleteProfile { authority: owner, profile, vault, recipient }, 1_200)
        .expect("delete");
    assert_eq!(ev.profile_name, b"alice".to_vec());
    assert_eq!(ev.deleted_at, 1_200);
    assert_eq!(r.profiles.entries.len(), 0);
    assert_eq!(balance(&r, &recipient), 307);
    assert_eq!(balance(&r, &vault), 0);
    // The emptied vault record is gone, not orphaned.
    assert!(!r.ledger.accounts.iter().any(|(a, _)| words(a) == words(&vault)));
    // Like history is immutable and survives deletion.
    assert_eq!(r.likes.entries.len(), 1);
}

#[test]
fn delete_sweeps_to_owner_when_recipient_is_empty() {
    let mut r = new_registry();
    let owner = addr(1);
    let liker = addr(2);
    let recipient = addr(3);
    let (profile, vault) = setup_alice(&mut r, owner);
    r.airdrop(liker, 1_000).unwrap();
    r.give_like(GiveLike { liker, profile, vault }, 300, 1_100).unwrap();

    r.delete_profile(DeleteProfile { authority: owner, profile, vault, recipient }, 1_200)
        .expect("delete");
    assert_eq!(balance(&r, &recipient), 0);
    assert_eq!(balance(&r, &owner), 300);
    assert_eq!(balance(&r, &vault), 0);
}

#[test]
fn liker_needs_the_funds_it_gives() {
    let mut r = new_registry();
    let owner = addr(1);
    let liker = addr(2);
    let (profile, vault) = setup_alice(&mut r, owner);
    r.airdrop(liker, 99).unwrap();
    let res = r.give_like(GiveLike { liker, profile, vault }, 100, 1_100);
    assert_eq!(res, Err(CustomError::InsufficientFunds));
    assert_eq!(balance(&r, &liker), 99);
    assert_eq!(r.profiles.entries[0].1.like_count, 0);
}

#[test]
fn error_messages_name_each_failure() {
    assert_eq!(CustomError::Unauthorized.message(), "Unauthorized access");
    assert_eq!(CustomError::InvalidBio.message(), "Invalid bio");
    assert_eq!(CustomError::Overflow.message(), "Overflow");
    assert_eq!(CustomError::ProfilePaused.message(), "Profile paused");
    assert_eq!(CustomError::InsufficientFunds.message(), "Insufficient funds");
    assert_eq!(
        CustomError::InsufficientFundsForRent.message(),
        "Insufficient funds for rent"
    );
}

#[test]
fn give_like_from_the_vault_itself_moves_nothing() {
    let mut r = new_registry();
    let owner = addr(1);
    let liker = addr(2);
    let (profile, vault) = setup_alice(&mut r, owner);
    r.airdrop(liker, 1_000).unwrap();
    r.give_like(GiveLike { liker, profile, vault }, 400, 1_100).unwrap();
    let funded = total(&r);

    // The vault contributing to itself: counters rise, balances stay put.
    r.give_like(GiveLike { liker: vault, profile, vault }, 150, 1_200)
        .expect("self-funded like");
    assert_eq!(balance(&r, &vault), 400);
    assert_eq!(r.profiles.entries[0].1.like_count, 2);
    assert_eq!(r.profiles.entries[0].1.likes_in_lamports, 550);
    assert_eq!(total(&r), funded);
}

#[test]
fn withdraw_to_the_vault_itself_moves_nothing() {
    let mut r = new_registry();
    let owner = addr(1);
    let liker = addr(2);
    let (profile, vault) = setup_alice(&mut r, owner);
    r.airdrop(liker, 1_000).unwrap();
    r.give_like(GiveLike { liker, profile, vault }, 400, 1_100).unwrap();
    let funded = total(&r);

    r.withdraw_likes(
        WithdrawLikes { authority: owner, profile, vault, recipient: vault },
        100,
        0,
        1_200,
    )
    .expect("withdraw to the vault");
    assert_eq!(balance(&r, &vault), 400);
    assert_eq!(r.profiles.entries[0].1.likes_in_lamports, 300);
    assert_eq!(r.profiles.entries[0].1.withdrawn_at, Some(1_200));
    assert_eq!(total(&r), funded);
}
