use vstd::prelude::*;

verus! {

/// The typed failures an operation can surface. Every precondition is
/// checked before any mutation, so a failing operation leaves no state
/// change behind.
#[derive(Clone, Copy, Debug, PartialEq, Eq, Structural)]
pub enum CustomError {
    /// The caller is not the record's owner, or a derived address fails
    /// verification.
    Unauthorized,
    /// The profile name exceeds its maximum length.
    InvalidUsernameLength,
    /// The bio exceeds its maximum length.
    InvalidBioLength,
    /// The gender tag exceeds its maximum length.
    InvalidGenderLength,
    /// The looking-for tag exceeds its maximum length.
    InvalidLookingForLength,
    /// The avatar URI exceeds its maximum length.
    InvalidAvatarURILength,
    /// The new bio equals the current one: a no-op update is rejected.
    InvalidBio,
    /// The supplied vault address does not match the re-derived one.
    InvalidVaultAccount,
    /// A checked arithmetic step would leave the numeric range.
    Overflow,
    /// A contribution was attempted against a paused profile.
    ProfilePaused,
    /// The withdrawal amount exceeds the available balance.
    InsufficientFunds,
    /// The withdrawal would drop the vault below its persistence floor.
    InsufficientFundsForRent,
}

impl CustomError {
    /// A short description of the failure.
    pub fn message(&self) -> (r: &'static str)
    {
        match self {
            CustomError::Unauthorized => "Unauthorized access",
            CustomError::InvalidUsernameLength => "Invalid username length",
            CustomError::InvalidBioLength => "Invalid bio length",
            CustomError::InvalidGenderLength => "Invalid gender length",
            CustomError::InvalidLookingForLength => "Invalid looking for length",
            CustomError::InvalidAvatarURILength => "Invalid avatar URI length",
            CustomError::InvalidBio => "Invalid bio",
            CustomError::InvalidVaultAccount => "Invalid vault account",
            CustomError::Overflow => "Overflow",
            CustomError::ProfilePaused => "Profile paused",
            CustomError::InsufficientFunds => "Insufficient funds",
            CustomError::InsufficientFundsForRent => "Insufficient funds for rent",
        }
    }
}

} // verus!
