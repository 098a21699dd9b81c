//! The ways an operation of the protocol can be refused.

use vstd::prelude::*;

verus! {

/// Why an operation was refused. A refused operation changes nothing.
#[derive(Debug, Clone, Copy, PartialEq, Eq, Hash, Structural)]
pub enum CovenantError {
    /// A provider name longer than 64 bytes.
    NameTooLong,
    /// A service endpoint longer than 256 bytes.
    EndpointTooLong,
    /// A violation description longer than 512 bytes.
    DescriptionTooLong,
    /// A registration below the minimum stake, or a withdrawal of more than
    /// the provider has staked.
    InsufficientStake,
    /// A service level with a percentage out of range.
    InvalidPercentage,
    /// The caller is not the identity the operation is reserved for.
    Unauthorized,
    /// The provider has been deactivated.
    ProviderInactive,
    /// The violation has been slashed before.
    ViolationAlreadyResolved,
    /// The provider has nothing staked.
    NoStakeToSlash,
    /// The withdrawal would leave a stake that is neither zero nor at least
    /// the minimum.
    WouldBreachMinStake,
    /// The record that the operation would create is already there.
    AlreadyExists,
    /// A record handed to the operation is not the one the operation is
    /// about: a service level or a violation of another provider, or a
    /// violation that is not the provider's latest.
    RecordMismatch,
    /// A counter would leave the range of 64-bit unsigned integers.
    ArithmeticOverflow,
}

impl CovenantError {
    /// The text of `message`, as a sequence of characters.
    pub open spec fn message_text(self) -> Seq<char> {
        match self {
            CovenantError::NameTooLong => "Name exceeds maximum length of 64 characters"@,
            CovenantError::EndpointTooLong =>
                "Service endpoint exceeds maximum length of 256 characters"@,
            CovenantError::DescriptionTooLong =>
                "Description exceeds maximum length of 512 characters"@,
            CovenantError::InsufficientStake => "Stake amount is below minimum required"@,
            CovenantError::InvalidPercentage => "Invalid percentage value (must be 0-100)"@,
            CovenantError::Unauthorized => "Unauthorized action"@,
            CovenantError::ProviderInactive => "Provider is inactive"@,
            CovenantError::ViolationAlreadyResolved => "Violation has already been resolved"@,
            CovenantError::NoStakeToSlash => "No stake available to slash"@,
            CovenantError::WouldBreachMinStake =>
                "Withdrawal would breach minimum stake requirement"@,
            CovenantError::AlreadyExists => "Record already exists"@,
            CovenantError::RecordMismatch => "Record does not belong to this operation"@,
            CovenantError::ArithmeticOverflow => "Arithmetic overflow"@,
        }
    }

    /// A sentence that says what went wrong.
    pub fn message(&self) -> (text: &'static str)
        ensures
            text@ == self.message_text(),
    {
        match self {
            CovenantError::NameTooLong => "Name exceeds maximum length of 64 characters",
            CovenantError::EndpointTooLong =>
                "Service endpoint exceeds maximum length of 256 characters",
            CovenantError::DescriptionTooLong =>
                "Description exceeds maximum length of 512 characters",
            CovenantError::InsufficientStake => "Stake amount is below minimum required",
            CovenantError::InvalidPercentage => "Invalid percentage value (must be 0-100)",
            CovenantError::Unauthorized => "Unauthorized action",
            CovenantError::ProviderInactive => "Provider is inactive",
            CovenantError::ViolationAlreadyResolved => "Violation has already been resolved",
            CovenantError::NoStakeToSlash => "No stake available to slash",
            CovenantError::WouldBreachMinStake =>
                "Withdrawal would breach minimum stake requirement",
            CovenantError::AlreadyExists => "Record already exists",
            CovenantError::RecordMismatch => "Record does not belong to this operation",
            CovenantError::ArithmeticOverflow => "Arithmetic overflow",
        }
    }
}

} // verus!
