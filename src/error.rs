use vstd::prelude::*;

verus! {

/// Every way an operation of the swap engine can fail.
#[derive(Clone, Copy, Debug, PartialEq, Eq, Structural)]
pub enum SwapError {
    AlreadyInitialized,
    MintAccountExisted,
    OnlyAdministrator,
    OnlyOwner,
    OnlyBuyer,
    OnlySeller,
    OrderExpired,
    InvalidOffer,
    InvalidValue,
    UnAllowedMintToken,
    ProposalCannotBeCanceled,
    DepositIsNotAvailable,
    FulfillingIsNotAvailable,
    RedeemIsNotAvailable,
    WithdrawalIsNotAvailable,
    TransferTokenFromVaultIsNotAvailable,
}

impl SwapError {
    /// A short human-readable description of the error.
    pub fn message(&self) -> &'static str {
        match self {
            SwapError::AlreadyInitialized => "The program was already initialized",
            SwapError::MintAccountExisted => "The mint account was existed",
            SwapError::OnlyAdministrator => "Only Platform Admin",
            SwapError::OnlyOwner => "Only Owner",
            SwapError::OnlyBuyer => "Only Buyer",
            SwapError::OnlySeller => "Only Seller",
            SwapError::OrderExpired => "Order expired",
            SwapError::InvalidOffer => "Invalid Offer",
            SwapError::InvalidValue => "Invalid value",
            SwapError::UnAllowedMintToken => "Mint token is not allowed",
            SwapError::ProposalCannotBeCanceled => "Proposal cannot be canceled",
            SwapError::DepositIsNotAvailable => "Deposit is not available",
            SwapError::FulfillingIsNotAvailable => "Fulfilling is not available",
            SwapError::RedeemIsNotAvailable => "Redeem is not available",
            SwapError::WithdrawalIsNotAvailable => "Withdrawal is not available",
            SwapError::TransferTokenFromVaultIsNotAvailable => "Transfer token from vault is not available",
        }
    }
}

} // verus!
