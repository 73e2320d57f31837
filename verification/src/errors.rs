//! Error codes surfaced when a registration must abort.
//!
//! Every error is fatal to the whole call: the caller persists no state when
//! any of these is returned.

use vstd::prelude::*;

verus! {

/// The reason a registration call was rejected.
#[derive(Clone, Copy, PartialEq, Eq, Structural, Debug)]
pub enum ErrorCode {
    /// The supplied referrer account was never registered.
    ReferrerNotRegistered,
    /// The trailing account list is missing the reward-vault accounts.
    MissingVaultAAccounts,
    /// The caller is not allowed to perform this operation.
    NotAuthorized,
    /// An ancestor account is not owned by this program.
    InvalidSlotOwner,
    /// An account's recorded owner wallet does not match the supplied wallet.
    InvalidAccountOwner,
    /// An ancestor account was never registered.
    SlotNotRegistered,
    /// The deposit is below the oracle-derived minimum.
    InsufficientDeposit,
    /// Moving the deposit into escrow failed.
    SolReserveFailed,
    /// Paying the referrer from escrow failed.
    ReferrerPaymentFailed,
    /// Wrapping native currency into the swap-input asset failed.
    WrapSolFailed,
    /// Unwrapping the swap-input asset back to native currency failed.
    UnwrapSolFailed,
    /// A token account was derived for the wrong wallet.
    InvalidWalletForATA,
    /// A required ancestor account is missing from the trailing list.
    MissingUplineAccount,
    /// A payment destination is not a plain system-owned wallet.
    PaymentWalletInvalid,
    /// Reading the price feed failed.
    PriceFeedReadFailed,
    /// The price feed reading is too old.
    PriceFeedTooOld,
    /// The supplied oracle program is not the expected one.
    InvalidChainlinkProgram,
    /// The supplied price feed is not the expected one.
    InvalidPriceFeed,
    /// The supplied pool account is not the expected one.
    InvalidPoolAddress,
    /// A supplied vault account is not the expected one.
    InvalidVaultAddress,
    /// A supplied token mint is not the expected one.
    InvalidTokenMintAddress,
    /// The supplied vault program is not the expected one.
    InvalidVaultProgram,
    /// The supplied exchange program is not the expected one.
    InvalidAmmProgram,
    /// The supplied protocol fee account is not the expected one.
    InvalidProtocolFeeAccount,
    /// The exchange produced no output.
    SwapFailed,
    /// Destroying the exchanged tokens failed.
    BurnFailed,
    /// Reading the pool reserve data failed.
    PriceMeteoraReadFailed,
    /// A pool reserve computation overflowed.
    MeteoraCalculationOverflow,
    /// A deposit reached the end of processing without being allocated.
    UnusedDepositDetected,
    /// A third-slot registration under a non-root referrer supplied no ancestors.
    UplineRequiredForNonBase,
    /// The supplied ancestor accounts are not the stored ones in the stored order.
    InvalidUplineOrder,
    /// An ancestor's wallet does not match the stored wallet for that position.
    InvalidUplineWallet,
    /// The same ancestor account was supplied more than once in a single walk.
    DuplicateUplineExploit,
    /// The external ledger reported the wallet as never registered while active.
    UserNotRegisteredInAirdrop,
}

} // verus!
