//! Plain values shared by every module of the contract model.

use vstd::prelude::*;

verus! {

/// An account or contract on the ledger, identified by a stable numeric id.
/// The host-side shell keeps the mapping between ledger addresses and ids.
pub type Address = u64;

/// Largest platform fee the contract accepts, in basis points (10%).
pub const MAX_PLATFORM_FEE_BPS: u32 = 1000;

/// Basis-point denominator (100%).
pub const BPS_DENOMINATOR: i128 = 10_000;

/// A token movement that the contract asks the ledger to perform, in order,
/// once a call has been accepted. A failing movement reverts the whole call.
#[derive(Clone, Copy, Debug, PartialEq, Eq, Structural)]
pub struct Transfer {
    pub token: Address,
    pub from: Address,
    pub to: Address,
    pub amount: i128,
}

/// Every reason for which the contract rejects a call. A rejected call
/// leaves the contract state exactly as it was.
#[derive(Clone, Copy, Debug, PartialEq, Eq, Structural)]
pub enum ContractError {
    AlreadyInitialized,
    NotInitialized,
    FeeTooHigh,
    NotAdmin,
    NotAuthorized,
    InvalidAmount,
    ArithmeticOverflow,
    ActionPaused,
    TaskNotFound,
    TaskNotOpen,
    TaskNotInProgress,
    TaskNotCompleted,
    TaskNotDisputed,
    TaskNotDisputable,
    NotTaskCreator,
    NotAssignee,
    NoAssignee,
    InvalidSplit,
    InsufficientEscrow,
    MilestoneNotFound,
    MilestoneNotSubmittable,
    MilestoneNotSubmitted,
    ProfileExists,
    ProfileNotFound,
    RoleNotFound,
    ProposalNotFound,
    ProposalNotActive,
    VotingClosed,
    VotingStillOpen,
    AlreadyVoted,
    NotSigner,
    InvalidSignerSet,
    InvalidAction,
    ProposalNotPending,
    ProposalNotApproved,
    ProposalExpired,
    ThresholdNotMet,
    MultisigNotConfigured,
    TokenNotSupported,
    InsufficientBalance,
    PayrollRootNotFound,
    PayrollAlreadyClaimed,
    InvalidMerkleProof,
    RouterNotConfigured,
    InvalidRouterConfig,
    InvalidSlippage,
    SlippageExceeded,
    TreasuryNotConfigured,
    InvalidSchedule,
    OverAllocation,
    ScheduleNotFound,
    NotBeneficiary,
    NothingToClaim,
    UpgradePending,
    NoPendingUpgrade,
    UpgradeNotPending,
    UpgradeAlreadyExecuted,
    UpgradeVetoed,
    TimelockNotElapsed,
    TimelockTooShort,
    NotGuardian,
    VaultNotFound,
    VaultNotActive,
    VaultNotDisputed,
    VaultExists,
    MilestoneNotApproved,
    VestingPeriodTooShort,
    VestingPeriodTooLong,
    VestingNotEnded,
    VestingEnded,
    TwapNotConfigured,
    InsufficientObservations,
    FallbackPriceMissing,
    InvalidVerificationKey,
    InsufficientReputation,
}

/// Rust's `/` on integers: the quotient truncated toward zero.
pub open spec fn trunc_div(a: int, b: int) -> int
    recommends
        b != 0,
{
    if a >= 0 {
        if b > 0 { a / b } else { -(a / (-b)) }
    } else {
        if b > 0 { -((-a) / b) } else { (-a) / (-b) }
    }
}

/// Whether a mathematical integer fits in `i128`.
pub open spec fn fits_i128(x: int) -> bool {
    i128::MIN <= x <= i128::MAX
}

} // verus!
