//! Values shared by the aggregator, the stake ledger and governance.
use vstd::prelude::*;

verus! {

/// An account identity: 32 opaque bytes.
#[derive(Clone, Copy, Debug)]
pub struct Pubkey {
    pub bytes: [u8; 32],
}

impl Pubkey {
    /// The all-zero key, used for unused submission slots.
    pub fn zero() -> (r: Pubkey)
        ensures
            forall|i: int| 0 <= i < 32 ==> r.bytes@[i] == 0u8,
    {
        Pubkey { bytes: [0u8; 32] }
    }

    /// Byte-wise equality of two keys.
    pub fn same(&self, other: &Pubkey) -> (r: bool)
        ensures
            r == (self.bytes@ == other.bytes@),
    {
        let mut i: usize = 0;
        while i < 32
            invariant
                0 <= i <= 32,
                self.bytes@.len() == 32,
                other.bytes@.len() == 32,
                forall|j: int| 0 <= j < i ==> self.bytes@[j] == other.bytes@[j],
            decreases 32 - i,
        {
            if self.bytes[i] != other.bytes[i] {
                return false;
            }
            i = i + 1;
        }
        assert(self.bytes@ =~= other.bytes@);
        true
    }
}


/// Failure codes; each names exactly one reason an operation was refused.
#[derive(Clone, Copy, Debug, PartialEq, Eq, Structural)]
pub enum ErrorCode {
    PriceNotTrading,
    PriceStale,
    InsufficientStake,
    UnauthorizedPublisher,
    InsufficientPublishers,
    InvalidPrice,
    InvalidTimestamp,
    ConfidenceTooLarge,
    Overflow,
    PublisherExists,
    Unauthorized,
    ProposalNotApproved,
    UnbondingPeriodActive,
    SystemPaused,
    InvalidSlashPercentage,
    VotingPeriodEnded,
    QuorumNotReached,
    TimelockNotExpired,
    PublishersArrayFull,
    InvalidProposalType,
    VotingPeriodActive,
}

impl ErrorCode {
    /// The human-readable message of the code.
    pub fn message(&self) -> (r: &'static str) {
        match self {
            ErrorCode::PriceNotTrading => "Price feed is not in trading status",
            ErrorCode::PriceStale => "Price data is stale",
            ErrorCode::InsufficientStake => "Insufficient stake amount",
            ErrorCode::UnauthorizedPublisher => "Publisher not authorized for this feed",
            ErrorCode::InsufficientPublishers => "Not enough publishers reporting",
            ErrorCode::InvalidPrice => "Invalid price data",
            ErrorCode::InvalidTimestamp => "Invalid timestamp",
            ErrorCode::ConfidenceTooLarge => "Confidence interval too large",
            ErrorCode::Overflow => "Arithmetic overflow",
            ErrorCode::PublisherExists => "Publisher already exists",
            ErrorCode::Unauthorized => "Unauthorized action",
            ErrorCode::ProposalNotApproved => "Proposal not approved",
            ErrorCode::UnbondingPeriodActive => "Unbonding period not elapsed",
            ErrorCode::SystemPaused => "System is paused",
            ErrorCode::InvalidSlashPercentage => "Invalid slash percentage",
            ErrorCode::VotingPeriodEnded => "Voting period ended",
            ErrorCode::QuorumNotReached => "Quorum not reached",
            ErrorCode::TimelockNotExpired => "Timelock not expired",
            ErrorCode::PublishersArrayFull => "Publishers array is full",
            ErrorCode::InvalidProposalType => "Invalid proposal type",
            ErrorCode::VotingPeriodActive => "Voting period active",
        }
    }
}

/// Trading status of a feed's aggregate.
#[derive(Clone, Copy, Debug, PartialEq, Eq, Structural)]
pub enum PriceStatus {
    Trading,
    Halted,
    Auction,
    Unknown,
}

impl Default for PriceStatus {
    fn default() -> (r: PriceStatus)
        ensures
            r == PriceStatus::Unknown,
    {
        PriceStatus::Unknown
    }
}

/// Class of a tracked instrument.
#[derive(Clone, Copy, Debug, PartialEq, Eq, Structural)]
pub enum AssetType {
    Crypto,
    Equity,
    Forex,
    Commodity,
}

impl Default for AssetType {
    fn default() -> (r: AssetType)
        ensures
            r == AssetType::Crypto,
    {
        AssetType::Crypto
    }
}

/// Kind of price a feed tracks.
#[derive(Clone, Copy, Debug, PartialEq, Eq, Structural)]
pub enum PriceType {
    Spot,
    Futures,
    Option,
}

impl Default for PriceType {
    fn default() -> (r: PriceType)
        ensures
            r == PriceType::Spot,
    {
        PriceType::Spot
    }
}

/// A ballot choice.
#[derive(Clone, Copy, Debug, PartialEq, Eq, Structural)]
pub enum VoteType {
    Yes,
    No,
    Abstain,
}

/// The action a governance proposal carries out once executed.
#[derive(Clone, Copy, Debug)]
pub enum ProposalType {
    UpdateRewardRate { new_rate: u64 },
    UpdateMinPublishers { feed: Pubkey, new_min: u8 },
    SlashPublisher { publisher: Pubkey, percentage: u8 },
    EmergencyPause,
    EmergencyUnpause,
    UpdateGovernanceParams {
        proposal_threshold: Option<u64>,
        voting_period: Option<u64>,
        quorum_percentage: Option<u8>,
        timelock_duration: Option<u64>,
    },
}

/// A feed's consensus price.
#[derive(Clone, Copy, Debug)]
pub struct PriceData {
    pub price: i64,
    pub confidence: u64,
    pub exponent: i32,
    pub timestamp: i64,
    pub slot: u64,
    pub status: PriceStatus,
}

impl Default for PriceData {
    fn default() -> (r: PriceData)
        ensures
            r.price == 0 && r.confidence == 0 && r.exponent == 0 && r.timestamp == 0
                && r.slot == 0 && r.status == PriceStatus::Unknown,
    {
        PriceData {
            price: 0,
            confidence: 0,
            exponent: 0,
            timestamp: 0,
            slot: 0,
            status: PriceStatus::Unknown,
        }
    }
}

/// One publisher's latest observation, held in a submission slot.
#[derive(Clone, Copy, Debug)]
pub struct PublisherPrice {
    pub publisher: Pubkey,
    pub price: i64,
    pub confidence: u64,
    pub timestamp: i64,
    pub slot: u64,
    /// The publisher's stake when it submitted: the weight of this entry.
    pub stake: u64,
    /// Whether the slot is in use.
    pub active: bool,
}

impl Default for PublisherPrice {
    fn default() -> (r: PublisherPrice)
        ensures
            !r.active && r.price == 0 && r.confidence == 0 && r.timestamp == 0 && r.slot == 0
                && r.stake == 0,
    {
        PublisherPrice {
            publisher: Pubkey::zero(),
            price: 0,
            confidence: 0,
            timestamp: 0,
            slot: 0,
            stake: 0,
            active: false,
        }
    }
}

/// Exponential moving average of a feed's consensus price and confidence.
#[derive(Clone, Copy, Debug)]
pub struct EmaData {
    pub ema_price: i64,
    pub ema_confidence: u64,
    pub num_observations: u64,
}

impl Default for EmaData {
    fn default() -> (r: EmaData)
        ensures
            r.ema_price == 0 && r.ema_confidence == 0 && r.num_observations == 0,
    {
        EmaData { ema_price: 0, ema_confidence: 0, num_observations: 0 }
    }
}

/// Notification: a feed's aggregate was recomputed.
#[derive(Clone, Debug)]
pub struct PriceUpdated {
    pub product: Pubkey,
    pub symbol: String,
    pub price: i64,
    pub confidence: u64,
    pub timestamp: i64,
    pub slot: u64,
    pub status: PriceStatus,
}

/// Notification: a publisher registered.
#[derive(Clone, Debug)]
pub struct PublisherAdded {
    pub publisher: Pubkey,
    pub authority: Pubkey,
    pub stake_amount: u64,
    pub name: String,
}

/// Notification: a publisher's stake was slashed.
#[derive(Clone, Debug)]
pub struct PublisherSlashed {
    pub publisher: Pubkey,
    pub slash_amount: u64,
    pub slash_percentage: u8,
    pub reason: String,
}

/// Notification: a proposal was created.
#[derive(Clone, Debug)]
pub struct ProposalCreated {
    pub proposal_id: u64,
    pub proposer: Pubkey,
    pub proposal_type: ProposalType,
    pub description: String,
}

/// Notification: a proposal passed its timelock and was executed.
#[derive(Clone, Debug)]
pub struct ProposalExecuted {
    pub proposal_id: u64,
    pub proposal_type: ProposalType,
}

/// Notification: the system was paused.
#[derive(Clone, Copy, Debug)]
pub struct SystemPaused {
    pub timestamp: i64,
    pub authority: Pubkey,
}

/// Notification: the system was unpaused.
#[derive(Clone, Copy, Debug)]
pub struct SystemUnpaused {
    pub timestamp: i64,
    pub authority: Pubkey,
}

} // verus!
