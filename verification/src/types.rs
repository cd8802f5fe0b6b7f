//! The records of the contract (commitments, disputes, the liquidity pool,
//! its configuration) and their views.
use vstd::prelude::*;
use crate::party::Party;
use crate::tag::Tag;
use crate::bytes::copy_bytes;

verus! {

/// Where a commitment stands.
#[derive(Clone, Copy, PartialEq, Eq, Structural, Debug)]
pub enum Status {
    /// `PEND`: created, waiting for the counterparty to fund it.
    Pending,
    /// `ACTV`: funded; the down payment is held in escrow.
    Active,
    /// `CANC`: cancelled.
    Cancelled,
    /// `WAIT`: delivery confirmed, the review period runs.
    AwaitingReview,
    /// `COMP`: completed.
    Completed,
    /// `AUTO`: released automatically after the review period.
    AutoReleased,
    /// `DISP`: under dispute.
    Disputed,
}

/// Where a dispute stands.
#[derive(Clone, Copy, PartialEq, Eq, Structural, Debug)]
pub enum DisputeStatus {
    /// `OPEN`: waiting for the arbiter.
    Open,
    /// `ARBT`: decided by the arbiter.
    Arbitrated,
}

/// What the contract keeps beside the fixed fields of a commitment.
#[derive(Debug)]
pub struct ExtraData {
    /// The proof of delivery, once delivery was confirmed.
    pub proof: Option<Vec<u8>>,
    /// The last milestone released, if any.
    pub milestone: Option<u32>,
    /// The last installment paid, if any.
    pub installment: Option<u32>,
}

pub struct ExtraDataView {
    pub proof: Option<Seq<u8>>,
    pub milestone: Option<u32>,
    pub installment: Option<u32>,
}

impl View for ExtraData {
    type V = ExtraDataView;

    open spec fn view(&self) -> ExtraDataView {
        ExtraDataView {
            proof: match self.proof {
                Some(p) => Some(p@),
                None => None,
            },
            milestone: self.milestone,
            installment: self.installment,
        }
    }
}

/// A commitment between a creator and a counterparty.
#[derive(Debug)]
pub struct Commitment {
    pub id: u64,
    pub creator: Party,
    pub counterparty: Party,
    pub original_value: i128,
    pub net_value: i128,
    pub down_payment: i128,
    pub first_release_amount: i128,
    pub second_release_amount: i128,
    pub contract_type: Tag,
    pub status: Status,
    pub deadline: u64,
    pub accepted_at: u64,
    pub review_deadline: u64,
    pub auto_release_deadline: u64,
    pub first_release_done: bool,
    pub payment_status: Tag,
    pub custom_step: u32,
    pub escrow_balance: i128,
    pub platform_fee_percent: i128,
    pub guarantee_reserve_alloc_percent: i128,
    pub legal_doc_hash: Vec<u8>,
    pub extra_data: ExtraData,
    pub created_at: u64,
    pub contributes_to_pool: bool,
    pub liquidity_contribution: i128,
}

pub struct CommitmentView {
    pub id: u64,
    pub creator: Seq<u8>,
    pub counterparty: Seq<u8>,
    pub original_value: i128,
    pub net_value: i128,
    pub down_payment: i128,
    pub first_release_amount: i128,
    pub second_release_amount: i128,
    pub contract_type: Seq<u8>,
    pub status: Status,
    pub deadline: u64,
    pub accepted_at: u64,
    pub review_deadline: u64,
    pub auto_release_deadline: u64,
    pub first_release_done: bool,
    pub payment_status: Seq<u8>,
    pub custom_step: u32,
    pub escrow_balance: i128,
    pub platform_fee_percent: i128,
    pub guarantee_reserve_alloc_percent: i128,
    pub legal_doc_hash: Seq<u8>,
    pub extra_data: ExtraDataView,
    pub created_at: u64,
    pub contributes_to_pool: bool,
    pub liquidity_contribution: i128,
}

impl View for Commitment {
    type V = CommitmentView;

    open spec fn view(&self) -> CommitmentView {
        CommitmentView {
            id: self.id,
            creator: self.creator@,
            counterparty: self.counterparty@,
            original_value: self.original_value,
            net_value: self.net_value,
            down_payment: self.down_payment,
            first_release_amount: self.first_release_amount,
            second_release_amount: self.second_release_amount,
            contract_type: self.contract_type@,
            status: self.status,
            deadline: self.deadline,
            accepted_at: self.accepted_at,
            review_deadline: self.review_deadline,
            auto_release_deadline: self.auto_release_deadline,
            first_release_done: self.first_release_done,
            payment_status: self.payment_status@,
            custom_step: self.custom_step,
            escrow_balance: self.escrow_balance,
            platform_fee_percent: self.platform_fee_percent,
            guarantee_reserve_alloc_percent: self.guarantee_reserve_alloc_percent,
            legal_doc_hash: self.legal_doc_hash@,
            extra_data: self.extra_data@,
            created_at: self.created_at,
            contributes_to_pool: self.contributes_to_pool,
            liquidity_contribution: self.liquidity_contribution,
        }
    }
}

impl ExtraData {
    /// A copy of this data.
    pub fn duplicate(&self) -> (r: ExtraData)
        ensures
            r@ == self@,
    {
        ExtraData {
            proof: match &self.proof {
                Some(p) => Some(copy_bytes(p)),
                None => None,
            },
            milestone: self.milestone,
            installment: self.installment,
        }
    }
}

impl Commitment {
    /// A copy of this commitment.
    pub fn duplicate(&self) -> (r: Commitment)
        ensures
            r@ == self@,
    {
        Commitment {
            id: self.id,
            creator: self.creator.duplicate(),
            counterparty: self.counterparty.duplicate(),
            original_value: self.original_value,
            net_value: self.net_value,
            down_payment: self.down_payment,
            first_release_amount: self.first_release_amount,
            second_release_amount: self.second_release_amount,
            contract_type: self.contract_type.duplicate(),
            status: self.status,
            deadline: self.deadline,
            accepted_at: self.accepted_at,
            review_deadline: self.review_deadline,
            auto_release_deadline: self.auto_release_deadline,
            first_release_done: self.first_release_done,
            payment_status: self.payment_status.duplicate(),
            custom_step: self.custom_step,
            escrow_balance: self.escrow_balance,
            platform_fee_percent: self.platform_fee_percent,
            guarantee_reserve_alloc_percent: self.guarantee_reserve_alloc_percent,
            legal_doc_hash: copy_bytes(&self.legal_doc_hash),
            extra_data: self.extra_data.duplicate(),
            created_at: self.created_at,
            contributes_to_pool: self.contributes_to_pool,
            liquidity_contribution: self.liquidity_contribution,
        }
    }
}

/// A dispute over a commitment.
#[derive(Debug)]
pub struct Dispute {
    pub id: u64,
    pub contract_id: u64,
    pub plaintiff: Party,
    pub defendant: Party,
    pub status: DisputeStatus,
    pub penalty: Tag,
    pub opened_at: u64,
    pub resolved_at: u64,
}

pub struct DisputeView {
    pub id: u64,
    pub contract_id: u64,
    pub plaintiff: Seq<u8>,
    pub defendant: Seq<u8>,
    pub status: DisputeStatus,
    pub penalty: Seq<u8>,
    pub opened_at: u64,
    pub resolved_at: u64,
}

impl View for Dispute {
    type V = DisputeView;

    open spec fn view(&self) -> DisputeView {
        DisputeView {
            id: self.id,
            contract_id: self.contract_id,
            plaintiff: self.plaintiff@,
            defendant: self.defendant@,
            status: self.status,
            penalty: self.penalty@,
            opened_at: self.opened_at,
            resolved_at: self.resolved_at,
        }
    }
}

/// The state of the liquidity pool fed by part of every escrowed down payment.
#[derive(Clone, Copy, PartialEq, Eq, Structural, Debug)]
pub struct LiquidityPoolState {
    pub total_pooled: i128,
    pub total_recycled_fees: i128,
    pub active_contributors: u32,
    /// The pooled amount as a share of all escrow, in basis points.
    pub pool_utilization: i128,
    pub last_updated: u64,
}

/// What the payment server submits to create a commitment.
#[derive(Debug)]
pub struct CommitmentParams {
    pub original_value: i128,
    pub net_value: i128,
    pub down_payment: i128,
    pub contract_type: Tag,
    pub deadline: u64,
    pub pi_payment_id: Vec<u8>,
    pub first_release_amount: i128,
    pub second_release_amount: i128,
    pub legal_doc_hash: Vec<u8>,
}

pub struct CommitmentParamsView {
    pub original_value: i128,
    pub net_value: i128,
    pub down_payment: i128,
    pub contract_type: Seq<u8>,
    pub deadline: u64,
    pub pi_payment_id: Seq<u8>,
    pub first_release_amount: i128,
    pub second_release_amount: i128,
    pub legal_doc_hash: Seq<u8>,
}

impl View for CommitmentParams {
    type V = CommitmentParamsView;

    open spec fn view(&self) -> CommitmentParamsView {
        CommitmentParamsView {
            original_value: self.original_value,
            net_value: self.net_value,
            down_payment: self.down_payment,
            contract_type: self.contract_type@,
            deadline: self.deadline,
            pi_payment_id: self.pi_payment_id@,
            first_release_amount: self.first_release_amount,
            second_release_amount: self.second_release_amount,
            legal_doc_hash: self.legal_doc_hash@,
        }
    }
}

/// The addresses that `initialize` records.
#[derive(Debug)]
pub struct Config {
    pub admin: Party,
    pub pi_server: Party,
    pub azman_token: Party,
    pub certificate_registry: Party,
    pub platform_wallet: Party,
    pub reserve_wallet: Party,
    pub dao_wallet: Party,
}

pub struct ConfigView {
    pub admin: Seq<u8>,
    pub pi_server: Seq<u8>,
    pub azman_token: Seq<u8>,
    pub certificate_registry: Seq<u8>,
    pub platform_wallet: Seq<u8>,
    pub reserve_wallet: Seq<u8>,
    pub dao_wallet: Seq<u8>,
}

impl View for Config {
    type V = ConfigView;

    open spec fn view(&self) -> ConfigView {
        ConfigView {
            admin: self.admin@,
            pi_server: self.pi_server@,
            azman_token: self.azman_token@,
            certificate_registry: self.certificate_registry@,
            platform_wallet: self.platform_wallet@,
            reserve_wallet: self.reserve_wallet@,
            dao_wallet: self.dao_wallet@,
        }
    }
}

impl Dispute {
    /// A copy of this dispute.
    pub fn duplicate(&self) -> (r: Dispute)
        ensures
            r@ == self@,
    {
        Dispute {
            id: self.id,
            contract_id: self.contract_id,
            plaintiff: self.plaintiff.duplicate(),
            defendant: self.defendant.duplicate(),
            status: self.status,
            penalty: self.penalty.duplicate(),
            opened_at: self.opened_at,
            resolved_at: self.resolved_at,
        }
    }
}

/// The reputation points of one party.
#[derive(Debug)]
pub struct ReputationEntry {
    pub party: Party,
    pub points: i128,
}

/// Why the contract refused a call. Each refusal leaves the state as it was.
#[derive(Clone, Copy, PartialEq, Eq, Structural, Debug)]
pub enum MithaqError {
    AlreadyInitialized,
    NotInitialized,
    ReentrancyDetected,
    NetValueNotPositive,
    InvalidDownPayment,
    SelfDealingProhibited,
    ReleaseSumMismatch,
    FirstReleaseExceedsDownPayment,
    DeadlineNotInFuture,
    ReputationTooLow,
    LtvExceedsLimit,
    CommitmentNotFound,
    InvalidState,
    AuthFailed,
    ConsentRequired,
    NotAParty,
    InvalidCaller,
    InsufficientEscrow,
    NotReady,
    NoStanding,
    IneligibleState,
    DisputeNotFound,
    CaseClosed,
    WinnerNotAParty,
    NotConstruction,
    OnlyCounterparty,
    ContractFrozen,
    MilestoneOutOfRange,
    DoubleSpending,
    NotTuition,
    UnauthorizedPayer,
    NotInGoodStanding,
    InstallmentOutOfRange,
    InstallmentCleared,
    Unauthorized,
    ArithmeticOverflow,
}

} // verus!
