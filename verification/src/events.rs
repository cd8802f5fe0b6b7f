//! The events the contract publishes and the actions it asks the outside
//! world to perform.
use vstd::prelude::*;
use crate::party::Party;
use crate::tag::Tag;

verus! {

/// Published when a commitment is created.
#[derive(Debug)]
pub struct ContractCreated {
    pub id: u64,
    pub creator: Party,
    pub contract_type: Tag,
    pub net_value: i128,
    pub down_payment: i128,
}

/// Published when the counterparty funds a commitment.
#[derive(Debug)]
pub struct ContractAccepted {
    pub id: u64,
    pub counterparty: Party,
    pub escrowed_amount: i128,
}

/// Published when a commitment is cancelled.
#[derive(Debug)]
pub struct ContractCancelled {
    pub id: u64,
    pub by: Party,
    pub refunded: i128,
}

/// Published when the payment server reports a payment state.
#[derive(Debug)]
pub struct PaymentUpdated {
    pub id: u64,
    pub status: Tag,
}

/// Published when the counterparty confirms delivery.
#[derive(Debug)]
pub struct DeliveryConfirmed {
    pub id: u64,
    pub amount: i128,
    pub proof_hash: Vec<u8>,
}

/// Published when the counterparty accepts the delivery after review.
#[derive(Clone, Copy, PartialEq, Eq, Structural, Debug)]
pub struct ContractCompleted {
    pub id: u64,
    pub final_payout: i128,
    pub fees_paid: i128,
}

/// Published when the escrow is released after the review period ran out.
#[derive(Clone, Copy, PartialEq, Eq, Structural, Debug)]
pub struct AutoReleased {
    pub id: u64,
    pub payout: i128,
}

/// Published when a party opens a dispute.
#[derive(Debug)]
pub struct DisputeOpened {
    pub dispute_id: u64,
    pub contract_id: u64,
    pub by: Party,
    pub reason: Vec<u8>,
}

/// Published when the arbiter resolves a dispute.
#[derive(Debug)]
pub struct DisputeResolved {
    pub dispute_id: u64,
    pub winner: Party,
    pub verdict: Vec<u8>,
    pub payout: i128,
}

/// Published when a construction milestone is paid out.
#[derive(Clone, Copy, PartialEq, Eq, Structural, Debug)]
pub struct MilestoneReleased {
    pub id: u64,
    pub milestone: u32,
    pub amount: i128,
}

/// Published when a tuition installment is paid.
#[derive(Clone, Copy, PartialEq, Eq, Structural, Debug)]
pub struct InstallmentPaid {
    pub id: u64,
    pub installment: u32,
    pub amount: i128,
}

/// A contribution to the liquidity pool.
#[derive(Clone, Copy, PartialEq, Eq, Structural, Debug)]
pub struct LiquidityContributed {
    pub contract_id: u64,
    pub amount: i128,
    pub total_pooled: i128,
}

/// A withdrawal from the liquidity pool.
#[derive(Clone, Copy, PartialEq, Eq, Structural, Debug)]
pub struct LiquidityWithdrawn {
    pub contract_id: u64,
    pub amount: i128,
    pub total_pooled: i128,
}

/// Fees put back into circulation until `recycle_end`.
#[derive(Clone, Copy, PartialEq, Eq, Structural, Debug)]
pub struct FeesRecycled {
    pub amount: i128,
    pub recycle_end: u64,
}

/// A change of the pool's utilization and the fee adjustment it brought.
#[derive(Clone, Copy, PartialEq, Eq, Structural, Debug)]
pub struct PoolRebalanced {
    pub old_utilization: i128,
    pub new_utilization: i128,
    pub fee_adjustment: i128,
}

/// How a forfeited amount was split between the platform, the guarantee
/// reserve and the DAO treasury.
#[derive(Clone, Copy, PartialEq, Eq, Structural, Debug)]
pub struct FeesDistributed {
    pub total: i128,
    pub platform: i128,
    pub reserve: i128,
    pub dao: i128,
}

/// An event, with the topic it is published under.
#[derive(Debug)]
pub enum Event {
    Created(ContractCreated),
    Accepted(ContractAccepted),
    Cancelled(ContractCancelled),
    PaymentUpdated(PaymentUpdated),
    Delivered(DeliveryConfirmed),
    Completed(ContractCompleted),
    AutoReleased(AutoReleased),
    DisputeOpened(DisputeOpened),
    DisputeResolved(DisputeResolved),
    MilestoneReleased(MilestoneReleased),
    InstallmentPaid(InstallmentPaid),
    ForfeitureDistributed(FeesDistributed),
    PlatformWalletUpdated(Party),
    ReserveWalletUpdated(Party),
    DaoWalletUpdated(Party),
}

pub enum EventView {
    Created { id: u64, creator: Seq<u8>, contract_type: Seq<u8>, net_value: i128, down_payment: i128 },
    Accepted { id: u64, counterparty: Seq<u8>, escrowed_amount: i128 },
    Cancelled { id: u64, by: Seq<u8>, refunded: i128 },
    PaymentUpdated { id: u64, status: Seq<u8> },
    Delivered { id: u64, amount: i128, proof_hash: Seq<u8> },
    Completed(ContractCompleted),
    AutoReleased(AutoReleased),
    DisputeOpened { dispute_id: u64, contract_id: u64, by: Seq<u8>, reason: Seq<u8> },
    DisputeResolved { dispute_id: u64, winner: Seq<u8>, verdict: Seq<u8>, payout: i128 },
    MilestoneReleased(MilestoneReleased),
    InstallmentPaid(InstallmentPaid),
    ForfeitureDistributed(FeesDistributed),
    PlatformWalletUpdated(Seq<u8>),
    ReserveWalletUpdated(Seq<u8>),
    DaoWalletUpdated(Seq<u8>),
}

impl View for Event {
    type V = EventView;

    open spec fn view(&self) -> EventView {
        match self {
            Event::Created(e) => EventView::Created {
                id: e.id,
                creator: e.creator@,
                contract_type: e.contract_type@,
                net_value: e.net_value,
                down_payment: e.down_payment,
            },
            Event::Accepted(e) => EventView::Accepted {
                id: e.id,
                counterparty: e.counterparty@,
                escrowed_amount: e.escrowed_amount,
            },
            Event::Cancelled(e) => EventView::Cancelled { id: e.id, by: e.by@, refunded: e.refunded },
            Event::PaymentUpdated(e) => EventView::PaymentUpdated { id: e.id, status: e.status@ },
            Event::Delivered(e) => EventView::Delivered {
                id: e.id,
                amount: e.amount,
                proof_hash: e.proof_hash@,
            },
            Event::Completed(e) => EventView::Completed(*e),
            Event::AutoReleased(e) => EventView::AutoReleased(*e),
            Event::DisputeOpened(e) => EventView::DisputeOpened {
                dispute_id: e.dispute_id,
                contract_id: e.contract_id,
                by: e.by@,
                reason: e.reason@,
            },
            Event::DisputeResolved(e) => EventView::DisputeResolved {
                dispute_id: e.dispute_id,
                winner: e.winner@,
                verdict: e.verdict@,
                payout: e.payout,
            },
            Event::MilestoneReleased(e) => EventView::MilestoneReleased(*e),
            Event::InstallmentPaid(e) => EventView::InstallmentPaid(*e),
            Event::ForfeitureDistributed(e) => EventView::ForfeitureDistributed(*e),
            Event::PlatformWalletUpdated(p) => EventView::PlatformWalletUpdated(p@),
            Event::ReserveWalletUpdated(p) => EventView::ReserveWalletUpdated(p@),
            Event::DaoWalletUpdated(p) => EventView::DaoWalletUpdated(p@),
        }
    }
}

/// The topic an event is published under.
pub open spec fn topic_of(e: EventView) -> Seq<char> {
    match e {
        EventView::Created { .. } => "created"@,
        EventView::Accepted { .. } => "accepted"@,
        EventView::Cancelled { .. } => "cancelled"@,
        EventView::PaymentUpdated { .. } => "pay_update"@,
        EventView::Delivered { .. } => "delivered"@,
        EventView::Completed(_) => "completed"@,
        EventView::AutoReleased(_) => "auto_rel"@,
        EventView::DisputeOpened { .. } => "dispute_open"@,
        EventView::DisputeResolved { .. } => "dispute_res"@,
        EventView::MilestoneReleased(_) => "milestone"@,
        EventView::InstallmentPaid(_) => "install"@,
        EventView::ForfeitureDistributed(_) => "forfeit_dist"@,
        EventView::PlatformWalletUpdated(_) => "upd_plat"@,
        EventView::ReserveWalletUpdated(_) => "upd_res"@,
        EventView::DaoWalletUpdated(_) => "upd_dao"@,
    }
}

impl Event {
    /// The topic the event is published under.
    pub fn topic(&self) -> (t: &'static str)
        ensures
            t@ == topic_of(self@),
    {
        match self {
            Event::Created(_) => "created",
            Event::Accepted(_) => "accepted",
            Event::Cancelled(_) => "cancelled",
            Event::PaymentUpdated(_) => "pay_update",
            Event::Delivered(_) => "delivered",
            Event::Completed(_) => "completed",
            Event::AutoReleased(_) => "auto_rel",
            Event::DisputeOpened(_) => "dispute_open",
            Event::DisputeResolved(_) => "dispute_res",
            Event::MilestoneReleased(_) => "milestone",
            Event::InstallmentPaid(_) => "install",
            Event::ForfeitureDistributed(_) => "forfeit_dist",
            Event::PlatformWalletUpdated(_) => "upd_plat",
            Event::ReserveWalletUpdated(_) => "upd_res",
            Event::DaoWalletUpdated(_) => "upd_dao",
        }
    }
}

/// Who holds tokens before or after a transfer.
#[derive(Debug)]
pub enum Holder {
    /// The contract's own account, where escrow is kept.
    Contract,
    /// Another account.
    Account(Party),
}

pub enum HolderView {
    Contract,
    Account(Seq<u8>),
}

impl View for Holder {
    type V = HolderView;

    open spec fn view(&self) -> HolderView {
        match self {
            Holder::Contract => HolderView::Contract,
            Holder::Account(p) => HolderView::Account(p@),
        }
    }
}

/// The text a certificate is issued with.
#[derive(Clone, Copy, PartialEq, Eq, Structural, Debug)]
pub enum Imprint {
    Verified,
    AutoVerified,
    DisputeResolved,
}

/// The text printed on a certificate.
pub open spec fn imprint_text(i: Imprint) -> Seq<char> {
    match i {
        Imprint::Verified => "Mithaq Verified"@,
        Imprint::AutoVerified => "Mithaq Auto-Verified"@,
        Imprint::DisputeResolved => "Mithaq Dispute-Resolved"@,
    }
}

impl Imprint {
    /// The text printed on the certificate.
    pub fn text(&self) -> (t: &'static str)
        ensures
            t@ == imprint_text(*self),
    {
        match self {
            Imprint::Verified => "Mithaq Verified",
            Imprint::AutoVerified => "Mithaq Auto-Verified",
            Imprint::DisputeResolved => "Mithaq Dispute-Resolved",
        }
    }
}

/// What the contract asks the outside world to do, in order.
#[derive(Debug)]
pub enum Action {
    /// Move `amount` of the configured token from `from` to `to`.
    Transfer { from: Holder, to: Holder, amount: i128 },
    /// Hand `fees`, paid by the contract, to the token's fee distribution,
    /// with `guarantee_alloc_percent` of them for the guarantee reserve.
    DistributeFees { fees: i128, guarantee_alloc_percent: i128 },
    /// Ask the certificate registry for a certificate of the commitment.
    IssueCertificate { commitment_id: u64, creator: Party, counterparty: Party, imprint: Imprint },
    /// Publish an event.
    Publish(Event),
}

pub enum ActionView {
    Transfer { from: HolderView, to: HolderView, amount: i128 },
    DistributeFees { fees: i128, guarantee_alloc_percent: i128 },
    IssueCertificate { commitment_id: u64, creator: Seq<u8>, counterparty: Seq<u8>, imprint: Imprint },
    Publish(EventView),
}

impl View for Action {
    type V = ActionView;

    open spec fn view(&self) -> ActionView {
        match self {
            Action::Transfer { from, to, amount } => ActionView::Transfer {
                from: from@,
                to: to@,
                amount: *amount,
            },
            Action::DistributeFees { fees, guarantee_alloc_percent } => ActionView::DistributeFees {
                fees: *fees,
                guarantee_alloc_percent: *guarantee_alloc_percent,
            },
            Action::IssueCertificate { commitment_id, creator, counterparty, imprint } =>
                ActionView::IssueCertificate {
                    commitment_id: *commitment_id,
                    creator: creator@,
                    counterparty: counterparty@,
                    imprint: *imprint,
                },
            Action::Publish(e) => ActionView::Publish(e@),
        }
    }
}

/// The views of a list of actions.
pub open spec fn actions_view(acts: Seq<Action>) -> Seq<ActionView> {
    acts.map_values(|a: Action| a@)
}

} // verus!
