//! The contract's state as executable values, its lookups and the entry
//! points that do not move funds: initialization, administration and the
//! views.
use vstd::prelude::*;
use crate::party::Party;
use crate::types::{
    Commitment, CommitmentView, Config, ConfigView, Dispute, DisputeView, LiquidityPoolState,
    MithaqError, ReputationEntry,
};
use crate::events::{actions_view, Action, ActionView, Event, FeesDistributed, Holder};
use crate::rules::{checked_next_reputation, forfeiture_split_fits, split_forfeiture, INITIAL_UTILIZATION_BPS};
use crate::state::{add_reputation_twice, fee_distribution, forfeiture_actions, rep_in, transfer_out, MithaqState, Outcome};

verus! {

/// The state of a Mithaq contract.
pub struct MithaqContract {
    pub config: Option<Config>,
    pub commitments: Vec<Commitment>,
    pub disputes: Vec<Dispute>,
    pub reputations: Vec<ReputationEntry>,
    pub total_escrow: i128,
    pub pool: Option<LiquidityPoolState>,
    pub locked: bool,
}

pub open spec fn config_view(c: Option<Config>) -> Option<ConfigView> {
    match c {
        Some(c) => Some(c@),
        None => None,
    }
}

pub open spec fn commitments_view(s: Seq<Commitment>) -> Seq<CommitmentView> {
    s.map_values(|c: Commitment| c@)
}

pub open spec fn disputes_view(s: Seq<Dispute>) -> Seq<DisputeView> {
    s.map_values(|d: Dispute| d@)
}

/// The reputations recorded in `entries`; a later entry for a party overrides
/// an earlier one.
pub open spec fn rep_map(entries: Seq<ReputationEntry>) -> Map<Seq<u8>, i128>
    decreases entries.len(),
{
    if entries.len() == 0 {
        Map::empty()
    } else {
        rep_map(entries.drop_last()).insert(entries.last().party@, entries.last().points)
    }
}

/// No party has two entries.
pub open spec fn distinct_parties(entries: Seq<ReputationEntry>) -> bool {
    forall|i: int, j: int|
        0 <= i < entries.len() && 0 <= j < entries.len() && i != j ==> entries[i].party@
            != entries[j].party@
}

impl View for MithaqContract {
    type V = MithaqState;

    open spec fn view(&self) -> MithaqState {
        MithaqState {
            config: config_view(self.config),
            commitments: commitments_view(self.commitments@),
            disputes: disputes_view(self.disputes@),
            reputation: rep_map(self.reputations@),
            total_escrow: self.total_escrow,
            pool: self.pool,
            locked: self.locked,
        }
    }
}

/// How a result of an entry point answers the outcome it owes: the same
/// refusal with the state unchanged, or the next state and the actions.
pub open spec fn answers(o: Outcome, pre: MithaqState, post: MithaqState, r: Result<Seq<ActionView>, MithaqError>) -> bool {
    match o {
        Outcome::Done(s, acts) => r == Ok::<Seq<ActionView>, MithaqError>(acts) && post == s,
        Outcome::Refused(e) => r == Err::<Seq<ActionView>, MithaqError>(e) && post == pre,
    }
}

/// The views of a result that carries actions.
pub open spec fn result_view(r: Result<Vec<Action>, MithaqError>) -> Result<Seq<ActionView>, MithaqError> {
    match r {
        Ok(acts) => Ok(actions_view(acts@)),
        Err(e) => Err(e),
    }
}

pub proof fn lemma_rep_map_has(s: Seq<ReputationEntry>, k: Seq<u8>)
    ensures
        rep_map(s).contains_key(k) <==> exists|i: int| 0 <= i < s.len() && s[i].party@ == k,
    decreases s.len(),
{
    if s.len() > 0 {
        lemma_rep_map_has(s.drop_last(), k);
        if rep_map(s).contains_key(k) && s.last().party@ != k {
            let i = choose|i: int| 0 <= i < s.drop_last().len() && s.drop_last()[i].party@ == k;
            assert(s[i].party@ == k);
        }
        if exists|i: int| 0 <= i < s.len() && s[i].party@ == k {
            let i = choose|i: int| 0 <= i < s.len() && s[i].party@ == k;
            if i < s.len() - 1 {
                assert(s.drop_last()[i].party@ == k);
            }
        }
    }
}

pub proof fn lemma_rep_map_at(s: Seq<ReputationEntry>, i: int)
    requires
        distinct_parties(s),
        0 <= i < s.len(),
    ensures
        rep_map(s).contains_key(s[i].party@),
        rep_map(s)[s[i].party@] == s[i].points,
    decreases s.len(),
{
    if i < s.len() - 1 {
        assert(s.drop_last()[i] == s[i]);
        lemma_rep_map_at(s.drop_last(), i);
        assert(s.last().party@ != s[i].party@);
    }
}

pub proof fn lemma_rep_map_update(s: Seq<ReputationEntry>, i: int, e: ReputationEntry)
    requires
        distinct_parties(s),
        0 <= i < s.len(),
        e.party@ == s[i].party@,
    ensures
        rep_map(s.update(i, e)) == rep_map(s).insert(e.party@, e.points),
        distinct_parties(s.update(i, e)),
    decreases s.len(),
{
    let t = s.update(i, e);
    if i == s.len() - 1 {
        assert(t.drop_last() =~= s.drop_last());
        assert(rep_map(t) =~= rep_map(s).insert(e.party@, e.points));
    } else {
        assert(t.drop_last() =~= s.drop_last().update(i, e));
        lemma_rep_map_update(s.drop_last(), i, e);
        assert(s.last().party@ != s[i].party@);
        assert(rep_map(t) =~= rep_map(s).insert(e.party@, e.points));
    }
}

/// Appends an action.
pub fn push_action(acts: &mut Vec<Action>, a: Action)
    ensures
        actions_view(final(acts)@) == actions_view(old(acts)@).push(a@),
{
    let ghost a_view = a@;
    acts.push(a);
    assert(actions_view(acts@) =~= actions_view(old(acts)@).push(a_view));
}

/// Appends a payment of `amount` from the contract to `to`, unless it is not
/// positive.
pub fn push_transfer_out(acts: &mut Vec<Action>, to: &Party, amount: i128)
    ensures
        actions_view(final(acts)@) == actions_view(old(acts)@) + transfer_out(to@, amount as int),
{
    if amount > 0 {
        push_action(acts, Action::Transfer { from: Holder::Contract, to: Holder::Account(to.duplicate()), amount });
        assert(actions_view(acts@) =~= actions_view(old(acts)@) + transfer_out(to@, amount as int));
    } else {
        assert(actions_view(acts@) =~= actions_view(old(acts)@) + transfer_out(to@, amount as int));
    }
}

/// Appends the distribution of `fees`, unless they are not positive.
pub fn push_fee_distribution(acts: &mut Vec<Action>, fees: i128, alloc: i128)
    ensures
        actions_view(final(acts)@) == actions_view(old(acts)@) + fee_distribution(fees as int, alloc),
{
    if fees > 0 {
        push_action(acts, Action::DistributeFees { fees, guarantee_alloc_percent: alloc });
    }
    assert(actions_view(acts@) =~= actions_view(old(acts)@) + fee_distribution(fees as int, alloc));
}

/// Appends the split of a forfeited `amount` between the wallets of `config`
/// and the event that reports it, unless the amount is not positive.
pub fn push_forfeiture(acts: &mut Vec<Action>, amount: i128, config: &Config)
    requires
        amount > 0 ==> forfeiture_split_fits(amount as int),
    ensures
        actions_view(final(acts)@) == actions_view(old(acts)@) + forfeiture_actions(amount as int, config@),
{
    if amount > 0 {
        let (platform, reserve, dao) = split_forfeiture(amount);
        push_transfer_out(acts, &config.platform_wallet, platform);
        push_transfer_out(acts, &config.reserve_wallet, reserve);
        push_transfer_out(acts, &config.dao_wallet, dao);
        push_action(
            acts,
            Action::Publish(Event::ForfeitureDistributed(FeesDistributed { total: amount, platform, reserve, dao })),
        );
        assert(actions_view(acts@) =~= actions_view(old(acts)@) + forfeiture_actions(amount as int, config@));
    } else {
        assert(actions_view(acts@) =~= actions_view(old(acts)@) + forfeiture_actions(amount as int, config@));
    }
}

impl MithaqContract {
    /// What the contract keeps beyond its view: no party has two reputation
    /// entries.
    pub open spec fn wf(&self) -> bool {
        distinct_parties(self.reputations@)
    }

    /// A contract before `initialize`.
    pub fn new() -> (s: MithaqContract)
        ensures
            s@ == MithaqState::empty(),
            s.wf(),
    {
        let s = MithaqContract {
            config: None,
            commitments: Vec::new(),
            disputes: Vec::new(),
            reputations: Vec::new(),
            total_escrow: 0,
            pool: None,
            locked: false,
        };
        assert(s@.commitments =~= Seq::<CommitmentView>::empty());
        assert(s@.disputes =~= Seq::<DisputeView>::empty());
        assert(s@.reputation =~= Map::<Seq<u8>, i128>::empty());
        s
    }

    /// The index of commitment `id`, if it exists.
    pub fn commitment_index(&self, id: u64) -> (r: Option<usize>)
        ensures
            r is Some <==> self@.has_commitment(id),
            r matches Some(i) ==> i == id - 1 && i < self.commitments@.len(),
    {
        if id == 0 || id > self.commitments.len() as u64 {
            None
        } else {
            Some((id - 1) as usize)
        }
    }

    /// The index of dispute `id`, if it exists.
    pub fn dispute_index(&self, id: u64) -> (r: Option<usize>)
        ensures
            r is Some <==> self@.has_dispute(id),
            r matches Some(i) ==> i == id - 1 && i < self.disputes@.len(),
    {
        if id == 0 || id > self.disputes.len() as u64 {
            None
        } else {
            Some((id - 1) as usize)
        }
    }

    /// The index of the reputation entry of `p`, if it has one.
    fn find_reputation(&self, p: &Party) -> (r: Option<usize>)
        ensures
            r matches Some(i) ==> i < self.reputations@.len() && self.reputations@[i as int].party@ == p@,
            r is None ==> forall|i: int| 0 <= i < self.reputations@.len() ==> self.reputations@[i].party@ != p@,
    {
        let n = self.reputations.len();
        let mut i: usize = 0;
        while i < n
            invariant
                n == self.reputations@.len(),
                i <= n,
                forall|j: int| 0 <= j < i ==> self.reputations@[j].party@ != p@,
            decreases n - i,
        {
            if self.reputations[i].party.same_as(p) {
                return Some(i);
            }
            i = i + 1;
        }
        None
    }

    /// The reputation of `user`: 0 until it has one. (`get_reputation`)
    pub fn get_reputation(&self, user: &Party) -> (r: i128)
        requires
            self.wf(),
        ensures
            r == self@.reputation_of(user@),
    {
        proof {
            lemma_rep_map_has(self.reputations@, user@);
        }
        match self.find_reputation(user) {
            Some(i) => {
                proof {
                    lemma_rep_map_at(self.reputations@, i as int);
                }
                self.reputations[i].points
            },
            None => 0,
        }
    }

    /// Records `points` as the reputation of `p`.
    pub(crate) fn set_reputation(&mut self, p: &Party, points: i128)
        requires
            old(self).wf(),
        ensures
            final(self).wf(),
            final(self)@ == (MithaqState { reputation: old(self)@.reputation.insert(p@, points), ..old(self)@ }),
    {
        match self.find_reputation(p) {
            Some(i) => {
                let ghost e = ReputationEntry { party: self.reputations@[i as int].party, points };
                proof {
                    lemma_rep_map_update(self.reputations@, i as int, e);
                }
                self.reputations[i].points = points;
                assert(self.reputations@ =~= old(self).reputations@.update(i as int, e));
            },
            None => {
                let e = ReputationEntry { party: p.duplicate(), points };
                self.reputations.push(e);
                assert(self.reputations@.drop_last() =~= old(self).reputations@);
            },
        }
        assert(self@.reputation =~= old(self)@.reputation.insert(p@, points));
    }

    /// The reputations after adding `pa` points to `a` and then `pb` to `b`,
    /// or `None` where a sum leaves `i128`.
    pub(crate) fn plan_reputation_twice(&self, a: &Party, pa: i128, b: &Party, pb: i128) -> (r: Option<(i128, i128)>)
        requires
            self.wf(),
        ensures
            r is Some <==> add_reputation_twice(self@.reputation, a@, pa as int, b@, pb as int) is Some,
            r matches Some(v) ==> add_reputation_twice(self@.reputation, a@, pa as int, b@, pb as int)
                == Some(self@.reputation.insert(a@, v.0).insert(b@, v.1)),
    {
        let ra = self.get_reputation(a);
        let va = match checked_next_reputation(ra, pa) {
            Some(v) => v,
            None => return None,
        };
        let ghost m1 = self@.reputation.insert(a@, va);
        let rb = if a.same_as(b) { va } else { self.get_reputation(b) };
        assert(rb == rep_in(m1, b@));
        match checked_next_reputation(rb, pb) {
            Some(vb) => Some((va, vb)),
            None => None,
        }
    }

    /// Records the reputations that `plan_reputation_twice` computed.
    pub(crate) fn apply_reputation_twice(&mut self, a: &Party, va: i128, b: &Party, vb: i128)
        requires
            old(self).wf(),
        ensures
            final(self).wf(),
            final(self)@ == (MithaqState {
                reputation: old(self)@.reputation.insert(a@, va).insert(b@, vb),
                ..old(self)@
            }),
    {
        self.set_reputation(a, va);
        self.set_reputation(b, vb);
    }

    /// Releases the reentrancy lock once the actions of an entry point have
    /// been performed.
    pub fn release_lock(&mut self)
        ensures
            final(self).wf() == old(self).wf(),
            final(self)@ == (MithaqState { locked: false, ..old(self)@ }),
    {
        self.locked = false;
    }

    /// Records the contract's addresses, an empty escrow and a fresh liquidity
    /// pool; refused once done. (`initialize`)
    pub fn initialize(
        &mut self,
        admin: Party,
        pi_server: Party,
        azman_token: Party,
        cert_registry: Party,
        platform: Party,
        reserve: Party,
        dao: Party,
        now: u64,
    ) -> (r: Result<(), MithaqError>)
        requires
            old(self).wf(),
        ensures
            final(self).wf(),
            answers(
                old(self)@.initialize_spec(
                    ConfigView {
                        admin: admin@,
                        pi_server: pi_server@,
                        azman_token: azman_token@,
                        certificate_registry: cert_registry@,
                        platform_wallet: platform@,
                        reserve_wallet: reserve@,
                        dao_wallet: dao@,
                    },
                    now,
                ),
                old(self)@,
                final(self)@,
                match r {
                    Ok(_) => Ok(Seq::empty()),
                    Err(e) => Err(e),
                },
            ),
    {
        if self.config.is_some() {
            return Err(MithaqError::AlreadyInitialized);
        }
        self.config = Some(
            Config {
                admin,
                pi_server,
                azman_token,
                certificate_registry: cert_registry,
                platform_wallet: platform,
                reserve_wallet: reserve,
                dao_wallet: dao,
            },
        );
        self.total_escrow = 0;
        self.pool = Some(
            LiquidityPoolState {
                total_pooled: 0,
                total_recycled_fees: 0,
                active_contributors: 0,
                pool_utilization: INITIAL_UTILIZATION_BPS,
                last_updated: now,
            },
        );
        self.locked = false;
        Ok(())
    }

    /// Checks that the contract is initialized and `admin` is its admin.
    fn check_admin(&self, admin: &Party) -> (r: Result<(), MithaqError>)
        ensures
            match self@.admin_check(admin@) {
                Some(e) => r == Err::<(), MithaqError>(e),
                None => r is Ok,
            },
    {
        match &self.config {
            None => Err(MithaqError::NotInitialized),
            Some(c) => {
                if admin.same_as(&c.admin) {
                    Ok(())
                } else {
                    Err(MithaqError::Unauthorized)
                }
            },
        }
    }

    /// The admin replaces the platform wallet. (`update_platform_wallet`)
    pub fn update_platform_wallet(&mut self, admin: &Party, new_wallet: Party) -> (r: Result<Vec<Action>, MithaqError>)
        requires
            old(self).wf(),
        ensures
            final(self).wf(),
            answers(old(self)@.update_wallet_spec(0, admin@, new_wallet@), old(self)@, final(self)@, result_view(r)),
    {
        self.update_wallet(0, admin, new_wallet)
    }

    /// The admin replaces the guarantee reserve wallet. (`update_reserve_wallet`)
    pub fn update_reserve_wallet(&mut self, admin: &Party, new_wallet: Party) -> (r: Result<Vec<Action>, MithaqError>)
        requires
            old(self).wf(),
        ensures
            final(self).wf(),
            answers(old(self)@.update_wallet_spec(1, admin@, new_wallet@), old(self)@, final(self)@, result_view(r)),
    {
        self.update_wallet(1, admin, new_wallet)
    }

    /// The admin replaces the DAO treasury wallet. (`update_dao_wallet`)
    pub fn update_dao_wallet(&mut self, admin: &Party, new_wallet: Party) -> (r: Result<Vec<Action>, MithaqError>)
        requires
            old(self).wf(),
        ensures
            final(self).wf(),
            answers(old(self)@.update_wallet_spec(2, admin@, new_wallet@), old(self)@, final(self)@, result_view(r)),
    {
        self.update_wallet(2, admin, new_wallet)
    }

    fn update_wallet(&mut self, which: u8, admin: &Party, new_wallet: Party) -> (r: Result<Vec<Action>, MithaqError>)
        requires
            old(self).wf(),
            which <= 2,
        ensures
            final(self).wf(),
            answers(old(self)@.update_wallet_spec(which as int, admin@, new_wallet@), old(self)@, final(self)@, result_view(r)),
    {
        if self.locked {
            return Err(MithaqError::ReentrancyDetected);
        }
        match self.check_admin(admin) {
            Err(e) => return Err(e),
            Ok(()) => {},
        }
        let event_wallet = new_wallet.duplicate();
        let cfg = self.config.take().unwrap();
        let cfg2 = if which == 0 {
            Config { platform_wallet: new_wallet, ..cfg }
        } else if which == 1 {
            Config { reserve_wallet: new_wallet, ..cfg }
        } else {
            Config { dao_wallet: new_wallet, ..cfg }
        };
        self.config = Some(cfg2);
        self.locked = true;
        let event = if which == 0 {
            Event::PlatformWalletUpdated(event_wallet)
        } else if which == 1 {
            Event::ReserveWalletUpdated(event_wallet)
        } else {
            Event::DaoWalletUpdated(event_wallet)
        };
        let mut acts: Vec<Action> = Vec::new();
        push_action(&mut acts, Action::Publish(event));
        assert(actions_view(acts@) =~= seq![actions_view(acts@)[0]]);
        Ok(acts)
    }

    /// The admin releases the reentrancy lock. (`admin_force_unlock`)
    pub fn admin_force_unlock(&mut self, admin: &Party) -> (r: Result<(), MithaqError>)
        requires
            old(self).wf(),
        ensures
            final(self).wf(),
            answers(
                old(self)@.force_unlock_spec(admin@),
                old(self)@,
                final(self)@,
                match r {
                    Ok(_) => Ok(Seq::empty()),
                    Err(e) => Err(e),
                },
            ),
    {
        match self.check_admin(admin) {
            Err(e) => return Err(e),
            Ok(()) => {},
        }
        self.locked = false;
        Ok(())
    }

    /// A copy of commitment `id`. (`get_commitment`)
    pub fn get_commitment(&self, id: u64) -> (r: Result<Commitment, MithaqError>)
        ensures
            r is Ok <==> self@.has_commitment(id),
            r matches Ok(c) ==> c@ == self@.commitment(id),
            r matches Err(e) ==> e == MithaqError::CommitmentNotFound,
    {
        match self.commitment_index(id) {
            Some(i) => Ok(self.commitments[i].duplicate()),
            None => Err(MithaqError::CommitmentNotFound),
        }
    }

    /// The liquidity pool; a fresh one as of `now` where none is stored. (`get_pool`)
    pub fn get_pool(&self, now: u64) -> (r: LiquidityPoolState)
        ensures
            r == self@.pool_or_default(now),
    {
        match self.pool {
            Some(p) => p,
            None => LiquidityPoolState {
                total_pooled: 0,
                total_recycled_fees: 0,
                active_contributors: 0,
                pool_utilization: INITIAL_UTILIZATION_BPS,
                last_updated: now,
            },
        }
    }

    /// The sum recorded as held in escrow. (`get_total_escrow`)
    pub fn get_total_escrow(&self) -> (r: i128)
        ensures
            r == self@.total_escrow,
    {
        self.total_escrow
    }

    /// The admin's address. (`get_admin`)
    pub fn get_admin(&self) -> (r: Result<Party, MithaqError>)
        ensures
            r is Ok <==> self@.config is Some,
            r matches Ok(p) ==> p@ == self@.config.unwrap().admin,
            r matches Err(e) ==> e == MithaqError::NotInitialized,
    {
        match &self.config {
            Some(c) => Ok(c.admin.duplicate()),
            None => Err(MithaqError::NotInitialized),
        }
    }

    /// The platform wallet. (`get_platform_wallet`)
    pub fn get_platform_wallet(&self) -> (r: Result<Party, MithaqError>)
        ensures
            r is Ok <==> self@.config is Some,
            r matches Ok(p) ==> p@ == self@.config.unwrap().platform_wallet,
            r matches Err(e) ==> e == MithaqError::NotInitialized,
    {
        match &self.config {
            Some(c) => Ok(c.platform_wallet.duplicate()),
            None => Err(MithaqError::NotInitialized),
        }
    }

    /// The guarantee reserve wallet. (`get_reserve_wallet`)
    pub fn get_reserve_wallet(&self) -> (r: Result<Party, MithaqError>)
        ensures
            r is Ok <==> self@.config is Some,
            r matches Ok(p) ==> p@ == self@.config.unwrap().reserve_wallet,
            r matches Err(e) ==> e == MithaqError::NotInitialized,
    {
        match &self.config {
            Some(c) => Ok(c.reserve_wallet.duplicate()),
            None => Err(MithaqError::NotInitialized),
        }
    }

    /// The DAO treasury wallet. (`get_dao_wallet`)
    pub fn get_dao_wallet(&self) -> (r: Result<Party, MithaqError>)
        ensures
            r is Ok <==> self@.config is Some,
            r matches Ok(p) ==> p@ == self@.config.unwrap().dao_wallet,
            r matches Err(e) ==> e == MithaqError::NotInitialized,
    {
        match &self.config {
            Some(c) => Ok(c.dao_wallet.duplicate()),
            None => Err(MithaqError::NotInitialized),
        }
    }
}

} // verus!
