use vstd::prelude::*;
use vstd::string::*;
use crate::player::PlayerId;
use std::collections::HashMap;

verus! {

broadcast use vstd::std_specs::hash::group_hash_axioms;

/// Relies on chrono's `Utc::now` and `DateTime::timestamp_millis`: the current time in
/// milliseconds since the Unix epoch. Nothing is promised of the value read.
#[verifier::external_body]
pub(crate) fn now_millis() -> (r: i64) {
    chrono::Utc::now().timestamp_millis()
}

/// Milliseconds in a day.
pub const DAY_MILLIS: i64 = 86_400_000;

/// Kinds of journal entry.
#[derive(Debug, Clone, Copy, PartialEq, Eq, Structural)]
pub enum TransactionType {
    Win,
    Loss,
    EntryFee,
    Rake,
    DailyBonus,
    SkillBonus,
    SkillReduction,
    Purchase,
    Refund,
}

/// One journal entry; `timestamp` is in milliseconds since the Unix epoch (UTC).
#[derive(Debug, Clone)]
pub struct Transaction {
    pub player_id: PlayerId,
    pub amount: i64,
    pub transaction_type: TransactionType,
    pub timestamp: i64,
    pub description: String,
}

/// A player's soft-currency balance with an append-only journal.
#[derive(Debug, Clone)]
pub struct HappyBeans {
    pub balance: u64,
    pub total_earned: u64,
    pub total_spent: u64,
    pub transaction_history: Vec<Transaction>,
}

impl HappyBeans {
    /// The balance is what was earned less what was spent.
    pub open spec fn wf(&self) -> bool {
        self.balance + self.total_spent == self.total_earned
    }

    pub fn new(initial_balance: u64) -> (r: HappyBeans)
        ensures
            r.wf(),
            r.balance == initial_balance,
            r.total_earned == initial_balance,
            r.total_spent == 0,
            r.transaction_history@.len() == 0,
    {
        HappyBeans {
            balance: initial_balance,
            total_earned: initial_balance,
            total_spent: 0,
            transaction_history: Vec::new(),
        }
    }

    /// Credits `amount` and journals it.
    pub fn add(&mut self, amount: u64, transaction_type: TransactionType, description: &str)
        requires
            old(self).wf(),
            old(self).total_earned + amount <= u64::MAX,
            amount <= i64::MAX,
        ensures
            final(self).wf(),
            final(self).balance == old(self).balance + amount,
            final(self).total_earned == old(self).total_earned + amount,
            final(self).total_spent == old(self).total_spent,
            final(self).transaction_history@.len() == old(self).transaction_history@.len() + 1,
            final(self).transaction_history@.drop_last() == old(self).transaction_history@,
            final(self).transaction_history@.last().amount == amount,
            final(self).transaction_history@.last().transaction_type == transaction_type,
            final(self).transaction_history@.last().description@ == description@,
    {
        self.balance = self.balance + amount;
        self.total_earned = self.total_earned + amount;
        self.transaction_history.push(Transaction {
            player_id: PlayerId::new(),
            amount: amount as i64,
            transaction_type,
            timestamp: now_millis(),
            description: String::from_str(description),
        });
    }

    /// Debits `amount` and journals it when the balance covers it; otherwise changes
    /// nothing and returns `false`.
    pub fn deduct(&mut self, amount: u64, transaction_type: TransactionType, description: &str) -> (r: bool)
        requires
            old(self).wf(),
            amount <= i64::MAX,
        ensures
            final(self).wf(),
            r == (amount <= old(self).balance),
            final(self).balance <= old(self).balance,
            r ==> final(self).balance == old(self).balance - amount
                && final(self).total_spent == old(self).total_spent + amount
                && final(self).total_earned == old(self).total_earned
                && final(self).transaction_history@.len() == old(self).transaction_history@.len() + 1
                && final(self).transaction_history@.drop_last() == old(self).transaction_history@
                && final(self).transaction_history@.last().amount == -amount
                && final(self).transaction_history@.last().transaction_type == transaction_type,
            !r ==> *final(self) == *old(self),
    {
        if self.balance >= amount {
            self.balance = self.balance - amount;
            self.total_spent = self.total_spent + amount;
            self.transaction_history.push(Transaction {
                player_id: PlayerId::new(),
                amount: -(amount as i64),
                transaction_type,
                timestamp: now_millis(),
                description: String::from_str(description),
            });
            true
        } else {
            false
        }
    }

    pub fn has_sufficient(&self, amount: u64) -> (r: bool)
        ensures
            r == (self.balance >= amount),
    {
        self.balance >= amount
    }
}

/// A daily bonus may be claimed when none was claimed before, or a full day has passed
/// since the last claim.
pub open spec fn daily_due(last: Option<i64>, now: i64) -> bool {
    match last {
        None => true,
        Some(t) => now - t >= DAY_MILLIS,
    }
}

/// Balances of registered players and the time of their last daily bonus, keyed by the
/// identifier's value.
pub struct CurrencySystem {
    player_balances: HashMap<u128, HappyBeans>,
    daily_claims: HashMap<u128, i64>,
}

impl CurrencySystem {
    pub closed spec fn balances(&self) -> Map<u128, HappyBeans> {
        self.player_balances@
    }

    pub closed spec fn claims(&self) -> Map<u128, i64> {
        self.daily_claims@
    }

    /// Every balance keeps its invariant.
    pub open spec fn wf(&self) -> bool {
        forall|k: u128| #[trigger] self.balances().contains_key(k) ==> self.balances()[k].wf()
    }

    pub fn new() -> (r: CurrencySystem)
        ensures
            r.wf(),
            r.balances() == Map::<u128, HappyBeans>::empty(),
            r.claims() == Map::<u128, i64>::empty(),
    {
        CurrencySystem { player_balances: HashMap::new(), daily_claims: HashMap::new() }
    }

    /// Opens (or reopens) the account of `player_id` with `initial_balance`.
    pub fn register_player(&mut self, player_id: PlayerId, initial_balance: u64)
        requires
            old(self).wf(),
        ensures
            final(self).wf(),
            final(self).balances().dom() == old(self).balances().dom().insert(player_id.0),
            final(self).balances()[player_id.0].balance == initial_balance,
            final(self).balances()[player_id.0].total_spent == 0,
            forall|k: u128| k != player_id.0 && old(self).balances().contains_key(k) ==> #[trigger] final(self).balances()[k] == old(self).balances()[k],
            final(self).claims() == old(self).claims(),
    {
        self.player_balances.insert(player_id.0, HappyBeans::new(initial_balance));
        proof {
            assert forall|k: u128| #[trigger] self.balances().contains_key(k) implies self.balances()[k].wf() by {
                if k != player_id.0 {
                    assert(old(self).balances().contains_key(k));
                }
            }
        }
    }

    pub fn get_balance(&self, player_id: PlayerId) -> (r: Option<u64>)
        ensures
            self.balances().contains_key(player_id.0) ==> r == Some(self.balances()[player_id.0].balance),
            !self.balances().contains_key(player_id.0) ==> r.is_none(),
    {
        match self.player_balances.get(&player_id.0) {
            Some(b) => Some(b.balance),
            None => None,
        }
    }

    pub fn get_beans(&self, player_id: PlayerId) -> (r: Option<&HappyBeans>)
        ensures
            match r {
                Some(b) => self.balances().contains_key(player_id.0) && *b == self.balances()[player_id.0],
                None => !self.balances().contains_key(player_id.0),
            },
    {
        self.player_balances.get(&player_id.0)
    }

    /// Whether the daily bonus is due for `player_id` at time `now` (milliseconds).
    pub fn can_claim_daily_at(&self, player_id: PlayerId, now: i64) -> (r: bool)
        ensures
            r == daily_due(
                if self.claims().contains_key(player_id.0) { Some(self.claims()[player_id.0]) } else { None },
                now,
            ),
    {
        match self.daily_claims.get(&player_id.0) {
            None => true,
            Some(last) => (now as i128) - (*last as i128) >= DAY_MILLIS as i128,
        }
    }

    /// Whether the daily bonus is due for `player_id` now.
    pub fn can_claim_daily(&self, player_id: PlayerId) -> (r: bool)
        ensures
            !self.claims().contains_key(player_id.0) ==> r,
    {
        self.can_claim_daily_at(player_id, now_millis())
    }

    /// Credits the daily bonus at time `now` when it is due and the player is registered,
    /// and returns the new balance; otherwise changes nothing.
    pub fn claim_daily_bonus_at(&mut self, player_id: PlayerId, amount: u64, now: i64) -> (r: Option<u64>)
        requires
            old(self).wf(),
            amount <= i64::MAX,
        ensures
            final(self).wf(),
            ({
                let k = player_id.0;
                let due = daily_due(
                    if old(self).claims().contains_key(k) { Some(old(self).claims()[k]) } else { None },
                    now,
                );
                let ok = due && old(self).balances().contains_key(k)
                    && old(self).balances()[k].total_earned + amount <= u64::MAX;
                &&& ok ==> r == Some((old(self).balances()[k].balance + amount) as u64)
                    && final(self).balances().dom() == old(self).balances().dom()
                    && final(self).balances()[k].balance == old(self).balances()[k].balance + amount
                    && final(self).claims() == old(self).claims().insert(k, now)
                &&& !ok ==> r.is_none() && final(self).balances() == old(self).balances()
                    && final(self).claims() == old(self).claims()
            }),
    {
        if !self.can_claim_daily_at(player_id, now) {
            return None;
        }
        let k = player_id.0;
        let cur = match self.player_balances.get(&k) {
            Some(b) => b.total_earned,
            None => { return None; },
        };
        if cur > u64::MAX - amount {
            return None;
        }
        let ghost m0 = self.player_balances@;
        match self.player_balances.remove(&k) {
            Some(mut beans) => {
                proof {
                    assert(old(self).balances().contains_key(k));
                    assert(beans == m0[k]);
                }
                beans.add(amount, TransactionType::DailyBonus, "每日签到奖励");
                let bal = beans.balance;
                self.player_balances.insert(k, beans);
                self.daily_claims.insert(k, now);
                proof {
                    assert(self.player_balances@.dom() =~= m0.dom());
                    assert forall|x: u128| #[trigger] self.balances().contains_key(x) implies self.balances()[x].wf() by {
                        if x != k {
                            assert(old(self).balances().contains_key(x));
                        }
                    }
                }
                Some(bal)
            },
            None => None,
        }
    }

    /// Credits the daily bonus now when it is due and the player is registered.
    pub fn claim_daily_bonus(&mut self, player_id: PlayerId, amount: u64) -> (r: Option<u64>)
        requires
            old(self).wf(),
            amount <= i64::MAX,
        ensures
            final(self).wf(),
            !old(self).balances().contains_key(player_id.0) ==> r.is_none(),
            r matches Some(b) ==> old(self).balances().contains_key(player_id.0)
                && b == old(self).balances()[player_id.0].balance + amount,
            r.is_none() ==> final(self).balances() == old(self).balances(),
            old(self).balances().contains_key(player_id.0) && !old(self).claims().contains_key(player_id.0)
                && old(self).balances()[player_id.0].total_earned + amount <= u64::MAX
                ==> r == Some((old(self).balances()[player_id.0].balance + amount) as u64),
    {
        let now = now_millis();
        self.claim_daily_bonus_at(player_id, amount, now)
    }

    /// Moves `amount` from `from` to `to` when both are registered, `from` can pay and
    /// `to` can receive it; otherwise changes nothing and returns `false`.
    pub fn transfer(&mut self, from: PlayerId, to: PlayerId, amount: u64, description: &str) -> (r: bool)
        requires
            old(self).wf(),
            amount <= i64::MAX,
        ensures
            final(self).wf(),
            ({
                let (f, t) = (from.0, to.0);
                let ok = f != t && old(self).balances().contains_key(f) && old(self).balances().contains_key(t)
                    && amount <= old(self).balances()[f].balance
                    && old(self).balances()[t].total_earned + amount <= u64::MAX;
                &&& r == ok
                &&& ok ==> final(self).balances().dom() == old(self).balances().dom()
                    && final(self).balances()[f].balance == old(self).balances()[f].balance - amount
                    && final(self).balances()[t].balance == old(self).balances()[t].balance + amount
                    && forall|k: u128| k != f && k != t && old(self).balances().contains_key(k)
                        ==> #[trigger] final(self).balances()[k] == old(self).balances()[k]
                &&& !ok ==> final(self).balances() == old(self).balances()
            }),
            final(self).claims() == old(self).claims(),
    {
        if from.0 == to.0 {
            return false;
        }
        let (fb, te) = match (self.player_balances.get(&from.0), self.player_balances.get(&to.0)) {
            (Some(a), Some(b)) => (a.balance, b.total_earned),
            _ => { return false; },
        };
        if amount > fb || te > u64::MAX - amount {
            return false;
        }
        let ghost m0 = self.player_balances@;
        let mut a = match self.player_balances.remove(&from.0) {
            Some(a) => a,
            None => { return false; },
        };
        let mut b = match self.player_balances.remove(&to.0) {
            Some(b) => b,
            None => {
                proof { assert(false); }
                return false;
            },
        };
        proof {
            assert(old(self).balances().contains_key(from.0));
            assert(old(self).balances().contains_key(to.0));
            assert(a == m0[from.0]);
            assert(b == m0[to.0]);
        }
        let paid = a.deduct(amount, TransactionType::Loss, description);
        b.add(amount, TransactionType::Win, "赢得游戏");
        self.player_balances.insert(from.0, a);
        self.player_balances.insert(to.0, b);
        proof {
            assert(self.player_balances@.dom() =~= m0.dom());
            assert forall|x: u128| #[trigger] self.balances().contains_key(x) implies self.balances()[x].wf() by {
                if x != from.0 && x != to.0 {
                    assert(old(self).balances().contains_key(x));
                }
            }
        }
        paid
    }
}

} // verus!
