use vstd::prelude::*;

use crate::error::EngineError;

verus! {

/// When a subscriber who asked to leave is let go.
#[derive(Debug, Clone, Copy, PartialEq, Eq, Structural)]
pub enum UnsubscribeState {
    /// Leaves at the next charge: nothing more is owed.
    Now,
    /// Pays once more for the period already granted, then leaves.
    NextPeriod,
}

/// The billing state of one enrolled account.
#[derive(Debug, Clone, Copy, PartialEq, Eq, Structural)]
pub struct SubscriptionInfo {
    pub next_payment_due: u64,
    pub unsubscribe_state: Option<UnsubscribeState>,
}

impl SubscriptionInfo {
    /// A fresh subscription enrolled at `now`: the first payment is due one period later.
    pub fn new(now: u64, period_length: u64) -> (r: SubscriptionInfo)
        requires
            now + period_length <= u64::MAX,
        ensures
            r == enrolled_info(now, period_length),
    {
        SubscriptionInfo { next_payment_due: now + period_length, unsubscribe_state: None }
    }
}

/// What a charge due for an account is to do.
#[derive(Debug, Clone, Copy, PartialEq, Eq, Structural)]
pub enum Eligibility {
    /// Charge the subscriber.
    Charge,
    /// The subscriber has left: remove the account instead of charging.
    SkipAndRemove,
}

/// One account's entry, as the ledger lists it.
pub struct SubscriptionView {
    pub account_id: String,
    pub next_payment_due: u64,
    pub unsubscribe_state: Option<UnsubscribeState>,
}

/// An entry of the ledger's model: the account id and its billing state.
pub type Entry = (Seq<char>, SubscriptionInfo);

pub open spec fn enrolled_info(now: u64, period_length: u64) -> SubscriptionInfo {
    SubscriptionInfo {
        next_payment_due: (now + period_length) as u64,
        unsubscribe_state: None,
    }
}

/// The state after a successful payment: due one period later, and a
/// subscriber who was to pay once more before leaving may now leave.
pub open spec fn paid_info(info: SubscriptionInfo, period_length: u64) -> SubscriptionInfo {
    SubscriptionInfo {
        next_payment_due: (info.next_payment_due + period_length) as u64,
        unsubscribe_state: if info.unsubscribe_state == Some(UnsubscribeState::NextPeriod) {
            Some(UnsubscribeState::Now)
        } else {
            info.unsubscribe_state
        },
    }
}

/// The state after a request to leave at `now`: one more payment is owed while the
/// due date has not passed.
pub open spec fn unsubscribed_info(info: SubscriptionInfo, now: u64) -> SubscriptionInfo {
    SubscriptionInfo {
        next_payment_due: info.next_payment_due,
        unsubscribe_state: if info.next_payment_due >= now {
            Some(UnsubscribeState::NextPeriod)
        } else {
            Some(UnsubscribeState::Now)
        },
    }
}

/// A payment by `a` at `now` that would succeed moves its due date to a time
/// that a `u64` holds.
pub open spec fn pay_fits(m: Seq<Entry>, a: Seq<char>, now: u64, period_length: u64) -> bool {
    match lookup(m, a) {
        Some(info) => now >= info.next_payment_due ==> info.next_payment_due + period_length
            <= u64::MAX,
        None => true,
    }
}

/// No account appears twice.
pub open spec fn unique_accounts(m: Seq<Entry>) -> bool {
    forall|i: int, j: int| 0 <= i < j < m.len() ==> (#[trigger] m[i]).0 != (#[trigger] m[j]).0
}

pub open spec fn has_account(m: Seq<Entry>, a: Seq<char>) -> bool {
    exists|i: int| 0 <= i < m.len() && (#[trigger] m[i]).0 == a
}

/// Where account `a` stands in the ledger's order.
pub open spec fn position(m: Seq<Entry>, a: Seq<char>) -> int {
    choose|i: int| 0 <= i < m.len() && (#[trigger] m[i]).0 == a
}

/// The billing state of account `a`, if it is enrolled.
pub open spec fn lookup(m: Seq<Entry>, a: Seq<char>) -> Option<SubscriptionInfo> {
    if has_account(m, a) {
        Some(m[position(m, a)].1)
    } else {
        None
    }
}

pub proof fn lemma_position(m: Seq<Entry>, a: Seq<char>, i: int)
    requires
        unique_accounts(m),
        0 <= i < m.len(),
        m[i].0 == a,
    ensures
        has_account(m, a),
        position(m, a) == i,
        lookup(m, a) == Some(m[i].1),
{
    assert(has_account(m, a));
    let j = position(m, a);
    if j < i {
        assert(m[j].0 != m[i].0);
    } else if i < j {
        assert(m[i].0 != m[j].0);
    }
}

/// Every other account keeps its state when one entry is replaced.
proof fn lemma_update(m: Seq<Entry>, i: int, e: Entry)
    requires
        unique_accounts(m),
        0 <= i < m.len(),
        m[i].0 == e.0,
    ensures
        unique_accounts(m.update(i, e)),
        lookup(m.update(i, e), e.0) == Some(e.1),
        forall|b: Seq<char>| b != e.0 ==> lookup(#[trigger] m.update(i, e), b) == lookup(m, b),
{
    let n = m.update(i, e);
    assert forall|x: int, y: int| 0 <= x < y < n.len() implies (#[trigger] n[x]).0 != (#[trigger] n[y]).0 by {
        assert(m[x].0 != m[y].0);
    }
    lemma_position(n, e.0, i);
    assert forall|b: Seq<char>| b != e.0 implies lookup(#[trigger] m.update(i, e), b) == lookup(m, b) by {
        if has_account(m, b) {
            let k = position(m, b);
            lemma_position(n, b, k);
        } else if has_account(n, b) {
            let k = position(n, b);
            assert(m[k].0 == b);
        }
    }
}

/// Appending an account that was absent.
proof fn lemma_push(m: Seq<Entry>, e: Entry)
    requires
        unique_accounts(m),
        !has_account(m, e.0),
    ensures
        unique_accounts(m.push(e)),
        lookup(m.push(e), e.0) == Some(e.1),
        forall|b: Seq<char>| b != e.0 ==> lookup(#[trigger] m.push(e), b) == lookup(m, b),
{
    let n = m.push(e);
    assert forall|x: int, y: int| 0 <= x < y < n.len() implies (#[trigger] n[x]).0 != (#[trigger] n[y]).0 by {
        if y == m.len() {
            assert(m[x].0 != e.0);
        } else {
            assert(m[x].0 != m[y].0);
        }
    }
    lemma_position(n, e.0, m.len() as int);
    assert forall|b: Seq<char>| b != e.0 implies lookup(#[trigger] m.push(e), b) == lookup(m, b) by {
        if has_account(m, b) {
            let k = position(m, b);
            lemma_position(n, b, k);
        } else if has_account(n, b) {
            let k = position(n, b);
            assert(m[k].0 == b);
        }
    }
}

/// Taking one entry out.
proof fn lemma_remove(m: Seq<Entry>, i: int)
    requires
        unique_accounts(m),
        0 <= i < m.len(),
    ensures
        unique_accounts(m.remove(i)),
        lookup(m.remove(i), m[i].0) is None,
        forall|b: Seq<char>| b != m[i].0 ==> lookup(#[trigger] m.remove(i), b) == lookup(m, b),
{
    let n = m.remove(i);
    assert forall|x: int, y: int| 0 <= x < y < n.len() implies (#[trigger] n[x]).0 != (#[trigger] n[y]).0 by {
        let x2 = if x < i { x } else { x + 1 };
        let y2 = if y < i { y } else { y + 1 };
        assert(n[x] == m[x2] && n[y] == m[y2]);
        assert(m[x2].0 != m[y2].0);
    }
    if has_account(n, m[i].0) {
        let k = position(n, m[i].0);
        let k2 = if k < i { k } else { k + 1 };
        assert(n[k] == m[k2]);
        if k2 < i {
            assert(m[k2].0 != m[i].0);
        } else {
            assert(m[i].0 != m[k2].0);
        }
    }
    assert forall|b: Seq<char>| b != m[i].0 implies lookup(#[trigger] m.remove(i), b) == lookup(m, b) by {
        if has_account(m, b) {
            let k = position(m, b);
            let k2 = if k < i { k } else { k - 1 };
            assert(k != i);
            assert(n[k2] == m[k]);
            lemma_position(n, b, k2);
        } else if has_account(n, b) {
            let k = position(n, b);
            let k2 = if k < i { k } else { k + 1 };
            assert(n[k] == m[k2]);
        }
    }
}

/// The billing cycle: an account enrolled at `t0` with period `p` is first due
/// at `t0 + p`; a payment at any `t1 >= t0 + p` is accepted and moves the due
/// date to `t0 + 2p`. A payment never moves a due date back.
pub proof fn lemma_billing_cycle(m: Seq<Entry>, a: Seq<char>, t0: u64, t1: u64, p: u64)
    requires
        unique_accounts(m),
        !has_account(m, a),
        t0 + 2 * p <= u64::MAX,
        t1 >= t0 + p,
    ensures
        ({
            let m1 = m.push((a, enrolled_info(t0, p)));
            &&& unique_accounts(m1)
            &&& lookup(m1, a) == Some(enrolled_info(t0, p))
            &&& enrolled_info(t0, p).next_payment_due == t0 + p
            &&& !(t1 < enrolled_info(t0, p).next_payment_due)
            &&& lookup(
                m1.update(position(m1, a), (a, paid_info(enrolled_info(t0, p), p))),
                a,
            )->Some_0.next_payment_due == t0 + 2 * p
        }),
        forall|info: SubscriptionInfo, q: u64|
            info.next_payment_due + q <= u64::MAX ==> #[trigger] paid_info(info, q).next_payment_due
                >= info.next_payment_due,
{
    let m1 = m.push((a, enrolled_info(t0, p)));
    lemma_push(m, (a, enrolled_info(t0, p)));
    lemma_position(m1, a, m.len() as int);
    lemma_update(m1, m.len() as int, (a, paid_info(enrolled_info(t0, p), p)));
}

/// When a request to leave takes effect: made while the due date has not
/// passed, the subscriber pays once more and the payment makes the departure
/// immediate; made after the due date, the departure is immediate at once.
pub proof fn lemma_unsubscribe_timing(info: SubscriptionInfo, now: u64, p: u64)
    requires
        info.unsubscribe_state is None,
    ensures
        info.next_payment_due >= now ==> unsubscribed_info(info, now).unsubscribe_state == Some(
            UnsubscribeState::NextPeriod,
        ),
        info.next_payment_due >= now ==> paid_info(unsubscribed_info(info, now), p).unsubscribe_state
            == Some(UnsubscribeState::Now),
        info.next_payment_due < now ==> unsubscribed_info(info, now).unsubscribe_state == Some(
            UnsubscribeState::Now,
        ),
{
}

/// An account's entry in the ledger.
pub struct Subscriber {
    account_id: String,
    info: SubscriptionInfo,
}

/// The subscription ledger: each enrolled account with its billing state, in
/// the order of enrollment.
pub struct Ledger {
    entries: Vec<Subscriber>,
}

impl View for Ledger {
    type V = Seq<Entry>;

    closed spec fn view(&self) -> Seq<Entry> {
        self.entries@.map_values(|e: Subscriber| (e.account_id@, e.info))
    }
}

impl Ledger {
    pub open spec fn wf(&self) -> bool {
        unique_accounts(self@)
    }

    pub fn new() -> (r: Ledger)
        ensures
            r.wf(),
            r@ == Seq::<Entry>::empty(),
    {
        let r = Ledger { entries: Vec::new() };
        proof {
            assert(r@ =~= Seq::<Entry>::empty());
        }
        r
    }

    pub fn len(&self) -> (r: usize)
        ensures
            r == self@.len(),
    {
        self.entries.len()
    }

    /// Where `account_id` stands, if it is enrolled.
    fn find(&self, account_id: &str) -> (r: Option<usize>)
        requires
            self.wf(),
        ensures
            r matches Some(i) ==> i < self@.len() && self@[i as int].0 == account_id@
                && position(self@, account_id@) == i,
            r is Some <==> has_account(self@, account_id@),
    {
        let key = account_id.to_string();
        let mut i: usize = 0;
        while i < self.entries.len()
            invariant
                i <= self.entries@.len(),
                self.wf(),
                key@ == account_id@,
                forall|k: int| 0 <= k < i ==> (#[trigger] self@[k]).0 != account_id@,
            decreases self.entries@.len() - i,
        {
            if self.entries[i].account_id == key {
                proof {
                    lemma_position(self@, account_id@, i as int);
                }
                return Some(i);
            }
            i = i + 1;
        }
        None
    }

    /// The billing state of `account_id`, if it is enrolled.
    pub fn get(&self, account_id: &str) -> (r: Option<SubscriptionInfo>)
        requires
            self.wf(),
        ensures
            r == lookup(self@, account_id@),
    {
        match self.find(account_id) {
            Some(i) => Some(self.entries[i].info),
            None => None,
        }
    }

    /// Enrolls `account_id` at time `now`; fails if it is already enrolled.
    pub fn enroll(&mut self, account_id: &str, now: u64, period_length: u64) -> (r: Result<(), EngineError>)
        requires
            old(self).wf(),
            !has_account(old(self)@, account_id@) ==> now + period_length <= u64::MAX,
        ensures
            final(self).wf(),
            has_account(old(self)@, account_id@) ==> r == Err::<(), EngineError>(EngineError::AlreadyEnrolled)
                && final(self)@ == old(self)@,
            !has_account(old(self)@, account_id@) ==> r is Ok
                && final(self)@ == old(self)@.push((account_id@, enrolled_info(now, period_length))),
    {
        if self.find(account_id).is_some() {
            return Err(EngineError::AlreadyEnrolled);
        }
        let info = SubscriptionInfo::new(now, period_length);
        self.restore(account_id, info)
    }

    /// Puts back an entry read from storage, after those already there; fails
    /// if the account is already present.
    pub fn restore(&mut self, account_id: &str, info: SubscriptionInfo) -> (r: Result<(), EngineError>)
        requires
            old(self).wf(),
        ensures
            final(self).wf(),
            has_account(old(self)@, account_id@) ==> r == Err::<(), EngineError>(EngineError::AlreadyEnrolled)
                && final(self)@ == old(self)@,
            !has_account(old(self)@, account_id@) ==> r is Ok && final(self)@ == old(self)@.push(
                (account_id@, info),
            ),
    {
        if self.find(account_id).is_some() {
            return Err(EngineError::AlreadyEnrolled);
        }
        proof {
            lemma_push(self@, (account_id@, info));
        }
        self.entries.push(Subscriber { account_id: account_id.to_string(), info });
        proof {
            assert(self@ =~= old(self)@.push((account_id@, info)));
        }
        Ok(())
    }

    /// Replaces the state of the entry at `i`.
    fn set_info(&mut self, i: usize, info: SubscriptionInfo)
        requires
            old(self).wf(),
            i < old(self)@.len(),
        ensures
            final(self).wf(),
            final(self)@ == old(self)@.update(i as int, (old(self)@[i as int].0, info)),
    {
        proof {
            lemma_update(self@, i as int, (self@[i as int].0, info));
        }
        let account_id = self.entries[i].account_id.clone();
        self.entries.set(i, Subscriber { account_id, info });
        proof {
            assert(self@ =~= old(self)@.update(i as int, (old(self)@[i as int].0, info)));
        }
    }

    /// Records a payment made at `now`: due one period later, and a pending
    /// departure becomes immediate.
    pub fn pay(&mut self, account_id: &str, now: u64, period_length: u64) -> (r: Result<(), EngineError>)
        requires
            old(self).wf(),
            pay_fits(old(self)@, account_id@, now, period_length),
        ensures
            final(self).wf(),
            match lookup(old(self)@, account_id@) {
                None => r == Err::<(), EngineError>(EngineError::NotEnrolled) && final(self)@ == old(self)@,
                Some(info) => if now < info.next_payment_due {
                    r == Err::<(), EngineError>(EngineError::NotDue) && final(self)@ == old(self)@
                } else {
                    r is Ok && final(self)@ == old(self)@.update(
                        position(old(self)@, account_id@),
                        (account_id@, paid_info(info, period_length)),
                    )
                },
            },
    {
        let i = match self.find(account_id) {
            Some(i) => i,
            None => return Err(EngineError::NotEnrolled),
        };
        let info = self.entries[i].info;
        if now < info.next_payment_due {
            return Err(EngineError::NotDue);
        }
        let state = if info.unsubscribe_state == Some(UnsubscribeState::NextPeriod) {
            Some(UnsubscribeState::Now)
        } else {
            info.unsubscribe_state
        };
        self.set_info(
            i,
            SubscriptionInfo {
                next_payment_due: info.next_payment_due + period_length,
                unsubscribe_state: state,
            },
        );
        Ok(())
    }

    /// Records a request to leave made at `now`.
    pub fn request_unsubscribe(&mut self, account_id: &str, now: u64) -> (r: Result<(), EngineError>)
        requires
            old(self).wf(),
        ensures
            final(self).wf(),
            match lookup(old(self)@, account_id@) {
                None => r == Err::<(), EngineError>(EngineError::NotEnrolled) && final(self)@ == old(self)@,
                Some(info) => if info.unsubscribe_state is Some {
                    r == Err::<(), EngineError>(EngineError::AlreadyUnsubscribing) && final(self)@
                        == old(self)@
                } else {
                    r is Ok && final(self)@ == old(self)@.update(
                        position(old(self)@, account_id@),
                        (account_id@, unsubscribed_info(info, now)),
                    )
                },
            },
    {
        let i = match self.find(account_id) {
            Some(i) => i,
            None => return Err(EngineError::NotEnrolled),
        };
        let info = self.entries[i].info;
        if info.unsubscribe_state.is_some() {
            return Err(EngineError::AlreadyUnsubscribing);
        }
        let state = if info.next_payment_due >= now {
            UnsubscribeState::NextPeriod
        } else {
            UnsubscribeState::Now
        };
        self.set_info(
            i,
            SubscriptionInfo { next_payment_due: info.next_payment_due, unsubscribe_state: Some(state) },
        );
        Ok(())
    }

    /// Whether `account_id` can be charged at `now`: it must be enrolled and past
    /// its due date; one who has left is to be removed instead.
    pub fn charge_eligibility(&self, account_id: &str, now: u64) -> (r: Result<Eligibility, EngineError>)
        requires
            self.wf(),
        ensures
            match lookup(self@, account_id@) {
                None => r == Err::<Eligibility, EngineError>(EngineError::NotEnrolled),
                Some(info) => if now <= info.next_payment_due {
                    r == Err::<Eligibility, EngineError>(EngineError::NotDue)
                } else if info.unsubscribe_state == Some(UnsubscribeState::Now) {
                    r == Ok::<Eligibility, EngineError>(Eligibility::SkipAndRemove)
                } else {
                    r == Ok::<Eligibility, EngineError>(Eligibility::Charge)
                },
            },
    {
        let info = match self.get(account_id) {
            Some(info) => info,
            None => return Err(EngineError::NotEnrolled),
        };
        if now <= info.next_payment_due {
            Err(EngineError::NotDue)
        } else if info.unsubscribe_state == Some(UnsubscribeState::Now) {
            Ok(Eligibility::SkipAndRemove)
        } else {
            Ok(Eligibility::Charge)
        }
    }

    /// Takes `account_id` out of the ledger; `false` if it was not enrolled.
    pub fn remove(&mut self, account_id: &str) -> (r: bool)
        requires
            old(self).wf(),
        ensures
            final(self).wf(),
            r == has_account(old(self)@, account_id@),
            r ==> final(self)@ == old(self)@.remove(position(old(self)@, account_id@)),
            !r ==> final(self)@ == old(self)@,
    {
        match self.find(account_id) {
            Some(i) => {
                proof {
                    lemma_remove(self@, i as int);
                }
                self.entries.remove(i);
                proof {
                    assert(self@ =~= old(self)@.remove(i as int));
                }
                true
            },
            None => false,
        }
    }

    /// Up to `limit` entries, starting at the `from`-th, in enrollment order.
    pub fn list(&self, from: usize, limit: usize) -> (r: Vec<SubscriptionView>)
        ensures
            r@.len() == page_len(self@.len() as int, from as int, limit as int),
            forall|k: int|
                0 <= k < r@.len() ==> (#[trigger] r@[k]).account_id@ == self@[from + k].0
                    && r@[k].next_payment_due == self@[from + k].1.next_payment_due
                    && r@[k].unsubscribe_state == self@[from + k].1.unsubscribe_state,
    {
        let mut out: Vec<SubscriptionView> = Vec::new();
        let n = self.entries.len();
        if from >= n {
            return out;
        }
        let end: usize = if limit < n - from { from + limit } else { n };
        let mut i: usize = from;
        while i < end
            invariant
                from <= i <= end <= n,
                n == self@.len(),
                end - from == page_len(n as int, from as int, limit as int),
                out@.len() == i - from,
                forall|k: int|
                    0 <= k < out@.len() ==> (#[trigger] out@[k]).account_id@ == self@[from + k].0
                        && out@[k].next_payment_due == self@[from + k].1.next_payment_due
                        && out@[k].unsubscribe_state == self@[from + k].1.unsubscribe_state,
            decreases end - i,
        {
            let e = &self.entries[i];
            out.push(format_subscription(e));
            i = i + 1;
        }
        out
    }
}

/// How many entries a page starting at `from` with at most `limit` entries holds.
pub open spec fn page_len(len: int, from: int, limit: int) -> int {
    if from >= len {
        0
    } else if limit < len - from {
        limit
    } else {
        len - from
    }
}

fn format_subscription(e: &Subscriber) -> (r: SubscriptionView)
    ensures
        r.account_id@ == e.account_id@,
        r.next_payment_due == e.info.next_payment_due,
        r.unsubscribe_state == e.info.unsubscribe_state,
{
    SubscriptionView {
        account_id: e.account_id.clone(),
        next_payment_due: e.info.next_payment_due,
        unsubscribe_state: e.info.unsubscribe_state,
    }
}

} // verus!
