use vstd::prelude::*;

use crate::error::EngineError;
use crate::ledger::{
    enrolled_info, has_account, pay_fits, Eligibility, lookup, paid_info, position, unsubscribed_info,
    Entry, Ledger, SubscriptionView, UnsubscribeState,
};
use crate::orchestrator::{
    complete_signing, request_signature, signed_outcome, signing_outcome, signing_plan_for, CallContext,
    SigningPlan,
};
use crate::signer::SignResult;
use crate::transaction::{
    built_transaction, CallModel, FunctionCall, TransactionModel,
    UnsignedTransaction,
};

verus! {

/// The price of one period, in yoctoNEAR (10 NEAR).
pub const SUBSCRIPTION_PRICE: u128 = 10_000_000_000_000_000_000_000_000;

/// The gas budget of the fee-collection call (30 Tgas).
pub const CHARGE_GAS: u64 = 30_000_000_000_000;

/// What the caller supplies for the transaction to be signed.
pub struct TransactionInput {
    pub target_public_key: String,
    pub nonce: u64,
    pub block_hash: String,
}

/// The first phase's result of a charge.
pub enum ChargeOutcome {
    /// The subscriber had left: it was removed and nothing is to be signed.
    Unsubscribed,
    /// A signature is to be requested.
    SignatureRequested(SigningPlan),
}

/// The single action of the fee-collection transaction: a call of the
/// engine's own `pay_subscription`, with no arguments, and the price attached.
pub open spec fn fee_collection_call() -> CallModel {
    CallModel {
        method_name: "pay_subscription"@,
        args: Seq::empty(),
        gas: CHARGE_GAS,
        deposit: SUBSCRIPTION_PRICE,
    }
}

/// The fee-collection transaction that `account_id` is to sign.
pub open spec fn fee_collection_tx(
    account_id: Seq<char>,
    input: TransactionInput,
    engine_id: Seq<char>,
) -> Result<TransactionModel, crate::error::EngineError> {
    built_transaction(
        account_id,
        input.target_public_key@,
        input.nonce,
        engine_id,
        input.block_hash@,
        seq![fee_collection_call()],
    )
}

/// The recurring-billing engine: the subscription ledger and the parties
/// that it deals with.
pub struct Contract {
    pub subscribers: Ledger,
    pub period_length: u64,
    pub admin: String,
    pub mpc_contract: String,
}

impl Contract {
    pub open spec fn wf(&self) -> bool {
        self.subscribers.wf()
    }

    pub open spec fn same_settings(&self, other: &Contract) -> bool {
        &&& self.period_length == other.period_length
        &&& self.admin@ == other.admin@
        &&& self.mpc_contract@ == other.mpc_contract@
    }

    pub fn init(period_length: u64, admin: String, mpc_contract: String) -> (r: Contract)
        ensures
            r.wf(),
            r.subscribers@ == Seq::<Entry>::empty(),
            r.period_length == period_length,
            r.admin@ == admin@,
            r.mpc_contract@ == mpc_contract@,
    {
        Contract { subscribers: Ledger::new(), period_length, admin, mpc_contract }
    }

    /// Enrolls the caller; the first payment is due one period from now.
    pub fn start_subscription(&mut self, ctx: &CallContext) -> (r: Result<(), EngineError>)
        requires
            old(self).wf(),
            !has_account(old(self).subscribers@, ctx.predecessor_account_id@) ==> ctx.block_timestamp
                + old(self).period_length <= u64::MAX,
        ensures
            final(self).wf(),
            final(self).same_settings(old(self)),
            has_account(old(self).subscribers@, ctx.predecessor_account_id@) ==> r == Err::<(), EngineError>(
                EngineError::AlreadyEnrolled,
            ) && final(self).subscribers@ == old(self).subscribers@,
            !has_account(old(self).subscribers@, ctx.predecessor_account_id@) ==> r is Ok
                && final(self).subscribers@ == old(self).subscribers@.push(
                (
                    ctx.predecessor_account_id@,
                    enrolled_info(ctx.block_timestamp, old(self).period_length),
                ),
            ),
    {
        let period_length = self.period_length;
        self.subscribers.enroll(ctx.predecessor_account_id.as_str(), ctx.block_timestamp, period_length)
    }

    /// The caller pays for one period, with exactly the price attached, once it is due.
    pub fn pay_subscription(&mut self, ctx: &CallContext) -> (r: Result<(), EngineError>)
        requires
            old(self).wf(),
            ctx.attached_deposit == SUBSCRIPTION_PRICE ==> pay_fits(
                old(self).subscribers@,
                ctx.predecessor_account_id@,
                ctx.block_timestamp,
                old(self).period_length,
            ),
        ensures
            final(self).wf(),
            final(self).same_settings(old(self)),
            ctx.attached_deposit != SUBSCRIPTION_PRICE ==> r == Err::<(), EngineError>(
                EngineError::WrongDeposit,
            ) && final(self).subscribers@ == old(self).subscribers@,
            ctx.attached_deposit == SUBSCRIPTION_PRICE ==> match lookup(
                old(self).subscribers@,
                ctx.predecessor_account_id@,
            ) {
                None => r == Err::<(), EngineError>(EngineError::NotEnrolled) && final(self).subscribers@
                    == old(self).subscribers@,
                Some(info) => if ctx.block_timestamp < info.next_payment_due {
                    r == Err::<(), EngineError>(EngineError::NotDue) && final(self).subscribers@
                        == old(self).subscribers@
                } else {
                    r is Ok && final(self).subscribers@ == old(self).subscribers@.update(
                        position(old(self).subscribers@, ctx.predecessor_account_id@),
                        (ctx.predecessor_account_id@, paid_info(info, old(self).period_length)),
                    )
                },
            },
    {
        if ctx.attached_deposit != SUBSCRIPTION_PRICE {
            return Err(EngineError::WrongDeposit);
        }
        let period_length = self.period_length;
        self.subscribers.pay(ctx.predecessor_account_id.as_str(), ctx.block_timestamp, period_length)
    }

    /// The caller asks to leave.
    pub fn user_unsubscribe(&mut self, ctx: &CallContext) -> (r: Result<(), EngineError>)
        requires
            old(self).wf(),
        ensures
            final(self).wf(),
            final(self).same_settings(old(self)),
            match lookup(old(self).subscribers@, ctx.predecessor_account_id@) {
                None => r == Err::<(), EngineError>(EngineError::NotEnrolled) && final(self).subscribers@
                    == old(self).subscribers@,
                Some(info) => if info.unsubscribe_state is Some {
                    r == Err::<(), EngineError>(EngineError::AlreadyUnsubscribing)
                        && final(self).subscribers@ == old(self).subscribers@
                } else {
                    r is Ok && final(self).subscribers@ == old(self).subscribers@.update(
                        position(old(self).subscribers@, ctx.predecessor_account_id@),
                        (ctx.predecessor_account_id@, unsubscribed_info(info, ctx.block_timestamp)),
                    )
                },
            },
    {
        self.subscribers.request_unsubscribe(ctx.predecessor_account_id.as_str(), ctx.block_timestamp)
    }

    /// The operator ends `user`'s subscription: at once where nothing more is
    /// owed, else as if the user had asked to leave.
    pub fn cancel_user_subscription(&mut self, ctx: &CallContext, user: &str) -> (r: Result<(), EngineError>)
        requires
            old(self).wf(),
        ensures
            final(self).wf(),
            final(self).same_settings(old(self)),
            ctx.predecessor_account_id@ != old(self).admin@ ==> r == Err::<(), EngineError>(
                EngineError::Unauthorized,
            ) && final(self).subscribers@ == old(self).subscribers@,
            ctx.predecessor_account_id@ == old(self).admin@ ==> match lookup(old(self).subscribers@, user@) {
                None => r == Err::<(), EngineError>(EngineError::NotEnrolled) && final(self).subscribers@
                    == old(self).subscribers@,
                Some(info) => if info.unsubscribe_state == Some(UnsubscribeState::Now) {
                    r is Ok && final(self).subscribers@ == old(self).subscribers@.remove(
                        position(old(self).subscribers@, user@),
                    )
                } else if info.unsubscribe_state is Some {
                    r == Err::<(), EngineError>(EngineError::AlreadyUnsubscribing)
                        && final(self).subscribers@ == old(self).subscribers@
                } else {
                    r is Ok && final(self).subscribers@ == old(self).subscribers@.update(
                        position(old(self).subscribers@, user@),
                        (user@, unsubscribed_info(info, ctx.block_timestamp)),
                    )
                },
            },
    {
        if ctx.predecessor_account_id != self.admin {
            return Err(EngineError::Unauthorized);
        }
        let info = match self.subscribers.get(user) {
            Some(info) => info,
            None => return Err(EngineError::NotEnrolled),
        };
        if info.unsubscribe_state == Some(UnsubscribeState::Now) {
            self.subscribers.remove(user);
            Ok(())
        } else {
            self.subscribers.request_unsubscribe(user, ctx.block_timestamp)
        }
    }

    /// First phase of a charge: checks that the caller is the operator and that
    /// the payment is due, removes a subscriber who has left, and otherwise
    /// builds the fee-collection transaction that `account_id` is to sign and
    /// prepares the request to the remote signer, which is paid `mpc_deposit`. A removal is not undone if
    /// the second phase fails later.
    pub fn charge_subscription(
        &mut self,
        ctx: &CallContext,
        account_id: &str,
        transaction_input: &TransactionInput,
        mpc_deposit: u128,
    ) -> (r: Result<ChargeOutcome, EngineError>)
        requires
            old(self).wf(),
        ensures
            final(self).wf(),
            final(self).same_settings(old(self)),
            ctx.predecessor_account_id@ != old(self).admin@ ==> r == Err::<ChargeOutcome, EngineError>(
                EngineError::Unauthorized,
            ) && final(self).subscribers@ == old(self).subscribers@,
            ctx.predecessor_account_id@ == old(self).admin@ ==> match lookup(
                old(self).subscribers@,
                account_id@,
            ) {
                None => r == Err::<ChargeOutcome, EngineError>(EngineError::NotEnrolled)
                    && final(self).subscribers@ == old(self).subscribers@,
                Some(info) => if ctx.block_timestamp <= info.next_payment_due {
                    r == Err::<ChargeOutcome, EngineError>(EngineError::NotDue)
                        && final(self).subscribers@ == old(self).subscribers@
                } else if info.unsubscribe_state == Some(UnsubscribeState::Now) {
                    r == Ok::<ChargeOutcome, EngineError>(ChargeOutcome::Unsubscribed)
                        && final(self).subscribers@ == old(self).subscribers@.remove(
                        position(old(self).subscribers@, account_id@),
                    )
                } else {
                    final(self).subscribers@ == old(self).subscribers@ && match fee_collection_tx(
                        account_id@,
                        *transaction_input,
                        ctx.current_account_id@,
                    ) {
                        Err(e) => r == Err::<ChargeOutcome, EngineError>(e),
                        Ok(tx) => r matches Ok(ChargeOutcome::SignatureRequested(plan))
                            && signing_plan_for(plan, tx, account_id@, mpc_deposit),
                    }
                },
            },
    {
        if ctx.predecessor_account_id != self.admin {
            return Err(EngineError::Unauthorized);
        }
        let eligibility = self.subscribers.charge_eligibility(account_id, ctx.block_timestamp)?;
        if eligibility == Eligibility::SkipAndRemove {
            self.subscribers.remove(account_id);
            return Ok(ChargeOutcome::Unsubscribed);
        }
        let mut actions: Vec<FunctionCall> = Vec::new();
        actions.push(
            FunctionCall {
                method_name: "pay_subscription".to_string(),
                args: Vec::new(),
                gas: CHARGE_GAS,
                deposit: SUBSCRIPTION_PRICE,
            },
        );
        proof {
            reveal_strlit("pay_subscription");
            assert(actions@.map_values(|a: FunctionCall| a@) =~= seq![fee_collection_call()]);
        }
        let tx = UnsignedTransaction::build(
            account_id,
            transaction_input.target_public_key.as_str(),
            transaction_input.nonce,
            ctx.current_account_id.as_str(),
            transaction_input.block_hash.as_str(),
            actions,
        )?;
        Ok(ChargeOutcome::SignatureRequested(request_signature(&tx, account_id, mpc_deposit)))
    }

    /// Second phase of a charge: completes the signature and returns the signed
    /// transaction's canonical bytes.
    pub fn sign_callback(&self, result: Option<SignResult>, serialized_tx: &str) -> (r: Result<Vec<u8>, EngineError>)
        ensures
            signing_outcome(result, serialized_tx@) matches Some(e) ==> r == Err::<Vec<u8>, EngineError>(e),
            signing_outcome(result, serialized_tx@) is None ==> signed_outcome(
                r,
                result->Some_0,
                serialized_tx@,
            ),
    {
        complete_signing(result, serialized_tx)
    }

    /// The billing state of `account_id`.
    pub fn view_user(&self, account_id: &str) -> (r: Result<SubscriptionView, EngineError>)
        requires
            self.wf(),
        ensures
            match lookup(self.subscribers@, account_id@) {
                None => r == Err::<SubscriptionView, EngineError>(EngineError::NotEnrolled),
                Some(info) => r matches Ok(v) && v.account_id@ == account_id@ && v.next_payment_due
                    == info.next_payment_due && v.unsubscribe_state == info.unsubscribe_state,
            },
    {
        match self.subscribers.get(account_id) {
            Some(info) => Ok(
                SubscriptionView {
                    account_id: account_id.to_string(),
                    next_payment_due: info.next_payment_due,
                    unsubscribe_state: info.unsubscribe_state,
                },
            ),
            None => Err(EngineError::NotEnrolled),
        }
    }

    /// A page of the ledger in enrollment order: from `from_index` (0 if not
    /// given), at most `limit` entries (all of them if not given).
    pub fn view_users(&self, from_index: &Option<u32>, limit: &Option<u32>) -> (r: Vec<SubscriptionView>)
        ensures
            ({
                let from: int = match from_index { Some(f) => *f as int, None => 0 };
                let lim: int = match limit { Some(l) => *l as int, None => self.subscribers@.len() as int };
                &&& r@.len() == crate::ledger::page_len(self.subscribers@.len() as int, from, lim)
                &&& forall|k: int|
                    0 <= k < r@.len() ==> (#[trigger] r@[k]).account_id@ == self.subscribers@[from + k].0
                        && r@[k].next_payment_due == self.subscribers@[from + k].1.next_payment_due
                        && r@[k].unsubscribe_state == self.subscribers@[from + k].1.unsubscribe_state
            }),
    {
        let from: usize = match from_index {
            Some(f) => *f as usize,
            None => 0,
        };
        let lim: usize = match limit {
            Some(l) => *l as usize,
            None => self.subscribers.len(),
        };
        self.subscribers.list(from, lim)
    }
}

} // verus!
