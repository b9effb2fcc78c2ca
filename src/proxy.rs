use vstd::prelude::*;
use vstd::string::{StrSliceExecFns, StringExecFns};
use vstd::utf8::encode_utf8;

use crate::error::EngineError;
use crate::orchestrator::{
    complete_signing, request_signature, signed_outcome, signing_outcome, signing_plan_for, CallContext,
    SigningPlan,
};
use crate::signer::SignResult;
use crate::transaction::{
    built_transaction, CallModel, FunctionCall, UnsignedTransaction,
};

verus! {

/// The gas budget of the token transfer call (100 Tgas).
pub const BET_GAS: u64 = 100_000_000_000_000;

/// The deposit that the token transfer call carries (1 yoctoNEAR).
pub const BET_DEPOSIT: u128 = 1;

/// The fee attached to the signing request of a transfer (1 yoctoNEAR).
pub const SIGNER_DEPOSIT: u128 = 1;

/// What the caller supplies for the transaction to be signed.
pub struct TransactionInput {
    pub subscriber_public_key: String,
    pub nonce: u64,
    pub block_hash: String,
}

/// A bet to place on a subscriber's behalf.
pub struct BetInput {
    pub match_id: String,
    pub team: Team,
    pub amount: u128,
}

#[derive(Debug, Clone, Copy, PartialEq, Eq, Structural)]
pub enum Team {
    Team1,
    Team2,
}

/// A text in JSON form: quoted, with the characters that JSON requires escaped.
pub uninterp spec fn json_string_literal(s: Seq<char>) -> Seq<char>;

/// Relies on `serde_json::to_string` on a `str`: the JSON string literal for the
/// text, which depends on the text alone. Writing a string into a `Vec` never
/// fails.
#[verifier::external_body]
fn json_quote(s: &str) -> (r: Result<String, serde_json::Error>)
    ensures
        r is Ok,
        r matches Ok(q) ==> q@ == json_string_literal(s@),
{
    serde_json::to_string(s)
}

#[verifier::external_type_specification]
#[verifier::external_body]
pub struct ExJsonError(serde_json::Error);

/// The decimal digits of `n`, most significant first.
pub open spec fn decimal_digits(n: nat) -> Seq<char>
    decreases n,
{
    if n < 10 {
        seq![(n + '0' as nat) as char]
    } else {
        decimal_digits(n / 10) + seq![((n % 10) + '0' as nat) as char]
    }
}

/// Appends the digit `d` to `s`.
fn append_digit(s: &mut String, d: u128)
    requires
        d < 10,
    ensures
        final(s)@ == old(s)@ + seq![(d + '0' as nat) as char],
{
    let digits = "0123456789";
    proof {
        reveal_strlit("0123456789");
    }
    let i = d as usize;
    let c = digits.substring_char(i, i + 1);
    proof {
        assert(c@ =~= seq![(d + '0' as nat) as char]) by {
            assert(c@[0] == digits@[i as int]);
            if d == 0 {} else if d == 1 {} else if d == 2 {} else if d == 3 {} else if d == 4 {}
            else if d == 5 {} else if d == 6 {} else if d == 7 {} else if d == 8 {} else {}
        }
    }
    s.append(c);
}

/// Appends the decimal digits of `n` to `s`.
fn append_decimal(s: &mut String, n: u128)
    ensures
        final(s)@ == old(s)@ + decimal_digits(n as nat),
    decreases n,
{
    if n >= 10 {
        append_decimal(s, n / 10);
    }
    append_digit(s, n % 10);
    proof {
        if n >= 10 {
            assert(s@ =~= old(s)@ + decimal_digits(n as nat));
        }
    }
}

pub open spec fn team_name(t: Team) -> Seq<char> {
    match t {
        Team::Team1 => "Team1"@,
        Team::Team2 => "Team2"@,
    }
}

/// The message that the betting contract reads: `{"Bet":{"match_id":..,"team":..}}`.
pub open spec fn bet_message(match_id: Seq<char>, team: Team) -> Seq<char> {
    "{\"Bet\":{\"match_id\":"@ + json_string_literal(match_id) + ",\"team\":\""@ + team_name(team)
        + "\"}}"@
}

/// The arguments of `ft_transfer_call`: receiver, amount as a decimal string,
/// and the message as a JSON string.
pub open spec fn transfer_args(receiver_id: Seq<char>, amount: u128, msg: Seq<char>) -> Seq<char> {
    "{\"receiver_id\":"@ + json_string_literal(receiver_id) + ",\"amount\":\""@ + decimal_digits(
        amount as nat,
    ) + "\",\"msg\":"@ + json_string_literal(msg) + "}"@
}

/// The single action of the delegated transfer: `ft_transfer_call` on the token
/// contract, carrying the bet.
pub open spec fn bet_call(receiver_id: Seq<char>, bet: BetInput) -> CallModel {
    CallModel {
        method_name: "ft_transfer_call"@,
        args: encode_utf8(
            transfer_args(receiver_id, bet.amount, bet_message(bet.match_id@, bet.team)),
        ),
        gas: BET_GAS,
        deposit: BET_DEPOSIT,
    }
}

/// The engine that places bets on behalf of its subscribers.
pub struct Contract {
    pub subscribers: Vec<String>,
    pub admin: String,
    pub mpc_contract: String,
    pub betting_contract: String,
    pub vex_token_contract: String,
}

impl Contract {
    pub open spec fn accounts(&self) -> Seq<Seq<char>> {
        self.subscribers@.map_values(|s: String| s@)
    }

    /// Each account is subscribed at most once.
    pub open spec fn wf(&self) -> bool {
        self.accounts().no_duplicates()
    }

    pub open spec fn same_settings(&self, other: &Contract) -> bool {
        &&& self.admin@ == other.admin@
        &&& self.mpc_contract@ == other.mpc_contract@
        &&& self.betting_contract@ == other.betting_contract@
        &&& self.vex_token_contract@ == other.vex_token_contract@
    }

    pub fn init(
        admin: String,
        mpc_contract: String,
        betting_contract: String,
        vex_token_contract: String,
    ) -> (r: Contract)
        ensures
            r.wf(),
            r.accounts() == Seq::<Seq<char>>::empty(),
            r.admin@ == admin@,
            r.mpc_contract@ == mpc_contract@,
            r.betting_contract@ == betting_contract@,
            r.vex_token_contract@ == vex_token_contract@,
    {
        let r = Contract {
            subscribers: Vec::new(),
            admin,
            mpc_contract,
            betting_contract,
            vex_token_contract,
        };
        proof {
            assert(r.accounts() =~= Seq::<Seq<char>>::empty());
        }
        r
    }

    fn find(&self, account_id: &str) -> (r: Option<usize>)
        ensures
            r matches Some(i) ==> i < self.accounts().len() && self.accounts()[i as int]
                == account_id@,
            r is None ==> !self.accounts().contains(account_id@),
    {
        let key = account_id.to_string();
        let mut i: usize = 0;
        while i < self.subscribers.len()
            invariant
                i <= self.subscribers@.len(),
                key@ == account_id@,
                forall|k: int| 0 <= k < i ==> (#[trigger] self.accounts()[k]) != account_id@,
            decreases self.subscribers@.len() - i,
        {
            if self.subscribers[i] == key {
                return Some(i);
            }
            i = i + 1;
        }
        None
    }

    /// Whether `account_id` is subscribed.
    pub fn is_subscribed(&self, account_id: &str) -> (r: bool)
        ensures
            r == self.accounts().contains(account_id@),
    {
        self.find(account_id).is_some()
    }

    /// The subscribed accounts, in the order in which they joined.
    pub fn get_subscribers(&self) -> (r: Vec<String>)
        ensures
            r@.map_values(|s: String| s@) == self.accounts(),
    {
        let mut out: Vec<String> = Vec::new();
        let mut i: usize = 0;
        while i < self.subscribers.len()
            invariant
                i <= self.subscribers@.len(),
                out@.len() == i,
                out@.map_values(|s: String| s@) == self.accounts().subrange(0, i as int),
            decreases self.subscribers@.len() - i,
        {
            let account: &String = &self.subscribers[i];
            let copy = account.clone();
            let ghost prev = out@;
            out.push(copy);
            proof {
                assert(copy@ == self.accounts()[i as int]);
                assert forall|k: int| 0 <= k < i implies out@[k]@ == self.accounts()[k] by {
                    assert(out@[k] == prev[k]);
                    assert(prev.map_values(|s: String| s@)[k] == self.accounts().subrange(0, i as int)[k]);
                }
                assert(out@.map_values(|s: String| s@) =~= self.accounts().subrange(0, i + 1));
            }
            i = i + 1;
        }
        proof {
            assert(self.accounts().subrange(0, i as int) =~= self.accounts());
        }
        out
    }

    /// Subscribes the caller.
    pub fn start_subscription(&mut self, ctx: &CallContext) -> (r: Result<(), EngineError>)
        requires
            old(self).wf(),
        ensures
            final(self).wf(),
            final(self).same_settings(old(self)),
            old(self).accounts().contains(ctx.predecessor_account_id@) ==> r == Err::<(), EngineError>(
                EngineError::AlreadyEnrolled,
            ) && final(self).accounts() == old(self).accounts(),
            !old(self).accounts().contains(ctx.predecessor_account_id@) ==> r is Ok
                && final(self).accounts() == old(self).accounts().push(ctx.predecessor_account_id@),
    {
        if self.find(ctx.predecessor_account_id.as_str()).is_some() {
            return Err(EngineError::AlreadyEnrolled);
        }
        self.subscribers.push(ctx.predecessor_account_id.clone());
        proof {
            let a = old(self).accounts();
            assert(self.accounts() =~= a.push(ctx.predecessor_account_id@));
            assert forall|x: int, y: int|
                0 <= x < self.accounts().len() && 0 <= y < self.accounts().len() && x != y implies
                self.accounts()[x] != self.accounts()[y] by {
                if x == a.len() {
                    assert(a[y] != ctx.predecessor_account_id@);
                } else if y == a.len() {
                    assert(a[x] != ctx.predecessor_account_id@);
                }
            }
        }
        Ok(())
    }

    /// Ends the caller's subscription.
    pub fn end_subscription(&mut self, ctx: &CallContext) -> (r: Result<(), EngineError>)
        requires
            old(self).wf(),
        ensures
            final(self).wf(),
            final(self).same_settings(old(self)),
            !old(self).accounts().contains(ctx.predecessor_account_id@) ==> r == Err::<(), EngineError>(
                EngineError::NotEnrolled,
            ) && final(self).accounts() == old(self).accounts(),
            old(self).accounts().contains(ctx.predecessor_account_id@) ==> r is Ok
                && final(self).accounts() == old(self).accounts().remove(
                old(self).accounts().index_of(ctx.predecessor_account_id@),
            ),
    {
        let i = match self.find(ctx.predecessor_account_id.as_str()) {
            Some(i) => i,
            None => return Err(EngineError::NotEnrolled),
        };
        proof {
            let a = old(self).accounts();
            let j = a.index_of(ctx.predecessor_account_id@);
            assert(a.contains(ctx.predecessor_account_id@));
            assert(a[j] == a[i as int]);
        }
        self.subscribers.remove(i);
        proof {
            assert(self.accounts() =~= old(self).accounts().remove(i as int));
            assert forall|x: int, y: int|
                0 <= x < self.accounts().len() && 0 <= y < self.accounts().len() && x != y implies
                self.accounts()[x] != self.accounts()[y] by {
                let x2 = if x < i { x } else { x + 1 };
                let y2 = if y < i { y } else { y + 1 };
                assert(self.accounts()[x] == old(self).accounts()[x2]);
                assert(self.accounts()[y] == old(self).accounts()[y2]);
            }
        }
        Ok(())
    }

    /// The arguments of the transfer that carries `bet_input`, as bytes.
    fn transfer_arguments(&self, bet_input: &BetInput) -> (r: Result<Vec<u8>, EngineError>)
        ensures
            r is Ok,
            r matches Ok(b) ==> b@ == bet_call(self.betting_contract@, *bet_input).args,
    {
        let match_id = match json_quote(bet_input.match_id.as_str()) {
            Ok(q) => q,
            Err(_) => return Err(EngineError::SerializationFailure),
        };
        let mut msg = String::from_str("{\"Bet\":{\"match_id\":");
        msg.append(match_id.as_str());
        msg.append(",\"team\":\"");
        match bet_input.team {
            Team::Team1 => msg.append("Team1"),
            Team::Team2 => msg.append("Team2"),
        }
        msg.append("\"}}");
        let receiver = match json_quote(self.betting_contract.as_str()) {
            Ok(q) => q,
            Err(_) => return Err(EngineError::SerializationFailure),
        };
        let quoted_msg = match json_quote(msg.as_str()) {
            Ok(q) => q,
            Err(_) => return Err(EngineError::SerializationFailure),
        };
        let mut args = String::from_str("{\"receiver_id\":");
        args.append(receiver.as_str());
        args.append(",\"amount\":\"");
        append_decimal(&mut args, bet_input.amount);
        args.append("\",\"msg\":");
        args.append(quoted_msg.as_str());
        args.append("}");
        proof {
            assert(msg@ =~= bet_message(bet_input.match_id@, bet_input.team));
            assert(args@ =~= transfer_args(self.betting_contract@, bet_input.amount, msg@));
        }
        Ok(args.as_str().as_bytes_vec())
    }

    /// First phase of a delegated transfer: the operator has `account_id` send
    /// `bet_input.amount` tokens to the betting contract with the bet as message.
    /// Builds the transaction and prepares the request to the remote signer,
    /// which is paid `SIGNER_DEPOSIT`.
    pub fn proxy_bet(
        &mut self,
        ctx: &CallContext,
        account_id: &str,
        transaction_input: &TransactionInput,
        bet_input: &BetInput,
    ) -> (r: Result<SigningPlan, EngineError>)
        ensures
            final(self).same_settings(old(self)),
            final(self).accounts() == old(self).accounts(),
            ctx.predecessor_account_id@ != old(self).admin@ ==> r == Err::<SigningPlan, EngineError>(
                EngineError::Unauthorized,
            ),
            ctx.predecessor_account_id@ == old(self).admin@ ==> ({
                let built = built_transaction(
                    account_id@,
                    transaction_input.subscriber_public_key@,
                    transaction_input.nonce,
                    old(self).vex_token_contract@,
                    transaction_input.block_hash@,
                    seq![bet_call(old(self).betting_contract@, *bet_input)],
                );
                &&& built matches Ok(tx) ==> r matches Ok(plan) && signing_plan_for(
                    plan,
                    tx,
                    account_id@,
                    SIGNER_DEPOSIT,
                )
                &&& built matches Err(e) ==> r == Err::<SigningPlan, EngineError>(e)
            }),
    {
        if ctx.predecessor_account_id != self.admin {
            return Err(EngineError::Unauthorized);
        }
        let args = self.transfer_arguments(bet_input)?;
        let mut actions: Vec<FunctionCall> = Vec::new();
        actions.push(
            FunctionCall {
                method_name: "ft_transfer_call".to_string(),
                args,
                gas: BET_GAS,
                deposit: BET_DEPOSIT,
            },
        );
        proof {
            assert(actions@.map_values(|a: FunctionCall| a@) =~= seq![
                bet_call(self.betting_contract@, *bet_input),
            ]);
        }
        let tx = UnsignedTransaction::build(
            account_id,
            transaction_input.subscriber_public_key.as_str(),
            transaction_input.nonce,
            self.vex_token_contract.as_str(),
            transaction_input.block_hash.as_str(),
            actions,
        )?;
        Ok(request_signature(&tx, account_id, SIGNER_DEPOSIT))
    }

    /// Second phase of a delegated transfer: completes the signature and returns
    /// the signed transaction's canonical bytes.
    pub fn sign_callback(&self, result: Option<SignResult>, serialized_tx: &str) -> (r: Result<Vec<u8>, EngineError>)
        ensures
            signing_outcome(result, serialized_tx@) matches Some(e) ==> r == Err::<Vec<u8>, EngineError>(e),
            signing_outcome(result, serialized_tx@) is None ==> signed_outcome(
                r,
                result->Some_0,
                serialized_tx@,
            ),
    {
        complete_signing(result, serialized_tx)
    }
}

} // verus!
