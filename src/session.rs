//! The loan orchestrator: a flash-loan session moves forward from reserve selection
//! through refresh, borrow and the receiver's callback to the repayment check.
//! Each step decides what to call next; the caller performs the call and reports
//! what came back.
use vstd::prelude::*;
use crate::address::Address;
use crate::authority::{derivation, TransferAuthority};
use crate::cpi::{
    callback_accounts, callback_data, le_bytes, metas_view, receiver_callback, AccountMeta,
    Instruction, TOKEN_PROGRAM_ID,
};
use crate::error::AggregatorError;
use crate::fee::{fee, fee_of, is_repaid, repaid};
use crate::lending::{
    flash_loan, flash_loan_fixed_accounts, market_authority, refresh, refresh_view, FlashLoan,
};
use crate::registry::{
    is_top_ranked, lemma_head_is_top_ranked, lemma_ranking_cheapest_first, none_eligible,
    ReserveDescriptor, ReserveRegistry,
};

verus! {

/// Settings of the aggregator program itself.
#[derive(Clone, Copy, Debug, PartialEq, Eq)]
pub struct AggregatorConfig {
    /// The aggregator's program, under which transfer authorities are derived.
    pub program_id: Address,
}

/// A caller's request for one flash loan.
#[derive(Debug, PartialEq, Eq)]
pub struct LoanRequest {
    /// Mint of the asset to borrow.
    pub asset: Address,
    /// Amount to borrow.
    pub amount: u64,
    /// The receiver program called back with the loan.
    pub receiver_program: Address,
    /// Accounts the receiver asks for, passed through untouched and in order.
    pub receiver_accounts: Vec<AccountMeta>,
    /// The caller's signing authority.
    pub caller_authority: Address,
    /// The token account the loan is paid into.
    pub destination_liquidity: Address,
    /// The current owner of `destination_liquidity`.
    pub destination_owner: Address,
    /// The host fee receiver handed to the lending backend.
    pub host_fee_receiver: Address,
}

/// Where a session stands. Selection happens within `begin`, and the repayment check
/// within the step that receives the receiver's return, so neither is ever observed.
#[derive(Clone, Copy, Debug, PartialEq, Eq, Structural)]
pub enum SessionState {
    /// Waiting for the chosen reserve's refresh.
    Refreshing,
    /// Waiting for the lending backend to disburse the loan.
    Borrowing,
    /// Waiting for the receiver's callback to return.
    InvokingReceiver,
    /// The loan was repaid; terminal.
    Settled,
    /// The request failed for the given reason; terminal.
    Aborted(AggregatorError),
}

/// What the caller reports after performing the call a step asked for.
#[derive(Clone, Copy, Debug, PartialEq, Eq, Structural)]
pub enum Event {
    /// The refresh succeeded; `pre_borrow_balance` is the liquidity balance read before
    /// the loan.
    Refreshed { pre_borrow_balance: u64 },
    /// The refresh call failed.
    RefreshFailed,
    /// The lending backend disbursed the loan.
    Borrowed,
    /// The lending backend refused the loan.
    BorrowRejected,
    /// The receiver's callback returned; `post_balance` is the liquidity balance read
    /// afterwards.
    ReceiverReturned { post_balance: u64 },
}

/// What the caller must do next.
#[derive(Debug, PartialEq, Eq)]
pub enum Action {
    /// Invoke `instruction`, signed with `signer_seeds` when present.
    Invoke { instruction: Instruction, signer_seeds: Option<Vec<Vec<u8>>> },
    /// The session has ended; its state says how.
    Finish,
}

/// The call an action asks for, with the deep view of its seeds.
pub open spec fn invokes(a: Action, ix: (Seq<u8>, Seq<(Seq<u8>, bool, bool)>, Seq<u8>), seeds: Option<Seq<Seq<u8>>>) -> bool {
    a matches Action::Invoke { instruction, signer_seeds } && instruction@ == ix && match signer_seeds {
        Some(s) => seeds == Some(s.deep_view()),
        None => seeds is None,
    }
}

/// The one live flash loan of a transfer authority, from selection to settlement.
pub struct FlashLoanSession {
    pub state: SessionState,
    pub request: LoanRequest,
    /// The reserve chosen at selection; none when selection found nothing.
    pub chosen: Option<ReserveDescriptor>,
    /// The fee owed, once the borrow was issued.
    pub fee: u64,
    /// Principal plus fee, once the borrow was issued.
    pub amount_to_repay: u64,
    /// The liquidity balance recorded before the borrow.
    pub pre_borrow_balance: u64,
    /// The transfer authority, once derived.
    pub authority: Option<TransferAuthority>,
}

impl FlashLoanSession {
    /// The session's recorded values agree with its state.
    pub open spec fn wf(&self) -> bool {
        &&& (self.state is Refreshing || self.state is Borrowing || self.state is InvokingReceiver)
            ==> self.chosen is Some
        &&& (self.state is Borrowing || self.state is InvokingReceiver) ==> {
            &&& self.fee == fee_of(self.request.amount as int, self.chosen->Some_0.fee_basis_points as int)
            &&& self.amount_to_repay == self.request.amount + self.fee
            &&& self.authority is Some
        }
    }

    /// The session is waiting for `event`.
    pub open spec fn awaits(&self, event: Event) -> bool {
        match self.state {
            SessionState::Refreshing => event is Refreshed || event is RefreshFailed,
            SessionState::Borrowing => event is Borrowed || event is BorrowRejected,
            SessionState::InvokingReceiver => event is ReceiverReturned,
            _ => false,
        }
    }

    /// Whether the session is waiting for `event`.
    pub fn accepts(&self, event: &Event) -> (r: bool)
        ensures
            r == self.awaits(*event),
    {
        match self.state {
            SessionState::Refreshing => matches!(event, Event::Refreshed { .. } | Event::RefreshFailed),
            SessionState::Borrowing => matches!(event, Event::Borrowed | Event::BorrowRejected),
            SessionState::InvokingReceiver => matches!(event, Event::ReceiverReturned { .. }),
            _ => false,
        }
    }

    /// Whether the session has ended, settled or aborted.
    pub fn is_finished(&self) -> (r: bool)
        ensures
            r == (self.state is Settled || self.state is Aborted),
    {
        matches!(self.state, SessionState::Settled | SessionState::Aborted(_))
    }
}

/// The session ended, aborted for `reason`, and no further call is asked for.
pub open spec fn aborts(s: FlashLoanSession, a: Action, reason: AggregatorError) -> bool {
    s.state == SessionState::Aborted(reason) && a is Finish
}

/// The flash-loan instruction a session issues for `request` against `chosen`, paid
/// into the request's destination, with the receiver's accounts right after the nine
/// fixed ones.
pub open spec fn borrow_view(
    request: LoanRequest,
    chosen: ReserveDescriptor,
    market_authority_address: Seq<u8>,
) -> (Seq<u8>, Seq<(Seq<u8>, bool, bool)>, Seq<u8>) {
    (
        chosen.program_address@,
        flash_loan_fixed_accounts(
            chosen.liquidity_supply@,
            request.destination_liquidity@,
            chosen.reserve@,
            chosen.fee_receiver@,
            request.host_fee_receiver@,
            chosen.lending_market@,
            market_authority_address,
            request.receiver_program@,
        ) + metas_view(request.receiver_accounts@),
        seq![13u8] + le_bytes(request.amount),
    )
}

/// The receiver callback a session issues once the loan is out: the loan's
/// destination pays `amount_to_repay` back into the chosen reserve's liquidity supply,
/// through the SPL token program that the borrow names too.
pub open spec fn callback_view(
    request: LoanRequest,
    chosen: ReserveDescriptor,
    amount_to_repay: u64,
) -> (Seq<u8>, Seq<(Seq<u8>, bool, bool)>, Seq<u8>) {
    (
        request.receiver_program@,
        callback_accounts(
            request.destination_liquidity@,
            chosen.liquidity_supply@,
            TOKEN_PROGRAM_ID@,
            request.receiver_accounts@,
        ),
        callback_data(amount_to_repay),
    )
}

/// How one step moves session `s` to `t` on `event`, asking for `a`.
pub open spec fn transition(
    s: FlashLoanSession,
    t: FlashLoanSession,
    config: AggregatorConfig,
    event: Event,
    a: Action,
) -> bool {
    let request = s.request;
    let chosen = s.chosen->Some_0;
    &&& t.request == s.request
    &&& t.chosen == s.chosen
    &&& match event {
        Event::RefreshFailed => aborts(t, a, AggregatorError::RefreshFailed),
        Event::Refreshed { pre_borrow_balance } => {
            let owed = fee_of(request.amount as int, chosen.fee_basis_points as int);
            match derivation(
                config.program_id@,
                request.receiver_program@,
                chosen.reserve@,
                request.caller_authority@,
            ) {
                None => aborts(t, a, AggregatorError::DerivationExhausted),
                Some((address, bump, seeds)) => if address != request.destination_owner@ {
                    aborts(t, a, AggregatorError::InvalidAccountOwner)
                } else if request.amount + owed > u64::MAX {
                    aborts(t, a, AggregatorError::RepaymentOverflow)
                } else {
                    match market_authority(chosen.program_address@, chosen.lending_market@) {
                        None => aborts(t, a, AggregatorError::DerivationExhausted),
                        Some(market_address) => {
                            &&& t.state is Borrowing
                            &&& t.fee == owed
                            &&& t.amount_to_repay == request.amount + owed
                            &&& t.pre_borrow_balance == pre_borrow_balance
                            &&& t.authority matches Some(auth) && auth@ == (address, bump, seeds)
                            &&& invokes(a, borrow_view(request, chosen, market_address), Some(seeds))
                        },
                    }
                },
            }
        },
        Event::Borrowed => {
            &&& t.state is InvokingReceiver
            &&& t.fee == s.fee
            &&& t.amount_to_repay == s.amount_to_repay
            &&& t.pre_borrow_balance == s.pre_borrow_balance
            &&& t.authority == s.authority
            &&& invokes(
                a,
                callback_view(request, chosen, s.amount_to_repay),
                Some(s.authority->Some_0.signing_seeds.deep_view()),
            )
        },
        Event::BorrowRejected => aborts(t, a, AggregatorError::BorrowRejected),
        Event::ReceiverReturned { post_balance } => if repaid(
            s.pre_borrow_balance as int,
            post_balance as int,
            request.amount as int,
            s.fee as int,
        ) {
            t.state is Settled && a is Finish
        } else {
            aborts(t, a, AggregatorError::RepaymentShortfall)
        },
    }
}

/// Starts a session for `request` at slot `now`: ranks the reserves able to serve it
/// and picks the best. With none eligible the session aborts with
/// `NoEligibleReserve` and asks for no call; otherwise it asks for the chosen
/// reserve's refresh.
pub fn begin(registry: &ReserveRegistry, request: LoanRequest, now: u64) -> (r: (FlashLoanSession, Action))
    ensures
        r.0.wf(),
        r.0.request == request,
        none_eligible(registry@, request.asset@, request.amount, now) ==> aborts(
            r.0,
            r.1,
            AggregatorError::NoEligibleReserve,
        ),
        !none_eligible(registry@, request.asset@, request.amount, now) ==> {
            &&& r.0.state is Refreshing
            &&& exists|p: int|
                is_top_ranked(registry@, request.asset@, request.amount, now, p) && r.0.chosen == Some(
                    #[trigger] registry@[p],
                )
            &&& invokes(r.1, refresh_view(r.0.chosen->Some_0), None)
        },
{
    let order = registry.list_eligible(&request.asset, request.amount, now);
    proof {
        lemma_ranking_cheapest_first(registry@, request.asset@, request.amount, now, order@);
    }
    if order.len() == 0 {
        let session = FlashLoanSession {
            state: SessionState::Aborted(AggregatorError::NoEligibleReserve),
            request,
            chosen: None,
            fee: 0,
            amount_to_repay: 0,
            pre_borrow_balance: 0,
            authority: None,
        };
        (session, Action::Finish)
    } else {
        proof {
            lemma_head_is_top_ranked(registry@, request.asset@, request.amount, now, order@);
        }
        let best = registry.get(order[0]);
        let instruction = refresh(&best);
        let session = FlashLoanSession {
            state: SessionState::Refreshing,
            request,
            chosen: Some(best),
            fee: 0,
            amount_to_repay: 0,
            pre_borrow_balance: 0,
            authority: None,
        };
        assert(session.chosen == Some(registry@[order@[0] as int]));
        (session, Action::Invoke { instruction, signer_seeds: None })
    }
}

impl FlashLoanSession {
    /// Ends the session, aborted for `reason`.
    fn abort(&mut self, reason: AggregatorError) -> (r: Action)
        ensures
            aborts(*final(self), r, reason),
            final(self).request == old(self).request,
            final(self).chosen == old(self).chosen,
    {
        self.state = SessionState::Aborted(reason);
        Action::Finish
    }

    /// Moves the session forward on `event`, the outcome of the call the previous step
    /// asked for, and returns the next call or `Finish`:
    /// - after the refresh, derives the transfer authority, checks that it owns the
    ///   destination account, records the pre-borrow balance and asks for the
    ///   backend's flash loan, signed by the authority;
    /// - after the loan, asks for the receiver's callback with principal plus fee;
    /// - after the callback, settles if the balance covers the pre-borrow balance plus
    ///   principal and fee, else aborts with `RepaymentShortfall`.
    /// A failed refresh or a refused loan aborts the session with that reason.
    pub fn step(&mut self, config: &AggregatorConfig, event: Event) -> (r: Action)
        requires
            old(self).wf(),
            old(self).awaits(event),
        ensures
            final(self).wf(),
            transition(*old(self), *final(self), *config, event, r),
    {
        let chosen = match self.chosen {
            Some(c) => c,
            None => {
                return self.abort(AggregatorError::NoEligibleReserve);
            },
        };
        let amount = self.request.amount;
        match event {
            Event::RefreshFailed => self.abort(AggregatorError::RefreshFailed),
            Event::Refreshed { pre_borrow_balance } => {
                let derived = crate::authority::derive(
                    &config.program_id,
                    &self.request.receiver_program,
                    &chosen.reserve,
                    &self.request.caller_authority,
                );
                let authority = match derived {
                    Ok(a) => a,
                    Err(_) => {
                        return self.abort(AggregatorError::DerivationExhausted);
                    },
                };
                if !self.request.destination_owner.same_as(&authority.address) {
                    return self.abort(AggregatorError::InvalidAccountOwner);
                }
                let owed = fee(amount, chosen.fee_basis_points);
                if owed > (u64::MAX - amount) as u128 {
                    return self.abort(AggregatorError::RepaymentOverflow);
                }
                let loan = FlashLoan {
                    lending_program: chosen.program_address,
                    source_liquidity: chosen.liquidity_supply,
                    destination_liquidity: self.request.destination_liquidity,
                    reserve: chosen.reserve,
                    flash_loan_fee_receiver: chosen.fee_receiver,
                    host_fee_receiver: self.request.host_fee_receiver,
                    lending_market: chosen.lending_market,
                    flash_loan_receiver: self.request.receiver_program,
                };
                match flash_loan(&loan, amount, &self.request.receiver_accounts) {
                    Err(_) => self.abort(AggregatorError::DerivationExhausted),
                    Ok(instruction) => {
                        let seeds = authority.signer_seeds();
                        self.fee = owed as u64;
                        self.amount_to_repay = amount + owed as u64;
                        self.pre_borrow_balance = pre_borrow_balance;
                        self.authority = Some(authority);
                        self.state = SessionState::Borrowing;
                        Action::Invoke { instruction, signer_seeds: Some(seeds) }
                    },
                }
            },
            Event::Borrowed => {
                let seeds = match &self.authority {
                    Some(a) => a.signer_seeds(),
                    None => {
                        return self.abort(AggregatorError::DerivationExhausted);
                    },
                };
                let instruction = receiver_callback(
                    &self.request.receiver_program,
                    &self.request.destination_liquidity,
                    &chosen.liquidity_supply,
                    &Address::new(TOKEN_PROGRAM_ID),
                    &self.request.receiver_accounts,
                    self.amount_to_repay,
                );
                self.state = SessionState::InvokingReceiver;
                Action::Invoke { instruction, signer_seeds: Some(seeds) }
            },
            Event::BorrowRejected => self.abort(AggregatorError::BorrowRejected),
            Event::ReceiverReturned { post_balance } => {
                if is_repaid(self.pre_borrow_balance, post_balance, amount, self.fee as u128) {
                    self.state = SessionState::Settled;
                    Action::Finish
                } else {
                    self.abort(AggregatorError::RepaymentShortfall)
                }
            },
        }
    }
}

/// A receiver that returns without restoring the pre-borrow balance plus principal
/// and fee aborts the session with `RepaymentShortfall`, however much it did pay back;
/// and no call follows.
pub proof fn lemma_shortfall_aborts(
    s: FlashLoanSession,
    t: FlashLoanSession,
    config: AggregatorConfig,
    post_balance: u64,
    a: Action,
)
    requires
        transition(s, t, config, Event::ReceiverReturned { post_balance }, a),
        post_balance < s.pre_borrow_balance + s.request.amount + s.fee,
    ensures
        t.state == SessionState::Aborted(AggregatorError::RepaymentShortfall),
        a is Finish,
{
}

} // verus!
