//! Batch withdrawals: one call pays out several streams of one recipient.
use vstd::prelude::*;
use crate::accrual::lemma_accrued_bounded;
use crate::address::Address;
use crate::stream::{FluxoraStream, accrued_view, checkpoint_of, is_terminal, stream_wf};
use crate::stream_lifecycle::liabilities_minus;
use crate::stream_types::{
    BatchWithdrawResult, ContractError, Effect, Invocation, PauseState, Stream, StreamStatus,
    WithdrawToParam,
};
use crate::stream_withdraw::{after_payout, held_as_dust, payout_effects};

verus! {

/// The amount a batch pays for `s` when `avail` tokens remain: accrued minus
/// withdrawn (0 for Completed streams, floored at 0), capped by `avail`, and
/// 0 when held back as dust.
pub open spec fn batch_amount(s: Stream, now: u64, avail: int) -> int {
    let owed = if s.status == StreamStatus::Completed {
        0
    } else {
        let d = accrued_view(s, now) - s.withdrawn_amount;
        if d > 0 { d } else { 0 }
    };
    let capped = if avail < owed { avail } else { owed };
    if capped > 0 && held_as_dust(s, now, capped) { 0 } else { capped }
}

/// The error a batch entry for stream `id` raises, if any.
pub open spec fn batch_entry_error(st: FluxoraStream, now: u64, recipient: Address, id: u64) -> Option<ContractError> {
    if !st.has_stream(id) {
        Some(ContractError::StreamNotFound)
    } else if st.stream(id).recipient != recipient {
        Some(ContractError::Unauthorized)
    } else if st.stream(id).status == StreamStatus::Paused && !is_terminal(st.stream(id), now) {
        Some(ContractError::InvalidState)
    } else {
        None
    }
}

/// The first entry error among the first `k` entries, if any.
pub open spec fn batch_first_error(st: FluxoraStream, now: u64, recipient: Address, ids: Seq<u64>, k: nat) -> Option<ContractError>
    decreases k,
{
    if k == 0 {
        None
    } else {
        match batch_first_error(st, now, recipient, ids, (k - 1) as nat) {
            Some(e) => Some(e),
            None => batch_entry_error(st, now, recipient, ids[k - 1]),
        }
    }
}

/// Tokens still available after the first `k` payouts.
pub open spec fn batch_avail(st: FluxoraStream, now: u64, ids: Seq<u64>, balance: i128, k: nat) -> int
    decreases k,
{
    if k == 0 {
        balance as int
    } else {
        let prev = batch_avail(st, now, ids, balance, (k - 1) as nat);
        let a = batch_amount(st.stream(ids[k - 1]), now, prev);
        if a > 0 { prev - a } else { prev }
    }
}

/// The amount paid for entry `k`.
pub open spec fn batch_paid(st: FluxoraStream, now: u64, ids: Seq<u64>, balance: i128, k: int) -> int {
    batch_amount(st.stream(ids[k]), now, batch_avail(st, now, ids, balance, k as nat))
}

/// The streams after the first `k` payouts.
pub open spec fn batch_streams(st: FluxoraStream, now: u64, ids: Seq<u64>, balance: i128, k: nat) -> Map<u64, Stream>
    decreases k,
{
    if k == 0 {
        st.book.streams@
    } else {
        let m = batch_streams(st, now, ids, balance, (k - 1) as nat);
        let a = batch_paid(st, now, ids, balance, k - 1);
        if a > 0 { m.insert(ids[k - 1], after_payout(st.stream(ids[k - 1]), a)) } else { m }
    }
}

/// The liabilities after the first `k` payouts (when tracked).
pub open spec fn batch_liabilities(st: FluxoraStream, now: u64, ids: Seq<u64>, balance: i128, k: nat) -> i128
    decreases k,
{
    if k == 0 {
        st.book.total_liabilities
    } else {
        let l = batch_liabilities(st, now, ids, balance, (k - 1) as nat);
        let a = batch_paid(st, now, ids, balance, k - 1);
        if a > 0 { liabilities_minus(l, a) } else { l }
    }
}

/// The effects of the first `k` payouts, each to its destination.
pub open spec fn batch_effects(
    st: FluxoraStream,
    now: u64,
    ids: Seq<u64>,
    dests: Seq<Address>,
    routed: bool,
    balance: i128,
    k: nat,
) -> Seq<Effect>
    decreases k,
{
    if k == 0 {
        Seq::empty()
    } else {
        let prev = batch_effects(st, now, ids, dests, routed, balance, (k - 1) as nat);
        let a = batch_paid(st, now, ids, balance, k - 1);
        if a > 0 {
            prev + payout_effects(st.stream(ids[k - 1]), a as i128, dests[k - 1], routed)
        } else {
            prev
        }
    }
}

/// The per-entry results of the batch.
pub open spec fn batch_results(st: FluxoraStream, now: u64, ids: Seq<u64>, balance: i128) -> Seq<BatchWithdrawResult> {
    Seq::new(ids.len(), |k: int| BatchWithdrawResult { stream_id: ids[k], amount: batch_paid(st, now, ids, balance, k) as i128 })
}

/// How the pre-check of `batch_withdraw_to` ends, scanning from entry `i`:
/// 0 when every entry passes, 1 on a destination equal to the contract,
/// 2 when a repeated stream id makes the call panic.
pub open spec fn batch_to_scan(ws: Seq<WithdrawToParam>, contract: Address, i: int) -> int
    decreases ws.len() - i,
{
    if i >= ws.len() || i < 0 {
        0
    } else if ws[i].destination == contract {
        1
    } else if exists|j: int| i < j < ws.len() && ws[j].stream_id == ws[i].stream_id {
        2
    } else {
        batch_to_scan(ws, contract, i + 1)
    }
}

pub open spec fn ids_of_params(ws: Seq<WithdrawToParam>) -> Seq<u64> {
    Seq::new(ws.len(), |k: int| ws[k].stream_id)
}

pub open spec fn dests_of_params(ws: Seq<WithdrawToParam>) -> Seq<Address> {
    Seq::new(ws.len(), |k: int| ws[k].destination)
}

/// The total paid by the first `k` entries.
pub open spec fn batch_total(st: FluxoraStream, now: u64, ids: Seq<u64>, balance: i128, k: nat) -> int
    decreases k,
{
    if k == 0 {
        0
    } else {
        batch_total(st, now, ids, balance, (k - 1) as nat) + batch_paid(st, now, ids, balance, k - 1)
    }
}

/// A batch never pays out more than the contract holds: the amounts paid
/// add up to the balance minus what remains available, which stays
/// non-negative, and no entry pays a negative amount.
pub proof fn law_batch_within_balance(st: FluxoraStream, now: u64, ids: Seq<u64>, balance: i128, k: nat)
    requires
        balance >= 0,
    ensures
        batch_total(st, now, ids, balance, k) == balance - batch_avail(st, now, ids, balance, k),
        0 <= batch_total(st, now, ids, balance, k) <= balance,
        forall|j: int| 0 <= j < k ==> #[trigger] batch_paid(st, now, ids, balance, j) >= 0,
    decreases k,
{
    lemma_batch_avail_range(st, now, ids, balance, k);
    if k > 0 {
        law_batch_within_balance(st, now, ids, balance, (k - 1) as nat);
        lemma_batch_avail_range(st, now, ids, balance, (k - 1) as nat);
    }
}

/// Available tokens never drop below `min(balance, 0)` nor rise above `balance`.
pub proof fn lemma_batch_avail_range(st: FluxoraStream, now: u64, ids: Seq<u64>, balance: i128, k: nat)
    ensures
        (if balance < 0 { balance as int } else { 0 }) <= batch_avail(st, now, ids, balance, k) <= balance,
    decreases k,
{
    if k > 0 {
        lemma_batch_avail_range(st, now, ids, balance, (k - 1) as nat);
    }
}

/// Streams that no payout among the first `k` touches are unchanged.
pub proof fn lemma_batch_streams_frame(st: FluxoraStream, now: u64, ids: Seq<u64>, balance: i128, k: nat, id: u64)
    requires
        k <= ids.len(),
        forall|j: int| 0 <= j < k ==> ids[j] != id,
    ensures
        batch_streams(st, now, ids, balance, k).contains_key(id) == st.book.streams@.contains_key(id),
        batch_streams(st, now, ids, balance, k)[id] == st.book.streams@[id],
    decreases k,
{
    if k > 0 {
        lemma_batch_streams_frame(st, now, ids, balance, (k - 1) as nat, id);
    }
}

/// Payouts only update existing streams.
pub proof fn lemma_batch_streams_dom(st: FluxoraStream, now: u64, ids: Seq<u64>, balance: i128, k: nat)
    requires
        k <= ids.len(),
        forall|j: int| 0 <= j < k ==> st.has_stream(#[trigger] ids[j]),
    ensures
        batch_streams(st, now, ids, balance, k).dom() == st.book.streams@.dom(),
    decreases k,
{
    if k > 0 {
        lemma_batch_streams_dom(st, now, ids, balance, (k - 1) as nat);
        let m = batch_streams(st, now, ids, balance, (k - 1) as nat);
        assert(m.insert(ids[k - 1], after_payout(st.stream(ids[k - 1]), 0)).dom() =~= m.dom());
    }
}

impl FluxoraStream {
    /// Checks the entries in order and returns the first error.
    fn batch_validate(&self, now: u64, recipient: Address, ids: &Vec<u64>) -> (r: Result<(), ContractError>)
        requires
            self.wf(),
        ensures
            match batch_first_error(*self, now, recipient, ids@, ids@.len()) {
                Some(e) => r == Err::<(), ContractError>(e),
                None => r is Ok,
            },
    {
        let mut k: usize = 0;
        while k < ids.len()
            invariant
                self.wf(),
                0 <= k <= ids@.len(),
                batch_first_error(*self, now, recipient, ids@, k as nat) is None,
            decreases ids@.len() - k,
        {
            let id = ids[k];
            proof {
                lemma_first_error_stable(*self, now, recipient, ids@, (k + 1) as nat, ids@.len());
            }
            let s = self.load_stream(id)?;
            if s.recipient != recipient {
                return Err(ContractError::Unauthorized);
            }
            let terminal = s.status == StreamStatus::Completed || s.status == StreamStatus::Cancelled
                || now >= s.end_time;
            if s.status == StreamStatus::Paused && !terminal {
                return Err(ContractError::InvalidState);
            }
            k = k + 1;
        }
        Ok(())
    }

    /// Pays out every entry in order, to `dests[k]`, tracking the remaining
    /// balance.
    fn batch_apply(
        &mut self,
        now: u64,
        recipient: Address,
        ids: &Vec<u64>,
        dests: &Vec<Address>,
        routed: bool,
        track_liabilities: bool,
        balance: i128,
    ) -> (results: Vec<BatchWithdrawResult>)
        requires
            old(self).wf(),
            ids@.no_duplicates(),
            dests@.len() == ids@.len(),
            batch_first_error(*old(self), now, recipient, ids@, ids@.len()) is None,
        ensures
            final(self).wf(),
            results@ == batch_results(*old(self), now, ids@, balance),
            final(self).same_but_book(old(self)),
            final(self).book.streams@ == batch_streams(*old(self), now, ids@, balance, ids@.len()),
            final(self).book.next_stream_id == old(self).book.next_stream_id,
            final(self).book.total_liabilities == (if track_liabilities {
                batch_liabilities(*old(self), now, ids@, balance, ids@.len())
            } else {
                old(self).book.total_liabilities
            }),
            final(self).log@ == old(self).log@ + batch_effects(*old(self), now, ids@, dests@, routed, balance, ids@.len()),
    {
        let ghost st = *old(self);
        let n = ids.len();
        proof {
            assert forall|j: int| 0 <= j < n implies st.has_stream(#[trigger] ids@[j])
                && batch_entry_error(st, now, recipient, ids@[j]) is None by {
                lemma_first_error_none(st, now, recipient, ids@, n as nat, j);
            }
        }
        let mut avail = balance;
        let mut results: Vec<BatchWithdrawResult> = Vec::new();
        let mut k: usize = 0;
        while k < n
            invariant
                self.wf(),
                n == ids@.len(),
                dests@.len() == n,
                ids@.no_duplicates(),
                0 <= k <= n,
                forall|j: int| 0 <= j < n ==> st.has_stream(#[trigger] ids@[j])
                    && batch_entry_error(st, now, recipient, ids@[j]) is None,
                avail == batch_avail(st, now, ids@, balance, k as nat),
                results@ == batch_results(st, now, ids@, balance).subrange(0, k as int),
                self.same_but_book(&st),
                self.book.streams@ == batch_streams(st, now, ids@, balance, k as nat),
                self.book.next_stream_id == st.book.next_stream_id,
                self.book.total_liabilities == (if track_liabilities {
                    batch_liabilities(st, now, ids@, balance, k as nat)
                } else {
                    st.book.total_liabilities
                }),
                self.log@ == st.log@ + batch_effects(st, now, ids@, dests@, routed, balance, k as nat),
            decreases n - k,
        {
            let id = ids[k];
            proof {
                assert forall|j: int| 0 <= j < k implies ids@[j] != id by {
                    assert(ids@[j] != ids@[k as int]);
                }
                lemma_batch_streams_frame(st, now, ids@, balance, k as nat, id);
                lemma_batch_avail_range(st, now, ids@, balance, k as nat);
            }
            let s = match self.load_stream(id) {
                Ok(s) => s,
                Err(_) => {
                    assert(false);
                    return results;
                },
            };
            assert(s == st.stream(id));
            proof {
                let t = if s.status == StreamStatus::Cancelled { s.cancelled_at->0 } else { now };
                lemma_accrued_bounded(checkpoint_of(s), s.rate_per_second, t);
            }
            let mut w: i128 = if s.status == StreamStatus::Completed {
                0
            } else {
                let accrued = match Self::stream_accrued(&s, now) {
                    Ok(a) => a,
                    Err(_) => {
                        assert(false);
                        return results;
                    },
                };
                let d = accrued - s.withdrawn_amount;
                if d > 0 { d } else { 0 }
            };
            if avail < w {
                w = avail;
            }
            let terminal = s.status == StreamStatus::Completed || s.status == StreamStatus::Cancelled
                || now >= s.end_time;
            if w > 0 && w < s.withdraw_dust_threshold && !terminal && s.withdrawn_amount + w < s.deposit_amount {
                w = 0;
            }
            assert(w == batch_paid(st, now, ids@, balance, k as int));
            if w > 0 {
                avail = avail - w;
                self.apply_payout(s, w, dests[k], routed, track_liabilities);
            }
            results.push(BatchWithdrawResult { stream_id: id, amount: w });
            proof {
                assert(results@ =~= batch_results(st, now, ids@, balance).subrange(0, k + 1));
                if w > 0 {
                    assert(self.log@ =~= st.log@ + batch_effects(st, now, ids@, dests@, routed, balance, (k + 1) as nat));
                }
            }
            k = k + 1;
        }
        assert(results@ =~= batch_results(st, now, ids@, balance));
        results
    }

    /// Withdraws from several streams of `recipient` at once (ids must be
    /// distinct). Completed streams and streams with nothing payable yield 0.
    /// Any failing entry fails the whole call with no effect.
    pub fn batch_withdraw(
        &mut self,
        inv: &Invocation,
        recipient: Address,
        stream_ids: &Vec<u64>,
        contract_balance: i128,
    ) -> (r: Result<Vec<BatchWithdrawResult>, ContractError>)
        requires
            old(self).wf(),
            !old(self).globally_paused() ==> inv.authorizes(recipient),
        ensures
            final(self).wf(),
            old(self).globally_paused() ==> (r matches Err(e) && e == ContractError::ContractPaused),
            !old(self).globally_paused() && !stream_ids@.no_duplicates()
                ==> (r matches Err(e) && e == ContractError::DuplicateStreamId),
            !old(self).globally_paused() && stream_ids@.no_duplicates() && old(self).settings.config is None
                ==> (r matches Err(e) && e == ContractError::InvalidState),
            !old(self).globally_paused() && stream_ids@.no_duplicates() && old(self).settings.config is Some ==>
                match batch_first_error(*old(self), inv.timestamp, recipient, stream_ids@, stream_ids@.len()) {
                    Some(e) => (r matches Err(x) && x == e),
                    None => (r matches Ok(v) && v@ == batch_results(*old(self), inv.timestamp, stream_ids@, contract_balance)),
                },
            r is Err ==> *final(self) == *old(self),
            r is Ok ==> {
                let st = *old(self);
                let n = stream_ids@.len();
                &&& final(self).same_but_book(old(self))
                &&& final(self).book.streams@ == batch_streams(st, inv.timestamp, stream_ids@, contract_balance, n)
                &&& final(self).book.next_stream_id == old(self).book.next_stream_id
                &&& final(self).book.total_liabilities == batch_liabilities(st, inv.timestamp, stream_ids@, contract_balance, n)
                &&& final(self).log@ == old(self).log@ + batch_effects(st, inv.timestamp, stream_ids@,
                    Seq::new(n, |k: int| recipient), false, contract_balance, n)
            },
    {
        if self.settings.pause_state == PauseState::GlobalEmergencyPaused {
            return Err(ContractError::ContractPaused);
        }
        let n = stream_ids.len();
        let mut i: usize = 0;
        while i < n
            invariant
                *self == *old(self),
                old(self).wf(),
                !old(self).globally_paused(),
                n == stream_ids@.len(),
                0 <= i <= n,
                forall|a: int, b: int| 0 <= a < i && a < b < n ==> stream_ids@[a] != stream_ids@[b],
            decreases n - i,
        {
            let a = stream_ids[i];
            let mut j = i + 1;
            while j < n
                invariant
                    *self == *old(self),
                    old(self).wf(),
                    !old(self).globally_paused(),
                    n == stream_ids@.len(),
                    0 <= i < n,
                    i + 1 <= j <= n,
                    a == stream_ids@[i as int],
                    forall|b: int| i < b < j ==> stream_ids@[i as int] != stream_ids@[b],
                decreases n - j,
            {
                if stream_ids[j] == a {
                    proof {
                        assert(!stream_ids@.no_duplicates()) by {
                            assert(stream_ids@[i as int] == stream_ids@[j as int]);
                        }
                    }
                    return Err(ContractError::DuplicateStreamId);
                }
                j = j + 1;
            }
            i = i + 1;
        }
        assert(stream_ids@.no_duplicates()) by {
            assert forall|a: int, b: int| 0 <= a < n && 0 <= b < n && a != b
                implies stream_ids@[a] != stream_ids@[b] by {
                if a > b {
                    assert(stream_ids@[b] != stream_ids@[a]);
                }
            }
        }
        if self.settings.config.is_none() {
            return Err(ContractError::InvalidState);
        }
        self.batch_validate(inv.timestamp, recipient, stream_ids)?;
        let mut dests: Vec<Address> = Vec::new();
        let mut k: usize = 0;
        while k < n
            invariant
                *self == *old(self),
                old(self).wf(),
                !old(self).globally_paused(),
                0 <= k <= n,
                dests@ == Seq::new(k as nat, |q: int| recipient),
            decreases n - k,
        {
            dests.push(recipient);
            k = k + 1;
            assert(dests@ =~= Seq::new(k as nat, |q: int| recipient));
        }
        Ok(self.batch_apply(inv.timestamp, recipient, stream_ids, &dests, false, true, contract_balance))
    }

    /// Like [`FluxoraStream::batch_withdraw`], but each entry names its own
    /// destination (never the contract itself). Liabilities are not updated.
    pub fn batch_withdraw_to(
        &mut self,
        inv: &Invocation,
        recipient: Address,
        withdrawals: &Vec<WithdrawToParam>,
        contract_balance: i128,
    ) -> (r: Result<Vec<BatchWithdrawResult>, ContractError>)
        requires
            old(self).wf(),
            !old(self).globally_paused() ==> inv.authorizes(recipient),
            !old(self).globally_paused() ==> batch_to_scan(withdrawals@, inv.contract, 0) != 2,
        ensures
            final(self).wf(),
            old(self).globally_paused() ==> (r matches Err(e) && e == ContractError::ContractPaused),
            !old(self).globally_paused() && batch_to_scan(withdrawals@, inv.contract, 0) == 1
                ==> (r matches Err(e) && e == ContractError::InvalidParams),
            !old(self).globally_paused() && batch_to_scan(withdrawals@, inv.contract, 0) == 0
                && old(self).settings.config is None
                ==> (r matches Err(e) && e == ContractError::InvalidState),
            !old(self).globally_paused() && batch_to_scan(withdrawals@, inv.contract, 0) == 0
                && old(self).settings.config is Some ==> {
                let ids = ids_of_params(withdrawals@);
                match batch_first_error(*old(self), inv.timestamp, recipient, ids, ids.len()) {
                    Some(e) => (r matches Err(x) && x == e),
                    None => (r matches Ok(v) && v@ == batch_results(*old(self), inv.timestamp, ids, contract_balance)),
                }
            },
            r is Err ==> *final(self) == *old(self),
            r is Ok ==> {
                let st = *old(self);
                let ids = ids_of_params(withdrawals@);
                let n = ids.len();
                &&& final(self).same_but_book(old(self))
                &&& final(self).book.streams@ == batch_streams(st, inv.timestamp, ids, contract_balance, n)
                &&& final(self).book.next_stream_id == old(self).book.next_stream_id
                &&& final(self).book.total_liabilities == old(self).book.total_liabilities
                &&& final(self).log@ == old(self).log@ + batch_effects(st, inv.timestamp, ids,
                    dests_of_params(withdrawals@), true, contract_balance, n)
            },
    {
        if self.settings.pause_state == PauseState::GlobalEmergencyPaused {
            return Err(ContractError::ContractPaused);
        }
        let n = withdrawals.len();
        let mut ids: Vec<u64> = Vec::new();
        let mut dests: Vec<Address> = Vec::new();
        let mut i: usize = 0;
        while i < n
            invariant
                *self == *old(self),
                old(self).wf(),
                !old(self).globally_paused(),
                n == withdrawals@.len(),
                0 <= i <= n,
                batch_to_scan(withdrawals@, inv.contract, 0) == batch_to_scan(withdrawals@, inv.contract, i as int),
                batch_to_scan(withdrawals@, inv.contract, 0) != 2,
                forall|a: int, b: int| 0 <= a < i && a < b < n ==> withdrawals@[a].stream_id != withdrawals@[b].stream_id,
                forall|a: int| 0 <= a < i ==> withdrawals@[a].destination != inv.contract,
                ids@ == ids_of_params(withdrawals@).subrange(0, i as int),
                dests@ == dests_of_params(withdrawals@).subrange(0, i as int),
            decreases n - i,
        {
            let pa = withdrawals[i];
            if pa.destination == inv.contract {
                return Err(ContractError::InvalidParams);
            }
            let mut j = i + 1;
            while j < n
                invariant
                    *self == *old(self),
                    old(self).wf(),
                    !old(self).globally_paused(),
                    n == withdrawals@.len(),
                    0 <= i < n,
                    i + 1 <= j <= n,
                    pa == withdrawals@[i as int],
                    pa.destination != inv.contract,
                    batch_to_scan(withdrawals@, inv.contract, 0) == batch_to_scan(withdrawals@, inv.contract, i as int),
                    batch_to_scan(withdrawals@, inv.contract, 0) != 2,
                    forall|b: int| i < b < j ==> withdrawals@[i as int].stream_id != withdrawals@[b].stream_id,
                decreases n - j,
            {
                if withdrawals[j].stream_id == pa.stream_id {
                    proof {
                        assert(withdrawals@[j as int].stream_id == withdrawals@[i as int].stream_id);
                        assert(batch_to_scan(withdrawals@, inv.contract, i as int) == 2);
                    }
                    return Err(ContractError::InvalidParams);
                }
                j = j + 1;
            }
            ids.push(pa.stream_id);
            dests.push(pa.destination);
            proof {
                assert(batch_to_scan(withdrawals@, inv.contract, i as int) == batch_to_scan(withdrawals@, inv.contract, i + 1));
                assert(ids@ =~= ids_of_params(withdrawals@).subrange(0, i + 1));
                assert(dests@ =~= dests_of_params(withdrawals@).subrange(0, i + 1));
            }
            i = i + 1;
        }
        assert(ids@ =~= ids_of_params(withdrawals@));
        assert(dests@ =~= dests_of_params(withdrawals@));
        assert(ids@.no_duplicates()) by {
            assert forall|a: int, b: int| 0 <= a < n && 0 <= b < n && a != b
                implies ids@[a] != ids@[b] by {
                if a > b {
                    assert(withdrawals@[b].stream_id != withdrawals@[a].stream_id);
                } else {
                    assert(withdrawals@[a].stream_id != withdrawals@[b].stream_id);
                }
            }
        }
        if self.settings.config.is_none() {
            return Err(ContractError::InvalidState);
        }
        self.batch_validate(inv.timestamp, recipient, &ids)?;
        Ok(self.batch_apply(inv.timestamp, recipient, &ids, &dests, true, false, contract_balance))
    }
}

/// Once an entry fails, the first error stays the same for longer prefixes.
pub proof fn lemma_first_error_stable(st: FluxoraStream, now: u64, recipient: Address, ids: Seq<u64>, k: nat, m: nat)
    requires
        k <= m,
    ensures
        batch_first_error(st, now, recipient, ids, k) is Some
            ==> batch_first_error(st, now, recipient, ids, m) == batch_first_error(st, now, recipient, ids, k),
    decreases m - k,
{
    if k < m {
        lemma_first_error_stable(st, now, recipient, ids, k, (m - 1) as nat);
    }
}

/// No error among the first `k` entries means each of them passes.
pub proof fn lemma_first_error_none(st: FluxoraStream, now: u64, recipient: Address, ids: Seq<u64>, k: nat, j: int)
    requires
        batch_first_error(st, now, recipient, ids, k) is None,
        0 <= j < k,
    ensures
        batch_entry_error(st, now, recipient, ids[j]) is None,
        st.has_stream(ids[j]),
    decreases k,
{
    if j < k - 1 {
        lemma_first_error_none(st, now, recipient, ids, (k - 1) as nat, j);
    }
}

} // verus!
