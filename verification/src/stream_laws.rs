//! Properties of the streaming contract that span its operations.
use vstd::prelude::*;
use crate::accrual::{
    CheckpointState, lemma_accrued_at_least_checkpoint, lemma_accrued_bounded, lemma_accrued_deposit_larger, lemma_accrued_end_later,
    lemma_accrued_constant_after_end, lemma_accrued_monotonic, lemma_rate_increase_from_checkpoint, epoch_seconds,
};
use crate::stream::{accrued_view, checkpoint_of, claimable_view, is_mutable_status, stream_wf, withdrawable_view};
use crate::stream_lifecycle::{accrued_live, cancel_refund, cancelled_stream, paused_stream, resumed_stream};
use crate::stream_types::{Stream, StreamStatus};
use crate::stream_schedule::{
    decreased_deposit, decreased_stream, extend_error, lemma_checkpoint_preserves_accrual, rate_decrease_error, rate_increase_error, rechecked_stream,
    shorten_error, shortened_deposit, shortened_stream, top_up_error,
};
use crate::stream_withdraw::{after_payout, withdraw_amount, withdraw_block};
use crate::stream_batch::batch_amount;
use crate::stream_delegated::{delegated_amount, delegated_error};
use crate::stream::FluxoraStream;
use crate::address::Address;
use crate::stream_types::ContractError;

verus! {

/// Cancelling at `now` freezes the recipient's entitlement: at any later
/// time the cancelled stream reports exactly what had accrued at `now`, and
/// that amount plus the sender's refund is the whole deposit, so nothing
/// accrued is ever refunded.
pub proof fn law_cancel_freezes_accrual(s: Stream, now: u64, t: u64)
    requires
        stream_wf(s),
        is_mutable_status(s.status),
    ensures
        accrued_view(cancelled_stream(s, now), t) == accrued_live(s, now),
        cancel_refund(s, now) + accrued_view(cancelled_stream(s, now), t) == s.deposit_amount,
        0 <= cancel_refund(s, now) <= s.deposit_amount,
{
    lemma_accrued_bounded(checkpoint_of(s), s.rate_per_second, now);
}

/// Accrual is time-based: pausing a stream does not change what it has
/// accrued at any time.
pub proof fn law_pause_keeps_accrual(s: Stream, t: u64)
    requires
        s.status == StreamStatus::Active,
    ensures
        accrued_view(paused_stream(s), t) == accrued_view(s, t),
{
}

/// Resuming a stream that was paused while Active restores it exactly.
pub proof fn law_pause_resume_round_trip(s: Stream)
    requires
        s.status == StreamStatus::Active,
    ensures
        resumed_stream(paused_stream(s)) == s,
{
}

/// Accrual never runs backwards and never exceeds the deposit: between two
/// times the accrued amount of a stored stream can only grow, up to its
/// deposit.
pub proof fn law_accrual_monotonic(s: Stream, t1: u64, t2: u64)
    requires
        stream_wf(s),
        t1 <= t2,
    ensures
        0 <= accrued_view(s, t1) <= accrued_view(s, t2) <= s.deposit_amount,
{
    let t = if s.status == StreamStatus::Cancelled { s.cancelled_at->0 } else { t2 };
    lemma_accrued_bounded(checkpoint_of(s), s.rate_per_second, t1);
    lemma_accrued_bounded(checkpoint_of(s), s.rate_per_second, t);
    lemma_accrued_monotonic(checkpoint_of(s), s.rate_per_second, t1, t2);
}

/// A withdrawal that pays everything owed (not limited by the contract's
/// balance) leaves nothing to withdraw at the same time: a second
/// withdrawal pays 0 whatever the balance.
pub proof fn law_withdraw_drains(s: Stream, now: u64, balance: i128, later_balance: i128)
    requires
        stream_wf(s),
        withdraw_block(s, now) is None,
        withdraw_amount(s, now, balance) > 0,
        balance >= accrued_view(s, now) - s.withdrawn_amount,
    ensures
        withdraw_amount(after_payout(s, withdraw_amount(s, now, balance)), now, later_balance) == 0,
{
    let t = if s.status == StreamStatus::Cancelled { s.cancelled_at->0 } else { now };
    lemma_accrued_bounded(checkpoint_of(s), s.rate_per_second, t);
    let w = withdraw_amount(s, now, balance);
    let s2 = after_payout(s, w);
    assert(checkpoint_of(s2) == checkpoint_of(s));
    assert(s2.withdrawn_amount == accrued_view(s, now));
}

/// A rate increase applied once the cliff has passed only moves accrual
/// forward: at any time, the stream accrues at least as much as it would have
/// under the old rate.
pub proof fn law_rate_increase_never_reduces_accrual(s: Stream, new_rate: i128, now: u64, t: u64)
    requires
        stream_wf(s),
        is_mutable_status(s.status),
        s.rate_per_second < new_rate,
        now >= s.cliff_time,
    ensures
        accrued_view(rechecked_stream(s, new_rate, now), t) >= accrued_view(s, t),
{
    lemma_rate_increase_from_checkpoint(checkpoint_of(s), s.rate_per_second, new_rate, now, t);
}

/// A completed stream reports its whole deposit as accrued, at any time.
pub proof fn law_completed_accrues_deposit(s: Stream, t: u64)
    requires
        s.status == StreamStatus::Completed,
    ensures
        accrued_view(s, t) == s.deposit_amount,
{
}


/// Everything withdrawn from `s` has accrued by time `t`.
pub open spec fn paid_within_accrual(s: Stream, t: u64) -> bool {
    0 <= s.withdrawn_amount <= accrued_view(s, t)
}

/// A withdrawal at `now` never pays beyond accrual: if everything withdrawn
/// had accrued by `now`, then after the payout everything withdrawn has
/// accrued at every time from `now` on.
pub proof fn law_withdraw_stays_within_accrual(s: Stream, now: u64, balance: i128, t: u64)
    requires
        stream_wf(s),
        withdraw_block(s, now) is None,
        paid_within_accrual(s, now),
        now <= t,
    ensures
        paid_within_accrual(after_payout(s, withdraw_amount(s, now, balance)), t),
{
    law_accrual_monotonic(s, now, t);
}

/// Cancelling at `now` keeps everything withdrawn within the frozen accrual.
pub proof fn law_cancel_stays_within_accrual(s: Stream, now: u64, t: u64)
    requires
        stream_wf(s),
        is_mutable_status(s.status),
        paid_within_accrual(s, now),
    ensures
        paid_within_accrual(cancelled_stream(s, now), t),
{
}

/// A rate increase at `now` keeps everything withdrawn within accrual at
/// every time from `now` on.
pub proof fn law_rate_increase_stays_within_accrual(s: Stream, new_rate: i128, now: u64, t: u64)
    requires
        stream_wf(s),
        rate_increase_error(s, new_rate) is None,
        paid_within_accrual(s, now),
        now <= t,
    ensures
        paid_within_accrual(rechecked_stream(s, new_rate, now), t),
{
    let s2 = rechecked_stream(s, new_rate, now);
    lemma_accrued_bounded(checkpoint_of(s), s.rate_per_second, now);
    lemma_accrued_bounded(checkpoint_of(s2), new_rate, t);
    if t >= s.cliff_time {
        lemma_accrued_at_least_checkpoint(checkpoint_of(s2), new_rate, t);
    }
}

/// A rate decrease at `now` keeps everything withdrawn within accrual at
/// every time from `now` on.
pub proof fn law_rate_decrease_stays_within_accrual(s: Stream, new_rate: i128, now: u64, t: u64)
    requires
        stream_wf(s),
        rate_decrease_error(s, new_rate, now) is None,
        paid_within_accrual(s, now),
        now <= t,
    ensures
        paid_within_accrual(decreased_stream(s, new_rate, now), t),
{
    let s2 = decreased_stream(s, new_rate, now);
    lemma_accrued_bounded(checkpoint_of(s), s.rate_per_second, now);
    assert(0 <= new_rate * (s.end_time - now)) by (nonlinear_arith)
        requires
            new_rate > 0,
            s.end_time > now,
    ;
    assert(s2.deposit_amount == decreased_deposit(s, new_rate, now));
    lemma_accrued_bounded(checkpoint_of(s2), new_rate, t);
    if t >= s.cliff_time {
        lemma_accrued_at_least_checkpoint(checkpoint_of(s2), new_rate, t);
    }
}

/// Extending the schedule at `now` keeps everything withdrawn within
/// accrual at every time from `now` on.
pub proof fn law_extend_stays_within_accrual(s: Stream, new_end: u64, now: u64, t: u64)
    requires
        stream_wf(s),
        extend_error(s, new_end, now) is None,
        paid_within_accrual(s, now),
        now <= t,
    ensures
        paid_within_accrual(Stream { end_time: new_end, ..s }, t),
{
    law_accrual_monotonic(s, now, t);
    lemma_accrued_end_later(checkpoint_of(s), s.rate_per_second, new_end, t);
    assert(checkpoint_of(Stream { end_time: new_end, ..s }) == CheckpointState {
        end_time: new_end,
        ..checkpoint_of(s)
    });
}

/// A top-up at `now` keeps everything withdrawn within accrual at every
/// time from `now` on.
pub proof fn law_top_up_stays_within_accrual(s: Stream, amount: i128, now: u64, t: u64)
    requires
        stream_wf(s),
        amount > 0,
        top_up_error(s, amount, now) is None,
        paid_within_accrual(s, now),
        now <= t,
    ensures
        paid_within_accrual(Stream { deposit_amount: (s.deposit_amount + amount) as i128, ..s }, t),
{
    let d = (s.deposit_amount + amount) as i128;
    law_accrual_monotonic(s, now, t);
    lemma_accrued_deposit_larger(checkpoint_of(s), s.rate_per_second, d, t);
    assert(checkpoint_of(Stream { deposit_amount: d, ..s }) == CheckpointState {
        deposit_amount: d,
        ..checkpoint_of(s)
    });
}


/// Shortening keeps the accrued entitlement: at `now` the shortened stream
/// reports the same accrual as before, and its deposit covers it.
pub proof fn law_shorten_keeps_accrual(s: Stream, new_end: u64, now: u64)
    requires
        stream_wf(s),
        shorten_error(s, new_end, now) is None,
    ensures
        accrued_view(shortened_stream(s, new_end), now) == accrued_view(s, now),
        accrued_view(s, now) <= shortened_stream(s, new_end).deposit_amount,
{
    let s2 = shortened_stream(s, new_end);
    let cp = checkpoint_of(s);
    let cp2 = checkpoint_of(s2);
    lemma_accrued_bounded(cp, s.rate_per_second, now);
    assert(s2.deposit_amount == shortened_deposit(s, new_end));
    if now >= s.cliff_time {
        assert(epoch_seconds(cp2, now) == epoch_seconds(cp, now));
    }
}

/// Shortening at `now` keeps everything withdrawn within accrual at every
/// time from `now` on.
pub proof fn law_shorten_stays_within_accrual(s: Stream, new_end: u64, now: u64, t: u64)
    requires
        stream_wf(s),
        shorten_error(s, new_end, now) is None,
        paid_within_accrual(s, now),
        now <= t,
    ensures
        paid_within_accrual(shortened_stream(s, new_end), t),
{
    let s2 = shortened_stream(s, new_end);
    law_shorten_keeps_accrual(s, new_end, now);
    assert(s2.deposit_amount == shortened_deposit(s, new_end));
    assert(shortened_deposit(s, new_end) >= 1) by (nonlinear_arith)
        requires
            s.rate_per_second >= 1,
            new_end > s.start_time,
            shortened_deposit(s, new_end) == s.rate_per_second * (new_end - s.start_time),
    ;
    lemma_accrued_monotonic(checkpoint_of(s2), s2.rate_per_second, now, t);
}

/// Any payout of at most what is owed (accrued minus withdrawn at `now`)
/// keeps everything withdrawn within accrual at every time from `now` on.
pub proof fn law_payout_stays_within_accrual(s: Stream, now: u64, amount: int, t: u64)
    requires
        stream_wf(s),
        s.status != StreamStatus::Completed,
        paid_within_accrual(s, now),
        0 <= amount <= accrued_view(s, now) - s.withdrawn_amount,
        now <= t,
    ensures
        paid_within_accrual(after_payout(s, amount), t),
{
    law_accrual_monotonic(s, now, t);
}

/// A batch entry that pays out keeps everything withdrawn from its stream
/// within accrual at every time from `now` on, whatever remains available.
pub proof fn law_batch_payout_stays_within_accrual(s: Stream, now: u64, avail: int, t: u64)
    requires
        stream_wf(s),
        paid_within_accrual(s, now),
        batch_amount(s, now, avail) > 0,
        now <= t,
    ensures
        paid_within_accrual(after_payout(s, batch_amount(s, now, avail)), t),
{
    law_payout_stays_within_accrual(s, now, batch_amount(s, now, avail), t);
}

/// A delegated withdrawal (which pays everything owed) keeps everything
/// withdrawn within accrual at every time from `now` on.
pub proof fn law_delegated_payout_stays_within_accrual(s: Stream, now: u64, t: u64)
    requires
        stream_wf(s),
        s.status != StreamStatus::Completed,
        paid_within_accrual(s, now),
        now <= t,
    ensures
        paid_within_accrual(after_payout(s, delegated_amount(s, now)), t),
{
    law_payout_stays_within_accrual(s, now, delegated_amount(s, now), t);
}


/// A rate decrease at `now` keeps the amount accrued at `now`, and never
/// lowers what could be withdrawn at `now` (whatever the contract holds).
pub proof fn law_rate_decrease_keeps_withdrawable(s: Stream, new_rate: i128, now: u64, balance: i128)
    requires
        stream_wf(s),
        rate_decrease_error(s, new_rate, now) is None,
    ensures
        accrued_view(decreased_stream(s, new_rate, now), now) == accrued_view(s, now),
        withdrawable_view(decreased_stream(s, new_rate, now), now, balance) >= withdrawable_view(s, now, balance),
{
    lemma_accrued_bounded(checkpoint_of(s), s.rate_per_second, now);
    assert(0 <= new_rate * (s.end_time - now)) by (nonlinear_arith)
        requires
            new_rate > 0,
            s.end_time > now,
    ;
    let d = decreased_deposit(s, new_rate, now) as i128;
    lemma_checkpoint_preserves_accrual(s, new_rate, d, now);
    assert(decreased_stream(s, new_rate, now) == Stream {
        checkpointed_amount: accrued_live(s, now) as i128,
        checkpointed_at: now,
        rate_per_second: new_rate,
        deposit_amount: d,
        ..s
    });
}

/// After a cancellation at `now`, what the recipient can claim at any later
/// time is exactly what had accrued at `now` minus what was withdrawn.
pub proof fn law_cancel_fixes_claimable(s: Stream, now: u64, t: u64)
    requires
        stream_wf(s),
        is_mutable_status(s.status),
        paid_within_accrual(s, now),
        now <= t,
    ensures
        claimable_view(cancelled_stream(s, now), t) == accrued_live(s, now) - s.withdrawn_amount,
{
}

/// The claimable amount of a cancelled stream is frozen at the
/// cancellation: asking at any time gives what it was at the earlier of
/// that time and the cancellation.
pub proof fn law_claimable_frozen_after_cancel(s: Stream, t: u64)
    requires
        s.status == StreamStatus::Cancelled,
        s.cancelled_at is Some,
    ensures
        claimable_view(s, t) == claimable_view(s, if t < s.cancelled_at->0 { t } else { s.cancelled_at->0 }),
{
}


/// Once its end time has passed a stream is terminal, so a Paused stream
/// no longer blocks withdrawals: everything accrued and not yet withdrawn is
/// payable (capped by the balance), and the dust threshold holds nothing
/// back.
pub proof fn law_paused_stream_withdrawable_after_end(s: Stream, now: u64, balance: i128)
    requires
        s.status == StreamStatus::Paused,
        now >= s.end_time,
    ensures
        withdraw_block(s, now) is None,
        withdraw_amount(s, now, balance) == ({
            let owed = accrued_view(s, now) - s.withdrawn_amount;
            let capped = if balance < owed { balance as int } else { owed };
            if capped > 0 { capped } else { 0 }
        }),
{
}

/// Every batch entry pays exactly what a single withdrawal of that stream at
/// the same time would pay against the running balance; in particular an
/// amount held back as dust by a single withdrawal pays nothing in a batch.
pub proof fn law_batch_entry_pays_as_withdraw(s: Stream, now: u64, avail: i128)
    requires
        s.status != StreamStatus::Completed,
        avail >= 0,
    ensures
        batch_amount(s, now, avail as int) == withdraw_amount(s, now, avail),
{
}

/// A top-up once the stream's end time has passed is refused with
/// `InvalidState`: no more time remains to stream the added tokens.
pub proof fn law_no_top_up_after_end(s: Stream, amount: i128, now: u64)
    requires
        now >= s.end_time,
    ensures
        top_up_error(s, amount, now) == Some(ContractError::InvalidState),
{
}

/// A delegated withdrawal passes its checks exactly when the deadline has
/// not passed, the destination is not the contract, the stream exists and
/// is Active or Cancelled (a cancelled stream's frozen accrual stays
/// claimable), and the nonce is the recipient's current one.
pub proof fn law_delegated_checks(
    st: FluxoraStream,
    now: u64,
    contract: Address,
    stream_id: u64,
    destination: Address,
    nonce: u64,
    deadline: u64,
)
    ensures
        delegated_error(st, now, contract, stream_id, destination, nonce, deadline) is None <==> {
            &&& now <= deadline
            &&& destination != contract
            &&& st.has_stream(stream_id)
            &&& (st.stream(stream_id).status == StreamStatus::Active
                || st.stream(stream_id).status == StreamStatus::Cancelled)
            &&& nonce == st.nonces.nonce_of(st.stream(stream_id).recipient)
        },
{
}

/// What a delegated withdrawal from a cancelled stream pays: the amount
/// accrued up to the cancellation, minus what was already withdrawn, at any
/// later time.
pub proof fn law_delegated_pays_frozen_accrual(s: Stream, now: u64)
    requires
        s.status == StreamStatus::Cancelled,
    ensures
        delegated_amount(s, now) == accrued_at_cancellation(s) - s.withdrawn_amount,
{
}

/// The amount a cancelled stream had accrued when it was cancelled.
pub open spec fn accrued_at_cancellation(s: Stream) -> int {
    crate::accrual::accrued_at(checkpoint_of(s), s.rate_per_second, s.cancelled_at->0)
}


/// The dust threshold: on a stream that is neither Cancelled nor past its
/// end, a withdrawal whose amount (owed, capped by the balance) is positive
/// but below the threshold, and does not drain the deposit, pays nothing;
/// an amount at or above the threshold is paid in full.
pub proof fn law_dust_threshold(s: Stream, now: u64, balance: i128)
    requires
        s.status == StreamStatus::Active,
        now < s.end_time,
    ensures
        ({
            let owed = accrued_view(s, now) - s.withdrawn_amount;
            let capped = if balance < owed { balance as int } else { owed };
            &&& (0 < capped < s.withdraw_dust_threshold && s.withdrawn_amount + capped < s.deposit_amount
                ==> withdraw_amount(s, now, balance) == 0)
            &&& (capped > 0 && capped >= s.withdraw_dust_threshold ==> withdraw_amount(s, now, balance) == capped)
        }),
{
}

} // verus!
