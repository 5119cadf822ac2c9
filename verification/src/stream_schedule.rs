//! Rate changes, schedule changes and top-ups of existing streams.
use vstd::prelude::*;
use crate::accrual::{CheckpointState, accrued_at, calculate_accrued_amount_checkpointed, fits_i128, lemma_accrued_bounded};
use crate::address::Address;
use crate::stream::{FluxoraStream, checkpoint_of, is_mutable_status, stream_wf};
use crate::stream_lifecycle::{accrued_live, liabilities_minus, liabilities_plus};
use crate::stream_types::{
    ContractError, Effect, Emitted, Invocation, PauseState, RateDecreased, RateUpdated, Stream,
    StreamEndExtended, StreamEndShortened, StreamStatus, StreamToppedUp,
};

verus! {

/// Which error `update_rate_per_second` returns for `s`, if any.
pub open spec fn rate_increase_error(s: Stream, new_rate: i128) -> Option<ContractError> {
    if !is_mutable_status(s.status) {
        Some(ContractError::InvalidState)
    } else if new_rate <= 0 || new_rate <= s.rate_per_second {
        Some(ContractError::InvalidParams)
    } else if !fits_i128(new_rate * (s.end_time - s.start_time)) {
        Some(ContractError::ArithmeticOverflow)
    } else if s.deposit_amount < new_rate * (s.end_time - s.start_time) {
        Some(ContractError::InsufficientDeposit)
    } else {
        None
    }
}

/// `s` checkpointed at `now` and switched to `new_rate`.
pub open spec fn rechecked_stream(s: Stream, new_rate: i128, now: u64) -> Stream {
    Stream {
        checkpointed_amount: accrued_live(s, now) as i128,
        checkpointed_at: now,
        rate_per_second: new_rate,
        ..s
    }
}

/// The deposit after a rate decrease at `now`: the checkpoint plus the new
/// rate over the remaining seconds.
pub open spec fn decreased_deposit(s: Stream, new_rate: i128, now: u64) -> int {
    accrued_live(s, now) + new_rate * (s.end_time - now)
}

/// Which error `decrease_rate_per_second` returns for `s`, if any. The last
/// check refuses a new deposit below what was already withdrawn; while
/// ledger time only moves forward the new deposit is above the accrued
/// amount, so that check never fires.
pub open spec fn rate_decrease_error(s: Stream, new_rate: i128, now: u64) -> Option<ContractError> {
    if s.status == StreamStatus::Completed || s.status == StreamStatus::Cancelled {
        Some(ContractError::StreamTerminalState)
    } else if now >= s.end_time {
        Some(ContractError::InvalidState)
    } else if new_rate <= 0 || new_rate >= s.rate_per_second {
        Some(ContractError::InvalidParams)
    } else if !fits_i128(new_rate * (s.end_time - now))
        || !fits_i128(decreased_deposit(s, new_rate, now))
        || !fits_i128(s.deposit_amount - decreased_deposit(s, new_rate, now)) {
        Some(ContractError::ArithmeticOverflow)
    } else if s.deposit_amount - decreased_deposit(s, new_rate, now) < 0 {
        Some(ContractError::InvalidState)
    } else if decreased_deposit(s, new_rate, now) < s.withdrawn_amount {
        Some(ContractError::InvalidState)
    } else {
        None
    }
}

/// `s` after a rate decrease at `now`.
pub open spec fn decreased_stream(s: Stream, new_rate: i128, now: u64) -> Stream {
    Stream {
        checkpointed_amount: accrued_live(s, now) as i128,
        checkpointed_at: now,
        rate_per_second: new_rate,
        deposit_amount: decreased_deposit(s, new_rate, now) as i128,
        ..s
    }
}

/// The deposit after shortening `s` to end at `new_end`: the rate over the
/// shortened schedule, `rate × (new_end − start)`.
pub open spec fn shortened_deposit(s: Stream, new_end: u64) -> int {
    s.rate_per_second * (new_end - s.start_time)
}

/// Which error `shorten_stream_end_time` returns for `s` at `now`, if any:
/// a terminal status, an end not strictly between `now` (and the start) and
/// the current end or before the cliff, an overflowing deposit, a deposit
/// above the current one, and a deposit below what has accrued at `now`
/// (shortening keeps `deposit >= accrued(now)`, so the accrued entitlement
/// stays). The last check, a deposit below what was already withdrawn,
/// never fires while ledger time only moves forward (withdrawals never
/// exceed accrual).
pub open spec fn shorten_error(s: Stream, new_end: u64, now: u64) -> Option<ContractError> {
    if !is_mutable_status(s.status) {
        Some(ContractError::InvalidState)
    } else if new_end <= now || new_end <= s.start_time || new_end < s.cliff_time || new_end >= s.end_time {
        Some(ContractError::InvalidParams)
    } else if !fits_i128(shortened_deposit(s, new_end)) {
        Some(ContractError::ArithmeticOverflow)
    } else if shortened_deposit(s, new_end) > s.deposit_amount {
        Some(ContractError::InvalidParams)
    } else if shortened_deposit(s, new_end) < accrued_live(s, now) {
        Some(ContractError::InvalidParams)
    } else if shortened_deposit(s, new_end) < s.withdrawn_amount {
        Some(ContractError::InvalidState)
    } else {
        None
    }
}

/// `s` with end `new_end` and the deposit reduced to what the shorter
/// schedule streams.
pub open spec fn shortened_stream(s: Stream, new_end: u64) -> Stream {
    Stream {
        end_time: new_end,
        deposit_amount: shortened_deposit(s, new_end) as i128,
        ..s
    }
}

/// Which error `extend_stream_end_time` returns for `s`, if any.
pub open spec fn extend_error(s: Stream, new_end: u64, now: u64) -> Option<ContractError> {
    if !is_mutable_status(s.status) {
        Some(ContractError::InvalidState)
    } else if new_end <= s.end_time || new_end <= s.start_time || new_end < s.cliff_time || new_end < now {
        Some(ContractError::InvalidParams)
    } else if !fits_i128(s.rate_per_second * (new_end - s.start_time)) {
        Some(ContractError::ArithmeticOverflow)
    } else if s.rate_per_second * (new_end - s.start_time) > s.deposit_amount {
        Some(ContractError::InsufficientDeposit)
    } else {
        None
    }
}

/// Which error `top_up_stream` returns once the stream is loaded, if any.
pub open spec fn top_up_error(s: Stream, amount: i128, now: u64) -> Option<ContractError> {
    if !is_mutable_status(s.status) || now >= s.end_time {
        Some(ContractError::InvalidState)
    } else if !fits_i128(s.deposit_amount + amount) {
        Some(ContractError::ArithmeticOverflow)
    } else {
        None
    }
}

/// Rate increases and decreases with a checkpoint leave the amount accrued
/// at the moment of the change unchanged.
pub proof fn lemma_checkpoint_preserves_accrual(s: Stream, new_rate: i128, new_deposit: i128, now: u64)
    requires
        stream_wf(s),
        accrued_live(s, now) <= new_deposit,
    ensures
        accrued_live(
            Stream {
                checkpointed_amount: accrued_live(s, now) as i128,
                checkpointed_at: now,
                rate_per_second: new_rate,
                deposit_amount: new_deposit,
                ..s
            },
            now,
        ) == accrued_live(s, now),
{
    lemma_accrued_bounded(checkpoint_of(s), s.rate_per_second, now);
}

impl FluxoraStream {
    /// Raises the rate of an Active or Paused stream (sender only). Accrual up
    /// to now is checkpointed under the old rate; the new rate applies from now.
    pub fn update_rate_per_second(&mut self, inv: &Invocation, stream_id: u64, new_rate_per_second: i128) -> (r: Result<(), ContractError>)
        requires
            old(self).wf(),
            !old(self).globally_paused() && old(self).has_stream(stream_id)
                ==> inv.authorizes(old(self).stream(stream_id).sender),
        ensures
            final(self).wf(),
            old(self).globally_paused() ==> r == Err::<(), ContractError>(ContractError::ContractPaused),
            !old(self).globally_paused() && !old(self).has_stream(stream_id)
                ==> r == Err::<(), ContractError>(ContractError::StreamNotFound),
            !old(self).globally_paused() && old(self).has_stream(stream_id) ==>
                match rate_increase_error(old(self).stream(stream_id), new_rate_per_second) {
                    Some(e) => r == Err::<(), ContractError>(e),
                    None => r is Ok,
                },
            r is Err ==> *final(self) == *old(self),
            r is Ok ==> {
                let s = old(self).stream(stream_id);
                &&& final(self).only_stream_changed(old(self), stream_id,
                    rechecked_stream(s, new_rate_per_second, inv.timestamp))
                &&& final(self).book.total_liabilities == old(self).book.total_liabilities
                &&& final(self).log@ == old(self).log@.push(Effect::Publish(Emitted::RateUpdated(RateUpdated {
                    stream_id,
                    old_rate_per_second: s.rate_per_second,
                    new_rate_per_second,
                    effective_time: inv.timestamp,
                })))
            },
    {
        if self.settings.pause_state == PauseState::GlobalEmergencyPaused {
            return Err(ContractError::ContractPaused);
        }
        let mut s = self.load_stream(stream_id)?;
        if s.status != StreamStatus::Active && s.status != StreamStatus::Paused {
            return Err(ContractError::InvalidState);
        }
        if new_rate_per_second <= 0 {
            return Err(ContractError::InvalidParams);
        }
        let old_rate = s.rate_per_second;
        if new_rate_per_second <= old_rate {
            return Err(ContractError::InvalidParams);
        }
        let duration = (s.end_time - s.start_time) as i128;
        let total = match new_rate_per_second.checked_mul(duration) {
            Some(v) => v,
            None => {
                return Err(ContractError::ArithmeticOverflow);
            },
        };
        if s.deposit_amount < total {
            return Err(ContractError::InsufficientDeposit);
        }
        let now = inv.timestamp;
        proof {
            lemma_accrued_bounded(checkpoint_of(s), s.rate_per_second, now);
        }
        let accrued = calculate_accrued_amount_checkpointed(
            CheckpointState {
                checkpointed_amount: s.checkpointed_amount,
                checkpointed_at: s.checkpointed_at,
                cliff_time: s.cliff_time,
                end_time: s.end_time,
                deposit_amount: s.deposit_amount,
            },
            old_rate,
            now,
        );
        s.checkpointed_amount = accrued;
        s.checkpointed_at = now;
        s.rate_per_second = new_rate_per_second;
        self.save_stream(s);
        self.log.push(Effect::Publish(Emitted::RateUpdated(RateUpdated {
            stream_id,
            old_rate_per_second: old_rate,
            new_rate_per_second,
            effective_time: now,
        })));
        Ok(())
    }

    /// Lowers the rate of a stream that has not ended (sender only). Accrual
    /// up to now is locked in, the deposit becomes that amount plus the new
    /// rate over the remaining seconds, and the difference is refunded.
    pub fn decrease_rate_per_second(&mut self, inv: &Invocation, stream_id: u64, new_rate_per_second: i128) -> (r: Result<(), ContractError>)
        requires
            old(self).wf(),
            !old(self).globally_paused() && old(self).has_stream(stream_id)
                ==> inv.authorizes(old(self).stream(stream_id).sender),
        ensures
            final(self).wf(),
            old(self).globally_paused() ==> r == Err::<(), ContractError>(ContractError::ContractPaused),
            !old(self).globally_paused() && !old(self).has_stream(stream_id)
                ==> r == Err::<(), ContractError>(ContractError::StreamNotFound),
            !old(self).globally_paused() && old(self).has_stream(stream_id) ==>
                match rate_decrease_error(old(self).stream(stream_id), new_rate_per_second, inv.timestamp) {
                    Some(e) => r == Err::<(), ContractError>(e),
                    None => r is Ok,
                },
            r is Err ==> *final(self) == *old(self),
            r is Ok ==> {
                let s = old(self).stream(stream_id);
                let now = inv.timestamp;
                let refund = s.deposit_amount - decreased_deposit(s, new_rate_per_second, now);
                let ev = Effect::Publish(Emitted::RateDecreased(RateDecreased {
                    stream_id,
                    old_rate_per_second: s.rate_per_second,
                    new_rate_per_second,
                    effective_time: now,
                    checkpointed_amount: accrued_live(s, now) as i128,
                    refund_amount: refund as i128,
                }));
                &&& final(self).only_stream_changed(old(self), stream_id,
                    decreased_stream(s, new_rate_per_second, now))
                &&& final(self).book.total_liabilities == old(self).book.total_liabilities
                &&& final(self).log@ == (if refund > 0 {
                    old(self).log@.push(Effect::Push { to: s.sender, amount: refund as i128 }).push(ev)
                } else {
                    old(self).log@.push(ev)
                })
                &&& accrued_live(final(self).stream(stream_id), now) == accrued_live(s, now)
            },
    {
        if self.settings.pause_state == PauseState::GlobalEmergencyPaused {
            return Err(ContractError::ContractPaused);
        }
        let mut s = self.load_stream(stream_id)?;
        if s.status == StreamStatus::Completed || s.status == StreamStatus::Cancelled {
            return Err(ContractError::StreamTerminalState);
        }
        let now = inv.timestamp;
        if now >= s.end_time {
            return Err(ContractError::InvalidState);
        }
        if new_rate_per_second <= 0 {
            return Err(ContractError::InvalidParams);
        }
        let old_rate = s.rate_per_second;
        if new_rate_per_second >= old_rate {
            return Err(ContractError::InvalidParams);
        }
        proof {
            lemma_accrued_bounded(checkpoint_of(s), s.rate_per_second, now);
        }
        let accrued = calculate_accrued_amount_checkpointed(
            CheckpointState {
                checkpointed_amount: s.checkpointed_amount,
                checkpointed_at: s.checkpointed_at,
                cliff_time: s.cliff_time,
                end_time: s.end_time,
                deposit_amount: s.deposit_amount,
            },
            old_rate,
            now,
        );
        let remaining = (s.end_time - now) as i128;
        let future = match new_rate_per_second.checked_mul(remaining) {
            Some(v) => v,
            None => {
                return Err(ContractError::ArithmeticOverflow);
            },
        };
        let new_deposit = match accrued.checked_add(future) {
            Some(v) => v,
            None => {
                return Err(ContractError::ArithmeticOverflow);
            },
        };
        let old_deposit = s.deposit_amount;
        let refund = match old_deposit.checked_sub(new_deposit) {
            Some(v) => v,
            None => {
                return Err(ContractError::ArithmeticOverflow);
            },
        };
        if refund < 0 {
            return Err(ContractError::InvalidState);
        }
        if new_deposit < s.withdrawn_amount {
            return Err(ContractError::InvalidState);
        }
        let ghost s0 = s;
        s.checkpointed_amount = accrued;
        s.checkpointed_at = now;
        s.rate_per_second = new_rate_per_second;
        s.deposit_amount = new_deposit;
        proof {
            assert(future >= 1) by (nonlinear_arith)
                requires
                    new_rate_per_second >= 1,
                    remaining >= 1,
                    future == new_rate_per_second * remaining,
            ;
            lemma_checkpoint_preserves_accrual(s0, new_rate_per_second, new_deposit, now);
        }
        self.save_stream(s);
        if refund > 0 {
            if self.settings.config.is_none() {
                return Err(ContractError::InvalidState);
            }
            self.log.push(Effect::Push { to: s.sender, amount: refund });
        }
        self.log.push(Effect::Publish(Emitted::RateDecreased(RateDecreased {
            stream_id,
            old_rate_per_second: old_rate,
            new_rate_per_second,
            effective_time: now,
            checkpointed_amount: accrued,
            refund_amount: refund,
        })));
        Ok(())
    }

    /// Moves the end of an Active or Paused stream earlier (sender only) and
    /// refunds the part of the deposit the shorter schedule no longer streams
    /// (see [`shortened_deposit`]); refused when that deposit would fall below
    /// what has accrued at `now` (see [`shorten_error`]), so the accrued
    /// amount at `now` stays as it was.
    pub fn shorten_stream_end_time(&mut self, inv: &Invocation, stream_id: u64, new_end_time: u64) -> (r: Result<(), ContractError>)
        requires
            old(self).wf(),
            !old(self).globally_paused() && old(self).has_stream(stream_id)
                ==> inv.authorizes(old(self).stream(stream_id).sender),
        ensures
            final(self).wf(),
            old(self).globally_paused() ==> r == Err::<(), ContractError>(ContractError::ContractPaused),
            !old(self).globally_paused() && !old(self).has_stream(stream_id)
                ==> r == Err::<(), ContractError>(ContractError::StreamNotFound),
            !old(self).globally_paused() && old(self).has_stream(stream_id) ==>
                match shorten_error(old(self).stream(stream_id), new_end_time, inv.timestamp) {
                    Some(e) => r == Err::<(), ContractError>(e),
                    None => r is Ok,
                },
            r is Err ==> *final(self) == *old(self),
            r is Ok ==> {
                let s = old(self).stream(stream_id);
                let refund = s.deposit_amount - shortened_deposit(s, new_end_time);
                let ev = Effect::Publish(Emitted::EndShortened(StreamEndShortened {
                    stream_id,
                    old_end_time: s.end_time,
                    new_end_time,
                    refund_amount: refund as i128,
                }));
                &&& final(self).only_stream_changed(old(self), stream_id, shortened_stream(s, new_end_time))
                &&& final(self).book.total_liabilities == (if refund > 0 {
                    liabilities_minus(old(self).book.total_liabilities, refund)
                } else {
                    old(self).book.total_liabilities
                })
                &&& final(self).log@ == (if refund > 0 {
                    old(self).log@.push(Effect::Push { to: s.sender, amount: refund as i128 }).push(ev)
                } else {
                    old(self).log@.push(ev)
                })
            },
    {
        if self.settings.pause_state == PauseState::GlobalEmergencyPaused {
            return Err(ContractError::ContractPaused);
        }
        let mut s = self.load_stream(stream_id)?;
        if s.status != StreamStatus::Active && s.status != StreamStatus::Paused {
            return Err(ContractError::InvalidState);
        }
        let now = inv.timestamp;
        if new_end_time <= now || new_end_time <= s.start_time || new_end_time < s.cliff_time
            || new_end_time >= s.end_time {
            return Err(ContractError::InvalidParams);
        }
        let new_duration = (new_end_time - s.start_time) as i128;
        let new_max = match s.rate_per_second.checked_mul(new_duration) {
            Some(v) => v,
            None => {
                return Err(ContractError::ArithmeticOverflow);
            },
        };
        if new_max > s.deposit_amount {
            return Err(ContractError::InvalidParams);
        }
        proof {
            lemma_accrued_bounded(checkpoint_of(s), s.rate_per_second, now);
        }
        let accrued = calculate_accrued_amount_checkpointed(
            CheckpointState {
                checkpointed_amount: s.checkpointed_amount,
                checkpointed_at: s.checkpointed_at,
                cliff_time: s.cliff_time,
                end_time: s.end_time,
                deposit_amount: s.deposit_amount,
            },
            s.rate_per_second,
            now,
        );
        if new_max < accrued {
            return Err(ContractError::InvalidParams);
        }
        if new_max < s.withdrawn_amount {
            return Err(ContractError::InvalidState);
        }
        proof {
            assert(new_max >= 1) by (nonlinear_arith)
                requires
                    s.rate_per_second >= 1,
                    new_duration >= 1,
                    new_max == s.rate_per_second * new_duration,
            ;
        }
        let old_end = s.end_time;
        let refund = s.deposit_amount - new_max;
        s.end_time = new_end_time;
        s.deposit_amount = new_max;
        self.save_stream(s);
        if refund > 0 {
            let l = match self.book.total_liabilities.checked_sub(refund) {
                Some(v) => v,
                None => 0,
            };
            self.book.total_liabilities = l;
            if self.settings.config.is_none() {
                return Err(ContractError::InvalidState);
            }
            self.log.push(Effect::Push { to: s.sender, amount: refund });
        }
        self.log.push(Effect::Publish(Emitted::EndShortened(StreamEndShortened {
            stream_id,
            old_end_time: old_end,
            new_end_time,
            refund_amount: refund,
        })));
        Ok(())
    }

    /// Moves the end of an Active or Paused stream later (sender only),
    /// provided the deposit still covers the rate over the longer schedule.
    pub fn extend_stream_end_time(&mut self, inv: &Invocation, stream_id: u64, new_end_time: u64) -> (r: Result<(), ContractError>)
        requires
            old(self).wf(),
            !old(self).globally_paused() && old(self).has_stream(stream_id)
                ==> inv.authorizes(old(self).stream(stream_id).sender),
        ensures
            final(self).wf(),
            old(self).globally_paused() ==> r == Err::<(), ContractError>(ContractError::ContractPaused),
            !old(self).globally_paused() && !old(self).has_stream(stream_id)
                ==> r == Err::<(), ContractError>(ContractError::StreamNotFound),
            !old(self).globally_paused() && old(self).has_stream(stream_id) ==>
                match extend_error(old(self).stream(stream_id), new_end_time, inv.timestamp) {
                    Some(e) => r == Err::<(), ContractError>(e),
                    None => r is Ok,
                },
            r is Err ==> *final(self) == *old(self),
            r is Ok ==> {
                let s = old(self).stream(stream_id);
                &&& final(self).only_stream_changed(old(self), stream_id, Stream { end_time: new_end_time, ..s })
                &&& final(self).book.total_liabilities == old(self).book.total_liabilities
                &&& final(self).log@ == old(self).log@.push(Effect::Publish(Emitted::EndExtended(StreamEndExtended {
                    stream_id,
                    old_end_time: s.end_time,
                    new_end_time,
                })))
            },
    {
        if self.settings.pause_state == PauseState::GlobalEmergencyPaused {
            return Err(ContractError::ContractPaused);
        }
        let mut s = self.load_stream(stream_id)?;
        if s.status != StreamStatus::Active && s.status != StreamStatus::Paused {
            return Err(ContractError::InvalidState);
        }
        let now = inv.timestamp;
        if new_end_time <= s.end_time || new_end_time <= s.start_time || new_end_time < s.cliff_time
            || new_end_time < now {
            return Err(ContractError::InvalidParams);
        }
        let new_duration = (new_end_time - s.start_time) as i128;
        let total = match s.rate_per_second.checked_mul(new_duration) {
            Some(v) => v,
            None => {
                return Err(ContractError::ArithmeticOverflow);
            },
        };
        if total > s.deposit_amount {
            return Err(ContractError::InsufficientDeposit);
        }
        let old_end = s.end_time;
        s.end_time = new_end_time;
        self.save_stream(s);
        self.log.push(Effect::Publish(Emitted::EndExtended(StreamEndExtended {
            stream_id,
            old_end_time: old_end,
            new_end_time,
        })));
        Ok(())
    }

    /// Adds `amount` to the deposit of an Active or Paused stream that has not
    /// ended, pulling the tokens from `funder` (any authorizing address).
    /// The global emergency pause does not block top-ups.
    pub fn top_up_stream(&mut self, inv: &Invocation, stream_id: u64, funder: Address, amount: i128) -> (r: Result<(), ContractError>)
        requires
            old(self).wf(),
            amount > 0 && old(self).has_stream(stream_id)
                && top_up_error(old(self).stream(stream_id), amount, inv.timestamp) != Some(ContractError::InvalidState)
                ==> inv.authorizes(funder),
        ensures
            final(self).wf(),
            amount <= 0
                ==> r == Err::<(), ContractError>(ContractError::InvalidParams),
            amount > 0 && !old(self).has_stream(stream_id)
                ==> r == Err::<(), ContractError>(ContractError::StreamNotFound),
            amount > 0 && old(self).has_stream(stream_id) ==>
                match top_up_error(old(self).stream(stream_id), amount, inv.timestamp) {
                    Some(e) => r == Err::<(), ContractError>(e),
                    None => r is Ok,
                },
            r is Err ==> *final(self) == *old(self),
            r is Ok ==> {
                let s = old(self).stream(stream_id);
                let new_deposit = (s.deposit_amount + amount) as i128;
                &&& final(self).only_stream_changed(old(self), stream_id, Stream { deposit_amount: new_deposit, ..s })
                &&& final(self).book.total_liabilities == liabilities_plus(old(self).book.total_liabilities, amount as int)
                &&& final(self).log@ == old(self).log@.push(Effect::Pull { from: funder, amount }).push(
                    Effect::Publish(Emitted::ToppedUp(StreamToppedUp {
                        stream_id,
                        top_up_amount: amount,
                        new_deposit_amount: new_deposit,
                        new_end_time: s.end_time,
                    })))
            },
    {
        if amount <= 0 {
            return Err(ContractError::InvalidParams);
        }
        let mut s = self.load_stream(stream_id)?;
        if s.status != StreamStatus::Active && s.status != StreamStatus::Paused {
            return Err(ContractError::InvalidState);
        }
        if inv.timestamp >= s.end_time {
            return Err(ContractError::InvalidState);
        }
        let new_deposit = match s.deposit_amount.checked_add(amount) {
            Some(v) => v,
            None => {
                return Err(ContractError::ArithmeticOverflow);
            },
        };
        s.deposit_amount = new_deposit;
        self.save_stream(s);
        if self.settings.config.is_none() {
            return Err(ContractError::InvalidState);
        }
        self.log.push(Effect::Pull { from: funder, amount });
        let l = match self.book.total_liabilities.checked_add(amount) {
            Some(v) => v,
            None => i128::MAX,
        };
        self.book.total_liabilities = l;
        self.log.push(Effect::Publish(Emitted::ToppedUp(StreamToppedUp {
            stream_id,
            top_up_amount: amount,
            new_deposit_amount: new_deposit,
            new_end_time: s.end_time,
        })));
        Ok(())
    }

    /// Sets the rate of a non-terminal stream directly, without a checkpoint,
    /// when `caller` is its sender or the admin.
    pub fn update_rate(&mut self, inv: &Invocation, stream_id: u64, new_rate_per_second: i128, caller: Address) -> (r: Result<(), ContractError>)
        requires
            old(self).wf(),
            inv.authorizes(caller),
        ensures
            final(self).wf(),
            !old(self).has_stream(stream_id) ==> r == Err::<(), ContractError>(ContractError::StreamNotFound),
            old(self).has_stream(stream_id) ==> {
                let s = old(self).stream(stream_id);
                let admin = old(self).settings.config->0.admin;
                if s.status == StreamStatus::Completed || s.status == StreamStatus::Cancelled {
                    r == Err::<(), ContractError>(ContractError::StreamTerminalState)
                } else if caller != s.sender && caller != admin {
                    r == Err::<(), ContractError>(ContractError::Unauthorized)
                } else if new_rate_per_second <= 0 {
                    r == Err::<(), ContractError>(ContractError::InvalidParams)
                } else {
                    r is Ok
                }
            },
            r is Err ==> *final(self) == *old(self),
            r is Ok ==> {
                let s = old(self).stream(stream_id);
                &&& final(self).only_stream_changed(old(self), stream_id, Stream { rate_per_second: new_rate_per_second, ..s })
                &&& final(self).book.total_liabilities == old(self).book.total_liabilities
                &&& final(self).log@ == old(self).log@.push(Effect::Publish(Emitted::RateUpdated(RateUpdated {
                    stream_id,
                    old_rate_per_second: s.rate_per_second,
                    new_rate_per_second,
                    effective_time: inv.timestamp,
                })))
            },
    {
        let mut s = self.load_stream(stream_id)?;
        if s.status == StreamStatus::Completed || s.status == StreamStatus::Cancelled {
            return Err(ContractError::StreamTerminalState);
        }
        let admin = self.get_config()?.admin;
        if caller != s.sender && caller != admin {
            return Err(ContractError::Unauthorized);
        }
        if new_rate_per_second <= 0 {
            return Err(ContractError::InvalidParams);
        }
        let old_rate = s.rate_per_second;
        s.rate_per_second = new_rate_per_second;
        self.save_stream(s);
        self.log.push(Effect::Publish(Emitted::RateUpdated(RateUpdated {
            stream_id,
            old_rate_per_second: old_rate,
            new_rate_per_second,
            effective_time: inv.timestamp,
        })));
        Ok(())
    }
}

} // verus!
