//! Pausing, resuming and cancelling streams.
use vstd::prelude::*;
use crate::accrual::{CheckpointState, accrued_at, calculate_accrued_amount_checkpointed, fits_i128, lemma_accrued_bounded};
use crate::stream::{FluxoraStream, checkpoint_of, is_terminal, is_mutable_status, stream_wf};
use crate::stream_types::{ContractError, Effect, Emitted, Invocation, PauseReason, PauseState, Stream, StreamEvent, StreamPaused, StreamStatus};

verus! {

/// `s` with status Paused.
pub open spec fn paused_stream(s: Stream) -> Stream {
    Stream { status: StreamStatus::Paused, ..s }
}

/// `s` with status Active.
pub open spec fn resumed_stream(s: Stream) -> Stream {
    Stream { status: StreamStatus::Active, ..s }
}

/// `s` cancelled at `now`.
pub open spec fn cancelled_stream(s: Stream, now: u64) -> Stream {
    Stream { status: StreamStatus::Cancelled, cancelled_at: Some(now), ..s }
}

/// The amount accrued by `s` at `now` under its current rate.
pub open spec fn accrued_live(s: Stream, now: u64) -> int {
    accrued_at(checkpoint_of(s), s.rate_per_second, now)
}

/// The refund owed to the sender when `s` is cancelled at `now`.
pub open spec fn cancel_refund(s: Stream, now: u64) -> int {
    s.deposit_amount - accrued_live(s, now)
}

/// Liabilities decreased by `x`, or 0 when the subtraction overflows.
pub open spec fn liabilities_minus(l: i128, x: int) -> i128 {
    if fits_i128(l - x) { (l - x) as i128 } else { 0 }
}

/// Liabilities increased by `x`, or `i128::MAX` when the addition overflows.
pub open spec fn liabilities_plus(l: i128, x: int) -> i128 {
    if fits_i128(l + x) { (l + x) as i128 } else { i128::MAX }
}

/// Which error pausing `s` at `now` returns, if any.
pub open spec fn pause_error(s: Stream, now: u64) -> Option<ContractError> {
    if s.status == StreamStatus::Paused {
        Some(ContractError::StreamAlreadyPaused)
    } else if is_terminal(s, now) {
        Some(ContractError::StreamTerminalState)
    } else if s.status != StreamStatus::Active {
        Some(ContractError::InvalidState)
    } else {
        None
    }
}

/// Which error resuming `s` at `now` returns, if any.
pub open spec fn resume_error(s: Stream, now: u64) -> Option<ContractError> {
    if s.status == StreamStatus::Active {
        Some(ContractError::StreamNotPaused)
    } else if is_terminal(s, now) {
        Some(ContractError::StreamTerminalState)
    } else if s.status != StreamStatus::Paused {
        Some(ContractError::StreamNotPaused)
    } else {
        None
    }
}

/// The effects of cancelling `s` at `now`: the refund transfer (when
/// positive) followed by the `cancelled` event.
pub open spec fn cancel_effects(s: Stream, now: u64) -> Seq<Effect> {
    let ev = Effect::Publish(Emitted::Lifecycle(StreamEvent::StreamCancelled(s.stream_id)));
    if cancel_refund(s, now) > 0 {
        seq![Effect::Push { to: s.sender, amount: cancel_refund(s, now) as i128 }, ev]
    } else {
        seq![ev]
    }
}

impl FluxoraStream {
    /// Returns `InvalidState` unless `status` is Active or Paused.
    pub fn require_cancellable_status(status: StreamStatus) -> (r: Result<(), ContractError>)
        ensures
            r is Ok <==> is_mutable_status(status),
            r matches Err(e) ==> e == ContractError::InvalidState,
    {
        if status != StreamStatus::Active && status != StreamStatus::Paused {
            return Err(ContractError::InvalidState);
        }
        Ok(())
    }

    /// Takes the reentrancy lock; fails with `InvalidState` when it is held.
    pub fn acquire_reentrancy_lock(&mut self) -> (r: Result<(), ContractError>)
        ensures
            old(self).reentrancy_lock ==> r == Err::<(), ContractError>(ContractError::InvalidState)
                && *final(self) == *old(self),
            !old(self).reentrancy_lock ==> r is Ok && final(self).reentrancy_lock
                && final(self).same_but_book(&FluxoraStream { reentrancy_lock: true, ..*old(self) })
                && final(self).book == old(self).book && final(self).log == old(self).log,
    {
        if self.reentrancy_lock {
            return Err(ContractError::InvalidState);
        }
        self.reentrancy_lock = true;
        Ok(())
    }

    /// Releases the reentrancy lock.
    pub fn release_reentrancy_lock(&mut self)
        ensures
            !final(self).reentrancy_lock,
            final(self).settings == old(self).settings,
            final(self).registry == old(self).registry,
            final(self).nonces == old(self).nonces,
            final(self).book == old(self).book,
            final(self).log == old(self).log,
    {
        self.reentrancy_lock = false;
    }

    /// Records a token transfer out of the contract, holding the reentrancy
    /// lock around it.
    fn push_token_guarded(&mut self, to: crate::address::Address, amount: i128)
        requires
            old(self).wf(),
        ensures
            final(self).wf(),
            final(self).same_but_book(old(self)),
            final(self).book == old(self).book,
            final(self).log@ == old(self).log@.push(Effect::Push { to, amount }),
    {
        let acquired = self.acquire_reentrancy_lock();
        match acquired {
            Ok(()) => {},
            Err(_) => {
                assert(false);
            },
        }
        self.log.push(Effect::Push { to, amount });
        self.release_reentrancy_lock();
    }

    fn pause_internal(&mut self, now: u64, stream_id: u64, reason: PauseReason) -> (r: Result<(), ContractError>)
        requires
            old(self).wf(),
        ensures
            final(self).wf(),
            !old(self).has_stream(stream_id) ==> r == Err::<(), ContractError>(ContractError::StreamNotFound),
            old(self).has_stream(stream_id) ==> match pause_error(old(self).stream(stream_id), now) {
                Some(e) => r == Err::<(), ContractError>(e),
                None => r is Ok,
            },
            r is Err ==> *final(self) == *old(self),
            r is Ok ==> {
                &&& final(self).only_stream_changed(old(self), stream_id, paused_stream(old(self).stream(stream_id)))
                &&& final(self).book.total_liabilities == old(self).book.total_liabilities
                &&& final(self).log@ == old(self).log@.push(
                    Effect::Publish(Emitted::Paused(StreamPaused { stream_id, reason })))
            },
    {
        let mut s = self.load_stream(stream_id)?;
        if s.status == StreamStatus::Paused {
            return Err(ContractError::StreamAlreadyPaused);
        }
        if s.status == StreamStatus::Completed || s.status == StreamStatus::Cancelled || now >= s.end_time {
            return Err(ContractError::StreamTerminalState);
        }
        if s.status != StreamStatus::Active {
            return Err(ContractError::InvalidState);
        }
        s.status = StreamStatus::Paused;
        self.save_stream(s);
        self.log.push(Effect::Publish(Emitted::Paused(StreamPaused { stream_id, reason })));
        Ok(())
    }

    fn resume_internal(&mut self, now: u64, stream_id: u64) -> (r: Result<(), ContractError>)
        requires
            old(self).wf(),
        ensures
            final(self).wf(),
            !old(self).has_stream(stream_id) ==> r == Err::<(), ContractError>(ContractError::StreamNotFound),
            old(self).has_stream(stream_id) ==> match resume_error(old(self).stream(stream_id), now) {
                Some(e) => r == Err::<(), ContractError>(e),
                None => r is Ok,
            },
            r is Err ==> *final(self) == *old(self),
            r is Ok ==> {
                &&& final(self).only_stream_changed(old(self), stream_id, resumed_stream(old(self).stream(stream_id)))
                &&& final(self).book.total_liabilities == old(self).book.total_liabilities
                &&& final(self).log@ == old(self).log@.push(
                    Effect::Publish(Emitted::Lifecycle(StreamEvent::Resumed(stream_id))))
            },
    {
        let mut s = self.load_stream(stream_id)?;
        if s.status == StreamStatus::Active {
            return Err(ContractError::StreamNotPaused);
        }
        if s.status == StreamStatus::Completed || s.status == StreamStatus::Cancelled || now >= s.end_time {
            return Err(ContractError::StreamTerminalState);
        }
        if s.status != StreamStatus::Paused {
            return Err(ContractError::StreamNotPaused);
        }
        s.status = StreamStatus::Active;
        self.save_stream(s);
        self.log.push(Effect::Publish(Emitted::Lifecycle(StreamEvent::Resumed(stream_id))));
        Ok(())
    }

    /// Pauses an Active stream (sender only); `ContractPaused` during the
    /// global emergency pause. Accrual is time-based and continues;
    /// withdrawals are blocked until the stream is resumed.
    pub fn pause_stream(&mut self, inv: &Invocation, stream_id: u64, reason: PauseReason) -> (r: Result<(), ContractError>)
        requires
            old(self).wf(),
            !old(self).globally_paused() && old(self).has_stream(stream_id)
                ==> inv.authorizes(old(self).stream(stream_id).sender),
        ensures
            final(self).wf(),
            old(self).globally_paused() ==> r == Err::<(), ContractError>(ContractError::ContractPaused),
            !old(self).globally_paused() && !old(self).has_stream(stream_id)
                ==> r == Err::<(), ContractError>(ContractError::StreamNotFound),
            !old(self).globally_paused() && old(self).has_stream(stream_id) ==> match pause_error(old(self).stream(stream_id), inv.timestamp) {
                Some(e) => r == Err::<(), ContractError>(e),
                None => r is Ok,
            },
            r is Err ==> *final(self) == *old(self),
            r is Ok ==> {
                &&& final(self).only_stream_changed(old(self), stream_id, paused_stream(old(self).stream(stream_id)))
                &&& final(self).book.total_liabilities == old(self).book.total_liabilities
                &&& final(self).log@ == old(self).log@.push(
                    Effect::Publish(Emitted::Paused(StreamPaused { stream_id, reason })))
            },
    {
        if self.settings.pause_state == PauseState::GlobalEmergencyPaused {
            return Err(ContractError::ContractPaused);
        }
        self.pause_internal(inv.timestamp, stream_id, reason)
    }

    /// Resumes a Paused stream (sender only); `ContractPaused` during the
    /// global emergency pause.
    pub fn resume_stream(&mut self, inv: &Invocation, stream_id: u64) -> (r: Result<(), ContractError>)
        requires
            old(self).wf(),
            !old(self).globally_paused() && old(self).has_stream(stream_id)
                ==> inv.authorizes(old(self).stream(stream_id).sender),
        ensures
            final(self).wf(),
            old(self).globally_paused() ==> r == Err::<(), ContractError>(ContractError::ContractPaused),
            !old(self).globally_paused() && !old(self).has_stream(stream_id)
                ==> r == Err::<(), ContractError>(ContractError::StreamNotFound),
            !old(self).globally_paused() && old(self).has_stream(stream_id) ==> match resume_error(old(self).stream(stream_id), inv.timestamp) {
                Some(e) => r == Err::<(), ContractError>(e),
                None => r is Ok,
            },
            r is Err ==> *final(self) == *old(self),
            r is Ok ==> {
                &&& final(self).only_stream_changed(old(self), stream_id, resumed_stream(old(self).stream(stream_id)))
                &&& final(self).book.total_liabilities == old(self).book.total_liabilities
                &&& final(self).log@ == old(self).log@.push(
                    Effect::Publish(Emitted::Lifecycle(StreamEvent::Resumed(stream_id))))
            },
    {
        if self.settings.pause_state == PauseState::GlobalEmergencyPaused {
            return Err(ContractError::ContractPaused);
        }
        self.resume_internal(inv.timestamp, stream_id)
    }

    /// Pauses any Active stream on behalf of the admin.
    pub fn pause_stream_as_admin(&mut self, inv: &Invocation, stream_id: u64, reason: PauseReason) -> (r: Result<(), ContractError>)
        requires
            old(self).wf(),
            old(self).settings.config matches Some(c) ==> inv.authorizes(c.admin),
        ensures
            final(self).wf(),
            old(self).settings.config is None ==> r == Err::<(), ContractError>(ContractError::InvalidState),
            old(self).settings.config is Some && !old(self).has_stream(stream_id)
                ==> r == Err::<(), ContractError>(ContractError::StreamNotFound),
            old(self).has_stream(stream_id) ==> match pause_error(old(self).stream(stream_id), inv.timestamp) {
                Some(e) => r == Err::<(), ContractError>(e),
                None => r is Ok,
            },
            r is Err ==> *final(self) == *old(self),
            r is Ok ==> {
                &&& final(self).only_stream_changed(old(self), stream_id, paused_stream(old(self).stream(stream_id)))
                &&& final(self).book.total_liabilities == old(self).book.total_liabilities
                &&& final(self).log@ == old(self).log@.push(
                    Effect::Publish(Emitted::Paused(StreamPaused { stream_id, reason })))
            },
    {
        let _admin = self.get_config()?.admin;
        self.pause_internal(inv.timestamp, stream_id, reason)
    }

    /// Resumes any Paused stream on behalf of the admin.
    pub fn resume_stream_as_admin(&mut self, inv: &Invocation, stream_id: u64) -> (r: Result<(), ContractError>)
        requires
            old(self).wf(),
            old(self).settings.config matches Some(c) ==> inv.authorizes(c.admin),
        ensures
            final(self).wf(),
            old(self).settings.config is None ==> r == Err::<(), ContractError>(ContractError::InvalidState),
            old(self).settings.config is Some && !old(self).has_stream(stream_id)
                ==> r == Err::<(), ContractError>(ContractError::StreamNotFound),
            old(self).has_stream(stream_id) ==> match resume_error(old(self).stream(stream_id), inv.timestamp) {
                Some(e) => r == Err::<(), ContractError>(e),
                None => r is Ok,
            },
            r is Err ==> *final(self) == *old(self),
            r is Ok ==> {
                &&& final(self).only_stream_changed(old(self), stream_id, resumed_stream(old(self).stream(stream_id)))
                &&& final(self).book.total_liabilities == old(self).book.total_liabilities
                &&& final(self).log@ == old(self).log@.push(
                    Effect::Publish(Emitted::Lifecycle(StreamEvent::Resumed(stream_id))))
            },
    {
        let _admin = self.get_config()?.admin;
        self.resume_internal(inv.timestamp, stream_id)
    }

    /// Shared cancellation: Active or Paused streams become Cancelled at
    /// `now`, the unaccrued part of the deposit is refunded to the sender, and
    /// the accrued part stays for the recipient.
    fn cancel_stream_internal(&mut self, now: u64, stream_id: u64) -> (r: Result<(), ContractError>)
        requires
            old(self).wf(),
            old(self).has_stream(stream_id),
        ensures
            final(self).wf(),
            r is Ok <==> is_mutable_status(old(self).stream(stream_id).status),
            r matches Err(e) ==> e == ContractError::InvalidState && *final(self) == *old(self),
            r is Ok ==> {
                let s = old(self).stream(stream_id);
                &&& final(self).only_stream_changed(old(self), stream_id, cancelled_stream(s, now))
                &&& final(self).book.total_liabilities == (if cancel_refund(s, now) > 0 {
                    liabilities_minus(old(self).book.total_liabilities, cancel_refund(s, now))
                } else {
                    old(self).book.total_liabilities
                })
                &&& final(self).log@ == old(self).log@ + cancel_effects(s, now)
            },
    {
        let mut s = self.load_stream(stream_id)?;
        Self::require_cancellable_status(s.status)?;
        proof {
            lemma_accrued_bounded(checkpoint_of(s), s.rate_per_second, now);
        }
        let accrued = calculate_accrued_amount_checkpointed(
            CheckpointState {
                checkpointed_amount: s.checkpointed_amount,
                checkpointed_at: s.checkpointed_at,
                cliff_time: s.cliff_time,
                end_time: s.end_time,
                deposit_amount: s.deposit_amount,
            },
            s.rate_per_second,
            now,
        );
        let refund = match s.deposit_amount.checked_sub(accrued) {
            Some(v) => v,
            None => {
                return Err(ContractError::InvalidState);
            },
        };
        let ghost s0 = s;
        s.status = StreamStatus::Cancelled;
        s.cancelled_at = Some(now);
        self.save_stream(s);
        if refund > 0 {
            let l = match self.book.total_liabilities.checked_sub(refund) {
                Some(v) => v,
                None => 0,
            };
            self.book.total_liabilities = l;
            self.push_token_guarded(s.sender, refund);
        }
        self.log.push(Effect::Publish(Emitted::Lifecycle(StreamEvent::StreamCancelled(stream_id))));
        proof {
            assert(self.log@ =~= old(self).log@ + cancel_effects(s0, now));
        }
        Ok(())
    }

    /// Cancels a stream (sender only); blocked by the global emergency pause.
    ///
    /// The recipient keeps everything accrued at cancellation; the rest of
    /// the deposit is refunded to the sender.
    pub fn cancel_stream(&mut self, inv: &Invocation, stream_id: u64) -> (r: Result<(), ContractError>)
        requires
            old(self).wf(),
            !old(self).globally_paused() && old(self).has_stream(stream_id)
                ==> inv.authorizes(old(self).stream(stream_id).sender),
        ensures
            final(self).wf(),
            old(self).globally_paused() ==> r == Err::<(), ContractError>(ContractError::ContractPaused),
            !old(self).globally_paused() && !old(self).has_stream(stream_id)
                ==> r == Err::<(), ContractError>(ContractError::StreamNotFound),
            !old(self).globally_paused() && old(self).has_stream(stream_id) ==>
                (r is Ok <==> is_mutable_status(old(self).stream(stream_id).status)),
            r is Err ==> *final(self) == *old(self),
            !old(self).globally_paused() && old(self).has_stream(stream_id)
                ==> (r matches Err(e) ==> e == ContractError::InvalidState),
            r is Ok ==> {
                let s = old(self).stream(stream_id);
                &&& final(self).only_stream_changed(old(self), stream_id, cancelled_stream(s, inv.timestamp))
                &&& final(self).book.total_liabilities == (if cancel_refund(s, inv.timestamp) > 0 {
                    liabilities_minus(old(self).book.total_liabilities, cancel_refund(s, inv.timestamp))
                } else {
                    old(self).book.total_liabilities
                })
                &&& final(self).log@ == old(self).log@ + cancel_effects(s, inv.timestamp)
            },
    {
        if self.settings.pause_state == crate::stream_types::PauseState::GlobalEmergencyPaused {
            return Err(ContractError::ContractPaused);
        }
        let _s = self.load_stream(stream_id)?;
        self.cancel_stream_internal(inv.timestamp, stream_id)
    }

    /// Cancels any Active or Paused stream on behalf of the admin (not
    /// blocked by the emergency pause).
    pub fn cancel_stream_as_admin(&mut self, inv: &Invocation, stream_id: u64) -> (r: Result<(), ContractError>)
        requires
            old(self).wf(),
            old(self).settings.config matches Some(c) ==> inv.authorizes(c.admin),
        ensures
            final(self).wf(),
            old(self).settings.config is None ==> r == Err::<(), ContractError>(ContractError::InvalidState),
            old(self).settings.config is Some && !old(self).has_stream(stream_id)
                ==> r == Err::<(), ContractError>(ContractError::StreamNotFound),
            old(self).has_stream(stream_id) ==>
                (r is Ok <==> is_mutable_status(old(self).stream(stream_id).status)),
            r is Err ==> *final(self) == *old(self),
            old(self).has_stream(stream_id) ==> (r matches Err(e) ==> e == ContractError::InvalidState),
            r is Ok ==> {
                let s = old(self).stream(stream_id);
                &&& final(self).only_stream_changed(old(self), stream_id, cancelled_stream(s, inv.timestamp))
                &&& final(self).book.total_liabilities == (if cancel_refund(s, inv.timestamp) > 0 {
                    liabilities_minus(old(self).book.total_liabilities, cancel_refund(s, inv.timestamp))
                } else {
                    old(self).book.total_liabilities
                })
                &&& final(self).log@ == old(self).log@ + cancel_effects(s, inv.timestamp)
            },
    {
        let _admin = self.get_config()?.admin;
        let _s = self.load_stream(stream_id)?;
        self.cancel_stream_internal(inv.timestamp, stream_id)
    }
}

} // verus!
