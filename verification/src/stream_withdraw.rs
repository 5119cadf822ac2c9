//! Withdrawals by the recipient, recipient rotation and closing of streams.
use vstd::prelude::*;
use crate::accrual::{fits_i128, lemma_accrued_bounded};
use crate::address::Address;
use crate::index::lemma_remove_strictly_sorted;
use crate::stream::{FluxoraStream, accrued_view, checkpoint_of, is_terminal, is_mutable_status, stream_wf};
use crate::stream_lifecycle::liabilities_minus;
use crate::stream_types::{
    ContractError, Effect, Emitted, Invocation, PauseState, RecipientUpdated, Stream, StreamEvent,
    StreamStatus, Withdrawal, WithdrawalTo,
};

verus! {

/// Which error blocks a withdrawal from `s` at `now`, if any: Completed
/// streams, and Paused streams that have not reached a terminal state.
pub open spec fn withdraw_block(s: Stream, now: u64) -> Option<ContractError> {
    if s.status == StreamStatus::Completed {
        Some(ContractError::InvalidState)
    } else if s.status == StreamStatus::Paused && !is_terminal(s, now) {
        Some(ContractError::InvalidState)
    } else {
        None
    }
}

/// Whether an amount below the dust threshold is held back: it is paid only
/// on a terminal stream or when it drains the deposit.
pub open spec fn held_as_dust(s: Stream, now: u64, w: int) -> bool {
    w < s.withdraw_dust_threshold && !is_terminal(s, now) && s.withdrawn_amount + w < s.deposit_amount
}

/// The amount a single withdrawal from `s` at `now` pays when the contract
/// holds `balance`: accrued minus withdrawn, capped by the balance, 0 when
/// not positive or held back as dust.
pub open spec fn withdraw_amount(s: Stream, now: u64, balance: i128) -> int {
    let w = accrued_view(s, now) - s.withdrawn_amount;
    let capped = if balance < w { balance as int } else { w };
    if capped <= 0 {
        0
    } else if held_as_dust(s, now, capped) {
        0
    } else {
        capped
    }
}

/// Whether paying `amount` from `s` completes it.
pub open spec fn completes(s: Stream, amount: int) -> bool {
    is_mutable_status(s.status) && s.withdrawn_amount + amount == s.deposit_amount
}

/// `s` after paying out `amount`.
pub open spec fn after_payout(s: Stream, amount: int) -> Stream {
    Stream {
        withdrawn_amount: (s.withdrawn_amount + amount) as i128,
        status: if completes(s, amount) { StreamStatus::Completed } else { s.status },
        ..s
    }
}

/// The effects of paying `amount` from `s` to `dest`: the transfer, the
/// withdrawal event (`wdraw_to` when `routed`), and `completed` when it
/// completes the stream.
pub open spec fn payout_effects(s: Stream, amount: i128, dest: Address, routed: bool) -> Seq<Effect> {
    let ev = if routed {
        Effect::Publish(Emitted::WithdrewTo(WithdrawalTo {
            stream_id: s.stream_id,
            recipient: s.recipient,
            destination: dest,
            amount,
        }))
    } else {
        Effect::Publish(Emitted::Withdrew(Withdrawal { stream_id: s.stream_id, recipient: s.recipient, amount }))
    };
    let base = seq![Effect::Push { to: dest, amount }, ev];
    if completes(s, amount as int) {
        base.push(Effect::Publish(Emitted::Lifecycle(StreamEvent::StreamCompleted(s.stream_id))))
    } else {
        base
    }
}

/// A withdrawal pays at most what has accrued and not been withdrawn, never
/// more than the balance, and leaves the withdrawn total within the accrual.
pub proof fn lemma_withdraw_bounded(s: Stream, now: u64, balance: i128)
    requires
        stream_wf(s),
    ensures
        0 <= withdraw_amount(s, now, balance),
        withdraw_amount(s, now, balance) > 0 ==> {
            &&& withdraw_amount(s, now, balance) <= accrued_view(s, now) - s.withdrawn_amount
            &&& withdraw_amount(s, now, balance) <= balance
            &&& after_payout(s, withdraw_amount(s, now, balance)).withdrawn_amount <= accrued_view(s, now)
            &&& after_payout(s, withdraw_amount(s, now, balance)).withdrawn_amount <= s.deposit_amount
        },
{
    let t = if s.status == StreamStatus::Cancelled { s.cancelled_at->0 } else { now };
    lemma_accrued_bounded(checkpoint_of(s), s.rate_per_second, t);
}

impl FluxoraStream {
    /// Pays `amount` (> 0) from the stored stream `s` to `dest`: updates the
    /// stream, optionally the liabilities, and records the effects.
    pub(crate) fn apply_payout(&mut self, s: Stream, amount: i128, dest: Address, routed: bool, track_liabilities: bool) -> (completed: bool)
        requires
            old(self).wf(),
            old(self).has_stream(s.stream_id),
            old(self).stream(s.stream_id) == s,
            0 < amount,
            s.withdrawn_amount + amount <= s.deposit_amount,
        ensures
            final(self).wf(),
            completed == completes(s, amount as int),
            final(self).only_stream_changed(old(self), s.stream_id, after_payout(s, amount as int)),
            final(self).book.total_liabilities == (if track_liabilities {
                liabilities_minus(old(self).book.total_liabilities, amount as int)
            } else {
                old(self).book.total_liabilities
            }),
            final(self).log@ == old(self).log@ + payout_effects(s, amount, dest, routed),
    {
        let mut t = s;
        t.withdrawn_amount = s.withdrawn_amount + amount;
        let completed = (s.status == StreamStatus::Active || s.status == StreamStatus::Paused)
            && t.withdrawn_amount == s.deposit_amount;
        if completed {
            t.status = StreamStatus::Completed;
        }
        assert(t == after_payout(s, amount as int));
        self.save_stream(t);
        if track_liabilities {
            let l = match self.book.total_liabilities.checked_sub(amount) {
                Some(v) => v,
                None => 0,
            };
            self.book.total_liabilities = l;
        }
        self.log.push(Effect::Push { to: dest, amount });
        if routed {
            self.log.push(Effect::Publish(Emitted::WithdrewTo(WithdrawalTo {
                stream_id: s.stream_id,
                recipient: s.recipient,
                destination: dest,
                amount,
            })));
        } else {
            self.log.push(Effect::Publish(Emitted::Withdrew(Withdrawal {
                stream_id: s.stream_id,
                recipient: s.recipient,
                amount,
            })));
        }
        if completed {
            self.log.push(Effect::Publish(Emitted::Lifecycle(StreamEvent::StreamCompleted(s.stream_id))));
        }
        assert(self.log@ =~= old(self).log@ + payout_effects(s, amount, dest, routed));
        completed
    }

    /// Shared single withdrawal to `dest`.
    fn withdraw_internal(&mut self, now: u64, stream_id: u64, dest: Address, routed: bool, contract_balance: i128) -> (r: Result<i128, ContractError>)
        requires
            old(self).wf(),
            old(self).has_stream(stream_id),
            withdraw_block(old(self).stream(stream_id), now) is None,
        ensures
            final(self).wf(),
            r == Ok::<i128, ContractError>(withdraw_amount(old(self).stream(stream_id), now, contract_balance) as i128),
            withdraw_amount(old(self).stream(stream_id), now, contract_balance) == 0 ==> *final(self) == *old(self),
            withdraw_amount(old(self).stream(stream_id), now, contract_balance) > 0 ==> {
                let s = old(self).stream(stream_id);
                let a = withdraw_amount(s, now, contract_balance);
                &&& final(self).only_stream_changed(old(self), stream_id, after_payout(s, a))
                &&& final(self).book.total_liabilities == liabilities_minus(old(self).book.total_liabilities, a)
                &&& final(self).log@ == old(self).log@ + payout_effects(s, a as i128, dest, routed)
            },
    {
        let s = self.load_stream(stream_id)?;
        proof {
            lemma_withdraw_bounded(s, now, contract_balance);
        }
        let accrued = Self::stream_accrued(&s, now)?;
        let mut w = accrued - s.withdrawn_amount;
        if contract_balance < w {
            w = contract_balance;
        }
        if self.settings.config.is_none() {
            return Err(ContractError::InvalidState);
        }
        if w <= 0 {
            return Ok(0);
        }
        let terminal = s.status == StreamStatus::Completed || s.status == StreamStatus::Cancelled
            || now >= s.end_time;
        if w < s.withdraw_dust_threshold && !terminal && s.withdrawn_amount + w < s.deposit_amount {
            return Ok(0);
        }
        self.acquire_reentrancy_lock()?;
        self.release_reentrancy_lock();
        self.apply_payout(s, w, dest, routed, true);
        Ok(w)
    }

    /// Pays the recipient everything accrued and not yet withdrawn (capped by
    /// the contract's token balance), marking the stream Completed when the
    /// whole deposit has been paid.
    ///
    /// Returns 0, changing nothing, when nothing is payable or the amount is
    /// held back by the dust threshold.
    pub fn withdraw(&mut self, inv: &Invocation, stream_id: u64, contract_balance: i128) -> (r: Result<i128, ContractError>)
        requires
            old(self).wf(),
            !old(self).globally_paused() && old(self).has_stream(stream_id)
                ==> inv.authorizes(old(self).stream(stream_id).recipient),
        ensures
            final(self).wf(),
            old(self).globally_paused() ==> r == Err::<i128, ContractError>(ContractError::ContractPaused),
            !old(self).globally_paused() && !old(self).has_stream(stream_id)
                ==> r == Err::<i128, ContractError>(ContractError::StreamNotFound),
            !old(self).globally_paused() && old(self).has_stream(stream_id) ==> {
                let s = old(self).stream(stream_id);
                match withdraw_block(s, inv.timestamp) {
                    Some(e) => r == Err::<i128, ContractError>(e),
                    None => r == Ok::<i128, ContractError>(withdraw_amount(s, inv.timestamp, contract_balance) as i128),
                }
            },
            r is Err ==> *final(self) == *old(self),
            r == Ok::<i128, ContractError>(0) ==> *final(self) == *old(self),
            r matches Ok(a) ==> a != 0 ==> {
                let s = old(self).stream(stream_id);
                &&& final(self).only_stream_changed(old(self), stream_id, after_payout(s, a as int))
                &&& final(self).book.total_liabilities == liabilities_minus(old(self).book.total_liabilities, a as int)
                &&& final(self).log@ == old(self).log@ + payout_effects(s, a, s.recipient, false)
            },
    {
        if self.settings.pause_state == PauseState::GlobalEmergencyPaused {
            return Err(ContractError::ContractPaused);
        }
        let s = self.load_stream(stream_id)?;
        if s.status == StreamStatus::Completed {
            return Err(ContractError::InvalidState);
        }
        let terminal = s.status == StreamStatus::Completed || s.status == StreamStatus::Cancelled
            || inv.timestamp >= s.end_time;
        if s.status == StreamStatus::Paused && !terminal {
            return Err(ContractError::InvalidState);
        }
        self.withdraw_internal(inv.timestamp, stream_id, s.recipient, false, contract_balance)
    }

    /// Like [`FluxoraStream::withdraw`], but the tokens go to `destination`,
    /// which must not be the contract itself.
    pub fn withdraw_to(&mut self, inv: &Invocation, stream_id: u64, destination: Address, contract_balance: i128) -> (r: Result<i128, ContractError>)
        requires
            old(self).wf(),
            !old(self).globally_paused() && old(self).has_stream(stream_id)
                ==> inv.authorizes(old(self).stream(stream_id).recipient),
        ensures
            final(self).wf(),
            old(self).globally_paused() ==> r == Err::<i128, ContractError>(ContractError::ContractPaused),
            !old(self).globally_paused() && !old(self).has_stream(stream_id)
                ==> r == Err::<i128, ContractError>(ContractError::StreamNotFound),
            !old(self).globally_paused() && old(self).has_stream(stream_id) ==> {
                let s = old(self).stream(stream_id);
                if destination == inv.contract {
                    r == Err::<i128, ContractError>(ContractError::InvalidParams)
                } else {
                    match withdraw_block(s, inv.timestamp) {
                        Some(e) => r == Err::<i128, ContractError>(e),
                        None => r == Ok::<i128, ContractError>(withdraw_amount(s, inv.timestamp, contract_balance) as i128),
                    }
                }
            },
            r is Err ==> *final(self) == *old(self),
            r == Ok::<i128, ContractError>(0) ==> *final(self) == *old(self),
            r matches Ok(a) ==> a != 0 ==> {
                let s = old(self).stream(stream_id);
                &&& final(self).only_stream_changed(old(self), stream_id, after_payout(s, a as int))
                &&& final(self).book.total_liabilities == liabilities_minus(old(self).book.total_liabilities, a as int)
                &&& final(self).log@ == old(self).log@ + payout_effects(s, a, destination, true)
            },
    {
        if self.settings.pause_state == PauseState::GlobalEmergencyPaused {
            return Err(ContractError::ContractPaused);
        }
        let s = self.load_stream(stream_id)?;
        if destination == inv.contract {
            return Err(ContractError::InvalidParams);
        }
        if s.status == StreamStatus::Completed {
            return Err(ContractError::InvalidState);
        }
        let terminal = s.status == StreamStatus::Completed || s.status == StreamStatus::Cancelled
            || inv.timestamp >= s.end_time;
        if s.status == StreamStatus::Paused && !terminal {
            return Err(ContractError::InvalidState);
        }
        self.withdraw_internal(inv.timestamp, stream_id, destination, true, contract_balance)
    }

    /// Moves a stream to a new recipient (current recipient only), keeping
    /// both recipients' stream lists sorted and consistent.
    pub fn update_recipient(&mut self, inv: &Invocation, stream_id: u64, new_recipient: Address) -> (r: Result<(), ContractError>)
        requires
            old(self).wf(),
            !old(self).globally_paused() && old(self).has_stream(stream_id)
                ==> inv.authorizes(old(self).stream(stream_id).recipient),
        ensures
            final(self).wf(),
            old(self).globally_paused() ==> r == Err::<(), ContractError>(ContractError::ContractPaused),
            !old(self).globally_paused() && !old(self).has_stream(stream_id)
                ==> r == Err::<(), ContractError>(ContractError::StreamNotFound),
            !old(self).globally_paused() && old(self).has_stream(stream_id) ==>
                (r is Ok <==> new_recipient != old(self).stream(stream_id).recipient),
            old(self).has_stream(stream_id) && !old(self).globally_paused()
                ==> (r matches Err(e) ==> e == ContractError::InvalidParams),
            r is Err ==> *final(self) == *old(self),
            r is Ok ==> {
                let s = old(self).stream(stream_id);
                &&& final(self).same_but_book(old(self))
                &&& final(self).book.streams@ == old(self).book.streams@.insert(stream_id,
                    Stream { recipient: new_recipient, ..s })
                &&& final(self).book.next_stream_id == old(self).book.next_stream_id
                &&& final(self).book.total_liabilities == old(self).book.total_liabilities
                &&& final(self).log@ == old(self).log@.push(Effect::Publish(Emitted::RecipientUpdated(RecipientUpdated {
                    stream_id,
                    old_recipient: s.recipient,
                    new_recipient,
                })))
            },
    {
        if self.settings.pause_state == PauseState::GlobalEmergencyPaused {
            return Err(ContractError::ContractPaused);
        }
        let mut s = self.load_stream(stream_id)?;
        if new_recipient == s.recipient {
            return Err(ContractError::InvalidParams);
        }
        let old_recipient = s.recipient;
        let ghost old_ids = self.book.recipient_index.ids_of(old_recipient);
        let ghost new_ids = self.book.recipient_index.ids_of(new_recipient);
        assert(old_ids.contains(stream_id));
        assert(crate::index::strictly_sorted(old_ids));
        let found = self.book.recipient_index.remove_id(old_recipient, stream_id);
        proof {
            if !found {
                assert(crate::index::sorted(old_ids));
                assert(false);
            }
            let k = choose|k: int| 0 <= k < old_ids.len() && old_ids[k] == stream_id
                && self.book.recipient_index.ids_of(old_recipient) == old_ids.remove(k);
            lemma_remove_strictly_sorted(old_ids, k);
            assert(crate::index::strictly_sorted(new_ids));
            assert(!new_ids.contains(stream_id));
        }
        self.book.recipient_index.insert_sorted(new_recipient, stream_id);
        s.recipient = new_recipient;
        self.book.streams.insert(stream_id, s);
        proof {
            let ghost o = old(self);
            assert forall|a: crate::address::Address| crate::index::strictly_sorted(#[trigger] self.book.recipient_index.ids_of(a)) by {
                if a != old_recipient && a != new_recipient {
                    assert(self.book.recipient_index.ids_of(a) == o.book.recipient_index.ids_of(a));
                }
            }
            assert forall|a: crate::address::Address, id: u64| #[trigger] self.book.recipient_index.ids_of(a).contains(id)
                implies self.book.streams@.contains_key(id) && self.book.streams@[id].recipient == a by {
                if a == old_recipient {
                } else if a == new_recipient {
                    if id != stream_id {
                        assert(new_ids.contains(id));
                    }
                } else {
                    assert(o.book.recipient_index.ids_of(a).contains(id));
                }
            }
            assert forall|id: u64| #[trigger] self.book.streams@.contains_key(id)
                implies self.book.recipient_index.ids_of(self.book.streams@[id].recipient).contains(id) by {
                if id != stream_id {
                    let a = o.book.streams@[id].recipient;
                    assert(o.book.recipient_index.ids_of(a).contains(id));
                    if a == old_recipient {
                        assert(old_ids.contains(id));
                    }
                }
            }
        }
        self.log.push(Effect::Publish(Emitted::RecipientUpdated(RecipientUpdated {
            stream_id,
            old_recipient,
            new_recipient,
        })));
        Ok(())
    }

    /// Deletes a Completed stream from storage and from its recipient's list
    /// (permissionless); every other status is `InvalidState`.
    pub fn close_completed_stream(&mut self, inv: &Invocation, stream_id: u64) -> (r: Result<(), ContractError>)
        requires
            old(self).wf(),
        ensures
            final(self).wf(),
            !old(self).has_stream(stream_id) ==> r == Err::<(), ContractError>(ContractError::StreamNotFound),
            old(self).has_stream(stream_id) ==> (r is Ok <==> old(self).stream(stream_id).status == StreamStatus::Completed),
            old(self).has_stream(stream_id) ==> (r matches Err(e) ==> e == ContractError::InvalidState),
            r is Err ==> *final(self) == *old(self),
            r is Ok ==> {
                &&& final(self).same_but_book(old(self))
                &&& final(self).book.streams@ == old(self).book.streams@.remove(stream_id)
                &&& final(self).book.next_stream_id == old(self).book.next_stream_id
                &&& final(self).book.total_liabilities == old(self).book.total_liabilities
                &&& final(self).log@ == old(self).log@.push(
                    Effect::Publish(Emitted::Lifecycle(StreamEvent::StreamClosed(stream_id))))
            },
    {
        let s = self.load_stream(stream_id)?;
        if s.status != StreamStatus::Completed {
            return Err(ContractError::InvalidState);
        }
        self.log.push(Effect::Publish(Emitted::Lifecycle(StreamEvent::StreamClosed(stream_id))));
        let ghost ids = self.book.recipient_index.ids_of(s.recipient);
        assert(ids.contains(stream_id));
        assert(crate::index::strictly_sorted(ids));
        let found = self.book.recipient_index.remove_id(s.recipient, stream_id);
        proof {
            if !found {
                assert(crate::index::sorted(ids));
                assert(false);
            }
        }
        self.book.streams.remove(&stream_id);
        proof {
            let ghost o = old(self);
            let k = choose|k: int| 0 <= k < ids.len() && ids[k] == stream_id
                && self.book.recipient_index.ids_of(s.recipient) == ids.remove(k);
            lemma_remove_strictly_sorted(ids, k);
            assert forall|a: crate::address::Address| crate::index::strictly_sorted(#[trigger] self.book.recipient_index.ids_of(a)) by {
                if a != s.recipient {
                    assert(self.book.recipient_index.ids_of(a) == o.book.recipient_index.ids_of(a));
                }
            }
            assert forall|a: crate::address::Address, id: u64| #[trigger] self.book.recipient_index.ids_of(a).contains(id)
                implies self.book.streams@.contains_key(id) && self.book.streams@[id].recipient == a by {
                if a != s.recipient {
                    assert(o.book.recipient_index.ids_of(a).contains(id));
                } else {
                    assert(ids.contains(id));
                }
            }
            assert forall|id: u64| #[trigger] self.book.streams@.contains_key(id)
                implies self.book.recipient_index.ids_of(self.book.streams@[id].recipient).contains(id) by {
                let a = o.book.streams@[id].recipient;
                assert(o.book.recipient_index.ids_of(a).contains(id));
                if a == s.recipient {
                    assert(ids.contains(id));
                }
            }
            assert(self.settings.config is Some);
        }
        Ok(())
    }
}

} // verus!
