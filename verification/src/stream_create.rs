//! Stream creation: parameter validation, and single, relative and batch
//! creation.
use vstd::prelude::*;
use crate::accrual::fits_i128;
use crate::address::Address;
use crate::index::strictly_sorted;
use crate::stream::{FluxoraStream, stream_wf};
use crate::stream_lifecycle::liabilities_plus;
use crate::stream_types::{
    ContractError, CreateStreamParams, CreateStreamRelativeParams, Effect, Emitted, Invocation, Memo,
    PauseState, Stream, StreamCreated, StreamStatus, MAX_MEMO_BYTES,
};

verus! {

/// The terms of a stream to create, as the creation logic reads them.
pub struct StreamTerms {
    pub recipient: Address,
    pub deposit_amount: i128,
    pub rate_per_second: i128,
    pub start_time: u64,
    pub cliff_time: u64,
    pub end_time: u64,
    pub withdraw_dust_threshold: i128,
    pub memo: Option<Seq<u8>>,
}

/// The absolute start, cliff and end of a relative schedule at `now`
/// (start and cliff offset from `now`, end offset from the start), or `None`
/// when one of them overflows.
pub open spec fn relative_times(now: u64, start_delay: u64, cliff_delay: u64, duration: u64) -> Option<(u64, u64, u64)> {
    if now + start_delay > u64::MAX || now + cliff_delay > u64::MAX || now + start_delay + duration > u64::MAX {
        None
    } else {
        Some(((now + start_delay) as u64, (now + cliff_delay) as u64, (now + start_delay + duration) as u64))
    }
}

/// The terms of relative entry `p` at `now` (an absent dust threshold means
/// 0), or `None` when its times overflow.
pub open spec fn relative_terms(now: u64, p: CreateStreamRelativeParams) -> Option<StreamTerms> {
    match relative_times(now, p.start_delay, p.cliff_delay, p.duration) {
        Some(times) => Some(StreamTerms {
            recipient: p.recipient,
            deposit_amount: p.deposit_amount,
            rate_per_second: p.rate_per_second,
            start_time: times.0,
            cliff_time: times.1,
            end_time: times.2,
            withdraw_dust_threshold: match p.withdraw_dust_threshold {
                Some(d) => d,
                None => 0,
            },
            memo: memo_view(p.memo),
        }),
        None => None,
    }
}

/// Whether every relative entry's times fit at `now`.
pub open spec fn all_relative_ok(now: u64, rs: Seq<CreateStreamRelativeParams>) -> bool {
    forall|k: int| 0 <= k < rs.len() ==> (#[trigger] relative_terms(now, rs[k])) is Some
}

/// The terms of every relative entry at `now` (meaningful when
/// [`all_relative_ok`]).
pub open spec fn relative_terms_seq(now: u64, rs: Seq<CreateStreamRelativeParams>) -> Seq<StreamTerms> {
    Seq::new(rs.len(), |k: int| relative_terms(now, rs[k])->0)
}

/// The bytes of an optional memo.
pub open spec fn memo_view(memo: Option<Vec<u8>>) -> Option<Seq<u8>> {
    match memo {
        Some(v) => Some(v@),
        None => None,
    }
}

/// The terms of batch entry `p` (an absent dust threshold means 0).
pub open spec fn terms_of(p: CreateStreamParams) -> StreamTerms {
    StreamTerms {
        recipient: p.recipient,
        deposit_amount: p.deposit_amount,
        rate_per_second: p.rate_per_second,
        start_time: p.start_time,
        cliff_time: p.cliff_time,
        end_time: p.end_time,
        withdraw_dust_threshold: match p.withdraw_dust_threshold {
            Some(d) => d,
            None => 0,
        },
        memo: memo_view(p.memo),
    }
}

/// The validation error for a stream from `sender` on terms `t` at ledger
/// time `now`, checked in this order: non-positive amounts, sender equal to
/// recipient, empty schedule, start in the past, cliff outside the schedule,
/// overflowing total, deposit below the total, dust threshold above the
/// deposit.
pub open spec fn validate_error(sender: Address, now: u64, t: StreamTerms) -> Option<ContractError> {
    let total = t.rate_per_second * (t.end_time - t.start_time);
    if t.deposit_amount <= 0 || t.rate_per_second <= 0 {
        Some(ContractError::InvalidParams)
    } else if sender == t.recipient {
        Some(ContractError::InvalidParams)
    } else if t.start_time >= t.end_time {
        Some(ContractError::InvalidParams)
    } else if t.start_time < now {
        Some(ContractError::StartTimeInPast)
    } else if t.cliff_time < t.start_time || t.cliff_time > t.end_time {
        Some(ContractError::InvalidParams)
    } else if !fits_i128(total) {
        Some(ContractError::InvalidParams)
    } else if t.deposit_amount < total {
        Some(ContractError::InsufficientDeposit)
    } else if t.withdraw_dust_threshold > t.deposit_amount {
        Some(ContractError::InvalidDustThreshold)
    } else {
        None
    }
}

/// Whether a memo is longer than [`MAX_MEMO_BYTES`].
pub open spec fn memo_too_long(memo: Option<Seq<u8>>) -> bool {
    memo matches Some(m) && m.len() > MAX_MEMO_BYTES
}

/// Whether the stored memo `m` holds exactly the bytes `memo`.
pub open spec fn memo_holds(m: Option<Memo>, memo: Option<Seq<u8>>) -> bool {
    match memo {
        Some(b) => m matches Some(x) && x.wf() && x.view_bytes() == b,
        None => m is None,
    }
}

/// `s` is the stream `id` just created from `sender` on terms `t`: Active,
/// nothing withdrawn, the first rate epoch starting at the start time.
pub open spec fn is_new_stream(s: Stream, id: u64, sender: Address, t: StreamTerms) -> bool {
    &&& s.stream_id == id
    &&& s.sender == sender
    &&& s.recipient == t.recipient
    &&& s.deposit_amount == t.deposit_amount
    &&& s.rate_per_second == t.rate_per_second
    &&& s.start_time == t.start_time
    &&& s.cliff_time == t.cliff_time
    &&& s.end_time == t.end_time
    &&& s.withdrawn_amount == 0
    &&& s.status == StreamStatus::Active
    &&& s.cancelled_at is None
    &&& s.checkpointed_amount == 0
    &&& s.checkpointed_at == t.start_time
    &&& s.withdraw_dust_threshold == t.withdraw_dust_threshold
    &&& memo_holds(s.memo, t.memo)
}

/// The `created` event of stream `s`.
pub open spec fn created_event(s: Stream) -> Effect {
    Effect::Publish(Emitted::Created(StreamCreated {
        stream_id: s.stream_id,
        sender: s.sender,
        recipient: s.recipient,
        deposit_amount: s.deposit_amount,
        rate_per_second: s.rate_per_second,
        start_time: s.start_time,
        cliff_time: s.cliff_time,
        end_time: s.end_time,
        withdraw_dust_threshold: s.withdraw_dust_threshold,
        memo: s.memo,
    }))
}

/// Why creating one stream fails, if it does: creation paused, invalid
/// terms, contract not initialised, memo too long.
pub open spec fn create_error(st: FluxoraStream, now: u64, sender: Address, t: StreamTerms) -> Option<ContractError> {
    if st.settings.pause_state != PauseState::Active {
        Some(ContractError::ContractPaused)
    } else if validate_error(sender, now, t) is Some {
        validate_error(sender, now, t)
    } else if st.settings.config is None {
        Some(ContractError::InvalidState)
    } else if memo_too_long(t.memo) {
        Some(ContractError::InvalidParams)
    } else {
        None
    }
}

/// `new` is `old` with stream `id` created from `sender` on terms `t`: the
/// id counter advanced, the stream stored, its deposit added to the
/// liabilities; nothing else changed.
pub open spec fn stream_added(new: FluxoraStream, old: FluxoraStream, id: u64, sender: Address, t: StreamTerms) -> bool {
    &&& new.same_but_book(&old)
    &&& new.book.next_stream_id == id + 1
    &&& new.has_stream(id)
    &&& new.book.streams@ == old.book.streams@.insert(id, new.stream(id))
    &&& is_new_stream(new.stream(id), id, sender, t)
    &&& new.book.total_liabilities == liabilities_plus(old.book.total_liabilities, t.deposit_amount as int)
}

/// The outcome of creating one stream: the error and no change, or the new
/// id with the deposit pulled from the sender and the `created` event.
pub open spec fn create_outcome(
    old: FluxoraStream,
    new: FluxoraStream,
    now: u64,
    sender: Address,
    t: StreamTerms,
    r: Result<u64, ContractError>,
) -> bool {
    match create_error(old, now, sender, t) {
        Some(e) => r == Err::<u64, ContractError>(e) && new == old,
        None => {
            let id = old.book.next_stream_id;
            &&& r == Ok::<u64, ContractError>(id)
            &&& stream_added(new, old, id, sender, t)
            &&& new.log@ == old.log@.push(Effect::Pull { from: sender, amount: t.deposit_amount }).push(
                created_event(new.stream(id)),
            )
        },
    }
}

/// A copy of an optional memo.
fn copy_memo(m: &Option<Vec<u8>>) -> (r: Option<Vec<u8>>)
    ensures
        memo_view(r) == memo_view(*m),
{
    match m {
        Some(v) => {
            let mut out: Vec<u8> = Vec::new();
            let mut i: usize = 0;
            while i < v.len()
                invariant
                    0 <= i <= v@.len(),
                    out@ == v@.subrange(0, i as int),
                decreases v@.len() - i,
            {
                out.push(v[i]);
                i = i + 1;
            }
            assert(out@ =~= v@);
            Some(out)
        },
        None => None,
    }
}

/// The terms of each batch entry.
pub open spec fn terms_seq(ps: Seq<CreateStreamParams>) -> Seq<StreamTerms> {
    Seq::new(ps.len(), |k: int| terms_of(ps[k]))
}

/// The sum of the deposits of the first `k` terms.
pub open spec fn deposit_sum(ts: Seq<StreamTerms>, k: nat) -> int
    decreases k,
{
    if k == 0 {
        0
    } else {
        deposit_sum(ts, (k - 1) as nat) + ts[k - 1].deposit_amount
    }
}

/// The first error of the validation pass over the first `k` terms: an
/// entry's validation error, or `ArithmeticOverflow` when the running total
/// of deposits leaves the `i128` range.
pub open spec fn batch_validate_error(sender: Address, now: u64, ts: Seq<StreamTerms>, k: nat) -> Option<ContractError>
    decreases k,
{
    if k == 0 {
        None
    } else {
        match batch_validate_error(sender, now, ts, (k - 1) as nat) {
            Some(e) => Some(e),
            None => if validate_error(sender, now, ts[k - 1]) is Some {
                validate_error(sender, now, ts[k - 1])
            } else if !fits_i128(deposit_sum(ts, k)) {
                Some(ContractError::ArithmeticOverflow)
            } else {
                None
            },
        }
    }
}

/// Why a batch creation of `ts` fails, if it does (an empty batch never
/// fails): creation paused, the validation pass, contract not initialised,
/// a memo too long.
pub open spec fn create_streams_error(st: FluxoraStream, now: u64, sender: Address, ts: Seq<StreamTerms>) -> Option<ContractError> {
    if ts.len() == 0 {
        None
    } else if st.settings.pause_state != PauseState::Active {
        Some(ContractError::ContractPaused)
    } else if batch_validate_error(sender, now, ts, ts.len()) is Some {
        batch_validate_error(sender, now, ts, ts.len())
    } else if st.settings.config is None {
        Some(ContractError::InvalidState)
    } else if exists|k: int| 0 <= k < ts.len() && memo_too_long(#[trigger] ts[k].memo) {
        Some(ContractError::InvalidParams)
    } else {
        None
    }
}

/// The liabilities after adding the deposits of the first `k` terms one at
/// a time.
pub open spec fn liabilities_after(l: i128, ts: Seq<StreamTerms>, k: nat) -> i128
    decreases k,
{
    if k == 0 {
        l
    } else {
        liabilities_plus(liabilities_after(l, ts, (k - 1) as nat), ts[k - 1].deposit_amount as int)
    }
}

/// `new` is `old` with the first `k` of `ts` created from `sender`, under
/// consecutive ids starting at `old`'s counter.
pub open spec fn streams_added(new: FluxoraStream, old: FluxoraStream, sender: Address, ts: Seq<StreamTerms>, k: nat) -> bool {
    let first = old.book.next_stream_id;
    &&& new.same_but_book(&old)
    &&& new.book.next_stream_id == first + k
    &&& forall|id: u64| #[trigger] new.has_stream(id) <==> (old.has_stream(id) || (first <= id < first + k))
    &&& forall|id: u64| #[trigger] old.has_stream(id) ==> new.stream(id) == old.stream(id)
    &&& forall|j: int| 0 <= j < k ==> is_new_stream(new.stream((first + j) as u64), (first + j) as u64, sender, #[trigger] ts[j])
    &&& new.book.total_liabilities == liabilities_after(old.book.total_liabilities, ts, k)
}

/// The `created` events of the first `k` streams created from `first` on.
pub open spec fn created_events(st: FluxoraStream, first: u64, k: nat) -> Seq<Effect> {
    Seq::new(k, |j: int| created_event(st.stream((first + j) as u64)))
}

/// The outcome of a batch creation: an empty batch returns no ids and
/// changes nothing; a failing one returns its error and changes nothing;
/// otherwise the streams are created in order, the summed deposit is pulled
/// once, and one `created` event follows per stream.
pub open spec fn create_streams_outcome(
    old: FluxoraStream,
    new: FluxoraStream,
    now: u64,
    sender: Address,
    ts: Seq<StreamTerms>,
    r: Result<Vec<u64>, ContractError>,
) -> bool {
    let first = old.book.next_stream_id;
    match create_streams_error(old, now, sender, ts) {
        Some(e) => (r matches Err(x) && x == e) && new == old,
        None => if ts.len() == 0 {
            (r matches Ok(v) && v@.len() == 0) && new == old
        } else {
            &&& (r matches Ok(v) && v@ == Seq::new(ts.len(), |j: int| (first + j) as u64))
            &&& streams_added(new, old, sender, ts, ts.len())
            &&& new.log@ == old.log@.push(Effect::Pull { from: sender, amount: deposit_sum(ts, ts.len()) as i128 })
                + created_events(new, first, ts.len())
        },
    }
}

/// With no validation error among the first `k` terms, each of them is
/// valid and their running totals fit.
pub proof fn lemma_batch_validate_none(sender: Address, now: u64, ts: Seq<StreamTerms>, k: nat, j: int)
    requires
        batch_validate_error(sender, now, ts, k) is None,
        0 <= j < k,
    ensures
        validate_error(sender, now, ts[j]) is None,
        fits_i128(deposit_sum(ts, (j + 1) as nat)),
    decreases k,
{
    if j < k - 1 {
        lemma_batch_validate_none(sender, now, ts, (k - 1) as nat, j);
    }
}

/// Once the validation pass fails, longer prefixes fail the same way.
pub proof fn lemma_batch_validate_stable(sender: Address, now: u64, ts: Seq<StreamTerms>, k: nat, m: nat)
    requires
        k <= m,
    ensures
        batch_validate_error(sender, now, ts, k) is Some
            ==> batch_validate_error(sender, now, ts, m) == batch_validate_error(sender, now, ts, k),
    decreases m - k,
{
    if k < m {
        lemma_batch_validate_stable(sender, now, ts, k, (m - 1) as nat);
    }
}

impl FluxoraStream {
    /// Checks the terms of a new stream (see [`validate_error`]).
    pub fn validate_stream_params(
        sender: &Address,
        recipient: &Address,
        deposit_amount: i128,
        rate_per_second: i128,
        current_ledger_timestamp: u64,
        start_time: u64,
        cliff_time: u64,
        end_time: u64,
    ) -> (r: Result<(), ContractError>)
        ensures
            ({
                let t = StreamTerms {
                    recipient: *recipient,
                    deposit_amount,
                    rate_per_second,
                    start_time,
                    cliff_time,
                    end_time,
                    withdraw_dust_threshold: 0,
                    memo: None,
                };
                match validate_error(*sender, current_ledger_timestamp, t) {
                    Some(e) => r == Err::<(), ContractError>(e),
                    None => r is Ok,
                }
            }),
    {
        if deposit_amount <= 0 || rate_per_second <= 0 {
            return Err(ContractError::InvalidParams);
        }
        if *sender == *recipient {
            return Err(ContractError::InvalidParams);
        }
        if start_time >= end_time {
            return Err(ContractError::InvalidParams);
        }
        if start_time < current_ledger_timestamp {
            return Err(ContractError::StartTimeInPast);
        }
        if cliff_time < start_time || cliff_time > end_time {
            return Err(ContractError::InvalidParams);
        }
        let duration = (end_time - start_time) as i128;
        let total_streamable = match rate_per_second.checked_mul(duration) {
            Some(v) => v,
            None => {
                return Err(ContractError::InvalidParams);
            },
        };
        if deposit_amount < total_streamable {
            return Err(ContractError::InsufficientDeposit);
        }
        Ok(())
    }

    /// Records pulling `amount` tokens from `from` into the contract; fails
    /// with `InvalidState` when the contract is not initialised.
    fn pull_token(&mut self, from: Address, amount: i128) -> (r: Result<(), ContractError>)
        ensures
            r is Err <==> old(self).settings.config is None,
            r matches Err(e) ==> e == ContractError::InvalidState && *final(self) == *old(self),
            r is Ok ==> final(self).log@ == old(self).log@.push(Effect::Pull { from, amount })
                && final(self).settings == old(self).settings
                && final(self).book == old(self).book
                && final(self).registry == old(self).registry
                && final(self).nonces == old(self).nonces
                && final(self).reentrancy_lock == old(self).reentrancy_lock,
    {
        let _token = self.get_config()?.token;
        self.log.push(Effect::Pull { from, amount });
        Ok(())
    }

    /// Stores a new stream under the next id (after checking the memo),
    /// indexes it under its recipient, adds its deposit to the liabilities
    /// and publishes `created`.
    fn persist_new_stream(
        &mut self,
        sender: Address,
        recipient: Address,
        deposit_amount: i128,
        rate_per_second: i128,
        start_time: u64,
        cliff_time: u64,
        end_time: u64,
        withdraw_dust_threshold: i128,
        memo: Option<Vec<u8>>,
    ) -> (r: Result<u64, ContractError>)
        requires
            old(self).wf(),
            old(self).settings.config is Some,
            old(self).book.next_stream_id < u64::MAX,
            deposit_amount > 0,
            rate_per_second > 0,
            start_time < end_time,
            start_time <= cliff_time <= end_time,
        ensures
            final(self).wf(),
            ({
                let t = StreamTerms {
                    recipient,
                    deposit_amount,
                    rate_per_second,
                    start_time,
                    cliff_time,
                    end_time,
                    withdraw_dust_threshold,
                    memo: memo_view(memo),
                };
                let id = old(self).book.next_stream_id;
                if memo_too_long(t.memo) {
                    r == Err::<u64, ContractError>(ContractError::InvalidParams) && *final(self) == *old(self)
                } else {
                    &&& r == Ok::<u64, ContractError>(id)
                    &&& stream_added(*final(self), *old(self), id, sender, t)
                    &&& final(self).log@ == old(self).log@.push(created_event(final(self).stream(id)))
                }
            }),
    {
        let stored_memo: Option<Memo> = match &memo {
            Some(m) => match Memo::from_bytes(m) {
                Some(x) => Some(x),
                None => {
                    return Err(ContractError::InvalidParams);
                },
            },
            None => None,
        };
        let ghost st = *old(self);
        let stream_id = self.book.next_stream_id;
        assert(!self.book.streams@.contains_key(stream_id));
        assert(!self.book.recipient_index.ids_of(recipient).contains(stream_id));
        assert(strictly_sorted(self.book.recipient_index.ids_of(recipient)));
        self.book.next_stream_id = stream_id + 1;
        let s = Stream {
            stream_id,
            sender,
            recipient,
            deposit_amount,
            rate_per_second,
            start_time,
            cliff_time,
            end_time,
            withdrawn_amount: 0,
            status: StreamStatus::Active,
            cancelled_at: None,
            checkpointed_amount: 0,
            checkpointed_at: start_time,
            withdraw_dust_threshold,
            memo: stored_memo,
        };
        self.book.streams.insert(stream_id, s);
        self.book.recipient_index.insert_sorted(recipient, stream_id);
        let liabilities = match self.book.total_liabilities.checked_add(deposit_amount) {
            Some(v) => v,
            None => i128::MAX,
        };
        self.book.total_liabilities = liabilities;
        self.log.push(
            Effect::Publish(
                Emitted::Created(StreamCreated {
                    stream_id,
                    sender,
                    recipient,
                    deposit_amount,
                    rate_per_second,
                    start_time,
                    cliff_time,
                    end_time,
                    withdraw_dust_threshold,
                    memo: stored_memo,
                }),
            ),
        );
        proof {
            let nb = self.book;
            assert forall|id: u64| #[trigger] nb.streams@.contains_key(id) implies {
                &&& nb.streams@[id].stream_id == id
                &&& id < nb.next_stream_id
                &&& stream_wf(nb.streams@[id])
            } by {
                if id != stream_id {
                    assert(st.book.streams@.contains_key(id));
                }
            }
            assert forall|a: Address, id: u64| #[trigger] nb.recipient_index.ids_of(a).contains(id)
                implies nb.streams@.contains_key(id) && nb.streams@[id].recipient == a by {
                if a == recipient {
                    if id != stream_id {
                        assert(st.book.recipient_index.ids_of(a).contains(id));
                    }
                } else {
                    assert(st.book.recipient_index.ids_of(a).contains(id));
                }
            }
            assert forall|id: u64| #[trigger] nb.streams@.contains_key(id)
                implies nb.recipient_index.ids_of(nb.streams@[id].recipient).contains(id) by {
                if id != stream_id {
                    assert(st.book.streams@.contains_key(id));
                    let a = st.book.streams@[id].recipient;
                    assert(st.book.recipient_index.ids_of(a).contains(id));
                }
            }
            assert forall|a: Address| strictly_sorted(#[trigger] nb.recipient_index.ids_of(a)) by {
                if a != recipient {
                    assert(strictly_sorted(st.book.recipient_index.ids_of(a)));
                }
            }
        }
        Ok(stream_id)
    }

    /// Creates a stream from `sender` (who must authorize the call) to
    /// `recipient`, pulling the deposit into the contract.
    ///
    /// Fails with `ContractPaused` while creation is paused, with the
    /// validation error for invalid terms, with `InvalidState` before
    /// initialisation and with `InvalidParams` for a memo longer than
    /// [`MAX_MEMO_BYTES`]; the new stream's id is the number of streams
    /// created before it.
    pub fn create_stream(
        &mut self,
        inv: &Invocation,
        sender: Address,
        recipient: Address,
        deposit_amount: i128,
        rate_per_second: i128,
        start_time: u64,
        cliff_time: u64,
        end_time: u64,
        withdraw_dust_threshold: i128,
        memo: Option<Vec<u8>>,
    ) -> (r: Result<u64, ContractError>)
        requires
            old(self).wf(),
            inv.authorizes(sender),
            old(self).book.next_stream_id < u64::MAX,
        ensures
            final(self).wf(),
            create_outcome(
                *old(self),
                *final(self),
                inv.timestamp,
                sender,
                StreamTerms {
                    recipient,
                    deposit_amount,
                    rate_per_second,
                    start_time,
                    cliff_time,
                    end_time,
                    withdraw_dust_threshold,
                    memo: memo_view(memo),
                },
                r,
            ),
    {
        let ghost t = StreamTerms {
            recipient,
            deposit_amount,
            rate_per_second,
            start_time,
            cliff_time,
            end_time,
            withdraw_dust_threshold,
            memo: memo_view(memo),
        };
        if self.settings.pause_state != PauseState::Active {
            return Err(ContractError::ContractPaused);
        }
        Self::validate_stream_params(
            &sender,
            &recipient,
            deposit_amount,
            rate_per_second,
            inv.timestamp,
            start_time,
            cliff_time,
            end_time,
        )?;
        if withdraw_dust_threshold > deposit_amount {
            return Err(ContractError::InvalidDustThreshold);
        }
        let _token = self.get_config()?.token;
        match &memo {
            Some(m) => {
                if m.len() > MAX_MEMO_BYTES {
                    return Err(ContractError::InvalidParams);
                }
            },
            None => {},
        }
        let ghost before_pull = *self;
        match self.pull_token(sender, deposit_amount) {
            Ok(()) => {},
            Err(e) => {
                assert(false);
                return Err(e);
            },
        }
        let r = self.persist_new_stream(
            sender,
            recipient,
            deposit_amount,
            rate_per_second,
            start_time,
            cliff_time,
            end_time,
            withdraw_dust_threshold,
            memo,
        );
        proof {
            let id = old(self).book.next_stream_id;
            assert(stream_added(*self, before_pull, id, sender, t));
            assert(before_pull.same_but_book(old(self)));
        }
        r
    }

    /// Creates a stream whose start and cliff are offsets from the current
    /// ledger time and whose end is `duration` seconds after the start.
    /// Fails with `InvalidParams` (before any authorization) when a time
    /// overflows; otherwise behaves as [`FluxoraStream::create_stream`].
    pub fn create_stream_relative(
        &mut self,
        inv: &Invocation,
        sender: Address,
        params: CreateStreamRelativeParams,
    ) -> (r: Result<u64, ContractError>)
        requires
            old(self).wf(),
            relative_terms(inv.timestamp, params) is Some ==> inv.authorizes(sender),
            old(self).book.next_stream_id < u64::MAX,
        ensures
            final(self).wf(),
            match relative_terms(inv.timestamp, params) {
                None => r == Err::<u64, ContractError>(ContractError::InvalidParams) && *final(self) == *old(self),
                Some(t) => create_outcome(*old(self), *final(self), inv.timestamp, sender, t, r),
            },
    {
        let now = inv.timestamp;
        let start_time = match now.checked_add(params.start_delay) {
            Some(v) => v,
            None => {
                return Err(ContractError::InvalidParams);
            },
        };
        let cliff_time = match now.checked_add(params.cliff_delay) {
            Some(v) => v,
            None => {
                return Err(ContractError::InvalidParams);
            },
        };
        let end_time = match start_time.checked_add(params.duration) {
            Some(v) => v,
            None => {
                return Err(ContractError::InvalidParams);
            },
        };
        let dust = match params.withdraw_dust_threshold {
            Some(d) => d,
            None => 0,
        };
        self.create_stream(
            inv,
            sender,
            params.recipient,
            params.deposit_amount,
            params.rate_per_second,
            start_time,
            cliff_time,
            end_time,
            dust,
            params.memo,
        )
    }

    /// Creates one stream per entry, in order, for `sender` (who must
    /// authorize the call), pulling the summed deposit once.
    ///
    /// An empty batch returns no ids. Otherwise every entry is validated
    /// first (the first failure, or `ArithmeticOverflow` for an overflowing
    /// total, fails the whole call), and any failure leaves nothing created.
    pub fn create_streams(
        &mut self,
        inv: &Invocation,
        sender: Address,
        streams: &Vec<CreateStreamParams>,
    ) -> (r: Result<Vec<u64>, ContractError>)
        requires
            old(self).wf(),
            inv.authorizes(sender),
            old(self).book.next_stream_id + streams@.len() <= u64::MAX,
        ensures
            final(self).wf(),
            create_streams_outcome(*old(self), *final(self), inv.timestamp, sender, terms_seq(streams@), r),
    {
        let ghost ts = terms_seq(streams@);
        let n = streams.len();
        if n == 0 {
            return Ok(Vec::new());
        }
        if self.settings.pause_state != PauseState::Active {
            return Err(ContractError::ContractPaused);
        }
        let now = inv.timestamp;
        let mut total: i128 = 0;
        let mut k: usize = 0;
        while k < n
            invariant
                n == streams@.len(),
                now == inv.timestamp,
                ts == terms_seq(streams@),
                0 <= k <= n,
                *self == *old(self),
                old(self).wf(),
                old(self).settings.pause_state == PauseState::Active,
                batch_validate_error(sender, now, ts, k as nat) is None,
                total == deposit_sum(ts, k as nat),
            decreases n - k,
        {
            let p = &streams[k];
            proof {
                lemma_batch_validate_stable(sender, now, ts, (k + 1) as nat, n as nat);
                assert(ts[k as int] == terms_of(streams@[k as int]));
            }
            let checked = Self::validate_stream_params(
                &sender,
                &p.recipient,
                p.deposit_amount,
                p.rate_per_second,
                now,
                p.start_time,
                p.cliff_time,
                p.end_time,
            );
            let ghost tk = ts[k as int];
            assert(tk.recipient == p.recipient && tk.deposit_amount == p.deposit_amount
                && tk.rate_per_second == p.rate_per_second && tk.start_time == p.start_time
                && tk.cliff_time == p.cliff_time && tk.end_time == p.end_time);
            match checked {
                Ok(()) => {},
                Err(e) => {
                    assert(validate_error(sender, now, tk) == Some(e));
                    assert(batch_validate_error(sender, now, ts, (k + 1) as nat) == Some(e));
                    return Err(e);
                },
            }
            let dust: i128 = match p.withdraw_dust_threshold {
                Some(d) => d,
                None => 0,
            };
            if dust > p.deposit_amount {
                assert(validate_error(sender, now, tk) == Some(ContractError::InvalidDustThreshold));
                assert(batch_validate_error(sender, now, ts, (k + 1) as nat) == Some(ContractError::InvalidDustThreshold));
                return Err(ContractError::InvalidDustThreshold);
            }
            total = match total.checked_add(p.deposit_amount) {
                Some(v) => v,
                None => {
                    assert(batch_validate_error(sender, now, ts, (k + 1) as nat) == Some(ContractError::ArithmeticOverflow));
                    return Err(ContractError::ArithmeticOverflow);
                },
            };
            k = k + 1;
        }
        let _token = self.get_config()?.token;
        let mut k: usize = 0;
        while k < n
            invariant
                n == streams@.len(),
                now == inv.timestamp,
                ts == terms_seq(streams@),
                0 <= k <= n,
                *self == *old(self),
                old(self).wf(),
                old(self).settings.pause_state == PauseState::Active,
                old(self).settings.config is Some,
                batch_validate_error(sender, now, ts, n as nat) is None,
                forall|j: int| 0 <= j < k ==> !memo_too_long(#[trigger] ts[j].memo),
            decreases n - k,
        {
            match &streams[k].memo {
                Some(m) => {
                    if m.len() > MAX_MEMO_BYTES {
                        assert(memo_too_long(ts[k as int].memo));
                        assert(create_streams_error(*old(self), now, sender, ts) == Some(ContractError::InvalidParams));
                        return Err(ContractError::InvalidParams);
                    }
                },
                None => {},
            }
            assert(!memo_too_long(ts[k as int].memo));
            k = k + 1;
        }
        match self.pull_token(sender, total) {
            Ok(()) => {},
            Err(e) => {
                assert(false);
                return Err(e);
            },
        }
        let ghost first = old(self).book.next_stream_id;
        let mut ids: Vec<u64> = Vec::new();
        let mut k: usize = 0;
        assert(created_events(*self, first, 0) =~= Seq::<Effect>::empty());
        assert(self.log@ =~= old(self).log@.push(Effect::Pull { from: sender, amount: deposit_sum(ts, n as nat) as i128 })
            + created_events(*self, first, 0));
        while k < n
            invariant
                self.wf(),
                n == streams@.len(),
                now == inv.timestamp,
                ts == terms_seq(streams@),
                0 <= k <= n,
                first == old(self).book.next_stream_id,
                first + n <= u64::MAX,
                old(self).wf(),
                self.settings.config is Some,
                batch_validate_error(sender, now, ts, n as nat) is None,
                forall|j: int| 0 <= j < n ==> !memo_too_long(#[trigger] ts[j].memo),
                streams_added(*self, *old(self), sender, ts, k as nat),
                self.log@ == old(self).log@.push(Effect::Pull { from: sender, amount: deposit_sum(ts, n as nat) as i128 })
                    + created_events(*self, first, k as nat),
                ids@ == Seq::new(k as nat, |j: int| (first + j) as u64),
            decreases n - k,
        {
            let p = &streams[k];
            proof {
                lemma_batch_validate_none(sender, now, ts, n as nat, k as int);
                assert(ts[k as int] == terms_of(streams@[k as int]));
            }
            let dust = match p.withdraw_dust_threshold {
                Some(d) => d,
                None => 0,
            };
            let memo = copy_memo(&p.memo);
            let ghost before = *self;
            let id = match self.persist_new_stream(
                sender,
                p.recipient,
                p.deposit_amount,
                p.rate_per_second,
                p.start_time,
                p.cliff_time,
                p.end_time,
                dust,
                memo,
            ) {
                Ok(id) => id,
                Err(e) => {
                    assert(false);
                    return Err(e);
                },
            };
            ids.push(id);
            proof {
                let t = StreamTerms {
                    recipient: p.recipient,
                    deposit_amount: p.deposit_amount,
                    rate_per_second: p.rate_per_second,
                    start_time: p.start_time,
                    cliff_time: p.cliff_time,
                    end_time: p.end_time,
                    withdraw_dust_threshold: dust,
                    memo: memo_view(memo),
                };
                assert(t == ts[k as int]);
                assert(id == first + k);
                assert forall|x: u64| #[trigger] self.has_stream(x)
                    <==> (old(self).has_stream(x) || (first <= x < first + k + 1)) by {
                    if x != id {
                        assert(self.has_stream(x) == before.has_stream(x));
                    }
                }
                assert forall|x: u64| #[trigger] old(self).has_stream(x) implies self.stream(x) == old(self).stream(x) by {
                    assert(x < first);
                    assert(before.has_stream(x));
                }
                assert forall|j: int| 0 <= j < k + 1 implies is_new_stream(
                    self.stream((first + j) as u64),
                    (first + j) as u64,
                    sender,
                    #[trigger] ts[j],
                ) by {
                    if j < k {
                        assert(before.has_stream((first + j) as u64));
                        assert(self.stream((first + j) as u64) == before.stream((first + j) as u64));
                    }
                }
                assert(created_events(*self, first, (k + 1) as nat) =~= created_events(before, first, k as nat).push(
                    created_event(self.stream(id)),
                )) by {
                    assert forall|j: int| 0 <= j < k implies #[trigger] created_events(*self, first, (k + 1) as nat)[j]
                        == created_events(before, first, k as nat)[j] by {
                        assert(before.has_stream((first + j) as u64));
                    }
                }
                assert(self.log@ =~= old(self).log@.push(
                    Effect::Pull { from: sender, amount: deposit_sum(ts, n as nat) as i128 },
                ) + created_events(*self, first, (k + 1) as nat));
                assert(ids@ =~= Seq::new((k + 1) as nat, |j: int| (first + j) as u64));
            }
            k = k + 1;
        }
        Ok(ids)
    }

    /// Batch creation from relative schedules: each entry's start and cliff
    /// are offsets from the current ledger time and its end is `duration`
    /// after its start. An empty batch returns no ids; an entry whose times
    /// overflow fails the call with `InvalidParams` (before any
    /// authorization); otherwise behaves as [`FluxoraStream::create_streams`].
    pub fn create_streams_relative(
        &mut self,
        inv: &Invocation,
        sender: Address,
        streams_relative: &Vec<CreateStreamRelativeParams>,
    ) -> (r: Result<Vec<u64>, ContractError>)
        requires
            old(self).wf(),
            streams_relative@.len() > 0 && all_relative_ok(inv.timestamp, streams_relative@)
                ==> inv.authorizes(sender),
            old(self).book.next_stream_id + streams_relative@.len() <= u64::MAX,
        ensures
            final(self).wf(),
            streams_relative@.len() == 0 ==> (r matches Ok(v) && v@.len() == 0) && *final(self) == *old(self),
            streams_relative@.len() > 0 && !all_relative_ok(inv.timestamp, streams_relative@)
                ==> r == Err::<Vec<u64>, ContractError>(ContractError::InvalidParams) && *final(self) == *old(self),
            streams_relative@.len() > 0 && all_relative_ok(inv.timestamp, streams_relative@)
                ==> create_streams_outcome(*old(self), *final(self), inv.timestamp, sender,
                    relative_terms_seq(inv.timestamp, streams_relative@), r),
    {
        let n = streams_relative.len();
        if n == 0 {
            return Ok(Vec::new());
        }
        let now = inv.timestamp;
        let mut absolute: Vec<CreateStreamParams> = Vec::new();
        let mut k: usize = 0;
        while k < n
            invariant
                n == streams_relative@.len(),
                now == inv.timestamp,
                *self == *old(self),
                old(self).wf(),
                0 <= k <= n,
                forall|j: int| 0 <= j < k ==> (#[trigger] relative_terms(now, streams_relative@[j])) is Some,
                terms_seq(absolute@) == relative_terms_seq(now, streams_relative@).subrange(0, k as int),
            decreases n - k,
        {
            let rel = &streams_relative[k];
            let start_time = match now.checked_add(rel.start_delay) {
                Some(v) => v,
                None => {
                    assert(relative_terms(now, streams_relative@[k as int]) is None);
                    return Err(ContractError::InvalidParams);
                },
            };
            let cliff_time = match now.checked_add(rel.cliff_delay) {
                Some(v) => v,
                None => {
                    assert(relative_terms(now, streams_relative@[k as int]) is None);
                    return Err(ContractError::InvalidParams);
                },
            };
            let end_time = match start_time.checked_add(rel.duration) {
                Some(v) => v,
                None => {
                    assert(relative_terms(now, streams_relative@[k as int]) is None);
                    return Err(ContractError::InvalidParams);
                },
            };
            let p = CreateStreamParams {
                recipient: rel.recipient,
                deposit_amount: rel.deposit_amount,
                rate_per_second: rel.rate_per_second,
                start_time,
                cliff_time,
                end_time,
                withdraw_dust_threshold: rel.withdraw_dust_threshold,
                memo: copy_memo(&rel.memo),
            };
            let ghost prev = absolute@;
            absolute.push(p);
            proof {
                assert(relative_terms(now, streams_relative@[k as int]) is Some);
                assert(terms_of(p) == relative_terms(now, streams_relative@[k as int])->0);
                assert(terms_seq(absolute@) =~= terms_seq(prev).push(terms_of(p)));
                assert(terms_seq(absolute@) =~= relative_terms_seq(now, streams_relative@).subrange(0, k + 1));
            }
            k = k + 1;
        }
        assert(terms_seq(absolute@) =~= relative_terms_seq(now, streams_relative@));
        self.create_streams(inv, sender, &absolute)
    }
}

} // verus!