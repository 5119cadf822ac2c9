//! The streaming contract's state, its invariant, and its read-only views.
use std::collections::HashMap;
use vstd::prelude::*;
use crate::accrual::{CheckpointState, accrued_at, calculate_accrued_amount_checkpointed, lemma_accrued_bounded};
use crate::address::Address;
use crate::index::{AddressIndex, strictly_sorted};
use crate::stream_types::{Config, ContractError, Effect, Invocation, PauseInfo, PauseState, Stream, StreamScheduleTemplate, StreamStatus, CONTRACT_VERSION, MAX_PAGE_SIZE};

verus! {

/// Configuration and pause flags.
pub struct Settings {
    pub config: Option<Config>,
    pub pause_state: PauseState,
    pub pause_reason: Option<String>,
    pub pause_timestamp: Option<u64>,
    pub pause_admin: Option<Address>,
}

/// Streams by id, the per-recipient index and the liability counter.
pub struct StreamBook {
    /// Id of the next stream to be created (= number of streams created).
    pub next_stream_id: u64,
    pub streams: HashMap<u64, Stream>,
    /// Sorted stream ids per recipient.
    pub recipient_index: AddressIndex,
    /// Sum of outstanding deposit liabilities, as tracked by the operations.
    pub total_liabilities: i128,
}

/// Registered schedule templates.
pub struct TemplateRegistry {
    pub next_template_id: u64,
    pub active_template_count: u64,
    pub templates: HashMap<u64, StreamScheduleTemplate>,
    /// Template ids per owner, in registration order.
    pub owner_templates: AddressIndex,
}

/// Per-recipient delegated-withdraw nonces (0 when absent).
pub struct NonceTable {
    pub owners: Vec<Address>,
    pub values: Vec<u64>,
}

/// The complete state of one streaming-contract instance.
pub struct FluxoraStream {
    pub settings: Settings,
    pub book: StreamBook,
    pub registry: TemplateRegistry,
    pub nonces: NonceTable,
    /// Held only while a token transfer is in progress.
    pub reentrancy_lock: bool,
    /// Token transfers and events produced so far, oldest first.
    pub log: Vec<Effect>,
}

/// The accrual inputs of a stream.
pub open spec fn checkpoint_of(s: Stream) -> CheckpointState {
    CheckpointState {
        checkpointed_amount: s.checkpointed_amount,
        checkpointed_at: s.checkpointed_at,
        cliff_time: s.cliff_time,
        end_time: s.end_time,
        deposit_amount: s.deposit_amount,
    }
}

/// What `calculate_accrued` reports for `s` at ledger time `now`: the deposit
/// once Completed, the amount frozen at cancellation once Cancelled, and the
/// time-based accrual otherwise.
pub open spec fn accrued_view(s: Stream, now: u64) -> int {
    match s.status {
        StreamStatus::Completed => s.deposit_amount as int,
        StreamStatus::Cancelled => accrued_at(checkpoint_of(s), s.rate_per_second, s.cancelled_at->0),
        _ => accrued_at(checkpoint_of(s), s.rate_per_second, now),
    }
}

/// Completed or Cancelled, or past the end of the schedule.
pub open spec fn is_terminal(s: Stream, now: u64) -> bool {
    s.status == StreamStatus::Completed || s.status == StreamStatus::Cancelled || now >= s.end_time
}

/// Active or Paused.
pub open spec fn is_mutable_status(status: StreamStatus) -> bool {
    status == StreamStatus::Active || status == StreamStatus::Paused
}

/// The shape every stored stream keeps: a valid schedule, positive rate and
/// deposit, and withdrawals within the deposit.
pub open spec fn stream_wf(s: Stream) -> bool {
    &&& s.start_time < s.end_time
    &&& s.start_time <= s.cliff_time <= s.end_time
    &&& s.rate_per_second > 0
    &&& s.deposit_amount > 0
    &&& s.checkpointed_amount >= 0
    &&& s.withdrawn_amount >= 0
    &&& s.withdrawn_amount <= s.deposit_amount
    &&& (s.status == StreamStatus::Cancelled ==> s.cancelled_at is Some)
    &&& (s.memo matches Some(m) ==> m.wf())
}

impl StreamBook {
    pub open spec fn wf(&self) -> bool {
        &&& forall|id: u64| #[trigger] self.streams@.contains_key(id) ==> {
            &&& self.streams@[id].stream_id == id
            &&& id < self.next_stream_id
            &&& stream_wf(self.streams@[id])
        }
        &&& self.recipient_index.wf()
        &&& self.recipient_index.all_strictly_sorted()
        &&& forall|a: Address, id: u64| #[trigger] self.recipient_index.ids_of(a).contains(id)
            ==> self.streams@.contains_key(id) && self.streams@[id].recipient == a
        &&& forall|id: u64| #[trigger] self.streams@.contains_key(id)
            ==> self.recipient_index.ids_of(self.streams@[id].recipient).contains(id)
    }

    /// The stream ids whose recipient is `a`, ascending.
    pub open spec fn recipient_ids(&self, a: Address) -> Seq<u64> {
        self.recipient_index.ids_of(a)
    }
}

impl NonceTable {
    pub open spec fn wf(&self) -> bool {
        &&& self.owners@.len() == self.values@.len()
        &&& self.owners@.no_duplicates()
    }

    /// The nonce of `a`.
    pub open spec fn nonce_of(&self, a: Address) -> u64 {
        if self.owners@.contains(a) {
            self.values@[choose|i: int| 0 <= i < self.owners@.len() && self.owners@[i] == a]
        } else {
            0
        }
    }

    pub proof fn lemma_slot(&self, i: int)
        requires
            self.wf(),
            0 <= i < self.owners@.len(),
        ensures
            self.nonce_of(self.owners@[i]) == self.values@[i],
    {
        let a = self.owners@[i];
        assert(self.owners@.contains(a));
        let j = choose|j: int| 0 <= j < self.owners@.len() && self.owners@[j] == a;
        assert(self.owners@[j] == a);
    }

    pub fn new() -> (r: NonceTable)
        ensures
            r.wf(),
            forall|a: Address| r.nonce_of(a) == 0,
    {
        NonceTable { owners: Vec::new(), values: Vec::new() }
    }

    /// The nonce of `a` (0 if never used).
    pub fn read(&self, a: Address) -> (r: u64)
        requires
            self.wf(),
        ensures
            r == self.nonce_of(a),
    {
        let mut i: usize = 0;
        while i < self.owners.len()
            invariant
                self.wf(),
                0 <= i <= self.owners@.len(),
                forall|j: int| 0 <= j < i ==> self.owners@[j] != a,
            decreases self.owners@.len() - i,
        {
            if self.owners[i] == a {
                proof {
                    self.lemma_slot(i as int);
                }
                return self.values[i];
            }
            i = i + 1;
        }
        0
    }

    /// Increments the nonce of `a` and returns the new value.
    pub fn increment(&mut self, a: Address) -> (r: u64)
        requires
            old(self).wf(),
            old(self).nonce_of(a) < u64::MAX,
        ensures
            final(self).wf(),
            r == old(self).nonce_of(a) + 1,
            final(self).nonce_of(a) == r,
            forall|b: Address| b != a ==> final(self).nonce_of(b) == old(self).nonce_of(b),
    {
        let mut i: usize = 0;
        while i < self.owners.len()
            invariant
                self.wf(),
                *self == *old(self),
                old(self).nonce_of(a) < u64::MAX,
                0 <= i <= self.owners@.len(),
                forall|j: int| 0 <= j < i ==> self.owners@[j] != a,
            decreases self.owners@.len() - i,
        {
            if self.owners[i] == a {
                proof {
                    self.lemma_slot(i as int);
                }
                let next = self.values[i] + 1;
                self.values.set(i, next);
                proof {
                    self.lemma_slot(i as int);
                    assert forall|b: Address| b != a implies self.nonce_of(b) == old(self).nonce_of(b) by {
                        if self.owners@.contains(b) {
                            let j = choose|j: int| 0 <= j < self.owners@.len() && self.owners@[j] == b;
                            self.lemma_slot(j);
                            old(self).lemma_slot(j);
                        }
                    }
                }
                return next;
            }
            i = i + 1;
        }
        assert(!self.owners@.contains(a));
        self.owners.push(a);
        self.values.push(1);
        proof {
            let n = old(self).owners@.len() as int;
            assert(self.owners@.no_duplicates()) by {
                assert forall|x: int, y: int|
                    0 <= x < self.owners@.len() && 0 <= y < self.owners@.len() && x != y
                    implies self.owners@[x] != self.owners@[y] by {
                    if x == n {
                        assert(old(self).owners@.contains(self.owners@[y]) || y == n);
                    } else if y == n {
                        assert(old(self).owners@.contains(self.owners@[x]));
                    }
                }
            }
            self.lemma_slot(n);
            assert forall|b: Address| b != a implies self.nonce_of(b) == old(self).nonce_of(b) by {
                if old(self).owners@.contains(b) {
                    let j = choose|j: int| 0 <= j < old(self).owners@.len() && old(self).owners@[j] == b;
                    old(self).lemma_slot(j);
                    self.lemma_slot(j);
                } else {
                    assert(!self.owners@.contains(b)) by {
                        if self.owners@.contains(b) {
                            let k = choose|k: int| 0 <= k < self.owners@.len() && self.owners@[k] == b;
                            if k < n {
                                assert(old(self).owners@[k] == b);
                            }
                        }
                    }
                }
            }
        }
        1
    }
}

impl FluxoraStream {
    /// The invariant kept by every operation.
    pub open spec fn wf(&self) -> bool {
        &&& self.book.wf()
        &&& (self.settings.config is None ==> self.book.streams@.is_empty())
        &&& self.registry.owner_templates.wf()
        &&& forall|t: u64| #[trigger] self.registry.templates@.contains_key(t)
            ==> self.registry.templates@[t].template_id == t
        &&& self.nonces.wf()
        &&& !self.reentrancy_lock
    }

    /// The stored stream with id `id`.
    pub open spec fn stream(&self, id: u64) -> Stream {
        self.book.streams@[id]
    }

    pub open spec fn has_stream(&self, id: u64) -> bool {
        self.book.streams@.contains_key(id)
    }

    pub open spec fn globally_paused(&self) -> bool {
        self.settings.pause_state == PauseState::GlobalEmergencyPaused
    }

    /// Only the stream book and the log differ from `other`.
    pub open spec fn same_but_book(&self, other: &FluxoraStream) -> bool {
        &&& self.settings == other.settings
        &&& self.registry == other.registry
        &&& self.nonces == other.nonces
        &&& self.reentrancy_lock == other.reentrancy_lock
    }

    /// The stream map of `other` with `id` set to `s`, same index and counters.
    pub open spec fn only_stream_changed(&self, other: &FluxoraStream, id: u64, s: Stream) -> bool {
        &&& self.same_but_book(other)
        &&& self.book.streams@ == other.book.streams@.insert(id, s)
        &&& self.book.next_stream_id == other.book.next_stream_id
        &&& self.book.recipient_index == other.book.recipient_index
    }

    /// An uninitialised contract instance.
    pub fn new() -> (r: FluxoraStream)
        ensures
            r.wf(),
            r.settings.config is None,
            r.settings.pause_state == PauseState::Active,
            r.book.next_stream_id == 0,
            r.book.streams@.is_empty(),
            r.registry.templates@.is_empty(),
            r.log@.len() == 0,
    {
        let r = FluxoraStream {
            settings: Settings {
                config: None,
                pause_state: PauseState::Active,
                pause_reason: None,
                pause_timestamp: None,
                pause_admin: None,
            },
            book: StreamBook {
                next_stream_id: 0,
                streams: HashMap::new(),
                recipient_index: AddressIndex::new(),
                total_liabilities: 0,
            },
            registry: TemplateRegistry {
                next_template_id: 0,
                active_template_count: 0,
                templates: HashMap::new(),
                owner_templates: AddressIndex::new(),
            },
            nonces: NonceTable::new(),
            reentrancy_lock: false,
            log: Vec::new(),
        };
        assert forall|a: Address, id: u64| #[trigger] r.book.recipient_index.ids_of(a).contains(id)
            implies r.book.streams@.contains_key(id) && r.book.streams@[id].recipient == a by {
            assert(r.book.recipient_index.ids_of(a) == Seq::<u64>::empty());
        }
        assert forall|a: Address| strictly_sorted(#[trigger] r.book.recipient_index.ids_of(a)) by {
            assert(r.book.recipient_index.ids_of(a) == Seq::<u64>::empty());
        }
        r
    }

    /// Loads a stream by id.
    pub fn load_stream(&self, stream_id: u64) -> (r: Result<Stream, ContractError>)
        ensures
            match r {
                Ok(s) => self.has_stream(stream_id) && s == self.stream(stream_id),
                Err(e) => !self.has_stream(stream_id) && e == ContractError::StreamNotFound,
            },
    {
        match self.book.streams.get(&stream_id) {
            Some(s) => Ok(*s),
            None => Err(ContractError::StreamNotFound),
        }
    }

    /// Stores an updated version of an existing stream (same id and recipient).
    pub fn save_stream(&mut self, s: Stream)
        requires
            old(self).wf(),
            old(self).has_stream(s.stream_id),
            old(self).stream(s.stream_id).recipient == s.recipient,
            stream_wf(s),
        ensures
            final(self).wf(),
            final(self).only_stream_changed(old(self), s.stream_id, s),
            final(self).book.total_liabilities == old(self).book.total_liabilities,
            final(self).log == old(self).log,
    {
        self.book.streams.insert(s.stream_id, s);
        assert(self.book.streams@.dom() =~= old(self).book.streams@.dom());
        assert forall|id: u64| #[trigger] self.book.streams@.contains_key(id)
            implies self.book.recipient_index.ids_of(self.book.streams@[id].recipient).contains(id) by {
            assert(old(self).book.streams@.contains_key(id));
        }
    }

    /// The accrual of a stored stream, as `calculate_accrued` reports it.
    pub fn stream_accrued(s: &Stream, now: u64) -> (r: Result<i128, ContractError>)
        requires
            stream_wf(*s),
        ensures
            r matches Ok(v) && v == accrued_view(*s, now),
            0 <= accrued_view(*s, now) <= s.deposit_amount,
    {
        proof {
            let t = if s.status == StreamStatus::Cancelled { s.cancelled_at->0 } else { now };
            lemma_accrued_bounded(checkpoint_of(*s), s.rate_per_second, t);
        }
        if s.status == StreamStatus::Completed {
            return Ok(s.deposit_amount);
        }
        let at = if s.status == StreamStatus::Cancelled {
            match s.cancelled_at {
                Some(t) => t,
                None => {
                    return Err(ContractError::InvalidState);
                },
            }
        } else {
            now
        };
        Ok(
            calculate_accrued_amount_checkpointed(
                CheckpointState {
                    checkpointed_amount: s.checkpointed_amount,
                    checkpointed_at: s.checkpointed_at,
                    cliff_time: s.cliff_time,
                    end_time: s.end_time,
                    deposit_amount: s.deposit_amount,
                },
                s.rate_per_second,
                at,
            ),
        )
    }

    /// Initialises the contract with the streamed token and the admin.
    ///
    /// Fails with `AlreadyInitialised` when a configuration exists; otherwise
    /// stores it and resets the stream and template counters and liabilities.
    pub fn init(&mut self, inv: &Invocation, token: Address, admin: Address) -> (r: Result<(), ContractError>)
        requires
            old(self).wf(),
            inv.authorizes(admin),
        ensures
            final(self).wf(),
            r is Err <==> old(self).settings.config is Some,
            r matches Err(e) ==> e == ContractError::AlreadyInitialised && *final(self) == *old(self),
            r is Ok ==> {
                &&& final(self).settings.config == Some(Config { token, admin })
                &&& final(self).settings.pause_state == old(self).settings.pause_state
                &&& final(self).book.next_stream_id == 0
                &&& final(self).book.streams@ == old(self).book.streams@
                &&& final(self).book.total_liabilities == 0
                &&& final(self).registry.next_template_id == 0
                &&& final(self).registry.active_template_count == 0
                &&& final(self).registry.templates == old(self).registry.templates
                &&& final(self).log == old(self).log
            },
    {
        if self.settings.config.is_some() {
            return Err(ContractError::AlreadyInitialised);
        }
        self.settings.config = Some(Config { token, admin });
        self.book.next_stream_id = 0;
        self.registry.next_template_id = 0;
        self.registry.active_template_count = 0;
        self.book.total_liabilities = 0;
        Ok(())
    }

    /// The stored configuration.
    pub fn get_config(&self) -> (r: Result<Config, ContractError>)
        ensures
            match self.settings.config {
                Some(c) => r == Ok::<Config, ContractError>(c),
                None => r == Err::<Config, ContractError>(ContractError::InvalidState),
            },
    {
        match self.settings.config {
            Some(c) => Ok(c),
            None => Err(ContractError::InvalidState),
        }
    }

    /// Whether the global emergency pause is active.
    pub fn get_global_emergency_paused(&self) -> (r: bool)
        ensures
            r == self.globally_paused(),
    {
        self.settings.pause_state == PauseState::GlobalEmergencyPaused
    }

    /// Whether any pause (creation or emergency) is active.
    pub fn is_paused(&self) -> (r: bool)
        ensures
            r == (self.settings.pause_state != PauseState::Active),
    {
        self.settings.pause_state != PauseState::Active
    }

    /// The pause state with its audit trail (all `None` when not paused).
    pub fn get_pause_info(&self) -> (r: PauseInfo)
        ensures
            r.is_paused == (self.settings.pause_state != PauseState::Active),
            r.state == self.settings.pause_state,
            r.is_paused ==> r.reason == self.settings.pause_reason
                && r.paused_at == self.settings.pause_timestamp
                && r.paused_by == self.settings.pause_admin,
            !r.is_paused ==> r.reason is None && r.paused_at is None && r.paused_by is None,
    {
        if self.settings.pause_state != PauseState::Active {
            let reason = match &self.settings.pause_reason {
                Some(s) => Some(s.clone()),
                None => None,
            };
            PauseInfo {
                is_paused: true,
                state: self.settings.pause_state,
                reason,
                paused_at: self.settings.pause_timestamp,
                paused_by: self.settings.pause_admin,
            }
        } else {
            PauseInfo {
                is_paused: false,
                state: PauseState::Active,
                reason: None,
                paused_at: None,
                paused_by: None,
            }
        }
    }

    /// The stored stream with id `stream_id`.
    pub fn get_stream_state(&self, stream_id: u64) -> (r: Result<Stream, ContractError>)
        ensures
            match r {
                Ok(s) => self.has_stream(stream_id) && s == self.stream(stream_id),
                Err(e) => !self.has_stream(stream_id) && e == ContractError::StreamNotFound,
            },
    {
        self.load_stream(stream_id)
    }

    /// The memo stored for a stream.
    pub fn get_stream_memo(&self, stream_id: u64) -> (r: Result<Option<Vec<u8>>, ContractError>)
        requires
            self.wf(),
        ensures
            r is Err <==> !self.has_stream(stream_id),
            r matches Err(e) ==> e == ContractError::StreamNotFound,
            r matches Ok(m) ==> match self.stream(stream_id).memo {
                Some(mm) => m matches Some(v) && v@ == mm.view_bytes(),
                None => m is None,
            },
    {
        let s = self.load_stream(stream_id)?;
        match s.memo {
            Some(m) => Ok(Some(m.to_vec())),
            None => Ok(None),
        }
    }

    /// The number of streams created so far.
    pub fn get_stream_count(&self) -> (r: u64)
        ensures
            r == self.book.next_stream_id,
    {
        self.book.next_stream_id
    }

    /// The contract version.
    pub fn version(&self) -> (r: u32)
        ensures
            r == CONTRACT_VERSION,
    {
        CONTRACT_VERSION
    }

    /// The total accrued to the recipient at time `now`.
    pub fn calculate_accrued(&self, now: u64, stream_id: u64) -> (r: Result<i128, ContractError>)
        requires
            self.wf(),
        ensures
            r is Err <==> !self.has_stream(stream_id),
            r matches Err(e) ==> e == ContractError::StreamNotFound,
            r matches Ok(v) ==> v == accrued_view(self.stream(stream_id), now)
                && 0 <= v <= self.stream(stream_id).deposit_amount,
    {
        let s = self.load_stream(stream_id)?;
        Self::stream_accrued(&s, now)
    }

    /// What `withdraw` would pay at time `now` when the contract holds
    /// `contract_balance` tokens (0 for Paused or Completed streams).
    pub fn get_withdrawable(&self, now: u64, stream_id: u64, contract_balance: i128) -> (r: Result<i128, ContractError>)
        requires
            self.wf(),
        ensures
            r is Err <==> !self.has_stream(stream_id),
            r matches Err(e) ==> e == ContractError::StreamNotFound,
            r matches Ok(v) ==> v == withdrawable_view(self.stream(stream_id), now, contract_balance),
            r matches Ok(v) ==> 0 <= v <= self.stream(stream_id).deposit_amount,
    {
        let s = self.load_stream(stream_id)?;
        if s.status == StreamStatus::Completed || s.status == StreamStatus::Paused {
            return Ok(0);
        }
        let accrued = Self::stream_accrued(&s, now)?;
        let mut w = accrued - s.withdrawn_amount;
        if contract_balance < w {
            w = contract_balance;
        }
        if self.settings.config.is_none() {
            return Err(ContractError::InvalidState);
        }
        if w <= 0 {
            return Ok(0);
        }
        let terminal = s.status == StreamStatus::Cancelled || now >= s.end_time;
        if w < s.withdraw_dust_threshold && !terminal && s.withdrawn_amount + w < s.deposit_amount {
            return Ok(0);
        }
        Ok(w)
    }

    /// What the recipient could claim at an arbitrary `timestamp`
    /// (accrual frozen at cancellation; 0 for Completed streams).
    pub fn get_claimable_at(&self, stream_id: u64, timestamp: u64) -> (r: Result<i128, ContractError>)
        requires
            self.wf(),
        ensures
            r is Err <==> !self.has_stream(stream_id),
            r matches Err(e) ==> e == ContractError::StreamNotFound,
            r matches Ok(v) ==> v == claimable_view(self.stream(stream_id), timestamp),
    {
        let s = self.load_stream(stream_id)?;
        if s.status == StreamStatus::Completed {
            return Ok(0);
        }
        let effective = if s.status == StreamStatus::Cancelled {
            match s.cancelled_at {
                Some(at) => if timestamp < at { timestamp } else { at },
                None => {
                    return Err(ContractError::InvalidState);
                },
            }
        } else {
            timestamp
        };
        let accrued = calculate_accrued_amount_checkpointed(
            CheckpointState {
                checkpointed_amount: s.checkpointed_amount,
                checkpointed_at: s.checkpointed_at,
                cliff_time: s.cliff_time,
                end_time: s.end_time,
                deposit_amount: s.deposit_amount,
            },
            s.rate_per_second,
            effective,
        );
        proof {
            lemma_accrued_bounded(checkpoint_of(s), s.rate_per_second, effective);
        }
        let claimable = accrued - s.withdrawn_amount;
        Ok(if claimable > 0 { claimable } else { 0 })
    }

    /// Stream ids of `recipient`, ascending.
    pub fn get_recipient_streams(&self, recipient: Address) -> (r: Vec<u64>)
        requires
            self.wf(),
        ensures
            r@ == self.book.recipient_ids(recipient),
            strictly_sorted(r@),
            forall|id: u64| r@.contains(id) <==> (self.has_stream(id) && self.stream(id).recipient == recipient),
    {
        let r = self.book.recipient_index.get(recipient);
        assert(strictly_sorted(self.book.recipient_index.ids_of(recipient)));
        r
    }

    /// The number of streams of `recipient`.
    pub fn get_recipient_stream_count(&self, recipient: Address) -> (r: u64)
        requires
            self.wf(),
            self.book.recipient_ids(recipient).len() <= u64::MAX,
        ensures
            r == self.book.recipient_ids(recipient).len(),
    {
        self.book.recipient_index.count(recipient) as u64
    }

    /// Up to `min(limit, MAX_PAGE_SIZE)` of `recipient`'s stream ids, starting
    /// at position `cursor` of the ascending list.
    pub fn get_recipient_streams_paginated(&self, recipient: Address, cursor: u64, limit: u64) -> (r: Vec<u64>)
        requires
            self.wf(),
        ensures
            r@ == page_of(self.book.recipient_ids(recipient), cursor as int, limit as int),
    {
        let page_size: u64 = if limit < MAX_PAGE_SIZE { limit } else { MAX_PAGE_SIZE };
        let all = self.book.recipient_index.get(recipient);
        let total = all.len() as u64;
        if cursor >= total || page_size == 0 {
            return Vec::new();
        }
        let start = cursor as usize;
        let available = all.len() - start;
        let take: usize = if (page_size as usize) < available { page_size as usize } else { available };
        let mut result: Vec<u64> = Vec::new();
        let mut i: usize = 0;
        while i < take
            invariant
                0 <= i <= take,
                start + take <= all@.len(),
                all@.len() <= usize::MAX,
                result@ == all@.subrange(start as int, start + i),
            decreases take - i,
        {
            result.push(all[start + i]);
            i = i + 1;
        }
        result
    }

    /// Streams with ids in `start_id..=min(end_id, stream count)`, ascending,
    /// skipping missing ids, at most `min(limit, MAX_PAGE_SIZE)` of them.
    pub fn get_streams_by_id_range(&self, start_id: u64, end_id: u64, limit: u64) -> (r: Vec<Stream>)
        requires
            self.wf(),
        ensures
            r@.len() <= MAX_PAGE_SIZE,
            r@.len() <= limit,
            forall|i: int| 0 <= i < r@.len() ==> {
                &&& self.has_stream(#[trigger] r@[i].stream_id)
                &&& r@[i] == self.stream(r@[i].stream_id)
                &&& start_id <= r@[i].stream_id <= end_id
            },
            forall|i: int, j: int| 0 <= i < j < r@.len() ==> r@[i].stream_id < r@[j].stream_id,
            r@.len() < (if limit < MAX_PAGE_SIZE { limit } else { MAX_PAGE_SIZE }) ==>
                forall|id: u64| start_id <= id <= end_id && #[trigger] self.has_stream(id) ==>
                    exists|i: int| 0 <= i < r@.len() && r@[i].stream_id == id,
            r@.len() > 0 ==> forall|id: u64| start_id <= id <= r@[r@.len() - 1].stream_id
                && #[trigger] self.has_stream(id) ==> exists|i: int| 0 <= i < r@.len() && r@[i].stream_id == id,
    {
        let page_size: u64 = if limit < MAX_PAGE_SIZE { limit } else { MAX_PAGE_SIZE };
        let mut result: Vec<Stream> = Vec::new();
        if start_id > end_id || page_size == 0 {
            return result;
        }
        let total = self.book.next_stream_id;
        let effective_end = if end_id < total { end_id } else { total };
        if start_id > effective_end {
            return result;
        }
        let mut current = start_id;
        let mut done = false;
        while !done && (result.len() as u64) < page_size
            invariant
                self.wf(),
                start_id <= current <= effective_end,
                effective_end <= end_id,
                effective_end <= total,
                total == self.book.next_stream_id,
                result@.len() <= page_size,
                page_size <= MAX_PAGE_SIZE,
                page_size <= limit,
                forall|i: int| 0 <= i < result@.len() ==> {
                    &&& self.has_stream(#[trigger] result@[i].stream_id)
                    &&& result@[i] == self.stream(result@[i].stream_id)
                    &&& start_id <= result@[i].stream_id
                    &&& (if done { result@[i].stream_id <= current } else { result@[i].stream_id < current })
                },
                forall|i: int, j: int| 0 <= i < j < result@.len() ==> result@[i].stream_id < result@[j].stream_id,
                forall|id: u64| start_id <= id && (if done { id <= current } else { id < current })
                    && #[trigger] self.has_stream(id) ==>
                    exists|i: int| 0 <= i < result@.len() && result@[i].stream_id == id,
                done ==> current == effective_end,
            decreases effective_end - current + (if done { 0int } else { 1int }),
        {
            let ghost prev = result@;
            match self.load_stream(current) {
                Ok(s) => {
                    result.push(s);
                },
                Err(_) => {},
            }
            proof {
                assert forall|id: u64| start_id <= id <= current && #[trigger] self.has_stream(id) implies
                    exists|i: int| 0 <= i < result@.len() && result@[i].stream_id == id by {
                    if id == current {
                        assert(result@[prev.len() as int].stream_id == id);
                    } else {
                        let i = choose|i: int| 0 <= i < prev.len() && prev[i].stream_id == id;
                        assert(result@[i] == prev[i]);
                    }
                }
            }
            if current == effective_end {
                done = true;
            } else {
                current = current + 1;
            }
        }
        proof {
            if result@.len() > 0 {
                let last = result@[result@.len() - 1].stream_id;
                assert forall|id: u64| start_id <= id <= last && #[trigger] self.has_stream(id) implies
                    exists|i: int| 0 <= i < result@.len() && result@[i].stream_id == id by {
                    assert(if done { id <= current } else { id < current });
                }
            }
            if result@.len() < page_size {
                assert(done);
                assert forall|id: u64| start_id <= id <= end_id && #[trigger] self.has_stream(id) implies
                    exists|i: int| 0 <= i < result@.len() && result@[i].stream_id == id by {
                    assert(id < total);
                }
            }
        }
        result
    }

    /// The current delegated-withdraw nonce of `recipient`.
    pub fn get_withdraw_nonce(&self, recipient: Address) -> (r: u64)
        requires
            self.wf(),
        ensures
            r == self.nonces.nonce_of(recipient),
    {
        self.nonces.read(recipient)
    }

    /// The template with id `template_id`.
    pub fn get_stream_template(&self, template_id: u64) -> (r: Result<StreamScheduleTemplate, ContractError>)
        ensures
            match r {
                Ok(t) => self.registry.templates@.contains_key(template_id)
                    && t == self.registry.templates@[template_id],
                Err(e) => !self.registry.templates@.contains_key(template_id)
                    && e == ContractError::TemplateNotFound,
            },
    {
        match self.registry.templates.get(&template_id) {
            Some(t) => Ok(*t),
            None => Err(ContractError::TemplateNotFound),
        }
    }
}

/// `withdrawable` for views: 0 when Paused or Completed, otherwise exactly
/// what a withdrawal at `now` would pay ([`crate::stream_withdraw::withdraw_amount`]):
/// accrued minus withdrawn, capped by the contract balance, 0 when not
/// positive or held back by the dust threshold.
pub open spec fn withdrawable_view(s: Stream, now: u64, contract_balance: i128) -> int {
    if s.status == StreamStatus::Completed || s.status == StreamStatus::Paused {
        0
    } else {
        crate::stream_withdraw::withdraw_amount(s, now, contract_balance)
    }
}

/// What is claimable at `timestamp`: 0 for Completed streams, otherwise
/// accrual at `timestamp` (no later than the cancellation) minus withdrawals,
/// floored at 0.
pub open spec fn claimable_view(s: Stream, timestamp: u64) -> int {
    if s.status == StreamStatus::Completed {
        0
    } else {
        let t = if s.status == StreamStatus::Cancelled && s.cancelled_at->0 <= timestamp {
            s.cancelled_at->0
        } else {
            timestamp
        };
        let c = accrued_at(checkpoint_of(s), s.rate_per_second, t) - s.withdrawn_amount;
        if c > 0 { c } else { 0 }
    }
}

/// The page of `all` starting at `cursor` holding at most
/// `min(limit, MAX_PAGE_SIZE)` elements.
pub open spec fn page_of(all: Seq<u64>, cursor: int, limit: int) -> Seq<u64> {
    let size = if limit < MAX_PAGE_SIZE { limit } else { MAX_PAGE_SIZE as int };
    if cursor >= all.len() || size == 0 {
        Seq::empty()
    } else {
        let end = if cursor + size < all.len() { cursor + size } else { all.len() as int };
        all.subrange(cursor, end)
    }
}

} // verus!
