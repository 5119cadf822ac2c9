//! The stream factory: a policy layer (allowlist, deposit cap, minimum
//! duration, rate bounds, pause) in front of the streaming contract, with a
//! registry of the streams it created.
use vstd::prelude::*;
use crate::address::{Address, contains_address};
use crate::stream_types::{ContractError, Invocation};

verus! {

/// Maximum page size of [`FluxoraFactory::get_factory_streams_paginated`].
pub const MAX_PAGE_SIZE: u32 = 100;

/// Upper bound for the minimum stream duration: 100 years of 365 days.
pub const MAX_MIN_DURATION_SECONDS: u64 = 100 * 365 * 24 * 60 * 60;

/// Errors returned by the factory. [`FactoryError::code`] gives each its
/// stable numeric code.
#[derive(Clone, Copy, Debug, PartialEq, Eq, Structural)]
pub enum FactoryError {
    AlreadyInitialized,
    NotInitialized,
    Unauthorized,
    RecipientNotAllowlisted,
    DepositExceedsCap,
    DurationTooShort,
    InvalidTimeRange,
    InvalidCliff,
    CreationPaused,
    StreamContractPaused,
    StreamContractError,
    RateBelowMin,
    RateAboveMax,
    InvalidCap,
    InvalidMinDuration,
}

impl FactoryError {
    /// The stable numeric code of each error, as published by the contract.
    pub open spec fn numeric_code(&self) -> u32 {
        match self {
            FactoryError::AlreadyInitialized => 1,
            FactoryError::NotInitialized => 2,
            FactoryError::Unauthorized => 3,
            FactoryError::RecipientNotAllowlisted => 4,
            FactoryError::DepositExceedsCap => 5,
            FactoryError::DurationTooShort => 6,
            FactoryError::InvalidTimeRange => 7,
            FactoryError::InvalidCliff => 8,
            FactoryError::CreationPaused => 9,
            FactoryError::StreamContractPaused => 10,
            FactoryError::StreamContractError => 11,
            FactoryError::RateBelowMin => 12,
            FactoryError::RateAboveMax => 13,
            FactoryError::InvalidCap => 14,
            FactoryError::InvalidMinDuration => 15,
        }
    }

    /// The stable numeric code of the error.
    pub fn code(&self) -> (r: u32)
        ensures
            r == self.numeric_code(),
    {
        match self {
            FactoryError::AlreadyInitialized => 1,
            FactoryError::NotInitialized => 2,
            FactoryError::Unauthorized => 3,
            FactoryError::RecipientNotAllowlisted => 4,
            FactoryError::DepositExceedsCap => 5,
            FactoryError::DurationTooShort => 6,
            FactoryError::InvalidTimeRange => 7,
            FactoryError::InvalidCliff => 8,
            FactoryError::CreationPaused => 9,
            FactoryError::StreamContractPaused => 10,
            FactoryError::StreamContractError => 11,
            FactoryError::RateBelowMin => 12,
            FactoryError::RateAboveMax => 13,
            FactoryError::InvalidCap => 14,
            FactoryError::InvalidMinDuration => 15,
        }
    }
}

/// The factory's configuration.
#[derive(Clone, Copy, Debug, PartialEq, Eq, Structural)]
pub struct FactoryConfig {
    pub admin: Address,
    pub stream_contract: Address,
    pub max_deposit: i128,
    pub min_duration: u64,
}

/// Events published by the factory, under the topics `("factory", "paused")`
/// and `("factory", "resumed")` with the pause flag as data.
#[derive(Clone, Copy, Debug, PartialEq, Eq, Structural)]
pub enum FactoryEvent {
    Paused,
    Resumed,
}

/// The creation the factory asks of the streaming contract: its
/// `create_stream` called on `stream_contract` with these arguments and no
/// memo.
#[derive(Clone, Copy, Debug, PartialEq, Eq, Structural)]
pub struct CreateRequest {
    pub stream_contract: Address,
    pub sender: Address,
    pub recipient: Address,
    pub deposit_amount: i128,
    pub rate_per_second: i128,
    pub start_time: u64,
    pub cliff_time: u64,
    pub end_time: u64,
    pub withdraw_dust_threshold: i128,
}

/// The state of one factory instance.
pub struct FluxoraFactory {
    pub config: Option<FactoryConfig>,
    /// Recipients that may receive streams created through the factory.
    pub allowlist: Vec<Address>,
    /// Ids of the streams created through the factory, in creation order.
    pub stream_ids: Vec<u64>,
    pub creation_paused: bool,
    /// Inclusive lower bound of the rate, when set.
    pub min_rate: Option<i128>,
    /// Inclusive upper bound of the rate, when set.
    pub max_rate: Option<i128>,
    /// Events published so far, oldest first.
    pub events: Vec<FactoryEvent>,
}

/// What the streaming contract answered to a creation request: the new
/// stream's id, or its error (`None` when it is not a recognised contract
/// error).
pub type DownstreamResult = Result<u64, Option<ContractError>>;

/// Checks a deposit cap: `InvalidCap` unless positive.
pub fn validate_cap(max_deposit: i128) -> (r: Result<(), FactoryError>)
    ensures
        r is Ok <==> max_deposit > 0,
        r matches Err(e) ==> e == FactoryError::InvalidCap,
{
    if max_deposit <= 0 {
        return Err(FactoryError::InvalidCap);
    }
    Ok(())
}

/// Checks a minimum duration: `InvalidMinDuration` above
/// [`MAX_MIN_DURATION_SECONDS`].
pub fn validate_min_duration(min_duration: u64) -> (r: Result<(), FactoryError>)
    ensures
        r is Ok <==> min_duration <= MAX_MIN_DURATION_SECONDS,
        r matches Err(e) ==> e == FactoryError::InvalidMinDuration,
{
    if min_duration > MAX_MIN_DURATION_SECONDS {
        return Err(FactoryError::InvalidMinDuration);
    }
    Ok(())
}

/// Why the factory refuses a creation request before calling the streaming
/// contract, checked in this order: paused, not initialised, recipient not
/// allowlisted, deposit above the cap, empty schedule, cliff outside the
/// schedule, duration below the minimum, rate outside the bounds.
pub open spec fn policy_error(
    f: FluxoraFactory,
    recipient: Address,
    deposit_amount: i128,
    rate_per_second: i128,
    start_time: u64,
    cliff_time: u64,
    end_time: u64,
) -> Option<FactoryError> {
    if f.creation_paused {
        Some(FactoryError::CreationPaused)
    } else if f.config is None {
        Some(FactoryError::NotInitialized)
    } else if !f.allowlist@.contains(recipient) {
        Some(FactoryError::RecipientNotAllowlisted)
    } else if deposit_amount > f.config->0.max_deposit {
        Some(FactoryError::DepositExceedsCap)
    } else if start_time >= end_time {
        Some(FactoryError::InvalidTimeRange)
    } else if cliff_time < start_time || cliff_time > end_time {
        Some(FactoryError::InvalidCliff)
    } else if end_time - start_time < f.config->0.min_duration {
        Some(FactoryError::DurationTooShort)
    } else if f.min_rate matches Some(m) && rate_per_second < m {
        Some(FactoryError::RateBelowMin)
    } else if f.max_rate matches Some(m) && rate_per_second > m {
        Some(FactoryError::RateAboveMax)
    } else {
        None
    }
}

/// On an initialised, unpaused factory without rate bounds, a request on a
/// valid schedule (cliff at the start) is refused first for a recipient off
/// the allowlist, then for a deposit above the cap, then for a duration
/// below the minimum, and passes the policy otherwise.
pub proof fn law_factory_policy_order(
    f: FluxoraFactory,
    recipient: Address,
    deposit_amount: i128,
    rate_per_second: i128,
    start_time: u64,
    end_time: u64,
)
    requires
        f.config is Some,
        !f.creation_paused,
        f.min_rate is None,
        f.max_rate is None,
        start_time < end_time,
    ensures
        policy_error(f, recipient, deposit_amount, rate_per_second, start_time, start_time, end_time) == (if !f.allowlist@.contains(recipient) {
            Some(FactoryError::RecipientNotAllowlisted)
        } else if deposit_amount > f.config->0.max_deposit {
            Some(FactoryError::DepositExceedsCap)
        } else if end_time - start_time < f.config->0.min_duration {
            Some(FactoryError::DurationTooShort)
        } else {
            None
        }),
{
}

/// Both rate bounds hold on their own: a request that passes the policy has
/// a rate within every bound that is set, whether or not the other bound is
/// set; and a rate above a set maximum (or below a set minimum) on a request
/// that passes every earlier guard is refused for that bound.
pub proof fn law_rate_bounds_independent(
    f: FluxoraFactory,
    recipient: Address,
    deposit_amount: i128,
    rate_per_second: i128,
    start_time: u64,
    cliff_time: u64,
    end_time: u64,
)
    ensures
        policy_error(f, recipient, deposit_amount, rate_per_second, start_time, cliff_time, end_time) is None ==> {
            &&& (f.max_rate matches Some(m) ==> rate_per_second <= m)
            &&& (f.min_rate matches Some(m) ==> rate_per_second >= m)
        },
        ({
            let earlier_ok = !f.creation_paused && f.config is Some && f.allowlist@.contains(recipient)
                && deposit_amount <= f.config->0.max_deposit && start_time < end_time && start_time <= cliff_time
                && cliff_time <= end_time && end_time - start_time >= f.config->0.min_duration;
            &&& (earlier_ok && (f.min_rate is Some ==> rate_per_second >= f.min_rate->0) && f.max_rate is Some
                && rate_per_second > f.max_rate->0 ==> policy_error(f, recipient, deposit_amount, rate_per_second,
                start_time, cliff_time, end_time) == Some(FactoryError::RateAboveMax))
            &&& (earlier_ok && f.min_rate is Some && rate_per_second < f.min_rate->0 ==> policy_error(f, recipient,
                deposit_amount, rate_per_second, start_time, cliff_time, end_time) == Some(FactoryError::RateBelowMin))
        }),
{
}

/// The factory error a failed downstream creation maps to.
pub open spec fn downstream_error(e: Option<ContractError>) -> FactoryError {
    if e == Some(ContractError::ContractPaused) {
        FactoryError::StreamContractPaused
    } else {
        FactoryError::StreamContractError
    }
}

/// Why `set_rate_bounds` fails, if it does: a negative bound, or a lower
/// bound above the upper bound once both updates are applied.
pub open spec fn rate_bounds_error(f: FluxoraFactory, min_rate: Option<i128>, max_rate: Option<i128>) -> Option<FactoryError> {
    let new_min = if min_rate is Some { min_rate } else { f.min_rate };
    let new_max = if max_rate is Some { max_rate } else { f.max_rate };
    if min_rate matches Some(m) && m < 0 {
        Some(FactoryError::StreamContractError)
    } else if max_rate matches Some(m) && m < 0 {
        Some(FactoryError::StreamContractError)
    } else if new_min is Some && new_max is Some && new_min->0 > new_max->0 {
        Some(FactoryError::StreamContractError)
    } else {
        None
    }
}

/// The page of `ids` starting at `start` with at most
/// `min(limit, MAX_PAGE_SIZE)` elements.
pub open spec fn factory_page(ids: Seq<u64>, start: int, limit: int) -> Seq<u64> {
    if start >= ids.len() {
        Seq::empty()
    } else {
        let size = if limit < MAX_PAGE_SIZE { limit } else { MAX_PAGE_SIZE as int };
        let end = if start + size < ids.len() { start + size } else { ids.len() as int };
        ids.subrange(start, end)
    }
}

impl FluxoraFactory {
    /// The invariant kept by every operation: no recipient is listed twice,
    /// and an uninitialised factory is not paused.
    pub open spec fn wf(&self) -> bool {
        &&& self.allowlist@.no_duplicates()
        &&& (self.config is None ==> !self.creation_paused)
    }

    /// Only the configuration differs between `self` and `other`.
    pub open spec fn same_but_config(&self, other: &FluxoraFactory) -> bool {
        &&& self.allowlist == other.allowlist
        &&& self.stream_ids == other.stream_ids
        &&& self.creation_paused == other.creation_paused
        &&& self.min_rate == other.min_rate
        &&& self.max_rate == other.max_rate
        &&& self.events == other.events
    }

    /// An uninitialised factory.
    pub fn new() -> (r: FluxoraFactory)
        ensures
            r.wf(),
            r.config is None,
            r.allowlist@.len() == 0,
            r.stream_ids@.len() == 0,
            !r.creation_paused,
            r.min_rate is None,
            r.max_rate is None,
            r.events@.len() == 0,
    {
        FluxoraFactory {
            config: None,
            allowlist: Vec::new(),
            stream_ids: Vec::new(),
            creation_paused: false,
            min_rate: None,
            max_rate: None,
            events: Vec::new(),
        }
    }

    /// The admin, whose authorization the calling operation requires;
    /// `NotInitialized` before initialisation.
    fn require_admin(&self, inv: &Invocation) -> (r: Result<Address, FactoryError>)
        requires
            self.config matches Some(c) ==> inv.authorizes(c.admin),
        ensures
            match self.config {
                Some(c) => r == Ok::<Address, FactoryError>(c.admin),
                None => r == Err::<Address, FactoryError>(FactoryError::NotInitialized),
            },
    {
        match self.config {
            Some(c) => Ok(c.admin),
            None => Err(FactoryError::NotInitialized),
        }
    }

    /// Initialises the factory: `AlreadyInitialized` when done before, then
    /// `InvalidCap` and `InvalidMinDuration` for invalid policy values.
    pub fn init(&mut self, admin: Address, stream_contract: Address, max_deposit: i128, min_duration: u64) -> (r: Result<
        (),
        FactoryError,
    >)
        requires
            old(self).wf(),
        ensures
            final(self).wf(),
            old(self).config is Some ==> r == Err::<(), FactoryError>(FactoryError::AlreadyInitialized),
            old(self).config is None && max_deposit <= 0 ==> r == Err::<(), FactoryError>(FactoryError::InvalidCap),
            old(self).config is None && max_deposit > 0 && min_duration > MAX_MIN_DURATION_SECONDS
                ==> r == Err::<(), FactoryError>(FactoryError::InvalidMinDuration),
            old(self).config is None && max_deposit > 0 && min_duration <= MAX_MIN_DURATION_SECONDS ==> r is Ok,
            r is Err ==> *final(self) == *old(self),
            r is Ok ==> final(self).config == Some(FactoryConfig { admin, stream_contract, max_deposit, min_duration })
                && final(self).same_but_config(old(self)) && !final(self).creation_paused,
    {
        if self.config.is_some() {
            return Err(FactoryError::AlreadyInitialized);
        }
        validate_cap(max_deposit)?;
        validate_min_duration(min_duration)?;
        self.config = Some(FactoryConfig { admin, stream_contract, max_deposit, min_duration });
        Ok(())
    }

    /// Replaces the admin (admin only).
    pub fn set_admin(&mut self, inv: &Invocation, new_admin: Address) -> (r: Result<(), FactoryError>)
        requires
            old(self).wf(),
            old(self).config matches Some(c) ==> inv.authorizes(c.admin),
        ensures
            final(self).wf(),
            match old(self).config {
                None => r == Err::<(), FactoryError>(FactoryError::NotInitialized) && *final(self) == *old(self),
                Some(c) => r is Ok && final(self).config == Some(FactoryConfig { admin: new_admin, ..c })
                    && final(self).same_but_config(old(self)),
            },
    {
        self.require_admin(inv)?;
        let c = self.config.unwrap();
        self.config = Some(FactoryConfig { admin: new_admin, ..c });
        Ok(())
    }

    /// Replaces the address of the streaming contract (admin only).
    pub fn set_stream_contract(&mut self, inv: &Invocation, new_stream_contract: Address) -> (r: Result<(), FactoryError>)
        requires
            old(self).wf(),
            old(self).config matches Some(c) ==> inv.authorizes(c.admin),
        ensures
            final(self).wf(),
            match old(self).config {
                None => r == Err::<(), FactoryError>(FactoryError::NotInitialized) && *final(self) == *old(self),
                Some(c) => r is Ok && final(self).config == Some(FactoryConfig { stream_contract: new_stream_contract, ..c })
                    && final(self).same_but_config(old(self)),
            },
    {
        self.require_admin(inv)?;
        let c = self.config.unwrap();
        self.config = Some(FactoryConfig { stream_contract: new_stream_contract, ..c });
        Ok(())
    }

    /// Adds `recipient` to (`allowed`) or removes it from the allowlist
    /// (admin only); adding a listed or removing an unlisted one changes
    /// nothing.
    pub fn set_allowlist(&mut self, inv: &Invocation, recipient: Address, allowed: bool) -> (r: Result<(), FactoryError>)
        requires
            old(self).wf(),
            old(self).config matches Some(c) ==> inv.authorizes(c.admin),
        ensures
            final(self).wf(),
            old(self).config is None ==> r == Err::<(), FactoryError>(FactoryError::NotInitialized)
                && *final(self) == *old(self),
            old(self).config is Some ==> {
                &&& r is Ok
                &&& final(self).config == old(self).config
                &&& final(self).stream_ids == old(self).stream_ids
                &&& final(self).creation_paused == old(self).creation_paused
                &&& final(self).min_rate == old(self).min_rate
                &&& final(self).max_rate == old(self).max_rate
                &&& final(self).events == old(self).events
                &&& forall|a: Address| #[trigger] final(self).allowlist@.contains(a) <==> (if a == recipient {
                    allowed
                } else {
                    old(self).allowlist@.contains(a)
                })
            },
    {
        self.require_admin(inv)?;
        let present = contains_address(&self.allowlist, recipient);
        if allowed {
            if !present {
                self.allowlist.push(recipient);
                proof {
                    let v = self.allowlist@;
                    let n = old(self).allowlist@.len() as int;
                    assert forall|x: int, y: int| 0 <= x < v.len() && 0 <= y < v.len() && x != y implies v[x] != v[y] by {
                        if x == n {
                            assert(old(self).allowlist@[y] == v[y]);
                        } else if y == n {
                            assert(old(self).allowlist@[x] == v[x]);
                        }
                    }
                    assert forall|a: Address| #[trigger] v.contains(a) <==> (a == recipient || old(self).allowlist@.contains(a)) by {
                        if v.contains(a) && a != recipient {
                            let k = choose|k: int| 0 <= k < v.len() && v[k] == a;
                            assert(old(self).allowlist@[k] == a);
                        }
                        if old(self).allowlist@.contains(a) {
                            let k = choose|k: int| 0 <= k < n && old(self).allowlist@[k] == a;
                            assert(v[k] == a);
                        }
                        if a == recipient {
                            assert(v[n] == a);
                        }
                    }
                }
            }
        } else {
            let mut i: usize = 0;
            while i < self.allowlist.len()
                invariant
                    *self == *old(self),
                    old(self).wf(),
                    old(self).config is Some,
                    !allowed,
                    0 <= i <= self.allowlist@.len(),
                    forall|j: int| 0 <= j < i ==> self.allowlist@[j] != recipient,
                decreases self.allowlist@.len() - i,
            {
                if self.allowlist[i] == recipient {
                    let ghost before = self.allowlist@;
                    self.allowlist.remove(i);
                    proof {
                        let v = self.allowlist@;
                        assert(v =~= before.remove(i as int));
                        assert forall|x: int, y: int| 0 <= x < v.len() && 0 <= y < v.len() && x != y implies v[x] != v[y] by {
                            let xo = if x < i { x } else { x + 1 };
                            let yo = if y < i { y } else { y + 1 };
                            assert(v[x] == before[xo] && v[y] == before[yo]);
                        }
                        assert forall|a: Address| #[trigger] v.contains(a) <==> (a != recipient && before.contains(a)) by {
                            if v.contains(a) {
                                let k = choose|k: int| 0 <= k < v.len() && v[k] == a;
                                let ko = if k < i { k } else { k + 1 };
                                assert(before[ko] == a);
                                assert(ko != i as int);
                            }
                            if a != recipient && before.contains(a) {
                                let k = choose|k: int| 0 <= k < before.len() && before[k] == a;
                                assert(k != i as int);
                                if k < i {
                                    assert(v[k] == a);
                                } else {
                                    assert(v[k - 1] == a);
                                }
                            }
                        }
                    }
                    return Ok(());
                }
                i = i + 1;
            }
            assert(!self.allowlist@.contains(recipient));
        }
        Ok(())
    }

    /// Sets the deposit cap (admin only; `InvalidCap` unless positive).
    pub fn set_cap(&mut self, inv: &Invocation, max_deposit: i128) -> (r: Result<(), FactoryError>)
        requires
            old(self).wf(),
            old(self).config matches Some(c) ==> inv.authorizes(c.admin),
        ensures
            final(self).wf(),
            old(self).config is None ==> r == Err::<(), FactoryError>(FactoryError::NotInitialized),
            old(self).config is Some && max_deposit <= 0 ==> r == Err::<(), FactoryError>(FactoryError::InvalidCap),
            old(self).config is Some && max_deposit > 0 ==> r is Ok,
            r is Err ==> *final(self) == *old(self),
            r is Ok ==> old(self).config is Some && max_deposit > 0
                && final(self).config == Some(FactoryConfig { max_deposit, ..old(self).config->0 })
                && final(self).same_but_config(old(self)),
    {
        self.require_admin(inv)?;
        validate_cap(max_deposit)?;
        let c = self.config.unwrap();
        self.config = Some(FactoryConfig { max_deposit, ..c });
        Ok(())
    }

    /// Sets the minimum duration (admin only; `InvalidMinDuration` above
    /// [`MAX_MIN_DURATION_SECONDS`]).
    pub fn set_min_duration(&mut self, inv: &Invocation, min_duration: u64) -> (r: Result<(), FactoryError>)
        requires
            old(self).wf(),
            old(self).config matches Some(c) ==> inv.authorizes(c.admin),
        ensures
            final(self).wf(),
            old(self).config is None ==> r == Err::<(), FactoryError>(FactoryError::NotInitialized),
            old(self).config is Some && min_duration > MAX_MIN_DURATION_SECONDS
                ==> r == Err::<(), FactoryError>(FactoryError::InvalidMinDuration),
            old(self).config is Some && min_duration <= MAX_MIN_DURATION_SECONDS ==> r is Ok,
            r is Err ==> *final(self) == *old(self),
            r is Ok ==> old(self).config is Some && min_duration <= MAX_MIN_DURATION_SECONDS
                && final(self).config == Some(FactoryConfig { min_duration, ..old(self).config->0 })
                && final(self).same_but_config(old(self)),
    {
        self.require_admin(inv)?;
        validate_min_duration(min_duration)?;
        let c = self.config.unwrap();
        self.config = Some(FactoryConfig { min_duration, ..c });
        Ok(())
    }

    /// Updates the rate bounds (admin only); a bound given as `None` is left
    /// as it is. Fails with `StreamContractError`, changing nothing, for a
    /// negative bound or when the lower bound would exceed the upper one.
    pub fn set_rate_bounds(&mut self, inv: &Invocation, min_rate: Option<i128>, max_rate: Option<i128>) -> (r: Result<
        (),
        FactoryError,
    >)
        requires
            old(self).wf(),
            old(self).config matches Some(c) ==> inv.authorizes(c.admin),
        ensures
            final(self).wf(),
            old(self).config is None ==> r == Err::<(), FactoryError>(FactoryError::NotInitialized),
            old(self).config is Some ==> match rate_bounds_error(*old(self), min_rate, max_rate) {
                Some(e) => r == Err::<(), FactoryError>(e),
                None => r is Ok,
            },
            r is Err ==> *final(self) == *old(self),
            r is Ok ==> {
                &&& final(self).min_rate == (if min_rate is Some { min_rate } else { old(self).min_rate })
                &&& final(self).max_rate == (if max_rate is Some { max_rate } else { old(self).max_rate })
                &&& final(self).config == old(self).config
                &&& final(self).allowlist == old(self).allowlist
                &&& final(self).stream_ids == old(self).stream_ids
                &&& final(self).creation_paused == old(self).creation_paused
                &&& final(self).events == old(self).events
            },
    {
        self.require_admin(inv)?;
        let mut new_min = self.min_rate;
        let mut new_max = self.max_rate;
        match min_rate {
            Some(v) => {
                if v < 0 {
                    return Err(FactoryError::StreamContractError);
                }
                new_min = Some(v);
            },
            None => {},
        }
        match max_rate {
            Some(v) => {
                if v < 0 {
                    return Err(FactoryError::StreamContractError);
                }
                new_max = Some(v);
            },
            None => {},
        }
        match (new_min, new_max) {
            (Some(mn), Some(mx)) => {
                if mn > mx {
                    return Err(FactoryError::StreamContractError);
                }
            },
            _ => {},
        }
        self.min_rate = new_min;
        self.max_rate = new_max;
        Ok(())
    }

    /// Sets or clears the creation pause (admin only) and publishes
    /// `Paused` or `Resumed`.
    pub fn set_factory_paused(&mut self, inv: &Invocation, paused: bool) -> (r: Result<(), FactoryError>)
        requires
            old(self).wf(),
            old(self).config matches Some(c) ==> inv.authorizes(c.admin),
        ensures
            final(self).wf(),
            old(self).config is None ==> r == Err::<(), FactoryError>(FactoryError::NotInitialized)
                && *final(self) == *old(self),
            old(self).config is Some ==> {
                &&& r is Ok
                &&& final(self).creation_paused == paused
                &&& final(self).events@ == old(self).events@.push(
                    if paused { FactoryEvent::Paused } else { FactoryEvent::Resumed },
                )
                &&& final(self).config == old(self).config
                &&& final(self).allowlist == old(self).allowlist
                &&& final(self).stream_ids == old(self).stream_ids
                &&& final(self).min_rate == old(self).min_rate
                &&& final(self).max_rate == old(self).max_rate
            },
    {
        self.require_admin(inv)?;
        self.creation_paused = paused;
        if paused {
            self.events.push(FactoryEvent::Paused);
        } else {
            self.events.push(FactoryEvent::Resumed);
        }
        Ok(())
    }

    /// Whether creation through the factory is paused.
    pub fn is_factory_paused(&self) -> (r: bool)
        ensures
            r == self.creation_paused,
    {
        self.creation_paused
    }

    /// The configuration; `NotInitialized` before initialisation.
    pub fn get_factory_config(&self) -> (r: Result<FactoryConfig, FactoryError>)
        ensures
            match self.config {
                Some(c) => r == Ok::<FactoryConfig, FactoryError>(c),
                None => r == Err::<FactoryConfig, FactoryError>(FactoryError::NotInitialized),
            },
    {
        match self.config {
            Some(c) => Ok(c),
            None => Err(FactoryError::NotInitialized),
        }
    }

    /// Whether `recipient` is allowlisted.
    pub fn is_allowlisted(&self, recipient: Address) -> (r: bool)
        ensures
            r == self.allowlist@.contains(recipient),
    {
        contains_address(&self.allowlist, recipient)
    }

    /// The number of streams created through the factory.
    pub fn get_factory_stream_count(&self) -> (r: u32)
        requires
            self.stream_ids@.len() <= u32::MAX,
        ensures
            r == self.stream_ids@.len(),
    {
        self.stream_ids.len() as u32
    }

    /// Up to `min(limit, MAX_PAGE_SIZE)` stream ids from position
    /// `start_index` on, in creation order.
    pub fn get_factory_streams_paginated(&self, start_index: u32, limit: u32) -> (r: Vec<u64>)
        requires
            self.stream_ids@.len() + MAX_PAGE_SIZE <= u32::MAX,
        ensures
            r@ == factory_page(self.stream_ids@, start_index as int, limit as int),
    {
        let total = self.stream_ids.len() as u32;
        if start_index >= total {
            return Vec::new();
        }
        let capped_limit = if limit < MAX_PAGE_SIZE { limit } else { MAX_PAGE_SIZE };
        let end = if start_index + capped_limit < total { start_index + capped_limit } else { total };
        let mut page: Vec<u64> = Vec::new();
        let mut i = start_index;
        while i < end
            invariant
                start_index <= i <= end,
                end <= self.stream_ids@.len(),
                page@ == self.stream_ids@.subrange(start_index as int, i as int),
            decreases end - i,
        {
            page.push(self.stream_ids[i as usize]);
            i = i + 1;
        }
        page
    }

    /// The request forwarded to the streaming contract for a creation by
    /// `sender`: the policy checks of [`FluxoraFactory::check_create_stream`],
    /// then the terms unchanged, addressed to the configured streaming
    /// contract.
    pub fn creation_request(
        &self,
        sender: Address,
        recipient: Address,
        deposit_amount: i128,
        rate_per_second: i128,
        start_time: u64,
        cliff_time: u64,
        end_time: u64,
        withdraw_dust_threshold: i128,
    ) -> (r: Result<CreateRequest, FactoryError>)
        ensures
            match policy_error(*self, recipient, deposit_amount, rate_per_second, start_time, cliff_time, end_time) {
                Some(e) => r == Err::<CreateRequest, FactoryError>(e),
                None => r == Ok::<CreateRequest, FactoryError>(CreateRequest {
                    stream_contract: self.config->0.stream_contract,
                    sender,
                    recipient,
                    deposit_amount,
                    rate_per_second,
                    start_time,
                    cliff_time,
                    end_time,
                    withdraw_dust_threshold,
                }),
            },
    {
        let stream_contract = self.check_create_stream(
            recipient,
            deposit_amount,
            rate_per_second,
            start_time,
            cliff_time,
            end_time,
        )?;
        Ok(CreateRequest {
            stream_contract,
            sender,
            recipient,
            deposit_amount,
            rate_per_second,
            start_time,
            cliff_time,
            end_time,
            withdraw_dust_threshold,
        })
    }

    /// The policy checks of [`FluxoraFactory::create_stream`] (see
    /// [`policy_error`]); on success, the streaming contract to call.
    pub fn check_create_stream(
        &self,
        recipient: Address,
        deposit_amount: i128,
        rate_per_second: i128,
        start_time: u64,
        cliff_time: u64,
        end_time: u64,
    ) -> (r: Result<Address, FactoryError>)
        ensures
            match policy_error(*self, recipient, deposit_amount, rate_per_second, start_time, cliff_time, end_time) {
                Some(e) => r == Err::<Address, FactoryError>(e),
                None => r == Ok::<Address, FactoryError>(self.config->0.stream_contract),
            },
    {
        if self.creation_paused {
            return Err(FactoryError::CreationPaused);
        }
        let c = match self.config {
            Some(c) => c,
            None => {
                return Err(FactoryError::NotInitialized);
            },
        };
        if !contains_address(&self.allowlist, recipient) {
            return Err(FactoryError::RecipientNotAllowlisted);
        }
        if deposit_amount > c.max_deposit {
            return Err(FactoryError::DepositExceedsCap);
        }
        if start_time >= end_time {
            return Err(FactoryError::InvalidTimeRange);
        }
        if cliff_time < start_time || cliff_time > end_time {
            return Err(FactoryError::InvalidCliff);
        }
        let duration = end_time - start_time;
        if duration < c.min_duration {
            return Err(FactoryError::DurationTooShort);
        }
        match self.min_rate {
            Some(m) => {
                if rate_per_second < m {
                    return Err(FactoryError::RateBelowMin);
                }
            },
            None => {},
        }
        match self.max_rate {
            Some(m) => {
                if rate_per_second > m {
                    return Err(FactoryError::RateAboveMax);
                }
            },
            None => {},
        }
        Ok(c.stream_contract)
    }

    /// Creates a stream through the streaming contract on behalf of
    /// `sender`, who must authorize the call once the policy checks pass.
    ///
    /// `downstream` is the streaming contract's answer to the creation
    /// request made after [`FluxoraFactory::check_create_stream`] succeeded.
    /// A policy failure returns its error; a downstream failure maps to
    /// `StreamContractPaused` (the streaming contract is paused) or
    /// `StreamContractError`, recording nothing; a created stream's id is
    /// appended to the registry and returned.
    pub fn create_stream(
        &mut self,
        inv: &Invocation,
        sender: Address,
        recipient: Address,
        deposit_amount: i128,
        rate_per_second: i128,
        start_time: u64,
        cliff_time: u64,
        end_time: u64,
        downstream: DownstreamResult,
    ) -> (r: Result<u64, FactoryError>)
        requires
            old(self).wf(),
            policy_error(*old(self), recipient, deposit_amount, rate_per_second, start_time, cliff_time, end_time)
                is None ==> inv.authorizes(sender),
        ensures
            final(self).wf(),
            match policy_error(*old(self), recipient, deposit_amount, rate_per_second, start_time, cliff_time, end_time) {
                Some(e) => r == Err::<u64, FactoryError>(e) && *final(self) == *old(self),
                None => match downstream {
                    Ok(id) => r == Ok::<u64, FactoryError>(id)
                        && final(self).stream_ids@ == old(self).stream_ids@.push(id)
                        && final(self).config == old(self).config
                        && final(self).allowlist == old(self).allowlist
                        && final(self).creation_paused == old(self).creation_paused
                        && final(self).min_rate == old(self).min_rate
                        && final(self).max_rate == old(self).max_rate
                        && final(self).events == old(self).events,
                    Err(e) => r == Err::<u64, FactoryError>(downstream_error(e)) && *final(self) == *old(self),
                },
            },
    {
        let _stream_contract = self.check_create_stream(
            recipient,
            deposit_amount,
            rate_per_second,
            start_time,
            cliff_time,
            end_time,
        )?;
        match downstream {
            Ok(stream_id) => {
                self.stream_ids.push(stream_id);
                Ok(stream_id)
            },
            Err(Some(ContractError::ContractPaused)) => Err(FactoryError::StreamContractPaused),
            Err(_) => Err(FactoryError::StreamContractError),
        }
    }
}

} // verus!
