//! Multi-signature governance: signers propose calls to the streaming and
//! factory contracts, approve them, and anyone executes a proposal once its
//! quorum is reached and the timelock has elapsed.
use std::collections::HashMap;
use vstd::prelude::*;
use crate::address::{Address, contains_address};
use crate::stream_types::Invocation;

verus! {

/// Delay between reaching quorum and the earliest execution.
pub const GOVERNANCE_TIMELOCK_SECONDS: u64 = 172_800;

/// Maximum number of signers.
pub const MAX_SIGNERS: u32 = 20;

/// Maximum size of a proposal's calldata.
pub const MAX_CALLDATA_BYTES: u32 = 4_096;

/// Age after which a proposal can no longer be approved or executed.
pub const MAX_PROPOSAL_AGE_SECONDS: u64 = 2_592_000;

/// Errors returned by governance. [`GovernanceError::code`] gives each its
/// stable numeric code.
#[derive(Clone, Copy, Debug, PartialEq, Eq, Structural)]
pub enum GovernanceError {
    NotInitialized,
    AlreadyInitialized,
    Unauthorized,
    NotASigner,
    ProposalNotFound,
    AlreadyExecuted,
    QuorumNotReached,
    TimelockNotElapsed,
    AlreadyApproved,
    CalldataTooLarge,
    TooManySigners,
    ProposalExpired,
    ProposalCancelled,
    NotProposerOrAdmin,
    InvalidThreshold,
    QuorumWouldBreak,
    DuplicateSigner,
    ArithmeticOverflow,
    InvalidCalldata,
}

impl GovernanceError {
    /// The stable numeric code of each error, as published by the contract.
    pub open spec fn numeric_code(&self) -> u32 {
        match self {
            GovernanceError::NotInitialized => 1,
            GovernanceError::AlreadyInitialized => 2,
            GovernanceError::Unauthorized => 3,
            GovernanceError::NotASigner => 4,
            GovernanceError::ProposalNotFound => 5,
            GovernanceError::AlreadyExecuted => 6,
            GovernanceError::QuorumNotReached => 7,
            GovernanceError::TimelockNotElapsed => 8,
            GovernanceError::AlreadyApproved => 9,
            GovernanceError::CalldataTooLarge => 10,
            GovernanceError::TooManySigners => 11,
            GovernanceError::ProposalExpired => 12,
            GovernanceError::ProposalCancelled => 13,
            GovernanceError::NotProposerOrAdmin => 14,
            GovernanceError::InvalidThreshold => 15,
            GovernanceError::QuorumWouldBreak => 16,
            GovernanceError::DuplicateSigner => 17,
            GovernanceError::ArithmeticOverflow => 18,
            GovernanceError::InvalidCalldata => 19,
        }
    }

    /// The stable numeric code of the error.
    pub fn code(&self) -> (r: u32)
        ensures
            r == self.numeric_code(),
    {
        match self {
            GovernanceError::NotInitialized => 1,
            GovernanceError::AlreadyInitialized => 2,
            GovernanceError::Unauthorized => 3,
            GovernanceError::NotASigner => 4,
            GovernanceError::ProposalNotFound => 5,
            GovernanceError::AlreadyExecuted => 6,
            GovernanceError::QuorumNotReached => 7,
            GovernanceError::TimelockNotElapsed => 8,
            GovernanceError::AlreadyApproved => 9,
            GovernanceError::CalldataTooLarge => 10,
            GovernanceError::TooManySigners => 11,
            GovernanceError::ProposalExpired => 12,
            GovernanceError::ProposalCancelled => 13,
            GovernanceError::NotProposerOrAdmin => 14,
            GovernanceError::InvalidThreshold => 15,
            GovernanceError::QuorumWouldBreak => 16,
            GovernanceError::DuplicateSigner => 17,
            GovernanceError::ArithmeticOverflow => 18,
            GovernanceError::InvalidCalldata => 19,
        }
    }
}

/// A governance proposal: a call to `target` encoded in `calldata`.
#[derive(Clone, Debug)]
pub struct Proposal {
    pub proposer: Address,
    pub target: Address,
    pub calldata: Vec<u8>,
    /// Approving signers, in approval order.
    pub approvals: Vec<Address>,
    pub created_at: u64,
    pub executed: bool,
    pub cancelled: bool,
}

/// The operations a proposal can carry out on its target.
#[derive(Clone, Copy, Debug, PartialEq, Eq, Structural)]
pub enum CallData {
    /// Does nothing when executed.
    Noop,
    StreamSetAdmin(Address),
    StreamSetMaxRate(i128),
    FactorySetAdmin(Address),
    FactorySetCap(i128),
    FactorySetMinDuration(u64),
    FactorySetAllowlist(Address, bool),
    FactorySetStreamContract(Address),
}

/// When a proposal reached quorum, and the threshold then in force.
#[derive(Clone, Copy, Debug, PartialEq, Eq, Structural)]
pub struct QuorumInfo {
    pub reached_at: u64,
    pub threshold: u32,
}

#[derive(Clone, Copy, Debug, PartialEq, Eq, Structural)]
pub struct ProposalCreated {
    pub proposal_id: u32,
    pub proposer: Address,
    pub target: Address,
}

#[derive(Clone, Copy, Debug, PartialEq, Eq, Structural)]
pub struct ProposalApproved {
    pub proposal_id: u32,
    pub approver: Address,
    pub approval_count: u32,
}

#[derive(Clone, Copy, Debug, PartialEq, Eq, Structural)]
pub struct QuorumReached {
    pub proposal_id: u32,
    pub quorum_reached_at: u64,
    pub executable_after: u64,
}

#[derive(Clone, Copy, Debug, PartialEq, Eq, Structural)]
pub struct ProposalCancelled {
    pub proposal_id: u32,
    pub canceller: Address,
}

#[derive(Clone, Debug)]
pub struct ProposalExecuted {
    pub proposal_id: u32,
    pub executor: Address,
    pub target: Address,
    pub calldata: Vec<u8>,
}

#[derive(Clone, Copy, Debug, PartialEq, Eq, Structural)]
pub struct SignerAdded {
    pub signer: Address,
}

#[derive(Clone, Copy, Debug, PartialEq, Eq, Structural)]
pub struct SignerRemoved {
    pub signer: Address,
}

#[derive(Clone, Copy, Debug, PartialEq, Eq, Structural)]
pub struct AdminChanged {
    pub old: Address,
    pub new: Address,
}

/// An event published by governance, with its topic.
#[derive(Clone, Debug)]
pub enum GovernanceEvent {
    /// `("proposed", id)`
    Proposed(ProposalCreated),
    /// `("approved", id)`
    Approved(ProposalApproved),
    /// `("quorum", id)`
    Quorum(QuorumReached),
    /// `("cancelled", id)`
    Cancelled(ProposalCancelled),
    /// `("executed", id)`
    Executed(ProposalExecuted),
    /// `("sgnr_add",)`
    SignerAdded(SignerAdded),
    /// `("sgnr_rm",)`
    SignerRemoved(SignerRemoved),
    /// `("adm_chg",)`
    AdminChanged(AdminChanged),
}

/// An external effect of a governance call, in the order it happens.
#[derive(Clone, Debug)]
pub enum GovernanceEffect {
    /// Invocation of `target` carrying out `call` (never `Noop`).
    Invoke { target: Address, call: CallData },
    Publish(GovernanceEvent),
}

/// The state of one governance instance.
pub struct FluxoraGovernance {
    pub admin: Option<Address>,
    pub signers: Vec<Address>,
    /// Approvals needed for quorum.
    pub threshold: u32,
    pub next_proposal_id: u32,
    pub proposals: HashMap<u32, Proposal>,
    /// Quorum records by proposal id.
    pub quorum: HashMap<u32, QuorumInfo>,
    /// Effects produced so far, oldest first.
    pub log: Vec<GovernanceEffect>,
}

/// `start + seconds`, or `ArithmeticOverflow` when it does not fit.
pub fn checked_deadline(start: u64, seconds: u64) -> (r: Result<u64, GovernanceError>)
    ensures
        start + seconds <= u64::MAX ==> r == Ok::<u64, GovernanceError>((start + seconds) as u64),
        start + seconds > u64::MAX ==> r == Err::<u64, GovernanceError>(GovernanceError::ArithmeticOverflow),
{
    match start.checked_add(seconds) {
        Some(v) => Ok(v),
        None => Err(GovernanceError::ArithmeticOverflow),
    }
}

/// A copy of a byte vector.
fn copy_bytes(v: &Vec<u8>) -> (r: Vec<u8>)
    ensures
        r@ == v@,
{
    let mut out: Vec<u8> = Vec::new();
    let mut i: usize = 0;
    while i < v.len()
        invariant
            0 <= i <= v@.len(),
            out@ == v@.subrange(0, i as int),
        decreases v@.len() - i,
    {
        out.push(v[i]);
        i = i + 1;
    }
    out
}

/// A copy of an address vector.
fn copy_addresses(v: &Vec<Address>) -> (r: Vec<Address>)
    ensures
        r@ == v@,
{
    let mut out: Vec<Address> = Vec::new();
    let mut i: usize = 0;
    while i < v.len()
        invariant
            0 <= i <= v@.len(),
            out@ == v@.subrange(0, i as int),
        decreases v@.len() - i,
    {
        out.push(v[i]);
        i = i + 1;
    }
    out
}

/// `p` with the same fields (vectors by contents) as `q`.
pub open spec fn same_proposal(p: Proposal, q: Proposal) -> bool {
    &&& p.proposer == q.proposer
    &&& p.target == q.target
    &&& p.calldata@ == q.calldata@
    &&& p.approvals@ == q.approvals@
    &&& p.created_at == q.created_at
    &&& p.executed == q.executed
    &&& p.cancelled == q.cancelled
}

/// Whether `e` publishes `executed` for `proposal_id` by `executor`, with
/// `target` and the calldata bytes `data`.
pub open spec fn is_executed_event(e: GovernanceEffect, proposal_id: u32, executor: Address, target: Address, data: Seq<u8>) -> bool {
    e matches GovernanceEffect::Publish(GovernanceEvent::Executed(ev)) && ev.proposal_id == proposal_id
        && ev.executor == executor && ev.target == target && ev.calldata@ == data
}

/// Whether `x` is a `u64` value.
pub open spec fn fits_u64(x: int) -> bool {
    0 <= x <= u64::MAX
}

/// Why executing proposal `id` at `now` fails before its calldata is
/// decoded, in this order: unknown, cancelled, executed, age deadline
/// overflow, expired, no quorum record, fewer approvals than the recorded
/// threshold, timelock overflow, timelock not elapsed.
pub open spec fn execute_error(g: FluxoraGovernance, now: u64, id: u32) -> Option<GovernanceError> {
    let p = g.proposals@[id];
    let q = g.quorum@[id];
    if !g.proposals@.contains_key(id) {
        Some(GovernanceError::ProposalNotFound)
    } else if p.cancelled {
        Some(GovernanceError::ProposalCancelled)
    } else if p.executed {
        Some(GovernanceError::AlreadyExecuted)
    } else if !fits_u64(p.created_at + MAX_PROPOSAL_AGE_SECONDS) {
        Some(GovernanceError::ArithmeticOverflow)
    } else if now > p.created_at + MAX_PROPOSAL_AGE_SECONDS {
        Some(GovernanceError::ProposalExpired)
    } else if !g.quorum@.contains_key(id) {
        Some(GovernanceError::QuorumNotReached)
    } else if p.approvals@.len() < q.threshold {
        Some(GovernanceError::QuorumNotReached)
    } else if !fits_u64(q.reached_at + GOVERNANCE_TIMELOCK_SECONDS) {
        Some(GovernanceError::ArithmeticOverflow)
    } else if now < q.reached_at + GOVERNANCE_TIMELOCK_SECONDS {
        Some(GovernanceError::TimelockNotElapsed)
    } else {
        None
    }
}

/// What `is_executable` reports for proposal `id` at `now`.
pub open spec fn executable_view(g: FluxoraGovernance, now: u64, id: u32) -> Result<bool, GovernanceError> {
    let p = g.proposals@[id];
    let q = g.quorum@[id];
    if !g.proposals@.contains_key(id) {
        Err(GovernanceError::ProposalNotFound)
    } else if p.cancelled || p.executed {
        Ok(false)
    } else if !fits_u64(p.created_at + MAX_PROPOSAL_AGE_SECONDS) {
        Err(GovernanceError::ArithmeticOverflow)
    } else if now > p.created_at + MAX_PROPOSAL_AGE_SECONDS {
        Ok(false)
    } else if !g.quorum@.contains_key(id) {
        Ok(false)
    } else if p.approvals@.len() < q.threshold {
        Ok(false)
    } else if !fits_u64(q.reached_at + GOVERNANCE_TIMELOCK_SECONDS) {
        Err(GovernanceError::ArithmeticOverflow)
    } else if now < q.reached_at + GOVERNANCE_TIMELOCK_SECONDS {
        Ok(false)
    } else {
        Ok(true)
    }
}

/// Why approving proposal `id` by `approver` at `now` fails, in this order:
/// not initialised, not a signer, unknown, cancelled, executed, age deadline
/// overflow, expired, already approved by `approver`.
pub open spec fn approve_error(g: FluxoraGovernance, now: u64, approver: Address, id: u32) -> Option<GovernanceError> {
    let p = g.proposals@[id];
    if g.admin is None {
        Some(GovernanceError::NotInitialized)
    } else if !g.signers@.contains(approver) {
        Some(GovernanceError::NotASigner)
    } else if !g.proposals@.contains_key(id) {
        Some(GovernanceError::ProposalNotFound)
    } else if p.cancelled {
        Some(GovernanceError::ProposalCancelled)
    } else if p.executed {
        Some(GovernanceError::AlreadyExecuted)
    } else if !fits_u64(p.created_at + MAX_PROPOSAL_AGE_SECONDS) {
        Some(GovernanceError::ArithmeticOverflow)
    } else if now > p.created_at + MAX_PROPOSAL_AGE_SECONDS {
        Some(GovernanceError::ProposalExpired)
    } else if p.approvals@.contains(approver) {
        Some(GovernanceError::AlreadyApproved)
    } else if p.approvals@.len() + 1 == g.threshold && !fits_u64(now + GOVERNANCE_TIMELOCK_SECONDS) {
        Some(GovernanceError::ArithmeticOverflow)
    } else {
        None
    }
}

/// A proposal passes every check `execute` makes before decoding its
/// calldata exactly when `is_executable` reports it executable.
pub proof fn law_executable_iff_executes(g: FluxoraGovernance, now: u64, id: u32)
    ensures
        executable_view(g, now, id) == Ok::<bool, GovernanceError>(true) <==> execute_error(g, now, id) is None,
{
}

/// An executed proposal can never be executed again, nor reported
/// executable.
pub proof fn law_executed_is_final(g: FluxoraGovernance, now: u64, id: u32)
    requires
        g.wf(),
        g.proposals@.contains_key(id),
        g.proposals@[id].executed,
    ensures
        execute_error(g, now, id) == Some(GovernanceError::AlreadyExecuted),
        executable_view(g, now, id) == Ok::<bool, GovernanceError>(false),
{
}

/// A proposal that may be executed has quorum: at least as many distinct
/// approvals as the threshold recorded when quorum was reached, the
/// timelock elapsed, and it has not expired.
pub proof fn law_execution_needs_quorum(g: FluxoraGovernance, now: u64, id: u32)
    requires
        g.wf(),
        execute_error(g, now, id) is None,
    ensures
        g.quorum@.contains_key(id),
        g.proposals@[id].approvals@.no_duplicates(),
        g.proposals@[id].approvals@.len() >= g.quorum@[id].threshold,
        now >= g.quorum@[id].reached_at + GOVERNANCE_TIMELOCK_SECONDS,
        now <= g.proposals@[id].created_at + MAX_PROPOSAL_AGE_SECONDS,
        !g.proposals@[id].cancelled,
{
}

/// A signer cannot approve the same proposal twice: once its approval is
/// recorded, approving again is refused with `AlreadyApproved` (while the
/// proposal is otherwise still open).
pub proof fn law_repeat_approval_refused(g: FluxoraGovernance, now: u64, approver: Address, id: u32)
    requires
        g.admin is Some,
        g.signers@.contains(approver),
        g.proposals@.contains_key(id),
        !g.proposals@[id].cancelled,
        !g.proposals@[id].executed,
        g.proposals@[id].created_at + MAX_PROPOSAL_AGE_SECONDS <= u64::MAX,
        now <= g.proposals@[id].created_at + MAX_PROPOSAL_AGE_SECONDS,
        g.proposals@[id].approvals@.contains(approver),
    ensures
        approve_error(g, now, approver, id) == Some(GovernanceError::AlreadyApproved),
{
}

/// Proposal ids are assigned densely from 0: a proposal with id `id` exists
/// exactly when `id` is below the proposal count, in every reachable state.
pub proof fn law_proposal_ids_dense(g: FluxoraGovernance, id: u32)
    requires
        g.wf(),
    ensures
        g.proposals@.contains_key(id) <==> id < g.next_proposal_id,
{
}

impl FluxoraGovernance {
    /// The invariant kept by every operation: at most [`MAX_SIGNERS`]
    /// signers, none listed twice; once initialised, a threshold between 1
    /// and the number of signers (so quorum stays reachable); no proposal
    /// holds two approvals from one signer or is both executed and cancelled;
    /// proposal ids are dense: exactly the ids below `next_proposal_id` exist
    /// (none before initialisation).
    pub open spec fn wf(&self) -> bool {
        &&& self.signers@.no_duplicates()
        &&& self.signers@.len() <= MAX_SIGNERS
        &&& self.admin is Some ==> 1 <= self.threshold <= self.signers@.len()
        &&& self.admin is None ==> self.next_proposal_id == 0
        &&& forall|id: u32| #[trigger] self.proposals@.contains_key(id) <==> id < self.next_proposal_id
        &&& forall|id: u32| #[trigger] self.proposals@.contains_key(id) ==> {
            &&& self.proposals@[id].approvals@.no_duplicates()
            &&& !(self.proposals@[id].executed && self.proposals@[id].cancelled)
        }
    }

    /// Only the proposals, quorum records and log may differ from `other`.
    pub open spec fn same_membership(&self, other: &FluxoraGovernance) -> bool {
        &&& self.admin == other.admin
        &&& self.signers == other.signers
        &&& self.threshold == other.threshold
        &&& self.next_proposal_id == other.next_proposal_id
    }

    /// An uninitialised governance instance.
    pub fn new() -> (r: FluxoraGovernance)
        ensures
            r.wf(),
            r.admin is None,
            r.signers@.len() == 0,
            r.proposals@.is_empty(),
            r.quorum@.is_empty(),
            r.log@.len() == 0,
    {
        FluxoraGovernance {
            admin: None,
            signers: Vec::new(),
            threshold: 0,
            next_proposal_id: 0,
            proposals: HashMap::new(),
            quorum: HashMap::new(),
            log: Vec::new(),
        }
    }

    /// When a proposal that reached quorum as recorded in `info` becomes
    /// executable; `ArithmeticOverflow` when that time does not fit.
    pub fn executable_after(info: &QuorumInfo) -> (r: Result<u64, GovernanceError>)
        ensures
            fits_u64(info.reached_at + GOVERNANCE_TIMELOCK_SECONDS)
                ==> r == Ok::<u64, GovernanceError>((info.reached_at + GOVERNANCE_TIMELOCK_SECONDS) as u64),
            !fits_u64(info.reached_at + GOVERNANCE_TIMELOCK_SECONDS)
                ==> r == Err::<u64, GovernanceError>(GovernanceError::ArithmeticOverflow),
    {
        checked_deadline(info.reached_at, GOVERNANCE_TIMELOCK_SECONDS)
    }

    /// Whether `addr` is a signer; `NotInitialized` before initialisation.
    pub fn is_signer(&self, addr: Address) -> (r: Result<bool, GovernanceError>)
        ensures
            self.admin is None ==> r == Err::<bool, GovernanceError>(GovernanceError::NotInitialized),
            self.admin is Some ==> r == Ok::<bool, GovernanceError>(self.signers@.contains(addr)),
    {
        if self.admin.is_none() {
            return Err(GovernanceError::NotInitialized);
        }
        Ok(contains_address(&self.signers, addr))
    }

    /// Initialises governance with `admin`, `signers` and the approval
    /// threshold: `AlreadyInitialized`, then `TooManySigners` above
    /// [`MAX_SIGNERS`], `InvalidThreshold` unless `1 <= threshold <=` the
    /// number of signers, `DuplicateSigner` when a signer repeats.
    pub fn init(&mut self, admin: Address, signers: Vec<Address>, threshold: u32) -> (r: Result<(), GovernanceError>)
        requires
            old(self).wf(),
        ensures
            final(self).wf(),
            old(self).admin is Some ==> r == Err::<(), GovernanceError>(GovernanceError::AlreadyInitialized),
            old(self).admin is None && signers@.len() > MAX_SIGNERS
                ==> r == Err::<(), GovernanceError>(GovernanceError::TooManySigners),
            old(self).admin is None && signers@.len() <= MAX_SIGNERS && (threshold == 0 || threshold > signers@.len())
                ==> r == Err::<(), GovernanceError>(GovernanceError::InvalidThreshold),
            old(self).admin is None && signers@.len() <= MAX_SIGNERS && 0 < threshold <= signers@.len()
                ==> (r is Ok <==> signers@.no_duplicates()),
            old(self).admin is None && signers@.len() <= MAX_SIGNERS && 0 < threshold <= signers@.len()
                ==> (r matches Err(e) ==> e == GovernanceError::DuplicateSigner),
            r is Err ==> *final(self) == *old(self),
            r is Ok ==> {
                &&& final(self).admin == Some(admin)
                &&& final(self).signers@ == signers@
                &&& final(self).threshold == threshold
                &&& final(self).next_proposal_id == 0
                &&& final(self).proposals == old(self).proposals
                &&& final(self).quorum == old(self).quorum
                &&& final(self).log == old(self).log
            },
    {
        if self.admin.is_some() {
            return Err(GovernanceError::AlreadyInitialized);
        }
        if signers.len() > MAX_SIGNERS as usize {
            return Err(GovernanceError::TooManySigners);
        }
        if threshold == 0 || threshold as usize > signers.len() {
            return Err(GovernanceError::InvalidThreshold);
        }
        let n = signers.len();
        let mut i: usize = 0;
        while i < n
            invariant
                n == signers@.len(),
                0 <= i <= n,
                *self == *old(self),
                old(self).wf(),
                old(self).admin is None,
                signers@.len() <= MAX_SIGNERS,
                0 < threshold <= signers@.len(),
                forall|a: int, b: int| 0 <= a < b < i ==> signers@[a] != signers@[b],
            decreases n - i,
        {
            let s = signers[i];
            let mut j: usize = 0;
            while j < i
                invariant
                    n == signers@.len(),
                    0 <= j <= i < n,
                    *self == *old(self),
                    old(self).wf(),
                    old(self).admin is None,
                    signers@.len() <= MAX_SIGNERS,
                    0 < threshold <= signers@.len(),
                    s == signers@[i as int],
                    forall|a: int| 0 <= a < j ==> signers@[a] != s,
                decreases i - j,
            {
                if signers[j] == s {
                    proof {
                        assert(!signers@.no_duplicates()) by {
                            assert(signers@[j as int] == signers@[i as int]);
                        }
                    }
                    return Err(GovernanceError::DuplicateSigner);
                }
                j = j + 1;
            }
            i = i + 1;
        }
        assert(signers@.no_duplicates()) by {
            assert forall|a: int, b: int| 0 <= a < n && 0 <= b < n && a != b implies signers@[a] != signers@[b] by {
                if a > b {
                    assert(signers@[b] != signers@[a]);
                }
            }
        }
        self.admin = Some(admin);
        self.signers = signers;
        self.threshold = threshold;
        self.next_proposal_id = 0;
        Ok(())
    }

    /// Replaces the admin (the current admin must authorize the call) and
    /// publishes `adm_chg`.
    pub fn set_admin(&mut self, inv: &Invocation, new_admin: Address) -> (r: Result<(), GovernanceError>)
        requires
            old(self).wf(),
            old(self).admin matches Some(a) ==> inv.authorizes(a),
        ensures
            final(self).wf(),
            match old(self).admin {
                None => r == Err::<(), GovernanceError>(GovernanceError::NotInitialized) && *final(self) == *old(self),
                Some(a) => {
                    &&& r is Ok
                    &&& final(self).admin == Some(new_admin)
                    &&& final(self).signers == old(self).signers
                    &&& final(self).threshold == old(self).threshold
                    &&& final(self).next_proposal_id == old(self).next_proposal_id
                    &&& final(self).proposals == old(self).proposals
                    &&& final(self).quorum == old(self).quorum
                    &&& final(self).log@ == old(self).log@.push(
                        GovernanceEffect::Publish(GovernanceEvent::AdminChanged(AdminChanged { old: a, new: new_admin })),
                    )
                },
            },
    {
        let old_admin = match self.admin {
            Some(a) => a,
            None => {
                return Err(GovernanceError::NotInitialized);
            },
        };
        self.admin = Some(new_admin);
        self.log.push(
            GovernanceEffect::Publish(GovernanceEvent::AdminChanged(AdminChanged { old: old_admin, new: new_admin })),
        );
        Ok(())
    }

    /// Adds a signer (admin only): `DuplicateSigner` when already one,
    /// `TooManySigners` at [`MAX_SIGNERS`]; publishes `sgnr_add`.
    pub fn add_signer(&mut self, inv: &Invocation, signer: Address) -> (r: Result<(), GovernanceError>)
        requires
            old(self).wf(),
            old(self).admin matches Some(a) ==> inv.authorizes(a),
        ensures
            final(self).wf(),
            old(self).admin is None ==> r == Err::<(), GovernanceError>(GovernanceError::NotInitialized),
            old(self).admin is Some && old(self).signers@.contains(signer)
                ==> r == Err::<(), GovernanceError>(GovernanceError::DuplicateSigner),
            old(self).admin is Some && !old(self).signers@.contains(signer) && old(self).signers@.len() >= MAX_SIGNERS
                ==> r == Err::<(), GovernanceError>(GovernanceError::TooManySigners),
            old(self).admin is Some && !old(self).signers@.contains(signer) && old(self).signers@.len() < MAX_SIGNERS
                ==> r is Ok,
            r is Err ==> *final(self) == *old(self),
            r is Ok ==> {
                &&& old(self).admin is Some
                &&& !old(self).signers@.contains(signer)
                &&& old(self).signers@.len() < MAX_SIGNERS
                &&& final(self).signers@ == old(self).signers@.push(signer)
                &&& final(self).admin == old(self).admin
                &&& final(self).threshold == old(self).threshold
                &&& final(self).next_proposal_id == old(self).next_proposal_id
                &&& final(self).proposals == old(self).proposals
                &&& final(self).quorum == old(self).quorum
                &&& final(self).log@ == old(self).log@.push(
                    GovernanceEffect::Publish(GovernanceEvent::SignerAdded(SignerAdded { signer })),
                )
            },
    {
        if self.admin.is_none() {
            return Err(GovernanceError::NotInitialized);
        }
        if contains_address(&self.signers, signer) {
            return Err(GovernanceError::DuplicateSigner);
        }
        if self.signers.len() >= MAX_SIGNERS as usize {
            return Err(GovernanceError::TooManySigners);
        }
        let ghost before = self.signers@;
        self.signers.push(signer);
        proof {
            let v = self.signers@;
            let n = before.len() as int;
            assert forall|x: int, y: int| 0 <= x < v.len() && 0 <= y < v.len() && x != y implies v[x] != v[y] by {
                if x == n {
                    assert(before[y] == v[y]);
                } else if y == n {
                    assert(before[x] == v[x]);
                }
            }
        }
        self.log.push(GovernanceEffect::Publish(GovernanceEvent::SignerAdded(SignerAdded { signer })));
        Ok(())
    }

    /// Removes a signer (admin only). Removing a non-signer changes nothing;
    /// `QuorumWouldBreak` when fewer signers than the threshold would remain;
    /// otherwise publishes `sgnr_rm`.
    pub fn remove_signer(&mut self, inv: &Invocation, signer: Address) -> (r: Result<(), GovernanceError>)
        requires
            old(self).wf(),
            old(self).admin matches Some(a) ==> inv.authorizes(a),
        ensures
            final(self).wf(),
            old(self).admin is None ==> r == Err::<(), GovernanceError>(GovernanceError::NotInitialized),
            old(self).admin is Some && !old(self).signers@.contains(signer) ==> r is Ok && *final(self) == *old(self),
            old(self).admin is Some && old(self).signers@.contains(signer) && old(self).signers@.len() - 1
                < old(self).threshold ==> r == Err::<(), GovernanceError>(GovernanceError::QuorumWouldBreak),
            old(self).admin is Some && old(self).signers@.contains(signer) && old(self).signers@.len() - 1
                >= old(self).threshold ==> r is Ok,
            r is Err ==> *final(self) == *old(self),
            r is Ok && old(self).signers@.contains(signer) ==> {
                &&& old(self).signers@.len() - 1 >= old(self).threshold
                &&& exists|k: int| 0 <= k < old(self).signers@.len() && old(self).signers@[k] == signer
                    && final(self).signers@ == old(self).signers@.remove(k)
                &&& !final(self).signers@.contains(signer)
                &&& final(self).admin == old(self).admin
                &&& final(self).threshold == old(self).threshold
                &&& final(self).next_proposal_id == old(self).next_proposal_id
                &&& final(self).proposals == old(self).proposals
                &&& final(self).quorum == old(self).quorum
                &&& final(self).log@ == old(self).log@.push(
                    GovernanceEffect::Publish(GovernanceEvent::SignerRemoved(SignerRemoved { signer })),
                )
            },
    {
        if self.admin.is_none() {
            return Err(GovernanceError::NotInitialized);
        }
        if !contains_address(&self.signers, signer) {
            return Ok(());
        }
        if self.signers.len() - 1 < self.threshold as usize {
            return Err(GovernanceError::QuorumWouldBreak);
        }
        let mut i: usize = 0;
        while i < self.signers.len()
            invariant
                *self == *old(self),
                old(self).wf(),
                old(self).admin is Some,
                old(self).signers@.contains(signer),
                old(self).signers@.len() - 1 >= old(self).threshold,
                0 <= i <= self.signers@.len(),
                forall|j: int| 0 <= j < i ==> self.signers@[j] != signer,
            decreases self.signers@.len() - i,
        {
            if self.signers[i] == signer {
                let ghost before = self.signers@;
                self.signers.remove(i);
                proof {
                    let v = self.signers@;
                    assert(v =~= before.remove(i as int));
                    assert forall|x: int, y: int| 0 <= x < v.len() && 0 <= y < v.len() && x != y implies v[x] != v[y] by {
                        let xo = if x < i { x } else { x + 1 };
                        let yo = if y < i { y } else { y + 1 };
                        assert(v[x] == before[xo] && v[y] == before[yo]);
                    }
                    assert(!v.contains(signer)) by {
                        if v.contains(signer) {
                            let k = choose|k: int| 0 <= k < v.len() && v[k] == signer;
                            let ko = if k < i { k } else { k + 1 };
                            assert(before[ko] == signer);
                        }
                    }
                }
                self.log.push(GovernanceEffect::Publish(GovernanceEvent::SignerRemoved(SignerRemoved { signer })));
                return Ok(());
            }
            i = i + 1;
        }
        assert(false);
        Ok(())
    }

    /// Records a proposal by `proposer` (who must authorize the call and be
    /// a signer) to call `target` with `calldata`, under the next id:
    /// `NotInitialized`, `NotASigner`, `CalldataTooLarge` above
    /// [`MAX_CALLDATA_BYTES`], `ArithmeticOverflow` when the id counter is
    /// exhausted; publishes `proposed`.
    pub fn propose(&mut self, inv: &Invocation, proposer: Address, target: Address, calldata: Vec<u8>) -> (r: Result<
        u32,
        GovernanceError,
    >)
        requires
            old(self).wf(),
            inv.authorizes(proposer),
        ensures
            final(self).wf(),
            old(self).admin is None ==> r == Err::<u32, GovernanceError>(GovernanceError::NotInitialized),
            old(self).admin is Some && !old(self).signers@.contains(proposer)
                ==> r == Err::<u32, GovernanceError>(GovernanceError::NotASigner),
            old(self).admin is Some && old(self).signers@.contains(proposer) && calldata@.len() > MAX_CALLDATA_BYTES
                ==> r == Err::<u32, GovernanceError>(GovernanceError::CalldataTooLarge),
            old(self).admin is Some && old(self).signers@.contains(proposer) && calldata@.len() <= MAX_CALLDATA_BYTES
                && old(self).next_proposal_id == u32::MAX
                ==> r == Err::<u32, GovernanceError>(GovernanceError::ArithmeticOverflow),
            old(self).admin is Some && old(self).signers@.contains(proposer) && calldata@.len() <= MAX_CALLDATA_BYTES
                && old(self).next_proposal_id < u32::MAX ==> r is Ok,
            r is Err ==> *final(self) == *old(self),
            r is Ok ==> {
                let id = old(self).next_proposal_id;
                &&& old(self).admin is Some
                &&& old(self).signers@.contains(proposer)
                &&& calldata@.len() <= MAX_CALLDATA_BYTES
                &&& id < u32::MAX
                &&& r == Ok::<u32, GovernanceError>(id)
                &&& final(self).next_proposal_id == id + 1
                &&& final(self).proposals@.contains_key(id)
                &&& final(self).proposals@ == old(self).proposals@.insert(id, final(self).proposals@[id])
                &&& same_proposal(
                    final(self).proposals@[id],
                    Proposal {
                        proposer,
                        target,
                        calldata,
                        approvals: final(self).proposals@[id].approvals,
                        created_at: inv.timestamp,
                        executed: false,
                        cancelled: false,
                    },
                )
                &&& final(self).proposals@[id].approvals@.len() == 0
                &&& final(self).admin == old(self).admin
                &&& final(self).signers == old(self).signers
                &&& final(self).threshold == old(self).threshold
                &&& final(self).quorum == old(self).quorum
                &&& final(self).log@ == old(self).log@.push(
                    GovernanceEffect::Publish(
                        GovernanceEvent::Proposed(ProposalCreated { proposal_id: id, proposer, target }),
                    ),
                )
            },
    {
        if !self.is_signer(proposer)? {
            return Err(GovernanceError::NotASigner);
        }
        if calldata.len() > MAX_CALLDATA_BYTES as usize {
            return Err(GovernanceError::CalldataTooLarge);
        }
        let id = self.next_proposal_id;
        if id == u32::MAX {
            return Err(GovernanceError::ArithmeticOverflow);
        }
        self.next_proposal_id = id + 1;
        let ghost data = calldata@;
        let proposal = Proposal {
            proposer,
            target,
            calldata,
            approvals: Vec::new(),
            created_at: inv.timestamp,
            executed: false,
            cancelled: false,
        };
        self.proposals.insert(id, proposal);
        proof {
            assert forall|x: u32| #[trigger] self.proposals@.contains_key(x) implies self.proposals@[x].approvals@.no_duplicates()
                && !(self.proposals@[x].executed && self.proposals@[x].cancelled) by {
                if x != id {
                    assert(old(self).proposals@.contains_key(x));
                }
            }
        }
        self.log.push(
            GovernanceEffect::Publish(GovernanceEvent::Proposed(ProposalCreated { proposal_id: id, proposer, target })),
        );
        Ok(id)
    }

    /// Approves proposal `proposal_id` by `approver` (who must authorize the
    /// call and be a signer), failing as [`approve_error`] says. Publishes
    /// `approved` with the new approval count; when that count reaches the
    /// threshold, records the quorum at `now` and publishes `quorum` with the
    /// time the timelock ends.
    pub fn approve(&mut self, inv: &Invocation, approver: Address, proposal_id: u32) -> (r: Result<(), GovernanceError>)
        requires
            old(self).wf(),
            inv.authorizes(approver),
            old(self).proposals@.contains_key(proposal_id) ==> old(self).proposals@[proposal_id].approvals@.len() < u32::MAX,
        ensures
            final(self).wf(),
            match approve_error(*old(self), inv.timestamp, approver, proposal_id) {
                Some(e) => r == Err::<(), GovernanceError>(e) && *final(self) == *old(self),
                None => {
                    let p = old(self).proposals@[proposal_id];
                    let count = p.approvals@.len() + 1;
                    let approved = GovernanceEffect::Publish(
                        GovernanceEvent::Approved(ProposalApproved { proposal_id, approver, approval_count: count as u32 }),
                    );
                    &&& r is Ok
                    &&& final(self).same_membership(old(self))
                    &&& final(self).proposals@ == old(self).proposals@.insert(proposal_id, final(self).proposals@[proposal_id])
                    &&& same_proposal(
                        final(self).proposals@[proposal_id],
                        Proposal { approvals: final(self).proposals@[proposal_id].approvals, ..p },
                    )
                    &&& final(self).proposals@[proposal_id].approvals@ == p.approvals@.push(approver)
                    &&& if count == old(self).threshold {
                        let info = QuorumInfo { reached_at: inv.timestamp, threshold: old(self).threshold };
                        let after = (inv.timestamp + GOVERNANCE_TIMELOCK_SECONDS) as u64;
                        &&& final(self).quorum@ == old(self).quorum@.insert(proposal_id, info)
                        &&& final(self).log@ == old(self).log@.push(approved).push(
                            GovernanceEffect::Publish(
                                GovernanceEvent::Quorum(QuorumReached {
                                    proposal_id,
                                    quorum_reached_at: inv.timestamp,
                                    executable_after: after,
                                }),
                            ),
                        )
                    } else {
                        &&& final(self).quorum == old(self).quorum
                        &&& final(self).log@ == old(self).log@.push(approved)
                    }
                },
            },
    {
        if !self.is_signer(approver)? {
            return Err(GovernanceError::NotASigner);
        }
        let (cancelled, executed, created_at, already, count) = match self.proposals.get(&proposal_id) {
            Some(p) => (p.cancelled, p.executed, p.created_at, contains_address(&p.approvals, approver), p.approvals.len()),
            None => {
                return Err(GovernanceError::ProposalNotFound);
            },
        };
        if cancelled {
            return Err(GovernanceError::ProposalCancelled);
        }
        if executed {
            return Err(GovernanceError::AlreadyExecuted);
        }
        let deadline = checked_deadline(created_at, MAX_PROPOSAL_AGE_SECONDS)?;
        if inv.timestamp > deadline {
            return Err(GovernanceError::ProposalExpired);
        }
        if already {
            return Err(GovernanceError::AlreadyApproved);
        }
        let approval_count = (count + 1) as u32;
        let threshold = self.threshold;
        let quorum_reached = if approval_count == threshold {
            let after = checked_deadline(inv.timestamp, GOVERNANCE_TIMELOCK_SECONDS)?;
            Some(after)
        } else {
            None
        };
        let ghost p0 = self.proposals@[proposal_id];
        let mut p = match self.proposals.remove(&proposal_id) {
            Some(p) => p,
            None => {
                assert(false);
                return Err(GovernanceError::ProposalNotFound);
            },
        };
        let ghost before = p.approvals@;
        p.approvals.push(approver);
        proof {
            let v = p.approvals@;
            let n = before.len() as int;
            assert forall|x: int, y: int| 0 <= x < v.len() && 0 <= y < v.len() && x != y implies v[x] != v[y] by {
                if x == n {
                    assert(before[y] == v[y]);
                } else if y == n {
                    assert(before[x] == v[x]);
                }
            }
        }
        self.proposals.insert(proposal_id, p);
        proof {
            assert(self.proposals@ =~= old(self).proposals@.insert(proposal_id, self.proposals@[proposal_id]));
            assert forall|x: u32| #[trigger] self.proposals@.contains_key(x) implies self.proposals@[x].approvals@.no_duplicates()
                && !(self.proposals@[x].executed && self.proposals@[x].cancelled) by {
                if x != proposal_id {
                    assert(old(self).proposals@.contains_key(x));
                }
            }
        }
        self.log.push(
            GovernanceEffect::Publish(GovernanceEvent::Approved(ProposalApproved { proposal_id, approver, approval_count })),
        );
        match quorum_reached {
            Some(after) => {
                self.quorum.insert(proposal_id, QuorumInfo { reached_at: inv.timestamp, threshold });
                self.log.push(
                    GovernanceEffect::Publish(
                        GovernanceEvent::Quorum(QuorumReached {
                            proposal_id,
                            quorum_reached_at: inv.timestamp,
                            executable_after: after,
                        }),
                    ),
                );
            },
            None => {},
        }
        Ok(())
    }

    /// Executes proposal `proposal_id` (`executor` must authorize the call),
    /// failing as [`execute_error`] says. `decoded` is the host's decoding
    /// of the proposal's calldata (`None` when it is not a [`CallData`]),
    /// which fails the call with `InvalidCalldata`. Marks the proposal
    /// executed, records the invocation of the target (none for `Noop`) and
    /// publishes `executed`.
    pub fn execute(&mut self, inv: &Invocation, executor: Address, proposal_id: u32, decoded: Option<CallData>) -> (r: Result<
        (),
        GovernanceError,
    >)
        requires
            old(self).wf(),
            inv.authorizes(executor),
        ensures
            final(self).wf(),
            match execute_error(*old(self), inv.timestamp, proposal_id) {
                Some(e) => r == Err::<(), GovernanceError>(e) && *final(self) == *old(self),
                None => match decoded {
                    None => r == Err::<(), GovernanceError>(GovernanceError::InvalidCalldata) && *final(self) == *old(self),
                    Some(call) => {
                        let p = old(self).proposals@[proposal_id];
                        let k = old(self).log@.len();
                        &&& r is Ok
                        &&& final(self).same_membership(old(self))
                        &&& final(self).quorum == old(self).quorum
                        &&& final(self).proposals@ == old(self).proposals@.insert(proposal_id, final(self).proposals@[proposal_id])
                        &&& same_proposal(final(self).proposals@[proposal_id], Proposal { executed: true, ..p })
                        &&& final(self).log@.len() == k + (if call == CallData::Noop { 1int } else { 2int })
                        &&& final(self).log@.subrange(0, k as int) == old(self).log@
                        &&& (call != CallData::Noop ==> final(self).log@[k as int] == GovernanceEffect::Invoke {
                            target: p.target,
                            call,
                        })
                        &&& is_executed_event(final(self).log@.last(), proposal_id, executor, p.target, p.calldata@)
                    },
                },
            },
    {
        let (cancelled, executed, created_at, count) = match self.proposals.get(&proposal_id) {
            Some(p) => (p.cancelled, p.executed, p.created_at, p.approvals.len()),
            None => {
                return Err(GovernanceError::ProposalNotFound);
            },
        };
        if cancelled {
            return Err(GovernanceError::ProposalCancelled);
        }
        if executed {
            return Err(GovernanceError::AlreadyExecuted);
        }
        let deadline = checked_deadline(created_at, MAX_PROPOSAL_AGE_SECONDS)?;
        if inv.timestamp > deadline {
            return Err(GovernanceError::ProposalExpired);
        }
        let info = match self.quorum.get(&proposal_id) {
            Some(i) => *i,
            None => {
                return Err(GovernanceError::QuorumNotReached);
            },
        };
        if count < info.threshold as usize {
            return Err(GovernanceError::QuorumNotReached);
        }
        let exec_after = Self::executable_after(&info)?;
        if inv.timestamp < exec_after {
            return Err(GovernanceError::TimelockNotElapsed);
        }
        let call = match decoded {
            Some(c) => c,
            None => {
                return Err(GovernanceError::InvalidCalldata);
            },
        };
        let mut p = match self.proposals.remove(&proposal_id) {
            Some(p) => p,
            None => {
                assert(false);
                return Err(GovernanceError::ProposalNotFound);
            },
        };
        p.executed = true;
        let target = p.target;
        let calldata = copy_bytes(&p.calldata);
        self.proposals.insert(proposal_id, p);
        proof {
            assert(self.proposals@ =~= old(self).proposals@.insert(proposal_id, self.proposals@[proposal_id]));
            assert forall|x: u32| #[trigger] self.proposals@.contains_key(x) implies self.proposals@[x].approvals@.no_duplicates()
                && !(self.proposals@[x].executed && self.proposals@[x].cancelled) by {
                if x != proposal_id {
                    assert(old(self).proposals@.contains_key(x));
                }
            }
        }
        if call != CallData::Noop {
            self.log.push(GovernanceEffect::Invoke { target, call });
        }
        self.log.push(
            GovernanceEffect::Publish(
                GovernanceEvent::Executed(ProposalExecuted { proposal_id, executor, target, calldata }),
            ),
        );
        Ok(())
    }

    /// Cancels proposal `proposal_id` on behalf of `caller` (who must
    /// authorize the call and be its proposer or the admin):
    /// `ProposalNotFound`, `AlreadyExecuted`, `ProposalCancelled`,
    /// `NotInitialized`, then `NotProposerOrAdmin`; publishes `cancelled`.
    pub fn cancel_proposal(&mut self, inv: &Invocation, caller: Address, proposal_id: u32) -> (r: Result<
        (),
        GovernanceError,
    >)
        requires
            old(self).wf(),
            inv.authorizes(caller),
        ensures
            final(self).wf(),
            ({
                let p = old(self).proposals@[proposal_id];
                let err = if !old(self).proposals@.contains_key(proposal_id) {
                    Some(GovernanceError::ProposalNotFound)
                } else if p.executed {
                    Some(GovernanceError::AlreadyExecuted)
                } else if p.cancelled {
                    Some(GovernanceError::ProposalCancelled)
                } else if old(self).admin is None {
                    Some(GovernanceError::NotInitialized)
                } else if caller != p.proposer && caller != old(self).admin->0 {
                    Some(GovernanceError::NotProposerOrAdmin)
                } else {
                    None
                };
                match err {
                    Some(e) => r == Err::<(), GovernanceError>(e) && *final(self) == *old(self),
                    None => {
                        &&& r is Ok
                        &&& final(self).same_membership(old(self))
                        &&& final(self).quorum == old(self).quorum
                        &&& final(self).proposals@ == old(self).proposals@.insert(proposal_id, final(self).proposals@[proposal_id])
                        &&& same_proposal(final(self).proposals@[proposal_id], Proposal { cancelled: true, ..p })
                        &&& final(self).log@ == old(self).log@.push(
                            GovernanceEffect::Publish(
                                GovernanceEvent::Cancelled(ProposalCancelled { proposal_id, canceller: caller }),
                            ),
                        )
                    },
                }
            }),
    {
        let (executed, cancelled, proposer) = match self.proposals.get(&proposal_id) {
            Some(p) => (p.executed, p.cancelled, p.proposer),
            None => {
                return Err(GovernanceError::ProposalNotFound);
            },
        };
        if executed {
            return Err(GovernanceError::AlreadyExecuted);
        }
        if cancelled {
            return Err(GovernanceError::ProposalCancelled);
        }
        let admin = match self.admin {
            Some(a) => a,
            None => {
                return Err(GovernanceError::NotInitialized);
            },
        };
        if caller != proposer && caller != admin {
            return Err(GovernanceError::NotProposerOrAdmin);
        }
        let mut p = match self.proposals.remove(&proposal_id) {
            Some(p) => p,
            None => {
                assert(false);
                return Err(GovernanceError::ProposalNotFound);
            },
        };
        p.cancelled = true;
        self.proposals.insert(proposal_id, p);
        proof {
            assert(self.proposals@ =~= old(self).proposals@.insert(proposal_id, self.proposals@[proposal_id]));
            assert forall|x: u32| #[trigger] self.proposals@.contains_key(x) implies self.proposals@[x].approvals@.no_duplicates()
                && !(self.proposals@[x].executed && self.proposals@[x].cancelled) by {
                if x != proposal_id {
                    assert(old(self).proposals@.contains_key(x));
                }
            }
        }
        self.log.push(
            GovernanceEffect::Publish(GovernanceEvent::Cancelled(ProposalCancelled { proposal_id, canceller: caller })),
        );
        Ok(())
    }

    /// A copy of proposal `proposal_id`; `ProposalNotFound` when absent.
    pub fn get_proposal(&self, proposal_id: u32) -> (r: Result<Proposal, GovernanceError>)
        ensures
            !self.proposals@.contains_key(proposal_id)
                ==> r == Err::<Proposal, GovernanceError>(GovernanceError::ProposalNotFound),
            self.proposals@.contains_key(proposal_id)
                ==> (r matches Ok(p) && same_proposal(p, self.proposals@[proposal_id])),
    {
        match self.proposals.get(&proposal_id) {
            Some(p) => Ok(
                Proposal {
                    proposer: p.proposer,
                    target: p.target,
                    calldata: copy_bytes(&p.calldata),
                    approvals: copy_addresses(&p.approvals),
                    created_at: p.created_at,
                    executed: p.executed,
                    cancelled: p.cancelled,
                },
            ),
            None => Err(GovernanceError::ProposalNotFound),
        }
    }

    /// The number of proposal ids handed out so far.
    pub fn proposal_count(&self) -> (r: u32)
        ensures
            r == self.next_proposal_id,
    {
        self.next_proposal_id
    }

    /// The signers, in the order they were added; `NotInitialized` before
    /// initialisation.
    pub fn get_signers(&self) -> (r: Result<Vec<Address>, GovernanceError>)
        ensures
            self.admin is None ==> (r matches Err(e) && e == GovernanceError::NotInitialized),
            self.admin is Some ==> (r matches Ok(v) && v@ == self.signers@),
    {
        if self.admin.is_none() {
            return Err(GovernanceError::NotInitialized);
        }
        Ok(copy_addresses(&self.signers))
    }

    /// The approval threshold (0 before initialisation).
    pub fn quorum(&self) -> (r: u32)
        ensures
            r == (if self.admin is Some { self.threshold } else { 0 }),
    {
        if self.admin.is_some() {
            self.threshold
        } else {
            0
        }
    }

    /// The timelock between quorum and execution.
    pub fn timelock_seconds(&self) -> (r: u64)
        ensures
            r == GOVERNANCE_TIMELOCK_SECONDS,
    {
        GOVERNANCE_TIMELOCK_SECONDS
    }

    /// The age after which proposals expire.
    pub fn max_proposal_age_seconds(&self) -> (r: u64)
        ensures
            r == MAX_PROPOSAL_AGE_SECONDS,
    {
        MAX_PROPOSAL_AGE_SECONDS
    }

    /// The quorum record of proposal `proposal_id`, if it reached quorum.
    pub fn get_quorum_info(&self, proposal_id: u32) -> (r: Option<QuorumInfo>)
        ensures
            r == (if self.quorum@.contains_key(proposal_id) { Some(self.quorum@[proposal_id]) } else { None }),
    {
        match self.quorum.get(&proposal_id) {
            Some(i) => Some(*i),
            None => None,
        }
    }

    /// Whether proposal `proposal_id` could be executed at `now` (see
    /// [`executable_view`]): not cancelled, executed or expired, with its
    /// quorum reached and the timelock elapsed.
    pub fn is_executable(&self, now: u64, proposal_id: u32) -> (r: Result<bool, GovernanceError>)
        ensures
            r == executable_view(*self, now, proposal_id),
    {
        let (cancelled, executed, created_at, count) = match self.proposals.get(&proposal_id) {
            Some(p) => (p.cancelled, p.executed, p.created_at, p.approvals.len()),
            None => {
                return Err(GovernanceError::ProposalNotFound);
            },
        };
        if cancelled {
            return Ok(false);
        }
        if executed {
            return Ok(false);
        }
        let deadline = checked_deadline(created_at, MAX_PROPOSAL_AGE_SECONDS)?;
        if now > deadline {
            return Ok(false);
        }
        let info = match self.quorum.get(&proposal_id) {
            Some(i) => *i,
            None => {
                return Ok(false);
            },
        };
        if count < info.threshold as usize {
            return Ok(false);
        }
        let exec_after = Self::executable_after(&info)?;
        if now < exec_after {
            return Ok(false);
        }
        Ok(true)
    }
}

} // verus!
