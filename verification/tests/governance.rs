use fluxora::address::Address;
use fluxora::governance::{
    checked_deadline, CallData, FluxoraGovernance, GovernanceEffect, GovernanceError, QuorumInfo,
    GOVERNANCE_TIMELOCK_SECONDS,
};
use fluxora::stream_types::Invocation;

const TIMELOCK: u64 = 172_800;
const MAX_AGE: u64 = 2_592_000;

fn account(n: u64) -> Address {
    Address::new(false, n, 11, 0, 0)
}

struct Ctx {
    g: FluxoraGovernance,
    now: u64,
    admin: Address,
    signer_a: Address,
    signer_b: Address,
    signer_c: Address,
    next_generated: u64,
}

impl Ctx {
    fn setup() -> Self {
        let admin = account(1);
        let signer_a = account(2);
        let signer_b = account(3);
        let signer_c = account(4);
        let mut g = FluxoraGovernance::new();
        g.init(admin, vec![signer_a, signer_b, signer_c], 2).unwrap();
        Ctx { g, now: 1_000_000, admin, signer_a, signer_b, signer_c, next_generated: 100 }
    }

    fn by(&self, who: Address) -> Invocation {
        Invocation { timestamp: self.now, contract: Address::new(true, 50, 0, 0, 0), signers: vec![who] }
    }

    fn generate(&mut self) -> Address {
        self.next_generated += 1;
        account(self.next_generated)
    }

    fn dummy_target(&mut self) -> Address {
        let n = self.generate();
        Address::new(true, n.key0, 0, 0, 0)
    }

    /// Bytes standing for an encoded `CallData::Noop`.
    fn calldata(&self, _tag: &str) -> Vec<u8> {
        vec![0, 0, 0, 16, 0, 0, 0, 1]
    }

    fn propose(&mut self, proposer: Address) -> u32 {
        let target = self.dummy_target();
        let data = self.calldata("x");
        let inv = self.by(proposer);
        self.g.propose(&inv, proposer, target, data).unwrap()
    }

    fn approve(&mut self, approver: Address, id: u32) -> Result<(), GovernanceError> {
        let inv = self.by(approver);
        self.g.approve(&inv, approver, id)
    }

    fn execute(&mut self, id: u32) -> Result<(), GovernanceError> {
        let executor = self.generate();
        let inv = self.by(executor);
        self.g.execute(&inv, executor, id, Some(CallData::Noop))
    }

    fn cancel(&mut self, caller: Address, id: u32) -> Result<(), GovernanceError> {
        let inv = self.by(caller);
        self.g.cancel_proposal(&inv, caller, id)
    }

    fn remove_signer(&mut self, signer: Address) -> Result<(), GovernanceError> {
        let inv = self.by(self.admin);
        self.g.remove_signer(&inv, signer)
    }

    fn is_executable(&self, id: u32) -> bool {
        self.g.is_executable(self.now, id).unwrap()
    }
}

fn fresh_init(signers: Vec<Address>, threshold: u32) -> (FluxoraGovernance, Result<(), GovernanceError>) {
    let mut g = FluxoraGovernance::new();
    let r = g.init(account(90), signers, threshold);
    (g, r)
}

#[test]
fn test_invalid_calldata_errors_on_execute() {
    let mut ctx = Ctx::setup();
    let target = ctx.dummy_target();
    let bad = vec![0u8, 0, 0, 3, 0, 0, 0, 42];
    let a = ctx.signer_a;
    let inv = ctx.by(a);
    let id = ctx.g.propose(&inv, a, target, bad).unwrap();
    ctx.approve(ctx.signer_a, id).unwrap();
    ctx.approve(ctx.signer_b, id).unwrap();
    ctx.now = 1_000_000 + TIMELOCK + 1;
    let executor = ctx.generate();
    let inv = ctx.by(executor);
    let result = ctx.g.execute(&inv, executor, id, None);
    assert_eq!(result, Err(GovernanceError::InvalidCalldata));
    let p = ctx.g.get_proposal(id).unwrap();
    assert!(!p.executed);
}

#[test]
fn test_noop_calldata_executes_cleanly() {
    let mut ctx = Ctx::setup();
    let id = ctx.propose(ctx.signer_a);
    ctx.approve(ctx.signer_a, id).unwrap();
    ctx.approve(ctx.signer_b, id).unwrap();
    ctx.now = 1_000_000 + TIMELOCK + 1;
    let log_before = ctx.g.log.len();
    ctx.execute(id).unwrap();
    assert!(ctx.g.get_proposal(id).unwrap().executed);
    // A no-op proposal invokes nothing; only the `executed` event follows.
    assert_eq!(ctx.g.log.len(), log_before + 1);
}

#[test]
fn test_quorum_and_timelock_constants() {
    let ctx = Ctx::setup();
    assert_eq!(ctx.g.quorum(), 2);
    assert_eq!(ctx.g.timelock_seconds(), TIMELOCK);
}

#[test]
fn test_max_proposal_age_constant() {
    let ctx = Ctx::setup();
    assert_eq!(ctx.g.max_proposal_age_seconds(), MAX_AGE);
}

#[test]
fn test_init_rejects_zero_threshold() {
    let (_, result) = fresh_init(vec![account(91)], 0);
    assert_eq!(result, Err(GovernanceError::InvalidThreshold));
}

#[test]
fn test_init_rejects_threshold_above_signer_count() {
    let (_, result) = fresh_init(vec![account(91), account(92)], 3);
    assert_eq!(result, Err(GovernanceError::InvalidThreshold));
}

#[test]
fn test_init_accepts_threshold_equal_to_signer_count() {
    let (g, result) = fresh_init(vec![account(91), account(92)], 2);
    assert!(result.is_ok());
    assert_eq!(g.quorum(), 2);
}

#[test]
fn test_init_accepts_threshold_of_one() {
    let (g, result) = fresh_init(vec![account(91)], 1);
    assert!(result.is_ok());
    assert_eq!(g.quorum(), 1);
}

#[test]
fn test_remove_signer_down_to_threshold_succeeds() {
    let mut ctx = Ctx::setup();
    ctx.remove_signer(ctx.signer_c).unwrap();
    let signers = ctx.g.get_signers().unwrap();
    assert_eq!(signers.len(), 2);
    assert_eq!(ctx.g.quorum(), 2);
}

#[test]
fn test_remove_signer_below_threshold_errors() {
    let mut ctx = Ctx::setup();
    ctx.remove_signer(ctx.signer_c).unwrap();
    let result = ctx.remove_signer(ctx.signer_b);
    assert_eq!(result, Err(GovernanceError::QuorumWouldBreak));
    let signers = ctx.g.get_signers().unwrap();
    assert_eq!(signers.len(), 2);
}

#[test]
fn test_remove_signer_nonexistent_does_not_break_quorum() {
    let mut ctx = Ctx::setup();
    let stranger = ctx.generate();
    let result = ctx.remove_signer(stranger);
    assert!(result.is_ok());
    let signers = ctx.g.get_signers().unwrap();
    assert_eq!(signers.len(), 3);
}

#[test]
fn test_propose_returns_incremental_ids() {
    let mut ctx = Ctx::setup();
    let id0 = ctx.propose(ctx.signer_a);
    let id1 = ctx.propose(ctx.signer_b);
    assert_eq!(id0, 0);
    assert_eq!(id1, 1);
}

#[test]
fn test_propose_stores_proposal() {
    let mut ctx = Ctx::setup();
    let target = ctx.dummy_target();
    let data = ctx.calldata("set_cap:5000");
    let a = ctx.signer_a;
    let inv = ctx.by(a);
    let id = ctx.g.propose(&inv, a, target, data.clone()).unwrap();
    let p = ctx.g.get_proposal(id).unwrap();
    assert_eq!(p.proposer, ctx.signer_a);
    assert_eq!(p.target, target);
    assert_eq!(p.calldata, data);
    assert!(!p.executed);
    assert!(!p.cancelled);
    assert_eq!(p.approvals.len(), 0);
}

#[test]
fn test_propose_returns_structured_error_when_proposal_id_counter_overflows() {
    let mut ctx = Ctx::setup();
    ctx.g.next_proposal_id = u32::MAX;
    let target = ctx.dummy_target();
    let data = ctx.calldata("overflow");
    let a = ctx.signer_a;
    let inv = ctx.by(a);
    let result = ctx.g.propose(&inv, a, target, data);
    assert_eq!(result, Err(GovernanceError::ArithmeticOverflow));
    assert_eq!(ctx.g.proposal_count(), u32::MAX);
}

#[test]
fn test_approve_returns_structured_error_when_quorum_timelock_overflows() {
    let mut ctx = Ctx::setup();
    ctx.now = u64::MAX - MAX_AGE;
    let id = ctx.propose(ctx.signer_a);
    ctx.approve(ctx.signer_a, id).unwrap();
    ctx.now = u64::MAX - TIMELOCK + 1;
    let result = ctx.approve(ctx.signer_b, id);
    assert_eq!(result, Err(GovernanceError::ArithmeticOverflow));
}

#[test]
fn test_execute_returns_structured_error_when_quorum_timelock_overflows() {
    let mut ctx = Ctx::setup();
    ctx.now = u64::MAX - MAX_AGE;
    let id = ctx.propose(ctx.signer_a);
    let mut proposal = ctx.g.proposals.remove(&id).unwrap();
    proposal.approvals.push(ctx.signer_a);
    proposal.approvals.push(ctx.signer_b);
    ctx.g.proposals.insert(id, proposal);
    ctx.g.quorum.insert(id, QuorumInfo { reached_at: u64::MAX - TIMELOCK + 1, threshold: 2 });
    ctx.now = u64::MAX - 100;
    let result = ctx.execute(id);
    assert_eq!(result, Err(GovernanceError::ArithmeticOverflow));
}

#[test]
fn test_cancel_by_proposer_succeeds() {
    let mut ctx = Ctx::setup();
    let id = ctx.propose(ctx.signer_a);
    ctx.cancel(ctx.signer_a, id).unwrap();
    assert!(ctx.g.get_proposal(id).unwrap().cancelled);
}

#[test]
fn test_cancel_by_admin_succeeds() {
    let mut ctx = Ctx::setup();
    let id = ctx.propose(ctx.signer_a);
    ctx.cancel(ctx.admin, id).unwrap();
    assert!(ctx.g.get_proposal(id).unwrap().cancelled);
}

#[test]
fn test_cancel_unauthorized_errors() {
    let mut ctx = Ctx::setup();
    let id = ctx.propose(ctx.signer_a);
    let result = ctx.cancel(ctx.signer_b, id);
    assert_eq!(result, Err(GovernanceError::NotProposerOrAdmin));
}

#[test]
fn test_cancel_twice_errors() {
    let mut ctx = Ctx::setup();
    let id = ctx.propose(ctx.signer_a);
    ctx.cancel(ctx.signer_a, id).unwrap();
    let result = ctx.cancel(ctx.signer_a, id);
    assert_eq!(result, Err(GovernanceError::ProposalCancelled));
}

#[test]
fn test_cancel_executed_proposal_errors() {
    let mut ctx = Ctx::setup();
    let id = ctx.propose(ctx.signer_a);
    ctx.approve(ctx.signer_a, id).unwrap();
    ctx.approve(ctx.signer_b, id).unwrap();
    ctx.now = 1_000_000 + TIMELOCK + 1;
    ctx.execute(id).unwrap();
    let result = ctx.cancel(ctx.signer_a, id);
    assert_eq!(result, Err(GovernanceError::AlreadyExecuted));
}

#[test]
fn test_cancel_before_quorum() {
    let mut ctx = Ctx::setup();
    let id = ctx.propose(ctx.signer_a);
    ctx.cancel(ctx.signer_a, id).unwrap();
    let result = ctx.approve(ctx.signer_b, id);
    assert_eq!(result, Err(GovernanceError::ProposalCancelled));
}

#[test]
fn test_cancel_after_quorum_before_timelock() {
    let mut ctx = Ctx::setup();
    let id = ctx.propose(ctx.signer_a);
    ctx.approve(ctx.signer_a, id).unwrap();
    ctx.approve(ctx.signer_b, id).unwrap();
    ctx.cancel(ctx.signer_a, id).unwrap();
    let result = ctx.execute(id);
    assert_eq!(result, Err(GovernanceError::ProposalCancelled));
}

#[test]
fn test_approve_after_cancel_errors() {
    let mut ctx = Ctx::setup();
    let id = ctx.propose(ctx.signer_a);
    ctx.cancel(ctx.signer_a, id).unwrap();
    let result = ctx.approve(ctx.signer_b, id);
    assert_eq!(result, Err(GovernanceError::ProposalCancelled));
}

#[test]
fn test_execute_after_cancel_errors() {
    let mut ctx = Ctx::setup();
    let id = ctx.propose(ctx.signer_a);
    ctx.approve(ctx.signer_a, id).unwrap();
    ctx.approve(ctx.signer_b, id).unwrap();
    ctx.cancel(ctx.signer_a, id).unwrap();
    ctx.now = 1_000_000 + TIMELOCK + 1;
    let result = ctx.execute(id);
    assert_eq!(result, Err(GovernanceError::ProposalCancelled));
}

#[test]
fn test_approve_after_expiry_errors() {
    let mut ctx = Ctx::setup();
    let id = ctx.propose(ctx.signer_a);
    ctx.now = 1_000_000 + MAX_AGE + 1;
    let result = ctx.approve(ctx.signer_b, id);
    assert_eq!(result, Err(GovernanceError::ProposalExpired));
}

#[test]
fn test_execute_after_expiry_errors() {
    let mut ctx = Ctx::setup();
    let id = ctx.propose(ctx.signer_a);
    ctx.approve(ctx.signer_a, id).unwrap();
    ctx.approve(ctx.signer_b, id).unwrap();
    ctx.now = 1_000_000 + MAX_AGE + 1;
    let result = ctx.execute(id);
    assert_eq!(result, Err(GovernanceError::ProposalExpired));
}

#[test]
fn test_execute_at_expiry_boundary_succeeds() {
    let mut ctx = Ctx::setup();
    let id = ctx.propose(ctx.signer_a);
    ctx.approve(ctx.signer_a, id).unwrap();
    ctx.approve(ctx.signer_b, id).unwrap();
    ctx.now = 1_000_000 + MAX_AGE;
    assert!(ctx.execute(id).is_ok());
}

#[test]
fn test_expired_not_executable_even_with_quorum_and_timelock_met() {
    let mut ctx = Ctx::setup();
    let id = ctx.propose(ctx.signer_a);
    ctx.approve(ctx.signer_a, id).unwrap();
    ctx.approve(ctx.signer_b, id).unwrap();
    ctx.now = 1_000_000 + MAX_AGE + TIMELOCK + 100;
    let result = ctx.execute(id);
    assert_eq!(result, Err(GovernanceError::ProposalExpired));
}

#[test]
fn test_full_governance_flow() {
    let mut ctx = Ctx::setup();
    let target = ctx.dummy_target();
    let calldata = ctx.calldata("set_cap:100000");
    let a = ctx.signer_a;
    let inv = ctx.by(a);
    let id = ctx.g.propose(&inv, a, target, calldata).unwrap();
    assert_eq!(id, 0);
    ctx.approve(ctx.signer_a, id).unwrap();
    ctx.approve(ctx.signer_b, id).unwrap();
    let p = ctx.g.get_proposal(id).unwrap();
    assert_eq!(p.approvals.len(), 2);
    assert!(!p.executed);
    assert!(!p.cancelled);
    let early = ctx.execute(id);
    assert_eq!(early, Err(GovernanceError::TimelockNotElapsed));
    ctx.now = 1_000_000 + TIMELOCK + 1;
    ctx.execute(id).unwrap();
    let p = ctx.g.get_proposal(id).unwrap();
    assert!(p.executed);
    assert_eq!(p.target, target);
}

#[test]
fn test_execute_without_quorum_errors() {
    let mut ctx = Ctx::setup();
    let id = ctx.propose(ctx.signer_a);
    ctx.approve(ctx.signer_a, id).unwrap();
    ctx.now = 1_000_000 + TIMELOCK + 1;
    let result = ctx.execute(id);
    assert_eq!(result, Err(GovernanceError::QuorumNotReached));
}

#[test]
fn test_execute_twice_errors() {
    let mut ctx = Ctx::setup();
    let id = ctx.propose(ctx.signer_a);
    ctx.approve(ctx.signer_a, id).unwrap();
    ctx.approve(ctx.signer_b, id).unwrap();
    ctx.now = 1_000_000 + TIMELOCK + 1;
    ctx.execute(id).unwrap();
    let result = ctx.execute(id);
    assert_eq!(result, Err(GovernanceError::AlreadyExecuted));
}

#[test]
fn test_get_quorum_info_before_quorum() {
    let mut ctx = Ctx::setup();
    let id = ctx.propose(ctx.signer_a);
    assert!(ctx.g.get_quorum_info(id).is_none());
}

#[test]
fn test_get_quorum_info_below_threshold() {
    let mut ctx = Ctx::setup();
    let id = ctx.propose(ctx.signer_a);
    ctx.approve(ctx.signer_a, id).unwrap();
    assert!(ctx.g.get_quorum_info(id).is_none());
}

#[test]
fn test_get_quorum_info_after_quorum() {
    let mut ctx = Ctx::setup();
    let id = ctx.propose(ctx.signer_a);
    ctx.approve(ctx.signer_a, id).unwrap();
    ctx.approve(ctx.signer_b, id).unwrap();
    let info = ctx.g.get_quorum_info(id).expect("should have quorum info");
    assert_eq!(info.reached_at, 1_000_000);
    assert_eq!(info.threshold, 2);
}

#[test]
fn test_get_quorum_info_preserves_snapshot_threshold() {
    let mut ctx = Ctx::setup();
    let id = ctx.propose(ctx.signer_a);
    ctx.approve(ctx.signer_a, id).unwrap();
    ctx.approve(ctx.signer_b, id).unwrap();
    let info = ctx.g.get_quorum_info(id).expect("should have quorum info");
    assert_eq!(info.threshold, 2);
    ctx.remove_signer(ctx.signer_c).unwrap();
    let info = ctx.g.get_quorum_info(id).expect("should still have quorum info");
    assert_eq!(info.threshold, 2);
}

#[test]
fn test_get_quorum_info_none_for_nonexistent_proposal() {
    let ctx = Ctx::setup();
    assert!(ctx.g.get_quorum_info(999).is_none());
}

#[test]
fn test_get_quorum_info_none_after_execute() {
    let mut ctx = Ctx::setup();
    let id = ctx.propose(ctx.signer_a);
    ctx.approve(ctx.signer_a, id).unwrap();
    ctx.approve(ctx.signer_b, id).unwrap();
    ctx.now = 1_000_000 + TIMELOCK + 1;
    ctx.execute(id).unwrap();
    let info = ctx.g.get_quorum_info(id).expect("should still have quorum info after execute");
    assert_eq!(info.reached_at, 1_000_000);
    assert_eq!(info.threshold, 2);
}

#[test]
fn test_is_executable_nonexistent_proposal() {
    let ctx = Ctx::setup();
    assert_eq!(ctx.g.is_executable(ctx.now, 999), Err(GovernanceError::ProposalNotFound));
}

#[test]
fn test_is_executable_pre_quorum() {
    let mut ctx = Ctx::setup();
    let id = ctx.propose(ctx.signer_a);
    assert!(!ctx.is_executable(id));
}

#[test]
fn test_is_executable_below_threshold() {
    let mut ctx = Ctx::setup();
    let id = ctx.propose(ctx.signer_a);
    ctx.approve(ctx.signer_a, id).unwrap();
    assert!(!ctx.is_executable(id));
}

#[test]
fn test_is_executable_post_quorum_pre_timelock() {
    let mut ctx = Ctx::setup();
    let id = ctx.propose(ctx.signer_a);
    ctx.approve(ctx.signer_a, id).unwrap();
    ctx.approve(ctx.signer_b, id).unwrap();
    assert!(!ctx.is_executable(id));
}

#[test]
fn test_is_executable_post_timelock() {
    let mut ctx = Ctx::setup();
    let id = ctx.propose(ctx.signer_a);
    ctx.approve(ctx.signer_a, id).unwrap();
    ctx.approve(ctx.signer_b, id).unwrap();
    ctx.now = 1_000_000 + TIMELOCK + 1;
    assert!(ctx.is_executable(id));
}

#[test]
fn test_is_executable_cancelled() {
    let mut ctx = Ctx::setup();
    let id = ctx.propose(ctx.signer_a);
    ctx.approve(ctx.signer_a, id).unwrap();
    ctx.approve(ctx.signer_b, id).unwrap();
    ctx.cancel(ctx.signer_a, id).unwrap();
    ctx.now = 1_000_000 + TIMELOCK + 1;
    assert!(!ctx.is_executable(id));
}

#[test]
fn test_is_executable_executed() {
    let mut ctx = Ctx::setup();
    let id = ctx.propose(ctx.signer_a);
    ctx.approve(ctx.signer_a, id).unwrap();
    ctx.approve(ctx.signer_b, id).unwrap();
    ctx.now = 1_000_000 + TIMELOCK + 1;
    ctx.execute(id).unwrap();
    assert!(!ctx.is_executable(id));
}

#[test]
fn test_is_executable_expired() {
    let mut ctx = Ctx::setup();
    let id = ctx.propose(ctx.signer_a);
    ctx.approve(ctx.signer_a, id).unwrap();
    ctx.approve(ctx.signer_b, id).unwrap();
    ctx.now = 1_000_000 + MAX_AGE + 1;
    assert!(!ctx.is_executable(id));
}

#[test]
fn test_is_executable_at_timelock_boundary() {
    let mut ctx = Ctx::setup();
    let id = ctx.propose(ctx.signer_a);
    ctx.approve(ctx.signer_a, id).unwrap();
    ctx.approve(ctx.signer_b, id).unwrap();
    ctx.now = 1_000_000 + TIMELOCK;
    assert!(ctx.is_executable(id));
}

#[test]
fn test_is_executable_one_second_before_timelock() {
    let mut ctx = Ctx::setup();
    let id = ctx.propose(ctx.signer_a);
    ctx.approve(ctx.signer_a, id).unwrap();
    ctx.approve(ctx.signer_b, id).unwrap();
    ctx.now = 1_000_000 + TIMELOCK - 1;
    assert!(!ctx.is_executable(id));
}

#[test]
fn test_is_executable_at_expiry_boundary() {
    let mut ctx = Ctx::setup();
    let id = ctx.propose(ctx.signer_a);
    ctx.approve(ctx.signer_a, id).unwrap();
    ctx.approve(ctx.signer_b, id).unwrap();
    ctx.now = 1_000_000 + MAX_AGE;
    assert!(ctx.is_executable(id));
}

#[test]
fn test_is_executable_one_second_before_expiry() {
    let mut ctx = Ctx::setup();
    let id = ctx.propose(ctx.signer_a);
    ctx.approve(ctx.signer_a, id).unwrap();
    ctx.approve(ctx.signer_b, id).unwrap();
    ctx.now = 1_000_000 + MAX_AGE - 1;
    assert!(ctx.is_executable(id));
}

#[test]
fn test_is_executable_one_second_after_expiry() {
    let mut ctx = Ctx::setup();
    let id = ctx.propose(ctx.signer_a);
    ctx.approve(ctx.signer_a, id).unwrap();
    ctx.approve(ctx.signer_b, id).unwrap();
    ctx.now = 1_000_000 + MAX_AGE + 1;
    assert!(!ctx.is_executable(id));
}

#[test]
fn test_is_executable_agrees_with_execute_across_states() {
    let mut ctx = Ctx::setup();
    let id = ctx.propose(ctx.signer_a);
    assert!(!ctx.is_executable(id));
    assert_eq!(ctx.execute(id), Err(GovernanceError::QuorumNotReached));

    ctx.approve(ctx.signer_a, id).unwrap();
    ctx.approve(ctx.signer_b, id).unwrap();
    assert!(!ctx.is_executable(id));
    assert_eq!(ctx.execute(id), Err(GovernanceError::TimelockNotElapsed));

    ctx.now = 1_000_000 + TIMELOCK + 1;
    assert!(ctx.is_executable(id));
    assert!(ctx.execute(id).is_ok());

    assert!(!ctx.is_executable(id));
    assert_eq!(ctx.execute(id), Err(GovernanceError::AlreadyExecuted));

    let id2 = ctx.propose(ctx.signer_a);
    ctx.approve(ctx.signer_a, id2).unwrap();
    ctx.approve(ctx.signer_b, id2).unwrap();
    ctx.cancel(ctx.signer_a, id2).unwrap();
    assert!(!ctx.is_executable(id2));
    assert_eq!(ctx.execute(id2), Err(GovernanceError::ProposalCancelled));

    let id3 = ctx.propose(ctx.signer_a);
    ctx.approve(ctx.signer_a, id3).unwrap();
    ctx.approve(ctx.signer_b, id3).unwrap();
    ctx.now = 1_000_000 + MAX_AGE + TIMELOCK + 100;
    assert!(!ctx.is_executable(id3));
    assert_eq!(ctx.execute(id3), Err(GovernanceError::ProposalExpired));
}

// Further cases of this crate.

#[test]
fn approval_by_non_signer_is_refused() {
    let mut ctx = Ctx::setup();
    let id = ctx.propose(ctx.signer_a);
    let stranger = ctx.generate();
    assert_eq!(ctx.approve(stranger, id), Err(GovernanceError::NotASigner));
}

#[test]
fn double_approval_is_refused() {
    let mut ctx = Ctx::setup();
    let id = ctx.propose(ctx.signer_a);
    ctx.approve(ctx.signer_a, id).unwrap();
    assert_eq!(ctx.approve(ctx.signer_a, id), Err(GovernanceError::AlreadyApproved));
    assert_eq!(ctx.g.get_proposal(id).unwrap().approvals.len(), 1);
}

#[test]
fn init_twice_and_duplicate_signers_are_refused() {
    let mut ctx = Ctx::setup();
    let a = ctx.signer_a;
    assert_eq!(ctx.g.init(a, vec![a], 1), Err(GovernanceError::AlreadyInitialized));
    let (_, dup) = fresh_init(vec![account(91), account(92), account(91)], 2);
    assert_eq!(dup, Err(GovernanceError::DuplicateSigner));
    let many: Vec<Address> = (0..21).map(|i| account(200 + i)).collect();
    let (_, too_many) = fresh_init(many, 2);
    assert_eq!(too_many, Err(GovernanceError::TooManySigners));
}

#[test]
fn signer_management_and_admin_rotation() {
    let mut ctx = Ctx::setup();
    let newcomer = ctx.generate();
    let inv = ctx.by(ctx.admin);
    ctx.g.add_signer(&inv, newcomer).unwrap();
    assert_eq!(ctx.g.add_signer(&inv, newcomer), Err(GovernanceError::DuplicateSigner));
    assert_eq!(ctx.g.get_signers().unwrap().len(), 4);
    assert_eq!(ctx.g.is_signer(newcomer), Ok(true));
    let new_admin = ctx.generate();
    ctx.g.set_admin(&inv, new_admin).unwrap();
    assert_eq!(ctx.g.admin, Some(new_admin));
}

#[test]
fn calldata_over_limit_is_refused() {
    let mut ctx = Ctx::setup();
    let target = ctx.dummy_target();
    let a = ctx.signer_a;
    let inv = ctx.by(a);
    let big = vec![0u8; 4097];
    assert_eq!(ctx.g.propose(&inv, a, target, big), Err(GovernanceError::CalldataTooLarge));
    let exact = vec![0u8; 4096];
    assert!(ctx.g.propose(&inv, a, target, exact).is_ok());
}

#[test]
fn execution_records_the_target_invocation() {
    let mut ctx = Ctx::setup();
    let target = ctx.dummy_target();
    let data = ctx.calldata("set_cap");
    let a = ctx.signer_a;
    let inv = ctx.by(a);
    let id = ctx.g.propose(&inv, a, target, data).unwrap();
    ctx.approve(ctx.signer_a, id).unwrap();
    ctx.approve(ctx.signer_b, id).unwrap();
    ctx.now = 1_000_000 + TIMELOCK;
    let executor = ctx.generate();
    let inv = ctx.by(executor);
    let before = ctx.g.log.len();
    ctx.g.execute(&inv, executor, id, Some(CallData::FactorySetCap(5000))).unwrap();
    match &ctx.g.log[before] {
        GovernanceEffect::Invoke { target: t, call } => {
            assert_eq!(*t, target);
            assert_eq!(*call, CallData::FactorySetCap(5000));
        },
        _ => panic!("expected the target invocation"),
    }
}

#[test]
fn deadlines_add_or_overflow() {
    assert_eq!(checked_deadline(10, 5), Ok(15));
    assert_eq!(checked_deadline(u64::MAX, 1), Err(GovernanceError::ArithmeticOverflow));
    let info = QuorumInfo { reached_at: 1_000, threshold: 1 };
    assert_eq!(FluxoraGovernance::executable_after(&info), Ok(1_000 + GOVERNANCE_TIMELOCK_SECONDS));
    assert_eq!(GovernanceError::InvalidCalldata.code(), 19);
}

#[test]
fn proposal_ids_are_dense_from_zero() {
    let mut ctx = Ctx::setup();
    assert_eq!(ctx.g.proposal_count(), 0);
    assert_eq!(ctx.g.get_proposal(0).err(), Some(GovernanceError::ProposalNotFound));
    let (a, b) = (ctx.signer_a, ctx.signer_b);
    assert_eq!(ctx.propose(a), 0);
    assert_eq!(ctx.propose(b), 1);
    assert_eq!(ctx.propose(a), 2);
    assert_eq!(ctx.g.proposal_count(), 3);
    for id in 0..3 {
        assert!(ctx.g.get_proposal(id).is_ok());
    }
    assert_eq!(ctx.g.get_proposal(3).err(), Some(GovernanceError::ProposalNotFound));
    ctx.cancel(b, 1).unwrap();
    assert!(ctx.g.get_proposal(1).is_ok());
    assert_eq!(ctx.g.proposal_count(), 3);
}

#[test]
fn approving_twice_is_refused() {
    let mut ctx = Ctx::setup();
    let (a, b) = (ctx.signer_a, ctx.signer_b);
    let id = ctx.propose(a);
    ctx.approve(b, id).unwrap();
    assert_eq!(ctx.approve(b, id), Err(GovernanceError::AlreadyApproved));
    assert_eq!(ctx.g.get_proposal(id).unwrap().approvals, vec![b]);
}
