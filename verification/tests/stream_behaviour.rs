use fluxora::accrual::{calculate_accrued_amount_checkpointed, CheckpointState};
use fluxora::address::Address;
use fluxora::stream::FluxoraStream;
use fluxora::stream_types::{
    ContractError, CreateStreamParams, CreateStreamRelativeParams, Effect, Invocation, PauseReason, StreamStatus,
};

const INITIAL_MINT: i128 = 10_000;

fn account(n: u64) -> Address {
    Address::new(false, n, 33, 0, 0)
}

struct Ctx {
    s: FluxoraStream,
    now: u64,
    admin: Address,
    sender: Address,
    recipient: Address,
    next_generated: u64,
    /// Tokens moved in or out of the contract by hand (outside any stream).
    external_delta: i128,
}

impl Ctx {
    fn setup() -> Self {
        let admin = account(1);
        let token = Address::new(true, 2, 0, 0, 0);
        let mut s = FluxoraStream::new();
        s.init(&Invocation { timestamp: 0, contract: contract(), signers: vec![admin] }, token, admin).unwrap();
        Ctx { s, now: 0, admin, sender: account(3), recipient: account(4), next_generated: 100, external_delta: 0 }
    }

    fn by(&self, who: Address) -> Invocation {
        Invocation { timestamp: self.now, contract: contract(), signers: vec![who] }
    }

    fn generate(&mut self) -> Address {
        self.next_generated += 1;
        account(self.next_generated)
    }

    /// The contract's token balance implied by the recorded transfers.
    fn contract_balance(&self) -> i128 {
        let mut b = self.external_delta;
        for e in self.s.log.iter() {
            match e {
                Effect::Pull { amount, .. } => b += *amount,
                Effect::Push { amount, .. } => b -= *amount,
                _ => {},
            }
        }
        b
    }

    fn received_by(&self, who: Address) -> i128 {
        let mut b = 0;
        for e in self.s.log.iter() {
            if let Effect::Push { to, amount } = e {
                if *to == who {
                    b += *amount;
                }
            }
        }
        b
    }

    fn sender_balance(&self) -> i128 {
        let mut b = INITIAL_MINT;
        for e in self.s.log.iter() {
            if let Effect::Pull { from, amount } = e {
                if *from == self.sender {
                    b -= *amount;
                }
            }
        }
        b + self.received_by(self.sender)
    }

    fn create(&mut self, deposit: i128, rate: i128, start: u64, cliff: u64, end: u64, dust: i128) -> u64 {
        let (sender, recipient) = (self.sender, self.recipient);
        let inv = self.by(sender);
        self.s.create_stream(&inv, sender, recipient, deposit, rate, start, cliff, end, dust, None).unwrap()
    }

    fn create_default_stream(&mut self) -> u64 {
        self.create(1000, 1, 0, 0, 1000, 0)
    }

    fn withdraw(&mut self, id: u64) -> Result<i128, ContractError> {
        let recipient = self.s.get_stream_state(id).unwrap().recipient;
        let inv = self.by(recipient);
        let balance = self.contract_balance();
        self.s.withdraw(&inv, id, balance)
    }

    fn cancel(&mut self, id: u64) -> Result<(), ContractError> {
        let sender = self.s.get_stream_state(id).unwrap().sender;
        let inv = self.by(sender);
        self.s.cancel_stream(&inv, id)
    }

    fn pause(&mut self, id: u64) -> Result<(), ContractError> {
        let inv = self.by(self.sender);
        self.s.pause_stream(&inv, id, PauseReason::Operational)
    }

    fn resume(&mut self, id: u64) -> Result<(), ContractError> {
        let inv = self.by(self.sender);
        self.s.resume_stream(&inv, id)
    }

    fn accrued(&self, id: u64) -> i128 {
        self.s.calculate_accrued(self.now, id).unwrap()
    }

    fn withdrawable(&self, id: u64) -> i128 {
        self.s.get_withdrawable(self.now, id, self.contract_balance()).unwrap()
    }

    fn relative(&mut self, p: CreateStreamRelativeParams) -> Result<u64, ContractError> {
        let sender = self.sender;
        let inv = self.by(sender);
        self.s.create_stream_relative(&inv, sender, p)
    }

    fn relative_batch(&mut self, ps: Vec<CreateStreamRelativeParams>) -> Result<Vec<u64>, ContractError> {
        let sender = self.sender;
        let inv = self.by(sender);
        self.s.create_streams_relative(&inv, sender, &ps)
    }
}

fn contract() -> Address {
    Address::new(true, 70, 0, 0, 0)
}

fn rel(recipient: Address, deposit: i128, rate: i128, start_delay: u64, cliff_delay: u64, duration: u64) -> CreateStreamRelativeParams {
    CreateStreamRelativeParams {
        recipient,
        deposit_amount: deposit,
        rate_per_second: rate,
        start_delay,
        cliff_delay,
        duration,
        withdraw_dust_threshold: None,
        memo: None,
    }
}

fn fresh_checkpoint(start: u64, cliff: u64, end: u64, deposit: i128) -> CheckpointState {
    CheckpointState { checkpointed_amount: 0, checkpointed_at: start, cliff_time: cliff, end_time: end, deposit_amount: deposit }
}

fn assert_invariants(ctx: &Ctx, id: u64, label: &str) {
    let state = ctx.s.get_stream_state(id).unwrap();
    let deposit = state.deposit_amount;
    let withdrawn = state.withdrawn_amount;
    assert!(withdrawn >= 0, "{label}: withdrawn negative: {withdrawn}");
    assert!(withdrawn <= deposit, "{label}: withdrawn={withdrawn} > deposit={deposit}");
    let accrued = ctx.accrued(id);
    assert!(accrued >= 0, "{label}: accrued negative: {accrued}");
    assert!(accrued <= deposit, "{label}: accrued={accrued} > deposit={deposit}");
    assert!(accrued >= withdrawn, "{label}: accrued={accrued} < withdrawn={withdrawn}");
    let withdrawable = ctx.withdrawable(id);
    assert!(withdrawable >= 0, "{label}: get_withdrawable negative: {withdrawable}");
    assert!(withdrawable <= deposit, "{label}: get_withdrawable={withdrawable} > deposit={deposit}");
}

fn setup_standard(deposit: i128) -> (Ctx, u64) {
    let mut ctx = Ctx::setup();
    ctx.now = 0;
    let id = ctx.create(deposit, 1, 0, 0, 1000, 0);
    (ctx, id)
}

// ---------------------------------------------------------------------------
// Accrual
// ---------------------------------------------------------------------------

#[test]
fn smoke_accrual_examples() {
    let r = calculate_accrued_amount_checkpointed(fresh_checkpoint(0, 0, 1000, 1000), 1, 500);
    assert_eq!(r, 500);
    let r2 = calculate_accrued_amount_checkpointed(fresh_checkpoint(100, 100, 200, 100), 1, 150);
    assert_eq!(r2, 50);
}

#[test]
fn accrual_before_cliff_after_end_and_on_overflow() {
    let cp = fresh_checkpoint(100, 200, 300, 150);
    assert_eq!(calculate_accrued_amount_checkpointed(cp, 1, 199), 0);
    assert_eq!(calculate_accrued_amount_checkpointed(cp, 1, 200), 100);
    assert_eq!(calculate_accrued_amount_checkpointed(cp, 1, 10_000), 150);
    let huge = fresh_checkpoint(0, 0, u64::MAX, 77);
    assert_eq!(calculate_accrued_amount_checkpointed(huge, i128::MAX, 10), 77);
    let resumed = CheckpointState { checkpointed_amount: 500, checkpointed_at: 50, cliff_time: 0, end_time: 100, deposit_amount: 750 };
    assert_eq!(calculate_accrued_amount_checkpointed(resumed, 5, 60), 550);
}

// ---------------------------------------------------------------------------
// Withdrawals
// ---------------------------------------------------------------------------

#[test]
fn test_withdraw_multiple_partial_withdrawals() {
    let mut ctx = Ctx::setup();
    let stream_id = ctx.create_default_stream();
    ctx.now = 200;
    assert_eq!(ctx.withdraw(stream_id).unwrap(), 200);
    assert_eq!(ctx.s.get_stream_state(stream_id).unwrap().withdrawn_amount, 200);
    ctx.now = 500;
    assert_eq!(ctx.withdraw(stream_id).unwrap(), 300);
    assert_eq!(ctx.s.get_stream_state(stream_id).unwrap().withdrawn_amount, 500);
    ctx.now = 900;
    assert_eq!(ctx.withdraw(stream_id).unwrap(), 400);
    assert_eq!(ctx.s.get_stream_state(stream_id).unwrap().withdrawn_amount, 900);
    ctx.now = 1000;
    assert_eq!(ctx.withdraw(stream_id).unwrap(), 100);
    let state = ctx.s.get_stream_state(stream_id).unwrap();
    assert_eq!(state.withdrawn_amount, 1000);
    assert_eq!(state.status, StreamStatus::Completed);
}

#[test]
fn test_withdraw_exact_remaining_accrued() {
    let mut ctx = Ctx::setup();
    let stream_id = ctx.create_default_stream();
    ctx.now = 750;
    ctx.withdraw(stream_id).unwrap();
    ctx.now = 1000;
    assert_eq!(ctx.withdrawable(stream_id), 250);
    assert_eq!(ctx.withdraw(stream_id).unwrap(), 250);
    assert_eq!(ctx.s.get_stream_state(stream_id).unwrap().status, StreamStatus::Completed);
}

#[test]
fn test_withdraw_cap_contract_balance_safety() {
    let mut ctx = Ctx::setup();
    let stream_id = ctx.create_default_stream();
    ctx.now = 1000;
    ctx.external_delta -= 400;
    let amt = ctx.withdraw(stream_id).unwrap();
    assert_eq!(amt, 600, "Withdrawn amount must be capped by contract balance");
    let state = ctx.s.get_stream_state(stream_id).unwrap();
    assert_eq!(state.withdrawn_amount, 600);
    assert_eq!(state.status, StreamStatus::Active, "Must not be completed if capped by balance");
    ctx.external_delta += 400;
    assert_eq!(ctx.withdraw(stream_id).unwrap(), 400);
    assert_eq!(ctx.s.get_stream_state(stream_id).unwrap().status, StreamStatus::Completed);
}

#[test]
fn test_batch_withdraw_running_balance_cap() {
    let mut ctx = Ctx::setup();
    let id1 = ctx.create(500, 1, 0, 500, 500, 0);
    let id2 = ctx.create(500, 1, 0, 500, 500, 0);
    ctx.now = 500;
    ctx.external_delta -= 300;
    let recipient = ctx.recipient;
    let inv = ctx.by(recipient);
    let balance = ctx.contract_balance();
    let results = ctx.s.batch_withdraw(&inv, recipient, &vec![id1, id2], balance).unwrap();
    assert_eq!(results[0].amount, 500);
    assert_eq!(results[1].amount, 200);
    assert_eq!(ctx.s.get_stream_state(id1).unwrap().status, StreamStatus::Completed);
    assert_eq!(ctx.s.get_stream_state(id2).unwrap().status, StreamStatus::Active);
}

#[test]
fn test_withdraw_dust_threshold_enforced() {
    let mut ctx = Ctx::setup();
    let stream_id = ctx.create(1000, 1, 0, 0, 1000, 100);
    ctx.now = 50;
    assert_eq!(ctx.withdraw(stream_id).unwrap(), 0, "should return 0 when below threshold");
    assert_eq!(ctx.received_by(ctx.recipient), 0);
    ctx.now = 150;
    assert_eq!(ctx.withdraw(stream_id).unwrap(), 150, "should allow withdrawal above threshold");
    assert_eq!(ctx.received_by(ctx.recipient), 150);
}

#[test]
fn test_withdraw_dust_threshold_ignored_on_final_drain() {
    let mut ctx = Ctx::setup();
    let stream_id = ctx.create(1000, 1, 0, 0, 1000, 500);
    ctx.now = 950;
    ctx.withdraw(stream_id).unwrap();
    assert_eq!(ctx.received_by(ctx.recipient), 950);
    ctx.now = 1000;
    assert_eq!(ctx.withdraw(stream_id).unwrap(), 50, "should allow final drain even if below threshold");
    assert_eq!(ctx.received_by(ctx.recipient), 1000);
    assert_eq!(ctx.s.get_stream_state(stream_id).unwrap().status, StreamStatus::Completed);
}

#[test]
fn test_withdraw_dust_threshold_ignored_in_terminal_state() {
    let mut ctx = Ctx::setup();
    let stream_id = ctx.create(1000, 1, 0, 0, 1000, 500);
    ctx.now = 100;
    ctx.cancel(stream_id).unwrap();
    assert_eq!(ctx.withdraw(stream_id).unwrap(), 100);
    assert_eq!(ctx.received_by(ctx.recipient), 100);
}

#[test]
fn test_withdraw_dust_threshold_ignored_past_end_time() {
    let mut ctx = Ctx::setup();
    let stream_id = ctx.create(1000, 1, 0, 0, 1000, 500);
    ctx.now = 900;
    ctx.withdraw(stream_id).unwrap();
    ctx.now = 1100;
    assert_eq!(ctx.withdraw(stream_id).unwrap(), 100);
}

// ---------------------------------------------------------------------------
// Invariants across status transitions
// ---------------------------------------------------------------------------

#[test]
fn invariants_active_at_start() {
    let (mut ctx, id) = setup_standard(1000);
    ctx.now = 0;
    assert_invariants(&ctx, id, "active t=0");
}

#[test]
fn invariants_active_midstream() {
    let (mut ctx, id) = setup_standard(1000);
    ctx.now = 500;
    assert_invariants(&ctx, id, "active t=500");
}

#[test]
fn invariants_active_at_end() {
    let (mut ctx, id) = setup_standard(1000);
    ctx.now = 1000;
    assert_invariants(&ctx, id, "active t=1000");
}

#[test]
fn invariants_after_partial_withdrawal() {
    let (mut ctx, id) = setup_standard(1000);
    ctx.now = 300;
    ctx.withdraw(id).unwrap();
    assert_invariants(&ctx, id, "after partial withdraw t=300");
}

#[test]
fn invariants_after_multiple_withdrawals() {
    let (mut ctx, id) = setup_standard(1000);
    for t in [100u64, 300, 600, 900, 1000] {
        ctx.now = t;
        ctx.withdraw(id).unwrap();
        assert_invariants(&ctx, id, &format!("multi-withdraw t={t}"));
    }
}

#[test]
fn invariants_completed_stream() {
    let (mut ctx, id) = setup_standard(1000);
    ctx.now = 1000;
    ctx.withdraw(id).unwrap();
    assert_eq!(ctx.s.get_stream_state(id).unwrap().status, StreamStatus::Completed);
    assert_invariants(&ctx, id, "completed");
}

#[test]
fn invariants_paused_stream() {
    let (mut ctx, id) = setup_standard(1000);
    ctx.now = 400;
    ctx.pause(id).unwrap();
    assert_invariants(&ctx, id, "paused t=400");
}

#[test]
fn invariants_paused_then_resumed() {
    let (mut ctx, id) = setup_standard(1000);
    ctx.now = 400;
    ctx.pause(id).unwrap();
    ctx.now = 600;
    ctx.resume(id).unwrap();
    assert_invariants(&ctx, id, "resumed t=600");
}

#[test]
fn invariants_paused_withdraw_then_resume() {
    let (mut ctx, id) = setup_standard(1000);
    ctx.now = 400;
    ctx.pause(id).unwrap();
    assert_invariants(&ctx, id, "paused before resume");
    ctx.now = 600;
    ctx.resume(id).unwrap();
    ctx.withdraw(id).unwrap();
    assert_invariants(&ctx, id, "post-resume withdraw");
}

#[test]
fn invariants_cancelled_before_cliff() {
    let mut ctx = Ctx::setup();
    let id = ctx.create(1000, 1, 0, 500, 1000, 0);
    ctx.now = 200;
    ctx.cancel(id).unwrap();
    assert_invariants(&ctx, id, "cancelled before cliff");
}

#[test]
fn invariants_cancelled_after_partial_accrual() {
    let (mut ctx, id) = setup_standard(1000);
    ctx.now = 300;
    ctx.withdraw(id).unwrap();
    ctx.now = 600;
    ctx.cancel(id).unwrap();
    assert_invariants(&ctx, id, "cancelled after partial accrual");
    ctx.withdraw(id).unwrap();
    assert_invariants(&ctx, id, "post-cancel final withdraw");
}

#[test]
fn invariants_cancelled_fully_accrued() {
    let (mut ctx, id) = setup_standard(1000);
    ctx.now = 1000;
    ctx.cancel(id).unwrap();
    assert_invariants(&ctx, id, "cancelled fully accrued");
}

#[test]
fn invariants_high_rate_deposit_capped() {
    let mut ctx = Ctx::setup();
    let id = ctx.create(1000, 10, 0, 0, 100, 0);
    for t in [0u64, 10, 50, 99, 100, 200] {
        ctx.now = t;
        assert_invariants(&ctx, id, &format!("high-rate t={t}"));
    }
}

#[test]
fn invariants_excess_deposit_stream() {
    let mut ctx = Ctx::setup();
    let id = ctx.create(2000, 1, 0, 0, 1000, 0);
    for t in [0u64, 500, 1000, 1500] {
        ctx.now = t;
        assert_invariants(&ctx, id, &format!("excess-deposit t={t}"));
    }
    ctx.now = 1000;
    ctx.withdraw(id).unwrap();
    assert_invariants(&ctx, id, "excess-deposit post-withdraw");
}

#[test]
fn invariants_multiple_pause_resume_cycles() {
    let (mut ctx, id) = setup_standard(1000);
    for (t, pause) in [(100u64, true), (200, false), (300, true), (500, false), (700, true), (800, false)] {
        ctx.now = t;
        if pause {
            ctx.pause(id).unwrap();
        } else {
            ctx.resume(id).unwrap();
        }
        assert_invariants(&ctx, id, &format!("cycle pause={pause} t={t}"));
    }
    ctx.now = 1000;
    ctx.withdraw(id).unwrap();
    assert_invariants(&ctx, id, "post-cycles final withdraw");
}

// ---------------------------------------------------------------------------
// Balance conservation regressions
// ---------------------------------------------------------------------------

#[test]
fn regression_rate_decrease_preserves_entitlement() {
    let mut ctx = Ctx::setup();
    let id = ctx.create(1000, 10, 0, 0, 100, 0);
    ctx.now = 50;
    let accrued_before = ctx.accrued(id);
    let withdrawable_before = ctx.withdrawable(id);
    assert_eq!(accrued_before, 500);
    let inv = ctx.by(ctx.sender);
    ctx.s.decrease_rate_per_second(&inv, id, 5).unwrap();
    let stream = ctx.s.get_stream_state(id).unwrap();
    assert_eq!(stream.rate_per_second, 5);
    assert_eq!(stream.checkpointed_at, 50);
    assert_eq!(stream.checkpointed_amount, 500);
    assert_eq!(stream.deposit_amount, 750);
    assert_eq!(ctx.accrued(id), accrued_before, "same-timestamp accrued must be preserved");
    assert!(ctx.withdrawable(id) >= withdrawable_before, "same-timestamp withdrawable must not decrease");
}

#[test]
fn regression_completed_stream_accrual_is_deterministic() {
    let mut ctx = Ctx::setup();
    let id = ctx.create(1000, 1, 0, 0, 1000, 0);
    ctx.now = 1000;
    ctx.withdraw(id).unwrap();
    assert_eq!(ctx.s.get_stream_state(id).unwrap().status, StreamStatus::Completed);
    for t in [0u64, 500, 1000, 10_000, u64::MAX] {
        ctx.now = t;
        assert_eq!(ctx.accrued(id), 1000);
    }
}

#[test]
fn regression_immediate_cancel_refunds_full_deposit() {
    let mut ctx = Ctx::setup();
    let deposit = 1234i128;
    let id = ctx.create(deposit, 1, 100, 100, 500, 0);
    let sender_before = ctx.sender_balance();
    let contract_before = ctx.contract_balance();
    ctx.now = 0;
    ctx.cancel(id).unwrap();
    assert_eq!(ctx.sender_balance(), sender_before + deposit);
    assert_eq!(ctx.contract_balance(), contract_before - deposit);
    assert_eq!(ctx.sender_balance() + ctx.received_by(ctx.recipient) + ctx.contract_balance(), INITIAL_MINT);
}

// ---------------------------------------------------------------------------
// Relative creation
// ---------------------------------------------------------------------------

#[test]
fn create_stream_relative_zero_delays_immediate_start() {
    let mut ctx = Ctx::setup();
    ctx.now = 1000;
    let r = ctx.recipient;
    let stream_id = ctx.relative(rel(r, 1000, 1, 0, 0, 1000)).unwrap();
    let state = ctx.s.get_stream_state(stream_id).unwrap();
    assert_eq!(state.stream_id, 0);
    assert_eq!(state.start_time, 1000);
    assert_eq!(state.cliff_time, 1000);
    assert_eq!(state.end_time, 2000);
    assert_eq!(state.status, StreamStatus::Active);
    assert_eq!(ctx.sender_balance(), 9_000);
    assert_eq!(ctx.contract_balance(), 1_000);
}

#[test]
fn create_stream_relative_positive_delays_future_start() {
    let mut ctx = Ctx::setup();
    ctx.now = 1000;
    let r = ctx.recipient;
    let stream_id = ctx.relative(rel(r, 4000, 2, 100, 500, 2000)).unwrap();
    let state = ctx.s.get_stream_state(stream_id).unwrap();
    assert_eq!(state.start_time, 1100);
    assert_eq!(state.cliff_time, 1500);
    assert_eq!(state.end_time, 3100);
}

#[test]
fn create_stream_relative_zero_duration_rejected() {
    let mut ctx = Ctx::setup();
    ctx.now = 1000;
    let r = ctx.recipient;
    assert_eq!(ctx.relative(rel(r, 1000, 1, 100, 100, 0)), Err(ContractError::InvalidParams));
}

#[test]
fn create_stream_relative_cliff_less_than_start_rejected() {
    let mut ctx = Ctx::setup();
    ctx.now = 1000;
    let r = ctx.recipient;
    assert_eq!(ctx.relative(rel(r, 1000, 1, 500, 100, 1000)), Err(ContractError::InvalidParams));
}

#[test]
fn create_stream_relative_cliff_greater_than_end_rejected() {
    let mut ctx = Ctx::setup();
    ctx.now = 1000;
    let r = ctx.recipient;
    assert_eq!(ctx.relative(rel(r, 1000, 1, 100, 2000, 1000)), Err(ContractError::InvalidParams));
}

#[test]
fn create_stream_relative_start_delay_overflow_rejected() {
    let mut ctx = Ctx::setup();
    ctx.now = u64::MAX - 100;
    let r = ctx.recipient;
    assert_eq!(ctx.relative(rel(r, 1000, 1, u64::MAX, 0, 1000)), Err(ContractError::InvalidParams));
}

#[test]
fn create_stream_relative_duration_overflow_rejected() {
    let mut ctx = Ctx::setup();
    ctx.now = 1000;
    let r = ctx.recipient;
    assert_eq!(ctx.relative(rel(r, 1000, 1, u64::MAX - 500, 0, 1000)), Err(ContractError::InvalidParams));
}

#[test]
fn create_stream_relative_never_start_time_in_past() {
    let mut ctx = Ctx::setup();
    ctx.now = 5000;
    let r = ctx.recipient;
    let stream_id = ctx.relative(rel(r, 1000, 1, 0, 0, 1000)).unwrap();
    let state = ctx.s.get_stream_state(stream_id).unwrap();
    assert_eq!(state.start_time, 5000);
    assert!(state.start_time >= 5000, "start_time must be >= current_time");
}

#[test]
fn create_stream_relative_insufficient_deposit_rejected() {
    let mut ctx = Ctx::setup();
    ctx.now = 1000;
    let r = ctx.recipient;
    assert_eq!(ctx.relative(rel(r, 500, 2, 0, 0, 300)), Err(ContractError::InsufficientDeposit));
}

#[test]
fn create_stream_relative_rejects_self_stream() {
    let mut ctx = Ctx::setup();
    ctx.now = 1000;
    let s = ctx.sender;
    assert_eq!(ctx.relative(rel(s, 1000, 1, 0, 0, 1000)), Err(ContractError::InvalidParams));
}

#[test]
fn create_streams_relative_single_entry() {
    let mut ctx = Ctx::setup();
    ctx.now = 2000;
    let r = ctx.recipient;
    let ids = ctx.relative_batch(vec![rel(r, 1000, 1, 100, 200, 1000)]).unwrap();
    assert_eq!(ids.len(), 1);
    assert_eq!(ids[0], 0);
    let state = ctx.s.get_stream_state(0).unwrap();
    assert_eq!(state.start_time, 2100);
    assert_eq!(state.cliff_time, 2200);
    assert_eq!(state.end_time, 3100);
}

#[test]
fn create_streams_relative_multiple_entries_sequential_ids() {
    let mut ctx = Ctx::setup();
    ctx.now = 1000;
    let r = ctx.recipient;
    let recipient2 = ctx.generate();
    let ids = ctx.relative_batch(vec![rel(r, 1000, 1, 0, 0, 1000), rel(recipient2, 4000, 2, 100, 100, 2000)]).unwrap();
    assert_eq!(ids, vec![0, 1]);
    let state0 = ctx.s.get_stream_state(0).unwrap();
    assert_eq!(state0.recipient, r);
    assert_eq!(state0.start_time, 1000);
    let state1 = ctx.s.get_stream_state(1).unwrap();
    assert_eq!(state1.recipient, recipient2);
    assert_eq!(state1.start_time, 1100);
}

#[test]
fn create_streams_relative_empty_batch_succeeds() {
    let mut ctx = Ctx::setup();
    ctx.now = 1000;
    let count_before = ctx.s.get_stream_count();
    let sender_before = ctx.sender_balance();
    let contract_before = ctx.contract_balance();
    let ids = ctx.relative_batch(Vec::new()).unwrap();
    assert_eq!(ids.len(), 0);
    assert_eq!(ctx.s.get_stream_count(), count_before);
    assert_eq!(ctx.sender_balance(), sender_before);
    assert_eq!(ctx.contract_balance(), contract_before);
}

#[test]
fn create_streams_relative_invalid_entry_fails_atomically() {
    let mut ctx = Ctx::setup();
    ctx.now = 1000;
    let count_before = ctx.s.get_stream_count();
    let sender_before = ctx.sender_balance();
    let r = ctx.recipient;
    let recipient2 = ctx.generate();
    let result = ctx.relative_batch(vec![rel(r, 1000, 1, 0, 0, 1000), rel(recipient2, 500, 2, 0, 0, 0)]);
    assert_eq!(result, Err(ContractError::InvalidParams));
    assert_eq!(ctx.s.get_stream_count(), count_before);
    assert_eq!(ctx.sender_balance(), sender_before);
}

#[test]
fn create_streams_relative_diverse_schedules() {
    let mut ctx = Ctx::setup();
    ctx.now = 10000;
    let (r1, r2, r3) = (ctx.generate(), ctx.generate(), ctx.generate());
    let ids = ctx
        .relative_batch(vec![rel(r1, 100, 1, 0, 0, 100), rel(r2, 400, 2, 500, 600, 200), rel(r3, 900, 3, 1000, 1200, 300)])
        .unwrap();
    assert_eq!(ids.len(), 3);
    let s0 = ctx.s.get_stream_state(ids[0]).unwrap();
    assert_eq!(s0.start_time, 10000);
    assert_eq!(s0.end_time, 10100);
    let s1 = ctx.s.get_stream_state(ids[1]).unwrap();
    assert_eq!(s1.start_time, 10500);
    assert_eq!(s1.cliff_time, 10600);
    assert_eq!(s1.end_time, 10700);
    let s2 = ctx.s.get_stream_state(ids[2]).unwrap();
    assert_eq!(s2.start_time, 11000);
    assert_eq!(s2.cliff_time, 11200);
    assert_eq!(s2.end_time, 11300);
    assert_eq!(ctx.sender_balance(), 8_600);
    assert_eq!(ctx.contract_balance(), 1_400);
}

#[test]
fn create_streams_relative_independent_cliff_times() {
    let mut ctx = Ctx::setup();
    ctx.now = 1000;
    let (r1, r2) = (ctx.generate(), ctx.generate());
    let ids = ctx.relative_batch(vec![rel(r1, 1000, 1, 0, 0, 1000), rel(r2, 2000, 1, 500, 1500, 1000)]).unwrap();
    let s0 = ctx.s.get_stream_state(ids[0]).unwrap();
    assert_eq!(s0.start_time, 1000);
    assert_eq!(s0.cliff_time, 1000);
    let s1 = ctx.s.get_stream_state(ids[1]).unwrap();
    assert_eq!(s1.start_time, 1500);
    assert_eq!(s1.cliff_time, 2500);
}

#[test]
fn create_streams_relative_batch_overflow_detection() {
    let mut ctx = Ctx::setup();
    ctx.now = u64::MAX - 100;
    let r1 = ctx.generate();
    assert_eq!(ctx.relative_batch(vec![rel(r1, 1000, 1, u64::MAX, 0, 1000)]), Err(ContractError::InvalidParams));
}

#[test]
fn create_streams_relative_batch_validates_amounts() {
    let mut ctx = Ctx::setup();
    ctx.now = 1000;
    let (r1, r2) = (ctx.generate(), ctx.generate());
    let result = ctx.relative_batch(vec![rel(r1, 1000, 1, 0, 0, 1000), rel(r2, -100, 1, 0, 0, 1000)]);
    assert_eq!(result, Err(ContractError::InvalidParams));
}

// ---------------------------------------------------------------------------
// Batch creation and the recipient index
// ---------------------------------------------------------------------------

fn make_params(now: u64, recipient: Address, deposit: i128, duration: u64) -> CreateStreamParams {
    CreateStreamParams {
        recipient,
        deposit_amount: deposit,
        rate_per_second: deposit / duration as i128,
        start_time: now,
        cliff_time: now,
        end_time: now + duration,
        withdraw_dust_threshold: None,
        memo: None,
    }
}

fn batch(ctx: &mut Ctx, params: Vec<CreateStreamParams>) -> Result<Vec<u64>, ContractError> {
    let sender = ctx.sender;
    let inv = ctx.by(sender);
    ctx.s.create_streams(&inv, sender, &params)
}

#[test]
fn test_batch_same_recipient_index_correct() {
    let mut ctx = Ctx::setup();
    let recipient = ctx.generate();
    let p = vec![make_params(0, recipient, 1_000, 1_000), make_params(0, recipient, 2_000, 2_000), make_params(0, recipient, 3_000, 3_000)];
    let ids = batch(&mut ctx, p).unwrap();
    assert_eq!(ids.len(), 3);
    let index = ctx.s.get_recipient_streams(recipient);
    assert_eq!(index.len(), 3);
    for id in ids.iter() {
        assert!(index.contains(id));
    }
}

#[test]
fn test_batch_distinct_recipients_index_correct() {
    let mut ctx = Ctx::setup();
    let alice = ctx.generate();
    let bob = ctx.generate();
    let p = vec![make_params(0, alice, 1_000, 1_000), make_params(0, bob, 2_000, 2_000), make_params(0, alice, 3_000, 3_000)];
    let ids = batch(&mut ctx, p).unwrap();
    assert_eq!(ids.len(), 3);
    let alice_index = ctx.s.get_recipient_streams(alice);
    let bob_index = ctx.s.get_recipient_streams(bob);
    assert_eq!(alice_index.len(), 2);
    assert_eq!(bob_index.len(), 1);
    assert!(alice_index.contains(&ids[0]));
    assert!(alice_index.contains(&ids[2]));
    assert!(bob_index.contains(&ids[1]));
}

#[test]
fn test_batch_index_matches_sequential_creation() {
    let mut ctx1 = Ctx::setup();
    let recipient1 = ctx1.generate();
    let (sender, inv) = (ctx1.sender, ctx1.by(ctx1.sender));
    for (d, dur) in [(1_000i128, 1_000u64), (2_000, 2_000)] {
        let p = make_params(0, recipient1, d, dur);
        ctx1.s.create_stream(&inv, sender, p.recipient, p.deposit_amount, p.rate_per_second, p.start_time, p.cliff_time, p.end_time, 0, None).unwrap();
    }
    let seq_index = ctx1.s.get_recipient_streams(recipient1);
    let mut ctx2 = Ctx::setup();
    let recipient2 = ctx2.generate();
    batch(&mut ctx2, vec![make_params(0, recipient2, 1_000, 1_000), make_params(0, recipient2, 2_000, 2_000)]).unwrap();
    let batch_index = ctx2.s.get_recipient_streams(recipient2);
    assert_eq!(seq_index.len(), batch_index.len());
    assert_eq!(seq_index.len(), 2);
}

#[test]
fn test_batch_empty_no_index_change() {
    let mut ctx = Ctx::setup();
    let recipient = ctx.generate();
    let result = batch(&mut ctx, Vec::new()).unwrap();
    assert_eq!(result.len(), 0);
    assert_eq!(ctx.s.get_recipient_streams(recipient).len(), 0);
}

#[test]
fn test_batch_single_entry_same_as_create_stream() {
    let mut ctx = Ctx::setup();
    let recipient = ctx.generate();
    let ids = batch(&mut ctx, vec![make_params(0, recipient, 5_000, 5_000)]).unwrap();
    assert_eq!(ids.len(), 1);
    let index = ctx.s.get_recipient_streams(recipient);
    assert_eq!(index.len(), 1);
    assert_eq!(index[0], ids[0]);
}

#[test]
fn test_batch_index_sorted_order() {
    let mut ctx = Ctx::setup();
    let recipient = ctx.generate();
    let p = (1..=4).map(|k| make_params(0, recipient, 1_000 * k, 1_000 * k as u64)).collect();
    let ids = batch(&mut ctx, p).unwrap();
    let index = ctx.s.get_recipient_streams(recipient);
    assert_eq!(index.len(), 4);
    for i in 0..index.len() - 1 {
        assert!(index[i] < index[i + 1]);
    }
    for id in ids.iter() {
        assert!(index.contains(id));
    }
}

#[test]
fn test_batch_stream_count_correct() {
    let mut ctx = Ctx::setup();
    let recipient = ctx.generate();
    let count_before = ctx.s.get_stream_count();
    batch(&mut ctx, vec![make_params(0, recipient, 1_000, 1_000), make_params(0, recipient, 2_000, 2_000)]).unwrap();
    assert_eq!(ctx.s.get_stream_count(), count_before + 2);
}

#[test]
fn test_create_stream_rejects_excessive_dust_threshold() {
    let admin = Address::new(false, 901, 0, 0, 0);
    let sender = Address::new(false, 902, 0, 0, 0);
    let recipient = Address::new(false, 903, 0, 0, 0);
    let contract = Address::new(true, 904, 0, 0, 0);
    let mut s = fluxora::stream::FluxoraStream::new();
    s.init(&Invocation { timestamp: 0, contract, signers: vec![admin] }, Address::new(true, 905, 0, 0, 0), admin).unwrap();
    let inv = Invocation { timestamp: 0, contract, signers: vec![sender] };
    let res = s.create_stream(&inv, sender, recipient, 1000, 1, 0, 0, 1000, 1100, None);
    assert_eq!(res, Err(ContractError::InvalidDustThreshold));
    assert_eq!(s.get_stream_count(), 0);
}
