use fluxora::address::Address;
use fluxora::stream::FluxoraStream;
use fluxora::stream_types::{ContractError, CreateStreamParams, Effect, Emitted, Invocation, StreamEvent, StreamStatus};

fn account(n: u64) -> Address {
    Address::new(false, n, 0, 0, 0)
}

fn contract() -> Address {
    Address::new(true, 7, 7, 7, 7)
}

fn call(timestamp: u64, signers: &[Address]) -> Invocation {
    Invocation { timestamp, contract: contract(), signers: signers.to_vec() }
}

struct Ctx {
    stream: FluxoraStream,
    admin: Address,
    sender: Address,
    recipient: Address,
}

fn setup() -> Ctx {
    let admin = account(1);
    let token = Address::new(true, 2, 0, 0, 0);
    let sender = account(3);
    let recipient = account(4);
    let mut stream = FluxoraStream::new();
    stream.init(&call(0, &[admin]), token, admin).unwrap();
    Ctx { stream, admin, sender, recipient }
}

fn create_default(ctx: &mut Ctx) -> u64 {
    let sender = ctx.sender;
    let recipient = ctx.recipient;
    ctx.stream
        .create_stream(&call(0, &[sender]), sender, recipient, 1000, 1, 0, 0, 1000, 0, None)
        .unwrap()
}

/// Token transfers are recorded as effects for the token contract to carry
/// out; the streaming logic never inspects token balances beyond the value
/// it is handed.
#[test]
fn malicious_token_assumptions_documented() {
    let mut ctx = setup();
    let id = create_default(&mut ctx);
    let recipient = ctx.recipient;
    let before = ctx.stream.log.len();
    let paid = ctx.stream.withdraw(&call(300, &[recipient]), id, 1_000).unwrap();
    assert_eq!(paid, 300);
    match &ctx.stream.log[before] {
        Effect::Push { to, amount } => {
            assert_eq!(*to, recipient);
            assert_eq!(*amount, 300);
        },
        _ => panic!("expected a transfer"),
    }
}

/// State is updated before the transfer is performed: when the transfer
/// effect is recorded, the stream already reflects the withdrawal.
#[test]
fn cei_ordering_pattern_documented() {
    let mut ctx = setup();
    let id = create_default(&mut ctx);
    let recipient = ctx.recipient;
    ctx.stream.withdraw(&call(400, &[recipient]), id, 1_000).unwrap();
    let s = ctx.stream.get_stream_state(id).unwrap();
    assert_eq!(s.withdrawn_amount, 400);
    assert!(!ctx.stream.reentrancy_lock);
}

/// A failing call leaves no trace: no stream, no transfer, no event.
#[test]
fn atomic_transaction_guarantee_documented() {
    let mut ctx = setup();
    let sender = ctx.sender;
    let recipient = ctx.recipient;
    let params = vec![
        CreateStreamParams {
            recipient,
            deposit_amount: 1000,
            rate_per_second: 1,
            start_time: 0,
            cliff_time: 0,
            end_time: 1000,
            withdraw_dust_threshold: None,
            memo: None,
        },
        CreateStreamParams {
            recipient,
            deposit_amount: 10,
            rate_per_second: 1,
            start_time: 0,
            cliff_time: 0,
            end_time: 1000,
            withdraw_dust_threshold: None,
            memo: None,
        },
    ];
    let log_before = ctx.stream.log.len();
    let r = ctx.stream.create_streams(&call(0, &[sender]), sender, &params);
    assert_eq!(r.unwrap_err(), ContractError::InsufficientDeposit);
    assert_eq!(ctx.stream.get_stream_count(), 0);
    assert_eq!(ctx.stream.log.len(), log_before);
}

/// Each operation names the party whose signature it needs; an invocation
/// only authorizes the addresses that signed it.
#[test]
fn authorization_model_documented() {
    let mut ctx = setup();
    let id = create_default(&mut ctx);
    let signed_by_sender = call(10, &[ctx.sender]);
    assert!(signed_by_sender.require_auth(ctx.sender));
    assert!(!signed_by_sender.require_auth(ctx.recipient));
    assert!(!signed_by_sender.require_auth(ctx.admin));
    let s = ctx.stream.get_stream_state(id).unwrap();
    assert_eq!(s.status, StreamStatus::Active);
    assert_eq!(s.sender, ctx.sender);
    assert_eq!(s.recipient, ctx.recipient);
}

/// Whether the log, from position `from` on, holds a publication matching `f`.
fn published(ctx: &Ctx, from: usize, f: impl Fn(&Emitted) -> bool) -> bool {
    ctx.stream.log[from..].iter().any(|e| match e {
        Effect::Publish(ev) => f(ev),
        _ => false,
    })
}

/// Total pushed to `to` from position `from` of the log on.
fn pushed_to(ctx: &Ctx, from: usize, to: Address) -> i128 {
    ctx.stream.log[from..]
        .iter()
        .map(|e| match e {
            Effect::Push { to: t, amount } if *t == to => *amount,
            _ => 0,
        })
        .sum()
}

#[test]
fn create_stream_emits_correct_event() {
    let mut ctx = setup();
    let before = ctx.stream.log.len();
    let id = create_default(&mut ctx);
    assert_eq!(id, 0);
    assert!(published(&ctx, before, |e| matches!(e, Emitted::Created(c) if c.stream_id == 0)));
}

#[test]
fn withdraw_emits_correct_event() {
    let mut ctx = setup();
    let id = create_default(&mut ctx);
    let recipient = ctx.recipient;
    let before = ctx.stream.log.len();
    ctx.stream.withdraw(&call(300, &[recipient]), id, 1_000).unwrap();
    assert!(published(&ctx, before, |e| matches!(e, Emitted::Withdrew(w) if w.stream_id == id)));
}

#[test]
fn cancel_stream_emits_correct_event() {
    let mut ctx = setup();
    let id = create_default(&mut ctx);
    let sender = ctx.sender;
    let before = ctx.stream.log.len();
    ctx.stream.cancel_stream(&call(400, &[sender]), id).unwrap();
    assert!(published(&ctx, before, |e| matches!(e, Emitted::Lifecycle(StreamEvent::StreamCancelled(x)) if *x == id)));
}

#[test]
fn top_up_stream_emits_correct_event() {
    let mut ctx = setup();
    let id = create_default(&mut ctx);
    let sender = ctx.sender;
    let before = ctx.stream.log.len();
    ctx.stream.top_up_stream(&call(100, &[sender]), id, sender, 500).unwrap();
    assert!(published(&ctx, before, |e| matches!(e, Emitted::ToppedUp(t) if t.stream_id == id)));
}

#[test]
fn shorten_end_time_emits_correct_event() {
    let mut ctx = setup();
    let id = create_default(&mut ctx);
    let sender = ctx.sender;
    let before = ctx.stream.log.len();
    ctx.stream.shorten_stream_end_time(&call(100, &[sender]), id, 500).unwrap();
    assert!(published(&ctx, before, |e| matches!(e, Emitted::EndShortened(x) if x.stream_id == id)));
}

#[test]
fn withdraw_at_exact_end_time_returns_full_deposit() {
    let mut ctx = setup();
    let id = create_default(&mut ctx);
    let recipient = ctx.recipient;
    assert_eq!(ctx.stream.withdraw(&call(1000, &[recipient]), id, 1_000).unwrap(), 1000);
}

#[test]
fn withdraw_after_end_time_returns_full_deposit() {
    let mut ctx = setup();
    let id = create_default(&mut ctx);
    let recipient = ctx.recipient;
    assert_eq!(ctx.stream.withdraw(&call(2000, &[recipient]), id, 1_000).unwrap(), 1000);
}

#[test]
fn cancel_at_exact_start_time_refunds_full_deposit() {
    let mut ctx = setup();
    let id = create_default(&mut ctx);
    let sender = ctx.sender;
    let before = ctx.stream.log.len();
    ctx.stream.cancel_stream(&call(0, &[sender]), id).unwrap();
    assert_eq!(pushed_to(&ctx, before, sender), 1000);
}

#[test]
fn cancel_at_exact_end_time_refunds_zero() {
    let mut ctx = setup();
    let id = create_default(&mut ctx);
    let sender = ctx.sender;
    let before = ctx.stream.log.len();
    ctx.stream.cancel_stream(&call(1000, &[sender]), id).unwrap();
    assert_eq!(pushed_to(&ctx, before, sender), 0);
}

#[test]
fn cancel_after_end_time_refunds_zero() {
    let mut ctx = setup();
    let id = create_default(&mut ctx);
    let sender = ctx.sender;
    let before = ctx.stream.log.len();
    ctx.stream.cancel_stream(&call(2000, &[sender]), id).unwrap();
    assert_eq!(pushed_to(&ctx, before, sender), 0);
}

#[test]
fn create_stream_max_rate_fails() {
    let mut ctx = setup();
    let (sender, recipient) = (ctx.sender, ctx.recipient);
    let r = ctx.stream.create_stream(&call(0, &[sender]), sender, recipient, 1000, i128::MAX, 0, 0, 1000, 0, None);
    assert!(r.is_err());
    assert_eq!(ctx.stream.get_stream_count(), 0);
}

#[test]
fn top_up_stream_deposit_overflow_fails() {
    let mut ctx = setup();
    let id = create_default(&mut ctx);
    let sender = ctx.sender;
    let r = ctx.stream.top_up_stream(&call(0, &[sender]), id, sender, i128::MAX - 999);
    assert!(r.is_err());
    assert_eq!(ctx.stream.get_stream_state(id).unwrap().deposit_amount, 1000);
}

#[test]
fn update_rate_overflow_fails() {
    let mut ctx = setup();
    let id = create_default(&mut ctx);
    let sender = ctx.sender;
    let r = ctx.stream.update_rate_per_second(&call(100, &[sender]), id, i128::MAX);
    assert!(r.is_err());
    assert_eq!(ctx.stream.get_stream_state(id).unwrap().rate_per_second, 1);
}
