use fluxora::address::Address;
use fluxora::factory::{
    validate_cap, validate_min_duration, CreateRequest, FactoryError, FactoryEvent, FluxoraFactory,
    MAX_MIN_DURATION_SECONDS,
};
use fluxora::stream_types::{ContractError, Invocation};

fn account(n: u64) -> Address {
    Address::new(false, n, 22, 0, 0)
}

fn by(who: Address) -> Invocation {
    Invocation { timestamp: 0, contract: Address::new(true, 60, 0, 0, 0), signers: vec![who] }
}

struct Ctx {
    factory: FluxoraFactory,
    admin: Address,
    stream_contract: Address,
    sender: Address,
    next_generated: u64,
    next_stream_id: u64,
}

impl Ctx {
    fn setup() -> Self {
        let admin = account(1);
        let stream_contract = Address::new(true, 2, 0, 0, 0);
        let mut factory = FluxoraFactory::new();
        factory.init(admin, stream_contract, 10_000, 100).unwrap();
        Ctx { factory, admin, stream_contract, sender: account(3), next_generated: 100, next_stream_id: 0 }
    }

    fn generate(&mut self) -> Address {
        self.next_generated += 1;
        account(self.next_generated)
    }

    fn admin_call(&self) -> Invocation {
        by(self.admin)
    }

    fn allow(&mut self, recipient: Address, allowed: bool) {
        let inv = self.admin_call();
        self.factory.set_allowlist(&inv, recipient, allowed).unwrap();
    }

    /// Creation through the factory, with the streaming contract accepting
    /// the request whenever the factory's policy lets it through.
    fn create(&mut self, recipient: Address, deposit: i128, rate: i128, start: u64, cliff: u64, end: u64) -> Result<u64, FactoryError> {
        let sender = self.sender;
        let downstream = match self.factory.check_create_stream(recipient, deposit, rate, start, cliff, end) {
            Ok(_) => {
                self.next_stream_id += 1;
                Ok(self.next_stream_id - 1)
            },
            Err(_) => Err(None),
        };
        self.factory.create_stream(&by(sender), sender, recipient, deposit, rate, start, cliff, end, downstream)
    }
}

#[test]
fn test_init_happy_path() {
    let mut factory = FluxoraFactory::new();
    let admin = account(1);
    let sc = Address::new(true, 5, 0, 0, 0);
    factory.init(admin, sc, 5_000, 200).unwrap();
    let cfg = factory.get_factory_config().unwrap();
    assert_eq!(cfg.admin, admin);
    assert_eq!(cfg.stream_contract, sc);
    assert_eq!(cfg.max_deposit, 5_000);
    assert_eq!(cfg.min_duration, 200);
}

#[test]
fn test_init_double_returns_already_initialized() {
    let mut ctx = Ctx::setup();
    let (admin, sc) = (ctx.admin, ctx.stream_contract);
    let result = ctx.factory.init(admin, sc, 1_000, 10);
    assert_eq!(result, Err(FactoryError::AlreadyInitialized));
}

#[test]
fn test_get_factory_config_before_init() {
    let factory = FluxoraFactory::new();
    assert_eq!(factory.get_factory_config(), Err(FactoryError::NotInitialized));
}

#[test]
fn test_setters_before_init_return_not_initialized() {
    let mut factory = FluxoraFactory::new();
    let addr = account(9);
    let inv = by(addr);
    assert_eq!(factory.set_admin(&inv, addr), Err(FactoryError::NotInitialized));
    assert_eq!(factory.set_stream_contract(&inv, addr), Err(FactoryError::NotInitialized));
    assert_eq!(factory.set_cap(&inv, 1_000), Err(FactoryError::NotInitialized));
    assert_eq!(factory.set_min_duration(&inv, 100), Err(FactoryError::NotInitialized));
    assert_eq!(factory.set_allowlist(&inv, addr, true), Err(FactoryError::NotInitialized));
}

#[test]
fn test_set_admin_updates_config() {
    let mut ctx = Ctx::setup();
    let new_admin = ctx.generate();
    let inv = ctx.admin_call();
    ctx.factory.set_admin(&inv, new_admin).unwrap();
    assert_eq!(ctx.factory.get_factory_config().unwrap().admin, new_admin);
}

#[test]
fn test_set_admin_new_admin_can_call_setters() {
    let mut ctx = Ctx::setup();
    let new_admin = ctx.generate();
    let inv = ctx.admin_call();
    ctx.factory.set_admin(&inv, new_admin).unwrap();
    ctx.factory.set_cap(&by(new_admin), 3_000).unwrap();
    assert_eq!(ctx.factory.get_factory_config().unwrap().max_deposit, 3_000);
}

#[test]
fn test_set_admin_same_address_noop() {
    let mut ctx = Ctx::setup();
    let admin = ctx.admin;
    let inv = ctx.admin_call();
    ctx.factory.set_admin(&inv, admin).unwrap();
    assert_eq!(ctx.factory.get_factory_config().unwrap().admin, admin);
}

#[test]
fn test_set_cap_round_trip() {
    let mut ctx = Ctx::setup();
    let inv = ctx.admin_call();
    ctx.factory.set_cap(&inv, 7_500).unwrap();
    assert_eq!(ctx.factory.get_factory_config().unwrap().max_deposit, 7_500);
}

#[test]
fn test_set_min_duration_round_trip() {
    let mut ctx = Ctx::setup();
    let inv = ctx.admin_call();
    ctx.factory.set_min_duration(&inv, 300).unwrap();
    assert_eq!(ctx.factory.get_factory_config().unwrap().min_duration, 300);
}

#[test]
fn test_is_allowlisted_default_false() {
    let mut ctx = Ctx::setup();
    let recipient = ctx.generate();
    assert!(!ctx.factory.is_allowlisted(recipient));
}

#[test]
fn test_set_allowlist_add() {
    let mut ctx = Ctx::setup();
    let recipient = ctx.generate();
    ctx.allow(recipient, true);
    assert!(ctx.factory.is_allowlisted(recipient));
}

#[test]
fn test_set_allowlist_remove() {
    let mut ctx = Ctx::setup();
    let recipient = ctx.generate();
    ctx.allow(recipient, true);
    ctx.allow(recipient, false);
    assert!(!ctx.factory.is_allowlisted(recipient));
}

#[test]
fn test_set_allowlist_remove_non_allowlisted_noop() {
    let mut ctx = Ctx::setup();
    let recipient = ctx.generate();
    ctx.allow(recipient, false);
    assert!(!ctx.factory.is_allowlisted(recipient));
}

#[test]
fn test_factory_already_initialized() {
    let mut ctx = Ctx::setup();
    let admin = ctx.admin;
    let other = ctx.generate();
    let result = ctx.factory.init(admin, other, 1_000, 10);
    assert_eq!(result, Err(FactoryError::AlreadyInitialized));
}

#[test]
fn test_set_admin_requires_existing_admin() {
    let mut ctx = Ctx::setup();
    let new_admin = ctx.generate();
    let inv = ctx.admin_call();
    assert!(ctx.factory.set_admin(&inv, new_admin).is_ok());
}

#[test]
fn test_create_stream_recipient_not_allowlisted() {
    let mut ctx = Ctx::setup();
    let recipient = ctx.generate();
    let result = ctx.create(recipient, 1_000, 1, 0, 0, 200);
    assert_eq!(result, Err(FactoryError::RecipientNotAllowlisted));
}

#[test]
fn test_create_stream_deposit_exceeds_cap() {
    let mut ctx = Ctx::setup();
    let recipient = ctx.generate();
    ctx.allow(recipient, true);
    let result = ctx.create(recipient, 10_001, 1, 0, 0, 200);
    assert_eq!(result, Err(FactoryError::DepositExceedsCap));
}

#[test]
fn test_create_stream_deposit_at_cap_ok() {
    let mut ctx = Ctx::setup();
    let recipient = ctx.generate();
    ctx.allow(recipient, true);
    let result = ctx.create(recipient, 10_000, 1, 0, 0, 10_000);
    assert_ne!(result, Err(FactoryError::DepositExceedsCap));
}

#[test]
fn test_create_stream_duration_too_short() {
    let mut ctx = Ctx::setup();
    let recipient = ctx.generate();
    ctx.allow(recipient, true);
    let result = ctx.create(recipient, 1_000, 1, 0, 0, 50);
    assert_eq!(result, Err(FactoryError::DurationTooShort));
}

#[test]
fn test_create_stream_duration_at_minimum_ok() {
    let mut ctx = Ctx::setup();
    let recipient = ctx.generate();
    ctx.allow(recipient, true);
    let result = ctx.create(recipient, 100, 1, 0, 0, 100);
    assert_ne!(result, Err(FactoryError::DurationTooShort));
}

#[test]
fn test_factory_not_initialized_returns_error() {
    let mut factory = FluxoraFactory::new();
    let sender = account(3);
    let recipient = account(4);
    let result = factory.create_stream(&by(sender), sender, recipient, 1_000, 1, 0, 0, 200, Err(None));
    assert_eq!(result, Err(FactoryError::NotInitialized));
}

#[test]
fn test_set_cap_enforced() {
    let mut ctx = Ctx::setup();
    let inv = ctx.admin_call();
    ctx.factory.set_cap(&inv, 5_000).unwrap();
    let recipient = ctx.generate();
    ctx.allow(recipient, true);
    let result = ctx.create(recipient, 6_000, 1, 0, 0, 200);
    assert_eq!(result, Err(FactoryError::DepositExceedsCap));
}

#[test]
fn test_set_min_duration_enforced() {
    let mut ctx = Ctx::setup();
    let inv = ctx.admin_call();
    ctx.factory.set_min_duration(&inv, 500).unwrap();
    let recipient = ctx.generate();
    ctx.allow(recipient, true);
    let result = ctx.create(recipient, 200, 1, 0, 0, 200);
    assert_eq!(result, Err(FactoryError::DurationTooShort));
}

#[test]
fn test_set_allowlist_remove_enforced() {
    let mut ctx = Ctx::setup();
    let recipient = ctx.generate();
    ctx.allow(recipient, true);
    ctx.allow(recipient, false);
    let result = ctx.create(recipient, 1_000, 1, 0, 0, 200);
    assert_eq!(result, Err(FactoryError::RecipientNotAllowlisted));
}

// Further cases of this crate.

#[test]
fn created_streams_are_recorded_and_paginated() {
    let mut ctx = Ctx::setup();
    let recipient = ctx.generate();
    ctx.allow(recipient, true);
    for _ in 0..5 {
        ctx.create(recipient, 1_000, 1, 0, 0, 500).unwrap();
    }
    assert_eq!(ctx.factory.get_factory_stream_count(), 5);
    assert_eq!(ctx.factory.get_factory_streams_paginated(1, 2), vec![1, 2]);
    assert_eq!(ctx.factory.get_factory_streams_paginated(3, 100), vec![3, 4]);
    assert_eq!(ctx.factory.get_factory_streams_paginated(5, 10), Vec::<u64>::new());
}

#[test]
fn downstream_failures_map_to_factory_errors() {
    let mut ctx = Ctx::setup();
    let recipient = ctx.generate();
    ctx.allow(recipient, true);
    let sender = ctx.sender;
    let paused = ctx.factory.create_stream(&by(sender), sender, recipient, 1_000, 1, 0, 0, 500,
        Err(Some(ContractError::ContractPaused)));
    assert_eq!(paused, Err(FactoryError::StreamContractPaused));
    let other = ctx.factory.create_stream(&by(sender), sender, recipient, 1_000, 1, 0, 0, 500,
        Err(Some(ContractError::InsufficientDeposit)));
    assert_eq!(other, Err(FactoryError::StreamContractError));
    assert_eq!(ctx.factory.get_factory_stream_count(), 0);
}

#[test]
fn schedule_and_rate_policy() {
    let mut ctx = Ctx::setup();
    let recipient = ctx.generate();
    ctx.allow(recipient, true);
    assert_eq!(ctx.create(recipient, 1_000, 1, 10, 10, 10), Err(FactoryError::InvalidTimeRange));
    assert_eq!(ctx.create(recipient, 1_000, 1, 10, 5, 500), Err(FactoryError::InvalidCliff));
    let inv = ctx.admin_call();
    ctx.factory.set_rate_bounds(&inv, Some(2), Some(5)).unwrap();
    assert_eq!(ctx.create(recipient, 1_000, 1, 0, 0, 500), Err(FactoryError::RateBelowMin));
    assert_eq!(ctx.create(recipient, 5_000, 6, 0, 0, 500), Err(FactoryError::RateAboveMax));
    assert!(ctx.create(recipient, 1_000, 2, 0, 0, 500).is_ok());
    assert_eq!(ctx.factory.set_rate_bounds(&inv, Some(-1), None), Err(FactoryError::StreamContractError));
    assert_eq!(ctx.factory.set_rate_bounds(&inv, Some(9), None), Err(FactoryError::StreamContractError));
    assert_eq!(ctx.factory.min_rate, Some(2));
    assert_eq!(ctx.factory.max_rate, Some(5));
}

#[test]
fn pause_blocks_creation_and_publishes() {
    let mut ctx = Ctx::setup();
    let recipient = ctx.generate();
    ctx.allow(recipient, true);
    let inv = ctx.admin_call();
    ctx.factory.set_factory_paused(&inv, true).unwrap();
    assert!(ctx.factory.is_factory_paused());
    assert_eq!(ctx.create(recipient, 1_000, 1, 0, 0, 500), Err(FactoryError::CreationPaused));
    ctx.factory.set_factory_paused(&inv, false).unwrap();
    assert_eq!(ctx.factory.events, vec![FactoryEvent::Paused, FactoryEvent::Resumed]);
    assert!(ctx.create(recipient, 1_000, 1, 0, 0, 500).is_ok());
}

#[test]
fn policy_value_validation() {
    assert_eq!(validate_cap(0), Err(FactoryError::InvalidCap));
    assert_eq!(validate_cap(1), Ok(()));
    assert_eq!(MAX_MIN_DURATION_SECONDS, 3_153_600_000);
    assert_eq!(validate_min_duration(MAX_MIN_DURATION_SECONDS), Ok(()));
    assert_eq!(validate_min_duration(MAX_MIN_DURATION_SECONDS + 1), Err(FactoryError::InvalidMinDuration));
    assert_eq!(FactoryError::InvalidMinDuration.code(), 15);
}

#[test]
fn creation_request_forwards_the_terms_to_the_stream_contract() {
    let mut ctx = Ctx::setup();
    let recipient = ctx.generate();
    let sender = ctx.sender;
    assert_eq!(
        ctx.factory.creation_request(sender, recipient, 1000, 1, 0, 0, 1000, 7),
        Err(FactoryError::RecipientNotAllowlisted)
    );
    ctx.allow(recipient, true);
    assert_eq!(
        ctx.factory.creation_request(sender, recipient, 1000, 1, 0, 0, 1000, 7),
        Ok(CreateRequest {
            stream_contract: ctx.stream_contract,
            sender,
            recipient,
            deposit_amount: 1000,
            rate_per_second: 1,
            start_time: 0,
            cliff_time: 0,
            end_time: 1000,
            withdraw_dust_threshold: 7,
        })
    );
}

#[test]
fn registry_grows_only_on_success() {
    let mut ctx = Ctx::setup();
    let recipient = ctx.generate();
    ctx.allow(recipient, true);
    let sender = ctx.sender;
    let id = ctx.create(recipient, 1000, 1, 0, 0, 1000).unwrap();
    assert_eq!(ctx.factory.get_factory_streams_paginated(0, 10), vec![id]);
    let r = ctx.factory.create_stream(&by(sender), sender, recipient, 1000, 1, 0, 0, 1000, Err(Some(ContractError::ContractPaused)));
    assert_eq!(r, Err(FactoryError::StreamContractPaused));
    let r = ctx.factory.create_stream(&by(sender), sender, recipient, 1000, 1, 0, 0, 1000, Err(None));
    assert_eq!(r, Err(FactoryError::StreamContractError));
    assert_eq!(ctx.factory.get_factory_stream_count(), 1);
    assert_eq!(ctx.factory.get_factory_streams_paginated(0, 10), vec![id]);
}

#[test]
fn policy_refusals_come_in_order() {
    let mut ctx = Ctx::setup();
    let recipient = ctx.generate();
    // Off the allowlist, over the cap and too short: the allowlist comes first.
    assert_eq!(ctx.create(recipient, 20_000, 1, 1000, 1000, 1050), Err(FactoryError::RecipientNotAllowlisted));
    ctx.allow(recipient, true);
    assert_eq!(ctx.create(recipient, 20_000, 1, 1000, 1000, 1050), Err(FactoryError::DepositExceedsCap));
    assert_eq!(ctx.create(recipient, 5_000, 1, 1000, 1000, 1050), Err(FactoryError::DurationTooShort));
    assert!(ctx.create(recipient, 5_000, 1, 1000, 1000, 1200).is_ok());
}
