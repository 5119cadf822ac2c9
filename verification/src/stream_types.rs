//! Data types of the streaming contract: errors, statuses, stream records,
//! creation parameters and event payloads.
use vstd::prelude::*;
use crate::address::Address;

verus! {

/// Maximum page size for paginated export views.
pub const MAX_PAGE_SIZE: u64 = 100;

/// Maximum memo payload size in bytes.
pub const MAX_MEMO_BYTES: usize = 64;

/// Maximum schedule templates a single owner may register.
pub const MAX_TEMPLATES_PER_OWNER: u32 = 64;

/// Global bound on stored schedule templates.
pub const MAX_GLOBAL_TEMPLATES: u64 = 10_000;

/// Contract version number returned by `version()`.
pub const CONTRACT_VERSION: u32 = 6;

/// Global configuration: the streamed token and the admin.
#[derive(Clone, Copy, Debug, PartialEq, Eq, Structural)]
pub struct Config {
    pub token: Address,
    pub admin: Address,
}

#[derive(Clone, Copy, Debug, PartialEq, Eq, Structural)]
pub enum StreamStatus {
    Active,
    Paused,
    Completed,
    Cancelled,
}

#[derive(Clone, Copy, Debug, PartialEq, Eq, Structural)]
pub enum PauseState {
    Active,
    CreationPaused,
    GlobalEmergencyPaused,
}

/// Errors returned by the streaming contract. [`ContractError::code`] gives
/// each variant its stable numeric code.
#[derive(Clone, Copy, Debug, PartialEq, Eq, Structural)]
pub enum ContractError {
    StreamNotFound,
    InvalidState,
    InvalidParams,
    /// The emergency or creation pause blocks the operation.
    ContractPaused,
    /// Start time is before the current ledger timestamp.
    StartTimeInPast,
    /// Arithmetic overflow in stream calculations.
    ArithmeticOverflow,
    /// A required signer did not authorize the call.
    Unauthorized,
    /// Contract is already initialized.
    AlreadyInitialised,
    InsufficientBalance,
    /// Deposit amount does not cover the total streamable amount.
    InsufficientDeposit,
    StreamAlreadyPaused,
    StreamNotPaused,
    /// Stream is Completed or Cancelled (or past its end) and cannot be modified.
    StreamTerminalState,
    /// Duplicate stream IDs were supplied to a batch operation.
    DuplicateStreamId,
    TemplateNotFound,
    /// Template registry limits exceeded (per-owner or global cap).
    TemplateLimitExceeded,
    /// Caller is not the template owner.
    TemplateUnauthorized,
    /// The signature deadline has passed.
    SignatureDeadlineExpired,
    InvalidSignature,
    /// The dust threshold exceeds the deposit.
    InvalidDustThreshold,
}

impl ContractError {
    /// The stable numeric code of each error, as published by the contract.
    pub open spec fn numeric_code(&self) -> u32 {
        match self {
            ContractError::StreamNotFound => 1,
            ContractError::InvalidState => 2,
            ContractError::InvalidParams => 3,
            ContractError::ContractPaused => 4,
            ContractError::StartTimeInPast => 5,
            ContractError::ArithmeticOverflow => 6,
            ContractError::Unauthorized => 7,
            ContractError::AlreadyInitialised => 8,
            ContractError::InsufficientBalance => 9,
            ContractError::InsufficientDeposit => 10,
            ContractError::StreamAlreadyPaused => 11,
            ContractError::StreamNotPaused => 12,
            ContractError::StreamTerminalState => 13,
            ContractError::DuplicateStreamId => 14,
            ContractError::TemplateNotFound => 15,
            ContractError::TemplateLimitExceeded => 16,
            ContractError::TemplateUnauthorized => 17,
            ContractError::SignatureDeadlineExpired => 18,
            ContractError::InvalidSignature => 19,
            ContractError::InvalidDustThreshold => 20,
        }
    }

    /// The stable numeric code of the error.
    pub fn code(&self) -> (r: u32)
        ensures
            r == self.numeric_code(),
    {
        match self {
            ContractError::StreamNotFound => 1,
            ContractError::InvalidState => 2,
            ContractError::InvalidParams => 3,
            ContractError::ContractPaused => 4,
            ContractError::StartTimeInPast => 5,
            ContractError::ArithmeticOverflow => 6,
            ContractError::Unauthorized => 7,
            ContractError::AlreadyInitialised => 8,
            ContractError::InsufficientBalance => 9,
            ContractError::InsufficientDeposit => 10,
            ContractError::StreamAlreadyPaused => 11,
            ContractError::StreamNotPaused => 12,
            ContractError::StreamTerminalState => 13,
            ContractError::DuplicateStreamId => 14,
            ContractError::TemplateNotFound => 15,
            ContractError::TemplateLimitExceeded => 16,
            ContractError::TemplateUnauthorized => 17,
            ContractError::SignatureDeadlineExpired => 18,
            ContractError::InvalidSignature => 19,
            ContractError::InvalidDustThreshold => 20,
        }
    }
}

#[derive(Clone, Copy, Debug, PartialEq, Eq, Structural)]
pub enum StreamEvent {
    Paused(u64),
    Resumed(u64),
    StreamCancelled(u64),
    StreamCompleted(u64),
    StreamClosed(u64),
}

/// A bounded memo attached to a stream (at most [`MAX_MEMO_BYTES`] bytes).
#[derive(Clone, Copy, Debug)]
pub struct Memo {
    pub len: usize,
    pub bytes: [u8; MAX_MEMO_BYTES],
}

impl Memo {
    /// The memo's bytes.
    pub open spec fn view_bytes(&self) -> Seq<u8> {
        self.bytes@.subrange(0, self.len as int)
    }

    pub open spec fn wf(&self) -> bool {
        self.len <= MAX_MEMO_BYTES
    }

    /// Builds a memo from `data`, or `None` when it exceeds
    /// [`MAX_MEMO_BYTES`] bytes.
    pub fn from_bytes(data: &Vec<u8>) -> (r: Option<Memo>)
        ensures
            r is Some <==> data@.len() <= MAX_MEMO_BYTES,
            r matches Some(m) ==> m.wf() && m.view_bytes() == data@,
    {
        if data.len() > MAX_MEMO_BYTES {
            return None;
        }
        let mut bytes = [0u8; MAX_MEMO_BYTES];
        let mut i: usize = 0;
        while i < data.len()
            invariant
                0 <= i <= data@.len(),
                data@.len() <= MAX_MEMO_BYTES,
                bytes@.len() == MAX_MEMO_BYTES,
                forall|j: int| 0 <= j < i ==> bytes@[j] == data@[j],
            decreases data@.len() - i,
        {
            bytes[i] = data[i];
            i = i + 1;
        }
        let m = Memo { len: data.len(), bytes };
        assert(m.view_bytes() =~= data@);
        Some(m)
    }

    /// The memo's bytes as a vector.
    pub fn to_vec(&self) -> (r: Vec<u8>)
        requires
            self.wf(),
        ensures
            r@ == self.view_bytes(),
    {
        let mut r: Vec<u8> = Vec::new();
        let mut i: usize = 0;
        while i < self.len
            invariant
                self.wf(),
                0 <= i <= self.len,
                r@ == self.bytes@.subrange(0, i as int),
            decreases self.len - i,
        {
            r.push(self.bytes[i]);
            i = i + 1;
        }
        r
    }
}

#[derive(Clone, Copy, Debug)]
pub struct StreamCreated {
    pub stream_id: u64,
    pub sender: Address,
    pub recipient: Address,
    pub deposit_amount: i128,
    pub rate_per_second: i128,
    pub start_time: u64,
    pub cliff_time: u64,
    pub end_time: u64,
    pub withdraw_dust_threshold: i128,
    pub memo: Option<Memo>,
}

#[derive(Clone, Copy, Debug, PartialEq, Eq, Structural)]
pub struct Withdrawal {
    pub stream_id: u64,
    pub recipient: Address,
    pub amount: i128,
}

/// Emitted when a recipient withdraws to a chosen destination.
#[derive(Clone, Copy, Debug, PartialEq, Eq, Structural)]
pub struct WithdrawalTo {
    pub stream_id: u64,
    pub recipient: Address,
    pub destination: Address,
    pub amount: i128,
}

/// Emitted when a relayer executes a recipient-signed delegated withdrawal.
#[derive(Clone, Copy, Debug, PartialEq, Eq, Structural)]
pub struct DelegatedWithdrawal {
    pub stream_id: u64,
    pub recipient: Address,
    pub relayer: Address,
    pub destination: Address,
    pub amount: i128,
    pub nonce: u64,
}

/// Emitted when a recipient rotates their receiving address for a stream.
#[derive(Clone, Copy, Debug, PartialEq, Eq, Structural)]
pub struct RecipientUpdated {
    pub stream_id: u64,
    pub old_recipient: Address,
    pub new_recipient: Address,
}

/// Per-stream result of a batch withdrawal.
#[derive(Clone, Copy, Debug, PartialEq, Eq, Structural)]
pub struct BatchWithdrawResult {
    pub stream_id: u64,
    pub amount: i128,
}

#[derive(Clone, Copy, Debug, PartialEq, Eq, Structural)]
pub struct WithdrawToParam {
    pub stream_id: u64,
    pub destination: Address,
}

#[derive(Clone, Copy, Debug, PartialEq, Eq, Structural)]
pub struct RateUpdated {
    pub stream_id: u64,
    pub old_rate_per_second: i128,
    pub new_rate_per_second: i128,
    /// Ledger timestamp when the rate update became effective.
    pub effective_time: u64,
}

/// Emitted when the sender decreases the streaming rate.
#[derive(Clone, Copy, Debug, PartialEq, Eq, Structural)]
pub struct RateDecreased {
    pub stream_id: u64,
    pub old_rate_per_second: i128,
    pub new_rate_per_second: i128,
    pub effective_time: u64,
    /// Accrued amount locked in at `effective_time` under the old rate.
    pub checkpointed_amount: i128,
    /// Tokens refunded to the sender.
    pub refund_amount: i128,
}

#[derive(Clone, Copy, Debug, PartialEq, Eq, Structural)]
pub struct StreamEndShortened {
    pub stream_id: u64,
    pub old_end_time: u64,
    pub new_end_time: u64,
    pub refund_amount: i128,
}

#[derive(Clone, Copy, Debug, PartialEq, Eq, Structural)]
pub struct StreamEndExtended {
    pub stream_id: u64,
    pub old_end_time: u64,
    pub new_end_time: u64,
}

#[derive(Clone, Copy, Debug, PartialEq, Eq, Structural)]
pub struct StreamToppedUp {
    pub stream_id: u64,
    pub top_up_amount: i128,
    pub new_deposit_amount: i128,
    pub new_end_time: u64,
}

/// Emitted when the stream sender is rotated.
#[derive(Clone, Copy, Debug, PartialEq, Eq, Structural)]
pub struct SenderTransferred {
    pub stream_id: u64,
    pub old_sender: Address,
    pub new_sender: Address,
}

/// Emitted when the admin toggles the global emergency pause.
#[derive(Clone, Copy, Debug, PartialEq, Eq, Structural)]
pub struct GlobalEmergencyPauseChanged {
    pub paused: bool,
}

/// Emitted when the admin sweeps excess tokens from the contract.
#[derive(Clone, Copy, Debug, PartialEq, Eq, Structural)]
pub struct ExcessSwept {
    pub to: Address,
    pub amount: i128,
}

#[derive(Clone, Copy, Debug, PartialEq, Eq, Structural)]
pub struct GlobalResumed {
    pub resumed_at: u64,
}

/// Emitted when the admin toggles the creation pause.
#[derive(Clone, Copy, Debug, PartialEq, Eq, Structural)]
pub struct ContractPauseChanged {
    pub paused: bool,
}

/// Emitted when the protocol is paused via `pause_protocol`.
#[derive(Clone, Debug)]
pub struct ProtocolPaused {
    pub reason: String,
    pub paused_at: u64,
}

/// Emitted when the protocol is resumed via `resume_protocol`.
#[derive(Clone, Copy, Debug, PartialEq, Eq, Structural)]
pub struct ProtocolResumed {
    pub resumed_at: u64,
}

/// The current protocol pause state and its audit trail.
#[derive(Clone, Debug)]
pub struct PauseInfo {
    pub is_paused: bool,
    pub state: PauseState,
    pub reason: Option<String>,
    pub paused_at: Option<u64>,
    pub paused_by: Option<Address>,
}

/// A payment stream.
#[derive(Clone, Copy, Debug)]
pub struct Stream {
    pub stream_id: u64,
    pub sender: Address,
    pub recipient: Address,
    pub deposit_amount: i128,
    pub rate_per_second: i128,
    pub start_time: u64,
    pub cliff_time: u64,
    pub end_time: u64,
    pub withdrawn_amount: i128,
    pub status: StreamStatus,
    pub cancelled_at: Option<u64>,
    /// Total accrued up to `checkpointed_at` under all previous rates.
    pub checkpointed_amount: i128,
    /// Start of the current rate epoch.
    pub checkpointed_at: u64,
    /// Withdrawals below this amount are skipped unless they are the final
    /// drain or the stream is terminal.
    pub withdraw_dust_threshold: i128,
    pub memo: Option<Memo>,
}

/// A page of stream ids with the cursor of the next page (0 when done).
#[derive(Clone, Debug)]
pub struct Page {
    pub stream_ids: Vec<u64>,
    pub next_cursor: u64,
}

/// Reason code for pausing a stream.
#[derive(Clone, Copy, Debug, PartialEq, Eq, Structural)]
pub enum PauseReason {
    /// Operational pause initiated by the stream sender.
    Operational,
    /// Administrative pause initiated by the contract admin.
    Administrative,
}

/// Emitted when a stream is paused.
#[derive(Clone, Copy, Debug, PartialEq, Eq, Structural)]
pub struct StreamPaused {
    pub stream_id: u64,
    pub reason: PauseReason,
}

/// Parameters of one entry of a batch creation.
#[derive(Clone, Debug)]
pub struct CreateStreamParams {
    pub recipient: Address,
    pub deposit_amount: i128,
    pub rate_per_second: i128,
    pub start_time: u64,
    pub cliff_time: u64,
    pub end_time: u64,
    pub withdraw_dust_threshold: Option<i128>,
    pub memo: Option<Vec<u8>>,
}

/// Parameters of a stream whose times are offsets from the current ledger time.
#[derive(Clone, Debug)]
pub struct CreateStreamRelativeParams {
    pub recipient: Address,
    pub deposit_amount: i128,
    pub rate_per_second: i128,
    /// Seconds from now until accrual starts.
    pub start_delay: u64,
    /// Seconds from now until the cliff.
    pub cliff_delay: u64,
    /// Seconds from start to end.
    pub duration: u64,
    pub withdraw_dust_threshold: Option<i128>,
    pub memo: Option<Vec<u8>>,
}

/// Reusable relative schedule (offsets only).
#[derive(Clone, Copy, Debug, PartialEq, Eq, Structural)]
pub struct StreamScheduleTemplate {
    pub template_id: u64,
    pub owner: Address,
    pub start_delay: u64,
    pub cliff_delay: u64,
    pub duration: u64,
}

/// An event published by the streaming contract, with its topic.
#[derive(Clone, Debug)]
pub enum Emitted {
    /// `("created", id)`
    Created(StreamCreated),
    /// `("paused", id)`
    Paused(StreamPaused),
    /// `("resumed" | "cancelled" | "completed" | "closed", id)`
    Lifecycle(StreamEvent),
    /// `("withdrew", id)`
    Withdrew(Withdrawal),
    /// `("wdraw_to", id)`
    WithdrewTo(WithdrawalTo),
    /// `("recp_upd", id)`
    RecipientUpdated(RecipientUpdated),
    /// `("rate_upd", id)`
    RateUpdated(RateUpdated),
    /// `("rate_dec", id)`
    RateDecreased(RateDecreased),
    /// `("end_shrt", id)`
    EndShortened(StreamEndShortened),
    /// `("end_ext", id)`
    EndExtended(StreamEndExtended),
    /// `("top_up", id)`
    ToppedUp(StreamToppedUp),
    /// `("tmpl_def", template_id)`
    TemplateDefined(StreamScheduleTemplate),
    /// `("AdminUpdated",)` with `(old_admin, new_admin)`
    AdminUpdated(Address, Address),
    /// `("dlg_wdraw", id)`
    DelegatedWithdrew(DelegatedWithdrawal),
    /// `("gl_pause",)`
    GlobalPauseChanged(GlobalEmergencyPauseChanged),
    /// `("gl_resume",)`
    GlobalResume(GlobalResumed),
    /// `("paused_ctl",)`
    ContractPause(ContractPauseChanged),
    /// `("pr_pause", admin)`
    ProtocolPause(Address, ProtocolPaused),
    /// `("pr_resume", admin)`
    ProtocolResume(Address, ProtocolResumed),
}

/// An external effect of a contract call, in the order it happens.
#[derive(Clone, Debug)]
pub enum Effect {
    /// Token `transfer_from(contract, from, contract, amount)`.
    Pull { from: Address, amount: i128 },
    /// Token `transfer(contract, to, amount)`.
    Push { to: Address, amount: i128 },
    /// An event publication.
    Publish(Emitted),
}

/// The context of one contract invocation: the ledger time, the contract's
/// own address, and the addresses that authorized the invocation.
pub struct Invocation {
    pub timestamp: u64,
    pub contract: Address,
    pub signers: Vec<Address>,
}

impl Invocation {
    /// Whether `a` authorized the invocation.
    pub open spec fn authorizes(&self, a: Address) -> bool {
        self.signers@.contains(a)
    }

    /// Checks that `a` authorized the invocation.
    pub fn require_auth(&self, a: Address) -> (r: bool)
        ensures
            r == self.authorizes(a),
    {
        crate::address::contains_address(&self.signers, a)
    }
}

} // verus!
