//! Delegated withdrawals: a relayer submits a withdrawal that the
//! recipient signed off-chain.
//!
//! The signed message is [`delegated_withdraw_message`]; the recipient's
//! Ed25519 key is the tail of its XDR encoding ([`recipient_public_key`]).
//! Hashing and signature verification are done by the host before
//! [`FluxoraStream::delegated_withdraw`] applies the withdrawal, which
//! checks the deadline, destination, stream status and nonce itself.
use vstd::prelude::*;
use crate::accrual::lemma_accrued_bounded;
use crate::address::Address;
use crate::stream::{FluxoraStream, accrued_view, checkpoint_of, stream_wf};
use crate::stream_types::{ContractError, DelegatedWithdrawal, Effect, Emitted, Invocation, Stream, StreamEvent, StreamStatus};
use crate::stream_withdraw::{after_payout, completes};
use crate::xdr::{append_bytes, append_u64_be, u64_be};

verus! {

/// The domain tag that starts every delegated-withdraw message
/// (`fluxora_delegated_withdraw` in ASCII).
pub open spec fn delegation_domain() -> Seq<u8> {
    seq![
        102u8, 108u8, 117u8, 120u8, 111u8, 114u8, 97u8, 95u8,
        100u8, 101u8, 108u8, 101u8, 103u8, 97u8, 116u8, 101u8, 100u8, 95u8,
        119u8, 105u8, 116u8, 104u8, 100u8, 114u8, 97u8, 119u8,
    ]
}

/// The message a recipient signs to authorize a delegated withdrawal.
pub open spec fn delegated_message(
    contract_xdr: Seq<u8>,
    destination_xdr: Seq<u8>,
    stream_id: u64,
    nonce: u64,
    deadline: u64,
) -> Seq<u8> {
    delegation_domain() + contract_xdr + destination_xdr + u64_be(stream_id) + u64_be(nonce) + u64_be(deadline)
}

/// Why a delegated withdrawal is refused before its signature is checked,
/// in this order: deadline passed, destination is the contract, unknown
/// stream, Completed or Paused stream, nonce not the recipient's current one.
pub open spec fn delegated_error(
    st: FluxoraStream,
    now: u64,
    contract: Address,
    stream_id: u64,
    destination: Address,
    nonce: u64,
    deadline: u64,
) -> Option<ContractError> {
    if now > deadline {
        Some(ContractError::SignatureDeadlineExpired)
    } else if destination == contract {
        Some(ContractError::InvalidParams)
    } else if !st.has_stream(stream_id) {
        Some(ContractError::StreamNotFound)
    } else if st.stream(stream_id).status == StreamStatus::Completed || st.stream(stream_id).status
        == StreamStatus::Paused {
        Some(ContractError::InvalidState)
    } else if nonce != st.nonces.nonce_of(st.stream(stream_id).recipient) {
        Some(ContractError::InvalidParams)
    } else {
        None
    }
}

/// What a delegated withdrawal from `s` pays at `now`: everything accrued
/// and not yet withdrawn (no balance cap, no dust threshold).
pub open spec fn delegated_amount(s: Stream, now: u64) -> int {
    accrued_view(s, now) - s.withdrawn_amount
}

/// The effects of a delegated payout of `amount` from `s`.
pub open spec fn delegated_effects(s: Stream, amount: i128, relayer: Address, destination: Address, nonce: u64) -> Seq<Effect> {
    let base = seq![
        Effect::Push { to: destination, amount },
        Effect::Publish(Emitted::DelegatedWithdrew(DelegatedWithdrawal {
            stream_id: s.stream_id,
            recipient: s.recipient,
            relayer,
            destination,
            amount,
            nonce,
        })),
    ];
    if completes(s, amount as int) {
        base.push(Effect::Publish(Emitted::Lifecycle(StreamEvent::StreamCompleted(s.stream_id))))
    } else {
        base
    }
}

/// Builds the message a recipient signs for a delegated withdrawal:
/// the domain tag, the contract's and the destination's XDR encodings, then
/// the stream id, nonce and deadline as big-endian `u64`s.
pub fn delegated_withdraw_message(
    contract_xdr: &Vec<u8>,
    destination_xdr: &Vec<u8>,
    stream_id: u64,
    nonce: u64,
    deadline: u64,
) -> (r: Vec<u8>)
    ensures
        r@ == delegated_message(contract_xdr@, destination_xdr@, stream_id, nonce, deadline),
{
    let domain: Vec<u8> = vec![
        102u8, 108u8, 117u8, 120u8, 111u8, 114u8, 97u8, 95u8,
        100u8, 101u8, 108u8, 101u8, 103u8, 97u8, 116u8, 101u8, 100u8, 95u8,
        119u8, 105u8, 116u8, 104u8, 100u8, 114u8, 97u8, 119u8,
    ];
    let mut msg: Vec<u8> = Vec::new();
    append_bytes(&mut msg, &domain);
    assert(msg@ =~= delegation_domain());
    append_bytes(&mut msg, contract_xdr);
    append_bytes(&mut msg, destination_xdr);
    append_u64_be(&mut msg, stream_id);
    append_u64_be(&mut msg, nonce);
    append_u64_be(&mut msg, deadline);
    msg
}

/// The recipient's Ed25519 public key: the last 32 bytes of its XDR
/// encoding; `InvalidSignature` when the encoding is shorter.
pub fn recipient_public_key(recipient_xdr: &Vec<u8>) -> (r: Result<Vec<u8>, ContractError>)
    ensures
        recipient_xdr@.len() < 32 ==> r == Err::<Vec<u8>, ContractError>(ContractError::InvalidSignature),
        recipient_xdr@.len() >= 32 ==> (r matches Ok(k) && k@ == recipient_xdr@.subrange(
            recipient_xdr@.len() - 32,
            recipient_xdr@.len() as int,
        )),
{
    let n = recipient_xdr.len();
    if n < 32 {
        return Err(ContractError::InvalidSignature);
    }
    let offset = n - 32;
    let mut key: Vec<u8> = Vec::new();
    let mut i: usize = 0;
    while i < 32
        invariant
            n == recipient_xdr@.len(),
            offset == n - 32,
            0 <= i <= 32,
            key@ == recipient_xdr@.subrange(offset as int, offset + i),
        decreases 32 - i,
    {
        key.push(recipient_xdr[offset + i]);
        i = i + 1;
    }
    Ok(key)
}

impl FluxoraStream {
    /// Checks a delegation's deadline and nonce: `SignatureDeadlineExpired`
    /// once `now` is past `deadline`, `StreamNotFound` for an unknown stream,
    /// `InvalidParams` when `nonce` is not the recipient's current nonce.
    pub fn validate_delegation_params(&self, now: u64, stream_id: u64, nonce: u64, deadline: u64) -> (r: Result<
        (),
        ContractError,
    >)
        requires
            self.wf(),
        ensures
            now > deadline ==> r == Err::<(), ContractError>(ContractError::SignatureDeadlineExpired),
            now <= deadline && !self.has_stream(stream_id) ==> r == Err::<(), ContractError>(ContractError::StreamNotFound),
            now <= deadline && self.has_stream(stream_id) ==> (r is Ok <==> nonce == self.nonces.nonce_of(
                self.stream(stream_id).recipient,
            )),
            now <= deadline && self.has_stream(stream_id) ==> (r matches Err(e) ==> e == ContractError::InvalidParams),
    {
        if now > deadline {
            return Err(ContractError::SignatureDeadlineExpired);
        }
        let s = self.load_stream(stream_id)?;
        let current = self.nonces.read(s.recipient);
        if nonce != current {
            return Err(ContractError::InvalidParams);
        }
        Ok(())
    }

    /// The checks a delegated withdrawal makes before its signature is
    /// verified (see [`delegated_error`]); on success, the recipient whose
    /// signature must be verified.
    pub fn delegated_withdraw_precheck(
        &self,
        inv: &Invocation,
        stream_id: u64,
        destination: Address,
        nonce: u64,
        deadline: u64,
    ) -> (r: Result<Address, ContractError>)
        requires
            self.wf(),
        ensures
            match delegated_error(*self, inv.timestamp, inv.contract, stream_id, destination, nonce, deadline) {
                Some(e) => r == Err::<Address, ContractError>(e),
                None => r == Ok::<Address, ContractError>(self.stream(stream_id).recipient),
            },
    {
        if inv.timestamp > deadline {
            return Err(ContractError::SignatureDeadlineExpired);
        }
        if destination == inv.contract {
            return Err(ContractError::InvalidParams);
        }
        let s = self.load_stream(stream_id)?;
        if s.status == StreamStatus::Completed {
            return Err(ContractError::InvalidState);
        }
        if s.status == StreamStatus::Paused {
            return Err(ContractError::InvalidState);
        }
        let current = self.nonces.read(s.recipient);
        if nonce != current {
            return Err(ContractError::InvalidParams);
        }
        Ok(s.recipient)
    }

    /// Executes a delegated withdrawal whose signature (over
    /// [`delegated_withdraw_message`]) the host has verified; `relayer` must
    /// authorize the call.
    ///
    /// After the checks of [`delegated_error`], pays everything accrued and
    /// not yet withdrawn to `destination`. Nothing payable returns 0 without
    /// consuming the nonce; otherwise the recipient's nonce is incremented,
    /// the stream updated (Completed when fully withdrawn), and the transfer,
    /// `dlg_wdraw` and possibly `completed` are recorded.
    pub fn delegated_withdraw(
        &mut self,
        inv: &Invocation,
        stream_id: u64,
        relayer: Address,
        destination: Address,
        nonce: u64,
        deadline: u64,
    ) -> (r: Result<i128, ContractError>)
        requires
            old(self).wf(),
            inv.authorizes(relayer),
            delegated_error(*old(self), inv.timestamp, inv.contract, stream_id, destination, nonce, deadline) is None
                ==> {
                let s = old(self).stream(stream_id);
                &&& delegated_amount(s, inv.timestamp) >= 0
                &&& delegated_amount(s, inv.timestamp) > 0 ==> nonce < u64::MAX
            },
        ensures
            final(self).wf(),
            match delegated_error(*old(self), inv.timestamp, inv.contract, stream_id, destination, nonce, deadline) {
                Some(e) => r == Err::<i128, ContractError>(e) && *final(self) == *old(self),
                None => {
                    let s = old(self).stream(stream_id);
                    let w = delegated_amount(s, inv.timestamp);
                    if w == 0 {
                        r == Ok::<i128, ContractError>(0) && *final(self) == *old(self)
                    } else {
                        &&& r == Ok::<i128, ContractError>(w as i128)
                        &&& final(self).settings == old(self).settings
                        &&& final(self).registry == old(self).registry
                        &&& final(self).reentrancy_lock == old(self).reentrancy_lock
                        &&& final(self).book.streams@ == old(self).book.streams@.insert(stream_id, after_payout(s, w))
                        &&& final(self).book.next_stream_id == old(self).book.next_stream_id
                        &&& final(self).book.recipient_index == old(self).book.recipient_index
                        &&& final(self).book.total_liabilities == old(self).book.total_liabilities
                        &&& final(self).nonces.nonce_of(s.recipient) == nonce + 1
                        &&& forall|a: Address| a != s.recipient ==> #[trigger] final(self).nonces.nonce_of(a)
                            == old(self).nonces.nonce_of(a)
                        &&& final(self).log@ == old(self).log@ + delegated_effects(s, w as i128, relayer, destination, nonce)
                    }
                },
            },
    {
        let _recipient = self.delegated_withdraw_precheck(inv, stream_id, destination, nonce, deadline)?;
        let s = match self.load_stream(stream_id) {
            Ok(s) => s,
            Err(e) => {
                assert(false);
                return Err(e);
            },
        };
        proof {
            lemma_accrued_bounded(checkpoint_of(s), s.rate_per_second, if s.status == StreamStatus::Cancelled {
                s.cancelled_at->0
            } else {
                inv.timestamp
            });
        }
        let accrued = match Self::stream_accrued(&s, inv.timestamp) {
            Ok(a) => a,
            Err(e) => {
                assert(false);
                return Err(e);
            },
        };
        let withdrawable = accrued - s.withdrawn_amount;
        if withdrawable == 0 {
            return Ok(0);
        }
        let mut t = s;
        t.withdrawn_amount = s.withdrawn_amount + withdrawable;
        let completed_now = s.status == StreamStatus::Active && t.withdrawn_amount == s.deposit_amount;
        if completed_now {
            t.status = StreamStatus::Completed;
        }
        assert(t == after_payout(s, withdrawable as int));
        assert(stream_wf(t));
        self.save_stream(t);
        let _next = self.nonces.increment(s.recipient);
        self.log.push(Effect::Push { to: destination, amount: withdrawable });
        self.log.push(
            Effect::Publish(
                Emitted::DelegatedWithdrew(DelegatedWithdrawal {
                    stream_id,
                    recipient: s.recipient,
                    relayer,
                    destination,
                    amount: withdrawable,
                    nonce,
                }),
            ),
        );
        if completed_now {
            self.log.push(Effect::Publish(Emitted::Lifecycle(StreamEvent::StreamCompleted(stream_id))));
        }
        proof {
            assert(self.log@ =~= old(self).log@ + delegated_effects(s, withdrawable, relayer, destination, nonce));
        }
        Ok(withdrawable)
    }
}

} // verus!
