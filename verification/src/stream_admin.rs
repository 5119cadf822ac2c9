//! Administration of the streaming contract: admin rotation and the
//! creation, emergency and protocol pauses.
use vstd::prelude::*;
use crate::address::Address;
use crate::stream::FluxoraStream;
use crate::stream_types::{
    Config, ContractError, ContractPauseChanged, Effect, Emitted, GlobalEmergencyPauseChanged, GlobalResumed,
    Invocation, PauseState, ProtocolPaused, ProtocolResumed,
};

verus! {

/// Only the settings and the log differ between `new` and `old`.
pub open spec fn same_but_settings(new: FluxoraStream, old: FluxoraStream) -> bool {
    &&& new.book == old.book
    &&& new.registry == old.registry
    &&& new.nonces == old.nonces
    &&& new.reentrancy_lock == old.reentrancy_lock
}

/// Why a call by `admin` that must be the stored admin fails, if it does.
pub open spec fn admin_check_error(st: FluxoraStream, admin: Address) -> Option<ContractError> {
    match st.settings.config {
        None => Some(ContractError::InvalidState),
        Some(c) => if c.admin != admin {
            Some(ContractError::Unauthorized)
        } else {
            None
        },
    }
}

impl FluxoraStream {
    /// Replaces the admin (the current admin must authorize the call) and
    /// publishes `AdminUpdated` with the old and new admin; `InvalidState`
    /// before initialisation.
    pub fn set_admin(&mut self, inv: &Invocation, new_admin: Address) -> (r: Result<(), ContractError>)
        requires
            old(self).wf(),
            old(self).settings.config matches Some(c) ==> inv.authorizes(c.admin),
        ensures
            final(self).wf(),
            match old(self).settings.config {
                None => r == Err::<(), ContractError>(ContractError::InvalidState) && *final(self) == *old(self),
                Some(c) => {
                    &&& r is Ok
                    &&& same_but_settings(*final(self), *old(self))
                    &&& final(self).settings.config == Some(Config { token: c.token, admin: new_admin })
                    &&& final(self).settings.pause_state == old(self).settings.pause_state
                    &&& final(self).settings.pause_reason == old(self).settings.pause_reason
                    &&& final(self).settings.pause_timestamp == old(self).settings.pause_timestamp
                    &&& final(self).settings.pause_admin == old(self).settings.pause_admin
                    &&& final(self).log@ == old(self).log@.push(Effect::Publish(Emitted::AdminUpdated(c.admin, new_admin)))
                },
            },
    {
        let config = self.get_config()?;
        let old_admin = config.admin;
        self.settings.config = Some(Config { token: config.token, admin: new_admin });
        self.log.push(Effect::Publish(Emitted::AdminUpdated(old_admin, new_admin)));
        Ok(())
    }

    /// Sets (`paused`) or clears the global emergency pause, which blocks
    /// creation, withdrawals and sender operations; publishes `gl_pause`.
    pub fn set_global_emergency_paused(&mut self, inv: &Invocation, paused: bool)
        requires
            old(self).wf(),
            old(self).settings.config matches Some(c) && inv.authorizes(c.admin),
        ensures
            final(self).wf(),
            same_but_settings(*final(self), *old(self)),
            final(self).settings.config == old(self).settings.config,
            final(self).settings.pause_state == (if paused {
                PauseState::GlobalEmergencyPaused
            } else {
                PauseState::Active
            }),
            final(self).settings.pause_reason == old(self).settings.pause_reason,
            final(self).settings.pause_timestamp == old(self).settings.pause_timestamp,
            final(self).settings.pause_admin == old(self).settings.pause_admin,
            final(self).log@ == old(self).log@.push(
                Effect::Publish(Emitted::GlobalPauseChanged(GlobalEmergencyPauseChanged { paused })),
            ),
    {
        self.settings.pause_state = if paused {
            PauseState::GlobalEmergencyPaused
        } else {
            PauseState::Active
        };
        self.log.push(Effect::Publish(Emitted::GlobalPauseChanged(GlobalEmergencyPauseChanged { paused })));
    }

    /// Lifts the global emergency pause (admin only) and publishes
    /// `gl_resume` with the current time; `InvalidState` before
    /// initialisation or when the emergency pause is not active.
    pub fn global_resume(&mut self, inv: &Invocation) -> (r: Result<(), ContractError>)
        requires
            old(self).wf(),
            old(self).settings.config matches Some(c) ==> inv.authorizes(c.admin),
        ensures
            final(self).wf(),
            r is Err <==> (old(self).settings.config is None || !old(self).globally_paused()),
            r matches Err(e) ==> e == ContractError::InvalidState && *final(self) == *old(self),
            r is Ok ==> {
                &&& same_but_settings(*final(self), *old(self))
                &&& final(self).settings == crate::stream::Settings {
                    pause_state: PauseState::Active,
                    ..old(self).settings
                }
                &&& final(self).log@ == old(self).log@.push(
                    Effect::Publish(Emitted::GlobalResume(GlobalResumed { resumed_at: inv.timestamp })),
                )
            },
    {
        let _admin = self.get_config()?.admin;
        if self.settings.pause_state != PauseState::GlobalEmergencyPaused {
            return Err(ContractError::InvalidState);
        }
        self.settings.pause_state = PauseState::Active;
        self.log.push(Effect::Publish(Emitted::GlobalResume(GlobalResumed { resumed_at: inv.timestamp })));
        Ok(())
    }

    /// Sets (`paused`) or clears the creation pause (admin only), which
    /// blocks only stream creation; publishes `paused_ctl`.
    pub fn set_contract_paused(&mut self, inv: &Invocation, paused: bool) -> (r: Result<(), ContractError>)
        requires
            old(self).wf(),
            old(self).settings.config matches Some(c) ==> inv.authorizes(c.admin),
        ensures
            final(self).wf(),
            r is Err <==> old(self).settings.config is None,
            r matches Err(e) ==> e == ContractError::InvalidState && *final(self) == *old(self),
            r is Ok ==> {
                &&& same_but_settings(*final(self), *old(self))
                &&& final(self).settings == crate::stream::Settings {
                    pause_state: if paused { PauseState::CreationPaused } else { PauseState::Active },
                    ..old(self).settings
                }
                &&& final(self).log@ == old(self).log@.push(
                    Effect::Publish(Emitted::ContractPause(ContractPauseChanged { paused })),
                )
            },
    {
        let _admin = self.get_config()?.admin;
        self.settings.pause_state = if paused {
            PauseState::CreationPaused
        } else {
            PauseState::Active
        };
        self.log.push(Effect::Publish(Emitted::ContractPause(ContractPauseChanged { paused })));
        Ok(())
    }

    /// Pauses the protocol with an audit trail: `admin` must authorize the
    /// call and be the stored admin (`InvalidState` before initialisation,
    /// `Unauthorized` otherwise). Pausing an already paused protocol changes
    /// nothing; otherwise the emergency pause is set with the reason (empty
    /// when none is given), the time and the admin, and `pr_pause` is
    /// published.
    pub fn pause_protocol(&mut self, inv: &Invocation, admin: Address, reason: Option<String>) -> (r: Result<
        (),
        ContractError,
    >)
        requires
            old(self).wf(),
            inv.authorizes(admin),
        ensures
            final(self).wf(),
            match admin_check_error(*old(self), admin) {
                Some(e) => r == Err::<(), ContractError>(e) && *final(self) == *old(self),
                None => r is Ok,
            },
            r is Ok && old(self).settings.pause_state != PauseState::Active ==> *final(self) == *old(self),
            r is Ok && old(self).settings.pause_state == PauseState::Active ==> {
                &&& same_but_settings(*final(self), *old(self))
                &&& final(self).settings.config == old(self).settings.config
                &&& final(self).settings.pause_state == PauseState::GlobalEmergencyPaused
                &&& final(self).settings.pause_reason matches Some(rs) && match reason {
                    Some(given) => rs == given,
                    None => rs@ == Seq::<char>::empty(),
                }
                &&& final(self).settings.pause_timestamp == Some(inv.timestamp)
                &&& final(self).settings.pause_admin == Some(admin)
                &&& final(self).log@ == old(self).log@.push(
                    Effect::Publish(
                        Emitted::ProtocolPause(
                            admin,
                            ProtocolPaused { reason: final(self).settings.pause_reason->0, paused_at: inv.timestamp },
                        ),
                    ),
                )
            },
    {
        let stored_admin = self.get_config()?.admin;
        if admin != stored_admin {
            return Err(ContractError::Unauthorized);
        }
        if self.settings.pause_state != PauseState::Active {
            return Ok(());
        }
        self.settings.pause_state = PauseState::GlobalEmergencyPaused;
        let reason_str = match reason {
            Some(s) => s,
            None => String::new(),
        };
        let event_reason = reason_str.clone();
        self.settings.pause_reason = Some(reason_str);
        self.settings.pause_timestamp = Some(inv.timestamp);
        self.settings.pause_admin = Some(admin);
        self.log.push(
            Effect::Publish(
                Emitted::ProtocolPause(admin, ProtocolPaused { reason: event_reason, paused_at: inv.timestamp }),
            ),
        );
        Ok(())
    }

    /// Resumes the protocol: `admin` must authorize the call and be the
    /// stored admin. Resuming a protocol that is not paused changes nothing;
    /// otherwise every pause is lifted, the audit trail is cleared and
    /// `pr_resume` is published.
    pub fn resume_protocol(&mut self, inv: &Invocation, admin: Address) -> (r: Result<(), ContractError>)
        requires
            old(self).wf(),
            inv.authorizes(admin),
        ensures
            final(self).wf(),
            match admin_check_error(*old(self), admin) {
                Some(e) => r == Err::<(), ContractError>(e) && *final(self) == *old(self),
                None => r is Ok,
            },
            r is Ok && old(self).settings.pause_state == PauseState::Active ==> *final(self) == *old(self),
            r is Ok && old(self).settings.pause_state != PauseState::Active ==> {
                &&& same_but_settings(*final(self), *old(self))
                &&& final(self).settings.config == old(self).settings.config
                &&& final(self).settings.pause_state == PauseState::Active
                &&& final(self).settings.pause_reason is None
                &&& final(self).settings.pause_timestamp is None
                &&& final(self).settings.pause_admin is None
                &&& final(self).log@ == old(self).log@.push(
                    Effect::Publish(Emitted::ProtocolResume(admin, ProtocolResumed { resumed_at: inv.timestamp })),
                )
            },
    {
        let stored_admin = self.get_config()?.admin;
        if admin != stored_admin {
            return Err(ContractError::Unauthorized);
        }
        if self.settings.pause_state == PauseState::Active {
            return Ok(());
        }
        self.settings.pause_state = PauseState::Active;
        self.settings.pause_reason = None;
        self.settings.pause_timestamp = None;
        self.settings.pause_admin = None;
        self.log.push(
            Effect::Publish(Emitted::ProtocolResume(admin, ProtocolResumed { resumed_at: inv.timestamp })),
        );
        Ok(())
    }
}

} // verus!
