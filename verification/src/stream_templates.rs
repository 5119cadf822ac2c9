//! Reusable relative schedules: registering and deleting templates, and
//! creating streams from them.
use vstd::prelude::*;
use crate::address::Address;
use crate::index::sorted;
use crate::stream::FluxoraStream;
use crate::stream_create::{create_outcome, relative_terms, relative_times};
use crate::stream_types::{
    ContractError, CreateStreamRelativeParams, Effect, Emitted, Invocation, StreamScheduleTemplate,
    MAX_GLOBAL_TEMPLATES, MAX_TEMPLATES_PER_OWNER,
};

verus! {

/// Whether a relative schedule is acceptable at `now`: a positive duration,
/// a cliff no earlier than the start, times that fit, and a cliff no later
/// than the end.
pub open spec fn template_delays_ok(now: u64, start_delay: u64, cliff_delay: u64, duration: u64) -> bool {
    &&& duration != 0
    &&& cliff_delay >= start_delay
    &&& match relative_times(now, start_delay, cliff_delay, duration) {
        Some((_start, cliff, end)) => cliff <= end,
        None => false,
    }
}

/// Why registering a template fails, if it does: an unacceptable schedule,
/// the owner's limit, or the global limit.
pub open spec fn register_error(
    st: FluxoraStream,
    now: u64,
    owner: Address,
    start_delay: u64,
    cliff_delay: u64,
    duration: u64,
) -> Option<ContractError> {
    if !template_delays_ok(now, start_delay, cliff_delay, duration) {
        Some(ContractError::InvalidParams)
    } else if st.registry.owner_templates.ids_of(owner).len() >= MAX_TEMPLATES_PER_OWNER {
        Some(ContractError::TemplateLimitExceeded)
    } else if st.registry.active_template_count >= MAX_GLOBAL_TEMPLATES {
        Some(ContractError::TemplateLimitExceeded)
    } else {
        None
    }
}

/// Only the template registry and the log differ between `new` and `old`.
pub open spec fn same_but_registry(new: FluxoraStream, old: FluxoraStream) -> bool {
    &&& new.settings == old.settings
    &&& new.book == old.book
    &&& new.nonces == old.nonces
    &&& new.reentrancy_lock == old.reentrancy_lock
}

/// The relative parameters of a stream created from template `tpl`.
pub open spec fn template_params(
    tpl: StreamScheduleTemplate,
    recipient: Address,
    deposit_amount: i128,
    rate_per_second: i128,
    withdraw_dust_threshold: i128,
    memo: Option<Vec<u8>>,
) -> CreateStreamRelativeParams {
    CreateStreamRelativeParams {
        recipient,
        deposit_amount,
        rate_per_second,
        start_delay: tpl.start_delay,
        cliff_delay: tpl.cliff_delay,
        duration: tpl.duration,
        withdraw_dust_threshold: Some(withdraw_dust_threshold),
        memo,
    }
}

/// Checks a relative schedule (see [`template_delays_ok`]); every failure
/// is `InvalidParams`.
pub fn validate_template_delays(now: u64, start_delay: u64, cliff_delay: u64, duration: u64) -> (r: Result<
    (),
    ContractError,
>)
    ensures
        r is Ok <==> template_delays_ok(now, start_delay, cliff_delay, duration),
        r matches Err(e) ==> e == ContractError::InvalidParams,
{
    if duration == 0 {
        return Err(ContractError::InvalidParams);
    }
    if cliff_delay < start_delay {
        return Err(ContractError::InvalidParams);
    }
    let start_time = match now.checked_add(start_delay) {
        Some(v) => v,
        None => {
            return Err(ContractError::InvalidParams);
        },
    };
    let cliff_time = match now.checked_add(cliff_delay) {
        Some(v) => v,
        None => {
            return Err(ContractError::InvalidParams);
        },
    };
    let end_time = match start_time.checked_add(duration) {
        Some(v) => v,
        None => {
            return Err(ContractError::InvalidParams);
        },
    };
    if cliff_time > end_time {
        return Err(ContractError::InvalidParams);
    }
    Ok(())
}

impl FluxoraStream {
    /// Registers a relative schedule for `owner` (who must authorize the
    /// call) under the next template id, appends the id to the owner's list
    /// and publishes `tmpl_def`.
    pub fn register_stream_template(
        &mut self,
        inv: &Invocation,
        owner: Address,
        start_delay: u64,
        cliff_delay: u64,
        duration: u64,
    ) -> (r: Result<u64, ContractError>)
        requires
            old(self).wf(),
            inv.authorizes(owner),
            old(self).registry.next_template_id < u64::MAX,
        ensures
            final(self).wf(),
            match register_error(*old(self), inv.timestamp, owner, start_delay, cliff_delay, duration) {
                Some(e) => r == Err::<u64, ContractError>(e) && *final(self) == *old(self),
                None => {
                    let id = old(self).registry.next_template_id;
                    let tpl = StreamScheduleTemplate { template_id: id, owner, start_delay, cliff_delay, duration };
                    &&& r == Ok::<u64, ContractError>(id)
                    &&& same_but_registry(*final(self), *old(self))
                    &&& final(self).registry.templates@ == old(self).registry.templates@.insert(id, tpl)
                    &&& final(self).registry.owner_templates.ids_of(owner)
                        == old(self).registry.owner_templates.ids_of(owner).push(id)
                    &&& forall|b: Address| b != owner ==> #[trigger] final(self).registry.owner_templates.ids_of(b)
                        == old(self).registry.owner_templates.ids_of(b)
                    &&& final(self).registry.next_template_id == id + 1
                    &&& final(self).registry.active_template_count == old(self).registry.active_template_count + 1
                    &&& final(self).log@ == old(self).log@.push(Effect::Publish(Emitted::TemplateDefined(tpl)))
                },
            },
    {
        validate_template_delays(inv.timestamp, start_delay, cliff_delay, duration)?;
        let count = self.registry.owner_templates.count(owner);
        if count >= MAX_TEMPLATES_PER_OWNER as usize {
            return Err(ContractError::TemplateLimitExceeded);
        }
        let active = self.registry.active_template_count;
        if active >= MAX_GLOBAL_TEMPLATES {
            return Err(ContractError::TemplateLimitExceeded);
        }
        let template_id = self.registry.next_template_id;
        let tpl = StreamScheduleTemplate { template_id, owner, start_delay, cliff_delay, duration };
        self.registry.templates.insert(template_id, tpl);
        self.registry.owner_templates.push(owner, template_id);
        self.registry.next_template_id = template_id + 1;
        self.registry.active_template_count = active + 1;
        self.log.push(Effect::Publish(Emitted::TemplateDefined(tpl)));
        Ok(template_id)
    }

    /// Deletes template `template_id` of `owner` (who must authorize the
    /// call): `TemplateNotFound` when it does not exist or is missing from
    /// the owner's list, `TemplateUnauthorized` when another owner holds it.
    pub fn delete_stream_template(&mut self, inv: &Invocation, owner: Address, template_id: u64) -> (r: Result<
        (),
        ContractError,
    >)
        requires
            old(self).wf(),
            inv.authorizes(owner),
        ensures
            final(self).wf(),
            !old(self).registry.templates@.contains_key(template_id)
                ==> r == Err::<(), ContractError>(ContractError::TemplateNotFound) && *final(self) == *old(self),
            old(self).registry.templates@.contains_key(template_id)
                && old(self).registry.templates@[template_id].owner != owner
                ==> r == Err::<(), ContractError>(ContractError::TemplateUnauthorized) && *final(self) == *old(self),
            old(self).registry.templates@.contains_key(template_id)
                && old(self).registry.templates@[template_id].owner == owner ==> {
                let ids = old(self).registry.owner_templates.ids_of(owner);
                &&& (sorted(ids) && ids.contains(template_id) ==> r is Ok)
                &&& (r is Err ==> r == Err::<(), ContractError>(ContractError::TemplateNotFound)
                    && *final(self) == *old(self))
            },
            r is Ok ==> {
                let ids = old(self).registry.owner_templates.ids_of(owner);
                &&& same_but_registry(*final(self), *old(self))
                &&& final(self).registry.templates@ == old(self).registry.templates@.remove(template_id)
                &&& exists|k: int| 0 <= k < ids.len() && ids[k] == template_id
                    && final(self).registry.owner_templates.ids_of(owner) == ids.remove(k)
                &&& forall|b: Address| b != owner ==> #[trigger] final(self).registry.owner_templates.ids_of(b)
                    == old(self).registry.owner_templates.ids_of(b)
                &&& final(self).registry.next_template_id == old(self).registry.next_template_id
                &&& final(self).registry.active_template_count == (if old(self).registry.active_template_count > 0 {
                    old(self).registry.active_template_count - 1
                } else {
                    0
                })
                &&& final(self).log == old(self).log
            },
    {
        let tpl = self.get_stream_template(template_id)?;
        if tpl.owner != owner {
            return Err(ContractError::TemplateUnauthorized);
        }
        let found = self.registry.owner_templates.remove_id(owner, template_id);
        if !found {
            return Err(ContractError::TemplateNotFound);
        }
        let _removed = self.registry.templates.remove(&template_id);
        self.registry.active_template_count = self.registry.active_template_count.saturating_sub(1);
        Ok(())
    }

    /// Creates a stream on the schedule of template `template_id`
    /// (`TemplateNotFound` when absent); otherwise behaves as
    /// [`FluxoraStream::create_stream_relative`] with the template's delays.
    pub fn create_stream_from_template(
        &mut self,
        inv: &Invocation,
        sender: Address,
        template_id: u64,
        recipient: Address,
        deposit_amount: i128,
        rate_per_second: i128,
        withdraw_dust_threshold: i128,
        memo: Option<Vec<u8>>,
    ) -> (r: Result<u64, ContractError>)
        requires
            old(self).wf(),
            old(self).book.next_stream_id < u64::MAX,
            old(self).registry.templates@.contains_key(template_id) && relative_terms(
                inv.timestamp,
                template_params(
                    old(self).registry.templates@[template_id],
                    recipient,
                    deposit_amount,
                    rate_per_second,
                    withdraw_dust_threshold,
                    memo,
                ),
            ) is Some ==> inv.authorizes(sender),
        ensures
            final(self).wf(),
            !old(self).registry.templates@.contains_key(template_id)
                ==> r == Err::<u64, ContractError>(ContractError::TemplateNotFound) && *final(self) == *old(self),
            old(self).registry.templates@.contains_key(template_id) ==> {
                let p = template_params(
                    old(self).registry.templates@[template_id],
                    recipient,
                    deposit_amount,
                    rate_per_second,
                    withdraw_dust_threshold,
                    memo,
                );
                match relative_terms(inv.timestamp, p) {
                    None => r == Err::<u64, ContractError>(ContractError::InvalidParams) && *final(self) == *old(self),
                    Some(t) => create_outcome(*old(self), *final(self), inv.timestamp, sender, t, r),
                }
            },
    {
        let tpl = self.get_stream_template(template_id)?;
        self.create_stream_relative(
            inv,
            sender,
            CreateStreamRelativeParams {
                recipient,
                deposit_amount,
                rate_per_second,
                start_delay: tpl.start_delay,
                cliff_delay: tpl.cliff_delay,
                duration: tpl.duration,
                withdraw_dust_threshold: Some(withdraw_dust_threshold),
                memo,
            },
        )
    }
}

} // verus!
