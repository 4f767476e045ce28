use vstd::prelude::*;
use crate::error::StoreError;
use crate::group::binding::{
    binding_wf, ensure_target_matches_binding, is_terminal, lifecycle_is_terminal,
    target_matches, GroupBinding, GroupBindingView,
};
use crate::group::model::{
    group_scope_ok, group_text_ok, membership_command_ok, target_ok, validate_group_target,
    validate_group_text, validate_membership_command, validate_scope, GroupMember,
    MembershipSyncCommand,
    CONVERSATION_ID_MAX_LENGTH, LEASE_TOKEN_MAX_LENGTH, SOURCE_EVENT_ID_MAX_LENGTH,
};
use crate::group::states::{GroupAclProjectionState, GroupLifecycleState, MembershipProjectionState};
use crate::store_step::StoreStep;
use crate::text::{opt_eq_str, str_eq, take_chars, truncate_error_code};

verus! {

/// A durable membership ACL projection row
/// (`kb_group_knowledge_space_membership_projection`).
#[derive(Debug, Clone)]
pub struct MembershipProjectionRecord {
    pub id: u64,
    pub binding_id: u64,
    pub payload_sha256_hex: String,
    pub target_membership_epoch: u64,
    pub projection_state: MembershipProjectionState,
    pub projection_lease_token: Option<String>,
}

/// A command older than what the binding already holds.
pub open spec fn is_stale(b: GroupBindingView, c: MembershipSyncCommand) -> bool {
    c.membership_epoch < b.membership_epoch || c.upstream_link_generation < b.upstream_link_generation
}

/// Whether a command is older than the binding.
pub fn command_is_stale(binding: &GroupBinding, command: &MembershipSyncCommand) -> (result: bool)
    ensures
        result == is_stale(binding@, *command),
        command.membership_epoch < binding.membership_epoch ==> result,
        command.upstream_link_generation < binding.upstream_link_generation ==> result,
        command.membership_epoch >= binding.membership_epoch && command.upstream_link_generation
            >= binding.upstream_link_generation ==> !result,
{
    command.membership_epoch < binding.membership_epoch || command.upstream_link_generation
        < binding.upstream_link_generation
}

/// Both the binding and its ACL projection are active.
pub open spec fn fully_active(b: GroupBindingView) -> bool {
    b.lifecycle_state == GroupLifecycleState::Active && b.acl_projection_state
        == GroupAclProjectionState::Active
}

/// How a membership command proceeds against its binding.
#[derive(Debug, Clone, Copy, PartialEq, Eq, Structural)]
pub enum MembershipPlan {
    /// The binding is archiving or gone: record the event, change nothing.
    TerminalNoop,
    /// The command is older than the binding: record the event, change nothing.
    StaleNoop,
    /// Write the command: replace the member snapshot when it changed, update
    /// the binding metadata and record the event.
    Apply { replace_members: bool },
    /// Resume the reserved projection of this event by claiming its lease.
    ResumeProjection { projection_id: u64 },
    /// Members are unchanged: update the binding metadata only.
    MetadataOnly,
    /// Members changed: reserve a new projection whose lease the caller holds.
    StartProjection,
}

/// Decides a membership snapshot write for a binding that is still
/// provisioning (an active binding goes through the ACL projection workflow).
pub fn plan_synchronize_group_members(
    binding: &GroupBinding,
    command: &MembershipSyncCommand,
    members_changed: bool,
) -> (result: Result<MembershipPlan, StoreError>)
    ensures
        !target_matches(binding@, command.target) ==> (result matches Err(e) && e.is_conflict()),
        target_matches(binding@, command.target) ==> if is_terminal(binding@.lifecycle_state) {
            result == Ok::<MembershipPlan, StoreError>(MembershipPlan::TerminalNoop)
        } else if binding@.lifecycle_state != GroupLifecycleState::Provisioning {
            result matches Err(e) && e is InvalidLifecycle
        } else if is_stale(binding@, *command) {
            result == Ok::<MembershipPlan, StoreError>(MembershipPlan::StaleNoop)
        } else if command.membership_epoch == binding@.membership_epoch && members_changed {
            result matches Err(e) && e.is_conflict()
        } else {
            result == Ok::<MembershipPlan, StoreError>(
                MembershipPlan::Apply { replace_members: members_changed },
            )
        },
{
    ensure_target_matches_binding(binding, &command.target)?;
    if lifecycle_is_terminal(binding.lifecycle_state) {
        return Ok(MembershipPlan::TerminalNoop);
    }
    if binding.lifecycle_state != GroupLifecycleState::Provisioning {
        return Err(StoreError::InvalidLifecycle("active group memberships must use the durable ACL projection workflow".to_string()));
    }
    if command_is_stale(binding, command) {
        return Ok(MembershipPlan::StaleNoop);
    }
    if command.membership_epoch == binding.membership_epoch && members_changed {
        return Err(StoreError::Conflict("membership epoch was already applied with a different member set".to_string()));
    }
    Ok(MembershipPlan::Apply { replace_members: members_changed })
}

/// The binding after a provisioning-time snapshot write.
pub open spec fn snapshot_written(b: GroupBindingView, c: MembershipSyncCommand) -> GroupBindingView {
    GroupBindingView {
        group_name: c.group_name@,
        membership_epoch: c.membership_epoch,
        upstream_link_generation: c.upstream_link_generation,
        last_source_event_id: Some(c.source_event_id@),
        updated_by: seq!['i', 'm', '-', 'm', 'e', 'm', 'b', 'e', 'r', 's', 'h', 'i', 'p', '-', 's', 'y', 'n', 'c'],
        version: (b.version + 1) as u64,
        ..b
    }
}

/// The binding after the membership metadata of a command was applied to an
/// active binding; a previous projection error is cleared.
pub open spec fn metadata_applied(b: GroupBindingView, c: MembershipSyncCommand) -> GroupBindingView {
    GroupBindingView { last_error_code: None, ..snapshot_written(b, c) }
}

fn membership_sync_actor() -> (result: String)
    ensures
        result@ == seq!['i', 'm', '-', 'm', 'e', 'm', 'b', 'e', 'r', 's', 'h', 'i', 'p', '-', 's', 'y', 'n', 'c'],
{
    proof {
        reveal_strlit("im-membership-sync");
    }
    "im-membership-sync".to_string()
}

/// Writes the metadata of a command into a provisioning binding.
pub fn write_membership_snapshot(binding: GroupBinding, command: &MembershipSyncCommand) -> (result:
    GroupBinding)
    requires
        binding_wf(binding@),
    ensures
        result@ == snapshot_written(binding@, *command),
        result@.group_name == command.group_name@,
        result@.membership_epoch == command.membership_epoch,
        result@.upstream_link_generation == command.upstream_link_generation,
        result@.last_source_event_id == Some(command.source_event_id@),
        result@.version == binding@.version + 1,
        result@.lifecycle_state == binding@.lifecycle_state && result@.space_id == binding@.space_id,
{
    let mut next = binding;
    next.group_name = command.group_name.clone();
    next.membership_epoch = command.membership_epoch;
    next.upstream_link_generation = command.upstream_link_generation;
    next.last_source_event_id = Some(command.source_event_id.clone());
    next.updated_by = membership_sync_actor();
    next.version = next.version + 1;
    next
}

/// Writes the metadata of a command into an active binding whose ACL
/// projection is active; any other binding changed under the projection.
pub fn apply_membership_metadata(binding: GroupBinding, command: &MembershipSyncCommand) -> (result:
    Result<GroupBinding, StoreError>)
    requires
        binding_wf(binding@),
    ensures
        fully_active(binding@) ==> (result matches Ok(nb) && nb@ == metadata_applied(
            binding@,
            *command,
        )),
        !fully_active(binding@) ==> (result matches Err(e) && e.is_conflict()),
{
    if binding.lifecycle_state != GroupLifecycleState::Active || binding.acl_projection_state
        != GroupAclProjectionState::Active {
        return Err(StoreError::Conflict("group membership binding changed while its ACL projection was running".to_string()));
    }
    let mut next = write_membership_snapshot(binding, command);
    next.last_error_code = None;
    Ok(next)
}

/// A projection row reserved for exactly this command on this binding.
pub open spec fn projection_reserved_for(
    p: MembershipProjectionRecord,
    b: GroupBindingView,
    c: MembershipSyncCommand,
    fingerprint: Seq<char>,
) -> bool {
    p.binding_id == b.id && p.payload_sha256_hex@ == fingerprint && p.target_membership_epoch
        == c.membership_epoch
}

fn reserved_for(
    p: &MembershipProjectionRecord,
    binding: &GroupBinding,
    command: &MembershipSyncCommand,
    fingerprint: &str,
) -> (result: bool)
    ensures
        result == projection_reserved_for(*p, binding@, *command, fingerprint@),
{
    p.binding_id == binding.id && str_eq(p.payload_sha256_hex.as_str(), fingerprint)
        && p.target_membership_epoch == command.membership_epoch
}

/// Decides how a membership command reserves its ACL projection on an active
/// binding: what the event's own projection row, any other unsettled
/// projection and the member comparison say.
pub fn plan_membership_reservation(
    binding: &GroupBinding,
    command: &MembershipSyncCommand,
    fingerprint: &str,
    existing: Option<&MembershipProjectionRecord>,
    has_unsettled_projection: bool,
    members_changed: bool,
) -> (result: Result<MembershipPlan, StoreError>)
    ensures
        !target_matches(binding@, command.target) ==> (result matches Err(e) && e.is_conflict()),
        target_matches(binding@, command.target) ==> if is_terminal(binding@.lifecycle_state) {
            result == Ok::<MembershipPlan, StoreError>(MembershipPlan::TerminalNoop)
        } else if is_stale(binding@, *command) {
            result == Ok::<MembershipPlan, StoreError>(MembershipPlan::StaleNoop)
        } else if !fully_active(binding@) {
            result matches Err(e) && e is InvalidLifecycle
        } else {
            match existing {
                Some(p) => if !projection_reserved_for(*p, binding@, *command, fingerprint@) {
                    result matches Err(e) && e.is_conflict()
                } else if p.projection_state == MembershipProjectionState::Completed {
                    result matches Err(e) && e.is_internal()
                } else {
                    result == Ok::<MembershipPlan, StoreError>(
                        MembershipPlan::ResumeProjection { projection_id: p.id },
                    )
                },
                None => if has_unsettled_projection {
                    result matches Err(e) && e.is_conflict()
                } else if command.membership_epoch == binding@.membership_epoch && members_changed {
                    result matches Err(e) && e.is_conflict()
                } else if !members_changed {
                    result == Ok::<MembershipPlan, StoreError>(MembershipPlan::MetadataOnly)
                } else {
                    result == Ok::<MembershipPlan, StoreError>(MembershipPlan::StartProjection)
                },
            }
        },
{
    ensure_target_matches_binding(binding, &command.target)?;
    if lifecycle_is_terminal(binding.lifecycle_state) {
        return Ok(MembershipPlan::TerminalNoop);
    }
    if command_is_stale(binding, command) {
        return Ok(MembershipPlan::StaleNoop);
    }
    if binding.lifecycle_state != GroupLifecycleState::Active || binding.acl_projection_state
        != GroupAclProjectionState::Active {
        return Err(StoreError::InvalidLifecycle("only an active group knowledge space with an active ACL projection can synchronize members".to_string()));
    }
    if let Some(p) = existing {
        if !reserved_for(p, binding, command, fingerprint) {
            return Err(StoreError::Conflict("source_event_id was already reserved with a different membership projection".to_string()));
        }
        if p.projection_state == MembershipProjectionState::Completed {
            return Err(StoreError::Internal("completed membership projection is missing its inbox event".to_string()));
        }
        return Ok(MembershipPlan::ResumeProjection { projection_id: p.id });
    }
    if has_unsettled_projection {
        return Err(StoreError::Conflict("a prior group membership projection is not settled".to_string()));
    }
    if command.membership_epoch == binding.membership_epoch && members_changed {
        return Err(StoreError::Conflict("membership epoch was already applied with a different member set".to_string()));
    }
    if !members_changed {
        return Ok(MembershipPlan::MetadataOnly);
    }
    Ok(MembershipPlan::StartProjection)
}

/// The projection lease of this event is held by `token`.
pub open spec fn projection_lease_held(p: MembershipProjectionRecord, b: GroupBindingView, token: Seq<
    char,
>) -> bool {
    p.binding_id == b.id && p.projection_state == MembershipProjectionState::Pending
        && crate::text::opt_view(p.projection_lease_token) == Some(token)
}

fn lease_held(p: &MembershipProjectionRecord, binding: &GroupBinding, token: &str) -> (result: bool)
    ensures
        result == projection_lease_held(*p, binding@, token@),
{
    p.binding_id == binding.id && p.projection_state == MembershipProjectionState::Pending
        && opt_eq_str(&p.projection_lease_token, token)
}

/// Decides whether the holder of a projection lease may complete the
/// membership write (`lease_live`: the lease has not expired).
pub fn plan_membership_completion(
    binding: &GroupBinding,
    command: &MembershipSyncCommand,
    fingerprint: &str,
    lease_token: &str,
    projection: Option<&MembershipProjectionRecord>,
    members_changed: bool,
    lease_live: bool,
) -> (result: Result<MembershipPlan, StoreError>)
    ensures
        !membership_command_ok(*command) || !group_text_ok(lease_token@, LEASE_TOKEN_MAX_LENGTH as nat)
            ==> (result matches Err(e) && e.is_invalid_request()),
        membership_command_ok(*command) && group_text_ok(lease_token@, LEASE_TOKEN_MAX_LENGTH as nat)
            ==> if !target_matches(binding@, command.target) {
            result matches Err(e) && e.is_conflict()
        } else if is_terminal(binding@.lifecycle_state) {
            result == Ok::<MembershipPlan, StoreError>(MembershipPlan::TerminalNoop)
        } else if is_stale(binding@, *command) {
            result == Ok::<MembershipPlan, StoreError>(MembershipPlan::StaleNoop)
        } else if !fully_active(binding@) {
            result matches Err(e) && e is InvalidLifecycle
        } else {
            match projection {
                None => result matches Err(e) && e is NotFound,
                Some(p) => if !projection_reserved_for(*p, binding@, *command, fingerprint@)
                    || !projection_lease_held(*p, binding@, lease_token@) {
                    result matches Err(e) && e.is_conflict()
                } else if command.membership_epoch == binding@.membership_epoch && members_changed {
                    result matches Err(e) && e.is_conflict()
                } else if !lease_live {
                    result matches Err(e) && e.is_conflict()
                } else {
                    result == Ok::<MembershipPlan, StoreError>(
                        MembershipPlan::Apply { replace_members: true },
                    )
                },
            }
        },
{
    validate_membership_command(command)?;
    validate_group_text("synchronization_lease_token", lease_token, LEASE_TOKEN_MAX_LENGTH)?;
    ensure_target_matches_binding(binding, &command.target)?;
    if lifecycle_is_terminal(binding.lifecycle_state) {
        return Ok(MembershipPlan::TerminalNoop);
    }
    if command_is_stale(binding, command) {
        return Ok(MembershipPlan::StaleNoop);
    }
    if binding.lifecycle_state != GroupLifecycleState::Active || binding.acl_projection_state
        != GroupAclProjectionState::Active {
        return Err(StoreError::InvalidLifecycle("group membership projection can only complete for an active binding".to_string()));
    }
    let p = match projection {
        Some(p) => p,
        None => {
            return Err(StoreError::NotFound("group membership projection".to_string()));
        },
    };
    if !reserved_for(p, binding, command, fingerprint) || !lease_held(p, binding, lease_token) {
        return Err(StoreError::Conflict("group membership projection lease is no longer current".to_string()));
    }
    if command.membership_epoch == binding.membership_epoch && members_changed {
        return Err(StoreError::Conflict("membership epoch was already applied with a different member set".to_string()));
    }
    if !lease_live {
        return Err(StoreError::Conflict("group membership projection lease expired or was replaced".to_string()));
    }
    Ok(MembershipPlan::Apply { replace_members: true })
}

/// Whether a failed projection is recorded, or the binding is left alone
/// because it is already archiving or gone.
#[derive(Debug, Clone, Copy, PartialEq, Eq, Structural)]
pub enum MembershipFailurePlan {
    Unchanged,
    RecordFailure { projection_id: u64 },
}

/// The inputs a failure report must carry.
pub open spec fn failure_report_ok(c: MembershipSyncCommand, token: Seq<char>, error_code: Seq<char>) -> bool {
    &&& group_scope_ok(c.scope)
    &&& group_text_ok(c.conversation_id@, CONVERSATION_ID_MAX_LENGTH as nat)
    &&& group_text_ok(c.source_event_id@, SOURCE_EVENT_ID_MAX_LENGTH as nat)
    &&& target_ok(c.target)
    &&& group_text_ok(token, LEASE_TOKEN_MAX_LENGTH as nat)
    &&& group_text_ok(error_code, 64)
}

/// Decides how the holder of a projection lease reports that the external ACL
/// projection failed.
pub fn plan_membership_failure(
    binding: &GroupBinding,
    command: &MembershipSyncCommand,
    lease_token: &str,
    error_code: &str,
    projection: Option<&MembershipProjectionRecord>,
) -> (result: Result<MembershipFailurePlan, StoreError>)
    ensures
        !failure_report_ok(*command, lease_token@, error_code@) ==> (result matches Err(e)
            && e.is_invalid_request()),
        failure_report_ok(*command, lease_token@, error_code@) ==> if !target_matches(
            binding@,
            command.target,
        ) {
            result matches Err(e) && e.is_conflict()
        } else if is_terminal(binding@.lifecycle_state) {
            result == Ok::<MembershipFailurePlan, StoreError>(MembershipFailurePlan::Unchanged)
        } else {
            match projection {
                None => result matches Err(e) && e is NotFound,
                Some(p) => if !projection_lease_held(*p, binding@, lease_token@) {
                    result matches Err(e) && e.is_conflict()
                } else {
                    result == Ok::<MembershipFailurePlan, StoreError>(
                        MembershipFailurePlan::RecordFailure { projection_id: p.id },
                    )
                },
            }
        },
{
    validate_scope(command.scope)?;
    validate_group_text("conversation_id", &command.conversation_id, CONVERSATION_ID_MAX_LENGTH)?;
    validate_group_text("source_event_id", &command.source_event_id, SOURCE_EVENT_ID_MAX_LENGTH)?;
    validate_group_target(&command.target)?;
    validate_group_text("synchronization_lease_token", lease_token, LEASE_TOKEN_MAX_LENGTH)?;
    validate_group_text("error_code", error_code, 64)?;
    ensure_target_matches_binding(binding, &command.target)?;
    if lifecycle_is_terminal(binding.lifecycle_state) {
        return Ok(MembershipFailurePlan::Unchanged);
    }
    let p = match projection {
        Some(p) => p,
        None => {
            return Err(StoreError::NotFound("group membership projection".to_string()));
        },
    };
    if !lease_held(p, binding, lease_token) {
        return Err(StoreError::Conflict("group membership projection lease is no longer current".to_string()));
    }
    Ok(MembershipFailurePlan::RecordFailure { projection_id: p.id })
}

/// The binding after a failed ACL projection was recorded on it.
pub open spec fn projection_error_recorded(b: GroupBindingView, error_code: Seq<char>) -> GroupBindingView {
    GroupBindingView {
        last_error_code: Some(take_chars(error_code, 64)),
        updated_by: seq!['g', 'r', 'o', 'u', 'p', '-', 'm', 'e', 'm', 'b', 'e', 'r', 's', 'h', 'i', 'p', '-', 'p', 'r', 'o', 'j', 'e', 'c', 't', 'i', 'o', 'n'],
        version: (b.version + 1) as u64,
        ..b
    }
}

/// Records a projection error on a fully active binding.
pub fn record_projection_error(binding: GroupBinding, error_code: &str) -> (result: Result<
    GroupBinding,
    StoreError,
>)
    requires
        binding_wf(binding@),
    ensures
        fully_active(binding@) ==> (result matches Ok(nb) && nb@ == projection_error_recorded(
            binding@,
            error_code@,
        )),
        !fully_active(binding@) ==> (result matches Err(e) && e.is_conflict()),
{
    if binding.lifecycle_state != GroupLifecycleState::Active || binding.acl_projection_state
        != GroupAclProjectionState::Active {
        return Err(StoreError::Conflict("group membership binding changed while its ACL projection was running".to_string()));
    }
    proof {
        reveal_strlit("group-membership-projection");
    }
    assert("group-membership-projection"@ =~= projection_error_recorded(binding@, error_code@).updated_by);
    let mut next = binding;
    next.last_error_code = Some(truncate_error_code(error_code));
    next.updated_by = "group-membership-projection".to_string();
    next.version = next.version + 1;
    Ok(next)
}

/// Decides whether a projection that outlived its binding's archive can be
/// settled by the holder of its lease.
pub fn plan_settle_after_archive(
    binding: &GroupBinding,
    command: &MembershipSyncCommand,
    lease_token: &str,
    projection: Option<&MembershipProjectionRecord>,
    lease_live: bool,
) -> (result: Result<u64, StoreError>)
    ensures
        !membership_command_ok(*command) || !group_text_ok(lease_token@, LEASE_TOKEN_MAX_LENGTH as nat)
            ==> (result matches Err(e) && e.is_invalid_request()),
        membership_command_ok(*command) && group_text_ok(lease_token@, LEASE_TOKEN_MAX_LENGTH as nat)
            ==> if !target_matches(binding@, command.target) {
            result matches Err(e) && e.is_conflict()
        } else if !is_terminal(binding@.lifecycle_state) {
            result matches Err(e) && e is InvalidLifecycle
        } else {
            match projection {
                None => result matches Err(e) && e is NotFound,
                Some(p) => if !projection_lease_held(*p, binding@, lease_token@) || !lease_live {
                    result matches Err(e) && e.is_conflict()
                } else {
                    result == Ok::<u64, StoreError>(p.id)
                },
            }
        },
{
    validate_membership_command(command)?;
    validate_group_text("synchronization_lease_token", lease_token, LEASE_TOKEN_MAX_LENGTH)?;
    ensure_target_matches_binding(binding, &command.target)?;
    if !lifecycle_is_terminal(binding.lifecycle_state) {
        return Err(StoreError::InvalidLifecycle("archive compensation can only settle an archived group membership projection".to_string()));
    }
    let p = match projection {
        Some(p) => p,
        None => {
            return Err(StoreError::NotFound("group membership projection".to_string()));
        },
    };
    if !lease_held(p, binding, lease_token) || !lease_live {
        return Err(StoreError::Conflict("group membership projection lease is no longer current".to_string()));
    }
    Ok(p.id)
}

/// Law: membership epochs and upstream link generations never go back. A
/// command that is not stale leaves the binding with an epoch and a link
/// generation at least as large as before, and raises its version by one.
pub proof fn membership_write_is_monotone(b: GroupBindingView, c: MembershipSyncCommand)
    requires
        !is_stale(b, c),
    ensures
        snapshot_written(b, c).membership_epoch >= b.membership_epoch,
        snapshot_written(b, c).upstream_link_generation >= b.upstream_link_generation,
        metadata_applied(b, c).membership_epoch >= b.membership_epoch,
        metadata_applied(b, c).upstream_link_generation >= b.upstream_link_generation,
        b.version < u64::MAX ==> snapshot_written(b, c).version == b.version + 1,
        snapshot_written(b, c).lifecycle_state == b.lifecycle_state,
        snapshot_written(b, c).space_id == b.space_id,
{
}

/// Whether the holder of a synchronization lease still holds the live
/// projection of its command: the binding and its ACL projection are active
/// and exactly one pending projection of this event, payload and epoch holds
/// the lease (`matching_projections`, counted by the caller).
pub fn membership_projection_lease_current(binding: &GroupBinding, matching_projections: u64) -> (result:
    bool)
    ensures
        result == (fully_active(binding@) && matching_projections == 1),
{
    binding.lifecycle_state == GroupLifecycleState::Active && binding.acl_projection_state
        == GroupAclProjectionState::Active && matching_projections == 1
}

/// What a membership synchronization hands back: the binding, the member
/// snapshot before and after, and whether an ACL projection lease was taken.
#[derive(Debug, Clone)]
pub struct MembershipSyncReservation {
    pub binding: GroupBinding,
    pub previous_members: Vec<GroupMember>,
    pub current_members: Vec<GroupMember>,
    pub requires_acl_projection: bool,
    pub synchronization_lease_token: Option<String>,
}

/// Copies a member list field by field.
pub fn copy_members(members: &Vec<GroupMember>) -> (result: Vec<GroupMember>)
    ensures
        result@ == members@,
{
    let mut out: Vec<GroupMember> = Vec::new();
    let mut i: usize = 0;
    while i < members.len()
        invariant
            i <= members@.len(),
            out@ == members@.take(i as int),
        decreases members@.len() - i,
    {
        let m = &members[i];
        let copy = GroupMember {
            principal_kind: m.principal_kind,
            actor_id: m.actor_id.clone(),
            role: m.role,
            access_level: m.access_level,
        };
        assert(copy == members@[i as int]);
        out.push(copy);
        assert(members@.take(i as int + 1) =~= members@.take(i as int).push(members@[i as int]));
        i = i + 1;
    }
    assert(members@.take(members@.len() as int) =~= members@);
    out
}

/// The result of a redelivered membership event, once its inbox row named
/// the binding (see `check_inbox_replay`): the binding must still be the
/// command's target; the active members are handed back as both snapshots,
/// no ACL projection lease is taken, and nothing is written.
pub fn membership_replay_reservation(
    binding: GroupBinding,
    command: &MembershipSyncCommand,
    active_members: Vec<GroupMember>,
) -> (result: Result<StoreStep<MembershipSyncReservation, ()>, StoreError>)
    ensures
        !target_matches(binding@, command.target) ==> (result matches Err(e) && e.is_conflict()),
        target_matches(binding@, command.target) ==> (result matches Ok(StoreStep::Reply(r))
            && r.binding@ == binding@ && r.previous_members@ == active_members@
            && r.current_members@ == active_members@ && !r.requires_acl_projection
            && r.synchronization_lease_token is None),
{
    ensure_target_matches_binding(&binding, &command.target)?;
    let previous_members = copy_members(&active_members);
    Ok(
        StoreStep::Reply(
            MembershipSyncReservation {
                binding,
                previous_members,
                current_members: active_members,
                requires_acl_projection: false,
                synchronization_lease_token: None,
            },
        ),
    )
}

} // verus!
