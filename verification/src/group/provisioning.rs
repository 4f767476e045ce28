use vstd::prelude::*;
use crate::error::StoreError;
use crate::group::binding::{
    binding_wf, check_inbox_replay, GroupBinding, GroupInboxEventKind, GroupBindingView, GroupInboxRecord,
};
use crate::group::model::{
    group_scope_ok, reservation_request_ok, validate_reservation_request, validate_scope,
    GroupScope, ReserveGroupSpaceRequest,
};
use crate::group::states::{GroupAclProjectionState, GroupLifecycleState};
use crate::store_step::StoreStep;
use crate::text::{blank, is_blank, opt_eq_str, take_chars, truncate_error_code};

verus! {

/// What an ensure request has to do, decided from what the database holds.
#[derive(Debug, Clone, Copy, PartialEq, Eq, Structural)]
pub enum ReservationPlan {
    /// The event was applied before: hand back its binding, claiming the
    /// provisioning lease if the binding still provisions.
    Replay { binding_id: u64 },
    /// The idempotency key already created a binding for this conversation.
    IdempotentReplay { binding_id: u64 },
    /// The conversation has an active binding: record the event.
    EnsureActive { binding_id: u64 },
    /// The conversation's binding is provisioning: try to take over its lease.
    ClaimProvisioning { binding_id: u64 },
    /// The conversation's binding failed: provision it again.
    ReprovisionFailed { binding_id: u64 },
    /// The conversation has no binding: create one.
    Create,
}

/// Decides how an ensure request proceeds, from the inbox row of its event,
/// the binding its idempotency key resolves and the binding of its
/// conversation (each read within the same transaction).
pub fn plan_group_space_reservation(
    request: &ReserveGroupSpaceRequest,
    fingerprint: &str,
    inbox: Option<&GroupInboxRecord>,
    by_idempotency_key: Option<&GroupBinding>,
    by_conversation: Option<&GroupBinding>,
) -> (result: Result<ReservationPlan, StoreError>)
    ensures
        !reservation_request_ok(*request) ==> (result matches Err(e) && e.is_invalid_request()),
        reservation_request_ok(*request) ==> match inbox {
            Some(r) => if r.payload_sha256_hex@ != fingerprint@ {
                result matches Err(e) && e.is_conflict()
            } else if r.binding_id is None {
                result matches Err(e) && e.is_internal()
            } else {
                result == Ok::<ReservationPlan, StoreError>(
                    ReservationPlan::Replay { binding_id: r.binding_id.unwrap() },
                )
            },
            None => match by_idempotency_key {
                Some(b) => if b.conversation_id@ != request.conversation_id@ {
                    result matches Err(e) && e.is_conflict()
                } else {
                    result == Ok::<ReservationPlan, StoreError>(
                        ReservationPlan::IdempotentReplay { binding_id: b.id },
                    )
                },
                None => match by_conversation {
                    Some(b) => match b.lifecycle_state {
                        GroupLifecycleState::Active => result == Ok::<ReservationPlan, StoreError>(
                            ReservationPlan::EnsureActive { binding_id: b.id },
                        ),
                        GroupLifecycleState::Provisioning => result == Ok::<
                            ReservationPlan,
                            StoreError,
                        >(ReservationPlan::ClaimProvisioning { binding_id: b.id }),
                        GroupLifecycleState::Failed => result == Ok::<ReservationPlan, StoreError>(
                            ReservationPlan::ReprovisionFailed { binding_id: b.id },
                        ),
                        _ => result matches Err(e) && e is InvalidLifecycle,
                    },
                    None => result == Ok::<ReservationPlan, StoreError>(ReservationPlan::Create),
                },
            },
        },
{
    validate_reservation_request(request)?;
    if let Some(record) = inbox {
        let binding_id = check_inbox_replay(record, fingerprint, GroupInboxEventKind::Ensure)?;
        return Ok(ReservationPlan::Replay { binding_id });
    }
    if let Some(binding) = by_idempotency_key {
        if !str_eq_owned(&binding.conversation_id, &request.conversation_id) {
            return Err(StoreError::Conflict("provisioning idempotency key belongs to another group conversation".to_string()));
        }
        return Ok(ReservationPlan::IdempotentReplay { binding_id: binding.id });
    }
    match by_conversation {
        Some(binding) => match binding.lifecycle_state {
            GroupLifecycleState::Active => Ok(ReservationPlan::EnsureActive { binding_id: binding.id }),
            GroupLifecycleState::Provisioning => Ok(
                ReservationPlan::ClaimProvisioning { binding_id: binding.id },
            ),
            GroupLifecycleState::Failed => Ok(
                ReservationPlan::ReprovisionFailed { binding_id: binding.id },
            ),
            _ => Err(StoreError::InvalidLifecycle("a terminal group knowledge space cannot be provisioned again".to_string())),
        },
        None => Ok(ReservationPlan::Create),
    }
}

fn str_eq_owned(a: &String, b: &String) -> (result: bool)
    ensures
        result == (a@ == b@),
{
    crate::text::str_eq(a.as_str(), b.as_str())
}

/// When an ensure request loses a race on the unique conversation binding,
/// the committed winner is handed back if it is active or provisioning.
pub fn adopt_conflict_winner(winner: &GroupBinding) -> (result: bool)
    ensures
        result == (winner.lifecycle_state == GroupLifecycleState::Active
            || winner.lifecycle_state == GroupLifecycleState::Provisioning),
{
    match winner.lifecycle_state {
        GroupLifecycleState::Active | GroupLifecycleState::Provisioning => true,
        _ => false,
    }
}

/// The binding after a provisioning lease was claimed.
pub open spec fn lease_claimed(b: GroupBindingView, token: Seq<char>, by: Seq<char>) -> GroupBindingView {
    GroupBindingView {
        provisioning_lease_token: Some(token),
        updated_by: by,
        version: (b.version + 1) as u64,
        ..b
    }
}

/// Claims the provisioning lease of a provisioning binding whose lease is
/// free or expired (`lease_free`, read against the clock by the caller).
pub fn claim_provisioning_lease(
    binding: GroupBinding,
    lease_free: bool,
    token: String,
    updated_by: &str,
) -> (result: Option<GroupBinding>)
    requires
        binding_wf(binding@),
    ensures
        result is Some <==> (binding@.lifecycle_state == GroupLifecycleState::Provisioning
            && lease_free),
        result matches Some(nb) ==> nb@ == lease_claimed(binding@, token@, updated_by@),
        result matches Some(nb) ==> (nb@.provisioning_lease_token == Some(token@) && nb@.updated_by
            == updated_by@ && nb@.version == binding@.version + 1 && nb@.lifecycle_state
            == GroupLifecycleState::Provisioning && nb@.space_id == binding@.space_id),
        !lease_free ==> result is None,
{
    if binding.lifecycle_state != GroupLifecycleState::Provisioning || !lease_free {
        return None;
    }
    let mut next = binding;
    next.provisioning_lease_token = Some(token);
    next.updated_by = updated_by.to_string();
    next.version = next.version + 1;
    Some(next)
}

/// The binding a fresh ensure request creates.
pub open spec fn created_binding(
    r: ReserveGroupSpaceRequest,
    id: u64,
    uuid: Seq<char>,
    space_id: u64,
    space_uuid: Seq<char>,
    token: Seq<char>,
    key_hash: Seq<char>,
) -> GroupBindingView {
    GroupBindingView {
        id,
        uuid,
        scope: r.scope,
        conversation_id: r.conversation_id@,
        space_id: Some(space_id),
        space_uuid: Some(space_uuid),
        group_name: r.group_name@,
        lifecycle_state: GroupLifecycleState::Provisioning,
        acl_projection_state: GroupAclProjectionState::Pending,
        provisioning_idempotency_key_sha256_hex: Some(key_hash),
        provisioning_lease_token: Some(token),
        membership_epoch: r.membership_epoch,
        upstream_link_generation: 0,
        version: 0,
        archive_source_event_id: None,
        archive_payload_sha256_hex: None,
        archive_lease_token: None,
        archive_acl_cursor: None,
        archive_acl_pages_processed: 0,
        archive_acl_cleanup_completed: false,
        last_source_event_id: Some(r.source_event_id@),
        last_error_code: None,
        archived_by: None,
        updated_by: r.created_by@,
    }
}

/// Builds the binding row of a fresh ensure request: provisioning, with a
/// new space, the caller's lease token and version zero.
pub fn new_binding_for_request(
    request: &ReserveGroupSpaceRequest,
    binding_id: u64,
    binding_uuid: String,
    space_id: u64,
    space_uuid: String,
    token: String,
    key_hash: String,
) -> (result: GroupBinding)
    ensures
        result@ == created_binding(
            *request,
            binding_id,
            binding_uuid@,
            space_id,
            space_uuid@,
            token@,
            key_hash@,
        ),
{
    GroupBinding {
        id: binding_id,
        uuid: binding_uuid,
        scope: request.scope,
        conversation_id: request.conversation_id.clone(),
        space_id: Some(space_id),
        space_uuid: Some(space_uuid),
        group_name: request.group_name.clone(),
        lifecycle_state: GroupLifecycleState::Provisioning,
        acl_projection_state: GroupAclProjectionState::Pending,
        provisioning_idempotency_key_sha256_hex: Some(key_hash),
        provisioning_lease_token: Some(token),
        membership_epoch: request.membership_epoch,
        upstream_link_generation: 0,
        version: 0,
        archive_source_event_id: None,
        archive_payload_sha256_hex: None,
        archive_lease_token: None,
        archive_acl_cursor: None,
        archive_acl_pages_processed: 0,
        archive_acl_cleanup_completed: false,
        last_source_event_id: Some(request.source_event_id.clone()),
        last_error_code: None,
        archived_by: None,
        updated_by: request.created_by.clone(),
    }
}

/// The binding after a failed provisioning starts over with a new space.
pub open spec fn reprovisioned(
    b: GroupBindingView,
    r: ReserveGroupSpaceRequest,
    space_id: u64,
    space_uuid: Seq<char>,
    token: Seq<char>,
    key_hash: Seq<char>,
) -> GroupBindingView {
    GroupBindingView {
        space_id: Some(space_id),
        space_uuid: Some(space_uuid),
        group_name: r.group_name@,
        lifecycle_state: GroupLifecycleState::Provisioning,
        acl_projection_state: GroupAclProjectionState::Pending,
        provisioning_idempotency_key_sha256_hex: Some(key_hash),
        provisioning_lease_token: Some(token),
        membership_epoch: r.membership_epoch,
        last_source_event_id: Some(r.source_event_id@),
        last_error_code: None,
        archived_by: None,
        updated_by: r.created_by@,
        version: (b.version + 1) as u64,
        ..b
    }
}

/// Resets a failed binding for a new provisioning attempt.
pub fn reprovision_failed_binding(
    binding: GroupBinding,
    request: &ReserveGroupSpaceRequest,
    space_id: u64,
    space_uuid: String,
    token: String,
    key_hash: String,
) -> (result: GroupBinding)
    requires
        binding_wf(binding@),
    ensures
        result@ == reprovisioned(binding@, *request, space_id, space_uuid@, token@, key_hash@),
        result@.lifecycle_state == GroupLifecycleState::Provisioning,
        result@.acl_projection_state == GroupAclProjectionState::Pending,
        result@.space_id == Some(space_id) && result@.space_uuid == Some(space_uuid@),
        result@.provisioning_lease_token == Some(token@),
        result@.provisioning_idempotency_key_sha256_hex == Some(key_hash@),
        result@.membership_epoch == request.membership_epoch,
        result@.last_error_code is None && result@.archived_by is None,
        result@.version == binding@.version + 1,
{
    let mut next = binding;
    next.space_id = Some(space_id);
    next.space_uuid = Some(space_uuid);
    next.group_name = request.group_name.clone();
    next.lifecycle_state = GroupLifecycleState::Provisioning;
    next.acl_projection_state = GroupAclProjectionState::Pending;
    next.provisioning_idempotency_key_sha256_hex = Some(key_hash);
    next.provisioning_lease_token = Some(token);
    next.membership_epoch = request.membership_epoch;
    next.last_source_event_id = Some(request.source_event_id.clone());
    next.last_error_code = None;
    next.archived_by = None;
    next.updated_by = request.created_by.clone();
    next.version = next.version + 1;
    next
}

/// The binding after provisioning succeeded.
pub open spec fn provisioned(b: GroupBindingView, by: Seq<char>) -> GroupBindingView {
    GroupBindingView {
        lifecycle_state: GroupLifecycleState::Active,
        acl_projection_state: GroupAclProjectionState::Active,
        provisioning_lease_token: None,
        last_error_code: None,
        updated_by: by,
        version: (b.version + 1) as u64,
        ..b
    }
}

/// The provisioning lease of `b` is the token `t`.
pub open spec fn holds_provisioning_lease(b: GroupBindingView, t: Seq<char>) -> bool {
    b.lifecycle_state == GroupLifecycleState::Provisioning && b.provisioning_lease_token == Some(t)
}

/// Activates a provisioning binding whose lease the caller still holds.
pub fn mark_group_space_active(
    binding: GroupBinding,
    scope: GroupScope,
    provisioning_lease_token: &str,
    updated_by: &str,
) -> (result: Result<GroupBinding, StoreError>)
    requires
        binding_wf(binding@),
    ensures
        !group_scope_ok(scope) ==> (result matches Err(e) && e.is_invalid_request()),
        group_scope_ok(scope) && (blank(provisioning_lease_token@) || blank(updated_by@)) ==> (
        result matches Err(e) && e.is_invalid_request()),
        group_scope_ok(scope) && !blank(provisioning_lease_token@) && !blank(updated_by@) ==> (
        if holds_provisioning_lease(binding@, provisioning_lease_token@) {
            result matches Ok(nb) && nb@ == provisioned(binding@, updated_by@)
        } else {
            result matches Err(e) && e.is_conflict()
        }),
{
    validate_scope(scope)?;
    if is_blank(provisioning_lease_token) || is_blank(updated_by) {
        return Err(StoreError::InvalidRequest("provisioning lease token and updated_by are required".to_string()));
    }
    if binding.lifecycle_state != GroupLifecycleState::Provisioning || !opt_eq_str(
        &binding.provisioning_lease_token,
        provisioning_lease_token,
    ) {
        return Err(StoreError::Conflict("provisioning lease is no longer current".to_string()));
    }
    let mut next = binding;
    next.lifecycle_state = GroupLifecycleState::Active;
    next.acl_projection_state = GroupAclProjectionState::Active;
    next.provisioning_lease_token = None;
    next.last_error_code = None;
    next.updated_by = updated_by.to_string();
    next.version = next.version + 1;
    Ok(next)
}

/// The binding after provisioning failed: the space is released.
pub open spec fn provisioning_failed(b: GroupBindingView, error_code: Seq<char>, by: Seq<char>) -> GroupBindingView {
    GroupBindingView {
        lifecycle_state: GroupLifecycleState::Failed,
        acl_projection_state: GroupAclProjectionState::Failed,
        last_error_code: Some(take_chars(error_code, 64)),
        space_id: None,
        space_uuid: None,
        provisioning_lease_token: None,
        updated_by: by,
        version: (b.version + 1) as u64,
        ..b
    }
}

/// Records a failed provisioning attempt of the lease holder.
pub fn mark_group_space_failed(
    binding: GroupBinding,
    scope: GroupScope,
    provisioning_lease_token: &str,
    error_code: &str,
    updated_by: &str,
) -> (result: Result<GroupBinding, StoreError>)
    requires
        binding_wf(binding@),
    ensures
        !group_scope_ok(scope) ==> (result matches Err(e) && e.is_invalid_request()),
        group_scope_ok(scope) && (blank(provisioning_lease_token@) || blank(error_code@) || blank(
            updated_by@,
        )) ==> (result matches Err(e) && e.is_invalid_request()),
        group_scope_ok(scope) && !blank(provisioning_lease_token@) && !blank(error_code@) && !blank(
            updated_by@,
        ) ==> (if binding@.lifecycle_state != GroupLifecycleState::Provisioning {
            result matches Err(e) && e is InvalidLifecycle
        } else if binding@.provisioning_lease_token != Some(provisioning_lease_token@) {
            result matches Err(e) && e.is_conflict()
        } else {
            result matches Ok(nb) && nb@ == provisioning_failed(binding@, error_code@, updated_by@)
        }),
{
    validate_scope(scope)?;
    if is_blank(provisioning_lease_token) || is_blank(error_code) || is_blank(updated_by) {
        return Err(StoreError::InvalidRequest("provisioning lease token, error code, and updated_by are required".to_string()));
    }
    if binding.lifecycle_state != GroupLifecycleState::Provisioning {
        return Err(StoreError::InvalidLifecycle("only a provisioning group knowledge space can fail provisioning".to_string()));
    }
    if !opt_eq_str(&binding.provisioning_lease_token, provisioning_lease_token) {
        return Err(StoreError::Conflict("provisioning lease is no longer current".to_string()));
    }
    let mut next = binding;
    next.lifecycle_state = GroupLifecycleState::Failed;
    next.acl_projection_state = GroupAclProjectionState::Failed;
    next.last_error_code = Some(truncate_error_code(error_code));
    next.space_id = None;
    next.space_uuid = None;
    next.provisioning_lease_token = None;
    next.updated_by = updated_by.to_string();
    next.version = next.version + 1;
    Ok(next)
}

/// What an ensure request hands back: the binding, whether the caller must
/// provision its space, and the provisioning lease the caller then holds.
#[derive(Debug, Clone)]
pub struct GroupSpaceReservation {
    pub binding: GroupBinding,
    pub requires_provisioning: bool,
    pub provisioning_lease_token: Option<String>,
}

/// A reservation asks for provisioning exactly when it carries a lease token,
/// and then the binding is provisioning under that very token.
pub open spec fn reservation_coherent(r: GroupSpaceReservation) -> bool {
    &&& r.requires_provisioning <==> r.provisioning_lease_token is Some
    &&& r.requires_provisioning ==> r.binding@.lifecycle_state == GroupLifecycleState::Provisioning
    &&& r.provisioning_lease_token matches Some(t) ==> r.binding@.provisioning_lease_token == Some(t@)
}

/// Builds the result of an ensure request. `lease_claimed` says whether this
/// request created, reprovisioned or took over the binding's provisioning
/// lease; the caller is asked to provision only then, and only for a binding
/// that is provisioning under a lease, whose token it is handed.
pub fn reservation_result(binding: GroupBinding, lease_claimed: bool) -> (result: GroupSpaceReservation)
    ensures
        result.binding@ == binding@,
        result.requires_provisioning == (lease_claimed && binding@.lifecycle_state
            == GroupLifecycleState::Provisioning && binding@.provisioning_lease_token is Some),
        result.requires_provisioning ==> crate::text::opt_view(result.provisioning_lease_token)
            == binding@.provisioning_lease_token,
        reservation_coherent(result),
{
    let provisioning = lease_claimed && binding.lifecycle_state == GroupLifecycleState::Provisioning
        && binding.provisioning_lease_token.is_some();
    let token = if provisioning {
        crate::text::opt_clone(&binding.provisioning_lease_token)
    } else {
        None
    };
    GroupSpaceReservation { binding, requires_provisioning: provisioning, provisioning_lease_token: token }
}

/// What a redelivered ensure request does with the binding its inbox row
/// names: a provisioning binding whose lease is free is taken over (the
/// caller stores the binding and provisions); any other binding is handed
/// back as it is, without provisioning or a lease, and nothing is written.
pub fn replay_reservation_step(
    binding: GroupBinding,
    lease_free: bool,
    token: String,
    updated_by: &str,
) -> (result: StoreStep<GroupSpaceReservation, GroupBinding>)
    requires
        binding_wf(binding@),
    ensures
        (binding@.lifecycle_state == GroupLifecycleState::Provisioning && lease_free) ==> (
        result matches StoreStep::Write(nb) && nb@ == lease_claimed(binding@, token@, updated_by@)),
        !(binding@.lifecycle_state == GroupLifecycleState::Provisioning && lease_free) ==> (
        result matches StoreStep::Reply(r) && r.binding@ == binding@ && !r.requires_provisioning
            && r.provisioning_lease_token is None),
{
    if binding.lifecycle_state == GroupLifecycleState::Provisioning && lease_free {
        match claim_provisioning_lease(binding, lease_free, token, updated_by) {
            Some(nb) => StoreStep::Write(nb),
            None => vstd::pervasive::unreached(),
        }
    } else {
        StoreStep::Reply(reservation_result(binding, false))
    }
}

} // verus!
