use vstd::prelude::*;
use crate::error::StoreError;
use crate::group::binding::{
    binding_wf, ensure_target_matches_binding, target_matches, GroupBinding, GroupBindingView,
};
use crate::group::model::{
    archive_command_ok, group_scope_ok, group_text_ok, scope_id_ok, validate_archive_command,
    validate_group_text, validate_scope, validate_tenant_id, ArchiveGroupSpaceCommand, GroupScope,
    LEASE_TOKEN_MAX_LENGTH,
};
use crate::group::states::{GroupAclProjectionState, GroupLifecycleState};
use crate::text::{opt_eq, opt_eq_str, opt_view, str_eq, take_chars, truncate_error_code};

use crate::store_step::StoreStep;

verus! {

/// Largest page count of one resumable-archive listing.
pub const MAX_ARCHIVE_WORK_BATCH: u32 = 200;
/// Longest Drive ACL pagination cursor, in bytes.
pub const MAX_ARCHIVE_ACL_CURSOR_LENGTH: usize = 2048;
/// Number of ACL cleanup pages after which the archive saga stops.
pub const MAX_ARCHIVE_ACL_PAGES: u64 = 100000;

/// The binding is archiving for exactly this event and payload.
pub open spec fn archive_fence(b: GroupBindingView, source_event_id: Seq<char>, fingerprint: Seq<char>) -> bool {
    b.archive_source_event_id == Some(source_event_id) && b.archive_payload_sha256_hex == Some(
        fingerprint,
    )
}

/// The archive lease of this event is held by `token`.
pub open spec fn archive_lease_current(
    b: GroupBindingView,
    source_event_id: Seq<char>,
    fingerprint: Seq<char>,
    token: Seq<char>,
) -> bool {
    &&& b.lifecycle_state == GroupLifecycleState::Archiving
    &&& archive_fence(b, source_event_id, fingerprint)
    &&& b.archive_lease_token == Some(token)
}

/// The archive of this event has finished.
pub open spec fn archive_finished(b: GroupBindingView, source_event_id: Seq<char>, fingerprint: Seq<
    char,
>) -> bool {
    b.lifecycle_state == GroupLifecycleState::Archived && archive_fence(
        b,
        source_event_id,
        fingerprint,
    )
}

fn fence_holds(binding: &GroupBinding, source_event_id: &str, fingerprint: &str) -> (result: bool)
    ensures
        result == archive_fence(binding@, source_event_id@, fingerprint@),
{
    opt_eq_str(&binding.archive_source_event_id, source_event_id) && opt_eq_str(
        &binding.archive_payload_sha256_hex,
        fingerprint,
    )
}

fn lease_current(binding: &GroupBinding, source_event_id: &str, fingerprint: &str, token: &str) -> (result:
    bool)
    ensures
        result == archive_lease_current(binding@, source_event_id@, fingerprint@, token@),
{
    binding.lifecycle_state == GroupLifecycleState::Archiving && fence_holds(
        binding,
        source_event_id,
        fingerprint,
    ) && opt_eq_str(&binding.archive_lease_token, token)
}

fn finished(binding: &GroupBinding, source_event_id: &str, fingerprint: &str) -> (result: bool)
    ensures
        result == archive_finished(binding@, source_event_id@, fingerprint@),
{
    binding.lifecycle_state == GroupLifecycleState::Archived && fence_holds(
        binding,
        source_event_id,
        fingerprint,
    )
}

/// How an archive command starts.
#[derive(Debug, Clone, Copy, PartialEq, Eq, Structural)]
pub enum ArchiveBeginPlan {
    /// The binding is archived or deleted: record the event only.
    TerminalNoop,
    /// The same archive is converging: take over its lease if it is free.
    ClaimLease,
    /// Start archiving an active or provisioning binding.
    Start,
}

/// Decides how an archive command (not yet in the inbox) starts.
pub fn plan_archive_begin(binding: &GroupBinding, command: &ArchiveGroupSpaceCommand, fingerprint: &str) -> (result:
    Result<ArchiveBeginPlan, StoreError>)
    ensures
        !target_matches(binding@, command.target) ==> (result matches Err(e) && e.is_conflict()),
        target_matches(binding@, command.target) ==> match binding@.lifecycle_state {
            GroupLifecycleState::Archived | GroupLifecycleState::Deleted => result == Ok::<
                ArchiveBeginPlan,
                StoreError,
            >(ArchiveBeginPlan::TerminalNoop),
            GroupLifecycleState::Archiving => if archive_fence(
                binding@,
                command.source_event_id@,
                fingerprint@,
            ) {
                result == Ok::<ArchiveBeginPlan, StoreError>(ArchiveBeginPlan::ClaimLease)
            } else {
                result matches Err(e) && e.is_conflict()
            },
            GroupLifecycleState::Active | GroupLifecycleState::Provisioning => result == Ok::<
                ArchiveBeginPlan,
                StoreError,
            >(ArchiveBeginPlan::Start),
            GroupLifecycleState::Failed => result matches Err(e) && e is InvalidLifecycle,
        },
{
    ensure_target_matches_binding(binding, &command.target)?;
    match binding.lifecycle_state {
        GroupLifecycleState::Archived | GroupLifecycleState::Deleted => Ok(
            ArchiveBeginPlan::TerminalNoop,
        ),
        GroupLifecycleState::Archiving => {
            if !fence_holds(binding, command.source_event_id.as_str(), fingerprint) {
                return Err(StoreError::Conflict("a different archive event is already converging for this group knowledge space".to_string()));
            }
            Ok(ArchiveBeginPlan::ClaimLease)
        },
        GroupLifecycleState::Active | GroupLifecycleState::Provisioning => Ok(
            ArchiveBeginPlan::Start,
        ),
        GroupLifecycleState::Failed => Err(StoreError::InvalidLifecycle("a failed group knowledge space has no archiveable target".to_string())),
    }
}

/// The binding once an archive started.
pub open spec fn archive_started(
    b: GroupBindingView,
    c: ArchiveGroupSpaceCommand,
    fingerprint: Seq<char>,
    token: Seq<char>,
) -> GroupBindingView {
    GroupBindingView {
        lifecycle_state: GroupLifecycleState::Archiving,
        acl_projection_state: GroupAclProjectionState::Pending,
        archive_source_event_id: Some(c.source_event_id@),
        archive_payload_sha256_hex: Some(fingerprint),
        archive_lease_token: Some(token),
        archive_acl_cursor: None,
        archive_acl_pages_processed: 0,
        archive_acl_cleanup_completed: false,
        archived_by: Some(c.archived_by@),
        upstream_link_generation: c.upstream_link_generation,
        last_source_event_id: Some(c.source_event_id@),
        last_error_code: None,
        updated_by: c.archived_by@,
        version: (b.version + 1) as u64,
        ..b
    }
}

/// Moves a binding into the archive saga with the caller's lease token.
pub fn start_archive(
    binding: GroupBinding,
    command: &ArchiveGroupSpaceCommand,
    fingerprint: String,
    token: String,
) -> (result: GroupBinding)
    requires
        binding_wf(binding@),
    ensures
        result@ == archive_started(binding@, *command, fingerprint@, token@),
        result@.lifecycle_state == GroupLifecycleState::Archiving,
        result@.acl_projection_state == GroupAclProjectionState::Pending,
        result@.archive_lease_token == Some(token@),
        result@.archive_source_event_id == Some(command.source_event_id@),
        result@.archive_payload_sha256_hex == Some(fingerprint@),
        result@.archive_acl_cursor is None && result@.archive_acl_pages_processed == 0
            && !result@.archive_acl_cleanup_completed,
        result@.archived_by == Some(command.archived_by@),
        result@.version == binding@.version + 1,
        result@.space_id == binding@.space_id && result@.membership_epoch == binding@.membership_epoch,
{
    let mut next = binding;
    next.lifecycle_state = GroupLifecycleState::Archiving;
    next.acl_projection_state = GroupAclProjectionState::Pending;
    next.archive_source_event_id = Some(command.source_event_id.clone());
    next.archive_payload_sha256_hex = Some(fingerprint);
    next.archive_lease_token = Some(token);
    next.archive_acl_cursor = None;
    next.archive_acl_pages_processed = 0;
    next.archive_acl_cleanup_completed = false;
    next.archived_by = Some(command.archived_by.clone());
    next.upstream_link_generation = command.upstream_link_generation;
    next.last_source_event_id = Some(command.source_event_id.clone());
    next.last_error_code = None;
    next.updated_by = command.archived_by.clone();
    next.version = next.version + 1;
    next
}

/// The binding once the archive saga took over a free lease.
pub open spec fn archive_lease_claimed(b: GroupBindingView, token: Seq<char>) -> GroupBindingView {
    GroupBindingView {
        archive_lease_token: Some(token),
        updated_by: seq!['g', 'r', 'o', 'u', 'p', '-', 'a', 'r', 'c', 'h', 'i', 'v', 'e', '-', 's', 'a', 'g', 'a'],
        version: (b.version + 1) as u64,
        ..b
    }
}

/// Takes over the archive lease of a converging archive when it is free or
/// expired (`lease_free`, read against the clock by the caller).
pub fn claim_archive_lease(
    binding: GroupBinding,
    source_event_id: &str,
    fingerprint: &str,
    lease_free: bool,
    token: String,
) -> (result: Option<GroupBinding>)
    requires
        binding_wf(binding@),
    ensures
        result is Some <==> (binding@.lifecycle_state == GroupLifecycleState::Archiving
            && archive_fence(binding@, source_event_id@, fingerprint@) && lease_free),
        result matches Some(nb) ==> nb@ == archive_lease_claimed(binding@, token@),
        result matches Some(nb) ==> (nb@.archive_lease_token == Some(token@) && nb@.version == binding@.version
            + 1 && nb@.lifecycle_state == GroupLifecycleState::Archiving && nb@.archive_source_event_id
            == binding@.archive_source_event_id && nb@.archive_acl_cursor == binding@.archive_acl_cursor
            && nb@.archive_acl_pages_processed == binding@.archive_acl_pages_processed),
        !lease_free ==> result is None,
{
    if binding.lifecycle_state != GroupLifecycleState::Archiving || !fence_holds(
        &binding,
        source_event_id,
        fingerprint,
    ) || !lease_free {
        return None;
    }
    proof {
        reveal_strlit("group-archive-saga");
    }
    assert("group-archive-saga"@ =~= archive_lease_claimed(binding@, token@).updated_by);
    let mut next = binding;
    next.archive_lease_token = Some(token);
    next.updated_by = "group-archive-saga".to_string();
    next.version = next.version + 1;
    Some(next)
}

/// A binding handed back by an archive step, and whether the step changed it.
#[derive(Debug)]
pub enum ArchiveStep {
    /// The archive had already finished: the binding is returned as it is.
    Unchanged(GroupBinding),
    /// The step changed the binding, which the caller persists.
    Changed(GroupBinding),
}

/// The binding once its archive finished.
pub open spec fn archive_completed(b: GroupBindingView, c: ArchiveGroupSpaceCommand) -> GroupBindingView {
    GroupBindingView {
        lifecycle_state: GroupLifecycleState::Archived,
        acl_projection_state: GroupAclProjectionState::Pending,
        archive_lease_token: None,
        last_source_event_id: Some(c.source_event_id@),
        last_error_code: None,
        updated_by: c.archived_by@,
        version: (b.version + 1) as u64,
        ..b
    }
}

/// The inputs an archive step must carry.
pub open spec fn archive_step_ok(c: ArchiveGroupSpaceCommand, token: Seq<char>) -> bool {
    archive_command_ok(c) && group_text_ok(token, LEASE_TOKEN_MAX_LENGTH as nat)
}

/// Finishes an archive for the holder of its lease; a repeated completion of
/// a finished archive hands the binding back unchanged. An external membership
/// ACL projection that is still running blocks the completion.
pub fn complete_group_space_archive(
    binding: GroupBinding,
    command: &ArchiveGroupSpaceCommand,
    fingerprint: &str,
    archive_lease_token: &str,
    external_projection_active: bool,
) -> (result: Result<ArchiveStep, StoreError>)
    requires
        binding_wf(binding@),
    ensures
        !archive_step_ok(*command, archive_lease_token@) ==> (result matches Err(e)
            && e.is_invalid_request()),
        archive_step_ok(*command, archive_lease_token@) ==> if !target_matches(
            binding@,
            command.target,
        ) {
            result matches Err(e) && e.is_conflict()
        } else if archive_finished(binding@, command.source_event_id@, fingerprint@) {
            result matches Ok(ArchiveStep::Unchanged(nb)) && nb@ == binding@
        } else if !archive_lease_current(
            binding@,
            command.source_event_id@,
            fingerprint@,
            archive_lease_token@,
        ) || external_projection_active {
            result matches Err(e) && e.is_conflict()
        } else {
            result matches Ok(ArchiveStep::Changed(nb)) && nb@ == archive_completed(
                binding@,
                *command,
            )
        },
{
    validate_archive_command(command)?;
    validate_group_text("archive_lease_token", archive_lease_token, LEASE_TOKEN_MAX_LENGTH)?;
    ensure_target_matches_binding(&binding, &command.target)?;
    if finished(&binding, command.source_event_id.as_str(), fingerprint) {
        return Ok(ArchiveStep::Unchanged(binding));
    }
    if !lease_current(&binding, command.source_event_id.as_str(), fingerprint, archive_lease_token) {
        return Err(StoreError::Conflict("group archive lease is no longer current".to_string()));
    }
    if external_projection_active {
        return Err(StoreError::Conflict("group archive cannot finalize while an external membership ACL projection is active".to_string()));
    }
    let mut next = binding;
    next.lifecycle_state = GroupLifecycleState::Archived;
    next.acl_projection_state = GroupAclProjectionState::Pending;
    next.archive_lease_token = None;
    next.last_source_event_id = Some(command.source_event_id.clone());
    next.last_error_code = None;
    next.updated_by = command.archived_by.clone();
    next.version = next.version + 1;
    Ok(ArchiveStep::Changed(next))
}

/// The binding after one page of Drive ACL cleanup.
pub open spec fn acl_cleanup_advanced(
    b: GroupBindingView,
    c: ArchiveGroupSpaceCommand,
    next_cursor: Option<Seq<char>>,
    completed: bool,
) -> GroupBindingView {
    GroupBindingView {
        archive_acl_cursor: next_cursor,
        archive_acl_pages_processed: (b.archive_acl_pages_processed + 1) as u64,
        archive_acl_cleanup_completed: completed,
        archive_lease_token: if completed {
            b.archive_lease_token
        } else {
            None
        },
        updated_by: c.archived_by@,
        version: (b.version + 1) as u64,
        ..b
    }
}

/// The inputs of an ACL cleanup step: a valid cursor, and none once done.
pub open spec fn cleanup_step_ok(next_cursor: Option<Seq<char>>, completed: bool) -> bool {
    &&& (next_cursor matches Some(cur) ==> group_text_ok(cur, MAX_ARCHIVE_ACL_CURSOR_LENGTH as nat))
    &&& !(completed && next_cursor is Some)
}

/// Records one page of Drive ACL cleanup of an archive. The cursor must move
/// on between pages, the page count is bounded, and the lease is handed back
/// after every unfinished page.
pub fn advance_group_space_archive_acl_cleanup(
    binding: GroupBinding,
    command: &ArchiveGroupSpaceCommand,
    fingerprint: &str,
    archive_lease_token: &str,
    next_cursor: Option<String>,
    cleanup_completed: bool,
) -> (result: Result<GroupBinding, StoreError>)
    requires
        binding_wf(binding@),
    ensures
        !archive_step_ok(*command, archive_lease_token@) || !cleanup_step_ok(
            opt_view(next_cursor),
            cleanup_completed,
        ) ==> (result matches Err(e) && e.is_invalid_request()),
        archive_step_ok(*command, archive_lease_token@) && cleanup_step_ok(
            opt_view(next_cursor),
            cleanup_completed,
        ) ==> if !target_matches(binding@, command.target) {
            result matches Err(e) && e.is_conflict()
        } else if !archive_lease_current(
            binding@,
            command.source_event_id@,
            fingerprint@,
            archive_lease_token@,
        ) {
            result matches Err(e) && e.is_conflict()
        } else if binding@.archive_acl_pages_processed >= MAX_ARCHIVE_ACL_PAGES {
            result matches Err(e) && e.is_conflict()
        } else if !cleanup_completed && next_cursor is Some && opt_view(next_cursor)
            == binding@.archive_acl_cursor {
            result matches Err(e) && e.is_conflict()
        } else {
            result matches Ok(nb) && nb@ == acl_cleanup_advanced(
                binding@,
                *command,
                opt_view(next_cursor),
                cleanup_completed,
            )
        },
{
    validate_archive_command(command)?;
    validate_group_text("archive_lease_token", archive_lease_token, LEASE_TOKEN_MAX_LENGTH)?;
    if let Some(cursor) = &next_cursor {
        validate_group_text("archive_acl_cursor", cursor.as_str(), MAX_ARCHIVE_ACL_CURSOR_LENGTH)?;
    }
    if cleanup_completed && next_cursor.is_some() {
        return Err(StoreError::InvalidRequest("completed archive ACL cleanup cannot retain a pagination cursor".to_string()));
    }
    ensure_target_matches_binding(&binding, &command.target)?;
    if !lease_current(&binding, command.source_event_id.as_str(), fingerprint, archive_lease_token) {
        return Err(StoreError::Conflict("group archive lease is no longer current".to_string()));
    }
    if binding.archive_acl_pages_processed >= MAX_ARCHIVE_ACL_PAGES {
        return Err(StoreError::Conflict("archive ACL cleanup exceeded its durable safety bound".to_string()));
    }
    if !cleanup_completed && next_cursor.is_some() && opt_eq(&next_cursor, &binding.archive_acl_cursor) {
        return Err(StoreError::Conflict("archive ACL pagination cursor did not advance".to_string()));
    }
    let mut next = binding;
    next.archive_acl_cursor = next_cursor;
    next.archive_acl_pages_processed = next.archive_acl_pages_processed + 1;
    next.archive_acl_cleanup_completed = cleanup_completed;
    if !cleanup_completed {
        next.archive_lease_token = None;
    }
    next.updated_by = command.archived_by.clone();
    next.version = next.version + 1;
    Ok(next)
}

/// The binding after the archive saga handed its lease back with an error.
pub open spec fn archive_lease_released(
    b: GroupBindingView,
    c: ArchiveGroupSpaceCommand,
    error_code: Seq<char>,
) -> GroupBindingView {
    GroupBindingView {
        archive_lease_token: None,
        last_error_code: Some(take_chars(error_code, 64)),
        updated_by: c.archived_by@,
        version: (b.version + 1) as u64,
        ..b
    }
}

/// Hands the archive lease back after a failed step so that another worker
/// can resume; a finished archive is handed back unchanged.
pub fn release_group_space_archive_lease(
    binding: GroupBinding,
    command: &ArchiveGroupSpaceCommand,
    fingerprint: &str,
    archive_lease_token: &str,
    error_code: &str,
) -> (result: Result<ArchiveStep, StoreError>)
    requires
        binding_wf(binding@),
    ensures
        !archive_step_ok(*command, archive_lease_token@) || !group_text_ok(error_code@, 64) ==> (
        result matches Err(e) && e.is_invalid_request()),
        archive_step_ok(*command, archive_lease_token@) && group_text_ok(error_code@, 64) ==> if !target_matches(
            binding@,
            command.target,
        ) {
            result matches Err(e) && e.is_conflict()
        } else if archive_finished(binding@, command.source_event_id@, fingerprint@) {
            result matches Ok(ArchiveStep::Unchanged(nb)) && nb@ == binding@
        } else if !archive_lease_current(
            binding@,
            command.source_event_id@,
            fingerprint@,
            archive_lease_token@,
        ) {
            result matches Err(e) && e.is_conflict()
        } else {
            result matches Ok(ArchiveStep::Changed(nb)) && nb@ == archive_lease_released(
                binding@,
                *command,
                error_code@,
            )
        },
{
    validate_archive_command(command)?;
    validate_group_text("archive_lease_token", archive_lease_token, LEASE_TOKEN_MAX_LENGTH)?;
    validate_group_text("error_code", error_code, 64)?;
    ensure_target_matches_binding(&binding, &command.target)?;
    if finished(&binding, command.source_event_id.as_str(), fingerprint) {
        return Ok(ArchiveStep::Unchanged(binding));
    }
    if !lease_current(&binding, command.source_event_id.as_str(), fingerprint, archive_lease_token) {
        return Err(StoreError::Conflict("group archive lease is no longer current".to_string()));
    }
    let mut next = binding;
    next.archive_lease_token = None;
    next.last_error_code = Some(truncate_error_code(error_code));
    next.updated_by = command.archived_by.clone();
    next.version = next.version + 1;
    Ok(ArchiveStep::Changed(next))
}

/// Validates a request for resumable archives of a tenant, optionally
/// narrowed to one organization, at most `MAX_ARCHIVE_WORK_BATCH` at a time.
pub fn validate_archive_work_request(tenant_id: u64, organization_id: Option<u64>, limit: u32) -> (result:
    Result<(), StoreError>)
    ensures
        result is Ok <==> (scope_id_ok(tenant_id) && (organization_id matches Some(o) ==> scope_id_ok(
            o,
        )) && 1 <= limit <= MAX_ARCHIVE_WORK_BATCH),
        result matches Err(e) ==> e.is_invalid_request(),
{
    validate_tenant_id(tenant_id)?;
    if let Some(organization_id) = organization_id {
        validate_scope(GroupScope { tenant_id, organization_id })?;
    }
    if limit == 0 || limit > MAX_ARCHIVE_WORK_BATCH {
        return Err(StoreError::InvalidRequest("archive work limit must be between 1 and 200".to_string()));
    }
    Ok(())
}

/// A binding the archive listing resumes: archiving, with its event, payload
/// and actor recorded, and no live lease (`lease_free`, read by the caller).
pub open spec fn archive_resumable(b: GroupBindingView, lease_free: bool) -> bool {
    &&& b.lifecycle_state == GroupLifecycleState::Archiving
    &&& b.archive_source_event_id is Some
    &&& b.archive_payload_sha256_hex is Some
    &&& b.archived_by is Some
    &&& (b.archive_lease_token is None || lease_free)
}

/// Whether the archive listing resumes a binding.
pub fn is_archive_resumable(binding: &GroupBinding, lease_free: bool) -> (result: bool)
    ensures
        result == archive_resumable(binding@, lease_free),
        result ==> binding.lifecycle_state == GroupLifecycleState::Archiving,
        result ==> binding.archive_source_event_id is Some && binding.archived_by is Some
            && binding.archive_payload_sha256_hex is Some,
        (binding.lifecycle_state == GroupLifecycleState::Archiving && binding.archive_source_event_id is Some
            && binding.archive_payload_sha256_hex is Some && binding.archived_by is Some
            && binding.archive_lease_token is None) ==> result,
        binding.archive_lease_token is Some && !lease_free ==> !result,
{
    binding.lifecycle_state == GroupLifecycleState::Archiving && binding.archive_source_event_id.is_some()
        && binding.archive_payload_sha256_hex.is_some() && binding.archived_by.is_some() && (
    binding.archive_lease_token.is_none() || lease_free)
}

/// Law: completing an archive is idempotent. Once the lease holder completed
/// the archive, the binding still names the command's target and counts as
/// finished for the same event and payload, so every later completion or
/// lease release of that command hands it back unchanged.
pub proof fn archive_completion_is_idempotent(
    b: GroupBindingView,
    c: ArchiveGroupSpaceCommand,
    fingerprint: Seq<char>,
    token: Seq<char>,
)
    requires
        target_matches(b, c.target),
        archive_lease_current(b, c.source_event_id@, fingerprint, token),
    ensures
        target_matches(archive_completed(b, c), c.target),
        archive_finished(archive_completed(b, c), c.source_event_id@, fingerprint),
        archive_completed(b, c).archive_lease_token is None,
{
}

/// Law: a released archive lease can be taken over again. After the lease
/// holder released it, the binding is still archiving for the same event and
/// payload and holds no lease, so the archive listing resumes it and a claim
/// succeeds.
pub proof fn released_archive_is_resumable(
    b: GroupBindingView,
    c: ArchiveGroupSpaceCommand,
    fingerprint: Seq<char>,
    token: Seq<char>,
    error_code: Seq<char>,
)
    requires
        archive_lease_current(b, c.source_event_id@, fingerprint, token),
        b.archived_by is Some,
    ensures
        archive_resumable(archive_lease_released(b, c, error_code), false),
        archive_fence(archive_lease_released(b, c, error_code), c.source_event_id@, fingerprint),
{
}

/// Law: starting an archive fences it. The started binding holds the
/// caller's lease for the command's event and payload, so the lease holder
/// can complete it.
pub proof fn started_archive_holds_its_lease(
    b: GroupBindingView,
    c: ArchiveGroupSpaceCommand,
    fingerprint: Seq<char>,
    token: Seq<char>,
)
    ensures
        archive_lease_current(archive_started(b, c, fingerprint, token), c.source_event_id@, fingerprint, token),
        archive_started(b, c, fingerprint, token).id == b.id,
        archive_started(b, c, fingerprint, token).space_id == b.space_id,
{
}

/// The writes that finish an archive: the binding as completed, and the
/// member rows, the `archived_at` stamp and the membership projections that
/// go with it.
#[derive(Debug)]
pub struct ArchiveCompletionWrite {
    /// The archived binding to store.
    pub binding: GroupBinding,
    /// Every active member of the binding becomes inactive.
    pub deactivate_members: bool,
    /// The binding's `archived_at` is set (kept if already set).
    pub stamp_archived_at: bool,
    /// Unleased membership projections of the binding are settled.
    pub settle_membership_projections: bool,
}

/// What completing an archive does: a finished archive is handed back and
/// nothing is written; otherwise the lease holder's completion archives the
/// binding, deactivates every member and stamps `archived_at`.
pub fn archive_completion_step(
    binding: GroupBinding,
    command: &ArchiveGroupSpaceCommand,
    fingerprint: &str,
    archive_lease_token: &str,
    external_projection_active: bool,
) -> (result: Result<StoreStep<GroupBinding, ArchiveCompletionWrite>, StoreError>)
    requires
        binding_wf(binding@),
    ensures
        !archive_step_ok(*command, archive_lease_token@) ==> (result matches Err(e)
            && e.is_invalid_request()),
        archive_step_ok(*command, archive_lease_token@) ==> if !target_matches(
            binding@,
            command.target,
        ) {
            result matches Err(e) && e.is_conflict()
        } else if archive_finished(binding@, command.source_event_id@, fingerprint@) {
            result matches Ok(StoreStep::Reply(nb)) && nb@ == binding@
        } else if !archive_lease_current(
            binding@,
            command.source_event_id@,
            fingerprint@,
            archive_lease_token@,
        ) || external_projection_active {
            result matches Err(e) && e.is_conflict()
        } else {
            result matches Ok(StoreStep::Write(w)) && w.binding@ == archive_completed(binding@, *command)
                && w.deactivate_members && w.stamp_archived_at && w.settle_membership_projections
        },
{
    match complete_group_space_archive(
        binding,
        command,
        fingerprint,
        archive_lease_token,
        external_projection_active,
    )? {
        ArchiveStep::Unchanged(b) => Ok(StoreStep::Reply(b)),
        ArchiveStep::Changed(b) => Ok(
            StoreStep::Write(
                ArchiveCompletionWrite {
                    binding: b,
                    deactivate_members: true,
                    stamp_archived_at: true,
                    settle_membership_projections: true,
                },
            ),
        ),
    }
}

} // verus!
