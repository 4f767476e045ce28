use knowledgebase_repository::error::StoreError;
use knowledgebase_repository::group::archive::{
    advance_group_space_archive_acl_cleanup, claim_archive_lease, complete_group_space_archive,
    plan_archive_begin, release_group_space_archive_lease, start_archive,
    validate_archive_work_request, ArchiveBeginPlan, ArchiveStep,
};
use knowledgebase_repository::group::binding::{
    archive_command_from_binding, check_inbox_replay, ensure_target_matches_binding, GroupBinding,
    GroupInboxEventKind,
    GroupInboxRecord,
};
use knowledgebase_repository::group::fingerprint::{
    archive_command_fingerprint, decimal_text, membership_command_fingerprint, normalized_members,
    reservation_fingerprint,
};
use knowledgebase_repository::group::members::member_sets_changed;
use knowledgebase_repository::group::membership::{
    plan_membership_reservation, plan_synchronize_group_members, write_membership_snapshot,
    MembershipPlan, MembershipProjectionRecord,
};
use knowledgebase_repository::group::model::{
    validate_members, validate_reservation_request, ArchiveGroupSpaceCommand, GroupMember,
    GroupScope, GroupTarget, MembershipSyncCommand, ReserveGroupSpaceRequest,
};
use knowledgebase_repository::group::provisioning::{
    claim_provisioning_lease, mark_group_space_active, mark_group_space_failed,
    new_binding_for_request, plan_group_space_reservation, ReservationPlan,
};
use knowledgebase_repository::group::states::{
    GroupAccessLevel, GroupAclProjectionState, GroupLifecycleState, GroupMemberRole,
    GroupPrincipalKind, MembershipProjectionState,
};

fn scope() -> GroupScope {
    GroupScope { tenant_id: 1, organization_id: 2 }
}

fn member(actor: &str, role: GroupMemberRole) -> GroupMember {
    GroupMember {
        principal_kind: GroupPrincipalKind::User,
        actor_id: actor.to_string(),
        role,
        access_level: None,
    }
}

fn members() -> Vec<GroupMember> {
    vec![member("alice", GroupMemberRole::Owner), member("bob", GroupMemberRole::Member)]
}

fn request() -> ReserveGroupSpaceRequest {
    ReserveGroupSpaceRequest {
        scope: scope(),
        conversation_id: "conv-1".to_string(),
        group_name: "Team".to_string(),
        source_event_id: "evt-1".to_string(),
        provisioning_idempotency_key: "key-1".to_string(),
        created_by: "alice".to_string(),
        membership_epoch: 1,
        members: members(),
    }
}

fn target() -> GroupTarget {
    GroupTarget {
        knowledgebase_binding_id: 10,
        knowledgebase_binding_uuid: "binding-uuid".to_string(),
        knowledge_space_id: 20,
        knowledge_space_uuid: "space-uuid".to_string(),
    }
}

fn binding(state: GroupLifecycleState) -> GroupBinding {
    let mut b = new_binding_for_request(
        &request(),
        10,
        "binding-uuid".to_string(),
        20,
        "space-uuid".to_string(),
        "lease-1".to_string(),
        "hash".to_string(),
    );
    b.lifecycle_state = state;
    if state == GroupLifecycleState::Active {
        b.acl_projection_state = GroupAclProjectionState::Active;
    }
    b
}

fn archive_command() -> ArchiveGroupSpaceCommand {
    ArchiveGroupSpaceCommand {
        scope: scope(),
        conversation_id: "conv-1".to_string(),
        source_event_id: "evt-archive".to_string(),
        target: target(),
        membership_epoch: 1,
        upstream_link_generation: 3,
        archived_by: "alice".to_string(),
    }
}

fn sync_command(epoch: u64, members: Vec<GroupMember>) -> MembershipSyncCommand {
    MembershipSyncCommand {
        scope: scope(),
        conversation_id: "conv-1".to_string(),
        group_name: "Team".to_string(),
        source_event_id: "evt-sync".to_string(),
        target: target(),
        membership_epoch: epoch,
        upstream_link_generation: 0,
        members,
    }
}

#[test]
fn member_snapshots_need_exactly_one_owner_and_unique_users() {
    assert!(validate_members(&members()).is_ok());
    assert!(matches!(validate_members(&vec![]), Err(StoreError::InvalidRequest(_))));
    let two_owners = vec![member("a", GroupMemberRole::Owner), member("b", GroupMemberRole::Owner)];
    assert!(validate_members(&two_owners).is_err());
    let duplicate = vec![member("a", GroupMemberRole::Owner), member("a", GroupMemberRole::Member)];
    assert!(validate_members(&duplicate).is_err());
    let mut agent = members();
    agent[1].principal_kind = GroupPrincipalKind::Agent;
    assert!(validate_members(&agent).is_err());
    let mut wrong_level = members();
    wrong_level[1].access_level = Some(GroupAccessLevel::Manage);
    assert!(validate_members(&wrong_level).is_err());
    let mut right_level = members();
    right_level[1].access_level = Some(GroupAccessLevel::View);
    assert!(validate_members(&right_level).is_ok());
}

#[test]
fn reservation_requests_are_validated() {
    assert!(validate_reservation_request(&request()).is_ok());
    let mut bad = request();
    bad.scope.organization_id = 0;
    assert!(matches!(validate_reservation_request(&bad), Err(StoreError::InvalidRequest(_))));
    let mut blank = request();
    blank.group_name = "  ".to_string();
    assert!(validate_reservation_request(&blank).is_err());
}

#[test]
fn reservation_plan_follows_the_lifecycle() {
    let r = request();
    let fp = reservation_fingerprint(&r);
    assert_eq!(plan_group_space_reservation(&r, &fp, None, None, None).unwrap(), ReservationPlan::Create);
    let active = binding(GroupLifecycleState::Active);
    assert_eq!(
        plan_group_space_reservation(&r, &fp, None, None, Some(&active)).unwrap(),
        ReservationPlan::EnsureActive { binding_id: 10 }
    );
    let failed = binding(GroupLifecycleState::Failed);
    assert_eq!(
        plan_group_space_reservation(&r, &fp, None, None, Some(&failed)).unwrap(),
        ReservationPlan::ReprovisionFailed { binding_id: 10 }
    );
    let archived = binding(GroupLifecycleState::Archived);
    assert!(matches!(
        plan_group_space_reservation(&r, &fp, None, None, Some(&archived)),
        Err(StoreError::InvalidLifecycle(_))
    ));
    let inbox = GroupInboxRecord { binding_id: Some(10), payload_sha256_hex: fp.clone() };
    assert_eq!(
        plan_group_space_reservation(&r, &fp, Some(&inbox), None, None).unwrap(),
        ReservationPlan::Replay { binding_id: 10 }
    );
    let other = GroupInboxRecord { binding_id: Some(10), payload_sha256_hex: "x".to_string() };
    assert!(matches!(
        plan_group_space_reservation(&r, &fp, Some(&other), None, None),
        Err(StoreError::Conflict(_))
    ));
    let mut foreign = binding(GroupLifecycleState::Active);
    foreign.conversation_id = "conv-2".to_string();
    assert!(matches!(
        plan_group_space_reservation(&r, &fp, None, Some(&foreign), None),
        Err(StoreError::Conflict(_))
    ));
}

#[test]
fn inbox_replays_need_a_binding() {
    let record = GroupInboxRecord { binding_id: None, payload_sha256_hex: "fp".to_string() };
    assert!(matches!(check_inbox_replay(&record, "fp", GroupInboxEventKind::Ensure), Err(StoreError::Internal(_))));
}

#[test]
fn provisioning_lease_is_claimed_once_and_activates() {
    let b = binding(GroupLifecycleState::Provisioning);
    assert!(claim_provisioning_lease(binding(GroupLifecycleState::Provisioning), false, "t".to_string(), "bob").is_none());
    let claimed = claim_provisioning_lease(b, true, "lease-2".to_string(), "bob").unwrap();
    assert_eq!(claimed.provisioning_lease_token.as_deref(), Some("lease-2"));
    assert_eq!(claimed.version, 1);
    assert!(matches!(
        mark_group_space_active(binding(GroupLifecycleState::Provisioning), scope(), "lease-x", "bob"),
        Err(StoreError::Conflict(_))
    ));
    let active = mark_group_space_active(claimed, scope(), "lease-2", "bob").unwrap();
    assert_eq!(active.lifecycle_state, GroupLifecycleState::Active);
    assert_eq!(active.acl_projection_state, GroupAclProjectionState::Active);
    assert_eq!(active.provisioning_lease_token, None);
    assert_eq!(active.version, 2);
}

#[test]
fn failed_provisioning_releases_the_space() {
    let long_code = "e".repeat(100);
    let failed = mark_group_space_failed(binding(GroupLifecycleState::Provisioning), scope(), "lease-1", &long_code, "bob").unwrap();
    assert_eq!(failed.lifecycle_state, GroupLifecycleState::Failed);
    assert_eq!(failed.space_id, None);
    assert_eq!(failed.last_error_code.unwrap().len(), 64);
    assert!(matches!(
        mark_group_space_failed(binding(GroupLifecycleState::Active), scope(), "lease-1", "E", "bob"),
        Err(StoreError::InvalidLifecycle(_))
    ));
    assert!(matches!(
        mark_group_space_failed(binding(GroupLifecycleState::Provisioning), scope(), " ", "E", "bob"),
        Err(StoreError::InvalidRequest(_))
    ));
}

#[test]
fn target_fence_must_match() {
    let b = binding(GroupLifecycleState::Active);
    assert!(ensure_target_matches_binding(&b, &target()).is_ok());
    let mut other = target();
    other.knowledge_space_id = 21;
    assert!(matches!(ensure_target_matches_binding(&b, &other), Err(StoreError::Conflict(_))));
}

#[test]
fn member_comparison_ignores_order() {
    let a = members();
    let mut b = members();
    b.reverse();
    assert!(!member_sets_changed(&a, &b));
    let c = vec![member("alice", GroupMemberRole::Owner)];
    assert!(member_sets_changed(&a, &c));
    let d = vec![member("alice", GroupMemberRole::Owner), member("bob", GroupMemberRole::Admin)];
    assert!(member_sets_changed(&a, &d));
}

#[test]
fn normalized_members_are_sorted_texts() {
    let mut ms = members();
    ms.reverse();
    let keys = normalized_members(&ms);
    assert_eq!(keys, vec!["user:alice:owner:manage".to_string(), "user:bob:member:view".to_string()]);
    let guest = normalized_members(&vec![member("zed", GroupMemberRole::Guest)]);
    assert_eq!(guest, vec!["user:zed:guest:none".to_string()]);
}

#[test]
fn decimal_rendering() {
    assert_eq!(decimal_text(0), "0");
    assert_eq!(decimal_text(1234567890), "1234567890");
    assert_eq!(decimal_text(u64::MAX), u64::MAX.to_string());
}

#[test]
fn fingerprints_hash_the_nul_joined_preimage() {
    let r = request();
    let key_hash = knowledgebase_repository::hashing::sha256_hash("key-1");
    let preimage = format!(
        "ensure\u{0}conv-1\u{0}Team\u{0}1\u{0}{key_hash}\u{0}user:alice:owner:manage\u{0}user:bob:member:view"
    );
    assert_eq!(reservation_fingerprint(&r), knowledgebase_repository::hashing::sha256_hash(&preimage));
    let mut reordered = request();
    reordered.members.reverse();
    assert_eq!(reservation_fingerprint(&r), reservation_fingerprint(&reordered));
    let mut other = request();
    other.membership_epoch = 2;
    assert_ne!(reservation_fingerprint(&r), reservation_fingerprint(&other));
    let archive = archive_command();
    let archive_preimage = "archive\u{0}conv-1\u{0}10\u{0}binding-uuid\u{0}20\u{0}space-uuid\u{0}1\u{0}3\u{0}alice";
    assert_eq!(
        archive_command_fingerprint(&archive),
        knowledgebase_repository::hashing::sha256_hash(archive_preimage)
    );
    let sync = sync_command(2, members());
    assert_eq!(membership_command_fingerprint(&sync).len(), 64);
}

#[test]
fn provisioning_membership_writes_apply_or_noop() {
    let b = binding(GroupLifecycleState::Provisioning);
    let cmd = sync_command(2, members());
    assert_eq!(
        plan_synchronize_group_members(&b, &cmd, true).unwrap(),
        MembershipPlan::Apply { replace_members: true }
    );
    let stale = sync_command(0, members());
    assert_eq!(plan_synchronize_group_members(&b, &stale, true).unwrap(), MembershipPlan::StaleNoop);
    let same_epoch = sync_command(1, members());
    assert!(matches!(plan_synchronize_group_members(&b, &same_epoch, true), Err(StoreError::Conflict(_))));
    let active = binding(GroupLifecycleState::Active);
    assert!(matches!(
        plan_synchronize_group_members(&active, &cmd, true),
        Err(StoreError::InvalidLifecycle(_))
    ));
    let archived = binding(GroupLifecycleState::Archived);
    assert_eq!(plan_synchronize_group_members(&archived, &cmd, true).unwrap(), MembershipPlan::TerminalNoop);
    let written = write_membership_snapshot(b, &cmd);
    assert_eq!(written.membership_epoch, 2);
    assert_eq!(written.updated_by, "im-membership-sync");
}

#[test]
fn membership_projections_are_reserved_once() {
    let b = binding(GroupLifecycleState::Active);
    let cmd = sync_command(2, members());
    let fp = membership_command_fingerprint(&cmd);
    assert_eq!(
        plan_membership_reservation(&b, &cmd, &fp, None, false, true).unwrap(),
        MembershipPlan::StartProjection
    );
    assert_eq!(
        plan_membership_reservation(&b, &cmd, &fp, None, false, false).unwrap(),
        MembershipPlan::MetadataOnly
    );
    assert!(matches!(
        plan_membership_reservation(&b, &cmd, &fp, None, true, true),
        Err(StoreError::Conflict(_))
    ));
    let mut projection = MembershipProjectionRecord {
        id: 5,
        binding_id: 10,
        payload_sha256_hex: fp.clone(),
        target_membership_epoch: 2,
        projection_state: MembershipProjectionState::Failed,
        projection_lease_token: None,
    };
    assert_eq!(
        plan_membership_reservation(&b, &cmd, &fp, Some(&projection), false, true).unwrap(),
        MembershipPlan::ResumeProjection { projection_id: 5 }
    );
    projection.projection_state = MembershipProjectionState::Completed;
    assert!(matches!(
        plan_membership_reservation(&b, &cmd, &fp, Some(&projection), false, true),
        Err(StoreError::Internal(_))
    ));
}

#[test]
fn archive_saga_runs_once_and_is_idempotent() {
    let cmd = archive_command();
    let fp = archive_command_fingerprint(&cmd);
    let active = binding(GroupLifecycleState::Active);
    assert_eq!(plan_archive_begin(&active, &cmd, &fp).unwrap(), ArchiveBeginPlan::Start);
    let failed = binding(GroupLifecycleState::Failed);
    assert!(matches!(plan_archive_begin(&failed, &cmd, &fp), Err(StoreError::InvalidLifecycle(_))));

    let started = start_archive(active, &cmd, fp.clone(), "archive-lease".to_string());
    assert_eq!(started.lifecycle_state, GroupLifecycleState::Archiving);
    assert_eq!(plan_archive_begin(&started, &cmd, &fp).unwrap(), ArchiveBeginPlan::ClaimLease);

    let rebuilt = archive_command_from_binding(binding_copy(&started)).unwrap();
    assert_eq!(rebuilt.source_event_id, "evt-archive");
    assert_eq!(rebuilt.archived_by, "alice");

    let page = advance_group_space_archive_acl_cleanup(
        binding_copy(&started),
        &cmd,
        &fp,
        "archive-lease",
        Some("cursor-1".to_string()),
        false,
    )
    .unwrap();
    assert_eq!(page.archive_acl_pages_processed, 1);
    assert_eq!(page.archive_lease_token, None);
    assert!(matches!(
        advance_group_space_archive_acl_cleanup(binding_copy(&started), &cmd, &fp, "archive-lease", Some("c".to_string()), true),
        Err(StoreError::InvalidRequest(_))
    ));

    assert!(matches!(
        complete_group_space_archive(binding_copy(&started), &cmd, &fp, "archive-lease", true),
        Err(StoreError::Conflict(_))
    ));
    let done = match complete_group_space_archive(binding_copy(&started), &cmd, &fp, "archive-lease", false).unwrap() {
        ArchiveStep::Changed(b) => b,
        ArchiveStep::Unchanged(_) => panic!("expected a change"),
    };
    assert_eq!(done.lifecycle_state, GroupLifecycleState::Archived);
    assert!(matches!(
        complete_group_space_archive(binding_copy(&done), &cmd, &fp, "other-lease", false).unwrap(),
        ArchiveStep::Unchanged(_)
    ));
    assert!(matches!(
        release_group_space_archive_lease(binding_copy(&done), &cmd, &fp, "x", "E").unwrap(),
        ArchiveStep::Unchanged(_)
    ));
}

#[test]
fn released_archive_lease_can_be_reclaimed() {
    let cmd = archive_command();
    let fp = archive_command_fingerprint(&cmd);
    let started = start_archive(binding(GroupLifecycleState::Active), &cmd, fp.clone(), "l1".to_string());
    let released = match release_group_space_archive_lease(started, &cmd, &fp, "l1", "E_TIMEOUT").unwrap() {
        ArchiveStep::Changed(b) => b,
        ArchiveStep::Unchanged(_) => panic!("expected a change"),
    };
    assert_eq!(released.archive_lease_token, None);
    assert_eq!(released.last_error_code.as_deref(), Some("E_TIMEOUT"));
    let reclaimed = claim_archive_lease(released, "evt-archive", &fp, true, "l2".to_string()).unwrap();
    assert_eq!(reclaimed.archive_lease_token.as_deref(), Some("l2"));
    assert_eq!(reclaimed.updated_by, "group-archive-saga");
}

#[test]
fn archive_work_requests_are_bounded() {
    assert!(validate_archive_work_request(1, Some(2), 200).is_ok());
    assert!(validate_archive_work_request(1, None, 0).is_err());
    assert!(validate_archive_work_request(0, None, 10).is_err());
    assert!(validate_archive_work_request(1, Some(0), 10).is_err());
}

fn binding_copy(b: &GroupBinding) -> GroupBinding {
    GroupBinding {
        id: b.id,
        uuid: b.uuid.clone(),
        scope: b.scope,
        conversation_id: b.conversation_id.clone(),
        space_id: b.space_id,
        space_uuid: b.space_uuid.clone(),
        group_name: b.group_name.clone(),
        lifecycle_state: b.lifecycle_state,
        acl_projection_state: b.acl_projection_state,
        provisioning_idempotency_key_sha256_hex: b.provisioning_idempotency_key_sha256_hex.clone(),
        provisioning_lease_token: b.provisioning_lease_token.clone(),
        membership_epoch: b.membership_epoch,
        upstream_link_generation: b.upstream_link_generation,
        version: b.version,
        archive_source_event_id: b.archive_source_event_id.clone(),
        archive_payload_sha256_hex: b.archive_payload_sha256_hex.clone(),
        archive_lease_token: b.archive_lease_token.clone(),
        archive_acl_cursor: b.archive_acl_cursor.clone(),
        archive_acl_pages_processed: b.archive_acl_pages_processed,
        archive_acl_cleanup_completed: b.archive_acl_cleanup_completed,
        last_source_event_id: b.last_source_event_id.clone(),
        last_error_code: b.last_error_code.clone(),
        archived_by: b.archived_by.clone(),
        updated_by: b.updated_by.clone(),
    }
}
