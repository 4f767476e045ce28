use knowledgebase_repository::error::StoreError;
use knowledgebase_repository::group::archive::is_archive_resumable;
use knowledgebase_repository::group::binding::{lifecycle_is_terminal, GroupBinding};
use knowledgebase_repository::group::fingerprint::{
    idempotency_key_hash, join_with_nul, member_normalized_text, membership_command_fingerprint,
};
use knowledgebase_repository::group::membership::{
    apply_membership_metadata, command_is_stale, copy_members, membership_projection_lease_current,
    membership_replay_reservation,
    plan_membership_completion, plan_membership_failure, plan_settle_after_archive,
    record_projection_error, MembershipFailurePlan, MembershipPlan, MembershipProjectionRecord,
};
use knowledgebase_repository::group::model::{
    role_access_level, validate_archive_command, validate_group_target, validate_group_text,
    validate_membership_command, validate_scope, validate_tenant_id, ArchiveGroupSpaceCommand,
    GroupMember, GroupScope, GroupTarget, MembershipSyncCommand, ReserveGroupSpaceRequest,
};
use knowledgebase_repository::group::provisioning::{
    adopt_conflict_winner, new_binding_for_request, reprovision_failed_binding, reservation_result,
};
use knowledgebase_repository::group::states::{
    group_access_level_from_str, group_acl_state_from_str, group_lifecycle_from_str,
    group_member_role_from_str, group_principal_kind_from_str,
    membership_projection_state_from_str, GroupAccessLevel, GroupAclProjectionState,
    GroupLifecycleState, GroupMemberRole, GroupPrincipalKind, MembershipProjectionState,
};
use knowledgebase_repository::hashing::sha256_hash;
use knowledgebase_repository::store_step::StoreStep;

fn scope() -> GroupScope {
    GroupScope { tenant_id: 1, organization_id: 2 }
}

fn member(actor: &str, role: GroupMemberRole) -> GroupMember {
    GroupMember {
        principal_kind: GroupPrincipalKind::User,
        actor_id: actor.to_string(),
        role,
        access_level: None,
    }
}

fn members() -> Vec<GroupMember> {
    vec![member("bob", GroupMemberRole::Member), member("alice", GroupMemberRole::Owner)]
}

fn request() -> ReserveGroupSpaceRequest {
    ReserveGroupSpaceRequest {
        scope: scope(),
        conversation_id: "conv-1".to_string(),
        group_name: "Team".to_string(),
        source_event_id: "evt-1".to_string(),
        provisioning_idempotency_key: "key-1".to_string(),
        created_by: "alice".to_string(),
        membership_epoch: 1,
        members: members(),
    }
}

fn target() -> GroupTarget {
    GroupTarget {
        knowledgebase_binding_id: 10,
        knowledgebase_binding_uuid: "binding-uuid".to_string(),
        knowledge_space_id: 20,
        knowledge_space_uuid: "space-uuid".to_string(),
    }
}

fn active_binding() -> GroupBinding {
    let mut b = new_binding_for_request(
        &request(),
        10,
        "binding-uuid".to_string(),
        20,
        "space-uuid".to_string(),
        "lease-1".to_string(),
        "hash".to_string(),
    );
    b.lifecycle_state = GroupLifecycleState::Active;
    b.acl_projection_state = GroupAclProjectionState::Active;
    b.provisioning_lease_token = None;
    b
}

fn sync(epoch: u64) -> MembershipSyncCommand {
    MembershipSyncCommand {
        scope: scope(),
        conversation_id: "conv-1".to_string(),
        group_name: "Team 2".to_string(),
        source_event_id: "evt-sync".to_string(),
        target: target(),
        membership_epoch: epoch,
        upstream_link_generation: 0,
        members: members(),
    }
}

fn projection(epoch: u64, fingerprint: &str) -> MembershipProjectionRecord {
    MembershipProjectionRecord {
        id: 77,
        binding_id: 10,
        payload_sha256_hex: fingerprint.to_string(),
        target_membership_epoch: epoch,
        projection_state: MembershipProjectionState::Pending,
        projection_lease_token: Some("sync-lease".to_string()),
    }
}

#[test]
fn membership_fingerprints_hash_the_command_preimage() {
    let preimage = "membership_sync\u{0}conv-1\u{0}Team 2\u{0}10\u{0}binding-uuid\u{0}20\u{0}space-uuid\u{0}2\u{0}0\u{0}user:alice:owner:manage\u{0}user:bob:member:view";
    assert_eq!(membership_command_fingerprint(&sync(2)), sha256_hash(preimage));
    assert_eq!(idempotency_key_hash("key-1"), sha256_hash("key-1"));
    assert_eq!(join_with_nul(&vec!["a".to_string(), "b".to_string(), "c".to_string()]), "a\u{0}b\u{0}c");
    assert_eq!(join_with_nul(&Vec::new()), "");
    assert_eq!(member_normalized_text(&member("carol", GroupMemberRole::Guest)), "user:carol:guest:none");
    let agent = GroupMember {
        principal_kind: GroupPrincipalKind::Agent,
        actor_id: "bot".to_string(),
        role: GroupMemberRole::Admin,
        access_level: None,
    };
    assert_eq!(member_normalized_text(&agent), "agent:bot:admin:edit");
}

#[test]
fn active_bindings_take_membership_metadata() {
    let b = active_binding();
    let mut failed = b.clone();
    failed.last_error_code = Some("E".to_string());
    let applied = apply_membership_metadata(failed, &sync(2)).unwrap();
    assert_eq!(applied.group_name, "Team 2");
    assert_eq!(applied.membership_epoch, 2);
    assert_eq!(applied.last_error_code, None);
    assert_eq!(applied.updated_by, "im-membership-sync");
    assert_eq!(applied.version, b.version + 1);
    let mut pending_acl = b.clone();
    pending_acl.acl_projection_state = GroupAclProjectionState::Pending;
    assert!(matches!(apply_membership_metadata(pending_acl.clone(), &sync(2)), Err(StoreError::Conflict(_))));
    let errored = record_projection_error(b.clone(), &"x".repeat(80)).unwrap();
    assert_eq!(errored.last_error_code.as_deref().map(|c| c.chars().count()), Some(64));
    assert_eq!(errored.updated_by, "group-membership-projection");
    assert!(matches!(record_projection_error(pending_acl, "E"), Err(StoreError::Conflict(_))));
    assert!(membership_projection_lease_current(&b, 1));
    assert!(!membership_projection_lease_current(&b, 0));
    assert!(!membership_projection_lease_current(&b, 2));
}

#[test]
fn membership_completion_needs_the_reserved_lease() {
    let b = active_binding();
    let cmd = sync(2);
    let fp = membership_command_fingerprint(&cmd);
    let p = projection(2, &fp);
    assert_eq!(
        plan_membership_completion(&b, &cmd, &fp, "sync-lease", Some(&p), true, true).unwrap(),
        MembershipPlan::Apply { replace_members: true }
    );
    assert!(matches!(
        plan_membership_completion(&b, &cmd, &fp, "other", Some(&p), true, true),
        Err(StoreError::Conflict(_))
    ));
    assert!(matches!(
        plan_membership_completion(&b, &cmd, &fp, "sync-lease", Some(&p), true, false),
        Err(StoreError::Conflict(_))
    ));
    assert!(matches!(
        plan_membership_completion(&b, &cmd, &fp, "sync-lease", None, true, true),
        Err(StoreError::NotFound(_))
    ));
    assert!(matches!(
        plan_membership_completion(&b, &cmd, &fp, " ", Some(&p), true, true),
        Err(StoreError::InvalidRequest(_))
    ));
    let same_epoch = sync(1);
    let fp1 = membership_command_fingerprint(&same_epoch);
    assert!(matches!(
        plan_membership_completion(&b, &same_epoch, &fp1, "sync-lease", Some(&projection(1, &fp1)), true, true),
        Err(StoreError::Conflict(_))
    ));
    let mut newer = b.clone();
    newer.membership_epoch = 5;
    assert!(command_is_stale(&newer, &cmd));
    assert_eq!(
        plan_membership_completion(&newer, &cmd, &fp, "sync-lease", Some(&p), true, true).unwrap(),
        MembershipPlan::StaleNoop
    );
    let mut archiving = b.clone();
    archiving.lifecycle_state = GroupLifecycleState::Archiving;
    assert_eq!(
        plan_membership_completion(&archiving, &cmd, &fp, "sync-lease", Some(&p), true, true).unwrap(),
        MembershipPlan::TerminalNoop
    );
    let mut moved = cmd.clone();
    moved.target.knowledge_space_id = 21;
    assert!(matches!(
        plan_membership_completion(&b, &moved, &fp, "sync-lease", Some(&p), true, true),
        Err(StoreError::Conflict(_))
    ));
}

#[test]
fn membership_failures_and_settlements() {
    let b = active_binding();
    let cmd = sync(2);
    let p = projection(2, "fp");
    assert_eq!(
        plan_membership_failure(&b, &cmd, "sync-lease", "E_ACL", Some(&p)).unwrap(),
        MembershipFailurePlan::RecordFailure { projection_id: 77 }
    );
    assert!(matches!(plan_membership_failure(&b, &cmd, "other", "E_ACL", Some(&p)), Err(StoreError::Conflict(_))));
    assert!(matches!(plan_membership_failure(&b, &cmd, "sync-lease", " ", Some(&p)), Err(StoreError::InvalidRequest(_))));
    assert!(matches!(plan_membership_failure(&b, &cmd, "sync-lease", "E", None), Err(StoreError::NotFound(_))));
    let mut archived = b.clone();
    archived.lifecycle_state = GroupLifecycleState::Archived;
    assert_eq!(
        plan_membership_failure(&archived, &cmd, "sync-lease", "E", Some(&p)).unwrap(),
        MembershipFailurePlan::Unchanged
    );
    assert_eq!(plan_settle_after_archive(&archived, &cmd, "sync-lease", Some(&p), true).unwrap(), 77);
    assert!(matches!(
        plan_settle_after_archive(&archived, &cmd, "sync-lease", Some(&p), false),
        Err(StoreError::Conflict(_))
    ));
    assert!(matches!(
        plan_settle_after_archive(&b, &cmd, "sync-lease", Some(&p), true),
        Err(StoreError::InvalidLifecycle(_))
    ));
    assert!(lifecycle_is_terminal(GroupLifecycleState::Deleted));
    assert!(!lifecycle_is_terminal(GroupLifecycleState::Failed));
}

#[test]
fn conflict_winners_and_reprovisioning() {
    let mut b = active_binding();
    assert!(adopt_conflict_winner(&b));
    b.lifecycle_state = GroupLifecycleState::Failed;
    assert!(!adopt_conflict_winner(&b));
    b.space_id = None;
    b.last_error_code = Some("E".to_string());
    let mut again = request();
    again.group_name = "Renamed".to_string();
    again.membership_epoch = 3;
    let redone = reprovision_failed_binding(b.clone(), &again, 30, "space-2".to_string(), "lease-2".to_string(), "hash-2".to_string());
    assert_eq!(redone.lifecycle_state, GroupLifecycleState::Provisioning);
    assert_eq!(redone.acl_projection_state, GroupAclProjectionState::Pending);
    assert_eq!(redone.space_id, Some(30));
    assert_eq!(redone.group_name, "Renamed");
    assert_eq!(redone.membership_epoch, 3);
    assert_eq!(redone.last_error_code, None);
    assert_eq!(redone.provisioning_lease_token.as_deref(), Some("lease-2"));
    assert_eq!(redone.version, b.version + 1);
    assert_eq!(redone.id, b.id);
}

#[test]
fn archive_listing_resumes_unleased_archives() {
    let mut b = active_binding();
    assert!(!is_archive_resumable(&b, true));
    b.lifecycle_state = GroupLifecycleState::Archiving;
    b.archive_source_event_id = Some("evt-archive".to_string());
    b.archive_payload_sha256_hex = Some("fp".to_string());
    b.archived_by = Some("alice".to_string());
    assert!(is_archive_resumable(&b, false));
    b.archive_lease_token = Some("lease".to_string());
    assert!(!is_archive_resumable(&b, false));
    assert!(is_archive_resumable(&b, true));
}

#[test]
fn group_inputs_are_validated() {
    assert!(validate_group_text("name", "Team", 4).is_ok());
    assert!(matches!(validate_group_text("name", "Teams", 4), Err(StoreError::InvalidRequest(_))));
    assert!(matches!(validate_group_text("name", "  ", 4), Err(StoreError::InvalidRequest(_))));
    assert!(validate_tenant_id(1).is_ok());
    assert!(validate_tenant_id(0).is_err());
    assert!(validate_tenant_id(u64::MAX).is_err());
    assert!(validate_scope(scope()).is_ok());
    assert!(validate_scope(GroupScope { tenant_id: 1, organization_id: 0 }).is_err());
    assert!(validate_group_target(&target()).is_ok());
    let mut bad_target = target();
    bad_target.knowledge_space_uuid = String::new();
    assert!(matches!(validate_group_target(&bad_target), Err(StoreError::InvalidRequest(_))));
    assert!(validate_membership_command(&sync(2)).is_ok());
    let mut no_owner = sync(2);
    no_owner.members = vec![member("bob", GroupMemberRole::Member)];
    assert!(matches!(validate_membership_command(&no_owner), Err(StoreError::InvalidRequest(_))));
    let archive = ArchiveGroupSpaceCommand {
        scope: scope(),
        conversation_id: "conv-1".to_string(),
        source_event_id: "evt-archive".to_string(),
        target: target(),
        membership_epoch: 1,
        upstream_link_generation: 3,
        archived_by: "alice".to_string(),
    };
    assert!(validate_archive_command(&archive).is_ok());
    let mut anonymous = archive.clone();
    anonymous.archived_by = " ".to_string();
    assert!(matches!(validate_archive_command(&anonymous), Err(StoreError::InvalidRequest(_))));
    assert_eq!(role_access_level(GroupMemberRole::Owner), Some(GroupAccessLevel::Manage));
    assert_eq!(role_access_level(GroupMemberRole::Member), Some(GroupAccessLevel::View));
    assert_eq!(role_access_level(GroupMemberRole::Guest), None);
}

#[test]
fn group_states_read_back_from_their_codes() {
    assert_eq!(group_lifecycle_from_str("archiving").unwrap(), GroupLifecycleState::Archiving);
    assert!(matches!(group_lifecycle_from_str("Archiving"), Err(StoreError::Internal(_))));
    assert_eq!(group_acl_state_from_str("failed").unwrap(), GroupAclProjectionState::Failed);
    assert_eq!(group_principal_kind_from_str("agent").unwrap(), GroupPrincipalKind::Agent);
    assert_eq!(group_member_role_from_str("admin").unwrap(), GroupMemberRole::Admin);
    assert_eq!(group_access_level_from_str("edit").unwrap(), GroupAccessLevel::Edit);
    assert_eq!(membership_projection_state_from_str("pending").unwrap(), MembershipProjectionState::Pending);
    assert!(membership_projection_state_from_str("").is_err());
}

fn actor_ids(members: &[GroupMember]) -> Vec<String> {
    members.iter().map(|m| m.actor_id.clone()).collect()
}

#[test]
fn reservation_result_pairs_provisioning_with_its_lease_token() {
    let provisioning = new_binding_for_request(
        &request(),
        10,
        "binding-uuid".to_string(),
        20,
        "space-uuid".to_string(),
        "lease-1".to_string(),
        "hash".to_string(),
    );
    assert_eq!(provisioning.lifecycle_state, GroupLifecycleState::Provisioning);
    let claimed = reservation_result(provisioning.clone(), true);
    assert!(claimed.requires_provisioning);
    assert_eq!(claimed.provisioning_lease_token.as_deref(), Some("lease-1"));
    assert_eq!(claimed.binding.id, 10);
    let observed = reservation_result(provisioning, false);
    assert!(!observed.requires_provisioning);
    assert_eq!(observed.provisioning_lease_token, None);
    let active = reservation_result(active_binding(), true);
    assert!(!active.requires_provisioning);
    assert_eq!(active.provisioning_lease_token, None);
    assert_eq!(active.binding.lifecycle_state, GroupLifecycleState::Active);
}

#[test]
fn membership_replay_hands_back_the_active_members() {
    let replay = match membership_replay_reservation(active_binding(), &sync(2), members()).unwrap() {
        StoreStep::Reply(reservation) => reservation,
        StoreStep::Write(()) => panic!("a membership replay writes nothing"),
    };
    assert_eq!(replay.binding.id, 10);
    assert_eq!(actor_ids(&replay.previous_members), vec!["bob".to_string(), "alice".to_string()]);
    assert_eq!(actor_ids(&replay.current_members), vec!["bob".to_string(), "alice".to_string()]);
    assert!(!replay.requires_acl_projection);
    assert_eq!(replay.synchronization_lease_token, None);
    let mut moved = sync(2);
    moved.target.knowledge_space_id = 99;
    assert!(matches!(
        membership_replay_reservation(active_binding(), &moved, members()),
        Err(StoreError::Conflict(_))
    ));
}

#[test]
fn copied_members_keep_every_field() {
    let mut source = members();
    source[0].access_level = Some(GroupAccessLevel::Edit);
    let copy = copy_members(&source);
    assert_eq!(copy.len(), 2);
    for (a, b) in copy.iter().zip(source.iter()) {
        assert_eq!(a.principal_kind, b.principal_kind);
        assert_eq!(a.actor_id, b.actor_id);
        assert_eq!(a.role, b.role);
        assert_eq!(a.access_level, b.access_level);
    }
    assert!(copy_members(&Vec::new()).is_empty());
}
