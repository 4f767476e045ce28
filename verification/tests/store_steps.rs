use knowledgebase_repository::catalog::{existing_job_step, IngestionJob};
use knowledgebase_repository::codes::IngestionJobState;
use knowledgebase_repository::error::StoreError;
use knowledgebase_repository::group::archive::{archive_completion_step, start_archive};
use knowledgebase_repository::group::binding::GroupBinding;
use knowledgebase_repository::group::fingerprint::archive_command_fingerprint;
use knowledgebase_repository::group::model::{
    ArchiveGroupSpaceCommand, GroupMember, GroupScope, GroupTarget, ReserveGroupSpaceRequest,
};
use knowledgebase_repository::group::provisioning::{new_binding_for_request, replay_reservation_step};
use knowledgebase_repository::group::states::{
    GroupAclProjectionState, GroupLifecycleState, GroupMemberRole, GroupPrincipalKind,
};
use knowledgebase_repository::store_step::StoreStep;
use knowledgebase_repository::wiki::model::{
    WikiIndexState, WikiPagePublicationState, WikiPersistenceScope, WikiSourceProjection,
    WikiSourceState, WikiVisibility,
};
use knowledgebase_repository::wiki::projection::{
    projection_upsert_step, UpsertWikiSourceProjectionRequest, WikiSourceProjectionUpsertDisposition,
};
use knowledgebase_repository::wiki::rendition::{
    new_rendition, rendition_upsert_step, RenditionSourceIdentity, UpsertWikiRenditionRequest,
};
use knowledgebase_repository::wiki::stream::{
    new_inbox_event, receive_step, ReceiveWikiDriveEventRequest, WikiDriveCheckpoint,
    WikiDriveEventProcessingState, WikiDriveEventReceiveDisposition, WikiDriveStreamState,
};

fn wiki_scope() -> WikiPersistenceScope {
    WikiPersistenceScope { tenant_id: 1, organization_id: 1 }
}

fn digest(c: char) -> String {
    format!("sha256:{}", c.to_string().repeat(64))
}

fn stream_checkpoint(last: u64) -> WikiDriveCheckpoint {
    WikiDriveCheckpoint {
        id: 1,
        uuid: "cp".to_string(),
        scope: wiki_scope(),
        site_publication_id: 7,
        drive_space_uuid: "drive-space".to_string(),
        source_scope_uuid: "scope".to_string(),
        last_sequence_no: last,
        last_event_id: None,
        stream_state: WikiDriveStreamState::Healthy,
        gap_from_sequence_no: None,
        gap_to_sequence_no: None,
        reconciliation_cursor: None,
        lease_token: None,
        fence_token: 0,
        version: 0,
    }
}

fn delivery(seq: u64) -> ReceiveWikiDriveEventRequest {
    ReceiveWikiDriveEventRequest {
        scope: wiki_scope(),
        site_publication_id: 7,
        checkpoint_id: 1,
        source_event_id: format!("evt-{seq}"),
        event_type: "NODE_UPDATED".to_string(),
        sequence_no: seq,
        drive_node_uuid: "node-1".to_string(),
        drive_version_uuid: Some("ver-2".to_string()),
        payload_sha256: digest('c'),
        payload_json: "{}".to_string(),
        source_event_time: "2024-01-01T00:00:00Z".to_string(),
    }
}

#[test]
fn redelivered_events_are_answered_without_a_write() {
    let stored = new_inbox_event(&delivery(6), 40, "inbox".to_string(), WikiDriveEventProcessingState::Received);
    match receive_step(&stream_checkpoint(5), &delivery(6), Some(stored)).unwrap() {
        StoreStep::Reply((event, disposition)) => {
            assert_eq!(event.id, 40);
            assert_eq!(event.uuid, "inbox");
            assert_eq!(disposition, WikiDriveEventReceiveDisposition::Duplicate);
        }
        StoreStep::Write(_) => panic!("a duplicate writes nothing"),
    }
    let stored = new_inbox_event(&delivery(6), 40, "inbox".to_string(), WikiDriveEventProcessingState::Received);
    let mut changed = delivery(6);
    changed.payload_json = "{\"a\":1}".to_string();
    match receive_step(&stream_checkpoint(5), &changed, Some(stored)) {
        Err(StoreError::Conflict(m)) => {
            assert_eq!(m, "Drive event ID evt-6 or sequence 6 was reused with a different payload")
        }
        _ => panic!("a reused id is a conflict"),
    }
    match receive_step(&stream_checkpoint(5), &delivery(8), None).unwrap() {
        StoreStep::Write(plan) => assert_eq!(plan.disposition, WikiDriveEventReceiveDisposition::DeferredGap),
        StoreStep::Reply(_) => panic!("a new event is inserted"),
    }
}

fn projection_request(seq: u64) -> UpsertWikiSourceProjectionRequest {
    UpsertWikiSourceProjectionRequest {
        scope: wiki_scope(),
        site_publication_id: 7,
        space_id: 3,
        actor_id: 9,
        drive_space_uuid: "drive-space".to_string(),
        drive_node_uuid: "node-1".to_string(),
        drive_version_uuid: "ver-1".to_string(),
        source_path: "docs/a.md".to_string(),
        file_kind: "PAGE".to_string(),
        media_type: "text/markdown".to_string(),
        size_bytes: 10,
        content_sha256: digest('a'),
        source_sequence_no: seq,
        source_event_id: format!("evt-{seq}"),
    }
}

fn stored_projection() -> WikiSourceProjection {
    WikiSourceProjection {
        id: 11,
        uuid: "page-uuid".to_string(),
        scope: wiki_scope(),
        site_publication_id: 7,
        space_id: 3,
        drive_space_uuid: "drive-space".to_string(),
        drive_node_uuid: "node-1".to_string(),
        drive_version_uuid: "ver-1".to_string(),
        source_path: "docs/a.md".to_string(),
        canonical_route: Some("/docs/a".to_string()),
        previous_canonical_route: None,
        file_kind: "PAGE".to_string(),
        media_type: "text/markdown".to_string(),
        size_bytes: 10,
        content_sha256: digest('a'),
        source_state: WikiSourceState::Ready,
        publication_state: WikiPagePublicationState::Published,
        visibility: WikiVisibility::Public,
        index_state: WikiIndexState::Ready,
        public_drive_version_uuid: Some("ver-1".to_string()),
        page_public_version: 1,
        source_sequence_no: 5,
        last_source_event_id: Some("evt-5".to_string()),
        processing_attempt_count: 0,
        processing_lease_token: None,
        processing_fence: 3,
        last_error_code: None,
        version: 2,
    }
}

#[test]
fn stale_and_replayed_projections_are_answered_without_a_write() {
    match projection_upsert_step(3, "drive-space", &projection_request(4), Some(stored_projection())).unwrap() {
        StoreStep::Reply((p, d)) => {
            assert_eq!(p.id, 11);
            assert_eq!(p.version, 2);
            assert_eq!(d, WikiSourceProjectionUpsertDisposition::IgnoredStale);
        }
        StoreStep::Write(_) => panic!("a stale event writes nothing"),
    }
    match projection_upsert_step(3, "drive-space", &projection_request(5), Some(stored_projection())).unwrap() {
        StoreStep::Reply((p, d)) => {
            assert_eq!(p.source_sequence_no, 5);
            assert_eq!(d, WikiSourceProjectionUpsertDisposition::UnchangedReplay);
        }
        StoreStep::Write(_) => panic!("a replay writes nothing"),
    }
    let mut conflicting = projection_request(5);
    conflicting.size_bytes = 99;
    match projection_upsert_step(3, "drive-space", &conflicting, Some(stored_projection())) {
        Err(StoreError::Conflict(m)) => assert_eq!(m, "Drive sequence 5 has conflicting source projection payloads"),
        _ => panic!("a conflicting replay is refused"),
    }
    assert!(matches!(
        projection_upsert_step(3, "drive-space", &projection_request(6), Some(stored_projection())).unwrap(),
        StoreStep::Write(Some(_))
    ));
    assert!(matches!(
        projection_upsert_step(3, "drive-space", &projection_request(6), None).unwrap(),
        StoreStep::Write(None)
    ));
}

fn rendition_request() -> UpsertWikiRenditionRequest {
    UpsertWikiRenditionRequest {
        scope: wiki_scope(),
        site_publication_id: 7,
        source_file_projection_id: 11,
        actor_id: 9,
        drive_version_uuid: " ver-1 ".to_string(),
        source_content_sha256: digest('a'),
        processor_id: "pdf".to_string(),
        processor_version: "1".to_string(),
        policy_version: "p1".to_string(),
        rendition_kind: "PREVIEW".to_string(),
        rendition_key_sha256: digest('f'),
    }
}

#[test]
fn existing_renditions_are_answered_without_a_write() {
    let stored = new_rendition(&rendition_request(), 21, "r-uuid".to_string());
    match rendition_upsert_step(&rendition_request(), Some(stored), None).unwrap() {
        StoreStep::Reply(r) => {
            assert_eq!(r.id, 21);
            assert_eq!(r.uuid, "r-uuid");
        }
        StoreStep::Write(()) => panic!("an existing rendition writes nothing"),
    }
    let source = RenditionSourceIdentity {
        site_publication_id: 7,
        drive_version_uuid: "ver-1".to_string(),
        content_sha256: digest('a'),
    };
    assert!(matches!(rendition_upsert_step(&rendition_request(), None, Some(&source)).unwrap(), StoreStep::Write(())));
    let mut other = rendition_request();
    other.processor_version = "2".to_string();
    let stored = new_rendition(&rendition_request(), 21, "r-uuid".to_string());
    assert!(matches!(rendition_upsert_step(&other, Some(stored), None), Err(StoreError::Conflict(_))));
}

fn job() -> IngestionJob {
    IngestionJob {
        id: 5,
        space_id: 2,
        source_type: "drive_object".to_string(),
        idempotency_key: "k".to_string(),
        state: IngestionJobState::Running,
        error_message: None,
    }
}

#[test]
fn repeated_job_creation_is_answered_by_the_existing_job() {
    let fp = "a".repeat(64);
    match existing_job_step(job(), Some(&fp), "drive_object", Some(&fp)).unwrap() {
        StoreStep::Reply(j) => {
            assert_eq!(j.id, 5);
            assert_eq!(j.state, IngestionJobState::Running);
        }
        StoreStep::Write(()) => panic!("a replay writes nothing"),
    }
    assert!(matches!(existing_job_step(job(), None, "drive_object", None).unwrap(), StoreStep::Reply(_)));
    assert!(matches!(existing_job_step(job(), Some(&fp), "upload", None), Err(StoreError::Conflict(_))));
    assert!(matches!(
        existing_job_step(job(), None, "drive_object", Some(&fp)),
        Err(StoreError::Conflict(_))
    ));
}

fn group_scope() -> GroupScope {
    GroupScope { tenant_id: 1, organization_id: 2 }
}

fn owner() -> GroupMember {
    GroupMember {
        principal_kind: GroupPrincipalKind::User,
        actor_id: "alice".to_string(),
        role: GroupMemberRole::Owner,
        access_level: None,
    }
}

fn ensure_request() -> ReserveGroupSpaceRequest {
    ReserveGroupSpaceRequest {
        scope: group_scope(),
        conversation_id: "conv-1".to_string(),
        group_name: "Team".to_string(),
        source_event_id: "evt-1".to_string(),
        provisioning_idempotency_key: "key-1".to_string(),
        created_by: "alice".to_string(),
        membership_epoch: 1,
        members: vec![owner()],
    }
}

fn provisioning_binding() -> GroupBinding {
    new_binding_for_request(
        &ensure_request(),
        10,
        "binding-uuid".to_string(),
        20,
        "space-uuid".to_string(),
        "lease-1".to_string(),
        "hash".to_string(),
    )
}

#[test]
fn replayed_ensures_hand_back_a_settled_binding_without_a_write() {
    let mut active = provisioning_binding();
    active.lifecycle_state = GroupLifecycleState::Active;
    active.acl_projection_state = GroupAclProjectionState::Active;
    active.provisioning_lease_token = None;
    match replay_reservation_step(active, true, "lease-2".to_string(), "bob") {
        StoreStep::Reply(r) => {
            assert_eq!(r.binding.id, 10);
            assert_eq!(r.binding.version, 0);
            assert!(!r.requires_provisioning);
            assert_eq!(r.provisioning_lease_token, None);
        }
        StoreStep::Write(_) => panic!("an active binding is not written"),
    }
    match replay_reservation_step(provisioning_binding(), false, "lease-2".to_string(), "bob") {
        StoreStep::Reply(r) => assert!(!r.requires_provisioning),
        StoreStep::Write(_) => panic!("a held lease is not taken over"),
    }
    match replay_reservation_step(provisioning_binding(), true, "lease-2".to_string(), "bob") {
        StoreStep::Write(b) => {
            assert_eq!(b.provisioning_lease_token.as_deref(), Some("lease-2"));
            assert_eq!(b.updated_by, "bob");
            assert_eq!(b.version, 1);
        }
        StoreStep::Reply(_) => panic!("a free lease is taken over"),
    }
}

fn archive_command() -> ArchiveGroupSpaceCommand {
    ArchiveGroupSpaceCommand {
        scope: group_scope(),
        conversation_id: "conv-1".to_string(),
        source_event_id: "evt-archive".to_string(),
        target: GroupTarget {
            knowledgebase_binding_id: 10,
            knowledgebase_binding_uuid: "binding-uuid".to_string(),
            knowledge_space_id: 20,
            knowledge_space_uuid: "space-uuid".to_string(),
        },
        membership_epoch: 1,
        upstream_link_generation: 0,
        archived_by: "alice".to_string(),
    }
}

#[test]
fn archive_completion_deactivates_members_and_repeats_without_a_write() {
    let cmd = archive_command();
    let fp = archive_command_fingerprint(&cmd);
    let mut active = provisioning_binding();
    active.lifecycle_state = GroupLifecycleState::Active;
    active.acl_projection_state = GroupAclProjectionState::Active;
    active.provisioning_lease_token = None;
    let archiving = start_archive(active, &cmd, fp.clone(), "archive-lease".to_string());
    let write = match archive_completion_step(archiving, &cmd, &fp, "archive-lease", false).unwrap() {
        StoreStep::Write(w) => w,
        StoreStep::Reply(_) => panic!("the first completion writes"),
    };
    assert_eq!(write.binding.lifecycle_state, GroupLifecycleState::Archived);
    assert_eq!(write.binding.archive_lease_token, None);
    assert!(write.deactivate_members);
    assert!(write.stamp_archived_at);
    assert!(write.settle_membership_projections);
    let version = write.binding.version;
    match archive_completion_step(write.binding, &cmd, &fp, "archive-lease", false).unwrap() {
        StoreStep::Reply(b) => {
            assert_eq!(b.lifecycle_state, GroupLifecycleState::Archived);
            assert_eq!(b.version, version);
        }
        StoreStep::Write(_) => panic!("a repeated completion writes nothing"),
    }
}
