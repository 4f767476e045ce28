use knowledgebase_repository::catalog::{parse_drive_import_linkage_ids, resolve_create_or_get, succeed_running_job, update_job_state, IngestionJob};
use knowledgebase_repository::codes::{
    publish_state_from_str, review_state_from_str, space_status_from_code, IngestionJobState,
    RevisionOwner,
};
use knowledgebase_repository::error::StoreError;
use knowledgebase_repository::group::binding::{check_inbox_replay, GroupInboxEventKind, GroupInboxRecord};
use knowledgebase_repository::group::model::{
    group_from_i64, validate_group_text, validate_members, validate_scope, GroupMember, GroupScope,
};
use knowledgebase_repository::group::states::{
    group_lifecycle_from_str, GroupAccessLevel, GroupMemberRole, GroupPrincipalKind,
};
use knowledgebase_repository::outbox::{mark_failed, mark_published, AppendOutboxEventRecord, OutboxDelivery, OutboxStatus};
use knowledgebase_repository::wiki::stream::{validate_receive_request, ReceiveWikiDriveEventRequest};
use knowledgebase_repository::text::{require_safe_drive_id, require_sha256, require_text};
use knowledgebase_repository::wiki::lifecycle::{validate_publication_transition, WikiPublicationLifecycleAction};
use knowledgebase_repository::wiki::model::{
    from_i32, from_i64, publication_status_from_str, require_id, to_i64, visibility_from_str,
    WikiPersistenceScope, WikiPublication, WikiPublicationStatus, WikiVisibility,
};
use knowledgebase_repository::wiki::publication::{ensure_publication_identity, plan_publication_provisioning};

fn message(result: Result<impl std::fmt::Debug, StoreError>) -> String {
    match result {
        Err(StoreError::InvalidRequest(m))
        | Err(StoreError::Conflict(m))
        | Err(StoreError::NotFound(m))
        | Err(StoreError::InvalidLifecycle(m))
        | Err(StoreError::Internal(m)) => m,
        other => panic!("expected an error with a message, got {other:?}"),
    }
}

#[test]
fn column_conversions_use_each_store_message() {
    assert_eq!(to_i64("sequence_no", 7).unwrap(), 7);
    assert_eq!(message(to_i64("sequence_no", u64::MAX)), "sequence_no exceeds signed int64");
    assert!(matches!(to_i64("sequence_no", u64::MAX), Err(StoreError::InvalidRequest(_))));
    assert_eq!(from_i64("version", 3).unwrap(), 3);
    assert_eq!(message(from_i64("version", -1)), "database returned negative version");
    assert_eq!(message(from_i32("attempt_count", -2)), "database returned negative attempt_count");
    assert_eq!(from_i32("attempt_count", 2).unwrap(), 2);
    assert_eq!(message(require_id("space_id", 0)), "space_id must be greater than zero");
    assert_eq!(message(require_id("space_id", u64::MAX)), "space_id exceeds signed int64");
    assert_eq!(require_id("space_id", 9).unwrap(), 9);
    assert_eq!(
        message(knowledgebase_repository::outbox::to_i64("event_id", u64::MAX)),
        "event_id exceeds i64 range: 18446744073709551615"
    );
    assert_eq!(message(group_from_i64("binding_id", -4)), "binding_id must not be negative");
    assert_eq!(group_from_i64("binding_id", 4).unwrap(), 4);
}

#[test]
fn text_checks_name_the_field_and_the_limit() {
    assert_eq!(message(require_text("title", "   ", 10)), "title must not be empty");
    assert_eq!(message(require_text("title", "abcdefghijk", 10)), "title exceeds 10 bytes");
    assert_eq!(message(require_sha256("payload_sha256", "abc")), "payload_sha256 must use the sha256:<lowercase-hex> format");
    assert_eq!(
        message(require_sha256("payload_sha256", "sha256:ABC")),
        "payload_sha256 must contain 64 lowercase hexadecimal characters"
    );
    assert_eq!(message(require_safe_drive_id("bad id", "drive_node_id")), "invalid drive_node_id");
    assert_eq!(
        message(validate_group_text("conversation_id", "", 128)),
        "conversation_id is required and must not exceed 128 characters"
    );
    assert_eq!(
        message(validate_scope(GroupScope { tenant_id: 1, organization_id: 0 })),
        "organization_id is required for a group knowledge space"
    );
}

fn member(actor: &str, role: GroupMemberRole) -> GroupMember {
    GroupMember { principal_kind: GroupPrincipalKind::User, actor_id: actor.to_string(), role, access_level: None }
}

#[test]
fn member_snapshots_report_the_first_problem() {
    let mut service = member("svc", GroupMemberRole::Owner);
    service.principal_kind = GroupPrincipalKind::Agent;
    assert_eq!(message(validate_members(&vec![service])), "group knowledge space members must use user principals");
    assert_eq!(
        message(validate_members(&vec![member(" ", GroupMemberRole::Owner)])),
        "member.actor_id is required and must not exceed 128 characters"
    );
    assert_eq!(
        message(validate_members(&vec![member("a", GroupMemberRole::Owner), member("a", GroupMemberRole::Member)])),
        "member actor ids must be unique"
    );
    let mut admin = member("b", GroupMemberRole::Admin);
    admin.access_level = Some(GroupAccessLevel::Manage);
    assert_eq!(
        message(validate_members(&vec![member("a", GroupMemberRole::Owner), admin])),
        "member access level does not match the IM group role policy"
    );
    assert_eq!(message(validate_members(&vec![member("a", GroupMemberRole::Member)])), "exactly one group owner is required");
}

fn publication(status: WikiPublicationStatus) -> WikiPublication {
    WikiPublication {
        id: 7,
        uuid: "pub-uuid".to_string(),
        scope: WikiPersistenceScope { tenant_id: 1, organization_id: 1 },
        space_id: 3,
        drive_space_uuid: "drive-space".to_string(),
        source_root_node_uuid: Some("root".to_string()),
        source_scope_uuid: Some("scope".to_string()),
        wiki_status: status,
        default_visibility: WikiVisibility::Public,
        unpublish_during_processing: true,
        provider_generation: 1,
        navigation_generation: 1,
        search_generation: 1,
        last_projected_drive_checkpoint: 0,
        version: 4,
    }
}

#[test]
fn publication_refusals_name_the_space_and_status() {
    let p = publication(WikiPublicationStatus::Validating);
    assert_eq!(
        message(ensure_publication_identity(&p, "other")),
        "knowledge space 3 already owns a Wiki publication for Drive Space drive-space"
    );
    assert_eq!(
        message(plan_publication_provisioning(3, "drive-space", None, Some(Some("other")))),
        "knowledge space 3 is not bound to Drive Space drive-space"
    );
    assert_eq!(
        message(validate_publication_transition(&p, WikiPublicationLifecycleAction::Activate)),
        "Wiki publication cannot activate from VALIDATING"
    );
    assert_eq!(
        message(validate_publication_transition(&p, WikiPublicationLifecycleAction::Pause)),
        "Wiki publication cannot pause from VALIDATING"
    );
    let mut unbound = publication(WikiPublicationStatus::Ready);
    unbound.source_scope_uuid = None;
    assert_eq!(
        message(validate_publication_transition(&unbound, WikiPublicationLifecycleAction::Activate)),
        "Wiki publication must be bound to sources/raw before activation"
    );
}

#[test]
fn inbox_rows_without_a_binding_name_their_event() {
    let record = GroupInboxRecord { binding_id: None, payload_sha256_hex: "fp".to_string() };
    assert_eq!(
        message(check_inbox_replay(&record, "fp", GroupInboxEventKind::Ensure)),
        "group knowledge space inbox event has no binding id"
    );
    assert_eq!(message(check_inbox_replay(&record, "fp", GroupInboxEventKind::Membership)), "membership inbox event has no binding");
    assert_eq!(message(check_inbox_replay(&record, "fp", GroupInboxEventKind::Archive)), "archive inbox event has no binding");
    assert_eq!(
        message(check_inbox_replay(&record, "other", GroupInboxEventKind::Ensure)),
        "source_event_id was already applied with a different payload"
    );
}

#[test]
fn unknown_database_values_are_named() {
    assert_eq!(message(visibility_from_str("default_visibility", "SECRET")), "database returned unsupported default_visibility value SECRET");
    assert_eq!(message(publication_status_from_str("GONE")), "database returned unsupported wiki_status value GONE");
    assert_eq!(message(space_status_from_code(-7)), "unknown knowledge space status code: -7");
    assert_eq!(message(space_status_from_code(9)), "unknown knowledge space status code: 9");
    assert_eq!(message(group_lifecycle_from_str("zombie")), "unsupported group knowledge space lifecycle: zombie");
    assert_eq!(message(publish_state_from_str(RevisionOwner::WikiPage, "x")), "unknown wiki publish state: x");
    assert_eq!(message(publish_state_from_str(RevisionOwner::OkfConcept, "x")), "unknown okf concept publish state: x");
    assert_eq!(message(review_state_from_str(RevisionOwner::WikiPage, "x")), "unknown wiki revision review state: x");
    assert_eq!(message(review_state_from_str(RevisionOwner::OkfConcept, "x")), "unknown okf revision review state: x");
}

fn job(state: IngestionJobState) -> IngestionJob {
    IngestionJob {
        id: 42,
        space_id: 2,
        source_type: "drive_object".to_string(),
        idempotency_key: "k".to_string(),
        state,
        error_message: None,
    }
}

#[test]
fn job_errors_name_the_job_and_the_transition() {
    let outbox = AppendOutboxEventRecord {
        aggregate_type: "job".to_string(),
        aggregate_id: 42,
        event_type: "done".to_string(),
        payload_json: "{}".to_string(),
    };
    assert_eq!(
        message(succeed_running_job(job(IngestionJobState::Queued), &outbox)),
        "invalid ingestion job transition: Queued -> Succeeded"
    );
    let mut blank = outbox.clone();
    blank.event_type = " ".to_string();
    assert_eq!(message(succeed_running_job(job(IngestionJobState::Running), &blank)), "event_type is required");
    assert!(matches!(
        update_job_state(job(IngestionJobState::Queued), IngestionJobState::Running, IngestionJobState::Failed, None),
        Err(StoreError::NotFound(ref m)) if m == "42"
    ));
    assert_eq!(
        message(resolve_create_or_get::<u64>(None, None)),
        "no rows returned by a query that expected to return at least one row"
    );
}

#[test]
fn drive_import_linkage_ids_read_back_from_job_metadata() {
    assert_eq!(parse_drive_import_linkage_ids(None).unwrap(), None);
    assert_eq!(parse_drive_import_linkage_ids(Some("{\"other\":1}")).unwrap(), None);
    let full = r#"{"idempotency_fingerprint_sha256_hex":"x","drive_import":{"source_id":3,"document_id":4,"document_version_id":5,"original_object_ref":{"id":1}}}"#;
    assert_eq!(parse_drive_import_linkage_ids(Some(full)).unwrap(), Some((3, 4, 5)));
    let no_ref = r#"{"drive_import":{"source_id":3,"document_id":4,"document_version_id":5}}"#;
    assert_eq!(message(parse_drive_import_linkage_ids(Some(no_ref))), "drive_import metadata missing original_object_ref");
    let no_document = r#"{"drive_import":{"source_id":3,"document_version_id":5,"original_object_ref":{}}}"#;
    assert_eq!(message(parse_drive_import_linkage_ids(Some(no_document))), "drive_import metadata missing document_id");
    let negative = r#"{"drive_import":{"source_id":-3,"document_id":4,"document_version_id":5,"original_object_ref":{}}}"#;
    assert_eq!(message(parse_drive_import_linkage_ids(Some(negative))), "drive_import metadata missing source_id");
    assert!(matches!(parse_drive_import_linkage_ids(Some("{")), Err(StoreError::Internal(_))));
}

#[test]
fn outbox_and_inbox_refusals_name_the_event_and_the_parse_error() {
    let published = OutboxDelivery {
        id: 77,
        status: OutboxStatus::Published,
        retry_count: 0,
        claimed: false,
        last_error: None,
        version: 3,
    };
    assert_eq!(message(mark_published(published.clone())), "outbox event was not claimed: 77");
    assert_eq!(message(mark_failed(published, "boom")), "outbox event was not pending or claimed: 77");
    let request = ReceiveWikiDriveEventRequest {
        scope: WikiPersistenceScope { tenant_id: 1, organization_id: 1 },
        site_publication_id: 7,
        checkpoint_id: 1,
        source_event_id: "evt-1".to_string(),
        event_type: "NODE_UPDATED".to_string(),
        sequence_no: 1,
        drive_node_uuid: "node-1".to_string(),
        drive_version_uuid: None,
        payload_sha256: format!("sha256:{}", "c".repeat(64)),
        payload_json: "{".to_string(),
        source_event_time: "2024-01-01T00:00:00Z".to_string(),
    };
    let expected = format!(
        "payload_json is invalid JSON: {}",
        serde_json::from_str::<serde_json::Value>("{").unwrap_err()
    );
    assert_eq!(message(validate_receive_request(&request)), expected);
}
