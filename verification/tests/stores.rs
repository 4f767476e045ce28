use knowledgebase_repository::catalog::{
    candidate_markdown_object_ref, resolve_create_or_get, same_source_identity, CreateOrGet,
    SourceIdentity,
};
use knowledgebase_repository::outbox::outbox_status_from_code;
use knowledgebase_repository::wiki::lifecycle::{
    page_audit_event, PageCommand, RouteEvent, RouteOperation,
};
use knowledgebase_repository::wiki::model::{unpublishes_during_processing, WikiVisibility};
use knowledgebase_repository::catalog::{
    document_drive_node_update, enrich_drive_binding, job_metadata_fingerprint,
    job_metadata_to_json, reserve_next_counter, should_bind_current_version, succeed_running_job,
    update_job_state, validate_document_identity, validate_existing_job_idempotency,
    validate_projection_batch_size, CurrentVersionInfo, DriveBinding, IngestionJob,
    KnowledgeDocumentIdentityScope,
};
use knowledgebase_repository::clock::{lease_times, retry_time, utc_now};
use knowledgebase_repository::codes::IngestionJobState;
use knowledgebase_repository::error::StoreError;
use knowledgebase_repository::outbox::{
    claim_outbox_event, mark_failed, mark_published, new_outbox_delivery, outbox_batch_limit,
    release_stale_claim, requeue_failed_event, validate_append_record, AppendOutboxEventRecord,
    OutboxStatus,
};

fn record() -> AppendOutboxEventRecord {
    AppendOutboxEventRecord {
        aggregate_type: "ingestion_job".to_string(),
        aggregate_id: 5,
        event_type: "knowledge.ingestion.succeeded".to_string(),
        payload_json: "{}".to_string(),
    }
}

#[test]
fn outbox_events_go_through_a_claim() {
    assert!(validate_append_record(&record()).is_ok());
    let mut blank = record();
    blank.event_type = " ".to_string();
    assert!(matches!(validate_append_record(&blank), Err(StoreError::InvalidRequest(_))));
    let pending = new_outbox_delivery(1);
    assert!(matches!(mark_published(pending.clone()), Err(StoreError::InvalidRequest(_))));
    let claimed = claim_outbox_event(pending).unwrap();
    assert_eq!(claimed.status, OutboxStatus::Claimed);
    assert!(claim_outbox_event(claimed.clone()).is_none());
    let published = mark_published(claimed).unwrap();
    assert_eq!(published.status, OutboxStatus::Published);
    assert!(!published.claimed);
    assert!(matches!(mark_failed(published, "late"), Err(StoreError::InvalidRequest(_))));
}

#[test]
fn failed_outbox_events_requeue_within_the_budget() {
    let failed = mark_failed(new_outbox_delivery(1), &"x".repeat(2000)).unwrap();
    assert_eq!(failed.status, OutboxStatus::Failed);
    assert_eq!(failed.retry_count, 1);
    assert_eq!(failed.last_error.as_deref().map(str::len), Some(1024));
    let again = requeue_failed_event(failed.clone(), 3).unwrap();
    assert_eq!(again.status, OutboxStatus::Pending);
    assert!(requeue_failed_event(failed, 1).is_none());
    let claimed = claim_outbox_event(new_outbox_delivery(2)).unwrap();
    assert!(release_stale_claim(claimed.clone(), false).is_none());
    assert_eq!(release_stale_claim(claimed, true).unwrap().status, OutboxStatus::Pending);
    assert_eq!(OutboxStatus::Claimed.code(), 3);
}

#[test]
fn outbox_batches_are_clamped() {
    assert_eq!(outbox_batch_limit(0), 1);
    assert_eq!(outbox_batch_limit(50), 50);
    assert_eq!(outbox_batch_limit(1000), 200);
}

fn job(state: IngestionJobState) -> IngestionJob {
    IngestionJob {
        id: 1,
        space_id: 2,
        source_type: "drive_object".to_string(),
        idempotency_key: "k".to_string(),
        state,
        error_message: None,
    }
}

#[test]
fn job_metadata_records_the_fingerprint() {
    assert_eq!(job_metadata_to_json(None).unwrap(), None);
    let fp = "ab".repeat(32);
    let json = job_metadata_to_json(Some(&fp)).unwrap().unwrap();
    assert_eq!(json, format!("{{\"idempotency_fingerprint_sha256_hex\":\"{fp}\"}}"));
    assert_eq!(job_metadata_fingerprint(Some(&json)).unwrap(), Some(fp.clone()));
    assert_eq!(job_metadata_fingerprint(None).unwrap(), None);
    assert_eq!(job_metadata_fingerprint(Some("{}")).unwrap(), None);
    assert!(matches!(job_metadata_fingerprint(Some("not json")), Err(StoreError::Internal(_))));
    assert!(matches!(job_metadata_to_json(Some("xyz")), Err(StoreError::Internal(_))));
}

#[test]
fn job_idempotency_and_transitions() {
    assert!(validate_existing_job_idempotency("drive_object", Some("f"), "drive_object", Some("f")).is_ok());
    assert!(validate_existing_job_idempotency("drive_object", None, "drive_object", None).is_ok());
    assert!(matches!(
        validate_existing_job_idempotency("upload", None, "drive_object", None),
        Err(StoreError::Conflict(_))
    ));
    assert!(validate_existing_job_idempotency("drive_object", None, "drive_object", Some("f")).is_err());
    let running = update_job_state(job(IngestionJobState::Queued), IngestionJobState::Queued, IngestionJobState::Running, None).unwrap();
    assert_eq!(running.state, IngestionJobState::Running);
    assert!(matches!(
        update_job_state(job(IngestionJobState::Failed), IngestionJobState::Queued, IngestionJobState::Running, None),
        Err(StoreError::NotFound(_))
    ));
    let done = succeed_running_job(running, &record()).unwrap();
    assert_eq!(done.state, IngestionJobState::Succeeded);
    assert!(matches!(succeed_running_job(done, &record()), Err(StoreError::Conflict(_))));
}

#[test]
fn document_rules() {
    assert!(validate_document_identity(KnowledgeDocumentIdentityScope::SourceOnly, None).is_err());
    assert!(validate_document_identity(KnowledgeDocumentIdentityScope::SourceOnly, Some(1)).is_ok());
    assert!(validate_document_identity(KnowledgeDocumentIdentityScope::Space, None).is_ok());
    let current = CurrentVersionInfo { active: true, version_no: 3 };
    assert!(!should_bind_current_version(Some(current), 3));
    assert!(should_bind_current_version(Some(current), 4));
    assert!(should_bind_current_version(Some(CurrentVersionInfo { active: false, version_no: 9 }), 1));
    assert!(should_bind_current_version(None, 1));
    assert_eq!(document_drive_node_update(&None, Some("node")), Some("node".to_string()));
    assert_eq!(document_drive_node_update(&Some("old".to_string()), Some("node")), None);
}

#[test]
fn drive_bindings_are_enriched_once() {
    let existing = DriveBinding { drive_space_id: Some("s1".to_string()), drive_node_id: None, logical_path: None };
    let requested = DriveBinding {
        drive_space_id: Some("s2".to_string()),
        drive_node_id: Some("n".to_string()),
        logical_path: None,
    };
    let (merged, changed) = enrich_drive_binding(existing, &requested);
    assert!(changed);
    assert_eq!(merged.drive_space_id.as_deref(), Some("s1"));
    assert_eq!(merged.drive_node_id.as_deref(), Some("n"));
    let (_, changed_again) = enrich_drive_binding(merged, &requested);
    assert!(!changed_again);
}

#[test]
fn counters_and_batches() {
    assert_eq!(reserve_next_counter(0).unwrap(), 1);
    assert_eq!(reserve_next_counter(41).unwrap(), 42);
    assert!(matches!(reserve_next_counter(i64::MAX as u64), Err(StoreError::Internal(_))));
    assert!(validate_projection_batch_size(200).is_ok());
    assert!(validate_projection_batch_size(201).is_err());
}

#[test]
fn lease_and_retry_windows_are_bounded() {
    assert!(matches!(lease_times(0), Err(StoreError::InvalidRequest(_))));
    assert!(matches!(lease_times(3601), Err(StoreError::InvalidRequest(_))));
    let (now, until) = lease_times(60).unwrap();
    assert!(until > now);
    assert!(matches!(retry_time(86401), Err(StoreError::InvalidRequest(_))));
    assert!(retry_time(1).is_ok());
}

#[test]
fn create_or_get_prefers_the_inserted_row() {
    assert!(matches!(resolve_create_or_get(Some(1u8), Some(2u8)), Ok(CreateOrGet::Created(1))));
    assert!(matches!(resolve_create_or_get(None, Some(2u8)), Ok(CreateOrGet::Existing(2))));
    assert!(matches!(resolve_create_or_get::<u8>(None, None), Err(StoreError::Internal(_))));
}

#[test]
fn source_identity_treats_missing_texts_as_empty() {
    let a = SourceIdentity {
        space_id: 3,
        source_type: "drive_object".to_string(),
        provider: None,
        drive_bucket: Some(String::new()),
        drive_prefix: Some("docs/".to_string()),
    };
    let mut b = a.clone();
    b.drive_bucket = None;
    assert!(same_source_identity(&a, &b));
    assert!(same_source_identity(&b, &a));
    b.drive_prefix = Some("other/".to_string());
    assert!(!same_source_identity(&a, &b));
    let mut c = a.clone();
    c.space_id = 4;
    assert!(!same_source_identity(&a, &c));
}

#[test]
fn candidates_fall_back_to_the_revision_object() {
    assert_eq!(candidate_markdown_object_ref(0, 42), 42);
    assert_eq!(candidate_markdown_object_ref(7, 42), 7);
}

#[test]
fn outbox_status_codes_read_back() {
    for status in [OutboxStatus::Pending, OutboxStatus::Published, OutboxStatus::Failed, OutboxStatus::Claimed] {
        assert_eq!(outbox_status_from_code(status.code()).unwrap(), status);
    }
    assert!(matches!(outbox_status_from_code(4), Err(StoreError::Internal(_))));
    assert!(outbox_status_from_code(-1).is_err());
}

#[test]
fn wiki_event_names() {
    assert_eq!(RouteEvent::RouteRevoked.as_str(), "knowledgebase.wiki.route.revoked.v1");
    assert_eq!(RouteOperation::VisibilityPrivate.as_str(), "VISIBILITY_PRIVATE");
    assert_eq!(
        page_audit_event(PageCommand::Publish(WikiVisibility::Public)).as_str(),
        "knowledge.wiki.source_file.published"
    );
    assert_eq!(PageCommand::ChangeVisibility(WikiVisibility::Private).as_operation(), "VISIBILITY_CHANGE");
    assert!(unpublishes_during_processing("UNPUBLISH_DURING_PROCESSING"));
    assert!(!unpublishes_during_processing("KEEP_PUBLISHED"));
}

#[test]
fn clock_texts_are_rfc3339_utc() {
    let now = utc_now().unwrap();
    let bytes = now.as_bytes();
    assert!(now.len() >= 20);
    assert_eq!(bytes[4], b'-');
    assert_eq!(bytes[10], b'T');
    assert_eq!(bytes[13], b':');
    assert!(now.ends_with('Z'));
}

fn rfc3339_whole_seconds(t: &str) -> i64 {
    let n = |a: usize, b: usize| t[a..b].parse::<i64>().unwrap();
    let (y, m, d) = (n(0, 4), n(5, 7), n(8, 10));
    let yy = if m <= 2 { y - 1 } else { y };
    let era = yy.div_euclid(400);
    let yoe = yy - era * 400;
    let mp = if m > 2 { m - 3 } else { m + 9 };
    let doy = (153 * mp + 2) / 5 + d - 1;
    let doe = yoe * 365 + yoe / 4 - yoe / 100 + doy;
    let days = era * 146097 + doe - 719468;
    days * 86400 + n(11, 13) * 3600 + n(14, 16) * 60 + n(17, 19)
}

#[test]
fn lease_and_retry_deadlines_lie_the_given_seconds_ahead() {
    let (now, until) = lease_times(90).unwrap();
    assert_eq!(rfc3339_whole_seconds(&until) - rfc3339_whole_seconds(&now), 90);
    assert_eq!(&until[19..], &now[19..]);
    let (now, at) = retry_time(86400).unwrap();
    assert_eq!(rfc3339_whole_seconds(&at) - rfc3339_whole_seconds(&now), 86400);
    assert_eq!(rfc3339_whole_seconds("1970-01-01T00:00:00Z"), 0);
    assert_eq!(rfc3339_whole_seconds("2000-03-01T00:00:01Z"), 951868801);
}

#[test]
fn consecutive_counter_reservations_count_up_by_one() {
    let mut counter: u64 = 7;
    for expected in 8..=12u64 {
        let next = reserve_next_counter(counter).unwrap();
        assert_eq!(next, expected);
        counter = next;
    }
}
