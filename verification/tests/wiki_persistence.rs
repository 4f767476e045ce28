use knowledgebase_repository::error::StoreError;
use knowledgebase_repository::wiki::event_application::{
    move_projection, plan_projection_mutation, revoke_projection, MutationPlan,
    WikiDriveProjectionMutation,
};
use knowledgebase_repository::wiki::lifecycle::{
    apply_page_update, apply_publication_status, decide_page_change_effects,
    page_command_is_unchanged, plan_page_command, plan_publication_status_change,
    validate_page_request, PageCommand, PagePlan, RouteEvent, RouteOperation, StatusPlan,
    WikiLifecycleAuditContext, WikiPublicationLifecycleAction,
};
use knowledgebase_repository::wiki::model::{
    WikiIndexState, WikiPagePublicationState, WikiPersistenceScope, WikiPublication,
    WikiPublicationStatus, WikiSourceProjection, WikiSourceState, WikiVisibility,
};
use knowledgebase_repository::wiki::paging::{public_fetch_limit, redirect_status_from_i32, take_page};
use knowledgebase_repository::wiki::projection::{
    claim_source_projection, complete_source_processing, plan_source_projection_upsert,
    rewrite_source_projection, UpsertWikiSourceProjectionRequest,
    WikiSourceProjectionUpsertDisposition,
};
use knowledgebase_repository::wiki::publication::bind_source_scope;
use knowledgebase_repository::wiki::stream::{
    claim_reconciliation, complete_event_checkpoint, complete_reconciliation,
    event_matches_replay, new_inbox_event, plan_receive_event, record_sequence_gap,
    retry_inbox_event, validate_receive_request, verify_payload_digest,
    ReceiveWikiDriveEventRequest, WikiDriveCheckpoint, WikiDriveEventProcessingState,
    WikiDriveEventReceiveDisposition, WikiDriveStreamState,
};

fn scope() -> WikiPersistenceScope {
    WikiPersistenceScope { tenant_id: 1, organization_id: 1 }
}

fn publication(status: WikiPublicationStatus) -> WikiPublication {
    WikiPublication {
        id: 7,
        uuid: "pub-uuid".to_string(),
        scope: scope(),
        space_id: 3,
        drive_space_uuid: "drive-space".to_string(),
        source_root_node_uuid: Some("root".to_string()),
        source_scope_uuid: Some("scope".to_string()),
        wiki_status: status,
        default_visibility: WikiVisibility::Public,
        unpublish_during_processing: true,
        provider_generation: 1,
        navigation_generation: 1,
        search_generation: 1,
        last_projected_drive_checkpoint: 0,
        version: 4,
    }
}

fn page() -> WikiSourceProjection {
    WikiSourceProjection {
        id: 11,
        uuid: "page-uuid".to_string(),
        scope: scope(),
        site_publication_id: 7,
        space_id: 3,
        drive_space_uuid: "drive-space".to_string(),
        drive_node_uuid: "node-1".to_string(),
        drive_version_uuid: "ver-1".to_string(),
        source_path: "docs/a.md".to_string(),
        canonical_route: Some("/docs/a".to_string()),
        previous_canonical_route: None,
        file_kind: "PAGE".to_string(),
        media_type: "text/markdown".to_string(),
        size_bytes: 10,
        content_sha256: format!("sha256:{}", "a".repeat(64)),
        source_state: WikiSourceState::Ready,
        publication_state: WikiPagePublicationState::Unpublished,
        visibility: WikiVisibility::Private,
        index_state: WikiIndexState::Ready,
        public_drive_version_uuid: None,
        page_public_version: 0,
        source_sequence_no: 5,
        last_source_event_id: Some("evt-5".to_string()),
        processing_attempt_count: 0,
        processing_lease_token: None,
        processing_fence: 0,
        last_error_code: None,
        version: 2,
    }
}

#[test]
fn publishing_pins_the_current_version_and_is_idempotent() {
    let p = publication(WikiPublicationStatus::Active);
    let command = PageCommand::Publish(WikiVisibility::Public);
    let update = match plan_page_command(&p, &page(), command, 4, 2).unwrap() {
        PagePlan::Change(update) => update,
        PagePlan::Unchanged => panic!("expected a change"),
    };
    let published = apply_page_update(page(), update);
    assert_eq!(published.publication_state, WikiPagePublicationState::Published);
    assert_eq!(published.public_drive_version_uuid.as_deref(), Some("ver-1"));
    assert_eq!(published.page_public_version, 1);
    assert_eq!(published.version, 3);
    assert!(page_command_is_unchanged(&published, command));
    assert_eq!(plan_page_command(&p, &published, command, 4, 3).unwrap(), PagePlan::Unchanged);
    let effects = decide_page_change_effects(command, &page(), &published);
    assert!(effects.emits_events);
    assert!(effects.advances_navigation_and_search);
    assert_eq!(effects.route_event, RouteEvent::RouteChanged);
    assert_eq!(effects.operation, RouteOperation::Publish);
}

#[test]
fn unpublishing_revokes_the_route() {
    let p = publication(WikiPublicationStatus::Active);
    let published = apply_page_update(page(), match plan_page_command(&p, &page(), PageCommand::Publish(WikiVisibility::Unlisted), 4, 2).unwrap() {
        PagePlan::Change(u) => u,
        PagePlan::Unchanged => panic!("expected a change"),
    });
    let update = match plan_page_command(&p, &published, PageCommand::Unpublish, 4, 3).unwrap() {
        PagePlan::Change(u) => u,
        PagePlan::Unchanged => panic!("expected a change"),
    };
    let unpublished = apply_page_update(published, update);
    assert_eq!(unpublished.visibility, WikiVisibility::Private);
    assert_eq!(unpublished.public_drive_version_uuid, None);
    assert_eq!(unpublished.page_public_version, 2);
    let effects = decide_page_change_effects(PageCommand::Unpublish, &page(), &unpublished);
    assert!(!effects.emits_events);
}

#[test]
fn page_commands_check_versions_and_eligibility() {
    let p = publication(WikiPublicationStatus::Active);
    assert!(matches!(
        plan_page_command(&p, &page(), PageCommand::Unpublish, 3, 2),
        Err(StoreError::StaleVersion { .. })
    ));
    assert!(matches!(
        plan_page_command(&p, &page(), PageCommand::Unpublish, 4, 1),
        Err(StoreError::StaleVersion { .. })
    ));
    let mut not_ready = page();
    not_ready.source_state = WikiSourceState::Processing;
    assert!(matches!(
        plan_page_command(&p, &not_ready, PageCommand::Publish(WikiVisibility::Public), 4, 2),
        Err(StoreError::Conflict(_))
    ));
    let validating = publication(WikiPublicationStatus::Validating);
    assert!(matches!(
        plan_page_command(&validating, &page(), PageCommand::Publish(WikiVisibility::Public), 4, 2),
        Err(StoreError::Conflict(_))
    ));
}

#[test]
fn publication_status_changes() {
    let ready = publication(WikiPublicationStatus::Ready);
    assert_eq!(
        plan_publication_status_change(&ready, WikiPublicationLifecycleAction::Activate, 4).unwrap(),
        StatusPlan::Change(WikiPublicationStatus::Active)
    );
    let active = apply_publication_status(ready, WikiPublicationStatus::Active);
    assert_eq!(active.provider_generation, 2);
    assert_eq!(active.version, 5);
    assert_eq!(
        plan_publication_status_change(&active, WikiPublicationLifecycleAction::Activate, 5).unwrap(),
        StatusPlan::Unchanged
    );
    let validating = publication(WikiPublicationStatus::Validating);
    assert!(matches!(
        plan_publication_status_change(&validating, WikiPublicationLifecycleAction::Pause, 4),
        Err(StoreError::Conflict(_))
    ));
    let mut unbound = publication(WikiPublicationStatus::Ready);
    unbound.source_scope_uuid = None;
    assert!(plan_publication_status_change(&unbound, WikiPublicationLifecycleAction::Activate, 4).is_err());
}

#[test]
fn page_requests_are_validated() {
    let audit = WikiLifecycleAuditContext { request_id: "req".to_string(), trace_id: None };
    assert!(validate_page_request(scope(), 3, "page-uuid", 9, &audit).is_ok());
    assert!(validate_page_request(scope(), 0, "page-uuid", 9, &audit).is_err());
    let bad_audit = WikiLifecycleAuditContext { request_id: " ".to_string(), trace_id: None };
    assert!(validate_page_request(scope(), 3, "page-uuid", 9, &bad_audit).is_err());
}

#[test]
fn source_scope_binds_once() {
    let mut unbound = publication(WikiPublicationStatus::Ready);
    unbound.source_root_node_uuid = None;
    unbound.source_scope_uuid = None;
    let bound = bind_source_scope(unbound, "root", "scope", 4).unwrap();
    assert_eq!(bound.wiki_status, WikiPublicationStatus::Validating);
    assert_eq!(bound.version, 5);
    let again = bind_source_scope(bound, " root ", "scope", 0).unwrap();
    assert_eq!(again.version, 5);
    assert!(matches!(bind_source_scope(again, "other", "scope", 5), Err(StoreError::Conflict(_))));
}

fn checkpoint(last: u64) -> WikiDriveCheckpoint {
    WikiDriveCheckpoint {
        id: 1,
        uuid: "cp".to_string(),
        scope: scope(),
        site_publication_id: 7,
        drive_space_uuid: "drive-space".to_string(),
        source_scope_uuid: "scope".to_string(),
        last_sequence_no: last,
        last_event_id: None,
        stream_state: WikiDriveStreamState::Healthy,
        gap_from_sequence_no: None,
        gap_to_sequence_no: None,
        reconciliation_cursor: None,
        lease_token: None,
        fence_token: 0,
        version: 0,
    }
}

fn receive(seq: u64) -> ReceiveWikiDriveEventRequest {
    let payload = "{\"kind\":\"upsert\"}".to_string();
    ReceiveWikiDriveEventRequest {
        scope: scope(),
        site_publication_id: 7,
        checkpoint_id: 1,
        source_event_id: format!(" evt-{seq} "),
        event_type: "NODE_UPDATED".to_string(),
        sequence_no: seq,
        drive_node_uuid: "node-1".to_string(),
        drive_version_uuid: Some("ver-2".to_string()),
        payload_sha256: format!("sha256:{}", knowledgebase_repository::hashing::sha256_hash(&payload)),
        payload_json: payload,
        source_event_time: "2024-01-01T00:00:00Z".to_string(),
    }
}

#[test]
fn events_are_classified_by_sequence() {
    let cp = checkpoint(5);
    let classify = |seq| plan_receive_event(&cp, &receive(seq), None).unwrap().disposition;
    assert_eq!(classify(3), WikiDriveEventReceiveDisposition::IgnoredStale);
    assert_eq!(classify(6), WikiDriveEventReceiveDisposition::Ready);
    assert_eq!(classify(9), WikiDriveEventReceiveDisposition::DeferredGap);
}

#[test]
fn received_events_replay_as_duplicates() {
    let request = receive(6);
    let stored = new_inbox_event(&request, 100, "inbox-uuid".to_string(), WikiDriveEventProcessingState::Received);
    assert_eq!(stored.source_event_id, "evt-6");
    assert!(event_matches_replay(&stored, &request));
    let plan = plan_receive_event(&checkpoint(5), &request, Some(&stored)).unwrap();
    assert_eq!(plan.disposition, WikiDriveEventReceiveDisposition::Duplicate);
    let mut changed = receive(6);
    changed.payload_json = "{}".to_string();
    assert!(matches!(plan_receive_event(&checkpoint(5), &changed, Some(&stored)), Err(StoreError::Conflict(_))));
}

#[test]
fn receive_requests_are_validated_and_digested() {
    assert!(validate_receive_request(&receive(6)).is_ok());
    assert!(verify_payload_digest(&receive(6)).is_ok());
    let mut wrong = receive(6);
    wrong.payload_sha256 = format!("sha256:{}", "0".repeat(64));
    assert!(matches!(verify_payload_digest(&wrong), Err(StoreError::InvalidRequest(_))));
    let mut not_json = receive(6);
    not_json.payload_json = "{oops".to_string();
    assert!(validate_receive_request(&not_json).is_err());
    let mut zero = receive(6);
    zero.sequence_no = 0;
    assert!(validate_receive_request(&zero).is_err());
}

#[test]
fn gaps_are_recorded_and_closed() {
    let gapped = record_sequence_gap(checkpoint(5), 9);
    assert_eq!(gapped.stream_state, WikiDriveStreamState::GapDetected);
    assert_eq!(gapped.gap_from_sequence_no, Some(6));
    assert_eq!(gapped.gap_to_sequence_no, Some(8));
    let wider = record_sequence_gap(gapped, 12);
    assert_eq!(wider.gap_to_sequence_no, Some(11));
    let event = new_inbox_event(&receive(6), 1, "u".to_string(), WikiDriveEventProcessingState::Received);
    let advanced = complete_event_checkpoint(wider, &event).unwrap();
    assert_eq!(advanced.last_sequence_no, 6);
    assert_eq!(advanced.gap_from_sequence_no, Some(7));
    assert_eq!(advanced.stream_state, WikiDriveStreamState::GapDetected);
    let late = new_inbox_event(&receive(9), 2, "v".to_string(), WikiDriveEventProcessingState::Received);
    assert!(matches!(complete_event_checkpoint(advanced, &late), Err(StoreError::Conflict(_))));
    let healthy = complete_event_checkpoint(checkpoint(5), &event).unwrap();
    assert_eq!(healthy.stream_state, WikiDriveStreamState::Healthy);
}

#[test]
fn reconciliation_fences_and_heals() {
    let gapped = record_sequence_gap(checkpoint(5), 9);
    assert!(claim_reconciliation(checkpoint(5), 0, true, "t".to_string()).is_err());
    let claimed = claim_reconciliation(gapped, 1, true, "lease".to_string()).unwrap();
    assert_eq!(claimed.stream_state, WikiDriveStreamState::Reconciling);
    assert_eq!(claimed.fence_token, 1);
    assert!(matches!(
        complete_reconciliation(checkpoint_copy(&claimed), "lease", 0, 9, None),
        Err(StoreError::Conflict(_))
    ));
    assert!(matches!(
        complete_reconciliation(checkpoint_copy(&claimed), "lease", 1, 4, None),
        Err(StoreError::Conflict(_))
    ));
    let healed = complete_reconciliation(claimed, "lease", 1, 9, Some("evt-9".to_string())).unwrap();
    assert_eq!(healed.stream_state, WikiDriveStreamState::Healthy);
    assert_eq!(healed.last_sequence_no, 9);
    assert_eq!(healed.gap_from_sequence_no, None);
    assert_eq!(healed.lease_token, None);
}

fn checkpoint_copy(c: &WikiDriveCheckpoint) -> WikiDriveCheckpoint {
    c.clone()
}

#[test]
fn retries_dead_letter_after_the_limit() {
    let mut event = new_inbox_event(&receive(6), 1, "u".to_string(), WikiDriveEventProcessingState::Received);
    event.lease_token = Some("lease".to_string());
    event.attempt_count = 3;
    let retried = retry_inbox_event(event.clone(), "lease", "E", "boom", 5, 60).unwrap();
    assert_eq!(retried.processing_state, WikiDriveEventProcessingState::Retry);
    let dead = retry_inbox_event(event.clone(), "lease", "E", "boom", 3, 60).unwrap();
    assert_eq!(dead.processing_state, WikiDriveEventProcessingState::DeadLetter);
    assert!(matches!(retry_inbox_event(event.clone(), "other", "E", "boom", 3, 60), Err(StoreError::Conflict(_))));
    assert!(matches!(retry_inbox_event(event, "lease", "E", "boom", 0, 60), Err(StoreError::InvalidRequest(_))));
}

fn upsert_request(seq: u64) -> UpsertWikiSourceProjectionRequest {
    UpsertWikiSourceProjectionRequest {
        scope: scope(),
        site_publication_id: 7,
        space_id: 3,
        actor_id: 9,
        drive_space_uuid: "drive-space".to_string(),
        drive_node_uuid: "node-1".to_string(),
        drive_version_uuid: " ver-2 ".to_string(),
        source_path: "docs/a.md".to_string(),
        file_kind: "PAGE".to_string(),
        media_type: "text/markdown".to_string(),
        size_bytes: 12,
        content_sha256: format!("sha256:{}", "b".repeat(64)),
        source_sequence_no: seq,
        source_event_id: format!("evt-{seq}"),
    }
}

#[test]
fn source_projection_upserts_follow_the_stream() {
    let existing = page();
    assert_eq!(
        plan_source_projection_upsert(3, "drive-space", &upsert_request(4), Some(&existing)).unwrap(),
        WikiSourceProjectionUpsertDisposition::IgnoredStale
    );
    assert!(matches!(
        plan_source_projection_upsert(3, "drive-space", &upsert_request(5), Some(&existing)),
        Err(StoreError::Conflict(_))
    ));
    assert_eq!(
        plan_source_projection_upsert(3, "drive-space", &upsert_request(6), Some(&existing)).unwrap(),
        WikiSourceProjectionUpsertDisposition::Updated
    );
    assert!(matches!(
        plan_source_projection_upsert(4, "drive-space", &upsert_request(6), None),
        Err(StoreError::Conflict(_))
    ));
    let mut served = page();
    served.publication_state = WikiPagePublicationState::Published;
    served.public_drive_version_uuid = Some("ver-1".to_string());
    let rewritten = rewrite_source_projection(served, &upsert_request(6), true);
    assert_eq!(rewritten.drive_version_uuid, "ver-2");
    assert_eq!(rewritten.publication_state, WikiPagePublicationState::Unpublished);
    assert_eq!(rewritten.source_state, WikiSourceState::Discovered);
    assert_eq!(rewritten.index_state, WikiIndexState::Pending);
    assert_eq!(rewritten.processing_fence, 1);
    assert_eq!(
        plan_source_projection_upsert(3, "drive-space", &upsert_request(6), Some(&rewritten)).unwrap(),
        WikiSourceProjectionUpsertDisposition::UnchangedReplay
    );
}

#[test]
fn processing_leases_are_fenced() {
    let claimed = claim_source_projection(page(), "lease".to_string());
    assert_eq!(claimed.source_state, WikiSourceState::Processing);
    assert_eq!(claimed.processing_fence, 1);
    assert!(matches!(
        complete_source_processing(claimed.clone(), "lease", 0, "/docs/a", WikiIndexState::Ready),
        Err(StoreError::Conflict(_))
    ));
    let done = complete_source_processing(claimed, "lease", 1, " /docs/a ", WikiIndexState::Ready).unwrap();
    assert_eq!(done.source_state, WikiSourceState::Ready);
    assert_eq!(done.canonical_route.as_deref(), Some("/docs/a"));
}

#[test]
fn drive_mutations_take_served_pages_offline() {
    let event = new_inbox_event(&receive(6), 1, "u".to_string(), WikiDriveEventProcessingState::Received);
    let mut served = page();
    served.publication_state = WikiPagePublicationState::Published;
    served.public_drive_version_uuid = Some("ver-1".to_string());
    let mutation = WikiDriveProjectionMutation::MoveWithin { source_path: "docs/b.md".to_string() };
    assert_eq!(plan_projection_mutation(&event, &mutation, 9, Some(&served)).unwrap(), MutationPlan::Move);
    assert!(matches!(plan_projection_mutation(&event, &mutation, 9, None), Err(StoreError::Conflict(_))));
    let (moved, change) = move_projection(served.clone(), &event, "docs/b.md", 4);
    assert_eq!(moved.previous_canonical_route.as_deref(), Some("/docs/a"));
    assert_eq!(moved.canonical_route, None);
    assert_eq!(moved.public_drive_version_uuid, None);
    assert_eq!(change.unwrap().route.as_deref(), Some("/docs/a"));
    let (revoked, change) = revoke_projection(served, &event, WikiSourceState::Deleted, WikiPagePublicationState::Archived, "deleted", 4);
    assert_eq!(revoked.source_state, WikiSourceState::Deleted);
    assert_eq!(change.unwrap().reason_code, "deleted");
    let stale = new_inbox_event(&receive(4), 1, "u".to_string(), WikiDriveEventProcessingState::Received);
    assert_eq!(plan_projection_mutation(&stale, &mutation, 9, Some(&page())).unwrap(), MutationPlan::KeepExisting);
    assert_eq!(
        plan_projection_mutation(&event, &WikiDriveProjectionMutation::NoChange, 0, None).unwrap(),
        MutationPlan::NoMutation
    );
}

#[test]
fn listings_page_and_bound() {
    assert_eq!(public_fetch_limit(20).unwrap(), 21);
    assert!(public_fetch_limit(0).is_err());
    let (page, more) = take_page(vec![1, 2, 3], 2);
    assert_eq!(page, vec![1, 2]);
    assert!(more);
    let (page, more) = take_page(vec![1], 2);
    assert_eq!(page, vec![1]);
    assert!(!more);
    assert_eq!(redirect_status_from_i32(Some(301)).unwrap(), Some(301));
    assert!(redirect_status_from_i32(Some(-1)).is_err());
}
