use knowledgebase_repository::error::StoreError;
use knowledgebase_repository::wiki::event_application::{
    mark_eligible, upsert_existing_version, validate_metadata, validate_revocation,
    WikiDriveSourceMetadata,
};
use knowledgebase_repository::wiki::model::{
    WikiIndexState, WikiPagePublicationState, WikiPersistenceScope, WikiPublication,
    WikiPublicationStatus, WikiSourceProjection, WikiSourceState, WikiVisibility,
};
use knowledgebase_repository::wiki::paging::{
    backfill_fetch_limit, next_after, normalize_locale_filter, page_keyset, single_route_match,
    validate_supported_locales, WikiPublicPageKeyset,
};
use knowledgebase_repository::wiki::projection::{
    is_source_claimable, new_source_projection, projection_matches_replay,
    validate_projection_request, UpsertWikiSourceProjectionRequest,
};
use knowledgebase_repository::wiki::publication::{
    ensure_publication_identity, plan_publication_provisioning, PublicationProvisionPlan,
};
use knowledgebase_repository::wiki::rendition::{
    claim_rendition, complete_rendition, is_rendition_claimable, new_rendition,
    plan_rendition_upsert, validate_rendition_request, RenditionOutput, RenditionSourceIdentity,
    RenditionUpsertPlan, UpsertWikiRenditionRequest, WikiRenditionState,
};
use knowledgebase_repository::wiki::stream::{
    advance_projected_checkpoint, advance_projected_checkpoint_if_behind, advance_reconciliation,
    apply_inbox_event, claim_inbox_event, claim_limit, claim_reconciliation,
    ensure_checkpoint_identity, is_event_claimable, new_inbox_event,
    plan_checkpoint_provisioning, reconcile_inbox_event, record_sequence_gap,
    CheckpointProvisionPlan, ReceiveWikiDriveEventRequest, WikiDriveCheckpoint,
    WikiDriveEventProcessingState, WikiDriveInboxEvent, WikiDriveStreamState,
};

fn scope() -> WikiPersistenceScope {
    WikiPersistenceScope { tenant_id: 1, organization_id: 1 }
}

fn sha(c: char) -> String {
    format!("sha256:{}", c.to_string().repeat(64))
}

fn publication() -> WikiPublication {
    WikiPublication {
        id: 7,
        uuid: "pub-uuid".to_string(),
        scope: scope(),
        space_id: 3,
        drive_space_uuid: "drive-space".to_string(),
        source_root_node_uuid: Some("root".to_string()),
        source_scope_uuid: Some("scope".to_string()),
        wiki_status: WikiPublicationStatus::Active,
        default_visibility: WikiVisibility::Public,
        unpublish_during_processing: true,
        provider_generation: 1,
        navigation_generation: 1,
        search_generation: 1,
        last_projected_drive_checkpoint: 0,
        version: 4,
    }
}

fn served_page() -> WikiSourceProjection {
    WikiSourceProjection {
        id: 11,
        uuid: "page-uuid".to_string(),
        scope: scope(),
        site_publication_id: 7,
        space_id: 3,
        drive_space_uuid: "drive-space".to_string(),
        drive_node_uuid: "node-1".to_string(),
        drive_version_uuid: "ver-1".to_string(),
        source_path: "docs/a.md".to_string(),
        canonical_route: Some("/docs/a".to_string()),
        previous_canonical_route: None,
        file_kind: "PAGE".to_string(),
        media_type: "text/markdown".to_string(),
        size_bytes: 10,
        content_sha256: sha('a'),
        source_state: WikiSourceState::Ready,
        publication_state: WikiPagePublicationState::Published,
        visibility: WikiVisibility::Public,
        index_state: WikiIndexState::Ready,
        public_drive_version_uuid: Some("ver-1".to_string()),
        page_public_version: 1,
        source_sequence_no: 5,
        last_source_event_id: Some("evt-5".to_string()),
        processing_attempt_count: 2,
        processing_lease_token: None,
        processing_fence: 3,
        last_error_code: Some("E".to_string()),
        version: 2,
    }
}

fn checkpoint(last: u64) -> WikiDriveCheckpoint {
    WikiDriveCheckpoint {
        id: 1,
        uuid: "cp".to_string(),
        scope: scope(),
        site_publication_id: 7,
        drive_space_uuid: "drive-space".to_string(),
        source_scope_uuid: "scope".to_string(),
        last_sequence_no: last,
        last_event_id: None,
        stream_state: WikiDriveStreamState::Healthy,
        gap_from_sequence_no: None,
        gap_to_sequence_no: None,
        reconciliation_cursor: None,
        lease_token: None,
        fence_token: 0,
        version: 0,
    }
}

fn receive(seq: u64) -> ReceiveWikiDriveEventRequest {
    ReceiveWikiDriveEventRequest {
        scope: scope(),
        site_publication_id: 7,
        checkpoint_id: 1,
        source_event_id: format!("evt-{seq}"),
        event_type: "NODE_UPDATED".to_string(),
        sequence_no: seq,
        drive_node_uuid: "node-1".to_string(),
        drive_version_uuid: Some("ver-2".to_string()),
        payload_sha256: sha('c'),
        payload_json: "{}".to_string(),
        source_event_time: "2024-01-01T00:00:00Z".to_string(),
    }
}

fn event(seq: u64) -> WikiDriveInboxEvent {
    new_inbox_event(&receive(seq), 40, "inbox".to_string(), WikiDriveEventProcessingState::Received)
}

#[test]
fn inbox_events_are_claimed_applied_and_reconciled() {
    let received = event(6);
    assert!(is_event_claimable(&received, &checkpoint(5), true, true));
    assert!(!is_event_claimable(&received, &checkpoint(4), true, true));
    assert!(!is_event_claimable(&received, &checkpoint(5), false, true));
    let claimed = claim_inbox_event(received.clone(), "lease".to_string()).unwrap();
    assert_eq!(claimed.attempt_count, 1);
    assert_eq!(claimed.lease_token.as_deref(), Some("lease"));
    assert_eq!(claimed.version, received.version + 1);
    let applied = apply_inbox_event(claimed);
    assert_eq!(applied.processing_state, WikiDriveEventProcessingState::Applied);
    assert_eq!(applied.lease_token, None);
    assert!(claim_inbox_event(applied.clone(), "again".to_string()).is_none());
    assert_eq!(reconcile_inbox_event(applied.clone(), 9).processing_state, WikiDriveEventProcessingState::Applied);
    let ignored = reconcile_inbox_event(received.clone(), 9);
    assert_eq!(ignored.processing_state, WikiDriveEventProcessingState::Ignored);
    assert_eq!(ignored.version, received.version + 1);
    let later = reconcile_inbox_event(received.clone(), 5);
    assert_eq!(later.processing_state, WikiDriveEventProcessingState::Received);
    assert_eq!(later.version, received.version);
}

#[test]
fn projected_checkpoint_moves_forward_once() {
    let advanced = advance_projected_checkpoint(publication(), 6).unwrap();
    assert_eq!(advanced.last_projected_drive_checkpoint, 6);
    assert_eq!(advanced.version, 5);
    assert!(matches!(advance_projected_checkpoint(advanced.clone(), 6), Err(StoreError::Conflict(_))));
    let kept = advance_projected_checkpoint_if_behind(advanced.clone(), 4);
    assert_eq!(kept.last_projected_drive_checkpoint, 6);
    assert_eq!(kept.version, 5);
    assert_eq!(advance_projected_checkpoint_if_behind(advanced, 8).last_projected_drive_checkpoint, 8);
}

#[test]
fn reconciliation_cursors_need_the_lease() {
    let gapped = record_sequence_gap(checkpoint(5), 9);
    let version = gapped.version;
    let claimed = claim_reconciliation(gapped, version, true, "lease".to_string()).unwrap();
    let moved = advance_reconciliation(claimed.clone(), " lease ", 1, " page-2 ").unwrap();
    assert_eq!(moved.reconciliation_cursor.as_deref(), Some("page-2"));
    assert_eq!(moved.version, claimed.version + 1);
    assert_eq!(moved.stream_state, WikiDriveStreamState::Reconciling);
    assert!(matches!(advance_reconciliation(claimed.clone(), "lease", 2, "page-2"), Err(StoreError::Conflict(_))));
    assert!(matches!(advance_reconciliation(claimed.clone(), "other", 1, "page-2"), Err(StoreError::Conflict(_))));
    assert!(matches!(advance_reconciliation(claimed, "lease", 1, " "), Err(StoreError::InvalidRequest(_))));
}

#[test]
fn checkpoints_are_provisioned_for_the_bound_scope() {
    let existing = checkpoint(5);
    assert!(ensure_checkpoint_identity(&existing, "drive-space", "scope").is_ok());
    assert!(matches!(ensure_checkpoint_identity(&existing, "drive-space", "other"), Err(StoreError::Conflict(_))));
    assert_eq!(
        plan_checkpoint_provisioning("drive-space", "scope", Some(&existing), None).unwrap(),
        CheckpointProvisionPlan::Existing
    );
    assert!(matches!(
        plan_checkpoint_provisioning("other", "scope", Some(&existing), None),
        Err(StoreError::Conflict(_))
    ));
    assert!(matches!(
        plan_checkpoint_provisioning("drive-space", "scope", None, None),
        Err(StoreError::NotFound(_))
    ));
    assert_eq!(
        plan_checkpoint_provisioning("drive-space", "scope", None, Some(("drive-space", Some("scope")))).unwrap(),
        CheckpointProvisionPlan::Create
    );
    assert!(matches!(
        plan_checkpoint_provisioning("drive-space", "scope", None, Some(("drive-space", None))),
        Err(StoreError::Conflict(_))
    ));
    assert!(matches!(claim_limit(0), Err(StoreError::InvalidRequest(_))));
    assert_eq!(claim_limit(100).unwrap(), 100);
    assert!(matches!(claim_limit(101), Err(StoreError::InvalidRequest(_))));
}

fn rendition_request() -> UpsertWikiRenditionRequest {
    UpsertWikiRenditionRequest {
        scope: scope(),
        site_publication_id: 7,
        source_file_projection_id: 11,
        actor_id: 9,
        drive_version_uuid: " ver-1 ".to_string(),
        source_content_sha256: sha('a'),
        processor_id: "pdf".to_string(),
        processor_version: "1".to_string(),
        policy_version: "p1".to_string(),
        rendition_kind: "PREVIEW".to_string(),
        rendition_key_sha256: sha('f'),
    }
}

fn output() -> RenditionOutput {
    RenditionOutput {
        rendition_drive_space_uuid: "drive-space".to_string(),
        rendition_drive_node_uuid: " out-node ".to_string(),
        rendition_drive_version_uuid: "out-ver".to_string(),
        content_sha256: sha('d'),
        media_type: "image/png".to_string(),
        size_bytes: 99,
    }
}

#[test]
fn renditions_are_keyed_by_their_inputs() {
    let request = rendition_request();
    assert!(validate_rendition_request(&request).is_ok());
    let mut bad = rendition_request();
    bad.rendition_key_sha256 = "sha256:xyz".to_string();
    assert!(matches!(validate_rendition_request(&bad), Err(StoreError::InvalidRequest(_))));
    assert!(matches!(plan_rendition_upsert(&request, None, None), Err(StoreError::NotFound(_))));
    let source = RenditionSourceIdentity {
        site_publication_id: 7,
        drive_version_uuid: "ver-1".to_string(),
        content_sha256: sha('a'),
    };
    assert_eq!(plan_rendition_upsert(&request, None, Some(&source)).unwrap(), RenditionUpsertPlan::Create);
    let moved_on = RenditionSourceIdentity { drive_version_uuid: "ver-2".to_string(), ..source };
    assert!(matches!(plan_rendition_upsert(&request, None, Some(&moved_on)), Err(StoreError::Conflict(_))));
    let created = new_rendition(&request, 21, "r-uuid".to_string());
    assert_eq!(created.rendition_state, WikiRenditionState::Pending);
    assert_eq!(created.drive_version_uuid, "ver-1");
    assert_eq!(plan_rendition_upsert(&request, Some(&created), None).unwrap(), RenditionUpsertPlan::Existing);
    let mut other = rendition_request();
    other.processor_version = "2".to_string();
    assert!(matches!(plan_rendition_upsert(&other, Some(&created), None), Err(StoreError::Conflict(_))));
}

#[test]
fn renditions_complete_for_their_lease_holder() {
    let created = new_rendition(&rendition_request(), 21, "r-uuid".to_string());
    assert!(is_rendition_claimable(&created, true, true));
    assert!(!is_rendition_claimable(&created, false, true));
    let claimed = claim_rendition(created, "lease".to_string());
    assert_eq!(claimed.rendition_state, WikiRenditionState::Processing);
    assert_eq!(claimed.processing_fence, 1);
    assert_eq!(claimed.processing_attempt_count, 1);
    assert!(!is_rendition_claimable(&claimed, true, true));
    assert!(matches!(complete_rendition(claimed.clone(), "lease", 0, &output()), Err(StoreError::Conflict(_))));
    let mut bad = output();
    bad.content_sha256 = "nope".to_string();
    assert!(matches!(complete_rendition(claimed.clone(), "lease", 1, &bad), Err(StoreError::InvalidRequest(_))));
    let done = complete_rendition(claimed.clone(), "lease", 1, &output()).unwrap();
    assert_eq!(done.rendition_state, WikiRenditionState::Ready);
    assert_eq!(done.rendition_drive_node_uuid.as_deref(), Some("out-node"));
    assert_eq!(done.media_type.as_deref(), Some("image/png"));
    assert_eq!(done.size_bytes, Some(99));
    assert_eq!(done.processing_lease_token, None);
    assert_eq!(done.version, claimed.version + 1);
}

#[test]
fn publications_are_provisioned_for_the_bound_drive_space() {
    let p = publication();
    assert!(ensure_publication_identity(&p, "drive-space").is_ok());
    assert!(matches!(ensure_publication_identity(&p, "other"), Err(StoreError::Conflict(_))));
    assert_eq!(plan_publication_provisioning(7, "drive-space", Some(&p), None).unwrap(), PublicationProvisionPlan::Existing);
    assert!(matches!(plan_publication_provisioning(7, "drive-space", None, None), Err(StoreError::NotFound(_))));
    assert!(matches!(plan_publication_provisioning(7, "drive-space", None, Some(None)), Err(StoreError::Conflict(_))));
    assert_eq!(
        plan_publication_provisioning(7, "drive-space", None, Some(Some("drive-space"))).unwrap(),
        PublicationProvisionPlan::Create
    );
}

#[test]
fn listings_take_keysets_and_locales() {
    assert_eq!(backfill_fetch_limit(200).unwrap(), 201);
    assert!(matches!(backfill_fetch_limit(201), Err(StoreError::InvalidRequest(_))));
    assert_eq!(next_after(&vec![1u64, 2], true), Some(2));
    assert_eq!(next_after(&vec![1u64, 2], false), None);
    assert_eq!(next_after(&Vec::<u64>::new(), true), None);
    assert_eq!(normalize_locale_filter(None).unwrap(), "");
    assert_eq!(normalize_locale_filter(Some(" en-US ")).unwrap(), "en-US");
    assert!(matches!(normalize_locale_filter(Some("  ")), Err(StoreError::InvalidRequest(_))));
    assert_eq!(page_keyset(None).unwrap(), (String::new(), 0));
    let after = WikiPublicPageKeyset { canonical_route: " /a ".to_string(), page_id: 3 };
    assert_eq!(page_keyset(Some(&after)).unwrap(), ("/a".to_string(), 3));
    let zero = WikiPublicPageKeyset { canonical_route: "/a".to_string(), page_id: 0 };
    assert!(matches!(page_keyset(Some(&zero)), Err(StoreError::InvalidRequest(_))));
    assert!(validate_supported_locales(&vec!["en".to_string()]).is_ok());
    assert!(matches!(validate_supported_locales(&Vec::new()), Err(StoreError::Internal(_))));
    assert!(matches!(validate_supported_locales(&vec![String::new()]), Err(StoreError::Internal(_))));
    assert_eq!(single_route_match(Vec::<u8>::new()).unwrap(), None);
    assert_eq!(single_route_match(vec![4u8]).unwrap(), Some(4));
    assert!(matches!(single_route_match(vec![4u8, 5]), Err(StoreError::Conflict(_))));
}

fn metadata() -> WikiDriveSourceMetadata {
    WikiDriveSourceMetadata {
        drive_version_uuid: " ver-2 ".to_string(),
        source_path: "docs/a.md".to_string(),
        file_kind: "PAGE".to_string(),
        media_type: "text/markdown".to_string(),
        size_bytes: 12,
        content_sha256: sha('b'),
    }
}

#[test]
fn drive_metadata_and_revocations_are_validated() {
    assert!(validate_metadata(&metadata()).is_ok());
    let mut escaping = metadata();
    escaping.source_path = "../a.md".to_string();
    assert!(matches!(validate_metadata(&escaping), Err(StoreError::InvalidRequest(_))));
    assert!(validate_revocation(WikiSourceState::Deleted, WikiPagePublicationState::Archived, "gone").is_ok());
    assert!(matches!(
        validate_revocation(WikiSourceState::Ready, WikiPagePublicationState::Archived, "gone"),
        Err(StoreError::InvalidRequest(_))
    ));
    assert!(matches!(
        validate_revocation(WikiSourceState::Deleted, WikiPagePublicationState::Published, "gone"),
        Err(StoreError::InvalidRequest(_))
    ));
}

#[test]
fn new_file_versions_take_served_pages_offline_by_policy() {
    let e = event(6);
    let (offline, change) = upsert_existing_version(served_page(), &e, &metadata(), true, 3);
    assert_eq!(offline.drive_version_uuid, "ver-2");
    assert_eq!(offline.publication_state, WikiPagePublicationState::Unpublished);
    assert_eq!(offline.public_drive_version_uuid, None);
    assert_eq!(offline.page_public_version, 2);
    assert_eq!(offline.source_state, WikiSourceState::Discovered);
    assert_eq!(offline.processing_fence, 4);
    assert_eq!(offline.source_sequence_no, 6);
    assert_eq!(offline.canonical_route.as_deref(), Some("/docs/a"));
    let change = change.unwrap();
    assert_eq!(change.reason_code, "source_update_processing");
    assert_eq!(change.page_public_version, 2);
    assert_eq!(change.provider_generation, 3);
    let (kept, none) = upsert_existing_version(served_page(), &e, &metadata(), false, 3);
    assert!(none.is_none());
    assert_eq!(kept.publication_state, WikiPagePublicationState::Published);
    assert_eq!(kept.public_drive_version_uuid.as_deref(), Some("ver-1"));
    let eligible = mark_eligible(served_page(), &e);
    assert_eq!(eligible.source_state, WikiSourceState::Discovered);
    assert_eq!(eligible.processing_attempt_count, 0);
    assert_eq!(eligible.last_error_code, None);
    assert_eq!(eligible.publication_state, WikiPagePublicationState::Published);
    assert_eq!(eligible.last_source_event_id.as_deref(), Some("evt-6"));
}

fn upsert_request() -> UpsertWikiSourceProjectionRequest {
    UpsertWikiSourceProjectionRequest {
        scope: scope(),
        site_publication_id: 7,
        space_id: 3,
        actor_id: 9,
        drive_space_uuid: "drive-space".to_string(),
        drive_node_uuid: " node-2 ".to_string(),
        drive_version_uuid: "ver-9".to_string(),
        source_path: "docs/b.md".to_string(),
        file_kind: "PAGE".to_string(),
        media_type: "text/markdown".to_string(),
        size_bytes: 12,
        content_sha256: sha('e'),
        source_sequence_no: 8,
        source_event_id: "evt-8".to_string(),
    }
}

#[test]
fn first_sightings_create_unpublished_projections() {
    let request = upsert_request();
    assert!(validate_projection_request(&request).is_ok());
    let mut bad = upsert_request();
    bad.source_sequence_no = 0;
    assert!(matches!(validate_projection_request(&bad), Err(StoreError::InvalidRequest(_))));
    let created = new_source_projection(&request, 12, "p-uuid".to_string(), WikiVisibility::Unlisted);
    assert_eq!(created.drive_node_uuid, "node-2");
    assert_eq!(created.visibility, WikiVisibility::Unlisted);
    assert_eq!(created.publication_state, WikiPagePublicationState::Unpublished);
    assert_eq!(created.source_state, WikiSourceState::Discovered);
    assert_eq!(created.source_sequence_no, 8);
    assert_eq!(created.version, 0);
    assert!(projection_matches_replay(&created, &request));
    assert!(!projection_matches_replay(&served_page(), &request));
    assert!(is_source_claimable(&created, true, true));
    assert!(!is_source_claimable(&served_page(), true, true));
}
