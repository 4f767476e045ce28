use vstd::prelude::*;
use crate::error::StoreError;
use crate::text::{
    is_normalized_relative_path, is_sha256_reference, opt_eq_str, opt_view, require_sha256,
    require_text, str_eq, trim, trimmed, validate_relative_path,
};
use crate::wiki::lifecycle::required_text_ok;
use crate::wiki::model::{
    index_state_for_kind, initial_index_state, require_id, WikiPagePublicationState,
    WikiSourceProjection, WikiSourceState,
};
use crate::wiki::projection::projection_wf;
use crate::wiki::stream::WikiDriveInboxEvent;

verus! {

/// The file facts a Drive event carries for an upsert.
#[derive(Debug, Clone)]
pub struct WikiDriveSourceMetadata {
    pub drive_version_uuid: String,
    pub source_path: String,
    pub file_kind: String,
    pub media_type: String,
    pub size_bytes: u64,
    pub content_sha256: String,
}

/// What a Drive event does to the projection of its node.
#[derive(Debug, Clone)]
pub enum WikiDriveProjectionMutation {
    NoChange,
    Upsert(WikiDriveSourceMetadata),
    MoveWithin { source_path: String },
    MarkEligible,
    Revoke {
        source_state: WikiSourceState,
        publication_state: WikiPagePublicationState,
        reason_code: String,
    },
}

/// Valid file facts.
pub open spec fn metadata_ok(m: WikiDriveSourceMetadata) -> bool {
    &&& required_text_ok(m.drive_version_uuid@, 64)
    &&& required_text_ok(m.source_path@, 4096)
    &&& is_normalized_relative_path(trimmed(m.source_path@))
    &&& required_text_ok(m.media_type@, 255)
    &&& is_sha256_reference(m.content_sha256@)
}

/// Validates the file facts of an upsert.
pub fn validate_metadata(metadata: &WikiDriveSourceMetadata) -> (result: Result<(), StoreError>)
    ensures
        result is Ok <==> metadata_ok(*metadata),
        result matches Err(e) ==> e.is_invalid_request(),
{
    require_text("drive_version_uuid", metadata.drive_version_uuid.as_str(), 64)?;
    validate_relative_path(metadata.source_path.as_str())?;
    require_text("media_type", metadata.media_type.as_str(), 255)?;
    require_sha256("content_sha256", metadata.content_sha256.as_str())?;
    Ok(())
}

/// A revocation moves the source to a blocked or terminal state and the page
/// out of public service, for a stated reason.
pub open spec fn revocation_ok(s: WikiSourceState, p: WikiPagePublicationState, reason: Seq<char>) -> bool {
    &&& (s == WikiSourceState::Error || s == WikiSourceState::Quarantined || s
        == WikiSourceState::Deleted)
    &&& (p == WikiPagePublicationState::Unpublished || p == WikiPagePublicationState::Archived)
    &&& required_text_ok(reason, 128)
}

/// Validates a revocation.
pub fn validate_revocation(
    source_state: WikiSourceState,
    publication_state: WikiPagePublicationState,
    reason_code: &str,
) -> (result: Result<(), StoreError>)
    ensures
        result is Ok <==> revocation_ok(source_state, publication_state, reason_code@),
        result matches Err(e) ==> e.is_invalid_request(),
        publication_state == WikiPagePublicationState::Published ==> result is Err,
        (source_state == WikiSourceState::Discovered || source_state == WikiSourceState::Queued || source_state
            == WikiSourceState::Processing || source_state == WikiSourceState::Ready) ==> result is Err,
{
    let blocked = match source_state {
        WikiSourceState::Error | WikiSourceState::Quarantined | WikiSourceState::Deleted => true,
        _ => false,
    };
    let offline = match publication_state {
        WikiPagePublicationState::Unpublished | WikiPagePublicationState::Archived => true,
        _ => false,
    };
    if !blocked || !offline {
        return Err(StoreError::InvalidRequest("revocation must use a non-public terminal or blocked state".to_string()));
    }
    require_text("reason_code", reason_code, 128)?;
    Ok(())
}

/// How a Drive event applies to its projection.
#[derive(Debug, Clone, Copy, PartialEq, Eq, Structural)]
pub enum MutationPlan {
    /// The event carries no mutation.
    NoMutation,
    /// The projection already reflects this or a newer event.
    KeepExisting,
    /// Write the new file version (creating the projection if needed).
    Upsert,
    /// Move the projection to a new path.
    Move,
    /// Make the source eligible for processing again.
    MarkEligible,
    /// Revoke the projection.
    Revoke,
    /// A revocation of a file that was never projected: nothing to do.
    RevokeNothing,
}

/// Decides how a Drive event mutates the projection of its node.
pub fn plan_projection_mutation(
    event: &WikiDriveInboxEvent,
    mutation: &WikiDriveProjectionMutation,
    actor_id: u64,
    existing: Option<&WikiSourceProjection>,
) -> (result: Result<MutationPlan, StoreError>)
    ensures
        mutation is NoChange ==> result == Ok::<MutationPlan, StoreError>(MutationPlan::NoMutation),
        !(mutation is NoChange) && !(0 < actor_id <= i64::MAX) ==> (result matches Err(e)
            && e.is_invalid_request()),
        !(mutation is NoChange) && 0 < actor_id <= i64::MAX && existing is Some
            && event.sequence_no < existing.unwrap().source_sequence_no ==> result == Ok::<
            MutationPlan,
            StoreError,
        >(MutationPlan::KeepExisting),
        !(mutation is NoChange) && 0 < actor_id <= i64::MAX && existing is Some
            && event.sequence_no == existing.unwrap().source_sequence_no ==> if opt_view(
            existing.unwrap().last_source_event_id,
        ) == Some(event.source_event_id@) {
            result == Ok::<MutationPlan, StoreError>(MutationPlan::KeepExisting)
        } else {
            result matches Err(e) && e.is_conflict()
        },
        !(mutation is NoChange) && 0 < actor_id <= i64::MAX && (existing is None
            || event.sequence_no > existing.unwrap().source_sequence_no) ==> match mutation {
            WikiDriveProjectionMutation::NoChange => true,
            WikiDriveProjectionMutation::Upsert(m) => if metadata_ok(*m) {
                result == Ok::<MutationPlan, StoreError>(MutationPlan::Upsert)
            } else {
                result matches Err(e) && e.is_invalid_request()
            },
            WikiDriveProjectionMutation::MoveWithin { source_path } => if !(required_text_ok(
                source_path@,
                4096,
            ) && is_normalized_relative_path(trimmed(source_path@))) {
                result matches Err(e) && e.is_invalid_request()
            } else if existing is None {
                result matches Err(e) && e.is_conflict()
            } else {
                result == Ok::<MutationPlan, StoreError>(MutationPlan::Move)
            },
            WikiDriveProjectionMutation::MarkEligible => if existing is None {
                result matches Err(e) && e.is_conflict()
            } else {
                result == Ok::<MutationPlan, StoreError>(MutationPlan::MarkEligible)
            },
            WikiDriveProjectionMutation::Revoke { source_state, publication_state, reason_code } =>
                if !revocation_ok(*source_state, *publication_state, reason_code@) {
                result matches Err(e) && e.is_invalid_request()
            } else if existing is None {
                result == Ok::<MutationPlan, StoreError>(MutationPlan::RevokeNothing)
            } else {
                result == Ok::<MutationPlan, StoreError>(MutationPlan::Revoke)
            },
        },
{
    if let WikiDriveProjectionMutation::NoChange = mutation {
        return Ok(MutationPlan::NoMutation);
    }
    require_id("actor_id", actor_id)?;
    if let Some(p) = existing {
        if event.sequence_no < p.source_sequence_no {
            return Ok(MutationPlan::KeepExisting);
        }
        if event.sequence_no == p.source_sequence_no {
            if opt_eq_str(&p.last_source_event_id, event.source_event_id.as_str()) {
                return Ok(MutationPlan::KeepExisting);
            }
            let mut message = crate::text::message_with_u64("Drive sequence ", event.sequence_no);
            message.append(" conflicts with the existing Wiki projection");
            return Err(StoreError::Conflict(message));
        }
    }
    match mutation {
        WikiDriveProjectionMutation::NoChange => Ok(MutationPlan::NoMutation),
        WikiDriveProjectionMutation::Upsert(metadata) => {
            validate_metadata(metadata)?;
            Ok(MutationPlan::Upsert)
        },
        WikiDriveProjectionMutation::MoveWithin { source_path } => {
            validate_relative_path(source_path.as_str())?;
            if existing.is_none() {
                return Err(StoreError::Conflict("a path-enter event requires source reconciliation before checkpoint advance".to_string()));
            }
            Ok(MutationPlan::Move)
        },
        WikiDriveProjectionMutation::MarkEligible => {
            if existing.is_none() {
                return Err(StoreError::Conflict("an eligibility event requires source reconciliation before checkpoint advance".to_string()));
            }
            Ok(MutationPlan::MarkEligible)
        },
        WikiDriveProjectionMutation::Revoke { source_state, publication_state, reason_code } => {
            validate_revocation(*source_state, *publication_state, reason_code.as_str())?;
            if existing.is_none() {
                return Ok(MutationPlan::RevokeNothing);
            }
            Ok(MutationPlan::Revoke)
        },
    }
}

/// The page is in public service at a pinned Drive version.
pub open spec fn publicly_served(p: WikiSourceProjection) -> bool {
    p.publication_state == WikiPagePublicationState::Published && p.public_drive_version_uuid is Some
}

/// A route that stopped being served, announced on the outbox.
#[derive(Debug, Clone)]
pub struct WikiPublicRouteRevocation {
    pub route: Option<String>,
    pub page_public_version: u64,
    pub provider_generation: u64,
    pub reason_code: String,
}

/// The fields every applied Drive event writes: the event's sequence and id,
/// a fresh processing fence and a new row version; the rest of the identity
/// stays.
pub open spec fn event_stamped(old: WikiSourceProjection, new: WikiSourceProjection, e: WikiDriveInboxEvent) -> bool {
    &&& new.source_sequence_no == e.sequence_no
    &&& opt_view(new.last_source_event_id) == Some(e.source_event_id@)
    &&& new.processing_lease_token is None
    &&& new.processing_fence == old.processing_fence + 1
    &&& new.version == old.version + 1
    &&& new.id == old.id
    &&& new.uuid == old.uuid
    &&& new.scope == old.scope
    &&& new.site_publication_id == old.site_publication_id
    &&& new.drive_node_uuid == old.drive_node_uuid
    &&& new.visibility == old.visibility
}

/// A served page taken out of service: unpublished without a public version,
/// its public version advanced.
pub open spec fn taken_offline(old: WikiSourceProjection, new: WikiSourceProjection) -> bool {
    &&& new.public_drive_version_uuid is None
    &&& new.page_public_version == old.page_public_version + 1
}

/// A page whose public service is untouched.
pub open spec fn service_kept(old: WikiSourceProjection, new: WikiSourceProjection) -> bool {
    &&& new.public_drive_version_uuid == old.public_drive_version_uuid
    &&& new.page_public_version == old.page_public_version
}

fn served(p: &WikiSourceProjection) -> (result: bool)
    ensures
        result == publicly_served(*p),
{
    p.publication_state == WikiPagePublicationState::Published && p.public_drive_version_uuid.is_some()
}

fn route_revocation(
    route: Option<String>,
    projection: &WikiSourceProjection,
    provider_generation: u64,
    reason_code: &str,
) -> (result: WikiPublicRouteRevocation)
    ensures
        result.route == route,
        result.page_public_version == projection.page_public_version,
        result.provider_generation == provider_generation,
        result.reason_code@ == reason_code@,
{
    WikiPublicRouteRevocation {
        route,
        page_public_version: projection.page_public_version,
        provider_generation,
        reason_code: reason_code.to_string(),
    }
}

/// Writes a new file version into an existing projection. Under the
/// unpublish-during-processing policy a served page goes offline and its
/// route revocation is returned.
pub fn upsert_existing_version(
    existing: WikiSourceProjection,
    event: &WikiDriveInboxEvent,
    metadata: &WikiDriveSourceMetadata,
    unpublish_during_processing: bool,
    provider_generation: u64,
) -> (result: (WikiSourceProjection, Option<WikiPublicRouteRevocation>))
    requires
        projection_wf(existing),
    ensures
        result.0 == (WikiSourceProjection {
            drive_version_uuid: result.0.drive_version_uuid,
            source_path: result.0.source_path,
            file_kind: result.0.file_kind,
            media_type: result.0.media_type,
            size_bytes: result.0.size_bytes,
            content_sha256: result.0.content_sha256,
            source_state: result.0.source_state,
            publication_state: result.0.publication_state,
            public_drive_version_uuid: result.0.public_drive_version_uuid,
            page_public_version: result.0.page_public_version,
            index_state: result.0.index_state,
            source_sequence_no: result.0.source_sequence_no,
            last_source_event_id: result.0.last_source_event_id,
            processing_attempt_count: result.0.processing_attempt_count,
            processing_lease_token: result.0.processing_lease_token,
            processing_fence: result.0.processing_fence,
            last_error_code: result.0.last_error_code,
            version: result.0.version,
            ..existing
        }),
        event_stamped(existing, result.0, *event),
        result.0.drive_version_uuid@ == trimmed(metadata.drive_version_uuid@),
        result.0.source_path@ == trimmed(metadata.source_path@),
        result.0.file_kind@ == metadata.file_kind@,
        result.0.media_type@ == trimmed(metadata.media_type@),
        result.0.size_bytes == metadata.size_bytes,
        result.0.content_sha256@ == metadata.content_sha256@,
        result.0.source_state == WikiSourceState::Discovered,
        result.0.index_state == initial_index_state(metadata.file_kind@),
        result.0.processing_attempt_count == 0,
        result.0.last_error_code is None,
        (unpublish_during_processing && publicly_served(existing)) ==> (result.1 matches Some(r)
            && r.route == existing.canonical_route && r.page_public_version
            == result.0.page_public_version && r.provider_generation == provider_generation
            && r.reason_code@ == "source_update_processing"@ && taken_offline(existing, result.0)
            && result.0.publication_state == WikiPagePublicationState::Unpublished),
        !(unpublish_during_processing && publicly_served(existing)) ==> (service_kept(
            existing,
            result.0,
        ) && result.0.publication_state == existing.publication_state && result.1 is None),
{
    let revoke_public = unpublish_during_processing && served(&existing);
    let old_route = existing.canonical_route.clone();
    let index_state = index_state_for_kind(metadata.file_kind.as_str());
    let mut next = existing;
    next.drive_version_uuid = trim(metadata.drive_version_uuid.as_str()).to_string();
    next.source_path = trim(metadata.source_path.as_str()).to_string();
    next.file_kind = metadata.file_kind.clone();
    next.media_type = trim(metadata.media_type.as_str()).to_string();
    next.size_bytes = metadata.size_bytes;
    next.content_sha256 = metadata.content_sha256.clone();
    next.source_state = WikiSourceState::Discovered;
    if revoke_public {
        next.publication_state = WikiPagePublicationState::Unpublished;
        next.public_drive_version_uuid = None;
        next.page_public_version = next.page_public_version + 1;
    }
    next.index_state = index_state;
    next.source_sequence_no = event.sequence_no;
    next.last_source_event_id = Some(event.source_event_id.clone());
    next.processing_attempt_count = 0;
    next.processing_lease_token = None;
    next.processing_fence = next.processing_fence + 1;
    next.last_error_code = None;
    next.version = next.version + 1;
    if revoke_public {
        proof {
            reveal_strlit("source_update_processing");
        }
        let change = route_revocation(old_route, &next, provider_generation, "source_update_processing");
        (next, Some(change))
    } else {
        (next, None)
    }
}

/// Moves a projection to a new path: its route is kept as the previous route
/// and cleared, the source is rediscovered, and a served page goes offline.
pub fn move_projection(
    existing: WikiSourceProjection,
    event: &WikiDriveInboxEvent,
    source_path: &str,
    provider_generation: u64,
) -> (result: (WikiSourceProjection, Option<WikiPublicRouteRevocation>))
    requires
        projection_wf(existing),
    ensures
        result.0 == (WikiSourceProjection {
            source_path: result.0.source_path,
            previous_canonical_route: result.0.previous_canonical_route,
            canonical_route: result.0.canonical_route,
            source_state: result.0.source_state,
            publication_state: result.0.publication_state,
            public_drive_version_uuid: result.0.public_drive_version_uuid,
            page_public_version: result.0.page_public_version,
            source_sequence_no: result.0.source_sequence_no,
            last_source_event_id: result.0.last_source_event_id,
            processing_attempt_count: result.0.processing_attempt_count,
            processing_lease_token: result.0.processing_lease_token,
            processing_fence: result.0.processing_fence,
            version: result.0.version,
            ..existing
        }),
        event_stamped(existing, result.0, *event),
        result.0.source_path@ == source_path@,
        result.0.previous_canonical_route == existing.canonical_route,
        result.0.canonical_route is None,
        result.0.source_state == WikiSourceState::Discovered,
        result.0.processing_attempt_count == 0,
        publicly_served(existing) ==> (result.1 matches Some(r) && r.route
            == existing.canonical_route && r.page_public_version == result.0.page_public_version
            && r.provider_generation == provider_generation && r.reason_code@ == "path_changed"@
            && taken_offline(existing, result.0) && result.0.publication_state
            == WikiPagePublicationState::Unpublished),
        !publicly_served(existing) ==> (service_kept(existing, result.0)
            && result.0.publication_state == existing.publication_state && result.1 is None),
{
    let revoke_public = served(&existing);
    let old_route = existing.canonical_route.clone();
    let mut next = existing;
    next.source_path = source_path.to_string();
    next.previous_canonical_route = old_route.clone();
    next.canonical_route = None;
    next.source_state = WikiSourceState::Discovered;
    if revoke_public {
        next.publication_state = WikiPagePublicationState::Unpublished;
        next.public_drive_version_uuid = None;
        next.page_public_version = next.page_public_version + 1;
    }
    next.source_sequence_no = event.sequence_no;
    next.last_source_event_id = Some(event.source_event_id.clone());
    next.processing_attempt_count = 0;
    next.processing_lease_token = None;
    next.processing_fence = next.processing_fence + 1;
    next.version = next.version + 1;
    if revoke_public {
        let change = route_revocation(old_route, &next, provider_generation, "path_changed");
        (next, Some(change))
    } else {
        (next, None)
    }
}

/// Makes a source eligible for processing again.
pub fn mark_eligible(existing: WikiSourceProjection, event: &WikiDriveInboxEvent) -> (result:
    WikiSourceProjection)
    requires
        projection_wf(existing),
    ensures
        result == (WikiSourceProjection {
            source_state: result.source_state,
            source_sequence_no: result.source_sequence_no,
            last_source_event_id: result.last_source_event_id,
            processing_attempt_count: result.processing_attempt_count,
            processing_lease_token: result.processing_lease_token,
            processing_fence: result.processing_fence,
            last_error_code: result.last_error_code,
            version: result.version,
            ..existing
        }),
        event_stamped(existing, result, *event),
        service_kept(existing, result),
        result.publication_state == existing.publication_state,
        result.source_state == WikiSourceState::Discovered,
        result.processing_attempt_count == 0,
        result.last_error_code is None,
        result.canonical_route == existing.canonical_route,
{
    let mut next = existing;
    next.source_state = WikiSourceState::Discovered;
    next.source_sequence_no = event.sequence_no;
    next.last_source_event_id = Some(event.source_event_id.clone());
    next.processing_attempt_count = 0;
    next.processing_lease_token = None;
    next.processing_fence = next.processing_fence + 1;
    next.last_error_code = None;
    next.version = next.version + 1;
    next
}

/// Revokes a projection: the source is blocked, the page leaves public
/// service, and a served page's route revocation is returned.
pub fn revoke_projection(
    existing: WikiSourceProjection,
    event: &WikiDriveInboxEvent,
    source_state: WikiSourceState,
    publication_state: WikiPagePublicationState,
    reason_code: &str,
    provider_generation: u64,
) -> (result: (WikiSourceProjection, Option<WikiPublicRouteRevocation>))
    requires
        projection_wf(existing),
    ensures
        result.0 == (WikiSourceProjection {
            source_state: result.0.source_state,
            publication_state: result.0.publication_state,
            public_drive_version_uuid: result.0.public_drive_version_uuid,
            page_public_version: result.0.page_public_version,
            source_sequence_no: result.0.source_sequence_no,
            last_source_event_id: result.0.last_source_event_id,
            processing_lease_token: result.0.processing_lease_token,
            processing_fence: result.0.processing_fence,
            last_error_code: result.0.last_error_code,
            version: result.0.version,
            ..existing
        }),
        event_stamped(existing, result.0, *event),
        result.0.source_state == source_state,
        result.0.publication_state == publication_state,
        opt_view(result.0.last_error_code) == Some(reason_code@),
        publicly_served(existing) ==> (result.1 matches Some(r) && r.route
            == existing.canonical_route && r.page_public_version == result.0.page_public_version
            && r.provider_generation == provider_generation && r.reason_code@ == reason_code@
            && taken_offline(existing, result.0)),
        !publicly_served(existing) ==> (service_kept(existing, result.0) && result.1 is None),
{
    let revoke_public = served(&existing);
    let old_route = existing.canonical_route.clone();
    let mut next = existing;
    next.source_state = source_state;
    next.publication_state = publication_state;
    if revoke_public {
        next.public_drive_version_uuid = None;
        next.page_public_version = next.page_public_version + 1;
    }
    next.source_sequence_no = event.sequence_no;
    next.last_source_event_id = Some(event.source_event_id.clone());
    next.processing_lease_token = None;
    next.processing_fence = next.processing_fence + 1;
    next.last_error_code = Some(reason_code.to_string());
    next.version = next.version + 1;
    if revoke_public {
        let change = route_revocation(old_route, &next, provider_generation, reason_code);
        (next, Some(change))
    } else {
        (next, None)
    }
}

} // verus!
