use vstd::prelude::*;
use crate::error::StoreError;
use crate::text::{is_sha256_reference, opt_eq_str, opt_view, require_sha256, require_text, str_eq, trim, trimmed};
use crate::wiki::lifecycle::required_text_ok;
use crate::wiki::model::{
    index_state_for_kind, initial_index_state, require_id, validate_scope, WikiIndexState,
    WikiPagePublicationState, WikiPersistenceScope, WikiSourceProjection, WikiSourceState,
    WikiVisibility,
};

use crate::store_step::StoreStep;

verus! {

/// A Drive file observed at some sequence of its stream, to be projected.
#[derive(Debug, Clone)]
pub struct UpsertWikiSourceProjectionRequest {
    pub scope: WikiPersistenceScope,
    pub site_publication_id: u64,
    pub space_id: u64,
    pub actor_id: u64,
    pub drive_space_uuid: String,
    pub drive_node_uuid: String,
    pub drive_version_uuid: String,
    pub source_path: String,
    pub file_kind: String,
    pub media_type: String,
    pub size_bytes: u64,
    pub content_sha256: String,
    pub source_sequence_no: u64,
    pub source_event_id: String,
}

/// A well-formed projection request.
pub open spec fn projection_request_ok(r: UpsertWikiSourceProjectionRequest) -> bool {
    &&& r.scope.tenant_id != 0
    &&& 0 < r.site_publication_id <= i64::MAX
    &&& 0 < r.space_id <= i64::MAX
    &&& 0 < r.actor_id <= i64::MAX
    &&& required_text_ok(r.drive_space_uuid@, 64)
    &&& required_text_ok(r.drive_node_uuid@, 64)
    &&& required_text_ok(r.drive_version_uuid@, 64)
    &&& required_text_ok(r.source_path@, 4096)
    &&& required_text_ok(r.media_type@, 255)
    &&& is_sha256_reference(r.content_sha256@)
    &&& r.source_sequence_no != 0
    &&& required_text_ok(r.source_event_id@, 128)
}

/// Validates a projection request.
pub fn validate_projection_request(request: &UpsertWikiSourceProjectionRequest) -> (result: Result<
    (),
    StoreError,
>)
    ensures
        result is Ok <==> projection_request_ok(*request),
        result matches Err(e) ==> e.is_invalid_request(),
        (request.scope.tenant_id == 0 || request.site_publication_id == 0 || request.space_id == 0
            || request.actor_id == 0 || request.source_sequence_no == 0) ==> result is Err,
        result is Ok ==> is_sha256_reference(request.content_sha256@),
{
    validate_scope(request.scope)?;
    require_id("site_publication_id", request.site_publication_id)?;
    require_id("space_id", request.space_id)?;
    require_id("actor_id", request.actor_id)?;
    require_text("drive_space_uuid", request.drive_space_uuid.as_str(), 64)?;
    require_text("drive_node_uuid", request.drive_node_uuid.as_str(), 64)?;
    require_text("drive_version_uuid", request.drive_version_uuid.as_str(), 64)?;
    require_text("source_path", request.source_path.as_str(), 4096)?;
    require_text("media_type", request.media_type.as_str(), 255)?;
    require_sha256("content_sha256", request.content_sha256.as_str())?;
    if request.source_sequence_no == 0 {
        return Err(StoreError::InvalidRequest("source_sequence_no must be greater than zero".to_string()));
    }
    require_text("source_event_id", request.source_event_id.as_str(), 128)?;
    Ok(())
}

/// The projection already holds exactly what the request carries.
pub open spec fn projection_replay_matches(p: WikiSourceProjection, r: UpsertWikiSourceProjectionRequest) -> bool {
    &&& p.drive_version_uuid@ == trimmed(r.drive_version_uuid@)
    &&& p.source_path@ == trimmed(r.source_path@)
    &&& p.file_kind@ == r.file_kind@
    &&& p.media_type@ == trimmed(r.media_type@)
    &&& p.size_bytes == r.size_bytes
    &&& p.content_sha256@ == r.content_sha256@
    &&& opt_view(p.last_source_event_id) == Some(trimmed(r.source_event_id@))
}

/// Whether a projection already holds what a request carries.
pub fn projection_matches_replay(projection: &WikiSourceProjection, request: &UpsertWikiSourceProjectionRequest) -> (result:
    bool)
    ensures
        result == projection_replay_matches(*projection, *request),
        result ==> (projection.drive_version_uuid@ == trimmed(request.drive_version_uuid@)
            && projection.source_path@ == trimmed(request.source_path@) && projection.file_kind@
            == request.file_kind@ && projection.media_type@ == trimmed(request.media_type@)
            && projection.size_bytes == request.size_bytes && projection.content_sha256@
            == request.content_sha256@),
        result ==> opt_view(projection.last_source_event_id) == Some(trimmed(request.source_event_id@)),
{
    str_eq(projection.drive_version_uuid.as_str(), trim(request.drive_version_uuid.as_str()))
        && str_eq(projection.source_path.as_str(), trim(request.source_path.as_str())) && str_eq(
        projection.file_kind.as_str(),
        request.file_kind.as_str(),
    ) && str_eq(projection.media_type.as_str(), trim(request.media_type.as_str()))
        && projection.size_bytes == request.size_bytes && str_eq(
        projection.content_sha256.as_str(),
        request.content_sha256.as_str(),
    ) && opt_eq_str(&projection.last_source_event_id, trim(request.source_event_id.as_str()))
}

/// How an upsert of a source projection proceeds.
#[derive(Debug, Clone, Copy, PartialEq, Eq, Structural)]
pub enum WikiSourceProjectionUpsertDisposition {
    /// A newer sequence already projected the file: nothing changes.
    IgnoredStale,
    /// The same sequence with the same payload: nothing changes.
    UnchangedReplay,
    /// A newer sequence: rewrite the projection.
    Updated,
    /// The file is new to the publication.
    Created,
}

/// Decides an upsert from the publication's identity (its space and Drive
/// space) and the projection of the same Drive node, if any.
pub fn plan_source_projection_upsert(
    publication_space_id: u64,
    publication_drive_space_uuid: &str,
    request: &UpsertWikiSourceProjectionRequest,
    existing: Option<&WikiSourceProjection>,
) -> (result: Result<WikiSourceProjectionUpsertDisposition, StoreError>)
    ensures
        (publication_space_id != request.space_id || publication_drive_space_uuid@ != trimmed(
            request.drive_space_uuid@,
        )) ==> (result matches Err(e) && e.is_conflict()),
        (publication_space_id == request.space_id && publication_drive_space_uuid@ == trimmed(
            request.drive_space_uuid@,
        )) ==> match existing {
            Some(p) => if request.source_sequence_no < p.source_sequence_no {
                result == Ok::<WikiSourceProjectionUpsertDisposition, StoreError>(
                    WikiSourceProjectionUpsertDisposition::IgnoredStale,
                )
            } else if request.source_sequence_no == p.source_sequence_no {
                if projection_replay_matches(*p, *request) {
                    result == Ok::<WikiSourceProjectionUpsertDisposition, StoreError>(
                        WikiSourceProjectionUpsertDisposition::UnchangedReplay,
                    )
                } else {
                    result matches Err(e) && e.is_conflict()
                }
            } else if request.size_bytes > i64::MAX || request.source_sequence_no > i64::MAX {
                result matches Err(e) && e.is_invalid_request()
            } else {
                result == Ok::<WikiSourceProjectionUpsertDisposition, StoreError>(
                    WikiSourceProjectionUpsertDisposition::Updated,
                )
            },
            None => if request.size_bytes > i64::MAX || request.source_sequence_no > i64::MAX {
                result matches Err(e) && e.is_invalid_request()
            } else {
                result == Ok::<WikiSourceProjectionUpsertDisposition, StoreError>(
                    WikiSourceProjectionUpsertDisposition::Created,
                )
            },
        },
{
    if publication_space_id != request.space_id || !str_eq(
        publication_drive_space_uuid,
        trim(request.drive_space_uuid.as_str()),
    ) {
        return Err(StoreError::Conflict("source projection identity does not match its Wiki publication".to_string()));
    }
    if let Some(p) = existing {
        if request.source_sequence_no < p.source_sequence_no {
            return Ok(WikiSourceProjectionUpsertDisposition::IgnoredStale);
        }
        if request.source_sequence_no == p.source_sequence_no {
            if projection_matches_replay(p, request) {
                return Ok(WikiSourceProjectionUpsertDisposition::UnchangedReplay);
            }
            let mut message = crate::text::message_with_u64("Drive sequence ", request.source_sequence_no);
            message.append(" has conflicting source projection payloads");
            return Err(StoreError::Conflict(message));
        }
    }
    crate::wiki::model::to_i64("size_bytes", request.size_bytes)?;
    crate::wiki::model::to_i64("source_sequence_no", request.source_sequence_no)?;
    match existing {
        Some(_) => Ok(WikiSourceProjectionUpsertDisposition::Updated),
        None => Ok(WikiSourceProjectionUpsertDisposition::Created),
    }
}

/// What an upsert does with the projection of the same Drive node: a stale
/// event or a replay of the projected sequence is answered with the stored
/// projection and writes nothing; a newer sequence rewrites the projection it
/// carries, and a new file is inserted (`Write(None)`).
pub fn projection_upsert_step(
    publication_space_id: u64,
    publication_drive_space_uuid: &str,
    request: &UpsertWikiSourceProjectionRequest,
    existing: Option<WikiSourceProjection>,
) -> (result: Result<StoreStep<(WikiSourceProjection, WikiSourceProjectionUpsertDisposition), Option<WikiSourceProjection>>, StoreError>)
    ensures
        (publication_space_id != request.space_id || publication_drive_space_uuid@ != trimmed(
            request.drive_space_uuid@,
        )) ==> (result matches Err(e) && e.is_conflict()),
        (publication_space_id == request.space_id && publication_drive_space_uuid@ == trimmed(
            request.drive_space_uuid@,
        )) ==> match existing {
            Some(p) => if request.source_sequence_no < p.source_sequence_no {
                result == Ok::<StoreStep<(WikiSourceProjection, WikiSourceProjectionUpsertDisposition), Option<WikiSourceProjection>>, StoreError>(
                    StoreStep::Reply((p, WikiSourceProjectionUpsertDisposition::IgnoredStale)),
                )
            } else if request.source_sequence_no == p.source_sequence_no {
                if projection_replay_matches(p, *request) {
                    result == Ok::<StoreStep<(WikiSourceProjection, WikiSourceProjectionUpsertDisposition), Option<WikiSourceProjection>>, StoreError>(
                        StoreStep::Reply((p, WikiSourceProjectionUpsertDisposition::UnchangedReplay)),
                    )
                } else {
                    result matches Err(e) && e.is_conflict()
                }
            } else if request.size_bytes > i64::MAX || request.source_sequence_no > i64::MAX {
                result matches Err(e) && e.is_invalid_request()
            } else {
                result == Ok::<StoreStep<(WikiSourceProjection, WikiSourceProjectionUpsertDisposition), Option<WikiSourceProjection>>, StoreError>(StoreStep::Write(Some(p)))
            },
            None => if request.size_bytes > i64::MAX || request.source_sequence_no > i64::MAX {
                result matches Err(e) && e.is_invalid_request()
            } else {
                result == Ok::<StoreStep<(WikiSourceProjection, WikiSourceProjectionUpsertDisposition), Option<WikiSourceProjection>>, StoreError>(StoreStep::Write(None))
            },
        },
{
    let disposition = plan_source_projection_upsert(
        publication_space_id,
        publication_drive_space_uuid,
        request,
        existing.as_ref(),
    )?;
    match disposition {
        WikiSourceProjectionUpsertDisposition::IgnoredStale
        | WikiSourceProjectionUpsertDisposition::UnchangedReplay => match existing {
            Some(p) => Ok(StoreStep::Reply((p, disposition))),
            None => vstd::pervasive::unreached(),
        },
        _ => Ok(StoreStep::Write(existing)),
    }
}

/// The publication state a changed source leaves a page in: a page served
/// while its publication unpublishes during processing goes offline.
pub open spec fn publication_state_after_change(state: WikiPagePublicationState, unpublish_during_processing: bool) -> WikiPagePublicationState {
    if unpublish_during_processing && state == WikiPagePublicationState::Published {
        WikiPagePublicationState::Unpublished
    } else {
        state
    }
}

/// Same file, same texts: the trimmed text fields of a projection equal those
/// of the request.
pub open spec fn projection_texts_from(p: WikiSourceProjection, r: UpsertWikiSourceProjectionRequest) -> bool {
    &&& p.drive_version_uuid@ == trimmed(r.drive_version_uuid@)
    &&& p.source_path@ == trimmed(r.source_path@)
    &&& p.file_kind@ == r.file_kind@
    &&& p.media_type@ == trimmed(r.media_type@)
    &&& p.content_sha256@ == r.content_sha256@
    &&& opt_view(p.last_source_event_id) == Some(trimmed(r.source_event_id@))
}

/// The projection rewritten for a newer sequence of its file: rediscovered,
/// with processing state reset and the processing fence advanced.
pub open spec fn source_rewritten(
    old: WikiSourceProjection,
    new: WikiSourceProjection,
    r: UpsertWikiSourceProjectionRequest,
    unpublish_during_processing: bool,
) -> bool {
    &&& new == (WikiSourceProjection {
        drive_version_uuid: new.drive_version_uuid,
        source_path: new.source_path,
        file_kind: new.file_kind,
        media_type: new.media_type,
        size_bytes: new.size_bytes,
        content_sha256: new.content_sha256,
        source_state: new.source_state,
        publication_state: new.publication_state,
        index_state: new.index_state,
        source_sequence_no: new.source_sequence_no,
        last_source_event_id: new.last_source_event_id,
        processing_attempt_count: new.processing_attempt_count,
        processing_lease_token: new.processing_lease_token,
        processing_fence: new.processing_fence,
        last_error_code: new.last_error_code,
        version: new.version,
        ..old
    })
    &&& projection_texts_from(new, r)
    &&& new.size_bytes == r.size_bytes
    &&& new.source_state == WikiSourceState::Discovered
    &&& new.publication_state == publication_state_after_change(
        old.publication_state,
        unpublish_during_processing,
    )
    &&& new.index_state == initial_index_state(r.file_kind@)
    &&& new.source_sequence_no == r.source_sequence_no
    &&& new.processing_attempt_count == 0
    &&& new.processing_lease_token is None
    &&& new.processing_fence == old.processing_fence + 1
    &&& new.last_error_code is None
    &&& new.version == old.version + 1
    &&& new.id == old.id
    &&& new.uuid == old.uuid
    &&& new.scope == old.scope
    &&& new.site_publication_id == old.site_publication_id
    &&& new.drive_node_uuid == old.drive_node_uuid
    &&& new.canonical_route == old.canonical_route
    &&& new.visibility == old.visibility
    &&& new.public_drive_version_uuid == old.public_drive_version_uuid
    &&& new.page_public_version == old.page_public_version
}

/// Counters of a projection fit the signed BIGINT columns.
pub open spec fn projection_wf(p: WikiSourceProjection) -> bool {
    &&& p.version <= i64::MAX
    &&& p.processing_fence <= i64::MAX
    &&& p.page_public_version <= i64::MAX
    &&& p.processing_attempt_count <= i32::MAX
}

/// Rewrites a projection for a newer sequence of its file.
pub fn rewrite_source_projection(
    existing: WikiSourceProjection,
    request: &UpsertWikiSourceProjectionRequest,
    unpublish_during_processing: bool,
) -> (result: WikiSourceProjection)
    requires
        projection_wf(existing),
    ensures
        source_rewritten(existing, result, *request, unpublish_during_processing),
        (unpublish_during_processing && existing.publication_state == WikiPagePublicationState::Published)
            ==> result.publication_state == WikiPagePublicationState::Unpublished,
        !unpublish_during_processing ==> result.publication_state == existing.publication_state,
        existing.publication_state != WikiPagePublicationState::Published ==> result.publication_state
            == existing.publication_state,
        result.source_state == WikiSourceState::Discovered,
        result.processing_fence == existing.processing_fence + 1,
        result.processing_lease_token is None && result.processing_attempt_count == 0,
        result.source_sequence_no == request.source_sequence_no,
        result.visibility == existing.visibility && result.page_public_version == existing.page_public_version,
        request.file_kind@ == seq!['P', 'A', 'G', 'E'] ==> result.index_state == WikiIndexState::Pending,
        request.file_kind@ != seq!['P', 'A', 'G', 'E'] ==> result.index_state == WikiIndexState::NotRequired,
{
    let index_state = index_state_for_kind(request.file_kind.as_str());
    let mut next = existing;
    next.drive_version_uuid = trim(request.drive_version_uuid.as_str()).to_string();
    next.source_path = trim(request.source_path.as_str()).to_string();
    next.file_kind = request.file_kind.clone();
    next.media_type = trim(request.media_type.as_str()).to_string();
    next.size_bytes = request.size_bytes;
    next.content_sha256 = request.content_sha256.clone();
    next.source_state = WikiSourceState::Discovered;
    if unpublish_during_processing && next.publication_state == WikiPagePublicationState::Published {
        next.publication_state = WikiPagePublicationState::Unpublished;
    }
    next.index_state = index_state;
    next.source_sequence_no = request.source_sequence_no;
    next.last_source_event_id = Some(trim(request.source_event_id.as_str()).to_string());
    next.processing_attempt_count = 0;
    next.processing_lease_token = None;
    next.processing_fence = next.processing_fence + 1;
    next.last_error_code = None;
    next.version = next.version + 1;
    next
}

/// The projection of a file seen for the first time.
pub open spec fn source_created(
    p: WikiSourceProjection,
    r: UpsertWikiSourceProjectionRequest,
    id: u64,
    uuid: Seq<char>,
    default_visibility: WikiVisibility,
) -> bool {
    &&& projection_texts_from(p, r)
    &&& p.id == id
    &&& p.uuid@ == uuid
    &&& p.scope == r.scope
    &&& p.site_publication_id == r.site_publication_id
    &&& p.space_id == r.space_id
    &&& p.drive_space_uuid@ == trimmed(r.drive_space_uuid@)
    &&& p.drive_node_uuid@ == trimmed(r.drive_node_uuid@)
    &&& p.size_bytes == r.size_bytes
    &&& p.canonical_route is None
    &&& p.previous_canonical_route is None
    &&& p.last_error_code is None
    &&& p.source_state == WikiSourceState::Discovered
    &&& p.publication_state == WikiPagePublicationState::Unpublished
    &&& p.visibility == default_visibility
    &&& p.index_state == initial_index_state(r.file_kind@)
    &&& p.public_drive_version_uuid is None
    &&& p.page_public_version == 0
    &&& p.source_sequence_no == r.source_sequence_no
    &&& p.processing_attempt_count == 0
    &&& p.processing_lease_token is None
    &&& p.processing_fence == 0
    &&& p.version == 0
}

/// Builds the projection of a file seen for the first time.
pub fn new_source_projection(
    request: &UpsertWikiSourceProjectionRequest,
    id: u64,
    uuid: String,
    default_visibility: WikiVisibility,
) -> (result: WikiSourceProjection)
    ensures
        source_created(result, *request, id, uuid@, default_visibility),
{
    WikiSourceProjection {
        id,
        uuid,
        scope: request.scope,
        site_publication_id: request.site_publication_id,
        space_id: request.space_id,
        drive_space_uuid: trim(request.drive_space_uuid.as_str()).to_string(),
        drive_node_uuid: trim(request.drive_node_uuid.as_str()).to_string(),
        drive_version_uuid: trim(request.drive_version_uuid.as_str()).to_string(),
        source_path: trim(request.source_path.as_str()).to_string(),
        canonical_route: None,
        previous_canonical_route: None,
        file_kind: request.file_kind.clone(),
        media_type: trim(request.media_type.as_str()).to_string(),
        size_bytes: request.size_bytes,
        content_sha256: request.content_sha256.clone(),
        source_state: WikiSourceState::Discovered,
        publication_state: WikiPagePublicationState::Unpublished,
        visibility: default_visibility,
        index_state: index_state_for_kind(request.file_kind.as_str()),
        public_drive_version_uuid: None,
        page_public_version: 0,
        source_sequence_no: request.source_sequence_no,
        last_source_event_id: Some(trim(request.source_event_id.as_str()).to_string()),
        processing_attempt_count: 0,
        processing_lease_token: None,
        processing_fence: 0,
        last_error_code: None,
        version: 0,
    }
}

/// A projection a processing worker can take: discovered, queued or failed,
/// due and not leased (`due` and `lease_free` are read against the clock).
pub open spec fn source_claimable(p: WikiSourceProjection, due: bool, lease_free: bool) -> bool {
    &&& (p.source_state == WikiSourceState::Discovered || p.source_state == WikiSourceState::Queued
        || p.source_state == WikiSourceState::Error)
    &&& due
    &&& lease_free
}

/// Whether a processing worker can take a projection now.
pub fn is_source_claimable(projection: &WikiSourceProjection, due: bool, lease_free: bool) -> (result:
    bool)
    ensures
        result == source_claimable(*projection, due, lease_free),
        result <==> (due && lease_free && (projection.source_state == WikiSourceState::Discovered
            || projection.source_state == WikiSourceState::Queued || projection.source_state
            == WikiSourceState::Error)),
        projection.source_state == WikiSourceState::Error && due && lease_free ==> result,
{
    let waiting = match projection.source_state {
        WikiSourceState::Discovered | WikiSourceState::Queued | WikiSourceState::Error => true,
        _ => false,
    };
    waiting && due && lease_free
}

/// The projection once a worker took it for processing.
pub open spec fn source_claimed(p: WikiSourceProjection, token: String) -> WikiSourceProjection {
    WikiSourceProjection {
        source_state: WikiSourceState::Processing,
        processing_attempt_count: (p.processing_attempt_count + 1) as u32,
        processing_lease_token: Some(token),
        processing_fence: (p.processing_fence + 1) as u64,
        version: (p.version + 1) as u64,
        ..p
    }
}

/// Takes a projection for processing with the worker's lease token.
pub fn claim_source_projection(projection: WikiSourceProjection, lease_token: String) -> (result:
    WikiSourceProjection)
    requires
        projection_wf(projection),
    ensures
        result == source_claimed(projection, lease_token),
        result.source_state == WikiSourceState::Processing,
        result.processing_lease_token == Some(lease_token),
        result.processing_attempt_count == projection.processing_attempt_count + 1,
        result.processing_fence == projection.processing_fence + 1,
        result.version == projection.version + 1,
        result.id == projection.id && result.drive_version_uuid == projection.drive_version_uuid,
        result.publication_state == projection.publication_state && result.visibility == projection.visibility,
{
    let mut next = projection;
    next.source_state = WikiSourceState::Processing;
    next.processing_attempt_count = next.processing_attempt_count + 1;
    next.processing_lease_token = Some(lease_token);
    next.processing_fence = next.processing_fence + 1;
    next.version = next.version + 1;
    next
}

/// The processing lease of `p` is `token` under fence `fence`.
pub open spec fn processing_lease_held(p: WikiSourceProjection, token: Seq<char>, fence: u64) -> bool {
    &&& p.source_state == WikiSourceState::Processing
    &&& opt_view(p.processing_lease_token) == Some(token)
    &&& p.processing_fence == fence
}

/// The projection once its worker finished: ready under `route` with the
/// given index state, the lease and last error cleared, nothing else changed.
pub open spec fn source_processed(
    before: WikiSourceProjection,
    after: WikiSourceProjection,
    route: Seq<char>,
    index_state: WikiIndexState,
) -> bool {
    &&& after == WikiSourceProjection {
        source_state: WikiSourceState::Ready,
        canonical_route: after.canonical_route,
        index_state,
        processing_lease_token: None,
        last_error_code: None,
        version: (before.version + 1) as u64,
        ..before
    }
    &&& opt_view(after.canonical_route) == Some(route)
}

/// Finishes processing for the lease holder: the source is ready under its
/// canonical route.
pub fn complete_source_processing(
    projection: WikiSourceProjection,
    lease_token: &str,
    processing_fence: u64,
    canonical_route: &str,
    index_state: WikiIndexState,
) -> (result: Result<WikiSourceProjection, StoreError>)
    requires
        projection_wf(projection),
    ensures
        !required_text_ok(lease_token@, 128) || !required_text_ok(canonical_route@, 2048) ==> (
        result matches Err(e) && e.is_invalid_request()),
        required_text_ok(lease_token@, 128) && required_text_ok(canonical_route@, 2048) ==> if processing_lease_held(
            projection,
            trimmed(lease_token@),
            processing_fence,
        ) {
            result matches Ok(p) && source_processed(projection, p, trimmed(canonical_route@), index_state)
        } else {
            result matches Err(e) && e.is_conflict()
        },
{
    let token = require_text("lease_token", lease_token, 128)?;
    let route = require_text("canonical_route", canonical_route, 2048)?;
    if projection.source_state != WikiSourceState::Processing || !opt_eq_str(
        &projection.processing_lease_token,
        token,
    ) || projection.processing_fence != processing_fence {
        let mut message = crate::text::message_with_u64("source projection ", projection.id);
        message.append(" processing lease is stale");
        return Err(StoreError::Conflict(message));
    }
    let mut next = projection;
    next.source_state = WikiSourceState::Ready;
    next.canonical_route = Some(route.to_string());
    next.index_state = index_state;
    next.processing_lease_token = None;
    next.last_error_code = None;
    next.version = next.version + 1;
    Ok(next)
}

/// Law: a source projection upsert is idempotent and never goes back in the
/// Drive stream. After a rewrite for a request, the same request is an
/// unchanged replay, the projection carries the request's sequence, and a
/// stale processing lease can no longer complete.
pub proof fn projection_upsert_is_idempotent(
    old: WikiSourceProjection,
    new: WikiSourceProjection,
    r: UpsertWikiSourceProjectionRequest,
    unpublish: bool,
    stale_token: Seq<char>,
)
    requires
        source_rewritten(old, new, r, unpublish),
        r.source_sequence_no > old.source_sequence_no,
    ensures
        projection_replay_matches(new, r),
        new.source_sequence_no == r.source_sequence_no,
        new.source_sequence_no > old.source_sequence_no,
        !processing_lease_held(new, stale_token, old.processing_fence),
{
}

/// Law: processing workers take waiting and failed sources. A source that
/// is due and not leased is claimable exactly when it was discovered, queued
/// or failed (a failed source is retried); one that is processing, ready,
/// quarantined or deleted never is, nor is one that is leased or not due.
pub proof fn failed_sources_are_retried(p: WikiSourceProjection, due: bool, lease_free: bool)
    ensures
        p.source_state == WikiSourceState::Error && due && lease_free ==> source_claimable(p, due, lease_free),
        p.source_state == WikiSourceState::Discovered && due && lease_free ==> source_claimable(p, due, lease_free),
        p.source_state == WikiSourceState::Queued && due && lease_free ==> source_claimable(p, due, lease_free),
        (p.source_state == WikiSourceState::Processing || p.source_state == WikiSourceState::Ready
            || p.source_state == WikiSourceState::Quarantined || p.source_state == WikiSourceState::Deleted)
            ==> !source_claimable(p, due, lease_free),
        !due || !lease_free ==> !source_claimable(p, due, lease_free),
{
}

} // verus!
