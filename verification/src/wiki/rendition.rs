use vstd::prelude::*;
use crate::error::StoreError;
use crate::text::{is_sha256_reference, opt_eq_str, opt_view, require_sha256, require_text, str_eq, trim, trimmed};
use crate::wiki::lifecycle::required_text_ok;
use crate::wiki::model::{require_id, validate_scope, WikiPersistenceScope};

use crate::store_step::StoreStep;

verus! {

/// Processing state of a derived rendition.
#[derive(Debug, Clone, Copy, PartialEq, Eq, Structural)]
pub enum WikiRenditionState {
    Pending,
    Processing,
    Ready,
    Error,
}

impl WikiRenditionState {
    /// The text that stands for the kind in the database.
    pub open spec fn spec_code(self) -> Seq<char> {
        match self {
            WikiRenditionState::Pending => seq!['P', 'E', 'N', 'D', 'I', 'N', 'G'],
            WikiRenditionState::Processing => seq!['P', 'R', 'O', 'C', 'E', 'S', 'S', 'I', 'N', 'G'],
            WikiRenditionState::Ready => seq!['R', 'E', 'A', 'D', 'Y'],
            WikiRenditionState::Error => seq!['E', 'R', 'R', 'O', 'R'],
        }
    }

    /// The database text of the kind.
    pub fn as_str(self) -> (code: &'static str)
        ensures
            code@ == self.spec_code(),
    {
        match self {
            WikiRenditionState::Pending => {
                proof {
                    reveal_strlit("PENDING");
                }
                assert("PENDING"@ =~= self.spec_code());
                "PENDING"
            },
            WikiRenditionState::Processing => {
                proof {
                    reveal_strlit("PROCESSING");
                }
                assert("PROCESSING"@ =~= self.spec_code());
                "PROCESSING"
            },
            WikiRenditionState::Ready => {
                proof {
                    reveal_strlit("READY");
                }
                assert("READY"@ =~= self.spec_code());
                "READY"
            },
            WikiRenditionState::Error => {
                proof {
                    reveal_strlit("ERROR");
                }
                assert("ERROR"@ =~= self.spec_code());
                "ERROR"
            },
        }
    }
}

/// Reads a WikiRenditionState back from its database text; any other text is an
/// internal error (the database holds a value the domain does not know).
pub fn rendition_state_from_str(value: &str) -> (result: Result<WikiRenditionState, StoreError>)
    ensures
        match result {
            Ok(kind) => kind.spec_code() == value@,
            Err(e) => e.is_internal() && forall|kind: WikiRenditionState| kind.spec_code() != value@,
        },
        forall|kind: WikiRenditionState| kind.spec_code() == value@ ==> result == Ok::<WikiRenditionState, StoreError>(kind),
{
    proof {
        reveal_strlit("PENDING");
    }
    if str_eq(value, "PENDING") {
        assert(value@ =~= WikiRenditionState::Pending.spec_code());
        return Ok(WikiRenditionState::Pending);
    }
    proof {
        reveal_strlit("PROCESSING");
    }
    if str_eq(value, "PROCESSING") {
        assert(value@ =~= WikiRenditionState::Processing.spec_code());
        return Ok(WikiRenditionState::Processing);
    }
    proof {
        reveal_strlit("READY");
    }
    if str_eq(value, "READY") {
        assert(value@ =~= WikiRenditionState::Ready.spec_code());
        return Ok(WikiRenditionState::Ready);
    }
    proof {
        reveal_strlit("ERROR");
    }
    if str_eq(value, "ERROR") {
        assert(value@ =~= WikiRenditionState::Error.spec_code());
        return Ok(WikiRenditionState::Error);
    }
    proof {
        assert forall|kind: WikiRenditionState| kind.spec_code() != value@ by {
            match kind {
                WikiRenditionState::Pending => {
                    assert("PENDING"@ =~= kind.spec_code());
                },
                WikiRenditionState::Processing => {
                    assert("PROCESSING"@ =~= kind.spec_code());
                },
                WikiRenditionState::Ready => {
                    assert("READY"@ =~= kind.spec_code());
                },
                WikiRenditionState::Error => {
                    assert("ERROR"@ =~= kind.spec_code());
                },
            }
        }
    }
    Err(StoreError::Internal(crate::text::message_with("database returned unsupported rendition_state value ", value)))
}

/// A rendition derived from one version of a source file
/// (`kb_source_file_rendition`).
#[derive(Debug, Clone)]
pub struct WikiSourceRendition {
    pub id: u64,
    pub uuid: String,
    pub scope: WikiPersistenceScope,
    pub site_publication_id: u64,
    pub source_file_projection_id: u64,
    pub drive_version_uuid: String,
    pub source_content_sha256: String,
    pub processor_id: String,
    pub processor_version: String,
    pub policy_version: String,
    pub rendition_kind: String,
    pub rendition_key_sha256: String,
    pub rendition_state: WikiRenditionState,
    pub rendition_drive_space_uuid: Option<String>,
    pub rendition_drive_node_uuid: Option<String>,
    pub rendition_drive_version_uuid: Option<String>,
    pub content_sha256: Option<String>,
    pub media_type: Option<String>,
    pub size_bytes: Option<u64>,
    pub processing_attempt_count: u32,
    pub processing_lease_token: Option<String>,
    pub processing_fence: u64,
    pub version: u64,
}

/// A request for the rendition of a source version by a processor.
#[derive(Debug, Clone)]
pub struct UpsertWikiRenditionRequest {
    pub scope: WikiPersistenceScope,
    pub site_publication_id: u64,
    pub source_file_projection_id: u64,
    pub actor_id: u64,
    pub drive_version_uuid: String,
    pub source_content_sha256: String,
    pub processor_id: String,
    pub processor_version: String,
    pub policy_version: String,
    pub rendition_kind: String,
    pub rendition_key_sha256: String,
}

/// A well-formed rendition request.
pub open spec fn rendition_request_ok(r: UpsertWikiRenditionRequest) -> bool {
    &&& r.scope.tenant_id != 0
    &&& 0 < r.site_publication_id <= i64::MAX
    &&& 0 < r.source_file_projection_id <= i64::MAX
    &&& 0 < r.actor_id <= i64::MAX
    &&& required_text_ok(r.drive_version_uuid@, 64)
    &&& is_sha256_reference(r.source_content_sha256@)
    &&& required_text_ok(r.processor_id@, 128)
    &&& required_text_ok(r.processor_version@, 64)
    &&& required_text_ok(r.policy_version@, 64)
    &&& is_sha256_reference(r.rendition_key_sha256@)
}

/// Validates a rendition request.
pub fn validate_rendition_request(request: &UpsertWikiRenditionRequest) -> (result: Result<
    (),
    StoreError,
>)
    ensures
        result is Ok <==> rendition_request_ok(*request),
        result matches Err(e) ==> e.is_invalid_request(),
        (request.scope.tenant_id == 0 || request.site_publication_id == 0 || request.source_file_projection_id
            == 0 || request.actor_id == 0) ==> result is Err,
        result is Ok ==> (is_sha256_reference(request.source_content_sha256@) && is_sha256_reference(
            request.rendition_key_sha256@,
        )),
{
    validate_scope(request.scope)?;
    require_id("site_publication_id", request.site_publication_id)?;
    require_id("source_file_projection_id", request.source_file_projection_id)?;
    require_id("actor_id", request.actor_id)?;
    require_text("drive_version_uuid", request.drive_version_uuid.as_str(), 64)?;
    require_sha256("source_content_sha256", request.source_content_sha256.as_str())?;
    require_text("processor_id", request.processor_id.as_str(), 128)?;
    require_text("processor_version", request.processor_version.as_str(), 64)?;
    require_text("policy_version", request.policy_version.as_str(), 64)?;
    require_sha256("rendition_key_sha256", request.rendition_key_sha256.as_str())?;
    Ok(())
}

/// The rendition was made from exactly the request's deterministic inputs.
pub open spec fn rendition_inputs_match(x: WikiSourceRendition, r: UpsertWikiRenditionRequest) -> bool {
    &&& x.site_publication_id == r.site_publication_id
    &&& x.drive_version_uuid@ == trimmed(r.drive_version_uuid@)
    &&& x.source_content_sha256@ == r.source_content_sha256@
    &&& x.processor_id@ == trimmed(r.processor_id@)
    &&& x.processor_version@ == trimmed(r.processor_version@)
    &&& x.policy_version@ == trimmed(r.policy_version@)
    &&& x.rendition_kind@ == r.rendition_kind@
}

fn inputs_match(x: &WikiSourceRendition, r: &UpsertWikiRenditionRequest) -> (result: bool)
    ensures
        result == rendition_inputs_match(*x, *r),
{
    x.site_publication_id == r.site_publication_id && str_eq(
        x.drive_version_uuid.as_str(),
        trim(r.drive_version_uuid.as_str()),
    ) && str_eq(x.source_content_sha256.as_str(), r.source_content_sha256.as_str()) && str_eq(
        x.processor_id.as_str(),
        trim(r.processor_id.as_str()),
    ) && str_eq(x.processor_version.as_str(), trim(r.processor_version.as_str())) && str_eq(
        x.policy_version.as_str(),
        trim(r.policy_version.as_str()),
    ) && str_eq(x.rendition_kind.as_str(), r.rendition_kind.as_str())
}

/// How a rendition upsert proceeds.
#[derive(Debug, Clone, Copy, PartialEq, Eq, Structural)]
pub enum RenditionUpsertPlan {
    /// The rendition under this key exists for the same inputs: return it.
    Existing,
    /// Create the rendition.
    Create,
}

/// The identity of the source projection a rendition derives from.
#[derive(Debug, Clone)]
pub struct RenditionSourceIdentity {
    pub site_publication_id: u64,
    pub drive_version_uuid: String,
    pub content_sha256: String,
}

/// Decides a rendition upsert from the rendition under the request's key and
/// the current identity of the source projection (`None` when missing).
pub fn plan_rendition_upsert(
    request: &UpsertWikiRenditionRequest,
    existing: Option<&WikiSourceRendition>,
    source: Option<&RenditionSourceIdentity>,
) -> (result: Result<RenditionUpsertPlan, StoreError>)
    ensures
        match existing {
            Some(x) => if rendition_inputs_match(*x, *request) {
                result == Ok::<RenditionUpsertPlan, StoreError>(RenditionUpsertPlan::Existing)
            } else {
                result matches Err(e) && e.is_conflict()
            },
            None => match source {
                None => result matches Err(e) && e is NotFound,
                Some(s) => if s.site_publication_id == request.site_publication_id
                    && s.drive_version_uuid@ == trimmed(request.drive_version_uuid@)
                    && s.content_sha256@ == request.source_content_sha256@ {
                    result == Ok::<RenditionUpsertPlan, StoreError>(RenditionUpsertPlan::Create)
                } else {
                    result matches Err(e) && e.is_conflict()
                },
            },
        },
{
    if let Some(x) = existing {
        if !inputs_match(x, request) {
            return Err(StoreError::Conflict("rendition_key_sha256 was reused for different deterministic inputs".to_string()));
        }
        return Ok(RenditionUpsertPlan::Existing);
    }
    match source {
        None => Err(StoreError::NotFound("wiki_source_projection".to_string())),
        Some(s) => {
            if s.site_publication_id != request.site_publication_id || !str_eq(
                s.drive_version_uuid.as_str(),
                trim(request.drive_version_uuid.as_str()),
            ) || !str_eq(s.content_sha256.as_str(), request.source_content_sha256.as_str()) {
                return Err(StoreError::Conflict("rendition inputs do not match the current source projection".to_string()));
            }
            Ok(RenditionUpsertPlan::Create)
        },
    }
}

/// Builds a pending rendition for a request.
pub fn new_rendition(request: &UpsertWikiRenditionRequest, id: u64, uuid: String) -> (result:
    WikiSourceRendition)
    ensures
        rendition_inputs_match(result, *request),
        result.id == id,
        result.uuid@ == uuid@,
        result.source_file_projection_id == request.source_file_projection_id,
        result.rendition_key_sha256@ == request.rendition_key_sha256@,
        result.rendition_state == WikiRenditionState::Pending,
        result.processing_lease_token is None,
        result.processing_fence == 0,
        result.processing_attempt_count == 0,
        result.version == 0,
{
    WikiSourceRendition {
        id,
        uuid,
        scope: request.scope,
        site_publication_id: request.site_publication_id,
        source_file_projection_id: request.source_file_projection_id,
        drive_version_uuid: trim(request.drive_version_uuid.as_str()).to_string(),
        source_content_sha256: request.source_content_sha256.clone(),
        processor_id: trim(request.processor_id.as_str()).to_string(),
        processor_version: trim(request.processor_version.as_str()).to_string(),
        policy_version: trim(request.policy_version.as_str()).to_string(),
        rendition_kind: request.rendition_kind.clone(),
        rendition_key_sha256: request.rendition_key_sha256.clone(),
        rendition_state: WikiRenditionState::Pending,
        rendition_drive_space_uuid: None,
        rendition_drive_node_uuid: None,
        rendition_drive_version_uuid: None,
        content_sha256: None,
        media_type: None,
        size_bytes: None,
        processing_attempt_count: 0,
        processing_lease_token: None,
        processing_fence: 0,
        version: 0,
    }
}

/// A rendition a worker can take: pending or failed, due and not leased.
pub open spec fn rendition_claimable(x: WikiSourceRendition, due: bool, lease_free: bool) -> bool {
    (x.rendition_state == WikiRenditionState::Pending || x.rendition_state
        == WikiRenditionState::Error) && due && lease_free
}

/// Whether a worker can take a rendition now.
pub fn is_rendition_claimable(rendition: &WikiSourceRendition, due: bool, lease_free: bool) -> (result:
    bool)
    ensures
        result == rendition_claimable(*rendition, due, lease_free),
        result <==> (due && lease_free && (rendition.rendition_state == WikiRenditionState::Pending
            || rendition.rendition_state == WikiRenditionState::Error)),
{
    let waiting = match rendition.rendition_state {
        WikiRenditionState::Pending | WikiRenditionState::Error => true,
        _ => false,
    };
    waiting && due && lease_free
}

/// The rendition once a worker took it.
pub open spec fn rendition_claimed(x: WikiSourceRendition, token: String) -> WikiSourceRendition {
    WikiSourceRendition {
        rendition_state: WikiRenditionState::Processing,
        processing_attempt_count: (x.processing_attempt_count + 1) as u32,
        processing_lease_token: Some(token),
        processing_fence: (x.processing_fence + 1) as u64,
        version: (x.version + 1) as u64,
        ..x
    }
}

/// Counters of a rendition fit the signed columns.
pub open spec fn rendition_wf(x: WikiSourceRendition) -> bool {
    x.version <= i64::MAX && x.processing_fence <= i64::MAX && x.processing_attempt_count
        <= i32::MAX
}

/// Takes a rendition for processing with the worker's lease token.
pub fn claim_rendition(rendition: WikiSourceRendition, lease_token: String) -> (result:
    WikiSourceRendition)
    requires
        rendition_wf(rendition),
    ensures
        result == rendition_claimed(rendition, lease_token),
        result.rendition_state == WikiRenditionState::Processing,
        result.processing_lease_token == Some(lease_token),
        result.processing_attempt_count == rendition.processing_attempt_count + 1,
        result.processing_fence == rendition.processing_fence + 1,
        result.version == rendition.version + 1,
        result.id == rendition.id && result.rendition_key_sha256 == rendition.rendition_key_sha256,
{
    let mut next = rendition;
    next.rendition_state = WikiRenditionState::Processing;
    next.processing_attempt_count = next.processing_attempt_count + 1;
    next.processing_lease_token = Some(lease_token);
    next.processing_fence = next.processing_fence + 1;
    next.version = next.version + 1;
    next
}

/// What a finished rendition produced in Drive.
#[derive(Debug, Clone)]
pub struct RenditionOutput {
    pub rendition_drive_space_uuid: String,
    pub rendition_drive_node_uuid: String,
    pub rendition_drive_version_uuid: String,
    pub content_sha256: String,
    pub media_type: String,
    pub size_bytes: u64,
}

/// A well-formed rendition output.
pub open spec fn rendition_output_ok(o: RenditionOutput) -> bool {
    &&& required_text_ok(o.rendition_drive_space_uuid@, 64)
    &&& required_text_ok(o.rendition_drive_node_uuid@, 64)
    &&& required_text_ok(o.rendition_drive_version_uuid@, 64)
    &&& is_sha256_reference(o.content_sha256@)
    &&& required_text_ok(o.media_type@, 255)
}

/// The rendition once its worker finished with `o`: ready, with the output
/// recorded (texts trimmed), the lease released, and nothing else changed.
pub open spec fn rendition_finished(before: WikiSourceRendition, after: WikiSourceRendition, o: RenditionOutput) -> bool {
    &&& after == WikiSourceRendition {
        rendition_state: WikiRenditionState::Ready,
        rendition_drive_space_uuid: after.rendition_drive_space_uuid,
        rendition_drive_node_uuid: after.rendition_drive_node_uuid,
        rendition_drive_version_uuid: after.rendition_drive_version_uuid,
        content_sha256: after.content_sha256,
        media_type: after.media_type,
        size_bytes: Some(o.size_bytes),
        processing_lease_token: None,
        version: (before.version + 1) as u64,
        ..before
    }
    &&& opt_view(after.rendition_drive_space_uuid) == Some(trimmed(o.rendition_drive_space_uuid@))
    &&& opt_view(after.rendition_drive_node_uuid) == Some(trimmed(o.rendition_drive_node_uuid@))
    &&& opt_view(after.rendition_drive_version_uuid) == Some(trimmed(o.rendition_drive_version_uuid@))
    &&& opt_view(after.content_sha256) == Some(o.content_sha256@)
    &&& opt_view(after.media_type) == Some(trimmed(o.media_type@))
}

/// Finishes a rendition for the holder of its lease.
pub fn complete_rendition(
    rendition: WikiSourceRendition,
    lease_token: &str,
    processing_fence: u64,
    output: &RenditionOutput,
) -> (result: Result<WikiSourceRendition, StoreError>)
    requires
        rendition_wf(rendition),
    ensures
        !required_text_ok(lease_token@, 128) || !rendition_output_ok(*output) ==> (result matches Err(
            e,
        ) && e.is_invalid_request()),
        required_text_ok(lease_token@, 128) && rendition_output_ok(*output) ==> if rendition.rendition_state
            == WikiRenditionState::Processing && opt_view(rendition.processing_lease_token) == Some(
            trimmed(lease_token@),
        ) && rendition.processing_fence == processing_fence {
            result matches Ok(x) && rendition_finished(rendition, x, *output)
        } else {
            result matches Err(e) && e.is_conflict()
        },
{
    let token = require_text("lease_token", lease_token, 128)?;
    let space = require_text("rendition_drive_space_uuid", output.rendition_drive_space_uuid.as_str(), 64)?;
    let node = require_text("rendition_drive_node_uuid", output.rendition_drive_node_uuid.as_str(), 64)?;
    let version = require_text(
        "rendition_drive_version_uuid",
        output.rendition_drive_version_uuid.as_str(),
        64,
    )?;
    require_sha256("content_sha256", output.content_sha256.as_str())?;
    let media_type = require_text("media_type", output.media_type.as_str(), 255)?;
    if rendition.rendition_state != WikiRenditionState::Processing || !opt_eq_str(
        &rendition.processing_lease_token,
        token,
    ) || rendition.processing_fence != processing_fence {
        let mut message = crate::text::message_with_u64("rendition ", rendition.id);
        message.append(" processing lease is stale");
        return Err(StoreError::Conflict(message));
    }
    let mut next = rendition;
    next.rendition_state = WikiRenditionState::Ready;
    next.rendition_drive_space_uuid = Some(space.to_string());
    next.rendition_drive_node_uuid = Some(node.to_string());
    next.rendition_drive_version_uuid = Some(version.to_string());
    next.content_sha256 = Some(output.content_sha256.clone());
    next.media_type = Some(media_type.to_string());
    next.size_bytes = Some(output.size_bytes);
    next.processing_lease_token = None;
    next.version = next.version + 1;
    Ok(next)
}

/// Law: rendition keys are deterministic. A rendition created for a request
/// is found again, unchanged, by the same request, and a claim fences out
/// any earlier lease holder.
pub proof fn rendition_upsert_is_idempotent(x: WikiSourceRendition, r: UpsertWikiRenditionRequest, token: String)
    requires
        rendition_inputs_match(x, r),
        rendition_wf(x),
    ensures
        rendition_inputs_match(rendition_claimed(x, token), r),
        rendition_claimed(x, token).processing_fence > x.processing_fence,
{
}

/// What a rendition upsert does: a rendition already made from the same
/// inputs under the request's key is handed back and nothing is written; a
/// new rendition is inserted (`Write`).
pub fn rendition_upsert_step(
    request: &UpsertWikiRenditionRequest,
    existing: Option<WikiSourceRendition>,
    source: Option<&RenditionSourceIdentity>,
) -> (result: Result<StoreStep<WikiSourceRendition, ()>, StoreError>)
    ensures
        match existing {
            Some(x) => if rendition_inputs_match(x, *request) {
                result == Ok::<StoreStep<WikiSourceRendition, ()>, StoreError>(StoreStep::Reply(x))
            } else {
                result matches Err(e) && e.is_conflict()
            },
            None => match source {
                None => result matches Err(e) && e is NotFound,
                Some(s) => if s.site_publication_id == request.site_publication_id
                    && s.drive_version_uuid@ == trimmed(request.drive_version_uuid@)
                    && s.content_sha256@ == request.source_content_sha256@ {
                    result == Ok::<StoreStep<WikiSourceRendition, ()>, StoreError>(StoreStep::Write(()))
                } else {
                    result matches Err(e) && e.is_conflict()
                },
            },
        },
{
    plan_rendition_upsert(request, existing.as_ref(), source)?;
    match existing {
        Some(x) => Ok(StoreStep::Reply(x)),
        None => Ok(StoreStep::Write(())),
    }
}

/// Law: rendition workers take pending and failed renditions. A rendition
/// that is due and not leased is claimable exactly when it is pending or
/// failed (a failed rendition is retried); a leased one or one not due never
/// is.
pub proof fn failed_renditions_are_retried(x: WikiSourceRendition, due: bool, lease_free: bool)
    ensures
        x.rendition_state == WikiRenditionState::Error && due && lease_free ==> rendition_claimable(x, due, lease_free),
        x.rendition_state == WikiRenditionState::Pending && due && lease_free ==> rendition_claimable(x, due, lease_free),
        !(x.rendition_state == WikiRenditionState::Pending || x.rendition_state == WikiRenditionState::Error)
            ==> !rendition_claimable(x, due, lease_free),
        !due || !lease_free ==> !rendition_claimable(x, due, lease_free),
{
}

} // verus!
