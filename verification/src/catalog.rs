use vstd::prelude::*;
use vstd::string::StringExecFns;
use crate::codes::IngestionJobState;
use crate::error::StoreError;
use crate::json::is_json_text;
use crate::outbox::{append_record_ok, AppendOutboxEventRecord};
use crate::text::{blank, is_any_hex, is_blank, opt_view, str_eq};

use crate::store_step::StoreStep;

verus! {

/// An ingestion job, restricted to what the decisions read and write.
#[derive(Debug, Clone)]
pub struct IngestionJob {
    pub id: u64,
    pub space_id: u64,
    pub source_type: String,
    pub idempotency_key: String,
    pub state: IngestionJobState,
    pub error_message: Option<String>,
}

/// A character that JSON writes inside a string as itself and that needs no
/// escape: an ASCII letter or digit, or `_`.
pub open spec fn json_plain_char(c: char) -> bool {
    ('0' <= c <= '9') || ('a' <= c <= 'z') || ('A' <= c <= 'Z') || c == '_'
}

/// A text made of plain JSON characters only.
pub open spec fn json_plain(s: Seq<char>) -> bool {
    forall|i: int| 0 <= i < s.len() ==> json_plain_char(#[trigger] s[i])
}

/// The compact JSON object with the single string member `key: value`.
pub open spec fn string_member_object(key: Seq<char>, value: Seq<char>) -> Seq<char> {
    seq!['{', '"'] + key + seq!['"', ':', '"'] + value + seq!['"', '}']
}

/// The value part of a text shaped as `{"key":"value"}`.
pub open spec fn member_object_value(text: Seq<char>, key: Seq<char>) -> Seq<char> {
    text.subrange(key.len() + 5int, text.len() - 2)
}

/// The text is the compact one-member object of `key` with a plain value.
pub open spec fn is_string_member_object(text: Seq<char>, key: Seq<char>) -> bool {
    &&& text.len() >= key.len() + 7
    &&& json_plain(key)
    &&& json_plain(member_object_value(text, key))
    &&& text == string_member_object(key, member_object_value(text, key))
}

/// The metadata document that records an idempotency fingerprint.
pub open spec fn fingerprint_metadata(fingerprint: Seq<char>) -> Seq<char> {
    string_member_object(fingerprint_key(), fingerprint)
}

/// A fingerprint is 64 hexadecimal characters.
pub open spec fn fingerprint_ok(f: Seq<char>) -> bool {
    f.len() == 64 && forall|i: int| 0 <= i < 64 ==> is_any_hex(#[trigger] f[i])
}

/// Writes the job metadata that records a request fingerprint.
pub fn job_metadata_to_json(fingerprint: Option<&str>) -> (result: Result<Option<String>, StoreError>)
    ensures
        fingerprint is None ==> result == Ok::<Option<String>, StoreError>(None),
        fingerprint matches Some(f) ==> (if fingerprint_ok(f@) {
            result matches Ok(Some(m)) && m@ == fingerprint_metadata(f@)
        } else {
            result matches Err(e) && e.is_internal()
        }),
{
    let f = match fingerprint {
        None => {
            return Ok(None);
        },
        Some(f) => f,
    };
    let n = f.unicode_len();
    if n != 64 {
        return Err(StoreError::Internal("idempotency_fingerprint_sha256_hex must be 64 hex characters".to_string()));
    }
    let mut i: usize = 0;
    while i < 64
        invariant
            fingerprint == Some(f),
            n == 64,
            f@.len() == 64,
            i <= 64,
            forall|k: int| 0 <= k < i ==> is_any_hex(#[trigger] f@[k]),
        decreases 64 - i,
    {
        let c = f.get_char(i);
        if !(('0' <= c && c <= '9') || ('a' <= c && c <= 'f') || ('A' <= c && c <= 'F')) {
            return Err(StoreError::Internal("idempotency_fingerprint_sha256_hex must be 64 hex characters".to_string()));
        }
        i = i + 1;
    }
    proof {
        reveal_strlit("{\"idempotency_fingerprint_sha256_hex\":\"");
        reveal_strlit("\"}");
    }
    let mut text = String::from_str("{\"idempotency_fingerprint_sha256_hex\":\"");
    text.append(f);
    text.append("\"}");
    assert(text@ =~= fingerprint_metadata(f@));
    Ok(Some(text))
}

/// The text of the string member `key` of a JSON object, when the document
/// is an object with such a member.
pub uninterp spec fn json_member_text(text: Seq<char>, key: Seq<char>) -> Option<Seq<char>>;

/// Parses the text with `serde_json::from_str::<serde_json::Value>`, looks up
/// `key` with `Value::get` and reads it with `Value::as_str`. Claimed: the
/// parse fails exactly on text that is not JSON, otherwise the member text
/// depends on the text and the key alone, and a one-member object whose key
/// and value need no escaping reads back as its value.
#[verifier::external_body]
fn read_json_member(text: &str, key: &str) -> (result: Result<Option<String>, String>)
    ensures
        result is Ok <==> is_json_text(text@),
        result matches Ok(v) ==> opt_view(v) == json_member_text(text@, key@),
        is_string_member_object(text@, key@) ==> (result is Ok && opt_view(result.unwrap()) == Some(
            member_object_value(text@, key@),
        )),
{
    match serde_json::from_str::<serde_json::Value>(text) {
        Ok(value) => Ok(value.get(key).and_then(serde_json::Value::as_str).map(str::to_string)),
        Err(error) => Err(error.to_string()),
    }
}

/// The fingerprint member name.
pub open spec fn fingerprint_key() -> Seq<char> {
    seq![
        'i', 'd', 'e', 'm', 'p', 'o', 't', 'e', 'n', 'c', 'y', '_', 'f', 'i', 'n', 'g', 'e', 'r',
        'p', 'r', 'i', 'n', 't', '_', 's', 'h', 'a', '2', '5', '6', '_', 'h', 'e', 'x',
    ]
}

/// Reads the request fingerprint back from job metadata.
pub fn job_metadata_fingerprint(metadata: Option<&str>) -> (result: Result<Option<String>, StoreError>)
    ensures
        metadata is None ==> result == Ok::<Option<String>, StoreError>(None),
        metadata matches Some(m) ==> (if is_json_text(m@) {
            result matches Ok(v) && opt_view(v) == json_member_text(m@, fingerprint_key())
        } else {
            result matches Err(e) && e.is_internal()
        }),
        forall|f: Seq<char>|
            (fingerprint_ok(f) && metadata is Some && metadata.unwrap()@ == #[trigger] fingerprint_metadata(f))
                ==> (result matches Ok(Some(v)) && v@ == f),
{
    let m = match metadata {
        None => {
            return Ok(None);
        },
        Some(m) => m,
    };
    proof {
        reveal_strlit("idempotency_fingerprint_sha256_hex");
    }
    assert("idempotency_fingerprint_sha256_hex"@ =~= fingerprint_key());
    let read = read_json_member(m, "idempotency_fingerprint_sha256_hex");
    proof {
        assert(json_plain(fingerprint_key()));
        assert forall|f: Seq<char>|
            fingerprint_ok(f) && m@ == #[trigger] fingerprint_metadata(f) implies (read matches Ok(
                Some(v),
            ) && v@ == f) by {
            let key = fingerprint_key();
            assert(json_plain(f));
            assert(member_object_value(m@, key) =~= f);
            assert(is_string_member_object(m@, "idempotency_fingerprint_sha256_hex"@));
        }
    }
    match read {
        Ok(value) => Ok(value),
        Err(message) => Err(StoreError::Internal(message)),
    }
}

/// What the `drive_import` member of JSON job metadata holds: `None` when
/// the document has no such member; otherwise its `source_id`,
/// `document_id` and `document_version_id` members read as unsigned
/// integers (`None` when missing or not one), and whether it has an
/// `original_object_ref` member.
pub uninterp spec fn drive_import_members(text: Seq<char>) -> Option<
    (Option<u64>, Option<u64>, Option<u64>, bool),
>;

/// Parses the text with `serde_json::from_str::<serde_json::Value>`, looks up
/// `drive_import` with `Value::get`, reads its three id members with
/// `Value::as_u64` and checks for `original_object_ref`. Claimed: the parse
/// fails exactly on text that is not JSON, and otherwise what is read depends
/// on the text alone.
#[verifier::external_body]
fn read_drive_import_members(text: &str) -> (result: Result<
    Option<(Option<u64>, Option<u64>, Option<u64>, bool)>,
    String,
>)
    ensures
        result is Ok <==> is_json_text(text@),
        result is Ok ==> result.unwrap() == drive_import_members(text@),
{
    let value = serde_json::from_str::<serde_json::Value>(text).map_err(|error| error.to_string())?;
    Ok(value.get("drive_import").map(|l| (
        l.get("source_id").and_then(serde_json::Value::as_u64),
        l.get("document_id").and_then(serde_json::Value::as_u64),
        l.get("document_version_id").and_then(serde_json::Value::as_u64),
        l.get("original_object_ref").is_some(),
    )))
}

/// The ids a Drive import linkage records in job metadata (source,
/// document, document version), read back: no metadata or no `drive_import`
/// member means no linkage; metadata that is not JSON, a linkage without an
/// `original_object_ref` or without one of the ids is an internal error. The
/// object reference itself is read by the caller, which knows its type.
pub fn parse_drive_import_linkage_ids(metadata: Option<&str>) -> (result: Result<
    Option<(u64, u64, u64)>,
    StoreError,
>)
    ensures
        metadata is None ==> result == Ok::<Option<(u64, u64, u64)>, StoreError>(None),
        metadata matches Some(m) ==> (if !is_json_text(m@) {
            result matches Err(e) && e.is_internal()
        } else {
            match drive_import_members(m@) {
                None => result == Ok::<Option<(u64, u64, u64)>, StoreError>(None),
                Some(fields) => if !fields.3 {
                    result matches Err(StoreError::Internal(msg)) && msg@
                        == "drive_import metadata missing original_object_ref"@
                } else if fields.0 is None {
                    result matches Err(StoreError::Internal(msg)) && msg@
                        == "drive_import metadata missing source_id"@
                } else if fields.1 is None {
                    result matches Err(StoreError::Internal(msg)) && msg@
                        == "drive_import metadata missing document_id"@
                } else if fields.2 is None {
                    result matches Err(StoreError::Internal(msg)) && msg@
                        == "drive_import metadata missing document_version_id"@
                } else {
                    result == Ok::<Option<(u64, u64, u64)>, StoreError>(
                        Some((fields.0.unwrap(), fields.1.unwrap(), fields.2.unwrap())),
                    )
                },
            }
        }),
{
    let text = match metadata {
        None => {
            return Ok(None);
        },
        Some(text) => text,
    };
    let fields = match read_drive_import_members(text) {
        Err(message) => {
            return Err(StoreError::Internal(message));
        },
        Ok(None) => {
            return Ok(None);
        },
        Ok(Some(fields)) => fields,
    };
    let (source_id, document_id, document_version_id, has_object_ref) = fields;
    if !has_object_ref {
        return Err(StoreError::Internal("drive_import metadata missing original_object_ref".to_string()));
    }
    match (source_id, document_id, document_version_id) {
        (None, _, _) => Err(StoreError::Internal("drive_import metadata missing source_id".to_string())),
        (Some(_), None, _) => Err(StoreError::Internal("drive_import metadata missing document_id".to_string())),
        (Some(_), Some(_), None) => Err(
            StoreError::Internal("drive_import metadata missing document_version_id".to_string()),
        ),
        (Some(s), Some(d), Some(v)) => Ok(Some((s, d, v))),
    }
}

/// The view of an optional text.
pub open spec fn opt_str_view(o: Option<&str>) -> Option<Seq<char>> {
    match o {
        Some(s) => Some(s@),
        None => None,
    }
}

/// An existing job answers a repeated creation: same job type and, when the
/// request names a fingerprint, the same stored fingerprint.
pub open spec fn job_replay_accepted(
    existing_type: Seq<char>,
    existing_fingerprint: Option<Seq<char>>,
    requested_type: Seq<char>,
    requested_fingerprint: Option<Seq<char>>,
) -> bool {
    &&& existing_type == requested_type
    &&& (requested_fingerprint matches Some(f) ==> existing_fingerprint == Some(f))
}

/// Law: ingestion job creation is idempotent. Repeating a creation with the
/// job type and fingerprint that created the job is answered by that job,
/// and a request for another job type never is.
pub proof fn job_creation_replays(
    job_type: Seq<char>,
    fingerprint: Option<Seq<char>>,
    other_type: Seq<char>,
    requested_fingerprint: Option<Seq<char>>,
)
    ensures
        job_replay_accepted(job_type, fingerprint, job_type, fingerprint),
        job_replay_accepted(job_type, fingerprint, job_type, None),
        other_type != job_type ==> !job_replay_accepted(
            job_type,
            fingerprint,
            other_type,
            requested_fingerprint,
        ),
{
}

/// An existing job answers a repeated creation only for the same job type
/// and, when the request carries one, the same fingerprint.
pub fn validate_existing_job_idempotency(
    existing_job_type: &str,
    existing_fingerprint: Option<&str>,
    requested_job_type: &str,
    requested_fingerprint: Option<&str>,
) -> (result: Result<(), StoreError>)
    ensures
        result is Ok <==> job_replay_accepted(
            existing_job_type@,
            opt_str_view(existing_fingerprint),
            requested_job_type@,
            opt_str_view(requested_fingerprint),
        ),
        result matches Err(e) ==> e.is_conflict(),
{
    if !str_eq(existing_job_type, requested_job_type) {
        return Err(StoreError::Conflict("idempotency_key is already used for a different job_type".to_string()));
    }
    if let Some(expected) = requested_fingerprint {
        let matches = match existing_fingerprint {
            Some(existing) => str_eq(existing, expected),
            None => false,
        };
        if !matches {
            return Err(StoreError::Conflict("idempotency_key is already used for a different request".to_string()));
        }
    }
    Ok(())
}

/// Moves a job from the expected state to a new one; a job in another state
/// is not found by the guarded update.
pub fn update_job_state(
    job: IngestionJob,
    expected_state: IngestionJobState,
    state: IngestionJobState,
    error_message: Option<String>,
) -> (result: Result<IngestionJob, StoreError>)
    ensures
        job.state == expected_state ==> result == Ok::<IngestionJob, StoreError>(
            IngestionJob { state, error_message, ..job },
        ),
        job.state != expected_state ==> (result matches Err(StoreError::NotFound(m)) && m@
            == crate::group::fingerprint::decimal(job.id as nat)),
{
    if job.state != expected_state {
        return Err(StoreError::NotFound(crate::group::fingerprint::decimal_text(job.id)));
    }
    let mut next = job;
    next.state = state;
    next.error_message = error_message;
    Ok(next)
}

/// Completes a running job and checks the outbox event that announces it: a
/// blank event or a job that is not running is a conflict.
pub fn succeed_running_job(job: IngestionJob, outbox: &AppendOutboxEventRecord) -> (result: Result<
    IngestionJob,
    StoreError,
>)
    ensures
        (blank(outbox.aggregate_type@) || blank(outbox.event_type@) || blank(outbox.payload_json@))
            ==> (result matches Err(e) && e.is_conflict()),
        !(blank(outbox.aggregate_type@) || blank(outbox.event_type@) || blank(outbox.payload_json@))
            ==> if job.state != IngestionJobState::Running {
            result matches Err(StoreError::Conflict(m)) && m@ == "invalid ingestion job transition: "@
                + job.state.spec_debug_name() + " -> Succeeded"@
        } else if outbox.aggregate_id > i64::MAX {
            result matches Err(e) && e.is_internal()
        } else {
            result == Ok::<IngestionJob, StoreError>(
                IngestionJob { state: IngestionJobState::Succeeded, error_message: None, ..job },
            )
        },
{
    if is_blank(outbox.aggregate_type.as_str()) {
        return Err(StoreError::Conflict("aggregate_type is required".to_string()));
    }
    if is_blank(outbox.event_type.as_str()) {
        return Err(StoreError::Conflict("event_type is required".to_string()));
    }
    if is_blank(outbox.payload_json.as_str()) {
        return Err(StoreError::Conflict("payload_json is required".to_string()));
    }
    if job.state != IngestionJobState::Running {
        let mut message = "invalid ingestion job transition: ".to_string();
        message.append(job.state.debug_name());
        message.append(" -> Succeeded");
        return Err(StoreError::Conflict(message));
    }
    if outbox.aggregate_id > 9223372036854775807u64 {
        return Err(StoreError::Internal("aggregate_id is out of range".to_string()));
    }
    let mut next = job;
    next.state = IngestionJobState::Succeeded;
    next.error_message = None;
    Ok(next)
}

/// Who a document identity is unique within.
#[derive(Debug, Clone, Copy, PartialEq, Eq, Structural)]
pub enum KnowledgeDocumentIdentityScope {
    Space,
    SourceOnly,
}

/// A source-only identity needs its source.
pub fn validate_document_identity(scope: KnowledgeDocumentIdentityScope, source_id: Option<u64>) -> (result:
    Result<(), StoreError>)
    ensures
        result is Ok <==> !(scope == KnowledgeDocumentIdentityScope::SourceOnly && source_id is None),
        result matches Err(e) ==> e.is_invalid_request(),
{
    if scope == KnowledgeDocumentIdentityScope::SourceOnly && source_id.is_none() {
        return Err(StoreError::InvalidRequest("source_only document identity requires source_id".to_string()));
    }
    Ok(())
}

/// A document title is required.
pub fn validate_document_title(title: &str) -> (result: Result<(), StoreError>)
    ensures
        result is Ok <==> !blank(title@),
        result matches Err(e) ==> e.is_invalid_request(),
{
    if is_blank(title) {
        return Err(StoreError::InvalidRequest("title is required".to_string()));
    }
    Ok(())
}

/// The current version of a document, as the binding rule reads it.
#[derive(Debug, Clone, Copy, PartialEq, Eq, Structural)]
pub struct CurrentVersionInfo {
    /// The current version row is still active.
    pub active: bool,
    pub version_no: u64,
}

/// A new version becomes current unless an active current version is at
/// least as new.
pub open spec fn binds_as_current(current: Option<CurrentVersionInfo>, version_no: u64) -> bool {
    match current {
        None => true,
        Some(c) => !(c.active && c.version_no >= version_no),
    }
}

/// Whether a newly created version becomes the document's current version.
pub fn should_bind_current_version(current: Option<CurrentVersionInfo>, version_no: u64) -> (result:
    bool)
    ensures
        result == binds_as_current(current, version_no),
        current is None ==> result,
        (current matches Some(c) && !c.active) ==> result,
        (current matches Some(c) && c.version_no < version_no) ==> result,
        (current matches Some(c) && c.active && c.version_no >= version_no) ==> !result,
{
    match current {
        None => true,
        Some(c) => !(c.active && c.version_no >= version_no),
    }
}

/// The number a counter hands out next: one more than its current value.
pub open spec fn reserved_after(counter: u64) -> u64 {
    (counter + 1) as u64
}

/// Reserves the next number of a database counter (revision numbers, log
/// sequence numbers): the counter grows by one and its new value is handed
/// out.
pub fn reserve_next_counter(counter: u64) -> (result: Result<u64, StoreError>)
    ensures
        counter < i64::MAX ==> result == Ok::<u64, StoreError>(reserved_after(counter)),
        counter >= i64::MAX ==> (result matches Err(e) && e.is_internal()),
{
    if counter >= 9223372036854775807u64 {
        return Err(StoreError::Internal("counter exceeds signed int64".to_string()));
    }
    Ok(counter + 1)
}

/// Largest batch of page projections looked up at once.
pub const MAX_PROJECTION_BATCH_SIZE: usize = 200;

/// Bounds a batch lookup of page projections.
pub fn validate_projection_batch_size(len: usize) -> (result: Result<(), StoreError>)
    ensures
        result is Ok <==> len <= MAX_PROJECTION_BATCH_SIZE,
        result matches Err(e) ==> e.is_internal(),
{
    if len > MAX_PROJECTION_BATCH_SIZE {
        return Err(StoreError::Internal("logical_paths batch size must be <= 200".to_string()));
    }
    Ok(())
}

/// Law: counter reservations are unique. Each reservation hands out the
/// stored counter, strictly above every number handed out before, so no
/// number is handed out twice.
pub proof fn counter_reservations_increase(counter: u64)
    requires
        counter + 1 < i64::MAX,
    ensures
        reserved_after(counter) > counter,
        reserved_after(reserved_after(counter)) > reserved_after(counter),
        reserved_after(counter) < i64::MAX,
{
}

/// The stored counter after `n` reservations starting from `counter`: each
/// reservation stores what `reserve_next_counter` hands out.
pub open spec fn counter_after(counter: u64, n: nat) -> int
    decreases n,
{
    if n == 0 {
        counter as int
    } else {
        reserved_after(counter_after(counter, (n - 1) as nat) as u64) as int
    }
}

/// Law: successive reservations of one counter hand out consecutive, strictly
/// increasing numbers. The `k`-th reservation (from zero) hands out
/// `counter + k + 1`, so two reservations never hand out the same number.
pub proof fn counter_reservations_are_consecutive(counter: u64, n: nat)
    requires
        counter + n <= i64::MAX,
    ensures
        forall|k: nat| k <= n ==> #[trigger] counter_after(counter, k) == counter + k,
        forall|i: nat, j: nat| i < j <= n ==> #[trigger] counter_after(counter, i) < #[trigger] counter_after(counter, j),
    decreases n,
{
    if n > 0 {
        counter_reservations_are_consecutive(counter, (n - 1) as nat);
        let prev = counter_after(counter, (n - 1) as nat);
        assert(prev == counter + n - 1);
        assert((prev as u64) as int == prev);
        assert(counter_after(counter, n) == counter + n);
    }
}

/// Law: the current version only moves forward. Once an active version is
/// current, an older or equal version never replaces it, and a newer one
/// always does.
pub proof fn current_version_moves_forward(c: CurrentVersionInfo, version_no: u64)
    requires
        c.active,
    ensures
        version_no <= c.version_no ==> !binds_as_current(Some(c), version_no),
        version_no > c.version_no ==> binds_as_current(Some(c), version_no),
{
}

/// Where a stored Drive object lives, as far as it is known.
#[derive(Debug, Clone)]
pub struct DriveBinding {
    pub drive_space_id: Option<String>,
    pub drive_node_id: Option<String>,
    pub logical_path: Option<String>,
}

/// A known location is kept; an unknown one is taken from the request.
pub open spec fn coalesced(existing: Option<String>, requested: Option<String>) -> Option<Seq<char>> {
    match existing {
        Some(e) => Some(e@),
        None => opt_view(requested),
    }
}

fn coalesce(existing: Option<String>, requested: &Option<String>) -> (result: Option<String>)
    ensures
        opt_view(result) == coalesced(existing, *requested),
{
    match existing {
        Some(e) => Some(e),
        None => crate::text::opt_clone(requested),
    }
}

/// Whether enrichment writes anything: some unknown location became known.
pub open spec fn enrichment_needed(existing: DriveBinding, requested: DriveBinding) -> bool {
    (existing.drive_space_id is None && requested.drive_space_id is Some) || (
    existing.drive_node_id is None && requested.drive_node_id is Some) || (
    existing.logical_path is None && requested.logical_path is Some)
}

/// Fills the unknown Drive location of an object reference from a request,
/// never overwriting a known one; reports whether anything changed.
pub fn enrich_drive_binding(existing: DriveBinding, requested: &DriveBinding) -> (result: (
    DriveBinding,
    bool,
))
    ensures
        result.1 == enrichment_needed(existing, *requested),
        opt_view(result.0.drive_space_id) == coalesced(existing.drive_space_id, requested.drive_space_id),
        opt_view(result.0.drive_node_id) == coalesced(existing.drive_node_id, requested.drive_node_id),
        opt_view(result.0.logical_path) == coalesced(existing.logical_path, requested.logical_path),
{
    let changed = (existing.drive_space_id.is_none() && requested.drive_space_id.is_some()) || (
    existing.drive_node_id.is_none() && requested.drive_node_id.is_some()) || (
    existing.logical_path.is_none() && requested.logical_path.is_some());
    let merged = DriveBinding {
        drive_space_id: coalesce(existing.drive_space_id, &requested.drive_space_id),
        drive_node_id: coalesce(existing.drive_node_id, &requested.drive_node_id),
        logical_path: coalesce(existing.logical_path, &requested.logical_path),
    };
    (merged, changed)
}

/// The source Drive node of a document is recorded once: only when the
/// document has none and the request names one.
pub fn document_drive_node_update(current: &Option<String>, requested: Option<&str>) -> (result:
    Option<String>)
    ensures
        result is Some <==> (current is None && requested is Some),
        result matches Some(n) ==> n@ == requested.unwrap()@,
{
    match requested {
        None => None,
        Some(node) => {
            if current.is_some() {
                None
            } else {
                Some(node.to_string())
            }
        },
    }
}

/// Law: enrichment never overwrites and settles at once. A known location is
/// kept, and enriching the result again with the same request changes
/// nothing.
pub proof fn enrichment_is_idempotent(existing: DriveBinding, requested: DriveBinding, merged: DriveBinding)
    requires
        opt_view(merged.drive_space_id) == coalesced(existing.drive_space_id, requested.drive_space_id),
        opt_view(merged.drive_node_id) == coalesced(existing.drive_node_id, requested.drive_node_id),
        opt_view(merged.logical_path) == coalesced(existing.logical_path, requested.logical_path),
    ensures
        !enrichment_needed(merged, requested),
        existing.drive_space_id matches Some(s) ==> opt_view(merged.drive_space_id) == Some(s@),
        existing.drive_node_id matches Some(n) ==> opt_view(merged.drive_node_id) == Some(n@),
        existing.logical_path matches Some(p) ==> opt_view(merged.logical_path) == Some(p@),
{
}

/// The outcome of an insert-first `create_or_get`.
#[derive(Debug, Clone)]
pub enum CreateOrGet<T> {
    /// This call inserted the row.
    Created(T),
    /// A row with the same identity existed (possibly inserted concurrently).
    Existing(T),
}

/// Resolves an insert-first `create_or_get`: the inserted row if the insert
/// took place, else the row that holds the identity. Neither means the
/// unique index refused the insert without a visible winner.
pub fn resolve_create_or_get<T>(inserted: Option<T>, existing: Option<T>) -> (result: Result<
    CreateOrGet<T>,
    StoreError,
>)
    ensures
        inserted matches Some(t) ==> (result matches Ok(CreateOrGet::Created(x)) && x == t),
        (inserted is None && existing is Some) ==> (result matches Ok(CreateOrGet::Existing(x))
            && x == existing.unwrap()),
        (inserted is None && existing is None) ==> (result matches Err(err) && err.is_internal()),
{
    match inserted {
        Some(t) => Ok(CreateOrGet::Created(t)),
        None => match existing {
            Some(e) => Ok(CreateOrGet::Existing(e)),
            None => Err(StoreError::Internal("no rows returned by a query that expected to return at least one row".to_string())),
        },
    }
}

/// What identifies a knowledge source within a space.
#[derive(Debug, Clone)]
pub struct SourceIdentity {
    pub space_id: u64,
    pub source_type: String,
    pub provider: Option<String>,
    pub drive_bucket: Option<String>,
    pub drive_prefix: Option<String>,
}

/// A missing text compares as the empty text (`COALESCE(column, '')`).
pub open spec fn or_empty(o: Option<String>) -> Seq<char> {
    match o {
        Some(s) => s@,
        None => Seq::<char>::empty(),
    }
}

/// Two sources have the same identity.
pub open spec fn same_source(a: SourceIdentity, b: SourceIdentity) -> bool {
    &&& a.space_id == b.space_id
    &&& a.source_type@ == b.source_type@
    &&& or_empty(a.provider) == or_empty(b.provider)
    &&& or_empty(a.drive_bucket) == or_empty(b.drive_bucket)
    &&& or_empty(a.drive_prefix) == or_empty(b.drive_prefix)
}

fn same_or_empty(a: &Option<String>, b: &Option<String>) -> (result: bool)
    ensures
        result == (or_empty(*a) == or_empty(*b)),
{
    proof {
        reveal_strlit("");
    }
    let x: &str = match a {
        Some(s) => s.as_str(),
        None => "",
    };
    let y: &str = match b {
        Some(s) => s.as_str(),
        None => "",
    };
    assert(x@ == or_empty(*a));
    assert(y@ == or_empty(*b));
    str_eq(x, y)
}

/// Whether two sources have the same identity.
pub fn same_source_identity(a: &SourceIdentity, b: &SourceIdentity) -> (result: bool)
    ensures
        result == same_source(*a, *b),
        a.space_id != b.space_id ==> !result,
        a.source_type@ != b.source_type@ ==> !result,
        (a.provider matches Some(x) && b.provider matches Some(y) && x@ != y@) ==> !result,
        (a.drive_bucket matches Some(x) && b.drive_bucket matches Some(y) && x@ != y@) ==> !result,
        (a.drive_prefix matches Some(x) && b.drive_prefix matches Some(y) && x@ != y@) ==> !result,
        (a.space_id == b.space_id && a.source_type@ == b.source_type@ && opt_view(a.provider)
            == opt_view(b.provider) && opt_view(a.drive_bucket) == opt_view(b.drive_bucket)
            && opt_view(a.drive_prefix) == opt_view(b.drive_prefix)) ==> result,
{
    a.space_id == b.space_id && str_eq(a.source_type.as_str(), b.source_type.as_str())
        && same_or_empty(&a.provider, &b.provider) && same_or_empty(
        &a.drive_bucket,
        &b.drive_bucket,
    ) && same_or_empty(&a.drive_prefix, &b.drive_prefix)
}

/// The markdown object of an OKF candidate: the revision's object unless the
/// candidate names its own.
pub fn candidate_markdown_object_ref(candidate_ref_id: u64, revision_ref_id: u64) -> (result: u64)
    ensures
        result == if candidate_ref_id == 0 {
            revision_ref_id
        } else {
            candidate_ref_id
        },
{
    if candidate_ref_id == 0 {
        revision_ref_id
    } else {
        candidate_ref_id
    }
}

/// Law: source identity is an equivalence, so concurrent identical imports
/// resolve to one source.
pub proof fn source_identity_is_an_equivalence(a: SourceIdentity, b: SourceIdentity, c: SourceIdentity)
    ensures
        same_source(a, a),
        same_source(a, b) ==> same_source(b, a),
        same_source(a, b) && same_source(b, c) ==> same_source(a, c),
{
}

/// Law: a source identity separates different sources. Sources of different
/// spaces, different source types, or different providers, Drive buckets or
/// Drive prefixes (both given) are never the same source; sources that agree
/// on every field always are.
pub proof fn source_identity_separates_sources(a: SourceIdentity, b: SourceIdentity)
    ensures
        a.space_id != b.space_id ==> !same_source(a, b),
        a.source_type@ != b.source_type@ ==> !same_source(a, b),
        (a.provider matches Some(x) && b.provider matches Some(y) && x@ != y@) ==> !same_source(a, b),
        (a.drive_bucket matches Some(x) && b.drive_bucket matches Some(y) && x@ != y@) ==> !same_source(a, b),
        (a.drive_prefix matches Some(x) && b.drive_prefix matches Some(y) && x@ != y@) ==> !same_source(a, b),
        (a.space_id == b.space_id && a.source_type@ == b.source_type@ && opt_view(a.provider)
            == opt_view(b.provider) && opt_view(a.drive_bucket) == opt_view(b.drive_bucket)
            && opt_view(a.drive_prefix) == opt_view(b.drive_prefix)) ==> same_source(a, b),
{
}

/// What a repeated job creation does with the active job under its
/// idempotency key: the job answers the request, unchanged and with nothing
/// written, when the job type and (if the request carries one) the
/// fingerprint match; otherwise the request is a conflict.
pub fn existing_job_step(
    existing: IngestionJob,
    existing_fingerprint: Option<&str>,
    requested_job_type: &str,
    requested_fingerprint: Option<&str>,
) -> (result: Result<StoreStep<IngestionJob, ()>, StoreError>)
    ensures
        job_replay_accepted(
            existing.source_type@,
            opt_str_view(existing_fingerprint),
            requested_job_type@,
            opt_str_view(requested_fingerprint),
        ) ==> result == Ok::<StoreStep<IngestionJob, ()>, StoreError>(StoreStep::Reply(existing)),
        !job_replay_accepted(
            existing.source_type@,
            opt_str_view(existing_fingerprint),
            requested_job_type@,
            opt_str_view(requested_fingerprint),
        ) ==> (result matches Err(e) && e.is_conflict()),
{
    validate_existing_job_idempotency(
        existing.source_type.as_str(),
        existing_fingerprint,
        requested_job_type,
        requested_fingerprint,
    )?;
    Ok(StoreStep::Reply(existing))
}

} // verus!
