use vstd::prelude::*;
use crate::error::StoreError;
use vstd::string::StringExecFns;
use vstd::utf8::encode_utf8;
use crate::hashing::{sha256_hash, sha256_of_text};
use crate::json::is_json_text;
use crate::text::{
    is_sha256_reference, opt_view, require_sha256, require_text, sha256_prefix, str_eq, trimmed,
};
use crate::wiki::lifecycle::required_text_ok;
use crate::wiki::model::{require_id, validate_scope, WikiPersistenceScope, WikiPublication};

use crate::store_step::StoreStep;

verus! {

/// Health of the Drive event stream of a publication.
#[derive(Debug, Clone, Copy, PartialEq, Eq, Structural)]
pub enum WikiDriveStreamState {
    Healthy,
    GapDetected,
    Reconciling,
    Failed,
}

impl WikiDriveStreamState {
    /// The text that stands for the kind in the database.
    pub open spec fn spec_code(self) -> Seq<char> {
        match self {
            WikiDriveStreamState::Healthy => seq!['H', 'E', 'A', 'L', 'T', 'H', 'Y'],
            WikiDriveStreamState::GapDetected => seq!['G', 'A', 'P', '_', 'D', 'E', 'T', 'E', 'C', 'T', 'E', 'D'],
            WikiDriveStreamState::Reconciling => seq!['R', 'E', 'C', 'O', 'N', 'C', 'I', 'L', 'I', 'N', 'G'],
            WikiDriveStreamState::Failed => seq!['F', 'A', 'I', 'L', 'E', 'D'],
        }
    }

    /// The database text of the kind.
    pub fn as_str(self) -> (code: &'static str)
        ensures
            code@ == self.spec_code(),
    {
        match self {
            WikiDriveStreamState::Healthy => {
                proof {
                    reveal_strlit("HEALTHY");
                }
                assert("HEALTHY"@ =~= self.spec_code());
                "HEALTHY"
            },
            WikiDriveStreamState::GapDetected => {
                proof {
                    reveal_strlit("GAP_DETECTED");
                }
                assert("GAP_DETECTED"@ =~= self.spec_code());
                "GAP_DETECTED"
            },
            WikiDriveStreamState::Reconciling => {
                proof {
                    reveal_strlit("RECONCILING");
                }
                assert("RECONCILING"@ =~= self.spec_code());
                "RECONCILING"
            },
            WikiDriveStreamState::Failed => {
                proof {
                    reveal_strlit("FAILED");
                }
                assert("FAILED"@ =~= self.spec_code());
                "FAILED"
            },
        }
    }
}

/// Reads a WikiDriveStreamState back from its database text; any other text is an
/// internal error (the database holds a value the domain does not know).
pub fn stream_state_from_str(value: &str) -> (result: Result<WikiDriveStreamState, StoreError>)
    ensures
        match result {
            Ok(kind) => kind.spec_code() == value@,
            Err(e) => e.is_internal() && forall|kind: WikiDriveStreamState| kind.spec_code() != value@,
        },
        forall|kind: WikiDriveStreamState| kind.spec_code() == value@ ==> result == Ok::<WikiDriveStreamState, StoreError>(kind),
{
    proof {
        reveal_strlit("HEALTHY");
    }
    if str_eq(value, "HEALTHY") {
        assert(value@ =~= WikiDriveStreamState::Healthy.spec_code());
        return Ok(WikiDriveStreamState::Healthy);
    }
    proof {
        reveal_strlit("GAP_DETECTED");
    }
    if str_eq(value, "GAP_DETECTED") {
        assert(value@ =~= WikiDriveStreamState::GapDetected.spec_code());
        return Ok(WikiDriveStreamState::GapDetected);
    }
    proof {
        reveal_strlit("RECONCILING");
    }
    if str_eq(value, "RECONCILING") {
        assert(value@ =~= WikiDriveStreamState::Reconciling.spec_code());
        return Ok(WikiDriveStreamState::Reconciling);
    }
    proof {
        reveal_strlit("FAILED");
    }
    if str_eq(value, "FAILED") {
        assert(value@ =~= WikiDriveStreamState::Failed.spec_code());
        return Ok(WikiDriveStreamState::Failed);
    }
    proof {
        assert forall|kind: WikiDriveStreamState| kind.spec_code() != value@ by {
            match kind {
                WikiDriveStreamState::Healthy => {
                    assert("HEALTHY"@ =~= kind.spec_code());
                },
                WikiDriveStreamState::GapDetected => {
                    assert("GAP_DETECTED"@ =~= kind.spec_code());
                },
                WikiDriveStreamState::Reconciling => {
                    assert("RECONCILING"@ =~= kind.spec_code());
                },
                WikiDriveStreamState::Failed => {
                    assert("FAILED"@ =~= kind.spec_code());
                },
            }
        }
    }
    Err(StoreError::Internal(crate::text::message_with("database returned unsupported stream_state value ", value)))
}

/// Processing state of a Drive event in the inbox.
#[derive(Debug, Clone, Copy, PartialEq, Eq, Structural)]
pub enum WikiDriveEventProcessingState {
    Received,
    Deferred,
    Retry,
    Applied,
    Ignored,
    DeadLetter,
}

impl WikiDriveEventProcessingState {
    /// The text that stands for the kind in the database.
    pub open spec fn spec_code(self) -> Seq<char> {
        match self {
            WikiDriveEventProcessingState::Received => seq!['R', 'E', 'C', 'E', 'I', 'V', 'E', 'D'],
            WikiDriveEventProcessingState::Deferred => seq!['D', 'E', 'F', 'E', 'R', 'R', 'E', 'D'],
            WikiDriveEventProcessingState::Retry => seq!['R', 'E', 'T', 'R', 'Y'],
            WikiDriveEventProcessingState::Applied => seq!['A', 'P', 'P', 'L', 'I', 'E', 'D'],
            WikiDriveEventProcessingState::Ignored => seq!['I', 'G', 'N', 'O', 'R', 'E', 'D'],
            WikiDriveEventProcessingState::DeadLetter => seq!['D', 'E', 'A', 'D', '_', 'L', 'E', 'T', 'T', 'E', 'R'],
        }
    }

    /// The database text of the kind.
    pub fn as_str(self) -> (code: &'static str)
        ensures
            code@ == self.spec_code(),
    {
        match self {
            WikiDriveEventProcessingState::Received => {
                proof {
                    reveal_strlit("RECEIVED");
                }
                assert("RECEIVED"@ =~= self.spec_code());
                "RECEIVED"
            },
            WikiDriveEventProcessingState::Deferred => {
                proof {
                    reveal_strlit("DEFERRED");
                }
                assert("DEFERRED"@ =~= self.spec_code());
                "DEFERRED"
            },
            WikiDriveEventProcessingState::Retry => {
                proof {
                    reveal_strlit("RETRY");
                }
                assert("RETRY"@ =~= self.spec_code());
                "RETRY"
            },
            WikiDriveEventProcessingState::Applied => {
                proof {
                    reveal_strlit("APPLIED");
                }
                assert("APPLIED"@ =~= self.spec_code());
                "APPLIED"
            },
            WikiDriveEventProcessingState::Ignored => {
                proof {
                    reveal_strlit("IGNORED");
                }
                assert("IGNORED"@ =~= self.spec_code());
                "IGNORED"
            },
            WikiDriveEventProcessingState::DeadLetter => {
                proof {
                    reveal_strlit("DEAD_LETTER");
                }
                assert("DEAD_LETTER"@ =~= self.spec_code());
                "DEAD_LETTER"
            },
        }
    }
}

/// Reads a WikiDriveEventProcessingState back from its database text; any other text is an
/// internal error (the database holds a value the domain does not know).
pub fn processing_state_from_str(value: &str) -> (result: Result<WikiDriveEventProcessingState, StoreError>)
    ensures
        match result {
            Ok(kind) => kind.spec_code() == value@,
            Err(e) => e.is_internal() && forall|kind: WikiDriveEventProcessingState| kind.spec_code() != value@,
        },
        forall|kind: WikiDriveEventProcessingState| kind.spec_code() == value@ ==> result == Ok::<WikiDriveEventProcessingState, StoreError>(kind),
{
    proof {
        reveal_strlit("RECEIVED");
    }
    if str_eq(value, "RECEIVED") {
        assert(value@ =~= WikiDriveEventProcessingState::Received.spec_code());
        return Ok(WikiDriveEventProcessingState::Received);
    }
    proof {
        reveal_strlit("DEFERRED");
    }
    if str_eq(value, "DEFERRED") {
        assert(value@ =~= WikiDriveEventProcessingState::Deferred.spec_code());
        return Ok(WikiDriveEventProcessingState::Deferred);
    }
    proof {
        reveal_strlit("RETRY");
    }
    if str_eq(value, "RETRY") {
        assert(value@ =~= WikiDriveEventProcessingState::Retry.spec_code());
        return Ok(WikiDriveEventProcessingState::Retry);
    }
    proof {
        reveal_strlit("APPLIED");
    }
    if str_eq(value, "APPLIED") {
        assert(value@ =~= WikiDriveEventProcessingState::Applied.spec_code());
        return Ok(WikiDriveEventProcessingState::Applied);
    }
    proof {
        reveal_strlit("IGNORED");
    }
    if str_eq(value, "IGNORED") {
        assert(value@ =~= WikiDriveEventProcessingState::Ignored.spec_code());
        return Ok(WikiDriveEventProcessingState::Ignored);
    }
    proof {
        reveal_strlit("DEAD_LETTER");
    }
    if str_eq(value, "DEAD_LETTER") {
        assert(value@ =~= WikiDriveEventProcessingState::DeadLetter.spec_code());
        return Ok(WikiDriveEventProcessingState::DeadLetter);
    }
    proof {
        assert forall|kind: WikiDriveEventProcessingState| kind.spec_code() != value@ by {
            match kind {
                WikiDriveEventProcessingState::Received => {
                    assert("RECEIVED"@ =~= kind.spec_code());
                },
                WikiDriveEventProcessingState::Deferred => {
                    assert("DEFERRED"@ =~= kind.spec_code());
                },
                WikiDriveEventProcessingState::Retry => {
                    assert("RETRY"@ =~= kind.spec_code());
                },
                WikiDriveEventProcessingState::Applied => {
                    assert("APPLIED"@ =~= kind.spec_code());
                },
                WikiDriveEventProcessingState::Ignored => {
                    assert("IGNORED"@ =~= kind.spec_code());
                },
                WikiDriveEventProcessingState::DeadLetter => {
                    assert("DEAD_LETTER"@ =~= kind.spec_code());
                },
            }
        }
    }
    Err(StoreError::Internal(crate::text::message_with("database returned unsupported processing_state value ", value)))
}

/// How a received Drive event was taken in.
#[derive(Debug, Clone, Copy, PartialEq, Eq, Structural)]
pub enum WikiDriveEventReceiveDisposition {
    /// The next event of the stream: ready to apply.
    Ready,
    /// An event beyond the next one: deferred until the gap closes.
    DeferredGap,
    /// An event at or behind the checkpoint: ignored.
    IgnoredStale,
    /// The same event was received before.
    Duplicate,
}

/// The Drive event checkpoint of a publication (`kb_drive_source_checkpoint`).
#[derive(Debug, Clone)]
pub struct WikiDriveCheckpoint {
    pub id: u64,
    pub uuid: String,
    pub scope: WikiPersistenceScope,
    pub site_publication_id: u64,
    pub drive_space_uuid: String,
    pub source_scope_uuid: String,
    pub last_sequence_no: u64,
    pub last_event_id: Option<String>,
    pub stream_state: WikiDriveStreamState,
    pub gap_from_sequence_no: Option<u64>,
    pub gap_to_sequence_no: Option<u64>,
    pub reconciliation_cursor: Option<String>,
    pub lease_token: Option<String>,
    pub fence_token: u64,
    pub version: u64,
}

/// A Drive event in the inbox (`kb_drive_event_inbox`).
#[derive(Debug, Clone)]
pub struct WikiDriveInboxEvent {
    pub id: u64,
    pub uuid: String,
    pub scope: WikiPersistenceScope,
    pub site_publication_id: u64,
    pub checkpoint_id: u64,
    pub source_event_id: String,
    pub event_type: String,
    pub sequence_no: u64,
    pub drive_node_uuid: String,
    pub drive_version_uuid: Option<String>,
    pub payload_sha256: String,
    pub payload_json: String,
    pub source_event_time: String,
    pub processing_state: WikiDriveEventProcessingState,
    pub attempt_count: u32,
    pub lease_token: Option<String>,
    pub version: u64,
}

/// A Drive event handed to the inbox.
#[derive(Debug, Clone)]
pub struct ReceiveWikiDriveEventRequest {
    pub scope: WikiPersistenceScope,
    pub site_publication_id: u64,
    pub checkpoint_id: u64,
    pub source_event_id: String,
    pub event_type: String,
    pub sequence_no: u64,
    pub drive_node_uuid: String,
    pub drive_version_uuid: Option<String>,
    pub payload_sha256: String,
    pub payload_json: String,
    pub source_event_time: String,
}

/// The checkpoint invariant: a gap has both ends or none, lies after the
/// last applied sequence, and a stream with a gap is not healthy.
pub open spec fn checkpoint_consistent(c: WikiDriveCheckpoint) -> bool {
    &&& (c.gap_from_sequence_no is Some <==> c.gap_to_sequence_no is Some)
    &&& (c.gap_from_sequence_no matches Some(from) ==> c.last_sequence_no < from
        <= c.gap_to_sequence_no.unwrap())
    &&& (c.gap_from_sequence_no is Some ==> c.stream_state != WikiDriveStreamState::Healthy)
}

/// Counters of a checkpoint fit the signed BIGINT columns.
pub open spec fn checkpoint_wf(c: WikiDriveCheckpoint) -> bool {
    c.version <= i64::MAX && c.fence_token <= i64::MAX && c.last_sequence_no <= i64::MAX
}

/// A trimmed optional text.
pub open spec fn opt_trimmed(o: Option<String>) -> Option<Seq<char>> {
    match o {
        Some(s) => Some(trimmed(s@)),
        None => None,
    }
}

/// The stored event is the request received again: same publication,
/// checkpoint, identifiers (compared trimmed), type, sequence, payload and
/// time.
pub open spec fn replay_matches(e: WikiDriveInboxEvent, r: ReceiveWikiDriveEventRequest) -> bool {
    &&& e.site_publication_id == r.site_publication_id
    &&& e.checkpoint_id == r.checkpoint_id
    &&& e.source_event_id@ == trimmed(r.source_event_id@)
    &&& e.event_type@ == r.event_type@
    &&& e.sequence_no == r.sequence_no
    &&& e.drive_node_uuid@ == trimmed(r.drive_node_uuid@)
    &&& opt_view(e.drive_version_uuid) == opt_trimmed(r.drive_version_uuid)
    &&& e.payload_sha256@ == r.payload_sha256@
    &&& e.payload_json@ == r.payload_json@
    &&& e.source_event_time@ == r.source_event_time@
}

/// Whether a stored event is a redelivery of a request.
pub fn event_matches_replay(event: &WikiDriveInboxEvent, request: &ReceiveWikiDriveEventRequest) -> (result:
    bool)
    ensures
        result == replay_matches(*event, *request),
        result ==> (event.site_publication_id == request.site_publication_id && event.checkpoint_id
            == request.checkpoint_id && event.sequence_no == request.sequence_no),
        result ==> (event.source_event_id@ == trimmed(request.source_event_id@) && event.event_type@
            == request.event_type@ && event.drive_node_uuid@ == trimmed(request.drive_node_uuid@)),
        result ==> (event.payload_sha256@ == request.payload_sha256@ && event.payload_json@
            == request.payload_json@ && event.source_event_time@ == request.source_event_time@),
        result ==> opt_view(event.drive_version_uuid) == opt_trimmed(request.drive_version_uuid),
{
    let version_matches = match (&event.drive_version_uuid, &request.drive_version_uuid) {
        (Some(a), Some(b)) => str_eq(a.as_str(), crate::text::trim(b.as_str())),
        (None, None) => true,
        _ => false,
    };
    event.site_publication_id == request.site_publication_id && event.checkpoint_id
        == request.checkpoint_id && str_eq(
        event.source_event_id.as_str(),
        crate::text::trim(request.source_event_id.as_str()),
    ) && str_eq(event.event_type.as_str(), request.event_type.as_str()) && event.sequence_no
        == request.sequence_no && str_eq(
        event.drive_node_uuid.as_str(),
        crate::text::trim(request.drive_node_uuid.as_str()),
    ) && version_matches && str_eq(event.payload_sha256.as_str(), request.payload_sha256.as_str())
        && str_eq(event.payload_json.as_str(), request.payload_json.as_str()) && str_eq(
        event.source_event_time.as_str(),
        request.source_event_time.as_str(),
    )
}

/// How a received event is taken in.
#[derive(Debug, Clone, Copy, PartialEq, Eq, Structural)]
pub struct ReceivePlan {
    pub disposition: WikiDriveEventReceiveDisposition,
    /// The state of the inbox row to insert (unused for duplicates).
    pub processing_state: WikiDriveEventProcessingState,
}

/// The classification of a new event by its sequence number.
pub open spec fn classify_sequence(last: u64, seq: u64) -> ReceivePlan {
    if seq <= last {
        ReceivePlan {
            disposition: WikiDriveEventReceiveDisposition::IgnoredStale,
            processing_state: WikiDriveEventProcessingState::Ignored,
        }
    } else if seq == last + 1 {
        ReceivePlan {
            disposition: WikiDriveEventReceiveDisposition::Ready,
            processing_state: WikiDriveEventProcessingState::Received,
        }
    } else {
        ReceivePlan {
            disposition: WikiDriveEventReceiveDisposition::DeferredGap,
            processing_state: WikiDriveEventProcessingState::Deferred,
        }
    }
}

/// The message of an event id or sequence reused with another payload.
pub open spec fn reused_event_message(source_event_id: Seq<char>, sequence_no: u64) -> Seq<char> {
    "Drive event ID "@ + source_event_id + " or sequence "@ + crate::group::fingerprint::decimal(
        sequence_no as nat,
    ) + " was reused with a different payload"@
}

/// Decides how the inbox takes in an event, from the event's checkpoint and
/// the inbox row with the same event id or sequence, if any.
pub fn plan_receive_event(
    checkpoint: &WikiDriveCheckpoint,
    request: &ReceiveWikiDriveEventRequest,
    existing: Option<&WikiDriveInboxEvent>,
) -> (result: Result<ReceivePlan, StoreError>)
    ensures
        checkpoint.site_publication_id != request.site_publication_id ==> (result matches Err(e)
            && e.is_conflict()),
        checkpoint.site_publication_id == request.site_publication_id ==> match existing {
            Some(e) => if replay_matches(*e, *request) {
                result == Ok::<ReceivePlan, StoreError>(
                    ReceivePlan {
                        disposition: WikiDriveEventReceiveDisposition::Duplicate,
                        processing_state: e.processing_state,
                    },
                )
            } else {
                result matches Err(StoreError::Conflict(m)) && m@ == reused_event_message(
                    request.source_event_id@,
                    request.sequence_no,
                )
            },
            None => if checkpoint.last_sequence_no == u64::MAX {
                result matches Err(err) && err.is_internal()
            } else if request.sequence_no > i64::MAX {
                result matches Err(err) && err.is_invalid_request()
            } else {
                result == Ok::<ReceivePlan, StoreError>(
                    classify_sequence(checkpoint.last_sequence_no, request.sequence_no),
                )
            },
        },
{
    if checkpoint.site_publication_id != request.site_publication_id {
        return Err(StoreError::Conflict("inbox event publication does not match its checkpoint".to_string()));
    }
    if let Some(event) = existing {
        if event_matches_replay(event, request) {
            return Ok(
                ReceivePlan {
                    disposition: WikiDriveEventReceiveDisposition::Duplicate,
                    processing_state: event.processing_state,
                },
            );
        }
        let mut message = "Drive event ID ".to_string();
        message.append(request.source_event_id.as_str());
        message.append(" or sequence ");
        let digits = crate::group::fingerprint::decimal_text(request.sequence_no);
        message.append(digits.as_str());
        message.append(" was reused with a different payload");
        return Err(StoreError::Conflict(message));
    }
    if checkpoint.last_sequence_no == u64::MAX {
        return Err(StoreError::Internal("Drive sequence overflow".to_string()));
    }
    let next_sequence = checkpoint.last_sequence_no + 1;
    if request.sequence_no > 9223372036854775807u64 {
        return Err(StoreError::InvalidRequest("sequence_no exceeds signed int64".to_string()));
    }
    if request.sequence_no <= checkpoint.last_sequence_no {
        Ok(
            ReceivePlan {
                disposition: WikiDriveEventReceiveDisposition::IgnoredStale,
                processing_state: WikiDriveEventProcessingState::Ignored,
            },
        )
    } else if request.sequence_no == next_sequence {
        Ok(
            ReceivePlan {
                disposition: WikiDriveEventReceiveDisposition::Ready,
                processing_state: WikiDriveEventProcessingState::Received,
            },
        )
    } else {
        Ok(
            ReceivePlan {
                disposition: WikiDriveEventReceiveDisposition::DeferredGap,
                processing_state: WikiDriveEventProcessingState::Deferred,
            },
        )
    }
}

/// What the inbox does with a delivery: a redelivery of a stored event is
/// answered with that event as a duplicate and writes nothing; a new event is
/// inserted (and a gap recorded) as its plan says.
pub fn receive_step(
    checkpoint: &WikiDriveCheckpoint,
    request: &ReceiveWikiDriveEventRequest,
    existing: Option<WikiDriveInboxEvent>,
) -> (result: Result<
    StoreStep<(WikiDriveInboxEvent, WikiDriveEventReceiveDisposition), ReceivePlan>,
    StoreError,
>)
    ensures
        checkpoint.site_publication_id != request.site_publication_id ==> (result matches Err(e)
            && e.is_conflict()),
        checkpoint.site_publication_id == request.site_publication_id ==> match existing {
            Some(e) => if replay_matches(e, *request) {
                result == Ok::<
                    StoreStep<(WikiDriveInboxEvent, WikiDriveEventReceiveDisposition), ReceivePlan>,
                    StoreError,
                >(StoreStep::Reply((e, WikiDriveEventReceiveDisposition::Duplicate)))
            } else {
                result matches Err(StoreError::Conflict(m)) && m@ == reused_event_message(
                    request.source_event_id@,
                    request.sequence_no,
                )
            },
            None => if checkpoint.last_sequence_no == u64::MAX {
                result matches Err(err) && err.is_internal()
            } else if request.sequence_no > i64::MAX {
                result matches Err(err) && err.is_invalid_request()
            } else {
                result == Ok::<
                    StoreStep<(WikiDriveInboxEvent, WikiDriveEventReceiveDisposition), ReceivePlan>,
                    StoreError,
                >(StoreStep::Write(classify_sequence(checkpoint.last_sequence_no, request.sequence_no)))
            },
        },
{
    let plan = plan_receive_event(checkpoint, request, existing.as_ref())?;
    match existing {
        Some(e) => Ok(StoreStep::Reply((e, WikiDriveEventReceiveDisposition::Duplicate))),
        None => Ok(StoreStep::Write(plan)),
    }
}

/// The checkpoint once a deferred event widened the recorded gap.
pub open spec fn gap_recorded(c: WikiDriveCheckpoint, seq: u64) -> WikiDriveCheckpoint {
    let next = (c.last_sequence_no + 1) as u64;
    let upto = (seq - 1) as u64;
    WikiDriveCheckpoint {
        stream_state: if c.stream_state == WikiDriveStreamState::Reconciling {
            WikiDriveStreamState::Reconciling
        } else {
            WikiDriveStreamState::GapDetected
        },
        gap_from_sequence_no: Some(
            match c.gap_from_sequence_no {
                Some(f) => if f < next {
                    f
                } else {
                    next
                },
                None => next,
            },
        ),
        gap_to_sequence_no: Some(
            match c.gap_to_sequence_no {
                Some(t) => if t > upto {
                    t
                } else {
                    upto
                },
                None => upto,
            },
        ),
        version: (c.version + 1) as u64,
        ..c
    }
}

/// Records the gap that a deferred event reveals.
pub fn record_sequence_gap(checkpoint: WikiDriveCheckpoint, sequence_no: u64) -> (result:
    WikiDriveCheckpoint)
    requires
        checkpoint_wf(checkpoint),
        sequence_no > checkpoint.last_sequence_no + 1,
    ensures
        result == gap_recorded(checkpoint, sequence_no),
        result.gap_from_sequence_no is Some && result.gap_to_sequence_no is Some,
        result.gap_to_sequence_no.unwrap() >= sequence_no - 1,
        checkpoint.gap_to_sequence_no matches Some(t) ==> result.gap_to_sequence_no.unwrap() >= t,
        result.gap_to_sequence_no.unwrap() == sequence_no - 1 || result.gap_to_sequence_no
            == checkpoint.gap_to_sequence_no,
        result.gap_from_sequence_no.unwrap() <= checkpoint.last_sequence_no + 1,
        checkpoint.gap_from_sequence_no matches Some(f) ==> result.gap_from_sequence_no.unwrap() <= f,
        result.gap_from_sequence_no.unwrap() == checkpoint.last_sequence_no + 1
            || result.gap_from_sequence_no == checkpoint.gap_from_sequence_no,
        result.last_sequence_no == checkpoint.last_sequence_no,
        result.stream_state != WikiDriveStreamState::Healthy,
{
    let next_sequence = checkpoint.last_sequence_no + 1;
    let requested_gap_to = sequence_no - 1;
    let mut next = checkpoint;
    if next.stream_state != WikiDriveStreamState::Reconciling {
        next.stream_state = WikiDriveStreamState::GapDetected;
    }
    next.gap_from_sequence_no = Some(
        match next.gap_from_sequence_no {
            Some(existing) => if existing < next_sequence {
                existing
            } else {
                next_sequence
            },
            None => next_sequence,
        },
    );
    next.gap_to_sequence_no = Some(
        match next.gap_to_sequence_no {
            Some(existing) => if existing > requested_gap_to {
                existing
            } else {
                requested_gap_to
            },
            None => requested_gap_to,
        },
    );
    next.version = next.version + 1;
    next
}

/// The checkpoint once the next event of the stream was applied.
pub open spec fn event_completed(c: WikiDriveCheckpoint, e: WikiDriveInboxEvent) -> WikiDriveCheckpoint {
    let gap_remains = c.gap_to_sequence_no matches Some(t) && t > e.sequence_no;
    WikiDriveCheckpoint {
        last_sequence_no: e.sequence_no,
        last_event_id: Some(e.source_event_id),
        stream_state: if gap_remains {
            WikiDriveStreamState::GapDetected
        } else {
            WikiDriveStreamState::Healthy
        },
        gap_from_sequence_no: if gap_remains {
            Some((e.sequence_no + 1) as u64)
        } else {
            None
        },
        gap_to_sequence_no: if gap_remains {
            c.gap_to_sequence_no
        } else {
            None
        },
        version: (c.version + 1) as u64,
        ..c
    }
}

/// Advances the checkpoint over the event its lease holder applied; only the
/// next event of the stream can advance it.
pub fn complete_event_checkpoint(checkpoint: WikiDriveCheckpoint, event: &WikiDriveInboxEvent) -> (result:
    Result<WikiDriveCheckpoint, StoreError>)
    requires
        checkpoint_wf(checkpoint),
    ensures
        checkpoint.last_sequence_no == u64::MAX ==> (result matches Err(e) && e.is_internal()),
        checkpoint.last_sequence_no < u64::MAX && event.sequence_no != checkpoint.last_sequence_no
            + 1 ==> (result matches Err(e) && e.is_conflict()),
        checkpoint.last_sequence_no < u64::MAX && event.sequence_no == checkpoint.last_sequence_no
            + 1 ==> result == Ok::<WikiDriveCheckpoint, StoreError>(
            event_completed(checkpoint, *event),
        ),
        result matches Ok(c) ==> c.last_sequence_no == event.sequence_no && c.last_sequence_no
            == checkpoint.last_sequence_no + 1,
        result matches Ok(c) ==> (c.stream_state == WikiDriveStreamState::Healthy <==> !(
        checkpoint.gap_to_sequence_no matches Some(t) && t > event.sequence_no)),
        result matches Ok(c) ==> ((checkpoint.gap_to_sequence_no matches Some(t) && t
            > event.sequence_no) ==> (c.gap_from_sequence_no == Some((event.sequence_no + 1) as u64)
            && c.gap_to_sequence_no == checkpoint.gap_to_sequence_no)),
        result matches Ok(c) ==> (c.stream_state == WikiDriveStreamState::Healthy ==> (
        c.gap_from_sequence_no is None && c.gap_to_sequence_no is None)),
{
    if checkpoint.last_sequence_no == u64::MAX {
        return Err(StoreError::Internal("Drive sequence overflow".to_string()));
    }
    let expected_sequence = checkpoint.last_sequence_no + 1;
    if event.sequence_no != expected_sequence {
        let mut message = crate::text::message_with_u64("Drive inbox event sequence ", event.sequence_no);
        message.append(" cannot advance checkpoint sequence ");
        let last = crate::group::fingerprint::decimal_text(checkpoint.last_sequence_no);
        message.append(last.as_str());
        return Err(StoreError::Conflict(message));
    }
    let gap_remains = match checkpoint.gap_to_sequence_no {
        Some(gap_to) => gap_to > event.sequence_no,
        None => false,
    };
    let mut next = checkpoint;
    next.last_sequence_no = event.sequence_no;
    next.last_event_id = Some(event.source_event_id.clone());
    if gap_remains {
        next.stream_state = WikiDriveStreamState::GapDetected;
        next.gap_from_sequence_no = Some(event.sequence_no + 1);
    } else {
        next.stream_state = WikiDriveStreamState::Healthy;
        next.gap_from_sequence_no = None;
        next.gap_to_sequence_no = None;
    }
    next.version = next.version + 1;
    Ok(next)
}

/// The inbox event once applied: its lease is released.
pub open spec fn event_applied(e: WikiDriveInboxEvent) -> WikiDriveInboxEvent {
    WikiDriveInboxEvent {
        processing_state: WikiDriveEventProcessingState::Applied,
        lease_token: None,
        version: (e.version + 1) as u64,
        ..e
    }
}

/// Marks an inbox event applied.
pub fn apply_inbox_event(event: WikiDriveInboxEvent) -> (result: WikiDriveInboxEvent)
    requires
        event.version <= i64::MAX,
    ensures
        result == event_applied(event),
        result.processing_state == WikiDriveEventProcessingState::Applied,
        result.lease_token is None,
        result.version == event.version + 1,
        result.sequence_no == event.sequence_no && result.id == event.id,
        result.attempt_count == event.attempt_count,
{
    let mut next = event;
    next.processing_state = WikiDriveEventProcessingState::Applied;
    next.lease_token = None;
    next.version = next.version + 1;
    next
}

/// The publication once it projected a newer Drive checkpoint.
pub open spec fn checkpoint_projected(p: WikiPublication, seq: u64) -> WikiPublication {
    WikiPublication { last_projected_drive_checkpoint: seq, version: (p.version + 1) as u64, ..p }
}

/// Moves the projected checkpoint of a publication forward; an event
/// completion must move it exactly once.
pub fn advance_projected_checkpoint(publication: WikiPublication, sequence_no: u64) -> (result:
    Result<WikiPublication, StoreError>)
    requires
        publication.version <= i64::MAX,
    ensures
        publication.last_projected_drive_checkpoint < sequence_no ==> result == Ok::<
            WikiPublication,
            StoreError,
        >(checkpoint_projected(publication, sequence_no)),
        publication.last_projected_drive_checkpoint >= sequence_no ==> (result matches Err(e)
            && e.is_conflict()),
{
    if publication.last_projected_drive_checkpoint >= sequence_no {
        return Err(StoreError::Conflict("Wiki publication checkpoint did not advance exactly once".to_string()));
    }
    let mut next = publication;
    next.last_projected_drive_checkpoint = sequence_no;
    next.version = next.version + 1;
    Ok(next)
}

/// A state the claim and retry workflows act on.
pub open spec fn is_pending_state(s: WikiDriveEventProcessingState) -> bool {
    s == WikiDriveEventProcessingState::Received || s == WikiDriveEventProcessingState::Retry || s
        == WikiDriveEventProcessingState::Deferred
}

/// An event a worker can claim: the next of its stream, pending, due for a
/// retry and not leased (`retry_due` and `lease_free` are read against the
/// clock by the caller).
pub open spec fn event_claimable(e: WikiDriveInboxEvent, c: WikiDriveCheckpoint, retry_due: bool, lease_free: bool) -> bool {
    &&& e.sequence_no == c.last_sequence_no + 1
    &&& is_pending_state(e.processing_state)
    &&& retry_due
    &&& lease_free
}

/// Whether a worker can claim an event now.
pub fn is_event_claimable(
    event: &WikiDriveInboxEvent,
    checkpoint: &WikiDriveCheckpoint,
    retry_due: bool,
    lease_free: bool,
) -> (result: bool)
    ensures
        result == event_claimable(*event, *checkpoint, retry_due, lease_free),
        result <==> (event.sequence_no == checkpoint.last_sequence_no + 1 && retry_due && lease_free && (
        event.processing_state == WikiDriveEventProcessingState::Received || event.processing_state
            == WikiDriveEventProcessingState::Retry || event.processing_state
            == WikiDriveEventProcessingState::Deferred)),
{
    let pending = match event.processing_state {
        WikiDriveEventProcessingState::Received | WikiDriveEventProcessingState::Retry
        | WikiDriveEventProcessingState::Deferred => true,
        _ => false,
    };
    checkpoint.last_sequence_no < u64::MAX && event.sequence_no == checkpoint.last_sequence_no + 1
        && pending && retry_due && lease_free
}

/// The event once claimed by a worker.
pub open spec fn event_claimed(e: WikiDriveInboxEvent, token: String) -> WikiDriveInboxEvent {
    WikiDriveInboxEvent {
        processing_state: WikiDriveEventProcessingState::Received,
        attempt_count: (e.attempt_count + 1) as u32,
        lease_token: Some(token),
        version: (e.version + 1) as u64,
        ..e
    }
}

/// Claims a pending event with the worker's lease token.
pub fn claim_inbox_event(event: WikiDriveInboxEvent, lease_token: String) -> (result: Option<
    WikiDriveInboxEvent,
>)
    requires
        event.version <= i64::MAX,
        event.attempt_count <= i32::MAX,
    ensures
        result is Some <==> is_pending_state(event.processing_state),
        result matches Some(e) ==> e == event_claimed(event, lease_token),
        result matches Some(e) ==> (e.lease_token == Some(lease_token) && e.attempt_count == event.attempt_count
            + 1 && e.version == event.version + 1 && e.sequence_no == event.sequence_no),
        (event.processing_state == WikiDriveEventProcessingState::Applied || event.processing_state
            == WikiDriveEventProcessingState::Ignored) ==> result is None,
{
    match event.processing_state {
        WikiDriveEventProcessingState::Received | WikiDriveEventProcessingState::Retry
        | WikiDriveEventProcessingState::Deferred => {},
        _ => {
            return None;
        },
    }
    let mut next = event;
    next.processing_state = WikiDriveEventProcessingState::Received;
    next.attempt_count = next.attempt_count + 1;
    next.lease_token = Some(lease_token);
    next.version = next.version + 1;
    Some(next)
}

/// The event once its lease holder asked for a retry: dead-lettered when it
/// used up its attempts.
pub open spec fn event_retried(e: WikiDriveInboxEvent, max_attempts: u32) -> WikiDriveInboxEvent {
    WikiDriveInboxEvent {
        processing_state: if e.attempt_count >= max_attempts {
            WikiDriveEventProcessingState::DeadLetter
        } else {
            WikiDriveEventProcessingState::Retry
        },
        lease_token: None,
        version: (e.version + 1) as u64,
        ..e
    }
}

/// The retry request a lease holder sends.
pub open spec fn retry_request_ok(
    lease_token: Seq<char>,
    error_code: Seq<char>,
    error_summary: Seq<char>,
    max_attempts: u32,
    retry_delay_seconds: u64,
) -> bool {
    &&& crate::wiki::lifecycle::required_text_ok(lease_token, 128)
    &&& crate::wiki::lifecycle::required_text_ok(error_code, 128)
    &&& crate::wiki::lifecycle::required_text_ok(error_summary, 1024)
    &&& 1 <= max_attempts <= 100
    &&& 1 <= retry_delay_seconds <= 86400
}

/// Schedules a retry of an event for its lease holder.
pub fn retry_inbox_event(
    event: WikiDriveInboxEvent,
    lease_token: &str,
    error_code: &str,
    error_summary: &str,
    max_attempts: u32,
    retry_delay_seconds: u64,
) -> (result: Result<WikiDriveInboxEvent, StoreError>)
    requires
        event.version <= i64::MAX,
    ensures
        !retry_request_ok(lease_token@, error_code@, error_summary@, max_attempts, retry_delay_seconds)
            ==> (result matches Err(e) && e.is_invalid_request()),
        retry_request_ok(lease_token@, error_code@, error_summary@, max_attempts, retry_delay_seconds)
            ==> if opt_view(event.lease_token) == Some(trimmed(lease_token@)) && is_pending_state(
            event.processing_state,
        ) {
            result == Ok::<WikiDriveInboxEvent, StoreError>(event_retried(event, max_attempts))
        } else {
            result matches Err(e) && e.is_conflict()
        },
{
    let token = require_text("lease_token", lease_token, 128)?;
    require_text("error_code", error_code, 128)?;
    require_text("error_summary", error_summary, 1024)?;
    if max_attempts == 0 || max_attempts > 100 {
        return Err(StoreError::InvalidRequest("max_attempts must be between 1 and 100".to_string()));
    }
    if retry_delay_seconds == 0 || retry_delay_seconds > 86400 {
        return Err(StoreError::InvalidRequest("retry_delay_seconds must be between 1 and 86400".to_string()));
    }
    let held = crate::text::opt_eq_str(&event.lease_token, token);
    let pending = match event.processing_state {
        WikiDriveEventProcessingState::Received | WikiDriveEventProcessingState::Retry
        | WikiDriveEventProcessingState::Deferred => true,
        _ => false,
    };
    if !held || !pending {
        let mut message = crate::text::message_with_u64("Drive inbox event ", event.id);
        message.append(" retry lease is stale");
        return Err(StoreError::Conflict(message));
    }
    let mut next = event;
    next.processing_state = if next.attempt_count >= max_attempts {
        WikiDriveEventProcessingState::DeadLetter
    } else {
        WikiDriveEventProcessingState::Retry
    };
    next.lease_token = None;
    next.version = next.version + 1;
    Ok(next)
}

/// Law: the checkpoint invariant holds across the stream. Recording a gap and
/// applying the next event keep a consistent checkpoint consistent.
pub proof fn stream_keeps_checkpoint_consistent(c: WikiDriveCheckpoint, e: WikiDriveInboxEvent, seq: u64)
    requires
        checkpoint_consistent(c),
        c.last_sequence_no < u64::MAX,
    ensures
        seq > c.last_sequence_no + 1 ==> checkpoint_consistent(gap_recorded(c, seq)),
        e.sequence_no == c.last_sequence_no + 1 ==> checkpoint_consistent(event_completed(c, e)),
{
}

/// Law: applying the next event moves the checkpoint forward by exactly one
/// and leaves a gap only beyond the applied sequence.
pub proof fn completion_advances_by_one(c: WikiDriveCheckpoint, e: WikiDriveInboxEvent)
    requires
        checkpoint_consistent(c),
        e.sequence_no == c.last_sequence_no + 1,
    ensures
        event_completed(c, e).last_sequence_no == c.last_sequence_no + 1,
        event_completed(c, e).gap_from_sequence_no matches Some(f) ==> f == e.sequence_no + 1,
        event_completed(c, e).stream_state == WikiDriveStreamState::Healthy
            <==> event_completed(c, e).gap_from_sequence_no is None,
{
}

/// Law: sequence classification is a partition. Every new event is either
/// stale, the next one or beyond a gap, by its sequence alone.
pub proof fn classification_follows_sequence(last: u64, seq: u64)
    requires
        last < u64::MAX,
    ensures
        (classify_sequence(last, seq).disposition == WikiDriveEventReceiveDisposition::IgnoredStale)
            <==> seq <= last,
        (classify_sequence(last, seq).disposition == WikiDriveEventReceiveDisposition::Ready)
            <==> seq == last + 1,
        (classify_sequence(last, seq).disposition == WikiDriveEventReceiveDisposition::DeferredGap)
            <==> seq > last + 1,
{
}

/// A well-formed event delivery.
pub open spec fn receive_request_ok(r: ReceiveWikiDriveEventRequest) -> bool {
    &&& r.scope.tenant_id != 0
    &&& 0 < r.site_publication_id <= i64::MAX
    &&& 0 < r.checkpoint_id <= i64::MAX
    &&& required_text_ok(r.source_event_id@, 128)
    &&& r.sequence_no != 0
    &&& required_text_ok(r.drive_node_uuid@, 64)
    &&& (r.drive_version_uuid matches Some(v) ==> required_text_ok(v@, 64))
    &&& is_sha256_reference(r.payload_sha256@)
    &&& encode_utf8(r.payload_json@).len() <= 65536
    &&& is_json_text(r.payload_json@)
    &&& required_text_ok(r.source_event_time@, 64)
}

/// Validates an event delivery: identifiers, sequence, digest format, a JSON
/// payload of at most 64 KiB, and the event time.
pub fn validate_receive_request(request: &ReceiveWikiDriveEventRequest) -> (result: Result<
    (),
    StoreError,
>)
    ensures
        result is Ok <==> receive_request_ok(*request),
        result matches Err(e) ==> e.is_invalid_request(),
        (request.scope.tenant_id == 0 || request.site_publication_id == 0 || request.checkpoint_id == 0
            || request.sequence_no == 0) ==> result is Err,
        result is Ok ==> (is_sha256_reference(request.payload_sha256@) && is_json_text(request.payload_json@)
            && encode_utf8(request.payload_json@).len() <= 65536),
{
    validate_scope(request.scope)?;
    require_id("site_publication_id", request.site_publication_id)?;
    require_id("checkpoint_id", request.checkpoint_id)?;
    require_text("source_event_id", request.source_event_id.as_str(), 128)?;
    if request.sequence_no == 0 {
        return Err(StoreError::InvalidRequest("sequence_no must be greater than zero".to_string()));
    }
    require_text("drive_node_uuid", request.drive_node_uuid.as_str(), 64)?;
    if let Some(value) = &request.drive_version_uuid {
        require_text("drive_version_uuid", value.as_str(), 64)?;
    }
    require_sha256("payload_sha256", request.payload_sha256.as_str())?;
    if request.payload_json.as_str().as_bytes().len() > 65536 {
        return Err(StoreError::InvalidRequest("payload_json exceeds 65536 bytes".to_string()));
    }
    if let Some(error) = crate::json::json_parse_error(request.payload_json.as_str()) {
        return Err(
            StoreError::InvalidRequest(crate::text::message_with("payload_json is invalid JSON: ", error.as_str())),
        );
    }
    require_text("source_event_time", request.source_event_time.as_str(), 64)?;
    Ok(())
}

/// The digest reference of a payload: `sha256:` and the hex digest of its
/// exact UTF-8 bytes.
pub open spec fn payload_reference(payload: Seq<char>) -> Seq<char> {
    sha256_prefix() + sha256_of_text(payload)
}

/// Checks that the announced digest is the digest of the exact payload bytes.
pub fn verify_payload_digest(request: &ReceiveWikiDriveEventRequest) -> (result: Result<
    (),
    StoreError,
>)
    ensures
        result is Ok <==> request.payload_sha256@ == payload_reference(request.payload_json@),
        result matches Err(e) ==> e.is_invalid_request(),
{
    let digest = sha256_hash(request.payload_json.as_str());
    proof {
        reveal_strlit("sha256:");
    }
    let mut expected = String::from_str("sha256:");
    expected.append(digest.as_str());
    assert("sha256:"@ =~= sha256_prefix());
    if !str_eq(request.payload_sha256.as_str(), expected.as_str()) {
        return Err(StoreError::InvalidRequest("payload_sha256 does not match the exact payload_json bytes".to_string()));
    }
    Ok(())
}

/// The checkpoint belongs to the given Drive space and source scope.
pub open spec fn checkpoint_identity_matches(c: WikiDriveCheckpoint, drive_space_uuid: Seq<char>, source_scope_uuid: Seq<char>) -> bool {
    c.drive_space_uuid@ == drive_space_uuid && c.source_scope_uuid@ == source_scope_uuid
}

/// Rejects a checkpoint of another Drive source scope.
pub fn ensure_checkpoint_identity(checkpoint: &WikiDriveCheckpoint, drive_space_uuid: &str, source_scope_uuid: &str) -> (result:
    Result<(), StoreError>)
    ensures
        result is Ok <==> checkpoint_identity_matches(*checkpoint, drive_space_uuid@, source_scope_uuid@),
        result matches Err(e) ==> e.is_conflict(),
        checkpoint.drive_space_uuid@ != drive_space_uuid@ ==> result is Err,
        checkpoint.source_scope_uuid@ != source_scope_uuid@ ==> result is Err,
{
    if !str_eq(checkpoint.drive_space_uuid.as_str(), drive_space_uuid) || !str_eq(
        checkpoint.source_scope_uuid.as_str(),
        source_scope_uuid,
    ) {
        let mut message = crate::text::message_with_u64("Wiki publication ", checkpoint.site_publication_id);
        message.append(" already owns a checkpoint for a different Drive source scope");
        return Err(StoreError::Conflict(message));
    }
    Ok(())
}

/// How a checkpoint provisioning proceeds.
#[derive(Debug, Clone, Copy, PartialEq, Eq, Structural)]
pub enum CheckpointProvisionPlan {
    /// The publication already has this checkpoint.
    Existing,
    /// Create the checkpoint.
    Create,
}

/// Decides a checkpoint provisioning from the publication's existing
/// checkpoint and the publication's bound source identity (`None` when the
/// publication does not exist).
pub fn plan_checkpoint_provisioning(
    drive_space_uuid: &str,
    source_scope_uuid: &str,
    existing: Option<&WikiDriveCheckpoint>,
    publication_identity: Option<(&str, Option<&str>)>,
) -> (result: Result<CheckpointProvisionPlan, StoreError>)
    ensures
        match existing {
            Some(c) => if checkpoint_identity_matches(*c, drive_space_uuid@, source_scope_uuid@) {
                result == Ok::<CheckpointProvisionPlan, StoreError>(CheckpointProvisionPlan::Existing)
            } else {
                result matches Err(e) && e.is_conflict()
            },
            None => match publication_identity {
                None => result matches Err(e) && e is NotFound,
                Some((space, scope)) => if space@ == drive_space_uuid@ && scope is Some
                    && scope.unwrap()@ == source_scope_uuid@ {
                    result == Ok::<CheckpointProvisionPlan, StoreError>(CheckpointProvisionPlan::Create)
                } else {
                    result matches Err(e) && e.is_conflict()
                },
            },
        },
{
    if let Some(checkpoint) = existing {
        ensure_checkpoint_identity(checkpoint, drive_space_uuid, source_scope_uuid)?;
        return Ok(CheckpointProvisionPlan::Existing);
    }
    match publication_identity {
        None => Err(StoreError::NotFound("wiki_publication".to_string())),
        Some((space, scope)) => {
            let scope_matches = match scope {
                Some(value) => str_eq(value, source_scope_uuid),
                None => false,
            };
            if !str_eq(space, drive_space_uuid) || !scope_matches {
                return Err(StoreError::Conflict("checkpoint identity must match the bound Wiki publication source scope".to_string()));
            }
            Ok(CheckpointProvisionPlan::Create)
        },
    }
}

/// A stream that a reconciliation may take over.
pub open spec fn reconciliation_claimable(s: WikiDriveStreamState) -> bool {
    s == WikiDriveStreamState::GapDetected || s == WikiDriveStreamState::Failed || s
        == WikiDriveStreamState::Reconciling
}

/// The checkpoint once a reconciliation took it over: the fence advances so
/// that the previous holder can no longer write.
pub open spec fn reconciliation_claimed(c: WikiDriveCheckpoint, token: String) -> WikiDriveCheckpoint {
    WikiDriveCheckpoint {
        stream_state: WikiDriveStreamState::Reconciling,
        lease_token: Some(token),
        fence_token: (c.fence_token + 1) as u64,
        version: (c.version + 1) as u64,
        ..c
    }
}

/// Takes over a checkpoint for reconciliation at the expected version, when
/// its stream needs it and no live lease holds it (`lease_free`).
pub fn claim_reconciliation(
    checkpoint: WikiDriveCheckpoint,
    expected_version: u64,
    lease_free: bool,
    lease_token: String,
) -> (result: Result<WikiDriveCheckpoint, StoreError>)
    requires
        checkpoint_wf(checkpoint),
    ensures
        (checkpoint.version == expected_version && reconciliation_claimable(checkpoint.stream_state)
            && lease_free) ==> result == Ok::<WikiDriveCheckpoint, StoreError>(
            reconciliation_claimed(checkpoint, lease_token),
        ),
        !(checkpoint.version == expected_version && reconciliation_claimable(checkpoint.stream_state)
            && lease_free) ==> (result matches Err(e) && e.is_conflict()),
{
    let claimable = match checkpoint.stream_state {
        WikiDriveStreamState::GapDetected | WikiDriveStreamState::Failed
        | WikiDriveStreamState::Reconciling => true,
        WikiDriveStreamState::Healthy => false,
    };
    if checkpoint.version != expected_version || !claimable || !lease_free {
        let mut message = crate::text::message_with_u64("checkpoint ", checkpoint.id);
        message.append(" is not claimable at version ");
        let version = crate::group::fingerprint::decimal_text(expected_version);
        message.append(version.as_str());
        return Err(StoreError::Conflict(message));
    }
    let mut next = checkpoint;
    next.stream_state = WikiDriveStreamState::Reconciling;
    next.lease_token = Some(lease_token);
    next.fence_token = next.fence_token + 1;
    next.version = next.version + 1;
    Ok(next)
}

/// The reconciliation lease of `c` is `token` under fence `fence`.
pub open spec fn reconciliation_lease_held(c: WikiDriveCheckpoint, token: Seq<char>, fence: u64) -> bool {
    &&& c.stream_state == WikiDriveStreamState::Reconciling
    &&& opt_view(c.lease_token) == Some(token)
    &&& c.fence_token == fence
}

fn lease_held(checkpoint: &WikiDriveCheckpoint, token: &str, fence: u64) -> (result: bool)
    ensures
        result == reconciliation_lease_held(*checkpoint, token@, fence),
{
    checkpoint.stream_state == WikiDriveStreamState::Reconciling && crate::text::opt_eq_str(
        &checkpoint.lease_token,
        token,
    ) && checkpoint.fence_token == fence
}

/// The checkpoint once the lease holder recorded `cursor`; nothing else changes.
pub open spec fn cursor_recorded(before: WikiDriveCheckpoint, after: WikiDriveCheckpoint, cursor: Seq<char>) -> bool {
    &&& after == WikiDriveCheckpoint {
        reconciliation_cursor: after.reconciliation_cursor,
        version: (before.version + 1) as u64,
        ..before
    }
    &&& opt_view(after.reconciliation_cursor) == Some(cursor)
}

/// Records the reconciliation cursor for the holder of the lease.
pub fn advance_reconciliation(
    checkpoint: WikiDriveCheckpoint,
    lease_token: &str,
    fence_token: u64,
    cursor: &str,
) -> (result: Result<WikiDriveCheckpoint, StoreError>)
    requires
        checkpoint_wf(checkpoint),
    ensures
        !required_text_ok(lease_token@, 128) || !required_text_ok(cursor@, 2048) ==> (result matches Err(
            e,
        ) && e.is_invalid_request()),
        required_text_ok(lease_token@, 128) && required_text_ok(cursor@, 2048) ==> if reconciliation_lease_held(
            checkpoint,
            trimmed(lease_token@),
            fence_token,
        ) {
            result matches Ok(c) && cursor_recorded(checkpoint, c, trimmed(cursor@))
        } else {
            result matches Err(e) && e.is_conflict()
        },
{
    let token = require_text("lease_token", lease_token, 128)?;
    let cursor = require_text("reconciliation_cursor", cursor, 2048)?;
    if !lease_held(&checkpoint, token, fence_token) {
        let mut message = crate::text::message_with_u64("checkpoint ", checkpoint.id);
        message.append(" reconciliation lease is stale");
        return Err(StoreError::Conflict(message));
    }
    let mut next = checkpoint;
    next.reconciliation_cursor = Some(cursor.to_string());
    next.version = next.version + 1;
    Ok(next)
}

/// The checkpoint once a reconciliation finished at `seq`.
pub open spec fn reconciliation_completed(c: WikiDriveCheckpoint, seq: u64, last_event_id: Option<String>) -> WikiDriveCheckpoint {
    WikiDriveCheckpoint {
        last_sequence_no: seq,
        last_event_id,
        stream_state: WikiDriveStreamState::Healthy,
        gap_from_sequence_no: None,
        gap_to_sequence_no: None,
        reconciliation_cursor: None,
        lease_token: None,
        version: (c.version + 1) as u64,
        ..c
    }
}

/// Finishes a reconciliation for the holder of the lease: the stream becomes
/// healthy at the reconciled sequence, which cannot lie behind the checkpoint.
pub fn complete_reconciliation(
    checkpoint: WikiDriveCheckpoint,
    lease_token: &str,
    fence_token: u64,
    reconciled_sequence_no: u64,
    last_event_id: Option<String>,
) -> (result: Result<WikiDriveCheckpoint, StoreError>)
    requires
        checkpoint_wf(checkpoint),
    ensures
        !required_text_ok(lease_token@, 128) || (last_event_id matches Some(id) && !required_text_ok(
            id@,
            128,
        )) ==> (result matches Err(e) && e.is_invalid_request()),
        required_text_ok(lease_token@, 128) && (last_event_id matches Some(id) ==> required_text_ok(
            id@,
            128,
        )) ==> if !reconciliation_lease_held(checkpoint, trimmed(lease_token@), fence_token) {
            result matches Err(e) && e.is_conflict()
        } else if reconciled_sequence_no < checkpoint.last_sequence_no {
            result matches Err(e) && e.is_conflict()
        } else if reconciled_sequence_no > i64::MAX {
            result matches Err(e) && e.is_invalid_request()
        } else {
            result == Ok::<WikiDriveCheckpoint, StoreError>(
                reconciliation_completed(checkpoint, reconciled_sequence_no, last_event_id),
            )
        },
{
    let token = require_text("lease_token", lease_token, 128)?;
    if let Some(id) = &last_event_id {
        require_text("last_event_id", id.as_str(), 128)?;
    }
    if !lease_held(&checkpoint, token, fence_token) {
        let mut message = crate::text::message_with_u64("checkpoint ", checkpoint.id);
        message.append(" reconciliation lease is stale");
        return Err(StoreError::Conflict(message));
    }
    if reconciled_sequence_no < checkpoint.last_sequence_no {
        let mut message = crate::text::message_with_u64("reconciled sequence ", reconciled_sequence_no);
        message.append(" is behind checkpoint sequence ");
        let last = crate::group::fingerprint::decimal_text(checkpoint.last_sequence_no);
        message.append(last.as_str());
        return Err(StoreError::Conflict(message));
    }
    if reconciled_sequence_no > 9223372036854775807u64 {
        return Err(StoreError::InvalidRequest("reconciled_sequence_no exceeds signed int64".to_string()));
    }
    let mut next = checkpoint;
    next.last_sequence_no = reconciled_sequence_no;
    next.last_event_id = last_event_id;
    next.stream_state = WikiDriveStreamState::Healthy;
    next.gap_from_sequence_no = None;
    next.gap_to_sequence_no = None;
    next.reconciliation_cursor = None;
    next.lease_token = None;
    next.version = next.version + 1;
    Ok(next)
}

/// The inbox event once a reconciliation covered it: events at or below the
/// reconciled sequence that were not applied are ignored and released.
pub open spec fn event_reconciled(e: WikiDriveInboxEvent, seq: u64) -> WikiDriveInboxEvent {
    if e.sequence_no <= seq && e.processing_state != WikiDriveEventProcessingState::Applied {
        WikiDriveInboxEvent {
            processing_state: WikiDriveEventProcessingState::Ignored,
            lease_token: None,
            version: (e.version + 1) as u64,
            ..e
        }
    } else {
        e
    }
}

/// Applies a finished reconciliation to one inbox event.
pub fn reconcile_inbox_event(event: WikiDriveInboxEvent, reconciled_sequence_no: u64) -> (result:
    WikiDriveInboxEvent)
    requires
        event.version <= i64::MAX,
    ensures
        result == event_reconciled(event, reconciled_sequence_no),
        event.processing_state == WikiDriveEventProcessingState::Applied ==> result == event,
        event.sequence_no > reconciled_sequence_no ==> result == event,
        (event.sequence_no <= reconciled_sequence_no && event.processing_state
            != WikiDriveEventProcessingState::Applied) ==> (result.processing_state
            == WikiDriveEventProcessingState::Ignored && result.lease_token is None && result.version
            == event.version + 1 && result.sequence_no == event.sequence_no),
{
    if event.sequence_no <= reconciled_sequence_no && event.processing_state
        != WikiDriveEventProcessingState::Applied {
        let mut next = event;
        next.processing_state = WikiDriveEventProcessingState::Ignored;
        next.lease_token = None;
        next.version = next.version + 1;
        next
    } else {
        event
    }
}

/// The publication once a reconciliation reached `seq`: its projected
/// checkpoint moves forward only.
pub open spec fn projected_at_least(p: WikiPublication, seq: u64) -> WikiPublication {
    if p.last_projected_drive_checkpoint < seq {
        checkpoint_projected(p, seq)
    } else {
        p
    }
}

/// Moves the projected checkpoint of a publication forward if it is behind.
pub fn advance_projected_checkpoint_if_behind(publication: WikiPublication, sequence_no: u64) -> (result:
    WikiPublication)
    requires
        publication.version <= i64::MAX,
    ensures
        result == projected_at_least(publication, sequence_no),
        result.last_projected_drive_checkpoint >= publication.last_projected_drive_checkpoint,
        result.last_projected_drive_checkpoint >= sequence_no,
        result.last_projected_drive_checkpoint == publication.last_projected_drive_checkpoint
            || result.last_projected_drive_checkpoint == sequence_no,
        publication.last_projected_drive_checkpoint >= sequence_no ==> result == publication,
        publication.last_projected_drive_checkpoint < sequence_no ==> result.version == publication.version + 1,
{
    if publication.last_projected_drive_checkpoint < sequence_no {
        let mut next = publication;
        next.last_projected_drive_checkpoint = sequence_no;
        next.version = next.version + 1;
        next
    } else {
        publication
    }
}

/// Validates the claim size of a worker batch (1 to 100).
pub fn claim_limit(limit: u32) -> (result: Result<i64, StoreError>)
    ensures
        1 <= limit <= 100 ==> result == Ok::<i64, StoreError>(limit as i64),
        !(1 <= limit <= 100) ==> (result matches Err(e) && e.is_invalid_request()),
{
    if limit == 0 || limit > 100 {
        return Err(StoreError::InvalidRequest("limit must be between 1 and 100".to_string()));
    }
    Ok(limit as i64)
}

/// Law: a finished reconciliation leaves a healthy, gap-free checkpoint that
/// never lies behind where it was, and every inbox event it covers ends up
/// applied or ignored.
pub proof fn reconciliation_restores_health(
    c: WikiDriveCheckpoint,
    seq: u64,
    last_event_id: Option<String>,
    e: WikiDriveInboxEvent,
)
    requires
        seq >= c.last_sequence_no,
    ensures
        checkpoint_consistent(reconciliation_completed(c, seq, last_event_id)),
        reconciliation_completed(c, seq, last_event_id).last_sequence_no >= c.last_sequence_no,
        reconciliation_completed(c, seq, last_event_id).stream_state == WikiDriveStreamState::Healthy,
        e.sequence_no <= seq ==> (event_reconciled(e, seq).processing_state
            == WikiDriveEventProcessingState::Applied || event_reconciled(e, seq).processing_state
            == WikiDriveEventProcessingState::Ignored),
{
}

/// Law: a reconciliation claim fences out the previous holder: the fence
/// strictly grows, so writes carrying the old fence are refused.
pub proof fn reconciliation_claim_fences(c: WikiDriveCheckpoint, token: String)
    requires
        checkpoint_wf(c),
        checkpoint_consistent(c),
    ensures
        reconciliation_claimed(c, token).fence_token > c.fence_token,
        !reconciliation_lease_held(reconciliation_claimed(c, token), token@, c.fence_token),
        reconciliation_lease_held(reconciliation_claimed(c, token), token@, (c.fence_token + 1) as u64),
        checkpoint_consistent(reconciliation_claimed(c, token)),
{
}

/// The inbox row a received event is stored as: identifiers trimmed, payload
/// and time as given.
pub fn new_inbox_event(
    request: &ReceiveWikiDriveEventRequest,
    id: u64,
    uuid: String,
    processing_state: WikiDriveEventProcessingState,
) -> (result: WikiDriveInboxEvent)
    ensures
        replay_matches(result, *request),
        result.id == id,
        result.uuid@ == uuid@,
        result.scope == request.scope,
        result.processing_state == processing_state,
        result.attempt_count == 0,
        result.lease_token is None,
        result.version == 0,
{
    let version_uuid = match &request.drive_version_uuid {
        Some(v) => Some(crate::text::trim(v.as_str()).to_string()),
        None => None,
    };
    WikiDriveInboxEvent {
        id,
        uuid,
        scope: request.scope,
        site_publication_id: request.site_publication_id,
        checkpoint_id: request.checkpoint_id,
        source_event_id: crate::text::trim(request.source_event_id.as_str()).to_string(),
        event_type: request.event_type.clone(),
        sequence_no: request.sequence_no,
        drive_node_uuid: crate::text::trim(request.drive_node_uuid.as_str()).to_string(),
        drive_version_uuid: version_uuid,
        payload_sha256: request.payload_sha256.clone(),
        payload_json: request.payload_json.clone(),
        source_event_time: request.source_event_time.clone(),
        processing_state,
        attempt_count: 0,
        lease_token: None,
        version: 0,
    }
}

/// A recorded gap holds the sequence `n` when it lies within the gap's
/// bounds.
pub open spec fn gap_holds(c: WikiDriveCheckpoint, n: int) -> bool {
    c.gap_from_sequence_no matches Some(f) && c.gap_to_sequence_no matches Some(t) && f <= n <= t
}

/// Law: recording a gap never forgets one. After a deferred event `seq`
/// beyond the checkpoint, the recorded gap still holds every sequence the
/// gap held before and every missing sequence between the checkpoint and
/// `seq`; its upper end never moves down, and it grows no further than
/// those sequences require.
pub proof fn recorded_gaps_only_grow(c: WikiDriveCheckpoint, seq: u64)
    requires
        seq > c.last_sequence_no + 1,
    ensures
        forall|n: int| #[trigger] gap_holds(c, n) ==> gap_holds(gap_recorded(c, seq), n),
        forall|n: int| c.last_sequence_no < n < seq ==> #[trigger] gap_holds(gap_recorded(c, seq), n),
        c.gap_to_sequence_no matches Some(t) ==> gap_recorded(c, seq).gap_to_sequence_no.unwrap() >= t,
        gap_recorded(c, seq).gap_to_sequence_no.unwrap() >= seq - 1,
        gap_recorded(c, seq).gap_to_sequence_no.unwrap() == seq - 1 || gap_recorded(c, seq).gap_to_sequence_no
            == c.gap_to_sequence_no,
        gap_recorded(c, seq).gap_from_sequence_no.unwrap() == c.last_sequence_no + 1
            || gap_recorded(c, seq).gap_from_sequence_no == c.gap_from_sequence_no,
        gap_recorded(c, seq).last_sequence_no == c.last_sequence_no,
        gap_recorded(c, seq).stream_state != WikiDriveStreamState::Healthy,
{
}

/// Law: events are sorted by where they fall against the checkpoint. An
/// event at or below the applied sequence is stale and ignored, the next
/// sequence is ready, and any later one is deferred behind a gap.
pub proof fn sequences_classify_against_the_checkpoint(last: u64, seq: u64)
    ensures
        seq <= last <==> classify_sequence(last, seq).disposition
            == WikiDriveEventReceiveDisposition::IgnoredStale,
        seq == last + 1 <==> classify_sequence(last, seq).disposition
            == WikiDriveEventReceiveDisposition::Ready,
        seq > last + 1 <==> classify_sequence(last, seq).disposition
            == WikiDriveEventReceiveDisposition::DeferredGap,
        classify_sequence(last, seq).disposition == WikiDriveEventReceiveDisposition::Ready
            ==> classify_sequence(last, seq).processing_state == WikiDriveEventProcessingState::Received,
        classify_sequence(last, seq).disposition == WikiDriveEventReceiveDisposition::DeferredGap
            ==> classify_sequence(last, seq).processing_state == WikiDriveEventProcessingState::Deferred,
        classify_sequence(last, seq).disposition == WikiDriveEventReceiveDisposition::IgnoredStale
            ==> classify_sequence(last, seq).processing_state == WikiDriveEventProcessingState::Ignored,
{
}

/// Law: applying the next event closes the gap only up to that event. The
/// checkpoint moves to the event's sequence; a recorded gap that reaches
/// beyond the event stays recorded from the following sequence to its old
/// end, and the stream is healthy exactly when no such gap remains.
pub proof fn completion_keeps_the_rest_of_the_gap(c: WikiDriveCheckpoint, e: WikiDriveInboxEvent)
    requires
        e.sequence_no == c.last_sequence_no + 1,
    ensures
        event_completed(c, e).last_sequence_no == e.sequence_no,
        (c.gap_to_sequence_no matches Some(t) && t > e.sequence_no) ==> (event_completed(c, e).gap_to_sequence_no
            == c.gap_to_sequence_no && event_completed(c, e).gap_from_sequence_no == Some(
            (e.sequence_no + 1) as u64,
        ) && event_completed(c, e).stream_state != WikiDriveStreamState::Healthy),
        !(c.gap_to_sequence_no matches Some(t) && t > e.sequence_no) ==> (event_completed(c, e).stream_state
            == WikiDriveStreamState::Healthy && event_completed(c, e).gap_to_sequence_no is None),
{
}

/// Law: a worker claims only the next event of its stream. A claimable event
/// is pending and carries the sequence right after the checkpoint; no other
/// event of the stream is claimable, whatever its state.
pub proof fn only_the_next_event_is_claimable(
    e: WikiDriveInboxEvent,
    c: WikiDriveCheckpoint,
    retry_due: bool,
    lease_free: bool,
)
    ensures
        event_claimable(e, c, retry_due, lease_free) ==> e.sequence_no == c.last_sequence_no + 1,
        e.processing_state == WikiDriveEventProcessingState::Applied || e.processing_state
            == WikiDriveEventProcessingState::Ignored ==> !event_claimable(e, c, retry_due, lease_free),
        (e.sequence_no == c.last_sequence_no + 1 && retry_due && lease_free && (e.processing_state
            == WikiDriveEventProcessingState::Received || e.processing_state
            == WikiDriveEventProcessingState::Retry || e.processing_state
            == WikiDriveEventProcessingState::Deferred)) ==> event_claimable(e, c, retry_due, lease_free),
{
}

} // verus!
