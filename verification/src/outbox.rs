use vstd::prelude::*;
use crate::error::StoreError;
use crate::text::{blank, is_blank, opt_view, take_chars};
pub use crate::text::truncate_outbox_error;

verus! {

/// Delivery state of an outbox event.
#[derive(Debug, Clone, Copy, PartialEq, Eq, Structural)]
pub enum OutboxStatus {
    Pending,
    Published,
    Failed,
    Claimed,
}

impl OutboxStatus {
    /// The number that stands for the status in the database.
    pub open spec fn spec_code(self) -> i64 {
        match self {
            OutboxStatus::Pending => 0,
            OutboxStatus::Published => 1,
            OutboxStatus::Failed => 2,
            OutboxStatus::Claimed => 3,
        }
    }

    /// The database number of the status.
    pub fn code(self) -> (result: i64)
        ensures
            result == self.spec_code(),
    {
        match self {
            OutboxStatus::Pending => 0,
            OutboxStatus::Published => 1,
            OutboxStatus::Failed => 2,
            OutboxStatus::Claimed => 3,
        }
    }
}

/// Reads an outbox status back from its database number; any other number
/// is an internal error.
pub fn outbox_status_from_code(value: i64) -> (result: Result<OutboxStatus, StoreError>)
    ensures
        match result {
            Ok(status) => status.spec_code() == value,
            Err(e) => e.is_internal() && !(0 <= value <= 3),
        },
        0 <= value <= 3 ==> result is Ok,
{
    match value {
        0 => Ok(OutboxStatus::Pending),
        1 => Ok(OutboxStatus::Published),
        2 => Ok(OutboxStatus::Failed),
        3 => Ok(OutboxStatus::Claimed),
        _ => Err(StoreError::Internal("unknown outbox status code".to_string())),
    }
}

/// The delivery columns of an outbox event (`kb_outbox_event`).
#[derive(Debug, Clone)]
pub struct OutboxDelivery {
    pub id: u64,
    pub status: OutboxStatus,
    pub retry_count: u32,
    pub claimed: bool,
    pub last_error: Option<String>,
    pub version: u64,
}

/// An event to append to the outbox.
#[derive(Debug, Clone)]
pub struct AppendOutboxEventRecord {
    pub aggregate_type: String,
    pub aggregate_id: u64,
    pub event_type: String,
    pub payload_json: String,
}

/// A well-formed outbox append: type, event type and payload given, and an
/// aggregate id that fits a signed BIGINT.
pub open spec fn append_record_ok(r: AppendOutboxEventRecord) -> bool {
    &&& !blank(r.aggregate_type@)
    &&& !blank(r.event_type@)
    &&& !blank(r.payload_json@)
    &&& r.aggregate_id <= i64::MAX
}

/// Validates an outbox append.
pub fn validate_append_record(record: &AppendOutboxEventRecord) -> (result: Result<(), StoreError>)
    ensures
        result is Ok <==> append_record_ok(*record),
        result matches Err(e) ==> e.is_invalid_request(),
        (blank(record.aggregate_type@) || blank(record.event_type@) || blank(record.payload_json@)
            || record.aggregate_id > i64::MAX) ==> result is Err,
{
    if is_blank(record.aggregate_type.as_str()) {
        return Err(StoreError::InvalidRequest("aggregate_type is required".to_string()));
    }
    if is_blank(record.event_type.as_str()) {
        return Err(StoreError::InvalidRequest("event_type is required".to_string()));
    }
    if is_blank(record.payload_json.as_str()) {
        return Err(StoreError::InvalidRequest("payload_json is required".to_string()));
    }
    to_i64("aggregate_id", record.aggregate_id)?;
    Ok(())
}

/// The message of a number that does not fit a signed outbox column.
pub open spec fn exceeds_i64_message(field: Seq<char>, value: u64) -> Seq<char> {
    field + " exceeds i64 range: "@ + crate::group::fingerprint::decimal(value as nat)
}

/// Converts an unsigned number to a signed BIGINT outbox column; fails with
/// `InvalidRequest("<field> exceeds i64 range: <value>")` exactly when it
/// does not fit.
pub fn to_i64(field: &str, value: u64) -> (result: Result<i64, StoreError>)
    ensures
        value <= i64::MAX ==> result == Ok::<i64, StoreError>(value as i64),
        value > i64::MAX ==> (result matches Err(StoreError::InvalidRequest(m)) && m@
            == exceeds_i64_message(field@, value)),
{
    if value <= 9_223_372_036_854_775_807u64 {
        Ok(value as i64)
    } else {
        let mut message = field.to_string();
        message.append(" exceeds i64 range: ");
        let digits = crate::group::fingerprint::decimal_text(value);
        message.append(digits.as_str());
        Err(StoreError::InvalidRequest(message))
    }
}

/// The pending event appended for a record.
pub fn new_outbox_delivery(id: u64) -> (result: OutboxDelivery)
    ensures
        result.id == id,
        result.status == OutboxStatus::Pending,
        result.retry_count == 0,
        !result.claimed,
        result.last_error is None,
        result.version == 0,
{
    OutboxDelivery { id, status: OutboxStatus::Pending, retry_count: 0, claimed: false, last_error: None, version: 0 }
}

/// The batch size of outbox listings: the request clamped to 1..=200.
pub open spec fn clamped_batch(limit: u32) -> u32 {
    if limit < 1 {
        1
    } else if limit > 200 {
        200
    } else {
        limit
    }
}

/// Clamps an outbox batch size to 1..=200.
pub fn outbox_batch_limit(limit: u32) -> (result: i64)
    ensures
        result == clamped_batch(limit),
        1 <= result <= 200,
        1 <= limit <= 200 ==> result == limit,
        limit > 200 ==> result == 200,
        limit == 0 ==> result == 1,
{
    if limit < 1 {
        1
    } else if limit > 200 {
        200
    } else {
        limit as i64
    }
}

/// The event once a relay claimed it.
pub open spec fn delivery_claimed(e: OutboxDelivery) -> OutboxDelivery {
    OutboxDelivery { status: OutboxStatus::Claimed, claimed: true, version: (e.version + 1) as u64, ..e }
}

/// Claims a pending event for delivery.
pub fn claim_outbox_event(event: OutboxDelivery) -> (result: Option<OutboxDelivery>)
    requires
        event.version <= i64::MAX,
    ensures
        result is Some <==> event.status == OutboxStatus::Pending,
        result matches Some(e) ==> e == delivery_claimed(event),
        result matches Some(e) ==> (e.status == OutboxStatus::Claimed && e.claimed && e.version == event.version
            + 1 && e.id == event.id && e.retry_count == event.retry_count),
{
    if event.status != OutboxStatus::Pending {
        return None;
    }
    let mut next = event;
    next.status = OutboxStatus::Claimed;
    next.claimed = true;
    next.version = next.version + 1;
    Some(next)
}

/// The event once delivered.
pub open spec fn delivery_published(e: OutboxDelivery) -> OutboxDelivery {
    OutboxDelivery { status: OutboxStatus::Published, claimed: false, version: (e.version + 1) as u64, ..e }
}

/// Records the delivery of a claimed event; any other event was not claimed.
pub fn mark_published(event: OutboxDelivery) -> (result: Result<OutboxDelivery, StoreError>)
    requires
        event.version <= i64::MAX,
    ensures
        event.status == OutboxStatus::Claimed ==> result == Ok::<OutboxDelivery, StoreError>(
            delivery_published(event),
        ),
        event.status != OutboxStatus::Claimed ==> (result matches Err(e) && e.is_invalid_request()),
{
    if event.status != OutboxStatus::Claimed {
        return Err(StoreError::InvalidRequest(crate::text::message_with_u64("outbox event was not claimed: ", event.id)));
    }
    let mut next = event;
    next.status = OutboxStatus::Published;
    next.claimed = false;
    next.version = next.version + 1;
    Ok(next)
}

/// Records a failed delivery of a pending or claimed event: the error is kept
/// (cut to 1024 characters) and the retry count grows.
pub fn mark_failed(event: OutboxDelivery, error_message: &str) -> (result: Result<
    OutboxDelivery,
    StoreError,
>)
    requires
        event.version <= i64::MAX,
        event.retry_count < u32::MAX,
    ensures
        (event.status == OutboxStatus::Pending || event.status == OutboxStatus::Claimed) ==> (
        result matches Ok(e) && e == (OutboxDelivery {
            status: OutboxStatus::Failed,
            claimed: false,
            retry_count: (event.retry_count + 1) as u32,
            last_error: e.last_error,
            version: (event.version + 1) as u64,
            ..event
        }) && opt_view(e.last_error) == Some(take_chars(error_message@, 1024))),
        !(event.status == OutboxStatus::Pending || event.status == OutboxStatus::Claimed) ==> (
        result matches Err(e) && e.is_invalid_request()),
{
    if event.status != OutboxStatus::Pending && event.status != OutboxStatus::Claimed {
        return Err(
            StoreError::InvalidRequest(
                crate::text::message_with_u64("outbox event was not pending or claimed: ", event.id),
            ),
        );
    }
    let mut next = event;
    next.status = OutboxStatus::Failed;
    next.claimed = false;
    next.retry_count = next.retry_count + 1;
    next.last_error = Some(truncate_outbox_error(error_message));
    next.version = next.version + 1;
    Ok(next)
}

/// Whether a failed event goes back to pending: only below the retry limit.
pub open spec fn requeueable(e: OutboxDelivery, max_retry_count: u32) -> bool {
    e.status == OutboxStatus::Failed && e.retry_count < max_retry_count
}

/// Puts a failed event below the retry limit back to pending.
pub fn requeue_failed_event(event: OutboxDelivery, max_retry_count: u32) -> (result: Option<
    OutboxDelivery,
>)
    requires
        event.version <= i64::MAX,
    ensures
        result is Some <==> requeueable(event, max_retry_count),
        result matches Some(e) ==> e == (OutboxDelivery {
            status: OutboxStatus::Pending,
            version: (event.version + 1) as u64,
            ..event
        }),
{
    if event.status != OutboxStatus::Failed || event.retry_count >= max_retry_count {
        return None;
    }
    let mut next = event;
    next.status = OutboxStatus::Pending;
    next.version = next.version + 1;
    Some(next)
}

/// Hands a claim that went stale (`claim_stale`, read against the clock)
/// back to pending.
pub fn release_stale_claim(event: OutboxDelivery, claim_stale: bool) -> (result: Option<
    OutboxDelivery,
>)
    requires
        event.version <= i64::MAX,
    ensures
        result is Some <==> (event.status == OutboxStatus::Claimed && event.claimed && claim_stale),
        result matches Some(e) ==> e == (OutboxDelivery {
            status: OutboxStatus::Pending,
            claimed: false,
            version: (event.version + 1) as u64,
            ..event
        }),
{
    if event.status != OutboxStatus::Claimed || !event.claimed || !claim_stale {
        return None;
    }
    let mut next = event;
    next.status = OutboxStatus::Pending;
    next.claimed = false;
    next.version = next.version + 1;
    Some(next)
}

/// Law: delivery only goes through a claim, and the retry budget holds. A
/// pending event is published only after it was claimed; every failure
/// raises the retry count by one; an event at the retry limit is never put
/// back to pending.
pub proof fn outbox_delivery_discipline(e: OutboxDelivery, max_retry_count: u32)
    ensures
        e.status == OutboxStatus::Pending ==> delivery_claimed(e).status == OutboxStatus::Claimed,
        e.retry_count >= max_retry_count ==> !requeueable(e, max_retry_count),
        requeueable(e, max_retry_count) ==> e.status == OutboxStatus::Failed,
        delivery_published(delivery_claimed(e)).status == OutboxStatus::Published,
        !delivery_published(delivery_claimed(e)).claimed,
{
}

} // verus!
