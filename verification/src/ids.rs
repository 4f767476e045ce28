use vstd::prelude::*;
use crate::error::StoreError;

verus! {

/// The message of an identifier that does not fit the signed column.
pub open spec fn out_of_range_message(field: Seq<char>) -> Seq<char> {
    field + " is out of range"@
}

/// The message of a negative identifier read back from the database.
pub open spec fn negative_message(field: Seq<char>) -> Seq<char> {
    field + " is negative"@
}

/// Converts an unsigned identifier to the signed BIGINT column type.
/// Fails with `InvalidRequest("<field> is out of range")` exactly when the
/// value exceeds `i64::MAX`.
pub fn to_i64(field: &str, value: u64) -> (result: Result<i64, StoreError>)
    ensures
        value <= i64::MAX ==> result == Ok::<i64, StoreError>(value as i64),
        value > i64::MAX ==> (result matches Err(StoreError::InvalidRequest(m)) && m@
            == out_of_range_message(field@)),
{
    if value <= 9_223_372_036_854_775_807u64 {
        Ok(value as i64)
    } else {
        let mut message = field.to_string();
        message.append(" is out of range");
        Err(StoreError::InvalidRequest(message))
    }
}

/// Converts a signed BIGINT read from the database back to an identifier.
/// Fails with `Internal("<field> is negative")` exactly when the database
/// returned a negative value.
pub fn from_i64(field: &str, value: i64) -> (result: Result<u64, StoreError>)
    ensures
        value >= 0 ==> result == Ok::<u64, StoreError>(value as u64),
        value < 0 ==> (result matches Err(StoreError::Internal(m)) && m@ == negative_message(field@)),
{
    if value >= 0 {
        Ok(value as u64)
    } else {
        let mut message = field.to_string();
        message.append(" is negative");
        Err(StoreError::Internal(message))
    }
}

/// A lowercase hexadecimal digit.
pub open spec fn is_lower_hex(c: char) -> bool {
    ('0' <= c <= '9') || ('a' <= c <= 'f')
}

/// The hyphenated lowercase text of a version 4 (random), RFC 4122 variant
/// UUID: `xxxxxxxx-xxxx-4xxx-Yxxx-xxxxxxxxxxxx` with `Y` one of `8`, `9`,
/// `a`, `b`.
pub open spec fn is_uuid_v4_text(t: Seq<char>) -> bool {
    &&& t.len() == 36
    &&& t[8] == '-' && t[13] == '-' && t[18] == '-' && t[23] == '-'
    &&& forall|i: int| 0 <= i < 36 && i != 8 && i != 13 && i != 18 && i != 23 ==> is_lower_hex(
        #[trigger] t[i],
    )
    &&& t[14] == '4'
    &&& (t[19] == '8' || t[19] == '9' || t[19] == 'a' || t[19] == 'b')
}

/// Draws a random version 4 UUID with `uuid::Uuid::new_v4` and writes it in
/// its `Display` form. Claimed: the text is the hyphenated lowercase form
/// with the version digit `4` and the RFC 4122 variant (`new_v4` sets both
/// bits, `Display` writes `LowerHex` of the hyphenated form); which UUID
/// comes out is left open.
#[verifier::external_body]
fn random_uuid_text() -> (result: String)
    ensures
        is_uuid_v4_text(result@),
{
    uuid::Uuid::new_v4().to_string()
}

/// A fresh random identifier for a row UUID or a lease token.
pub fn new_uuid() -> (result: String)
    ensures
        is_uuid_v4_text(result@),
        result@.len() == 36,
{
    random_uuid_text()
}

} // verus!
