//! Fresh identifiers and the clock: the three things the engine cannot compute.

use vstd::prelude::*;

verus! {

/// A digit of lower-case hexadecimal.
pub open spec fn is_lower_hex(c: char) -> bool {
    ('0' <= c && c <= '9') || ('a' <= c && c <= 'f')
}

/// A text of exactly `len` lower-case hexadecimal digits.
pub open spec fn is_hex_text(text: Seq<char>, len: nat) -> bool {
    &&& text.len() == len
    &&& forall|i: int| 0 <= i < text.len() ==> is_lower_hex(#[trigger] text[i])
}

/// Calls `uuid::Uuid::new_v4` and writes the result in `uuid`'s simple form.
/// Trusted: that form is 32 lower-case hexadecimal digits. Which digits is chance.
#[verifier::external_body]
pub(crate) fn new_simple_uuid() -> (id: String)
    ensures
        is_hex_text(id@, 32),
{
    uuid::Uuid::new_v4().simple().to_string()
}

/// Calls `bson::oid::ObjectId::new` and writes the result with `to_hex`.
/// Trusted: the text is 24 lower-case hexadecimal digits. `bson` takes the clock
/// for the identifier and expects it to stand between the years 1970 and 2106.
#[verifier::external_body]
pub(crate) fn new_object_id_hex() -> (id: String)
    ensures
        is_hex_text(id@, 24),
{
    bson::oid::ObjectId::new().to_hex()
}

/// Calls `bson::DateTime::now` and takes its `timestamp_millis()`: the clock, in
/// milliseconds since the Unix epoch. Nothing is claimed of the reading.
#[verifier::external_body]
pub(crate) fn now_millis() -> i64 {
    bson::DateTime::now().timestamp_millis()
}

} // verus!
