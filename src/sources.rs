//! Where generated values come from: random bytes, version-4 identifiers,
//! the system clock and the local time zone. Each outside call stands behind
//! one small trusted function; everything built on them is verified.
use crate::text::uuid_text;
use vstd::prelude::*;

verus! {

#[verifier::external_type_specification]
#[verifier::external_body]
pub struct ExSystemTime(std::time::SystemTime);

/// An instant read from the local clock: seconds and nanoseconds since the
/// Unix epoch, and the local time zone's offset from UTC in seconds.
#[derive(Clone, Copy, Debug, PartialEq, Eq, Structural)]
pub struct LocalStamp {
    pub seconds: i64,
    pub nanos: u32,
    pub offset_seconds: i32,
}

/// The last second after the epoch that a stamp of this library may hold:
/// well inside the calendar range that chrono can show.
pub const MAX_STAMP_SECONDS: i64 = 8_000_000_000_000;

impl LocalStamp {
    /// The offset is one that a fixed time-zone offset can take.
    pub open spec fn wf(&self) -> bool {
        -86_400 < self.offset_seconds < 86_400
    }

    /// The instant lies between the epoch and `MAX_STAMP_SECONDS`, and its
    /// nanoseconds make up less than one second.
    pub open spec fn in_range(&self) -> bool {
        0 <= self.seconds <= MAX_STAMP_SECONDS && self.nanos < 1_000_000_000
    }
}

/// The RFC 3339 text of an instant shown at a fixed offset from UTC.
pub uninterp spec fn rfc3339_of(seconds: int, nanos: int, offset_seconds: int) -> Seq<char>;

/// Relies on rand::random (the thread-local generator): one uniformly drawn
/// byte. Nothing is promised of its value.
#[verifier::external_body]
pub(crate) fn random_byte() -> (r: u8) {
    rand::random::<u8>()
}

/// Relies on uuid::Uuid::new_v4: sixteen random bytes whose version nibble
/// (high half of byte 6) is 4 and whose variant bits (top two of byte 8) are
/// `10`.
#[verifier::external_body]
pub(crate) fn new_v4_bytes() -> (r: [u8; 16])
    ensures
        r[6] as int / 16 == 4,
        r[8] as int / 64 == 2,
{
    uuid::Uuid::new_v4().into_bytes()
}

/// Relies on uuid::Uuid's `Display`: the bytes as lower-case hexadecimal in
/// the hyphenated 8-4-4-4-12 form.
#[verifier::external_body]
pub(crate) fn uuid_hyphenated(b: [u8; 16]) -> (r: String)
    ensures
        r@ == uuid_text(b@),
{
    uuid::Uuid::from_bytes(b).to_string()
}

/// Relies on std::time::SystemTime::now: the current wall-clock time.
#[verifier::external_body]
pub(crate) fn system_now() -> (r: std::time::SystemTime) {
    std::time::SystemTime::now()
}

/// Relies on std::time::SystemTime::duration_since: the time elapsed since
/// the Unix epoch, or `None` for a clock set before it.
#[verifier::external_body]
pub(crate) fn since_unix_epoch(t: &std::time::SystemTime) -> (r: Option<core::time::Duration>) {
    t.duration_since(std::time::UNIX_EPOCH).ok()
}

/// Relies on std::time::Duration::as_secs: the whole seconds of a duration.
#[verifier::external_body]
pub(crate) fn whole_seconds(d: &core::time::Duration) -> (r: u64) {
    d.as_secs()
}

/// Relies on std::time::Duration::subsec_nanos: the fractional part of a
/// duration in nanoseconds, always less than one billion.
#[verifier::external_body]
pub(crate) fn fraction_nanos(d: &core::time::Duration) -> (r: u32)
    ensures
        r < 1_000_000_000,
{
    d.subsec_nanos()
}

/// Relies on chrono::DateTime::from_timestamp and on chrono::Local's offset
/// (`with_timezone(&Local)`): the local time zone's offset from UTC at the
/// given instant. `from_timestamp` succeeds for every instant in range with
/// less than a second of nanoseconds, and an offset is always less than a
/// day.
#[verifier::external_body]
pub(crate) fn local_offset_at(seconds: i64, nanos: u32) -> (r: Option<i32>)
    ensures
        r matches Some(o) ==> -86_400 < o < 86_400,
        0 <= seconds <= MAX_STAMP_SECONDS && nanos < 1_000_000_000 ==> r is Some,
{
    let utc = chrono::DateTime::from_timestamp(seconds, nanos)?;
    Some(utc.with_timezone(&chrono::Local).offset().local_minus_utc())
}

/// Relies on chrono::DateTime::to_rfc3339, on the instant built by
/// chrono::DateTime::from_timestamp and shown at chrono::FixedOffset::east_opt
/// of the offset; `None` where chrono cannot represent the instant or the
/// offset. `east_opt` accepts every offset of less than a day, and
/// `from_timestamp` every instant in range.
#[verifier::external_body]
pub(crate) fn rfc3339_text(t: &LocalStamp) -> (r: Option<String>)
    ensures
        r matches Some(s) ==> s@ == rfc3339_of(t.seconds as int, t.nanos as int, t.offset_seconds as int),
        !t.wf() ==> r is None,
        t.wf() && t.in_range() ==> r is Some,
{
    let offset = chrono::FixedOffset::east_opt(t.offset_seconds)?;
    let utc = chrono::DateTime::from_timestamp(t.seconds, t.nanos)?;
    Some(utc.with_timezone(&offset).to_rfc3339())
}

} // verus!
