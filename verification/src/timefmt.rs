use vstd::prelude::*;

verus! {

/// The RFC 3339 rendering of a UTC date-time given as whole seconds since the
/// Unix epoch. The rendering is done by the date-time library; it depends on
/// the seconds value alone, so it is only named here, never written out.
pub uninterp spec fn rfc3339_of(timestamp: int) -> Seq<char>;

/// Whether a seconds-since-epoch value lies in the range the date-time
/// library can represent: its `DateTime` type covers the years -262143
/// through 262142, which in whole seconds is the range below.
pub open spec fn timestamp_representable(timestamp: int) -> bool {
    -8334601228800 <= timestamp <= 8210266876799
}

/// Relies on chrono's `DateTime::<Utc>::from_timestamp` and
/// `DateTime::to_rfc3339`: a timestamp within the representable range
/// resolves to a UTC date-time (`from_timestamp` returns `None` only out of
/// range), and `to_rfc3339` renders it from the seconds value alone.
#[verifier::external_body]
pub(crate) fn rfc3339_utc(timestamp: i64) -> (s: String)
    requires
        timestamp_representable(timestamp as int),
    ensures
        s@ == rfc3339_of(timestamp as int),
{
    chrono::DateTime::<chrono::Utc>::from_timestamp(timestamp, 0).unwrap().to_rfc3339()
}

} // verus!
