//! Instants and their renderings.
//!
//! The time-and-sales endpoint speaks exchange-local time (America/New_York)
//! on the wire while this library's callers hold UTC instants, both as whole
//! seconds since the Unix epoch.  The zone's offset table is the one piece
//! that only the time-zone database can answer; it sits behind one trusted
//! wrapper, and the conversions and renderings around it are verified.

use vstd::prelude::*;

verus! {

use crate::calendar::{civil_from_days, civil_of};
use crate::text::{dec_seq, dec2_seq, u64_dec, u64_dec2};
use vstd::string::StringExecFns;

/// Earliest UTC instant, in seconds since the Unix epoch, that the time
/// helpers accept.
pub const UTC_SECS_MIN: i64 = 0;

/// Latest UTC instant (the start of the year 2100) that the time helpers
/// accept.
pub const UTC_SECS_MAX: i64 = 4102444800;

/// The UTC offset, in seconds, that America/New_York has at the given UTC
/// instant.  The zone's offset table is compiled into the time-zone crate,
/// so the offset is a function of the instant alone.
pub uninterp spec fn ny_offset_of(utc_secs: int) -> int;

/// Relies on chrono-tz: `offset_from_utc_datetime` for America/New_York
/// resolves any instant to exactly one span of its offset table, and the
/// resulting `FixedOffset` is strictly between minus and plus one day.
#[verifier::external_body]
fn ny_offset_at(utc_secs: i64) -> (off: i32)
    requires
        UTC_SECS_MIN - 86400 <= utc_secs <= UTC_SECS_MAX + 86400,
    ensures
        off as int == ny_offset_of(utc_secs as int),
        -86400 < off < 86400,
{
    let dt = chrono::DateTime::<chrono::Utc>::from_timestamp(utc_secs, 0).unwrap();
    let off = chrono::TimeZone::offset_from_utc_datetime(&chrono_tz::America::New_York, &dt.naive_utc());
    chrono::Offset::fix(&off).local_minus_utc()
}

/// Converts a UTC instant to the America/New_York local time that renders
/// it on the wire.
pub fn ny_utc_to_local(utc_secs: i64) -> (local: i64)
    requires
        UTC_SECS_MIN <= utc_secs <= UTC_SECS_MAX,
    ensures
        local as int == utc_secs + ny_offset_of(utc_secs as int),
        utc_secs - 86400 < local < utc_secs + 86400,
{
    let off = ny_offset_at(utc_secs);
    utc_secs + off as i64
}

/// A local time is unambiguous when at most one UTC instant renders to it;
/// at a daylight-saving fall-back one local hour stands for two instants.
pub open spec fn ny_local_unambiguous(local: int) -> bool {
    forall|u1: int, u2: int|
        u1 + ny_offset_of(u1) == local && u2 + ny_offset_of(u2) == local ==> u1 == u2
}

/// Both candidate instants that `ny_local_to_utc` probes fail to render to
/// the given local time.  This is what a `None` result reports; it happens
/// inside the gap of a daylight-saving spring-forward, where the local time
/// names no instant at all.
pub open spec fn ny_probe_misses(local: int) -> bool {
    let u1 = local - ny_offset_of(local);
    let u2 = local - ny_offset_of(u1);
    u1 + ny_offset_of(u1) != local && u2 + ny_offset_of(u2) != local
}

/// Converts an America/New_York local time back to a UTC instant.  Any
/// instant returned renders to exactly the given local time; `None` is
/// returned only when both probed candidates miss.
pub fn ny_local_to_utc(local: i64) -> (r: Option<i64>)
    requires
        UTC_SECS_MIN <= local <= UTC_SECS_MAX,
    ensures
        r matches Some(u) ==> u as int + ny_offset_of(u as int) == local,
        r matches Some(u) ==> local - 86400 < u < local + 86400,
        r is None ==> ny_probe_misses(local as int),
{
    let off_local = ny_offset_at(local);
    let u1 = local - off_local as i64;
    let off_u1 = ny_offset_at(u1);
    if off_u1 == off_local {
        Some(u1)
    } else {
        let u2 = local - off_u1 as i64;
        let off_u2 = ny_offset_at(u2);
        if off_u2 == off_u1 {
            Some(u2)
        } else {
            None
        }
    }
}

/// Converting a UTC instant to its America/New_York local time and that
/// local time back to UTC recovers the instant exactly, whenever the local
/// time is unambiguous — that is, away from a daylight-saving fall-back.
/// `back` is any instant that renders to the same local time as `utc`, as
/// `ny_local_to_utc` guarantees of its result.
pub proof fn lemma_ny_round_trip(utc: int, back: int)
    requires
        back + ny_offset_of(back) == utc + ny_offset_of(utc),
        ny_local_unambiguous(utc + ny_offset_of(utc)),
    ensures
        back == utc,
{
}

/// The day number (days since 1970-01-01) a non-negative local time falls
/// on.
pub open spec fn days_of(secs: int) -> int {
    secs / 86400
}

/// The hour of day of a non-negative local time.
pub open spec fn hour_of(secs: int) -> int {
    (secs % 86400) / 3600
}

/// The minute of hour of a non-negative local time.
pub open spec fn minute_of(secs: int) -> int {
    ((secs % 86400) % 3600) / 60
}

/// The second of minute of a non-negative local time.
pub open spec fn second_of(secs: int) -> int {
    (secs % 86400) % 60
}

/// The `%Y-%m-%d %H:%M` rendering of a time, the form the time-and-sales
/// query carries.
pub open spec fn minute_seq(secs: int) -> Seq<char> {
    let ymd = civil_of(days_of(secs));
    dec_seq(ymd.0 as nat) + "-"@ + dec2_seq(ymd.1 as nat) + "-"@ + dec2_seq(ymd.2 as nat) + " "@
        + dec2_seq(hour_of(secs) as nat) + ":"@ + dec2_seq(minute_of(secs) as nat)
}

/// The RFC 3339 rendering of a UTC instant, the form the history query
/// carries.
pub open spec fn rfc3339_seq(secs: int) -> Seq<char> {
    let ymd = civil_of(days_of(secs));
    dec_seq(ymd.0 as nat) + "-"@ + dec2_seq(ymd.1 as nat) + "-"@ + dec2_seq(ymd.2 as nat) + "T"@
        + dec2_seq(hour_of(secs) as nat) + ":"@ + dec2_seq(minute_of(secs) as nat) + ":"@
        + dec2_seq(second_of(secs) as nat) + "Z"@
}

/// Renders a local time down to the minute, as the time-and-sales query
/// wants it.
pub fn format_minute(secs: i64) -> (r: String)
    requires
        0 <= secs <= UTC_SECS_MAX + 86400,
    ensures
        r@ == minute_seq(secs as int),
{
    let total = secs as u64;
    let days = total / 86400;
    let rem = total % 86400;
    let (y, m, d) = civil_from_days(days);
    let hh = rem / 3600;
    let mm = (rem % 3600) / 60;
    let r = u64_dec(y).concat("-").concat(u64_dec2(m as u64).as_str()).concat(
        "-",
    ).concat(u64_dec2(d as u64).as_str()).concat(" ").concat(
        u64_dec2(hh).as_str(),
    ).concat(":").concat(u64_dec2(mm).as_str());
    proof {
        assert(r@ =~= minute_seq(secs as int));
    }
    r
}

/// Renders a UTC instant in RFC 3339 form, as the history query wants it.
pub fn format_rfc3339(secs: i64) -> (r: String)
    requires
        UTC_SECS_MIN <= secs <= UTC_SECS_MAX,
    ensures
        r@ == rfc3339_seq(secs as int),
{
    let total = secs as u64;
    let days = total / 86400;
    let rem = total % 86400;
    let (y, m, d) = civil_from_days(days);
    let hh = rem / 3600;
    let mm = (rem % 3600) / 60;
    let ss = rem % 60;
    let r = u64_dec(y).concat("-").concat(u64_dec2(m as u64).as_str()).concat(
        "-",
    ).concat(u64_dec2(d as u64).as_str()).concat("T").concat(
        u64_dec2(hh).as_str(),
    ).concat(":").concat(u64_dec2(mm).as_str()).concat(":").concat(
        u64_dec2(ss).as_str(),
    ).concat("Z");
    proof {
        assert(r@ =~= rfc3339_seq(secs as int));
    }
    r
}

} // verus!
