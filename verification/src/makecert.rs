//! The validity of a certificate that is made on the spot.

use vstd::prelude::*;

verus! {

/// Seconds in a day.
pub const ONE_DAY: u64 = 86400;

/// The second after which a certificate made at `now` for `valid_days`
/// days is no longer valid.
pub open spec fn expiration(now: u64, valid_days: u32) -> int {
    now + 86400 * valid_days
}

/// Whether the validity of a certificate made at `now`, in seconds since
/// the epoch, for `valid_days` days can be written down: its end must be a
/// time that a signed 64-bit count of seconds holds.
pub fn validity_fits(now: u64, valid_days: u32) -> (fits: bool)
    ensures
        fits == (expiration(now, valid_days) <= i64::MAX),
{
    let span: u64 = ONE_DAY * (valid_days as u64);
    now <= 0x7fff_ffff_ffff_ffff && span <= 0x7fff_ffff_ffff_ffff - now
}

/// The validity of a certificate made at `now`, in seconds since the
/// epoch, for `valid_days` days: from `now` on, and for so many days of
/// 86400 seconds.
pub fn validity(now: u64, valid_days: u32) -> (window: (i64, i64))
    requires
        expiration(now, valid_days) <= i64::MAX,
    ensures
        window.0 == now,
        window.1 == expiration(now, valid_days),
{
    let span: u64 = ONE_DAY * (valid_days as u64);
    (now as i64, (now + span) as i64)
}

} // verus!
