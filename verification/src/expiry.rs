//! Expiry times: local wall-clock text in the account store, RFC 3339 text in the IDE.
use crate::text;
use chrono::{DateTime, Local, NaiveDateTime, SecondsFormat, TimeZone, Utc};
use vstd::prelude::*;

verus! {

// ---------------------------------------------------------------------------------------------
// Points in time
// ---------------------------------------------------------------------------------------------

/// The first second that `chrono` can represent.
pub const MIN_SECS: i64 = -8_334_601_228_800;

/// The last second that `chrono` can represent.
pub const MAX_SECS: i64 = 8_210_266_876_799;

/// How long the IDE is told that a token lives when its expiry is not known.
pub const FALLBACK_LIFETIME_SECS: i64 = 3600;

/// A point in time: seconds since the Unix epoch and the nanoseconds after them.
///
/// Nanoseconds from 1 000 000 000 on stand for a leap second.
#[derive(Clone, Copy, Debug, PartialEq, Eq, Structural)]
pub struct Instant {
    pub secs: i64,
    pub nanos: u32,
}

impl Instant {
    /// Within the range of seconds that `chrono` can represent.
    pub open spec fn in_range(self) -> bool {
        MIN_SECS <= self.secs <= MAX_SECS && self.nanos < 2_000_000_000
    }

    /// In range, with a leap second only at the end of a minute.
    pub open spec fn representable(self) -> bool {
        self.in_range() && (self.nanos >= 1_000_000_000 ==> (self.secs as int) % 60 == 59)
    }

    /// No fraction of a second has passed, of a leap second neither.
    pub open spec fn is_whole(self) -> bool {
        self.nanos == 0 || self.nanos == 1_000_000_000
    }

    /// The same point in time with a leap second only at the end of a minute.
    pub open spec fn settled(self) -> Instant {
        if self.nanos >= 1_000_000_000 && (self.secs as int) % 60 != 59 {
            Instant { secs: (self.secs + 1) as i64, nanos: (self.nanos - 1_000_000_000) as u32 }
        } else {
            self
        }
    }

    /// This point in time, as long as the seconds stay in range.
    pub open spec fn later_by(self, seconds: int) -> Instant {
        Instant { secs: (self.secs + seconds) as i64, nanos: self.nanos }
    }

    /// The same point in time with a leap second only at the end of a minute.
    fn settle(self) -> (r: Instant)
        requires
            self.in_range(),
        ensures
            r == self.settled(),
            r.representable(),
    {
        let second: i64 = self.second_of_minute();
        if self.nanos >= 1_000_000_000 && second != 59 {
            Instant { secs: self.secs + 1, nanos: self.nanos - 1_000_000_000 }
        } else {
            self
        }
    }

    fn second_of_minute(self) -> (r: i64)
        requires
            self.in_range(),
        ensures
            r == (self.secs as int) % 60,
    {
        // A whole number of minutes makes the seconds positive.
        let shifted: i64 = self.secs + 8_334_601_228_800;
        shifted % 60
    }
}

// ---------------------------------------------------------------------------------------------
// What is taken from chrono
// ---------------------------------------------------------------------------------------------

/// The error of a failed `chrono` parse.
#[verifier::external_type_specification]
#[verifier::external_body]
pub struct ExParseError(chrono::ParseError);

/// The wall-clock time that `NaiveDateTime::parse_from_str` reads from a text in a format, as
/// the seconds and nanoseconds that it would be in UTC; nothing when the text does not parse.
pub uninterp spec fn civil_time(text: Seq<char>, format: Seq<char>) -> Option<(i64, u32)>;

/// `chrono::NaiveDateTime::parse_from_str`: what it reads depends on the text and the format
/// alone, lies in the range of `chrono`, and is a leap second only for second 60 of a minute. The
/// format of the account store has no fraction of a second, so what is read in it is whole.
#[verifier::external_body]
fn parse_civil_time(text: &str, format: &str) -> (r: Result<Instant, chrono::ParseError>)
    ensures
        match r {
            Ok(t) => civil_time(text@, format@) == Some((t.secs, t.nanos)) && t.representable(),
            Err(_) => civil_time(text@, format@) is None,
        },
        format@ == kam_time_format() ==> (r matches Ok(t) ==> t.is_whole()),
{
    let t = NaiveDateTime::parse_from_str(text, format)?.and_utc();
    Ok(Instant { secs: t.timestamp(), nanos: t.timestamp_subsec_nanos() })
}

/// `chrono::Local.from_local_datetime(..).single()`, taken to UTC: the point in time at which
/// the clock on the wall shows a time, or nothing when there is no such point or more than one.
///
/// Which of these it is, and the shift, rest on the time zone of the machine. The shift is that
/// of a `FixedOffset`, less than a day either way, and leaves the nanoseconds alone.
#[verifier::external_body]
fn local_instant(civil: Instant) -> (r: Option<Instant>)
    requires
        civil.representable(),
    ensures
        r matches Some(t) ==> in_some_zone(civil, t),
{
    let naive = DateTime::from_timestamp(civil.secs, civil.nanos)?.naive_utc();
    let t = Local.from_local_datetime(&naive).single()?.with_timezone(&Utc);
    Some(Instant { secs: t.timestamp(), nanos: t.timestamp_subsec_nanos() })
}

/// The text of `DateTime::<Utc>::to_rfc3339_opts` with milliseconds and `Z`.
pub uninterp spec fn rfc3339_millis(secs: i64, nanos: u32) -> Seq<char>;

/// `chrono::DateTime::<Utc>::to_rfc3339_opts(SecondsFormat::Millis, true)`: the text depends on
/// the point in time alone, separates date and time by `T` and ends in three digits of a fraction
/// of a second, which are zero for a whole second, and `Z`.
#[verifier::external_body]
fn format_rfc3339_millis(t: Instant) -> (r: String)
    requires
        t.representable(),
    ensures
        r@ == rfc3339_millis(t.secs, t.nanos),
        is_utc_text(r@),
        t.is_whole() ==> ".000Z"@.is_suffix_of(r@),
{
    DateTime::from_timestamp(t.secs, t.nanos).unwrap().to_rfc3339_opts(SecondsFormat::Millis, true)
}

/// The text of `DateTime::<Utc>::to_rfc3339`.
pub uninterp spec fn rfc3339(secs: i64, nanos: u32) -> Seq<char>;

/// `chrono::DateTime::<Utc>::to_rfc3339`: the text depends on the point in time alone and
/// separates date and time by `T`.
#[verifier::external_body]
fn format_rfc3339(t: Instant) -> (r: String)
    requires
        t.representable(),
    ensures
        r@ == rfc3339(t.secs, t.nanos),
        r@.contains('T'),
{
    DateTime::from_timestamp(t.secs, t.nanos).unwrap().to_rfc3339()
}

/// `chrono::Utc::now`: a point in time that is not before the Unix epoch and no leap second.
/// Which one it is rests on the clock.
#[verifier::external_body]
fn utc_now() -> (r: Instant)
    ensures
        is_clock_reading(r),
{
    let t = Utc::now();
    Instant { secs: t.timestamp(), nanos: t.timestamp_subsec_nanos() }
}

// ---------------------------------------------------------------------------------------------
// The expiry that the IDE is given
// ---------------------------------------------------------------------------------------------

/// The format of expiry times in the account store.
pub open spec fn kam_time_format() -> Seq<char> {
    "%Y/%m/%d %H:%M:%S"@
}

/// The wall-clock time of an expiry in the account store.
pub open spec fn kam_civil_time(expires_at: Option<Seq<char>>) -> Option<Instant> {
    match text::filled(expires_at) {
        Some(raw) => match civil_time(raw, kam_time_format()) {
            Some((secs, nanos)) => Some(Instant { secs, nanos }),
            None => None,
        },
        None => None,
    }
}

/// `t` is the point in time at which clocks of some time zone show `civil`.
pub open spec fn in_some_zone(civil: Instant, t: Instant) -> bool {
    &&& t.in_range()
    &&& t.nanos == civil.nanos
    &&& -86_400 < t.secs - civil.secs < 86_400
}

/// A value that the clock can show.
pub open spec fn is_clock_reading(t: Instant) -> bool {
    t.in_range() && t.secs >= 0 && t.nanos < 1_000_000_000
}

/// One hour after `now`, but not beyond the last second that can be represented.
pub open spec fn fallback_expiry(now: Instant) -> Instant {
    if now.secs + FALLBACK_LIFETIME_SECS <= MAX_SECS {
        now.later_by(FALLBACK_LIFETIME_SECS as int)
    } else {
        Instant { secs: MAX_SECS, nanos: now.nanos }
    }
}

/// Date and time separated by `T`, with three digits of a fraction of a second, in UTC.
pub open spec fn is_utc_text(r: Seq<char>) -> bool {
    r.contains('T') && r.len() >= 5 && r[r.len() - 5] == '.' && r.last() == 'Z'
}

/// What the IDE is told of a token that expires at `t`.
pub open spec fn ide_expiry_text(t: Instant) -> Seq<char> {
    rfc3339_millis(t.settled().secs, t.settled().nanos)
}

/// An expiry as the IDE keeps it: RFC 3339, in UTC, with milliseconds.
pub fn ide_expiry(expiry: Instant) -> (r: String)
    requires
        expiry.in_range(),
    ensures
        r@ == ide_expiry_text(expiry),
        is_utc_text(r@),
        expiry.is_whole() ==> ".000Z"@.is_suffix_of(r@),
{
    format_rfc3339_millis(expiry.settle())
}

/// The expiry that the IDE is given at `now` when none is known: one hour later.
pub fn fallback_ide_expiry(now: Instant) -> (r: String)
    requires
        is_clock_reading(now),
    ensures
        r@ == ide_expiry_text(fallback_expiry(now)),
        is_utc_text(r@),
{
    if now.secs <= MAX_SECS - FALLBACK_LIFETIME_SECS {
        ide_expiry(Instant { secs: now.secs + FALLBACK_LIFETIME_SECS, nanos: now.nanos })
    } else {
        ide_expiry(Instant { secs: MAX_SECS, nanos: now.nanos })
    }
}

/// The wall-clock time of an expiry in the account store (`%Y/%m/%d %H:%M:%S`); nothing when it is
/// missing, blank or unreadable.
pub fn kam_wall_time(expires_at: Option<&str>) -> (r: Option<Instant>)
    ensures
        r == kam_civil_time(text::str_of(expires_at)),
        r matches Some(t) ==> t.representable() && t.is_whole(),
{
    match expires_at {
        Some(s) => {
            let raw = s.trim();
            if raw.is_empty() {
                return None;
            }
            match parse_civil_time(raw, "%Y/%m/%d %H:%M:%S") {
                Ok(civil) => Some(civil),
                Err(_) => None,
            }
        },
        None => None,
    }
}

/// The machine's time zone was asked when the clock on the wall shows `civil`, and gave this
/// answer: a point in time, or nothing when there is none or more than one.
pub closed spec fn is_zone_answer(civil: Instant, answer: Option<Instant>) -> bool {
    call_ensures(local_instant, (civil,), answer)
}

/// The machine's clock was asked and showed `now`.
pub closed spec fn is_clock_answer(now: Instant) -> bool {
    call_ensures(utc_now, (), now)
}

/// The time on the machine's clock.
pub(crate) fn read_clock() -> (r: Instant)
    ensures
        is_clock_answer(r),
        is_clock_reading(r),
{
    utc_now()
}

/// The expiry of a token that is taken to live for an hour from now.
pub open spec fn is_fallback_text(r: Seq<char>) -> bool {
    exists|now: Instant|
        {
            &&& #[trigger] is_clock_answer(now)
            &&& is_clock_reading(now)
            &&& r == ide_expiry_text(fallback_expiry(now))
        }
}

/// What [`kam_expires_at_to_ide_rfc3339`] may return: the expiry, which is a whole second, in the
/// machine's time zone, or an hour from now when the store has no readable expiry or the zone does
/// not settle it.
pub open spec fn is_ide_expiry_of(expires_at: Option<Seq<char>>, r: Seq<char>) -> bool {
    match kam_civil_time(expires_at) {
        Some(civil) => exists|answer: Option<Instant>|
            {
                &&& #[trigger] is_zone_answer(civil, answer)
                &&& match answer {
                    Some(t) => {
                        &&& in_some_zone(civil, t)
                        &&& r == ide_expiry_text(t)
                        &&& ".000Z"@.is_suffix_of(r)
                    },
                    None => is_fallback_text(r),
                }
            },
        None => is_fallback_text(r),
    }
}

/// An expiry of the account store (`%Y/%m/%d %H:%M:%S`, local time) as the IDE keeps it (RFC
/// 3339, UTC). A missing, blank or unreadable expiry becomes one hour from now.
pub fn kam_expires_at_to_ide_rfc3339(expires_at: Option<&str>) -> (r: String)
    ensures
        is_ide_expiry_of(text::str_of(expires_at), r@),
        is_utc_text(r@),
{
    match kam_wall_time(expires_at) {
        Some(civil) => {
            let answer = local_instant(civil);
            assert(is_zone_answer(civil, answer));
            match answer {
                Some(t) => {
                    return ide_expiry(t);
                },
                None => {},
            }
        },
        None => {},
    }
    fallback_ide_expiry(read_clock())
}

/// Read back with the shift of the time zone, less than a day either way, the point in time that
/// the IDE is told shows the wall-clock time of the account store.
pub proof fn law_expiry_reads_back(civil: Instant, t: Instant)
    requires
        is_zone_answer(civil, Some(t)),
    ensures
        ({
            let shift = civil.secs - t.secs;
            &&& -86_400 < shift < 86_400
            &&& t.later_by(shift) == civil
        }),
{
}

// ---------------------------------------------------------------------------------------------
// The expiry of a freshly issued token
// ---------------------------------------------------------------------------------------------

/// A token issued at `now` for `seconds` expires at a time that can be represented.
pub open spec fn lifetime_fits(now: Instant, seconds: int) -> bool {
    is_clock_reading(now) && MIN_SECS <= now.secs + seconds <= MAX_SECS
}

/// Whether a token issued at `now` for `seconds` expires at a time that can be represented.
pub fn check_lifetime(now: Instant, seconds: i64) -> (r: bool)
    requires
        is_clock_reading(now),
    ensures
        r == lifetime_fits(now, seconds as int),
{
    MIN_SECS - now.secs <= seconds && seconds <= MAX_SECS - now.secs
}

/// When a token issued at `now` for `seconds` expires, in RFC 3339.
pub fn expiry_after(now: Instant, seconds: i64) -> (r: String)
    requires
        lifetime_fits(now, seconds as int),
    ensures
        r@ == rfc3339((now.secs + seconds) as i64, now.nanos),
        r@.contains('T'),
{
    format_rfc3339(Instant { secs: now.secs + seconds, nanos: now.nanos })
}

// ---------------------------------------------------------------------------------------------
// Laws
// ---------------------------------------------------------------------------------------------

/// Settling a leap second names the same nanosecond, with a leap second left only in the last
/// second of a minute; any other point in time stays as it is.
pub proof fn law_settling_keeps_the_moment(t: Instant)
    requires
        t.in_range(),
    ensures
        ({
            let r = t.settled();
            &&& r.secs * 1_000_000_000 + r.nanos == t.secs * 1_000_000_000 + t.nanos
            &&& r.nanos < 1_000_000_000 || r.secs as int % 60 == 59
            &&& t.nanos < 1_000_000_000 || t.secs as int % 60 == 59 ==> r == t
        }),
{
}

/// The IDE is told the very point in time of an expiry, and with no expiry known one that lies an
/// hour after the clock, as far as that can be represented.
pub proof fn law_ide_is_told_the_expiry(t: Instant, now: Instant)
    ensures
        t.nanos < 1_000_000_000 ==> ide_expiry_text(t) == rfc3339_millis(t.secs, t.nanos),
        t.secs as int % 60 == 59 ==> ide_expiry_text(t) == rfc3339_millis(t.secs, t.nanos),
        0 <= now.secs <= 8_210_266_873_199 ==> {
            &&& fallback_expiry(now).secs == now.secs + 3600
            &&& fallback_expiry(now).nanos == now.nanos
        },
        8_210_266_873_199 < now.secs ==> fallback_expiry(now).secs == 8_210_266_876_799,
        fallback_expiry(now).nanos == now.nanos,
{
}

/// An expiry is read from the trimmed text of the store, in the store's format.
pub proof fn law_stored_expiry_is_read_whole(text: Seq<char>, t: Instant)
    ensures
        ({
            let read = civil_time(text::trimmed(text), "%Y/%m/%d %H:%M:%S"@);
            kam_civil_time(Some(text)) == Some(t) <==> text::trimmed(text) != Seq::<char>::empty()
                && read == Some((t.secs, t.nanos))
        }),
        kam_civil_time(None) is None,
{
    if text::trimmed(text).len() == 0 {
        assert(text::trimmed(text) == Seq::<char>::empty());
    }
}

/// What the IDE is told of a readable expiry is the moment that the time zone answered for the
/// stored wall-clock time, less than a day away from it, in whole seconds; an hour from now it is
/// told only when the zone had no answer. Of an unreadable expiry it is always told that.
pub proof fn law_readable_expiry_is_told(expires_at: Option<Seq<char>>, r: Seq<char>)
    requires
        is_ide_expiry_of(expires_at, r),
    ensures
        match kam_civil_time(expires_at) {
            Some(civil) => {
                ||| exists|t: Instant|
                    {
                        &&& #[trigger] is_zone_answer(civil, Some(t))
                        &&& -86_400 < t.secs - civil.secs < 86_400
                        &&& t.nanos == civil.nanos
                        &&& t.nanos == 0 ==> r == rfc3339_millis(t.secs, 0)
                        &&& ".000Z"@.is_suffix_of(r)
                    }
                ||| is_zone_answer(civil, None) && is_fallback_text(r)
            },
            None => is_fallback_text(r),
        },
        is_fallback_text(r) ==> exists|now: Instant|
            {
                &&& #[trigger] is_clock_answer(now)
                &&& now.secs <= 8_210_266_873_199 ==> r == rfc3339_millis(
                    (now.secs + 3600) as i64,
                    now.nanos,
                )
            },
{
    if is_fallback_text(r) {
        let now = choose|now: Instant|
            {
                &&& #[trigger] is_clock_answer(now)
                &&& is_clock_reading(now)
                &&& r == ide_expiry_text(fallback_expiry(now))
            };
        assert(is_clock_answer(now));
    }
    match kam_civil_time(expires_at) {
        Some(civil) => {
            let answer = choose|answer: Option<Instant>|
                {
                    &&& #[trigger] is_zone_answer(civil, answer)
                    &&& match answer {
                        Some(t) => {
                            &&& in_some_zone(civil, t)
                            &&& r == ide_expiry_text(t)
                            &&& ".000Z"@.is_suffix_of(r)
                        },
                        None => is_fallback_text(r),
                    }
                };
            if answer is Some {
                assert(is_zone_answer(civil, Some(answer->0)));
            }
        },
        None => {},
    }
}

/// A lifetime is accepted exactly when the token expires within the years that can be written:
/// from the first second of the year -262143 to the last one of the year 262142.
pub proof fn law_lifetime_has_to_fit(now: Instant, seconds: int)
    requires
        is_clock_reading(now),
    ensures
        lifetime_fits(now, seconds) <==> -8_334_601_228_800 <= now.secs + seconds
            <= 8_210_266_876_799,
        0 <= now.secs <= 8_210_266_876_799,
        now.nanos < 1_000_000_000,
{
}

/// A token that was issued for so many seconds expires exactly that many seconds after the clock,
/// and is accepted exactly when that moment can be written.
pub proof fn law_token_lives_for_its_lifetime(now: Instant, seconds: i64, fits: bool, r: String)
    requires
        is_clock_reading(now),
        call_ensures(check_lifetime, (now, seconds), fits),
        call_ensures(expiry_after, (now, seconds), r),
    ensures
        fits <==> -8_334_601_228_800 <= now.secs + seconds <= 8_210_266_876_799,
        fits ==> exists|secs: i64| secs - now.secs == seconds && r@ == #[trigger] rfc3339(
            secs,
            now.nanos,
        ),
        r@.contains('T'),
{
    let secs = (now.secs + seconds) as i64;
    if fits {
        assert(secs - now.secs == seconds);
        assert(r@ == rfc3339(secs, now.nanos));
    }
}

} // verus!
