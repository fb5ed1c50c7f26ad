use vstd::prelude::*;
use vstd::string::*;

use crate::oid::{oid_text_valid, parse_oid_text};
use crate::text::{all_digits, dec_text, decimal_text, hex_char, hex_fixed, hex_text_fixed, is_digit};

use std::time::SystemTime;

verus! {

/// Whether every text of `oids` is a valid dotted OID.
pub open spec fn all_oids_valid(oids: Seq<String>) -> bool {
    forall|i: int| 0 <= i < oids.len() ==> oid_text_valid(#[trigger] oids[i]@)
}

/// Whether `p` is the position of the first invalid OID text of `oids`.
pub open spec fn is_first_invalid(oids: Seq<String>, p: int) -> bool {
    &&& 0 <= p < oids.len()
    &&& !oid_text_valid(oids[p]@)
    &&& forall|q: int| 0 <= q < p ==> oid_text_valid(#[trigger] oids[q]@)
}

/// The message for an invalid OID text at a position of the list.
pub open spec fn invalid_oid_message(oid: Seq<char>, pos: nat) -> Seq<char> {
    "Invalid OID: '"@ + oid + "' at position "@ + dec_text(pos)
}

/// Checks a list of OID texts: it must not be empty, and each dot-separated
/// piece of each text must be the text of a `u32`. The error names the first
/// invalid text and its position.
pub fn validate_oids(oids: &[String]) -> (r: Result<(), String>)
    ensures
        r is Ok <==> (oids@.len() > 0 && all_oids_valid(oids@)),
        oids@.len() == 0 ==> (r matches Err(e) && e@ == "SNMP OID list is empty"@),
        forall|p: int|
            is_first_invalid(oids@, p) ==> (r matches Err(e) && e@ == invalid_oid_message(
                oids@[p]@,
                p as nat,
            )),
{
    if oids.len() == 0 {
        return Err(String::from_str("SNMP OID list is empty"));
    }
    let mut pos: usize = 0;
    while pos < oids.len()
        invariant
            pos <= oids@.len(),
            forall|q: int| 0 <= q < pos ==> oid_text_valid(#[trigger] oids@[q]@),
        decreases oids.len() - pos,
    {
        let oid = &oids[pos];
        if parse_oid_text(oid.as_str()).is_none() {
            let mut msg = String::from_str("Invalid OID: '");
            msg.append(oid.as_str());
            msg.append("' at position ");
            let p = decimal_text(pos as u64);
            msg.append(p.as_str());
            assert forall|p: int| is_first_invalid(oids@, p) implies p == pos by {
                if p < pos {
                    assert(oid_text_valid(oids@[p]@));
                }
                if p > pos {
                    assert(oid_text_valid(oids@[pos as int]@));
                }
            }
            return Err(msg);
        }
        pos = pos + 1;
    }
    Ok(())
}

/// The format of the times that a poll records: date, time and milliseconds.
pub const TIME_FMT: &'static str = "%Y-%m-%d %H:%M:%S%.3f";

/// Whether `y` is a year as chrono writes it: four digits for the years 0 to
/// 9999, else a sign and at least four digits.
pub open spec fn year_shape(y: Seq<char>) -> bool {
    ||| (y.len() == 4 && all_digits(y))
    ||| (y.len() >= 5 && (y[0] == '+' || y[0] == '-') && all_digits(y.skip(1)))
}

/// Whether `s` and `s` + 1 hold two decimal digits.
pub open spec fn two_digits_at(s: Seq<char>, i: int) -> bool {
    is_digit(s[i]) && is_digit(s[i + 1])
}

/// Whether `s` is a date and a time to the second: a year, then
/// `-MM-DD`, the separator `sep`, and `HH:MM:SS`, each field in two digits.
pub open spec fn date_time_shape(s: Seq<char>, sep: char) -> bool {
    &&& s.len() >= 19
    &&& year_shape(s.take(s.len() - 15))
    &&& {
        let t = s.skip(s.len() - 15);
        &&& t[0] == '-'
        &&& two_digits_at(t, 1)
        &&& t[3] == '-'
        &&& two_digits_at(t, 4)
        &&& t[6] == sep
        &&& two_digits_at(t, 7)
        &&& t[9] == ':'
        &&& two_digits_at(t, 10)
        &&& t[12] == ':'
        &&& two_digits_at(t, 13)
    }
}

/// Whether `f` is a dot and `n` decimal digits.
pub open spec fn fraction_shape(f: Seq<char>, n: nat) -> bool {
    f.len() == n + 1 && f[0] == '.' && all_digits(f.skip(1))
}

/// Whether `s` is a date and time to the millisecond with the separator `sep`,
/// such as `2024-05-01 12:00:00.250`.
pub open spec fn millis_time_shape(s: Seq<char>, sep: char) -> bool {
    &&& s.len() >= 23
    &&& date_time_shape(s.take(s.len() - 4), sep)
    &&& fraction_shape(s.skip(s.len() - 4), 3)
}

/// Whether `s` is an RFC 3339 time in UTC as chrono's `to_rfc3339` writes it:
/// a date and time with `T`, then no fraction or a dot and 3, 6 or 9 digits,
/// then `+00:00`.
pub open spec fn rfc3339_utc_shape(s: Seq<char>) -> bool {
    &&& s.len() >= 25
    &&& s.skip(s.len() - 6) == seq!['+', '0', '0', ':', '0', '0']
    &&& exists|k: int|
        19 <= k <= s.len() - 6 && date_time_shape(#[trigger] s.take(k), 'T') && {
            let f = s.subrange(k, s.len() - 6);
            f.len() == 0 || fraction_shape(f, 3) || fraction_shape(f, 6) || fraction_shape(f, 9)
        }
}

/// The most seconds after the Unix epoch of a clock reading that is written
/// as a date: chrono's last second (the end of the year 262142) less one day,
/// so that the reading and the reading moved by any offset within a day are
/// all times that chrono represents.
pub const MAX_CLOCK_SECS: u64 = 8_210_266_790_399;

/// The first second of the year 10000, in seconds after the Unix epoch:
/// chrono writes the years before it in four digits.
pub const YEAR_10000_SECS: u64 = 253_402_300_800;

/// Whether a clock reading (seconds and nanoseconds after the Unix epoch) can
/// be written as a date: there is one, and it lies within `MAX_CLOCK_SECS`.
pub open spec fn usable_reading(reading: Option<(u64, u32)>) -> bool {
    reading matches Some((secs, nanos)) && secs <= MAX_CLOCK_SECS && nanos < 1_000_000_000
}

/// The local time `secs` seconds and `nanos` nanoseconds after the Unix epoch,
/// made by chrono's `DateTime::from_timestamp`, moved to the local time zone
/// and written in the format `fmt`. `from_timestamp` gives a time for every
/// reading within `MAX_CLOCK_SECS`. Only the format `TIME_FMT` is admitted:
/// with a malformed format chrono's `Display` fails and `to_string` panics.
/// chrono writes `%Y` as four digits for the years 0 to 9999 and as a sign and
/// at least four digits otherwise, `%m`, `%d`, `%H`, `%M`, `%S` in two digits
/// each, and `%.3f` as a dot and three digits; a local time before the year
/// 10000 (which a reading more than a day before it is, the local offset
/// being less than a day) thus has 23 characters. Which local time it is depends
/// on the machine's time zone and is left unsaid; chrono panics only where the
/// machine's time zone data cannot be read.
#[verifier::external_body]
fn local_time_text_at(secs: i64, nanos: u32, fmt: &str) -> (s: String)
    requires
        0 <= secs <= MAX_CLOCK_SECS,
        nanos < 1_000_000_000,
        fmt@ == TIME_FMT@,
    ensures
        millis_time_shape(s@, ' '),
        secs + 86_400 < YEAR_10000_SECS ==> s@.len() == 23,
{
    let utc = chrono::DateTime::from_timestamp(secs, nanos).expect("a time within MAX_CLOCK_SECS");
    utc.with_timezone(&chrono::Local).format(fmt).to_string()
}

/// The local time of a clock reading, as a poll records it (`TIME_FMT`): the
/// date, a space, the time and the milliseconds, such as
/// `2024-05-01 12:00:00.250`; nothing where the reading cannot be written as
/// a date.
pub fn format_local_time(reading: Option<(u64, u32)>) -> (r: Option<String>)
    ensures
        r is Some <==> usable_reading(reading),
        r matches Some(t) ==> millis_time_shape(t@, ' '),
        r matches Some(t) ==> (reading.unwrap().0 + 86_400 < YEAR_10000_SECS ==> t@.len() == 23),
{
    match reading {
        Some((secs, nanos)) => {
            if secs <= MAX_CLOCK_SECS && nanos < 1_000_000_000 {
                Some(local_time_text_at(secs as i64, nanos, TIME_FMT))
            } else {
                None
            }
        },
        None => None,
    }
}

/// The local time now, as a poll records it (`TIME_FMT`); nothing where the
/// system clock lies before the Unix epoch or past `MAX_CLOCK_SECS`. Which time it is depends on the
/// clock and the machine's time zone.
pub fn get_fmt_current_time() -> (r: Option<String>)
    ensures
        r matches Some(t) ==> millis_time_shape(t@, ' '),
{
    let now = system_time_now();
    format_local_time(duration_since_unix_epoch(&now))
}

#[verifier::external_type_specification]
#[verifier::external_body]
pub struct ExSystemTime(std::time::SystemTime);

/// `SystemTime::now()`: the system clock's time; nothing can be said of it.
#[verifier::external_body]
fn system_time_now() -> SystemTime {
    SystemTime::now()
}

/// `t.duration_since(UNIX_EPOCH)`, as whole seconds and the nanoseconds of the
/// second begun; nothing when `t` lies before the epoch.
#[verifier::external_body]
fn duration_since_unix_epoch(t: &SystemTime) -> (r: Option<(u64, u32)>)
    ensures
        r matches Some((s, n)) ==> n < 1_000_000_000,
{
    t.duration_since(std::time::UNIX_EPOCH).ok().map(|d| (d.as_secs(), d.subsec_nanos()))
}

/// Whether `c` is a lower-case hexadecimal digit.
pub open spec fn is_lower_hex(c: char) -> bool {
    ('0' <= c && c <= '9') || ('a' <= c && c <= 'f')
}

/// Whether `s` is the text of a random (version 4) UUID, hyphenated and in
/// lower case, as `Uuid::new_v4().to_string()` writes it.
pub open spec fn uuid_v4_shape(s: Seq<char>) -> bool {
    &&& s.len() == 36
    &&& forall|i: int|
        0 <= i < 36 ==> if i == 8 || i == 13 || i == 18 || i == 23 {
            s[i] == '-'
        } else {
            is_lower_hex(#[trigger] s[i])
        }
    &&& s[14] == '4'
    &&& (s[19] == '8' || s[19] == '9' || s[19] == 'a' || s[19] == 'b')
}

/// A fresh random UUID, made by `Uuid::new_v4()` and written by its `Display`:
/// 32 lower-case hexadecimal digits in groups of 8, 4, 4, 4 and 12 joined by
/// hyphens, with the version digit 4 and the variant digit one of 8, 9, a, b.
#[verifier::external_body]
fn new_v4_uuid_text() -> (s: String)
    ensures
        uuid_v4_shape(s@),
{
    uuid::Uuid::new_v4().to_string()
}

/// The number of nanoseconds in `secs` seconds and `nanos` nanoseconds.
pub open spec fn total_nanos(secs: u64, nanos: u32) -> nat {
    (secs * 1_000_000_000 + nanos) as nat
}

/// The session id of a session begun `secs` seconds and `nanos` nanoseconds
/// after the Unix epoch: the 48 lowest bits of the nanoseconds in 12
/// lower-case hexadecimal digits, as `{:012x}` writes them.
pub open spec fn session_id_spec(secs: u64, nanos: u32) -> Seq<char> {
    hex_fixed(total_nanos(secs, nanos) % 0x1_0000_0000_0000, 12)
}

/// The session id of a session begun `secs` seconds and `nanos` nanoseconds
/// after the Unix epoch.
pub fn session_id_text(secs: u64, nanos: u32) -> (s: String)
    ensures
        s@ == session_id_spec(secs, nanos),
{
    let total: u128 = (secs as u128) * 1_000_000_000 + (nanos as u128);
    let low: u128 = total & 0xFFFF_FFFF_FFFF;
    assert(low == total % 0x1_0000_0000_0000) by (bit_vector)
        requires
            low == total & 0xFFFF_FFFF_FFFF,
    ;
    hex_text_fixed(low as u64, 12)
}

/// Whether `s` is a session id: 12 lower-case hexadecimal digits, or a random UUID.
pub open spec fn session_id_shape(s: Seq<char>) -> bool {
    (s.len() == 12 && forall|i: int| 0 <= i < 12 ==> is_lower_hex(#[trigger] s[i])) || uuid_v4_shape(
        s,
    )
}

/// The digits of `hex_fixed` are lower-case hexadecimal digits.
pub proof fn lemma_hex_fixed_lower(n: nat, w: nat)
    ensures
        hex_fixed(n, w).len() == w,
        forall|i: int| 0 <= i < w ==> is_lower_hex(#[trigger] hex_fixed(n, w)[i]),
    decreases w,
{
    if w > 0 {
        lemma_hex_fixed_lower(n / 16, (w - 1) as nat);
        let d = n % 16;
        assert(is_lower_hex(hex_char(d)));
    }
}

/// An id for this session of the monitor: made from the system clock, or a
/// random UUID where the clock lies before the Unix epoch.
pub fn get_session_id() -> (s: String)
    ensures
        session_id_shape(s@),
        (exists|secs: u64, nanos: u32|
            nanos < 1_000_000_000 && s@ == #[trigger] session_id_spec(secs, nanos)) || uuid_v4_shape(
            s@,
        ),
{
    let now = system_time_now();
    session_id_from(duration_since_unix_epoch(&now))
}

/// The session id for a clock reading (seconds and nanoseconds after the Unix
/// epoch): the id made from the reading, or a fresh random UUID where there
/// is no reading because the clock lies before the epoch.
pub fn session_id_from(reading: Option<(u64, u32)>) -> (s: String)
    ensures
        match reading {
            Some((secs, nanos)) => s@ == session_id_spec(secs, nanos),
            None => uuid_v4_shape(s@),
        },
        session_id_shape(s@),
{
    match reading {
        Some((secs, nanos)) => {
            let s = session_id_text(secs, nanos);
            proof {
                lemma_hex_fixed_lower(total_nanos(secs, nanos) % 0x1_0000_0000_0000, 12);
            }
            s
        },
        None => new_v4_uuid_text(),
    }
}

/// The two decimal digits of `n < 100`.
pub open spec fn two_digit_text(n: nat) -> Seq<char> {
    seq![hex_char(n / 10), hex_char(n % 10)]
}

/// The RFC 3339 text of an offset of a whole number of minutes, `secs`
/// seconds east of UTC: `Z` for no offset, else the sign, the hours and the
/// minutes, such as `+03:00`.
pub open spec fn offset_text(secs: int) -> Seq<char> {
    if secs == 0 {
        seq!['Z']
    } else {
        let a = if secs < 0 {
            -secs
        } else {
            secs
        };
        seq![if secs < 0 { '-' } else { '+' }] + two_digit_text((a / 3600) as nat) + seq![':']
            + two_digit_text((a / 60 % 60) as nat)
    }
}

/// Whether `s` is an RFC 3339 time to the millisecond with the offset text `o`:
/// a date and time with `T`, three digits of the second, then `o`.
pub open spec fn rfc3339_millis_shape_with(s: Seq<char>, o: Seq<char>) -> bool {
    &&& s.len() >= 23 + o.len()
    &&& millis_time_shape(s.take(s.len() - o.len()), 'T')
    &&& s.skip(s.len() - o.len()) == o
}

/// Whether `secs` is an offset that `FixedOffset::east_opt` accepts: strictly
/// within a day either way.
pub open spec fn offset_in_day(secs: int) -> bool {
    -86_400 < secs < 86_400
}

/// What chrono's `to_rfc3339` writes for the UTC time `secs` seconds and
/// `nanos` nanoseconds after the Unix epoch.
pub uninterp spec fn utc_rfc3339_text(secs: i64, nanos: u32) -> Seq<char>;

/// What chrono's `to_rfc3339_opts(SecondsFormat::Millis, true)` writes for the
/// time `secs` seconds and `nanos` nanoseconds after the Unix epoch, seen at
/// an offset of `offset_secs` seconds east of UTC.
pub uninterp spec fn rfc3339_millis_text(secs: i64, nanos: u32, offset_secs: i32) -> Seq<char>;

/// The time `secs` seconds and `nanos` nanoseconds after the Unix epoch, made
/// by chrono's `DateTime::from_timestamp` (which gives a time for every reading
/// within `MAX_CLOCK_SECS`), seen at the offset `FixedOffset::east_opt(offset_secs)`
/// and written by `to_rfc3339_opts` with milliseconds and `Z` for a zero
/// offset: a date and time with `T` (the year as four digits for the years 0
/// to 9999, else a sign and at least four digits), a dot and three digits, and
/// the offset, which chrono writes as `Z` or as the sign, two digits of hours,
/// a colon and two digits of minutes. A time before the year 10000 at that
/// offset has a year of four digits. Only offsets of whole minutes within a
/// day are admitted.
#[verifier::external_body]
fn rfc3339_millis_text_at(secs: i64, nanos: u32, offset_secs: i32) -> (s: String)
    requires
        0 <= secs <= MAX_CLOCK_SECS,
        nanos < 1_000_000_000,
        offset_in_day(offset_secs as int),
        offset_secs % 60 == 0,
    ensures
        s@ == rfc3339_millis_text(secs, nanos, offset_secs),
        rfc3339_millis_shape_with(s@, offset_text(offset_secs as int)),
        secs + offset_secs < YEAR_10000_SECS ==> s@.len() == 23 + offset_text(
            offset_secs as int,
        ).len(),
{
    let offset = chrono::FixedOffset::east_opt(offset_secs).expect("an offset within a day");
    let utc = chrono::DateTime::from_timestamp(secs, nanos).expect("a time within MAX_CLOCK_SECS");
    utc.with_timezone(&offset).to_rfc3339_opts(chrono::SecondsFormat::Millis, true)
}

/// The UTC time `secs` seconds and `nanos` nanoseconds after the Unix epoch,
/// made by chrono's `DateTime::from_timestamp` (which gives a time for every
/// reading within `MAX_CLOCK_SECS`) and written by `to_rfc3339`: a date and
/// time with `T`, no fraction or a dot and 3, 6 or 9 digits, then `+00:00`.
#[verifier::external_body]
fn utc_rfc3339_text_at(secs: i64, nanos: u32) -> (s: String)
    requires
        0 <= secs <= MAX_CLOCK_SECS,
        nanos < 1_000_000_000,
    ensures
        s@ == utc_rfc3339_text(secs, nanos),
        rfc3339_utc_shape(s@),
{
    chrono::DateTime::from_timestamp(secs, nanos).expect("a time within MAX_CLOCK_SECS").to_rfc3339()
}

/// The time stamp of a log record for a clock reading: the UTC time as RFC
/// 3339; nothing where the reading cannot be written as a date.
pub fn format_utc_timestamp(reading: Option<(u64, u32)>) -> (r: Option<String>)
    ensures
        r is Some <==> usable_reading(reading),
        r matches Some(t) ==> t@ == utc_rfc3339_text(
            reading.unwrap().0 as i64,
            reading.unwrap().1,
        ) && rfc3339_utc_shape(t@),
{
    match reading {
        Some((secs, nanos)) => {
            if secs <= MAX_CLOCK_SECS && nanos < 1_000_000_000 {
                Some(utc_rfc3339_text_at(secs as i64, nanos))
            } else {
                None
            }
        },
        None => None,
    }
}

/// The UTC time now, as RFC 3339: the time stamp of a log record; nothing
/// where the system clock lies before the Unix epoch or past `MAX_CLOCK_SECS`.
pub fn get_utc_timestamp() -> (r: Option<String>)
    ensures
        r matches Some(t) ==> rfc3339_utc_shape(t@) && exists|secs: i64, nanos: u32|
            t@ == #[trigger] utc_rfc3339_text(secs, nanos),
{
    let now = system_time_now();
    format_utc_timestamp(duration_since_unix_epoch(&now))
}

/// The text given where the offset of Moscow time would not exist.
pub const NO_OFFSET_TIMESTAMP: &'static str = "1970-01-01T00:00:00.000+00:00";

/// The offset of Moscow time from UTC, in seconds.
pub const MOSCOW_OFFSET_SECS: i32 = 3 * 3600;

/// The Moscow time (UTC+3) of a clock reading, as RFC 3339 with milliseconds,
/// ending in `+03:00`; nothing where the reading cannot be written as a date.
/// The text `NO_OFFSET_TIMESTAMP`, kept for an offset that would not exist,
/// is never given: the offset of three hours exists.
pub fn format_timestamp_at(reading: Option<(u64, u32)>) -> (r: Option<String>)
    ensures
        r is Some <==> usable_reading(reading),
        r matches Some(t) ==> {
            &&& t@ == rfc3339_millis_text(
                reading.unwrap().0 as i64,
                reading.unwrap().1,
                MOSCOW_OFFSET_SECS,
            )
            &&& rfc3339_millis_shape_with(t@, "+03:00"@)
            &&& t@.skip(t@.len() - 6) == "+03:00"@
            &&& t@ != NO_OFFSET_TIMESTAMP@
            &&& reading.unwrap().0 + MOSCOW_OFFSET_SECS < YEAR_10000_SECS ==> t@.len() == 29
        },
{
    proof {
        moscow_offset_text();
    }
    let offset_secs = MOSCOW_OFFSET_SECS;
    match reading {
        Some((secs, nanos)) => {
            if secs <= MAX_CLOCK_SECS && nanos < 1_000_000_000 {
                if -86_400 < offset_secs && offset_secs < 86_400 {
                    let t = rfc3339_millis_text_at(secs as i64, nanos, offset_secs);
                    proof {
                        let tv = t@;
                        if tv == NO_OFFSET_TIMESTAMP@ {
                            assert(tv.skip(tv.len() - 6)[2] == '3');
                            assert(NO_OFFSET_TIMESTAMP@.skip(NO_OFFSET_TIMESTAMP@.len() - 6)[2]
                                == NO_OFFSET_TIMESTAMP@[25]);
                        }
                    }
                    Some(t)
                } else {
                    Some(String::from_str(NO_OFFSET_TIMESTAMP))
                }
            } else {
                None
            }
        },
        None => None,
    }
}

/// The offset of Moscow time is written `+03:00`, and `NO_OFFSET_TIMESTAMP`
/// ends in `+00:00`.
proof fn moscow_offset_text()
    ensures
        offset_text(MOSCOW_OFFSET_SECS as int) == "+03:00"@,
        "+03:00"@.len() == 6,
        "+03:00"@[2] == '3',
        NO_OFFSET_TIMESTAMP@.len() == 29,
        NO_OFFSET_TIMESTAMP@[25] == '0',
{
    reveal_strlit("+03:00");
    reveal_strlit("1970-01-01T00:00:00.000+00:00");
    assert(NO_OFFSET_TIMESTAMP@ == "1970-01-01T00:00:00.000+00:00"@);
    assert(hex_char(0) == '0');
    assert(hex_char(3) == '3');
    assert(offset_text(MOSCOW_OFFSET_SECS as int) =~= "+03:00"@);
}

/// The time now in Moscow time (UTC+3), as RFC 3339 with milliseconds, ending
/// in `+03:00`; nothing where the system clock lies before the Unix epoch or
/// past `MAX_CLOCK_SECS`.
pub fn get_timestamp_fmt() -> (r: Option<String>)
    ensures
        r matches Some(t) ==> {
            &&& rfc3339_millis_shape_with(t@, "+03:00"@)
            &&& t@.skip(t@.len() - 6) == "+03:00"@
            &&& t@ != NO_OFFSET_TIMESTAMP@
            &&& exists|secs: i64, nanos: u32|
                t@ == #[trigger] rfc3339_millis_text(secs, nanos, MOSCOW_OFFSET_SECS)
        },
{
    let now = system_time_now();
    format_timestamp_at(duration_since_unix_epoch(&now))
}

} // verus!
