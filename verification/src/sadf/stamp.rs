//! Time stamps and what every format says of the file.

use vstd::prelude::*;

use chrono::TimeZone;
use chrono_tz::OffsetName;

use crate::clock::{
    date_text, format_date, format_time, has_date, time_text, utc_civil, utc_of,
    RecordTime,
};
use crate::model::{as_signed, to_signed};
use crate::sar_text::header::{cpu_count, real_cpu_count, FileHeader};
use crate::text::{dec, dec_text};

verus! {

/// Which clock the times are of.
#[derive(Clone, Copy, PartialEq, Eq, Structural, Debug)]
pub enum TimeBase {
    Utc,
    /// The local time of the reader.
    LocalTime,
    /// The local time of the machine that wrote the file.
    TrueTime,
    /// Seconds since the epoch.
    SecEpoch,
}

impl Default for TimeBase {
    fn default() -> (r: Self)
        ensures
            r == TimeBase::Utc,
    {
        TimeBase::Utc
    }
}

/// The abbreviation that `chrono_tz` has for the zone `name` at `secs`; `None` where it knows
/// no such zone, the point in time has no date, or the zone has no abbreviation then.
pub uninterp spec fn abbreviation_of(name: Seq<char>, secs: int) -> Option<Seq<char>>;

/// Reads `name` as a `chrono_tz::Tz`, takes its offset at `secs` with
/// `TimeZone::offset_from_utc_datetime` and returns what `OffsetName::abbreviation` says of it.
/// The result depends on the two arguments and the zone tables of the crate only.
#[verifier::external_body]
fn zone_abbreviation(name: &str, secs: i64) -> (r: Option<String>)
    ensures
        (match r {
            Some(s) => Some(s@),
            None => None,
        }) == abbreviation_of(name@, secs as int),
{
    match (name.parse::<chrono_tz::Tz>(), chrono::DateTime::from_timestamp(secs, 0)) {
        (Ok(tz), Some(at)) => match tz.offset_from_utc_datetime(&at.naive_utc()).abbreviation() {
            Some(a) => Some(a.to_string()),
            None => None,
        },
        _ => None,
    }
}

/// The name of the local zone: its abbreviation, else its offset.
pub fn zone_label(abbreviation: Option<String>, offset: &str) -> (r: String)
    ensures
        r@ == (match abbreviation {
            Some(a) => a@,
            None => offset@,
        }),
{
    match abbreviation {
        Some(a) => a,
        None => offset.to_owned(),
    }
}

/// The name of the reader's zone at `now`: the abbreviation of the zone that the environment
/// names, else the offset of the local time.
pub fn local_tz_name(zone: Option<&str>, now: i64, offset: &str) -> (r: String)
    ensures
        r@ == (match zone {
            Some(name) => match abbreviation_of(name@, now as int) {
                Some(a) => a,
                None => offset@,
            },
            None => offset@,
        }),
{
    match zone {
        Some(name) => zone_label(zone_abbreviation(name, now), offset),
        None => offset.to_owned(),
    }
}

/// What every format says of the file.
#[derive(Debug)]
pub struct FileInfo {
    pub nodename: String,
    pub sysname: String,
    pub release: String,
    pub machine: String,
    pub cpu_count: u32,
    /// `YYYY-MM-DD`.
    pub file_date: String,
    /// `HH:MM:SS`, in UTC.
    pub file_utc_time: String,
    pub ust_time: u64,
    /// The zone of the machine that wrote the file; empty where the file does not say.
    pub tzname: String,
    /// The zone of the reader.
    pub local_tz: String,
}

/// The date of the file: that of its creation, or the date it holds where the times of the
/// machine are shown.
pub open spec fn file_day(h: FileHeader, base: TimeBase) -> Seq<char> {
    match base {
        TimeBase::TrueTime => date_text(h.year as int, h.month as int, h.day as int),
        TimeBase::LocalTime => {
            let c = h.created.local;
            date_text(c.year as int, c.month as int, c.day as int)
        },
        _ => {
            let c = utc_civil(h.created.ust_time);
            date_text(c.year as int, c.month as int, c.day as int)
        },
    }
}

/// The zone of the machine; empty where the file does not say.
pub open spec fn zone_of(h: FileHeader) -> Seq<char> {
    match h.tzname {
        Some(z) => z@,
        None => Seq::empty(),
    }
}

impl FileInfo {
    /// Whether this is what the formats say of the file with the header `h`.
    pub open spec fn describes(self, h: FileHeader, base: TimeBase, local_tz: Seq<char>) -> bool {
        let c = utc_civil(h.created.ust_time);
        &&& self.nodename@ == h.nodename@
        &&& self.sysname@ == h.sysname@
        &&& self.release@ == h.release@
        &&& self.machine@ == h.machine@
        &&& self.cpu_count == cpu_count(h.cpu_nr)
        &&& self.file_date@ == file_day(h, base)
        &&& self.file_utc_time@ == time_text(c.hour as int, c.minute as int, c.second as int)
        &&& self.ust_time == h.created.ust_time
        &&& self.tzname@ == zone_of(h)
        &&& self.local_tz@ == local_tz
    }

    /// What the formats say of a file, with its date in UTC.
    pub fn from_file(h: &FileHeader, local_tz: &str) -> (r: Self)
        ensures
            r.describes(*h, TimeBase::Utc, local_tz@),
    {
        Self::from_file_with(h, TimeBase::Utc, local_tz)
    }

    /// What the formats say of a file.
    pub fn from_file_with(h: &FileHeader, base: TimeBase, local_tz: &str) -> (r: Self)
        ensures
            r.describes(*h, base, local_tz@),
    {
        let utc = utc_of(h.created.ust_time);
        let file_date = match base {
            TimeBase::TrueTime => format_date(h.year, h.month as u32, h.day as u32),
            TimeBase::LocalTime => {
                let c = h.created.local;
                format_date(c.year, c.month, c.day)
            },
            _ => format_date(utc.year, utc.month, utc.day),
        };
        let tzname = match &h.tzname {
            Some(z) => z.as_str().to_owned(),
            None => String::new(),
        };
        FileInfo {
            nodename: h.nodename.as_str().to_owned(),
            sysname: h.sysname.as_str().to_owned(),
            release: h.release.as_str().to_owned(),
            machine: h.machine.as_str().to_owned(),
            cpu_count: real_cpu_count(h.cpu_nr),
            file_date,
            file_utc_time: format_time(utc.hour, utc.minute, utc.second),
            ust_time: h.created.ust_time,
            tzname,
            local_tz: local_tz.to_owned(),
        }
    }
}

/// The time of day of a point in time in UTC, in seconds.
pub open spec fn utc_second_of_day(ust_time: u64) -> int {
    let c = utc_civil(ust_time);
    c.hour * 3600 + c.minute * 60 + c.second
}

/// What the clock of the machine was ahead of UTC by, to within half a day.
pub open spec fn clock_offset(t: RecordTime) -> int {
    let ahead = (t.hour * 3600 + t.minute * 60 + t.second - utc_second_of_day(t.ust_time)) % 86400;
    if ahead > 43200 {
        ahead - 86400
    } else {
        ahead
    }
}

/// The seconds since the epoch that the clock of the machine showed.
pub open spec fn recorded_seconds(t: RecordTime) -> u64 {
    let at = as_signed(t.ust_time) + clock_offset(t);
    if at < 0 {
        0
    } else {
        at as u64
    }
}

proof fn lemma_shifted_clock(at: int, utc: int, clock: int)
    requires
        at % 86400 == utc,
        0 <= clock < 86400,
    ensures
        (at + (clock - utc) % 86400) % 86400 == clock,
        (at + (clock - utc) % 86400 - 86400) % 86400 == clock,
{
}

/// The seconds since the epoch that the clock of the machine showed. A record holds the point
/// in time and the time of day at the machine, and the two differ by the offset of its zone. So
/// the seconds returned fall on the time of day in the record, unless they are cut off at the
/// epoch or the point in time has no date.
pub fn shift_to_recorded(t: &RecordTime) -> (r: u64)
    ensures
        r == recorded_seconds(*t),
        has_date(as_signed(t.ust_time)) && t.hour < 24 && t.minute < 60 && t.second < 60
            && as_signed(t.ust_time) + clock_offset(*t) >= 0 ==> r as int % 86400 == t.hour * 3600
            + t.minute * 60 + t.second,
{
    let utc = utc_of(t.ust_time);
    let utc_sod: i64 = utc.hour as i64 * 3600 + utc.minute as i64 * 60 + utc.second as i64;
    let rec_sod: i64 = t.hour as i64 * 3600 + t.minute as i64 * 60 + t.second as i64;
    let mut diff: i64 = (rec_sod - utc_sod + 86400) % 86400;
    if diff > 43200 {
        diff = diff - 86400;
    }
    let at: i128 = to_signed(t.ust_time) as i128 + diff as i128;
    proof {
        assert(diff == clock_offset(*t));
        if has_date(as_signed(t.ust_time)) && rec_sod < 86400 {
            lemma_shifted_clock(as_signed(t.ust_time), utc_sod as int, rec_sod as int);
        }
    }
    if at < 0 {
        0
    } else {
        at as u64
    }
}

/// The time of a record as it is shown.
#[derive(Debug)]
pub struct Stamp {
    /// `YYYY-MM-DD`; empty for seconds since the epoch.
    pub date: String,
    /// `HH:MM:SS`, or the seconds since the epoch.
    pub time: String,
    /// The name of the zone; empty for seconds since the epoch.
    pub tz: String,
}

/// The time of a record as it is shown.
#[verifier::ext_equal]
pub struct StampModel {
    pub date: Seq<char>,
    pub time: Seq<char>,
    pub tz: Seq<char>,
}

/// The stamp of a calendar date.
pub open spec fn civil_stamp(c: crate::clock::Civil, tz: Seq<char>) -> StampModel {
    StampModel {
        date: date_text(c.year as int, c.month as int, c.day as int),
        time: time_text(c.hour as int, c.minute as int, c.second as int),
        tz,
    }
}

/// The time of a record as it is shown.
pub open spec fn stamp_of(base: TimeBase, t: RecordTime, info: FileInfo) -> StampModel {
    match base {
        TimeBase::SecEpoch => StampModel {
            date: Seq::empty(),
            time: dec(t.ust_time as nat),
            tz: Seq::empty(),
        },
        TimeBase::Utc => civil_stamp(utc_civil(t.ust_time), "UTC"@),
        TimeBase::TrueTime => civil_stamp(utc_civil(recorded_seconds(t)), info.tzname@),
        TimeBase::LocalTime => civil_stamp(t.local, info.local_tz@),
    }
}

impl StampModel {
    /// The date, the time and the zone in one field.
    pub open spec fn flat(self) -> Seq<char> {
        if self.date.len() == 0 {
            self.time
        } else {
            self.date + " "@ + self.time + " "@ + self.tz
        }
    }

    /// The time and the zone in one field; a zone without a name is left out.
    pub open spec fn short(self) -> Seq<char> {
        if self.tz.len() == 0 {
            self.time
        } else {
            self.time + " "@ + self.tz
        }
    }

    /// The time and the zone in one field.
    pub open spec fn short_event(self) -> Seq<char> {
        if self.date.len() == 0 {
            self.time
        } else {
            self.time + " "@ + self.tz
        }
    }
}

fn stamp_at(c: crate::clock::Civil, tz: &str) -> (r: Stamp)
    ensures
        r.model() == civil_stamp(c, tz@),
{
    Stamp {
        date: format_date(c.year, c.month, c.day),
        time: format_time(c.hour, c.minute, c.second),
        tz: tz.to_owned(),
    }
}

impl Stamp {
    pub open spec fn model(self) -> StampModel {
        StampModel { date: self.date@, time: self.time@, tz: self.tz@ }
    }

    /// The time of a record as it is shown.
    pub fn new(base: TimeBase, t: &RecordTime, info: &FileInfo) -> (r: Self)
        ensures
            r.model() == stamp_of(base, *t, *info),
    {
        match base {
            TimeBase::SecEpoch => {
                let r = Stamp {
                    date: String::new(),
                    time: dec_text(t.ust_time),
                    tz: String::new(),
                };
                assert(r.model() =~= stamp_of(base, *t, *info));
                r
            },
            TimeBase::Utc => stamp_at(utc_of(t.ust_time), "UTC"),
            TimeBase::TrueTime => stamp_at(utc_of(shift_to_recorded(t)), info.tzname.as_str()),
            TimeBase::LocalTime => stamp_at(t.local, info.local_tz.as_str()),
        }
    }

    /// The date, the time and the zone in one field.
    pub fn dbppc(&self) -> (r: String)
        ensures
            r@ == self.model().flat(),
    {
        if self.date.as_str().is_empty() {
            return self.time.as_str().to_owned();
        }
        let mut out = self.date.as_str().to_owned();
        out.append(" ");
        out.append(self.time.as_str());
        out.append(" ");
        out.append(self.tz.as_str());
        out
    }

    /// The time and the zone in one field; a zone without a name is left out.
    pub fn raw(&self) -> (r: String)
        ensures
            r@ == self.model().short(),
    {
        let mut out = self.time.as_str().to_owned();
        if !self.tz.as_str().is_empty() {
            out.append(" ");
            out.append(self.tz.as_str());
        }
        out
    }

    /// The time and the zone in one field, as a restart or a comment shows them.
    pub fn raw_event(&self) -> (r: String)
        ensures
            r@ == self.model().short_event(),
    {
        let mut out = self.time.as_str().to_owned();
        if !self.date.as_str().is_empty() {
            out.append(" ");
            out.append(self.tz.as_str());
        }
        out
    }
}

/// The length of an interval in seconds, rounded.
pub open spec fn rounded_seconds(itv_cs: u64) -> int {
    (itv_cs + 50) / 100
}

/// The length of an interval in seconds, rounded.
pub fn interval_secs(itv_cs: u64) -> (r: u64)
    ensures
        r == rounded_seconds(itv_cs),
{
    let whole: u64 = itv_cs / 100;
    if itv_cs % 100 >= 50 {
        whole + 1
    } else {
        whole
    }
}

/// What stands for the interval of a restart or a comment.
pub const EVENT_INTERVAL: &'static str = "-1";

}
