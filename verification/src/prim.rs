//! Primitive data types for the music library.

use vstd::prelude::*;
use chrono::{DateTime, NaiveDateTime, SecondsFormat, Utc};
use vstd::arithmetic::power::pow;
use crate::text::{
    lemma_parse_radix_str, lemma_radix_str_len, lemma_radix_str_order, lemma_text_less_concat,
    parse_unsigned, push_char, push_radix, radix_str, spec_parse_unsigned, spec_strip_suffix,
    strip_suffix, text_less,
};

verus! {

#[derive(Copy, Clone, Debug, PartialEq, Eq, Hash, PartialOrd, Ord)]
pub struct FileId(pub i64);

#[derive(Copy, Clone, Debug, PartialEq, Eq, Hash, PartialOrd, Ord)]
pub struct TrackId(pub u64);

#[derive(Copy, Clone, Debug, PartialEq, Eq, Hash, PartialOrd, Ord)]
pub struct AlbumId(pub u64);

#[derive(Copy, Clone, Debug, PartialEq, Eq, Hash, PartialOrd, Ord)]
pub struct ArtistId(pub u64);

/// Index into a byte array that contains length-prefixed strings.
#[derive(Copy, Clone, Debug, PartialEq, Eq, Hash, PartialOrd, Ord)]
pub struct StringRef(pub u32);

/// Index into a byte array that contains length-prefixed strings.
#[derive(Copy, Clone, Debug, PartialEq, Eq, Hash, PartialOrd, Ord)]
pub struct FilenameRef(pub u32);

/// What reading `src` as a hexadecimal `u64` gives, as `u64::from_str_radix`
/// with radix 16 does.
pub open spec fn spec_parse_hex(src: Seq<char>) -> Option<u64> {
    match spec_parse_unsigned(src, 16, u64::MAX as nat) {
        Some(v) => Some(v as u64),
        None => None,
    }
}

/// The text of an id: 16 lower-case hexadecimal digits, zero-padded (the
/// `{:016x}` format).
pub open spec fn spec_hex16(id: u64) -> Seq<char> {
    radix_str(id as nat, 16, 16)
}

fn parse_hex(src: &str) -> (r: Option<u64>)
    ensures
        r == spec_parse_hex(src@),
{
    parse_unsigned(src, 16, u64::MAX)
}

fn hex16(id: u64) -> (r: String)
    ensures
        r@ == spec_hex16(id),
{
    let mut s = String::new();
    push_radix(&mut s, id, 16, 16);
    assert(s@ =~= spec_hex16(id));
    s
}

impl TrackId {
    /// Reads a track id from its hexadecimal text.
    pub fn parse(src: &str) -> (r: Option<TrackId>)
        ensures
            r == (match spec_parse_hex(src@) {
                Some(v) => Some(TrackId(v)),
                None => None,
            }),
    {
        match parse_hex(src) {
            Some(v) => Some(TrackId(v)),
            None => None,
        }
    }

    /// The text of the id: 16 lower-case hexadecimal digits.
    pub fn to_string(&self) -> (r: String)
        ensures
            r@ == spec_hex16(self.0),
    {
        hex16(self.0)
    }
}

impl AlbumId {
    /// Reads an album id from its hexadecimal text.
    pub fn parse(src: &str) -> (r: Option<AlbumId>)
        ensures
            r == (match spec_parse_hex(src@) {
                Some(v) => Some(AlbumId(v)),
                None => None,
            }),
    {
        match parse_hex(src) {
            Some(v) => Some(AlbumId(v)),
            None => None,
        }
    }

    /// The text of the id: 16 lower-case hexadecimal digits.
    pub fn to_string(&self) -> (r: String)
        ensures
            r@ == spec_hex16(self.0),
    {
        hex16(self.0)
    }
}

impl ArtistId {
    /// Reads an artist id from its hexadecimal text.
    pub fn parse(src: &str) -> (r: Option<ArtistId>)
        ensures
            r == (match spec_parse_hex(src@) {
                Some(v) => Some(ArtistId(v)),
                None => None,
            }),
    {
        match parse_hex(src) {
            Some(v) => Some(ArtistId(v)),
            None => None,
        }
    }

    /// The text of the id: 16 lower-case hexadecimal digits.
    pub fn to_string(&self) -> (r: String)
        ensures
            r@ == spec_hex16(self.0),
    {
        hex16(self.0)
    }
}

/// Reading back the text of an id gives the id: `parse` undoes `to_string`
/// for track, album and artist ids.
pub proof fn lemma_id_text_round_trip(id: u64)
    ensures
        spec_parse_hex(spec_hex16(id)) == Some(id),
{
    lemma_parse_radix_str(id as nat, 16, 16, u64::MAX as nat);
}

/// The text of an id always has exactly 16 digits.
pub proof fn lemma_id_text_len(id: u64)
    ensures
        spec_hex16(id).len() == 16,
{
    reveal_with_fuel(pow, 17);
    assert(pow(16, 16) == 0x1_0000_0000_0000_0000);
    lemma_radix_str_len(id as nat, 16, 16);
}

/// A `std::num::NonZeroI16`, the loudness in hundredths of a LUFS. Verus
/// does not take a declaration of `NonZero<T>` (its bound is a trait that
/// Verus cannot name), so the value is held here, opaque to Verus, and read
/// through `nonzero_centi_value`.
#[verifier::external_body]
#[derive(Copy, Debug, PartialEq, Eq, PartialOrd, Ord)]
pub struct NonZeroCenti(std::num::NonZeroI16);

impl Clone for NonZeroCenti {
    /// A copy of the integer held.
    #[verifier::external_body]
    fn clone(&self) -> (r: Self)
        ensures
            r == *self,
    {
        *self
    }
}

/// The value that `NonZeroI16::get` returns for the integer held in `n`.
pub uninterp spec fn nonzero_centi_value(n: NonZeroCenti) -> i16;

/// `NonZeroI16::new`: the non-zero integer holding `v`, or `None` where `v`
/// is zero.
#[verifier::external_body]
fn nonzero_centi_new(v: i16) -> (r: Option<NonZeroCenti>)
    ensures
        match r {
            Some(n) => v != 0 && nonzero_centi_value(n) == v,
            None => v == 0,
        },
{
    match std::num::NonZeroI16::new(v) {
        Some(n) => Some(NonZeroCenti(n)),
        None => None,
    }
}

/// `NonZeroI16::get`: the value held, which is never zero.
#[verifier::external_body]
fn nonzero_centi_get(n: NonZeroCenti) -> (r: i16)
    ensures
        r == nonzero_centi_value(n),
        r != 0,
{
    n.0.get()
}

/// Loudness Units relative to Full Scale.
///
/// The representation is millibel relative to full scale. In other words, this
/// is a decimal fixed-point number with two decimal digits after the point.
///
/// Example: -7.32 LUFS would be stored as `Lufs::new(-732)`.
///
/// The default value is -9.0 LUFS: across a collection of 16k tracks and 1.3k
/// albums, the median track loudness was found to be -9.10 LUFS, and the median
/// album loudness was found to be -8.98 LUFS, so a value of -9.0 seems a
/// reasonable best guess in the absence of a true measurement.
///
/// A value of 0.0 LUFS is not allowed to support the nonzero optimization, such
/// that an `Option<Lufs>` is 16 bits. This should not be a restriction for
/// empirically measured loudness, which is typically negative in LUFS.
#[derive(Copy, Clone, Debug, PartialEq, Eq, PartialOrd, Ord)]
pub struct Lufs(pub NonZeroCenti);

impl Lufs {
    /// The loudness in hundredths of a LUFS.
    pub open spec fn centi(self) -> i16 {
        nonzero_centi_value(self.0)
    }

    /// The loudness `centi_loudness_units` hundredths of a LUFS, which must
    /// not be zero.
    pub fn new(centi_loudness_units: i16) -> (r: Lufs)
        requires
            centi_loudness_units != 0,
        ensures
            r.centi() == centi_loudness_units,
    {
        match nonzero_centi_new(centi_loudness_units) {
            Some(n) => Lufs(n),
            None => vstd::pervasive::unreached(),
        }
    }

    /// -9.0 LUFS.
    pub fn default() -> (r: Lufs)
        ensures
            r.centi() == -900,
    {
        match nonzero_centi_new(-900) {
            Some(n) => Lufs(n),
            None => vstd::pervasive::unreached(),
        }
    }

    /// The loudness in hundredths of a LUFS; never zero.
    pub fn get(&self) -> (r: i16)
        ensures
            r == self.centi(),
            r != 0,
    {
        nonzero_centi_get(self.0)
    }

    /// The text of the loudness: the value in LUFS with two decimals, then
    /// ` LUFS` (as the `{:.2} LUFS` format writes it).
    pub fn to_string(&self) -> (r: String)
        ensures
            r@ == spec_lufs_text(self.centi() as int),
    {
        let v = self.get() as i32;
        let a: u64 = if v < 0 {
            (-v) as u64
        } else {
            v as u64
        };
        let mut s = String::new();
        if v < 0 {
            push_char(&mut s, '-');
        }
        push_radix(&mut s, a / 100, 10, 0);
        push_char(&mut s, '.');
        push_radix(&mut s, a % 100, 10, 2);
        s.append(" LUFS");
        assert(s@ =~= spec_lufs_text(self.centi() as int));
        s
    }
}

/// The text of a loudness of `centi` hundredths of a LUFS: a `-` for a
/// negative value, the whole LUFS, a `.`, two digits of hundredths, ` LUFS`.
pub open spec fn spec_lufs_text(centi: int) -> Seq<char> {
    let a: nat = if centi < 0 {
        (-centi) as nat
    } else {
        centi as nat
    };
    (if centi < 0 {
        seq!['-']
    } else {
        Seq::<char>::empty()
    }) + radix_str(a / 100, 10, 0) + seq!['.'] + radix_str(a % 100, 10, 2) + " LUFS"@
}

#[derive(Copy, Clone, PartialEq, Eq, Debug)]
pub struct Hertz(pub u32);

/// The text of a frequency: its decimal digits, then ` Hz`.
pub open spec fn spec_hertz_text(hz: u32) -> Seq<char> {
    radix_str(hz as nat, 10, 0) + " Hz"@
}

/// What reading a frequency from `s` gives: `Ok` with the number before the
/// ` Hz` suffix where there is one and it reads as a `u32` (as `u32::from_str`
/// reads it), and otherwise the error that says which of the two is wrong.
pub open spec fn spec_hertz_from_str(s: Seq<char>, r: Result<Hertz, &'static str>) -> bool {
    match spec_strip_suffix(s, " Hz"@) {
        None => r matches Err(e) && e@
            == "Expected integer frequency value of the form '999 Hz', but the Hz suffix is missing."@,
        Some(num) => match spec_parse_unsigned(num, 10, u32::MAX as nat) {
            None => r matches Err(e) && e@
                == "Expected integer frequency value of the form '999 Hz', but the number is invalid."@,
            Some(x) => r == Ok::<Hertz, &'static str>(Hertz(x as u32)),
        },
    }
}

impl Hertz {
    /// Reads a frequency of the form `44100 Hz`: a `u32` as `u32::from_str`
    /// reads it, followed by ` Hz`.
    pub fn from_str(s: &str) -> (r: Result<Hertz, &'static str>)
        ensures
            spec_hertz_from_str(s@, r),
    {
        match strip_suffix(s, " Hz") {
            None => Err(
                "Expected integer frequency value of the form '999 Hz', but the Hz suffix is missing.",
            ),
            Some(num) => match parse_unsigned(num, 10, 0xffff_ffff) {
                None => Err(
                    "Expected integer frequency value of the form '999 Hz', but the number is invalid.",
                ),
                Some(x) => Ok(Hertz(x as u32)),
            },
        }
    }

    /// The text of the frequency, as in `44100 Hz`.
    pub fn to_string(&self) -> (r: String)
        ensures
            r@ == spec_hertz_text(self.0),
    {
        let mut s = String::new();
        push_radix(&mut s, self.0 as u64, 10, 0);
        s.append(" Hz");
        s
    }
}

impl std::str::FromStr for Hertz {
    type Err = &'static str;

    fn from_str(s: &str) -> (r: Result<Hertz, &'static str>)
        ensures
            spec_hertz_from_str(s@, r),
    {
        Hertz::from_str(s)
    }
}

/// Reading back the text of a frequency gives the frequency.
pub proof fn lemma_hertz_text_round_trip(hz: u32)
    ensures
        spec_strip_suffix(spec_hertz_text(hz), " Hz"@) == Some(radix_str(hz as nat, 10, 0)),
        spec_parse_unsigned(radix_str(hz as nat, 10, 0), 10, u32::MAX as nat) == Some(hz as nat),
{
    let t = spec_hertz_text(hz);
    let d = radix_str(hz as nat, 10, 0);
    assert(t.subrange(t.len() - (" Hz"@).len(), t.len() as int) =~= " Hz"@);
    assert(t.subrange(0, t.len() - (" Hz"@).len()) =~= d);
    lemma_parse_radix_str(hz as nat, 10, 0, u32::MAX as nat);
}

/// Last modified time of a file, as reported by the file system.
///
/// This is only used to determine whether a file changed since we last read it,
/// the meaning of the inner value is not relevant, only that it implements
/// `Ord`.
#[derive(Copy, Clone, Debug, PartialEq, Eq, PartialOrd, Ord)]
pub struct Mtime(pub i64);

#[derive(Clone, Debug, PartialEq, Eq, PartialOrd, Ord)]
pub struct Track {
    pub album_id: AlbumId,
    pub file_id: FileId,
    pub title: StringRef,
    pub artist: StringRef,
    pub filename: FilenameRef,
    // A u16 duration allows a little over 18 hours; a u8 track number allows
    // at most 255 tracks. This keeps a `(TrackId, Track)` within half a cache
    // line.
    pub duration_seconds: u16,
    pub disc_number: u8,
    pub track_number: u8,
    pub loudness: Option<Lufs>,
}

#[derive(Clone, Copy, Debug, PartialEq, Eq, PartialOrd, Ord)]
pub struct Date {
    pub year: u16,
    pub month: u8,
    pub day: u8,
}

impl Date {
    /// A date as read from a `YYYY-MM-DD` string. A zero month or day stands
    /// for an unknown month or day.
    pub fn new(year: u16, month: u8, day: u8) -> (r: Date)
        requires
            year <= 9999,
            month <= 12,
            day <= 31,
        ensures
            r == (Date { year, month, day }),
    {
        Date { year, month, day }
    }

    /// The text of the date: `YYYY`, `YYYY-MM` when the day is unknown, or
    /// `YYYY-MM-DD`.
    pub fn to_string(&self) -> (r: String)
        ensures
            r@ == spec_date_text(*self),
    {
        let mut s = String::new();
        push_radix(&mut s, self.year as u64, 10, 4);
        if self.month != 0 {
            push_char(&mut s, '-');
            push_radix(&mut s, self.month as u64, 10, 2);
            if self.day != 0 {
                push_char(&mut s, '-');
                push_radix(&mut s, self.day as u64, 10, 2);
            }
        }
        assert(s@ =~= spec_date_text(*self));
        s
    }
}

/// The text of a date: the year with at least four digits, then, when the
/// month is known, `-` and two digits of month, then, when the day is known
/// too, `-` and two digits of day.
pub open spec fn spec_date_text(d: Date) -> Seq<char> {
    radix_str(d.year as nat, 10, 4) + if d.month == 0 {
        Seq::<char>::empty()
    } else {
        seq!['-'] + radix_str(d.month as nat, 10, 2) + if d.day == 0 {
            Seq::<char>::empty()
        } else {
            seq!['-'] + radix_str(d.day as nat, 10, 2)
        }
    }
}

/// A date with a known month and day, as `Date::new` takes it.
pub open spec fn is_full_date(d: Date) -> bool {
    d.year <= 9999 && 1 <= d.month <= 12 && 1 <= d.day <= 31
}

/// The order of dates: by year, then by month, then by day (the order of
/// their fields).
pub open spec fn date_less(a: Date, b: Date) -> bool {
    a.year < b.year || (a.year == b.year && (a.month < b.month || (a.month == b.month && a.day
        < b.day)))
}

/// The texts of full dates sort as the dates do, and two such texts are
/// equal only where the dates are.
pub proof fn lemma_date_text_order(a: Date, b: Date)
    requires
        is_full_date(a),
        is_full_date(b),
    ensures
        text_less(spec_date_text(a), spec_date_text(b)) == date_less(a, b),
        (spec_date_text(a) == spec_date_text(b)) == (a == b),
{
    reveal_with_fuel(pow, 5);
    assert(pow(10, 4) == 10000);
    assert(pow(10, 2) == 100);
    let dash = seq!['-'];
    assert(!text_less(dash, dash)) by {
        assert(dash.drop_first() =~= Seq::<char>::empty());
        assert(!text_less(Seq::<char>::empty(), Seq::<char>::empty()));
    }
    let ya = radix_str(a.year as nat, 10, 4);
    let yb = radix_str(b.year as nat, 10, 4);
    let ma = radix_str(a.month as nat, 10, 2);
    let mb = radix_str(b.month as nat, 10, 2);
    let da = radix_str(a.day as nat, 10, 2);
    let db = radix_str(b.day as nat, 10, 2);
    lemma_radix_str_len(a.year as nat, 10, 4);
    lemma_radix_str_len(b.year as nat, 10, 4);
    lemma_radix_str_len(a.month as nat, 10, 2);
    lemma_radix_str_len(b.month as nat, 10, 2);
    lemma_radix_str_order(a.year as nat, b.year as nat, 4);
    lemma_radix_str_order(a.month as nat, b.month as nat, 2);
    lemma_radix_str_order(a.day as nat, b.day as nat, 2);
    let sa = dash + da;
    let sb = dash + db;
    let ra = ma + sa;
    let rb = mb + sb;
    let ta = dash + ra;
    let tb = dash + rb;
    assert(spec_date_text(a) == ya + ta);
    assert(spec_date_text(b) == yb + tb);
    lemma_text_less_concat(dash, da, dash, db);
    lemma_text_less_concat(ma, sa, mb, sb);
    lemma_text_less_concat(dash, ra, dash, rb);
    lemma_text_less_concat(ya, ta, yb, tb);
    if ya + ta == yb + tb {
        assert(ya =~= (ya + ta).take(4));
        assert(yb =~= (yb + tb).take(4));
        assert(ta =~= (ya + ta).skip(4));
        assert(tb =~= (yb + tb).skip(4));
        assert(ma =~= ta.subrange(1, 3));
        assert(mb =~= tb.subrange(1, 3));
        assert(da =~= ta.skip(4));
        assert(db =~= tb.skip(4));
    }
}

/// Indices of the album artist in the album artist array.
#[derive(Copy, Clone, Debug, PartialEq, Eq, PartialOrd, Ord)]
pub struct AlbumArtistsRef {
    /// Index of the first album artist.
    pub begin: u32,
    /// Index past the last album artist.
    pub end: u32,
}

#[derive(Clone, Debug, PartialEq, Eq, PartialOrd, Ord)]
pub struct Album {
    pub artist_ids: AlbumArtistsRef,
    pub artist: StringRef,
    pub title: StringRef,
    pub original_release_date: Date,
    pub loudness: Option<Lufs>,
    /// First time that we encountered this album.
    pub first_seen: Instant,
}

#[derive(Clone, Debug, PartialEq, Eq, PartialOrd, Ord)]
pub struct Artist {
    pub name: StringRef,
    pub name_for_sort: StringRef,
}

/// An instant with second granularity, used for e.g. album import times.
#[derive(Clone, Copy, Debug, PartialEq, Eq, PartialOrd, Ord)]
pub struct Instant {
    pub posix_seconds_utc: i64,
}

/// The POSIX timestamp of the instant that the RFC 3339 text `text` denotes,
/// as chrono's `DateTime::parse_from_rfc3339` reads it; `None` where it
/// rejects the text.
pub uninterp spec fn rfc3339_timestamp(text: Seq<char>) -> Option<i64>;

/// The RFC 3339 text, with whole seconds and `Z` for UTC, that chrono's
/// `DateTime::to_rfc3339_opts(SecondsFormat::Secs, true)` writes for the UTC
/// instant `posix_seconds` seconds after the epoch.
pub uninterp spec fn rfc3339_utc_seconds(posix_seconds: i64) -> Seq<char>;

/// The timestamps that chrono can turn into a date and time: from the first
/// second of year -262143 to the last second of year 262142.
pub open spec fn timestamp_in_range(posix_seconds: i64) -> bool {
    -8_334_601_315_200 <= posix_seconds <= 8_210_266_876_799
}

/// A numeric UTC offset as RFC 3339 writes it: a sign, two digits of hours,
/// `:`, two digits of minutes.
pub open spec fn utc_offset_text(negative: bool, hours: nat, minutes: nat) -> Seq<char> {
    seq![if negative { '-' } else { '+' }] + radix_str(hours, 10, 2) + seq![':'] + radix_str(
        minutes,
        10,
        2,
    )
}

/// The seconds that a UTC offset puts local time ahead of UTC.
pub open spec fn offset_seconds(negative: bool, hours: nat, minutes: nat) -> int {
    let seconds = (hours * 3600 + minutes * 60) as int;
    if negative {
        -seconds
    } else {
        seconds
    }
}

/// The timestamp `r` read from `text` takes its UTC offset into account: where
/// `text` is a date and time `p` followed by an offset of less than a day, the
/// timestamp is that of `p` read as UTC (`p` followed by `Z`) minus the
/// offset, and `text` is refused exactly where `p` followed by `Z` is.
pub open spec fn reads_offset(text: Seq<char>, r: Option<i64>) -> bool {
    forall|p: Seq<char>, negative: bool, hours: nat, minutes: nat|
        #![trigger p + utc_offset_text(negative, hours, minutes)]
        hours < 24 && minutes < 60 && text == p + utc_offset_text(negative, hours, minutes) ==> r
            == match rfc3339_timestamp(p.push('Z')) {
            Some(z) => Some((z - offset_seconds(negative, hours, minutes)) as i64),
            None => None,
        }
}

/// `DateTime::parse_from_rfc3339`, then `DateTime::timestamp` of the result.
/// The result is named: it is `rfc3339_timestamp` of the text. Of it the
/// source shows (`parse_rfc3339` in chrono's `format/parse.rs`) that the
/// date and time before the offset are read the same whatever the offset,
/// that an offset of `+hh:mm` or `-hh:mm` with hours below 24 and minutes
/// below 60 is accepted as `Z` is, and that the timestamp is the local date
/// and time taken as UTC minus the offset.
#[verifier::external_body]
fn parse_rfc3339_timestamp(text: &str) -> (r: Option<i64>)
    ensures
        r == rfc3339_timestamp(text@),
        reads_offset(text@, r),
{
    match DateTime::parse_from_rfc3339(text) {
        Ok(dt) => Some(dt.timestamp()),
        Err(_) => None,
    }
}

/// The timestamps of the years 0 to 9999, whose year RFC 3339 writes with
/// four digits.
pub open spec fn four_digit_year(posix_seconds: i64) -> bool {
    -62_167_219_200 <= posix_seconds <= 253_402_300_799
}

/// The time of day of a timestamp in UTC, as `hh:mm:ss`.
pub open spec fn time_of_day_text(posix_seconds: int) -> Seq<char> {
    let t = posix_seconds % 86400;
    radix_str(((t / 60) / 60) as nat, 10, 2) + seq![':'] + radix_str(((t / 60) % 60) as nat, 10, 2)
        + seq![':'] + radix_str((t % 60) as nat, 10, 2)
}

/// What RFC 3339 text in UTC with whole seconds is for a timestamp of a
/// four-digit year: `YYYY-MM-DDThh:mm:ssZ`, with the time of day of the
/// timestamp, and reading it back gives the timestamp.
pub open spec fn utc_seconds_text(posix_seconds: i64, text: Seq<char>) -> bool {
    four_digit_year(posix_seconds) ==> {
        &&& text.len() == 20
        &&& text[4] == '-'
        &&& text[7] == '-'
        &&& text[10] == 'T'
        &&& text.subrange(11, 19) == time_of_day_text(posix_seconds as int)
        &&& text[19] == 'Z'
        &&& rfc3339_timestamp(text) == Some(posix_seconds)
    }
}

/// `DateTime::to_rfc3339_opts(SecondsFormat::Secs, true)` of the UTC date
/// and time `posix_seconds` seconds after the epoch, which the argument is
/// turned into by `NaiveDateTime::from_timestamp` and `DateTime::from_utc`.
/// `from_timestamp` panics outside the range that chrono represents, which
/// the requirement leaves out. The text is named: it is
/// `rfc3339_utc_seconds` of the argument. Of it the source shows
/// (`write_rfc3339` in chrono's `format/formatting.rs`, `NaiveTime::hms`)
/// that for a four-digit year it is `YYYY-MM-DDThh:mm:ssZ` with the hours,
/// minutes and seconds of the timestamp's second of the day, which
/// `parse_rfc3339` reads back as the same timestamp.
#[verifier::external_body]
#[allow(deprecated)]
fn rfc3339_secs_z(posix_seconds: i64) -> (r: String)
    requires
        timestamp_in_range(posix_seconds),
    ensures
        r@ == rfc3339_utc_seconds(posix_seconds),
        utc_seconds_text(posix_seconds, r@),
{
    DateTime::<Utc>::from_utc(NaiveDateTime::from_timestamp(posix_seconds, 0), Utc)
        .to_rfc3339_opts(SecondsFormat::Secs, true)
}

impl Instant {
    /// Reads an RFC 3339 date and time (as in `2021-03-04T05:06:07+01:00`).
    pub fn from_iso8601(t: &str) -> (r: Option<Instant>)
        ensures
            r == (match rfc3339_timestamp(t@) {
                Some(secs) => Some(Instant { posix_seconds_utc: secs }),
                None => None,
            }),
            reads_offset(
                t@,
                match r {
                    Some(i) => Some(i.posix_seconds_utc),
                    None => None,
                },
            ),
    {
        match parse_rfc3339_timestamp(t) {
            Some(secs) => Some(Instant { posix_seconds_utc: secs }),
            None => None,
        }
    }

    /// Whether chrono can turn the instant into a date and time.
    pub fn is_representable(&self) -> (r: bool)
        ensures
            r == timestamp_in_range(self.posix_seconds_utc),
    {
        -8_334_601_315_200 <= self.posix_seconds_utc && self.posix_seconds_utc <= 8_210_266_876_799
    }

    /// The instant in RFC 3339 form, in UTC with whole seconds and a `Z`.
    pub fn format_iso8601(&self) -> (r: String)
        requires
            timestamp_in_range(self.posix_seconds_utc),
        ensures
            r@ == rfc3339_utc_seconds(self.posix_seconds_utc),
            utc_seconds_text(self.posix_seconds_utc, r@),
    {
        rfc3339_secs_z(self.posix_seconds_utc)
    }
}

/// The bits of a track id that come from its album id: all but the low 12.
pub open spec fn album_bits(id: u64) -> u64 {
    id & 0xffff_ffff_ffff_f000
}

/// The track id of track `track_number` on disc `disc_number` of an album.
pub open spec fn spec_track_id(album_id: u64, disc_number: u8, track_number: u8) -> u64 {
    album_bits(album_id) | (((disc_number & 0xf) as u64) << 8u64) | (track_number as u64)
}

pub fn get_track_id(album_id: AlbumId, disc_number: u8, track_number: u8) -> (r: TrackId)
    ensures
        r.0 == spec_track_id(album_id.0, disc_number, track_number),
{
    let high = album_id.0 & 0xffff_ffff_ffff_f000;
    let mid = ((disc_number & 0xf) as u64) << 8;
    let low = track_number as u64;
    TrackId(high | mid | low)
}

/// A track id keeps the album bits of its album id, and its low 12 bits are
/// the disc number (modulo 16) and the track number.
pub proof fn lemma_track_id_layout(album_id: u64, disc_number: u8, track_number: u8)
    ensures
        album_bits(spec_track_id(album_id, disc_number, track_number)) == album_bits(album_id),
        (spec_track_id(album_id, disc_number, track_number) >> 8u64) & 0xf == (disc_number & 0xf) as u64,
        spec_track_id(album_id, disc_number, track_number) & 0xff == track_number as u64,
{
    assert(((album_id & 0xffff_ffff_ffff_f000) | (((disc_number & 0xf) as u64) << 8u64) | (track_number as u64)) & 0xffff_ffff_ffff_f000 == album_id & 0xffff_ffff_ffff_f000) by (bit_vector);
    assert(((((album_id & 0xffff_ffff_ffff_f000) | (((disc_number & 0xf) as u64) << 8u64) | (track_number as u64)) >> 8u64) & 0xf) == (disc_number & 0xf) as u64) by (bit_vector);
    assert((((album_id & 0xffff_ffff_ffff_f000) | (((disc_number & 0xf) as u64) << 8u64) | (track_number as u64)) & 0xff) == track_number as u64) by (bit_vector);
}

/// Tracks of one album are told apart by disc number (modulo 16) and track
/// number: two tracks that differ in either get different ids.
pub proof fn lemma_track_ids_distinct(
    album_id: u64,
    disc1: u8,
    track1: u8,
    disc2: u8,
    track2: u8,
)
    requires
        (disc1 & 0xf) != (disc2 & 0xf) || track1 != track2,
    ensures
        spec_track_id(album_id, disc1, track1) != spec_track_id(album_id, disc2, track2),
{
    lemma_track_id_layout(album_id, disc1, track1);
    lemma_track_id_layout(album_id, disc2, track2);
    assert((disc1 & 0xf) as u64 == (disc1 & 0xf)) by (bit_vector);
    assert((disc2 & 0xf) as u64 == (disc2 & 0xf)) by (bit_vector);
}

/// All tracks of an album lie in one range of ids: from the album bits of the
/// album id up to the same bits with the low 12 bits set.
pub proof fn lemma_track_id_in_album_range(album_id: u64, disc_number: u8, track_number: u8)
    ensures
        album_bits(album_id) <= spec_track_id(album_id, disc_number, track_number),
        spec_track_id(album_id, disc_number, track_number) <= album_bits(album_id) | 0xfff,
{
    assert((album_id & 0xffff_ffff_ffff_f000) <= ((album_id & 0xffff_ffff_ffff_f000) | (((
    disc_number & 0xf) as u64) << 8u64) | (track_number as u64))) by (bit_vector);
    assert(((album_id & 0xffff_ffff_ffff_f000) | (((disc_number & 0xf) as u64) << 8u64) | (
    track_number as u64)) <= ((album_id & 0xffff_ffff_ffff_f000) | 0xfff)) by (bit_vector);
}

} // verus!
