//! Market specification, ticker parsing, and fair-value composition for
//! binary options on a spot price.
//!
//! The probability that an "above" market settles YES is the risk-neutral
//! `Phi(d2)`; the normal-distribution values are transcendental and are
//! supplied by the caller's numeric engine as micro-unit inputs. Everything
//! around them is exact: the edge-case policy for expired or degenerate
//! markets, the above/below/range composition and its clamping, and the
//! deterministic ticker grammar `KXBTC-YYMMMDD-THHMM-B<strike>[-<ceiling>]`
//! whose date is US Eastern, converted to UTC with a fixed five-hour offset.

use vstd::prelude::*;

use crate::text::parse_u64;
use crate::text::spec_all_digits;
use crate::text::spec_digit_val;
use crate::text::spec_digits_val;
use crate::text::spec_is_digit;
use crate::text::spec_split;
use crate::text::split_char;
use crate::MICRO;

verus! {

/// Default annualized volatility, in micro units (one half).
pub const PLACEHOLDER_VOLATILITY_MICRO: i64 = 500_000;

/// Strikes are capped so that a strike in whole dollars times one million
/// stays far inside the integer range.
pub const STRIKE_CAP: u64 = 1_000_000_000_000;

// =============================================================================
// Market specification
// =============================================================================

/// What the market pays on: the spot at or above the strike, below it, or
/// inside a floor/ceiling range.
#[derive(Clone, Copy, PartialEq, Eq, Structural, Debug)]
pub enum MarketType {
    Above,
    Below,
    Range { floor: u64, ceiling: u64 },
}

/// Where the volatility figure comes from; values in micro units.
#[derive(Clone, Debug)]
pub enum VolatilitySource {
    Constant(i64),
    Historical { window_hours: u32, value: i64 },
    Implied { source: String, value: i64 },
}

/// The volatility a source supplies.
pub open spec fn spec_get_vol(v: &VolatilitySource) -> i64 {
    match v {
        VolatilitySource::Constant(x) => *x,
        VolatilitySource::Historical { value, .. } => *value,
        VolatilitySource::Implied { value, .. } => *value,
    }
}

impl VolatilitySource {
    pub fn get_vol(&self) -> (r: i64)
        ensures
            r == spec_get_vol(self),
    {
        match self {
            VolatilitySource::Constant(v) => *v,
            VolatilitySource::Historical { value, .. } => *value,
            VolatilitySource::Implied { value, .. } => *value,
        }
    }
}

impl Default for VolatilitySource {
    /// The constant placeholder volatility.
    fn default() -> (r: Self)
        ensures
            r == VolatilitySource::Constant(PLACEHOLDER_VOLATILITY_MICRO),
    {
        VolatilitySource::Constant(PLACEHOLDER_VOLATILITY_MICRO)
    }
}

/// Strikes of a market type stay under the cap.
pub open spec fn market_type_wf(mt: MarketType) -> bool {
    match mt {
        MarketType::Above => true,
        MarketType::Below => true,
        MarketType::Range { floor, ceiling } => floor <= STRIKE_CAP && ceiling <= STRIKE_CAP,
    }
}

/// Parsed market specification for one binary market.
#[derive(Clone)]
pub struct BtcMarketSpec {
    /// The ticker string as given.
    pub ticker: String,
    /// Strike price in whole dollars.
    pub strike: u64,
    /// Expiry as UTC epoch seconds.
    pub expiry_epoch_s: i64,
    /// Above, below, or range.
    pub market_type: MarketType,
}

impl BtcMarketSpec {
    pub open spec fn wf(&self) -> bool {
        &&& self.strike <= STRIKE_CAP
        &&& market_type_wf(self.market_type)
        &&& 0 <= self.expiry_epoch_s <= 5_000_000_000
    }

    /// Seconds from `now` to expiry (negative when past).
    pub fn seconds_to_expiry(&self, now_epoch_s: i64) -> (r: i64)
        requires
            self.wf(),
            -5_000_000_000 <= now_epoch_s <= 5_000_000_000,
        ensures
            r == self.expiry_epoch_s - now_epoch_s,
    {
        self.expiry_epoch_s - now_epoch_s
    }

    /// The market has expired at `now`.
    pub fn is_expired(&self, now_epoch_s: i64) -> (r: bool)
        ensures
            r == (now_epoch_s >= self.expiry_epoch_s),
    {
        now_epoch_s >= self.expiry_epoch_s
    }
}

// =============================================================================
// Dates and times
// =============================================================================

/// A civil calendar date.
#[derive(Clone, Copy, PartialEq, Eq, Structural, Debug)]
pub struct CivilDate {
    pub year: i32,
    pub month: u8,
    pub day: u8,
}

impl CivilDate {
    pub fn year(&self) -> (r: i32)
        ensures
            r == self.year,
    {
        self.year
    }

    pub fn month(&self) -> (r: u8)
        ensures
            r == self.month,
    {
        self.month
    }

    pub fn day(&self) -> (r: u8)
        ensures
            r == self.day,
    {
        self.day
    }
}

/// A time of day to minute precision.
#[derive(Clone, Copy, PartialEq, Eq, Structural, Debug)]
pub struct CivilTime {
    pub hour: u8,
    pub minute: u8,
}

impl CivilTime {
    pub fn hour(&self) -> (r: u8)
        ensures
            r == self.hour,
    {
        self.hour
    }

    pub fn minute(&self) -> (r: u8)
        ensures
            r == self.minute,
    {
        self.minute
    }
}

pub open spec fn spec_is_leap_year(y: int) -> bool {
    y % 4 == 0 && (y % 100 != 0 || y % 400 == 0)
}

pub open spec fn spec_days_in_month(y: int, m: int) -> int {
    if m == 2 {
        if spec_is_leap_year(y) {
            29
        } else {
            28
        }
    } else if m == 4 || m == 6 || m == 9 || m == 11 {
        30
    } else {
        31
    }
}

fn days_in_month(year: i32, month: u8) -> (r: u8)
    requires
        year >= 0,
    ensures
        r == spec_days_in_month(year as int, month as int),
{
    if month == 2 {
        if year % 4 == 0 && (year % 100 != 0 || year % 400 == 0) {
            29
        } else {
            28
        }
    } else if month == 4 || month == 6 || month == 9 || month == 11 {
        30
    } else {
        31
    }
}

/// Case-insensitive match of a character against an upper-case letter.
pub open spec fn spec_char_ci(a: char, upper: char) -> bool {
    a == upper || a as int == upper as int + 32
}

fn char_ci(a: char, upper: char) -> (r: bool)
    ensures
        r == spec_char_ci(a, upper),
{
    a == upper || (a as u32) == (upper as u32) + 32
}

/// Month number of a three-letter English abbreviation, any case; zero when
/// the letters name no month.
pub open spec fn spec_month_ci(c0: char, c1: char, c2: char) -> int {
    if spec_char_ci(c0, 'J') && spec_char_ci(c1, 'A') && spec_char_ci(c2, 'N') {
        1
    } else if spec_char_ci(c0, 'F') && spec_char_ci(c1, 'E') && spec_char_ci(c2, 'B') {
        2
    } else if spec_char_ci(c0, 'M') && spec_char_ci(c1, 'A') && spec_char_ci(c2, 'R') {
        3
    } else if spec_char_ci(c0, 'A') && spec_char_ci(c1, 'P') && spec_char_ci(c2, 'R') {
        4
    } else if spec_char_ci(c0, 'M') && spec_char_ci(c1, 'A') && spec_char_ci(c2, 'Y') {
        5
    } else if spec_char_ci(c0, 'J') && spec_char_ci(c1, 'U') && spec_char_ci(c2, 'N') {
        6
    } else if spec_char_ci(c0, 'J') && spec_char_ci(c1, 'U') && spec_char_ci(c2, 'L') {
        7
    } else if spec_char_ci(c0, 'A') && spec_char_ci(c1, 'U') && spec_char_ci(c2, 'G') {
        8
    } else if spec_char_ci(c0, 'S') && spec_char_ci(c1, 'E') && spec_char_ci(c2, 'P') {
        9
    } else if spec_char_ci(c0, 'O') && spec_char_ci(c1, 'C') && spec_char_ci(c2, 'T') {
        10
    } else if spec_char_ci(c0, 'N') && spec_char_ci(c1, 'O') && spec_char_ci(c2, 'V') {
        11
    } else if spec_char_ci(c0, 'D') && spec_char_ci(c1, 'E') && spec_char_ci(c2, 'C') {
        12
    } else {
        0
    }
}

fn month_ci(c0: char, c1: char, c2: char) -> (r: u8)
    ensures
        r == spec_month_ci(c0, c1, c2),
{
    if char_ci(c0, 'J') && char_ci(c1, 'A') && char_ci(c2, 'N') {
        1
    } else if char_ci(c0, 'F') && char_ci(c1, 'E') && char_ci(c2, 'B') {
        2
    } else if char_ci(c0, 'M') && char_ci(c1, 'A') && char_ci(c2, 'R') {
        3
    } else if char_ci(c0, 'A') && char_ci(c1, 'P') && char_ci(c2, 'R') {
        4
    } else if char_ci(c0, 'M') && char_ci(c1, 'A') && char_ci(c2, 'Y') {
        5
    } else if char_ci(c0, 'J') && char_ci(c1, 'U') && char_ci(c2, 'N') {
        6
    } else if char_ci(c0, 'J') && char_ci(c1, 'U') && char_ci(c2, 'L') {
        7
    } else if char_ci(c0, 'A') && char_ci(c1, 'U') && char_ci(c2, 'G') {
        8
    } else if char_ci(c0, 'S') && char_ci(c1, 'E') && char_ci(c2, 'P') {
        9
    } else if char_ci(c0, 'O') && char_ci(c1, 'C') && char_ci(c2, 'T') {
        10
    } else if char_ci(c0, 'N') && char_ci(c1, 'O') && char_ci(c2, 'V') {
        11
    } else if char_ci(c0, 'D') && char_ci(c1, 'E') && char_ci(c2, 'C') {
        12
    } else {
        0
    }
}

/// The date a ticker date field names: two year digits (2000-based), a
/// three-letter month, and day digits that must form a real calendar day.
pub open spec fn spec_parse_date(s: Seq<char>) -> Option<(int, int, int)> {
    if s.len() < 7 {
        None
    } else {
        let m = spec_month_ci(s[2], s[3], s[4]);
        let day_digits = s.skip(5);
        if !spec_is_digit(s[0]) || !spec_is_digit(s[1]) || m == 0 || !spec_all_digits(day_digits) {
            None
        } else {
            let year = 2000 + spec_digit_val(s[0]) * 10 + spec_digit_val(s[1]);
            let day = spec_digits_val(day_digits);
            if 1 <= day <= spec_days_in_month(year, m) {
                Some((year, m, day))
            } else {
                None
            }
        }
    }
}

/// Parse a ticker date field such as `26FEB04`.
pub fn parse_kalshi_date(s: &str) -> (r: Option<CivilDate>)
    ensures
        match r {
            Some(d) => spec_parse_date(s@) == Some((d.year as int, d.month as int, d.day as int)),
            None => spec_parse_date(s@) is None,
        },
{
    let len = s.unicode_len();
    if len < 7 {
        return None;
    }
    let c0 = s.get_char(0);
    let c1 = s.get_char(1);
    let is_d0 = c0 >= '0' && c0 <= '9';
    let is_d1 = c1 >= '0' && c1 <= '9';
    let m = month_ci(s.get_char(2), s.get_char(3), s.get_char(4));
    let day_str = s.substring_char(5, len);
    proof {
        assert(day_str@ =~= s@.skip(5));
    }
    let day = match parse_u64(day_str) {
        Some(v) => v,
        None => {
            proof {
                if spec_all_digits(s@.skip(5)) {
                    crate::text::lemma_digits_val_nonneg(s@.skip(5));
                }
            }
            return None;
        },
    };
    if !is_d0 || !is_d1 || m == 0 {
        return None;
    }
    let year: i32 = 2000 + (c0 as u32 - '0' as u32) as i32 * 10 + (c1 as u32 - '0' as u32) as i32;
    if day >= 1 && day <= days_in_month(year, m) as u64 {
        Some(CivilDate { year, month: m, day: day as u8 })
    } else {
        None
    }
}

/// The time a ticker time field names: `HHMM`, read from the first four
/// characters, valid as a time of day.
pub open spec fn spec_parse_time(s: Seq<char>) -> Option<(int, int)> {
    if s.len() < 4 {
        None
    } else if !spec_is_digit(s[0]) || !spec_is_digit(s[1]) || !spec_is_digit(s[2]) || !spec_is_digit(
        s[3],
    ) {
        None
    } else {
        let h = spec_digit_val(s[0]) * 10 + spec_digit_val(s[1]);
        let m = spec_digit_val(s[2]) * 10 + spec_digit_val(s[3]);
        if h < 24 && m < 60 {
            Some((h, m))
        } else {
            None
        }
    }
}

/// Parse a ticker time field such as `1230`.
pub fn parse_kalshi_time(s: &str) -> (r: Option<CivilTime>)
    ensures
        match r {
            Some(t) => spec_parse_time(s@) == Some((t.hour as int, t.minute as int)),
            None => spec_parse_time(s@) is None,
        },
{
    let len = s.unicode_len();
    if len < 4 {
        return None;
    }
    let c0 = s.get_char(0);
    let c1 = s.get_char(1);
    let c2 = s.get_char(2);
    let c3 = s.get_char(3);
    if !(c0 >= '0' && c0 <= '9') || !(c1 >= '0' && c1 <= '9') || !(c2 >= '0' && c2 <= '9') || !(c3
        >= '0' && c3 <= '9') {
        return None;
    }
    let h: u8 = ((c0 as u32 - '0' as u32) * 10 + (c1 as u32 - '0' as u32)) as u8;
    let m: u8 = ((c2 as u32 - '0' as u32) * 10 + (c3 as u32 - '0' as u32)) as u8;
    if h < 24 && m < 60 {
        Some(CivilTime { hour: h, minute: m })
    } else {
        None
    }
}

// =============================================================================
// Civil time to epoch
// =============================================================================

/// UTC epoch seconds of a civil date and time, a function of its arguments
/// alone.
pub uninterp spec fn epoch_seconds_of(year: int, month: int, day: int, hour: int, minute: int) -> int;

/// Relies on chrono's `TimeZone::with_ymd_and_hms` on `Utc` and
/// `DateTime::timestamp`: the UTC epoch seconds of a valid civil date and
/// time, a deterministic calendar computation. Epoch seconds grow with the
/// date, so for years 2000 through 2100 the result lies between the epoch
/// of 2000-01-01 (946,684,800) and that of 2101-01-01 (4,133,980,800).
#[verifier::external_body]
fn civil_to_epoch_seconds(year: i32, month: u8, day: u8, hour: u8, minute: u8) -> (r: i64)
    requires
        2000 <= year <= 2100,
        1 <= month <= 12,
        1 <= day <= spec_days_in_month(year as int, month as int),
        hour < 24,
        minute < 60,
    ensures
        r == epoch_seconds_of(year as int, month as int, day as int, hour as int, minute as int),
        946_684_800 <= r <= 4_133_980_800,
{
    chrono::TimeZone::with_ymd_and_hms(
        &chrono::Utc,
        year,
        month as u32,
        day as u32,
        hour as u32,
        minute as u32,
        0,
    ).single().map(|dt| dt.timestamp()).unwrap_or(0)
}

/// Seconds the Eastern-Time offset adds: the parser treats venue times as
/// UTC-5 the year round, a deliberate simplification.
pub const ET_OFFSET_SECONDS: i64 = 18_000;

/// Epoch of an Eastern-Time civil date and time under the fixed offset.
pub open spec fn spec_et_epoch(y: int, m: int, d: int, hh: int, mm: int) -> int {
    epoch_seconds_of(y, m, d, hh, mm) + ET_OFFSET_SECONDS
}

/// Convert an Eastern-Time civil date and time to UTC epoch seconds.
pub fn et_civil_to_epoch(date: &CivilDate, time: &CivilTime) -> (r: i64)
    requires
        2000 <= date.year <= 2100,
        1 <= date.month <= 12,
        1 <= date.day <= spec_days_in_month(date.year as int, date.month as int),
        time.hour < 24,
        time.minute < 60,
    ensures
        r == spec_et_epoch(
            date.year as int,
            date.month as int,
            date.day as int,
            time.hour as int,
            time.minute as int,
        ),
        0 <= r <= 5_000_000_000,
{
    civil_to_epoch_seconds(date.year, date.month, date.day, time.hour, time.minute)
        + ET_OFFSET_SECONDS
}

// =============================================================================
// Ticker grammar
// =============================================================================

/// Market type and strike named by a strike field and the optional field
/// after it: `B<digits>` is an above market (a range when the next field is
/// its digit ceiling), `A<digits>` a below market, bare digits an above
/// market.
pub open spec fn spec_strike_part(part: Seq<char>, next: Option<Seq<char>>) -> Option<
    (MarketType, int),
> {
    if part.len() >= 1 && part[0] == 'B' {
        let digits = part.skip(1);
        if digits.len() > 0 && spec_all_digits(digits) && spec_digits_val(digits) <= u64::MAX {
            let strike = spec_digits_val(digits);
            match next {
                Some(np) => {
                    if np.len() > 0 && spec_all_digits(np) && spec_digits_val(np) <= u64::MAX {
                        Some(
                            (
                                MarketType::Range {
                                    floor: strike as u64,
                                    ceiling: spec_digits_val(np) as u64,
                                },
                                strike,
                            ),
                        )
                    } else {
                        Some((MarketType::Above, strike))
                    }
                },
                None => Some((MarketType::Above, strike)),
            }
        } else {
            None
        }
    } else if part.len() >= 1 && part[0] == 'A' {
        let digits = part.skip(1);
        if digits.len() > 0 && spec_all_digits(digits) && spec_digits_val(digits) <= u64::MAX {
            Some((MarketType::Below, spec_digits_val(digits)))
        } else {
            None
        }
    } else {
        if part.len() > 0 && spec_all_digits(part) && spec_digits_val(part) <= u64::MAX {
            Some((MarketType::Above, spec_digits_val(part)))
        } else {
            None
        }
    }
}

/// Parse a strike field and the optional ceiling field after it.
pub fn parse_strike_part(part: &str, next_part: Option<&str>) -> (r: Option<(MarketType, u64)>)
    ensures
        match r {
            Some((mt, strike)) => spec_strike_part(
                part@,
                match next_part {
                    Some(np) => Some(np@),
                    None => None,
                },
            ) == Some((mt, strike as int)),
            None => spec_strike_part(
                part@,
                match next_part {
                    Some(np) => Some(np@),
                    None => None,
                },
            ) is None,
        },
{
    let len = part.unicode_len();
    if len >= 1 && part.get_char(0) == 'B' {
        let digits = part.substring_char(1, len);
        proof {
            assert(digits@ =~= part@.skip(1));
        }
        let strike = match parse_u64(digits) {
            Some(v) => v,
            None => {
                return None;
            },
        };
        if let Some(np) = next_part {
            if let Some(ceiling) = parse_u64(np) {
                return Some((MarketType::Range { floor: strike, ceiling }, strike));
            }
        }
        Some((MarketType::Above, strike))
    } else if len >= 1 && part.get_char(0) == 'A' {
        let digits = part.substring_char(1, len);
        proof {
            assert(digits@ =~= part@.skip(1));
        }
        match parse_u64(digits) {
            Some(v) => Some((MarketType::Below, v)),
            None => None,
        }
    } else {
        match parse_u64(part) {
            Some(v) => Some((MarketType::Above, v)),
            None => None,
        }
    }
}

/// Fields of a `KXBTC-<date>-T<time>-B<strike>[-<ceiling>]` ticker:
/// the market type, the strike in dollars, and the UTC expiry epoch.
pub open spec fn spec_kxbtc_fields(s: Seq<char>) -> Option<(MarketType, int, int)> {
    let parts = spec_split(s, '-');
    if parts.len() < 4 {
        None
    } else if !(parts[0].len() >= 5 && parts[0].take(5) == "KXBTC"@) {
        None
    } else {
        match spec_parse_date(parts[1]) {
            None => None,
            Some((y, m, d)) => {
                if parts[2].len() >= 1 && parts[2][0] == 'T' {
                    match spec_parse_time(parts[2].skip(1)) {
                        None => None,
                        Some((hh, mm)) => {
                            let next = if parts.len() >= 5 {
                                Some(parts[4])
                            } else {
                                None
                            };
                            match spec_strike_part(parts[3], next) {
                                None => None,
                                Some((mt, strike)) => Some(
                                    (mt, strike, spec_et_epoch(y, m, d, hh, mm)),
                                ),
                            }
                        },
                    }
                } else {
                    None
                }
            },
        }
    }
}

/// Fields of a simple `BTC-<date>-<strike>` ticker: an above market that
/// settles at 16:00 Eastern.
pub open spec fn spec_simple_fields(s: Seq<char>) -> Option<(MarketType, int, int)> {
    let parts = spec_split(s, '-');
    if parts.len() < 3 {
        None
    } else if !(parts[0] == "BTC"@) {
        None
    } else {
        match spec_parse_date(parts[1]) {
            None => None,
            Some((y, m, d)) => {
                if parts[2].len() > 0 && spec_all_digits(parts[2]) && spec_digits_val(parts[2])
                    <= u64::MAX {
                    Some((MarketType::Above, spec_digits_val(parts[2]), spec_et_epoch(y, m, d, 16, 0)))
                } else {
                    None
                }
            },
        }
    }
}

/// Fields a ticker names, trying the venue grammar first and the simple
/// form second.
pub open spec fn spec_btc_fields(s: Seq<char>) -> Option<(MarketType, int, int)> {
    match spec_kxbtc_fields(s) {
        Some(f) => Some(f),
        None => spec_simple_fields(s),
    }
}

fn parse_kxbtc_format(ticker: &str) -> (r: Option<BtcMarketSpec>)
    ensures
        match r {
            Some(sp) => sp.ticker@ == ticker@ && spec_kxbtc_fields(ticker@) == Some(
                (sp.market_type, sp.strike as int, sp.expiry_epoch_s as int),
            ),
            None => spec_kxbtc_fields(ticker@) is None,
        },
{
    let parts = split_char(ticker, '-');
    let ghost pviews = parts@.map_values(|p: String| p@);
    if parts.len() < 4 {
        return None;
    }
    // Prefix.
    let head = &parts[0];
    let head_len = head.as_str().unicode_len();
    proof {
        assert(pviews[0] == parts@[0]@);
    }
    if head_len < 5 {
        return None;
    }
    let prefix = head.as_str().substring_char(0, 5);
    proof {
        assert(prefix@ =~= pviews[0].take(5));
    }
    if !crate::text::str_eq(prefix, "KXBTC") {
        return None;
    }
    // Date.
    proof {
        assert(pviews[1] == parts@[1]@);
    }
    let date = match parse_kalshi_date(parts[1].as_str()) {
        Some(d) => d,
        None => {
            return None;
        },
    };
    // Time.
    proof {
        assert(pviews[2] == parts@[2]@);
    }
    let time_field = parts[2].as_str();
    let time_len = time_field.unicode_len();
    if time_len < 1 || time_field.get_char(0) != 'T' {
        return None;
    }
    let time_digits = time_field.substring_char(1, time_len);
    proof {
        assert(time_digits@ =~= pviews[2].skip(1));
    }
    let time = match parse_kalshi_time(time_digits) {
        Some(t) => t,
        None => {
            return None;
        },
    };
    // Strike.
    proof {
        assert(pviews[3] == parts@[3]@);
        if parts@.len() >= 5 {
            assert(pviews[4] == parts@[4]@);
        }
    }
    let next_part = if parts.len() >= 5 {
        Some(parts[4].as_str())
    } else {
        None
    };
    let (market_type, strike) = match parse_strike_part(parts[3].as_str(), next_part) {
        Some(x) => x,
        None => {
            return None;
        },
    };
    let expiry_epoch_s = et_civil_to_epoch(&date, &time);
    Some(
        BtcMarketSpec {
            ticker: ticker.to_owned(),
            strike,
            expiry_epoch_s,
            market_type,
        },
    )
}

fn parse_simple_btc_format(ticker: &str) -> (r: Option<BtcMarketSpec>)
    ensures
        match r {
            Some(sp) => sp.ticker@ == ticker@ && spec_simple_fields(ticker@) == Some(
                (sp.market_type, sp.strike as int, sp.expiry_epoch_s as int),
            ),
            None => spec_simple_fields(ticker@) is None,
        },
{
    let parts = split_char(ticker, '-');
    let ghost pviews = parts@.map_values(|p: String| p@);
    if parts.len() < 3 {
        return None;
    }
    proof {
        assert(pviews[0] == parts@[0]@);
        assert(pviews[1] == parts@[1]@);
        assert(pviews[2] == parts@[2]@);
    }
    if !crate::text::str_eq(parts[0].as_str(), "BTC") {
        return None;
    }
    let date = match parse_kalshi_date(parts[1].as_str()) {
        Some(d) => d,
        None => {
            return None;
        },
    };
    let strike = match parse_u64(parts[2].as_str()) {
        Some(v) => v,
        None => {
            return None;
        },
    };
    let time = CivilTime { hour: 16, minute: 0 };
    let expiry_epoch_s = et_civil_to_epoch(&date, &time);
    Some(
        BtcMarketSpec {
            ticker: ticker.to_owned(),
            strike,
            expiry_epoch_s,
            market_type: MarketType::Above,
        },
    )
}

/// Parse a market ticker into its specification; parsing failure is
/// non-fatal, the market may be configured explicitly instead.
pub fn parse_btc_ticker(ticker: &str) -> (r: Option<BtcMarketSpec>)
    ensures
        match r {
            Some(sp) => sp.ticker@ == ticker@ && spec_btc_fields(ticker@) == Some(
                (sp.market_type, sp.strike as int, sp.expiry_epoch_s as int),
            ),
            None => spec_btc_fields(ticker@) is None,
        },
{
    match parse_kxbtc_format(ticker) {
        Some(sp) => Some(sp),
        None => parse_simple_btc_format(ticker),
    }
}

// =============================================================================
// Fair value composition
// =============================================================================

/// Settlement value of an above-strike claim: everything when the spot is
/// at or above the strike, nothing below it.
pub open spec fn spec_intrinsic(spot_micro: int, strike: int) -> int {
    if spot_micro >= strike * (MICRO as int) {
        MICRO as int
    } else {
        0
    }
}

/// Probability that the spot settles at or above `strike`: the intrinsic
/// value once expired or without volatility, one half on degenerate prices,
/// otherwise the supplied `Phi(d2)`.
pub open spec fn spec_binary_fv(
    spot_micro: int,
    strike: int,
    secs_to_expiry: int,
    vol_positive: bool,
    phi_micro: int,
) -> int {
    if secs_to_expiry <= 0 {
        spec_intrinsic(spot_micro, strike)
    } else if !vol_positive {
        spec_intrinsic(spot_micro, strike)
    } else if strike == 0 || spot_micro == 0 {
        500_000
    } else {
        phi_micro
    }
}

/// Probability that the spot settles at or above `strike`, with the
/// transcendental `Phi(d2)` supplied in micro units.
pub fn binary_option_fair_value(
    spot_micro: u64,
    strike: u64,
    secs_to_expiry: i64,
    vol_positive: bool,
    phi_micro: i64,
) -> (r: i64)
    requires
        strike <= STRIKE_CAP,
        0 <= phi_micro <= MICRO,
    ensures
        r == spec_binary_fv(
            spot_micro as int,
            strike as int,
            secs_to_expiry as int,
            vol_positive,
            phi_micro as int,
        ),
        0 <= r <= MICRO,
{
    if secs_to_expiry <= 0 || !vol_positive {
        let threshold = strike * 1_000_000u64;
        if spot_micro >= threshold {
            MICRO
        } else {
            0
        }
    } else if strike == 0 || spot_micro == 0 {
        500_000
    } else {
        phi_micro
    }
}

/// Fair YES probability of a market: `Phi` at the strike for an above
/// market, its complement for a below market, and the difference of the
/// floor and ceiling values, clamped into `[0, 1]`, for a range market.
pub open spec fn spec_fair_prob(
    mt: MarketType,
    strike: int,
    spot_micro: int,
    secs_to_expiry: int,
    vol_positive: bool,
    phi_strike: int,
    phi_floor: int,
    phi_ceiling: int,
) -> int {
    match mt {
        MarketType::Above => spec_binary_fv(
            spot_micro,
            strike,
            secs_to_expiry,
            vol_positive,
            phi_strike,
        ),
        MarketType::Below => MICRO - spec_binary_fv(
            spot_micro,
            strike,
            secs_to_expiry,
            vol_positive,
            phi_strike,
        ),
        MarketType::Range { floor, ceiling } => {
            let p = spec_binary_fv(spot_micro, floor as int, secs_to_expiry, vol_positive, phi_floor)
                - spec_binary_fv(
                spot_micro,
                ceiling as int,
                secs_to_expiry,
                vol_positive,
                phi_ceiling,
            );
            if p < 0 {
                0
            } else if p > MICRO {
                MICRO as int
            } else {
                p
            }
        },
    }
}

/// Fair YES probability of a market from the pricing inputs; always within
/// `[0, 1]`.
pub fn fair_prob_micro(
    market_type: MarketType,
    strike: u64,
    spot_micro: u64,
    secs_to_expiry: i64,
    vol_positive: bool,
    phi_strike: i64,
    phi_floor: i64,
    phi_ceiling: i64,
) -> (r: i64)
    requires
        strike <= STRIKE_CAP,
        market_type_wf(market_type),
        0 <= phi_strike <= MICRO,
        0 <= phi_floor <= MICRO,
        0 <= phi_ceiling <= MICRO,
    ensures
        r == spec_fair_prob(
            market_type,
            strike as int,
            spot_micro as int,
            secs_to_expiry as int,
            vol_positive,
            phi_strike as int,
            phi_floor as int,
            phi_ceiling as int,
        ),
        0 <= r <= MICRO,
{
    match market_type {
        MarketType::Above => binary_option_fair_value(
            spot_micro,
            strike,
            secs_to_expiry,
            vol_positive,
            phi_strike,
        ),
        MarketType::Below => MICRO - binary_option_fair_value(
            spot_micro,
            strike,
            secs_to_expiry,
            vol_positive,
            phi_strike,
        ),
        MarketType::Range { floor, ceiling } => {
            let p_floor = binary_option_fair_value(
                spot_micro,
                floor,
                secs_to_expiry,
                vol_positive,
                phi_floor,
            );
            let p_ceiling = binary_option_fair_value(
                spot_micro,
                ceiling,
                secs_to_expiry,
                vol_positive,
                phi_ceiling,
            );
            let p = p_floor - p_ceiling;
            if p < 0 {
                0
            } else if p > MICRO {
                MICRO
            } else {
                p
            }
        },
    }
}

// =============================================================================
// Fair value calculator state
// =============================================================================

/// The fields a ticker yields once the library's caps apply: the parsed
/// market type, strike and expiry epoch, provided every strike is under the
/// cap and the expiry lies in the supported epoch range.
pub open spec fn spec_accepted_btc_fields(s: Seq<char>) -> Option<(MarketType, int, int)> {
    match spec_btc_fields(s) {
        Some((mt, strike, epoch)) => {
            if strike <= STRIKE_CAP && 0 <= epoch <= 5_000_000_000 && market_type_wf(mt) {
                Some((mt, strike, epoch))
            } else {
                None
            }
        },
        None => None,
    }
}

/// Per-market fair value state: the market specification, the volatility
/// source, and the last result.
#[derive(Clone)]
pub struct FairValueCalculator {
    pub market_spec: BtcMarketSpec,
    pub vol_source: VolatilitySource,
    /// Risk-free rate in micro units; zero for crypto underlyings.
    pub risk_free_rate_micro: i64,
    /// Last calculated fair probability, micro units.
    pub last_fair_prob: Option<i64>,
    /// Last spot used, micro-dollars.
    pub last_spot: Option<u64>,
}

impl FairValueCalculator {
    pub open spec fn wf(&self) -> bool {
        &&& self.market_spec.wf()
        &&& match self.last_fair_prob {
            Some(p) => 0 <= p <= MICRO,
            None => true,
        }
    }

    /// New calculator with the placeholder volatility and zero rate.
    pub fn new(market_spec: BtcMarketSpec) -> (r: Self)
        requires
            market_spec.wf(),
        ensures
            r.wf(),
            r.market_spec == market_spec,
            r.vol_source == VolatilitySource::Constant(PLACEHOLDER_VOLATILITY_MICRO),
            r.risk_free_rate_micro == 0,
            r.last_fair_prob is None,
            r.last_spot is None,
    {
        FairValueCalculator {
            market_spec,
            vol_source: VolatilitySource::Constant(PLACEHOLDER_VOLATILITY_MICRO),
            risk_free_rate_micro: 0,
            last_fair_prob: None,
            last_spot: None,
        }
    }

    /// Build from a ticker string: exactly the tickers whose fields parse
    /// and pass the library's caps give a calculator, fresh with the
    /// placeholder volatility; anything else gives nothing.
    pub fn from_ticker(ticker: &str) -> (r: Option<Self>)
        ensures
            match spec_accepted_btc_fields(ticker@) {
                Some(f) => r matches Some(c) && c.wf() && c.market_spec.ticker@ == ticker@
                    && c.market_spec.market_type == f.0 && c.market_spec.strike == f.1
                    && c.market_spec.expiry_epoch_s == f.2 && c.vol_source
                    == VolatilitySource::Constant(PLACEHOLDER_VOLATILITY_MICRO)
                    && c.risk_free_rate_micro == 0 && c.last_fair_prob is None && c.last_spot
                    is None,
                None => r is None,
            },
    {
        let sp = match parse_btc_ticker(ticker) {
            Some(sp) => sp,
            None => {
                return None;
            },
        };
        if !(sp.strike <= STRIKE_CAP && sp.expiry_epoch_s >= 0 && sp.expiry_epoch_s
            <= 5_000_000_000) {
            return None;
        }
        match sp.market_type {
            MarketType::Range { floor, ceiling } => {
                if !(floor <= STRIKE_CAP && ceiling <= STRIKE_CAP) {
                    return None;
                }
            },
            _ => {},
        }
        Some(Self::new(sp))
    }

    /// Build from an explicit specification.
    pub fn manual(ticker: &str, strike: u64, expiry_epoch_s: i64, market_type: MarketType) -> (r:
        Self)
        requires
            strike <= STRIKE_CAP,
            market_type_wf(market_type),
            0 <= expiry_epoch_s <= 5_000_000_000,
        ensures
            r.wf(),
            r.market_spec.ticker@ == ticker@,
            r.market_spec.strike == strike,
            r.market_spec.expiry_epoch_s == expiry_epoch_s,
            r.market_spec.market_type == market_type,
    {
        Self::new(
            BtcMarketSpec { ticker: ticker.to_owned(), strike, expiry_epoch_s, market_type },
        )
    }

    /// Replace the volatility source.
    pub fn with_volatility(self, vol: VolatilitySource) -> (r: Self)
        requires
            self.wf(),
        ensures
            r.wf(),
            r.vol_source == vol,
            r.market_spec == self.market_spec,
            r.last_fair_prob == self.last_fair_prob,
    {
        FairValueCalculator { vol_source: vol, ..self }
    }

    /// Set a constant volatility.
    pub fn set_volatility(&mut self, vol_micro: i64)
        requires
            old(self).wf(),
        ensures
            final(self).wf(),
            final(self).vol_source == VolatilitySource::Constant(vol_micro),
            final(self).market_spec == old(self).market_spec,
            final(self).last_fair_prob == old(self).last_fair_prob,
    {
        self.vol_source = VolatilitySource::Constant(vol_micro);
    }

    /// Fair probability from the current spot, with the transcendental
    /// values supplied by the caller's numeric engine; records the result.
    pub fn calculate_with_phi(
        &mut self,
        spot_micro: u64,
        secs_to_expiry: i64,
        phi_strike: i64,
        phi_floor: i64,
        phi_ceiling: i64,
    ) -> (r: i64)
        requires
            old(self).wf(),
            0 <= phi_strike <= MICRO,
            0 <= phi_floor <= MICRO,
            0 <= phi_ceiling <= MICRO,
        ensures
            final(self).wf(),
            r == spec_fair_prob(
                old(self).market_spec.market_type,
                old(self).market_spec.strike as int,
                spot_micro as int,
                secs_to_expiry as int,
                spec_get_vol(&old(self).vol_source) > 0,
                phi_strike as int,
                phi_floor as int,
                phi_ceiling as int,
            ),
            0 <= r <= MICRO,
            final(self).last_fair_prob == Some(r),
            final(self).last_spot == Some(spot_micro),
            final(self).market_spec == old(self).market_spec,
            final(self).vol_source == old(self).vol_source,
    {
        let vol_positive = self.vol_source.get_vol() > 0;
        let fair = fair_prob_micro(
            self.market_spec.market_type,
            self.market_spec.strike,
            spot_micro,
            secs_to_expiry,
            vol_positive,
            phi_strike,
            phi_floor,
            phi_ceiling,
        );
        self.last_fair_prob = Some(fair);
        self.last_spot = Some(spot_micro);
        fair
    }

    /// Last calculated fair probability.
    pub fn fair_prob(&self) -> (r: Option<i64>)
        ensures
            r == self.last_fair_prob,
    {
        self.last_fair_prob
    }

    /// Last fair probability of the NO side.
    pub fn fair_prob_no(&self) -> (r: Option<i64>)
        requires
            self.wf(),
        ensures
            match self.last_fair_prob {
                Some(p) => r == Some((MICRO - p) as i64),
                None => r is None,
            },
    {
        match self.last_fair_prob {
            Some(p) => Some(MICRO - p),
            None => None,
        }
    }
}

} // verus!
