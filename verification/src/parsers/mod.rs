//! Contains the modules that turn responses from the NationStates API into typed values.
//!
//! A response is first read into the plain `Raw*` records of [`raw_nation`] and
//! [`raw_region`]; the conversions here check and shape those records.

pub mod happenings;
pub mod nation;
pub mod raw_nation;
pub mod raw_region;
pub mod region;

use vstd::prelude::*;
use chrono::DateTime;
use rust_decimal::Decimal;
use crate::models::dispatch::DispatchCategory;
use crate::parsers::nation::{IntoNationError, NationName};
use crate::parsers::region::IntoRegionError;
use crate::text::{owned, parse_decimal, parse_unsigned};

verus! {

/// The leader shown when a nation has not chosen one.
pub const DEFAULT_LEADER: &'static str = "Leader";

/// The religion shown when a nation has not chosen one.
pub const DEFAULT_RELIGION: &'static str = "a major religion";

/// A number of nations.
pub type NumNations = u32;

/// rust_decimal's `Decimal`, carried through unread.
#[verifier::external_type_specification]
#[verifier::external_body]
pub struct ExDecimal(rust_decimal::Decimal);


/// An error met while shaping a response.
#[derive(Debug)]
#[non_exhaustive]
pub enum ParsingError {
    /// An error in a nation response.
    Nation(Box<IntoNationError>),
    /// An error in a region response.
    Region(Box<IntoRegionError>),
    /// A field held a value it should not (field, value).
    BadFieldError(&'static str, String),
    /// A field was missing.
    NoFieldError(&'static str),
}

/// One line of happenings as the API sends it.
#[derive(Clone, Debug)]
pub struct RawEvent {
    /// The Unix timestamp of the event.
    pub timestamp: u64,
    /// The text of the event.
    pub text: String,
}

/// A value that either comes from a default or was customized.
#[derive(Clone, Debug)]
pub enum DefaultOrCustom {
    /// The value is the default.
    Default(String),
    /// The value is custom.
    Custom(String),
}

/// The view of a [`DefaultOrCustom`]: whether it is custom, and its text.
pub open spec fn default_or_custom_view(d: DefaultOrCustom) -> (bool, Seq<char>) {
    match d {
        DefaultOrCustom::Default(s) => (false, s@),
        DefaultOrCustom::Custom(s) => (true, s@),
    }
}

impl DefaultOrCustom {
    /// A leader: the default leader when the text is empty, the text otherwise.
    pub fn leader(l: String) -> (r: Self)
        ensures
            l@.len() == 0 ==> default_or_custom_view(r) == (false, DEFAULT_LEADER@),
            l@.len() > 0 ==> r == DefaultOrCustom::Custom(l),
    {
        if l.unicode_len() == 0 {
            DefaultOrCustom::Default(owned(DEFAULT_LEADER))
        } else {
            DefaultOrCustom::Custom(l)
        }
    }

    /// A capital: the nation's name followed by `" City"` when the text is empty, the text
    /// otherwise.
    pub fn capital(c: String, nation: &str) -> (r: Self)
        ensures
            c@.len() == 0 ==> default_or_custom_view(r) == (false, nation@ + " City"@),
            c@.len() > 0 ==> r == DefaultOrCustom::Custom(c),
    {
        if c.unicode_len() == 0 {
            let mut s = owned(nation);
            crate::text::push_str(&mut s, " City");
            DefaultOrCustom::Default(s)
        } else {
            DefaultOrCustom::Custom(c)
        }
    }

    /// A religion: the default religion when the text is empty, the text otherwise.
    pub fn religion(r: String) -> (d: Self)
        ensures
            r@.len() == 0 ==> default_or_custom_view(d) == (false, DEFAULT_RELIGION@),
            r@.len() > 0 ==> d == DefaultOrCustom::Custom(r),
    {
        if r.unicode_len() == 0 {
            DefaultOrCustom::Default(owned(DEFAULT_RELIGION))
        } else {
            DefaultOrCustom::Custom(r)
        }
    }
}

/// The oldest second that chrono represents: -262143-01-01T00:00:00 UTC.
pub const EARLIEST_TIMESTAMP: i64 = -8334601228800;

/// The latest second that chrono represents: 262142-12-31T23:59:59 UTC.
pub const LATEST_TIMESTAMP: i64 = 8210266876799;

/// Whether a Unix timestamp is in the range of dates that chrono represents.
pub open spec fn timestamp_in_range(t: i64) -> bool {
    EARLIEST_TIMESTAMP <= t <= LATEST_TIMESTAMP
}

/// chrono's `DateTime::from_timestamp(t, 0)`, told apart by whether it gave a date-time.
/// Claimed: it does exactly when `t` lies in chrono's range of years (-262143 to 262142).
#[verifier::external_body]
fn chrono_represents(t: i64) -> (r: bool)
    ensures
        r == timestamp_in_range(t),
{
    DateTime::from_timestamp(t, 0).is_some()
}

/// A Unix timestamp (in seconds) that chrono represents as a UTC date-time.
#[derive(Clone, Copy, Debug, PartialEq, Eq, Structural)]
pub struct UtcTime {
    seconds: i64,
}

impl UtcTime {
    /// The seconds since the Unix epoch.
    pub closed spec fn secs(self) -> i64 {
        self.seconds
    }

    /// The seconds since the Unix epoch.
    pub fn seconds(&self) -> (r: i64)
        ensures
            r == self.secs(),
    {
        self.seconds
    }
}

/// The date-time of a Unix timestamp, when chrono represents it.
pub fn into_datetime(t: i64) -> (r: Option<UtcTime>)
    ensures
        r is Some <==> timestamp_in_range(t),
        r matches Some(u) ==> u.secs() == t,
{
    if chrono_represents(t) {
        Some(UtcTime { seconds: t })
    } else {
        None
    }
}

/// A relative timestamp that may or may not have been recorded.
#[derive(Clone, Debug)]
pub enum MaybeRelativeTime {
    /// A known time.
    Recorded(String),
    /// A prehistoric time.
    Antiquity,
}

/// A relative time from its text: `"0"` is antiquity.
pub open spec fn relative_time(s: String) -> MaybeRelativeTime {
    if s@ == "0"@ {
        MaybeRelativeTime::Antiquity
    } else {
        MaybeRelativeTime::Recorded(s)
    }
}

/// The text of a relative time: `"0"` for antiquity.
pub open spec fn relative_text(m: MaybeRelativeTime) -> Seq<char> {
    match m {
        MaybeRelativeTime::Recorded(t) => t@,
        MaybeRelativeTime::Antiquity => "0"@,
    }
}

/// A relative time from a text that may be missing: a missing one is antiquity.
pub open spec fn relative_of_option(o: Option<String>) -> MaybeRelativeTime {
    match o {
        Some(t) => MaybeRelativeTime::Recorded(t),
        None => MaybeRelativeTime::Antiquity,
    }
}

/// The text of a relative time, missing for antiquity.
pub open spec fn option_of_relative(m: MaybeRelativeTime) -> Option<String> {
    match m {
        MaybeRelativeTime::Recorded(t) => Some(t),
        MaybeRelativeTime::Antiquity => None,
    }
}

/// Reading a relative time from its text and writing it back gives the text; going through
/// an optional text and back changes nothing either way.
pub proof fn lemma_relative_time_round_trip(s: String, o: Option<String>, m: MaybeRelativeTime)
    ensures
        relative_text(relative_time(s)) == s@,
        option_of_relative(relative_of_option(o)) == o,
        relative_of_option(option_of_relative(m)) == m,
{
}

impl MaybeRelativeTime {
    /// `"0"` means antiquity; any other text is a recorded time.
    pub fn from_text(value: String) -> (r: Self)
        ensures
            r == relative_time(value),
    {
        if crate::text::same(value.as_str(), "0") {
            MaybeRelativeTime::Antiquity
        } else {
            MaybeRelativeTime::Recorded(value)
        }
    }

    /// `None` means antiquity.
    pub fn from_option(value: Option<String>) -> (r: Self)
        ensures
            r == relative_of_option(value),
    {
        match value {
            Some(t) => MaybeRelativeTime::Recorded(t),
            None => MaybeRelativeTime::Antiquity,
        }
    }

    /// The recorded text, or `None` for antiquity.
    pub fn into_option(self) -> (r: Option<String>)
        ensures
            r == option_of_relative(self),
    {
        match self {
            MaybeRelativeTime::Recorded(x) => Some(x),
            MaybeRelativeTime::Antiquity => None,
        }
    }

    /// The recorded text, or `"0"` for antiquity.
    pub fn into_text(self) -> (r: String)
        ensures
            r@ == relative_text(self),
    {
        match self {
            MaybeRelativeTime::Recorded(x) => x,
            MaybeRelativeTime::Antiquity => owned("0"),
        }
    }
}

/// An absolute Unix timestamp that may or may not have been recorded.
#[derive(Clone, Copy, Debug, PartialEq, Eq, Structural)]
pub enum MaybeSystemTime {
    /// A known time. Mirrors `Some(UtcTime)`.
    Recorded(UtcTime),
    /// A prehistoric time. Mirrors `None`.
    Antiquity,
}

/// A date from a date that may be missing: a missing one is antiquity.
pub open spec fn system_of_option(o: Option<UtcTime>) -> MaybeSystemTime {
    match o {
        Some(dt) => MaybeSystemTime::Recorded(dt),
        None => MaybeSystemTime::Antiquity,
    }
}

/// The date of a founding time, missing for antiquity.
pub open spec fn option_of_system(m: MaybeSystemTime) -> Option<UtcTime> {
    match m {
        MaybeSystemTime::Recorded(dt) => Some(dt),
        MaybeSystemTime::Antiquity => None,
    }
}

/// Going from a date that may be missing to a founding time and back changes nothing, either
/// way.
pub proof fn lemma_system_time_round_trip(o: Option<UtcTime>, m: MaybeSystemTime)
    ensures
        option_of_system(system_of_option(o)) == o,
        system_of_option(option_of_system(m)) == m,
{
}

impl MaybeSystemTime {
    /// `None` means antiquity.
    pub fn from_option(value: Option<UtcTime>) -> (r: Self)
        ensures
            r == system_of_option(value),
    {
        match value {
            Some(dt) => MaybeSystemTime::Recorded(dt),
            None => MaybeSystemTime::Antiquity,
        }
    }

    /// The recorded time, or `None` for antiquity.
    pub fn into_option(self) -> (r: Option<UtcTime>)
        ensures
            r == option_of_system(self),
    {
        match self {
            MaybeSystemTime::Recorded(dt) => Some(dt),
            MaybeSystemTime::Antiquity => None,
        }
    }
}

/// Census data as the API sends it: one record per scale.
#[derive(Clone, Debug)]
pub struct RawCensus {
    /// The records, in the order sent.
    pub inner: Vec<RawCensusData>,
}

/// One census record as the API sends it.
#[derive(Clone, Debug)]
pub struct RawCensusData {
    /// The scale ID.
    pub id: u8,
    /// The score text, if sent.
    pub score: Option<String>,
    /// The world rank text, if sent.
    pub world_rank: Option<String>,
    /// The region rank text, if sent.
    pub region_rank: Option<String>,
    /// The world percentile text, if sent.
    pub percent_world_rank: Option<String>,
    /// The region percentile text, if sent.
    pub percent_region_rank: Option<String>,
    /// The time of a historical record (never zero), if sent.
    pub timestamp: Option<u64>,
}

/// World Census data about the nation. Either Current or Historical.
#[derive(Clone, Debug)]
pub enum CensusData {
    /// Current data.
    Current(Vec<CensusCurrentData>),
    /// Historical data.
    Historical(Vec<CensusHistoricalData>),
}

/// Current World Census data about the nation.
#[derive(Clone, Debug)]
pub struct CensusCurrentData {
    /// The ID used for the data point.
    pub id: u8,
    /// The score of the nation on the Census scale.
    pub score: CensusDataPoint<u32>,
    /// The placement the nation holds in the world ranking (never zero).
    pub world_rank: CensusDataPoint<u32>,
    /// The placement the nation holds in its region ranking (never zero).
    pub region_rank: CensusDataPoint<u32>,
    /// The nation is in the top x% of nations according to this category.
    pub percent_world_rank: CensusDataPoint<DecimalParts>,
    /// Like `percent_world_rank`, but only for the nation's region ranking.
    pub percent_region_rank: CensusDataPoint<DecimalParts>,
}

/// One census value: missing, refused, unreadable or read.
#[derive(Clone, Debug)]
pub enum CensusDataPoint<T> {
    /// The value was not asked for.
    NotRequested,
    /// The API sent an empty value.
    InvalidRequest,
    /// The value could not be read; its text is kept.
    CannotParse(String),
    /// The value.
    Valid(T),
}

/// A census count from its text, as `str::parse::<u32>` reads it.
pub open spec fn count_point(v: Option<String>) -> CensusDataPoint<u32> {
    match v {
        None => CensusDataPoint::NotRequested,
        Some(s) => if s@.len() == 0 {
            CensusDataPoint::InvalidRequest
        } else {
            match parse_unsigned(s@, u32::MAX as nat) {
                Some(n) => CensusDataPoint::Valid(n as u32),
                None => CensusDataPoint::CannotParse(s),
            }
        },
    }
}

/// A census rank from its text: as for a count, but zero cannot be read.
pub open spec fn rank_point(v: Option<String>) -> CensusDataPoint<u32> {
    match v {
        None => CensusDataPoint::NotRequested,
        Some(s) => if s@.len() == 0 {
            CensusDataPoint::InvalidRequest
        } else {
            match parse_unsigned(s@, u32::MAX as nat) {
                Some(n) => if n == 0 {
                    CensusDataPoint::CannotParse(s)
                } else {
                    CensusDataPoint::Valid(n as u32)
                },
                None => CensusDataPoint::CannotParse(s),
            }
        },
    }
}

/// A decimal number as rust_decimal reads it: `mantissa` times ten to the power of
/// `-scale`.
#[derive(Clone, Copy, Debug, PartialEq, Eq, Structural)]
pub struct DecimalParts {
    /// The digits, with the sign.
    pub mantissa: i128,
    /// How many of the digits are after the decimal point.
    pub scale: u32,
}

/// The mantissa and scale of the decimal that rust_decimal reads from a text, `None` when it
/// reads none (a name for rust_decimal's reading).
pub uninterp spec fn decimal_parts_of(s: Seq<char>) -> Option<(i128, u32)>;

/// rust_decimal's `<Decimal as FromStr>::from_str`, the decimal taken apart by its `mantissa`
/// and `scale`.
/// Claimed: the result is the name `decimal_parts_of` applied to the text; it depends on the
/// text alone.
#[verifier::external_body]
fn decimal_parts(s: &str) -> (r: Option<(i128, u32)>)
    ensures
        r == decimal_parts_of(s@),
{
    match <Decimal as core::str::FromStr>::from_str(s) {
        Ok(d) => Some((d.mantissa(), d.scale())),
        Err(_) => None,
    }
}

/// The census value of a non-empty text, given what rust_decimal reads from it.
pub open spec fn decimal_reading(s: String, read: Option<(i128, u32)>) -> CensusDataPoint<DecimalParts> {
    match read {
        Some((m, sc)) => CensusDataPoint::Valid(DecimalParts { mantissa: m, scale: sc }),
        None => CensusDataPoint::CannotParse(s),
    }
}

/// A decimal census value from its text (`None`: not asked for; empty: refused).
pub open spec fn decimal_point(v: Option<String>) -> CensusDataPoint<DecimalParts> {
    match v {
        None => CensusDataPoint::NotRequested,
        Some(s) => if s@.len() == 0 {
            CensusDataPoint::InvalidRequest
        } else {
            decimal_reading(s, decimal_parts_of(s@))
        },
    }
}

impl CensusDataPoint<u32> {
    /// A count from its text (`None`: not asked for; empty: refused).
    pub fn from_count_text(v: Option<String>) -> (r: Self)
        ensures
            r == count_point(v),
    {
        match v {
            None => CensusDataPoint::NotRequested,
            Some(s) => if s.unicode_len() == 0 {
                CensusDataPoint::InvalidRequest
            } else {
                match parse_decimal(s.as_str(), u32::MAX as u64) {
                    Some(n) => CensusDataPoint::Valid(n as u32),
                    None => CensusDataPoint::CannotParse(s),
                }
            },
        }
    }

    /// A rank from its text (`None`: not asked for; empty: refused; zero cannot be read).
    pub fn from_rank_text(v: Option<String>) -> (r: Self)
        ensures
            r == rank_point(v),
    {
        match v {
            None => CensusDataPoint::NotRequested,
            Some(s) => if s.unicode_len() == 0 {
                CensusDataPoint::InvalidRequest
            } else {
                match parse_decimal(s.as_str(), u32::MAX as u64) {
                    Some(n) => if n == 0 {
                        CensusDataPoint::CannotParse(s)
                    } else {
                        CensusDataPoint::Valid(n as u32)
                    },
                    None => CensusDataPoint::CannotParse(s),
                }
            },
        }
    }
}

impl CensusDataPoint<DecimalParts> {
    /// The value of a non-empty text, given what rust_decimal read from it: the decimal, or the
    /// text when it read none.
    pub fn from_decimal_reading(s: String, read: Option<(i128, u32)>) -> (r: Self)
        ensures
            r == decimal_reading(s, read),
    {
        match read {
            Some((m, sc)) => CensusDataPoint::Valid(DecimalParts { mantissa: m, scale: sc }),
            None => CensusDataPoint::CannotParse(s),
        }
    }

    /// A decimal from its text (`None`: not asked for; empty: refused).
    pub fn from_decimal_text(v: Option<String>) -> (r: Self)
        ensures
            r == decimal_point(v),
    {
        match v {
            None => CensusDataPoint::NotRequested,
            Some(s) => if s.unicode_len() == 0 {
                CensusDataPoint::InvalidRequest
            } else {
                let read = decimal_parts(s.as_str());
                CensusDataPoint::from_decimal_reading(s, read)
            },
        }
    }
}

/// The view of a parsing error: which error, and its texts.
pub enum ParsingFault {
    /// From a nation response.
    Nation,
    /// From a region response.
    Region,
    /// A field held a value it should not (field, value).
    BadField(Seq<char>, Seq<char>),
    /// A field was missing.
    NoField(Seq<char>),
}

impl View for ParsingError {
    type V = ParsingFault;

    open spec fn view(&self) -> ParsingFault {
        match self {
            ParsingError::Nation(_) => ParsingFault::Nation,
            ParsingError::Region(_) => ParsingFault::Region,
            ParsingError::BadFieldError(f, v) => ParsingFault::BadField(f@, v@),
            ParsingError::NoFieldError(f) => ParsingFault::NoField(f@),
        }
    }
}

impl<T> CensusDataPoint<T> {
    /// The value if it was read, `None` if it was not asked for, and an error otherwise.
    pub fn into_option(self) -> (r: Result<Option<T>, ParsingError>)
        ensures
            match self {
                CensusDataPoint::NotRequested => r matches Ok(None),
                CensusDataPoint::Valid(v) => r == Ok::<Option<T>, ParsingError>(Some(v)),
                CensusDataPoint::CannotParse(s) => r matches Err(e) && e@ == ParsingFault::BadField(
                    "CensusDataPoint"@,
                    s@,
                ),
                CensusDataPoint::InvalidRequest => r matches Err(e) && e@
                    == ParsingFault::BadField("CensusDataPoint"@, "request was invalid"@),
            },
    {
        match self {
            CensusDataPoint::NotRequested => Ok(None),
            CensusDataPoint::Valid(v) => Ok(Some(v)),
            CensusDataPoint::CannotParse(s) => Err(ParsingError::BadFieldError("CensusDataPoint", s)),
            CensusDataPoint::InvalidRequest => Err(
                ParsingError::BadFieldError("CensusDataPoint", owned("request was invalid")),
            ),
        }
    }
}

/// Historical data from the World Census.
/// Note that only scores and not rankings are available this way.
#[derive(Clone, Debug)]
pub struct CensusHistoricalData {
    /// The ID used for the data point.
    pub id: u8,
    /// When the nation was ranked (never zero).
    pub timestamp: Option<u64>,
    /// The score of the nation on the Census scale.
    pub score: CensusDataPoint<DecimalParts>,
}

/// Metadata about a dispatch.
#[derive(Clone, Debug)]
pub struct Dispatch {
    /// The numerical ID of the dispatch, as in `page=dispatch/id=1`.
    pub id: u32,
    /// The title of the dispatch. This field can be edited.
    pub title: String,
    /// The nation that wrote the dispatch.
    pub author: NationName,
    /// The category and subcategory of the dispatch.
    pub category: DispatchCategory,
    /// The timestamp when the dispatch was created.
    pub created: u64,
    /// The timestamp when the dispatch was last edited (never zero).
    pub edited: Option<u64>,
    /// The number of views the dispatch has.
    pub views: u32,
    /// The score of the dispatch.
    pub score: u32,
}

/// Whether current census data was read from a record.
pub open spec fn current_from(c: CensusCurrentData, raw: RawCensusData) -> bool {
    &&& c.id == raw.id
    &&& c.score == count_point(raw.score)
    &&& c.world_rank == rank_point(raw.world_rank)
    &&& c.region_rank == rank_point(raw.region_rank)
    &&& c.percent_world_rank == decimal_point(raw.percent_world_rank)
    &&& c.percent_region_rank == decimal_point(raw.percent_region_rank)
}

/// Whether historical census data was read from a record.
pub open spec fn historical_from(h: CensusHistoricalData, raw: RawCensusData) -> bool {
    &&& h.id == raw.id
    &&& h.timestamp == raw.timestamp
    &&& h.score == decimal_point(raw.score)
}

impl CensusCurrentData {
    /// Reads current data from a record.
    pub fn from_raw(value: RawCensusData) -> (r: Self)
        ensures
            current_from(r, value),
    {
        let RawCensusData {
            id,
            score,
            world_rank,
            region_rank,
            percent_world_rank,
            percent_region_rank,
            ..
        } = value;
        CensusCurrentData {
            id,
            score: CensusDataPoint::from_count_text(score),
            world_rank: CensusDataPoint::from_rank_text(world_rank),
            region_rank: CensusDataPoint::from_rank_text(region_rank),
            percent_world_rank: CensusDataPoint::from_decimal_text(percent_world_rank),
            percent_region_rank: CensusDataPoint::from_decimal_text(percent_region_rank),
        }
    }
}

impl CensusHistoricalData {
    /// Reads historical data from a record.
    pub fn from_raw(value: RawCensusData) -> (r: Self)
        ensures
            historical_from(r, value),
    {
        let RawCensusData { id, timestamp, score, .. } = value;
        CensusHistoricalData { id, timestamp, score: CensusDataPoint::from_decimal_text(score) }
    }
}

/// Whether census data was read from the records: historical when the first record has a
/// timestamp, current otherwise, one entry per record in order.
pub open spec fn census_from(c: CensusData, raw: Seq<RawCensusData>) -> bool {
    &&& raw.len() > 0
    &&& if raw[0].timestamp is Some {
        &&& c matches CensusData::Historical(v)
        &&& v@.len() == raw.len()
        &&& forall|i: int| 0 <= i < raw.len() ==> historical_from(#[trigger] v@[i], raw[i])
    } else {
        &&& c matches CensusData::Current(v)
        &&& v@.len() == raw.len()
        &&& forall|i: int| 0 <= i < raw.len() ==> current_from(#[trigger] v@[i], raw[i])
    }
}

impl CensusData {
    /// Reads census data; an empty list is an error.
    pub fn try_from_raw(value: RawCensus) -> (r: Result<Self, ParsingError>)
        ensures
            value.inner@.len() == 0 ==> (r matches Err(e) && e@ == ParsingFault::NoField(
                "census"@,
            )),
            value.inner@.len() > 0 ==> (r matches Ok(c) && census_from(c, value.inner@)),
    {
        let records = value.inner;
        if records.len() == 0 {
            return Err(ParsingError::NoFieldError("census"));
        }
        let historical = records[0].timestamp.is_some();
        let ghost raw = records@;
        let mut rest = records;
        if historical {
            let mut out: Vec<CensusHistoricalData> = Vec::new();
            while rest.len() > 0
                invariant
                    rest@.len() + out@.len() == raw.len(),
                    rest@ == raw.subrange(out@.len() as int, raw.len() as int),
                    forall|i: int| 0 <= i < out@.len() ==> historical_from(#[trigger] out@[i], raw[i]),
                decreases rest.len(),
            {
                let ghost k = out@.len() as int;
                let item = rest.remove(0);
                assert(item == raw[k]);
                assert(rest@ =~= raw.subrange(k + 1, raw.len() as int));
                out.push(CensusHistoricalData::from_raw(item));
            }
            Ok(CensusData::Historical(out))
        } else {
            let mut out: Vec<CensusCurrentData> = Vec::new();
            while rest.len() > 0
                invariant
                    rest@.len() + out@.len() == raw.len(),
                    rest@ == raw.subrange(out@.len() as int, raw.len() as int),
                    forall|i: int| 0 <= i < out@.len() ==> current_from(#[trigger] out@[i], raw[i]),
                decreases rest.len(),
            {
                let ghost k = out@.len() as int;
                let item = rest.remove(0);
                assert(item == raw[k]);
                assert(rest@ =~= raw.subrange(k + 1, raw.len() as int));
                out.push(CensusCurrentData::from_raw(item));
            }
            Ok(CensusData::Current(out))
        }
    }
}

/// `CENSUSRANKS` as the API sends it: a scale and the nations ranked on it.
#[derive(Clone, Debug)]
pub struct RawCensusRanks {
    /// The scale ID.
    pub scale: u8,
    /// The nations, in the order sent.
    pub nations: Vec<RawCensusRanksNation>,
}

/// One nation of `CENSUSRANKS`.
#[derive(Clone, Debug)]
pub struct RawCensusRanksNation {
    /// The name of the nation.
    pub name: String,
    /// Its rank in the region (zero when there is none).
    pub rank: u32,
    /// Its score, as text.
    pub score: String,
}

/// The ranks of the nations of a region on one census scale.
#[derive(Clone, Debug)]
pub struct CensusRegionRanks {
    /// The scale ID.
    pub id: u8,
    /// One entry per nation, in the order sent: the scale, the score and the regional rank.
    pub nations: Vec<CensusCurrentData>,
}

/// Whether a ranked nation's data was read from its record on a scale.
pub open spec fn ranked_from(c: CensusCurrentData, scale: u8, raw: RawCensusRanksNation) -> bool {
    &&& c.id == scale
    &&& c.score == count_point(Some(raw.score))
    &&& c.world_rank is NotRequested
    &&& c.region_rank == (if raw.rank == 0 {
        CensusDataPoint::<u32>::InvalidRequest
    } else {
        CensusDataPoint::Valid(raw.rank)
    })
    &&& c.percent_world_rank is NotRequested
    &&& c.percent_region_rank is NotRequested
}

impl CensusRegionRanks {
    /// Reads the ranks of a region's nations, in order.
    pub fn from_raw(value: RawCensusRanks) -> (r: Self)
        ensures
            r.id == value.scale,
            r.nations@.len() == value.nations@.len(),
            forall|i: int|
                0 <= i < value.nations@.len() ==> ranked_from(
                    #[trigger] r.nations@[i],
                    value.scale,
                    value.nations@[i],
                ),
    {
        let scale = value.scale;
        let ghost all = value.nations@;
        let mut rest = value.nations;
        let mut out: Vec<CensusCurrentData> = Vec::new();
        while rest.len() > 0
            invariant
                rest@.len() + out@.len() == all.len(),
                rest@ == all.subrange(out@.len() as int, all.len() as int),
                forall|i: int| 0 <= i < out@.len() ==> ranked_from(#[trigger] out@[i], scale, all[i]),
            decreases rest.len(),
        {
            let ghost k = out@.len() as int;
            let item = rest.remove(0);
            assert(item == all[k]);
            assert(rest@ =~= all.subrange(k + 1, all.len() as int));
            let region_rank = if item.rank == 0 {
                CensusDataPoint::InvalidRequest
            } else {
                CensusDataPoint::Valid(item.rank)
            };
            out.push(
                CensusCurrentData {
                    id: scale,
                    score: CensusDataPoint::from_count_text(Some(item.score)),
                    world_rank: CensusDataPoint::NotRequested,
                    region_rank,
                    percent_world_rank: CensusDataPoint::NotRequested,
                    percent_region_rank: CensusDataPoint::NotRequested,
                },
            );
        }
        CensusRegionRanks { id: scale, nations: out }
    }
}

/// The first error that a check finds in a list of items, from the front.
pub open spec fn first_fault<T, E>(items: Seq<T>, check: spec_fn(T) -> Option<E>) -> Option<E>
    decreases items.len(),
{
    if items.len() == 0 {
        None
    } else {
        match check(items[0]) {
            Some(f) => Some(f),
            None => first_fault(items.drop_first(), check),
        }
    }
}

/// Looking at the items left from position `k` on: the item at `k`, then those after it.
pub proof fn lemma_first_fault_step<T, E>(all: Seq<T>, k: int, check: spec_fn(T) -> Option<E>)
    requires
        0 <= k < all.len(),
    ensures
        first_fault(all.subrange(k, all.len() as int), check) == (match check(all[k]) {
            Some(f) => Some(f),
            None => first_fault(all.subrange(k + 1, all.len() as int), check),
        }),
{
    assert(all.subrange(k, all.len() as int).drop_first() =~= all.subrange(k + 1, all.len() as int));
}

/// The first of two possible errors.
pub open spec fn or_else<E>(first: Option<E>, then: Option<E>) -> Option<E> {
    if first is Some {
        first
    } else {
        then
    }
}

/// The error of a check on a value that may be missing.
pub open spec fn opt_fault<T, E>(o: Option<T>, check: spec_fn(T) -> Option<E>) -> Option<E> {
    match o {
        Some(x) => check(x),
        None => None,
    }
}

/// The error of a result, if it is one.
pub open spec fn result_fault<T, E>(r: Result<T, E>) -> Option<E> {
    match r {
        Ok(_) => None,
        Err(f) => Some(f),
    }
}

/// Whether a shaped field was read from a field of a response that may be missing: both are
/// missing, or both are there and `read` holds of them.
pub open spec fn shaped<A, B>(n: Option<A>, raw: Option<B>, read: spec_fn(A, B) -> bool) -> bool {
    match raw {
        None => n is None,
        Some(b) => n matches Some(a) && read(a, b),
    }
}

} // verus!
