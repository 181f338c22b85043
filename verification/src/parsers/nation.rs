//! The nation parser module.

use vstd::prelude::*;
use rust_decimal::Decimal;
use crate::models::dispatch::{
    account_name, bulletin_name, factbook_name, is_specific, main_category_name, meta_name,
    sub_category_name, account_named, bulletin_named, factbook_named, meta_named, AccountCategory, BulletinCategory,
    DispatchCategory, FactbookCategory, MetaCategory,
};
use crate::parsers::happenings::{events_from, events_from_raw, Event};
use crate::parsers::raw_nation::{
    RawCause, RawDispatch, RawGovernment, RawNation, RawPolicy, RawSectors, RawStandardNation,
};
use crate::parsers::region::RegionName;
use crate::parsers::UtcTime;
use crate::text::{i64_to_string, signed_decimal};
use crate::parsers::{
    census_from, default_or_custom_view, first_fault, relative_time, into_datetime, lemma_first_fault_step,
    opt_fault, or_else, result_fault, shaped, timestamp_in_range, CensusData, DefaultOrCustom,
    Dispatch, MaybeRelativeTime, MaybeSystemTime,
};
use crate::shards::wa::WACouncil;
use crate::text::{owned, push_str, same, split_char, split_on};

verus! {

/// The name of a nation as the API writes it.
#[derive(Clone, Debug, PartialEq, Eq)]
pub struct NationName(pub String);

/// The code of a Rift banner, such as `r1` or `b141`.
#[derive(Clone, Debug, PartialEq, Eq)]
pub struct BannerId(pub String);

/// Whether a character is an ASCII letter or digit.
pub open spec fn is_ascii_alphanumeric(c: char) -> bool {
    ('0' <= c && c <= '9') || ('A' <= c && c <= 'Z') || ('a' <= c && c <= 'z')
}

/// Whether a text can be a banner code: not empty, ASCII letters and digits only.
pub open spec fn is_banner_code(s: Seq<char>) -> bool {
    s.len() > 0 && forall|i: int| 0 <= i < s.len() ==> is_ascii_alphanumeric(#[trigger] s[i])
}

/// The view of a nation error: which error, and its texts.
pub enum NationFault {
    /// A string could not be read as a banner ID.
    BadBannerId(Seq<char>),
    /// A number was neither `0` nor `1`.
    BadBoolean(u8),
    /// A dispatch category could not be read.
    BadDispatchCategory(Seq<char>),
    /// A field held a value it should not (field, value).
    BadField(Seq<char>, Seq<char>),
    /// A WA status could not be read.
    BadWAStatus(Seq<char>),
    /// A WA vote could not be read.
    BadWAVote(Seq<char>, WACouncil),
    /// The response could not be read at all.
    Deserialization(Seq<char>),
    /// No name.
    NoName,
    /// Census data was asked for but none came.
    NoCensusData,
}

/// Represents any one of the errors
/// that can go wrong between deserialization and creating the Nation struct.
#[derive(Clone, Debug)]
pub enum IntoNationError {
    /// A string could not be parsed as a banner ID.
    BadBannerId(String),
    /// A `u8` could not be parsed as a `bool` because it was not `0` or `1`.
    BadBooleanError(u8),
    /// A `String` could not be parsed as a [`DispatchCategory`].
    BadDispatchCategory(String),
    /// A field held a value it should not (field, value).
    BadFieldError(&'static str, String),
    /// A `String` could not be parsed as a [`WAStatus`].
    BadWAStatusError(String),
    /// A `String` could not be parsed as a [`WAVote`].
    BadWAVote {
        /// The problematic content.
        bad_vote: String,
        /// The council that the vote was supposedly for.
        council: WACouncil,
    },
    /// Something bad happened in deserialization; the description of what.
    DeserializationError(String),
    /// There was neither an `id` attribute in the `<NATION>` root tag nor a `<NAME>` tag.
    NoNameError,
    /// No census data was created for this nation.
    NoCensusDataError,
}

impl View for IntoNationError {
    type V = NationFault;

    open spec fn view(&self) -> NationFault {
        match self {
            IntoNationError::BadBannerId(s) => NationFault::BadBannerId(s@),
            IntoNationError::BadBooleanError(x) => NationFault::BadBoolean(*x),
            IntoNationError::BadDispatchCategory(s) => NationFault::BadDispatchCategory(s@),
            IntoNationError::BadFieldError(f, v) => NationFault::BadField(f@, v@),
            IntoNationError::BadWAStatusError(s) => NationFault::BadWAStatus(s@),
            IntoNationError::BadWAVote { bad_vote, council } => NationFault::BadWAVote(
                bad_vote@,
                *council,
            ),
            IntoNationError::DeserializationError(s) => NationFault::Deserialization(s@),
            IntoNationError::NoNameError => NationFault::NoName,
            IntoNationError::NoCensusDataError => NationFault::NoCensusData,
        }
    }
}

impl BannerId {
    /// The code as text.
    pub fn to_string(&self) -> (r: String)
        ensures
            r@ == self.0@,
    {
        self.0.clone()
    }

    /// Reads a banner code: not empty, ASCII letters and digits only.
    pub fn try_from_text(value: String) -> (r: Result<BannerId, IntoNationError>)
        ensures
            is_banner_code(value@) ==> r == Ok::<BannerId, IntoNationError>(BannerId(value)),
            !is_banner_code(value@) ==> (r matches Err(e) && e@ == NationFault::BadBannerId(value@)),
    {
        let n = value.unicode_len();
        let mut ok = n > 0;
        let mut i: usize = 0;
        while i < n
            invariant
                n == value@.len(),
                i <= n,
                ok == (n > 0 && forall|j: int| 0 <= j < i ==> is_ascii_alphanumeric(#[trigger] value@[j])),
            decreases n - i,
        {
            let c = value.as_str().get_char(i);
            if !(('0' <= c && c <= '9') || ('A' <= c && c <= 'Z') || ('a' <= c && c <= 'z')) {
                ok = false;
            }
            i = i + 1;
        }
        if ok {
            Ok(BannerId(value))
        } else {
            Err(IntoNationError::BadBannerId(value))
        }
    }
}

/// The status of a nation in the World Assembly.
#[derive(Clone, Copy, Debug, PartialEq, Eq, Structural)]
pub enum WAStatus {
    /// The nation is delegate of a region.
    Delegate,
    /// The nation is simply a member.
    Member,
    /// The nation is not part of the World Assembly.
    NonMember,
}

/// Reading a WA status: `WA Delegate`, `WA Member` or `Non-member`.
pub open spec fn wa_status_result(s: Seq<char>) -> Result<WAStatus, NationFault> {
    if s == "WA Delegate"@ {
        Ok(WAStatus::Delegate)
    } else if s == "WA Member"@ {
        Ok(WAStatus::Member)
    } else if s == "Non-member"@ {
        Ok(WAStatus::NonMember)
    } else {
        Err(NationFault::BadWAStatus(s))
    }
}

impl WAStatus {
    /// Reads a WA status.
    pub fn try_from_text(value: String) -> (r: Result<WAStatus, IntoNationError>)
        ensures
            match wa_status_result(value@) {
                Ok(w) => r == Ok::<WAStatus, IntoNationError>(w),
                Err(f) => r matches Err(e) && e@ == f,
            },
    {
        if same(value.as_str(), "WA Delegate") {
            Ok(WAStatus::Delegate)
        } else if same(value.as_str(), "WA Member") {
            Ok(WAStatus::Member)
        } else if same(value.as_str(), "Non-member") {
            Ok(WAStatus::NonMember)
        } else {
            Err(IntoNationError::BadWAStatusError(value))
        }
    }
}

/// Describes a nation's vote in the World Assembly.
#[derive(Clone, Copy, Debug, PartialEq, Eq, Structural)]
pub enum WAVote {
    /// The nation votes for the proposed resolution.
    For,
    /// The nation votes against the proposed resolution.
    Against,
    /// The nation has not voted on the proposed resolution
    /// (also the answer for a nation outside the World Assembly).
    Undecided,
}

/// Reading a vote in a council: `FOR`, `AGAINST` or `UNDECIDED`; any other text is an error
/// that names the council the vote was for.
pub open spec fn wa_vote_result(s: Seq<char>, council: WACouncil) -> Result<WAVote, NationFault> {
    if s == "FOR"@ {
        Ok(WAVote::For)
    } else if s == "AGAINST"@ {
        Ok(WAVote::Against)
    } else if s == "UNDECIDED"@ {
        Ok(WAVote::Undecided)
    } else {
        Err(NationFault::BadWAVote(s, council))
    }
}

impl WAVote {
    /// Reads a vote in `council`.
    pub fn try_from_text(value: String, council: WACouncil) -> (r: Result<WAVote, IntoNationError>)
        ensures
            match wa_vote_result(value@, council) {
                Ok(w) => r == Ok::<WAVote, IntoNationError>(w),
                Err(f) => r matches Err(e) && e@ == f,
            },
    {
        if same(value.as_str(), "FOR") {
            Ok(WAVote::For)
        } else if same(value.as_str(), "AGAINST") {
            Ok(WAVote::Against)
        } else if same(value.as_str(), "UNDECIDED") {
            Ok(WAVote::Undecided)
        } else {
            Err(IntoNationError::BadWAVote { bad_vote: value, council })
        }
    }
}

/// Reading `0` or `1` as a boolean.
pub open spec fn bool_result(x: u8) -> Result<bool, NationFault> {
    if x == 0 {
        Ok(false)
    } else if x == 1 {
        Ok(true)
    } else {
        Err(NationFault::BadBoolean(x))
    }
}

/// Reads `0` as `false` and `1` as `true`.
pub fn try_into_bool(x: u8) -> (r: Result<bool, IntoNationError>)
    ensures
        match bool_result(x) {
            Ok(b) => r == Ok::<bool, IntoNationError>(b),
            Err(f) => r matches Err(e) && e@ == f,
        },
{
    match x {
        0 => Ok(false),
        1 => Ok(true),
        e => Err(IntoNationError::BadBooleanError(e)),
    }
}

/// Describes a nation's government spending as percentages, one field per area.
#[derive(Clone, Copy, Debug)]
#[allow(missing_docs)]
pub struct Government {
    pub administration: Decimal,
    pub defence: Decimal,
    pub education: Decimal,
    pub environment: Decimal,
    pub healthcare: Decimal,
    pub commerce: Decimal,
    pub international_aid: Decimal,
    pub law_and_order: Decimal,
    pub public_transport: Decimal,
    pub social_equality: Decimal,
    pub spirituality: Decimal,
    pub welfare: Decimal,
}

/// The spending areas of a `GOVT` record, taken over as they are.
pub open spec fn government_of(g: RawGovernment) -> Government {
    Government {
        administration: g.administration,
        defence: g.defence,
        education: g.education,
        environment: g.environment,
        healthcare: g.healthcare,
        commerce: g.commerce,
        international_aid: g.international_aid,
        law_and_order: g.law_and_order,
        public_transport: g.public_transport,
        social_equality: g.social_equality,
        spirituality: g.spirituality,
        welfare: g.welfare,
    }
}

impl Government {
    /// Takes the spending areas over as they are.
    pub fn from_raw(value: RawGovernment) -> (r: Self)
        ensures
            r == government_of(value),
    {
        Government {
            administration: value.administration,
            defence: value.defence,
            education: value.education,
            environment: value.environment,
            healthcare: value.healthcare,
            commerce: value.commerce,
            international_aid: value.international_aid,
            law_and_order: value.law_and_order,
            public_transport: value.public_transport,
            social_equality: value.social_equality,
            spirituality: value.spirituality,
            welfare: value.welfare,
        }
    }
}

/// Civil rights, the economy and political freedom, described in words.
#[derive(Clone, Debug)]
#[allow(missing_docs)]
pub struct Freedoms {
    pub civil_rights: String,
    pub economy: String,
    pub political_freedom: String,
}

/// Civil rights, the economy and political freedom, described by numbers.
#[derive(Clone, Copy, Debug)]
#[allow(missing_docs)]
pub struct FreedomScores {
    pub civil_rights: u8,
    pub economy: u8,
    pub political_freedom: u8,
}

/// A cause of death and its frequency as a percentage.
#[derive(Debug)]
pub struct Cause {
    /// The cause.
    pub kind: String,
    /// How often it happens, in percent.
    pub frequency: Decimal,
}

/// A cause of death, taken over as it is.
pub open spec fn cause_of(c: RawCause) -> Cause {
    Cause { kind: c.kind, frequency: c.frequency }
}

impl Cause {
    /// Takes a cause over as it is.
    pub fn from_raw(value: RawCause) -> (r: Self)
        ensures
            r == cause_of(value),
    {
        Cause { kind: value.kind, frequency: value.frequency }
    }
}

/// The economy by sector, in percent.
#[derive(Clone, Copy, Debug)]
#[allow(missing_docs)]
pub struct Sectors {
    pub black_market: Decimal,
    pub government: Decimal,
    pub industry: Decimal,
    pub public: Decimal,
}

/// The sectors of a `SECTORS` record, taken over as they are.
pub open spec fn sectors_of(s: RawSectors) -> Sectors {
    Sectors {
        black_market: s.black_market,
        government: s.government,
        industry: s.industry,
        public: s.public,
    }
}

impl Sectors {
    /// Takes the sectors over as they are.
    pub fn from_raw(value: RawSectors) -> (r: Self)
        ensures
            r == sectors_of(value),
    {
        Sectors {
            black_market: value.black_market,
            government: value.government,
            industry: value.industry,
            public: value.public,
        }
    }
}

/// Describes a national policy.
#[derive(Clone, Debug)]
pub struct Policy {
    /// The name of the policy.
    pub name: String,
    /// The banner that is associated with the policy.
    pub picture: BannerId,
    /// The category the policy belongs to.
    pub category: String,
    /// The description of the policy.
    pub description: String,
}

/// The error a policy gives, if any: a picture that is no banner code.
pub open spec fn policy_fault(p: RawPolicy) -> Option<NationFault> {
    if is_banner_code(p.pic@) {
        None
    } else {
        Some(NationFault::BadBannerId(p.pic@))
    }
}

/// Whether a policy was read from its record.
pub open spec fn policy_from(p: Policy, raw: RawPolicy) -> bool {
    &&& p.name == raw.name
    &&& p.picture == BannerId(raw.pic)
    &&& p.category == raw.cat
    &&& p.description == raw.desc
}

impl Policy {
    /// Reads a policy; its picture must be a banner code.
    pub fn try_from_raw(value: RawPolicy) -> (r: Result<Self, IntoNationError>)
        ensures
            match policy_fault(value) {
                None => r matches Ok(p) && policy_from(p, value),
                Some(f) => r matches Err(e) && e@ == f,
            },
    {
        let picture = BannerId::try_from_text(value.pic)?;
        Ok(Policy { name: value.name, picture, category: value.cat, description: value.desc })
    }
}

/// Reading a dispatch category from its main and sub names, with the errors of
/// `try_into_dispatch_category`: `Main:sub` for an unknown subcategory, the main name for an
/// unknown main category.
pub open spec fn category_result(main: Seq<char>, sub: Seq<char>) -> Result<DispatchCategory, NationFault> {
    if main == "Factbook"@ {
        match factbook_named(sub) {
            Some(c) => Ok(DispatchCategory::Factbook(c)),
            None => Err(NationFault::BadDispatchCategory("Factbook:"@ + sub)),
        }
    } else if main == "Bulletin"@ {
        match bulletin_named(sub) {
            Some(c) => Ok(DispatchCategory::Bulletin(c)),
            None => Err(NationFault::BadDispatchCategory("Bulletin:"@ + sub)),
        }
    } else if main == "Account"@ {
        match account_named(sub) {
            Some(c) => Ok(DispatchCategory::Account(c)),
            None => Err(NationFault::BadDispatchCategory("Account:"@ + sub)),
        }
    } else if main == "Meta"@ {
        match meta_named(sub) {
            Some(c) => Ok(DispatchCategory::Meta(c)),
            None => Err(NationFault::BadDispatchCategory("Meta:"@ + sub)),
        }
    } else {
        Err(NationFault::BadDispatchCategory(main))
    }
}

/// Reading a dispatch category, with the errors of a dispatch record: the kind of category
/// that could not be read and its text.
pub open spec fn dispatch_category_result(main: Seq<char>, sub: Seq<char>) -> Result<DispatchCategory, NationFault> {
    if main == "Factbook"@ {
        match factbook_named(sub) {
            Some(c) => Ok(DispatchCategory::Factbook(c)),
            None => Err(NationFault::BadField("FactbookCategory"@, sub)),
        }
    } else if main == "Bulletin"@ {
        match bulletin_named(sub) {
            Some(c) => Ok(DispatchCategory::Bulletin(c)),
            None => Err(NationFault::BadField("BulletinCategory"@, sub)),
        }
    } else if main == "Account"@ {
        match account_named(sub) {
            Some(c) => Ok(DispatchCategory::Account(c)),
            None => Err(NationFault::BadField("AccountCategory"@, sub)),
        }
    } else if main == "Meta"@ {
        match meta_named(sub) {
            Some(c) => Ok(DispatchCategory::Meta(c)),
            None => Err(NationFault::BadField("MetaCategory"@, sub)),
        }
    } else {
        Err(NationFault::BadField("DispatchCategory"@, main))
    }
}

fn factbook_from(s: &str) -> (r: Option<FactbookCategory>)
    ensures
        r == factbook_named(s@),
{
    if same(s, "Overview") {
        Some(FactbookCategory::Overview)
    } else if same(s, "History") {
        Some(FactbookCategory::History)
    } else if same(s, "Geography") {
        Some(FactbookCategory::Geography)
    } else if same(s, "Culture") {
        Some(FactbookCategory::Culture)
    } else if same(s, "Politics") {
        Some(FactbookCategory::Politics)
    } else if same(s, "Legislation") {
        Some(FactbookCategory::Legislation)
    } else if same(s, "Religion") {
        Some(FactbookCategory::Religion)
    } else if same(s, "Military") {
        Some(FactbookCategory::Military)
    } else if same(s, "Economy") {
        Some(FactbookCategory::Economy)
    } else if same(s, "International") {
        Some(FactbookCategory::International)
    } else if same(s, "Trivia") {
        Some(FactbookCategory::Trivia)
    } else if same(s, "Miscellaneous") {
        Some(FactbookCategory::Miscellaneous)
    } else {
        None
    }
}

fn bulletin_from(s: &str) -> (r: Option<BulletinCategory>)
    ensures
        r == bulletin_named(s@),
{
    if same(s, "Policy") {
        Some(BulletinCategory::Policy)
    } else if same(s, "News") {
        Some(BulletinCategory::News)
    } else if same(s, "Opinion") {
        Some(BulletinCategory::Opinion)
    } else if same(s, "Campaign") {
        Some(BulletinCategory::Campaign)
    } else {
        None
    }
}

fn account_from(s: &str) -> (r: Option<AccountCategory>)
    ensures
        r == account_named(s@),
{
    if same(s, "Military") {
        Some(AccountCategory::Military)
    } else if same(s, "Trade") {
        Some(AccountCategory::Trade)
    } else if same(s, "Sport") {
        Some(AccountCategory::Sport)
    } else if same(s, "Drama") {
        Some(AccountCategory::Drama)
    } else if same(s, "Diplomacy") {
        Some(AccountCategory::Diplomacy)
    } else if same(s, "Science") {
        Some(AccountCategory::Science)
    } else if same(s, "Culture") {
        Some(AccountCategory::Culture)
    } else if same(s, "Other") {
        Some(AccountCategory::Other)
    } else {
        None
    }
}

fn meta_from(s: &str) -> (r: Option<MetaCategory>)
    ensures
        r == meta_named(s@),
{
    if same(s, "Gameplay") {
        Some(MetaCategory::Gameplay)
    } else if same(s, "Reference") {
        Some(MetaCategory::Reference)
    } else {
        None
    }
}

/// `prefix` followed by `rest`.
fn prefixed(prefix: &str, rest: &str) -> (r: String)
    ensures
        r@ == prefix@ + rest@,
{
    let mut r = owned(prefix);
    push_str(&mut r, rest);
    r
}

/// Reads a dispatch category from its main and sub names.
pub fn try_into_dispatch_category(main_category: &str, sub_category: &str) -> (r: Result<DispatchCategory, IntoNationError>)
    ensures
        match category_result(main_category@, sub_category@) {
            Ok(c) => r == Ok::<DispatchCategory, IntoNationError>(c),
            Err(f) => r matches Err(e) && e@ == f,
        },
{
    if same(main_category, "Factbook") {
        match factbook_from(sub_category) {
            Some(c) => Ok(DispatchCategory::Factbook(c)),
            None => Err(IntoNationError::BadDispatchCategory(prefixed("Factbook:", sub_category))),
        }
    } else if same(main_category, "Bulletin") {
        match bulletin_from(sub_category) {
            Some(c) => Ok(DispatchCategory::Bulletin(c)),
            None => Err(IntoNationError::BadDispatchCategory(prefixed("Bulletin:", sub_category))),
        }
    } else if same(main_category, "Account") {
        match account_from(sub_category) {
            Some(c) => Ok(DispatchCategory::Account(c)),
            None => Err(IntoNationError::BadDispatchCategory(prefixed("Account:", sub_category))),
        }
    } else if same(main_category, "Meta") {
        match meta_from(sub_category) {
            Some(c) => Ok(DispatchCategory::Meta(c)),
            None => Err(IntoNationError::BadDispatchCategory(prefixed("Meta:", sub_category))),
        }
    } else {
        Err(IntoNationError::BadDispatchCategory(owned(main_category)))
    }
}

impl RawDispatch {
    /// Reads the category of a dispatch record.
    pub fn dispatch_category(&self) -> (r: Result<DispatchCategory, IntoNationError>)
        ensures
            match dispatch_category_result(self.category@, self.subcategory@) {
                Ok(c) => r == Ok::<DispatchCategory, IntoNationError>(c),
                Err(f) => r matches Err(e) && e@ == f,
            },
    {
        let main = self.category.as_str();
        let sub = self.subcategory.as_str();
        if same(main, "Factbook") {
            match factbook_from(sub) {
                Some(c) => Ok(DispatchCategory::Factbook(c)),
                None => Err(IntoNationError::BadFieldError("FactbookCategory", owned(sub))),
            }
        } else if same(main, "Bulletin") {
            match bulletin_from(sub) {
                Some(c) => Ok(DispatchCategory::Bulletin(c)),
                None => Err(IntoNationError::BadFieldError("BulletinCategory", owned(sub))),
            }
        } else if same(main, "Account") {
            match account_from(sub) {
                Some(c) => Ok(DispatchCategory::Account(c)),
                None => Err(IntoNationError::BadFieldError("AccountCategory", owned(sub))),
            }
        } else if same(main, "Meta") {
            match meta_from(sub) {
                Some(c) => Ok(DispatchCategory::Meta(c)),
                None => Err(IntoNationError::BadFieldError("MetaCategory", owned(sub))),
            }
        } else {
            Err(IntoNationError::BadFieldError("DispatchCategory", owned(main)))
        }
    }
}

/// The error a dispatch record gives, if any.
pub open spec fn dispatch_fault(d: RawDispatch) -> Option<NationFault> {
    match dispatch_category_result(d.category@, d.subcategory@) {
        Ok(_) => None,
        Err(f) => Some(f),
    }
}

/// Whether a dispatch was read from its record.
pub open spec fn dispatch_from(d: Dispatch, raw: RawDispatch) -> bool {
    &&& d.id == raw.id
    &&& d.title == raw.title
    &&& d.author == NationName(raw.author)
    &&& dispatch_category_result(raw.category@, raw.subcategory@) == Ok::<DispatchCategory, NationFault>(d.category)
    &&& d.created == raw.created
    &&& d.edited == (if raw.edited == 0 { None } else { Some(raw.edited) })
    &&& d.views == raw.views
    &&& d.score == raw.score
}

impl Dispatch {
    /// Reads a dispatch record.
    pub fn try_from_raw(value: RawDispatch) -> (r: Result<Self, IntoNationError>)
        ensures
            match dispatch_fault(value) {
                None => r matches Ok(d) && dispatch_from(d, value),
                Some(f) => r matches Err(e) && e@ == f,
            },
    {
        let category = value.dispatch_category()?;
        Ok(Dispatch {
            id: value.id,
            title: value.title,
            author: NationName(value.author),
            category,
            created: value.created,
            edited: if value.edited == 0 { None } else { Some(value.edited) },
            views: value.views,
            score: value.score,
        })
    }
}

/// The delimiter of a list of nations: `,` when there is one, `:` otherwise.
pub open spec fn list_delimiter(list: Seq<char>) -> char {
    if list.contains(',') {
        ','
    } else {
        ':'
    }
}

/// The test that keeps a piece of text: that it is not empty.
pub open spec fn non_empty() -> spec_fn(Seq<char>) -> bool {
    |p: Seq<char>| p.len() > 0
}

/// The nations in a list: the non-empty pieces between delimiters.
pub open spec fn nation_list(list: Seq<char>) -> Seq<Seq<char>> {
    if list.len() == 0 {
        Seq::empty()
    } else {
        split_on(list, list_delimiter(list)).filter(non_empty())
    }
}

/// The names of some nations, as texts.
pub open spec fn name_texts(v: Seq<NationName>) -> Seq<Seq<char>> {
    v.map_values(|n: NationName| n.0@)
}

fn contains_char(s: &str, c: char) -> (r: bool)
    ensures
        r == s@.contains(c),
{
    let n = s.unicode_len();
    let mut i: usize = 0;
    while i < n
        invariant
            n == s@.len(),
            i <= n,
            forall|j: int| 0 <= j < i ==> s@[j] != c,
        decreases n - i,
    {
        if s.get_char(i) == c {
            assert(s@[i as int] == c);
            return true;
        }
        i = i + 1;
    }
    false
}

/// Reads a list of nations separated by commas (or by colons when there is no comma),
/// skipping empty names.
pub fn into_nation_list(list: String) -> (r: Vec<NationName>)
    ensures
        name_texts(r@) == nation_list(list@),
{
    let delimiter = if contains_char(list.as_str(), ',') { ',' } else { ':' };
    if list.unicode_len() == 0 {
        let r: Vec<NationName> = Vec::new();
        assert(name_texts(r@) =~= Seq::<Seq<char>>::empty());
        return r;
    }
    let pieces = split_char(list.as_str(), delimiter);
    let ghost all = pieces.deep_view();
    let mut r: Vec<NationName> = Vec::new();
    let mut i: usize = 0;
    while i < pieces.len()
        invariant
            i <= pieces.len(),
            all == pieces.deep_view(),
            name_texts(r@) == all.take(i as int).filter(non_empty()),
        decreases pieces.len() - i,
    {
        assert(all.take(i + 1).drop_last() =~= all.take(i as int));
        proof {
            reveal(Seq::filter);
        }
        let p = pieces[i].clone();
        assert(p@ == all[i as int]);
        if p.unicode_len() > 0 {
            let ghost before = r@;
            r.push(NationName(p));
            assert(name_texts(r@) =~= name_texts(before).push(all[i as int]));
        }
        i = i + 1;
    }
    assert(all.take(i as int) =~= all);
    r
}

/// The error a banner code gives, if any.
pub open spec fn banner_fault() -> spec_fn(String) -> Option<NationFault> {
    |s: String| if is_banner_code(s@) { None } else { Some(NationFault::BadBannerId(s@)) }
}

/// Reads banner codes in order; the first that is not one is the error.
pub fn banners_from_raw(v: Vec<String>) -> (r: Result<Vec<BannerId>, IntoNationError>)
    ensures
        match first_fault(v@, banner_fault()) {
            None => r matches Ok(b) && b@.len() == v@.len() && forall|i: int|
                0 <= i < v@.len() ==> #[trigger] b@[i] == BannerId(v@[i]),
            Some(f) => r matches Err(e) && e@ == f,
        },
{
    let ghost all = v@;
    let mut rest = v;
    let mut out: Vec<BannerId> = Vec::new();
    assert(all.subrange(0, all.len() as int) =~= all);
    while rest.len() > 0
        invariant
            all == v@,
            rest@.len() + out@.len() == all.len(),
            rest@ == all.subrange(out@.len() as int, all.len() as int),
            first_fault(all, banner_fault()) == first_fault(rest@, banner_fault()),
            forall|i: int| 0 <= i < out@.len() ==> #[trigger] out@[i] == BannerId(all[i]),
        decreases rest.len(),
    {
        let ghost k = out@.len() as int;
        proof {
            lemma_first_fault_step(all, k, banner_fault());
        }
        let item = rest.remove(0);
        assert(item == all[k]);
        assert(rest@ =~= all.subrange(k + 1, all.len() as int));
        match BannerId::try_from_text(item) {
            Ok(b) => out.push(b),
            Err(e) => {
                assert(banner_fault()(all[k]) == Some(NationFault::BadBannerId(all[k]@)));
                assert(first_fault(all, banner_fault()) == banner_fault()(all[k]));
                return Err(e);
            },
        }
    }
    Ok(out)
}

/// The error a dispatch record gives, if any, as a check.
pub open spec fn dispatch_check() -> spec_fn(RawDispatch) -> Option<NationFault> {
    |d: RawDispatch| dispatch_fault(d)
}

/// Reads dispatch records in order; the first that cannot be read is the error.
pub fn dispatches_from_raw(v: Vec<RawDispatch>) -> (r: Result<Vec<Dispatch>, IntoNationError>)
    ensures
        match first_fault(v@, dispatch_check()) {
            None => r matches Ok(d) && d@.len() == v@.len() && forall|i: int|
                0 <= i < v@.len() ==> dispatch_from(#[trigger] d@[i], v@[i]),
            Some(f) => r matches Err(e) && e@ == f,
        },
{
    let ghost all = v@;
    let mut rest = v;
    let mut out: Vec<Dispatch> = Vec::new();
    assert(all.subrange(0, all.len() as int) =~= all);
    while rest.len() > 0
        invariant
            all == v@,
            rest@.len() + out@.len() == all.len(),
            rest@ == all.subrange(out@.len() as int, all.len() as int),
            first_fault(all, dispatch_check()) == first_fault(rest@, dispatch_check()),
            forall|i: int| 0 <= i < out@.len() ==> dispatch_from(#[trigger] out@[i], all[i]),
        decreases rest.len(),
    {
        let ghost k = out@.len() as int;
        proof {
            lemma_first_fault_step(all, k, dispatch_check());
        }
        let item = rest.remove(0);
        assert(item == all[k]);
        assert(rest@ =~= all.subrange(k + 1, all.len() as int));
        match Dispatch::try_from_raw(item) {
            Ok(d) => out.push(d),
            Err(e) => {
                assert(dispatch_check()(all[k]) == dispatch_fault(all[k]));
                assert(first_fault(all, dispatch_check()) == dispatch_check()(all[k]));
                return Err(e);
            },
        }
    }
    Ok(out)
}

/// The error a policy gives, if any, as a check.
pub open spec fn policy_check() -> spec_fn(RawPolicy) -> Option<NationFault> {
    |p: RawPolicy| policy_fault(p)
}

/// Reads policies in order; the first that cannot be read is the error.
pub fn policies_from_raw(v: Vec<RawPolicy>) -> (r: Result<Vec<Policy>, IntoNationError>)
    ensures
        match first_fault(v@, policy_check()) {
            None => r matches Ok(p) && p@.len() == v@.len() && forall|i: int|
                0 <= i < v@.len() ==> policy_from(#[trigger] p@[i], v@[i]),
            Some(f) => r matches Err(e) && e@ == f,
        },
{
    let ghost all = v@;
    let mut rest = v;
    let mut out: Vec<Policy> = Vec::new();
    assert(all.subrange(0, all.len() as int) =~= all);
    while rest.len() > 0
        invariant
            all == v@,
            rest@.len() + out@.len() == all.len(),
            rest@ == all.subrange(out@.len() as int, all.len() as int),
            first_fault(all, policy_check()) == first_fault(rest@, policy_check()),
            forall|i: int| 0 <= i < out@.len() ==> policy_from(#[trigger] out@[i], all[i]),
        decreases rest.len(),
    {
        let ghost k = out@.len() as int;
        proof {
            lemma_first_fault_step(all, k, policy_check());
        }
        let item = rest.remove(0);
        assert(item == all[k]);
        assert(rest@ =~= all.subrange(k + 1, all.len() as int));
        match Policy::try_from_raw(item) {
            Ok(p) => out.push(p),
            Err(e) => {
                assert(policy_check()(all[k]) == policy_fault(all[k]));
                assert(first_fault(all, policy_check()) == policy_check()(all[k]));
                return Err(e);
            },
        }
    }
    Ok(out)
}

/// Takes causes of death over in order.
pub fn causes_from_raw(v: Vec<RawCause>) -> (r: Vec<Cause>)
    ensures
        r@ == v@.map_values(|c: RawCause| cause_of(c)),
{
    let ghost all = v@;
    let mut rest = v;
    let mut out: Vec<Cause> = Vec::new();
    while rest.len() > 0
        invariant
            rest@.len() + out@.len() == all.len(),
            rest@ == all.subrange(out@.len() as int, all.len() as int),
            out@ == all.take(out@.len() as int).map_values(|c: RawCause| cause_of(c)),
        decreases rest.len(),
    {
        let ghost k = out@.len() as int;
        let item = rest.remove(0);
        assert(item == all[k]);
        assert(rest@ =~= all.subrange(k + 1, all.len() as int));
        out.push(Cause::from_raw(item));
        assert(out@ =~= all.take(k + 1).map_values(|c: RawCause| cause_of(c)));
    }
    assert(all.take(all.len() as int) =~= all);
    out
}

/// A nation, with every piece of information you could ask for.
/// Aside from `name`, every field is an `Option`: only the shards that were asked for come
/// back.
#[derive(Debug)]
#[non_exhaustive]
pub struct Nation {
    /// The name of the nation (`NAME`, else the `id` attribute).
    pub name: String,
    /// The pre-title of the nation.
    pub kind: Option<String>,
    /// The full name of the nation.
    pub full_name: Option<String>,
    /// The motto of the nation.
    pub motto: Option<String>,
    /// The category of the nation.
    pub category: Option<String>,
    /// The WA status of the nation.
    pub wa_status: Option<WAStatus>,
    /// The nations that endorse the nation.
    pub endorsements: Option<Vec<NationName>>,
    /// The number of issues answered by the nation.
    pub issues_answered: Option<u32>,
    /// The freedom statistics of the nation.
    pub freedom: Option<Freedoms>,
    /// The region that the nation resides in.
    pub region: Option<String>,
    /// The population of the nation in millions of people.
    pub population: Option<u32>,
    /// The effective tax rate of the nation.
    pub tax: Option<Decimal>,
    /// The national animal.
    pub animal: Option<String>,
    /// The national currency.
    pub currency: Option<String>,
    /// The adjective for a citizen (I am **French**).
    pub demonym_adjective: Option<String>,
    /// The singular noun for a citizen (I am a **Frenchman**).
    pub demonym_singular: Option<String>,
    /// The plural noun for citizens (They are **Frenchmen**).
    pub demonym_plural: Option<String>,
    /// The URL to the flag of the nation.
    pub flag: Option<String>,
    /// The largest industry in the nation.
    pub major_industry: Option<String>,
    /// The area where the government spends the most money.
    pub government_priority: Option<String>,
    /// Government spending by area, in percent.
    pub government: Option<Government>,
    /// When the nation was founded, as a relative time.
    pub founded: Option<MaybeRelativeTime>,
    /// The Unix timestamp of the first login.
    pub first_login: Option<u64>,
    /// The Unix timestamp of the last login.
    pub last_login: Option<u64>,
    /// When the nation was last active, as a relative time.
    pub last_activity: Option<String>,
    /// The influence of the nation in its region.
    pub influence: Option<String>,
    /// Civil rights, the economy and political freedom as numbers.
    pub freedom_scores: Option<FreedomScores>,
    /// The part of the economy run by the government and the public, in percent.
    pub public_sector: Option<Decimal>,
    /// The causes of death.
    pub deaths: Option<Vec<Cause>>,
    /// The national leader.
    pub leader: Option<DefaultOrCustom>,
    /// The national capital.
    pub capital: Option<DefaultOrCustom>,
    /// The national religion.
    pub religion: Option<DefaultOrCustom>,
    /// The number of factbooks the nation has published.
    pub factbooks: Option<u16>,
    /// The number of dispatches the nation has published.
    pub dispatches: Option<u16>,
    /// The ID of the nation in the NationStates database.
    pub dbid: Option<u32>,
    /// A randomly selected compliment.
    pub admirable: Option<String>,
    /// All possible compliments.
    pub admirables: Option<Vec<String>>,
    /// The national animal as described on the nation page.
    pub animal_trait: Option<String>,
    /// One Rift banner code to display.
    pub banner: Option<BannerId>,
    /// Rift banners to display, the primary one first.
    pub banners: Option<Vec<BannerId>>,
    /// World Census data, current or historical.
    pub census: Option<CensusData>,
    /// Crime in the nation, as described on the nation page.
    pub crime: Option<String>,
    /// All dispatches published by the nation.
    pub dispatch_list: Option<Vec<Dispatch>>,
    /// All factbooks published by the nation.
    pub factbook_list: Option<Vec<Dispatch>>,
    /// When the nation was founded, as a date.
    pub founded_time: Option<MaybeSystemTime>,
    /// The General Assembly vote (none for a nation known to be outside the WA).
    pub ga_vote: Option<WAVote>,
    /// The GDP of the nation.
    pub gdp: Option<u64>,
    /// The description of the government on the nation page.
    pub govt_desc: Option<String>,
    /// The most recent events in the nation.
    pub happenings: Option<Vec<Event>>,
    /// The average income.
    pub income: Option<u32>,
    /// The description of industry on the nation page.
    pub industry_desc: Option<String>,
    /// The (joke) descriptions of laws.
    pub legislation: Option<Vec<String>>,
    /// A notable fact, chosen at random.
    pub notable: Option<String>,
    /// All notable facts.
    pub notables: Option<Vec<String>>,
    /// The policies in place.
    pub policies: Option<Vec<Policy>>,
    /// The average income of the poorest 10%.
    pub poorest: Option<u32>,
    /// The region rank on today's featured census scale (never zero).
    pub regional_census: Option<u16>,
    /// The average income of the richest 10%.
    pub richest: Option<u32>,
    /// The Security Council vote (none for a nation known to be outside the WA).
    pub sc_vote: Option<WAVote>,
    /// The economy by sector.
    pub sectors: Option<Sectors>,
    /// The adjectives that describe the population.
    pub sensibilities: Option<String>,
    /// Whether a recruitment telegram can be sent.
    pub tg_can_recruit: Option<bool>,
    /// Whether a campaign telegram can be sent.
    pub tg_can_campaign: Option<bool>,
    /// The world rank on today's featured census scale (never zero).
    pub world_census: Option<u32>,
}

/// The error a vote gives, if any.
pub open spec fn vote_check(council: WACouncil) -> spec_fn(String) -> Option<NationFault> {
    |s: String| result_fault(wa_vote_result(s@, council))
}

/// Whether a nation is known to be outside the World Assembly.
pub open spec fn known_non_member(raw: RawNation) -> bool {
    raw.unstatus matches Some(s) && wa_status_result(s@) == Ok::<WAStatus, NationFault>(WAStatus::NonMember)
}

/// The error a `0`/`1` flag gives, if any.
pub open spec fn flag_fault() -> spec_fn(u8) -> Option<NationFault> {
    |x: u8| result_fault(bool_result(x))
}

/// The error a response gives, if any, in the order the checks are made: the name, the WA
/// status, the two votes (unless the nation is known to be outside the WA), the banner, the
/// banners, the census, the dispatches, the factbooks, the policies, and the two telegram
/// flags.
pub open spec fn nation_fault(raw: RawNation) -> Option<NationFault> {
    let name = if raw.name is None && raw.id is None {
        Some(NationFault::NoName)
    } else {
        None
    };
    let status = opt_fault(raw.unstatus, |s: String| result_fault(wa_status_result(s@)));
    let ga = if known_non_member(raw) {
        None
    } else {
        opt_fault(raw.gavote, vote_check(WACouncil::GeneralAssembly))
    };
    let sc = if known_non_member(raw) {
        None
    } else {
        opt_fault(raw.scvote, vote_check(WACouncil::SecurityCouncil))
    };
    let banner = opt_fault(raw.banner, banner_fault());
    let banners = opt_fault(raw.banners, |v: Vec<String>| first_fault(v@, banner_fault()));
    let census = match raw.census {
        Some(c) => if c.inner@.len() == 0 {
            Some(NationFault::NoCensusData)
        } else {
            None
        },
        None => None,
    };
    let dispatches = opt_fault(raw.dispatchlist, |v: Vec<RawDispatch>| first_fault(v@, dispatch_check()));
    let factbooks = opt_fault(raw.factbooklist, |v: Vec<RawDispatch>| first_fault(v@, dispatch_check()));
    let policies = opt_fault(raw.policies, |v: Vec<RawPolicy>| first_fault(v@, policy_check()));
    let recruit = opt_fault(raw.tgcanrecruit, flag_fault());
    let campaign = opt_fault(raw.tgcancampaign, flag_fault());
    or_else(name, or_else(status, or_else(ga, or_else(sc, or_else(banner, or_else(banners,
        or_else(census, or_else(dispatches, or_else(factbooks, or_else(policies,
        or_else(recruit, campaign)))))))))))
}

/// The name of a response: `NAME` when sent, else the `id` attribute.
pub open spec fn nation_name(raw: RawNation) -> Seq<char> {
    match raw.name {
        Some(n) => n@,
        None => match raw.id {
            Some(i) => i@,
            None => Seq::empty(),
        },
    }
}

/// A capital: `" City"` after the nation's name when the text is empty, the text otherwise.
pub open spec fn capital_from(d: DefaultOrCustom, c: String, name: Seq<char>) -> bool {
    if c@.len() == 0 {
        default_or_custom_view(d) == (false, name + " City"@)
    } else {
        d == DefaultOrCustom::Custom(c)
    }
}

/// A leader: the default leader when the text is empty, the text otherwise.
pub open spec fn leader_from(d: DefaultOrCustom, l: String) -> bool {
    if l@.len() == 0 {
        default_or_custom_view(d) == (false, crate::parsers::DEFAULT_LEADER@)
    } else {
        d == DefaultOrCustom::Custom(l)
    }
}

/// A religion: the default religion when the text is empty, the text otherwise.
pub open spec fn religion_from(d: DefaultOrCustom, r: String) -> bool {
    if r@.len() == 0 {
        default_or_custom_view(d) == (false, crate::parsers::DEFAULT_RELIGION@)
    } else {
        d == DefaultOrCustom::Custom(r)
    }
}

/// Whether a founding date was read from a timestamp: recorded when chrono represents it,
/// antiquity otherwise.
pub open spec fn founded_time_from(m: MaybeSystemTime, t: i64) -> bool {
    if timestamp_in_range(t) {
        m matches MaybeSystemTime::Recorded(u) && u.secs() == t
    } else {
        m is Antiquity
    }
}

/// Whether the text fields of a nation were taken over from a response.
pub open spec fn nation_texts_from(n: Nation, raw: RawNation) -> bool {
    &&& n.name@ == nation_name(raw)
    &&& n.kind == raw.kind
    &&& n.full_name == raw.fullname
    &&& n.motto == raw.motto
    &&& n.category == raw.category
    &&& n.region == raw.region
    &&& n.animal == raw.animal
    &&& n.currency == raw.currency
    &&& n.demonym_adjective == raw.demonym
    &&& n.demonym_singular == raw.demonym2
    &&& n.demonym_plural == raw.demonym2plural
    &&& n.flag == raw.flag
    &&& n.major_industry == raw.majorindustry
    &&& n.government_priority == raw.govtpriority
    &&& n.last_activity == raw.lastactivity
    &&& n.influence == raw.influence
    &&& n.admirable == raw.admirable
    &&& n.admirables == raw.admirables
    &&& n.animal_trait == raw.animaltrait
    &&& n.crime == raw.crime
    &&& n.govt_desc == raw.govtdesc
    &&& n.industry_desc == raw.industrydesc
    &&& n.legislation == raw.legislation
    &&& n.notable == raw.notable
    &&& n.notables == raw.notables
    &&& n.sensibilities == raw.sensibilities
}

/// Whether the numeric fields of a nation were taken over from a response.
pub open spec fn nation_numbers_from(n: Nation, raw: RawNation) -> bool {
    &&& n.issues_answered == raw.issues_answered
    &&& n.freedom == raw.freedom
    &&& n.population == raw.population
    &&& n.tax == raw.tax
    &&& n.first_login == raw.firstlogin
    &&& n.last_login == raw.lastlogin
    &&& n.freedom_scores == raw.freedomscores
    &&& n.public_sector == raw.publicsector
    &&& n.factbooks == raw.factbooks
    &&& n.dispatches == raw.dispatches
    &&& n.dbid == raw.dbid
    &&& n.gdp == raw.gdp
    &&& n.income == raw.income
    &&& n.poorest == raw.poorest
    &&& n.regional_census == raw.rcensus
    &&& n.richest == raw.richest
    &&& n.world_census == raw.wcensus
    &&& n.government == (match raw.govt {
        Some(g) => Some(government_of(g)),
        None => None,
    })
    &&& n.sectors == (match raw.sectors {
        Some(s) => Some(sectors_of(s)),
        None => None,
    })
}

/// Whether the shaped fields of a nation were read from a response that has no error.
pub open spec fn nation_shapes_from(n: Nation, raw: RawNation) -> bool {
    &&& shaped(n.wa_status, raw.unstatus, |w: WAStatus, s: String| wa_status_result(s@) == Ok::<WAStatus, NationFault>(w))
    &&& shaped(n.endorsements, raw.endorsements, |v: Vec<NationName>, e: String| name_texts(v@) == nation_list(e@))
    &&& shaped(n.founded, raw.founded, |m: MaybeRelativeTime, s: String| m == relative_time(s))
    &&& shaped(n.deaths, raw.deaths, |v: Vec<Cause>, d: Vec<RawCause>| v@ == d@.map_values(|c: RawCause| cause_of(c)))
    &&& shaped(n.leader, raw.leader, |d: DefaultOrCustom, l: String| leader_from(d, l))
    &&& shaped(n.capital, raw.capital, |d: DefaultOrCustom, c: String| capital_from(d, c, nation_name(raw)))
    &&& shaped(n.religion, raw.religion, |d: DefaultOrCustom, r: String| religion_from(d, r))
    &&& shaped(n.banner, raw.banner, |b: BannerId, s: String| b == BannerId(s))
    &&& shaped(n.banners, raw.banners, |b: Vec<BannerId>, v: Vec<String>| b@.len() == v@.len() && forall|i: int|
            0 <= i < v@.len() ==> #[trigger] b@[i] == BannerId(v@[i]))
    &&& shaped(n.census, raw.census, |c: CensusData, r: crate::parsers::RawCensus| census_from(c, r.inner@))
    &&& shaped(n.dispatch_list, raw.dispatchlist, |d: Vec<Dispatch>, v: Vec<RawDispatch>| d@.len() == v@.len()
            && forall|i: int| 0 <= i < v@.len() ==> dispatch_from(#[trigger] d@[i], v@[i]))
    &&& shaped(n.factbook_list, raw.factbooklist, |d: Vec<Dispatch>, v: Vec<RawDispatch>| d@.len() == v@.len()
            && forall|i: int| 0 <= i < v@.len() ==> dispatch_from(#[trigger] d@[i], v@[i]))
    &&& shaped(n.founded_time, raw.foundedtime, |m: MaybeSystemTime, t: i64| founded_time_from(m, t))
    &&& shaped(n.happenings, raw.happenings, |e: Vec<Event>, h: Vec<crate::parsers::RawEvent>| events_from(e@, h@))
    &&& shaped(n.policies, raw.policies, |p: Vec<Policy>, v: Vec<RawPolicy>| p@.len() == v@.len()
            && forall|i: int| 0 <= i < v@.len() ==> policy_from(#[trigger] p@[i], v@[i]))
    &&& shaped(n.tg_can_recruit, raw.tgcanrecruit, |b: bool, x: u8| bool_result(x) == Ok::<bool, NationFault>(b))
    &&& shaped(n.tg_can_campaign, raw.tgcancampaign, |b: bool, x: u8| bool_result(x) == Ok::<bool, NationFault>(b))
    &&& if known_non_member(raw) {
        n.ga_vote is None && n.sc_vote is None
    } else {
        &&& shaped(n.ga_vote, raw.gavote, |w: WAVote, s: String| wa_vote_result(s@, WACouncil::GeneralAssembly) == Ok::<WAVote, NationFault>(w))
        &&& shaped(n.sc_vote, raw.scvote, |w: WAVote, s: String| wa_vote_result(s@, WACouncil::SecurityCouncil) == Ok::<WAVote, NationFault>(w))
    }
}

/// Whether a nation was read from a response that has no error.
pub open spec fn nation_from(n: Nation, raw: RawNation) -> bool {
    &&& nation_texts_from(n, raw)
    &&& nation_numbers_from(n, raw)
    &&& nation_shapes_from(n, raw)
}

/// Reads a `0`/`1` flag that may be missing.
fn flag_from(x: Option<u8>) -> (r: Result<Option<bool>, IntoNationError>)
    ensures
        match opt_fault(x, flag_fault()) {
            None => r matches Ok(b) && shaped(b, x, |b: bool, x: u8| bool_result(x) == Ok::<bool, NationFault>(b)),
            Some(f) => r matches Err(e) && e@ == f,
        },
{
    match x {
        None => Ok(None),
        Some(v) => {
            assert(flag_fault()(v) == result_fault(bool_result(v)));
            let b = try_into_bool(v)?;
            Ok(Some(b))
        },
    }
}

/// Reads a vote in `council` that may be missing.
fn vote_from(v: Option<String>, council: WACouncil) -> (r: Result<Option<WAVote>, IntoNationError>)
    ensures
        match opt_fault(v, vote_check(council)) {
            None => r matches Ok(w) && shaped(w, v, |w: WAVote, s: String| wa_vote_result(s@, council) == Ok::<WAVote, NationFault>(w)),
            Some(f) => r matches Err(e) && e@ == f,
        },
{
    match v {
        None => Ok(None),
        Some(s) => {
            assert(vote_check(council)(s) == result_fault(wa_vote_result(s@, council)));
            let w = WAVote::try_from_text(s, council)?;
            Ok(Some(w))
        },
    }
}

impl Nation {
    /// Shapes a response into a nation.
    ///
    /// The checks are made in the order that [`nation_fault`] gives, and the first that fails
    /// is the error. A nation known to be outside the World Assembly has no votes, whatever
    /// the response says of them.
    pub fn try_from_raw(value: RawNation) -> (r: Result<Nation, IntoNationError>)
        ensures
            match nation_fault(value) {
                None => r matches Ok(n) && nation_from(n, value),
                Some(f) => r matches Err(e) && e@ == f,
            },
    {
        let ghost raw = value;
        let RawNation {
            id,
            name,
            kind,
            fullname,
            motto,
            category,
            unstatus,
            endorsements,
            issues_answered,
            freedom,
            region,
            population,
            tax,
            animal,
            currency,
            demonym,
            demonym2,
            demonym2plural,
            flag,
            majorindustry,
            govtpriority,
            govt,
            founded,
            firstlogin,
            lastlogin,
            lastactivity,
            influence,
            freedomscores,
            publicsector,
            deaths,
            leader,
            capital,
            religion,
            factbooks,
            dispatches,
            dbid,
            admirable,
            admirables,
            animaltrait,
            banner,
            banners,
            census,
            crime,
            dispatchlist,
            factbooklist,
            foundedtime,
            gavote,
            gdp,
            govtdesc,
            happenings,
            income,
            industrydesc,
            legislation,
            notable,
            notables,
            policies,
            poorest,
            rcensus,
            richest,
            scvote,
            sectors,
            sensibilities,
            tgcanrecruit,
            tgcancampaign,
            wcensus,
        } = value;
        let name = match name {
            Some(n) => n,
            None => match id {
                Some(i) => i,
                None => return Err(IntoNationError::NoNameError),
            },
        };
        let happenings = match happenings {
            Some(h) => Some(events_from_raw(h)),
            None => None,
        };
        let capital = match capital {
            Some(c) => Some(DefaultOrCustom::capital(c, name.as_str())),
            None => None,
        };
        let wa_status = match unstatus {
            Some(s) => Some(WAStatus::try_from_text(s)?),
            None => None,
        };
        let non_member = match wa_status {
            Some(WAStatus::NonMember) => true,
            _ => false,
        };
        let ga_vote = if non_member {
            None
        } else {
            vote_from(gavote, WACouncil::GeneralAssembly)?
        };
        let sc_vote = if non_member {
            None
        } else {
            vote_from(scvote, WACouncil::SecurityCouncil)?
        };
        let banner = match banner {
            Some(b) => Some(BannerId::try_from_text(b)?),
            None => None,
        };
        let banners = match banners {
            Some(v) => Some(banners_from_raw(v)?),
            None => None,
        };
        let census = match census {
            Some(c) => {
                if c.inner.len() == 0 {
                    return Err(IntoNationError::NoCensusDataError);
                }
                match CensusData::try_from_raw(c) {
                    Ok(data) => Some(data),
                    Err(_) => return Err(IntoNationError::NoCensusDataError),
                }
            },
            None => None,
        };
        let dispatch_list = match dispatchlist {
            Some(v) => Some(dispatches_from_raw(v)?),
            None => None,
        };
        let factbook_list = match factbooklist {
            Some(v) => Some(dispatches_from_raw(v)?),
            None => None,
        };
        let policies = match policies {
            Some(v) => Some(policies_from_raw(v)?),
            None => None,
        };
        let tg_can_recruit = flag_from(tgcanrecruit)?;
        let tg_can_campaign = flag_from(tgcancampaign)?;
        Ok(Nation {
            name,
            kind,
            full_name: fullname,
            motto,
            category,
            wa_status,
            endorsements: match endorsements {
                Some(e) => Some(into_nation_list(e)),
                None => None,
            },
            issues_answered,
            freedom,
            region,
            population,
            tax,
            animal,
            currency,
            demonym_adjective: demonym,
            demonym_singular: demonym2,
            demonym_plural: demonym2plural,
            flag,
            major_industry: majorindustry,
            government_priority: govtpriority,
            government: match govt {
                Some(g) => Some(Government::from_raw(g)),
                None => None,
            },
            founded: match founded {
                Some(f) => Some(MaybeRelativeTime::from_text(f)),
                None => None,
            },
            first_login: firstlogin,
            last_login: lastlogin,
            last_activity: lastactivity,
            influence,
            freedom_scores: freedomscores,
            public_sector: publicsector,
            deaths: match deaths {
                Some(d) => Some(causes_from_raw(d)),
                None => None,
            },
            leader: match leader {
                Some(l) => Some(DefaultOrCustom::leader(l)),
                None => None,
            },
            capital,
            religion: match religion {
                Some(r) => Some(DefaultOrCustom::religion(r)),
                None => None,
            },
            factbooks,
            dispatches,
            dbid,
            admirable,
            admirables,
            animal_trait: animaltrait,
            banner,
            banners,
            census,
            crime,
            dispatch_list,
            factbook_list,
            founded_time: match foundedtime {
                Some(t) => Some(MaybeSystemTime::from_option(into_datetime(t))),
                None => None,
            },
            ga_vote,
            gdp,
            govt_desc: govtdesc,
            happenings,
            income,
            industry_desc: industrydesc,
            legislation,
            notable,
            notables,
            policies,
            poorest,
            regional_census: rcensus,
            richest,
            sc_vote,
            sectors: match sectors {
                Some(s) => Some(Sectors::from_raw(s)),
                None => None,
            },
            sensibilities,
            tg_can_recruit,
            tg_can_campaign,
            world_census: wcensus,
        })
    }
}

/// The error a timestamp gives when chrono does not represent it: the field and the
/// timestamp.
pub open spec fn login_fault(t: i64, field: Seq<char>) -> Option<NationFault> {
    if timestamp_in_range(t) {
        None
    } else {
        Some(NationFault::BadField(field, signed_decimal(t as int)))
    }
}

/// The date-time of a timestamp, or the error that names the field and the timestamp.
pub fn into_datetime_or_bad_field(t: i64, field: &'static str) -> (r: Result<UtcTime, IntoNationError>)
    ensures
        match login_fault(t, field@) {
            None => r matches Ok(u) && u.secs() == t,
            Some(f) => r matches Err(e) && e@ == f,
        },
{
    match into_datetime(t) {
        Some(u) => Ok(u),
        None => Err(IntoNationError::BadFieldError(field, i64_to_string(t))),
    }
}

/// A nation as the standard shards describe it: every field is there.
#[derive(Debug)]
pub struct StandardNation {
    /// The name of the nation.
    pub name: NationName,
    /// The pre-title of the nation.
    pub kind: String,
    /// The full name of the nation.
    pub full_name: String,
    /// The motto of the nation.
    pub motto: String,
    /// The category of the nation.
    pub category: String,
    /// The WA status of the nation.
    pub wa_status: WAStatus,
    /// The nations that endorse the nation.
    pub endorsements: Vec<NationName>,
    /// The number of issues answered.
    pub issues_answered: u32,
    /// The freedoms, in words.
    pub freedom: Freedoms,
    /// The region.
    pub region: RegionName,
    /// The population in millions.
    pub population: u32,
    /// The effective tax rate.
    pub tax: Decimal,
    /// The national animal.
    pub animal: String,
    /// The national currency.
    pub currency: String,
    /// The adjective for a citizen.
    pub demonym_adjective: String,
    /// The singular noun for a citizen.
    pub demonym_singular: String,
    /// The plural noun for citizens.
    pub demonym_plural: String,
    /// The URL of the flag.
    pub flag: String,
    /// The largest industry.
    pub major_industry: String,
    /// The area where the government spends the most.
    pub government_priority: String,
    /// Government spending by area.
    pub government: Government,
    /// When the nation was founded, as a relative time.
    pub founded: MaybeRelativeTime,
    /// The first login.
    pub first_login: UtcTime,
    /// The last login.
    pub last_login: UtcTime,
    /// When the nation was last active, as a relative time.
    pub last_activity: String,
    /// The influence in its region.
    pub influence: String,
    /// The freedoms, as numbers.
    pub freedom_scores: FreedomScores,
    /// The public sector, in percent.
    pub public_sector: Decimal,
    /// The causes of death.
    pub deaths: Vec<Cause>,
    /// The leader.
    pub leader: DefaultOrCustom,
    /// The capital.
    pub capital: DefaultOrCustom,
    /// The religion.
    pub religion: DefaultOrCustom,
    /// The number of factbooks.
    pub factbooks: u16,
    /// The number of dispatches.
    pub dispatches: u16,
    /// The database ID.
    pub dbid: u32,
}

/// The error a standard response gives, if any: the WA status, the first login, then the last
/// login.
pub open spec fn standard_fault(raw: RawStandardNation) -> Option<NationFault> {
    or_else(
        result_fault(wa_status_result(raw.unstatus@)),
        or_else(
            login_fault(raw.firstlogin, "StandardNation.first_login"@),
            login_fault(raw.lastlogin, "StandardNation.last_login"@),
        ),
    )
}

/// Whether a standard nation was read from a response that has no error.
pub open spec fn standard_from(n: StandardNation, raw: RawStandardNation) -> bool {
    &&& n.name == NationName(raw.name)
    &&& n.kind == raw.kind
    &&& n.full_name == raw.fullname
    &&& n.motto == raw.motto
    &&& n.category == raw.category
    &&& wa_status_result(raw.unstatus@) == Ok::<WAStatus, NationFault>(n.wa_status)
    &&& name_texts(n.endorsements@) == nation_list(raw.endorsements@)
    &&& n.issues_answered == raw.issues_answered
    &&& n.freedom == raw.freedom
    &&& n.region.0 == raw.region
    &&& n.population == raw.population
    &&& n.tax == raw.tax
    &&& n.animal == raw.animal
    &&& n.currency == raw.currency
    &&& n.demonym_adjective == raw.demonym
    &&& n.demonym_singular == raw.demonym2
    &&& n.demonym_plural == raw.demonym2plural
    &&& n.flag == raw.flag
    &&& n.major_industry == raw.majorindustry
    &&& n.government_priority == raw.govtpriority
    &&& n.government == government_of(raw.govt)
    &&& n.founded == relative_time(raw.founded)
    &&& n.first_login.secs() == raw.firstlogin
    &&& n.last_login.secs() == raw.lastlogin
    &&& n.last_activity == raw.lastactivity
    &&& n.influence == raw.influence
    &&& n.freedom_scores == raw.freedomscores
    &&& n.public_sector == raw.publicsector
    &&& n.deaths@ == raw.deaths@.map_values(|c: RawCause| cause_of(c))
    &&& leader_from(n.leader, raw.leader)
    &&& capital_from(n.capital, raw.capital, raw.name@)
    &&& religion_from(n.religion, raw.religion)
    &&& n.factbooks == raw.factbooks
    &&& n.dispatches == raw.dispatches
    &&& n.dbid == raw.dbid
}

impl StandardNation {
    /// Shapes a standard response into a nation.
    pub fn try_from_raw(value: RawStandardNation) -> (r: Result<StandardNation, IntoNationError>)
        ensures
            match standard_fault(value) {
                None => r matches Ok(n) && standard_from(n, value),
                Some(f) => r matches Err(e) && e@ == f,
            },
    {
        let RawStandardNation {
            name,
            kind,
            fullname,
            motto,
            category,
            unstatus,
            endorsements,
            issues_answered,
            freedom,
            region,
            population,
            tax,
            animal,
            currency,
            demonym,
            demonym2,
            demonym2plural,
            flag,
            majorindustry,
            govtpriority,
            govt,
            founded,
            firstlogin,
            lastlogin,
            lastactivity,
            influence,
            freedomscores,
            publicsector,
            deaths,
            leader,
            capital,
            religion,
            factbooks,
            dispatches,
            dbid,
        } = value;
        let wa_status = WAStatus::try_from_text(unstatus)?;
        let capital = DefaultOrCustom::capital(capital, name.as_str());
        let first_login = into_datetime_or_bad_field(firstlogin, "StandardNation.first_login")?;
        let last_login = into_datetime_or_bad_field(lastlogin, "StandardNation.last_login")?;
        Ok(
            StandardNation {
                name: NationName(name),
                kind,
                full_name: fullname,
                motto,
                category,
                wa_status,
                endorsements: into_nation_list(endorsements),
                issues_answered,
                freedom,
                region: RegionName(region),
                population,
                tax,
                animal,
                currency,
                demonym_adjective: demonym,
                demonym_singular: demonym2,
                demonym_plural: demonym2plural,
                flag,
                major_industry: majorindustry,
                government_priority: govtpriority,
                government: Government::from_raw(govt),
                founded: MaybeRelativeTime::from_text(founded),
                first_login,
                last_login,
                last_activity: lastactivity,
                influence,
                freedom_scores: freedomscores,
                public_sector: publicsector,
                deaths: causes_from_raw(deaths),
                leader: DefaultOrCustom::leader(leader),
                capital,
                religion: DefaultOrCustom::religion(religion),
                factbooks,
                dispatches,
                dbid,
            },
        )
    }
}

/// Reading back the name of a factbook subcategory (other than `Any`) gives the subcategory.
#[verifier::rlimit(50)]
proof fn lemma_factbook_name_read_back(c: FactbookCategory)
    requires
        c != FactbookCategory::Any,
    ensures
        factbook_named(factbook_name(c)) == Some(c),
{
    reveal_strlit("Overview");
    assert("Overview"@ =~= seq!['O', 'v', 'e', 'r', 'v', 'i', 'e', 'w']);
    reveal_strlit("History");
    assert("History"@ =~= seq!['H', 'i', 's', 't', 'o', 'r', 'y']);
    reveal_strlit("Geography");
    assert("Geography"@ =~= seq!['G', 'e', 'o', 'g', 'r', 'a', 'p', 'h', 'y']);
    reveal_strlit("Culture");
    assert("Culture"@ =~= seq!['C', 'u', 'l', 't', 'u', 'r', 'e']);
    reveal_strlit("Politics");
    assert("Politics"@ =~= seq!['P', 'o', 'l', 'i', 't', 'i', 'c', 's']);
    reveal_strlit("Legislation");
    assert("Legislation"@ =~= seq!['L', 'e', 'g', 'i', 's', 'l', 'a', 't', 'i', 'o', 'n']);
    reveal_strlit("Religion");
    assert("Religion"@ =~= seq!['R', 'e', 'l', 'i', 'g', 'i', 'o', 'n']);
    reveal_strlit("Military");
    assert("Military"@ =~= seq!['M', 'i', 'l', 'i', 't', 'a', 'r', 'y']);
    reveal_strlit("Economy");
    assert("Economy"@ =~= seq!['E', 'c', 'o', 'n', 'o', 'm', 'y']);
    reveal_strlit("International");
    assert("International"@ =~= seq!['I', 'n', 't', 'e', 'r', 'n', 'a', 't', 'i', 'o', 'n', 'a', 'l']);
    reveal_strlit("Trivia");
    assert("Trivia"@ =~= seq!['T', 'r', 'i', 'v', 'i', 'a']);
    reveal_strlit("Miscellaneous");
    assert("Miscellaneous"@ =~= seq!['M', 'i', 's', 'c', 'e', 'l', 'l', 'a', 'n', 'e', 'o', 'u', 's']);
    match c {
        FactbookCategory::Overview => {},
        FactbookCategory::History => {},
        FactbookCategory::Geography => {},
        FactbookCategory::Culture => {},
        FactbookCategory::Politics => {},
        FactbookCategory::Legislation => {},
        FactbookCategory::Religion => {},
        FactbookCategory::Military => {},
        FactbookCategory::Economy => {},
        FactbookCategory::International => {},
        FactbookCategory::Trivia => {},
        FactbookCategory::Miscellaneous => {},
        FactbookCategory::Any => {},
    }
}

/// Reading back the name of a bulletin subcategory (other than `Any`) gives the subcategory.
#[verifier::rlimit(50)]
proof fn lemma_bulletin_name_read_back(c: BulletinCategory)
    requires
        c != BulletinCategory::Any,
    ensures
        bulletin_named(bulletin_name(c)) == Some(c),
{
    reveal_strlit("Policy");
    assert("Policy"@ =~= seq!['P', 'o', 'l', 'i', 'c', 'y']);
    reveal_strlit("News");
    assert("News"@ =~= seq!['N', 'e', 'w', 's']);
    reveal_strlit("Opinion");
    assert("Opinion"@ =~= seq!['O', 'p', 'i', 'n', 'i', 'o', 'n']);
    reveal_strlit("Campaign");
    assert("Campaign"@ =~= seq!['C', 'a', 'm', 'p', 'a', 'i', 'g', 'n']);
    match c {
        BulletinCategory::Policy => {},
        BulletinCategory::News => {},
        BulletinCategory::Opinion => {},
        BulletinCategory::Campaign => {},
        BulletinCategory::Any => {},
    }
}

/// Reading back the name of a account subcategory (other than `Any`) gives the subcategory.
#[verifier::rlimit(50)]
proof fn lemma_account_name_read_back(c: AccountCategory)
    requires
        c != AccountCategory::Any,
    ensures
        account_named(account_name(c)) == Some(c),
{
    reveal_strlit("Military");
    assert("Military"@ =~= seq!['M', 'i', 'l', 'i', 't', 'a', 'r', 'y']);
    reveal_strlit("Trade");
    assert("Trade"@ =~= seq!['T', 'r', 'a', 'd', 'e']);
    reveal_strlit("Sport");
    assert("Sport"@ =~= seq!['S', 'p', 'o', 'r', 't']);
    reveal_strlit("Drama");
    assert("Drama"@ =~= seq!['D', 'r', 'a', 'm', 'a']);
    reveal_strlit("Diplomacy");
    assert("Diplomacy"@ =~= seq!['D', 'i', 'p', 'l', 'o', 'm', 'a', 'c', 'y']);
    reveal_strlit("Science");
    assert("Science"@ =~= seq!['S', 'c', 'i', 'e', 'n', 'c', 'e']);
    reveal_strlit("Culture");
    assert("Culture"@ =~= seq!['C', 'u', 'l', 't', 'u', 'r', 'e']);
    reveal_strlit("Other");
    assert("Other"@ =~= seq!['O', 't', 'h', 'e', 'r']);
    match c {
        AccountCategory::Military => {},
        AccountCategory::Trade => {},
        AccountCategory::Sport => {},
        AccountCategory::Drama => {},
        AccountCategory::Diplomacy => {},
        AccountCategory::Science => {},
        AccountCategory::Culture => {},
        AccountCategory::Other => {},
        AccountCategory::Any => {},
    }
}

/// Reading back the name of a meta subcategory (other than `Any`) gives the subcategory.
#[verifier::rlimit(50)]
proof fn lemma_meta_name_read_back(c: MetaCategory)
    requires
        c != MetaCategory::Any,
    ensures
        meta_named(meta_name(c)) == Some(c),
{
    reveal_strlit("Gameplay");
    assert("Gameplay"@ =~= seq!['G', 'a', 'm', 'e', 'p', 'l', 'a', 'y']);
    reveal_strlit("Reference");
    assert("Reference"@ =~= seq!['R', 'e', 'f', 'e', 'r', 'e', 'n', 'c', 'e']);
    match c {
        MetaCategory::Gameplay => {},
        MetaCategory::Reference => {},
        MetaCategory::Any => {},
    }
}

/// Reading back the names of a category that names a subcategory gives the category, both
/// as [`try_into_dispatch_category`] reads them and as a dispatch record's are read; and every
/// category read from names is one that names a subcategory (no dispatch is ever tagged `Any`).
pub proof fn lemma_category_read_back(c: DispatchCategory, main: Seq<char>, sub: Seq<char>)
    ensures
        is_specific(c) ==> category_result(main_category_name(c), sub_category_name(c))
            == Ok::<DispatchCategory, NationFault>(c),
        is_specific(c) ==> dispatch_category_result(main_category_name(c), sub_category_name(c))
            == Ok::<DispatchCategory, NationFault>(c),
        category_result(main, sub) matches Ok(d) ==> is_specific(d),
        dispatch_category_result(main, sub) matches Ok(d) ==> is_specific(d),
{
    reveal_strlit("Factbook");
    assert("Factbook"@ =~= seq!['F', 'a', 'c', 't', 'b', 'o', 'o', 'k']);
    reveal_strlit("Bulletin");
    assert("Bulletin"@ =~= seq!['B', 'u', 'l', 'l', 'e', 't', 'i', 'n']);
    reveal_strlit("Account");
    assert("Account"@ =~= seq!['A', 'c', 'c', 'o', 'u', 'n', 't']);
    reveal_strlit("Meta");
    assert("Meta"@ =~= seq!['M', 'e', 't', 'a']);
    if is_specific(c) {
        match c {
            DispatchCategory::Factbook(s) => lemma_factbook_name_read_back(s),
            DispatchCategory::Bulletin(s) => lemma_bulletin_name_read_back(s),
            DispatchCategory::Account(s) => lemma_account_name_read_back(s),
            DispatchCategory::Meta(s) => lemma_meta_name_read_back(s),
        }
    }
}

/// The names read from a list of nations are never empty and never hold the list's delimiter.
pub proof fn lemma_nation_list_names(list: Seq<char>)
    ensures
        forall|i: int| 0 <= i < nation_list(list).len() ==> (#[trigger] nation_list(list)[i]).len() > 0
            && !nation_list(list)[i].contains(list_delimiter(list)),
{
    if list.len() > 0 {
        let d = list_delimiter(list);
        let pieces = split_on(list, d);
        crate::text::lemma_split_pieces_free(list, d);
        assert forall|i: int| 0 <= i < nation_list(list).len() implies (#[trigger] nation_list(list)[i]).len() > 0
            && !nation_list(list)[i].contains(d) by {
            let x = nation_list(list)[i];
            pieces.lemma_filter_pred(non_empty(), i);
            assert(pieces.filter(non_empty()).contains(x));
            pieces.lemma_filter_contains_rev(non_empty(), x);
            let j = choose|j: int| 0 <= j < pieces.len() && pieces[j] == x;
            assert(!pieces[j].contains(d));
        }
    }
}

} // verus!
