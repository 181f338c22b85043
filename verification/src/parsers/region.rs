//! The region parser module.

use vstd::prelude::*;
use crate::models::dispatch::DispatchId;
use crate::parsers::happenings::{events_from, Happenings};
use crate::parsers::nation::{into_nation_list, name_texts, nation_list, NationName};
use crate::parsers::raw_region::{
    RawEmbassy, RawMessage, RawOfficer, RawPoll, RawPollOption, RawRegion, RawRegionWABadge,
    RawRegionWAVote,
};
use crate::parsers::{
    census_from, first_fault, into_datetime, lemma_first_fault_step, opt_fault, or_else, shaped,
    timestamp_in_range, CensusData, CensusRegionRanks, MaybeRelativeTime, MaybeSystemTime,
    NumNations, ParsingError, ParsingFault, UtcTime,
};
use crate::parsers::nation::founded_time_from;
use crate::parsers::relative_time;
use crate::shards::region::{tag_named, Tag};
use crate::text::{
    decimal, i64_to_string, owned, parse_decimal, parse_unsigned, push_char, same, signed_decimal,
    split_char, split_on, trim, trimmed, u64_to_string,
};

verus! {

/// The name of a region as the API writes it.
#[derive(Clone, Debug)]
pub struct RegionName(pub String);

/// A power that a regional officer can hold.
#[derive(Clone, Copy, Debug, PartialEq, Eq, Structural)]
#[non_exhaustive]
pub enum OfficerAuthority {
    /// `X`.
    Executive,
    /// `W`.
    WorldAssembly,
    /// `S`.
    Succession,
    /// `A`.
    Appearance,
    /// `B`.
    BorderControl,
    /// `C`.
    Communications,
    /// `E`.
    Embassies,
    /// `P`.
    Polls,
}

/// The view of a region error: which error, and its texts.
pub enum RegionFault {
    /// A field could not be read as the type it should be (field, value).
    BadField(Seq<char>, Seq<char>),
    /// A number was neither `0` nor `1`.
    BadBoolean(u8),
    /// The response could not be read at all.
    Deserialization(Seq<char>),
    /// A field was missing.
    NoField(Seq<char>),
    /// A parsing error that belongs to another kind of response.
    WrongGeneric(ParsingFault, Seq<char>),
    /// A name matched no variant.
    ParseEnum(Seq<char>),
}

/// Represents any one of the errors that can go wrong between deserialization and creating
/// the Region struct.
#[derive(Debug)]
#[non_exhaustive]
pub enum IntoRegionError {
    /// A field could not be parsed as the type it should be (field, value).
    BadFieldError(&'static str, String),
    /// A `u8` could not be parsed as a `bool` because it was not `0` or `1`.
    BadBooleanError(u8),
    /// Something bad happened in deserialization; the description of what.
    DeserializationError(String),
    /// A field was missing from the response.
    NoFieldError(&'static str),
    /// A parsing error that cannot be turned into a region error, and the type it was meant
    /// for.
    WrongGeneric(ParsingError, &'static str),
    /// A name (of a tag or a badge) matched no variant; the name.
    ParseEnumError(String),
}

impl View for IntoRegionError {
    type V = RegionFault;

    open spec fn view(&self) -> RegionFault {
        match self {
            IntoRegionError::BadFieldError(f, v) => RegionFault::BadField(f@, v@),
            IntoRegionError::BadBooleanError(x) => RegionFault::BadBoolean(*x),
            IntoRegionError::DeserializationError(s) => RegionFault::Deserialization(s@),
            IntoRegionError::NoFieldError(f) => RegionFault::NoField(f@),
            IntoRegionError::WrongGeneric(e, t) => RegionFault::WrongGeneric(e@, t@),
            IntoRegionError::ParseEnumError(s) => RegionFault::ParseEnum(s@),
        }
    }
}

/// The region error that a parsing error becomes: its own kind where there is one, the
/// region error it holds, or the error itself marked as meant for another kind of response.
pub open spec fn region_error_of(value: ParsingError) -> IntoRegionError {
    match value {
        ParsingError::Nation(_) => IntoRegionError::WrongGeneric(value, "IntoRegionError"),
        ParsingError::Region(r) => *r,
        ParsingError::BadFieldError(field, v) => IntoRegionError::BadFieldError(field, v),
        ParsingError::NoFieldError(field) => IntoRegionError::NoFieldError(field),
    }
}

impl IntoRegionError {
    /// Turns a parsing error into a region error.
    pub fn from_parsing_error(value: ParsingError) -> (r: Self)
        ensures
            r == region_error_of(value),
    {
        match value {
            ParsingError::Nation(n) => IntoRegionError::WrongGeneric(
                ParsingError::Nation(n),
                "IntoRegionError",
            ),
            ParsingError::Region(r) => *r,
            ParsingError::BadFieldError(field, v) => IntoRegionError::BadFieldError(field, v),
            ParsingError::NoFieldError(field) => IntoRegionError::NoFieldError(field),
        }
    }
}

/// The authority a letter stands for.
pub open spec fn authority_of(c: char) -> Option<OfficerAuthority> {
    if c == 'X' {
        Some(OfficerAuthority::Executive)
    } else if c == 'W' {
        Some(OfficerAuthority::WorldAssembly)
    } else if c == 'S' {
        Some(OfficerAuthority::Succession)
    } else if c == 'A' {
        Some(OfficerAuthority::Appearance)
    } else if c == 'B' {
        Some(OfficerAuthority::BorderControl)
    } else if c == 'C' {
        Some(OfficerAuthority::Communications)
    } else if c == 'E' {
        Some(OfficerAuthority::Embassies)
    } else if c == 'P' {
        Some(OfficerAuthority::Polls)
    } else {
        None
    }
}

/// Whether `c` is one of the letters the API writes for an officer's authority.
pub open spec fn is_authority_letter(c: char) -> bool {
    c == 'X' || c == 'W' || c == 'S' || c == 'A' || c == 'B' || c == 'C' || c == 'E' || c == 'P'
}

/// Each authority is read from the letter its documentation names (`X` executive, `W` World
/// Assembly, `S` succession, `A` appearance, `B` border control, `C` communications, `E`
/// embassies, `P` polls), and exactly those eight letters are read.
pub proof fn lemma_authority_letters(c: char)
    ensures
        authority_of('X') == Some(OfficerAuthority::Executive),
        authority_of('W') == Some(OfficerAuthority::WorldAssembly),
        authority_of('S') == Some(OfficerAuthority::Succession),
        authority_of('A') == Some(OfficerAuthority::Appearance),
        authority_of('B') == Some(OfficerAuthority::BorderControl),
        authority_of('C') == Some(OfficerAuthority::Communications),
        authority_of('E') == Some(OfficerAuthority::Embassies),
        authority_of('P') == Some(OfficerAuthority::Polls),
        authority_of(c) is Some <==> is_authority_letter(c),
{
}

/// A string made only of authority letters is read without error, one authority per letter
/// (so `vec_from_raw` returns `Ok` on it).
pub proof fn lemma_authority_letters_all_read(s: Seq<char>)
    requires
        forall|i: int| 0 <= i < s.len() ==> is_authority_letter(#[trigger] s[i]),
    ensures
        authorities_fault(s) is None,
    decreases s.len(),
{
    if s.len() > 0 {
        lemma_authority_letters(s[0]);
        assert forall|i: int| 0 <= i < s.drop_first().len() implies is_authority_letter(
            #[trigger] s.drop_first()[i],
        ) by {
            assert(s.drop_first()[i] == s[i + 1]);
        }
        lemma_authority_letters_all_read(s.drop_first());
        assert(authority_check()(s[0]) is None);
    }
}

/// The error a letter gives when it stands for no authority.
pub open spec fn authority_check() -> spec_fn(char) -> Option<RegionFault> {
    |c: char| if authority_of(c) is Some {
        None
    } else {
        Some(RegionFault::BadField("OfficerAuthority"@, seq![c]))
    }
}

/// The error a string of authority letters gives, if any: its first bad letter.
pub open spec fn authorities_fault(s: Seq<char>) -> Option<RegionFault> {
    first_fault(s, authority_check())
}

/// Whether authorities were read letter by letter from a string.
pub open spec fn authorities_from(v: Seq<OfficerAuthority>, s: Seq<char>) -> bool {
    v.len() == s.len() && forall|i: int| 0 <= i < s.len() ==> authority_of(s[i]) == Some(#[trigger] v[i])
}

impl OfficerAuthority {
    /// Reads one authority letter.
    pub fn try_from_char(value: char) -> (r: Result<Self, IntoRegionError>)
        ensures
            match authority_of(value) {
                Some(a) => r == Ok::<OfficerAuthority, IntoRegionError>(a),
                None => r matches Err(e) && e@ == RegionFault::BadField("OfficerAuthority"@, seq![value]),
            },
    {
        match value {
            'X' => Ok(OfficerAuthority::Executive),
            'W' => Ok(OfficerAuthority::WorldAssembly),
            'S' => Ok(OfficerAuthority::Succession),
            'A' => Ok(OfficerAuthority::Appearance),
            'B' => Ok(OfficerAuthority::BorderControl),
            'C' => Ok(OfficerAuthority::Communications),
            'E' => Ok(OfficerAuthority::Embassies),
            'P' => Ok(OfficerAuthority::Polls),
            c => {
                let mut text = String::new();
                push_char(&mut text, c);
                assert(text@ =~= seq![c]);
                Err(IntoRegionError::BadFieldError("OfficerAuthority", text))
            },
        }
    }

    /// Reads a string of authority letters, in order; the first bad letter is the error.
    pub fn vec_from_raw(auth_str: String) -> (r: Result<Vec<Self>, IntoRegionError>)
        ensures
            match authorities_fault(auth_str@) {
                None => r matches Ok(v) && authorities_from(v@, auth_str@),
                Some(f) => r matches Err(e) && e@ == f,
            },
    {
        let ghost all = auth_str@;
        let n = auth_str.unicode_len();
        let mut out: Vec<OfficerAuthority> = Vec::new();
        let mut i: usize = 0;
        assert(all.subrange(0, all.len() as int) =~= all);
        while i < n
            invariant
                all == auth_str@,
                n == all.len(),
                i <= n,
                out@.len() == i,
                first_fault(all, authority_check()) == first_fault(
                    all.subrange(i as int, n as int),
                    authority_check(),
                ),
                forall|j: int| 0 <= j < i ==> authority_of(all[j]) == Some(#[trigger] out@[j]),
            decreases n - i,
        {
            proof {
                lemma_first_fault_step(all, i as int, authority_check());
            }
            let c = auth_str.as_str().get_char(i);
            assert(authority_check()(c) == (if authority_of(c) is Some {
                None
            } else {
                Some(RegionFault::BadField("OfficerAuthority"@, seq![c]))
            }));
            match OfficerAuthority::try_from_char(c) {
                Ok(a) => out.push(a),
                Err(e) => return Err(e),
            }
            i = i + 1;
        }
        Ok(out)
    }
}

/// A regional officer.
#[derive(Debug)]
pub struct Officer {
    /// The nation that holds the office.
    pub nation: String,
    /// The name of the office.
    pub office: String,
    /// The powers of the office.
    pub authority: Vec<OfficerAuthority>,
    /// When the office was given.
    pub time: UtcTime,
    /// The nation that gave the office.
    pub by: String,
    /// Where the office stands in the list of offices.
    pub order: i16,
}

/// The error a timestamp field gives when chrono does not represent it: the field and the
/// timestamp as sent.
pub open spec fn time_fault(t: u64, field: Seq<char>) -> Option<RegionFault> {
    if timestamp_in_range(t as i64) {
        None
    } else {
        Some(RegionFault::BadField(field, decimal(t as nat)))
    }
}

/// The error an officer record gives, if any.
pub open spec fn officer_fault(o: RawOfficer) -> Option<RegionFault> {
    or_else(authorities_fault(o.authority@), time_fault(o.time, "Officer.time"@))
}

/// Whether an officer was read from its record.
pub open spec fn officer_from(o: Officer, raw: RawOfficer) -> bool {
    &&& o.nation == raw.nation
    &&& o.office == raw.office
    &&& authorities_from(o.authority@, raw.authority@)
    &&& o.time.secs() == raw.time as i64
    &&& o.by == raw.by
    &&& o.order == raw.order
}

/// A date-time from a timestamp field, or the error that names the field and the timestamp.
fn time_or_bad_field(t: u64, field: &'static str) -> (r: Result<UtcTime, IntoRegionError>)
    ensures
        match time_fault(t, field@) {
            None => r matches Ok(u) && u.secs() == t as i64,
            Some(f) => r matches Err(e) && e@ == f,
        },
{
    match into_datetime(t as i64) {
        Some(u) => Ok(u),
        None => Err(IntoRegionError::BadFieldError(field, u64_to_string(t))),
    }
}

impl Officer {
    /// Reads an officer record: its authority letters, then its time.
    pub fn try_from_raw(value: RawOfficer) -> (r: Result<Self, IntoRegionError>)
        ensures
            match officer_fault(value) {
                None => r matches Ok(o) && officer_from(o, value),
                Some(f) => r matches Err(e) && e@ == f,
            },
    {
        let RawOfficer { nation, office, authority, time, by, order } = value;
        let authority = OfficerAuthority::vec_from_raw(authority)?;
        let time = time_or_bad_field(time, "Officer.time")?;
        Ok(Officer { nation, office, authority, time, by, order })
    }
}

/// An embassy of a region.
#[derive(Debug)]
pub struct Embassy {
    /// The region at the other end.
    pub region_name: String,
    /// The state of the embassy.
    pub kind: EmbassyKind,
}

/// The state of an embassy.
#[derive(Clone, Copy, Debug, PartialEq, Eq, Structural)]
pub enum EmbassyKind {
    /// The default status of an embassy.
    Established,
    /// The embassy is being built.
    Pending,
    /// The embassy has been proposed by this region.
    Requested,
    /// The embassy has been proposed by the other region.
    Invited,
    /// The embassy proposal was rejected.
    Rejected,
    /// The embassy is closing.
    Closing,
}

impl Default for EmbassyKind {
    fn default() -> (r: Self)
        ensures
            r == EmbassyKind::Established,
    {
        EmbassyKind::Established
    }
}

/// The embassy state a `type` attribute names.
pub open spec fn embassy_kind_named(s: Seq<char>) -> Option<EmbassyKind> {
    if s == "pending"@ {
        Some(EmbassyKind::Pending)
    } else if s == "requested"@ {
        Some(EmbassyKind::Requested)
    } else if s == "invited"@ {
        Some(EmbassyKind::Invited)
    } else if s == "rejected"@ {
        Some(EmbassyKind::Rejected)
    } else if s == "closing"@ {
        Some(EmbassyKind::Closing)
    } else {
        None
    }
}

/// The error an embassy record gives, if any: a `type` that names no state.
pub open spec fn embassy_fault(e: RawEmbassy) -> Option<RegionFault> {
    match e.kind {
        Some(k) => if embassy_kind_named(k@) is Some {
            None
        } else {
            Some(RegionFault::BadField("EmbassyKind"@, k@))
        },
        None => None,
    }
}

/// Whether an embassy was read from its record: no `type` means established.
pub open spec fn embassy_from(e: Embassy, raw: RawEmbassy) -> bool {
    &&& e.region_name == raw.region
    &&& match raw.kind {
        Some(k) => embassy_kind_named(k@) == Some(e.kind),
        None => e.kind == EmbassyKind::Established,
    }
}

impl Embassy {
    /// Reads an embassy record.
    pub fn try_from_raw(value: RawEmbassy) -> (r: Result<Self, IntoRegionError>)
        ensures
            match embassy_fault(value) {
                None => r matches Ok(e) && embassy_from(e, value),
                Some(f) => r matches Err(e) && e@ == f,
            },
    {
        let kind = match value.kind {
            None => EmbassyKind::default(),
            Some(k) => {
                if same(k.as_str(), "pending") {
                    EmbassyKind::Pending
                } else if same(k.as_str(), "requested") {
                    EmbassyKind::Requested
                } else if same(k.as_str(), "invited") {
                    EmbassyKind::Invited
                } else if same(k.as_str(), "rejected") {
                    EmbassyKind::Rejected
                } else if same(k.as_str(), "closing") {
                    EmbassyKind::Closing
                } else {
                    return Err(IntoRegionError::BadFieldError("EmbassyKind", k));
                }
            },
        };
        Ok(Embassy { region_name: value.region, kind })
    }
}

/// Who may post on the message board from an embassy region.
#[derive(Clone, Copy, Debug, PartialEq, Eq, Structural)]
pub enum EmbassyRmbPerms {
    /// `0`: nobody.
    NoEmbassyPosting,
    /// `con`: delegates and founders.
    DelegatesAndFounders,
    /// `off`: officers.
    Officers,
    /// `com`: officers with communications authority.
    OfficersWithCommsAuth,
    /// `all`: everybody.
    All,
}

/// The permission a text names.
pub open spec fn rmb_perms_named(s: Seq<char>) -> Option<EmbassyRmbPerms> {
    if s == "0"@ {
        Some(EmbassyRmbPerms::NoEmbassyPosting)
    } else if s == "con"@ {
        Some(EmbassyRmbPerms::DelegatesAndFounders)
    } else if s == "off"@ {
        Some(EmbassyRmbPerms::Officers)
    } else if s == "com"@ {
        Some(EmbassyRmbPerms::OfficersWithCommsAuth)
    } else if s == "all"@ {
        Some(EmbassyRmbPerms::All)
    } else {
        None
    }
}

impl EmbassyRmbPerms {
    /// Reads a permission.
    pub fn try_from_text(value: String) -> (r: Result<Self, IntoRegionError>)
        ensures
            match rmb_perms_named(value@) {
                Some(p) => r == Ok::<EmbassyRmbPerms, IntoRegionError>(p),
                None => r matches Err(e) && e@ == RegionFault::BadField("Region.embassy_rmb"@, value@),
            },
    {
        if same(value.as_str(), "0") {
            Ok(EmbassyRmbPerms::NoEmbassyPosting)
        } else if same(value.as_str(), "con") {
            Ok(EmbassyRmbPerms::DelegatesAndFounders)
        } else if same(value.as_str(), "off") {
            Ok(EmbassyRmbPerms::Officers)
        } else if same(value.as_str(), "com") {
            Ok(EmbassyRmbPerms::OfficersWithCommsAuth)
        } else if same(value.as_str(), "all") {
            Ok(EmbassyRmbPerms::All)
        } else {
            Err(IntoRegionError::BadFieldError("Region.embassy_rmb", value))
        }
    }
}

/// How the World Assembly votes of a region's nations split.
#[derive(Clone, Copy, Debug, PartialEq, Eq, Structural)]
pub struct RegionWAVote {
    /// Votes for.
    pub for_vote: u16,
    /// Votes against.
    pub against_vote: u16,
}

impl RegionWAVote {
    /// Takes the counts over as they are.
    pub fn from_raw(value: RawRegionWAVote) -> (r: Self)
        ensures
            r.for_vote == value.for_vote,
            r.against_vote == value.against_vote,
    {
        RegionWAVote { for_vote: value.for_vote, against_vote: value.against_vote }
    }
}

/// A post on the regional message board.
#[derive(Clone, Debug)]
pub struct Message {
    /// The ID of the post.
    pub id: u32,
    /// When it was posted.
    pub timestamp: UtcTime,
    /// The nation that posted it.
    pub nation: String,
    /// Whether it can be seen.
    pub status: MessageStatus,
    /// The nation that suppressed it, if any.
    pub suppressor: Option<String>,
    /// When it was last edited, if ever.
    pub edited: Option<UtcTime>,
    /// The number of likes.
    pub likes: u16,
    /// The nations that liked it.
    pub likers: Option<String>,
    /// The embassy region it was posted from, if any.
    pub embassy: Option<String>,
    /// The text of the post.
    pub message: String,
}

/// Whether a post can be seen.
#[derive(Clone, Copy, Debug, PartialEq, Eq, Structural)]
pub enum MessageStatus {
    /// `0`.
    Visible,
    /// `1`.
    Suppressed,
    /// `2`.
    Deleted,
    /// `9`.
    ModSuppressed,
}

/// The status a number stands for.
pub open spec fn message_status_of(x: u8) -> Option<MessageStatus> {
    if x == 0 {
        Some(MessageStatus::Visible)
    } else if x == 1 {
        Some(MessageStatus::Suppressed)
    } else if x == 2 {
        Some(MessageStatus::Deleted)
    } else if x == 9 {
        Some(MessageStatus::ModSuppressed)
    } else {
        None
    }
}

impl MessageStatus {
    /// Reads a status: `0`, `1`, `2` or `9`.
    pub fn try_from_u8(value: u8) -> (r: Result<Self, ParsingError>)
        ensures
            match message_status_of(value) {
                Some(m) => r == Ok::<MessageStatus, ParsingError>(m),
                None => r matches Err(e) && e@ == ParsingFault::BadField(
                    "Message.status"@,
                    decimal(value as nat),
                ),
            },
    {
        match value {
            0 => Ok(MessageStatus::Visible),
            1 => Ok(MessageStatus::Suppressed),
            2 => Ok(MessageStatus::Deleted),
            9 => Ok(MessageStatus::ModSuppressed),
            _ => Err(ParsingError::BadFieldError("Message.status", u64_to_string(value as u64))),
        }
    }
}

/// The error a post gives, if any: its time, its status, then its edit time.
pub open spec fn message_fault(m: RawMessage) -> Option<RegionFault> {
    or_else(
        time_fault(m.timestamp, "Message.timestamp"@),
        or_else(
            if message_status_of(m.status) is Some {
                None
            } else {
                Some(RegionFault::BadField("Message.status"@, decimal(m.status as nat)))
            },
            opt_fault(m.edited, |e: u64| time_fault(e, "Message.edited"@)),
        ),
    )
}

/// Whether a post was read from its record.
pub open spec fn message_from(m: Message, raw: RawMessage) -> bool {
    &&& m.id == raw.id
    &&& m.timestamp.secs() == raw.timestamp as i64
    &&& m.nation == raw.nation
    &&& message_status_of(raw.status) == Some(m.status)
    &&& m.suppressor == raw.suppressor
    &&& shaped(m.edited, raw.edited, |u: UtcTime, e: u64| u.secs() == e as i64)
    &&& m.likes == raw.likes
    &&& m.likers == raw.likers
    &&& m.embassy == raw.embassy
    &&& m.message == raw.message
}

impl Message {
    /// Reads a post.
    pub fn try_from_raw(value: RawMessage) -> (r: Result<Self, IntoRegionError>)
        ensures
            match message_fault(value) {
                None => r matches Ok(m) && message_from(m, value),
                Some(f) => r matches Err(e) && e@ == f,
            },
    {
        let RawMessage {
            id,
            timestamp,
            nation,
            status,
            suppressor,
            edited,
            likes,
            likers,
            embassy,
            message,
        } = value;
        let timestamp = time_or_bad_field(timestamp, "Message.timestamp")?;
        let status = match MessageStatus::try_from_u8(status) {
            Ok(s) => s,
            Err(e) => return Err(IntoRegionError::from_parsing_error(e)),
        };
        let edited = match edited {
            Some(e) => {
                assert((|e: u64| time_fault(e, "Message.edited"@))(e) == time_fault(
                    e,
                    "Message.edited"@,
                ));
                Some(time_or_bad_field(e, "Message.edited")?)
            },
            None => None,
        };
        Ok(
            Message {
                id,
                timestamp,
                nation,
                status,
                suppressor,
                edited,
                likes,
                likers,
                embassy,
                message,
            },
        )
    }
}

/// A regional poll.
#[derive(Clone, Debug)]
pub struct Poll {
    /// The ID of the poll.
    pub id: u32,
    /// Its title.
    pub title: String,
    /// Its text, if any.
    pub text: Option<String>,
    /// The region it is held in.
    pub region: RegionName,
    /// When it opens.
    pub start: UtcTime,
    /// When it closes.
    pub stop: UtcTime,
    /// The nation that wrote it.
    pub author: NationName,
    /// The options to vote for.
    pub options: Vec<PollOption>,
}

/// One option of a poll.
#[derive(Clone, Debug)]
pub struct PollOption {
    /// The ID of the option.
    pub id: u32,
    /// Its text.
    pub text: String,
    /// The number of votes for it.
    pub votes: u32,
    /// The nations that voted for it.
    pub voters: Vec<NationName>,
}

/// Whether a poll option was read from its record.
pub open spec fn poll_option_from(o: PollOption, raw: RawPollOption) -> bool {
    &&& o.id == raw.id
    &&& o.text == raw.optiontext
    &&& o.votes == raw.votes
    &&& name_texts(o.voters@) == nation_list(raw.voters@)
}

impl PollOption {
    /// Reads a poll option; its voters are a list of nations.
    pub fn from_raw(value: RawPollOption) -> (r: Self)
        ensures
            poll_option_from(r, value),
    {
        let RawPollOption { id, optiontext, votes, voters } = value;
        PollOption { id, text: optiontext, votes, voters: into_nation_list(voters) }
    }
}

/// The error a poll gives, if any: its start, then its stop.
pub open spec fn poll_fault(p: RawPoll) -> Option<RegionFault> {
    or_else(time_fault(p.start, "Poll.start"@), time_fault(p.stop, "Poll.stop"@))
}

/// Whether a poll was read from its record.
pub open spec fn poll_from(p: Poll, raw: RawPoll) -> bool {
    &&& p.id == raw.id
    &&& p.title == raw.title
    &&& p.text == raw.text
    &&& p.region.0 == raw.region
    &&& p.start.secs() == raw.start as i64
    &&& p.stop.secs() == raw.stop as i64
    &&& p.author == NationName(raw.author)
    &&& p.options@.len() == raw.options@.len()
    &&& forall|i: int| 0 <= i < raw.options@.len() ==> poll_option_from(#[trigger] p.options@[i], raw.options@[i])
}

impl Poll {
    /// Reads a poll.
    pub fn try_from_raw(value: RawPoll) -> (r: Result<Self, IntoRegionError>)
        ensures
            match poll_fault(value) {
                None => r matches Ok(p) && poll_from(p, value),
                Some(f) => r matches Err(e) && e@ == f,
            },
    {
        let RawPoll { id, title, text, region, start, stop, author, options } = value;
        let start = time_or_bad_field(start, "Poll.start")?;
        let stop = time_or_bad_field(stop, "Poll.stop")?;
        let ghost all = options@;
        let mut rest = options;
        let mut out: Vec<PollOption> = Vec::new();
        while rest.len() > 0
            invariant
                rest@.len() + out@.len() == all.len(),
                rest@ == all.subrange(out@.len() as int, all.len() as int),
                forall|i: int| 0 <= i < out@.len() ==> poll_option_from(#[trigger] out@[i], all[i]),
            decreases rest.len(),
        {
            let ghost k = out@.len() as int;
            let item = rest.remove(0);
            assert(item == all[k]);
            assert(rest@ =~= all.subrange(k + 1, all.len() as int));
            out.push(PollOption::from_raw(item));
        }
        Ok(
            Poll {
                id,
                title,
                text,
                region: RegionName(region),
                start,
                stop,
                author: NationName(author),
                options: out,
            },
        )
    }
}

/// The ID of a region's banner.
#[derive(Clone, Copy, Debug, PartialEq, Eq, Structural)]
pub struct RegionBannerId(pub u32);

/// What a World Assembly badge records.
#[derive(Clone, Copy, Debug, PartialEq, Eq, Structural)]
pub enum RegionWABadgeKind {
    /// `commend`.
    Commend,
    /// `condemn`.
    Condemn,
    /// `liberate`.
    Liberate,
    /// `injunct`.
    Injunct,
}

/// The badge kind a `type` attribute names.
pub open spec fn badge_kind_named(s: Seq<char>) -> Option<RegionWABadgeKind> {
    if s == "commend"@ {
        Some(RegionWABadgeKind::Commend)
    } else if s == "condemn"@ {
        Some(RegionWABadgeKind::Condemn)
    } else if s == "liberate"@ {
        Some(RegionWABadgeKind::Liberate)
    } else if s == "injunct"@ {
        Some(RegionWABadgeKind::Injunct)
    } else {
        None
    }
}

/// Whether a badge was read from its record.
pub open spec fn badge_from(b: RegionWABadge, raw: RawRegionWABadge) -> bool {
    badge_kind_named(raw.kind@) == Some(b.kind) && b.resolution == raw.resolution
}

/// A World Assembly badge of a region: what it records, and the Security Council resolution.
#[derive(Clone, Copy, Debug, PartialEq, Eq, Structural)]
pub struct RegionWABadge {
    /// What the badge records.
    pub kind: RegionWABadgeKind,
    /// The resolution that gave it.
    pub resolution: u16,
}

impl RegionWABadge {
    /// Reads a badge; its `type` must name a kind.
    pub fn try_from_raw(value: RawRegionWABadge) -> (r: Result<Self, IntoRegionError>)
        ensures
            match badge_kind_named(value.kind@) {
                Some(k) => r == Ok::<RegionWABadge, IntoRegionError>(
                    RegionWABadge { kind: k, resolution: value.resolution },
                ),
                None => r matches Err(e) && e@ == RegionFault::ParseEnum(value.kind@),
            },
    {
        let RawRegionWABadge { kind, resolution } = value;
        let k = if same(kind.as_str(), "commend") {
            RegionWABadgeKind::Commend
        } else if same(kind.as_str(), "condemn") {
            RegionWABadgeKind::Condemn
        } else if same(kind.as_str(), "liberate") {
            RegionWABadgeKind::Liberate
        } else if same(kind.as_str(), "injunct") {
            RegionWABadgeKind::Injunct
        } else {
            return Err(IntoRegionError::ParseEnumError(kind));
        };
        Ok(RegionWABadge { kind: k, resolution })
    }
}

/// What std's `<u32 as FromStr>::from_str` says of a text that it refuses (the `Display` of
/// its `ParseIntError`).
pub uninterp spec fn int_error_text(s: Seq<char>) -> Seq<char>;

/// std's `<u32 as FromStr>::from_str` on a text it refuses, and the text of its error.
/// Claimed: the text is a function of the input alone. The words of the message are not
/// stated: std's documentation does not give them.
#[verifier::external_body]
fn u32_error_text(s: &str) -> (r: String)
    requires
        parse_unsigned(s@, u32::MAX as nat) is None,
    ensures
        r@ == int_error_text(s@),
{
    match s.parse::<u32>() {
        Ok(_) => String::new(),
        Err(e) => e.to_string(),
    }
}

/// The pieces of a dispatch list: split at commas, each trimmed.
pub open spec fn dispatch_pieces(list: Seq<char>) -> Seq<Seq<char>> {
    split_on(list, ',').map_values(|p: Seq<char>| trimmed(p))
}

/// The error a piece of a dispatch list gives when it is not a `u32`.
pub open spec fn dispatch_id_check() -> spec_fn(Seq<char>) -> Option<RegionFault> {
    |p: Seq<char>| if parse_unsigned(p, u32::MAX as nat) is Some {
        None
    } else {
        Some(RegionFault::BadField("Region.dispatches"@, int_error_text(p)))
    }
}

/// Reads a comma-separated list of dispatch IDs (each trimmed of white space); the first
/// piece that is not a `u32` is the error, with the text of std's parse error.
pub fn parse_dispatches(dispatch_list: String) -> (r: Result<Vec<DispatchId>, IntoRegionError>)
    ensures
        match first_fault(dispatch_pieces(dispatch_list@), dispatch_id_check()) {
            None => r matches Ok(v) && v@.len() == dispatch_pieces(dispatch_list@).len() && forall|i: int|
                0 <= i < v@.len() ==> parse_unsigned(dispatch_pieces(dispatch_list@)[i], u32::MAX as nat)
                    == Some(#[trigger] v@[i].0 as nat),
            Some(f) => r matches Err(e) && e@ == f,
        },
{
    let pieces = split_char(dispatch_list.as_str(), ',');
    let ghost all = dispatch_pieces(dispatch_list@);
    assert(all.len() == pieces.deep_view().len());
    let mut out: Vec<DispatchId> = Vec::new();
    let mut i: usize = 0;
    assert(all.subrange(0, all.len() as int) =~= all);
    while i < pieces.len()
        invariant
            all == dispatch_pieces(dispatch_list@),
            all.len() == pieces.len(),
            pieces.deep_view() == split_on(dispatch_list@, ','),
            i <= pieces.len(),
            out@.len() == i,
            first_fault(all, dispatch_id_check()) == first_fault(
                all.subrange(i as int, all.len() as int),
                dispatch_id_check(),
            ),
            forall|j: int|
                0 <= j < i ==> parse_unsigned(all[j], u32::MAX as nat) == Some(#[trigger] out@[j].0 as nat),
        decreases pieces.len() - i,
    {
        proof {
            lemma_first_fault_step(all, i as int, dispatch_id_check());
        }
        let piece = trim(pieces[i].as_str());
        assert(piece@ == all[i as int]);
        match parse_decimal(piece.as_str(), 4294967295u64) {
            Some(v) => {
                out.push(DispatchId(v as u32));
            },
            None => {
                assert(dispatch_id_check()(all[i as int]) == Some(
                    RegionFault::BadField("Region.dispatches"@, int_error_text(all[i as int])),
                ));
                let text = u32_error_text(piece.as_str());
                return Err(IntoRegionError::BadFieldError("Region.dispatches", text));
            },
        }
        i = i + 1;
    }
    Ok(out)
}

/// Reads `0` as `false` and `1` as `true`.
pub fn try_into_bool(x: u8) -> (r: Result<bool, IntoRegionError>)
    ensures
        x == 0 ==> r == Ok::<bool, IntoRegionError>(false),
        x == 1 ==> r == Ok::<bool, IntoRegionError>(true),
        x > 1 ==> (r matches Err(e) && e@ == RegionFault::BadBoolean(x)),
{
    match x {
        0 => Ok(false),
        1 => Ok(true),
        e => Err(IntoRegionError::BadBooleanError(e)),
    }
}

/// The error a timestamp field that may be missing gives when chrono does not represent it.
pub open spec fn signed_time_fault(t: Option<i64>, field: Seq<char>) -> Option<RegionFault> {
    match t {
        Some(v) => if timestamp_in_range(v) {
            None
        } else {
            Some(RegionFault::BadField(field, signed_decimal(v as int)))
        },
        None => None,
    }
}

/// Reads a timestamp field that may be missing; one that chrono does not represent is an
/// error that names the field and the timestamp.
pub fn try_into_datetime(value: Option<i64>, field: &'static str) -> (r: Result<Option<UtcTime>, IntoRegionError>)
    ensures
        match signed_time_fault(value, field@) {
            None => r matches Ok(o) && shaped(o, value, |u: UtcTime, t: i64| u.secs() == t),
            Some(f) => r matches Err(e) && e@ == f,
        },
{
    match value {
        Some(v) => match into_datetime(v) {
            Some(d) => Ok(Some(d)),
            None => Err(IntoRegionError::BadFieldError(field, i64_to_string(v))),
        },
        None => Ok(None),
    }
}

/// The text of the URL that the `url` crate reads from a text, `None` when it reads none (a
/// name for url's parsing and normalizing).
pub uninterp spec fn url_serialization(s: Seq<char>) -> Option<Seq<char>>;

/// url's `Url::parse`, the URL taken as its text (`Url::as_str`).
/// Claimed: the result is the name `url_serialization` applied to the text; it depends on the
/// text alone.
#[verifier::external_body]
fn parse_url(s: &str) -> (r: Option<String>)
    ensures
        match r {
            Some(t) => url_serialization(s@) == Some(t@),
            None => url_serialization(s@) is None,
        },
{
    match url::Url::parse(s) {
        Ok(u) => Some(u.as_str().to_string()),
        Err(_) => None,
    }
}

/// The site that banner paths are relative to.
pub const SITE: &'static str = "https://www.nationstates.net";

/// The error a banner path gives when the site followed by it is no URL.
pub open spec fn banner_url_fault(u: Seq<char>) -> Option<RegionFault> {
    if url_serialization(SITE@ + u) is Some {
        None
    } else {
        Some(RegionFault::BadField("Region.banner_url"@, u))
    }
}

/// A region, with every piece of information you could ask for.
/// Every field is an `Option`: only the shards that were asked for come back.
#[derive(Debug)]
pub struct Region {
    /// The nice name.
    pub name: Option<RegionName>,
    /// The factbook text.
    pub factbook: Option<String>,
    /// The number of nations inside.
    pub num_nations: Option<NumNations>,
    /// The nations inside.
    pub nations: Option<Vec<NationName>>,
    /// The delegate.
    pub delegate: Option<NationName>,
    /// The number of World Assembly votes of the delegate.
    pub delegate_votes: Option<NumNations>,
    /// The powers of the delegate.
    pub delegate_authority: Option<Vec<OfficerAuthority>>,
    /// Whether the region is a frontier.
    pub frontier: Option<bool>,
    /// The founder.
    pub founder: Option<NationName>,
    /// The governor.
    pub governor: Option<NationName>,
    /// The officers.
    pub officers: Option<Vec<Officer>>,
    /// The regional power level.
    pub power: Option<String>,
    /// The URL of the flag.
    pub flag: Option<String>,
    /// The banner ID.
    pub banner: Option<RegionBannerId>,
    /// The full URL of the banner (the site followed by the banner path), as the `url` crate
    /// writes it.
    pub banner_url: Option<String>,
    /// The embassies.
    pub embassies: Option<Vec<Embassy>>,
    /// The banned nations.
    pub banned: Option<Vec<NationName>>,
    /// Who made the banner.
    pub banner_by: Option<NationName>,
    /// World Census data.
    pub census: Option<CensusData>,
    /// The ranks of the nations on one census scale.
    pub census_ranks: Option<CensusRegionRanks>,
    /// The ID in the NationStates database.
    pub dbid: Option<u32>,
    /// The pinned dispatches.
    pub dispatches: Option<Vec<DispatchId>>,
    /// Who may post from embassies.
    pub embassy_rmb: Option<EmbassyRmbPerms>,
    /// When the region was founded, as a relative time.
    pub founded: Option<MaybeRelativeTime>,
    /// When the region was founded, as a date.
    pub founded_time: Option<MaybeSystemTime>,
    /// How the region votes in the General Assembly.
    pub ga_vote: Option<RegionWAVote>,
    /// The most recent events.
    pub happenings: Option<Happenings>,
    /// The history of the region.
    pub history: Option<Happenings>,
    /// The last update.
    pub last_update: Option<UtcTime>,
    /// The last major update.
    pub last_major_update: Option<UtcTime>,
    /// The last minor update.
    pub last_minor_update: Option<UtcTime>,
    /// The posts on the message board.
    pub messages: Option<Vec<Message>>,
    /// The nations in the World Assembly.
    pub wa_nations: Option<Vec<NationName>>,
    /// The number of nations in the World Assembly.
    pub num_wa_nations: Option<NumNations>,
    /// The poll.
    pub poll: Option<Poll>,
    /// How the region votes in the Security Council.
    pub sc_vote: Option<RegionWAVote>,
    /// The tags.
    pub tags: Option<Vec<Tag>>,
    /// The World Assembly badges.
    pub wa_badges: Option<Vec<RegionWABadge>>,
}

/// The error an officer record gives, as a check.
pub open spec fn officer_check() -> spec_fn(RawOfficer) -> Option<RegionFault> {
    |o: RawOfficer| officer_fault(o)
}

/// The error an embassy record gives, as a check.
pub open spec fn embassy_check() -> spec_fn(RawEmbassy) -> Option<RegionFault> {
    |e: RawEmbassy| embassy_fault(e)
}

/// The error a post gives, as a check.
pub open spec fn message_check() -> spec_fn(RawMessage) -> Option<RegionFault> {
    |m: RawMessage| message_fault(m)
}

/// The error a tag name gives when it names no tag.
pub open spec fn tag_check() -> spec_fn(String) -> Option<RegionFault> {
    |t: String| if tag_named(t@) is Some {
        None
    } else {
        Some(RegionFault::ParseEnum(t@))
    }
}

/// The error a badge gives when its `type` names no kind.
pub open spec fn badge_check() -> spec_fn(RawRegionWABadge) -> Option<RegionFault> {
    |b: RawRegionWABadge| if badge_kind_named(b.kind@) is Some {
        None
    } else {
        Some(RegionFault::ParseEnum(b.kind@))
    }
}

/// The error a response gives, if any, in the order the checks are made: the delegate's
/// authority, the frontier flag, the officers, the banner URL, the embassies, the census, the
/// dispatches, the embassy permissions, the three update times, the posts, the poll, the tags
/// and the badges.
pub open spec fn region_fault(raw: RawRegion) -> Option<RegionFault> {
    let authority = opt_fault(raw.delegateauth, |s: String| authorities_fault(s@));
    let frontier = opt_fault(raw.frontier, |x: u8| if x <= 1 {
        None
    } else {
        Some(RegionFault::BadBoolean(x))
    });
    let officers = opt_fault(raw.officers, |v: Vec<RawOfficer>| first_fault(v@, officer_check()));
    let banner_url = opt_fault(raw.bannerurl, |u: String| banner_url_fault(u@));
    let embassies = opt_fault(raw.embassies, |v: Vec<RawEmbassy>| first_fault(v@, embassy_check()));
    let census = match raw.census {
        Some(c) => if c.inner@.len() == 0 {
            Some(RegionFault::NoField("census"@))
        } else {
            None
        },
        None => None,
    };
    let dispatches = opt_fault(raw.dispatches, |d: String| first_fault(dispatch_pieces(d@), dispatch_id_check()));
    let rmb = opt_fault(raw.embassyrmb, |s: String| if rmb_perms_named(s@) is Some {
        None
    } else {
        Some(RegionFault::BadField("Region.embassy_rmb"@, s@))
    });
    let last = signed_time_fault(raw.lastupdate, "Region.last_update"@);
    let major = signed_time_fault(raw.lastmajorupdate, "Region.last_major_update"@);
    let minor = signed_time_fault(raw.lastminorupdate, "Region.last_minor_update"@);
    let messages = opt_fault(raw.messages, |v: Vec<RawMessage>| first_fault(v@, message_check()));
    let poll = opt_fault(raw.poll, |p: RawPoll| poll_fault(p));
    let tags = opt_fault(raw.tags, |v: Vec<String>| first_fault(v@, tag_check()));
    let badges = opt_fault(raw.wabadges, |v: Vec<RawRegionWABadge>| first_fault(v@, badge_check()));
    or_else(authority, or_else(frontier, or_else(officers, or_else(banner_url, or_else(embassies,
        or_else(census, or_else(dispatches, or_else(rmb, or_else(last, or_else(major,
        or_else(minor, or_else(messages, or_else(poll, or_else(tags, badges))))))))))))))
}

/// Whether the fields of a region that are taken over were taken over from a response.
pub open spec fn region_plain_from(r: Region, raw: RawRegion) -> bool {
    &&& shaped(r.name, raw.name, |n: RegionName, s: String| n.0 == s)
    &&& r.factbook == raw.factbook
    &&& r.num_nations == raw.numnations
    &&& shaped(r.delegate, raw.delegate, |n: NationName, s: String| n.0 == s)
    &&& r.delegate_votes == raw.delegatevotes
    &&& shaped(r.founder, raw.founder, |n: NationName, s: String| n.0 == s)
    &&& shaped(r.governor, raw.governor, |n: NationName, s: String| n.0 == s)
    &&& r.power == raw.power
    &&& r.flag == raw.flag
    &&& shaped(r.banner, raw.banner, |b: RegionBannerId, x: u32| b.0 == x)
    &&& shaped(r.banner_by, raw.bannerby, |n: NationName, s: String| n.0 == s)
    &&& r.dbid == raw.dbid
    &&& r.num_wa_nations == raw.numunnations
    &&& shaped(r.ga_vote, raw.gavote, |v: RegionWAVote, w: RawRegionWAVote| v.for_vote == w.for_vote
        && v.against_vote == w.against_vote)
    &&& shaped(r.sc_vote, raw.scvote, |v: RegionWAVote, w: RawRegionWAVote| v.for_vote == w.for_vote
        && v.against_vote == w.against_vote)
}

/// Whether the shaped fields of a region were read from a response that has no error.
pub open spec fn region_shapes_from(r: Region, raw: RawRegion) -> bool {
    &&& shaped(r.nations, raw.nations, |v: Vec<NationName>, s: String| name_texts(v@) == split_on(s@, ':'))
    &&& shaped(r.delegate_authority, raw.delegateauth, |v: Vec<OfficerAuthority>, s: String| authorities_from(v@, s@))
    &&& shaped(r.frontier, raw.frontier, |b: bool, x: u8| b == (x == 1))
    &&& shaped(r.officers, raw.officers, |v: Vec<Officer>, w: Vec<RawOfficer>| v@.len() == w@.len()
        && forall|i: int| 0 <= i < w@.len() ==> officer_from(#[trigger] v@[i], w@[i]))
    &&& shaped(r.banner_url, raw.bannerurl, |t: String, u: String| url_serialization(SITE@ + u@) == Some(t@))
    &&& shaped(r.embassies, raw.embassies, |v: Vec<Embassy>, w: Vec<RawEmbassy>| v@.len() == w@.len()
        && forall|i: int| 0 <= i < w@.len() ==> embassy_from(#[trigger] v@[i], w@[i]))
    &&& shaped(r.banned, raw.banned, |v: Vec<NationName>, s: String| name_texts(v@) == nation_list(s@))
    &&& shaped(r.census, raw.census, |c: CensusData, w: crate::parsers::RawCensus| census_from(c, w.inner@))
    &&& shaped(r.census_ranks, raw.censusranks, |c: CensusRegionRanks, w: crate::parsers::RawCensusRanks| c.id == w.scale
        && c.nations@.len() == w.nations@.len() && forall|i: int| 0 <= i < w.nations@.len()
            ==> crate::parsers::ranked_from(#[trigger] c.nations@[i], w.scale, w.nations@[i]))
    &&& shaped(r.dispatches, raw.dispatches, |v: Vec<DispatchId>, d: String| v@.len() == dispatch_pieces(d@).len()
        && forall|i: int| 0 <= i < v@.len() ==> parse_unsigned(dispatch_pieces(d@)[i], u32::MAX as nat)
            == Some(#[trigger] v@[i].0 as nat))
    &&& shaped(r.embassy_rmb, raw.embassyrmb, |p: EmbassyRmbPerms, s: String| rmb_perms_named(s@) == Some(p))
    &&& shaped(r.founded, raw.founded, |m: MaybeRelativeTime, s: String| m == relative_time(s))
    &&& shaped(r.founded_time, raw.foundedtime, |m: MaybeSystemTime, t: i64| founded_time_from(m, t))
    &&& shaped(r.happenings, raw.happenings, |h: Happenings, e: Vec<crate::parsers::RawEvent>| events_from(h.0@, e@))
    &&& shaped(r.history, raw.history, |h: Happenings, e: Vec<crate::parsers::RawEvent>| events_from(h.0@, e@))
    &&& shaped(r.last_update, raw.lastupdate, |u: UtcTime, t: i64| u.secs() == t)
    &&& shaped(r.last_major_update, raw.lastmajorupdate, |u: UtcTime, t: i64| u.secs() == t)
    &&& shaped(r.last_minor_update, raw.lastminorupdate, |u: UtcTime, t: i64| u.secs() == t)
    &&& shaped(r.messages, raw.messages, |v: Vec<Message>, w: Vec<RawMessage>| v@.len() == w@.len()
        && forall|i: int| 0 <= i < w@.len() ==> message_from(#[trigger] v@[i], w@[i]))
    &&& shaped(r.wa_nations, raw.unnations, |v: Vec<NationName>, s: String| name_texts(v@) == nation_list(s@))
    &&& shaped(r.poll, raw.poll, |p: Poll, w: RawPoll| poll_from(p, w))
    &&& shaped(r.tags, raw.tags, |v: Vec<Tag>, w: Vec<String>| v@.len() == w@.len()
        && forall|i: int| 0 <= i < w@.len() ==> tag_named(w@[i]@) == Some(#[trigger] v@[i]))
    &&& shaped(r.wa_badges, raw.wabadges, |v: Vec<RegionWABadge>, w: Vec<RawRegionWABadge>| v@.len() == w@.len()
        && forall|i: int| 0 <= i < w@.len() ==> badge_from(#[trigger] v@[i], w@[i]))
}

/// Whether a region was read from a response that has no error.
pub open spec fn region_from(r: Region, raw: RawRegion) -> bool {
    region_plain_from(r, raw) && region_shapes_from(r, raw)
}

/// Reads officer records in order; the first that cannot be read is the error.
pub fn officers_from_raw(v: Vec<RawOfficer>) -> (r: Result<Vec<Officer>, IntoRegionError>)
    ensures
        match first_fault(v@, officer_check()) {
            None => r matches Ok(o) && o@.len() == v@.len() && forall|i: int|
                0 <= i < v@.len() ==> officer_from(#[trigger] o@[i], v@[i]),
            Some(f) => r matches Err(e) && e@ == f,
        },
{
    let ghost all = v@;
    let mut rest = v;
    let mut out: Vec<Officer> = Vec::new();
    assert(all.subrange(0, all.len() as int) =~= all);
    while rest.len() > 0
        invariant
            all == v@,
            rest@.len() + out@.len() == all.len(),
            rest@ == all.subrange(out@.len() as int, all.len() as int),
            first_fault(all, officer_check()) == first_fault(rest@, officer_check()),
            forall|i: int| 0 <= i < out@.len() ==> officer_from(#[trigger] out@[i], all[i]),
        decreases rest.len(),
    {
        let ghost k = out@.len() as int;
        proof {
            lemma_first_fault_step(all, k, officer_check());
        }
        let item = rest.remove(0);
        assert(item == all[k]);
        assert(rest@ =~= all.subrange(k + 1, all.len() as int));
        assert(officer_check()(all[k]) == officer_fault(all[k]));
        match Officer::try_from_raw(item) {
            Ok(x) => out.push(x),
            Err(e) => return Err(e),
        }
    }
    Ok(out)
}

/// Reads embassy records in order; the first that cannot be read is the error.
pub fn embassies_from_raw(v: Vec<RawEmbassy>) -> (r: Result<Vec<Embassy>, IntoRegionError>)
    ensures
        match first_fault(v@, embassy_check()) {
            None => r matches Ok(o) && o@.len() == v@.len() && forall|i: int|
                0 <= i < v@.len() ==> embassy_from(#[trigger] o@[i], v@[i]),
            Some(f) => r matches Err(e) && e@ == f,
        },
{
    let ghost all = v@;
    let mut rest = v;
    let mut out: Vec<Embassy> = Vec::new();
    assert(all.subrange(0, all.len() as int) =~= all);
    while rest.len() > 0
        invariant
            all == v@,
            rest@.len() + out@.len() == all.len(),
            rest@ == all.subrange(out@.len() as int, all.len() as int),
            first_fault(all, embassy_check()) == first_fault(rest@, embassy_check()),
            forall|i: int| 0 <= i < out@.len() ==> embassy_from(#[trigger] out@[i], all[i]),
        decreases rest.len(),
    {
        let ghost k = out@.len() as int;
        proof {
            lemma_first_fault_step(all, k, embassy_check());
        }
        let item = rest.remove(0);
        assert(item == all[k]);
        assert(rest@ =~= all.subrange(k + 1, all.len() as int));
        assert(embassy_check()(all[k]) == embassy_fault(all[k]));
        match Embassy::try_from_raw(item) {
            Ok(x) => out.push(x),
            Err(e) => return Err(e),
        }
    }
    Ok(out)
}

/// Reads posts in order; the first that cannot be read is the error.
pub fn messages_from_raw(v: Vec<RawMessage>) -> (r: Result<Vec<Message>, IntoRegionError>)
    ensures
        match first_fault(v@, message_check()) {
            None => r matches Ok(o) && o@.len() == v@.len() && forall|i: int|
                0 <= i < v@.len() ==> message_from(#[trigger] o@[i], v@[i]),
            Some(f) => r matches Err(e) && e@ == f,
        },
{
    let ghost all = v@;
    let mut rest = v;
    let mut out: Vec<Message> = Vec::new();
    assert(all.subrange(0, all.len() as int) =~= all);
    while rest.len() > 0
        invariant
            all == v@,
            rest@.len() + out@.len() == all.len(),
            rest@ == all.subrange(out@.len() as int, all.len() as int),
            first_fault(all, message_check()) == first_fault(rest@, message_check()),
            forall|i: int| 0 <= i < out@.len() ==> message_from(#[trigger] out@[i], all[i]),
        decreases rest.len(),
    {
        let ghost k = out@.len() as int;
        proof {
            lemma_first_fault_step(all, k, message_check());
        }
        let item = rest.remove(0);
        assert(item == all[k]);
        assert(rest@ =~= all.subrange(k + 1, all.len() as int));
        assert(message_check()(all[k]) == message_fault(all[k]));
        match Message::try_from_raw(item) {
            Ok(x) => out.push(x),
            Err(e) => return Err(e),
        }
    }
    Ok(out)
}

/// Reads badges in order; the first whose kind cannot be read is the error.
pub fn badges_from_raw(v: Vec<RawRegionWABadge>) -> (r: Result<Vec<RegionWABadge>, IntoRegionError>)
    ensures
        match first_fault(v@, badge_check()) {
            None => r matches Ok(o) && o@.len() == v@.len() && forall|i: int|
                0 <= i < v@.len() ==> badge_from(#[trigger] o@[i], v@[i]),
            Some(f) => r matches Err(e) && e@ == f,
        },
{
    let ghost all = v@;
    let mut rest = v;
    let mut out: Vec<RegionWABadge> = Vec::new();
    assert(all.subrange(0, all.len() as int) =~= all);
    while rest.len() > 0
        invariant
            all == v@,
            rest@.len() + out@.len() == all.len(),
            rest@ == all.subrange(out@.len() as int, all.len() as int),
            first_fault(all, badge_check()) == first_fault(rest@, badge_check()),
            forall|i: int| 0 <= i < out@.len() ==> badge_from(#[trigger] out@[i], all[i]),
        decreases rest.len(),
    {
        let ghost k = out@.len() as int;
        proof {
            lemma_first_fault_step(all, k, badge_check());
        }
        let item = rest.remove(0);
        assert(item == all[k]);
        assert(rest@ =~= all.subrange(k + 1, all.len() as int));
        assert(badge_check()(all[k]) == (if badge_kind_named(all[k].kind@) is Some { None } else { Some(RegionFault::ParseEnum(all[k].kind@)) }));
        match RegionWABadge::try_from_raw(item) {
            Ok(x) => out.push(x),
            Err(e) => return Err(e),
        }
    }
    Ok(out)
}

/// Reads tag names in order; the first that names no tag is the error.
pub fn tags_from_raw(v: Vec<String>) -> (r: Result<Vec<Tag>, IntoRegionError>)
    ensures
        match first_fault(v@, tag_check()) {
            None => r matches Ok(o) && o@.len() == v@.len() && forall|i: int|
                0 <= i < v@.len() ==> tag_named(v@[i]@) == Some(#[trigger] o@[i]),
            Some(f) => r matches Err(e) && e@ == f,
        },
{
    let ghost all = v@;
    let mut rest = v;
    let mut out: Vec<Tag> = Vec::new();
    assert(all.subrange(0, all.len() as int) =~= all);
    while rest.len() > 0
        invariant
            all == v@,
            rest@.len() + out@.len() == all.len(),
            rest@ == all.subrange(out@.len() as int, all.len() as int),
            first_fault(all, tag_check()) == first_fault(rest@, tag_check()),
            forall|i: int| 0 <= i < out@.len() ==> tag_named(all[i]@) == Some(#[trigger] out@[i]),
        decreases rest.len(),
    {
        let ghost k = out@.len() as int;
        proof {
            lemma_first_fault_step(all, k, tag_check());
        }
        let item = rest.remove(0);
        assert(item == all[k]);
        assert(rest@ =~= all.subrange(k + 1, all.len() as int));
        assert(tag_check()(all[k]) == (if tag_named(all[k]@) is Some { None } else { Some(RegionFault::ParseEnum(all[k]@)) }));
        match tag_from_text(item) {
            Ok(x) => out.push(x),
            Err(e) => return Err(e),
        }
    }
    Ok(out)
}

/// Reads a tag by its name.
fn tag_from_text(t: String) -> (r: Result<Tag, IntoRegionError>)
    ensures
        match tag_named(t@) {
            Some(tag) => r == Ok::<Tag, IntoRegionError>(tag),
            None => r matches Err(e) && e@ == RegionFault::ParseEnum(t@),
        },
{
    match Tag::from_name(t.as_str()) {
        Some(tag) => Ok(tag),
        None => Err(IntoRegionError::ParseEnumError(t)),
    }
}

/// Names from a colon-separated list, every piece kept (an empty text gives one empty name).
fn colon_names(list: String) -> (r: Vec<NationName>)
    ensures
        name_texts(r@) == split_on(list@, ':'),
{
    let pieces = split_char(list.as_str(), ':');
    let ghost all = pieces.deep_view();
    let mut r: Vec<NationName> = Vec::new();
    let mut i: usize = 0;
    while i < pieces.len()
        invariant
            i <= pieces.len(),
            all == pieces.deep_view(),
            all == split_on(list@, ':'),
            name_texts(r@) == all.take(i as int),
        decreases pieces.len() - i,
    {
        let p = pieces[i].clone();
        assert(p@ == all[i as int]);
        let ghost before = r@;
        r.push(NationName(p));
        assert(name_texts(r@) =~= name_texts(before).push(all[i as int]));
        assert(all.take(i + 1) =~= all.take(i as int).push(all[i as int]));
        i = i + 1;
    }
    assert(all.take(i as int) =~= all);
    r
}

/// A name taken over as it is.
fn nation_named(n: Option<String>) -> (r: Option<NationName>)
    ensures
        shaped(r, n, |a: NationName, s: String| a.0 == s),
{
    match n {
        Some(s) => Some(NationName(s)),
        None => None,
    }
}

/// A region's vote taken over as it is.
fn vote_of(v: Option<RawRegionWAVote>) -> (r: Option<RegionWAVote>)
    ensures
        shaped(r, v, |a: RegionWAVote, w: RawRegionWAVote| a.for_vote == w.for_vote && a.against_vote == w.against_vote),
{
    match v {
        Some(w) => Some(RegionWAVote::from_raw(w)),
        None => None,
    }
}

impl Region {
    /// Shapes a response into a region.
    ///
    /// The checks are made in the order that [`region_fault`] gives, and the first that fails
    /// is the error.
    pub fn try_from_raw(value: RawRegion) -> (r: Result<Region, IntoRegionError>)
        ensures
            match region_fault(value) {
                None => r matches Ok(reg) && region_from(reg, value),
                Some(f) => r matches Err(e) && e@ == f,
            },
    {
        let RawRegion {
            name,
            factbook,
            numnations,
            nations,
            delegate,
            delegatevotes,
            delegateauth,
            frontier,
            founder,
            governor,
            officers,
            power,
            flag,
            banner,
            bannerurl,
            embassies,
            banned,
            bannerby,
            census,
            censusranks,
            dbid,
            dispatches,
            embassyrmb,
            founded,
            foundedtime,
            gavote,
            happenings,
            history,
            lastupdate,
            lastmajorupdate,
            lastminorupdate,
            messages,
            unnations,
            numunnations,
            poll,
            scvote,
            tags,
            wabadges,
        } = value;
        let delegate_authority = match delegateauth {
            Some(a) => Some(OfficerAuthority::vec_from_raw(a)?),
            None => None,
        };
        let frontier = match frontier {
            Some(x) => Some(try_into_bool(x)?),
            None => None,
        };
        let officers = match officers {
            Some(v) => Some(officers_from_raw(v)?),
            None => None,
        };
        let banner_url = match bannerurl {
            Some(u) => {
                let mut full = owned(SITE);
                crate::text::push_str(&mut full, u.as_str());
                match parse_url(full.as_str()) {
                    Some(url) => Some(url),
                    None => return Err(IntoRegionError::BadFieldError("Region.banner_url", u)),
                }
            },
            None => None,
        };
        let embassies = match embassies {
            Some(v) => Some(embassies_from_raw(v)?),
            None => None,
        };
        let census = match census {
            Some(c) => match CensusData::try_from_raw(c) {
                Ok(d) => Some(d),
                Err(e) => return Err(IntoRegionError::from_parsing_error(e)),
            },
            None => None,
        };
        let dispatches = match dispatches {
            Some(d) => Some(parse_dispatches(d)?),
            None => None,
        };
        let embassy_rmb = match embassyrmb {
            Some(p) => Some(EmbassyRmbPerms::try_from_text(p)?),
            None => None,
        };
        let last_update = try_into_datetime(lastupdate, "Region.last_update")?;
        let last_major_update = try_into_datetime(lastmajorupdate, "Region.last_major_update")?;
        let last_minor_update = try_into_datetime(lastminorupdate, "Region.last_minor_update")?;
        let messages = match messages {
            Some(v) => Some(messages_from_raw(v)?),
            None => None,
        };
        let poll = match poll {
            Some(p) => Some(Poll::try_from_raw(p)?),
            None => None,
        };
        let tags = match tags {
            Some(v) => Some(tags_from_raw(v)?),
            None => None,
        };
        let wa_badges = match wabadges {
            Some(v) => Some(badges_from_raw(v)?),
            None => None,
        };
        Ok(
            Region {
                name: match name {
                    Some(n) => Some(RegionName(n)),
                    None => None,
                },
                factbook,
                num_nations: numnations,
                nations: match nations {
                    Some(n) => Some(colon_names(n)),
                    None => None,
                },
                delegate: nation_named(delegate),
                delegate_votes: delegatevotes,
                delegate_authority,
                frontier,
                founder: nation_named(founder),
                governor: nation_named(governor),
                officers,
                power,
                flag,
                banner: match banner {
                    Some(b) => Some(RegionBannerId(b)),
                    None => None,
                },
                banner_url,
                embassies,
                banned: match banned {
                    Some(b) => Some(into_nation_list(b)),
                    None => None,
                },
                banner_by: nation_named(bannerby),
                census,
                census_ranks: match censusranks {
                    Some(c) => Some(CensusRegionRanks::from_raw(c)),
                    None => None,
                },
                dbid,
                dispatches,
                embassy_rmb,
                founded: match founded {
                    Some(f) => Some(MaybeRelativeTime::from_text(f)),
                    None => None,
                },
                founded_time: match foundedtime {
                    Some(t) => Some(MaybeSystemTime::from_option(into_datetime(t))),
                    None => None,
                },
                ga_vote: vote_of(gavote),
                happenings: match happenings {
                    Some(h) => Some(Happenings::from_raw(h)),
                    None => None,
                },
                history: match history {
                    Some(h) => Some(Happenings::from_raw(h)),
                    None => None,
                },
                last_update,
                last_major_update,
                last_minor_update,
                messages,
                wa_nations: match unnations {
                    Some(u) => Some(into_nation_list(u)),
                    None => None,
                },
                num_wa_nations: numunnations,
                poll,
                sc_vote: vote_of(scvote),
                tags,
                wa_badges,
            },
        )
    }
}

} // verus!
