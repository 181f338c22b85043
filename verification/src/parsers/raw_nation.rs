//! Nation responses as the API sends them, before any check.
//!
//! These records hold the fields of a `<NATION>` response as plain values: text where the
//! API sends text, numbers where it sends numbers. Reading XML into them is done outside the
//! library; [`crate::parsers::nation`] checks and shapes them.

use vstd::prelude::*;
use rust_decimal::Decimal;
use crate::parsers::nation::{FreedomScores, Freedoms};
use crate::parsers::{RawCensus, RawEvent};

verus! {

/// A `<NATION>` response: every shard is optional.
#[derive(Debug, Default)]
pub struct RawNation {
    /// The `id` attribute of the root tag.
    pub id: Option<String>,
    /// `NAME`.
    pub name: Option<String>,
    /// `TYPE`.
    pub kind: Option<String>,
    /// `FULLNAME`.
    pub fullname: Option<String>,
    /// `MOTTO`.
    pub motto: Option<String>,
    /// `CATEGORY`.
    pub category: Option<String>,
    /// `UNSTATUS`.
    pub unstatus: Option<String>,
    /// `ENDORSEMENTS`.
    pub endorsements: Option<String>,
    /// `ISSUES_ANSWERED`.
    pub issues_answered: Option<u32>,
    /// `FREEDOM`.
    pub freedom: Option<Freedoms>,
    /// `REGION`.
    pub region: Option<String>,
    /// `POPULATION`.
    pub population: Option<u32>,
    /// `TAX`.
    pub tax: Option<Decimal>,
    /// `ANIMAL`.
    pub animal: Option<String>,
    /// `CURRENCY`.
    pub currency: Option<String>,
    /// `DEMONYM`.
    pub demonym: Option<String>,
    /// `DEMONYM2`.
    pub demonym2: Option<String>,
    /// `DEMONYM2PLURAL`.
    pub demonym2plural: Option<String>,
    /// `FLAG`.
    pub flag: Option<String>,
    /// `MAJORINDUSTRY`.
    pub majorindustry: Option<String>,
    /// `GOVTPRIORITY`.
    pub govtpriority: Option<String>,
    /// `GOVT`.
    pub govt: Option<RawGovernment>,
    /// `FOUNDED`.
    pub founded: Option<String>,
    /// `FIRSTLOGIN`.
    pub firstlogin: Option<u64>,
    /// `LASTLOGIN`.
    pub lastlogin: Option<u64>,
    /// `LASTACTIVITY`.
    pub lastactivity: Option<String>,
    /// `INFLUENCE`.
    pub influence: Option<String>,
    /// `FREEDOMSCORES`.
    pub freedomscores: Option<FreedomScores>,
    /// `PUBLICSECTOR`.
    pub publicsector: Option<Decimal>,
    /// `DEATHS`: the causes.
    pub deaths: Option<Vec<RawCause>>,
    /// `LEADER`.
    pub leader: Option<String>,
    /// `CAPITAL`.
    pub capital: Option<String>,
    /// `RELIGION`.
    pub religion: Option<String>,
    /// `FACTBOOKS`.
    pub factbooks: Option<u16>,
    /// `DISPATCHES`.
    pub dispatches: Option<u16>,
    /// `DBID`.
    pub dbid: Option<u32>,
    /// `ADMIRABLE`.
    pub admirable: Option<String>,
    /// `ADMIRABLES`: the compliments.
    pub admirables: Option<Vec<String>>,
    /// `ANIMALTRAIT`.
    pub animaltrait: Option<String>,
    /// `BANNER`.
    pub banner: Option<String>,
    /// `BANNERS`: the banner codes.
    pub banners: Option<Vec<String>>,
    /// `CENSUS`.
    pub census: Option<RawCensus>,
    /// `CRIME`.
    pub crime: Option<String>,
    /// `DISPATCHLIST`: the dispatches.
    pub dispatchlist: Option<Vec<RawDispatch>>,
    /// `FACTBOOKLIST`: the factbooks.
    pub factbooklist: Option<Vec<RawDispatch>>,
    /// `FOUNDEDTIME`.
    pub foundedtime: Option<i64>,
    /// `GAVOTE`.
    pub gavote: Option<String>,
    /// `GDP`.
    pub gdp: Option<u64>,
    /// `GOVTDESC`.
    pub govtdesc: Option<String>,
    /// `HAPPENINGS`: the events.
    pub happenings: Option<Vec<RawEvent>>,
    /// `INCOME`.
    pub income: Option<u32>,
    /// `INDUSTRYDESC`.
    pub industrydesc: Option<String>,
    /// `LEGISLATION`: the laws.
    pub legislation: Option<Vec<String>>,
    /// `NOTABLE`.
    pub notable: Option<String>,
    /// `NOTABLES`: the facts.
    pub notables: Option<Vec<String>>,
    /// `POLICIES`: the policies.
    pub policies: Option<Vec<RawPolicy>>,
    /// `POOREST`.
    pub poorest: Option<u32>,
    /// `RCENSUS` (never zero).
    pub rcensus: Option<u16>,
    /// `RICHEST`.
    pub richest: Option<u32>,
    /// `SCVOTE`.
    pub scvote: Option<String>,
    /// `SECTORS`.
    pub sectors: Option<RawSectors>,
    /// `SENSIBILITIES`.
    pub sensibilities: Option<String>,
    /// `TGCANRECRUIT` (0 or 1).
    pub tgcanrecruit: Option<u8>,
    /// `TGCANCAMPAIGN` (0 or 1).
    pub tgcancampaign: Option<u8>,
    /// `WCENSUS` (never zero).
    pub wcensus: Option<u32>,
}

/// `GOVT`: spending by area, in percent.
#[derive(Clone, Copy, Debug)]
pub struct RawGovernment {
    pub administration: Decimal,
    pub defence: Decimal,
    pub education: Decimal,
    pub environment: Decimal,
    pub healthcare: Decimal,
    pub commerce: Decimal,
    pub international_aid: Decimal,
    pub law_and_order: Decimal,
    pub public_transport: Decimal,
    pub social_equality: Decimal,
    pub spirituality: Decimal,
    pub welfare: Decimal,
}

/// `SECTORS`: the economy by sector, in percent.
#[derive(Clone, Copy, Debug)]
pub struct RawSectors {
    pub black_market: Decimal,
    pub government: Decimal,
    pub industry: Decimal,
    pub public: Decimal,
}

/// One `CAUSE` of death: its type attribute and its frequency.
#[derive(Debug)]
pub struct RawCause {
    pub kind: String,
    pub frequency: Decimal,
}

/// One `DISPATCH` or `FACTBOOK` entry.
#[derive(Clone, Debug)]
pub struct RawDispatch {
    pub id: u32,
    pub title: String,
    pub author: String,
    pub category: String,
    pub subcategory: String,
    pub created: u64,
    /// Zero when the dispatch was never edited.
    pub edited: u64,
    pub views: u32,
    pub score: u32,
}

/// One `POLICY`.
#[derive(Clone, Debug)]
pub struct RawPolicy {
    pub name: String,
    pub pic: String,
    pub cat: String,
    pub desc: String,
}

/// The response to a request for the standard shards of a nation: every field is there.
#[derive(Debug)]
pub struct RawStandardNation {
    pub name: String,
    pub kind: String,
    pub fullname: String,
    pub motto: String,
    pub category: String,
    pub unstatus: String,
    pub endorsements: String,
    pub issues_answered: u32,
    pub freedom: Freedoms,
    pub region: String,
    pub population: u32,
    pub tax: Decimal,
    pub animal: String,
    pub currency: String,
    pub demonym: String,
    pub demonym2: String,
    pub demonym2plural: String,
    pub flag: String,
    pub majorindustry: String,
    pub govtpriority: String,
    pub govt: RawGovernment,
    pub founded: String,
    pub firstlogin: i64,
    pub lastlogin: i64,
    pub lastactivity: String,
    pub influence: String,
    pub freedomscores: FreedomScores,
    pub publicsector: Decimal,
    pub deaths: Vec<RawCause>,
    pub leader: String,
    pub capital: String,
    pub religion: String,
    pub factbooks: u16,
    pub dispatches: u16,
    pub dbid: u32,
}

} // verus!
