//! Region responses as the API sends them, before any check.
//!
//! These records hold the fields of a `<REGION>` response as plain values. Reading XML into
//! them is done outside the library; [`crate::parsers::region`] checks and shapes them.

use vstd::prelude::*;
use crate::parsers::{RawCensus, RawCensusRanks, RawEvent};

verus! {

/// A `<REGION>` response: every shard is optional.
#[derive(Debug, Default)]
pub struct RawRegion {
    /// `NAME`: the nice name.
    pub name: Option<String>,
    /// `FACTBOOK`.
    pub factbook: Option<String>,
    /// `NUMNATIONS`.
    pub numnations: Option<u32>,
    /// `NATIONS`: colon-separated.
    pub nations: Option<String>,
    /// `DELEGATE`.
    pub delegate: Option<String>,
    /// `DELEGATEVOTES`.
    pub delegatevotes: Option<u32>,
    /// `DELEGATEAUTH`: one letter per authority.
    pub delegateauth: Option<String>,
    /// `FRONTIER` (0 or 1).
    pub frontier: Option<u8>,
    /// `FOUNDER`.
    pub founder: Option<String>,
    /// `GOVERNOR`.
    pub governor: Option<String>,
    /// `OFFICERS`: the officers.
    pub officers: Option<Vec<RawOfficer>>,
    /// `POWER`.
    pub power: Option<String>,
    /// `FLAG`.
    pub flag: Option<String>,
    /// `BANNER`.
    pub banner: Option<u32>,
    /// `BANNERURL`: a path on the NationStates site.
    pub bannerurl: Option<String>,
    /// `EMBASSIES`: the embassies.
    pub embassies: Option<Vec<RawEmbassy>>,
    /// `BANNED`.
    pub banned: Option<String>,
    /// `BANNERBY`.
    pub bannerby: Option<String>,
    /// `CENSUS`.
    pub census: Option<RawCensus>,
    /// `CENSUSRANKS`.
    pub censusranks: Option<RawCensusRanks>,
    /// `DBID`.
    pub dbid: Option<u32>,
    /// `DISPATCHES`: comma-separated IDs.
    pub dispatches: Option<String>,
    /// `EMBASSYRMB`.
    pub embassyrmb: Option<String>,
    /// `FOUNDED`.
    pub founded: Option<String>,
    /// `FOUNDEDTIME`.
    pub foundedtime: Option<i64>,
    /// `GAVOTE`.
    pub gavote: Option<RawRegionWAVote>,
    /// `HAPPENINGS`: the events.
    pub happenings: Option<Vec<RawEvent>>,
    /// `HISTORY`: the events.
    pub history: Option<Vec<RawEvent>>,
    /// `LASTUPDATE`.
    pub lastupdate: Option<i64>,
    /// `LASTMAJORUPDATE`.
    pub lastmajorupdate: Option<i64>,
    /// `LASTMINORUPDATE`.
    pub lastminorupdate: Option<i64>,
    /// `MESSAGES`: the posts.
    pub messages: Option<Vec<RawMessage>>,
    /// `UNNATIONS`: comma-separated.
    pub unnations: Option<String>,
    /// `NUMUNNATIONS`.
    pub numunnations: Option<u32>,
    /// `POLL`.
    pub poll: Option<RawPoll>,
    /// `SCVOTE`.
    pub scvote: Option<RawRegionWAVote>,
    /// `TAGS`: the tag names.
    pub tags: Option<Vec<String>>,
    /// `WABADGES`: the badges.
    pub wabadges: Option<Vec<RawRegionWABadge>>,
}

/// One `OFFICER`.
#[derive(Debug)]
pub struct RawOfficer {
    pub nation: String,
    pub office: String,
    /// One letter per authority.
    pub authority: String,
    pub time: u64,
    pub by: String,
    pub order: i16,
}

/// One `EMBASSY`: its type attribute, if any, and the region.
#[derive(Debug)]
pub struct RawEmbassy {
    pub kind: Option<String>,
    pub region: String,
}

/// `GAVOTE` or `SCVOTE`.
#[derive(Debug)]
pub struct RawRegionWAVote {
    pub for_vote: u16,
    pub against_vote: u16,
}

/// One `POST` on the regional message board.
#[derive(Debug)]
pub struct RawMessage {
    pub id: u32,
    pub timestamp: u64,
    pub nation: String,
    /// 0, 1, 2 or 9.
    pub status: u8,
    pub suppressor: Option<String>,
    pub edited: Option<u64>,
    pub likes: u16,
    pub likers: Option<String>,
    pub embassy: Option<String>,
    pub message: String,
}

/// `POLL`.
#[derive(Debug)]
pub struct RawPoll {
    pub id: u32,
    pub title: String,
    pub text: Option<String>,
    pub region: String,
    pub start: u64,
    pub stop: u64,
    pub author: String,
    pub options: Vec<RawPollOption>,
}

/// One poll `OPTION`.
#[derive(Debug)]
pub struct RawPollOption {
    pub id: u32,
    pub optiontext: String,
    pub votes: u32,
    /// Colon-separated.
    pub voters: String,
}

/// One `WABADGE`: its type attribute and the resolution.
#[derive(Debug)]
pub struct RawRegionWABadge {
    pub kind: String,
    pub resolution: u16,
}

} // verus!
