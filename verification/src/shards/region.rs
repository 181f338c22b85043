//! For region shard requests.

use vstd::prelude::*;
use crate::shards::{
    census_params, opt_decimal, query_from_names, query_of, rank_params, request_url,
    url_with_params, with_front_pair, with_optional_pair, CensusRanksShard, CensusShard,
    NSRequest, Pairs, Params, RequestBuildError,
};
use crate::text::{owned, same, u64_to_string};

verus! {

/// A request of a region.
#[derive(Clone, Debug, PartialEq)]
pub enum RegionShard<'a> {
    /// The list of all nations banned from the region.
    BanList,
    /// The region's banner's ID.
    Banner,
    /// The nation who uploaded the region's banner.
    BannerBy,
    /// The URL for the banner.
    BannerUrl,
    /// By default, returns the score, rank, and region rank on today's featured World Census scale.
    /// Can be optionally configured with additional parameters.
    ///
    /// Parallels [`PublicNationShard::Census`][crate::shards::nation::PublicNationShard::Census].
    Census(CensusShard<'a>),
    /// Information on how nations in the region rank according to the World Census.
    ///
    /// Parallels [`WorldShard::CensusRanks`][crate::shards::world::WorldShard::CensusRanks].
    CensusRanks(CensusRanksShard),
    /// The database ID of the region.
    DbId,
    /// The delegate of the region.
    Delegate,
    /// The authorities the regional delegate has.
    DelegateAuth,
    /// The voting power the regional delegate has (number of verified endorsements + 1).
    DelegateVotes,
    /// The IDs of the dispatches pinned on the region's page.
    Dispatches,
    /// The list of all embassies the region has.
    Embassies,
    /// The authority necessary for nations in embassy regions to post on the regional message board.
    EmbassyRmb,
    /// The region's World Factbook Entry, returned as BBCode.
    ///
    /// Note: do not confuse this with a nation's factbook.
    Factbook,
    /// The regional flag.
    Flag,
    /// A formatted string that denotes how long ago the region was founded.
    ///
    /// Note: some regions have existed "since antiquity" (before this statistic was logged).
    Founded,
    /// The Unix timestamp of when the region was founded.
    ///
    /// Note: some regions have existed "since antiquity" (before this statistic was logged).
    FoundedTime,
    /// The founder of the region.
    ///
    /// Note: special regions (Feeders, Restorers, Catchers, and Sandboxes) do not have founders.
    Founder,
    /// Whether the region is a Frontier.
    Frontier,
    /// The number of nations voting for and against the current General Assembly resolution.
    GAVote,
    /// The 10 most recent events in the region.
    Happenings,
    /// The history of regional delegates and embassies.
    History,
    /// The Unix timestamp when the region had its last update.
    LastUpdate,
    /// The Unix timestamp when the region had its last major update.
    LastMajorUpdate,
    /// The Unix timestamp when the region had its last minor update.
    LastMinorUpdate,
    /// Returns messages posted on a regional message board.
    /// By default, returns the 10 most recent messages, sorted from oldest to newest.
    Messages(RmbShard),
    /// The name of the region.
    Name,
    /// The list of all nations in the region.
    Nations,
    /// The number of nations in the region.
    NumNations,
    /// The number of World Assembly nations in the region.
    NumWANations,
    /// The list of all regional officers.
    Officers,
    /// The current poll in the region.
    Poll,
    /// The power rating of the region.
    Power,
    /// The number of nations voting for and against the current Security Council resolution.
    SCVote,
    /// The list of tags the region uses.
    Tags,
    /// The list of passed World Assembly resolutions targeting the region.
    WABadges,
    /// The list of World Assembly nations in the region.
    WANations,
}

/// The name of a region shard as the query writes it (before lowercasing).
pub open spec fn region_shard_name(s: RegionShard) -> Seq<char> {
    match s {
        RegionShard::BanList => "BanList"@,
        RegionShard::Banner => "Banner"@,
        RegionShard::BannerBy => "BannerBy"@,
        RegionShard::BannerUrl => "BannerUrl"@,
        RegionShard::Census(_) => "Census"@,
        RegionShard::CensusRanks(_) => "CensusRanks"@,
        RegionShard::DbId => "DbId"@,
        RegionShard::Delegate => "Delegate"@,
        RegionShard::DelegateAuth => "DelegateAuth"@,
        RegionShard::DelegateVotes => "DelegateVotes"@,
        RegionShard::Dispatches => "Dispatches"@,
        RegionShard::Embassies => "Embassies"@,
        RegionShard::EmbassyRmb => "EmbassyRmb"@,
        RegionShard::Factbook => "Factbook"@,
        RegionShard::Flag => "Flag"@,
        RegionShard::Founded => "Founded"@,
        RegionShard::FoundedTime => "FoundedTime"@,
        RegionShard::Founder => "Founder"@,
        RegionShard::Frontier => "Frontier"@,
        RegionShard::GAVote => "GAVote"@,
        RegionShard::Happenings => "Happenings"@,
        RegionShard::History => "History"@,
        RegionShard::LastUpdate => "LastUpdate"@,
        RegionShard::LastMajorUpdate => "LastMajorUpdate"@,
        RegionShard::LastMinorUpdate => "LastMinorUpdate"@,
        RegionShard::Messages(_) => "Messages"@,
        RegionShard::Name => "Name"@,
        RegionShard::Nations => "Nations"@,
        RegionShard::NumNations => "NumNations"@,
        RegionShard::NumWANations => "NumWANations"@,
        RegionShard::Officers => "Officers"@,
        RegionShard::Poll => "Poll"@,
        RegionShard::Power => "Power"@,
        RegionShard::SCVote => "SCVote"@,
        RegionShard::Tags => "Tags"@,
        RegionShard::WABadges => "WABadges"@,
        RegionShard::WANations => "WANations"@,
    }
}

/// A builder for the [`RegionShard::Messages`] shard.
///
/// Be aware the default behavior is for the number of messages to be 20,
/// ending at the most recent message.
#[derive(Clone, Debug, Default, PartialEq)]
pub struct RmbShard {
    /// Return this many messages (never zero). Must be in the range 1-100.
    limit: Option<u8>,
    /// Skip the most recent (number) messages (never zero).
    offset: Option<u32>,
    /// Return messages starting from this post ID (never zero).
    starting_post: Option<u32>,
}

/// A number, unless it is zero.
pub open spec fn nonzero(x: u64) -> Option<u64> {
    if x == 0 {
        None
    } else {
        Some(x)
    }
}

impl RmbShard {
    /// The message limit, if set.
    pub closed spec fn limit_value(self) -> Option<u8> {
        self.limit
    }

    /// The offset, if set.
    pub closed spec fn offset_value(self) -> Option<u32> {
        self.offset
    }

    /// The first post ID, if set.
    pub closed spec fn starting_post_value(self) -> Option<u32> {
        self.starting_post
    }

    /// Return this many messages. Must be in the range 1-100; zero unsets the limit.
    pub fn limit(&mut self, x: u8) -> (r: &mut Self)
        ensures
            r.limit_value() == (if x == 0 { None } else { Some(x) }),
            r.offset_value() == old(self).offset_value(),
            r.starting_post_value() == old(self).starting_post_value(),
            *final(self) == *final(r),
    {
        self.limit = if x == 0 { None } else { Some(x) };
        self
    }

    /// Skip the `x` most recent messages; zero unsets the offset.
    pub fn offset(&mut self, x: u32) -> (r: &mut Self)
        ensures
            r.offset_value() == (if x == 0 { None } else { Some(x) }),
            r.limit_value() == old(self).limit_value(),
            r.starting_post_value() == old(self).starting_post_value(),
            *final(self) == *final(r),
    {
        self.offset = if x == 0 { None } else { Some(x) };
        self
    }

    /// Instead of returning the most recent messages, return messages starting from this post
    /// ID; zero unsets it.
    pub fn starting_post(&mut self, post_id: u32) -> (r: &mut Self)
        ensures
            r.starting_post_value() == (if post_id == 0 { None } else { Some(post_id) }),
            r.limit_value() == old(self).limit_value(),
            r.offset_value() == old(self).offset_value(),
            *final(self) == *final(r),
    {
        self.starting_post = if post_id == 0 { None } else { Some(post_id) };
        self
    }
}

/// The optional number as the decimal text of a `u64`.
pub open spec fn opt_u8_decimal(x: Option<u8>) -> Option<Seq<char>> {
    match x {
        Some(n) => opt_decimal(Some(n as u64)),
        None => None,
    }
}

/// The optional number as the decimal text of a `u64`.
pub open spec fn opt_u32_decimal(x: Option<u32>) -> Option<Seq<char>> {
    match x {
        Some(n) => opt_decimal(Some(n as u64)),
        None => None,
    }
}

/// The parameters of a message board shard.
pub open spec fn rmb_params(p: Pairs, m: RmbShard) -> Pairs {
    with_optional_pair(
        with_optional_pair(
            with_optional_pair(p, "limit"@, opt_u8_decimal(m.limit_value())),
            "offset"@,
            opt_u32_decimal(m.offset_value()),
        ),
        "fromid"@,
        opt_u32_decimal(m.starting_post_value()),
    )
}

/// The parameters that one region shard adds to those already chosen.
pub open spec fn region_shard_params(p: Pairs, s: RegionShard) -> Pairs {
    match s {
        RegionShard::Census(c) => census_params(p, c.scale_choice(), c.mode_choice()),
        RegionShard::CensusRanks(c) => rank_params(p, c.scale_code(), c.start_rank()),
        RegionShard::Messages(m) => rmb_params(p, m),
        _ => p,
    }
}

/// The parameters of a list of region shards, added in order.
pub open spec fn region_params(shards: Seq<RegionShard>) -> Pairs
    decreases shards.len(),
{
    if shards.len() == 0 {
        Seq::empty()
    } else {
        region_shard_params(region_params(shards.drop_last()), shards.last())
    }
}

/// The names of a list of region shards.
pub open spec fn region_shard_names(shards: Seq<RegionShard>) -> Seq<Seq<char>> {
    shards.map_values(|s: RegionShard| region_shard_name(s))
}

/// The URL of a request for `region` with `shards`.
pub open spec fn region_request_url(region: Seq<char>, shards: Seq<RegionShard>) -> Seq<char> {
    request_url(
        with_front_pair(
            with_front_pair(region_params(shards), "q"@, query_of(region_shard_names(shards))),
            "region"@,
            region,
        ),
    )
}

fn opt_number_string(x: Option<u64>) -> (r: Option<String>)
    ensures
        r.deep_view() == opt_decimal(x),
{
    match x {
        Some(n) => Some(u64_to_string(n)),
        None => None,
    }
}

impl RmbShard {
    /// Adds the message board parameters that are set.
    pub fn add_params(&self, params: &mut Params)
        ensures
            final(params)@ == rmb_params(old(params)@, *self),
    {
        let limit = opt_number_string(match self.limit { Some(x) => Some(x as u64), None => None });
        let offset = opt_number_string(match self.offset { Some(x) => Some(x as u64), None => None });
        let from = opt_number_string(
            match self.starting_post { Some(x) => Some(x as u64), None => None },
        );
        params.insert_on("limit", &limit).insert_on("offset", &offset).insert_on("fromid", &from);
    }
}

impl<'a> RegionShard<'a> {
    /// The name of the shard.
    pub fn as_ref(&self) -> (r: &'static str)
        ensures
            r@ == region_shard_name(*self),
    {
        match self {
            RegionShard::BanList => "BanList",
            RegionShard::Banner => "Banner",
            RegionShard::BannerBy => "BannerBy",
            RegionShard::BannerUrl => "BannerUrl",
            RegionShard::Census(_) => "Census",
            RegionShard::CensusRanks(_) => "CensusRanks",
            RegionShard::DbId => "DbId",
            RegionShard::Delegate => "Delegate",
            RegionShard::DelegateAuth => "DelegateAuth",
            RegionShard::DelegateVotes => "DelegateVotes",
            RegionShard::Dispatches => "Dispatches",
            RegionShard::Embassies => "Embassies",
            RegionShard::EmbassyRmb => "EmbassyRmb",
            RegionShard::Factbook => "Factbook",
            RegionShard::Flag => "Flag",
            RegionShard::Founded => "Founded",
            RegionShard::FoundedTime => "FoundedTime",
            RegionShard::Founder => "Founder",
            RegionShard::Frontier => "Frontier",
            RegionShard::GAVote => "GAVote",
            RegionShard::Happenings => "Happenings",
            RegionShard::History => "History",
            RegionShard::LastUpdate => "LastUpdate",
            RegionShard::LastMajorUpdate => "LastMajorUpdate",
            RegionShard::LastMinorUpdate => "LastMinorUpdate",
            RegionShard::Messages(_) => "Messages",
            RegionShard::Name => "Name",
            RegionShard::Nations => "Nations",
            RegionShard::NumNations => "NumNations",
            RegionShard::NumWANations => "NumWANations",
            RegionShard::Officers => "Officers",
            RegionShard::Poll => "Poll",
            RegionShard::Power => "Power",
            RegionShard::SCVote => "SCVote",
            RegionShard::Tags => "Tags",
            RegionShard::WABadges => "WABadges",
            RegionShard::WANations => "WANations",
        }
    }

    /// Adds the parameters this shard needs.
    pub fn add_params(&self, params: &mut Params)
        ensures
            final(params)@ == region_shard_params(old(params)@, *self),
    {
        match self {
            RegionShard::Census(c) => {
                params.insert_scale(&c.scale).insert_modes(&c.modes);
            },
            RegionShard::CensusRanks(c) => {
                c.add_params(params);
            },
            RegionShard::Messages(m) => {
                m.add_params(params);
            },
            _ => {},
        }
    }
}

/// Make a request of the region API.
#[derive(Clone, Debug, Default, PartialEq)]
pub struct RegionRequest<'a> {
    region: &'a str,
    shards: Vec<RegionShard<'a>>,
}

impl<'a> RegionRequest<'a> {
    /// The region asked about.
    pub closed spec fn region_name(self) -> &'a str {
        self.region
    }

    /// The shards asked for, in order.
    pub closed spec fn shard_list(self) -> Seq<RegionShard<'a>> {
        self.shards@
    }

    /// Creates a new builder given a region name.
    ///
    /// If you do not modify the shards on this request,
    /// you will get a default response using the "standard region API shard set".
    pub fn new(region: &'a str) -> (r: Self)
        ensures
            r.region_name() == region,
            r.shard_list() == Seq::<RegionShard<'a>>::empty(),
    {
        Self { region, shards: Vec::new() }
    }

    /// Create a new request.
    pub fn new_with_shards(region: &'a str, shards: Vec<RegionShard<'a>>) -> (r: Self)
        ensures
            r.region_name() == region,
            r.shard_list() == shards@,
    {
        Self { region, shards }
    }

    /// Sets the region for the request.
    pub fn region(&mut self, region: &'a str) -> (r: &mut Self)
        ensures
            r.region_name() == region,
            r.shard_list() == old(self).shard_list(),
            *final(self) == *final(r),
    {
        self.region = region;
        self
    }

    /// Modify shards using a function: the shards afterwards are those the function leaves.
    pub fn shards<F>(&mut self, f: F) -> (r: &mut Self)
        where
            F: FnOnce(&mut Vec<RegionShard<'a>>),
        requires
            forall|v: &mut Vec<RegionShard<'a>>| f.requires((v,)),
        ensures
            r.region_name() == old(self).region_name(),
            exists|v: &mut Vec<RegionShard<'a>>|
                mut_ref_current(v)@ == old(self).shard_list() && #[trigger] f.ensures((v,), ())
                    && mut_ref_future(v)@ == r.shard_list(),
            *final(self) == *final(r),
    {
        f(&mut self.shards);
        self
    }

    /// Add a shard.
    pub fn add_shard(&mut self, shard: RegionShard<'a>) -> (r: &mut Self)
        ensures
            r.region_name() == old(self).region_name(),
            r.shard_list() == old(self).shard_list().push(shard),
            *final(self) == *final(r),
    {
        self.shards.push(shard);
        self
    }

    /// Add multiple shards, in order.
    pub fn add_shards(&mut self, shards: Vec<RegionShard<'a>>) -> (r: &mut Self)
        ensures
            r.region_name() == old(self).region_name(),
            r.shard_list() == old(self).shard_list() + shards@,
            *final(self) == *final(r),
    {
        let mut more = shards;
        self.shards.append(&mut more);
        self
    }

    /// The query parameters of the shards, in order.
    pub fn shard_params(&self) -> (r: Params)
        ensures
            r@ == region_params(self.shard_list()),
    {
        let mut params = Params::new();
        let mut i: usize = 0;
        while i < self.shards.len()
            invariant
                i <= self.shards@.len(),
                params@ == region_params(self.shards@.take(i as int)),
            decreases self.shards.len() - i,
        {
            assert(self.shards@.take(i + 1).drop_last() =~= self.shards@.take(i as int));
            self.shards[i].add_params(&mut params);
            i = i + 1;
        }
        assert(self.shards@.take(i as int) =~= self.shards@);
        params
    }

    fn names(&self) -> (r: Vec<String>)
        ensures
            r.deep_view() == region_shard_names(self.shard_list()),
    {
        let mut r: Vec<String> = Vec::new();
        let mut i: usize = 0;
        while i < self.shards.len()
            invariant
                i <= self.shards@.len(),
                r.deep_view() == region_shard_names(self.shards@.take(i as int)),
            decreases self.shards.len() - i,
        {
            let name = owned(self.shards[i].as_ref());
            let ghost before = r.deep_view();
            r.push(name);
            assert(r.deep_view() =~= before.push(name@));
            assert(region_shard_names(self.shards@.take(i + 1)) =~= region_shard_names(
                self.shards@.take(i as int),
            ).push(name@));
            i = i + 1;
        }
        assert(self.shards@.take(i as int) =~= self.shards@);
        r
    }
}

impl<'a> NSRequest for RegionRequest<'a> {
    fn as_url(&self) -> (r: Result<String, RequestBuildError>)
        ensures
            r matches Ok(u) && u@ == region_request_url(self.region_name()@, self.shard_list()),
    {
        let query = query_from_names(&self.names());
        let mut params = self.shard_params();
        params.insert_front("q", query.as_str()).insert_front("region", self.region);
        Ok(url_with_params(&params))
    }
}

/// A "standard" region API request: NationStates answers with its standard set of region
/// shards.
pub struct StandardRegionRequest<'a>(&'a str);

impl<'a> StandardRegionRequest<'a> {
    /// The region asked about.
    pub closed spec fn region_name(self) -> &'a str {
        self.0
    }

    /// Create a new standard region request.
    pub fn new(region: &'a str) -> (r: Self)
        ensures
            r.region_name() == region,
    {
        Self(region)
    }
}

impl<'a> NSRequest for StandardRegionRequest<'a> {
    fn as_url(&self) -> (r: Result<String, RequestBuildError>)
        ensures
            r matches Ok(u) && u@ == request_url(seq![("region"@, self.region_name()@)]),
    {
        let mut params = Params::new();
        params.insert("region", self.0);
        Ok(url_with_params(&params))
    }
}

/// All the tags a region can have.
///
/// This list is non-exhaustive as new tags are added on occasion by NationStates.
///
/// Tags that a region may freely assign and unassign do not have a fixed meaning,
/// so they are only marked with (self-tag).
///
/// Some tags have been given added clarity in their variant name, and in those cases,
/// their name on NationStates is also documented.
#[derive(Clone, Copy, Debug, PartialEq, Eq, Structural)]
#[non_exhaustive]
#[allow(missing_docs)]
pub enum Tag {
    /// (self-tag)
    Anarchist,
    /// (self-tag)
    Anime,
    /// (self-tag)
    AntiCapitalist,
    /// (self-tag)
    AntiCommunist,
    /// (self-tag)
    AntiFascist,
    /// (self-tag)
    AntiGeneralAssembly,
    /// (self-tag)
    AntiSecurityCouncil,
    /// (self-tag)
    AntiWorldAssembly,
    /// (self-tag)
    Capitalist,
    /// (self-tag)
    Casual,
    /// Nations kicked out of another region go here.
    /// Tag is only given to
    /// [The Rejected Realms](https://www.nationstates.net/region=the_rejected_realms).
    Catcher,
    /// Part of the NationStates for Education project -- cannot be interacted with like other regions.
    Class,
    /// (self-tag)
    Colony,
    /// Target of a Security Council Commendation resolution.
    Commended,
    /// (self-tag)
    Communist,
    /// Target of a Security Council Condemnation resolution.
    Condemned,
    /// (self-tag)
    Conservative,
    /// (self-tag)
    Cyberpunk,
    /// (self-tag)
    Defender,
    /// (self-tag)
    Democratic,
    /// (self-tag)
    EcoFriendly,
    /// (self-tag)
    Egalitarian,
    /// (self-tag)
    EmbassyCollector,
    /// Has 101-500 nations.
    Enormous,
    /// (self-tag)
    Fandom,
    /// (self-tag)
    FantasyTech,
    /// (self-tag) Eww.
    Fascist,
    /// Featured once (or more!) on the World page.
    Featured,
    /// Game-created, originates the majority of nations.
    /// Has five regions:
    /// [The North Pacific](https://www.nationstates.net/region=the_north_pacific),
    /// [The South Pacific](https://www.nationstates.net/region=the_south_pacific),
    /// [The East Pacific](https://www.nationstates.net/region=the_east_pacific),
    /// [The West Pacific](https://www.nationstates.net/region=the_west_pacific),
    /// and [The Pacific](https://www.nationstates.net/region=the_pacific).
    Feeder,
    /// (self-tag)
    Feminist,
    /// (self-tag) NationStates Forums, F7 section.
    ForumSevener,
    /// Has a founder that ceased to exist.
    Founderless,
    /// (self-tag)
    FreeTrade,
    /// New nations may spawn (although not as fast as in a [`Feeder`](Tag::Feeder)).
    Frontier,
    /// (self-tag)
    FutureTech,
    /// (self-tag) Shortened to FT: FTL on-site.
    FutureTechFasterThanLight,
    /// (self-tag) Shortened to FT: FTLi on-site.
    FutureTechFasterThanLightInhibited,
    /// (self-tag) Shortened to FT: STL on-site.
    FutureTechSlowerThanLight,
    /// (self-tag)
    GamePlayer,
    /// Has 501+ nations.
    Gargantuan,
    /// (self-tag)
    GeneralAssembly,
    /// (self-tag) NationStates Forums, General section.
    Generalite,
    /// Does not have a governor.
    /// Regions in this state will always have an executive World Assembly Delegate.
    Governorless,
    /// (self-tag)
    HumanOnly,
    /// (self-tag)
    Imperialist,
    /// (self-tag)
    Independent,
    /// (self-tag)
    Industrial,
    /// Forbidden to convert to or from a Frontier, as resolved by the World Assembly Security Council.
    Injuncted,
    /// (self-tag)
    InternationalFederalist,
    /// (self-tag)
    Invader,
    /// (self-tag)
    Isolationist,
    /// (self-tag)
    IssuesPlayer,
    /// (self-tag)
    JumpPoint,
    /// (self-tag)
    Lgbt,
    /// Has 51-100 nations.
    Large,
    /// (self-tag)
    Liberal,
    /// Forbidden from having a password, as resolved by the World Assembly Security Council.
    Liberated,
    /// (self-tag)
    Libertarian,
    /// (self-tag)
    Magical,
    /// (self-tag) Tag name: `map`.
    Cartography,
    /// Has 11-50 nations.
    Medium,
    /// (self-tag)
    Mercenary,
    /// Has 1-5 nations.
    Miniscule,
    /// (self-tag)
    ModernTech,
    /// (self-tag)
    Monarchist,
    /// (self-tag)
    MultiSpecies,
    /// (self-tag)
    NationalSovereigntist,
    /// (self-tag)
    Neutral,
    /// Created in the last week.
    New,
    /// (self-tag)
    NonEnglish,
    /// (self-tag)
    OffsiteChat,
    /// (self-tag)
    OffsiteForums,
    /// (self-tag)
    OuterSpace,
    /// (self-tag) NationStates Forums, Portal To The Multiverse section.
    PortalToTheMultiverse,
    /// (self-tag)
    Pacifist,
    /// (self-tag)
    Parody,
    /// Has a password preventing free entry into the region.
    Password,
    /// (self-tag)
    PastTech,
    /// (self-tag)
    Patriarchal,
    /// (self-tag)
    PostApocalyptic,
    /// (self-tag)
    PostModernTech,
    /// (self-tag)
    PuppetStorage,
    /// (self-tag)
    RegionalGovernment,
    /// (self-tag)
    Religious,
    /// Where nations get revived.
    /// Has three regions: [Lazarus](https://www.nationstates.net/region=lazarus),
    /// [Balder](https://www.nationstates.net/region=balder),
    /// and [Osiris](https://www.nationstates.net/region=osiris).
    Restorer,
    /// (self-tag)
    RolePlayer,
    /// (self-tag)
    SecurityCouncil,
    /// (self-tag)
    Serious,
    /// (self-tag)
    Silly,
    /// This tag got split into [`Catcher`](Tag::Catcher)
    /// and [`Restorer`](Tag::Restorer)
    /// because they perform very different roles.
    /// Contains the union of those two tags.
    Sinker,
    /// Has 6-10 nations.
    Small,
    /// (self-tag)
    Snarky,
    /// (self-tag)
    Social,
    /// (self-tag)
    Socialist,
    /// (self-tag)
    Sports,
    /// (self-tag)
    Steampunk,
    /// (self-tag)
    Surreal,
    /// (self-tag)
    Theocratic,
    /// (self-tag)
    Totalitarian,
    /// (self-tag)
    TradingCards,
    /// (self-tag)
    VideoGame,
    /// Game-created region where the bans are temporary and the coups are plenty.
    /// Currently, there are seven such regions:
    /// [Warzone Africa](https://www.nationstates.net/region=warzone_africa),
    /// [Warzone Airspace](https://www.nationstates.net/region=warzone_airspace),
    /// [Warzone Asia](https://www.nationstates.net/region=warzone_asia),
    /// [Warzone Australia](https://www.nationstates.net/region=warzone_australia),
    /// [Warzone Europe](https://www.nationstates.net/region=warzone_europe),
    /// [Warzone Sandbox](https://www.nationstates.net/region=warzone_sandbox),
    /// and [Warzone Trinidad](https://www.nationstates.net/region=warzone_trinidad).
    Warzone,
    /// (self-tag)
    WorldAssembly,
}

/// How a tag is written by the API.
pub open spec fn tag_name(t: Tag) -> Seq<char> {
    match t {
        Tag::Anarchist => "anarchist"@,
        Tag::Anime => "anime"@,
        Tag::AntiCapitalist => "anti-capitalist"@,
        Tag::AntiCommunist => "anti-communist"@,
        Tag::AntiFascist => "anti-fascist"@,
        Tag::AntiGeneralAssembly => "anti-general_assembly"@,
        Tag::AntiSecurityCouncil => "anti-security_council"@,
        Tag::AntiWorldAssembly => "anti-world_assembly"@,
        Tag::Capitalist => "capitalist"@,
        Tag::Casual => "casual"@,
        Tag::Catcher => "catcher"@,
        Tag::Class => "class"@,
        Tag::Colony => "colony"@,
        Tag::Commended => "commended"@,
        Tag::Communist => "communist"@,
        Tag::Condemned => "condemned"@,
        Tag::Conservative => "conservative"@,
        Tag::Cyberpunk => "cyberpunk"@,
        Tag::Defender => "defender"@,
        Tag::Democratic => "democratic"@,
        Tag::EcoFriendly => "eco-friendly"@,
        Tag::Egalitarian => "egalitarian"@,
        Tag::EmbassyCollector => "embassy_collector"@,
        Tag::Enormous => "enormous"@,
        Tag::ForumSevener => "f7er"@,
        Tag::FutureTechFasterThanLight => "ft_ftl"@,
        Tag::FutureTechFasterThanLightInhibited => "ft_ftli"@,
        Tag::FutureTechSlowerThanLight => "ft_stl"@,
        Tag::Fandom => "fandom"@,
        Tag::FantasyTech => "fantasy_tech"@,
        Tag::Fascist => "fascist"@,
        Tag::Featured => "featured"@,
        Tag::Feeder => "feeder"@,
        Tag::Feminist => "feminist"@,
        Tag::Founderless => "founderless"@,
        Tag::FreeTrade => "free_trade"@,
        Tag::Frontier => "frontier"@,
        Tag::FutureTech => "future_tech"@,
        Tag::GamePlayer => "game_player"@,
        Tag::Gargantuan => "gargantuan"@,
        Tag::GeneralAssembly => "general_assembly"@,
        Tag::Generalite => "generalite"@,
        Tag::Governorless => "governorless"@,
        Tag::HumanOnly => "human-only"@,
        Tag::Imperialist => "imperialist"@,
        Tag::Independent => "independent"@,
        Tag::Industrial => "industrial"@,
        Tag::Injuncted => "injuncted"@,
        Tag::InternationalFederalist => "international_federalist"@,
        Tag::Invader => "invader"@,
        Tag::Isolationist => "isolationist"@,
        Tag::IssuesPlayer => "issues_player"@,
        Tag::JumpPoint => "jump_point"@,
        Tag::Lgbt => "lgbt"@,
        Tag::Large => "large"@,
        Tag::Liberal => "liberal"@,
        Tag::Liberated => "liberated"@,
        Tag::Libertarian => "libertarian"@,
        Tag::Magical => "magical"@,
        Tag::Cartography => "map"@,
        Tag::Medium => "medium"@,
        Tag::Mercenary => "mercenary"@,
        Tag::Miniscule => "minuscule"@,
        Tag::ModernTech => "modern_tech"@,
        Tag::Monarchist => "monarchist"@,
        Tag::MultiSpecies => "multi-species"@,
        Tag::NationalSovereigntist => "national_sovereigntist"@,
        Tag::Neutral => "neutral"@,
        Tag::New => "new"@,
        Tag::NonEnglish => "non-english"@,
        Tag::OffsiteChat => "offsite_chat"@,
        Tag::OffsiteForums => "offsite_forums"@,
        Tag::OuterSpace => "outer_space"@,
        Tag::PortalToTheMultiverse => "p2tm"@,
        Tag::Pacifist => "pacifist"@,
        Tag::Parody => "parody"@,
        Tag::Password => "password"@,
        Tag::PastTech => "past_tech"@,
        Tag::Patriarchal => "patriarchal"@,
        Tag::PostApocalyptic => "post_apocalyptic"@,
        Tag::PostModernTech => "post-modern_tech"@,
        Tag::PuppetStorage => "puppet_storage"@,
        Tag::RegionalGovernment => "regional_government"@,
        Tag::Religious => "religious"@,
        Tag::Restorer => "restorer"@,
        Tag::RolePlayer => "role_player"@,
        Tag::SecurityCouncil => "security_council"@,
        Tag::Serious => "serious"@,
        Tag::Silly => "silly"@,
        Tag::Sinker => "sinker"@,
        Tag::Small => "small"@,
        Tag::Snarky => "snarky"@,
        Tag::Social => "social"@,
        Tag::Socialist => "socialist"@,
        Tag::Sports => "sports"@,
        Tag::Steampunk => "steampunk"@,
        Tag::Surreal => "surreal"@,
        Tag::Theocratic => "theocratic"@,
        Tag::Totalitarian => "totalitarian"@,
        Tag::TradingCards => "trading_cards"@,
        Tag::VideoGame => "video_game"@,
        Tag::Warzone => "warzone"@,
        Tag::WorldAssembly => "world_assembly"@,
    }
}

/// The tag that the API writes as `s`, if any.
pub open spec fn tag_named(s: Seq<char>) -> Option<Tag> {
    if s == "anarchist"@ {
        Some(Tag::Anarchist)
    } else if s == "anime"@ {
        Some(Tag::Anime)
    } else if s == "anti-capitalist"@ {
        Some(Tag::AntiCapitalist)
    } else if s == "anti-communist"@ {
        Some(Tag::AntiCommunist)
    } else if s == "anti-fascist"@ {
        Some(Tag::AntiFascist)
    } else if s == "anti-general_assembly"@ {
        Some(Tag::AntiGeneralAssembly)
    } else if s == "anti-security_council"@ {
        Some(Tag::AntiSecurityCouncil)
    } else if s == "anti-world_assembly"@ {
        Some(Tag::AntiWorldAssembly)
    } else if s == "capitalist"@ {
        Some(Tag::Capitalist)
    } else if s == "casual"@ {
        Some(Tag::Casual)
    } else if s == "catcher"@ {
        Some(Tag::Catcher)
    } else if s == "class"@ {
        Some(Tag::Class)
    } else if s == "colony"@ {
        Some(Tag::Colony)
    } else if s == "commended"@ {
        Some(Tag::Commended)
    } else if s == "communist"@ {
        Some(Tag::Communist)
    } else if s == "condemned"@ {
        Some(Tag::Condemned)
    } else if s == "conservative"@ {
        Some(Tag::Conservative)
    } else if s == "cyberpunk"@ {
        Some(Tag::Cyberpunk)
    } else if s == "defender"@ {
        Some(Tag::Defender)
    } else if s == "democratic"@ {
        Some(Tag::Democratic)
    } else if s == "eco-friendly"@ {
        Some(Tag::EcoFriendly)
    } else if s == "egalitarian"@ {
        Some(Tag::Egalitarian)
    } else if s == "embassy_collector"@ {
        Some(Tag::EmbassyCollector)
    } else if s == "enormous"@ {
        Some(Tag::Enormous)
    } else if s == "f7er"@ {
        Some(Tag::ForumSevener)
    } else if s == "ft_ftl"@ {
        Some(Tag::FutureTechFasterThanLight)
    } else if s == "ft_ftli"@ {
        Some(Tag::FutureTechFasterThanLightInhibited)
    } else if s == "ft_stl"@ {
        Some(Tag::FutureTechSlowerThanLight)
    } else if s == "fandom"@ {
        Some(Tag::Fandom)
    } else if s == "fantasy_tech"@ {
        Some(Tag::FantasyTech)
    } else if s == "fascist"@ {
        Some(Tag::Fascist)
    } else if s == "featured"@ {
        Some(Tag::Featured)
    } else if s == "feeder"@ {
        Some(Tag::Feeder)
    } else if s == "feminist"@ {
        Some(Tag::Feminist)
    } else if s == "founderless"@ {
        Some(Tag::Founderless)
    } else if s == "free_trade"@ {
        Some(Tag::FreeTrade)
    } else if s == "frontier"@ {
        Some(Tag::Frontier)
    } else if s == "future_tech"@ {
        Some(Tag::FutureTech)
    } else if s == "game_player"@ {
        Some(Tag::GamePlayer)
    } else if s == "gargantuan"@ {
        Some(Tag::Gargantuan)
    } else if s == "general_assembly"@ {
        Some(Tag::GeneralAssembly)
    } else if s == "generalite"@ {
        Some(Tag::Generalite)
    } else if s == "governorless"@ {
        Some(Tag::Governorless)
    } else if s == "human-only"@ {
        Some(Tag::HumanOnly)
    } else if s == "imperialist"@ {
        Some(Tag::Imperialist)
    } else if s == "independent"@ {
        Some(Tag::Independent)
    } else if s == "industrial"@ {
        Some(Tag::Industrial)
    } else if s == "injuncted"@ {
        Some(Tag::Injuncted)
    } else if s == "international_federalist"@ {
        Some(Tag::InternationalFederalist)
    } else if s == "invader"@ {
        Some(Tag::Invader)
    } else if s == "isolationist"@ {
        Some(Tag::Isolationist)
    } else if s == "issues_player"@ {
        Some(Tag::IssuesPlayer)
    } else if s == "jump_point"@ {
        Some(Tag::JumpPoint)
    } else if s == "lgbt"@ {
        Some(Tag::Lgbt)
    } else if s == "large"@ {
        Some(Tag::Large)
    } else if s == "liberal"@ {
        Some(Tag::Liberal)
    } else if s == "liberated"@ {
        Some(Tag::Liberated)
    } else if s == "libertarian"@ {
        Some(Tag::Libertarian)
    } else if s == "magical"@ {
        Some(Tag::Magical)
    } else if s == "map"@ {
        Some(Tag::Cartography)
    } else if s == "medium"@ {
        Some(Tag::Medium)
    } else if s == "mercenary"@ {
        Some(Tag::Mercenary)
    } else if s == "minuscule"@ {
        Some(Tag::Miniscule)
    } else if s == "modern_tech"@ {
        Some(Tag::ModernTech)
    } else if s == "monarchist"@ {
        Some(Tag::Monarchist)
    } else if s == "multi-species"@ {
        Some(Tag::MultiSpecies)
    } else if s == "national_sovereigntist"@ {
        Some(Tag::NationalSovereigntist)
    } else if s == "neutral"@ {
        Some(Tag::Neutral)
    } else if s == "new"@ {
        Some(Tag::New)
    } else if s == "non-english"@ {
        Some(Tag::NonEnglish)
    } else if s == "offsite_chat"@ {
        Some(Tag::OffsiteChat)
    } else if s == "offsite_forums"@ {
        Some(Tag::OffsiteForums)
    } else if s == "outer_space"@ {
        Some(Tag::OuterSpace)
    } else if s == "p2tm"@ {
        Some(Tag::PortalToTheMultiverse)
    } else if s == "pacifist"@ {
        Some(Tag::Pacifist)
    } else if s == "parody"@ {
        Some(Tag::Parody)
    } else if s == "password"@ {
        Some(Tag::Password)
    } else if s == "past_tech"@ {
        Some(Tag::PastTech)
    } else if s == "patriarchal"@ {
        Some(Tag::Patriarchal)
    } else if s == "post_apocalyptic"@ {
        Some(Tag::PostApocalyptic)
    } else if s == "post-modern_tech"@ {
        Some(Tag::PostModernTech)
    } else if s == "puppet_storage"@ {
        Some(Tag::PuppetStorage)
    } else if s == "regional_government"@ {
        Some(Tag::RegionalGovernment)
    } else if s == "religious"@ {
        Some(Tag::Religious)
    } else if s == "restorer"@ {
        Some(Tag::Restorer)
    } else if s == "role_player"@ {
        Some(Tag::RolePlayer)
    } else if s == "security_council"@ {
        Some(Tag::SecurityCouncil)
    } else if s == "serious"@ {
        Some(Tag::Serious)
    } else if s == "silly"@ {
        Some(Tag::Silly)
    } else if s == "sinker"@ {
        Some(Tag::Sinker)
    } else if s == "small"@ {
        Some(Tag::Small)
    } else if s == "snarky"@ {
        Some(Tag::Snarky)
    } else if s == "social"@ {
        Some(Tag::Social)
    } else if s == "socialist"@ {
        Some(Tag::Socialist)
    } else if s == "sports"@ {
        Some(Tag::Sports)
    } else if s == "steampunk"@ {
        Some(Tag::Steampunk)
    } else if s == "surreal"@ {
        Some(Tag::Surreal)
    } else if s == "theocratic"@ {
        Some(Tag::Theocratic)
    } else if s == "totalitarian"@ {
        Some(Tag::Totalitarian)
    } else if s == "trading_cards"@ {
        Some(Tag::TradingCards)
    } else if s == "video_game"@ {
        Some(Tag::VideoGame)
    } else if s == "warzone"@ {
        Some(Tag::Warzone)
    } else if s == "world_assembly"@ {
        Some(Tag::WorldAssembly)
    } else {
        None
    }
}

impl Tag {
    /// How the tag is written by the API.
    pub fn as_str(&self) -> (r: &'static str)
        ensures
            r@ == tag_name(*self),
    {
        match self {
            Tag::Anarchist => "anarchist",
            Tag::Anime => "anime",
            Tag::AntiCapitalist => "anti-capitalist",
            Tag::AntiCommunist => "anti-communist",
            Tag::AntiFascist => "anti-fascist",
            Tag::AntiGeneralAssembly => "anti-general_assembly",
            Tag::AntiSecurityCouncil => "anti-security_council",
            Tag::AntiWorldAssembly => "anti-world_assembly",
            Tag::Capitalist => "capitalist",
            Tag::Casual => "casual",
            Tag::Catcher => "catcher",
            Tag::Class => "class",
            Tag::Colony => "colony",
            Tag::Commended => "commended",
            Tag::Communist => "communist",
            Tag::Condemned => "condemned",
            Tag::Conservative => "conservative",
            Tag::Cyberpunk => "cyberpunk",
            Tag::Defender => "defender",
            Tag::Democratic => "democratic",
            Tag::EcoFriendly => "eco-friendly",
            Tag::Egalitarian => "egalitarian",
            Tag::EmbassyCollector => "embassy_collector",
            Tag::Enormous => "enormous",
            Tag::ForumSevener => "f7er",
            Tag::FutureTechFasterThanLight => "ft_ftl",
            Tag::FutureTechFasterThanLightInhibited => "ft_ftli",
            Tag::FutureTechSlowerThanLight => "ft_stl",
            Tag::Fandom => "fandom",
            Tag::FantasyTech => "fantasy_tech",
            Tag::Fascist => "fascist",
            Tag::Featured => "featured",
            Tag::Feeder => "feeder",
            Tag::Feminist => "feminist",
            Tag::Founderless => "founderless",
            Tag::FreeTrade => "free_trade",
            Tag::Frontier => "frontier",
            Tag::FutureTech => "future_tech",
            Tag::GamePlayer => "game_player",
            Tag::Gargantuan => "gargantuan",
            Tag::GeneralAssembly => "general_assembly",
            Tag::Generalite => "generalite",
            Tag::Governorless => "governorless",
            Tag::HumanOnly => "human-only",
            Tag::Imperialist => "imperialist",
            Tag::Independent => "independent",
            Tag::Industrial => "industrial",
            Tag::Injuncted => "injuncted",
            Tag::InternationalFederalist => "international_federalist",
            Tag::Invader => "invader",
            Tag::Isolationist => "isolationist",
            Tag::IssuesPlayer => "issues_player",
            Tag::JumpPoint => "jump_point",
            Tag::Lgbt => "lgbt",
            Tag::Large => "large",
            Tag::Liberal => "liberal",
            Tag::Liberated => "liberated",
            Tag::Libertarian => "libertarian",
            Tag::Magical => "magical",
            Tag::Cartography => "map",
            Tag::Medium => "medium",
            Tag::Mercenary => "mercenary",
            Tag::Miniscule => "minuscule",
            Tag::ModernTech => "modern_tech",
            Tag::Monarchist => "monarchist",
            Tag::MultiSpecies => "multi-species",
            Tag::NationalSovereigntist => "national_sovereigntist",
            Tag::Neutral => "neutral",
            Tag::New => "new",
            Tag::NonEnglish => "non-english",
            Tag::OffsiteChat => "offsite_chat",
            Tag::OffsiteForums => "offsite_forums",
            Tag::OuterSpace => "outer_space",
            Tag::PortalToTheMultiverse => "p2tm",
            Tag::Pacifist => "pacifist",
            Tag::Parody => "parody",
            Tag::Password => "password",
            Tag::PastTech => "past_tech",
            Tag::Patriarchal => "patriarchal",
            Tag::PostApocalyptic => "post_apocalyptic",
            Tag::PostModernTech => "post-modern_tech",
            Tag::PuppetStorage => "puppet_storage",
            Tag::RegionalGovernment => "regional_government",
            Tag::Religious => "religious",
            Tag::Restorer => "restorer",
            Tag::RolePlayer => "role_player",
            Tag::SecurityCouncil => "security_council",
            Tag::Serious => "serious",
            Tag::Silly => "silly",
            Tag::Sinker => "sinker",
            Tag::Small => "small",
            Tag::Snarky => "snarky",
            Tag::Social => "social",
            Tag::Socialist => "socialist",
            Tag::Sports => "sports",
            Tag::Steampunk => "steampunk",
            Tag::Surreal => "surreal",
            Tag::Theocratic => "theocratic",
            Tag::Totalitarian => "totalitarian",
            Tag::TradingCards => "trading_cards",
            Tag::VideoGame => "video_game",
            Tag::Warzone => "warzone",
            Tag::WorldAssembly => "world_assembly",
        }
    }

    /// The text of [`Tag::as_str`] as an owned string.
    pub fn to_string(&self) -> (r: String)
        ensures
            r@ == tag_name(*self),
    {
        owned(self.as_str())
    }

    /// The tag written as `s`, if it is one.
    pub fn from_name(s: &str) -> (r: Option<Tag>)
        ensures
            r == tag_named(s@),
    {
        if same(s, "anarchist") {
            return Some(Tag::Anarchist);
        }
        if same(s, "anime") {
            return Some(Tag::Anime);
        }
        if same(s, "anti-capitalist") {
            return Some(Tag::AntiCapitalist);
        }
        if same(s, "anti-communist") {
            return Some(Tag::AntiCommunist);
        }
        if same(s, "anti-fascist") {
            return Some(Tag::AntiFascist);
        }
        if same(s, "anti-general_assembly") {
            return Some(Tag::AntiGeneralAssembly);
        }
        if same(s, "anti-security_council") {
            return Some(Tag::AntiSecurityCouncil);
        }
        if same(s, "anti-world_assembly") {
            return Some(Tag::AntiWorldAssembly);
        }
        if same(s, "capitalist") {
            return Some(Tag::Capitalist);
        }
        if same(s, "casual") {
            return Some(Tag::Casual);
        }
        if same(s, "catcher") {
            return Some(Tag::Catcher);
        }
        if same(s, "class") {
            return Some(Tag::Class);
        }
        if same(s, "colony") {
            return Some(Tag::Colony);
        }
        if same(s, "commended") {
            return Some(Tag::Commended);
        }
        if same(s, "communist") {
            return Some(Tag::Communist);
        }
        if same(s, "condemned") {
            return Some(Tag::Condemned);
        }
        if same(s, "conservative") {
            return Some(Tag::Conservative);
        }
        if same(s, "cyberpunk") {
            return Some(Tag::Cyberpunk);
        }
        if same(s, "defender") {
            return Some(Tag::Defender);
        }
        if same(s, "democratic") {
            return Some(Tag::Democratic);
        }
        if same(s, "eco-friendly") {
            return Some(Tag::EcoFriendly);
        }
        if same(s, "egalitarian") {
            return Some(Tag::Egalitarian);
        }
        if same(s, "embassy_collector") {
            return Some(Tag::EmbassyCollector);
        }
        if same(s, "enormous") {
            return Some(Tag::Enormous);
        }
        if same(s, "f7er") {
            return Some(Tag::ForumSevener);
        }
        if same(s, "ft_ftl") {
            return Some(Tag::FutureTechFasterThanLight);
        }
        if same(s, "ft_ftli") {
            return Some(Tag::FutureTechFasterThanLightInhibited);
        }
        if same(s, "ft_stl") {
            return Some(Tag::FutureTechSlowerThanLight);
        }
        if same(s, "fandom") {
            return Some(Tag::Fandom);
        }
        if same(s, "fantasy_tech") {
            return Some(Tag::FantasyTech);
        }
        if same(s, "fascist") {
            return Some(Tag::Fascist);
        }
        if same(s, "featured") {
            return Some(Tag::Featured);
        }
        if same(s, "feeder") {
            return Some(Tag::Feeder);
        }
        if same(s, "feminist") {
            return Some(Tag::Feminist);
        }
        if same(s, "founderless") {
            return Some(Tag::Founderless);
        }
        if same(s, "free_trade") {
            return Some(Tag::FreeTrade);
        }
        if same(s, "frontier") {
            return Some(Tag::Frontier);
        }
        if same(s, "future_tech") {
            return Some(Tag::FutureTech);
        }
        if same(s, "game_player") {
            return Some(Tag::GamePlayer);
        }
        if same(s, "gargantuan") {
            return Some(Tag::Gargantuan);
        }
        if same(s, "general_assembly") {
            return Some(Tag::GeneralAssembly);
        }
        if same(s, "generalite") {
            return Some(Tag::Generalite);
        }
        if same(s, "governorless") {
            return Some(Tag::Governorless);
        }
        if same(s, "human-only") {
            return Some(Tag::HumanOnly);
        }
        if same(s, "imperialist") {
            return Some(Tag::Imperialist);
        }
        if same(s, "independent") {
            return Some(Tag::Independent);
        }
        if same(s, "industrial") {
            return Some(Tag::Industrial);
        }
        if same(s, "injuncted") {
            return Some(Tag::Injuncted);
        }
        if same(s, "international_federalist") {
            return Some(Tag::InternationalFederalist);
        }
        if same(s, "invader") {
            return Some(Tag::Invader);
        }
        if same(s, "isolationist") {
            return Some(Tag::Isolationist);
        }
        if same(s, "issues_player") {
            return Some(Tag::IssuesPlayer);
        }
        if same(s, "jump_point") {
            return Some(Tag::JumpPoint);
        }
        if same(s, "lgbt") {
            return Some(Tag::Lgbt);
        }
        if same(s, "large") {
            return Some(Tag::Large);
        }
        if same(s, "liberal") {
            return Some(Tag::Liberal);
        }
        if same(s, "liberated") {
            return Some(Tag::Liberated);
        }
        if same(s, "libertarian") {
            return Some(Tag::Libertarian);
        }
        if same(s, "magical") {
            return Some(Tag::Magical);
        }
        if same(s, "map") {
            return Some(Tag::Cartography);
        }
        if same(s, "medium") {
            return Some(Tag::Medium);
        }
        if same(s, "mercenary") {
            return Some(Tag::Mercenary);
        }
        if same(s, "minuscule") {
            return Some(Tag::Miniscule);
        }
        if same(s, "modern_tech") {
            return Some(Tag::ModernTech);
        }
        if same(s, "monarchist") {
            return Some(Tag::Monarchist);
        }
        if same(s, "multi-species") {
            return Some(Tag::MultiSpecies);
        }
        if same(s, "national_sovereigntist") {
            return Some(Tag::NationalSovereigntist);
        }
        if same(s, "neutral") {
            return Some(Tag::Neutral);
        }
        if same(s, "new") {
            return Some(Tag::New);
        }
        if same(s, "non-english") {
            return Some(Tag::NonEnglish);
        }
        if same(s, "offsite_chat") {
            return Some(Tag::OffsiteChat);
        }
        if same(s, "offsite_forums") {
            return Some(Tag::OffsiteForums);
        }
        if same(s, "outer_space") {
            return Some(Tag::OuterSpace);
        }
        if same(s, "p2tm") {
            return Some(Tag::PortalToTheMultiverse);
        }
        if same(s, "pacifist") {
            return Some(Tag::Pacifist);
        }
        if same(s, "parody") {
            return Some(Tag::Parody);
        }
        if same(s, "password") {
            return Some(Tag::Password);
        }
        if same(s, "past_tech") {
            return Some(Tag::PastTech);
        }
        if same(s, "patriarchal") {
            return Some(Tag::Patriarchal);
        }
        if same(s, "post_apocalyptic") {
            return Some(Tag::PostApocalyptic);
        }
        if same(s, "post-modern_tech") {
            return Some(Tag::PostModernTech);
        }
        if same(s, "puppet_storage") {
            return Some(Tag::PuppetStorage);
        }
        if same(s, "regional_government") {
            return Some(Tag::RegionalGovernment);
        }
        if same(s, "religious") {
            return Some(Tag::Religious);
        }
        if same(s, "restorer") {
            return Some(Tag::Restorer);
        }
        if same(s, "role_player") {
            return Some(Tag::RolePlayer);
        }
        if same(s, "security_council") {
            return Some(Tag::SecurityCouncil);
        }
        if same(s, "serious") {
            return Some(Tag::Serious);
        }
        if same(s, "silly") {
            return Some(Tag::Silly);
        }
        if same(s, "sinker") {
            return Some(Tag::Sinker);
        }
        if same(s, "small") {
            return Some(Tag::Small);
        }
        if same(s, "snarky") {
            return Some(Tag::Snarky);
        }
        if same(s, "social") {
            return Some(Tag::Social);
        }
        if same(s, "socialist") {
            return Some(Tag::Socialist);
        }
        if same(s, "sports") {
            return Some(Tag::Sports);
        }
        if same(s, "steampunk") {
            return Some(Tag::Steampunk);
        }
        if same(s, "surreal") {
            return Some(Tag::Surreal);
        }
        if same(s, "theocratic") {
            return Some(Tag::Theocratic);
        }
        if same(s, "totalitarian") {
            return Some(Tag::Totalitarian);
        }
        if same(s, "trading_cards") {
            return Some(Tag::TradingCards);
        }
        if same(s, "video_game") {
            return Some(Tag::VideoGame);
        }
        if same(s, "warzone") {
            return Some(Tag::Warzone);
        }
        if same(s, "world_assembly") {
            return Some(Tag::WorldAssembly);
        }
        None
    }
}

/// Reading back the name of a tag gives the tag.
#[verifier::rlimit(100)]
pub proof fn lemma_tag_name_read_back(t: Tag)
    ensures
        tag_named(tag_name(t)) == Some(t),
{
    reveal_strlit("anarchist");
    assert("anarchist"@.len() == 9);
    reveal_strlit("anime");
    assert("anime"@.len() == 5);
    reveal_strlit("anti-capitalist");
    assert("anti-capitalist"@.len() == 15);
    reveal_strlit("anti-communist");
    assert("anti-communist"@.len() == 14);
    reveal_strlit("anti-fascist");
    assert("anti-fascist"@.len() == 12);
    reveal_strlit("anti-general_assembly");
    assert("anti-general_assembly"@.len() == 21);
    reveal_strlit("anti-security_council");
    assert("anti-security_council"@.len() == 21);
    reveal_strlit("anti-world_assembly");
    assert("anti-world_assembly"@.len() == 19);
    reveal_strlit("capitalist");
    assert("capitalist"@.len() == 10);
    reveal_strlit("casual");
    assert("casual"@.len() == 6);
    reveal_strlit("catcher");
    assert("catcher"@.len() == 7);
    reveal_strlit("class");
    assert("class"@.len() == 5);
    reveal_strlit("colony");
    assert("colony"@.len() == 6);
    reveal_strlit("commended");
    assert("commended"@.len() == 9);
    reveal_strlit("communist");
    assert("communist"@.len() == 9);
    reveal_strlit("condemned");
    assert("condemned"@.len() == 9);
    reveal_strlit("conservative");
    assert("conservative"@.len() == 12);
    reveal_strlit("cyberpunk");
    assert("cyberpunk"@.len() == 9);
    reveal_strlit("defender");
    assert("defender"@.len() == 8);
    reveal_strlit("democratic");
    assert("democratic"@.len() == 10);
    reveal_strlit("eco-friendly");
    assert("eco-friendly"@.len() == 12);
    reveal_strlit("egalitarian");
    assert("egalitarian"@.len() == 11);
    reveal_strlit("embassy_collector");
    assert("embassy_collector"@.len() == 17);
    reveal_strlit("enormous");
    assert("enormous"@.len() == 8);
    reveal_strlit("f7er");
    assert("f7er"@.len() == 4);
    reveal_strlit("ft_ftl");
    assert("ft_ftl"@.len() == 6);
    reveal_strlit("ft_ftli");
    assert("ft_ftli"@.len() == 7);
    reveal_strlit("ft_stl");
    assert("ft_stl"@.len() == 6);
    reveal_strlit("fandom");
    assert("fandom"@.len() == 6);
    reveal_strlit("fantasy_tech");
    assert("fantasy_tech"@.len() == 12);
    reveal_strlit("fascist");
    assert("fascist"@.len() == 7);
    reveal_strlit("featured");
    assert("featured"@.len() == 8);
    reveal_strlit("feeder");
    assert("feeder"@.len() == 6);
    reveal_strlit("feminist");
    assert("feminist"@.len() == 8);
    reveal_strlit("founderless");
    assert("founderless"@.len() == 11);
    reveal_strlit("free_trade");
    assert("free_trade"@.len() == 10);
    reveal_strlit("frontier");
    assert("frontier"@.len() == 8);
    reveal_strlit("future_tech");
    assert("future_tech"@.len() == 11);
    reveal_strlit("game_player");
    assert("game_player"@.len() == 11);
    reveal_strlit("gargantuan");
    assert("gargantuan"@.len() == 10);
    reveal_strlit("general_assembly");
    assert("general_assembly"@.len() == 16);
    reveal_strlit("generalite");
    assert("generalite"@.len() == 10);
    reveal_strlit("governorless");
    assert("governorless"@.len() == 12);
    reveal_strlit("human-only");
    assert("human-only"@.len() == 10);
    reveal_strlit("imperialist");
    assert("imperialist"@.len() == 11);
    reveal_strlit("independent");
    assert("independent"@.len() == 11);
    reveal_strlit("industrial");
    assert("industrial"@.len() == 10);
    reveal_strlit("injuncted");
    assert("injuncted"@.len() == 9);
    reveal_strlit("international_federalist");
    assert("international_federalist"@.len() == 24);
    reveal_strlit("invader");
    assert("invader"@.len() == 7);
    reveal_strlit("isolationist");
    assert("isolationist"@.len() == 12);
    reveal_strlit("issues_player");
    assert("issues_player"@.len() == 13);
    reveal_strlit("jump_point");
    assert("jump_point"@.len() == 10);
    reveal_strlit("lgbt");
    assert("lgbt"@.len() == 4);
    reveal_strlit("large");
    assert("large"@.len() == 5);
    reveal_strlit("liberal");
    assert("liberal"@.len() == 7);
    reveal_strlit("liberated");
    assert("liberated"@.len() == 9);
    reveal_strlit("libertarian");
    assert("libertarian"@.len() == 11);
    reveal_strlit("magical");
    assert("magical"@.len() == 7);
    reveal_strlit("map");
    assert("map"@.len() == 3);
    reveal_strlit("medium");
    assert("medium"@.len() == 6);
    reveal_strlit("mercenary");
    assert("mercenary"@.len() == 9);
    reveal_strlit("minuscule");
    assert("minuscule"@.len() == 9);
    reveal_strlit("modern_tech");
    assert("modern_tech"@.len() == 11);
    reveal_strlit("monarchist");
    assert("monarchist"@.len() == 10);
    reveal_strlit("multi-species");
    assert("multi-species"@.len() == 13);
    reveal_strlit("national_sovereigntist");
    assert("national_sovereigntist"@.len() == 22);
    reveal_strlit("neutral");
    assert("neutral"@.len() == 7);
    reveal_strlit("new");
    assert("new"@.len() == 3);
    reveal_strlit("non-english");
    assert("non-english"@.len() == 11);
    reveal_strlit("offsite_chat");
    assert("offsite_chat"@.len() == 12);
    reveal_strlit("offsite_forums");
    assert("offsite_forums"@.len() == 14);
    reveal_strlit("outer_space");
    assert("outer_space"@.len() == 11);
    reveal_strlit("p2tm");
    assert("p2tm"@.len() == 4);
    reveal_strlit("pacifist");
    assert("pacifist"@.len() == 8);
    reveal_strlit("parody");
    assert("parody"@.len() == 6);
    reveal_strlit("password");
    assert("password"@.len() == 8);
    reveal_strlit("past_tech");
    assert("past_tech"@.len() == 9);
    reveal_strlit("patriarchal");
    assert("patriarchal"@.len() == 11);
    reveal_strlit("post_apocalyptic");
    assert("post_apocalyptic"@.len() == 16);
    reveal_strlit("post-modern_tech");
    assert("post-modern_tech"@.len() == 16);
    reveal_strlit("puppet_storage");
    assert("puppet_storage"@.len() == 14);
    reveal_strlit("regional_government");
    assert("regional_government"@.len() == 19);
    reveal_strlit("religious");
    assert("religious"@.len() == 9);
    reveal_strlit("restorer");
    assert("restorer"@.len() == 8);
    reveal_strlit("role_player");
    assert("role_player"@.len() == 11);
    reveal_strlit("security_council");
    assert("security_council"@.len() == 16);
    reveal_strlit("serious");
    assert("serious"@.len() == 7);
    reveal_strlit("silly");
    assert("silly"@.len() == 5);
    reveal_strlit("sinker");
    assert("sinker"@.len() == 6);
    reveal_strlit("small");
    assert("small"@.len() == 5);
    reveal_strlit("snarky");
    assert("snarky"@.len() == 6);
    reveal_strlit("social");
    assert("social"@.len() == 6);
    reveal_strlit("socialist");
    assert("socialist"@.len() == 9);
    reveal_strlit("sports");
    assert("sports"@.len() == 6);
    reveal_strlit("steampunk");
    assert("steampunk"@.len() == 9);
    reveal_strlit("surreal");
    assert("surreal"@.len() == 7);
    reveal_strlit("theocratic");
    assert("theocratic"@.len() == 10);
    reveal_strlit("totalitarian");
    assert("totalitarian"@.len() == 12);
    reveal_strlit("trading_cards");
    assert("trading_cards"@.len() == 13);
    reveal_strlit("video_game");
    assert("video_game"@.len() == 10);
    reveal_strlit("warzone");
    assert("warzone"@.len() == 7);
    reveal_strlit("world_assembly");
    assert("world_assembly"@.len() == 14);
    assert("anarchist"@[0] == 'a');
    assert("anime"@[0] == 'a');
    assert("anti-communist"@[0] == 'a');
    assert("anti-fascist"@[0] == 'a');
    assert("anti-general_assembly"@[5] == 'g');
    assert("anti-security_council"@[5] == 's');
    assert("anti-world_assembly"@[0] == 'a');
    assert("capitalist"@[0] == 'c');
    assert("casual"@[0] == 'c');
    assert("casual"@[1] == 'a');
    assert("catcher"@[0] == 'c');
    assert("class"@[0] == 'c');
    assert("colony"@[0] == 'c');
    assert("colony"@[1] == 'o');
    assert("commended"@[0] == 'c');
    assert("commended"@[1] == 'o');
    assert("commended"@[2] == 'm');
    assert("commended"@[4] == 'e');
    assert("communist"@[0] == 'c');
    assert("communist"@[1] == 'o');
    assert("communist"@[2] == 'm');
    assert("communist"@[4] == 'u');
    assert("condemned"@[0] == 'c');
    assert("condemned"@[1] == 'o');
    assert("condemned"@[2] == 'n');
    assert("conservative"@[0] == 'c');
    assert("cyberpunk"@[0] == 'c');
    assert("cyberpunk"@[1] == 'y');
    assert("defender"@[0] == 'd');
    assert("democratic"@[0] == 'd');
    assert("eco-friendly"@[0] == 'e');
    assert("egalitarian"@[0] == 'e');
    assert("enormous"@[0] == 'e');
    assert("f7er"@[0] == 'f');
    assert("fandom"@[0] == 'f');
    assert("fandom"@[1] == 'a');
    assert("fantasy_tech"@[0] == 'f');
    assert("fascist"@[0] == 'f');
    assert("fascist"@[1] == 'a');
    assert("featured"@[0] == 'f');
    assert("featured"@[1] == 'e');
    assert("featured"@[2] == 'a');
    assert("feeder"@[0] == 'f');
    assert("feeder"@[1] == 'e');
    assert("feminist"@[0] == 'f');
    assert("feminist"@[1] == 'e');
    assert("feminist"@[2] == 'm');
    assert("founderless"@[0] == 'f');
    assert("founderless"@[1] == 'o');
    assert("free_trade"@[0] == 'f');
    assert("frontier"@[0] == 'f');
    assert("frontier"@[1] == 'r');
    assert("ft_ftl"@[0] == 'f');
    assert("ft_ftl"@[1] == 't');
    assert("ft_ftl"@[3] == 'f');
    assert("ft_ftli"@[0] == 'f');
    assert("ft_ftli"@[1] == 't');
    assert("ft_stl"@[0] == 'f');
    assert("ft_stl"@[1] == 't');
    assert("ft_stl"@[3] == 's');
    assert("future_tech"@[0] == 'f');
    assert("future_tech"@[1] == 'u');
    assert("game_player"@[0] == 'g');
    assert("gargantuan"@[0] == 'g');
    assert("gargantuan"@[1] == 'a');
    assert("general_assembly"@[0] == 'g');
    assert("generalite"@[0] == 'g');
    assert("generalite"@[1] == 'e');
    assert("governorless"@[0] == 'g');
    assert("human-only"@[0] == 'h');
    assert("imperialist"@[0] == 'i');
    assert("imperialist"@[1] == 'm');
    assert("independent"@[0] == 'i');
    assert("independent"@[1] == 'n');
    assert("industrial"@[0] == 'i');
    assert("injuncted"@[0] == 'i');
    assert("invader"@[0] == 'i');
    assert("isolationist"@[0] == 'i');
    assert("issues_player"@[0] == 'i');
    assert("jump_point"@[0] == 'j');
    assert("large"@[0] == 'l');
    assert("lgbt"@[0] == 'l');
    assert("liberal"@[0] == 'l');
    assert("liberated"@[0] == 'l');
    assert("libertarian"@[0] == 'l');
    assert("magical"@[0] == 'm');
    assert("map"@[0] == 'm');
    assert("medium"@[0] == 'm');
    assert("mercenary"@[0] == 'm');
    assert("mercenary"@[1] == 'e');
    assert("minuscule"@[0] == 'm');
    assert("minuscule"@[1] == 'i');
    assert("modern_tech"@[0] == 'm');
    assert("monarchist"@[0] == 'm');
    assert("multi-species"@[0] == 'm');
    assert("neutral"@[0] == 'n');
    assert("new"@[0] == 'n');
    assert("non-english"@[0] == 'n');
    assert("offsite_chat"@[0] == 'o');
    assert("offsite_forums"@[0] == 'o');
    assert("outer_space"@[0] == 'o');
    assert("p2tm"@[0] == 'p');
    assert("pacifist"@[0] == 'p');
    assert("pacifist"@[2] == 'c');
    assert("parody"@[0] == 'p');
    assert("password"@[0] == 'p');
    assert("password"@[2] == 's');
    assert("past_tech"@[0] == 'p');
    assert("patriarchal"@[0] == 'p');
    assert("post-modern_tech"@[0] == 'p');
    assert("post-modern_tech"@[4] == '-');
    assert("post_apocalyptic"@[0] == 'p');
    assert("post_apocalyptic"@[4] == '_');
    assert("puppet_storage"@[0] == 'p');
    assert("regional_government"@[0] == 'r');
    assert("religious"@[0] == 'r');
    assert("restorer"@[0] == 'r');
    assert("role_player"@[0] == 'r');
    assert("security_council"@[0] == 's');
    assert("serious"@[0] == 's');
    assert("serious"@[1] == 'e');
    assert("silly"@[0] == 's');
    assert("silly"@[1] == 'i');
    assert("sinker"@[0] == 's');
    assert("sinker"@[1] == 'i');
    assert("small"@[0] == 's');
    assert("small"@[1] == 'm');
    assert("snarky"@[0] == 's');
    assert("snarky"@[1] == 'n');
    assert("social"@[0] == 's');
    assert("social"@[1] == 'o');
    assert("socialist"@[0] == 's');
    assert("socialist"@[1] == 'o');
    assert("sports"@[0] == 's');
    assert("sports"@[1] == 'p');
    assert("steampunk"@[0] == 's');
    assert("steampunk"@[1] == 't');
    assert("surreal"@[0] == 's');
    assert("surreal"@[1] == 'u');
    assert("theocratic"@[0] == 't');
    assert("totalitarian"@[0] == 't');
    assert("trading_cards"@[0] == 't');
    assert("video_game"@[0] == 'v');
    assert("warzone"@[0] == 'w');
    assert("world_assembly"@[0] == 'w');
    match t {
        Tag::Anarchist => {},
        Tag::Anime => {},
        Tag::AntiCapitalist => {},
        Tag::AntiCommunist => {},
        Tag::AntiFascist => {},
        Tag::AntiGeneralAssembly => {},
        Tag::AntiSecurityCouncil => {},
        Tag::AntiWorldAssembly => {},
        Tag::Capitalist => {},
        Tag::Casual => {},
        Tag::Catcher => {},
        Tag::Class => {},
        Tag::Colony => {},
        Tag::Commended => {},
        Tag::Communist => {},
        Tag::Condemned => {},
        Tag::Conservative => {},
        Tag::Cyberpunk => {},
        Tag::Defender => {},
        Tag::Democratic => {},
        Tag::EcoFriendly => {},
        Tag::Egalitarian => {},
        Tag::EmbassyCollector => {},
        Tag::Enormous => {},
        Tag::ForumSevener => {},
        Tag::FutureTechFasterThanLight => {},
        Tag::FutureTechFasterThanLightInhibited => {},
        Tag::FutureTechSlowerThanLight => {},
        Tag::Fandom => {},
        Tag::FantasyTech => {},
        Tag::Fascist => {},
        Tag::Featured => {},
        Tag::Feeder => {},
        Tag::Feminist => {},
        Tag::Founderless => {},
        Tag::FreeTrade => {},
        Tag::Frontier => {},
        Tag::FutureTech => {},
        Tag::GamePlayer => {},
        Tag::Gargantuan => {},
        Tag::GeneralAssembly => {},
        Tag::Generalite => {},
        Tag::Governorless => {},
        Tag::HumanOnly => {},
        Tag::Imperialist => {},
        Tag::Independent => {},
        Tag::Industrial => {},
        Tag::Injuncted => {},
        Tag::InternationalFederalist => {},
        Tag::Invader => {},
        Tag::Isolationist => {},
        Tag::IssuesPlayer => {},
        Tag::JumpPoint => {},
        Tag::Lgbt => {},
        Tag::Large => {},
        Tag::Liberal => {},
        Tag::Liberated => {},
        Tag::Libertarian => {},
        Tag::Magical => {},
        Tag::Cartography => {},
        Tag::Medium => {},
        Tag::Mercenary => {},
        Tag::Miniscule => {},
        Tag::ModernTech => {},
        Tag::Monarchist => {},
        Tag::MultiSpecies => {},
        Tag::NationalSovereigntist => {},
        Tag::Neutral => {},
        Tag::New => {},
        Tag::NonEnglish => {},
        Tag::OffsiteChat => {},
        Tag::OffsiteForums => {},
        Tag::OuterSpace => {},
        Tag::PortalToTheMultiverse => {},
        Tag::Pacifist => {},
        Tag::Parody => {},
        Tag::Password => {},
        Tag::PastTech => {},
        Tag::Patriarchal => {},
        Tag::PostApocalyptic => {},
        Tag::PostModernTech => {},
        Tag::PuppetStorage => {},
        Tag::RegionalGovernment => {},
        Tag::Religious => {},
        Tag::Restorer => {},
        Tag::RolePlayer => {},
        Tag::SecurityCouncil => {},
        Tag::Serious => {},
        Tag::Silly => {},
        Tag::Sinker => {},
        Tag::Small => {},
        Tag::Snarky => {},
        Tag::Social => {},
        Tag::Socialist => {},
        Tag::Sports => {},
        Tag::Steampunk => {},
        Tag::Surreal => {},
        Tag::Theocratic => {},
        Tag::Totalitarian => {},
        Tag::TradingCards => {},
        Tag::VideoGame => {},
        Tag::Warzone => {},
        Tag::WorldAssembly => {},
    }
}

/// A name that reads as a tag is that tag's name.
pub proof fn lemma_tag_named_is_name(s: Seq<char>)
    ensures
        tag_named(s) matches Some(t) ==> tag_name(t) == s,
{
}

} // verus!
