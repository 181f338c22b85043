//! For public nation shard requests.

use vstd::prelude::*;
use crate::shards::{
    census_params, keys_unique, lemma_optional_then_get, opt_owned, opt_view, query_from_names,
    query_of, request_url, url_with_params, value_of, with_front_pair, with_optional_pair,
    CensusShard, NSRequest, Pairs, Params, RequestBuildError,
};
use crate::text::owned;

verus! {

/// A nation request available to anyone (no login required).
///
/// Each request "shard"
/// is associated with a certain field in its associated parsed type,
/// [`Nation`](crate::parsers::nation::Nation).
/// Enum variant docs include the struct field associated with it.
#[derive(Clone, Debug, PartialEq)]
pub enum PublicNationShard<'a> {
    /// A randomly-selected compliment for the nation.
    ///
    /// Nation field: [`admirable`](crate::parsers::nation::Nation.admirable)
    Admirable,
    /// All possible compliments for the nation.
    Admirables,
    /// The national animal.
    Animal,
    /// Describes the national animal on the nation's page.
    AnimalTrait,
    /// Number of issues answered.
    Answered,
    /// Returns one Rift banner code that should be displayed for this nation:
    /// the nation's primary banner, if one is set; otherwise, a randomly chosen eligible banner.
    Banner,
    /// Returns a list of Rift banners that should be displayed:
    /// the nation's primary banner (if any) is always listed first,
    /// with the remainder in random order.
    /// Banner codes can be converted into image URLs by prepending `/images/banners/`
    /// and appending `.jpg`.
    Banners,
    /// The capital if a custom capital was chosen, or the nation name with "City"
    /// appended at the end if one has not been chosen yet.
    ///
    Capital,
    /// One of the 27 national classifications that the game assigns based on personal,
    /// economic, and political freedom.
    Category,
    /// By default, returns the score, rank, and region rank on today's featured World Census scale.
    /// Can be optionally configured with additional parameters.
    ///
    /// Parallels [`WorldShard::Census`](crate::shards::world::WorldShard::Census).
    Census(CensusShard<'a>),
    /// Describes crime in the nation on its nation page.
    Crime,
    /// Name of the national currency.
    Currency,
    /// The database ID of the nation.
    DbId,
    /// Causes of death and their frequencies as a percentage.
    Deaths,
    /// Adjective used to describe citizens of the nation: e.g. I am French.
    Demonym,
    /// Singular noun used to describe a citizen of the nation: e.g. I am a Frenchman.
    Demonym2,
    /// Plural noun used to describe citizens of the nation: e.g. They are (some) Frenchmen.
    ///
    /// *Note that in the English language,
    /// the word "some" (plural indefinite article) is not normally used in that way;
    /// however it would be more inaccurate to use "the" (plural definite article).
    /// Other languages use articles differently than English.*
    ///
    /// *It should also be noted that the words "Frenchman" and "Frenchmen"
    /// are no longer the preferred English words to describe French people;
    /// the adjectival demonym with the words "person" or "people" is now preferred:
    /// e.g. I am a French (adj.) person.*
    Demonym2Plural,
    /// The number of dispatches published by this nation.
    ///
    /// This will always be greater than or equal to the number of factbooks published by this nation,
    /// which can be requested with [`PublicNationShard::Factbooks`].
    Dispatches,
    /// The list of all dispatches published by this nation.
    ///
    /// For a list of all factbooks (a subset of dispatches) published by this nation,
    /// see [`PublicNationShard::FactbookList`].
    DispatchList,
    /// The list of nations that endorse this nation.
    ///
    /// Note:
    /// this list provides the same information for nations not in the WA and nations
    /// who are in the WA but have no endorsements.
    /// For WA status, see [`PublicNationShard::WA`].
    Endorsements,
    /// The number of factbooks published by this nation.
    ///
    /// This will always be less than or equal to the number of dispatches published by this nation,
    /// which can be requested with [`PublicNationShard::Dispatches`].
    Factbooks,
    /// The list of all factbooks published by this nation.
    ///
    /// For a list of all dispatches (a superset of factbooks) published by this nation,
    /// see [`PublicNationShard::DispatchList`].
    FactbookList,
    /// The Unix timestamp of the first time the user logged into the nation.
    ///
    /// Note: some nations have existed "since antiquity" (before this statistic was logged).
    FirstLogin,
    /// The URL of the flag used by this nation.
    Flag,
    /// A relative timestamp that denotes how long ago the nation was founded.
    ///
    /// Note: some nations have existed "since antiquity" (before this statistic was logged).
    Founded,
    /// The Unix timestamp of when the nation was founded.
    ///
    /// Note: some nations have existed "since antiquity" (before this statistic was logged).
    FoundedTime,
    /// Describes civil rights, the economy,
    /// and political freedom within the country using *categorical* descriptors.
    Freedom,
    /// Describes civil rights, the economy,
    /// and political freedom within the country using *numerical* descriptors.
    FreedomScores,
    /// The full name of the nation.
    ///
    /// Will always be equivalent to "The {[`PublicNationShard::Type`]} of {[`PublicNationShard::Name`]}",
    /// where `{}` represents string interpolation.
    FullName,
    /// The vote of the nation in the General Assembly.
    ///
    /// Note: this shard cannot tell the difference
    /// between the nation not being part of the World Assembly and the nation not voting.
    /// For WA status, see [`PublicNationShard::WA`].
    ///
    /// For the nation's Security Council vote, see [`PublicNationShard::SCVote`].
    GAVote,
    /// The GDP of the nation in its national currency.
    Gdp,
    /// Describes the nation's government spending as percentages in various financial areas.
    ///
    /// To see the financial area where the government spends the most money,
    /// see [`PublicNationShard::GovtPriority`].
    Govt,
    /// The description of the nation's government found on its nation page.
    GovtDesc,
    /// The financial area where the government spends the most money.
    ///
    /// To see government spending in all financial areas, see [`PublicNationShard::Govt`].
    GovtPriority,
    /// The 10 most recent events in the nation.
    Happenings,
    /// The average income in the nation.
    Income,
    /// The description of the nation's industry found on its nation page.
    IndustryDesc,
    /// Describes the influence of the nation in its region using qualitative descriptors.
    Influence,
    /// A relative timestamp that denotes when the nation was last active.
    LastActivity,
    /// The Unix timestamp of when the nation was last logged into.
    LastLogin,
    /// The national leader if a custom leader was chosen, or "Leader"
    /// if one has not been chosen yet.
    ///
    Leader,
    /// The list of descriptions of laws in the nation found on its nation page.
    Legislation,
    /// The largest industry in the nation.
    MajorIndustry,
    /// The national motto.
    Motto,
    /// The name of the nation.
    ///
    /// Note: this will always return the correct capitalization of the nation name.
    Name,
    /// Three randomly selected notable facts about the nation,
    /// in the form "{`fact1`}, {`fact2`}, and {`fact3`}",
    /// where `{}` represents string interpolation.
    ///
    /// For all possible notable facts, use [`PublicNationShard::Notables`].
    Notable,
    /// The list of all possible notable facts about the nation.
    ///
    /// For three randomly selected notable facts, use [`PublicNationShard::Notable`].
    Notables,
    /// The list of policies the nation has in place.
    Policies,
    /// The average income of the poorest 10% in the nation.
    Poorest,
    /// The number of people in the nation, measured in millions of people.
    Population,
    /// The percentage of the economy controlled or funded by the government and the public.
    ///
    /// For a breakdown of all sectors and their percent of the economy that they control,
    /// see [`PublicNationShard::Sectors`].
    PublicSector,
    /// The region rank on today's featured World Census scale.
    RCensus,
    /// The region the nation resides in.
    Region,
    /// The national religion if a custom religion was chosen,
    /// or "a major religion" if one has not been chosen yet.
    ///
    Religion,
    /// The average income of the richest 10% in the nation.
    Richest,
    /// The vote of the nation in the Security Council.
    ///
    /// Note: this shard cannot tell the difference
    /// between the nation not being part of the World Assembly and the nation not voting.
    /// For WA status, see [`PublicNationShard::WA`].
    ///
    /// For the nation's General Assembly vote, see [`PublicNationShard::GAVote`].
    SCVote,
    /// Describes the nation's economy as percentages controlled or funded by various sectors.
    ///
    /// For the percentage controlled or funded by the government and the public,
    /// see [`PublicNationShard::PublicSector`].
    Sectors,
    /// Two adjectives that describe the nation's population on its nation page.
    Sensibilities,
    /// The national tax rate as a percentage.
    Tax,
    /// Whether a recruitment telegram will be blocked by the nation's telegram settings.
    TGCanRecruit {
        /// Whether the nation will deny a recruitment telegram from this region in particular due to having received one too recently.
        from: Option<&'a str>,
    },
    /// Whether a campaign telegram will be blocked by the nation's telegram settings.
    TGCanCampaign {
        /// Whether the nation will deny a campaign telegram from this region in particular due to having received one too recently.
        from: Option<&'a str>,
    },
    /// The pre-title of the nation.
    Type,
    /// Whether the nation is a World Assembly Delegate, a World Assembly member, or a non-member.
    WA,
    /// The list of World Assembly resolutions targeting the nation.
    WABadges,
    /// The world rank on today's featured World Census scale.
    WCensus,
}

/// The name of a shard as the query writes it (before lowercasing).
pub open spec fn nation_shard_name(s: PublicNationShard) -> Seq<char> {
    match s {
        PublicNationShard::Admirable => "Admirable"@,
        PublicNationShard::Admirables => "Admirables"@,
        PublicNationShard::Animal => "Animal"@,
        PublicNationShard::AnimalTrait => "AnimalTrait"@,
        PublicNationShard::Answered => "Answered"@,
        PublicNationShard::Banner => "Banner"@,
        PublicNationShard::Banners => "Banners"@,
        PublicNationShard::Capital => "customcapital"@,
        PublicNationShard::Category => "Category"@,
        PublicNationShard::Census(_) => "Census"@,
        PublicNationShard::Crime => "Crime"@,
        PublicNationShard::Currency => "Currency"@,
        PublicNationShard::DbId => "DbId"@,
        PublicNationShard::Deaths => "Deaths"@,
        PublicNationShard::Demonym => "Demonym"@,
        PublicNationShard::Demonym2 => "Demonym2"@,
        PublicNationShard::Demonym2Plural => "Demonym2Plural"@,
        PublicNationShard::Dispatches => "Dispatches"@,
        PublicNationShard::DispatchList => "DispatchList"@,
        PublicNationShard::Endorsements => "Endorsements"@,
        PublicNationShard::Factbooks => "Factbooks"@,
        PublicNationShard::FactbookList => "FactbookList"@,
        PublicNationShard::FirstLogin => "FirstLogin"@,
        PublicNationShard::Flag => "Flag"@,
        PublicNationShard::Founded => "Founded"@,
        PublicNationShard::FoundedTime => "FoundedTime"@,
        PublicNationShard::Freedom => "Freedom"@,
        PublicNationShard::FreedomScores => "FreedomScores"@,
        PublicNationShard::FullName => "FullName"@,
        PublicNationShard::GAVote => "GAVote"@,
        PublicNationShard::Gdp => "Gdp"@,
        PublicNationShard::Govt => "Govt"@,
        PublicNationShard::GovtDesc => "GovtDesc"@,
        PublicNationShard::GovtPriority => "GovtPriority"@,
        PublicNationShard::Happenings => "Happenings"@,
        PublicNationShard::Income => "Income"@,
        PublicNationShard::IndustryDesc => "IndustryDesc"@,
        PublicNationShard::Influence => "Influence"@,
        PublicNationShard::LastActivity => "LastActivity"@,
        PublicNationShard::LastLogin => "LastLogin"@,
        PublicNationShard::Leader => "customleader"@,
        PublicNationShard::Legislation => "Legislation"@,
        PublicNationShard::MajorIndustry => "MajorIndustry"@,
        PublicNationShard::Motto => "Motto"@,
        PublicNationShard::Name => "Name"@,
        PublicNationShard::Notable => "Notable"@,
        PublicNationShard::Notables => "Notables"@,
        PublicNationShard::Policies => "Policies"@,
        PublicNationShard::Poorest => "Poorest"@,
        PublicNationShard::Population => "Population"@,
        PublicNationShard::PublicSector => "PublicSector"@,
        PublicNationShard::RCensus => "RCensus"@,
        PublicNationShard::Region => "Region"@,
        PublicNationShard::Religion => "customreligion"@,
        PublicNationShard::Richest => "Richest"@,
        PublicNationShard::SCVote => "SCVote"@,
        PublicNationShard::Sectors => "Sectors"@,
        PublicNationShard::Sensibilities => "Sensibilities"@,
        PublicNationShard::Tax => "Tax"@,
        PublicNationShard::TGCanRecruit { .. } => "TGCanRecruit"@,
        PublicNationShard::TGCanCampaign { .. } => "TGCanCampaign"@,
        PublicNationShard::Type => "Type"@,
        PublicNationShard::WA => "WA"@,
        PublicNationShard::WABadges => "WABadges"@,
        PublicNationShard::WCensus => "WCensus"@,
    }
}

/// The parameters that one shard adds to those already chosen.
pub open spec fn nation_shard_params(p: Pairs, s: PublicNationShard) -> Pairs {
    match s {
        PublicNationShard::Census(c) => census_params(p, c.scale_choice(), c.mode_choice()),
        PublicNationShard::TGCanRecruit { from } => with_optional_pair(p, "from"@, opt_view(from)),
        PublicNationShard::TGCanCampaign { from } => with_optional_pair(p, "from"@, opt_view(from)),
        _ => p,
    }
}

/// The parameters of a list of shards, added in order.
pub open spec fn nation_params(shards: Seq<PublicNationShard>) -> Pairs
    decreases shards.len(),
{
    if shards.len() == 0 {
        Seq::empty()
    } else {
        nation_shard_params(nation_params(shards.drop_last()), shards.last())
    }
}

/// A telegram shard sends the region it asks about as the `from` parameter, whichever of the
/// two telegram kinds it is; without a region the earlier `from` value is kept, and no other
/// parameter changes.
pub proof fn lemma_telegram_shard_sends_from(p: Pairs, s: PublicNationShard)
    requires
        keys_unique(p),
        s is TGCanRecruit || s is TGCanCampaign,
    ensures
        keys_unique(nation_shard_params(p, s)),
        value_of(nation_shard_params(p, s), "from"@) == (match s {
            PublicNationShard::TGCanRecruit { from: Some(f) } => Some(f@),
            PublicNationShard::TGCanCampaign { from: Some(f) } => Some(f@),
            _ => value_of(p, "from"@),
        }),
        forall|k: Seq<char>| k != "from"@ ==> #[trigger] value_of(nation_shard_params(p, s), k)
            == value_of(p, k),
{
    match s {
        PublicNationShard::TGCanRecruit { from } => lemma_optional_then_get(p, "from"@, opt_view(from)),
        PublicNationShard::TGCanCampaign { from } => lemma_optional_then_get(p, "from"@, opt_view(from)),
        _ => {},
    }
}

/// A request with a single telegram shard sends exactly the shard's region as `from`, and
/// nothing when the shard names no region.
pub proof fn lemma_telegram_request_from(s: PublicNationShard)
    requires
        s is TGCanRecruit || s is TGCanCampaign,
    ensures
        value_of(nation_params(seq![s]), "from"@) == (match s {
            PublicNationShard::TGCanRecruit { from: Some(f) } => Some(f@),
            PublicNationShard::TGCanCampaign { from: Some(f) } => Some(f@),
            _ => None,
        }),
{
    let e = Seq::<(Seq<char>, Seq<char>)>::empty();
    assert(seq![s].drop_last() =~= Seq::<PublicNationShard>::empty());
    assert(seq![s].last() == s);
    assert(nation_params(Seq::<PublicNationShard>::empty()) == e);
    assert(nation_params(seq![s]) == nation_shard_params(e, s));
    lemma_telegram_shard_sends_from(e, s);
}

/// The names of a list of shards.
pub open spec fn nation_shard_names(shards: Seq<PublicNationShard>) -> Seq<Seq<char>> {
    shards.map_values(|s: PublicNationShard| nation_shard_name(s))
}

/// The URL of a request for `nation` with `shards`.
pub open spec fn nation_request_url(nation: Seq<char>, shards: Seq<PublicNationShard>) -> Seq<char> {
    request_url(
        with_front_pair(
            with_front_pair(nation_params(shards), "q"@, query_of(nation_shard_names(shards))),
            "nation"@,
            nation,
        ),
    )
}

impl<'a> PublicNationShard<'a> {
    /// The name of the shard (`customcapital`, `customleader` and `customreligion` for the
    /// capital, leader and religion).
    pub fn as_ref(&self) -> (r: &'static str)
        ensures
            r@ == nation_shard_name(*self),
    {
        match self {
            PublicNationShard::Admirable => "Admirable",
            PublicNationShard::Admirables => "Admirables",
            PublicNationShard::Animal => "Animal",
            PublicNationShard::AnimalTrait => "AnimalTrait",
            PublicNationShard::Answered => "Answered",
            PublicNationShard::Banner => "Banner",
            PublicNationShard::Banners => "Banners",
            PublicNationShard::Capital => "customcapital",
            PublicNationShard::Category => "Category",
            PublicNationShard::Census(_) => "Census",
            PublicNationShard::Crime => "Crime",
            PublicNationShard::Currency => "Currency",
            PublicNationShard::DbId => "DbId",
            PublicNationShard::Deaths => "Deaths",
            PublicNationShard::Demonym => "Demonym",
            PublicNationShard::Demonym2 => "Demonym2",
            PublicNationShard::Demonym2Plural => "Demonym2Plural",
            PublicNationShard::Dispatches => "Dispatches",
            PublicNationShard::DispatchList => "DispatchList",
            PublicNationShard::Endorsements => "Endorsements",
            PublicNationShard::Factbooks => "Factbooks",
            PublicNationShard::FactbookList => "FactbookList",
            PublicNationShard::FirstLogin => "FirstLogin",
            PublicNationShard::Flag => "Flag",
            PublicNationShard::Founded => "Founded",
            PublicNationShard::FoundedTime => "FoundedTime",
            PublicNationShard::Freedom => "Freedom",
            PublicNationShard::FreedomScores => "FreedomScores",
            PublicNationShard::FullName => "FullName",
            PublicNationShard::GAVote => "GAVote",
            PublicNationShard::Gdp => "Gdp",
            PublicNationShard::Govt => "Govt",
            PublicNationShard::GovtDesc => "GovtDesc",
            PublicNationShard::GovtPriority => "GovtPriority",
            PublicNationShard::Happenings => "Happenings",
            PublicNationShard::Income => "Income",
            PublicNationShard::IndustryDesc => "IndustryDesc",
            PublicNationShard::Influence => "Influence",
            PublicNationShard::LastActivity => "LastActivity",
            PublicNationShard::LastLogin => "LastLogin",
            PublicNationShard::Leader => "customleader",
            PublicNationShard::Legislation => "Legislation",
            PublicNationShard::MajorIndustry => "MajorIndustry",
            PublicNationShard::Motto => "Motto",
            PublicNationShard::Name => "Name",
            PublicNationShard::Notable => "Notable",
            PublicNationShard::Notables => "Notables",
            PublicNationShard::Policies => "Policies",
            PublicNationShard::Poorest => "Poorest",
            PublicNationShard::Population => "Population",
            PublicNationShard::PublicSector => "PublicSector",
            PublicNationShard::RCensus => "RCensus",
            PublicNationShard::Region => "Region",
            PublicNationShard::Religion => "customreligion",
            PublicNationShard::Richest => "Richest",
            PublicNationShard::SCVote => "SCVote",
            PublicNationShard::Sectors => "Sectors",
            PublicNationShard::Sensibilities => "Sensibilities",
            PublicNationShard::Tax => "Tax",
            PublicNationShard::TGCanRecruit { .. } => "TGCanRecruit",
            PublicNationShard::TGCanCampaign { .. } => "TGCanCampaign",
            PublicNationShard::Type => "Type",
            PublicNationShard::WA => "WA",
            PublicNationShard::WABadges => "WABadges",
            PublicNationShard::WCensus => "WCensus",
        }
    }

    /// Adds the parameters this shard needs.
    pub fn add_params(&self, params: &mut Params)
        ensures
            final(params)@ == nation_shard_params(old(params)@, *self),
    {
        match self {
            PublicNationShard::Census(c) => {
                params.insert_scale(&c.scale).insert_modes(&c.modes);
            },
            PublicNationShard::TGCanRecruit { from } => {
                let f = opt_owned(*from);
                params.insert_on("from", &f);
            },
            PublicNationShard::TGCanCampaign { from } => {
                let f = opt_owned(*from);
                params.insert_on("from", &f);
            },
            _ => {},
        }
    }
}

/// A request of the public nation API.
#[derive(Clone, Debug, Default, PartialEq)]
pub struct PublicNationRequest<'a> {
    nation: Option<&'a str>,
    shards: Vec<PublicNationShard<'a>>,
}

impl<'a> PublicNationRequest<'a> {
    /// The nation asked about, if one was given.
    pub closed spec fn nation_name(self) -> Option<&'a str> {
        self.nation
    }

    /// The shards asked for, in order.
    pub closed spec fn shard_list(self) -> Seq<PublicNationShard<'a>> {
        self.shards@
    }

    /// Creates a new builder given a nation name.
    ///
    /// If you do not modify the shards on this request,
    /// you will get a default response using the "standard public nation API shard set".
    pub fn new(nation: &'a str) -> (r: Self)
        ensures
            r.nation_name() == Some(nation),
            r.shard_list() == Seq::<PublicNationShard<'a>>::empty(),
    {
        Self { nation: Some(nation), shards: Vec::new() }
    }

    /// Create a new request.
    pub fn new_with_shards(nation: &'a str, shards: Vec<PublicNationShard<'a>>) -> (r: Self)
        ensures
            r.nation_name() == Some(nation),
            r.shard_list() == shards@,
    {
        Self { nation: Some(nation), shards }
    }

    /// Creates a new builder given shards but no nation name.
    ///
    /// Warning: a nation name must be provided before building!
    pub fn with_shards(shards: Vec<PublicNationShard<'a>>) -> (r: Self)
        ensures
            r.nation_name() == None::<&'a str>,
            r.shard_list() == shards@,
    {
        Self { nation: None, shards }
    }

    /// Sets the nation for the request.
    pub fn nation(&mut self, nation: &'a str) -> (r: &mut Self)
        ensures
            r.nation_name() == Some(nation),
            r.shard_list() == old(self).shard_list(),
            *final(self) == *final(r),
    {
        self.nation = Some(nation);
        self
    }

    /// Modify shards using a function: the shards afterwards are those the function leaves.
    pub fn shards<F>(&mut self, f: F) -> (r: &mut Self)
        where
            F: FnOnce(&mut Vec<PublicNationShard<'a>>),
        requires
            forall|v: &mut Vec<PublicNationShard<'a>>| f.requires((v,)),
        ensures
            r.nation_name() == old(self).nation_name(),
            exists|v: &mut Vec<PublicNationShard<'a>>|
                mut_ref_current(v)@ == old(self).shard_list() && #[trigger] f.ensures((v,), ())
                    && mut_ref_future(v)@ == r.shard_list(),
            *final(self) == *final(r),
    {
        f(&mut self.shards);
        self
    }

    /// Add a shard.
    pub fn add_shard(&mut self, shard: PublicNationShard<'a>) -> (r: &mut Self)
        ensures
            r.nation_name() == old(self).nation_name(),
            r.shard_list() == old(self).shard_list().push(shard),
            *final(self) == *final(r),
    {
        self.shards.push(shard);
        self
    }

    /// Add multiple shards, in order.
    pub fn add_shards(&mut self, shards: Vec<PublicNationShard<'a>>) -> (r: &mut Self)
        ensures
            r.nation_name() == old(self).nation_name(),
            r.shard_list() == old(self).shard_list() + shards@,
            *final(self) == *final(r),
    {
        let mut more = shards;
        self.shards.append(&mut more);
        self
    }

    /// The nation asked about, if one was given.
    pub fn nation_value(&self) -> (r: Option<&'a str>)
        ensures
            r == self.nation_name(),
    {
        self.nation
    }

    /// The shards asked for, in order.
    pub fn shard_values(&self) -> (r: &Vec<PublicNationShard<'a>>)
        ensures
            r@ == self.shard_list(),
    {
        &self.shards
    }

    /// The query parameters of this request, in order, before the nation and the query are
    /// put first.
    pub fn shard_params(&self) -> (r: Params)
        ensures
            r@ == nation_params(self.shard_list()),
    {
        let mut params = Params::new();
        let mut i: usize = 0;
        while i < self.shards.len()
            invariant
                i <= self.shards@.len(),
                params@ == nation_params(self.shards@.take(i as int)),
            decreases self.shards.len() - i,
        {
            assert(self.shards@.take(i + 1).drop_last() =~= self.shards@.take(i as int));
            self.shards[i].add_params(&mut params);
            i = i + 1;
        }
        assert(self.shards@.take(i as int) =~= self.shards@);
        params
    }

    /// The shard names of this request, in order.
    fn names(&self) -> (r: Vec<String>)
        ensures
            r.deep_view() == nation_shard_names(self.shard_list()),
    {
        let mut r: Vec<String> = Vec::new();
        let mut i: usize = 0;
        while i < self.shards.len()
            invariant
                i <= self.shards@.len(),
                r.deep_view() == nation_shard_names(self.shards@.take(i as int)),
            decreases self.shards.len() - i,
        {
            let name = owned(self.shards[i].as_ref());
            let ghost before = r.deep_view();
            r.push(name);
            assert(r.deep_view() =~= before.push(name@));
            assert(nation_shard_names(self.shards@.take(i + 1)) =~= nation_shard_names(
                self.shards@.take(i as int),
            ).push(name@));
            i = i + 1;
        }
        assert(self.shards@.take(i as int) =~= self.shards@);
        r
    }
}

impl<'a> NSRequest for PublicNationRequest<'a> {
    fn as_url(&self) -> (r: Result<String, RequestBuildError>)
        ensures
            match self.nation_name() {
                Some(n) => r matches Ok(u) && u@ == nation_request_url(n@, self.shard_list()),
                None => r == Err::<String, RequestBuildError>(RequestBuildError::MissingParam("nation")),
            },
    {
        match self.nation {
            Some(n) => {
                let query = query_from_names(&self.names());
                let mut params = self.shard_params();
                params.insert_front("q", query.as_str()).insert_front("nation", n);
                Ok(url_with_params(&params))
            },
            None => Err(RequestBuildError::MissingParam("nation")),
        }
    }
}

/// A "standard" public nation API request: NationStates answers with its standard set of
/// nation shards.
pub struct StandardPublicNationRequest<'a>(&'a str);

impl<'a> StandardPublicNationRequest<'a> {
    /// The nation asked about.
    pub closed spec fn nation_name(self) -> &'a str {
        self.0
    }

    /// Create a new standard public nation request of the provided nation.
    pub fn new(nation: &'a str) -> (r: Self)
        ensures
            r.nation_name() == nation,
    {
        Self(nation)
    }
}

impl<'a> NSRequest for StandardPublicNationRequest<'a> {
    fn as_url(&self) -> (r: Result<String, RequestBuildError>)
        ensures
            r matches Ok(u) && u@ == request_url(seq![("nation"@, self.nation_name()@)]),
    {
        let mut params = Params::new();
        params.insert("nation", self.0);
        Ok(url_with_params(&params))
    }
}

} // verus!
