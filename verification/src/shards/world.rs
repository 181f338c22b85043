//! For world shard requests.

use vstd::prelude::*;
use crate::models::dispatch::{category_text, DispatchCategory};
use crate::parsers::nation::BannerId;
use crate::shards::region::{tag_name, Tag};
use crate::shards::{
    census_params, keys_unique, lemma_optional_then_get, opt_decimal, query_from_names, query_of,
    rank_params, request_url, url_with_params, value_of, with_front_pair, with_optional_pair,
    with_pair, CensusRanksShard, CensusShard, NSRequest, Pairs, Params, RequestBuildError,
};
use crate::text::{
    ascii_lower, decimal, join, joined, owned, push_str, to_ascii_lowercase, u64_to_string,
};

verus! {

/// A request for the wide world of NationStates.
#[derive(Clone, Debug, PartialEq)]
pub enum WorldShard<'a> {
    /// Provides the name of a banner given its ID, as well as the necessary conditions to unlock it.
    Banner(Vec<BannerId>),
    /// By default, returns the score, rank, and region rank on today's featured World Census scale.
    /// Can be optionally configured with additional parameters.
    ///
    /// Parallels [`PublicNationShard::Census`][crate::shards::nation::PublicNationShard::Census].
    Census(CensusShard<'a>),
    /// Today's featured census scale.
    CensusId,
    /// Provides the description of a given census scale if `Some(id)`
    /// or of today's featured census scale if `None`.
    CensusDesc(Option<u8>),
    /// Provides the name of a given census scale if `Some(id)`
    /// or of today's featured census scale if `None`.
    CensusName(Option<u8>),
    /// Provides 20 nations and their world census scale ranking.
    ///
    /// Parallels [`RegionShard::CensusRanks`][crate::shards::region::RegionShard::CensusRanks].
    CensusRanks(CensusRanksShard),
    /// Provides the units of a given census scale if `Some(id)`
    /// or of today's featured census scale if `None`.
    CensusScale(Option<u8>),
    /// Provides the index that nations are ranked on for a given census scale if `Some(id)`,
    /// or for today's featured census scale if `None`.
    CensusTitle(Option<u8>),
    /// Gets a dispatch with a specific ID.
    Dispatch(u32),
    /// Lists 20 dispatches. The fields can provide more control.
    DispatchList {
        /// If `Some(nation)`, then search only for dispatches written by `nation`.
        author: Option<&'a str>,
        /// If `Some(category)`, then search only for dispatches that have a certain category.
        category: Option<DispatchCategory>,
        /// If `Some(sort)`, then sort, according to the dispatch sorting rules.
        sort: Option<DispatchSort>,
    },
    /// Gets the featured region on the website, which updates daily.
    FeaturedRegion,
    /// Lists the 100 most recent events. The fields can provide more control.
    Happenings {
        /// Only get events from a certain nation or region.
        view: Option<HappeningsViewType>,
        /// Only get events of a certain type.
        filter: Option<Vec<HappeningsFilterType>>,
        /// Limit the number of events. NOTE: the limit can’t be less than 100.
        limit: Option<u8>,
        /// Filters events to only those after a certain event ID.
        ///
        /// NOTE:
        /// if the ID was issued more than 100 events ago,
        /// only the 100 most recent events will be provided.
        since_id: Option<u32>,
        /// Filters events to only those before a certain event ID.
        ///
        /// NOTE:
        /// if the ID was issued more than 100 events ago, no events will be provided.
        before_id: Option<u32>,
        /// Filters events to only those after a certain timestamp.
        ///
        /// NOTE: If more than 100 events have occurred since this timestamp,
        /// only the 100 most recent events will be provided.
        since_time: Option<u64>,
        /// Filters events to only those before a certain timestamp.
        ///
        /// NOTE:
        /// if more than 100 events have occurred since this timestamp, no events will be provided.
        before_time: Option<u64>,
    },
    /// The most recently issued event ID.
    LastEventId,
    /// List of every nation in the game right now.
    /// WARNING:
    /// There are nearly 300 thousand nations currently on NationStates (as of 20 June 2023),
    /// over 8.6 million nations have been created on the site,
    /// and in April 2020 there was an all-time high of 600 thousand nations in the game.
    /// Be very careful.
    Nations,
    /// The 50 most recently created nations.
    NewNations,
    /// The number of nations currently in the game.
    NumNations,
    /// The number of regions currently in the game.
    NumRegions,
    /// Get a poll with a specific poll ID.
    Poll(u32),
    /// List of every region in the game right now.
    /// WARNING:
    /// There are nearly 30,000 regions currently on NationStates (as of 20 June 2023),
    /// and there have been times when there are even more.
    /// Be careful when requesting this!
    Regions,
    /// List of regions which do have some tags and don't have others.
    RegionsByTag(Vec<IncludeOrExcludeTag>),
    /// The number of manual, mass, and API telegrams in the queue.
    TGQueue,
}

/// The name of a world shard as the query writes it (before lowercasing).
pub open spec fn world_shard_name(s: WorldShard) -> Seq<char> {
    match s {
        WorldShard::Banner(_) => "Banner"@,
        WorldShard::Census(_) => "Census"@,
        WorldShard::CensusId => "CensusId"@,
        WorldShard::CensusDesc(_) => "CensusDesc"@,
        WorldShard::CensusName(_) => "CensusName"@,
        WorldShard::CensusRanks(_) => "CensusRanks"@,
        WorldShard::CensusScale(_) => "CensusScale"@,
        WorldShard::CensusTitle(_) => "CensusTitle"@,
        WorldShard::Dispatch(_) => "Dispatch"@,
        WorldShard::DispatchList { .. } => "DispatchList"@,
        WorldShard::FeaturedRegion => "FeaturedRegion"@,
        WorldShard::Happenings { .. } => "Happenings"@,
        WorldShard::LastEventId => "LastEventId"@,
        WorldShard::Nations => "Nations"@,
        WorldShard::NewNations => "NewNations"@,
        WorldShard::NumNations => "NumNations"@,
        WorldShard::NumRegions => "NumRegions"@,
        WorldShard::Poll(_) => "Poll"@,
        WorldShard::Regions => "Regions"@,
        WorldShard::RegionsByTag(_) => "RegionsByTag"@,
        WorldShard::TGQueue => "TGQueue"@,
    }
}

/// The ways to sort dispatches.
#[derive(Clone, Copy, Debug, PartialEq, Eq, Structural)]
pub enum DispatchSort {
    /// Newest first.
    New,
    /// Highest-rated first.
    Best,
}

/// How a sort order is written.
pub open spec fn sort_name(s: DispatchSort) -> Seq<char> {
    match s {
        DispatchSort::New => "New"@,
        DispatchSort::Best => "Best"@,
    }
}

impl DispatchSort {
    /// How the sort order is written.
    pub fn as_str(&self) -> (r: &'static str)
        ensures
            r@ == sort_name(*self),
    {
        match self {
            DispatchSort::New => "New",
            DispatchSort::Best => "Best",
        }
    }
}

/// The happenings shard can either target nations or regions.
#[derive(Clone, Debug, PartialEq)]
pub enum HappeningsViewType {
    /// Targets one nation.
    OneNation(String),
    /// Targets one or more nations.
    ManyNations(Vec<String>),
    /// Targets one region.
    OneRegion(String),
    /// Targets more than one region.
    ManyRegions(Vec<String>),
}

/// The kind of target, as written before the dot.
pub open spec fn view_kind(v: HappeningsViewType) -> Seq<char> {
    match v {
        HappeningsViewType::OneNation(_) => "OneNation"@,
        HappeningsViewType::ManyNations(_) => "ManyNations"@,
        HappeningsViewType::OneRegion(_) => "OneRegion"@,
        HappeningsViewType::ManyRegions(_) => "ManyRegions"@,
    }
}

/// The targets, as written after the dot (before lowercasing).
pub open spec fn view_targets(v: HappeningsViewType) -> Seq<char> {
    match v {
        HappeningsViewType::OneNation(e) => e@,
        HappeningsViewType::ManyNations(es) => joined(es.deep_view(), ","@),
        HappeningsViewType::OneRegion(e) => e@,
        HappeningsViewType::ManyRegions(es) => joined(es.deep_view(), ","@),
    }
}

/// How a view is written: `kind.targets`, all in ASCII lowercase.
pub open spec fn view_text(v: HappeningsViewType) -> Seq<char> {
    ascii_lower(view_kind(v)) + "."@ + ascii_lower(view_targets(v))
}

fn copy_strings(v: &Vec<String>) -> (r: Vec<String>)
    ensures
        r.deep_view() == v.deep_view(),
{
    let mut r: Vec<String> = Vec::new();
    let mut i: usize = 0;
    while i < v.len()
        invariant
            i <= v.len(),
            r.deep_view() == v.deep_view().take(i as int),
        decreases v.len() - i,
    {
        let s = v[i].clone();
        let ghost before = r.deep_view();
        r.push(s);
        assert(r.deep_view() =~= before.push(s@));
        assert(v.deep_view().take(i + 1) =~= v.deep_view().take(i as int).push(v[i as int]@));
        i = i + 1;
    }
    assert(v.deep_view().take(i as int) =~= v.deep_view());
    r
}

/// Whether two views target the same kind and the same texts.
pub open spec fn same_view(a: HappeningsViewType, b: HappeningsViewType) -> bool {
    &&& view_kind(a) == view_kind(b)
    &&& match (a, b) {
        (HappeningsViewType::OneNation(x), HappeningsViewType::OneNation(y)) => x@ == y@,
        (HappeningsViewType::OneRegion(x), HappeningsViewType::OneRegion(y)) => x@ == y@,
        (HappeningsViewType::ManyNations(x), HappeningsViewType::ManyNations(y)) => x.deep_view() == y.deep_view(),
        (HappeningsViewType::ManyRegions(x), HappeningsViewType::ManyRegions(y)) => x.deep_view() == y.deep_view(),
        _ => false,
    }
}

impl HappeningsViewType {
    /// The kind of target.
    pub fn kind(&self) -> (r: &'static str)
        ensures
            r@ == view_kind(*self),
    {
        match self {
            HappeningsViewType::OneNation(_) => "OneNation",
            HappeningsViewType::ManyNations(_) => "ManyNations",
            HappeningsViewType::OneRegion(_) => "OneRegion",
            HappeningsViewType::ManyRegions(_) => "ManyRegions",
        }
    }

    /// A copy of the view.
    pub fn duplicate(&self) -> (r: Self)
        ensures
            same_view(r, *self),
            view_text(r) == view_text(*self),
    {
        match self {
            HappeningsViewType::OneNation(e) => HappeningsViewType::OneNation(e.clone()),
            HappeningsViewType::ManyNations(es) => HappeningsViewType::ManyNations(copy_strings(es)),
            HappeningsViewType::OneRegion(e) => HappeningsViewType::OneRegion(e.clone()),
            HappeningsViewType::ManyRegions(es) => HappeningsViewType::ManyRegions(copy_strings(es)),
        }
    }

    /// How the view is written in a query.
    pub fn to_string(&self) -> (r: String)
        ensures
            r@ == view_text(*self),
    {
        let mut r = to_ascii_lowercase(self.kind());
        push_str(&mut r, ".");
        let targets = match self {
            HappeningsViewType::OneNation(e) => e.clone(),
            HappeningsViewType::ManyNations(es) => join(es, ","),
            HappeningsViewType::OneRegion(e) => e.clone(),
            HappeningsViewType::ManyRegions(es) => join(es, ","),
        };
        let lower = to_ascii_lowercase(targets.as_str());
        push_str(&mut r, lower.as_str());
        r
    }
}

/// The happenings shard can target multiple kinds of events.
#[derive(Clone, Copy, Debug, PartialEq, Eq, Structural)]
#[non_exhaustive]
pub enum HappeningsFilterType {
    /// Triggered by answering an issue (dismissing the issue results in no event).
    /// Follows the form "Following new legislation in NATION, \[joke about new policy]."
    Law,
    /// This category includes multiple events,
    /// such as nations being reclassified due to their responses to issues,
    /// altering of national flags and other custom fields, and creating custom banners.
    Change,
    /// Announces the publishing of a dispatch.
    /// Follows the form "NATION published "Dispatch Title" (Category: Subcategory)."
    Dispatch,
    /// A nation posted on a regional message board.
    /// Follows the form "NATION lodged a message on the REGION regional message board."
    Rmb,
    /// Has to do with embassies between regions:
    /// proposing construction, agreeing to construction,
    /// rejecting requests, aborting construction, ordering closure,
    /// cancelling closure, establishment, and cancellation.
    Embassy,
    /// Has to do with the ejection or ejection + ban ("banjection") of a nation from a region.
    /// Follows the form "NATION was ejected (and banned) from REGION by OTHER_NATION."
    Eject,
    /// Has to do with all administrative actions done in a region,
    /// such as banning nations, updating regional tags,
    /// updating the World Factbook Entry,
    /// appointing and dismissing regional officers,
    /// etc. It is also where WA rule-violators get ejected from the WA.
    Admin,
    /// A nation moving from one region to another.
    /// Follows the form "NATION relocated from REGION1 to REGION2."
    Move,
    /// A nation is founded.
    /// Note that if a nation is being revived, it is called a "refound".
    /// Follows the form "NATION was (re)founded in FEEDER/FRONTIER REGION
    Founding,
    /// A nation ceases to exist if it has not been logged in to for the past 28 days.
    /// If you enable "vacation mode" on your nation, it will cease to exist after 60 days.
    /// All CTEs happen at updates, except for when a nation is deleted by moderators.
    /// Follows the form "NATION ceased to exist in REGION."
    Cte,
    /// A nation casts a vote or withdraws its vote in the World Assembly.
    Vote,
    /// A World Assembly proposal is submitted, approved, withdrawn, or it fails to reach quorum.
    Resolution,
    /// A nation applies to, is admitted to, or resigns from the World Assembly.
    Member,
    /// A nation in the World Assembly endorses another nation in the World Assembly.
    /// Be aware that nations can only endorse other nations in the same region.
    /// Follows the form "NATION1 endorsed NATION2."
    Endo,
}

/// How a filter is written.
pub open spec fn filter_name(f: HappeningsFilterType) -> Seq<char> {
    match f {
        HappeningsFilterType::Law => "law"@,
        HappeningsFilterType::Change => "change"@,
        HappeningsFilterType::Dispatch => "dispatch"@,
        HappeningsFilterType::Rmb => "rmb"@,
        HappeningsFilterType::Embassy => "embassy"@,
        HappeningsFilterType::Eject => "eject"@,
        HappeningsFilterType::Admin => "admin"@,
        HappeningsFilterType::Move => "move"@,
        HappeningsFilterType::Founding => "founding"@,
        HappeningsFilterType::Cte => "cte"@,
        HappeningsFilterType::Vote => "vote"@,
        HappeningsFilterType::Resolution => "resolution"@,
        HappeningsFilterType::Member => "member"@,
        HappeningsFilterType::Endo => "endo"@,
    }
}

impl HappeningsFilterType {
    /// How the filter is written.
    pub fn as_str(&self) -> (r: &'static str)
        ensures
            r@ == filter_name(*self),
    {
        match self {
            HappeningsFilterType::Law => "law",
            HappeningsFilterType::Change => "change",
            HappeningsFilterType::Dispatch => "dispatch",
            HappeningsFilterType::Rmb => "rmb",
            HappeningsFilterType::Embassy => "embassy",
            HappeningsFilterType::Eject => "eject",
            HappeningsFilterType::Admin => "admin",
            HappeningsFilterType::Move => "move",
            HappeningsFilterType::Founding => "founding",
            HappeningsFilterType::Cte => "cte",
            HappeningsFilterType::Vote => "vote",
            HappeningsFilterType::Resolution => "resolution",
            HappeningsFilterType::Member => "member",
            HappeningsFilterType::Endo => "endo",
        }
    }
}

/// When searching regions by tag, you can do it by including certain tags and excluding others.
#[derive(Clone, Copy, Debug, PartialEq, Eq, Structural)]
pub enum IncludeOrExcludeTag {
    /// Include this tag.
    Include(Tag),
    /// Exclude this tag.
    Exclude(Tag),
}

/// How a tag choice is written: the tag name, after a `-` when it is excluded.
pub open spec fn tag_choice_text(t: IncludeOrExcludeTag) -> Seq<char> {
    match t {
        IncludeOrExcludeTag::Include(tag) => ascii_lower(tag_name(tag)),
        IncludeOrExcludeTag::Exclude(tag) => "-"@ + ascii_lower(tag_name(tag)),
    }
}

impl IncludeOrExcludeTag {
    /// How the tag choice is written.
    pub fn to_string(&self) -> (r: String)
        ensures
            r@ == tag_choice_text(*self),
    {
        match self {
            IncludeOrExcludeTag::Include(tag) => to_ascii_lowercase(tag.as_str()),
            IncludeOrExcludeTag::Exclude(tag) => {
                let mut r = owned("-");
                let lower = to_ascii_lowercase(tag.as_str());
                push_str(&mut r, lower.as_str());
                r
            },
        }
    }
}

/// The texts of some banners.
pub open spec fn banner_texts(bs: Seq<BannerId>) -> Seq<Seq<char>> {
    bs.map_values(|b: BannerId| b.0@)
}

/// The texts of some filters.
pub open spec fn filter_texts(fs: Seq<HappeningsFilterType>) -> Seq<Seq<char>> {
    fs.map_values(|f: HappeningsFilterType| filter_name(f))
}

/// The texts of some tag choices.
pub open spec fn tag_choice_texts(ts: Seq<IncludeOrExcludeTag>) -> Seq<Seq<char>> {
    ts.map_values(|t: IncludeOrExcludeTag| tag_choice_text(t))
}

/// An optional text from an optional value and a way to write it.
pub open spec fn opt_u8(x: Option<u8>) -> Option<Seq<char>> {
    match x {
        Some(n) => Some(decimal(n as nat)),
        None => None,
    }
}

/// The optional `u32` written in decimal.
pub open spec fn opt_u32(x: Option<u32>) -> Option<Seq<char>> {
    match x {
        Some(n) => Some(decimal(n as nat)),
        None => None,
    }
}

/// The parameters that one world shard adds to those already chosen.
pub open spec fn world_shard_params(p: Pairs, s: WorldShard) -> Pairs {
    match s {
        WorldShard::Banner(bs) => with_pair(p, "banner"@, joined(banner_texts(bs@), ","@)),
        WorldShard::Census(c) => census_params(p, c.scale_choice(), c.mode_choice()),
        WorldShard::CensusDesc(scale) => with_optional_pair(p, "scale"@, opt_u8(scale)),
        WorldShard::CensusScale(scale) => with_optional_pair(p, "scale"@, opt_u8(scale)),
        WorldShard::CensusName(scale) => with_optional_pair(p, "scale"@, opt_u8(scale)),
        WorldShard::CensusTitle(scale) => with_optional_pair(p, "scale"@, opt_u8(scale)),
        WorldShard::CensusRanks(c) => rank_params(p, c.scale_code(), c.start_rank()),
        WorldShard::Dispatch(id) => with_pair(p, "dispatchid"@, decimal(id as nat)),
        WorldShard::DispatchList { author, category, sort } => with_optional_pair(
            with_optional_pair(
                with_optional_pair(
                    p,
                    "dispatchauthor"@,
                    match author {
                        Some(a) => Some(a@),
                        None => None,
                    },
                ),
                "dispatchcategory"@,
                match category {
                    Some(c) => Some(category_text(c)),
                    None => None,
                },
            ),
            "dispatchsort"@,
            match sort {
                Some(x) => Some(sort_name(x)),
                None => None,
            },
        ),
        WorldShard::Happenings {
            view,
            filter,
            limit,
            since_id,
            before_id,
            since_time,
            before_time,
        } => with_optional_pair(
            with_optional_pair(
                with_optional_pair(
                    with_optional_pair(
                        with_optional_pair(
                            with_optional_pair(
                                with_optional_pair(
                                    p,
                                    "view"@,
                                    match view {
                                        Some(v) => Some(view_text(v)),
                                        None => None,
                                    },
                                ),
                                "filter"@,
                                match filter {
                                    Some(fs) => Some(joined(filter_texts(fs@), "+"@)),
                                    None => None,
                                },
                            ),
                            "limit"@,
                            opt_u8(limit),
                        ),
                        "sinceid"@,
                        opt_u32(since_id),
                    ),
                    "beforeid"@,
                    opt_u32(before_id),
                ),
                "sincetime"@,
                opt_decimal(since_time),
            ),
            "beforetime"@,
            opt_decimal(before_time),
        ),
        WorldShard::RegionsByTag(ts) => with_pair(p, "tags"@, joined(tag_choice_texts(ts@), ","@)),
        _ => p,
    }
}

/// The parameters of a list of world shards, added in order.
pub open spec fn world_params(shards: Seq<WorldShard>) -> Pairs
    decreases shards.len(),
{
    if shards.len() == 0 {
        Seq::empty()
    } else {
        world_shard_params(world_params(shards.drop_last()), shards.last())
    }
}

/// The value a happenings field gives its key: the field's decimal text when it is set, the
/// value the key had before otherwise.
pub open spec fn field_or_earlier(x: Option<u64>, earlier: Option<Seq<char>>) -> Option<Seq<char>> {
    match x {
        Some(n) => Some(decimal(n as nat)),
        None => earlier,
    }
}

/// Each field of a happenings shard is sent under its own key: `view` and `filter` carry the
/// texts of their own fields, and `limit`, `sinceid`, `beforeid`, `sincetime` and
/// `beforetime` the decimal text of their own field, when it is set; an unset field keeps the
/// earlier value of its key.
pub proof fn lemma_happenings_fields_keep_their_keys(p: Pairs, s: WorldShard)
    requires
        keys_unique(p),
        s is Happenings,
    ensures
        keys_unique(world_shard_params(p, s)),
        match s {
            WorldShard::Happenings { view, filter, limit, since_id, before_id, since_time, before_time } => {
                let q = world_shard_params(p, s);
                &&& value_of(q, "view"@) == match view {
                    Some(v) => Some(view_text(v)),
                    None => value_of(p, "view"@),
                }
                &&& value_of(q, "filter"@) == match filter {
                    Some(fs) => Some(joined(filter_texts(fs@), "+"@)),
                    None => value_of(p, "filter"@),
                }
                &&& value_of(q, "limit"@) == field_or_earlier(
                    match limit {
                        Some(n) => Some(n as u64),
                        None => None,
                    },
                    value_of(p, "limit"@),
                )
                &&& value_of(q, "sinceid"@) == field_or_earlier(
                    match since_id {
                        Some(n) => Some(n as u64),
                        None => None,
                    },
                    value_of(p, "sinceid"@),
                )
                &&& value_of(q, "beforeid"@) == field_or_earlier(
                    match before_id {
                        Some(n) => Some(n as u64),
                        None => None,
                    },
                    value_of(p, "beforeid"@),
                )
                &&& value_of(q, "sincetime"@) == field_or_earlier(since_time, value_of(p, "sincetime"@))
                &&& value_of(q, "beforetime"@) == field_or_earlier(
                    before_time,
                    value_of(p, "beforetime"@),
                )
            },
            _ => true,
        },
{
    reveal_strlit("view");
    reveal_strlit("filter");
    reveal_strlit("limit");
    reveal_strlit("sinceid");
    reveal_strlit("beforeid");
    reveal_strlit("sincetime");
    reveal_strlit("beforetime");
    assert("view"@.len() == 4 && "filter"@.len() == 6 && "limit"@.len() == 5);
    assert("sinceid"@.len() == 7 && "beforeid"@.len() == 8);
    assert("sincetime"@.len() == 9 && "beforetime"@.len() == 10);
    match s {
        WorldShard::Happenings { view, filter, limit, since_id, before_id, since_time, before_time } => {
            let v1 = match view {
                Some(v) => Some(view_text(v)),
                None => None,
            };
            let v2 = match filter {
                Some(fs) => Some(joined(filter_texts(fs@), "+"@)),
                None => None,
            };
            let q1 = with_optional_pair(p, "view"@, v1);
            lemma_optional_then_get(p, "view"@, v1);
            let q2 = with_optional_pair(q1, "filter"@, v2);
            lemma_optional_then_get(q1, "filter"@, v2);
            let q3 = with_optional_pair(q2, "limit"@, opt_u8(limit));
            lemma_optional_then_get(q2, "limit"@, opt_u8(limit));
            let q4 = with_optional_pair(q3, "sinceid"@, opt_u32(since_id));
            lemma_optional_then_get(q3, "sinceid"@, opt_u32(since_id));
            let q5 = with_optional_pair(q4, "beforeid"@, opt_u32(before_id));
            lemma_optional_then_get(q4, "beforeid"@, opt_u32(before_id));
            let q6 = with_optional_pair(q5, "sincetime"@, opt_decimal(since_time));
            lemma_optional_then_get(q5, "sincetime"@, opt_decimal(since_time));
            let q7 = with_optional_pair(q6, "beforetime"@, opt_decimal(before_time));
            lemma_optional_then_get(q6, "beforetime"@, opt_decimal(before_time));
            assert(q7 == world_shard_params(p, s));
            assert(value_of(q7, "view"@) == value_of(q1, "view"@));
            assert(value_of(q7, "filter"@) == value_of(q2, "filter"@));
            assert(value_of(q1, "limit"@) == value_of(p, "limit"@));
            assert(value_of(q2, "limit"@) == value_of(p, "limit"@));
            assert(value_of(q7, "limit"@) == value_of(q3, "limit"@));
            assert(value_of(q3, "sinceid"@) == value_of(p, "sinceid"@));
            assert(value_of(q7, "sinceid"@) == value_of(q4, "sinceid"@));
            assert(value_of(q4, "beforeid"@) == value_of(p, "beforeid"@));
            assert(value_of(q7, "beforeid"@) == value_of(q5, "beforeid"@));
            assert(value_of(q5, "sincetime"@) == value_of(p, "sincetime"@));
            assert(value_of(q7, "sincetime"@) == value_of(q6, "sincetime"@));
            assert(value_of(q6, "beforetime"@) == value_of(p, "beforetime"@));
        },
        _ => {},
    }
}

/// A world request with a single happenings shard asks for events before `before_id` under
/// `beforeid` and after `since_id` under `sinceid`, and sends neither key when the field is
/// unset.
pub proof fn lemma_happenings_request_ids(s: WorldShard)
    requires
        s is Happenings,
    ensures
        match s {
            WorldShard::Happenings { since_id, before_id, .. } => {
                &&& value_of(world_params(seq![s]), "beforeid"@) == match before_id {
                    Some(n) => Some(decimal(n as nat)),
                    None => None,
                }
                &&& value_of(world_params(seq![s]), "sinceid"@) == match since_id {
                    Some(n) => Some(decimal(n as nat)),
                    None => None,
                }
            },
            _ => true,
        },
{
    let e = Seq::<(Seq<char>, Seq<char>)>::empty();
    assert(seq![s].drop_last() =~= Seq::<WorldShard>::empty());
    assert(seq![s].last() == s);
    assert(world_params(Seq::<WorldShard>::empty()) == e);
    assert(world_params(seq![s]) == world_shard_params(e, s));
    lemma_happenings_fields_keep_their_keys(e, s);
}

/// The names of a list of world shards.
pub open spec fn world_shard_names(shards: Seq<WorldShard>) -> Seq<Seq<char>> {
    shards.map_values(|s: WorldShard| world_shard_name(s))
}

/// The URL of a world request with `shards`.
pub open spec fn world_request_url(shards: Seq<WorldShard>) -> Seq<char> {
    request_url(with_front_pair(world_params(shards), "q"@, query_of(world_shard_names(shards))))
}

fn opt_u8_string(x: Option<u8>) -> (r: Option<String>)
    ensures
        r.deep_view() == opt_u8(x),
{
    match x {
        Some(n) => Some(u64_to_string(n as u64)),
        None => None,
    }
}

fn opt_u32_string(x: Option<u32>) -> (r: Option<String>)
    ensures
        r.deep_view() == opt_u32(x),
{
    match x {
        Some(n) => Some(u64_to_string(n as u64)),
        None => None,
    }
}

fn opt_u64_string(x: Option<u64>) -> (r: Option<String>)
    ensures
        r.deep_view() == opt_decimal(x),
{
    match x {
        Some(n) => Some(u64_to_string(n)),
        None => None,
    }
}

fn banner_strings(bs: &Vec<BannerId>) -> (r: Vec<String>)
    ensures
        r.deep_view() == banner_texts(bs@),
{
    let mut r: Vec<String> = Vec::new();
    let mut i: usize = 0;
    while i < bs.len()
        invariant
            i <= bs.len(),
            r.deep_view() == banner_texts(bs@.take(i as int)),
        decreases bs.len() - i,
    {
        let s = bs[i].to_string();
        let ghost before = r.deep_view();
        r.push(s);
        assert(r.deep_view() =~= before.push(s@));
        assert(banner_texts(bs@.take(i + 1)) =~= banner_texts(bs@.take(i as int)).push(s@));
        i = i + 1;
    }
    assert(bs@.take(i as int) =~= bs@);
    r
}

fn filter_strings(fs: &Vec<HappeningsFilterType>) -> (r: Vec<String>)
    ensures
        r.deep_view() == filter_texts(fs@),
{
    let mut r: Vec<String> = Vec::new();
    let mut i: usize = 0;
    while i < fs.len()
        invariant
            i <= fs.len(),
            r.deep_view() == filter_texts(fs@.take(i as int)),
        decreases fs.len() - i,
    {
        let s = owned(fs[i].as_str());
        let ghost before = r.deep_view();
        r.push(s);
        assert(r.deep_view() =~= before.push(s@));
        assert(filter_texts(fs@.take(i + 1)) =~= filter_texts(fs@.take(i as int)).push(s@));
        i = i + 1;
    }
    assert(fs@.take(i as int) =~= fs@);
    r
}

fn tag_choice_strings(ts: &Vec<IncludeOrExcludeTag>) -> (r: Vec<String>)
    ensures
        r.deep_view() == tag_choice_texts(ts@),
{
    let mut r: Vec<String> = Vec::new();
    let mut i: usize = 0;
    while i < ts.len()
        invariant
            i <= ts.len(),
            r.deep_view() == tag_choice_texts(ts@.take(i as int)),
        decreases ts.len() - i,
    {
        let s = ts[i].to_string();
        let ghost before = r.deep_view();
        r.push(s);
        assert(r.deep_view() =~= before.push(s@));
        assert(tag_choice_texts(ts@.take(i + 1)) =~= tag_choice_texts(ts@.take(i as int)).push(
            s@,
        ));
        i = i + 1;
    }
    assert(ts@.take(i as int) =~= ts@);
    r
}

impl<'a> WorldShard<'a> {
    /// The name of the shard.
    pub fn as_ref(&self) -> (r: &'static str)
        ensures
            r@ == world_shard_name(*self),
    {
        match self {
            WorldShard::Banner(_) => "Banner",
            WorldShard::Census(_) => "Census",
            WorldShard::CensusId => "CensusId",
            WorldShard::CensusDesc(_) => "CensusDesc",
            WorldShard::CensusName(_) => "CensusName",
            WorldShard::CensusRanks(_) => "CensusRanks",
            WorldShard::CensusScale(_) => "CensusScale",
            WorldShard::CensusTitle(_) => "CensusTitle",
            WorldShard::Dispatch(_) => "Dispatch",
            WorldShard::DispatchList { .. } => "DispatchList",
            WorldShard::FeaturedRegion => "FeaturedRegion",
            WorldShard::Happenings { .. } => "Happenings",
            WorldShard::LastEventId => "LastEventId",
            WorldShard::Nations => "Nations",
            WorldShard::NewNations => "NewNations",
            WorldShard::NumNations => "NumNations",
            WorldShard::NumRegions => "NumRegions",
            WorldShard::Poll(_) => "Poll",
            WorldShard::Regions => "Regions",
            WorldShard::RegionsByTag(_) => "RegionsByTag",
            WorldShard::TGQueue => "TGQueue",
        }
    }

    /// Adds the parameters this shard needs.
    pub fn add_params(&self, params: &mut Params)
        ensures
            final(params)@ == world_shard_params(old(params)@, *self),
    {
        match self {
            WorldShard::Banner(bs) => {
                let texts = banner_strings(bs);
                let j = join(&texts, ",");
                params.insert("banner", j.as_str());
            },
            WorldShard::Census(c) => {
                params.insert_scale(&c.scale).insert_modes(&c.modes);
            },
            WorldShard::CensusDesc(scale) => {
                params.insert_on("scale", &opt_u8_string(*scale));
            },
            WorldShard::CensusScale(scale) => {
                params.insert_on("scale", &opt_u8_string(*scale));
            },
            WorldShard::CensusName(scale) => {
                params.insert_on("scale", &opt_u8_string(*scale));
            },
            WorldShard::CensusTitle(scale) => {
                params.insert_on("scale", &opt_u8_string(*scale));
            },
            WorldShard::CensusRanks(c) => {
                c.add_params(params);
            },
            WorldShard::Dispatch(id) => {
                let s = u64_to_string(*id as u64);
                params.insert("dispatchid", s.as_str());
            },
            WorldShard::DispatchList { author, category, sort } => {
                let a = match author {
                    Some(x) => Some(owned(x)),
                    None => None,
                };
                let c = match category {
                    Some(x) => Some(x.to_string()),
                    None => None,
                };
                let s = match sort {
                    Some(x) => Some(owned(x.as_str())),
                    None => None,
                };
                params.insert_on("dispatchauthor", &a).insert_on("dispatchcategory", &c).insert_on(
                    "dispatchsort",
                    &s,
                );
            },
            WorldShard::Happenings {
                view,
                filter,
                limit,
                since_id,
                before_id,
                since_time,
                before_time,
            } => {
                let v = match view {
                    Some(x) => Some(x.to_string()),
                    None => None,
                };
                let f = match filter {
                    Some(fs) => {
                        let texts = filter_strings(fs);
                        Some(join(&texts, "+"))
                    },
                    None => None,
                };
                params.insert_on("view", &v).insert_on("filter", &f).insert_on(
                    "limit",
                    &opt_u8_string(*limit),
                ).insert_on("sinceid", &opt_u32_string(*since_id)).insert_on(
                    "beforeid",
                    &opt_u32_string(*before_id),
                ).insert_on("sincetime", &opt_u64_string(*since_time)).insert_on(
                    "beforetime",
                    &opt_u64_string(*before_time),
                );
            },
            WorldShard::RegionsByTag(ts) => {
                let texts = tag_choice_strings(ts);
                let j = join(&texts, ",");
                params.insert("tags", j.as_str());
            },
            _ => {},
        }
    }
}

/// A request of the world API.
#[derive(Clone, Debug, Default, PartialEq)]
pub struct WorldRequest<'a>(Vec<WorldShard<'a>>);

impl<'a> WorldRequest<'a> {
    /// The shards asked for, in order.
    pub closed spec fn shard_list(self) -> Seq<WorldShard<'a>> {
        self.0@
    }

    /// Make an empty [`WorldRequest`].
    ///
    /// Please remember to actually modify this before you send it,
    /// as you will almost definitely get a `400 Bad Request` error from the API.
    pub fn new() -> (r: Self)
        ensures
            r.shard_list() == Seq::<WorldShard<'a>>::empty(),
    {
        Self(Vec::new())
    }

    /// A request for the given shards, in order.
    pub fn from(shards: Vec<WorldShard<'a>>) -> (r: Self)
        ensures
            r.shard_list() == shards@,
    {
        Self(shards)
    }

    /// Modify shards using a function: the shards afterwards are those the function leaves.
    pub fn shards<F>(&mut self, f: F) -> (r: &mut Self)
        where
            F: FnOnce(&mut Vec<WorldShard<'a>>),
        requires
            forall|v: &mut Vec<WorldShard<'a>>| f.requires((v,)),
        ensures
            exists|v: &mut Vec<WorldShard<'a>>|
                mut_ref_current(v)@ == old(self).shard_list() && #[trigger] f.ensures((v,), ())
                    && mut_ref_future(v)@ == r.shard_list(),
            *final(self) == *final(r),
    {
        f(&mut self.0);
        self
    }

    /// Add a shard.
    pub fn add_shard(&mut self, shard: WorldShard<'a>) -> (r: &mut Self)
        ensures
            r.shard_list() == old(self).shard_list().push(shard),
            *final(self) == *final(r),
    {
        self.0.push(shard);
        self
    }

    /// Add multiple shards, in order.
    pub fn add_shards(&mut self, shards: Vec<WorldShard<'a>>) -> (r: &mut Self)
        ensures
            r.shard_list() == old(self).shard_list() + shards@,
            *final(self) == *final(r),
    {
        let mut more = shards;
        self.0.append(&mut more);
        self
    }

    /// The query parameters of the shards, in order.
    pub fn shard_params(&self) -> (r: Params)
        ensures
            r@ == world_params(self.shard_list()),
    {
        let mut params = Params::new();
        let mut i: usize = 0;
        while i < self.0.len()
            invariant
                i <= self.0@.len(),
                params@ == world_params(self.0@.take(i as int)),
            decreases self.0.len() - i,
        {
            assert(self.0@.take(i + 1).drop_last() =~= self.0@.take(i as int));
            self.0[i].add_params(&mut params);
            i = i + 1;
        }
        assert(self.0@.take(i as int) =~= self.0@);
        params
    }

    fn names(&self) -> (r: Vec<String>)
        ensures
            r.deep_view() == world_shard_names(self.shard_list()),
    {
        let mut r: Vec<String> = Vec::new();
        let mut i: usize = 0;
        while i < self.0.len()
            invariant
                i <= self.0@.len(),
                r.deep_view() == world_shard_names(self.0@.take(i as int)),
            decreases self.0.len() - i,
        {
            let name = owned(self.0[i].as_ref());
            let ghost before = r.deep_view();
            r.push(name);
            assert(r.deep_view() =~= before.push(name@));
            assert(world_shard_names(self.0@.take(i + 1)) =~= world_shard_names(
                self.0@.take(i as int),
            ).push(name@));
            i = i + 1;
        }
        assert(self.0@.take(i as int) =~= self.0@);
        r
    }
}

impl<'a> NSRequest for WorldRequest<'a> {
    fn as_url(&self) -> (r: Result<String, RequestBuildError>)
        ensures
            r matches Ok(u) && u@ == world_request_url(self.shard_list()),
    {
        let query = query_from_names(&self.names());
        let mut params = self.shard_params();
        params.insert_front("q", query.as_str());
        Ok(url_with_params(&params))
    }
}

/// The best way to build a request for world events.
#[derive(Debug, Default)]
pub struct HappeningsShardBuilder {
    view: Option<HappeningsViewType>,
    filter: Vec<HappeningsFilterType>,
    limit: Option<u8>,
    since_id: Option<u32>,
    before_id: Option<u32>,
    since_time: Option<u64>,
    before_time: Option<u64>,
}

fn copy_filters(fs: &Vec<HappeningsFilterType>) -> (r: Vec<HappeningsFilterType>)
    ensures
        r@ == fs@,
{
    let mut r: Vec<HappeningsFilterType> = Vec::new();
    let mut i: usize = 0;
    while i < fs.len()
        invariant
            i <= fs.len(),
            r@ == fs@.take(i as int),
        decreases fs.len() - i,
    {
        r.push(fs[i]);
        assert(r@ =~= fs@.take(i + 1));
        i = i + 1;
    }
    assert(fs@.take(i as int) =~= fs@);
    r
}

fn owned_all(items: &[&str]) -> (r: Vec<String>)
    ensures
        r.deep_view() == items@.map_values(|x: &str| x@),
{
    let mut r: Vec<String> = Vec::new();
    let mut i: usize = 0;
    while i < items.len()
        invariant
            i <= items@.len(),
            r.deep_view() == items@.take(i as int).map_values(|x: &str| x@),
        decreases items.len() - i,
    {
        let s = owned(items[i]);
        let ghost before = r.deep_view();
        r.push(s);
        assert(r.deep_view() =~= before.push(s@));
        assert(r.deep_view() =~= items@.take(i + 1).map_values(|x: &str| x@));
        i = i + 1;
    }
    assert(items@.take(i as int) =~= items@);
    r
}

/// Whether a built shard holds a builder's choices: `view` is a copy of the view, and the
/// filter list is absent when no filter was added.
pub open spec fn happenings_built(
    r: WorldShard,
    view: Option<HappeningsViewType>,
    filters: Seq<HappeningsFilterType>,
    limit: Option<u8>,
    since_id: Option<u32>,
    before_id: Option<u32>,
    since_time: Option<u64>,
    before_time: Option<u64>,
) -> bool {
    &&& r is Happenings
    &&& match (r->view, view) {
        (Some(a), Some(b)) => same_view(a, b),
        (None, None) => true,
        _ => false,
    }
    &&& if filters.len() == 0 {
        r->filter is None
    } else {
        (r->filter matches Some(f) && f@ == filters)
    }
    &&& r->limit == limit
    &&& r->since_id == since_id
    &&& r->before_id == before_id
    &&& r->since_time == since_time
    &&& r->before_time == before_time
}

impl HappeningsShardBuilder {
    /// The chosen `view`.
    pub closed spec fn view_choice(self) -> Option<HappeningsViewType> {
        self.view
    }

    /// The chosen `filter`.
    pub closed spec fn filters(self) -> Seq<HappeningsFilterType> {
        self.filter@
    }

    /// The chosen `limit`.
    pub closed spec fn limit_value(self) -> Option<u8> {
        self.limit
    }

    /// The chosen `since_id`.
    pub closed spec fn since_id_value(self) -> Option<u32> {
        self.since_id
    }

    /// The chosen `before_id`.
    pub closed spec fn before_id_value(self) -> Option<u32> {
        self.before_id
    }

    /// The chosen `since_time`.
    pub closed spec fn since_time_value(self) -> Option<u64> {
        self.since_time
    }

    /// The chosen `before_time`.
    pub closed spec fn before_time_value(self) -> Option<u64> {
        self.before_time
    }

    /// Create a new [`HappeningsShardBuilder`] with nothing chosen.
    pub fn new() -> (r: Self)
        ensures
            r.view_choice() == None::<HappeningsViewType>,
            r.filters() == Seq::<HappeningsFilterType>::empty(),
            r.limit_value() == None::<u8>,
            r.since_id_value() == None::<u32>,
            r.before_id_value() == None::<u32>,
            r.since_time_value() == None::<u64>,
            r.before_time_value() == None::<u64>,
    {
        HappeningsShardBuilder {
            view: None,
            filter: Vec::new(),
            limit: None,
            since_id: None,
            before_id: None,
            since_time: None,
            before_time: None,
        }
    }

    /// Restrict the events gathered to one nation.
    pub fn view_nation(&mut self, target: &str) -> (r: &mut Self)
        ensures
            r.view_choice() matches Some(HappeningsViewType::OneNation(v)) && v@ == target@,
            r.filters() == old(self).filters(),
            r.limit_value() == old(self).limit_value(),
            r.since_id_value() == old(self).since_id_value(),
            r.before_id_value() == old(self).before_id_value(),
            r.since_time_value() == old(self).since_time_value(),
            r.before_time_value() == old(self).before_time_value(),
            *final(self) == *final(r),
    {
        self.view = Some(HappeningsViewType::OneNation(owned(target)));
        self
    }

    /// Restrict the events gathered to several nations.
    pub fn view_nations(&mut self, targets: &[&str]) -> (r: &mut Self)
        ensures
            r.view_choice() matches Some(HappeningsViewType::ManyNations(v)) && v.deep_view()
                == targets@.map_values(|x: &str| x@),
            r.filters() == old(self).filters(),
            r.limit_value() == old(self).limit_value(),
            r.since_id_value() == old(self).since_id_value(),
            r.before_id_value() == old(self).before_id_value(),
            r.since_time_value() == old(self).since_time_value(),
            r.before_time_value() == old(self).before_time_value(),
            *final(self) == *final(r),
    {
        self.view = Some(HappeningsViewType::ManyNations(owned_all(targets)));
        self
    }

    /// Restrict the events gathered to one region.
    pub fn view_region(&mut self, target: &str) -> (r: &mut Self)
        ensures
            r.view_choice() matches Some(HappeningsViewType::OneRegion(v)) && v@ == target@,
            r.filters() == old(self).filters(),
            r.limit_value() == old(self).limit_value(),
            r.since_id_value() == old(self).since_id_value(),
            r.before_id_value() == old(self).before_id_value(),
            r.since_time_value() == old(self).since_time_value(),
            r.before_time_value() == old(self).before_time_value(),
            *final(self) == *final(r),
    {
        self.view = Some(HappeningsViewType::OneRegion(owned(target)));
        self
    }

    /// Restrict the events gathered to several regions.
    pub fn view_regions(&mut self, targets: &[&str]) -> (r: &mut Self)
        ensures
            r.view_choice() matches Some(HappeningsViewType::ManyRegions(v)) && v.deep_view()
                == targets@.map_values(|x: &str| x@),
            r.filters() == old(self).filters(),
            r.limit_value() == old(self).limit_value(),
            r.since_id_value() == old(self).since_id_value(),
            r.before_id_value() == old(self).before_id_value(),
            r.since_time_value() == old(self).since_time_value(),
            r.before_time_value() == old(self).before_time_value(),
            *final(self) == *final(r),
    {
        self.view = Some(HappeningsViewType::ManyRegions(owned_all(targets)));
        self
    }

    /// Add one filter to the events request.
    pub fn add_filter(&mut self, filter: HappeningsFilterType) -> (r: &mut Self)
        ensures
            r.filters() == old(self).filters().push(filter),
            r.view_choice() == old(self).view_choice(),
            r.limit_value() == old(self).limit_value(),
            r.since_id_value() == old(self).since_id_value(),
            r.before_id_value() == old(self).before_id_value(),
            r.since_time_value() == old(self).since_time_value(),
            r.before_time_value() == old(self).before_time_value(),
            *final(self) == *final(r),
    {
        self.filter.push(filter);
        self
    }

    /// Add several filters to the events request, in order.
    pub fn add_filters(&mut self, filters: Vec<HappeningsFilterType>) -> (r: &mut Self)
        ensures
            r.filters() == old(self).filters() + filters@,
            r.view_choice() == old(self).view_choice(),
            r.limit_value() == old(self).limit_value(),
            r.since_id_value() == old(self).since_id_value(),
            r.before_id_value() == old(self).before_id_value(),
            r.since_time_value() == old(self).since_time_value(),
            r.before_time_value() == old(self).before_time_value(),
            *final(self) == *final(r),
    {
        let mut more = filters;
        self.filter.append(&mut more);
        self
    }

    /// Replace the filters of the events request.
    pub fn set_filters(&mut self, filters: Vec<HappeningsFilterType>) -> (r: &mut Self)
        ensures
            r.filters() == filters@,
            r.view_choice() == old(self).view_choice(),
            r.limit_value() == old(self).limit_value(),
            r.since_id_value() == old(self).since_id_value(),
            r.before_id_value() == old(self).before_id_value(),
            r.since_time_value() == old(self).since_time_value(),
            r.before_time_value() == old(self).before_time_value(),
            *final(self) == *final(r),
    {
        self.filter = filters;
        self
    }

    /// Limit event gathering to a certain number of results (at most 100).
    pub fn limit(&mut self, max_results: u8) -> (r: &mut Self)
        ensures
            r.limit_value() == Some(max_results),
            r.view_choice() == old(self).view_choice(),
            r.filters() == old(self).filters(),
            r.since_id_value() == old(self).since_id_value(),
            r.before_id_value() == old(self).before_id_value(),
            r.since_time_value() == old(self).since_time_value(),
            r.before_time_value() == old(self).before_time_value(),
            *final(self) == *final(r),
    {
        self.limit = Some(max_results);
        self
    }

    /// Only events after a certain event ID.
    pub fn since_id(&mut self, id: u32) -> (r: &mut Self)
        ensures
            r.since_id_value() == Some(id),
            r.view_choice() == old(self).view_choice(),
            r.filters() == old(self).filters(),
            r.limit_value() == old(self).limit_value(),
            r.before_id_value() == old(self).before_id_value(),
            r.since_time_value() == old(self).since_time_value(),
            r.before_time_value() == old(self).before_time_value(),
            *final(self) == *final(r),
    {
        self.since_id = Some(id);
        self
    }

    /// Only events before a certain event ID.
    pub fn before_id(&mut self, id: u32) -> (r: &mut Self)
        ensures
            r.before_id_value() == Some(id),
            r.view_choice() == old(self).view_choice(),
            r.filters() == old(self).filters(),
            r.limit_value() == old(self).limit_value(),
            r.since_id_value() == old(self).since_id_value(),
            r.since_time_value() == old(self).since_time_value(),
            r.before_time_value() == old(self).before_time_value(),
            *final(self) == *final(r),
    {
        self.before_id = Some(id);
        self
    }

    /// Only events after a certain timestamp.
    pub fn since_time(&mut self, timestamp: u64) -> (r: &mut Self)
        ensures
            r.since_time_value() == Some(timestamp),
            r.view_choice() == old(self).view_choice(),
            r.filters() == old(self).filters(),
            r.limit_value() == old(self).limit_value(),
            r.since_id_value() == old(self).since_id_value(),
            r.before_id_value() == old(self).before_id_value(),
            r.before_time_value() == old(self).before_time_value(),
            *final(self) == *final(r),
    {
        self.since_time = Some(timestamp);
        self
    }

    /// Only events before a certain timestamp.
    pub fn before_time(&mut self, timestamp: u64) -> (r: &mut Self)
        ensures
            r.before_time_value() == Some(timestamp),
            r.view_choice() == old(self).view_choice(),
            r.filters() == old(self).filters(),
            r.limit_value() == old(self).limit_value(),
            r.since_id_value() == old(self).since_id_value(),
            r.before_id_value() == old(self).before_id_value(),
            r.since_time_value() == old(self).since_time_value(),
            *final(self) == *final(r),
    {
        self.before_time = Some(timestamp);
        self
    }

    /// Creates a [`WorldShard::Happenings`] variant from the provided information.
    pub fn build<'b>(&mut self) -> (r: WorldShard<'b>)
        ensures
            happenings_built(
                r,
                old(self).view_choice(),
                old(self).filters(),
                old(self).limit_value(),
                old(self).since_id_value(),
                old(self).before_id_value(),
                old(self).since_time_value(),
                old(self).before_time_value(),
            ),
            *final(self) == *old(self),
    {
        let view = match &self.view {
            Some(v) => Some(v.duplicate()),
            None => None,
        };
        let filter = if self.filter.len() == 0 {
            None
        } else {
            Some(copy_filters(&self.filter))
        };
        WorldShard::Happenings {
            view,
            filter,
            limit: self.limit,
            since_id: self.since_id,
            before_id: self.before_id,
            since_time: self.since_time,
            before_time: self.before_time,
        }
    }

    /// Creates a [`WorldShard::Happenings`] variant from the provided information. Consumes the
    /// builder.
    pub fn build_consuming<'b>(self) -> (r: WorldShard<'b>)
        ensures
            happenings_built(
                r,
                self.view_choice(),
                self.filters(),
                self.limit_value(),
                self.since_id_value(),
                self.before_id_value(),
                self.since_time_value(),
                self.before_time_value(),
            ),
            r->view == self.view_choice(),
    {
        let filter = if self.filter.len() == 0 {
            None
        } else {
            Some(self.filter)
        };
        WorldShard::Happenings {
            view: self.view,
            filter,
            limit: self.limit,
            since_id: self.since_id,
            before_id: self.before_id,
            since_time: self.since_time,
            before_time: self.before_time,
        }
    }
}

/// Two shards built from the same choices (by `build` or by `build_consuming`) add the same
/// parameters to a query.
pub proof fn lemma_built_shards_same_params(
    p: Pairs,
    a: WorldShard,
    b: WorldShard,
    view: Option<HappeningsViewType>,
    filters: Seq<HappeningsFilterType>,
    limit: Option<u8>,
    since_id: Option<u32>,
    before_id: Option<u32>,
    since_time: Option<u64>,
    before_time: Option<u64>,
)
    requires
        happenings_built(a, view, filters, limit, since_id, before_id, since_time, before_time),
        happenings_built(b, view, filters, limit, since_id, before_id, since_time, before_time),
    ensures
        world_shard_params(p, a) == world_shard_params(p, b),
        world_shard_name(a) == world_shard_name(b),
{
    match (a->view, b->view) {
        (Some(x), Some(y)) => {
            assert(view_targets(x) == view_targets(y));
        },
        _ => {},
    }
    if filters.len() > 0 {
        assert(a->filter->0@ == b->filter->0@);
    }
}

} // verus!
