use crustacean_states::shards::nation::{
    PublicNationRequest, PublicNationShard, StandardPublicNationRequest,
};
use crustacean_states::shards::region::{RegionRequest, RegionShard, RmbShard, Tag};
use crustacean_states::shards::wa::{WACouncil, WARequest};
use crustacean_states::shards::world::{
    HappeningsFilterType, HappeningsShardBuilder, IncludeOrExcludeTag, WorldRequest, WorldShard,
};
use crustacean_states::shards::{
    url_with_params, CensusCurrentMode, CensusHistoryParams, CensusModes, CensusRanksShard,
    CensusScales, CensusShard, NSRequest, Params, RequestBuildError,
};

// Params

#[test]
fn new_params() {
    assert!(Params::default().is_empty());
}

#[test]
fn insert_param() {
    assert_eq!(
        Params::default().insert("this", "that").get("this"),
        Some(String::from("that"))
    );
}

#[test]
fn insert_one_scale() {
    assert_eq!(
        Params::default()
            .insert_scale(&CensusScales::One(3))
            .get("scale"),
        Some(3.to_string())
    );
}

#[test]
fn insert_many_scales() {
    assert_eq!(
        Params::default()
            .insert_scale(&CensusScales::Many(&[3, 4, 5]))
            .get("scale"),
        Some(String::from("3+4+5"))
    );
}

#[test]
fn insert_all_scales() {
    assert_eq!(
        Params::default()
            .insert_scale(&CensusScales::All)
            .get("scale"),
        Some(String::from("all"))
    );
}

#[test]
fn insert_today_scale() {
    assert_eq!(
        Params::default()
            .insert_scale(&CensusScales::Today)
            .get("scale"),
        None
    );
}

#[test]
fn insert_rank_scale() {
    // Some(x) is the scale ID plus one; None is today's scale
    assert_eq!(
        Params::default()
            .insert_rank_scale(&Some(10))
            .get("scale"),
        Some(9.to_string())
    );
}

#[test]
fn insert_mode_history_from_and_to() {
    let mut params = Params::default();
    params.insert_modes(&CensusModes::History(CensusHistoryParams::new(6900, 42000)));
    assert_eq!(params.get("mode"), Some(String::from("history")));
    assert_eq!(params.get("from"), Some(6900.to_string()));
    assert_eq!(params.get("to"), Some(42000.to_string()));
}

#[test]
fn insert_mode_current_one() {
    assert_eq!(
        Params::default()
            .insert_modes(&CensusModes::Current(vec![CensusCurrentMode::PercentRank]))
            .get("mode"),
        Some(String::from("prank"))
    );
}

#[test]
fn param_iter_easy() {
    assert_eq!(
        Params::default().insert("this", "that").next(),
        Some((String::from("this"), String::from("that")))
    );
}

#[test]
fn param_iter_complex() {
    let mut params = Params::default();
    params
        .insert("this", "that")
        .insert("thing1", "thing2")
        .insert("wow", "yikes");
    assert_eq!(params.next(), Some((String::from("this"), String::from("that"))));
    assert_eq!(params.next(), Some((String::from("thing1"), String::from("thing2"))));
    assert_eq!(params.next(), Some((String::from("wow"), String::from("yikes"))));
    assert_eq!(params.next(), None);
}

#[test]
fn insert_overwrites_in_place() {
    let mut params = Params::default();
    params.insert("a", "1").insert("b", "2").insert("a", "3");
    assert_eq!(params.len(), 2);
    assert_eq!(params.get("a"), Some(String::from("3")));
    assert_eq!(params.get("b"), Some(String::from("2")));
    assert_eq!(params.next(), Some((String::from("a"), String::from("3"))));
}

#[test]
fn insert_front_moves_key_first() {
    let mut params = Params::default();
    params.insert("a", "1").insert("b", "2").insert_front("b", "9");
    assert_eq!(params.len(), 2);
    assert_eq!(params.next(), Some((String::from("b"), String::from("9"))));
    assert_eq!(params.next(), Some((String::from("a"), String::from("1"))));
}

#[test]
fn insert_on_none_keeps_params() {
    let mut params = Params::default();
    params.insert_on("limit", &None).insert_on("offset", &Some(String::from("5")));
    assert_eq!(params.get("limit"), None);
    assert_eq!(params.get("offset"), Some(String::from("5")));
}

#[test]
fn insert_start_and_rank_scale_today() {
    let mut params = Params::default();
    params.insert_rank_scale(&None).insert_start(&Some(20));
    assert_eq!(params.get("scale"), None);
    assert_eq!(params.get("start"), Some(String::from("20")));
}

#[test]
fn census_ranks_shard_params() {
    let mut shard = CensusRanksShard::new(5, 0);
    shard.scale(12).start(3);
    let mut params = Params::default();
    shard.add_params(&mut params);
    assert_eq!(params.get("scale"), Some(String::from("12")));
    assert_eq!(params.get("start"), Some(String::from("3")));
}

#[test]
fn census_current_modes_text() {
    let modes = CensusModes::from_modes(&[CensusCurrentMode::Score, CensusCurrentMode::Rank]);
    let mut params = Params::default();
    params.insert_modes(&modes);
    assert_eq!(params.get("mode"), Some(String::from("Score+Rank")));
    assert_eq!(CensusCurrentMode::RegionRank.to_string(), "rrank");
}

#[test]
fn url_encodes_parameters() {
    let mut params = Params::default();
    params.insert("q", "a b+c").insert("nation", "Ä,x");
    assert_eq!(
        url_with_params(&params),
        "https://www.nationstates.net/cgi-bin/api.cgi?q=a+b%2Bc&nation=%C3%84%2Cx"
    );
    // the same query as `url` writes it
    let expected = url::Url::parse_with_params(
        "https://www.nationstates.net/cgi-bin/api.cgi?",
        &[("q", "a b+c"), ("nation", "Ä,x")],
    )
    .unwrap();
    assert_eq!(url_with_params(&params), expected.as_str());
}

// Nation shards

#[test]
fn pns_normal_as_str() {
    let shard = PublicNationShard::Happenings;
    assert_eq!(shard.as_ref(), "Happenings");
}

#[test]
fn pns_complex_as_str() {
    let shard = PublicNationShard::Census(CensusShard::new(
        CensusScales::Today,
        CensusModes::from_modes(&[CensusCurrentMode::Score]),
    ));
    assert_eq!(shard.as_ref(), "Census")
}

#[test]
fn add_shards() -> Result<(), RequestBuildError> {
    let mut request_builder = PublicNationRequest::new("Aramos");
    request_builder.add_shards(vec![PublicNationShard::Capital, PublicNationShard::Animal]);
    assert_eq!(request_builder.nation_value(), Some("Aramos"));
    assert_eq!(
        request_builder.shard_values(),
        &vec![PublicNationShard::Capital, PublicNationShard::Animal]
    );
    Ok(())
}

#[test]
fn nation_builders_agree() {
    let mut a = PublicNationRequest::new("Aramos");
    a.shards(|s| s.push(PublicNationShard::Capital));
    let mut b = PublicNationRequest::new("Aramos");
    b.add_shard(PublicNationShard::Capital);
    let c = PublicNationRequest::new_with_shards("Aramos", vec![PublicNationShard::Capital]);
    assert_eq!(a, c);
    assert_eq!(b, c);
}

#[test]
fn nation_request_url() {
    let request = PublicNationRequest::new_with_shards(
        "Aramos",
        vec![PublicNationShard::Capital, PublicNationShard::Animal],
    );
    assert_eq!(
        request.as_url().unwrap(),
        "https://www.nationstates.net/cgi-bin/api.cgi?nation=Aramos&q=customcapital%2Banimal"
    );
}

#[test]
fn nation_request_census_url() {
    let request = PublicNationRequest::new_with_shards(
        "Aramos",
        vec![PublicNationShard::Census(CensusShard::new(
            CensusScales::Many(&[1, 2]),
            CensusModes::from_modes(&[CensusCurrentMode::Score]),
        ))],
    );
    assert_eq!(
        request.as_url().unwrap(),
        "https://www.nationstates.net/cgi-bin/api.cgi?nation=Aramos&q=census&scale=1%2B2&mode=Score"
    );
}

#[test]
fn nation_request_without_nation() {
    let request = PublicNationRequest::with_shards(vec![PublicNationShard::Capital]);
    assert_eq!(request.as_url(), Err(RequestBuildError::MissingParam("nation")));
}

#[test]
fn standard_nation_request_url() {
    assert_eq!(
        StandardPublicNationRequest::new("Aramos").as_url().unwrap(),
        "https://www.nationstates.net/cgi-bin/api.cgi?nation=Aramos"
    );
}

// Region shards

#[test]
fn region_builders_agree() {
    let mut a = RegionRequest::new("Anteria");
    a.shards(|s| s.push(RegionShard::Delegate));
    let mut b = RegionRequest::new("Anteria");
    b.add_shard(RegionShard::Delegate);
    let mut c = RegionRequest::new("Anteria");
    c.add_shards(vec![RegionShard::Delegate, RegionShard::BanList]);
    assert_eq!(a, RegionRequest::new_with_shards("Anteria", vec![RegionShard::Delegate]));
    assert_eq!(b, RegionRequest::new_with_shards("Anteria", vec![RegionShard::Delegate]));
    assert_eq!(
        c,
        RegionRequest::new_with_shards(
            "Anteria",
            vec![RegionShard::Delegate, RegionShard::BanList]
        )
    );
}

#[test]
fn region_request_messages_url() {
    let mut rmb = RmbShard::default();
    rmb.limit(10).offset(5).starting_post(7);
    let request = RegionRequest::new_with_shards(
        "Anteria",
        vec![RegionShard::Messages(rmb), RegionShard::Delegate],
    );
    assert_eq!(
        request.as_url().unwrap(),
        "https://www.nationstates.net/cgi-bin/api.cgi?region=Anteria&q=messages%2Bdelegate&limit=10&offset=5&fromid=7"
    );
}

#[test]
fn tag_names_read_back() {
    assert_eq!(Tag::RegionalGovernment.as_str(), "regional_government");
    assert_eq!(Tag::from_name("regional_government"), Some(Tag::RegionalGovernment));
    assert_eq!(Tag::from_name("anti-world_assembly"), Some(Tag::AntiWorldAssembly));
    assert_eq!(Tag::from_name("no such tag"), None);
    for t in [Tag::Anarchist, Tag::Cartography, Tag::WorldAssembly, Tag::VideoGame] {
        assert_eq!(Tag::from_name(t.as_str()), Some(t));
    }
}

// World shards

#[test]
fn regions_by_tag_url() {
    let shard = vec![WorldShard::RegionsByTag(vec![
        IncludeOrExcludeTag::Include(Tag::RegionalGovernment),
        IncludeOrExcludeTag::Include(Tag::Fandom),
        IncludeOrExcludeTag::Exclude(Tag::Fascist),
    ])];
    let request = WorldRequest::from(shard);
    assert_eq!(
        request.as_url().unwrap(),
        "https://www.nationstates.net/cgi-bin/api.cgi?q=regionsbytag&tags=regional_government%2Cfandom%2C-fascist",
    )
}

#[test]
fn world_builders_agree() {
    let mut a = WorldRequest::from(vec![WorldShard::CensusId]);
    a.shards(|s| s.push(WorldShard::FeaturedRegion));
    assert_eq!(a, WorldRequest::from(vec![WorldShard::CensusId, WorldShard::FeaturedRegion]));
    let mut b = WorldRequest::new();
    b.add_shards(vec![WorldShard::TGQueue, WorldShard::LastEventId]);
    assert_eq!(b, WorldRequest::from(vec![WorldShard::TGQueue, WorldShard::LastEventId]));
}

#[test]
fn happenings_url() {
    let mut builder = HappeningsShardBuilder::new();
    builder
        .view_nations(&["aramos", "testlandia"])
        .add_filter(HappeningsFilterType::Law)
        .add_filters(vec![HappeningsFilterType::Change])
        .limit(5);
    let request = WorldRequest::from(vec![builder.build()]);
    assert_eq!(
        request.as_url().unwrap(),
        "https://www.nationstates.net/cgi-bin/api.cgi?q=happenings&view=manynations.aramos%2Ctestlandia&filter=law%2Bchange&limit=5"
    );
}

#[test]
fn happenings_set_filters_replaces() {
    let mut builder = HappeningsShardBuilder::new();
    builder
        .add_filter(HappeningsFilterType::Law)
        .set_filters(vec![HappeningsFilterType::Move]);
    let request = WorldRequest::from(vec![builder.build_consuming()]);
    assert_eq!(
        request.as_url().unwrap(),
        "https://www.nationstates.net/cgi-bin/api.cgi?q=happenings&filter=move"
    );
}

// World Assembly

#[test]
fn wa_council_numbers() {
    assert_eq!(WACouncil::GeneralAssembly.number(), 1);
    assert_eq!(WACouncil::SecurityCouncil.number(), 2);
}

#[test]
fn wa_resolution_url() {
    let request = WARequest::PastResolution(
        crustacean_states::shards::wa::ResolutionArchiveRequest::new(WACouncil::GeneralAssembly, 7),
    );
    assert_eq!(
        request.as_url().unwrap(),
        "https://www.nationstates.net/cgi-bin/api.cgi?wa=1&id=7&q=resolution"
    );
}

#[test]
fn both_builds_give_the_same_request() {
    let mut builder = HappeningsShardBuilder::new();
    builder.view_region("Anteria").since_id(4).before_time(99);
    let built = builder.build();
    let consumed = builder.build_consuming();
    assert_eq!(built, consumed);
    assert_eq!(
        WorldRequest::from(vec![built]).as_url().unwrap(),
        "https://www.nationstates.net/cgi-bin/api.cgi?q=happenings&view=oneregion.anteria&sinceid=4&beforetime=99"
    );
}
