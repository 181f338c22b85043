use crustacean_states::models::dispatch::{
    AccountCategory, BulletinCategory, DispatchCategory, FactbookCategory, MetaCategory,
};
use crustacean_states::parsers::happenings::{Event, Happenings};
use crustacean_states::parsers::nation::{
    into_datetime_or_bad_field, into_nation_list, try_into_bool, try_into_dispatch_category,
    BannerId, FreedomScores, Freedoms, IntoNationError, Nation, NationName, Policy,
    StandardNation, WAStatus, WAVote,
};
use crustacean_states::parsers::raw_nation::{
    RawCause, RawDispatch, RawGovernment, RawNation, RawPolicy, RawStandardNation,
};
use crustacean_states::parsers::{
    into_datetime, CensusData, CensusDataPoint, DecimalParts, DefaultOrCustom, Dispatch, MaybeRelativeTime,
    MaybeSystemTime, ParsingError, RawCensus, RawCensusData, RawEvent, EARLIEST_TIMESTAMP,
    LATEST_TIMESTAMP,
};
use crustacean_states::shards::wa::WACouncil;
use rust_decimal::Decimal;
use std::str::FromStr;

fn s(x: &str) -> String {
    String::from(x)
}

fn raw_dispatch(category: &str, subcategory: &str, edited: u64) -> RawDispatch {
    RawDispatch {
        id: 1,
        title: s("How to Write a Dispatch"),
        author: s("testlandia"),
        category: s(category),
        subcategory: s(subcategory),
        created: 1000,
        edited,
        views: 10,
        score: 3,
    }
}

fn census_record(id: u8, score: Option<&str>, timestamp: Option<u64>) -> RawCensusData {
    RawCensusData {
        id,
        score: score.map(s),
        world_rank: Some(s("12")),
        region_rank: Some(s("0")),
        percent_world_rank: Some(s("1.5")),
        percent_region_rank: None,
        timestamp,
    }
}

// Dispatch categories

#[test]
fn dispatch_category_names() {
    assert!(matches!(
        try_into_dispatch_category("Factbook", "Overview"),
        Ok(DispatchCategory::Factbook(FactbookCategory::Overview))
    ));
    assert!(matches!(
        try_into_dispatch_category("Meta", "Reference"),
        Ok(DispatchCategory::Meta(MetaCategory::Reference))
    ));
    assert!(matches!(
        try_into_dispatch_category("Bulletin", "Gossip"),
        Err(IntoNationError::BadDispatchCategory(t)) if t == "Bulletin:Gossip"
    ));
    assert!(matches!(
        try_into_dispatch_category("Poem", "Overview"),
        Err(IntoNationError::BadDispatchCategory(t)) if t == "Poem"
    ));
    // no dispatch is ever read as `Any`
    assert!(try_into_dispatch_category("Account", "Any").is_err());
}

#[test]
fn dispatch_category_round_trip() {
    for c in [
        DispatchCategory::Factbook(FactbookCategory::Trivia),
        DispatchCategory::Bulletin(BulletinCategory::Campaign),
        DispatchCategory::Account(AccountCategory::Culture),
        DispatchCategory::Meta(MetaCategory::Gameplay),
    ] {
        assert!(matches!(try_into_dispatch_category(c.main_name(), c.sub_name()), Ok(d) if d == c));
    }
    assert_eq!(
        DispatchCategory::Bulletin(BulletinCategory::News).to_string(),
        "Bulletin: News"
    );
}

#[test]
fn dispatch_from_record() {
    let d = Dispatch::try_from_raw(raw_dispatch("Account", "Diplomacy", 0)).unwrap();
    assert_eq!(d.category, DispatchCategory::Account(AccountCategory::Diplomacy));
    assert_eq!(d.author, NationName(s("testlandia")));
    assert_eq!(d.edited, None);
    let d = Dispatch::try_from_raw(raw_dispatch("Factbook", "History", 99)).unwrap();
    assert_eq!(d.edited, Some(99));
    assert!(matches!(
        Dispatch::try_from_raw(raw_dispatch("Factbook", "Poetry", 0)),
        Err(IntoNationError::BadFieldError("FactbookCategory", t)) if t == "Poetry"
    ));
    assert!(matches!(
        Dispatch::try_from_raw(raw_dispatch("Opinion", "News", 0)),
        Err(IntoNationError::BadFieldError("DispatchCategory", t)) if t == "Opinion"
    ));
}

// Small readers

#[test]
fn booleans_and_statuses() {
    assert!(matches!(try_into_bool(0), Ok(false)));
    assert!(matches!(try_into_bool(1), Ok(true)));
    assert!(matches!(try_into_bool(2), Err(IntoNationError::BadBooleanError(2))));
    assert_eq!(WAStatus::try_from_text(s("WA Delegate")).unwrap(), WAStatus::Delegate);
    assert_eq!(WAStatus::try_from_text(s("Non-member")).unwrap(), WAStatus::NonMember);
    assert!(matches!(
        WAStatus::try_from_text(s("member")),
        Err(IntoNationError::BadWAStatusError(t)) if t == "member"
    ));
    assert_eq!(
        WAVote::try_from_text(s("AGAINST"), WACouncil::SecurityCouncil).unwrap(),
        WAVote::Against
    );
    assert!(matches!(
        WAVote::try_from_text(s("MAYBE"), WACouncil::SecurityCouncil),
        Err(IntoNationError::BadWAVote { bad_vote, council: WACouncil::SecurityCouncil })
            if bad_vote == "MAYBE"
    ));
    assert!(matches!(
        WAVote::try_from_text(s("MAYBE"), WACouncil::GeneralAssembly),
        Err(IntoNationError::BadWAVote { bad_vote, council: WACouncil::GeneralAssembly })
            if bad_vote == "MAYBE"
    ));
}

#[test]
fn banner_codes() {
    assert_eq!(BannerId::try_from_text(s("r1")).unwrap(), BannerId(s("r1")));
    assert!(matches!(
        BannerId::try_from_text(s("")),
        Err(IntoNationError::BadBannerId(t)) if t.is_empty()
    ));
    assert!(matches!(
        BannerId::try_from_text(s("b-1")),
        Err(IntoNationError::BadBannerId(t)) if t == "b-1"
    ));
    assert_eq!(BannerId(s("b141")).to_string(), "b141");
}

#[test]
fn nation_lists() {
    assert_eq!(
        into_nation_list(s("a,b,,c")),
        vec![NationName(s("a")), NationName(s("b")), NationName(s("c"))]
    );
    assert_eq!(
        into_nation_list(s("x:y")),
        vec![NationName(s("x")), NationName(s("y"))]
    );
    assert_eq!(into_nation_list(s("")), Vec::<NationName>::new());
    // with a comma the colon is kept in the names
    assert_eq!(
        into_nation_list(s("a:b,c")),
        vec![NationName(s("a:b")), NationName(s("c"))]
    );
}

#[test]
fn default_or_custom() {
    assert!(matches!(DefaultOrCustom::leader(s("")), DefaultOrCustom::Default(t) if t == "Leader"));
    assert!(matches!(DefaultOrCustom::leader(s("Max")), DefaultOrCustom::Custom(t) if t == "Max"));
    assert!(matches!(
        DefaultOrCustom::religion(s("")),
        DefaultOrCustom::Default(t) if t == "a major religion"
    ));
    assert!(matches!(
        DefaultOrCustom::capital(s(""), "Testlandia"),
        DefaultOrCustom::Default(t) if t == "Testlandia City"
    ));
    assert!(matches!(
        DefaultOrCustom::capital(s("Rome"), "Testlandia"),
        DefaultOrCustom::Custom(t) if t == "Rome"
    ));
}

#[test]
fn relative_times_round_trip() {
    assert!(matches!(MaybeRelativeTime::from_text(s("0")), MaybeRelativeTime::Antiquity));
    assert_eq!(MaybeRelativeTime::from_text(s("0")).into_text(), "0");
    assert_eq!(MaybeRelativeTime::from_text(s("7 days ago")).into_text(), "7 days ago");
    assert_eq!(MaybeRelativeTime::from_option(None).into_option(), None);
    assert_eq!(
        MaybeRelativeTime::from_option(Some(s("x"))).into_option(),
        Some(s("x"))
    );
    let t = into_datetime(100);
    assert_eq!(MaybeSystemTime::from_option(t).into_option(), t);
    assert_eq!(MaybeSystemTime::from_option(None), MaybeSystemTime::Antiquity);
}

#[test]
fn datetime_range_is_chronos() {
    assert_eq!(into_datetime(0).map(|u| u.seconds()), Some(0));
    assert_eq!(
        into_datetime(LATEST_TIMESTAMP).map(|u| u.seconds()),
        Some(LATEST_TIMESTAMP)
    );
    assert_eq!(into_datetime(LATEST_TIMESTAMP + 1), None);
    assert_eq!(
        into_datetime(EARLIEST_TIMESTAMP).map(|u| u.seconds()),
        Some(EARLIEST_TIMESTAMP)
    );
    assert_eq!(into_datetime(EARLIEST_TIMESTAMP - 1), None);
    assert!(chrono::DateTime::from_timestamp(LATEST_TIMESTAMP, 0).is_some());
    assert!(chrono::DateTime::from_timestamp(LATEST_TIMESTAMP + 1, 0).is_none());
    assert!(chrono::DateTime::from_timestamp(EARLIEST_TIMESTAMP, 0).is_some());
    assert!(chrono::DateTime::from_timestamp(EARLIEST_TIMESTAMP - 1, 0).is_none());
    assert!(matches!(
        into_datetime_or_bad_field(i64::MIN, "StandardNation.first_login"),
        Err(IntoNationError::BadFieldError("StandardNation.first_login", t))
            if t == i64::MIN.to_string()
    ));
}

// Census

#[test]
fn census_current_and_historical() {
    let current = CensusData::try_from_raw(RawCensus {
        inner: vec![census_record(3, Some("42"), None), census_record(4, Some(""), None)],
    })
    .unwrap();
    match current {
        CensusData::Current(v) => {
            assert_eq!(v.len(), 2);
            assert_eq!(v[0].id, 3);
            assert!(matches!(v[0].score, CensusDataPoint::Valid(42)));
            assert!(matches!(v[0].world_rank, CensusDataPoint::Valid(12)));
            assert!(matches!(&v[0].region_rank, CensusDataPoint::CannotParse(t) if t == "0"));
            assert!(matches!(
                &v[0].percent_world_rank,
                CensusDataPoint::Valid(d) if *d == DecimalParts { mantissa: 15, scale: 1 }
            ));
            assert!(matches!(v[0].percent_region_rank, CensusDataPoint::NotRequested));
            assert!(matches!(v[1].score, CensusDataPoint::InvalidRequest));
        }
        CensusData::Historical(_) => panic!("expected current data"),
    }
    let historical = CensusData::try_from_raw(RawCensus {
        inner: vec![census_record(3, Some("1.25"), Some(1700000000))],
    })
    .unwrap();
    match historical {
        CensusData::Historical(v) => {
            assert_eq!(v[0].timestamp, Some(1700000000));
            assert!(matches!(
                &v[0].score,
                CensusDataPoint::Valid(d) if *d == DecimalParts { mantissa: 125, scale: 2 }
            ));
        }
        CensusData::Current(_) => panic!("expected historical data"),
    }
    assert!(matches!(
        CensusData::try_from_raw(RawCensus { inner: vec![] }),
        Err(ParsingError::NoFieldError("census"))
    ));
}

#[test]
fn census_points_as_options() {
    assert!(matches!(CensusDataPoint::<u32>::NotRequested.into_option(), Ok(None)));
    assert!(matches!(CensusDataPoint::Valid(5u32).into_option(), Ok(Some(5))));
    assert!(matches!(
        CensusDataPoint::<u32>::CannotParse(s("x")).into_option(),
        Err(ParsingError::BadFieldError("CensusDataPoint", t)) if t == "x"
    ));
    assert!(matches!(
        CensusDataPoint::<u32>::InvalidRequest.into_option(),
        Err(ParsingError::BadFieldError("CensusDataPoint", t)) if t == "request was invalid"
    ));
    assert!(matches!(
        CensusDataPoint::from_count_text(Some(s("4294967296"))),
        CensusDataPoint::CannotParse(_)
    ));
    assert!(matches!(
        CensusDataPoint::from_decimal_text(Some(s("abc"))),
        CensusDataPoint::CannotParse(t) if t == "abc"
    ));
}

// Happenings

#[test]
fn events_find_mentions() {
    let e = Event::from_raw(RawEvent {
        timestamp: 5,
        text: s("@@max_barry@@ relocated from %%the_south_pacific%% to %%lazarus%%."),
    });
    assert_eq!(e.nations, vec![s("@@max_barry@@")]);
    assert_eq!(e.regions, vec![s("%%the_south_pacific%%"), s("%%lazarus%%")]);
    assert_eq!(e.timestamp, 5);
    assert!(e.kind.is_none());
    let h = Happenings::from_raw(vec![RawEvent { timestamp: 1, text: s("nothing here") }]);
    assert!(h.0[0].nations.is_empty() && h.0[0].regions.is_empty());
}

// Nations

fn government() -> RawGovernment {
    let d = Decimal::from_str("8.5").unwrap();
    RawGovernment {
        administration: d,
        defence: d,
        education: d,
        environment: d,
        healthcare: d,
        commerce: d,
        international_aid: d,
        law_and_order: d,
        public_transport: d,
        social_equality: d,
        spirituality: d,
        welfare: d,
    }
}

#[test]
fn nation_from_response() {
    let mut raw = RawNation::default();
    raw.id = Some(s("aramos"));
    raw.unstatus = Some(s("WA Member"));
    raw.gavote = Some(s("FOR"));
    raw.scvote = Some(s("UNDECIDED"));
    raw.capital = Some(s(""));
    raw.leader = Some(s("Max"));
    raw.religion = Some(s(""));
    raw.endorsements = Some(s("a,b"));
    raw.banners = Some(vec![s("r1"), s("b2")]);
    raw.tgcanrecruit = Some(1);
    raw.founded = Some(s("0"));
    raw.foundedtime = Some(0);
    raw.govt = Some(government());
    raw.deaths = Some(vec![RawCause { kind: s("Old Age"), frequency: Decimal::from(60) }]);
    raw.dispatchlist = Some(vec![raw_dispatch("Meta", "Gameplay", 0)]);
    raw.policies = Some(vec![RawPolicy { name: s("P"), pic: s("p1"), cat: s("C"), desc: s("D") }]);
    raw.freedom = Some(Freedoms { civil_rights: s("Good"), economy: s("Strong"), political_freedom: s("Fair") });
    raw.freedomscores = Some(FreedomScores { civil_rights: 60, economy: 70, political_freedom: 50 });
    let n = Nation::try_from_raw(raw).unwrap();
    assert_eq!(n.name, "aramos");
    assert_eq!(n.wa_status, Some(WAStatus::Member));
    assert_eq!(n.ga_vote, Some(WAVote::For));
    assert_eq!(n.sc_vote, Some(WAVote::Undecided));
    assert!(matches!(&n.capital, Some(DefaultOrCustom::Default(c)) if c == "aramos City"));
    assert!(matches!(&n.leader, Some(DefaultOrCustom::Custom(c)) if c == "Max"));
    assert!(matches!(&n.religion, Some(DefaultOrCustom::Default(c)) if c == "a major religion"));
    assert_eq!(n.endorsements, Some(vec![NationName(s("a")), NationName(s("b"))]));
    assert_eq!(n.banners, Some(vec![BannerId(s("r1")), BannerId(s("b2"))]));
    assert_eq!(n.tg_can_recruit, Some(true));
    assert_eq!(n.tg_can_campaign, None);
    assert!(matches!(n.founded, Some(MaybeRelativeTime::Antiquity)));
    assert!(matches!(n.founded_time, Some(MaybeSystemTime::Recorded(u)) if u.seconds() == 0));
    assert_eq!(n.government.unwrap().welfare, Decimal::from_str("8.5").unwrap());
    assert_eq!(n.deaths.as_ref().unwrap()[0].kind, "Old Age");
    assert_eq!(n.dispatch_list.as_ref().unwrap()[0].category, DispatchCategory::Meta(MetaCategory::Gameplay));
    let p: &Policy = &n.policies.as_ref().unwrap()[0];
    assert_eq!(p.picture, BannerId(s("p1")));
    assert_eq!(n.freedom_scores.unwrap().economy, 70);
    assert!(n.census.is_none());
}

#[test]
fn nation_name_prefers_name_shard() {
    let mut raw = RawNation::default();
    raw.id = Some(s("aramos"));
    raw.name = Some(s("Aramos"));
    assert_eq!(Nation::try_from_raw(raw).unwrap().name, "Aramos");
}

#[test]
fn non_member_has_no_votes() {
    let mut raw = RawNation::default();
    raw.name = Some(s("Aramos"));
    raw.unstatus = Some(s("Non-member"));
    raw.gavote = Some(s("not a vote"));
    raw.scvote = Some(s("FOR"));
    let n = Nation::try_from_raw(raw).unwrap();
    assert_eq!(n.ga_vote, None);
    assert_eq!(n.sc_vote, None);
    // without the WA shard the votes are read as sent
    let mut raw = RawNation::default();
    raw.name = Some(s("Aramos"));
    raw.gavote = Some(s("UNDECIDED"));
    assert_eq!(Nation::try_from_raw(raw).unwrap().ga_vote, Some(WAVote::Undecided));
}

#[test]
fn nation_errors_in_order() {
    assert!(matches!(
        Nation::try_from_raw(RawNation::default()),
        Err(IntoNationError::NoNameError)
    ));
    let named = || {
        let mut raw = RawNation::default();
        raw.name = Some(s("Aramos"));
        raw
    };
    let mut raw = named();
    raw.unstatus = Some(s("Member"));
    raw.gavote = Some(s("bad"));
    assert!(matches!(Nation::try_from_raw(raw), Err(IntoNationError::BadWAStatusError(t)) if t == "Member"));
    let mut raw = named();
    raw.gavote = Some(s("bad"));
    raw.banner = Some(s("!"));
    assert!(matches!(
        Nation::try_from_raw(raw),
        Err(IntoNationError::BadWAVote { bad_vote, council: WACouncil::GeneralAssembly })
            if bad_vote == "bad"
    ));
    let mut raw = named();
    raw.scvote = Some(s("MAYBE"));
    assert!(matches!(
        Nation::try_from_raw(raw),
        Err(IntoNationError::BadWAVote { bad_vote, council: WACouncil::SecurityCouncil })
            if bad_vote == "MAYBE"
    ));
    let mut raw = named();
    raw.banners = Some(vec![s("r1"), s("b 2"), s("")]);
    assert!(matches!(Nation::try_from_raw(raw), Err(IntoNationError::BadBannerId(t)) if t == "b 2"));
    let mut raw = named();
    raw.census = Some(RawCensus { inner: vec![] });
    raw.tgcanrecruit = Some(7);
    assert!(matches!(Nation::try_from_raw(raw), Err(IntoNationError::NoCensusDataError)));
    let mut raw = named();
    raw.factbooklist = Some(vec![raw_dispatch("Factbook", "Overview", 0), raw_dispatch("Factbook", "Lore", 0)]);
    assert!(matches!(
        Nation::try_from_raw(raw),
        Err(IntoNationError::BadFieldError("FactbookCategory", t)) if t == "Lore"
    ));
    let mut raw = named();
    raw.policies = Some(vec![RawPolicy { name: s("P"), pic: s(""), cat: s("C"), desc: s("D") }]);
    assert!(matches!(Nation::try_from_raw(raw), Err(IntoNationError::BadBannerId(t)) if t.is_empty()));
    let mut raw = named();
    raw.tgcancampaign = Some(3);
    assert!(matches!(Nation::try_from_raw(raw), Err(IntoNationError::BadBooleanError(3))));
}

fn standard(unstatus: &str, firstlogin: i64) -> RawStandardNation {
    RawStandardNation {
        name: s("aramos"),
        kind: s("Republic"),
        fullname: s("The Republic of Aramos"),
        motto: s("Motto"),
        category: s("Left-Leaning College State"),
        unstatus: s(unstatus),
        endorsements: s("a,b"),
        issues_answered: 5,
        freedom: Freedoms { civil_rights: s("Good"), economy: s("Strong"), political_freedom: s("Fair") },
        region: s("Anteria"),
        population: 20,
        tax: Decimal::from(10),
        animal: s("cat"),
        currency: s("coin"),
        demonym: s("Aramosian"),
        demonym2: s("Aramosian"),
        demonym2plural: s("Aramosians"),
        flag: s("flag.png"),
        majorindustry: s("Pizza"),
        govtpriority: s("Education"),
        govt: government(),
        founded: s("3 years ago"),
        firstlogin,
        lastlogin: 1700000000,
        lastactivity: s("1 hour ago"),
        influence: s("Zero"),
        freedomscores: FreedomScores { civil_rights: 60, economy: 70, political_freedom: 50 },
        publicsector: Decimal::from(30),
        deaths: vec![],
        leader: s(""),
        capital: s(""),
        religion: s("Sun"),
        factbooks: 1,
        dispatches: 2,
        dbid: 3,
    }
}

#[test]
fn standard_nation_from_response() {
    let n = StandardNation::try_from_raw(standard("WA Delegate", 1600000000)).unwrap();
    assert_eq!(n.wa_status, WAStatus::Delegate);
    assert_eq!(n.first_login.seconds(), 1600000000);
    assert_eq!(n.region.0, "Anteria");
    assert_eq!(n.endorsements.len(), 2);
    assert!(matches!(&n.capital, DefaultOrCustom::Default(c) if c == "aramos City"));
    assert!(matches!(&n.religion, DefaultOrCustom::Custom(c) if c == "Sun"));
    assert!(matches!(
        StandardNation::try_from_raw(standard("X", 0)),
        Err(IntoNationError::BadWAStatusError(t)) if t == "X"
    ));
    assert!(matches!(
        StandardNation::try_from_raw(standard("WA Member", LATEST_TIMESTAMP + 1)),
        Err(IntoNationError::BadFieldError("StandardNation.first_login", t))
            if t == (LATEST_TIMESTAMP + 1).to_string()
    ));
}

#[test]
fn decimal_readings() {
    assert!(matches!(
        CensusDataPoint::from_decimal_text(Some(s("-0.25"))),
        CensusDataPoint::Valid(DecimalParts { mantissa: -25, scale: 2 })
    ));
    assert!(matches!(
        CensusDataPoint::from_decimal_reading(s("1.50"), Some((150, 2))),
        CensusDataPoint::Valid(DecimalParts { mantissa: 150, scale: 2 })
    ));
    assert!(matches!(
        CensusDataPoint::from_decimal_reading(s("x"), None),
        CensusDataPoint::CannotParse(t) if t == "x"
    ));
    // the parts give back the decimal rust_decimal reads
    let d = Decimal::from_str("12.345").unwrap();
    assert!(matches!(
        CensusDataPoint::from_decimal_text(Some(s("12.345"))),
        CensusDataPoint::Valid(p) if Decimal::from_i128_with_scale(p.mantissa, p.scale) == d
    ));
}

#[test]
fn standard_nation_capital_is_named() {
    let mut raw = standard("WA Member", 0);
    raw.name = s("Testlandia");
    let n = StandardNation::try_from_raw(raw).unwrap();
    assert!(matches!(&n.capital, DefaultOrCustom::Default(c) if c == "Testlandia City"));
}
