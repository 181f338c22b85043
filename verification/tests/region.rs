use crustacean_states::models::dispatch::DispatchId;
use crustacean_states::parsers::nation::NationName;
use crustacean_states::parsers::raw_region::{
    RawEmbassy, RawMessage, RawOfficer, RawPoll, RawPollOption, RawRegion, RawRegionWABadge,
    RawRegionWAVote,
};
use crustacean_states::parsers::region::{
    parse_dispatches, try_into_bool, try_into_datetime, Embassy, EmbassyKind, EmbassyRmbPerms,
    IntoRegionError, Message, MessageStatus, OfficerAuthority, Poll, Region, RegionWABadge,
    RegionWABadgeKind,
};
use crustacean_states::parsers::{
    CensusData, CensusDataPoint, CensusRegionRanks, ParsingError, RawCensus, RawCensusRanks,
    RawCensusRanksNation, LATEST_TIMESTAMP,
};
use crustacean_states::shards::region::Tag;

fn st(x: &str) -> String {
    String::from(x)
}

fn message(status: u8, timestamp: u64, edited: Option<u64>) -> RawMessage {
    RawMessage {
        id: 9,
        timestamp,
        nation: st("aramos"),
        status,
        suppressor: None,
        edited,
        likes: 2,
        likers: Some(st("a:b")),
        embassy: None,
        message: st("hello"),
    }
}

#[test]
fn officer_authorities() {
    assert_eq!(
        OfficerAuthority::vec_from_raw(st("XWA")).unwrap(),
        vec![
            OfficerAuthority::Executive,
            OfficerAuthority::WorldAssembly,
            OfficerAuthority::Appearance
        ]
    );
    assert!(matches!(
        OfficerAuthority::vec_from_raw(st("XZQ")),
        Err(IntoRegionError::BadFieldError("OfficerAuthority", t)) if t == "Z"
    ));
    assert_eq!(OfficerAuthority::vec_from_raw(st("")).unwrap(), vec![]);
}

#[test]
fn dispatch_id_lists() {
    assert_eq!(
        parse_dispatches(st("1, 22 ,333")).unwrap(),
        vec![DispatchId(1), DispatchId(22), DispatchId(333)]
    );
    assert!(matches!(
        parse_dispatches(st("1,x")),
        Err(IntoRegionError::BadFieldError("Region.dispatches", t))
            if t == "invalid digit found in string"
    ));
    assert!(matches!(
        parse_dispatches(st("")),
        Err(IntoRegionError::BadFieldError("Region.dispatches", t))
            if t == "cannot parse integer from empty string"
    ));
    assert!(matches!(
        parse_dispatches(st("4294967296")),
        Err(IntoRegionError::BadFieldError("Region.dispatches", t))
            if t == "number too large to fit in target type"
    ));
}

#[test]
fn region_booleans_and_times() {
    assert!(matches!(try_into_bool(1), Ok(true)));
    assert!(matches!(try_into_bool(0), Ok(false)));
    assert!(matches!(try_into_bool(5), Err(IntoRegionError::BadBooleanError(5))));
    assert!(matches!(try_into_datetime(None, "Region.last_update"), Ok(None)));
    assert!(matches!(
        try_into_datetime(Some(12), "Region.last_update"),
        Ok(Some(u)) if u.seconds() == 12
    ));
    assert!(matches!(
        try_into_datetime(Some(-LATEST_TIMESTAMP * 2), "Region.last_update"),
        Err(IntoRegionError::BadFieldError("Region.last_update", t))
            if t == (-LATEST_TIMESTAMP * 2).to_string()
    ));
}

#[test]
fn embassies_and_permissions() {
    let e = Embassy::try_from_raw(RawEmbassy { kind: None, region: st("Anteria") }).unwrap();
    assert_eq!(e.kind, EmbassyKind::Established);
    assert_eq!(EmbassyKind::default(), EmbassyKind::Established);
    let e = Embassy::try_from_raw(RawEmbassy { kind: Some(st("closing")), region: st("A") }).unwrap();
    assert_eq!(e.kind, EmbassyKind::Closing);
    assert!(matches!(
        Embassy::try_from_raw(RawEmbassy { kind: Some(st("odd")), region: st("A") }),
        Err(IntoRegionError::BadFieldError("EmbassyKind", t)) if t == "odd"
    ));
    assert_eq!(EmbassyRmbPerms::try_from_text(st("com")).unwrap(), EmbassyRmbPerms::OfficersWithCommsAuth);
    assert!(matches!(
        EmbassyRmbPerms::try_from_text(st("none")),
        Err(IntoRegionError::BadFieldError("Region.embassy_rmb", t)) if t == "none"
    ));
}

#[test]
fn messages_and_statuses() {
    assert_eq!(MessageStatus::try_from_u8(9).unwrap(), MessageStatus::ModSuppressed);
    assert!(matches!(
        MessageStatus::try_from_u8(3),
        Err(ParsingError::BadFieldError("Message.status", t)) if t == "3"
    ));
    let m = Message::try_from_raw(message(1, 100, Some(200))).unwrap();
    assert_eq!(m.status, MessageStatus::Suppressed);
    assert_eq!(m.timestamp.seconds(), 100);
    assert_eq!(m.edited.map(|u| u.seconds()), Some(200));
    assert!(matches!(
        Message::try_from_raw(message(4, 100, None)),
        Err(IntoRegionError::BadFieldError("Message.status", t)) if t == "4"
    ));
    assert!(matches!(
        Message::try_from_raw(message(0, 9_000_000_000_001, None)),
        Err(IntoRegionError::BadFieldError("Message.timestamp", t)) if t == "9000000000001"
    ));
    // the timestamp is read as an i64 first, as the API's numbers are: u64::MAX is -1
    assert!(matches!(
        Message::try_from_raw(message(0, u64::MAX, None)),
        Ok(m) if m.timestamp.seconds() == -1
    ));
    assert!(matches!(
        Message::try_from_raw(message(0, 1, Some(9_000_000_000_000))),
        Err(IntoRegionError::BadFieldError("Message.edited", t)) if t == "9000000000000"
    ));
}

#[test]
fn polls() {
    let raw = RawPoll {
        id: 1,
        title: st("T"),
        text: None,
        region: st("Anteria"),
        start: 10,
        stop: 20,
        author: st("aramos"),
        options: vec![RawPollOption { id: 0, optiontext: st("Yes"), votes: 2, voters: st("a:b") }],
    };
    let p = Poll::try_from_raw(raw).unwrap();
    assert_eq!(p.start.seconds(), 10);
    assert_eq!(p.options[0].voters, vec![NationName(st("a")), NationName(st("b"))]);
    let raw = RawPoll {
        id: 1,
        title: st("T"),
        text: None,
        region: st("Anteria"),
        start: 10,
        stop: 9_000_000_000_000,
        author: st("aramos"),
        options: vec![],
    };
    assert!(matches!(
        Poll::try_from_raw(raw),
        Err(IntoRegionError::BadFieldError("Poll.stop", _))
    ));
}

#[test]
fn badges() {
    let b = RegionWABadge::try_from_raw(RawRegionWABadge { kind: st("liberate"), resolution: 12 }).unwrap();
    assert_eq!(b, RegionWABadge { kind: RegionWABadgeKind::Liberate, resolution: 12 });
    assert!(matches!(
        RegionWABadge::try_from_raw(RawRegionWABadge { kind: st("praise"), resolution: 1 }),
        Err(IntoRegionError::ParseEnumError(t)) if t == "praise"
    ));
}

#[test]
fn census_ranks() {
    let r = CensusRegionRanks::from_raw(RawCensusRanks {
        scale: 4,
        nations: vec![
            RawCensusRanksNation { name: st("a"), rank: 1, score: st("10") },
            RawCensusRanksNation { name: st("b"), rank: 0, score: st("x") },
        ],
    });
    assert_eq!(r.id, 4);
    assert!(matches!(r.nations[0].region_rank, CensusDataPoint::Valid(1)));
    assert!(matches!(r.nations[0].score, CensusDataPoint::Valid(10)));
    assert!(matches!(r.nations[1].region_rank, CensusDataPoint::InvalidRequest));
    assert!(matches!(&r.nations[1].score, CensusDataPoint::CannotParse(t) if t == "x"));
    assert!(matches!(r.nations[1].world_rank, CensusDataPoint::NotRequested));
}

#[test]
fn region_from_response() {
    let mut raw = RawRegion::default();
    raw.name = Some(st("Anteria"));
    raw.nations = Some(st("a:b:"));
    raw.delegateauth = Some(st("XB"));
    raw.frontier = Some(0);
    raw.officers = Some(vec![RawOfficer {
        nation: st("a"),
        office: st("Minister"),
        authority: st("C"),
        time: 50,
        by: st("b"),
        order: -1,
    }]);
    raw.bannerurl = Some(st("/images/rbanners/uploads/anteria.jpg"));
    raw.embassies = Some(vec![RawEmbassy { kind: Some(st("pending")), region: st("X") }]);
    raw.banned = Some(st("c:d"));
    raw.dispatches = Some(st("5,6"));
    raw.embassyrmb = Some(st("all"));
    raw.founded = Some(st("0"));
    raw.lastupdate = Some(1700000000);
    raw.messages = Some(vec![message(0, 5, None)]);
    raw.unnations = Some(st("a,b"));
    raw.gavote = Some(RawRegionWAVote { for_vote: 3, against_vote: 4 });
    raw.tags = Some(vec![st("frontier"), st("small")]);
    raw.wabadges = Some(vec![RawRegionWABadge { kind: st("commend"), resolution: 100 }]);
    let r = Region::try_from_raw(raw).unwrap();
    assert_eq!(r.name.as_ref().unwrap().0, "Anteria");
    assert_eq!(
        r.nations,
        Some(vec![NationName(st("a")), NationName(st("b")), NationName(st(""))])
    );
    assert_eq!(
        r.delegate_authority,
        Some(vec![OfficerAuthority::Executive, OfficerAuthority::BorderControl])
    );
    assert_eq!(r.frontier, Some(false));
    assert_eq!(r.officers.as_ref().unwrap()[0].order, -1);
    assert_eq!(
        r.banner_url.as_ref().unwrap().as_str(),
        "https://www.nationstates.net/images/rbanners/uploads/anteria.jpg"
    );
    assert_eq!(r.embassies.as_ref().unwrap()[0].kind, EmbassyKind::Pending);
    assert_eq!(r.banned, Some(vec![NationName(st("c")), NationName(st("d"))]));
    assert_eq!(r.dispatches, Some(vec![DispatchId(5), DispatchId(6)]));
    assert_eq!(r.embassy_rmb, Some(EmbassyRmbPerms::All));
    assert_eq!(r.last_update.map(|u| u.seconds()), Some(1700000000));
    assert_eq!(r.messages.as_ref().unwrap().len(), 1);
    assert_eq!(r.wa_nations, Some(vec![NationName(st("a")), NationName(st("b"))]));
    assert_eq!(r.ga_vote.unwrap().against_vote, 4);
    assert_eq!(r.tags, Some(vec![Tag::Frontier, Tag::Small]));
    assert_eq!(r.wa_badges.as_ref().unwrap()[0].kind, RegionWABadgeKind::Commend);
    assert!(r.census.is_none() && r.poll.is_none());
}

#[test]
fn region_errors() {
    let mut raw = RawRegion::default();
    raw.frontier = Some(2);
    raw.delegateauth = Some(st("Q"));
    assert!(matches!(
        Region::try_from_raw(raw),
        Err(IntoRegionError::BadFieldError("OfficerAuthority", t)) if t == "Q"
    ));
    let mut raw = RawRegion::default();
    raw.frontier = Some(2);
    assert!(matches!(Region::try_from_raw(raw), Err(IntoRegionError::BadBooleanError(2))));
    let mut raw = RawRegion::default();
    raw.bannerurl = Some(st(":99999999/x"));
    assert!(matches!(
        Region::try_from_raw(raw),
        Err(IntoRegionError::BadFieldError("Region.banner_url", t)) if t == ":99999999/x"
    ));
    let mut raw = RawRegion::default();
    raw.census = Some(RawCensus { inner: vec![] });
    assert!(matches!(Region::try_from_raw(raw), Err(IntoRegionError::NoFieldError("census"))));
    let mut raw = RawRegion::default();
    raw.tags = Some(vec![st("frontier"), st("Frontier")]);
    assert!(matches!(
        Region::try_from_raw(raw),
        Err(IntoRegionError::ParseEnumError(t)) if t == "Frontier"
    ));
    let mut raw = RawRegion::default();
    raw.lastminorupdate = Some(i64::MAX);
    assert!(matches!(
        Region::try_from_raw(raw),
        Err(IntoRegionError::BadFieldError("Region.last_minor_update", _))
    ));
}

#[test]
fn parsing_errors_become_region_errors() {
    assert!(matches!(
        IntoRegionError::from_parsing_error(ParsingError::NoFieldError("census")),
        IntoRegionError::NoFieldError("census")
    ));
    assert!(matches!(
        IntoRegionError::from_parsing_error(ParsingError::Region(Box::new(
            IntoRegionError::BadBooleanError(4)
        ))),
        IntoRegionError::BadBooleanError(4)
    ));
    assert!(matches!(
        IntoRegionError::from_parsing_error(ParsingError::Nation(Box::new(
            crustacean_states::parsers::nation::IntoNationError::NoNameError
        ))),
        IntoRegionError::WrongGeneric(ParsingError::Nation(_), "IntoRegionError")
    ));
    let _ = CensusData::try_from_raw(RawCensus { inner: vec![] });
}
