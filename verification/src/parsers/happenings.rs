//! National, regional, and world happenings.

use vstd::prelude::*;
use crate::parsers::RawEvent;

verus! {

/// The happenings of a nation, region or the world, in the order sent.
#[derive(Clone, Debug)]
pub struct Happenings(pub Vec<Event>);

/// A line of `happenings`.
#[derive(Clone, Debug)]
#[non_exhaustive]
pub struct Event {
    /// The Unix timestamp when the event happened.
    pub timestamp: u64,
    /// The exact contents of the event.
    /// Nations are wrapped in `@@`, while regions are wrapped in `%%`.
    pub text: String,
    /// The nations mentioned in the event text (with their `@@` marks).
    pub nations: Vec<String>,
    /// The regions mentioned in the event text (with their `%%` marks).
    pub regions: Vec<String>,
    /// The kind of event that this was.
    /// NOTE: this will always be `None` until the happenings parsing update.
    pub kind: Option<EventKind>,
}

/// The kind of event. Not currently implemented.
#[derive(Clone, Copy, Debug, PartialEq, Eq)]
#[non_exhaustive]
pub enum EventKind {
    /// Any event; kinds are not told apart yet.
    Unclassified,
}

/// How a nation is marked in event text: its name (letters, digits, `_` and `-`) between `@@`.
pub const NATION_PATTERN: &'static str = "@@[a-zA-Z0-9_-]+@@";

/// How a region is marked in event text: its name (letters, digits, `_` and `-`) between `%%`.
pub const REGION_PATTERN: &'static str = "%%[a-zA-Z0-9_-]+%%";

/// What regex's `find_iter` finds, left to right and without overlap, for a pattern in a text
/// (`None` when the pattern does not compile).
pub uninterp spec fn regex_matches(pattern: Seq<char>, text: Seq<char>) -> Option<Seq<Seq<char>>>;

/// regex's `Regex::new(pattern)` and then `find_iter(text)`, each match taken as its text.
/// Claimed: the result is the named outcome of those two calls on these arguments.
#[verifier::external_body]
fn regex_find_all(pattern: &str, text: &str) -> (r: Option<Vec<String>>)
    ensures
        r.deep_view() == regex_matches(pattern@, text@),
{
    match regex::Regex::new(pattern) {
        Ok(re) => Some(re.find_iter(text).map(|m| m.as_str().to_string()).collect()),
        Err(_) => None,
    }
}

/// The texts found for a pattern, nothing when the pattern does not compile.
pub open spec fn mentions(pattern: Seq<char>, text: Seq<char>) -> Seq<Seq<char>> {
    match regex_matches(pattern, text) {
        Some(m) => m,
        None => Seq::empty(),
    }
}

/// Whether an event was built from a raw event and the mentions found in its text.
pub open spec fn event_from(
    e: Event,
    raw: RawEvent,
    nations: Seq<Seq<char>>,
    regions: Seq<Seq<char>>,
) -> bool {
    &&& e.timestamp == raw.timestamp
    &&& e.text == raw.text
    &&& e.nations.deep_view() == nations
    &&& e.regions.deep_view() == regions
    &&& e.kind is None
}

impl Event {
    /// Builds an event from a raw event and the nation and region mentions found in it.
    pub fn from_mentions(value: RawEvent, nations: Vec<String>, regions: Vec<String>) -> (r: Self)
        ensures
            event_from(r, value, nations.deep_view(), regions.deep_view()),
    {
        Event { timestamp: value.timestamp, text: value.text, nations, regions, kind: None }
    }

    /// Reads an event: its nations and regions are the `@@name@@` and `%%name%%` marks in
    /// its text, in order.
    pub fn from_raw(value: RawEvent) -> (r: Self)
        ensures
            event_from(
                r,
                value,
                mentions(NATION_PATTERN@, value.text@),
                mentions(REGION_PATTERN@, value.text@),
            ),
    {
        let nations = match regex_find_all(NATION_PATTERN, value.text.as_str()) {
            Some(m) => m,
            None => {
                let v: Vec<String> = Vec::new();
                assert(v.deep_view() =~= Seq::<Seq<char>>::empty());
                v
            },
        };
        let regions = match regex_find_all(REGION_PATTERN, value.text.as_str()) {
            Some(m) => m,
            None => {
                let v: Vec<String> = Vec::new();
                assert(v.deep_view() =~= Seq::<Seq<char>>::empty());
                v
            },
        };
        Event::from_mentions(value, nations, regions)
    }
}

/// Whether events were read one by one from raw events.
pub open spec fn events_from(es: Seq<Event>, raw: Seq<RawEvent>) -> bool {
    &&& es.len() == raw.len()
    &&& forall|i: int|
        0 <= i < raw.len() ==> event_from(
            #[trigger] es[i],
            raw[i],
            mentions(NATION_PATTERN@, raw[i].text@),
            mentions(REGION_PATTERN@, raw[i].text@),
        )
}

/// Reads events one by one, in order.
pub fn events_from_raw(raw: Vec<RawEvent>) -> (r: Vec<Event>)
    ensures
        events_from(r@, raw@),
{
    let ghost all = raw@;
    let mut rest = raw;
    let mut out: Vec<Event> = Vec::new();
    while rest.len() > 0
        invariant
            rest@.len() + out@.len() == all.len(),
            rest@ == all.subrange(out@.len() as int, all.len() as int),
            forall|i: int|
                0 <= i < out@.len() ==> event_from(
                    #[trigger] out@[i],
                    all[i],
                    mentions(NATION_PATTERN@, all[i].text@),
                    mentions(REGION_PATTERN@, all[i].text@),
                ),
        decreases rest.len(),
    {
        let ghost k = out@.len() as int;
        let item = rest.remove(0);
        assert(item == all[k]);
        assert(rest@ =~= all.subrange(k + 1, all.len() as int));
        out.push(Event::from_raw(item));
    }
    out
}

impl Happenings {
    /// Reads happenings from raw events, in order.
    pub fn from_raw(raw: Vec<RawEvent>) -> (r: Self)
        ensures
            events_from(r.0@, raw@),
    {
        Happenings(events_from_raw(raw))
    }
}

} // verus!
