//! For World Assembly shard requests.

use vstd::prelude::*;
use crate::shards::{
    has_key, lemma_insert_then_get, lemma_optional_then_get, opt_decimal, request_url, url_with_params,
    value_of, NSRequest, Pairs, Params, RequestBuildError, with_optional_pair, with_pair,
};
use crate::text::{ascii_lower, decimal, join, joined, owned, push_str, to_ascii_lowercase, u64_to_string};

verus! {

/// One of the two World Assembly chambers (or "councils").
#[derive(Clone, Copy, Debug, Default, PartialEq, Eq, Structural)]
pub enum WACouncil {
    /// The General Assembly, which concerns itself with international law.
    #[default]
    GeneralAssembly,
    /// The Security Council, which recognizes and responds to individual nations and regions.
    SecurityCouncil,
}

/// The number the API uses for a council.
pub open spec fn council_number(c: WACouncil) -> u8 {
    match c {
        WACouncil::GeneralAssembly => 1,
        WACouncil::SecurityCouncil => 2,
    }
}

impl WACouncil {
    /// The number the API uses for the council.
    pub fn number(&self) -> (r: u8)
        ensures
            r == council_number(*self),
    {
        match self {
            WACouncil::GeneralAssembly => 1,
            WACouncil::SecurityCouncil => 2,
        }
    }
}

/// A shard about the World Assembly as a whole.
#[derive(Clone, Copy, Debug, PartialEq, Eq, Structural)]
pub enum WAGlobalShard {
    /// The number of nations in the World Assembly.
    NumNations,
    /// The number of delegates in the World Assembly.
    NumDelegates,
    /// The list of delegates currently serving in the World Assembly.
    Delegates,
    /// The list of all members of the World Assembly.
    Members,
}

/// How a global shard is written.
pub open spec fn global_shard_name(s: WAGlobalShard) -> Seq<char> {
    match s {
        WAGlobalShard::NumNations => "NumNations"@,
        WAGlobalShard::NumDelegates => "NumDelegates"@,
        WAGlobalShard::Delegates => "Delegates"@,
        WAGlobalShard::Members => "Members"@,
    }
}

impl WAGlobalShard {
    /// How the shard is written.
    pub fn as_str(&self) -> (r: &'static str)
        ensures
            r@ == global_shard_name(*self),
    {
        match self {
            WAGlobalShard::NumNations => "NumNations",
            WAGlobalShard::NumDelegates => "NumDelegates",
            WAGlobalShard::Delegates => "Delegates",
            WAGlobalShard::Members => "Members",
        }
    }
}

/// A shard about one council.
#[derive(Clone, Copy, Debug, PartialEq, Eq, Structural)]
pub enum WACouncilShard {
    /// A shard that returns events in the World Assembly.
    Happenings,
    /// All the currently proposed resolutions in a World Assembly council.
    Proposals,
    /// The most recent resolution in a World Assembly council.
    LastResolution,
}

/// How a council shard is written.
pub open spec fn council_shard_name(s: WACouncilShard) -> Seq<char> {
    match s {
        WACouncilShard::Happenings => "Happenings"@,
        WACouncilShard::Proposals => "Proposals"@,
        WACouncilShard::LastResolution => "LastResolution"@,
    }
}

impl WACouncilShard {
    /// How the shard is written.
    pub fn as_str(&self) -> (r: &'static str)
        ensures
            r@ == council_shard_name(*self),
    {
        match self {
            WACouncilShard::Happenings => "Happenings",
            WACouncilShard::Proposals => "Proposals",
            WACouncilShard::LastResolution => "LastResolution",
        }
    }
}

/// Extra information about the current at-vote resolution.
#[derive(Clone, Copy, Debug, PartialEq, Eq, Structural)]
pub enum ResolutionShard {
    /// Lists every nation voting for and against the resolution.
    Voters,
    /// Information about how many votes each side gets over time.
    VoteTrack,
    /// Lists every delegate's vote, including voting power, oldest vote first.
    /// This will not return the resolution text.
    DelLog,
    /// List every delegate's vote, including voting power, grouped into yes and no votes.
    DelVotes,
}

/// How a resolution shard is written.
pub open spec fn resolution_shard_name(s: ResolutionShard) -> Seq<char> {
    match s {
        ResolutionShard::Voters => "Voters"@,
        ResolutionShard::VoteTrack => "VoteTrack"@,
        ResolutionShard::DelLog => "DelLog"@,
        ResolutionShard::DelVotes => "DelVotes"@,
    }
}

impl ResolutionShard {
    /// How the shard is written.
    pub fn as_str(&self) -> (r: &'static str)
        ensures
            r@ == resolution_shard_name(*self),
    {
        match self {
            ResolutionShard::Voters => "Voters",
            ResolutionShard::VoteTrack => "VoteTrack",
            ResolutionShard::DelLog => "DelLog",
            ResolutionShard::DelVotes => "DelVotes",
        }
    }
}

/// A shard for the World Assembly.
#[derive(Clone, Copy, Debug, PartialEq, Eq)]
pub enum WAShard<'a> {
    /// Information about the World Assembly as a whole.
    GlobalInfo(WAGlobalShard),
    /// Information about a council.
    CouncilInfo(WACouncilShard),
    /// Information about a resolution in a World Assembly council.
    /// Request more information with [`ResolutionShard`]s.
    CurrentResolution(&'a [ResolutionShard]),
    /// Information about a previous resolution.
    PreviousResolution(u16),
}

/// The names of some resolution shards.
pub open spec fn resolution_shard_names(ss: Seq<ResolutionShard>) -> Seq<Seq<char>> {
    ss.map_values(|s: ResolutionShard| resolution_shard_name(s))
}

/// `resolution`, followed by `+name` for each shard in turn.
pub open spec fn resolution_with(ss: Seq<ResolutionShard>) -> Seq<char>
    decreases ss.len(),
{
    if ss.len() == 0 {
        "resolution"@
    } else {
        resolution_with(ss.drop_last()) + "+"@ + resolution_shard_name(ss.last())
    }
}

/// How a WA shard is written, in ASCII lowercase.
pub open spec fn wa_shard_text(s: WAShard) -> Seq<char> {
    ascii_lower(
        match s {
            WAShard::GlobalInfo(g) => global_shard_name(g),
            WAShard::CouncilInfo(c) => council_shard_name(c),
            WAShard::CurrentResolution(a) => resolution_with(a@),
            WAShard::PreviousResolution(_) => "resolution"@,
        },
    )
}

impl<'a> WAShard<'a> {
    /// A shard about the World Assembly as a whole.
    pub fn from_global(value: WAGlobalShard) -> (r: Self)
        ensures
            r == WAShard::GlobalInfo(value),
    {
        WAShard::GlobalInfo(value)
    }

    /// A shard about a council.
    pub fn from_council(value: WACouncilShard) -> (r: Self)
        ensures
            r == WAShard::CouncilInfo(value),
    {
        WAShard::CouncilInfo(value)
    }

    /// A shard about the current resolution.
    pub fn from_resolution_shards(value: &'a [ResolutionShard]) -> (r: Self)
        ensures
            r == WAShard::CurrentResolution(value),
    {
        WAShard::CurrentResolution(value)
    }

    /// A shard about a previous resolution.
    pub fn from_id(value: u16) -> (r: Self)
        ensures
            r == WAShard::PreviousResolution(value),
    {
        WAShard::PreviousResolution(value)
    }

    /// How the shard is written, in ASCII lowercase.
    pub fn to_string(&self) -> (r: String)
        ensures
            r@ == wa_shard_text(*self),
    {
        let text = match self {
            WAShard::GlobalInfo(g) => owned(g.as_str()),
            WAShard::CouncilInfo(c) => owned(c.as_str()),
            WAShard::CurrentResolution(a) => {
                let mut acc = owned("resolution");
                let mut i: usize = 0;
                while i < a.len()
                    invariant
                        i <= a@.len(),
                        acc@ == resolution_with(a@.take(i as int)),
                    decreases a.len() - i,
                {
                    assert(a@.take(i + 1).drop_last() =~= a@.take(i as int));
                    push_str(&mut acc, "+");
                    push_str(&mut acc, a[i].as_str());
                    i = i + 1;
                }
                assert(a@.take(i as int) =~= a@);
                acc
            },
            WAShard::PreviousResolution(_) => owned("resolution"),
        };
        to_ascii_lowercase(text.as_str())
    }
}

/// A request about the World Assembly as a whole.
#[derive(Clone, Copy, Debug)]
pub struct GlobalRequest<'a> {
    shards: &'a [WAGlobalShard],
}

impl<'a> GlobalRequest<'a> {
    /// The shards asked for.
    pub closed spec fn shard_list(self) -> Seq<WAGlobalShard> {
        self.shards@
    }

    /// A request for the given shards.
    pub fn new(shards: &'a [WAGlobalShard]) -> (r: Self)
        ensures
            r.shard_list() == shards@,
    {
        Self { shards }
    }
}

/// A request about one council.
#[derive(Clone, Copy, Debug)]
pub struct CouncilRequest<'a> {
    council: WACouncil,
    shards: &'a [WAShard<'a>],
}

impl<'a> CouncilRequest<'a> {
    /// The council asked about.
    pub closed spec fn council_choice(self) -> WACouncil {
        self.council
    }

    /// The shards asked for.
    pub closed spec fn shard_list(self) -> Seq<WAShard<'a>> {
        self.shards@
    }

    /// A request for the given council and shards.
    pub fn new(council: WACouncil, shards: &'a [WAShard<'a>]) -> (r: Self)
        ensures
            r.council_choice() == council,
            r.shard_list() == shards@,
    {
        Self { council, shards }
    }
}

/// A request about the resolution at vote in a council.
#[derive(Clone, Copy, Debug)]
pub struct ResolutionRequest<'a> {
    council: WACouncil,
    shards: &'a [ResolutionShard],
}

impl<'a> ResolutionRequest<'a> {
    /// The council asked about.
    pub closed spec fn council_choice(self) -> WACouncil {
        self.council
    }

    /// The shards asked for.
    pub closed spec fn shard_list(self) -> Seq<ResolutionShard> {
        self.shards@
    }

    /// A request for the given council and shards.
    pub fn new(council: WACouncil, shards: &'a [ResolutionShard]) -> (r: Self)
        ensures
            r.council_choice() == council,
            r.shard_list() == shards@,
    {
        Self { council, shards }
    }
}

/// A request about a passed resolution.
#[derive(Clone, Copy, Debug)]
pub struct ResolutionArchiveRequest {
    council: WACouncil,
    id: u16,
}

impl ResolutionArchiveRequest {
    /// The council asked about.
    pub closed spec fn council_choice(self) -> WACouncil {
        self.council
    }

    /// The resolution asked about.
    pub closed spec fn resolution_id(self) -> u16 {
        self.id
    }

    /// A request for the given council and resolution.
    pub fn new(council: WACouncil, id: u16) -> (r: Self)
        ensures
            r.council_choice() == council,
            r.resolution_id() == id,
    {
        Self { council, id }
    }
}

/// A request of the World Assembly API.
#[derive(Clone, Copy, Debug)]
pub enum WARequest<'a> {
    /// About the World Assembly as a whole.
    Global(GlobalRequest<'a>),
    /// About one council.
    Council(CouncilRequest<'a>),
    /// About the resolution at vote.
    AtVoteResolution(ResolutionRequest<'a>),
    /// About a passed resolution.
    PastResolution(ResolutionArchiveRequest),
}

/// The council number sent for a request (the General Assembly's for global requests).
pub open spec fn request_council(r: WARequest) -> u8 {
    match r {
        WARequest::Global(_) => council_number(WACouncil::GeneralAssembly),
        WARequest::Council(c) => council_number(c.council_choice()),
        WARequest::AtVoteResolution(c) => council_number(c.council_choice()),
        WARequest::PastResolution(c) => council_number(c.council_choice()),
    }
}

/// The query of a request, before lowercasing.
pub open spec fn wa_query(r: WARequest) -> Seq<char> {
    match r {
        WARequest::Global(g) => joined(g.shard_list().map_values(|s: WAGlobalShard| global_shard_name(s)), "+"@),
        WARequest::Council(c) => joined(c.shard_list().map_values(|s: WAShard| wa_shard_text(s)), "+"@),
        WARequest::AtVoteResolution(c) => "resolution+"@ + joined(resolution_shard_names(c.shard_list()), "+"@),
        WARequest::PastResolution(_) => "resolution"@,
    }
}

/// The parameters of a request: the council, the resolution ID when there is one, and the
/// query.
pub open spec fn wa_params(r: WARequest) -> Pairs {
    with_pair(
        with_optional_pair(
            with_pair(Seq::empty(), "wa"@, decimal(request_council(r) as nat)),
            "id"@,
            match r {
                WARequest::PastResolution(c) => opt_decimal(Some(c.resolution_id() as u64)),
                _ => None,
            },
        ),
        "q"@,
        ascii_lower(wa_query(r)),
    )
}

/// Every request is sent to its own council: `wa` is `1` for a request about the World
/// Assembly as a whole and for a General Assembly request, `2` for a Security Council request;
/// the `id` parameter is the resolution number of a past resolution and is sent with no other
/// request.
pub proof fn lemma_request_names_its_council(r: WARequest)
    ensures
        value_of(wa_params(r), "wa"@) == Some(decimal(match r {
            WARequest::Global(_) => 1nat,
            WARequest::Council(c) => if c.council_choice() is GeneralAssembly { 1nat } else { 2nat },
            WARequest::AtVoteResolution(c) => if c.council_choice() is GeneralAssembly {
                1nat
            } else {
                2nat
            },
            WARequest::PastResolution(c) => if c.council_choice() is GeneralAssembly {
                1nat
            } else {
                2nat
            },
        })),
        value_of(wa_params(r), "id"@) == (match r {
            WARequest::PastResolution(c) => Some(decimal(c.resolution_id() as nat)),
            _ => None,
        }),
{
    reveal_strlit("wa");
    reveal_strlit("id");
    reveal_strlit("q");
    let e = Seq::<(Seq<char>, Seq<char>)>::empty();
    let q1 = with_pair(e, "wa"@, decimal(request_council(r) as nat));
    lemma_insert_then_get(e, "wa"@, decimal(request_council(r) as nat));
    assert(!has_key(e, "id"@));
    let idv = match r {
        WARequest::PastResolution(c) => opt_decimal(Some(c.resolution_id() as u64)),
        _ => None,
    };
    let q2 = with_optional_pair(q1, "id"@, idv);
    lemma_optional_then_get(q1, "id"@, idv);
    assert("wa"@[0] != "id"@[0]);
    assert(value_of(q2, "wa"@) == value_of(q1, "wa"@));
    lemma_insert_then_get(q2, "q"@, ascii_lower(wa_query(r)));
    assert("wa"@.len() != "q"@.len());
    assert("id"@.len() != "q"@.len());
    assert(value_of(wa_params(r), "wa"@) == value_of(q2, "wa"@));
    assert(value_of(wa_params(r), "id"@) == value_of(q2, "id"@));
}

impl<'a> WARequest<'a> {
    fn query(&self) -> (r: String)
        ensures
            r@ == wa_query(*self),
    {
        match self {
            WARequest::Global(g) => {
                let mut names: Vec<String> = Vec::new();
                let mut i: usize = 0;
                while i < g.shards.len()
                    invariant
                        i <= g.shards@.len(),
                        names.deep_view() == g.shards@.take(i as int).map_values(|s: WAGlobalShard| global_shard_name(s)),
                    decreases g.shards.len() - i,
                {
                    let n = owned(g.shards[i].as_str());
                    let ghost before = names.deep_view();
                    names.push(n);
                    assert(names.deep_view() =~= before.push(n@));
                    assert(names.deep_view() =~= g.shards@.take(i + 1).map_values(|s: WAGlobalShard| global_shard_name(s)));
                    i = i + 1;
                }
                assert(g.shards@.take(i as int) =~= g.shards@);
                join(&names, "+")
            },
            WARequest::Council(c) => {
                let mut names: Vec<String> = Vec::new();
                let mut i: usize = 0;
                while i < c.shards.len()
                    invariant
                        i <= c.shards@.len(),
                        names.deep_view() == c.shards@.take(i as int).map_values(|s: WAShard| wa_shard_text(s)),
                    decreases c.shards.len() - i,
                {
                    let n = c.shards[i].to_string();
                    let ghost before = names.deep_view();
                    names.push(n);
                    assert(names.deep_view() =~= before.push(n@));
                    assert(names.deep_view() =~= c.shards@.take(i + 1).map_values(|s: WAShard| wa_shard_text(s)));
                    i = i + 1;
                }
                assert(c.shards@.take(i as int) =~= c.shards@);
                join(&names, "+")
            },
            WARequest::AtVoteResolution(c) => {
                let mut names: Vec<String> = Vec::new();
                let mut i: usize = 0;
                while i < c.shards.len()
                    invariant
                        i <= c.shards@.len(),
                        names.deep_view() == resolution_shard_names(c.shards@.take(i as int)),
                    decreases c.shards.len() - i,
                {
                    let n = owned(c.shards[i].as_str());
                    let ghost before = names.deep_view();
                    names.push(n);
                    assert(names.deep_view() =~= before.push(n@));
                    assert(names.deep_view() =~= resolution_shard_names(c.shards@.take(i + 1)));
                    i = i + 1;
                }
                assert(c.shards@.take(i as int) =~= c.shards@);
                let mut r = owned("resolution+");
                let j = join(&names, "+");
                push_str(&mut r, j.as_str());
                r
            },
            WARequest::PastResolution(_) => owned("resolution"),
        }
    }

    /// The council number this request sends.
    fn council_number(&self) -> (r: u8)
        ensures
            r == request_council(*self),
    {
        match self {
            WARequest::Global(_) => WACouncil::GeneralAssembly.number(),
            WARequest::Council(c) => c.council.number(),
            WARequest::AtVoteResolution(c) => c.council.number(),
            WARequest::PastResolution(c) => c.council.number(),
        }
    }

    /// The query parameters of this request, in order.
    pub fn params(&self) -> (r: Params)
        ensures
            r@ == wa_params(*self),
    {
        let mut params = Params::new();
        let council = u64_to_string(self.council_number() as u64);
        let id = match self {
            WARequest::PastResolution(c) => Some(u64_to_string(c.id as u64)),
            _ => None,
        };
        let query = to_ascii_lowercase(self.query().as_str());
        params.insert("wa", council.as_str()).insert_on("id", &id).insert("q", query.as_str());
        params
    }
}

impl<'a> NSRequest for WARequest<'a> {
    fn as_url(&self) -> (r: Result<String, RequestBuildError>)
        ensures
            r matches Ok(u) && u@ == request_url(wa_params(*self)),
    {
        let params = self.params();
        Ok(url_with_params(&params))
    }
}

} // verus!
