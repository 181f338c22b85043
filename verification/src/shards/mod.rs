//! A shard is a tiny request, composed of two parts: the query and the extra parameters.
//! You add multiple shards together to get the most efficient response.
//!
//! Shards can only be combined when they are for the same nation, the same region,
//! the same World Assembly council, or the world.
//! Two shards may use an extra parameter of the same name: the later value overwrites
//! the earlier one, and the parameter keeps its first place in the query.

pub mod nation;
pub mod region;
pub mod wa;
pub mod world;

use vstd::prelude::*;
use crate::text::{ascii_lower, decimal, join, joined, owned, to_ascii_lowercase, u64_to_string};
use vstd::utf8::encode_utf8;

verus! {

/// The address that every request of the API starts with.
pub const BASE_URL: &'static str = "https://www.nationstates.net/cgi-bin/api.cgi?";

/// A query as a sequence of (key, value) pairs.
pub type Pairs = Seq<(Seq<char>, Seq<char>)>;

/// Whether some pair in `s` has the key `k`.
pub open spec fn has_key(s: Pairs, k: Seq<char>) -> bool {
    exists|i: int| 0 <= i < s.len() && #[trigger] s[i].0 == k
}

/// The position of the pair with key `k` (meaningful when `has_key(s, k)`).
pub open spec fn key_pos(s: Pairs, k: Seq<char>) -> int {
    choose|i: int| 0 <= i < s.len() && #[trigger] s[i].0 == k
}

/// No key occurs twice.
pub open spec fn keys_unique(s: Pairs) -> bool {
    forall|i: int, j: int|
        0 <= i < s.len() && 0 <= j < s.len() && i != j ==> #[trigger] s[i].0 != #[trigger] s[j].0
}

/// The value stored under `k`, if any.
pub open spec fn value_of(s: Pairs, k: Seq<char>) -> Option<Seq<char>> {
    if has_key(s, k) {
        Some(s[key_pos(s, k)].1)
    } else {
        None
    }
}

/// `s` with `k` set to `v`: an existing pair keeps its place and takes the new value,
/// a new key goes to the end.
pub open spec fn with_pair(s: Pairs, k: Seq<char>, v: Seq<char>) -> Pairs {
    if has_key(s, k) {
        s.update(key_pos(s, k), (k, v))
    } else {
        s.push((k, v))
    }
}

/// `s` with `(k, v)` as its first pair and no other pair with key `k`.
pub open spec fn with_front_pair(s: Pairs, k: Seq<char>, v: Seq<char>) -> Pairs {
    seq![(k, v)] + (if has_key(s, k) {
        s.remove(key_pos(s, k))
    } else {
        s
    })
}

/// `s` with `k` set to `v` when there is a value, unchanged otherwise.
pub open spec fn with_optional_pair(s: Pairs, k: Seq<char>, v: Option<Seq<char>>) -> Pairs {
    match v {
        Some(x) => with_pair(s, k, x),
        None => s,
    }
}

/// Setting a parameter and then reading it gives the value set, and leaves the value of every
/// other key as it was.
pub proof fn lemma_insert_then_get(s: Pairs, k: Seq<char>, v: Seq<char>)
    requires
        keys_unique(s),
    ensures
        keys_unique(with_pair(s, k, v)),
        value_of(with_pair(s, k, v), k) == Some(v),
        forall|k2: Seq<char>| k2 != k ==> value_of(with_pair(s, k, v), k2) == value_of(s, k2),
{
    let t = with_pair(s, k, v);
    if has_key(s, k) {
        let p = key_pos(s, k);
        assert(t[p].0 == k);
        assert forall|a: int, b: int| 0 <= a < t.len() && 0 <= b < t.len() && a != b implies
            #[trigger] t[a].0 != #[trigger] t[b].0 by {
            if a != p && b != p {
                assert(s[a].0 != s[b].0);
            } else if a == p {
                assert(s[p].0 != s[b].0);
            } else {
                assert(s[a].0 != s[p].0);
            }
        }
        lemma_unique_pos(t, k, p);
    } else {
        let p = s.len() as int;
        assert(t[p].0 == k);
        assert forall|a: int, b: int| 0 <= a < t.len() && 0 <= b < t.len() && a != b implies
            #[trigger] t[a].0 != #[trigger] t[b].0 by {
            if a < p && b < p {
                assert(s[a].0 != s[b].0);
            } else if a == p {
                assert(t[b].0 == s[b].0);
            } else {
                assert(t[a].0 == s[a].0);
            }
        }
        lemma_unique_pos(t, k, p);
    }
    assert forall|k2: Seq<char>| k2 != k implies value_of(t, k2) == value_of(s, k2) by {
        if has_key(s, k2) {
            let q = key_pos(s, k2);
            assert(t[q].0 == k2);
            lemma_unique_pos(t, k2, q);
        } else if has_key(t, k2) {
            let q = key_pos(t, k2);
            assert(s[q].0 == k2);
        }
    }
}

/// Setting an optional value and then reading the key gives the value when there is one and
/// the earlier value otherwise; the value of every other key stays as it was.
pub proof fn lemma_optional_then_get(s: Pairs, k: Seq<char>, v: Option<Seq<char>>)
    requires
        keys_unique(s),
    ensures
        keys_unique(with_optional_pair(s, k, v)),
        value_of(with_optional_pair(s, k, v), k) == (match v {
            Some(x) => Some(x),
            None => value_of(s, k),
        }),
        forall|k2: Seq<char>| k2 != k ==> #[trigger] value_of(with_optional_pair(s, k, v), k2)
            == value_of(s, k2),
{
    match v {
        Some(x) => lemma_insert_then_get(s, k, x),
        None => {},
    }
}

/// Setting a key that is already there keeps every key in its place; setting a new key
/// appends it after the others.
pub proof fn lemma_insert_keeps_order(s: Pairs, k: Seq<char>, v: Seq<char>)
    requires
        keys_unique(s),
    ensures
        has_key(s, k) ==> with_pair(s, k, v).len() == s.len() && forall|i: int|
            0 <= i < s.len() ==> #[trigger] with_pair(s, k, v)[i].0 == s[i].0,
        !has_key(s, k) ==> with_pair(s, k, v) == s.push((k, v)),
{
    if has_key(s, k) {
        let p = key_pos(s, k);
        assert forall|i: int| 0 <= i < s.len() implies #[trigger] with_pair(s, k, v)[i].0 == s[i].0 by {
            if i == p {
                assert(s[p].0 == k);
            }
        }
    }
}

/// Putting a parameter in front makes it the first pair, gives it the value set, and leaves
/// the value of every other key as it was.
pub proof fn lemma_insert_front_then_get(s: Pairs, k: Seq<char>, v: Seq<char>)
    requires
        keys_unique(s),
    ensures
        with_front_pair(s, k, v)[0] == (k, v),
        value_of(with_front_pair(s, k, v), k) == Some(v),
        forall|k2: Seq<char>| k2 != k ==> value_of(with_front_pair(s, k, v), k2) == value_of(s, k2),
{
    let t = with_front_pair(s, k, v);
    let rest = if has_key(s, k) { s.remove(key_pos(s, k)) } else { s };
    assert(t =~= seq![(k, v)] + rest);
    assert forall|a: int| 0 <= a < rest.len() implies #[trigger] rest[a].0 != k by {
        if has_key(s, k) {
            let p = key_pos(s, k);
            if a < p {
                assert(s[a].0 != s[p].0);
            } else {
                assert(s[a + 1].0 != s[p].0);
            }
        } else {
            assert(s[a].0 != k);
        }
    }
    assert forall|a: int, b: int| 0 <= a < t.len() && 0 <= b < t.len() && a != b implies
        #[trigger] t[a].0 != #[trigger] t[b].0 by {
        if a > 0 && b > 0 {
            if has_key(s, k) {
                let p = key_pos(s, k);
                let a2 = if a - 1 < p { a - 1 } else { a };
                let b2 = if b - 1 < p { b - 1 } else { b };
                assert(s[a2].0 != s[b2].0);
            } else {
                assert(s[a - 1].0 != s[b - 1].0);
            }
        } else if a == 0 {
            assert(rest[b - 1].0 != k);
        } else {
            assert(rest[a - 1].0 != k);
        }
    }
    lemma_unique_pos(t, k, 0);
    assert forall|k2: Seq<char>| k2 != k implies value_of(t, k2) == value_of(s, k2) by {
        if has_key(s, k2) {
            let q = key_pos(s, k2);
            if has_key(s, k) {
                let p = key_pos(s, k);
                let q2 = if q < p { q + 1 } else { q };
                assert(q != p);
                assert(t[q2].0 == k2);
                lemma_unique_pos(t, k2, q2);
            } else {
                assert(t[q + 1].0 == k2);
                lemma_unique_pos(t, k2, q + 1);
            }
        } else if has_key(t, k2) {
            let q = key_pos(t, k2);
            assert(q > 0);
            if has_key(s, k) {
                let p = key_pos(s, k);
                let q2 = if q - 1 < p { q - 1 } else { q };
                assert(s[q2].0 == k2);
            } else {
                assert(s[q - 1].0 == k2);
            }
        }
    }
}

/// The extra parameters of a query, in the order in which they are sent.
#[derive(Debug)]
pub struct Params {
    pairs: Vec<(String, String)>,
}

impl View for Params {
    type V = Pairs;

    closed spec fn view(&self) -> Pairs {
        self.pairs.deep_view()
    }
}

proof fn lemma_unique_pos(s: Pairs, k: Seq<char>, i: int)
    requires
        keys_unique(s),
        0 <= i < s.len(),
        s[i].0 == k,
    ensures
        has_key(s, k),
        key_pos(s, k) == i,
{
    let j = key_pos(s, k);
    assert(s[j].0 == k);
}

/// The position of key `k` among pairs whose keys are unique, if it is present.
fn key_position(pairs: &Vec<(String, String)>, k: &str) -> (r: Option<usize>)
    requires
        keys_unique(pairs.deep_view()),
    ensures
        match r {
            Some(i) => i < pairs.deep_view().len() && pairs.deep_view()[i as int].0 == k@
                && has_key(pairs.deep_view(), k@) && key_pos(pairs.deep_view(), k@) == i,
            None => !has_key(pairs.deep_view(), k@),
        },
{
    let ghost s = pairs.deep_view();
    let key = owned(k);
    let mut i: usize = 0;
    while i < pairs.len()
        invariant
            i <= pairs@.len(),
            s == pairs.deep_view(),
            key@ == k@,
            keys_unique(s),
            forall|j: int| 0 <= j < i ==> #[trigger] s[j].0 != k@,
        decreases pairs.len() - i,
    {
        if pairs[i].0 == key {
            proof {
                lemma_unique_pos(s, k@, i as int);
            }
            return Some(i);
        }
        i = i + 1;
    }
    None
}

impl Params {
    /// The parameters hold no key twice.
    #[verifier::type_invariant]
    spec fn wf(self) -> bool {
        keys_unique(self.pairs.deep_view())
    }

    /// No parameters.
    pub fn new() -> (r: Self)
        ensures
            r@ == Seq::<(Seq<char>, Seq<char>)>::empty(),
    {
        let r = Params { pairs: Vec::new() };
        assert(r@ =~= Seq::<(Seq<char>, Seq<char>)>::empty());
        r
    }

    /// The number of parameters.
    pub fn len(&self) -> (r: usize)
        ensures
            r == self@.len(),
    {
        self.pairs.len()
    }

    /// Whether there are no parameters.
    pub fn is_empty(&self) -> (r: bool)
        ensures
            r == (self@.len() == 0),
    {
        self.pairs.len() == 0
    }

    /// The position of key `k`, if it is present.
    fn position(&self, k: &str) -> (r: Option<usize>)
        ensures
            match r {
                Some(i) => i < self@.len() && self@[i as int].0 == k@ && has_key(self@, k@)
                    && key_pos(self@, k@) == i,
                None => !has_key(self@, k@),
            },
    {
        proof {
            use_type_invariant(self);
        }
        key_position(&self.pairs, k)
    }

    /// The value stored under `k`, if any.
    pub fn get(&self, k: &str) -> (r: Option<String>)
        ensures
            r.deep_view() == value_of(self@, k@),
    {
        match self.position(k) {
            Some(i) => Some(self.pairs[i].1.clone()),
            None => None,
        }
    }

    /// Sets `k` to `v`. A key that is already present keeps its place.
    pub fn insert(&mut self, k: &str, v: &str) -> (r: &mut Self)
        ensures
            r@ == with_pair(old(self)@, k@, v@),
            *final(self) == *final(r),
    {
        proof {
            use_type_invariant(&*self);
        }
        let ghost s = self@;
        let found = self.position(k);
        let mut pairs: Vec<(String, String)> = Vec::new();
        std::mem::swap(&mut pairs, &mut self.pairs);
        assert(pairs.deep_view() == s);
        match found {
            Some(i) => {
                pairs.remove(i);
                pairs.insert(i, (owned(k), owned(v)));
                assert(pairs.deep_view() =~= s.update(i as int, (k@, v@)));
                assert forall|a: int, b: int|
                    0 <= a < s.len() && 0 <= b < s.len() && a != b implies
                    #[trigger] pairs.deep_view()[a].0 != #[trigger] pairs.deep_view()[b].0 by {
                    if a != i && b != i {
                        assert(s[a].0 != s[b].0);
                    } else if a == i {
                        assert(s[i as int].0 != s[b].0);
                    } else {
                        assert(s[a].0 != s[i as int].0);
                    }
                }
            },
            None => {
                pairs.push((owned(k), owned(v)));
                assert(pairs.deep_view() =~= s.push((k@, v@)));
                assert forall|a: int, b: int|
                    0 <= a < s.len() + 1 && 0 <= b < s.len() + 1 && a != b implies
                    #[trigger] pairs.deep_view()[a].0 != #[trigger] pairs.deep_view()[b].0 by {
                    if a < s.len() && b < s.len() {
                        assert(s[a].0 != s[b].0);
                    } else if a == s.len() {
                        assert(s[b].0 == pairs.deep_view()[b].0);
                    } else {
                        assert(s[a].0 == pairs.deep_view()[a].0);
                    }
                }
            },
        }
        self.pairs = pairs;
        self
    }

    /// Sets `k` to `v` when there is a value; does nothing otherwise.
    pub fn insert_on(&mut self, k: &str, v: &Option<String>) -> (r: &mut Self)
        ensures
            r@ == with_optional_pair(old(self)@, k@, v.deep_view()),
            *final(self) == *final(r),
    {
        match v {
            Some(s) => self.insert(k, s.as_str()),
            None => self,
        }
    }

    /// Puts `(k, v)` first, removing any earlier pair with key `k`.
    pub fn insert_front(&mut self, k: &str, v: &str) -> (r: &mut Self)
        ensures
            r@ == with_front_pair(old(self)@, k@, v@),
            *final(self) == *final(r),
    {
        proof {
            use_type_invariant(&*self);
        }
        let ghost s = self@;
        let ghost rest = if has_key(s, k@) { s.remove(key_pos(s, k@)) } else { s };
        let found = self.position(k);
        let mut pairs: Vec<(String, String)> = Vec::new();
        std::mem::swap(&mut pairs, &mut self.pairs);
        assert(pairs.deep_view() == s);
        match found {
            Some(i) => {
                pairs.remove(i);
                assert(pairs.deep_view() =~= s.remove(i as int));
            },
            None => {},
        }
        assert(pairs.deep_view() == rest);
        assert forall|a: int| 0 <= a < rest.len() implies #[trigger] rest[a].0 != k@ by {
            if has_key(s, k@) {
                let p = key_pos(s, k@);
                if a < p {
                    assert(s[a].0 != s[p].0);
                } else {
                    assert(s[a + 1].0 != s[p].0);
                }
            } else {
                assert(s[a].0 != k@);
            }
        }
        assert forall|a: int, b: int|
            0 <= a < rest.len() && 0 <= b < rest.len() && a != b implies
            #[trigger] rest[a].0 != #[trigger] rest[b].0 by {
            if has_key(s, k@) {
                let p = key_pos(s, k@);
                let a2 = if a < p { a } else { a + 1 };
                let b2 = if b < p { b } else { b + 1 };
                assert(s[a2].0 != s[b2].0);
            } else {
                assert(s[a].0 != s[b].0);
            }
        }
        pairs.insert(0, (owned(k), owned(v)));
        let ghost t = seq![(k@, v@)] + rest;
        assert(pairs.deep_view() =~= t);
        assert forall|a: int, b: int|
            0 <= a < t.len() && 0 <= b < t.len() && a != b implies
            #[trigger] t[a].0 != #[trigger] t[b].0 by {
            if a > 0 && b > 0 {
                assert(rest[a - 1].0 != rest[b - 1].0);
            } else if a == 0 {
                assert(rest[b - 1].0 != k@);
            } else {
                assert(rest[a - 1].0 != k@);
            }
        }
        self.pairs = pairs;
        self
    }

    /// Takes the first parameter out, if there is one.
    pub fn next(&mut self) -> (r: Option<(String, String)>)
        ensures
            old(self)@.len() == 0 ==> r.is_none() && final(self)@ == old(self)@,
            old(self)@.len() > 0 ==> r.deep_view() == Some(old(self)@[0])
                && final(self)@ == old(self)@.drop_first(),
    {
        proof {
            use_type_invariant(&*self);
        }
        if self.pairs.len() == 0 {
            None
        } else {
            let ghost s = self@;
            let mut pairs: Vec<(String, String)> = Vec::new();
            std::mem::swap(&mut pairs, &mut self.pairs);
            assert(pairs.deep_view() == s);
            let p = pairs.remove(0);
            assert(pairs.deep_view() =~= s.drop_first());
            assert forall|a: int, b: int|
                0 <= a < s.len() - 1 && 0 <= b < s.len() - 1 && a != b implies
                #[trigger] pairs.deep_view()[a].0 != #[trigger] pairs.deep_view()[b].0 by {
                assert(s[a + 1].0 != s[b + 1].0);
            }
            self.pairs = pairs;
            Some(p)
        }
    }

    /// All parameters, in order.
    pub fn pairs(&self) -> (r: Vec<(String, String)>)
        ensures
            r.deep_view() == self@,
    {
        let mut r: Vec<(String, String)> = Vec::new();
        let mut i: usize = 0;
        while i < self.pairs.len()
            invariant
                i <= self.pairs@.len(),
                self@ == self.pairs.deep_view(),
                r.deep_view() == self@.take(i as int),
            decreases self.pairs.len() - i,
        {
            let p = (self.pairs[i].0.clone(), self.pairs[i].1.clone());
            let ghost before = r.deep_view();
            r.push(p);
            assert(p.deep_view() == self@[i as int]);
            assert(r.deep_view() =~= before.push(p.deep_view()));
            assert(r.deep_view() =~= self@.take(i + 1));
            i = i + 1;
        }
        assert(self@.take(i as int) =~= self@);
        r
    }
}

impl Default for Params {
    fn default() -> (r: Self)
        ensures
            r@ == Seq::<(Seq<char>, Seq<char>)>::empty(),
    {
        Params::new()
    }
}

/// Whether the form-urlencoded serializer copies byte `b` as it is.
pub open spec fn byte_kept(b: u8) -> bool {
    b == 42 || b == 45 || b == 46 || (48 <= b <= 57) || (65 <= b <= 90) || b == 95 || (97 <= b
        <= 122)
}

/// The uppercase hexadecimal digit for `d` (below sixteen).
pub open spec fn hex_digit(d: nat) -> char {
    if d < 10 {
        ((48 + d) as u8) as char
    } else {
        ((55 + d) as u8) as char
    }
}

/// How one byte is written: kept, `+` for a space, `%XX` otherwise.
pub open spec fn serialized_byte(b: u8) -> Seq<char> {
    if byte_kept(b) {
        seq![b as char]
    } else if b == 32 {
        seq!['+']
    } else {
        seq!['%', hex_digit((b / 16) as nat), hex_digit((b % 16) as nat)]
    }
}

/// The application/x-www-form-urlencoded form of a byte string.
pub open spec fn serialized_bytes(bs: Seq<u8>) -> Seq<char>
    decreases bs.len(),
{
    if bs.len() == 0 {
        Seq::empty()
    } else {
        serialized_byte(bs[0]) + serialized_bytes(bs.drop_first())
    }
}

/// The application/x-www-form-urlencoded form of a text, taken by its UTF-8 bytes.
pub open spec fn form_urlencoded(s: Seq<char>) -> Seq<char> {
    serialized_bytes(encode_utf8(s))
}

/// One pair as it appears in a query: `key=value`, both encoded.
pub open spec fn encoded_pair(p: (Seq<char>, Seq<char>)) -> Seq<char> {
    form_urlencoded(p.0) + "="@ + form_urlencoded(p.1)
}

/// The query part of a URL: the encoded pairs separated by `&`.
pub open spec fn query_text(s: Pairs) -> Seq<char> {
    joined(s.map_values(|p: (Seq<char>, Seq<char>)| encoded_pair(p)), "&"@)
}

/// The full request URL for a list of parameters.
pub open spec fn request_url(s: Pairs) -> Seq<char> {
    BASE_URL@ + query_text(s)
}

/// url's `Url::parse_with_params(base, pairs)`, as its text.
/// Claimed, for the API address only: the address parses and keeps its closing `?`, and each
/// pair is appended after it as `key=value`, both form-urlencoded from their UTF-8 bytes, with
/// `&` between pairs (`form_urlencoded::Serializer::extend_pairs` on `query_pairs_mut`).
#[verifier::external_body]
fn parse_with_params(base: &str, pairs: &Vec<(String, String)>) -> (r: String)
    requires
        base@ == BASE_URL@,
    ensures
        r@ == base@ + query_text(pairs.deep_view()),
{
    match url::Url::parse_with_params(base, pairs) {
        Ok(u) => u.as_str().to_string(),
        Err(_) => String::new(),
    }
}

/// The request URL of the parameters: the API address followed by the encoded pairs.
pub fn url_with_params(params: &Params) -> (r: String)
    ensures
        r@ == request_url(params@),
{
    let pairs = params.pairs();
    parse_with_params(BASE_URL, &pairs)
}

/// Request type: anything that can be turned into a request URL.
pub trait NSRequest {
    /// Converts internal information into a URL that can be requested.
    fn as_url(&self) -> Result<String, RequestBuildError>;
}

/// Error type for any issues with building a request.
#[derive(Clone, Debug, PartialEq, Eq)]
pub enum RequestBuildError {
    /// A required parameter was never provided, so the request could not be built.
    MissingParam(&'static str),
}

/// Shard for information from the World Census.
/// A combination of two subunits: [`CensusScales`] and [`CensusModes`].
#[derive(Clone, Debug, Default, PartialEq)]
pub struct CensusShard<'a> {
    pub(crate) scale: CensusScales<'a>,
    pub(crate) modes: CensusModes,
}

impl<'a> CensusShard<'a> {
    /// The chosen scales.
    pub closed spec fn scale_choice(self) -> CensusScales<'a> {
        self.scale
    }

    /// The chosen modes.
    pub closed spec fn mode_choice(self) -> CensusModes {
        self.modes
    }

    /// Create a new shard.
    pub fn new(scale: CensusScales<'a>, modes: CensusModes) -> (r: CensusShard<'a>)
        ensures
            r.scale_choice() == scale,
            r.mode_choice() == modes,
    {
        CensusShard { scale, modes }
    }

    /// Specify the World Census scale(s) to list, using numerical IDs.
    /// For all scales, use [`CensusScales::All`].
    /// For today's World Census Report, use [`CensusScales::Today`].
    pub fn scale(&mut self, scale: CensusScales<'a>) -> (r: &mut CensusShard<'a>)
        ensures
            r.scale_choice() == scale,
            r.mode_choice() == old(self).mode_choice(),
            *final(self) == *final(r),
    {
        self.scale = scale;
        self
    }

    /// Specify what population the scale should be compared against.
    pub fn modes(&mut self, modes: CensusModes) -> (r: &mut CensusShard<'a>)
        ensures
            r.mode_choice() == modes,
            r.scale_choice() == old(self).scale_choice(),
            *final(self) == *final(r),
    {
        self.modes = modes;
        self
    }
}

/// World census scales as numerical IDs.
#[derive(Clone, Debug, Default, PartialEq)]
pub enum CensusScales<'a> {
    /// Today's World Census scale.
    #[default]
    Today,
    /// Only one scale.
    One(u8),
    /// Multiple scales.
    Many(&'a [u8]),
    /// All scales.
    All,
}

/// The decimal forms of some scale IDs.
pub open spec fn decimals(ids: Seq<u8>) -> Seq<Seq<char>> {
    ids.map_values(|x: u8| decimal(x as nat))
}

/// The value of the `scale` parameter for a choice of scales (`None`: no parameter).
pub open spec fn scale_value(scale: CensusScales) -> Option<Seq<char>> {
    match scale {
        CensusScales::Today => None,
        CensusScales::One(id) => Some(decimal(id as nat)),
        CensusScales::Many(ids) => Some(joined(decimals(ids@), "+"@)),
        CensusScales::All => Some("all"@),
    }
}

/// Describes data that can currently be found on the World Census.
#[derive(Clone, Copy, Debug, PartialEq, Eq, Hash, PartialOrd, Ord)]
pub enum CensusCurrentMode {
    /// Raw value.
    Score,
    /// World rank (e.g. "334" means 334th in the world).
    Rank,
    /// Region rank.
    RegionRank,
    /// World rank as a percentage (e.g. "15" means "Top 15%").
    PercentRank,
    /// Region rank as a percentage.
    PercentRegionRank,
}

/// How a current mode is written in a query.
pub open spec fn mode_name(m: CensusCurrentMode) -> Seq<char> {
    match m {
        CensusCurrentMode::Score => "Score"@,
        CensusCurrentMode::Rank => "Rank"@,
        CensusCurrentMode::RegionRank => "rrank"@,
        CensusCurrentMode::PercentRank => "prank"@,
        CensusCurrentMode::PercentRegionRank => "prrank"@,
    }
}

impl CensusCurrentMode {
    /// How the mode is written in a query.
    pub fn as_str(&self) -> (r: &'static str)
        ensures
            r@ == mode_name(*self),
    {
        match self {
            CensusCurrentMode::Score => "Score",
            CensusCurrentMode::Rank => "Rank",
            CensusCurrentMode::RegionRank => "rrank",
            CensusCurrentMode::PercentRank => "prank",
            CensusCurrentMode::PercentRegionRank => "prrank",
        }
    }

    /// The text of [`CensusCurrentMode::as_str`] as an owned string.
    pub fn to_string(&self) -> (r: String)
        ensures
            r@ == mode_name(*self),
    {
        owned(self.as_str())
    }
}

/// Either describes current or historical data.
#[derive(Clone, Debug, PartialEq)]
pub enum CensusModes {
    /// This is a special mode that cannot be combined with other modes,
    /// as only scores are available, not ranks.
    /// When requesting history, you can optionally specify a time window, using Unix epoch times.
    History(CensusHistoryParams),
    /// Represents current data.
    Current(Vec<CensusCurrentMode>),
}

impl Default for CensusModes {
    fn default() -> (r: Self)
        ensures
            r matches CensusModes::Current(v) && v@ == seq![
                CensusCurrentMode::Score,
                CensusCurrentMode::Rank,
                CensusCurrentMode::RegionRank,
            ],
    {
        CensusModes::Current(
            vec![CensusCurrentMode::Score, CensusCurrentMode::Rank, CensusCurrentMode::RegionRank],
        )
    }
}

impl CensusModes {
    /// Current data in the given modes.
    pub fn from_modes(modes: &[CensusCurrentMode]) -> (r: Self)
        ensures
            r matches CensusModes::Current(v) && v@ == modes@,
    {
        let mut v: Vec<CensusCurrentMode> = Vec::new();
        let mut i: usize = 0;
        while i < modes.len()
            invariant
                i <= modes@.len(),
                v@ == modes@.take(i as int),
            decreases modes.len() - i,
        {
            v.push(modes[i]);
            assert(v@ =~= modes@.take(i + 1));
            i = i + 1;
        }
        assert(modes@.take(i as int) =~= modes@);
        CensusModes::Current(v)
    }
}

/// The names of some current modes.
pub open spec fn mode_names(ms: Seq<CensusCurrentMode>) -> Seq<Seq<char>> {
    ms.map_values(|m: CensusCurrentMode| mode_name(m))
}

/// Describes the start and end of the search through history in the World Census.
#[derive(Clone, Debug, Default, PartialEq)]
pub struct CensusHistoryParams {
    /// Beginning of the measurement (a Unix timestamp, never zero).
    pub(crate) from: Option<u64>,
    /// End of the measurement (a Unix timestamp, never zero).
    pub(crate) to: Option<u64>,
}

impl CensusHistoryParams {
    /// The start of the window, if set.
    pub closed spec fn after_time(self) -> Option<u64> {
        self.from
    }

    /// The end of the window, if set.
    pub closed spec fn before_time(self) -> Option<u64> {
        self.to
    }

    /// Creates a new set of parameters from two timestamps, neither of them zero.
    ///
    /// Note that `after` corresponds with the URL parameter `from` and `before`
    /// corresponds with `to`.
    pub fn new(after: u64, before: u64) -> (r: Self)
        requires
            after > 0,
            before > 0,
        ensures
            r.after_time() == Some(after),
            r.before_time() == Some(before),
    {
        CensusHistoryParams { from: Some(after), to: Some(before) }
    }

    /// Restricts the data to be after/from a certain timestamp.
    pub fn after(&mut self, timestamp: u64) -> (r: &mut Self)
        requires
            timestamp > 0,
        ensures
            r.after_time() == Some(timestamp),
            r.before_time() == old(self).before_time(),
            *final(self) == *final(r),
    {
        self.from = Some(timestamp);
        self
    }

    /// Restricts the data to be before/until a certain timestamp.
    pub fn before(&mut self, timestamp: u64) -> (r: &mut Self)
        requires
            timestamp > 0,
        ensures
            r.before_time() == Some(timestamp),
            r.after_time() == old(self).after_time(),
            *final(self) == *final(r),
    {
        self.to = Some(timestamp);
        self
    }
}

/// The decimal form of an optional number.
pub open spec fn opt_decimal(x: Option<u64>) -> Option<Seq<char>> {
    match x {
        Some(n) => Some(decimal(n as nat)),
        None => None,
    }
}

/// The parameters that a census scale and census modes add.
pub open spec fn census_params(s: Pairs, scale: CensusScales, modes: CensusModes) -> Pairs {
    let s1 = with_optional_pair(s, "scale"@, scale_value(scale));
    match modes {
        CensusModes::History(h) => with_optional_pair(
            with_optional_pair(with_pair(s1, "mode"@, "history"@), "from"@, opt_decimal(h.after_time())),
            "to"@,
            opt_decimal(h.before_time()),
        ),
        CensusModes::Current(ms) => with_pair(s1, "mode"@, joined(mode_names(ms@), "+"@)),
    }
}

/// The parameters that the rank options add: the scale (one less than the stored value) and
/// the starting rank when it is past the first.
pub open spec fn rank_params(s: Pairs, scale: Option<u8>, start: Option<u32>) -> Pairs {
    let s1 = match scale {
        Some(x) => if x >= 1 {
            with_pair(s, "scale"@, decimal((x - 1) as nat))
        } else {
            s
        },
        None => s,
    };
    match start {
        Some(n) => if n > 1 {
            with_pair(s1, "start"@, decimal(n as nat))
        } else {
            s1
        },
        None => s1,
    }
}

/// The decimal forms of some numbers, as owned strings.
fn decimal_strings(ids: &[u8]) -> (r: Vec<String>)
    ensures
        r.deep_view() == decimals(ids@),
{
    let mut r: Vec<String> = Vec::new();
    let mut i: usize = 0;
    while i < ids.len()
        invariant
            i <= ids@.len(),
            r.deep_view() == decimals(ids@.take(i as int)),
        decreases ids.len() - i,
    {
        let d = u64_to_string(ids[i] as u64);
        let ghost before = r.deep_view();
        r.push(d);
        assert(r.deep_view() =~= before.push(d@));
        assert(decimals(ids@.take(i + 1)) =~= decimals(ids@.take(i as int)).push(d@));
        i = i + 1;
    }
    assert(ids@.take(i as int) =~= ids@);
    r
}

fn mode_strings(ms: &Vec<CensusCurrentMode>) -> (r: Vec<String>)
    ensures
        r.deep_view() == mode_names(ms@),
{
    let mut r: Vec<String> = Vec::new();
    let mut i: usize = 0;
    while i < ms.len()
        invariant
            i <= ms@.len(),
            r.deep_view() == mode_names(ms@.take(i as int)),
        decreases ms.len() - i,
    {
        let d = ms[i].to_string();
        let ghost before = r.deep_view();
        r.push(d);
        assert(r.deep_view() =~= before.push(d@));
        assert(mode_names(ms@.take(i + 1)) =~= mode_names(ms@.take(i as int)).push(d@));
        i = i + 1;
    }
    assert(ms@.take(i as int) =~= ms@);
    r
}

fn opt_u64_string(x: &Option<u64>) -> (r: Option<String>)
    ensures
        r.deep_view() == opt_decimal(*x),
{
    match x {
        Some(n) => Some(u64_to_string(*n)),
        None => None,
    }
}

impl Params {
    /// Adds the `scale` parameter for a choice of scales (today's scale adds nothing).
    pub fn insert_scale(&mut self, scale: &CensusScales) -> (r: &mut Self)
        ensures
            r@ == with_optional_pair(old(self)@, "scale"@, scale_value(*scale)),
            *final(self) == *final(r),
    {
        let value: Option<String> = match scale {
            CensusScales::One(id) => Some(u64_to_string(*id as u64)),
            CensusScales::Many(ids) => {
                let parts = decimal_strings(ids);
                Some(join(&parts, "+"))
            },
            CensusScales::All => Some(owned("all")),
            CensusScales::Today => None,
        };
        self.insert_on("scale", &value)
    }

    /// Adds the scale of a ranking, stored as one more than its ID (`None`: today's scale;
    /// the stored value is never zero, and zero would also mean today's scale).
    pub fn insert_rank_scale(&mut self, scale: &Option<u8>) -> (r: &mut Self)
        ensures
            r@ == rank_params(old(self)@, *scale, None),
            *final(self) == *final(r),
    {
        match scale {
            Some(x) => if *x >= 1 {
                self.insert_scale(&CensusScales::One(*x - 1))
            } else {
                self.insert_scale(&CensusScales::Today)
            },
            None => self.insert_scale(&CensusScales::Today),
        }
    }

    /// Adds the `mode` parameter, and for history the `from` and `to` bounds when set.
    pub fn insert_modes(&mut self, modes: &CensusModes) -> (r: &mut Self)
        ensures
            r@ == census_params(old(self)@, CensusScales::Today, *modes),
            *final(self) == *final(r),
    {
        match modes {
            CensusModes::History(h) => {
                self.insert("mode", "history");
                let from = opt_u64_string(&h.from);
                let to = opt_u64_string(&h.to);
                self.insert_on("from", &from);
                self.insert_on("to", &to);
            },
            CensusModes::Current(ms) => {
                let names = mode_strings(ms);
                let joined_names = join(&names, "+");
                self.insert("mode", joined_names.as_str());
            },
        }
        self
    }

    /// Adds the starting rank when it is past the first.
    pub fn insert_start(&mut self, start: &Option<u32>) -> (r: &mut Self)
        ensures
            r@ == rank_params(old(self)@, None, *start),
            *final(self) == *final(r),
    {
        match start {
            Some(n) => {
                if *n > 1 {
                    let s = u64_to_string(*n as u64);
                    self.insert("start", s.as_str());
                }
            },
            None => {},
        }
        self
    }
}

/// Information on how nations rank according to the World Census.
#[derive(Clone, Debug, Default, PartialEq)]
pub struct CensusRanksShard {
    /// One more than the scale ID; `None` is today's scale.
    scale: Option<u8>,
    start: Option<u32>,
}

impl CensusRanksShard {
    /// One more than the scale ID (`None`: today's scale).
    pub closed spec fn scale_code(self) -> Option<u8> {
        self.scale
    }

    /// The rank at which listing starts, if set.
    pub closed spec fn start_rank(self) -> Option<u32> {
        self.start
    }

    /// Create a new shard.
    /// - `scale`: The World Census statistic to use.
    /// - `start`: The ranking to start with (e.g. `5` would indicate starting at the fifth nation).
    pub fn new(scale: u8, start: u32) -> (r: Self)
        requires
            scale < 255,
        ensures
            r.scale_code() == Some((scale + 1) as u8),
            r.start_rank() == Some(start),
    {
        CensusRanksShard { scale: Some(scale + 1), start: Some(start) }
    }

    /// Set the World Census scale being requested to an ID.
    pub fn scale(&mut self, x: u8) -> (r: &mut Self)
        requires
            x < 255,
        ensures
            r.scale_code() == Some((x + 1) as u8),
            r.start_rank() == old(self).start_rank(),
            *final(self) == *final(r),
    {
        self.scale = Some(x + 1);
        self
    }

    /// Set the World Census scale being requested to the daily census scale.
    pub fn daily_scale(&mut self) -> (r: &mut Self)
        ensures
            r.scale_code() == None::<u8>,
            r.start_rank() == old(self).start_rank(),
            *final(self) == *final(r),
    {
        self.scale = None;
        self
    }

    /// The rank at which to start listing (e.g. `1000` would start at the 1000th nation).
    pub fn start(&mut self, x: u32) -> (r: &mut Self)
        ensures
            r.start_rank() == Some(x),
            r.scale_code() == old(self).scale_code(),
            *final(self) == *final(r),
    {
        self.start = Some(x);
        self
    }

    /// Adds this shard's parameters.
    pub fn add_params(&self, params: &mut Params)
        ensures
            final(params)@ == rank_params(old(params)@, self.scale_code(), self.start_rank()),
    {
        params.insert_rank_scale(&self.scale).insert_start(&self.start);
    }
}

/// The query text for some shard names: joined with `+`, in ASCII lowercase.
pub open spec fn query_of(names: Seq<Seq<char>>) -> Seq<char> {
    ascii_lower(joined(names, "+"@))
}

/// Builds the query text for some shard names.
pub fn query_from_names(names: &Vec<String>) -> (r: String)
    ensures
        r@ == query_of(names.deep_view()),
{
    let j = join(names, "+");
    to_ascii_lowercase(j.as_str())
}

/// The view of an optional string slice.
pub open spec fn opt_view(x: Option<&str>) -> Option<Seq<char>> {
    match x {
        Some(s) => Some(s@),
        None => None,
    }
}

/// Copies an optional string slice.
pub fn opt_owned(x: Option<&str>) -> (r: Option<String>)
    ensures
        r.deep_view() == opt_view(x),
{
    match x {
        Some(s) => Some(owned(s)),
        None => None,
    }
}

} // verus!
