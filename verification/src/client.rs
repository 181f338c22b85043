//! The decisions a client makes about the NationStates rate limits.
//!
//! Sending requests and reading responses happens outside the library. What is decided here:
//! how the rate-limit headers of a response are read, when the next request may be sent, and
//! whether a request must wait. Times are nanoseconds on a clock whose origin the caller
//! chooses.

use vstd::prelude::*;
use crate::text::{decimal, is_digit, owned, parse_decimal, parse_unsigned, push_char};

verus! {

/// The number of nanoseconds in a second.
pub const NANOS_PER_SECOND: u64 = 1_000_000_000;

/// A simple tool to help with NationStates rate limits.
#[derive(Clone, Copy, Debug, PartialEq, Eq, Structural)]
pub struct RateLimits {
    remaining: u8,
    reset: u8,
    retry_after: Option<u8>,
}

impl RateLimits {
    /// The number of requests that can still be sent in this timeframe.
    pub closed spec fn remaining_spec(self) -> u8 {
        self.remaining
    }

    /// The number of seconds until the timeframe resets.
    pub closed spec fn reset_spec(self) -> u8 {
        self.reset
    }

    /// The number of seconds until a request can be sent, if the API said.
    pub closed spec fn retry_after_spec(self) -> Option<u8> {
        self.retry_after
    }

    /// The number of requests that can still be sent in this timeframe.
    pub fn remaining(&self) -> (r: u8)
        ensures
            r == self.remaining_spec(),
    {
        self.remaining
    }

    /// The number of seconds until the timeframe resets.
    pub fn reset(&self) -> (r: u8)
        ensures
            r == self.reset_spec(),
    {
        self.reset
    }

    /// The number of seconds until a request can be sent.
    /// If a `Retry-After` header was not sent, returns `None`.
    pub fn retry_after(&self) -> (r: Option<u8>)
        ensures
            r == self.retry_after_spec(),
    {
        self.retry_after
    }
}

/// Why the rate-limit headers of a response could not be read.
#[derive(Clone, Debug, PartialEq, Eq)]
pub enum RateLimitError {
    /// The `RateLimit-` header of this name (`Remaining` or `Reset`) was not sent.
    NoRateLimitElementError(String),
    /// A header value was not made solely of visible ASCII characters.
    ToStrError,
    /// A header value was not an integer from 0 to 255; the value.
    IntegerParseError(String),
}

/// The view of a rate-limit error.
pub enum RateLimitFault {
    /// A header was missing; its name.
    Missing(Seq<char>),
    /// A header value held a byte that is not visible ASCII.
    NotVisible,
    /// A header value was no `u8`; the value.
    NotInteger(Seq<char>),
}

impl View for RateLimitError {
    type V = RateLimitFault;

    open spec fn view(&self) -> RateLimitFault {
        match self {
            RateLimitError::NoRateLimitElementError(s) => RateLimitFault::Missing(s@),
            RateLimitError::ToStrError => RateLimitFault::NotVisible,
            RateLimitError::IntegerParseError(s) => RateLimitFault::NotInteger(s@),
        }
    }
}

/// Whether a header byte is visible ASCII (or a tab), which `HeaderValue::to_str` of the
/// `http` crate asks of every byte.
pub open spec fn is_visible_ascii(b: u8) -> bool {
    (32 <= b && b < 127) || b == 9
}

/// The text of header bytes: one character per byte.
pub open spec fn header_chars(bytes: Seq<u8>) -> Seq<char> {
    bytes.map_values(|b: u8| b as char)
}

/// What reading one header value gives: its number, or the error.
pub open spec fn header_number(bytes: Seq<u8>) -> Result<u8, RateLimitFault> {
    if !(forall|i: int| 0 <= i < bytes.len() ==> is_visible_ascii(#[trigger] bytes[i])) {
        Err(RateLimitFault::NotVisible)
    } else {
        match parse_unsigned(header_chars(bytes), 255) {
            Some(n) => Ok(n as u8),
            None => Err(RateLimitFault::NotInteger(header_chars(bytes))),
        }
    }
}

/// The text of a header value, if every byte is visible ASCII (as `HeaderValue::to_str`).
fn header_text(bytes: &Vec<u8>) -> (r: Option<String>)
    ensures
        (forall|i: int| 0 <= i < bytes@.len() ==> is_visible_ascii(#[trigger] bytes@[i])) ==> (r
            matches Some(s) && s@ == header_chars(bytes@)),
        !(forall|i: int| 0 <= i < bytes@.len() ==> is_visible_ascii(#[trigger] bytes@[i])) ==> r is None,
{
    let mut s = String::new();
    let mut i: usize = 0;
    while i < bytes.len()
        invariant
            i <= bytes@.len(),
            forall|j: int| 0 <= j < i ==> is_visible_ascii(#[trigger] bytes@[j]),
            s@ == header_chars(bytes@.take(i as int)),
        decreases bytes@.len() - i,
    {
        let b = bytes[i];
        if !((32 <= b && b < 127) || b == 9) {
            assert(!is_visible_ascii(bytes@[i as int]));
            return None;
        }
        push_char(&mut s, b as char);
        assert(header_chars(bytes@.take(i + 1)) =~= header_chars(bytes@.take(i as int)).push(
            b as char,
        ));
        i = i + 1;
    }
    assert(bytes@.take(i as int) =~= bytes@);
    Some(s)
}

/// Reads one header value as a number from 0 to 255.
pub fn read_header_number(bytes: &Vec<u8>) -> (r: Result<u8, RateLimitError>)
    ensures
        match header_number(bytes@) {
            Ok(n) => r == Ok::<u8, RateLimitError>(n),
            Err(f) => r matches Err(e) && e@ == f,
        },
{
    match header_text(bytes) {
        None => Err(RateLimitError::ToStrError),
        Some(text) => match parse_decimal(text.as_str(), 255) {
            Some(n) => Ok(n as u8),
            None => Err(RateLimitError::IntegerParseError(text)),
        },
    }
}

/// What reading the rate-limit headers gives: `RateLimit-Remaining`, then `RateLimit-Reset`
/// (each must be sent), then `Retry-After` (which may be missing).
pub open spec fn limits_result(
    remaining: Option<Seq<u8>>,
    reset: Option<Seq<u8>>,
    retry_after: Option<Seq<u8>>,
) -> Result<(u8, u8, Option<u8>), RateLimitFault> {
    match remaining {
        None => Err(RateLimitFault::Missing("Remaining"@)),
        Some(rem) => match header_number(rem) {
            Err(f) => Err(f),
            Ok(m) => match reset {
                None => Err(RateLimitFault::Missing("Reset"@)),
                Some(res) => match header_number(res) {
                    Err(f) => Err(f),
                    Ok(s) => match retry_after {
                        None => Ok((m, s, None)),
                        Some(ra) => match header_number(ra) {
                            Err(f) => Err(f),
                            Ok(a) => Ok((m, s, Some(a))),
                        },
                    },
                },
            },
        },
    }
}

/// The bytes of a header that may be missing.
pub open spec fn header_bytes(h: Option<Vec<u8>>) -> Option<Seq<u8>> {
    match h {
        Some(v) => Some(v@),
        None => None,
    }
}

impl RateLimits {
    /// Reads the rate limits from the values of the `RateLimit-Remaining`,
    /// `RateLimit-Reset` and `Retry-After` headers of a response (`None` where one was not
    /// sent).
    pub fn from_headers(
        remaining: Option<Vec<u8>>,
        reset: Option<Vec<u8>>,
        retry_after: Option<Vec<u8>>,
    ) -> (r: Result<RateLimits, RateLimitError>)
        ensures
            match limits_result(header_bytes(remaining), header_bytes(reset), header_bytes(retry_after)) {
                Ok((m, s, a)) => r matches Ok(l) && l.remaining_spec() == m && l.reset_spec() == s
                    && l.retry_after_spec() == a,
                Err(f) => r matches Err(e) && e@ == f,
            },
    {
        let remaining = match remaining {
            None => return Err(RateLimitError::NoRateLimitElementError(owned("Remaining"))),
            Some(v) => read_header_number(&v)?,
        };
        let reset = match reset {
            None => return Err(RateLimitError::NoRateLimitElementError(owned("Reset"))),
            Some(v) => read_header_number(&v)?,
        };
        let retry_after = match retry_after {
            None => None,
            Some(v) => Some(read_header_number(&v)?),
        };
        Ok(RateLimits { remaining, reset, retry_after })
    }

    /// How many seconds to wait before the next request: the time until the timeframe resets
    /// when no request is left, the `Retry-After` time (if any) otherwise.
    pub fn wait_seconds(&self) -> (r: Option<u8>)
        ensures
            r == wait_of(*self),
    {
        if self.remaining == 0 {
            Some(self.reset)
        } else {
            self.retry_after
        }
    }
}

/// The latest time, in nanoseconds, that a clock reading may take here: far enough from the
/// end of `u64` that a wait of 255 seconds can be added to it.
pub const LATEST_NANOS: u64 = 18_446_743_818_709_551_615;

/// How many seconds rate limits ask to wait: the time until the timeframe resets when no
/// request is left, the `Retry-After` time (if any) otherwise.
pub open spec fn wait_of(limits: RateLimits) -> Option<u8> {
    if limits.remaining_spec() == 0 {
        Some(limits.reset_spec())
    } else {
        limits.retry_after_spec()
    }
}

/// Whether a client in state `s` may send a request at `now`.
pub open spec fn may_send(s: ClientState, now: u64) -> bool {
    match s.send_after {
        Some(t) => t <= now,
        None => true,
    }
}

/// The state of a client after a response came at `now` with these rate limits.
pub open spec fn after_response(s: ClientState, limits: RateLimits, now: u64) -> ClientState {
    ClientState {
        rate_limiter: Some(limits),
        last_sent: Some(now),
        send_after: match wait_of(limits) {
            Some(w) => Some((now + w * NANOS_PER_SECOND) as u64),
            None => s.send_after,
        },
    }
}

/// What a client remembers between requests.
#[derive(Clone, Copy, Debug, PartialEq, Eq, Structural)]
pub struct ClientState {
    /// The rate limits that the last response gave.
    pub rate_limiter: Option<RateLimits>,
    /// When the last request was answered.
    pub last_sent: Option<u64>,
    /// When the next request may be sent, if the API asked to wait.
    pub send_after: Option<u64>,
}

impl ClientState {
    /// A client that has sent nothing yet.
    pub fn new() -> (r: Self)
        ensures
            r.rate_limiter is None,
            r.last_sent is None,
            r.send_after is None,
    {
        ClientState { rate_limiter: None, last_sent: None, send_after: None }
    }

    /// Whether a request may be sent at `now`: `Err` with the time to wait until, when the API
    /// asked to wait until later than `now`.
    pub fn check_send(&self, now: u64) -> (r: Result<(), u64>)
        ensures
            r is Ok <==> may_send(*self, now),
            r matches Err(t) ==> self.send_after == Some(t),
    {
        match self.send_after {
            Some(t) => if t > now {
                Err(t)
            } else {
                Ok(())
            },
            None => Ok(()),
        }
    }

    /// Records a response that came at `now` with these rate limits: they are kept, `now` is
    /// the last time sent, and when they ask to wait, the next request may be sent only that
    /// many seconds after `now` (otherwise the earlier wait is kept).
    pub fn record_response(&mut self, limits: RateLimits, now: u64)
        requires
            now <= LATEST_NANOS,
        ensures
            *final(self) == after_response(*old(self), limits, now),
    {
        self.rate_limiter = Some(limits);
        self.last_sent = Some(now);
        match limits.wait_seconds() {
            Some(s) => {
                assert(s as u64 * NANOS_PER_SECOND <= 255_000_000_000) by (nonlinear_arith)
                    requires
                        s <= 255,
                ;
                self.send_after = Some(now + s as u64 * NANOS_PER_SECOND);
            },
            None => {},
        }
    }
}

/// After a response that leaves no request in the timeframe, no request may be sent until the
/// timeframe resets, and any may be sent from then on.
pub proof fn lemma_exhausted_limits_wait(s: ClientState, limits: RateLimits, now: u64, later: u64)
    requires
        limits.remaining_spec() == 0,
        now <= LATEST_NANOS,
    ensures
        after_response(s, limits, now).send_after == Some(
            (now + limits.reset_spec() * NANOS_PER_SECOND) as u64,
        ),
        may_send(after_response(s, limits, now), later) <==> later >= now + limits.reset_spec()
            * NANOS_PER_SECOND,
{
    let r = limits.reset_spec();
    assert(r * NANOS_PER_SECOND <= 255 * NANOS_PER_SECOND) by (nonlinear_arith)
        requires
            r <= 255,
    ;
}

/// Recording a response keeps its rate limits and its time, and sets when the next request may
/// go: `RateLimit-Reset` seconds later when no request is left, `Retry-After` seconds later
/// when requests are left and the header was sent, and as before otherwise.
pub proof fn lemma_response_recorded(s: ClientState, limits: RateLimits, now: u64)
    requires
        now <= LATEST_NANOS,
    ensures
        after_response(s, limits, now).rate_limiter == Some(limits),
        after_response(s, limits, now).last_sent == Some(now),
        after_response(s, limits, now).send_after == (if limits.remaining_spec() == 0 {
            Some((now + limits.reset_spec() * NANOS_PER_SECOND) as u64)
        } else {
            match limits.retry_after_spec() {
                Some(t) => Some((now + t * NANOS_PER_SECOND) as u64),
                None => s.send_after,
            }
        }),
{
}

/// After a response that leaves requests in the timeframe but asks to retry after `t` seconds,
/// whatever the client was told before, no request may be sent until `t` seconds after the
/// response, and any may be sent from then on.
pub proof fn lemma_retry_after_waits(s: ClientState, limits: RateLimits, now: u64, later: u64)
    requires
        limits.remaining_spec() > 0,
        limits.retry_after_spec() is Some,
        now <= LATEST_NANOS,
    ensures
        after_response(s, limits, now).send_after == Some(
            (now + limits.retry_after_spec().unwrap() * NANOS_PER_SECOND) as u64,
        ),
        now + limits.retry_after_spec().unwrap() * NANOS_PER_SECOND <= u64::MAX,
        may_send(after_response(s, limits, now), later) <==> later >= now
            + limits.retry_after_spec().unwrap() * NANOS_PER_SECOND,
{
    let t = limits.retry_after_spec().unwrap();
    assert(t * NANOS_PER_SECOND <= 255 * NANOS_PER_SECOND) by (nonlinear_arith)
        requires
            t <= 255,
    ;
}

/// After a response that leaves requests in the timeframe and asks for no retry delay, a client
/// may send exactly when it could before.
pub proof fn lemma_room_left_keeps_wait(s: ClientState, limits: RateLimits, now: u64, later: u64)
    requires
        limits.remaining_spec() > 0,
        limits.retry_after_spec() is None,
    ensures
        may_send(after_response(s, limits, now), later) == may_send(s, later),
{
}

/// Reading a header that holds a number written in decimal gives the number.
pub proof fn lemma_header_number_read_back(n: u8, bytes: Seq<u8>)
    requires
        header_chars(bytes) == decimal(n as nat),
    ensures
        header_number(bytes) == Ok::<u8, RateLimitFault>(n),
{
    crate::text::lemma_decimal_digits(n as nat);
    crate::text::lemma_decimal_read_back(n as nat, 255);
    assert forall|i: int| 0 <= i < bytes.len() implies is_visible_ascii(#[trigger] bytes[i]) by {
        assert(header_chars(bytes)[i] == bytes[i] as char);
        assert(is_digit(decimal(n as nat)[i]));
    }
}

} // verus!
