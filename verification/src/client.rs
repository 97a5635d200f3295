//! Client-side logic for talking to a device: the request endpoint, the
//! short-lived status cache, the local API key of HTTPS adapters and the
//! read requests that fetch status and adapter information.

use vstd::prelude::*;
use crate::text::{push_char, trim, trimmed};
use reqwest::header::{HeaderValue, InvalidHeaderValue};
use std::time::{Duration, Instant};

verus! {

/// The digit character of `d` (< 10).
pub open spec fn digit_char(d: nat) -> char {
    (48 + d) as char
}

/// Decimal notation of `n`, without leading zeros.
pub open spec fn decimal(n: nat) -> Seq<char>
    decreases n,
{
    if n < 10 {
        seq![digit_char(n)]
    } else {
        decimal(n / 10).push(digit_char(n % 10))
    }
}

/// Dotted-decimal notation of an IPv4 address.
pub open spec fn dotted_quad(o: [u8; 4]) -> Seq<char> {
    decimal(o[0] as nat) + seq!['.'] + decimal(o[1] as nat) + seq!['.'] + decimal(o[2] as nat)
        + seq!['.'] + decimal(o[3] as nat)
}

/// The multi-request endpoint of the device at IPv4 address `octets`.
pub open spec fn endpoint_url(scheme: Seq<char>, octets: [u8; 4]) -> Seq<char> {
    scheme + "://"@ + dotted_quad(octets) + "/dsiot/multireq"@
}

fn push_digit(s: &mut String, d: u8)
    requires
        d < 10,
    ensures
        final(s)@ == old(s)@.push(digit_char(d as nat)),
{
    push_char(s, (48 + d) as char);
}

fn push_decimal(s: &mut String, n: u8)
    ensures
        final(s)@ == old(s)@ + decimal(n as nat),
{
    proof {
        reveal_with_fuel(decimal, 3);
    }
    if n >= 100 {
        push_digit(s, n / 100);
        push_digit(s, (n / 10) % 10);
        push_digit(s, n % 10);
        assert(decimal(n as nat) == seq![digit_char((n / 100) as nat), digit_char(((n / 10) % 10) as nat), digit_char((n % 10) as nat)]);
    } else if n >= 10 {
        push_digit(s, n / 10);
        push_digit(s, n % 10);
        assert(decimal(n as nat) == seq![digit_char((n / 10) as nat), digit_char((n % 10) as nat)]);
    } else {
        push_digit(s, n);
    }
}

/// The endpoint that multi-requests to the device at `octets` are posted to,
/// over `scheme` (`http` or `https`).
pub fn multireq_endpoint(scheme: &str, octets: [u8; 4]) -> (url: String)
    ensures
        url@ == endpoint_url(scheme@, octets),
{
    let mut url = String::from_str(scheme);
    url.append("://");
    push_decimal(&mut url, octets[0]);
    push_char(&mut url, '.');
    push_decimal(&mut url, octets[1]);
    push_char(&mut url, '.');
    push_decimal(&mut url, octets[2]);
    push_char(&mut url, '.');
    push_decimal(&mut url, octets[3]);
    url.append("/dsiot/multireq");
    url
}

/// Transport of the device API.
#[derive(Debug, PartialEq, Eq, Clone, Copy, Structural)]
pub enum Scheme {
    Http,
    Https,
}

impl Scheme {
    /// The URL scheme.
    pub fn as_str(&self) -> (s: &'static str)
        ensures
            s@ == (match self {
                Scheme::Http => "http"@,
                Scheme::Https => "https"@,
            }),
    {
        match self {
            Scheme::Http => "http",
            Scheme::Https => "https",
        }
    }
}

/// The transports tried, in order, for a device given by address: HTTPS
/// first when a local API key is configured, then plain HTTP.
pub fn connection_order(has_local_api_key: bool) -> (order: Vec<Scheme>)
    ensures
        order@ == (if has_local_api_key {
            seq![Scheme::Https, Scheme::Http]
        } else {
            seq![Scheme::Http]
        }),
{
    let mut order: Vec<Scheme> = Vec::new();
    if has_local_api_key {
        order.push(Scheme::Https);
    }
    order.push(Scheme::Http);
    order
}

/// What connecting to a device given by address does next.
#[derive(Debug, PartialEq, Eq, Clone, Copy, Structural)]
pub enum ConnectStep {
    /// Try to connect over this transport.
    Try(Scheme),
    /// Stop: the outcome of the last attempt is the result.
    Done,
}

/// The next step of connecting, given whether a local API key is configured
/// and the last attempt (its transport and whether it succeeded), if any:
/// HTTPS first when there is a key, otherwise HTTP; a failed HTTPS attempt
/// falls back to HTTP; a successful attempt, or any HTTP attempt, ends it.
pub open spec fn connect_step_of(has_local_api_key: bool, last: Option<(Scheme, bool)>) -> ConnectStep {
    match last {
        None => ConnectStep::Try(if has_local_api_key { Scheme::Https } else { Scheme::Http }),
        Some((Scheme::Https, false)) => ConnectStep::Try(Scheme::Http),
        Some(_) => ConnectStep::Done,
    }
}

/// Decides the next connection attempt (see `connect_step_of`).
pub fn next_connect_step(has_local_api_key: bool, last: Option<(Scheme, bool)>) -> (r: ConnectStep)
    ensures
        r == connect_step_of(has_local_api_key, last),
{
    match last {
        None => if has_local_api_key {
            ConnectStep::Try(Scheme::Https)
        } else {
            ConnectStep::Try(Scheme::Http)
        },
        Some((Scheme::Https, false)) => ConnectStep::Try(Scheme::Http),
        Some(_) => ConnectStep::Done,
    }
}

/// Without a key only HTTP is tried; with a key HTTPS is tried first, its
/// success ends the attempts and its failure falls back to HTTP, whose
/// outcome is final. The transports tried are those of `connection_order`,
/// cut short by the first success.
pub proof fn lemma_connect_fallback(has_local_api_key: bool, https_ok: bool, http_ok: bool)
    ensures
        !has_local_api_key ==> connect_step_of(false, None) == ConnectStep::Try(Scheme::Http)
            && connect_step_of(false, Some((Scheme::Http, http_ok))) == ConnectStep::Done,
        has_local_api_key ==> connect_step_of(true, None) == ConnectStep::Try(Scheme::Https),
        connect_step_of(has_local_api_key, Some((Scheme::Https, true))) == ConnectStep::Done,
        connect_step_of(has_local_api_key, Some((Scheme::Https, false))) == ConnectStep::Try(Scheme::Http),
        connect_step_of(has_local_api_key, Some((Scheme::Http, http_ok))) == ConnectStep::Done,
{
}

/// How long a cached status is served, in milliseconds.
pub const CACHE_TTL_MS: u128 = 5000;

#[verifier::external_type_specification]
#[verifier::external_body]
pub struct ExInstant(Instant);

/// `Instant::now`. The reading comes from the clock; nothing is stated of it.
#[verifier::external_body]
fn instant_now() -> Instant {
    Instant::now()
}

/// `Instant::elapsed`. The reading comes from the clock; nothing is stated of it.
#[verifier::external_body]
fn instant_elapsed(t: &Instant) -> Duration {
    t.elapsed()
}

/// `Duration::as_millis`. Nothing is stated of the result: a duration is
/// opaque here.
#[verifier::external_body]
fn duration_as_millis(d: &Duration) -> u128 {
    d.as_millis()
}

/// The last status read from or written to a device, with the time it was
/// stored.
pub struct Cache<T> {
    last_updated: Instant,
    data: Option<T>,
}

impl<T: Clone> Cache<T> {
    /// The stored value, if any.
    pub closed spec fn stored(&self) -> Option<T> {
        self.data
    }

    /// What a read gives `elapsed_ms` milliseconds after the last store: the
    /// stored value while it is younger than `CACHE_TTL_MS`, else nothing.
    pub open spec fn read_at(&self, elapsed_ms: u128) -> Option<T> {
        if elapsed_ms < CACHE_TTL_MS {
            self.stored()
        } else {
            None
        }
    }

    /// An empty cache.
    pub fn new() -> (c: Cache<T>)
        ensures
            c.stored() is None,
    {
        Cache { last_updated: instant_now(), data: None }
    }

    /// The time of the last store.
    pub closed spec fn stamp(&self) -> Instant {
        self.last_updated
    }

    /// Stores `value`, stamped with the time `now`.
    pub fn update_at(&mut self, value: T, now: Instant)
        ensures
            final(self).stored() == Some(value),
            final(self).stamp() == now,
    {
        self.last_updated = now;
        self.data = Some(value);
    }

    /// Stores `value`, stamped with the current time (which the clock
    /// decides).
    pub fn update(&mut self, value: T)
        ensures
            final(self).stored() == Some(value),
    {
        let now = instant_now();
        self.update_at(value, now);
    }

    /// The read `elapsed_ms` milliseconds after the last store: a clone of
    /// the stored value while it is fresh.
    pub fn get_at(&self, elapsed_ms: u128) -> (r: Option<T>)
        ensures
            r is Some <==> self.read_at(elapsed_ms) is Some,
            r matches Some(v) ==> cloned::<T>(self.read_at(elapsed_ms).unwrap(), v),
    {
        if elapsed_ms < CACHE_TTL_MS {
            match &self.data {
                Some(v) => Some(v.clone()),
                None => None,
            }
        } else {
            None
        }
    }

    /// The stored value if it is still fresh by the clock. Whether it is
    /// depends on the time; whatever is returned is a clone of the stored
    /// value, and an empty cache returns nothing.
    pub fn get(&self) -> (r: Option<T>)
        ensures
            r matches Some(v) ==> (self.stored() is Some && cloned::<T>(self.stored().unwrap(), v)),
            self.stored() is None ==> r is None,
    {
        let elapsed = instant_elapsed(&self.last_updated);
        self.get_at(duration_as_millis(&elapsed))
    }

    /// The first step of a status read `elapsed_ms` milliseconds after the
    /// last store: serve a clone of the cached value while it is fresh,
    /// otherwise fetch the status from the device.
    pub fn status_action_at(&self, elapsed_ms: u128) -> (a: StatusAction<T>)
        ensures
            a is Fetch <==> self.read_at(elapsed_ms) is None,
            a matches StatusAction::Serve(v) ==> cloned::<T>(self.read_at(elapsed_ms).unwrap(), v),
    {
        match self.get_at(elapsed_ms) {
            Some(v) => StatusAction::Serve(v),
            None => StatusAction::Fetch,
        }
    }

    /// The first step of a status read, by the clock: whatever is served is a
    /// clone of the stored value, and an empty cache always fetches.
    pub fn status_action(&self) -> (a: StatusAction<T>)
        ensures
            a matches StatusAction::Serve(v) ==> (self.stored() is Some && cloned::<T>(self.stored().unwrap(), v)),
            self.stored() is None ==> a is Fetch,
    {
        let elapsed = instant_elapsed(&self.last_updated);
        self.status_action_at(duration_as_millis(&elapsed))
    }

    /// The last step of a fetch, given its outcome at time `now`: the status
    /// that the device's answer was read as, or the error of the send or of
    /// the reading. A status is stored (a clone of it, stamped `now`) and
    /// returned; an error is returned and leaves the cache as it was.
    pub fn finish_fetch_at<E>(&mut self, outcome: Result<T, E>, now: Instant) -> (r: Result<T, E>)
        ensures
            r == outcome,
            outcome is Err ==> *final(self) == *old(self),
            outcome matches Ok(v) ==> (final(self).stored() is Some && cloned::<T>(v, final(self).stored().unwrap())
                && final(self).stamp() == now),
    {
        match outcome {
            Ok(v) => {
                let stored = v.clone();
                self.update_at(stored, now);
                Ok(v)
            },
            Err(e) => Err(e),
        }
    }

    /// The last step of a fetch, stamped with the current time (which the
    /// clock decides); see `finish_fetch_at`.
    pub fn finish_fetch<E>(&mut self, outcome: Result<T, E>) -> (r: Result<T, E>)
        ensures
            r == outcome,
            outcome is Err ==> *final(self) == *old(self),
            outcome matches Ok(v) ==> (final(self).stored() is Some && cloned::<T>(v, final(self).stored().unwrap())),
    {
        let now = instant_now();
        self.finish_fetch_at(outcome, now)
    }
}

/// What a status read does first.
pub enum StatusAction<T> {
    /// Answer with this value, taken from the cache.
    Serve(T),
    /// Ask the device.
    Fetch,
}

/// A value stored in the cache is what a read gives back while it is fresh,
/// and no read gives anything once it has expired.
pub proof fn lemma_cache_read_after_update<T: Clone>(c: Cache<T>, value: T, elapsed_ms: u128)
    requires
        c.stored() == Some(value),
    ensures
        elapsed_ms < CACHE_TTL_MS ==> c.read_at(elapsed_ms) == Some(value),
        elapsed_ms >= CACHE_TTL_MS ==> c.read_at(elapsed_ms) is None,
{
}

/// A cached status is fresh for five seconds: a read fewer than 5000 ms
/// after the last store gives the stored value, a later one nothing.
pub proof fn lemma_cache_freshness<T: Clone>(c: Cache<T>, elapsed_ms: u128)
    ensures
        elapsed_ms < 5000 ==> c.read_at(elapsed_ms) == c.stored(),
        elapsed_ms >= 5000 ==> c.read_at(elapsed_ms) is None,
{
}

/// Why a local API key is refused.
#[derive(Debug, PartialEq, Eq, Clone, Copy, Structural)]
pub enum LocalApiKeyError {
    /// Nothing but white space.
    Empty,
    /// Not acceptable as an HTTP header value.
    InvalidHeaderValue,
}

impl LocalApiKeyError {
    /// The message that the refusal is reported with.
    pub fn message(&self) -> (m: &'static str)
        ensures
            m@ == (match self {
                LocalApiKeyError::Empty => "local API key is empty"@,
                LocalApiKeyError::InvalidHeaderValue => "failed to parse header value"@,
            }),
    {
        match self {
            LocalApiKeyError::Empty => "local API key is empty",
            LocalApiKeyError::InvalidHeaderValue => "failed to parse header value",
        }
    }
}

/// The local API key held in a key file: its contents without surrounding
/// white space, refused when nothing else is left.
pub fn parse_local_api_key(contents: &str) -> (r: Result<String, LocalApiKeyError>)
    ensures
        r is Ok <==> trimmed(contents@).len() > 0,
        r matches Ok(k) ==> k@ == trimmed(contents@),
        r matches Err(e) ==> e == LocalApiKeyError::Empty,
{
    let key = trim(contents);
    if key.unicode_len() == 0 {
        Err(LocalApiKeyError::Empty)
    } else {
        Ok(key)
    }
}

/// The local API key given directly (rather than in a file): trimmed, and
/// absent when nothing is left.
pub fn configured_local_api_key(raw: Option<String>) -> (r: Option<String>)
    ensures
        r is Some <==> (raw matches Some(s) && trimmed(s@).len() > 0),
        r matches Some(k) ==> (raw matches Some(s) && k@ == trimmed(s@)),
{
    match raw {
        Some(s) => match parse_local_api_key(s.as_str()) {
            Ok(k) => Some(k),
            Err(_) => None,
        },
        None => None,
    }
}

/// Text that an HTTP header value may hold: tabs and every character from
/// the space upwards except DEL.
pub open spec fn valid_header_text(s: Seq<char>) -> bool {
    forall|i: int|
        0 <= i < s.len() ==> (#[trigger] s[i] == '\t' || (s[i] as u32 >= 32 && s[i] as u32 != 127))
}

#[verifier::external_type_specification]
#[verifier::external_body]
pub struct ExHeaderValue(HeaderValue);

#[verifier::external_type_specification]
#[verifier::external_body]
pub struct ExInvalidHeaderValue(InvalidHeaderValue);

/// The bytes that a header value holds (`HeaderValue::as_bytes`).
pub uninterp spec fn header_value_bytes(h: HeaderValue) -> Seq<u8>;

/// Whether a header value is marked sensitive (`HeaderValue::is_sensitive`).
pub uninterp spec fn header_value_is_sensitive(h: HeaderValue) -> bool;

/// `HeaderValue::from_str` (reqwest's re-export of the `http` crate). It
/// succeeds exactly when every byte of the text is a tab or at least 32 and
/// not 127; on characters this is `valid_header_text`, since every byte of a
/// non-ASCII character is at least 128. The value then holds the text's
/// UTF-8 bytes and is not marked sensitive.
#[verifier::external_body]
fn header_value_from_str(s: &str) -> (r: Result<HeaderValue, InvalidHeaderValue>)
    ensures
        r is Ok <==> valid_header_text(s@),
        r matches Ok(h) ==> header_value_bytes(h) == vstd::utf8::encode_utf8(s@) && !header_value_is_sensitive(h),
{
    HeaderValue::from_str(s)
}

/// `HeaderValue::set_sensitive`: sets the sensitivity mark and keeps the
/// bytes.
#[verifier::external_body]
fn header_value_set_sensitive(h: &mut HeaderValue, sensitive: bool)
    ensures
        header_value_bytes(*final(h)) == header_value_bytes(*old(h)),
        header_value_is_sensitive(*final(h)) == sensitive,
{
    h.set_sensitive(sensitive);
}

/// The authorization header that carries a local API key: the key without
/// surrounding white space, marked sensitive. Refused when the key is empty
/// or not a valid header value.
pub fn local_api_key_header(raw: &str) -> (r: Result<HeaderValue, LocalApiKeyError>)
    ensures
        trimmed(raw@).len() == 0 ==> (r matches Err(e) && e == LocalApiKeyError::Empty),
        trimmed(raw@).len() > 0 && !valid_header_text(trimmed(raw@)) ==> (r matches Err(e) && e
            == LocalApiKeyError::InvalidHeaderValue),
        r is Ok <==> (trimmed(raw@).len() > 0 && valid_header_text(trimmed(raw@))),
        r matches Ok(h) ==> header_value_bytes(h) == vstd::utf8::encode_utf8(trimmed(raw@))
            && header_value_is_sensitive(h),
{
    let key = match parse_local_api_key(raw) {
        Ok(k) => k,
        Err(e) => return Err(e),
    };
    match header_value_from_str(key.as_str()) {
        Ok(mut header) => {
            header_value_set_sensitive(&mut header, true);
            Ok(header)
        },
        Err(_) => Err(LocalApiKeyError::InvalidHeaderValue),
    }
}

/// Operation code of a read in a multi-request.
pub const OP_READ: u8 = 2;

/// One entry of a multi-request.
pub struct ReadRequest {
    /// Operation code.
    pub op: u8,
    /// Resource path.
    pub to: String,
}

fn read_of(path: &str) -> (r: ReadRequest)
    ensures
        r.op == OP_READ,
        r.to@ == path@,
{
    ReadRequest { op: OP_READ, to: String::from_str(path) }
}

/// The requests that read a device's status: the indoor and the outdoor unit.
pub fn status_requests() -> (r: Vec<ReadRequest>)
    ensures
        r@.len() == 2,
        forall|i: int| 0 <= i < 2 ==> (#[trigger] r@[i]).op == OP_READ,
        r@[0].to@ == "/dsiot/edge/adr_0100.dgc_status?filter=pv,md"@,
        r@[1].to@ == "/dsiot/edge/adr_0200.dgc_status?filter=pv,md"@,
{
    let mut r: Vec<ReadRequest> = Vec::new();
    r.push(read_of("/dsiot/edge/adr_0100.dgc_status?filter=pv,md"));
    r.push(read_of("/dsiot/edge/adr_0200.dgc_status?filter=pv,md"));
    r
}

/// The requests that read a device's adapter information: identity, display
/// name and radio.
pub fn info_requests() -> (r: Vec<ReadRequest>)
    ensures
        r@.len() == 3,
        forall|i: int| 0 <= i < 3 ==> (#[trigger] r@[i]).op == OP_READ,
        r@[0].to@ == "/dsiot/edge.adp_i"@,
        r@[1].to@ == "/dsiot/edge.adp_d"@,
        r@[2].to@ == "/dsiot/edge.adp_r"@,
{
    let mut r: Vec<ReadRequest> = Vec::new();
    r.push(read_of("/dsiot/edge.adp_i"));
    r.push(read_of("/dsiot/edge.adp_d"));
    r.push(read_of("/dsiot/edge.adp_r"));
    r
}

} // verus!
