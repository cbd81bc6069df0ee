//! The rate-limited request layer's decisions.
//!
//! The transport that actually sends bytes lives outside this crate;
//! what stands here is everything the request layer decides: which
//! verbs are legal, what URL and authorization header a call carries,
//! how each response status is classified into the error taxonomy, how
//! a throttling response's retry delay is read, and the per-route
//! reset-time book. Requests are meant to consult the book before
//! going out: `check_route` says how long a route still has to wait,
//! and a throttled response is recorded back into it.

use vstd::prelude::*;
use vstd::string::StringExecFns;
use vstd::string::StringSliceAdditionalSpecFns;
use crate::digits::{all_dec_digits, dec_value, is_dec_digit, parse_u64_dec};
use crate::errors::DiscordError;
use crate::json::{json_get, json_parse, json_text, json_as_string};

verus! {

/// The five verbs the protocol speaks.
pub open spec fn spec_valid_method(m: Seq<char>) -> bool {
    m == "GET"@ || m == "POST"@ || m == "PUT"@ || m == "PATCH"@ || m == "DELETE"@
}

/// Everything the transport needs to put one request on the wire.
#[derive(Debug, Clone, PartialEq, Eq)]
pub struct RequestPlan {
    /// The full endpoint URL.
    pub url: String,
    /// The authorization header value, when a token is set.
    pub authorization: Option<String>,
}

/// The position of the first dot in a byte string, or its length when
/// there is none.
pub open spec fn dot_pos(s: Seq<u8>, i: int) -> int
    decreases s.len() - i,
{
    if i < 0 || i >= s.len() {
        s.len() as int
    } else if s[i] == 0x2E {
        i
    } else {
        dot_pos(s, i + 1)
    }
}

/// The fractional digits of a retry delay, scaled to milliseconds:
/// the first three digits count, shorter fractions are padded.
pub open spec fn frac_scaled(f: Seq<u8>) -> nat {
    if f.len() >= 3 {
        dec_value(f.take(3))
    } else if f.len() == 2 {
        dec_value(f) * 10
    } else if f.len() == 1 {
        dec_value(f) * 100
    } else {
        0
    }
}

/// A decimal retry delay in seconds, read as whole milliseconds:
/// digits, optionally a dot and more digits, of which the first three
/// fractional digits are kept. Anything else, and a value that does
/// not fit, is rejected.
pub open spec fn spec_retry_ms(s: Seq<u8>) -> Option<u64> {
    let d = dot_pos(s, 0);
    let ip = s.take(d);
    let fp = if d == s.len() {
        Seq::<u8>::empty()
    } else {
        s.subrange(d + 1, s.len() as int)
    };
    if ip.len() > 0 && all_dec_digits(ip) && all_dec_digits(fp) && dec_value(ip) * 1000
        + frac_scaled(fp) <= u64::MAX {
        Some((dec_value(ip) * 1000 + frac_scaled(fp)) as u64)
    } else {
        None
    }
}

/// Values denoted by at most three digits stay under a thousand.
proof fn lemma_dec_value_small(s: Seq<u8>)
    requires
        all_dec_digits(s),
        s.len() <= 3,
    ensures
        dec_value(s) < 1000,
{
    if s.len() > 0 {
        assert(forall|i: int|
            0 <= i < s.drop_last().len() ==> is_dec_digit(#[trigger] s.drop_last()[i]));
        lemma_dec_value_small_2(s.drop_last());
        assert(is_dec_digit(s[s.len() - 1]));
        assert(s.last() == s[s.len() - 1]);
        assert(dec_value(s) == dec_value(s.drop_last()) * 10 + (s.last() - 0x30) as nat);
    }
}

proof fn lemma_dec_value_small_1(s: Seq<u8>)
    requires
        all_dec_digits(s),
        s.len() <= 1,
    ensures
        dec_value(s) < 10,
{
    if s.len() == 1 {
        assert(s.drop_last().len() == 0);
        assert(is_dec_digit(s[0]));
        assert(s.last() == s[0]);
        assert(dec_value(s.drop_last()) == 0);
        assert(dec_value(s) == dec_value(s.drop_last()) * 10 + (s.last() - 0x30) as nat);
    }
}

proof fn lemma_dec_value_small_2(s: Seq<u8>)
    requires
        all_dec_digits(s),
        s.len() <= 2,
    ensures
        dec_value(s) < 100,
{
    if s.len() >= 1 {
        assert(forall|i: int|
            0 <= i < s.drop_last().len() ==> is_dec_digit(#[trigger] s.drop_last()[i]));
        lemma_dec_value_small_1(s.drop_last());
        assert(is_dec_digit(s[s.len() - 1]));
        assert(s.last() == s[s.len() - 1]);
        assert(dec_value(s) == dec_value(s.drop_last()) * 10 + (s.last() - 0x30) as nat);
    }
}

/// Reads a decimal seconds value as whole milliseconds.
pub fn parse_retry_ms(s: &[u8]) -> (r: Option<u64>)
    ensures
        r == spec_retry_ms(s@),
{
    let mut i: usize = 0;
    while i < s.len() && s[i] != 0x2E
        invariant
            0 <= i <= s@.len(),
            dot_pos(s@, 0) == dot_pos(s@, i as int),
        decreases s@.len() - i,
    {
        i = i + 1;
    }
    let d: usize = i;
    proof {
        assert(dot_pos(s@, 0) == d);
    }
    let int_val = match parse_u64_dec(&s[0..d]) {
        Some(v) => v,
        None => {
            return None;
        },
    };
    let frac: u64 = if d == s.len() {
        0
    } else {
        let fp = &s[d + 1..s.len()];
        let mut j: usize = 0;
        while j < fp.len()
            invariant
                0 <= j <= fp@.len(),
                d < s@.len(),
                dot_pos(s@, 0) == d,
                fp@ == s@.subrange(d + 1, s@.len() as int),
                all_dec_digits(fp@.take(j as int)),
            decreases fp@.len() - j,
        {
            let b = fp[j];
            if b < 0x30 || b > 0x39 {
                assert(!all_dec_digits(fp@));
                return None;
            }
            proof {
                assert(fp@.take(j + 1).drop_last() =~= fp@.take(j as int));
            }
            j = j + 1;
        }
        proof {
            assert(fp@.take(fp@.len() as int) =~= fp@);
        }
        let keep: usize = if fp.len() >= 3 {
            3
        } else {
            fp.len()
        };
        let head = &fp[0..keep];
        proof {
            assert(head@ =~= fp@.take(keep as int));
            assert(head@.len() <= 3);
            lemma_dec_value_small(head@);
        }
        let v3 = match parse_u64_dec(head) {
            Some(v) => v,
            None => {
                // at most three digits always parse; head is empty only
                // when the fraction itself is empty
                if keep == 0 {
                    0
                } else {
                    return None;
                }
            },
        };
        proof {
            if fp@.len() >= 3 {
                assert(frac_scaled(fp@) == dec_value(fp@.take(3)));
            } else {
                assert(fp@.take(fp@.len() as int) =~= fp@);
            }
        }
        if fp.len() >= 3 {
            v3
        } else if fp.len() == 2 {
            v3 * 10
        } else if fp.len() == 1 {
            v3 * 100
        } else {
            0
        }
    };
    let scaled = match int_val.checked_mul(1000) {
        Some(v) => v,
        None => {
            return None;
        },
    };
    let total = match scaled.checked_add(frac) {
        Some(v) => v,
        None => {
            return None;
        },
    };
    Some(total)
}

/// The per-route reset-time book: each throttled route maps to the
/// clock reading before which no request on it should go out. Later
/// records shadow earlier ones.
pub open spec fn tracker_map(entries: Seq<(String, u64)>) -> Map<Seq<char>, u64>
    decreases entries.len(),
{
    if entries.len() == 0 {
        Map::empty()
    } else {
        tracker_map(entries.drop_last()).insert(entries.last().0@, entries.last().1)
    }
}

proof fn lemma_tracker_found(entries: Seq<(String, u64)>, j: int)
    requires
        0 <= j < entries.len(),
        forall|l: int| j < l < entries.len() ==> (#[trigger] entries[l].0)@ != entries[j].0@,
    ensures
        tracker_map(entries).contains_key(entries[j].0@),
        tracker_map(entries)[entries[j].0@] == entries[j].1,
    decreases entries.len(),
{
    if j == entries.len() - 1 {
    } else {
        assert(entries.drop_last()[j] == entries[j]);
        lemma_tracker_found(entries.drop_last(), j);
    }
}

proof fn lemma_tracker_absent(entries: Seq<(String, u64)>, key: Seq<char>)
    requires
        forall|l: int| 0 <= l < entries.len() ==> (#[trigger] entries[l].0)@ != key,
    ensures
        !tracker_map(entries).contains_key(key),
    decreases entries.len(),
{
    if entries.len() > 0 {
        lemma_tracker_absent(entries.drop_last(), key);
    }
}

/// The request layer's own state: the bearer token, settable
/// independently of construction, and the reset-time book.
pub struct HTTPClient {
    pub token: Option<String>,
    pub rate_limits: Vec<(String, u64)>,
}

impl HTTPClient {
    /// A fresh client: no token yet, nothing throttled.
    pub fn new() -> (r: Self)
        ensures
            r.token is None,
            tracker_map(r.rate_limits@) == Map::<Seq<char>, u64>::empty(),
    {
        HTTPClient { token: None, rate_limits: Vec::new() }
    }

    /// Sets (or rotates) the bearer token used from now on.
    pub fn set_token(&mut self, token: String)
        ensures
            final(self).token == Some(token),
            final(self).rate_limits == old(self).rate_limits,
    {
        self.token = Some(token);
    }

    /// Builds the wire-ready form of one request: the full URL under
    /// the fixed versioned base, and the bot authorization header when
    /// a token is set. An unrecognized verb is a programming error and
    /// fails immediately, carrying the verb.
    pub fn build_request(&self, method: &str, path: &str) -> (r: Result<RequestPlan, DiscordError>)
        ensures
            r is Ok <==> spec_valid_method(method@),
            r is Ok ==> r->Ok_0.url@ == "https://discord.com/api/v10"@ + path@,
            r is Ok ==> (match self.token {
                Option::Some(t) => r->Ok_0.authorization matches Option::Some(a) && a@ == "Bot "@
                    + t@,
                Option::None => r->Ok_0.authorization is None,
            }),
            r is Err ==> (r->Err_0 matches DiscordError::InvalidData(m) && m@ == method@),
    {
        let valid = crate::intents::str_is(method, "GET") || crate::intents::str_is(method, "POST")
            || crate::intents::str_is(method, "PUT") || crate::intents::str_is(method, "PATCH")
            || crate::intents::str_is(method, "DELETE");
        if !valid {
            return Err(DiscordError::InvalidData(method.to_owned()));
        }
        let mut url = "https://discord.com/api/v10".to_owned();
        url.append(path);
        let authorization = match &self.token {
            Some(t) => {
                let mut a = "Bot ".to_owned();
                a.append(t.as_str());
                Some(a)
            },
            None => None,
        };
        Ok(RequestPlan { url, authorization })
    }

    /// Records a throttled route: no request on it before `until_ms`.
    pub fn record_rate_limit(&mut self, route: &str, until_ms: u64)
        ensures
            tracker_map(final(self).rate_limits@) == tracker_map(old(self).rate_limits@).insert(
                route@,
                until_ms,
            ),
            final(self).token == old(self).token,
    {
        self.rate_limits.push((route.to_owned(), until_ms));
        proof {
            assert(self.rate_limits@.drop_last() =~= old(self).rate_limits@);
        }
    }

    /// How long a route still has to wait: the recorded reset time
    /// minus the clock, or nothing when the route may go out now.
    pub fn check_route(&self, route: &str, now_ms: u64) -> (r: Option<u64>)
        ensures
            ({
                let m = tracker_map(self.rate_limits@);
                if m.contains_key(route@) && m[route@] > now_ms {
                    r == Some((m[route@] - now_ms) as u64)
                } else {
                    r is None
                }
            }),
    {
        let n = self.rate_limits.len();
        let mut i: usize = n;
        while i > 0
            invariant
                0 <= i <= self.rate_limits@.len(),
                forall|l: int|
                    i <= l < self.rate_limits@.len() ==> (#[trigger] self.rate_limits@[l].0)@
                        != route@,
            decreases i,
        {
            i = i - 1;
            let hit = crate::intents::str_is(self.rate_limits[i].0.as_str(), route);
            if hit {
                let until = self.rate_limits[i].1;
                proof {
                    lemma_tracker_found(self.rate_limits@, i as int);
                }
                if until > now_ms {
                    return Some(until - now_ms);
                } else {
                    return None;
                }
            }
        }
        proof {
            lemma_tracker_absent(self.rate_limits@, route@);
        }
        None
    }
}

/// The retry delay of a throttling response, from the textual form of
/// its retry-after field: the parsed milliseconds, or one second when
/// the field is absent or unreadable.
pub open spec fn spec_retry_delay(field: Option<Seq<u8>>) -> u64 {
    match field {
        Option::None => 1000,
        Option::Some(b) => match spec_retry_ms(b) {
            Option::Some(v) => v,
            Option::None => 1000,
        },
    }
}

/// Reads a throttling response's retry delay from its field text.
pub fn retry_delay_ms(field: &Option<String>) -> (r: u64)
    ensures
        r == spec_retry_delay(
            match *field {
                Option::Some(t) => Some(vstd::utf8::encode_utf8(t@)),
                Option::None => None,
            },
        ),
{
    match field {
        Some(t) => match parse_retry_ms(t.as_str().as_bytes()) {
            Some(ms) => ms,
            None => 1000,
        },
        None => 1000,
    }
}

/// Classifies one response, given its status and body text. A
/// successful status returns the parsed body, and fails only on a body
/// that is not well-formed JSON; 403, 404 and the server errors map to
/// their own variants; a throttling response with a well-formed body
/// carries the body's retry delay, read by `retry_delay_ms` from the
/// field's text; any other status is an invalid response carrying the
/// code.
pub fn interpret_response(status: u16, body: &str) -> (r: Result<serde_json::Value, DiscordError>)
    ensures
        r is Ok ==> 200 <= status <= 299,
        200 <= status <= 299 ==> (r is Ok <==> crate::json::json_parses(body@)),
        200 <= status <= 299 && r is Err ==> r->Err_0 is Json,
        status == 403 ==> r is Err && r->Err_0 is Forbidden,
        status == 404 ==> r is Err && r->Err_0 is NotFound,
        status == 429 ==> r is Err,
        status == 429 && crate::json::json_parses(body@) ==> r->Err_0 is RateLimited,
        status == 429 && !crate::json::json_parses(body@) ==> r->Err_0 is Json,
        500 <= status <= 599 ==> r is Err && r->Err_0 is ServerError,
        !(200 <= status <= 299) && status != 403 && status != 404 && status != 429 && !(500 <= status
            <= 599) ==> r is Err && (r->Err_0 matches DiscordError::InvalidResponse { status: s2 }
            && s2 == status),
{
    if 200 <= status && status <= 299 {
        match json_parse(body) {
            Ok(v) => Ok(v),
            Err(e) => Err(DiscordError::Json(e)),
        }
    } else if status == 403 {
        Err(DiscordError::Forbidden)
    } else if status == 404 {
        Err(DiscordError::NotFound)
    } else if status == 429 {
        let v = match json_parse(body) {
            Ok(v) => v,
            Err(e) => {
                return Err(DiscordError::Json(e));
            },
        };
        let field: Option<String> = match json_get(&v, "retry_after") {
            Some(x) => Some(json_text(x)),
            None => None,
        };
        let retry_after_ms = retry_delay_ms(&field);
        Err(DiscordError::RateLimited { retry_after_ms })
    } else if 500 <= status && status <= 599 {
        Err(DiscordError::ServerError)
    } else {
        Err(DiscordError::InvalidResponse { status })
    }
}

/// Reads the websocket base URL out of the endpoint-discovery
/// response; a response without one fails with a gateway-not-found
/// error.
pub fn gateway_url_from(v: &serde_json::Value) -> (r: Result<String, DiscordError>)
    ensures
        r is Err ==> r->Err_0 is Gateway,
{
    match json_get(v, "url") {
        Some(x) => match json_as_string(x) {
            Some(s) => Ok(s),
            None => Err(DiscordError::Gateway("no gateway URL in response".to_owned())),
        },
        None => Err(DiscordError::Gateway("no gateway URL in response".to_owned())),
    }
}

} // verus!
