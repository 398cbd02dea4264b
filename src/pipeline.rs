//! The cache-aside pipeline of one image request, as a state machine: the
//! caller performs each action (cache lookup, fetch, reply, cache write) and
//! hands back what came of it.
use vstd::prelude::*;
use vstd::string::*;
use crate::format::{OutputFormat, content_type_of};
use crate::query::TransformRequest;
use crate::transform::{
    TransformError, transform, transform_message, transformed, decoded_of, encoded_of, codec_of,
    resized_to_width, starts_with, decode_prefix, encode_prefix,
};

verus! {

/// A response to the client.
#[derive(Debug, Clone, PartialEq, Eq)]
pub enum Response {
    /// A refused or failed request: its status and a plain-text message.
    Failure { status: u16, message: String },
    /// A transformed image, encoded as `format`.
    Image { format: OutputFormat, body: Vec<u8> },
}

/// The decimal digits of `n`, most significant first.
pub open spec fn decimal(n: nat) -> Seq<char>
    decreases n,
{
    if n < 10 {
        seq![digit_char(n)]
    } else {
        decimal(n / 10).push(digit_char(n % 10))
    }
}

pub open spec fn digit_char(d: nat) -> char {
    if d == 0 {
        '0'
    } else if d == 1 {
        '1'
    } else if d == 2 {
        '2'
    } else if d == 3 {
        '3'
    } else if d == 4 {
        '4'
    } else if d == 5 {
        '5'
    } else if d == 6 {
        '6'
    } else if d == 7 {
        '7'
    } else if d == 8 {
        '8'
    } else {
        '9'
    }
}

fn digit_text(d: usize) -> (r: &'static str)
    requires
        d < 10,
    ensures
        r@ == seq![digit_char(d as nat)],
{
    proof {
        reveal_strlit("0");
        reveal_strlit("1");
        reveal_strlit("2");
        reveal_strlit("3");
        reveal_strlit("4");
        reveal_strlit("5");
        reveal_strlit("6");
        reveal_strlit("7");
        reveal_strlit("8");
        reveal_strlit("9");
    }
    let r = if d == 0 {
        "0"
    } else if d == 1 {
        "1"
    } else if d == 2 {
        "2"
    } else if d == 3 {
        "3"
    } else if d == 4 {
        "4"
    } else if d == 5 {
        "5"
    } else if d == 6 {
        "6"
    } else if d == 7 {
        "7"
    } else if d == 8 {
        "8"
    } else {
        "9"
    };
    assert(r@ =~= seq![digit_char(d as nat)]);
    r
}

/// The decimal digits of `n`.
fn decimal_text(n: usize) -> (r: String)
    ensures
        r@ == decimal(n as nat),
    decreases n,
{
    if n < 10 {
        String::from_str(digit_text(n))
    } else {
        let mut r = decimal_text(n / 10);
        r.append(digit_text(n % 10));
        r
    }
}

pub open spec fn cache_control_value() -> Seq<char> {
    "public, s-maxage=2592000"@
}

/// The headers of a response, as name and value.
pub open spec fn headers_of(r: Response, h: Seq<(String, String)>) -> bool {
    match r {
        Response::Failure { .. } => h.len() == 0,
        Response::Image { format, body } => {
            &&& h.len() == 4
            &&& h[0].0@ == "Accept-Ranges"@ && h[0].1@ == "bytes"@
            &&& h[1].0@ == "Content-Type"@ && h[1].1@ == content_type_of(format)
            &&& h[2].0@ == "Content-Length"@ && h[2].1@ == decimal(body@.len())
            &&& h[3].0@ == "Cache-Control"@ && h[3].1@ == cache_control_value()
        },
    }
}

fn header(name: &str, value: String) -> (r: (String, String))
    ensures
        r.0@ == name@,
        r.1@ == value@,
{
    (String::from_str(name), value)
}

impl Response {
    /// The HTTP status of the response.
    pub fn status(&self) -> (r: u16)
        ensures
            r == match *self {
                Response::Failure { status, .. } => status,
                Response::Image { .. } => 200u16,
            },
    {
        match self {
            Response::Failure { status, .. } => *status,
            Response::Image { .. } => 200,
        }
    }

    /// The headers that go with the response.
    pub fn headers(&self) -> (r: Vec<(String, String)>)
        ensures
            headers_of(*self, r@),
    {
        let mut h: Vec<(String, String)> = Vec::new();
        match self {
            Response::Failure { .. } => {},
            Response::Image { format, body } => {
                h.push(header("Accept-Ranges", String::from_str("bytes")));
                h.push(header("Content-Type", String::from_str(format.content_type())));
                h.push(header("Content-Length", decimal_text(body.len())));
                h.push(header("Cache-Control", String::from_str("public, s-maxage=2592000")));
            },
        }
        h
    }
}

/// Where the pipeline of a request stands.
#[derive(Debug, Clone, Copy, PartialEq, Eq, Structural)]
pub enum Phase {
    /// Waiting for the cache lookup.
    Lookup,
    /// Waiting for the source image.
    Fetching,
    /// A response has been chosen; nothing is left to do.
    Done,
}

/// What the caller reports back.
pub enum Event {
    CacheHit,
    CacheMiss,
    /// The lookup itself failed; this is treated as a miss.
    CacheError,
    /// The fetcher's result: the source bytes, or why they could not be had.
    Fetched(Result<Vec<u8>, String>),
}

/// What the caller is to do next.
#[derive(Debug)]
pub enum Action {
    /// Return the cached response as it is.
    ServeCached,
    /// Fetch the source image at this URL.
    Fetch(String),
    /// Return `response`; where `store` holds, also write a copy of it into
    /// the cache under the request's key, without waiting for the write.
    Reply { response: Response, store: bool },
    /// The event does not fit the phase; nothing to do.
    Nothing,
}

pub open spec fn fetch_failed_message() -> Seq<char> {
    "failed to fetch image."@
}

/// The reply for the outcome of a transform into `format`.
pub open spec fn replies(format: OutputFormat, outcome: Result<Vec<u8>, TransformError>, a: Action) -> bool {
    match outcome {
        Ok(out) => a matches Action::Reply { response: Response::Image { format: f, body }, store }
            && f == format && body@ == out@ && store,
        Err(e) => a matches Action::Reply { response: Response::Failure { status, message }, store }
            && status == 500 && message@ == transform_message(e) && !store,
    }
}

/// The phase that follows `p` on `e`.
pub open spec fn next_phase(p: Phase, e: Event) -> Phase {
    match (p, e) {
        (Phase::Lookup, Event::CacheHit) => Phase::Done,
        (Phase::Lookup, Event::CacheMiss) => Phase::Fetching,
        (Phase::Lookup, Event::CacheError) => Phase::Fetching,
        (Phase::Fetching, Event::Fetched(_)) => Phase::Done,
        _ => p,
    }
}

/// The reply to the source `bytes` of `req`: a 500 that is not cached where
/// decoding or encoding fails, else the encoded image, to be cached.
pub open spec fn fetched_reply(req: TransformRequest, bytes: Seq<u8>, a: Action) -> bool {
    match decoded_of(bytes) {
        None => a matches Action::Reply { response: Response::Failure { status, message }, store }
            && status == 500 && !store && starts_with(message@, read_failed_prefix()),
        Some(m) => match encoded_of(resized_to_width(m, req.width), codec_of(req.format)) {
            None => a matches Action::Reply {
                response: Response::Failure { status, message },
                store,
            } && status == 500 && !store && starts_with(message@, write_failed_prefix()),
            Some(out) => a matches Action::Reply {
                response: Response::Image { format, body },
                store,
            } && format == req.format && body@ == out && store,
        },
    }
}

pub open spec fn read_failed_prefix() -> Seq<char> {
    "failed to read image: "@ + decode_prefix()
}

pub open spec fn write_failed_prefix() -> Seq<char> {
    "failed to write image: "@ + encode_prefix()
}

/// The action that the pipeline of `req` takes in phase `p` on `e`.
pub open spec fn reacts(req: TransformRequest, p: Phase, e: Event, a: Action) -> bool {
    match (p, e) {
        (Phase::Lookup, Event::CacheHit) => a is ServeCached,
        (Phase::Lookup, Event::CacheMiss) => a matches Action::Fetch(u) && u@ == req.url@,
        (Phase::Lookup, Event::CacheError) => a matches Action::Fetch(u) && u@ == req.url@,
        (Phase::Fetching, Event::Fetched(Err(_))) => a matches Action::Reply {
            response: Response::Failure { status, message },
            store,
        } && status == 403 && message@ == fetch_failed_message() && !store,
        (Phase::Fetching, Event::Fetched(Ok(bytes))) => fetched_reply(req, bytes@, a),
        _ => a is Nothing,
    }
}

proof fn prefix_through_concat(a: Seq<char>, d: Seq<char>, p: Seq<char>)
    requires
        starts_with(d, p),
    ensures
        starts_with(a + d, a + p),
{
    assert((a + d).subrange(0, (a + p).len() as int) =~= a + p) by {
        assert forall|i: int| 0 <= i < (a + p).len() implies (a + d)[i] == (a + p)[i] by {
            if i >= a.len() {
                assert(d[i - a.len()] == d.subrange(0, p.len() as int)[i - a.len()]);
            }
        }
    }
}

/// Builds the reply for the outcome of a transform into `format`: the image
/// on success, to be cached; a server error otherwise, not cached.
pub fn reply_for(format: OutputFormat, outcome: Result<Vec<u8>, TransformError>) -> (r: Action)
    ensures
        replies(format, outcome, r),
{
    match outcome {
        Ok(body) => Action::Reply { response: Response::Image { format, body }, store: true },
        Err(e) => Action::Reply {
            response: Response::Failure { status: 500, message: e.message() },
            store: false,
        },
    }
}

/// Status, message and body of a response, as plain values.
pub open spec fn response_view(r: Response) -> (u16, Seq<char>, Seq<u8>) {
    match r {
        Response::Failure { status, message } => (status, message@, Seq::empty()),
        Response::Image { format, body } => (200u16, content_type_of(format), body@),
    }
}

/// A cache hit serves the stored response and ends the pipeline: no later
/// event makes it fetch, transform or write to the cache.
pub proof fn cache_hit_ends_pipeline(req: TransformRequest, later: Event, a1: Action, a2: Action)
    requires
        reacts(req, Phase::Lookup, Event::CacheHit, a1),
        reacts(req, next_phase(Phase::Lookup, Event::CacheHit), later, a2),
    ensures
        a1 is ServeCached,
        next_phase(Phase::Lookup, Event::CacheHit) == Phase::Done,
        a2 is Nothing,
{
}

/// A cache miss fetches the request's own source. What follows a fetched
/// image is a reply that is written to the cache exactly when it is a
/// success, and a success carries the requested format.
pub proof fn cache_miss_fetches_then_caches_success(
    req: TransformRequest,
    bytes: Vec<u8>,
    a1: Action,
    a2: Action,
)
    requires
        reacts(req, Phase::Lookup, Event::CacheMiss, a1),
        reacts(req, next_phase(Phase::Lookup, Event::CacheMiss), Event::Fetched(Ok(bytes)), a2),
    ensures
        a1 matches Action::Fetch(u) && u@ == req.url@,
        a2 matches Action::Reply { response, store } && (store <==> response is Image),
        a2 matches Action::Reply { response: Response::Image { format, .. }, .. } ==> format
            == req.format,
{
}

/// The same transform outcome for the same format gives replies that agree
/// in status, headers' content, body and whether they are cached.
pub proof fn same_outcome_same_reply(
    format: OutputFormat,
    outcome: Result<Vec<u8>, TransformError>,
    a: Action,
    b: Action,
)
    requires
        replies(format, outcome, a),
        replies(format, outcome, b),
    ensures
        a matches Action::Reply { response: ra, store: sa } && b matches Action::Reply {
            response: rb,
            store: sb,
        } && response_view(ra) == response_view(rb) && sa == sb,
{
}

/// A failed cache lookup is handled exactly as a miss.
pub proof fn cache_error_acts_as_miss(req: TransformRequest, a: Action)
    ensures
        reacts(req, Phase::Lookup, Event::CacheError, a) == reacts(req, Phase::Lookup, Event::CacheMiss, a),
        next_phase(Phase::Lookup, Event::CacheError) == next_phase(Phase::Lookup, Event::CacheMiss),
{
}

/// Two requests that fetch the same source bytes get replies with the same
/// status and the same caching; where they succeed, the same image.
pub proof fn identical_requests_identical_replies(
    req: TransformRequest,
    b1: Vec<u8>,
    b2: Vec<u8>,
    a: Action,
    b: Action,
)
    requires
        b1@ == b2@,
        reacts(req, Phase::Fetching, Event::Fetched(Ok(b1)), a),
        reacts(req, Phase::Fetching, Event::Fetched(Ok(b2)), b),
    ensures
        a matches Action::Reply { response: ra, store: sa } && b matches Action::Reply {
            response: rb,
            store: sb,
        } && sa == sb && (sa ==> response_view(ra) == response_view(rb)) && (!sa ==> (
        ra matches Response::Failure { status: s1, .. } && rb matches Response::Failure {
            status: s2,
            ..
        } && s1 == s2)),
{
}

/// Where the source decodes and its resized image encodes, the reply is that
/// encoding in the requested format, with status 200, and it is cached.
pub proof fn encoded_image_is_served_and_cached(req: TransformRequest, bytes: Vec<u8>, a: Action)
    requires
        reacts(req, Phase::Fetching, Event::Fetched(Ok(bytes)), a),
        decoded_of(bytes@) is Some,
        encoded_of(resized_to_width(decoded_of(bytes@)->0, req.width), codec_of(req.format)) is Some,
    ensures
        a matches Action::Reply { response: Response::Image { format, body }, store } && format
            == req.format && body@ == encoded_of(
            resized_to_width(decoded_of(bytes@)->0, req.width),
            codec_of(req.format),
        )->0 && store,
{
}

/// Where the source decodes but its resized image cannot be encoded, the
/// reply is a 500 naming the encoder failure, and nothing is cached.
pub proof fn encode_failure_is_server_error_and_uncached(req: TransformRequest, bytes: Vec<u8>, a: Action)
    requires
        reacts(req, Phase::Fetching, Event::Fetched(Ok(bytes)), a),
        decoded_of(bytes@) is Some,
        encoded_of(resized_to_width(decoded_of(bytes@)->0, req.width), codec_of(req.format)) is None,
    ensures
        a matches Action::Reply { response: Response::Failure { status, message }, store }
            && status == 500 && !store && starts_with(message@, write_failed_prefix()),
{
}

/// Where the source does not decode, the reply is a 500 naming the decode
/// failure, and nothing is cached.
pub proof fn decode_failure_is_server_error_and_uncached(req: TransformRequest, bytes: Vec<u8>, a: Action)
    requires
        reacts(req, Phase::Fetching, Event::Fetched(Ok(bytes)), a),
        decoded_of(bytes@) is None,
    ensures
        a matches Action::Reply { response: Response::Failure { status, message }, store }
            && status == 500 && !store && starts_with(message@, read_failed_prefix()),
{
}

/// A failed fetch gives a 403 reply that is not written to the cache.
pub proof fn fetch_failure_is_forbidden_and_uncached(req: TransformRequest, err: String, a: Action)
    requires
        reacts(req, Phase::Fetching, Event::Fetched(Err(err)), a),
    ensures
        a matches Action::Reply { response: Response::Failure { status, message }, store }
            && status == 403 && message@ == fetch_failed_message() && !store,
{
}

/// A failed decode or encode gives a 500 reply that carries the failure's
/// detail and is not written to the cache.
pub proof fn transform_failure_is_server_error_and_uncached(
    format: OutputFormat,
    e: TransformError,
    a: Action,
)
    requires
        replies(format, Err(e), a),
    ensures
        a matches Action::Reply { response: Response::Failure { status, message }, store }
            && status == 500 && message@ == transform_message(e) && !store,
{
}

/// The pipeline of one validated request.
pub struct Pipeline {
    pub request: TransformRequest,
    pub phase: Phase,
}

impl Pipeline {
    /// A pipeline that starts with the cache lookup.
    pub fn new(request: TransformRequest) -> (r: Pipeline)
        ensures
            r.request == request,
            r.phase == Phase::Lookup,
    {
        Pipeline { request, phase: Phase::Lookup }
    }

    /// Takes the next event and says what to do. A source image that arrives
    /// is transformed here.
    pub fn step(&mut self, event: Event) -> (a: Action)
        ensures
            final(self).request == old(self).request,
            final(self).phase == next_phase(old(self).phase, event),
            reacts(old(self).request, old(self).phase, event, a),
    {
        match (self.phase, event) {
            (Phase::Lookup, Event::CacheHit) => {
                self.phase = Phase::Done;
                Action::ServeCached
            },
            (Phase::Lookup, Event::CacheMiss) | (Phase::Lookup, Event::CacheError) => {
                self.phase = Phase::Fetching;
                Action::Fetch(self.request.url.clone())
            },
            (Phase::Fetching, Event::Fetched(Err(_))) => {
                self.phase = Phase::Done;
                Action::Reply {
                    response: Response::Failure {
                        status: 403,
                        message: String::from_str("failed to fetch image."),
                    },
                    store: false,
                }
            },
            (Phase::Fetching, Event::Fetched(Ok(bytes))) => {
                self.phase = Phase::Done;
                let outcome = transform(bytes, self.request.width, self.request.format);
                let ghost result = outcome;
                let a = reply_for(self.request.format, outcome);
                proof {
                    match result {
                        Err(TransformError::Decode(d)) => prefix_through_concat(
                            "failed to read image: "@,
                            d@,
                            decode_prefix(),
                        ),
                        Err(TransformError::Encode(d)) => prefix_through_concat(
                            "failed to write image: "@,
                            d@,
                            encode_prefix(),
                        ),
                        Ok(_) => {},
                    }
                }
                a
            },
            _ => Action::Nothing,
        }
    }
}

} // verus!
