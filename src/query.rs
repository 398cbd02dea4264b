//! Validation of the query parameters of an image request.
use vstd::prelude::*;
use vstd::string::*;
use crate::format::{OutputFormat, resolved, resolve_error, lower_of};

verus! {

pub open spec fn is_digit(c: char) -> bool {
    '0' <= c && c <= '9'
}

pub open spec fn digit_value(c: char) -> nat {
    (c as u32 - '0' as u32) as nat
}

/// The value of a string of decimal digits, most significant first.
pub open spec fn digits_value(s: Seq<char>) -> nat
    decreases s.len(),
{
    if s.len() == 0 {
        0
    } else {
        digits_value(s.drop_last()) * 10 + digit_value(s.last())
    }
}

/// The digits of an unsigned number as written: an optional leading `+`
/// is dropped.
pub open spec fn unsigned_digits(s: Seq<char>) -> Seq<char> {
    if s.len() > 0 && s[0] == '+' {
        s.drop_first()
    } else {
        s
    }
}

/// The unsigned decimal number that `s` spells, if it spells one.
pub open spec fn unsigned_value(s: Seq<char>) -> Option<nat> {
    let d = unsigned_digits(s);
    if d.len() > 0 && (forall|i: int| 0 <= i < d.len() ==> is_digit(#[trigger] d[i])) {
        Some(digits_value(d))
    } else {
        None
    }
}

/// `s` spells an unsigned number no greater than `max`.
pub open spec fn fits(s: Seq<char>, max: nat) -> bool {
    unsigned_value(s) matches Some(n) && n <= max
}

proof fn digits_value_step(s: Seq<char>, start: int, i: int)
    requires
        0 <= start <= i < s.len(),
    ensures
        digits_value(s.subrange(start, i + 1)) == digits_value(s.subrange(start, i)) * 10
            + digit_value(s[i]),
{
    let t = s.subrange(start, i + 1);
    assert(t.drop_last() =~= s.subrange(start, i));
    assert(t.last() == s[i]);
}

/// `n`, or `cap` where `n` is larger.
pub open spec fn capped(n: nat, cap: nat) -> nat {
    if n > cap {
        cap
    } else {
        n
    }
}

/// Reads an unsigned decimal number, with an optional leading `+`; a value
/// above `cap` gives `cap`.
pub fn parse_capped(s: &str, cap: u64) -> (r: Option<u64>)
    requires
        cap <= u32::MAX as u64 + 1,
    ensures
        r is Some <==> unsigned_value(s@) is Some,
        r matches Some(v) ==> v == capped(unsigned_value(s@)->0, cap as nat),
{
    let len = s.unicode_len();
    let mut start: usize = 0;
    if len > 0 && s.get_char(0) == '+' {
        start = 1;
    }
    proof {
        assert(unsigned_digits(s@) =~= s@.subrange(start as int, len as int));
    }
    if start == len {
        return None;
    }
    let mut i: usize = start;
    let mut acc: u64 = 0;
    let mut over = false;
    while i < len
        invariant
            start <= i <= len,
            start < len,
            len == s@.len(),
            cap <= u32::MAX as u64 + 1,
            unsigned_digits(s@) =~= s@.subrange(start as int, len as int),
            forall|j: int| start <= j < i ==> is_digit(#[trigger] s@[j]),
            !over ==> acc == digits_value(s@.subrange(start as int, i as int)) && acc <= cap,
            over ==> digits_value(s@.subrange(start as int, i as int)) > cap,
        decreases len - i,
    {
        let c = s.get_char(i);
        if !('0' <= c && c <= '9') {
            proof {
                let d = unsigned_digits(s@);
                assert(d[i - start] == c);
                assert(!is_digit(d[i - start]));
            }
            return None;
        }
        proof {
            digits_value_step(s@, start as int, i as int);
        }
        if !over {
            let next: u64 = acc * 10 + (c as u32 - '0' as u32) as u64;
            if next > cap {
                over = true;
            } else {
                acc = next;
            }
        } else {
            assert(digits_value(s@.subrange(start as int, i as int)) * 10 >= digits_value(
                s@.subrange(start as int, i as int),
            )) by (nonlinear_arith);
        }
        i = i + 1;
    }
    proof {
        let d = unsigned_digits(s@);
        assert(s@.subrange(start as int, i as int) =~= d);
        assert forall|k: int| 0 <= k < d.len() implies is_digit(#[trigger] d[k]) by {
            assert(d[k] == s@[k + start]);
        }
    }
    if over {
        Some(cap)
    } else {
        Some(acc)
    }
}

/// Reads an unsigned decimal number, with an optional leading `+`, that is
/// at most `max`.
pub fn parse_unsigned(s: &str, max: u32) -> (r: Option<u32>)
    ensures
        r is Some <==> fits(s@, max as nat),
        r matches Some(v) ==> unsigned_value(s@) == Some(v as nat),
{
    match parse_capped(s, max as u64 + 1) {
        Some(v) => if v <= max as u64 {
            Some(v as u32)
        } else {
            None
        },
        None => None,
    }
}

/// The raw query parameters of an image request, each absent or as given.
pub struct QueryParams {
    pub url: Option<String>,
    pub w: Option<String>,
    pub format: Option<String>,
    pub quality: Option<String>,
}

/// A validated request: where the source image is, the width to resize to,
/// and the format to encode in.
#[derive(Debug, Clone)]
pub struct TransformRequest {
    pub url: String,
    pub width: u32,
    pub format: OutputFormat,
}

pub open spec fn text_of(o: Option<String>) -> Option<Seq<char>> {
    match o {
        Some(s) => Some(s@),
        None => None,
    }
}

/// The width that the `w` parameter requests: a positive number that fits
/// in `u32`.
pub open spec fn requested_width(w: Seq<char>) -> Option<u32> {
    if fits(w, u32::MAX as nat) && unsigned_value(w)->0 > 0 {
        Some(unsigned_value(w)->0 as u32)
    } else {
        None
    }
}

/// The quality that the `quality` parameter gives; one that is not a number
/// counts as absent. A number above 255 stands as 255, which is out of range
/// wherever a quality is read.
pub open spec fn requested_quality(q: Option<Seq<char>>) -> Option<u8> {
    match q {
        Some(t) => match unsigned_value(t) {
            Some(n) => Some(capped(n, u8::MAX as nat) as u8),
            None => None,
        },
        None => None,
    }
}

/// The format name that the `format` parameter gives, `png` when absent.
pub open spec fn requested_format_name(f: Option<Seq<char>>) -> Seq<char> {
    match f {
        Some(t) => t,
        None => "png"@,
    }
}

pub open spec fn url_missing_message() -> Seq<char> {
    "'url' parameter is not provided."@
}

pub open spec fn width_missing_message() -> Seq<char> {
    "'w' parameter not provided."@
}

pub open spec fn width_invalid_message() -> Seq<char> {
    "'w' parameter must be a valid number."@
}

/// The status and message with which a query is turned away, checked in
/// order: `url`, `w`, then format and quality. `None` where it is valid.
pub open spec fn rejection(q: QueryParams) -> Option<(u16, Seq<char>)> {
    let name = requested_format_name(text_of(q.format));
    let folded = lower_of(name);
    if q.url is None {
        Some((403, url_missing_message()))
    } else if q.w is None {
        Some((403, width_missing_message()))
    } else if requested_width(q.w->0@) is None {
        Some((400, width_invalid_message()))
    } else if resolved(folded, requested_quality(text_of(q.quality))) is None {
        Some((400, "Invalid format: "@ + resolve_error(folded, name)))
    } else {
        None
    }
}

/// `req` is what a valid query `q` asks for.
pub open spec fn requested(q: QueryParams, req: TransformRequest) -> bool {
    let name = requested_format_name(text_of(q.format));
    &&& rejection(q) is None
    &&& req.url@ == q.url->0@
    &&& requested_width(q.w->0@) == Some(req.width)
    &&& resolved(lower_of(name), requested_quality(text_of(q.quality))) == Some(req.format)
}

/// Checks the query parameters before any fetch or image work; a rejected
/// query yields its status and message.
pub fn validate(q: &QueryParams) -> (r: Result<TransformRequest, (u16, String)>)
    ensures
        r matches Ok(req) ==> requested(*q, req),
        r matches Err(e) ==> rejection(*q) == Some((e.0, e.1@)),
{
    let url = match &q.url {
        Some(u) => u.clone(),
        None => return Err((403, String::from_str("'url' parameter is not provided."))),
    };
    let width = match &q.w {
        Some(w) => match parse_unsigned(w.as_str(), u32::MAX) {
            Some(n) => {
                if n == 0 {
                    return Err((400, String::from_str("'w' parameter must be a valid number.")));
                }
                n
            },
            None => return Err((400, String::from_str("'w' parameter must be a valid number."))),
        },
        None => return Err((403, String::from_str("'w' parameter not provided."))),
    };
    let quality: Option<u8> = match &q.quality {
        Some(t) => match parse_capped(t.as_str(), 255) {
            Some(n) => Some(n as u8),
            None => None,
        },
        None => None,
    };
    let resolved_format = match &q.format {
        Some(f) => OutputFormat::from_string(f.as_str(), quality),
        None => OutputFormat::from_string("png", quality),
    };
    match resolved_format {
        Ok(format) => Ok(TransformRequest { url, width, format }),
        Err(e) => Err((400, String::from_str("Invalid format: ").concat(e.as_str()))),
    }
}

} // verus!
