//! The replies of the HTTP routes, and the labels of a request's log span.

use vstd::prelude::*;
use vstd::string::StringExecFns;

use crate::auth::{header_text, header_text_of};
use crate::decode::{Base64Error, DecodeError, DecodedRequest};
use crate::render::RenderError;
use crate::text::{all_ascii, ascii_string, ascii_text, decimal_string, decimal_text};

verus! {

/// A reply: status code, content type, optional cache policy and body.
#[derive(Debug)]
pub struct Reply {
    pub status: u16,
    pub content_type: &'static str,
    pub cache_control: Option<&'static str>,
    pub body: String,
}

/// A reply carrying a rendered diagram: `200 OK`, `image/svg+xml`,
/// cacheable for a year as immutable.
pub open spec fn is_svg_reply(r: Reply, svg: String) -> bool {
    &&& r.status == 200
    &&& r.content_type@ == "image/svg+xml; charset=utf-8"@
    &&& r.cache_control matches Some(c) && c@ == "public, max-age=31536000, immutable"@
    &&& r.body == svg
}

/// A plain-text reply with the given status and body, and no cache policy.
pub open spec fn is_text_reply(r: Reply, status: u16, body: Seq<char>) -> bool {
    &&& r.status == status
    &&& r.content_type@ == "text/plain; charset=utf-8"@
    &&& r.cache_control is None
    &&& r.body@ == body
}

/// A reply that carries a rendered diagram has the diagram itself as its
/// body, with status 200 and an SVG content type.
pub proof fn law_svg_reply_carries_the_svg(r: Reply, svg: String)
    requires
        is_svg_reply(r, svg),
    ensures
        r.body == svg,
        r.body@ == svg@,
        r.status == 200,
        r.content_type@ == "image/svg+xml; charset=utf-8"@,
{
}

/// A text reply carries the given body and status, as plain text.
pub proof fn law_text_reply_carries_its_body(r: Reply, status: u16, body: Seq<char>)
    requires
        is_text_reply(r, status, body),
    ensures
        r.body@ == body,
        r.status == status,
        r.content_type@ == "text/plain; charset=utf-8"@,
{
}

/// A rendered diagram: `200 OK`, `image/svg+xml`, cacheable for a year.
pub fn svg_response(svg: String) -> (res: Reply)
    ensures
        is_svg_reply(res, svg),
        res.body == svg,
        res.status == 200,
{
    Reply {
        status: 200,
        content_type: "image/svg+xml; charset=utf-8",
        cache_control: Some("public, max-age=31536000, immutable"),
        body: svg,
    }
}

/// A plain-text error reply with the given status.
pub fn text_error(status: u16, msg: String) -> (res: Reply)
    ensures
        is_text_reply(res, status, msg@),
        res.body == msg,
{
    Reply { status, content_type: "text/plain; charset=utf-8", cache_control: None, body: msg }
}

/// The display text of a base64 decoding error, in the words of the
/// `base64` crate's `Display` for its `DecodeError`.
pub open spec fn base64_error_display(e: Base64Error) -> Seq<char> {
    match e {
        Base64Error::InvalidByte(i, b) => "Invalid symbol "@ + decimal_text(b as nat)
            + ", offset "@ + decimal_text(i as nat) + "."@,
        Base64Error::InvalidLength(n) => "Invalid input length: "@ + decimal_text(n as nat),
        Base64Error::InvalidLastSymbol(i, b) => "Invalid last symbol "@ + decimal_text(b as nat)
            + ", offset "@ + decimal_text(i as nat) + "."@,
        Base64Error::InvalidPadding => "Invalid padding"@,
    }
}

/// The display text of a base64 decoding error (see `base64_error_display`).
pub fn base64_error_text(e: Base64Error) -> (res: String)
    ensures
        res@ == base64_error_display(e),
{
    match e {
        Base64Error::InvalidByte(i, b) => String::from_str("Invalid symbol ").concat(
            decimal_string(b as u64).as_str(),
        ).concat(", offset ").concat(decimal_string(i as u64).as_str()).concat("."),
        Base64Error::InvalidLength(n) => String::from_str("Invalid input length: ").concat(
            decimal_string(n as u64).as_str(),
        ),
        Base64Error::InvalidLastSymbol(i, b) => String::from_str("Invalid last symbol ").concat(
            decimal_string(b as u64).as_str(),
        ).concat(", offset ").concat(decimal_string(i as u64).as_str()).concat("."),
        Base64Error::InvalidPadding => String::from_str("Invalid padding"),
    }
}

/// The text that describes a decoding error.
pub open spec fn decode_error_text(e: DecodeError) -> Seq<char> {
    match e {
        DecodeError::Base64(x) => "invalid base64url: "@ + base64_error_display(x),
        DecodeError::Inflate(m) => "zlib inflate failed: "@ + m@,
        DecodeError::Utf8 => "payload is not valid UTF-8"@,
        DecodeError::Json(m) => "invalid JSON payload: "@ + m@,
        DecodeError::Empty => "encoded payload is empty"@,
    }
}

impl DecodeError {
    /// The text that describes this error.
    pub fn message(&self) -> (res: String)
        ensures
            res@ == decode_error_text(*self),
    {
        match self {
            DecodeError::Base64(x) => String::from_str("invalid base64url: ").concat(
                base64_error_text(*x).as_str(),
            ),
            DecodeError::Inflate(m) => String::from_str("zlib inflate failed: ").concat(
                m.as_str(),
            ),
            DecodeError::Utf8 => String::from_str("payload is not valid UTF-8"),
            DecodeError::Json(m) => String::from_str("invalid JSON payload: ").concat(m.as_str()),
            DecodeError::Empty => String::from_str("encoded payload is empty"),
        }
    }
}

/// A request whose path segment could not be decoded: `400 Bad Request`
/// with `decode error: ` and the error's text.
pub fn decode_error_reply(e: &DecodeError) -> (res: Reply)
    ensures
        is_text_reply(res, 400, "decode error: "@ + decode_error_text(*e)),
{
    text_error(400, String::from_str("decode error: ").concat(e.message().as_str()))
}

/// A request that found every render slot taken: `503 Service Unavailable`.
pub fn capacity_reply() -> (res: Reply)
    ensures
        is_text_reply(res, 503, "server is at capacity, please retry"@),
{
    text_error(503, String::from_str("server is at capacity, please retry"))
}

/// A request without the configured token: `401 Unauthorized`.
pub fn unauthorized_reply() -> (res: Reply)
    ensures
        is_text_reply(res, 401, "missing or invalid token"@),
{
    text_error(401, String::from_str("missing or invalid token"))
}

/// The reply to a settled render: the SVG, `504` when the render ran out
/// of time, `400` with the upstream error text, or `500` when the renderer
/// task failed.
pub fn render_reply(result: Result<String, RenderError>) -> (res: Reply)
    ensures
        match result {
            Ok(svg) => is_svg_reply(res, svg) && res.body == svg && res.status == 200,
            Err(RenderError::Timeout) => is_text_reply(
                res,
                504,
                "render exceeded the configured timeout"@,
            ),
            Err(RenderError::Upstream(m)) => is_text_reply(res, 400, "render error: "@ + m@),
            Err(RenderError::Join(_)) => is_text_reply(res, 500, "internal renderer error"@),
        },
{
    match result {
        Ok(svg) => svg_response(svg),
        Err(RenderError::Timeout) => text_error(
            504,
            String::from_str("render exceeded the configured timeout"),
        ),
        Err(RenderError::Upstream(m)) => text_error(
            400,
            String::from_str("render error: ").concat(m.as_str()),
        ),
        Err(RenderError::Join(_)) => text_error(500, String::from_str("internal renderer error")),
    }
}

/// The theme a render uses: the `theme` query parameter when given,
/// otherwise the theme the encoded payload asked for.
pub fn effective_theme(query_theme: Option<String>, payload_theme: Option<String>) -> (res: Option<
    String,
>)
    ensures
        res == match query_theme {
            Some(t) => Some(t),
            None => payload_theme,
        },
{
    match query_theme {
        Some(t) => Some(t),
        None => payload_theme,
    }
}

/// A render that the `/svg/{encoded}` route is ready to run.
#[derive(Debug)]
pub struct RenderJob {
    pub source: String,
    pub theme: Option<String>,
}

/// What the `/svg/{encoded}` route does next.
#[derive(Debug)]
pub enum RouteStep {
    /// Answer with this reply.
    Answer(Reply),
    /// Take a render slot, then continue with `svg_route_after_slot`.
    TakeSlot(RenderJob),
    /// Run the render.
    Render(RenderJob),
}

/// The first step of the `/svg/{encoded}` route, once the path segment is
/// decoded: a request that failed to decode is answered at once and never
/// takes a render slot; a decoded one becomes a render with the effective
/// theme, which first takes a slot when renders are capped.
pub fn svg_route_start(
    decoded: Result<DecodedRequest, DecodeError>,
    query_theme: Option<String>,
    slots_capped: bool,
) -> (res: RouteStep)
    ensures
        match decoded {
            Err(e) => res matches RouteStep::Answer(r) && is_text_reply(
                r,
                400,
                "decode error: "@ + decode_error_text(e),
            ),
            Ok(d) => {
                let theme = match query_theme {
                    Some(t) => Some(t),
                    None => d.theme,
                };
                if slots_capped {
                    res matches RouteStep::TakeSlot(j) && j.source == d.source && j.theme == theme
                } else {
                    res matches RouteStep::Render(j) && j.source == d.source && j.theme == theme
                }
            },
        },
{
    match decoded {
        Err(e) => RouteStep::Answer(decode_error_reply(&e)),
        Ok(d) => {
            let job = RenderJob { source: d.source, theme: effective_theme(query_theme, d.theme) };
            if slots_capped {
                RouteStep::TakeSlot(job)
            } else {
                RouteStep::Render(job)
            }
        },
    }
}

/// The step after trying to take a render slot: the render when a slot
/// was free, otherwise `503 Service Unavailable`.
pub fn svg_route_after_slot(job: RenderJob, slot_taken: bool) -> (res: RouteStep)
    ensures
        slot_taken ==> res == RouteStep::Render(job),
        !slot_taken ==> (res matches RouteStep::Answer(r) && is_text_reply(
            r,
            503,
            "server is at capacity, please retry"@,
        )),
{
    if slot_taken {
        RouteStep::Render(job)
    } else {
        RouteStep::Answer(capacity_reply())
    }
}

/// The bytes that `str::trim` removes from ASCII text.
pub open spec fn is_ascii_space(b: u8) -> bool {
    b == 32 || (9 <= b && b <= 13)
}

/// The text with leading spaces removed.
pub open spec fn trim_start(b: Seq<u8>) -> Seq<u8>
    decreases b.len(),
{
    if b.len() > 0 && is_ascii_space(b[0]) {
        trim_start(b.skip(1))
    } else {
        b
    }
}

/// The text with trailing spaces removed.
pub open spec fn trim_end(b: Seq<u8>) -> Seq<u8>
    decreases b.len(),
{
    if b.len() > 0 && is_ascii_space(b.last()) {
        trim_end(b.drop_last())
    } else {
        b
    }
}

/// Where the first comma-separated field of a text ends.
pub open spec fn comma_index(b: Seq<u8>) -> int
    decreases b.len(),
{
    if b.len() == 0 {
        0
    } else if b[0] == 44 {
        0
    } else {
        1 + comma_index(b.skip(1))
    }
}

/// The first comma-separated entry of a forwarding header, trimmed.
pub open spec fn first_forwarded(b: Seq<u8>) -> Seq<u8> {
    trim_end(trim_start(b.take(comma_index(b))))
}

/// The client named in a request's log span: the peer address when known,
/// otherwise the first entry of `x-forwarded-for` when that header reads as
/// text, otherwise `-`.
pub open spec fn client_label_of(peer: Option<Seq<char>>, forwarded: Option<Seq<u8>>) -> Seq<
    char,
> {
    match peer {
        Some(p) => p,
        None => match forwarded {
            Some(f) => if header_text_of(f) is Some {
                ascii_text(first_forwarded(f))
            } else {
                "-"@
            },
            None => "-"@,
        },
    }
}

proof fn lemma_comma_index(b: Seq<u8>)
    ensures
        0 <= comma_index(b) <= b.len(),
        forall|j: int| 0 <= j < comma_index(b) ==> b[j] != 44,
        comma_index(b) < b.len() ==> b[comma_index(b)] == 44,
    decreases b.len(),
{
    if b.len() > 0 && b[0] != 44 {
        lemma_comma_index(b.skip(1));
        assert forall|j: int| 0 <= j < comma_index(b) implies b[j] != 44 by {
            if j > 0 {
                assert(b.skip(1)[j - 1] == b[j]);
            }
        }
    }
}

proof fn lemma_comma_index_unique(b: Seq<u8>, k: int)
    requires
        0 <= k <= b.len(),
        forall|j: int| 0 <= j < k ==> b[j] != 44,
        k < b.len() ==> b[k] == 44,
    ensures
        comma_index(b) == k,
    decreases b.len(),
{
    if b.len() > 0 && b[0] != 44 {
        assert forall|j: int| 0 <= j < k - 1 implies b.skip(1)[j] != 44 by {
            assert(b.skip(1)[j] == b[j + 1]);
        }
        lemma_comma_index_unique(b.skip(1), k - 1);
    }
}

fn first_forwarded_bytes(b: &[u8]) -> (out: Vec<u8>)
    requires
        all_ascii(b@),
    ensures
        out@ == first_forwarded(b@),
        all_ascii(out@),
{
    let n = b.len();
    let mut k: usize = 0;
    while k < n && b[k] != 44
        invariant
            n == b@.len(),
            k <= n,
            forall|j: int| 0 <= j < k ==> b@[j] != 44,
        decreases n - k,
    {
        k += 1;
    }
    proof {
        lemma_comma_index_unique(b@, k as int);
    }
    let mut start: usize = 0;
    assert(b@.take(k as int).skip(0) == b@.take(k as int));
    while start < k && (b[start] == 32 || (9 <= b[start] && b[start] <= 13))
        invariant
            n == b@.len(),
            start <= k <= n,
            trim_start(b@.take(k as int)) == trim_start(b@.subrange(start as int, k as int)),
        decreases k - start,
    {
        assert(b@.subrange(start as int, k as int).skip(1) == b@.subrange(start + 1, k as int));
        start += 1;
    }
    let mut end: usize = k;
    assert(b@.subrange(start as int, k as int) == b@.subrange(start as int, end as int));
    while end > start && (b[end - 1] == 32 || (9 <= b[end - 1] && b[end - 1] <= 13))
        invariant
            n == b@.len(),
            start <= end <= k <= n,
            trim_start(b@.take(k as int)) == trim_start(b@.subrange(start as int, k as int)),
            first_forwarded(b@) == trim_end(b@.subrange(start as int, end as int)),
        decreases end - start,
    {
        assert(b@.subrange(start as int, end as int).drop_last() == b@.subrange(
            start as int,
            end - 1,
        ));
        end -= 1;
    }
    let mut out: Vec<u8> = Vec::new();
    let mut i = start;
    while i < end
        invariant
            start <= i <= end <= n,
            n == b@.len(),
            all_ascii(b@),
            out@ == b@.subrange(start as int, i as int),
        decreases end - i,
    {
        out.push(b[i]);
        i += 1;
        assert(out@ =~= b@.subrange(start as int, i as int));
    }
    out
}

/// The client named in a request's log span (see `client_label_of`).
pub fn client_ip_label(peer: Option<String>, forwarded: Option<&[u8]>) -> (res: String)
    ensures
        res@ == client_label_of(
            match peer {
                Some(p) => Some(p@),
                None => None,
            },
            match forwarded {
                Some(f) => Some(f@),
                None => None,
            },
        ),
{
    match peer {
        Some(p) => p,
        None => match forwarded {
            Some(f) => match header_text(f) {
                Some(_) => {
                    assert(all_ascii(f@)) by {
                        assert forall|i: int| 0 <= i < f@.len() implies #[trigger] f@[i] < 128 by {
                            assert(crate::auth::visible_ascii(f@[i]));
                        }
                    }
                    let field = first_forwarded_bytes(f);
                    ascii_string(field)
                },
                None => String::from_str("-"),
            },
            None => String::from_str("-"),
        },
    }
}

/// The request id named in a request's log span: the `x-request-id`
/// header when it reads as text, otherwise `-`.
pub fn request_id_label(header: Option<&[u8]>) -> (res: String)
    ensures
        res@ == match header {
            Some(h) => match header_text_of(h@) {
                Some(t) => t,
                None => "-"@,
            },
            None => "-"@,
        },
{
    match header {
        Some(h) => match header_text(h) {
            Some(t) => t,
            None => String::from_str("-"),
        },
        None => String::from_str("-"),
    }
}

} // verus!
