//! Rendering a received response for the terminal: status line, headers
//! and body, with JSON bodies pretty-printed and everything else passed
//! through verbatim.

use crate::media::{
    content_type_of, declared_media, media_is_json, spec_media_is_json, MediaType,
};
use crate::text::{dec_str, lower_seq, push_char, push_decimal};
use vstd::prelude::*;
use vstd::string::*;

verus! {

/// One received response, reduced to the plain values rendering needs:
/// protocol version text, numeric status code, headers in the order the
/// transport delivered them, and the body decoded as text.
#[derive(Debug)]
pub struct ResponseDescriptor {
    pub version: String,
    pub status: u16,
    pub headers: Vec<(String, String)>,
    pub body: String,
}

/// What the JSON pretty-printer yields for a body text: a reformatted
/// text or a rejection, depending on the input alone.
pub uninterp spec fn pretty_json(s: Seq<char>) -> Result<Seq<char>, Seq<char>>;

/// Relies on `jsonxf::pretty_print`: reformats a JSON text with two-space
/// indentation, or reports why it cannot; the outcome depends on the
/// input text alone.
#[verifier::external_body]
fn pretty_print(s: &str) -> (r: Result<String, String>)
    ensures
        match r {
            Ok(t) => pretty_json(s@) == Ok::<Seq<char>, Seq<char>>(t@),
            Err(e) => pretty_json(s@) == Err::<Seq<char>, Seq<char>>(e@),
        },
{
    jsonxf::pretty_print(s)
}

/// The rendered body section: the pretty-printed text when the response
/// declares JSON and the body pretty-prints, and otherwise the body
/// unchanged.
pub open spec fn spec_render_body(is_json: bool, body: Seq<char>) -> Seq<char> {
    if is_json {
        match pretty_json(body) {
            Ok(t) => t,
            Err(_) => body,
        }
    } else {
        body
    }
}

/// Renders the body section. A declared-JSON body that fails to
/// pretty-print is passed through unchanged: render degradation is
/// recovered locally, never surfaced as an error.
pub fn render_body(m: &Option<MediaType>, body: &String) -> (r: String)
    ensures
        r@ == spec_render_body(spec_media_is_json(*m), body@),
{
    if media_is_json(m) {
        match pretty_print(body.as_str()) {
            Ok(p) => p,
            Err(_) => body.clone(),
        }
    } else {
        body.clone()
    }
}

/// The status line: protocol version, a space, and the decimal status
/// code.
pub open spec fn spec_status_line(version: Seq<char>, status: u16) -> Seq<char> {
    version + seq![' '] + dec_str(status as nat)
}

/// Renders the status line, e.g. `HTTP/1.1 200`.
pub fn render_status_line(version: &String, status: u16) -> (r: String)
    ensures
        r@ == spec_status_line(version@, status),
{
    let mut out = version.clone();
    push_char(&mut out, ' ');
    push_decimal(&mut out, status);
    proof {
        assert(version@.push(' ') + dec_str(status as nat) =~= spec_status_line(
            version@,
            status,
        ));
    }
    out
}

/// The headers section: each header as `name: value` on its own line, in
/// the order received.
pub open spec fn headers_text(hs: Seq<(Seq<char>, Seq<char>)>) -> Seq<char>
    decreases hs.len(),
{
    if hs.len() == 0 {
        Seq::empty()
    } else {
        headers_text(hs.drop_last()) + hs.last().0 + seq![':', ' '] + hs.last().1 + seq!['\n']
    }
}

/// Renders the headers section, one `name: value` line per header, in
/// order, without re-sorting.
pub fn render_headers(headers: &Vec<(String, String)>) -> (r: String)
    ensures
        r@ == headers_text(headers.deep_view()),
{
    let ghost hs = headers.deep_view();
    let mut out = String::new();
    let n = headers.len();
    let mut i: usize = 0;
    while i < n
        invariant
            n == headers@.len(),
            hs == headers.deep_view(),
            0 <= i <= n,
            out@ == headers_text(hs.take(i as int)),
        decreases n - i,
    {
        out.append(headers[i].0.as_str());
        push_char(&mut out, ':');
        push_char(&mut out, ' ');
        out.append(headers[i].1.as_str());
        push_char(&mut out, '\n');
        proof {
            assert(hs.take((i + 1) as int).drop_last() =~= hs.take(i as int));
            assert(hs.take((i + 1) as int).last() == hs[i as int]);
            assert(out@ =~= headers_text(hs.take((i + 1) as int)));
        }
        i = i + 1;
    }
    proof {
        assert(hs.take(n as int) =~= hs);
    }
    out
}

/// Whether the header sequence declares a JSON body: the first
/// `content-type` header parses to a media type whose essence is
/// `application/json`.
pub open spec fn spec_declared_is_json(hs: Seq<(Seq<char>, Seq<char>)>) -> bool {
    match declared_media(hs) {
        Some(e) => lower_seq(e) == "application/json"@,
        None => false,
    }
}

/// The full rendered response: status line, headers and body, each
/// section separated by a blank line, with the body pretty-printed
/// exactly when the headers declare JSON.
pub open spec fn rendered_response(
    version: Seq<char>,
    status: u16,
    hs: Seq<(Seq<char>, Seq<char>)>,
    body: Seq<char>,
) -> Seq<char> {
    spec_status_line(version, status) + seq!['\n', '\n'] + headers_text(hs) + seq!['\n']
        + spec_render_body(spec_declared_is_json(hs), body) + seq!['\n']
}

/// Renders a whole response for the terminal.
pub fn render_response(resp: &ResponseDescriptor) -> (r: String)
    ensures
        r@ == rendered_response(resp.version@, resp.status, resp.headers.deep_view(), resp.body@),
{
    let mut out = render_status_line(&resp.version, resp.status);
    push_char(&mut out, '\n');
    push_char(&mut out, '\n');
    let hdrs = render_headers(&resp.headers);
    out.append(hdrs.as_str());
    push_char(&mut out, '\n');
    let media = content_type_of(&resp.headers);
    let body = render_body(&media, &resp.body);
    out.append(body.as_str());
    push_char(&mut out, '\n');
    proof {
        assert(spec_media_is_json(media) == spec_declared_is_json(resp.headers.deep_view()));
        assert(out@ =~= rendered_response(
            resp.version@,
            resp.status,
            resp.headers.deep_view(),
            resp.body@,
        ));
    }
    out
}

} // verus!
