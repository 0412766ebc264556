//! Content negotiation: finding the `Content-Type` header and reading the
//! declared media type. A missing or unparsable header degrades to "no
//! media type" rather than failing the invocation.

use crate::text::{lower_seq, lower_string};
use vstd::prelude::*;
use vstd::string::*;

verus! {

/// The part of a response's declared media type that rendering depends
/// on: its `type/subtype` essence, without parameters.
#[derive(Debug, Clone)]
pub struct MediaType {
    pub essence: String,
}

/// What the media-type parser yields for a header value: `None` when the
/// value is not a well-formed media type, and otherwise its essence.
pub uninterp spec fn media_essence(s: Seq<char>) -> Option<Seq<char>>;

/// Relies on the `mime` crate: `Mime`'s `FromStr` accepts or rejects a
/// header value, and `Mime::essence_str` gives its `type/subtype` part;
/// both depend on the value alone.
#[verifier::external_body]
fn parse_media_type(s: &str) -> (r: Option<MediaType>)
    ensures
        match r {
            Some(m) => media_essence(s@) == Some(m.essence@),
            None => media_essence(s@) is None,
        },
{
    match s.parse::<mime::Mime>() {
        Ok(m) => Some(MediaType { essence: m.essence_str().to_string() }),
        Err(_) => None,
    }
}

/// The value of the first header named `content-type`, compared
/// ASCII-case-insensitively, or `None` when no header has that name.
pub open spec fn find_content_type(hs: Seq<(Seq<char>, Seq<char>)>) -> Option<Seq<char>>
    decreases hs.len(),
{
    if hs.len() == 0 {
        None
    } else if lower_seq(hs[0].0) == "content-type"@ {
        Some(hs[0].1)
    } else {
        find_content_type(hs.drop_first())
    }
}

/// The media type a header sequence declares: the essence of the first
/// `content-type` value, or `None` when the header is absent or its value
/// does not parse.
pub open spec fn declared_media(hs: Seq<(Seq<char>, Seq<char>)>) -> Option<Seq<char>> {
    match find_content_type(hs) {
        None => None,
        Some(v) => media_essence(v),
    }
}

/// Locates the `Content-Type` header (case-insensitive name match) and
/// parses its value; absence and an unparsable value both yield `None`.
pub fn content_type_of(headers: &Vec<(String, String)>) -> (r: Option<MediaType>)
    ensures
        match declared_media(headers.deep_view()) {
            None => r is None,
            Some(e) => r matches Some(m) && m.essence@ == e,
        },
{
    let ghost hs = headers.deep_view();
    let target = String::from_str("content-type");
    let n = headers.len();
    let mut i: usize = 0;
    proof {
        assert(hs.skip(0) =~= hs);
    }
    while i < n
        invariant
            n == headers@.len(),
            hs == headers.deep_view(),
            target@ == "content-type"@,
            0 <= i <= n,
            find_content_type(hs) == find_content_type(hs.skip(i as int)),
        decreases n - i,
    {
        let lowered = lower_string(&headers[i].0);
        proof {
            assert(hs.skip(i as int)[0] == hs[i as int]);
        }
        if lowered.eq(&target) {
            return parse_media_type(headers[i].1.as_str());
        }
        proof {
            assert(hs.skip(i as int).drop_first() =~= hs.skip((i + 1) as int));
        }
        i = i + 1;
    }
    proof {
        assert(hs.skip(n as int).len() == 0);
    }
    None
}

/// Whether a resolved media type calls for JSON rendering: its essence is
/// `application/json`, compared ASCII-case-insensitively.
pub open spec fn spec_media_is_json(m: Option<MediaType>) -> bool {
    match m {
        Some(mt) => lower_seq(mt.essence@) == "application/json"@,
        None => false,
    }
}

/// Decides whether the body should be rendered as JSON.
pub fn media_is_json(m: &Option<MediaType>) -> (r: bool)
    ensures
        r == spec_media_is_json(*m),
{
    match m {
        Some(mt) => {
            let lowered = lower_string(&mt.essence);
            lowered.eq(&String::from_str("application/json"))
        },
        None => false,
    }
}

} // verus!
