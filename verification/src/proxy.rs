//! The proxy engine's decision logic: building the upstream URL, hop-by-hop
//! header hygiene in both directions, the `Host` rewrite to the upstream
//! authority, and mapping the upstream response back to the downstream
//! shape.
//!
//! Headers are carried as ordered name/value pairs of plain strings; the
//! transport around this module converts them to and from its own header
//! types, dropping a value its validation refuses.

use vstd::prelude::*;

use crate::error::ServerError;
use crate::strutil::{
    dec_digits, eq_ignore_case, starts_with, str_eq, str_eq_ignore_case, str_starts_with,
    u16_to_string,
};

verus! {

/// `s` with every trailing `/` removed.
pub open spec fn trim_trailing_slashes(s: Seq<char>) -> Seq<char>
    decreases s.len(),
{
    if s.len() > 0 && s.last() == '/' {
        trim_trailing_slashes(s.drop_last())
    } else {
        s
    }
}

/// The upstream URL: the target base without its trailing slashes, then the
/// inbound path-and-query verbatim.
pub open spec fn spec_target_url(base: Seq<char>, path_and_query: Seq<char>) -> Seq<char> {
    trim_trailing_slashes(base) + path_and_query
}

/// Whether a URL begins with an accepted scheme.
pub open spec fn is_http_url(u: Seq<char>) -> bool {
    starts_with(u, "http://"@) || starts_with(u, "https://"@)
}

/// Builds the upstream URL from the route target and the inbound
/// path-and-query, rejecting a result that is not http or https.
pub fn build_target_url(target_base: &str, path_and_query: &str) -> (res: Result<
    String,
    ServerError,
>)
    ensures
        (res is Ok) == is_http_url(spec_target_url(target_base@, path_and_query@)),
        res matches Ok(u) ==> u@ == spec_target_url(target_base@, path_and_query@),
        res matches Err(e) ==> e matches ServerError::InvalidTarget(t) && t@ == spec_target_url(
            target_base@,
            path_and_query@,
        ),
{
    let n = target_base.unicode_len();
    let mut k = n;
    proof {
        assert(target_base@.take(n as int) =~= target_base@);
    }
    while k > 0 && target_base.get_char(k - 1) == '/'
        invariant
            n == target_base@.len(),
            k <= n,
            trim_trailing_slashes(target_base@) == trim_trailing_slashes(
                target_base@.take(k as int),
            ),
        decreases k,
    {
        proof {
            let t = target_base@.take(k as int);
            assert(t.last() == target_base@[k - 1]);
            assert(t.drop_last() =~= target_base@.take(k - 1));
        }
        k = k - 1;
    }
    proof {
        let t = target_base@.take(k as int);
        assert(t.len() > 0 ==> t.last() == target_base@[k - 1]);
        assert(trim_trailing_slashes(t) == t);
    }
    let trimmed = target_base.substring_char(0, k);
    let mut url = String::from_str(trimmed);
    url.append(path_and_query);
    proof {
        assert(trimmed@ =~= target_base@.take(k as int));
        assert(url@ =~= spec_target_url(target_base@, path_and_query@));
        reveal_strlit("http://");
        reveal_strlit("https://");
    }
    let ok = str_starts_with(url.as_str(), "http://") || str_starts_with(url.as_str(), "https://");
    if ok {
        Ok(url)
    } else {
        Err(ServerError::InvalidTarget(url))
    }
}

/// Header names dropped from the request before it is forwarded upstream:
/// the hop-by-hop set, plus `host`, which is rewritten.
pub open spec fn is_hop_request_header(name: Seq<char>) -> bool {
    ||| eq_ignore_case(name, "connection"@)
    ||| eq_ignore_case(name, "upgrade"@)
    ||| eq_ignore_case(name, "proxy-authenticate"@)
    ||| eq_ignore_case(name, "proxy-authorization"@)
    ||| eq_ignore_case(name, "te"@)
    ||| eq_ignore_case(name, "trailers"@)
    ||| eq_ignore_case(name, "transfer-encoding"@)
    ||| eq_ignore_case(name, "host"@)
}

/// Header names dropped from the upstream response before it is returned
/// downstream.
pub open spec fn is_hop_response_header(name: Seq<char>) -> bool {
    ||| eq_ignore_case(name, "connection"@)
    ||| eq_ignore_case(name, "upgrade"@)
    ||| eq_ignore_case(name, "transfer-encoding"@)
}

/// The request headers that survive hop-by-hop filtering, in order.
pub open spec fn spec_filter_request(h: Seq<(Seq<char>, Seq<char>)>) -> Seq<
    (Seq<char>, Seq<char>),
>
    decreases h.len(),
{
    if h.len() == 0 {
        Seq::<(Seq<char>, Seq<char>)>::empty()
    } else {
        spec_filter_request(h.drop_last()) + (if is_hop_request_header(h.last().0) {
            Seq::<(Seq<char>, Seq<char>)>::empty()
        } else {
            seq![h.last()]
        })
    }
}

/// The response headers that survive hop-by-hop filtering, in order.
pub open spec fn spec_filter_response(h: Seq<(Seq<char>, Seq<char>)>) -> Seq<
    (Seq<char>, Seq<char>),
>
    decreases h.len(),
{
    if h.len() == 0 {
        Seq::<(Seq<char>, Seq<char>)>::empty()
    } else {
        spec_filter_response(h.drop_last()) + (if is_hop_response_header(h.last().0) {
            Seq::<(Seq<char>, Seq<char>)>::empty()
        } else {
            seq![h.last()]
        })
    }
}

/// What the URL parser reports of a URL: its host, its explicit port, and
/// its scheme; `None` when the URL does not parse or has no host. The
/// result depends on the URL text alone.
pub uninterp spec fn url_authority(url: Seq<char>) -> Option<(Seq<char>, Option<u16>, Seq<char>)>;

/// Relies on url::Url::parse together with its accessors host_str, port
/// and scheme: the parts of the parsed URL's authority, converted to plain
/// values. url::Url::port is the port written in the URL; the url crate
/// never reports a port that equals the scheme's well-known default.
#[verifier::external_body]
fn parse_url_authority(u: &str) -> (res: Option<(String, Option<u16>, String)>)
    ensures
        match (res, url_authority(u@)) {
            (Some(a), Some(b)) => a.0@ == b.0 && a.1 == b.1 && a.2@ == b.2,
            (None, None) => true,
            _ => false,
        },
{
    match url::Url::parse(u) {
        Ok(p) => match p.host_str() {
            Some(h) => Some((h.to_string(), p.port(), p.scheme().to_string())),
            None => None,
        },
        Err(_) => None,
    }
}

/// The default port of a scheme; zero for a scheme without one.
pub open spec fn spec_default_port(scheme: Seq<char>) -> u16 {
    if scheme == "https"@ {
        443
    } else if scheme == "http"@ {
        80
    } else {
        0
    }
}

/// The `Host` value for an upstream authority: bare host when the URL has
/// no explicit port or the port is the scheme's default, `host:port`
/// otherwise.
pub open spec fn spec_authority(host: Seq<char>, port: Option<u16>, scheme: Seq<char>) -> Seq<
    char,
> {
    match port {
        Some(p) => if p != spec_default_port(scheme) {
            host + seq![':'] + dec_digits(p as nat)
        } else {
            host
        },
        None => host,
    }
}

/// The headers forwarded upstream: the filtered request headers, then a
/// `host` entry with the upstream authority when the target URL yields
/// one.
pub open spec fn spec_request_headers(
    h: Seq<(Seq<char>, Seq<char>)>,
    url: Seq<char>,
) -> Seq<(Seq<char>, Seq<char>)> {
    spec_filter_request(h) + (match url_authority(url) {
        Some(a) => seq![("host"@, spec_authority(a.0, a.1, a.2))],
        None => Seq::<(Seq<char>, Seq<char>)>::empty(),
    })
}

/// The default port of a scheme.
fn scheme_default_port(scheme: &str) -> (res: u16)
    ensures
        res == spec_default_port(scheme@),
{
    if str_eq(scheme, "https") {
        443
    } else if str_eq(scheme, "http") {
        80
    } else {
        0
    }
}

/// Drops the hop-by-hop headers from an inbound request and appends the
/// rewritten `Host` for the target URL.
pub fn filter_request_headers(headers: &Vec<(String, String)>, target_url: &str) -> (res: Vec<
    (String, String),
>)
    ensures
        res.deep_view() == spec_request_headers(headers.deep_view(), target_url@),
{
    let ghost hdv = headers.deep_view();
    let mut out: Vec<(String, String)> = Vec::new();
    let mut i: usize = 0;
    proof {
        assert(hdv.take(0) =~= Seq::<(Seq<char>, Seq<char>)>::empty());
    }
    while i < headers.len()
        invariant
            hdv == headers.deep_view(),
            hdv.len() == headers@.len(),
            i <= hdv.len(),
            out.deep_view() =~~= spec_filter_request(hdv.take(i as int)),
        decreases hdv.len() - i,
    {
        let name = headers[i].0.as_str();
        let drop = str_eq_ignore_case(name, "connection") || str_eq_ignore_case(name, "upgrade")
            || str_eq_ignore_case(name, "proxy-authenticate") || str_eq_ignore_case(
            name,
            "proxy-authorization",
        ) || str_eq_ignore_case(name, "te") || str_eq_ignore_case(name, "trailers")
            || str_eq_ignore_case(name, "transfer-encoding") || str_eq_ignore_case(name, "host");
        proof {
            assert(hdv.take(i + 1 as int).drop_last() =~= hdv.take(i as int));
            assert(hdv.take(i + 1 as int).last() == hdv[i as int]);
            assert(hdv[i as int].0 == headers@[i as int].0@);
        }
        if !drop {
            out.push((headers[i].0.clone(), headers[i].1.clone()));
        }
        proof {
            assert(out.deep_view() =~~= spec_filter_request(hdv.take(i + 1 as int)));
        }
        i = i + 1;
    }
    proof {
        assert(hdv.take(hdv.len() as int) =~= hdv);
    }
    match parse_url_authority(target_url) {
        Some((host, port, scheme)) => {
            let value = match port {
                Some(p) => {
                    let dp = scheme_default_port(scheme.as_str());
                    if p != dp {
                        let mut s = host;
                        s.append(":");
                        s.append(u16_to_string(p).as_str());
                        proof {
                            reveal_strlit(":");
                            assert(s@ =~= url_authority(target_url@)->Some_0.0 + seq![':']
                                + dec_digits(p as nat));
                        }
                        s
                    } else {
                        host
                    }
                },
                None => host,
            };
            out.push((String::from_str("host"), value));
            proof {
                assert(out.deep_view() =~~= spec_request_headers(hdv, target_url@));
            }
            out
        },
        None => {
            proof {
                assert(out.deep_view() =~~= spec_request_headers(hdv, target_url@));
            }
            out
        },
    }
}

/// Drops the hop-by-hop headers from an upstream response; every other
/// header is kept unchanged, in order.
pub fn filter_response_headers(headers: &Vec<(String, String)>) -> (res: Vec<(String, String)>)
    ensures
        res.deep_view() == spec_filter_response(headers.deep_view()),
{
    let ghost hdv = headers.deep_view();
    let mut out: Vec<(String, String)> = Vec::new();
    let mut i: usize = 0;
    proof {
        assert(hdv.take(0) =~= Seq::<(Seq<char>, Seq<char>)>::empty());
    }
    while i < headers.len()
        invariant
            hdv == headers.deep_view(),
            hdv.len() == headers@.len(),
            i <= hdv.len(),
            out.deep_view() =~~= spec_filter_response(hdv.take(i as int)),
        decreases hdv.len() - i,
    {
        let name = headers[i].0.as_str();
        let drop = str_eq_ignore_case(name, "connection") || str_eq_ignore_case(name, "upgrade")
            || str_eq_ignore_case(name, "transfer-encoding");
        proof {
            assert(hdv.take(i + 1 as int).drop_last() =~= hdv.take(i as int));
            assert(hdv.take(i + 1 as int).last() == hdv[i as int]);
            assert(hdv[i as int].0 == headers@[i as int].0@);
        }
        if !drop {
            out.push((headers[i].0.clone(), headers[i].1.clone()));
        }
        proof {
            assert(out.deep_view() =~~= spec_filter_response(hdv.take(i + 1 as int)));
        }
        i = i + 1;
    }
    proof {
        assert(hdv.take(hdv.len() as int) =~= hdv);
    }
    out
}

/// A buffered upstream response mapped to the downstream shape: the status
/// unchanged, the filtered headers, the body bytes unchanged.
pub struct ProxyResponse {
    pub status: u16,
    pub headers: Vec<(String, String)>,
    pub body: Vec<u8>,
}

/// Composes the downstream response from a buffered upstream response.
/// The status code and the body bytes are preserved exactly; only the
/// hop-by-hop headers are dropped.
pub fn convert_response(status: u16, headers: &Vec<(String, String)>, body: Vec<u8>) -> (res:
    ProxyResponse)
    ensures
        res.status == status,
        res.body@ == body@,
        res.headers.deep_view() == spec_filter_response(headers.deep_view()),
{
    ProxyResponse { status, headers: filter_response_headers(headers), body }
}

/// No header dropped as hop-by-hop survives request filtering, and every
/// survivor is one of the originals, in order.
pub proof fn lemma_filter_request_no_hop(h: Seq<(Seq<char>, Seq<char>)>)
    ensures
        forall|k: int|
            0 <= k < spec_filter_request(h).len() ==> !is_hop_request_header(
                #[trigger] spec_filter_request(h)[k].0,
            ),
        forall|k: int|
            0 <= k < spec_filter_request(h).len() ==> h.contains(
                #[trigger] spec_filter_request(h)[k],
            ),
    decreases h.len(),
{
    if h.len() == 0 {
    } else {
        lemma_filter_request_no_hop(h.drop_last());
        assert forall|k: int|
            0 <= k < spec_filter_request(h).len() implies !is_hop_request_header(
            #[trigger] spec_filter_request(h)[k].0,
        ) && h.contains(spec_filter_request(h)[k]) by {
            let prev = spec_filter_request(h.drop_last());
            if k < prev.len() {
                assert(spec_filter_request(h)[k] == prev[k]);
                assert(h.drop_last().contains(prev[k]));
                let j = choose|j: int| 0 <= j < h.drop_last().len() && h.drop_last()[j] == prev[k];
                assert(h[j] == spec_filter_request(h)[k]);
                assert(h.contains(spec_filter_request(h)[k]));
            } else {
                assert(spec_filter_request(h)[k] == h.last());
                assert(h[h.len() - 1] == spec_filter_request(h)[k]);
                assert(h.contains(spec_filter_request(h)[k]));
            }
        }
    }
}

/// No hop-by-hop header survives response filtering, and every survivor is
/// one of the originals, in order. This is the hygiene the downstream
/// response is owed.
pub proof fn lemma_filter_response_no_hop(h: Seq<(Seq<char>, Seq<char>)>)
    ensures
        forall|k: int|
            0 <= k < spec_filter_response(h).len() ==> !is_hop_response_header(
                #[trigger] spec_filter_response(h)[k].0,
            ),
        forall|k: int|
            0 <= k < spec_filter_response(h).len() ==> h.contains(
                #[trigger] spec_filter_response(h)[k],
            ),
    decreases h.len(),
{
    if h.len() == 0 {
    } else {
        lemma_filter_response_no_hop(h.drop_last());
        assert forall|k: int|
            0 <= k < spec_filter_response(h).len() implies !is_hop_response_header(
            #[trigger] spec_filter_response(h)[k].0,
        ) && h.contains(spec_filter_response(h)[k]) by {
            let prev = spec_filter_response(h.drop_last());
            if k < prev.len() {
                assert(spec_filter_response(h)[k] == prev[k]);
                assert(h.drop_last().contains(prev[k]));
                let j = choose|j: int| 0 <= j < h.drop_last().len() && h.drop_last()[j] == prev[k];
                assert(h[j] == spec_filter_response(h)[k]);
                assert(h.contains(spec_filter_response(h)[k]));
            } else {
                assert(spec_filter_response(h)[k] == h.last());
                assert(h[h.len() - 1] == spec_filter_response(h)[k]);
                assert(h.contains(spec_filter_response(h)[k]));
            }
        }
    }
}

/// The headers forwarded upstream carry none of the hop-by-hop names, and
/// when the target URL yields an authority the one `host` entry is exactly
/// that authority, standing last.
pub proof fn lemma_request_headers_hygiene(h: Seq<(Seq<char>, Seq<char>)>, url: Seq<char>)
    ensures
        url_authority(url) matches Some(a) ==> {
            let r = spec_request_headers(h, url);
            &&& r.len() == spec_filter_request(h).len() + 1
            &&& r.last() == ("host"@, spec_authority(a.0, a.1, a.2))
            &&& forall|k: int| 0 <= k < r.len() - 1 ==> !is_hop_request_header(#[trigger] r[k].0)
        },
        url_authority(url) is None ==> spec_request_headers(h, url) == spec_filter_request(h)
            && forall|k: int|
            0 <= k < spec_request_headers(h, url).len() ==> !is_hop_request_header(
                #[trigger] spec_request_headers(h, url)[k].0,
            ),
{
    lemma_filter_request_no_hop(h);
    match url_authority(url) {
        Some(a) => {
            let r = spec_request_headers(h, url);
            assert(r.last() == ("host"@, spec_authority(a.0, a.1, a.2)));
            assert(forall|k: int|
                0 <= k < r.len() - 1 ==> r[k] == #[trigger] spec_filter_request(h)[k]);
        },
        None => {
            assert(spec_request_headers(h, url) =~= spec_filter_request(h));
        },
    }
}

} // verus!
