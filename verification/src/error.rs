//! The gateway's error taxonomy and the JSON error body rendered to
//! clients: each error kind carries an HTTP status, a short client-safe
//! message, and optional debug detail.

use vstd::prelude::*;

verus! {

/// Everything the dispatch pipeline can surface to a client.
#[derive(Debug)]
pub enum ServerError {
    /// Upstream transport failure, or failure reading the upstream body.
    ProxyError(String),
    /// No route matched, or a route matched but the method was denied.
    RouteNotFound,
    /// The constructed upstream URL is not http or https.
    InvalidTarget(String),
    /// The inbound request could not be read.
    RequestError(String),
    /// Response assembly failure or an unexpected invariant violation.
    InternalError(String),
}

/// HTTP status for each error kind.
pub open spec fn spec_status(e: ServerError) -> u16 {
    match e {
        ServerError::ProxyError(_) => 502,
        ServerError::RouteNotFound => 404,
        ServerError::InvalidTarget(_) => 500,
        ServerError::RequestError(_) => 400,
        ServerError::InternalError(_) => 500,
    }
}

/// Client-safe message for each error kind.
pub open spec fn spec_message(e: ServerError) -> Seq<char> {
    match e {
        ServerError::ProxyError(_) => "Service temporarily unavailable"@,
        ServerError::RouteNotFound => "Not found"@,
        ServerError::InvalidTarget(_) => "Configuration error"@,
        ServerError::RequestError(_) => "Bad request"@,
        ServerError::InternalError(_) => "Internal server error"@,
    }
}

/// Debug detail for each error kind, when any exists.
pub open spec fn spec_debug(e: ServerError) -> Option<Seq<char>> {
    match e {
        ServerError::ProxyError(m) => Some(m@),
        ServerError::RouteNotFound => None,
        ServerError::InvalidTarget(t) => Some("Invalid target: "@ + t@),
        ServerError::RequestError(m) => Some(m@),
        ServerError::InternalError(m) => Some(m@),
    }
}

/// The character for one hexadecimal digit, lower case.
pub open spec fn hex_digit_char(d: nat) -> char {
    if d < 10 {
        crate::strutil::digit_char(d)
    } else if d == 10 {
        'a'
    } else if d == 11 {
        'b'
    } else if d == 12 {
        'c'
    } else if d == 13 {
        'd'
    } else if d == 14 {
        'e'
    } else {
        'f'
    }
}

/// The JSON string-escape of one character: quote and backslash get a
/// backslash, control characters become `\u00XX`, everything else stands
/// as itself.
pub open spec fn esc_char(c: char) -> Seq<char> {
    if c == '"' {
        seq!['\\', '"']
    } else if c == '\\' {
        seq!['\\', '\\']
    } else if (c as u32) < 32 {
        seq!['\\', 'u', '0', '0'] + seq![
            hex_digit_char((c as u32 / 16) as nat),
            hex_digit_char((c as u32 % 16) as nat),
        ]
    } else {
        seq![c]
    }
}

/// The JSON string-escape of a whole string.
pub open spec fn json_escaped(s: Seq<char>) -> Seq<char>
    decreases s.len(),
{
    if s.len() == 0 {
        Seq::<char>::empty()
    } else {
        esc_char(s[0]) + json_escaped(s.skip(1))
    }
}

/// The JSON error body: an `error` field with the client message and,
/// when detail exists, a `debug` field with it.
pub open spec fn spec_error_body(msg: Seq<char>, dbg: Option<Seq<char>>) -> Seq<char> {
    "{\"error\":\""@ + json_escaped(msg) + "\""@ + (match dbg {
        Some(d) => ",\"debug\":\""@ + json_escaped(d) + "\""@,
        None => Seq::<char>::empty(),
    }) + "}"@
}

/// A one-character string for the hexadecimal digit `d`, lower case.
fn hex_digit_str(d: u32) -> (res: &'static str)
    requires
        d < 16,
    ensures
        res@ =~= seq![hex_digit_char(d as nat)],
{
    proof {
        reveal_strlit("0");
        reveal_strlit("1");
        reveal_strlit("2");
        reveal_strlit("3");
        reveal_strlit("4");
        reveal_strlit("5");
        reveal_strlit("6");
        reveal_strlit("7");
        reveal_strlit("8");
        reveal_strlit("9");
        reveal_strlit("a");
        reveal_strlit("b");
        reveal_strlit("c");
        reveal_strlit("d");
        reveal_strlit("e");
        reveal_strlit("f");
    }
    if d == 0 {
        "0"
    } else if d == 1 {
        "1"
    } else if d == 2 {
        "2"
    } else if d == 3 {
        "3"
    } else if d == 4 {
        "4"
    } else if d == 5 {
        "5"
    } else if d == 6 {
        "6"
    } else if d == 7 {
        "7"
    } else if d == 8 {
        "8"
    } else if d == 9 {
        "9"
    } else if d == 10 {
        "a"
    } else if d == 11 {
        "b"
    } else if d == 12 {
        "c"
    } else if d == 13 {
        "d"
    } else if d == 14 {
        "e"
    } else {
        "f"
    }
}

/// Escapes a string for inclusion in a JSON string literal.
pub fn json_escape(s: &str) -> (res: String)
    ensures
        res@ == json_escaped(s@),
{
    let n = s.unicode_len();
    let mut out = String::new();
    let mut i: usize = 0;
    proof {
        assert(s@.skip(0) =~= s@);
    }
    while i < n
        invariant
            n == s@.len(),
            i <= n,
            json_escaped(s@) =~= out@ + json_escaped(s@.skip(i as int)),
        decreases n - i,
    {
        let ghost pre = s@.skip(i as int);
        let c = s.get_char(i);
        assert(pre[0] == c);
        let cu = c as u32;
        if cu == '"' as u32 {
            out.append("\\\"");
            proof {
                reveal_strlit("\\\"");
                assert("\\\""@ =~= esc_char(c));
            }
        } else if cu == '\\' as u32 {
            out.append("\\\\");
            proof {
                reveal_strlit("\\\\");
                assert("\\\\"@ =~= esc_char(c));
            }
        } else if cu < 32 {
            out.append("\\u00");
            out.append(hex_digit_str(cu / 16));
            out.append(hex_digit_str(cu % 16));
            proof {
                reveal_strlit("\\u00");
                assert("\\u00"@ + seq![hex_digit_char((cu / 16) as nat)] + seq![
                    hex_digit_char((cu % 16) as nat),
                ] =~= esc_char(c));
            }
        } else {
            let piece = s.substring_char(i, i + 1);
            out.append(piece);
            proof {
                assert(piece@ =~= esc_char(c));
            }
        }
        proof {
            assert(pre.skip(1) =~= s@.skip(i + 1 as int));
        }
        i = i + 1;
    }
    proof {
        assert(s@.skip(n as int) =~= Seq::<char>::empty());
        assert(out@ =~= json_escaped(s@));
    }
    out
}

impl ServerError {
    /// The HTTP status this error maps to.
    pub fn status_code(&self) -> (res: u16)
        ensures
            res == spec_status(*self),
    {
        match self {
            ServerError::ProxyError(_) => 502,
            ServerError::RouteNotFound => 404,
            ServerError::InvalidTarget(_) => 500,
            ServerError::RequestError(_) => 400,
            ServerError::InternalError(_) => 500,
        }
    }

    /// The short client-safe message this error maps to.
    pub fn client_message(&self) -> (res: String)
        ensures
            res@ == spec_message(*self),
    {
        match self {
            ServerError::ProxyError(_) => String::from_str("Service temporarily unavailable"),
            ServerError::RouteNotFound => String::from_str("Not found"),
            ServerError::InvalidTarget(_) => String::from_str("Configuration error"),
            ServerError::RequestError(_) => String::from_str("Bad request"),
            ServerError::InternalError(_) => String::from_str("Internal server error"),
        }
    }

    /// The debug detail this error carries, when any.
    pub fn debug_detail(&self) -> (res: Option<String>)
        ensures
            res.deep_view() == spec_debug(*self),
    {
        match self {
            ServerError::ProxyError(m) => Some(m.clone()),
            ServerError::RouteNotFound => None,
            ServerError::InvalidTarget(t) => {
                let mut s = String::from_str("Invalid target: ");
                s.append(t.as_str());
                Some(s)
            },
            ServerError::RequestError(m) => Some(m.clone()),
            ServerError::InternalError(m) => Some(m.clone()),
        }
    }

    /// The JSON body rendered to the client for this error.
    pub fn body_json(&self) -> (res: String)
        ensures
            res@ == spec_error_body(spec_message(*self), spec_debug(*self)),
    {
        let msg = self.client_message();
        let dbg = self.debug_detail();
        let mut out = String::from_str("{\"error\":\"");
        out.append(json_escape(msg.as_str()).as_str());
        out.append("\"");
        match dbg {
            Some(d) => {
                out.append(",\"debug\":\"");
                out.append(json_escape(d.as_str()).as_str());
                out.append("\"");
            },
            None => {},
        }
        out.append("}");
        proof {
            assert(out@ =~= spec_error_body(spec_message(*self), spec_debug(*self)));
        }
        out
    }

    /// A one-line description of this error, for logs.
    pub fn describe(&self) -> (res: String)
        ensures
            match *self {
                ServerError::ProxyError(m) => res@ == "Proxy error: "@ + m@,
                ServerError::RouteNotFound => res@ == "Route not found"@,
                ServerError::InvalidTarget(t) => res@ == "Invalid target: "@ + t@,
                ServerError::RequestError(m) => res@ == "Request error: "@ + m@,
                ServerError::InternalError(m) => res@ == "Internal error: "@ + m@,
            },
    {
        match self {
            ServerError::ProxyError(m) => {
                let mut s = String::from_str("Proxy error: ");
                s.append(m.as_str());
                s
            },
            ServerError::RouteNotFound => String::from_str("Route not found"),
            ServerError::InvalidTarget(t) => {
                let mut s = String::from_str("Invalid target: ");
                s.append(t.as_str());
                s
            },
            ServerError::RequestError(m) => {
                let mut s = String::from_str("Request error: ");
                s.append(m.as_str());
                s
            },
            ServerError::InternalError(m) => {
                let mut s = String::from_str("Internal error: ");
                s.append(m.as_str());
                s
            },
        }
    }
}

} // verus!
