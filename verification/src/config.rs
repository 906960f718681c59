//! Configuration data for the gateway: the listener, the ordered route list,
//! and the per-route settings that the matcher and the method gate consult.

use vstd::prelude::*;

use crate::logging::LoggingConfig;

verus! {

/// How a route's `path` field is interpreted when a request path is matched
/// against it.
#[derive(Debug, Clone, Copy, PartialEq, Eq, Structural)]
pub enum MatchType {
    /// The request path must equal the route path byte for byte
    /// (an empty route path matches exactly `/`).
    Exact,
    /// The route path is a pattern over `*`, `**` and `{name}` placeholders.
    Wildcard,
    /// The route path is an arbitrary regular expression.
    Regex,
    /// The route path must be a byte prefix of the request path.
    Prefix,
}

/// Which authentication scheme a route's `auth` block names.
#[derive(Debug, Clone, Copy, PartialEq, Eq, Structural)]
pub enum AuthType {
    Bearer,
    Basic,
    ApiKey,
}

/// A route's authentication block. It is carried through to collaborators
/// and is not enforced by the dispatch pipeline.
#[derive(Debug)]
pub struct AuthConfig {
    pub required: bool,
    pub roles: Vec<String>,
    pub auth_type: AuthType,
}

/// Mathematical value of an [`AuthConfig`].
#[verifier::ext_equal]
pub struct AuthView {
    pub required: bool,
    pub roles: Seq<Seq<char>>,
    pub auth_type: AuthType,
}

impl View for AuthConfig {
    type V = AuthView;

    open spec fn view(&self) -> AuthView {
        AuthView {
            required: self.required,
            roles: self.roles.deep_view(),
            auth_type: self.auth_type,
        }
    }
}

impl Clone for AuthConfig {
    fn clone(&self) -> (res: Self)
        ensures
            res@ == self@,
    {
        let res = AuthConfig {
            required: self.required,
            roles: clone_strings(&self.roles),
            auth_type: self.auth_type,
        };
        assert(res@.roles =~= self@.roles);
        res
    }
}

impl Default for AuthConfig {
    fn default() -> (res: Self)
        ensures
            res@.required == false,
            res@.roles =~= Seq::<Seq<char>>::empty(),
            res@.auth_type == AuthType::Bearer,
    {
        AuthConfig { required: false, roles: Vec::new(), auth_type: AuthType::Bearer }
    }
}

impl Default for AuthType {
    fn default() -> (res: Self)
        ensures
            res == AuthType::Bearer,
    {
        AuthType::Bearer
    }
}

impl Default for MatchType {
    fn default() -> (res: Self)
        ensures
            res == MatchType::Exact,
    {
        MatchType::Exact
    }
}

/// One configured route: a path pattern, the upstream base URL it forwards
/// to, the allowed methods (empty means allow all), an authentication block,
/// and the dialect used to interpret the pattern.
#[derive(Debug)]
pub struct RouteConfig {
    pub path: String,
    pub target: String,
    pub methods: Vec<String>,
    pub auth: AuthConfig,
    pub match_type: MatchType,
}

/// Mathematical value of a [`RouteConfig`].
#[verifier::ext_equal]
pub struct RouteView {
    pub path: Seq<char>,
    pub target: Seq<char>,
    pub methods: Seq<Seq<char>>,
    pub auth: AuthView,
    pub match_type: MatchType,
}

impl View for RouteConfig {
    type V = RouteView;

    open spec fn view(&self) -> RouteView {
        RouteView {
            path: self.path@,
            target: self.target@,
            methods: self.methods.deep_view(),
            auth: self.auth@,
            match_type: self.match_type,
        }
    }
}

impl DeepView for RouteConfig {
    type V = RouteView;

    open spec fn deep_view(&self) -> RouteView {
        self.view()
    }
}

impl Clone for RouteConfig {
    fn clone(&self) -> (res: Self)
        ensures
            res@ == self@,
    {
        let res = RouteConfig {
            path: self.path.clone(),
            target: self.target.clone(),
            methods: clone_strings(&self.methods),
            auth: self.auth.clone(),
            match_type: self.match_type,
        };
        assert(res@.methods =~= self@.methods);
        res
    }
}

impl Default for RouteConfig {
    fn default() -> (res: Self)
        ensures
            res@.path =~= Seq::<char>::empty(),
            res@.target =~= Seq::<char>::empty(),
            res@.methods =~= spec_default_methods(),
            res@.match_type == MatchType::Exact,
    {
        RouteConfig {
            path: String::new(),
            target: String::new(),
            methods: default_methods(),
            auth: AuthConfig::default(),
            match_type: MatchType::default(),
        }
    }
}

/// The method list a route gets when its configuration names none.
pub open spec fn spec_default_methods() -> Seq<Seq<char>> {
    seq!["GET"@, "POST"@]
}

/// Routes default to allowing `GET` and `POST`.
pub fn default_methods() -> (res: Vec<String>)
    ensures
        res.deep_view() =~= spec_default_methods(),
{
    let mut v: Vec<String> = Vec::new();
    v.push(String::from_str("GET"));
    v.push(String::from_str("POST"));
    v
}

/// Clones every element of a vector of strings, keeping the contents.
pub fn clone_strings(v: &Vec<String>) -> (res: Vec<String>)
    ensures
        res.deep_view() =~= v.deep_view(),
{
    let mut out: Vec<String> = Vec::new();
    let mut i: usize = 0;
    while i < v.len()
        invariant
            i <= v.len(),
            out@.len() == i,
            forall|j: int| 0 <= j < i ==> out@[j]@ == v@[j]@,
        decreases v.len() - i,
    {
        let s = v[i].clone();
        out.push(s);
        i = i + 1;
    }
    assert(out.deep_view() =~~= v.deep_view());
    out
}

/// The listening socket and the advisory connection cap.
#[derive(Debug)]
pub struct ServerConfig {
    /// IP literal of the address to bind.
    pub host: String,
    pub port: u16,
    pub max_connections: usize,
}

/// Mathematical value of a [`ServerConfig`].
#[verifier::ext_equal]
pub struct ServerView {
    pub host: Seq<char>,
    pub port: u16,
    pub max_connections: usize,
}

impl View for ServerConfig {
    type V = ServerView;

    open spec fn view(&self) -> ServerView {
        ServerView { host: self.host@, port: self.port, max_connections: self.max_connections }
    }
}

impl Default for ServerConfig {
    fn default() -> (res: Self)
        ensures
            res@.host =~= "127.0.0.1"@,
            res@.port == 8080,
            res@.max_connections == 1024,
    {
        ServerConfig {
            host: default_host(),
            port: default_port(),
            max_connections: default_max_connections(),
        }
    }
}

/// The listener binds the loopback address when no host is configured.
pub fn default_host() -> (res: String)
    ensures
        res@ =~= "127.0.0.1"@,
{
    String::from_str("127.0.0.1")
}

/// The listener port when none is configured.
pub fn default_port() -> (res: u16)
    ensures
        res == 8080,
{
    8080
}

/// The advisory connection cap when none is configured.
pub fn default_max_connections() -> (res: usize)
    ensures
        res == 1024,
{
    1024
}

/// The whole configuration: the listener, the ordered routes, the logging
/// section, and the debug flag.
#[derive(Debug)]
pub struct AppConfig {
    pub server: ServerConfig,
    pub routes: Vec<RouteConfig>,
    pub logging: LoggingConfig,
    pub debug: bool,
}

impl Default for AppConfig {
    fn default() -> (res: Self)
        ensures
            res.server@.host =~= "127.0.0.1"@,
            res.server@.port == 8080,
            res.server@.max_connections == 1024,
            res.routes@.len() == 0,
            res.logging.level@ =~= "info"@,
            res.debug == false,
    {
        AppConfig {
            server: ServerConfig::default(),
            routes: Vec::new(),
            logging: LoggingConfig::default(),
            debug: false,
        }
    }
}

} // verus!
