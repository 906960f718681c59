//! The route matcher: compiles the configured routes once, then answers,
//! for a request path, which route matches first and which path parameters
//! it captures.

use vstd::prelude::*;

use crate::config::{MatchType, RouteConfig, RouteView};
use crate::pattern::{compile_wildcard_pattern, wild_names, wildcard_regex};
use crate::rx::{regex_caps, regex_compiles, regex_find_captures, regex_new, regex_source};
use crate::strutil::{starts_with, str_eq, str_starts_with};

verus! {

/// Rejection of a route table: one route's pattern did not compile.
#[derive(Debug)]
pub struct PatternInvalid {
    /// The pattern text that was rejected.
    pub pattern: String,
}

/// One compiled route: the configuration it came from, the compiled regular
/// expression for the Wildcard and Regex dialects, and the ordered capture
/// names for the Wildcard dialect.
struct CompiledRoute {
    config: RouteConfig,
    regex: Option<regex::Regex>,
    param_names: Vec<String>,
}

/// Mathematical value of a compiled route: the route, the pattern text of
/// its compiled regular expression (if it has one), and its capture names.
#[verifier::ext_equal]
pub struct CRouteView {
    pub route: RouteView,
    pub rx: Option<Seq<char>>,
    pub names: Seq<Seq<char>>,
}

impl View for CompiledRoute {
    type V = CRouteView;

    closed spec fn view(&self) -> CRouteView {
        CRouteView {
            route: self.config@,
            rx: match self.regex {
                Some(re) => Some(regex_source(re)),
                None => None,
            },
            names: self.param_names.deep_view(),
        }
    }
}

impl DeepView for CompiledRoute {
    type V = CRouteView;

    open spec fn deep_view(&self) -> CRouteView {
        self.view()
    }
}

/// A compiled route is well formed when its compiled parts agree with its
/// dialect: Exact and Prefix carry no regex, Wildcard carries the regex its
/// pattern compiles to together with the pattern's capture names, and Regex
/// carries the configured pattern itself.
pub open spec fn croute_wf(c: CRouteView) -> bool {
    match c.route.match_type {
        MatchType::Exact => c.rx is None && c.names.len() == 0,
        MatchType::Prefix => c.rx is None && c.names.len() == 0,
        MatchType::Wildcard => c.rx == Some(wildcard_regex(c.route.path)) && c.names
            == wild_names(c.route.path),
        MatchType::Regex => c.rx == Some(c.route.path) && c.names.len() == 0,
    }
}

/// Whether a route's pattern compiles, per its dialect. Exact and Prefix
/// always do.
pub open spec fn spec_route_compiles(r: RouteView) -> bool {
    match r.match_type {
        MatchType::Wildcard => regex_compiles(wildcard_regex(r.path)),
        MatchType::Regex => regex_compiles(r.path),
        _ => true,
    }
}

/// The compiled form of one route.
pub open spec fn spec_compile_route(r: RouteView) -> CRouteView {
    CRouteView {
        route: r,
        rx: match r.match_type {
            MatchType::Wildcard => Some(wildcard_regex(r.path)),
            MatchType::Regex => Some(r.path),
            _ => None,
        },
        names: match r.match_type {
            MatchType::Wildcard => wild_names(r.path),
            _ => Seq::<Seq<char>>::empty(),
        },
    }
}

/// Capture group `i`, `None` when out of range.
pub open spec fn group_at(groups: Seq<Option<Seq<char>>>, i: int) -> Option<Seq<char>> {
    if 0 <= i < groups.len() {
        groups[i]
    } else {
        None
    }
}

/// The parameter map built from the first `n` capture names: name `i` is
/// bound to group `i` when that group participated; later bindings of a
/// repeated name win.
pub open spec fn params_map_upto(
    names: Seq<Seq<char>>,
    groups: Seq<Option<Seq<char>>>,
    n: int,
) -> Map<Seq<char>, Seq<char>>
    decreases n,
{
    if n <= 0 {
        Map::<Seq<char>, Seq<char>>::empty()
    } else {
        let m = params_map_upto(names, groups, n - 1);
        match group_at(groups, n - 1) {
            Some(v) => m.insert(names[n - 1], v),
            None => m,
        }
    }
}

/// The parameter map a successful regex match produces.
pub open spec fn params_map(
    names: Seq<Seq<char>>,
    groups: Seq<Option<Seq<char>>>,
) -> Map<Seq<char>, Seq<char>> {
    params_map_upto(names, groups, names.len() as int)
}

/// The map a parameter list denotes: entries in order, later entries
/// overriding earlier ones.
pub open spec fn pairs_map(s: Seq<(Seq<char>, Seq<char>)>) -> Map<Seq<char>, Seq<char>>
    decreases s.len(),
{
    if s.len() == 0 {
        Map::<Seq<char>, Seq<char>>::empty()
    } else {
        pairs_map(s.drop_last()).insert(s.last().0, s.last().1)
    }
}

/// Whether one compiled route matches `path`, and with which parameter map.
///
/// Exact: an empty route path matches exactly `/`; otherwise the paths must
/// be equal. Prefix: the route path must be a prefix of the request path.
/// Wildcard and Regex: the compiled regular expression decides, and the
/// capture names are bound positionally to its groups.
pub open spec fn spec_route_match(c: CRouteView, path: Seq<char>) -> Option<
    Map<Seq<char>, Seq<char>>,
> {
    match c.route.match_type {
        MatchType::Exact => if c.route.path.len() == 0 {
            if path == seq!['/'] {
                Some(Map::<Seq<char>, Seq<char>>::empty())
            } else {
                None
            }
        } else {
            if path == c.route.path {
                Some(Map::<Seq<char>, Seq<char>>::empty())
            } else {
                None
            }
        },
        MatchType::Prefix => if starts_with(path, c.route.path) {
            Some(Map::<Seq<char>, Seq<char>>::empty())
        } else {
            None
        },
        _ => match c.rx {
            Some(src) => match regex_caps(src, path) {
                Some(groups) => Some(params_map(c.names, groups)),
                None => None,
            },
            None => None,
        },
    }
}

/// The first route that matches `path`, with its parameter map.
pub open spec fn spec_find_match(rs: Seq<CRouteView>, path: Seq<char>) -> Option<
    (RouteView, Map<Seq<char>, Seq<char>>),
>
    decreases rs.len(),
{
    if rs.len() == 0 {
        None
    } else {
        match spec_route_match(rs[0], path) {
            Some(m) => Some((rs[0].route, m)),
            None => spec_find_match(rs.skip(1), path),
        }
    }
}

/// The route that matched a request, together with the path parameters its
/// pattern captured.
#[derive(Debug)]
pub struct RouteMatch {
    pub route: RouteConfig,
    pub params: Vec<(String, String)>,
}

/// Mathematical value of a [`RouteMatch`].
#[verifier::ext_equal]
pub struct RouteMatchView {
    pub route: RouteView,
    pub params: Map<Seq<char>, Seq<char>>,
}

impl View for RouteMatch {
    type V = RouteMatchView;

    open spec fn view(&self) -> RouteMatchView {
        RouteMatchView { route: self.route@, params: pairs_map(self.params.deep_view()) }
    }
}

/// If no entry at or after position `k` has key `key`, the first `k`
/// entries decide `key` alone.
proof fn lemma_pairs_map_tail(s: Seq<(Seq<char>, Seq<char>)>, key: Seq<char>, k: int)
    requires
        0 <= k <= s.len(),
        forall|j: int| k <= j < s.len() ==> s[j].0 != key,
    ensures
        pairs_map(s).contains_key(key) == pairs_map(s.take(k)).contains_key(key),
        pairs_map(s).contains_key(key) ==> pairs_map(s)[key] == pairs_map(s.take(k))[key],
    decreases s.len() - k,
{
    if k == s.len() {
        assert(s.take(k) =~= s);
    } else {
        lemma_pairs_map_tail(s, key, k + 1);
        let t = s.take(k + 1);
        assert(t.drop_last() =~= s.take(k));
        assert(t.last() == s[k]);
    }
}

impl RouteMatch {
    /// Looks up one captured parameter by name.
    pub fn get_param(&self, name: &str) -> (res: Option<&String>)
        ensures
            match res {
                Some(v) => self@.params.contains_key(name@) && v@ == self@.params[name@],
                None => !self@.params.contains_key(name@),
            },
    {
        let ghost s = self.params.deep_view();
        let mut k = self.params.len();
        while k > 0
            invariant
                k <= self.params.len(),
                s == self.params.deep_view(),
                s.len() == self.params.len(),
                forall|j: int| k <= j < s.len() ==> s[j].0 != name@,
            decreases k,
        {
            k = k - 1;
            if str_eq(self.params[k].0.as_str(), name) {
                proof {
                    lemma_pairs_map_tail(s, name@, k + 1);
                    let t = s.take(k + 1);
                    assert(t.drop_last() =~= s.take(k as int));
                    assert(t.last() == s[k as int]);
                    assert(pairs_map(t) == pairs_map(s.take(k as int)).insert(s[k as int].0, s[k as int].1));
                }
                return Some(&self.params[k].1);
            }
        }
        proof {
            lemma_pairs_map_tail(s, name@, 0);
            assert(s.take(0) =~= Seq::<(Seq<char>, Seq<char>)>::empty());
        }
        None
    }
}

/// The compiled route table. Order is the configuration order and decides
/// ties; the table is immutable after construction.
pub struct RouteMatcher {
    routes: Vec<CompiledRoute>,
}

impl View for RouteMatcher {
    type V = Seq<CRouteView>;

    closed spec fn view(&self) -> Seq<CRouteView> {
        self.routes.deep_view()
    }
}

impl RouteMatcher {
    /// Every compiled route in the table is well formed.
    pub open spec fn wf(&self) -> bool {
        forall|i: int| 0 <= i < self@.len() ==> croute_wf(#[trigger] self@[i])
    }

    /// Compiles the route table. Fails atomically with the first pattern
    /// the regex engine rejects; on success the table holds the compiled
    /// form of every route, in configuration order.
    pub fn new(routes: Vec<RouteConfig>) -> (res: Result<RouteMatcher, PatternInvalid>)
        ensures
            (res is Ok) <==> (forall|i: int|
                0 <= i < routes.deep_view().len() ==> spec_route_compiles(
                    #[trigger] routes.deep_view()[i],
                )),
            res matches Ok(m) ==> {
                &&& m@.len() == routes.deep_view().len()
                &&& forall|i: int|
                    0 <= i < m@.len() ==> #[trigger] m@[i] == spec_compile_route(
                        routes.deep_view()[i],
                    )
                &&& m.wf()
            },
            res matches Err(e) ==> exists|i: int|
                {
                    &&& 0 <= i < routes.deep_view().len()
                    &&& !spec_route_compiles(#[trigger] routes.deep_view()[i])
                    &&& e.pattern@ == routes.deep_view()[i].path
                    &&& forall|j: int| 0 <= j < i ==> spec_route_compiles(routes.deep_view()[j])
                },
    {
        let ghost rv = routes.deep_view();
        let mut compiled: Vec<CompiledRoute> = Vec::new();
        let mut i: usize = 0;
        while i < routes.len()
            invariant
                rv == routes.deep_view(),
                rv.len() == routes@.len(),
                i <= routes@.len(),
                compiled@.len() == i,
                forall|j: int| 0 <= j < i ==> spec_route_compiles(#[trigger] rv[j]),
                forall|j: int|
                    0 <= j < i ==> #[trigger] compiled@[j]@ == spec_compile_route(rv[j]),
            decreases routes@.len() - i,
        {
            let route = &routes[i];
            assert(route@ == rv[i as int]);
            let cr = match route.match_type {
                MatchType::Exact => CompiledRoute {
                    config: route.clone(),
                    regex: None,
                    param_names: Vec::new(),
                },
                MatchType::Prefix => CompiledRoute {
                    config: route.clone(),
                    regex: None,
                    param_names: Vec::new(),
                },
                MatchType::Wildcard => {
                    let (rx_text, params) = compile_wildcard_pattern(route.path.as_str());
                    match regex_new(rx_text.as_str()) {
                        Ok(re) => CompiledRoute {
                            config: route.clone(),
                            regex: Some(re),
                            param_names: params,
                        },
                        Err(_) => {
                            return Err(PatternInvalid { pattern: route.path.clone() });
                        },
                    }
                },
                MatchType::Regex => {
                    match regex_new(route.path.as_str()) {
                        Ok(re) => CompiledRoute {
                            config: route.clone(),
                            regex: Some(re),
                            param_names: Vec::new(),
                        },
                        Err(_) => {
                            return Err(PatternInvalid { pattern: route.path.clone() });
                        },
                    }
                },
            };
            proof {
                assert(cr@ =~~= spec_compile_route(rv[i as int]));
            }
            compiled.push(cr);
            i = i + 1;
        }
        let m = RouteMatcher { routes: compiled };
        proof {
            assert(m@ =~= compiled.deep_view());
            assert(forall|j: int| 0 <= j < m@.len() ==> #[trigger] m@[j] == spec_compile_route(rv[j]));
            assert forall|j: int| 0 <= j < m@.len() implies croute_wf(#[trigger] m@[j]) by {
                assert(m@[j] == spec_compile_route(rv[j]));
            }
        }
        Ok(m)
    }

    /// Evaluates the routes in order and returns the first match with its
    /// captured parameters, or `None` when no route matches.
    pub fn find_match(&self, path: &str) -> (res: Option<RouteMatch>)
        ensures
            match (res, spec_find_match(self@, path@)) {
                (None, None) => true,
                (Some(rm), Some(sm)) => rm@.route == sm.0 && rm@.params == sm.1,
                _ => false,
            },
    {
        let n = self.routes.len();
        let mut i: usize = 0;
        proof {
            assert(self@.skip(0) =~= self@);
        }
        while i < n
            invariant
                n == self@.len(),
                i <= n,
                forall|j: int| 0 <= j < i ==> spec_route_match(#[trigger] self@[j], path@) is None,
                spec_find_match(self@, path@) == spec_find_match(self@.skip(i as int), path@),
            decreases n - i,
        {
            let r = matches_route(&self.routes[i], path);
            proof {
                assert(self.routes[i as int]@ == self@[i as int]);
                assert(self@.skip(i as int)[0] == self@[i as int]);
            }
            match r {
                Some(params) => {
                    let rm = RouteMatch { route: self.routes[i].config.clone(), params };
                    proof {
                        assert(self@.skip(i as int).len() > 0);
                    }
                    return Some(rm);
                },
                None => {},
            }
            proof {
                assert(self@.skip(i as int).skip(1) =~= self@.skip(i + 1 as int));
            }
            i = i + 1;
        }
        proof {
            assert(self@.skip(n as int).len() == 0);
        }
        None
    }
}

/// Law: matching is deterministic. The outcome sanctioned by `find_match`
/// is a function of the compiled table and the path alone, so any two
/// results it may return for the same table and path name the same route
/// and the same capture map.
pub proof fn lemma_find_match_deterministic(
    rs: Seq<CRouteView>,
    path: Seq<char>,
    m1: RouteMatchView,
    m2: RouteMatchView,
)
    requires
        spec_find_match(rs, path) == Some((m1.route, m1.params)),
        spec_find_match(rs, path) == Some((m2.route, m2.params)),
    ensures
        m1.route == m2.route,
        m1.params == m2.params,
{
}

/// Law: when an Exact route with a non-empty pattern matches a path, the
/// pattern equals the path, character for character. (The one Exact
/// pattern excluded here is the empty one, which matches exactly `/`.)
pub proof fn lemma_exact_match_eq(c: CRouteView, path: Seq<char>)
    requires
        c.route.match_type == MatchType::Exact,
        c.route.path.len() > 0,
        spec_route_match(c, path) is Some,
    ensures
        c.route.path == path,
{
}

/// The keys bound by the first `n` names are exactly those names, provided
/// each of the first `n` groups participated.
proof fn lemma_params_map_keys(names: Seq<Seq<char>>, groups: Seq<Option<Seq<char>>>, n: int)
    requires
        0 <= n <= names.len(),
        forall|i: int| 0 <= i < n ==> group_at(groups, i) is Some,
    ensures
        forall|key: Seq<char>|
            params_map_upto(names, groups, n).contains_key(key) <==> exists|i: int|
                0 <= i < n && names[i] == key,
    decreases n,
{
    if n > 0 {
        lemma_params_map_keys(names, groups, n - 1);
        assert forall|key: Seq<char>|
            params_map_upto(names, groups, n).contains_key(key) implies exists|i: int|
            0 <= i < n && names[i] == key by {
            if key == names[n - 1] {
                assert(names[n - 1] == key);
            } else {
                assert(params_map_upto(names, groups, n - 1).contains_key(key));
            }
        }
        assert forall|key: Seq<char>| (exists|i: int| 0 <= i < n && names[i] == key)
            implies params_map_upto(names, groups, n).contains_key(key) by {
            let i = choose|i: int| 0 <= i < n && names[i] == key;
            if i < n - 1 {
                assert(params_map_upto(names, groups, n - 1).contains_key(key));
            }
        }
    }
}

/// Law: a successful Wildcard match in which every capture group
/// participated binds exactly the pattern's `{name}` placeholders as keys,
/// and no others.
pub proof fn lemma_wildcard_capture_keys(
    c: CRouteView,
    path: Seq<char>,
    m: Map<Seq<char>, Seq<char>>,
)
    requires
        croute_wf(c),
        c.route.match_type == MatchType::Wildcard,
        spec_route_match(c, path) == Some(m),
        forall|i: int|
            0 <= i < c.names.len() ==> group_at(
                regex_caps(wildcard_regex(c.route.path), path)->Some_0,
                i,
            ) is Some,
    ensures
        forall|key: Seq<char>| m.contains_key(key) <==> wild_names(c.route.path).contains(key),
{
    let groups = regex_caps(wildcard_regex(c.route.path), path)->Some_0;
    assert(m == params_map(c.names, groups));
    lemma_params_map_keys(c.names, groups, c.names.len() as int);
    assert forall|key: Seq<char>| m.contains_key(key) <==> wild_names(c.route.path).contains(
        key,
    ) by {
        assert(c.names == wild_names(c.route.path));
    }
}

/// Evaluates one compiled route against a path, returning the captured
/// parameters on success.
fn matches_route(route: &CompiledRoute, path: &str) -> (res: Option<Vec<(String, String)>>)
    ensures
        match (res, spec_route_match(route@, path@)) {
            (None, None) => true,
            (Some(ps), Some(m)) => pairs_map(ps.deep_view()) == m,
            _ => false,
        },
{
    match route.config.match_type {
        MatchType::Exact => {
            let empty_pat = route.config.path.as_str().unicode_len() == 0;
            if empty_pat {
                proof {
                    reveal_strlit("/");
                    assert(route.config.path@ =~= Seq::<char>::empty());
                }
                if str_eq(path, "/") {
                    proof {
                        assert("/"@ =~= seq!['/']);
                    }
                    Some(Vec::new())
                } else {
                    proof {
                        assert(seq!['/'] =~= "/"@);
                    }
                    None
                }
            } else {
                if str_eq(path, route.config.path.as_str()) {
                    Some(Vec::new())
                } else {
                    None
                }
            }
        },
        MatchType::Prefix => {
            if str_starts_with(path, route.config.path.as_str()) {
                Some(Vec::new())
            } else {
                None
            }
        },
        MatchType::Wildcard | MatchType::Regex => {
            match &route.regex {
                Some(re) => {
                    match regex_find_captures(re, path) {
                        Some(groups) => {
                            let ghost gv = groups.deep_view();
                            let ghost names = route.param_names.deep_view();
                            let mut params: Vec<(String, String)> = Vec::new();
                            let mut k: usize = 0;
                            while k < route.param_names.len()
                                invariant
                                    names == route.param_names.deep_view(),
                                    gv == groups.deep_view(),
                                    names.len() == route.param_names@.len(),
                                    gv.len() == groups@.len(),
                                    k <= names.len(),
                                    pairs_map(params.deep_view()) == params_map_upto(
                                        names,
                                        gv,
                                        k as int,
                                    ),
                                decreases names.len() - k,
                            {
                                let ghost old_params = params.deep_view();
                                if k < groups.len() {
                                    match &groups[k] {
                                        Some(v) => {
                                            params.push(
                                                (route.param_names[k].clone(), v.clone()),
                                            );
                                            proof {
                                                assert(params.deep_view().drop_last()
                                                    =~~= old_params);
                                                assert(params.deep_view().last().0 == names[
                                                    k as int
                                                ]);
                                                assert(params.deep_view().last().1
                                                    == gv[k as int]->Some_0);
                                            }
                                        },
                                        None => {
                                            proof {
                                                assert(group_at(gv, k as int) is None);
                                            }
                                        },
                                    }
                                } else {
                                    proof {
                                        assert(group_at(gv, k as int) is None);
                                    }
                                }
                                k = k + 1;
                            }
                            proof {
                                assert(route@.names == names);
                                assert(route@.rx == Some(regex_source(*re)));
                            }
                            Some(params)
                        },
                        None => None,
                    }
                },
                None => None,
            }
        },
    }
}

} // verus!
