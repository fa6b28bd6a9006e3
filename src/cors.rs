//! The cross-origin policy: a fixed registry of endpoint patterns, the matcher
//! that decides whether a request hits one of them, and the filter that adds
//! the cross-origin headers to the responses of those that do.
use vstd::prelude::*;
use crate::http::{Header, Method, Request, Response};

verus! {

/// One segment of an endpoint pattern.
pub enum Segment {
    /// Matches exactly this text (case-sensitive, no normalisation).
    Literal(String),
    /// Matches any single non-empty segment.
    Wildcard,
}

pub ghost enum SegmentView {
    Literal(Seq<char>),
    Wildcard,
}

impl View for Segment {
    type V = SegmentView;

    open spec fn view(&self) -> SegmentView {
        match self {
            Segment::Literal(s) => SegmentView::Literal(s@),
            Segment::Wildcard => SegmentView::Wildcard,
        }
    }
}

/// An endpoint pattern: a method and one pattern per path segment.
pub struct Endpoint {
    pub method: Method,
    pub path: Vec<Segment>,
}

pub ghost struct EndpointView {
    pub method: Method,
    pub path: Seq<SegmentView>,
}

impl View for Endpoint {
    type V = EndpointView;

    open spec fn view(&self) -> EndpointView {
        EndpointView { method: self.method, path: self.path@.map_values(|s: Segment| s@) }
    }
}

pub open spec fn segment_matches(p: SegmentView, s: Seq<char>) -> bool {
    match p {
        SegmentView::Literal(l) => l == s,
        SegmentView::Wildcard => s.len() > 0,
    }
}

/// The pattern matches the request when the methods are equal, the segment
/// counts are equal, and each segment matches its pattern.
pub open spec fn endpoint_matches(e: EndpointView, method: Method, path: Seq<Seq<char>>) -> bool {
    &&& e.method == method
    &&& e.path.len() == path.len()
    &&& forall|i: int| 0 <= i < path.len() ==> segment_matches(#[trigger] e.path[i], path[i])
}

pub open spec fn lit(s: &str) -> SegmentView {
    SegmentView::Literal(s@)
}

pub open spec fn ep(method: Method, path: Seq<SegmentView>) -> EndpointView {
    EndpointView { method, path }
}

/// The endpoints whose responses allow cross-origin use.
pub open spec fn cors_registry() -> Seq<EndpointView> {
    let w = SegmentView::Wildcard;
    seq![
        ep(Method::Post, seq![lit("invitations")]),
        ep(Method::Get, seq![lit("invitations")]),
        ep(Method::Delete, seq![lit("invitations")]),
        ep(Method::Post, seq![lit("users")]),
        ep(Method::Get, seq![lit("users")]),
        ep(Method::Put, seq![lit("users"), w]),
        ep(Method::Post, seq![lit("users"), w]),
        ep(Method::Post, seq![lit("recoveries"), w]),
        ep(Method::Get, seq![lit("recoveries"), w, w]),
        ep(Method::Get, seq![lit("permissions")]),
        ep(Method::Get, seq![lit("permissions"), w]),
        ep(Method::Get, seq![lit("permissions"), w, w]),
        ep(Method::Get, seq![lit("permissions"), lit("_"), w]),
        ep(Method::Put, seq![lit("permissions"), w, w]),
    ]
}

/// Whether some registered endpoint matches the method and path.
pub open spec fn is_cors_request(method: Method, path: Seq<Seq<char>>) -> bool {
    exists|k: int| 0 <= k < cors_registry().len() && endpoint_matches(#[trigger] cors_registry()[k], method, path)
}

/// The three headers that mark a response as usable across origins.
pub open spec fn cors_header_views() -> Seq<(Seq<char>, Seq<char>)> {
    seq![
        ("Access-Control-Allow-Origin"@, "*"@),
        ("Access-Control-Allow-Headers"@, "accept, content-type"@),
        ("Access-Control-Allow-Methods"@, "GET, HEAD, POST, DELETE, OPTIONS, PUT"@),
    ]
}

/// A registered endpoint whose literal segments are written as they stand and
/// whose wildcards are filled with any non-empty segments is a cross-origin
/// request, so `CORS::after` appends the three headers to its response.
pub proof fn lemma_registered_endpoint_allowed(k: int, path: Seq<Seq<char>>)
    requires
        0 <= k < cors_registry().len(),
        path.len() == cors_registry()[k].path.len(),
        forall|i: int| 0 <= i < path.len() ==> match #[trigger] cors_registry()[k].path[i] {
            SegmentView::Literal(l) => path[i] == l,
            SegmentView::Wildcard => path[i].len() > 0,
        },
    ensures
        is_cors_request(cors_registry()[k].method, path),
{
    assert(endpoint_matches(cors_registry()[k], cors_registry()[k].method, path));
}

/// A path whose segment count differs from a pattern's never matches that
/// pattern, whatever its segments hold.
pub proof fn lemma_segment_count_must_agree(e: EndpointView, method: Method, path: Seq<Seq<char>>)
    requires
        path.len() != e.path.len(),
    ensures
        !endpoint_matches(e, method, path),
{
}

/// A wildcard accepts every non-empty segment, special characters included;
/// a literal rejects every segment that differs from it, by case or content.
pub proof fn lemma_wildcard_and_literal(p: SegmentView, s: Seq<char>)
    ensures
        p is Wildcard && s.len() > 0 ==> segment_matches(p, s),
        p is Wildcard && s.len() == 0 ==> !segment_matches(p, s),
        p matches SegmentView::Literal(l) && l != s ==> !segment_matches(p, s),
        p matches SegmentView::Literal(l) && l == s ==> segment_matches(p, s),
{
}

fn literal(s: &str) -> (r: Segment)
    ensures
        r@ == lit(s),
{
    Segment::Literal(s.to_owned())
}

fn endpoint1(method: Method, a: Segment) -> (r: Endpoint)
    ensures
        r@ == ep(method, seq![a@]),
{
    let ghost va = a@;
    let path = vec![a];
    let r = Endpoint { method, path };
    assert(r@.path =~= seq![va]);
    r
}

fn endpoint2(method: Method, a: Segment, b: Segment) -> (r: Endpoint)
    ensures
        r@ == ep(method, seq![a@, b@]),
{
    let ghost (va, vb) = (a@, b@);
    let path = vec![a, b];
    let r = Endpoint { method, path };
    assert(r@.path =~= seq![va, vb]);
    r
}

fn endpoint3(method: Method, a: Segment, b: Segment, c: Segment) -> (r: Endpoint)
    ensures
        r@ == ep(method, seq![a@, b@, c@]),
{
    let ghost (va, vb, vc) = (a@, b@, c@);
    let path = vec![a, b, c];
    let r = Endpoint { method, path };
    assert(r@.path =~= seq![va, vb, vc]);
    r
}

/// The cross-origin filter, run on every response after its handler.
pub struct CORS;

impl CORS {
    /// The registry of cross-origin endpoints, in order.
    pub fn endpoints() -> (r: Vec<Endpoint>)
        ensures
            r@.map_values(|e: Endpoint| e@) == cors_registry(),
    {
        let mut r: Vec<Endpoint> = Vec::new();
        r.push(endpoint1(Method::Post, literal("invitations")));
        r.push(endpoint1(Method::Get, literal("invitations")));
        r.push(endpoint1(Method::Delete, literal("invitations")));
        r.push(endpoint1(Method::Post, literal("users")));
        r.push(endpoint1(Method::Get, literal("users")));
        r.push(endpoint2(Method::Put, literal("users"), Segment::Wildcard));
        r.push(endpoint2(Method::Post, literal("users"), Segment::Wildcard));
        r.push(endpoint2(Method::Post, literal("recoveries"), Segment::Wildcard));
        r.push(endpoint3(Method::Get, literal("recoveries"), Segment::Wildcard, Segment::Wildcard));
        r.push(endpoint1(Method::Get, literal("permissions")));
        r.push(endpoint2(Method::Get, literal("permissions"), Segment::Wildcard));
        r.push(endpoint3(Method::Get, literal("permissions"), Segment::Wildcard, Segment::Wildcard));
        r.push(endpoint3(Method::Get, literal("permissions"), literal("_"), Segment::Wildcard));
        r.push(endpoint3(Method::Put, literal("permissions"), Segment::Wildcard, Segment::Wildcard));
        assert(r@.map_values(|e: Endpoint| e@) =~= cors_registry());
        r
    }

    /// Whether one endpoint pattern matches the method and path.
    pub fn matches(e: &Endpoint, method: Method, path: &Vec<String>) -> (r: bool)
        ensures
            r == endpoint_matches(e@, method, path@.map_values(|s: String| s@)),
    {
        let ghost pv = path@.map_values(|s: String| s@);
        if e.method != method {
            return false;
        }
        if e.path.len() != path.len() {
            return false;
        }
        let mut i: usize = 0;
        while i < path.len()
            invariant
                e.path@.len() == path@.len(),
                i <= path@.len(),
                pv == path@.map_values(|s: String| s@),
                forall|j: int| 0 <= j < i ==> segment_matches(#[trigger] e@.path[j], pv[j]),
            decreases path@.len() - i,
        {
            let ok = match &e.path[i] {
                Segment::Literal(l) => *l == path[i],
                Segment::Wildcard => !path[i].as_str().is_empty(),
            };
            if !ok {
                assert(!segment_matches(e@.path[i as int], pv[i as int]));
                return false;
            }
            i = i + 1;
        }
        true
    }

    /// Whether the method and path hit a registered cross-origin endpoint.
    pub fn is_cors_endpoint(method: Method, path: &Vec<String>) -> (r: bool)
        ensures
            r == is_cors_request(method, path@.map_values(|s: String| s@)),
    {
        let ghost pv = path@.map_values(|s: String| s@);
        let endpoints = CORS::endpoints();
        let mut k: usize = 0;
        while k < endpoints.len()
            invariant
                endpoints@.map_values(|e: Endpoint| e@) == cors_registry(),
                k <= endpoints@.len(),
                pv == path@.map_values(|s: String| s@),
                forall|j: int| 0 <= j < k ==> !endpoint_matches(#[trigger] cors_registry()[j], method, pv),
            decreases endpoints@.len() - k,
        {
            assert(endpoints@[k as int]@ == cors_registry()[k as int]);
            if CORS::matches(&endpoints[k], method, path) {
                return true;
            }
            k = k + 1;
        }
        assert(endpoints@.len() == cors_registry().len());
        false
    }

    /// The three cross-origin headers, in order.
    pub fn headers() -> (r: Vec<Header>)
        ensures
            r@.map_values(|h: Header| h@) == cors_header_views(),
    {
        let mut r: Vec<Header> = Vec::new();
        r.push(Header::new("Access-Control-Allow-Origin", "*"));
        r.push(Header::new("Access-Control-Allow-Headers", "accept, content-type"));
        r.push(Header::new("Access-Control-Allow-Methods", "GET, HEAD, POST, DELETE, OPTIONS, PUT"));
        assert(r@.map_values(|h: Header| h@) =~= cors_header_views());
        r
    }

    /// Runs after a handler: a response to a registered endpoint gets the
    /// three cross-origin headers appended; any other comes back unchanged.
    /// Status and body are never touched.
    pub fn after(&self, req: &Request, res: Response) -> (r: Response)
        ensures
            r.status == res.status,
            r.body == res.body,
            r.headers_view() == if is_cors_request(req.method, req.path_view()) {
                res.headers_view() + cors_header_views()
            } else {
                res.headers_view()
            },
    {
        let mut res = res;
        if CORS::is_cors_endpoint(req.method, &req.path) {
            let ghost before = res.headers@;
            let mut extra = CORS::headers();
            let ghost added = extra@;
            res.headers.append(&mut extra);
            assert(res.headers@ == before + added);
            assert(res.headers_view() =~= before.map_values(|h: Header| h@) + added.map_values(|h: Header| h@));
        }
        res
    }
}

} // verus!
