//! The service's routes and handlers: first-run setup of the administrative
//! account, and the placeholder handlers of the endpoints not built yet.
//!
//! Setup runs in two steps around the user store, which the caller owns:
//! `UsersRouter::setup` turns the decoded request body into a record to
//! store or a rejection, and `UsersRouter::setup_created` turns the store's
//! answer into the response.
use vstd::prelude::*;
use crate::http::{Method, Request, Response, Status};
use crate::users::{build_error, UserBuilder, UserBuilderError, UserRecord};

verus! {

/// An error carried as its description.
pub struct StringError(pub String);

impl StringError {
    pub fn description(&self) -> (r: &str)
        ensures
            r@ == self.0@,
    {
        self.0.as_str()
    }
}

/// A failed request: the error, and the response sent in its place.
pub struct HandlerError {
    pub error: StringError,
    pub response: Response,
}

/// An empty response with the given status.
pub open spec fn is_bare(r: Response, status: Status) -> bool {
    r.status == Some(status) && r.headers@.len() == 0 && r.body@.len() == 0
}

impl HandlerError {
    /// An error with an empty response of status `code`.
    pub fn new(error: StringError, code: Status) -> (r: HandlerError)
        ensures
            r.error == error,
            is_bare(r.response, code),
    {
        HandlerError { error, response: Response::with_status(code) }
    }
}

pub struct EndpointError;

impl EndpointError {
    /// Fails the request with `code`; the error text is not put in the body.
    pub fn new(error: StringError, code: Status) -> (r: Result<Response, HandlerError>)
        ensures
            r matches Err(e) && e.error == error && is_bare(e.response, code),
    {
        Err(HandlerError::new(error, code))
    }
}

/// The decoded body of a setup request.
pub struct SetupBody {
    pub username: Option<String>,
    pub email: Option<String>,
    pub password: String,
}

pub ghost struct SetupBodyView {
    pub username: Option<Seq<char>>,
    pub email: Option<Seq<char>>,
    pub password: Seq<char>,
}

impl View for SetupBody {
    type V = SetupBodyView;

    open spec fn view(&self) -> SetupBodyView {
        SetupBodyView {
            username: match self.username {
                Some(u) => Some(u@),
                None => None,
            },
            email: match self.email {
                Some(e) => Some(e@),
                None => None,
            },
            password: self.password@,
        }
    }
}

/// What setup decides before the store is reached.
pub ghost enum SetupPlan {
    /// Answer 400 with this error text; nothing is stored.
    Reject(Seq<char>),
    /// Store a user with this name, email and password.
    Create(Seq<char>, Seq<char>, Seq<char>),
}

/// The name setup uses: the given one, else `admin`.
pub open spec fn setup_name(b: SetupBodyView) -> Seq<char> {
    match b.username {
        Some(u) => u,
        None => "admin"@,
    }
}

/// The email setup uses: the given one, else the empty string.
pub open spec fn setup_email(b: SetupBodyView) -> Seq<char> {
    match b.email {
        Some(e) => e,
        None => Seq::empty(),
    }
}

/// Setup's decision on a body, or on the decoder's error description. Every
/// validation failure rejects the request except a missing email, which
/// setup waives.
pub open spec fn setup_plan(body: Result<SetupBodyView, Seq<char>>) -> SetupPlan {
    match body {
        Err(d) => SetupPlan::Reject(d),
        Ok(b) => {
            let v = build_error(setup_name(b), setup_email(b), b.password);
            if v is None || v == Some(UserBuilderError::EmptyEmail) {
                SetupPlan::Create(setup_name(b), setup_email(b), b.password)
            } else {
                SetupPlan::Reject("Bad request"@)
            }
        },
    }
}

pub open spec fn body_view(body: &Result<SetupBody, String>) -> Result<SetupBodyView, Seq<char>> {
    match body {
        Ok(b) => Ok(b@),
        Err(d) => Err(d@),
    }
}

/// Setup's first step: a rejection to send, or a record to store.
pub enum SetupStep {
    Reject(HandlerError),
    Create(UserRecord),
}

/// One segment of a route template.
pub enum RouteSegment {
    Literal(String),
    /// A named path parameter, written `:name` in the template.
    Param(String),
}

pub ghost enum RouteSegmentView {
    Literal(Seq<char>),
    Param(Seq<char>),
}

impl View for RouteSegment {
    type V = RouteSegmentView;

    open spec fn view(&self) -> RouteSegmentView {
        match self {
            RouteSegment::Literal(s) => RouteSegmentView::Literal(s@),
            RouteSegment::Param(s) => RouteSegmentView::Param(s@),
        }
    }
}

/// The handler a route leads to.
#[derive(PartialEq, Eq, Structural, Clone, Copy, Debug)]
pub enum Handler {
    Setup,
    NotImplemented,
}

pub struct Route {
    pub method: Method,
    pub path: Vec<RouteSegment>,
    pub handler: Handler,
}

pub ghost struct RouteView {
    pub method: Method,
    pub path: Seq<RouteSegmentView>,
    pub handler: Handler,
}

impl View for Route {
    type V = RouteView;

    open spec fn view(&self) -> RouteView {
        RouteView {
            method: self.method,
            path: self.path@.map_values(|s: RouteSegment| s@),
            handler: self.handler,
        }
    }
}

pub open spec fn rlit(s: &str) -> RouteSegmentView {
    RouteSegmentView::Literal(s@)
}

pub open spec fn rparam(s: &str) -> RouteSegmentView {
    RouteSegmentView::Param(s@)
}

pub open spec fn stub(method: Method, path: Seq<RouteSegmentView>) -> RouteView {
    RouteView { method, path, handler: Handler::NotImplemented }
}

/// The service's routes, in the order they are registered.
pub open spec fn users_routes() -> Seq<RouteView> {
    seq![
        RouteView { method: Method::Post, path: seq![rlit("setup")], handler: Handler::Setup },
        stub(Method::Post, seq![rlit("invitations")]),
        stub(Method::Get, seq![rlit("invitations")]),
        stub(Method::Delete, seq![rlit("invitations")]),
        stub(Method::Post, seq![rlit("users")]),
        stub(Method::Get, seq![rlit("users")]),
        stub(Method::Put, seq![rlit("users"), rparam("id")]),
        stub(Method::Post, seq![rlit("users"), rparam("id")]),
        stub(Method::Post, seq![rlit("recoveries"), rparam("user")]),
        stub(Method::Get, seq![rlit("recoveries"), rparam("user"), rparam("id")]),
        stub(Method::Get, seq![rlit("permissions")]),
        stub(Method::Get, seq![rlit("permissions"), rparam("user")]),
        stub(Method::Get, seq![rlit("permissions"), rparam("user"), rparam("taxon")]),
        stub(Method::Get, seq![rlit("permissions"), rlit("_"), rparam("taxon")]),
        stub(Method::Put, seq![rlit("permissions"), rparam("user"), rparam("taxon")]),
    ]
}

/// The text of one template segment: a literal as it stands, a parameter
/// behind a colon.
pub open spec fn segment_text(s: RouteSegmentView) -> Seq<char> {
    match s {
        RouteSegmentView::Literal(l) => l,
        RouteSegmentView::Param(n) => ":"@ + n,
    }
}

/// The template string of a route path, each segment behind a slash.
pub open spec fn template_of(path: Seq<RouteSegmentView>) -> Seq<char>
    decreases path.len(),
{
    if path.len() == 0 {
        Seq::empty()
    } else {
        template_of(path.drop_last()) + "/"@ + segment_text(path.last())
    }
}

/// A body without an email, but with a password and a non-empty (or no)
/// username, leads to a stored user whose email is empty.
pub proof fn lemma_setup_waives_missing_email(b: SetupBodyView)
    requires
        b.email is None,
        b.password.len() > 0,
        b.username matches Some(u) ==> u.len() > 0,
    ensures
        setup_plan(Ok(b)) == SetupPlan::Create(setup_name(b), Seq::<char>::empty(), b.password),
{
    if b.username is None {
        reveal_strlit("admin");
    }
}

/// A body with an empty password is rejected: nothing is stored.
pub proof fn lemma_setup_rejects_empty_password(b: SetupBodyView)
    requires
        b.password.len() == 0,
    ensures
        setup_plan(Ok(b)) == SetupPlan::Reject("Bad request"@),
{
}

/// A body that could not be decoded is rejected with the decoder's own
/// description, and nothing is stored.
pub proof fn lemma_setup_surfaces_decode_error(d: Seq<char>)
    ensures
        setup_plan(Err(d)) == SetupPlan::Reject(d),
{
}

/// Every route but the first, `POST /setup`, leads to the placeholder
/// handler.
pub proof fn lemma_other_routes_not_implemented(i: int)
    requires
        1 <= i < users_routes().len(),
    ensures
        users_routes()[i].handler == Handler::NotImplemented,
{
}

fn rliteral(s: &str) -> (r: RouteSegment)
    ensures
        r@ == rlit(s),
{
    RouteSegment::Literal(s.to_owned())
}

fn rparameter(s: &str) -> (r: RouteSegment)
    ensures
        r@ == rparam(s),
{
    RouteSegment::Param(s.to_owned())
}

fn route(method: Method, path: Vec<RouteSegment>, handler: Handler) -> (r: Route)
    ensures
        r@ == (RouteView { method, path: path@.map_values(|s: RouteSegment| s@), handler }),
{
    Route { method, path, handler }
}

fn stub1(method: Method, a: RouteSegment) -> (r: Route)
    ensures
        r@ == stub(method, seq![a@]),
{
    let ghost va = a@;
    let r = route(method, vec![a], Handler::NotImplemented);
    assert(r@.path =~= seq![va]);
    r
}

fn stub2(method: Method, a: RouteSegment, b: RouteSegment) -> (r: Route)
    ensures
        r@ == stub(method, seq![a@, b@]),
{
    let ghost (va, vb) = (a@, b@);
    let r = route(method, vec![a, b], Handler::NotImplemented);
    assert(r@.path =~= seq![va, vb]);
    r
}

fn stub3(method: Method, a: RouteSegment, b: RouteSegment, c: RouteSegment) -> (r: Route)
    ensures
        r@ == stub(method, seq![a@, b@, c@]),
{
    let ghost (va, vb, vc) = (a@, b@, c@);
    let r = route(method, vec![a, b, c], Handler::NotImplemented);
    assert(r@.path =~= seq![va, vb, vc]);
    r
}

/// The users service: its route table and its handlers.
pub struct UsersRouter {
    pub routes: Vec<Route>,
}

impl UsersRouter {
    /// The service with its full route table.
    pub fn new() -> (r: UsersRouter)
        ensures
            r.routes@.map_values(|x: Route| x@) == users_routes(),
    {
        let mut routes: Vec<Route> = Vec::new();
        let setup = rliteral("setup");
        let ghost vs = setup@;
        let first = route(Method::Post, vec![setup], Handler::Setup);
        assert(first@.path =~= seq![vs]);
        routes.push(first);
        routes.push(stub1(Method::Post, rliteral("invitations")));
        routes.push(stub1(Method::Get, rliteral("invitations")));
        routes.push(stub1(Method::Delete, rliteral("invitations")));
        routes.push(stub1(Method::Post, rliteral("users")));
        routes.push(stub1(Method::Get, rliteral("users")));
        routes.push(stub2(Method::Put, rliteral("users"), rparameter("id")));
        routes.push(stub2(Method::Post, rliteral("users"), rparameter("id")));
        routes.push(stub2(Method::Post, rliteral("recoveries"), rparameter("user")));
        routes.push(stub3(Method::Get, rliteral("recoveries"), rparameter("user"), rparameter("id")));
        routes.push(stub1(Method::Get, rliteral("permissions")));
        routes.push(stub2(Method::Get, rliteral("permissions"), rparameter("user")));
        routes.push(stub3(Method::Get, rliteral("permissions"), rparameter("user"), rparameter("taxon")));
        routes.push(stub3(Method::Get, rliteral("permissions"), rliteral("_"), rparameter("taxon")));
        routes.push(stub3(Method::Put, rliteral("permissions"), rparameter("user"), rparameter("taxon")));
        assert(routes@.map_values(|x: Route| x@) =~= users_routes());
        UsersRouter { routes }
    }

    /// The template string of a route, such as `/users/:id`.
    pub fn template(route: &Route) -> (r: String)
        ensures
            r@ == template_of(route@.path),
    {
        let mut s = String::new();
        let mut i: usize = 0;
        while i < route.path.len()
            invariant
                i <= route.path@.len(),
                s@ == template_of(route@.path.subrange(0, i as int)),
            decreases route.path@.len() - i,
        {
            s.append("/");
            match &route.path[i] {
                RouteSegment::Literal(l) => s.append(l.as_str()),
                RouteSegment::Param(n) => {
                    s.append(":");
                    s.append(n.as_str());
                },
            }
            proof {
                let p = route@.path.subrange(0, i + 1);
                assert(p.drop_last() =~= route@.path.subrange(0, i as int));
                assert(p.last() == route@.path[i as int]);
            }
            i = i + 1;
        }
        assert(route@.path.subrange(0, i as int) =~= route@.path);
        s
    }

    /// The placeholder handler: whatever the request, 501 and nothing else.
    pub fn not_implemented(_req: &Request) -> (r: Result<Response, HandlerError>)
        ensures
            r matches Ok(res) && is_bare(res, Status::NotImplemented),
    {
        Ok(Response::with_status(Status::NotImplemented))
    }

    /// Setup's first step. A body that could not be decoded (`Err` with the
    /// decoder's description) is rejected with that description; otherwise
    /// the defaults are filled in and the candidate validated. A rejection
    /// answers 400 with an empty body.
    pub fn setup(body: Result<SetupBody, String>) -> (r: SetupStep)
        ensures
            match setup_plan(body_view(&body)) {
                SetupPlan::Reject(msg) => r matches SetupStep::Reject(e) && e.error.0@ == msg
                    && is_bare(e.response, Status::BadRequest),
                SetupPlan::Create(n, m, p) => r matches SetupStep::Create(u) && u@ == (n, m, p),
            },
    {
        let body = match body {
            Ok(b) => b,
            Err(d) => {
                return SetupStep::Reject(HandlerError::new(StringError(d), Status::BadRequest));
            },
        };
        let ghost bv = body@;
        let email = match body.email {
            Some(email) => email,
            None => String::new(),
        };
        let name = match body.username {
            Some(username) => username,
            None => "admin".to_owned(),
        };
        assert(email@ == setup_email(bv) && name@ == setup_name(bv));
        let built = UserBuilder::new().name(name.as_str()).email(email.as_str()).password(
            body.password.as_str(),
        ).finalize();
        match built {
            Ok(user) => SetupStep::Create(user),
            Err(f) => match f.user {
                Some(user) => SetupStep::Create(user),
                None => SetupStep::Reject(
                    HandlerError::new(StringError("Bad request".to_owned()), Status::BadRequest),
                ),
            },
        }
    }

    /// Setup's second step, on whether the store created the user: 200 with
    /// an empty body, or 500 whose error says only `Internal Server Error`.
    pub fn setup_created(created: bool) -> (r: Result<Response, HandlerError>)
        ensures
            created ==> (r matches Ok(res) && is_bare(res, Status::Success)),
            !created ==> (r matches Err(e) && e.error.0@ == "Internal Server Error"@ && is_bare(
                e.response,
                Status::InternalServerError,
            )),
    {
        if created {
            Ok(Response::with_status(Status::Success))
        } else {
            EndpointError::new(StringError("Internal Server Error".to_owned()), Status::InternalServerError)
        }
    }
}

} // verus!
