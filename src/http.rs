//! Plain models of the HTTP values the service reads and writes.
use vstd::prelude::*;

verus! {

/// A request method, as the service distinguishes them.
#[derive(PartialEq, Eq, Structural, Clone, Copy, Debug)]
pub enum Method {
    Options,
    Get,
    Post,
    Put,
    Delete,
    Head,
    Trace,
    Connect,
    Patch,
    /// A method outside the standard set (an extension method).
    Other,
}

/// The statuses the service's handlers answer with.
#[derive(PartialEq, Eq, Structural, Clone, Copy, Debug)]
pub enum Status {
    Success,
    BadRequest,
    InternalServerError,
    NotImplemented,
}

impl Status {
    pub open spec fn spec_code(self) -> u16 {
        match self {
            Status::Success => 200,
            Status::BadRequest => 400,
            Status::InternalServerError => 500,
            Status::NotImplemented => 501,
        }
    }

    /// The numeric status code.
    pub fn code(&self) -> (r: u16)
        ensures
            r == self.spec_code(),
    {
        match self {
            Status::Success => 200,
            Status::BadRequest => 400,
            Status::InternalServerError => 500,
            Status::NotImplemented => 501,
        }
    }
}

/// One response header line: a name and its value.
pub struct Header {
    pub name: String,
    pub value: String,
}

impl View for Header {
    type V = (Seq<char>, Seq<char>);

    open spec fn view(&self) -> (Seq<char>, Seq<char>) {
        (self.name@, self.value@)
    }
}

impl Header {
    pub fn new(name: &str, value: &str) -> (r: Header)
        ensures
            r@ == (name@, value@),
    {
        Header { name: name.to_owned(), value: value.to_owned() }
    }
}

/// The parts of a request that routing and the cross-origin policy read.
pub struct Request {
    pub method: Method,
    /// The path, one entry per slash-separated segment.
    pub path: Vec<String>,
}

impl Request {
    /// The path as a sequence of segments.
    pub open spec fn path_view(&self) -> Seq<Seq<char>> {
        self.path@.map_values(|s: String| s@)
    }

    pub fn new(method: Method, path: Vec<String>) -> (r: Request)
        ensures
            r.method == method,
            r.path@ == path@,
    {
        Request { method, path }
    }
}

/// A response: a status (none yet for a fresh one), headers and a body.
pub struct Response {
    pub status: Option<Status>,
    pub headers: Vec<Header>,
    pub body: String,
}

impl Response {
    /// The headers, in order, as name and value pairs.
    pub open spec fn headers_view(&self) -> Seq<(Seq<char>, Seq<char>)> {
        self.headers@.map_values(|h: Header| h@)
    }

    pub open spec fn spec_has_header(&self, name: Seq<char>) -> bool {
        exists|i: int| 0 <= i < self.headers@.len() && #[trigger] self.headers@[i].name@ == name
    }

    /// A response with no status, no headers and an empty body.
    pub fn new() -> (r: Response)
        ensures
            r.status.is_none(),
            r.headers@.len() == 0,
            r.body@.len() == 0,
    {
        Response { status: None, headers: Vec::new(), body: String::new() }
    }

    /// A response with the given status, no headers and an empty body.
    pub fn with_status(status: Status) -> (r: Response)
        ensures
            r.status == Some(status),
            r.headers@.len() == 0,
            r.body@.len() == 0,
    {
        Response { status: Some(status), headers: Vec::new(), body: String::new() }
    }

    /// Whether a header of this name is present (names compared exactly).
    pub fn has_header(&self, name: &str) -> (r: bool)
        ensures
            r == self.spec_has_header(name@),
    {
        let target = name.to_owned();
        let mut i: usize = 0;
        while i < self.headers.len()
            invariant
                i <= self.headers@.len(),
                target@ == name@,
                forall|k: int| 0 <= k < i ==> #[trigger] self.headers@[k].name@ != name@,
            decreases self.headers@.len() - i,
        {
            if self.headers[i].name == target {
                return true;
            }
            i = i + 1;
        }
        false
    }
}

} // verus!
