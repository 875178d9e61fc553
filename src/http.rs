//! The choice of reply for one request of the demonstration server that
//! feeds the pool: by the request's first line only.
use vstd::prelude::*;

verus! {

/// The reply chosen for a request.
#[derive(Debug, Clone, Copy, PartialEq, Eq, Structural)]
pub enum Route {
    /// `GET /`: the greeting page.
    Hello,
    /// `GET /sleep`: the greeting page, after a pause.
    SleepThenHello,
    /// Anything else: the not-found page.
    NotFound,
}

pub open spec fn has_prefix(s: Seq<u8>, prefix: Seq<u8>) -> bool {
    prefix.len() <= s.len() && s.take(prefix.len() as int) == prefix
}

pub open spec fn root_request() -> Seq<u8> {
    seq![71u8, 69, 84, 32, 47, 32, 72, 84, 84, 80, 47, 49, 46, 49, 13, 10]
}

pub open spec fn sleep_request() -> Seq<u8> {
    seq![71u8, 69, 84, 32, 47, 115, 108, 101, 101, 112, 32, 72, 84, 84, 80, 47, 49, 46, 49, 13, 10]
}

/// The route that a request's bytes select.
pub open spec fn spec_route(request: Seq<u8>) -> Route {
    if has_prefix(request, root_request()) {
        Route::Hello
    } else if has_prefix(request, sleep_request()) {
        Route::SleepThenHello
    } else {
        Route::NotFound
    }
}

fn starts_with(s: &[u8], prefix: &[u8]) -> (r: bool)
    ensures
        r == has_prefix(s@, prefix@),
{
    if prefix.len() > s.len() {
        return false;
    }
    let mut i: usize = 0;
    while i < prefix.len()
        invariant
            i <= prefix@.len() <= s@.len(),
            forall|j: int| 0 <= j < i ==> s@[j] == prefix@[j],
        decreases prefix.len() - i,
    {
        if s[i] != prefix[i] {
            assert(s@.take(prefix@.len() as int)[i as int] != prefix@[i as int]);
            return false;
        }
        i = i + 1;
    }
    assert(s@.take(prefix@.len() as int) =~= prefix@);
    true
}

/// Picks the reply for a request from its leading bytes: `GET / HTTP/1.1`
/// and `GET /sleep HTTP/1.1` lines are served, anything else is not found.
pub fn route(request: &[u8]) -> (r: Route)
    ensures
        r == spec_route(request@),
{
    let root: [u8; 16] = [71, 69, 84, 32, 47, 32, 72, 84, 84, 80, 47, 49, 46, 49, 13, 10];
    let sleep: [u8; 21] = [
        71, 69, 84, 32, 47, 115, 108, 101, 101, 112, 32, 72, 84, 84, 80, 47, 49, 46, 49, 13, 10,
    ];
    assert(root@ =~= root_request());
    assert(sleep@ =~= sleep_request());
    if starts_with(request, &root) {
        Route::Hello
    } else if starts_with(request, &sleep) {
        Route::SleepThenHello
    } else {
        Route::NotFound
    }
}

impl Route {
    /// The status line of the reply.
    pub fn status_line(&self) -> (r: &'static str)
        ensures
            *self is NotFound ==> r@ == "HTTP/1.1 404 NOT FOUND"@,
            !(*self is NotFound) ==> r@ == "HTTP/1.1 200 OK"@,
    {
        proof {
            reveal_strlit("HTTP/1.1 404 NOT FOUND");
            reveal_strlit("HTTP/1.1 200 OK");
        }
        match self {
            Route::NotFound => "HTTP/1.1 404 NOT FOUND",
            _ => "HTTP/1.1 200 OK",
        }
    }

    /// The file whose contents form the reply's body.
    pub fn file_name(&self) -> (r: &'static str)
        ensures
            *self is NotFound ==> r@ == "404.html"@,
            !(*self is NotFound) ==> r@ == "hello.html"@,
    {
        proof {
            reveal_strlit("404.html");
            reveal_strlit("hello.html");
        }
        match self {
            Route::NotFound => "404.html",
            _ => "hello.html",
        }
    }

    /// Whether the reply is sent only after a pause.
    pub fn delays(&self) -> (r: bool)
        ensures
            r == (*self is SleepThenHello),
    {
        match self {
            Route::SleepThenHello => true,
            _ => false,
        }
    }
}

} // verus!
