use vstd::prelude::*;
use vstd::string::StringExecFns;

verus! {

/// The fixed table of request lines the server knows.
#[derive(Clone, Copy, Debug, PartialEq, Eq, Structural)]
pub enum Route {
    /// `GET / HTTP/1.1`: the index page.
    Index,
    /// `GET /sleep HTTP/1.1`: the index page after a pause.
    Sleep,
    /// Any other request line.
    NotFound,
}

/// The route that a request line selects.
pub open spec fn route_of(line: Seq<char>) -> Route {
    if line == "GET / HTTP/1.1"@ {
        Route::Index
    } else if line == "GET /sleep HTTP/1.1"@ {
        Route::Sleep
    } else {
        Route::NotFound
    }
}

/// Matches a request line against the table of known request lines.
pub fn route(request_line: &str) -> (r: Route)
    ensures
        r == route_of(request_line@),
{
    let line = request_line.to_owned();
    if line == "GET / HTTP/1.1".to_owned() {
        Route::Index
    } else if line == "GET /sleep HTTP/1.1".to_owned() {
        Route::Sleep
    } else {
        Route::NotFound
    }
}

/// The status line sent for a route.
pub open spec fn status_of(r: Route) -> Seq<char> {
    match r {
        Route::Index => "HTTP/1.1 200 OK"@,
        Route::Sleep => "HTTP 200 OK"@,
        Route::NotFound => "HTTP/1.1 404 NOT FOUND"@,
    }
}

/// The file whose contents form the body for a route.
pub open spec fn file_of(r: Route) -> Seq<char> {
    match r {
        Route::Index | Route::Sleep => "index.html"@,
        Route::NotFound => "404.html"@,
    }
}

/// The seconds to pause before answering a route.
pub open spec fn delay_of(r: Route) -> nat {
    match r {
        Route::Sleep => 5,
        _ => 0,
    }
}

/// The character of a decimal digit.
pub open spec fn digit_char(d: nat) -> char {
    if d == 0 { '0' }
    else if d == 1 { '1' }
    else if d == 2 { '2' }
    else if d == 3 { '3' }
    else if d == 4 { '4' }
    else if d == 5 { '5' }
    else if d == 6 { '6' }
    else if d == 7 { '7' }
    else if d == 8 { '8' }
    else { '9' }
}

/// The decimal digits of `n`, most significant first, without leading zeros.
pub open spec fn decimal(n: nat) -> Seq<char>
    decreases n,
{
    if n < 10 {
        seq![digit_char(n)]
    } else {
        decimal(n / 10).push(digit_char(n % 10))
    }
}

/// A response: the status line, a content length header counting the body's
/// bytes, a blank line, then the body.
pub open spec fn response_of(status: Seq<char>, body: Seq<char>, body_bytes: nat) -> Seq<char> {
    status + "\r\nContent Length: "@ + decimal(body_bytes) + "\r\n\r\n"@ + body
}

impl Route {
    /// The status line sent for this route.
    pub fn status_line(self) -> (r: &'static str)
        ensures
            r@ == status_of(self),
    {
        match self {
            Route::Index => "HTTP/1.1 200 OK",
            Route::Sleep => "HTTP 200 OK",
            Route::NotFound => "HTTP/1.1 404 NOT FOUND",
        }
    }

    /// The file whose contents form the body for this route.
    pub fn file_name(self) -> (r: &'static str)
        ensures
            r@ == file_of(self),
    {
        match self {
            Route::Index | Route::Sleep => "index.html",
            Route::NotFound => "404.html",
        }
    }

    /// The seconds to pause before answering this route.
    pub fn delay_secs(self) -> (r: u64)
        ensures
            r == delay_of(self),
    {
        match self {
            Route::Sleep => 5,
            _ => 0,
        }
    }
}

fn digit_str(d: usize) -> (r: &'static str)
    requires
        d < 10,
    ensures
        r@ == seq![digit_char(d as nat)],
{
    proof {
        reveal_strlit("0");
        reveal_strlit("1");
        reveal_strlit("2");
        reveal_strlit("3");
        reveal_strlit("4");
        reveal_strlit("5");
        reveal_strlit("6");
        reveal_strlit("7");
        reveal_strlit("8");
        reveal_strlit("9");
    }
    if d == 0 { "0" }
    else if d == 1 { "1" }
    else if d == 2 { "2" }
    else if d == 3 { "3" }
    else if d == 4 { "4" }
    else if d == 5 { "5" }
    else if d == 6 { "6" }
    else if d == 7 { "7" }
    else if d == 8 { "8" }
    else { "9" }
}

fn append_decimal(out: &mut String, n: usize)
    ensures
        final(out)@ == old(out)@ + decimal(n as nat),
    decreases n,
{
    if n >= 10 {
        append_decimal(out, n / 10);
    }
    out.append(digit_str(n % 10));
    assert(final(out)@ =~= old(out)@ + decimal(n as nat));
}

/// Frames a response from a status line and a body.
pub fn frame_response(status_line: &str, contents: &str) -> (r: String)
    ensures
        r@ == response_of(status_line@, contents@, contents.len() as nat),
{
    let mut out = status_line.to_owned();
    let n = contents.len();
    assert(n == contents.len() as nat);
    out.append("\r\nContent Length: ");
    append_decimal(&mut out, n);
    out.append("\r\n\r\n");
    out.append(contents);
    assert(out@ =~= response_of(status_line@, contents@, contents.len() as nat));
    out
}

} // verus!
