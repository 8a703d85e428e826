use vstd::prelude::*;
use vstd::utf8::encode_utf8;
use vstd::string::StringExecFns;

verus! {

/// The pages the server knows, chosen by the request line.
#[derive(Clone, Copy, Debug, PartialEq, Eq, Structural)]
pub enum Route {
    /// `GET / HTTP/1.1`: the welcome page.
    Home,
    /// `GET /latest HTTP/1.1`: the current and estimated exchange rates.
    LatestRates,
    /// Any other request line.
    NotFound,
}

pub open spec fn route_spec(request: Seq<char>) -> Route {
    if request == "GET / HTTP/1.1"@ {
        Route::Home
    } else if request == "GET /latest HTTP/1.1"@ {
        Route::LatestRates
    } else {
        Route::NotFound
    }
}

pub open spec fn status_line_spec(route: Route) -> Seq<char> {
    match route {
        Route::NotFound => "HTTP/1.1 404 NOT FOUND"@,
        _ => "HTTP/1.1 200 OK"@,
    }
}

pub open spec fn digit_char(d: nat) -> char {
    if d == 0 { '0' }
    else if d == 1 { '1' }
    else if d == 2 { '2' }
    else if d == 3 { '3' }
    else if d == 4 { '4' }
    else if d == 5 { '5' }
    else if d == 6 { '6' }
    else if d == 7 { '7' }
    else if d == 8 { '8' }
    else { '9' }
}

/// The decimal notation of `n`, without leading zeros.
pub open spec fn decimal_spec(n: nat) -> Seq<char>
    decreases n,
{
    if n < 10 {
        seq![digit_char(n)]
    } else {
        decimal_spec(n / 10) + seq![digit_char(n % 10)]
    }
}

/// An HTTP response: status line, a `Content-Length` header, a blank line,
/// then the body.
pub open spec fn response_spec(status_line: Seq<char>, length: nat, contents: Seq<char>) -> Seq<
    char,
> {
    status_line + "\r\nContent-Length: "@ + decimal_spec(length) + "\r\n\r\n"@ + contents
}

/// Which page a request line asks for.
pub fn route_of(request: &str) -> (r: Route)
    ensures
        r == route_spec(request@),
{
    let line = request.to_owned();
    if line == "GET / HTTP/1.1".to_owned() {
        Route::Home
    } else if line == "GET /latest HTTP/1.1".to_owned() {
        Route::LatestRates
    } else {
        Route::NotFound
    }
}

/// The status line answered for `route`.
pub fn status_line(route: Route) -> (r: &'static str)
    ensures
        r@ == status_line_spec(route),
{
    match route {
        Route::NotFound => "HTTP/1.1 404 NOT FOUND",
        _ => "HTTP/1.1 200 OK",
    }
}

fn digit_str(d: usize) -> (r: &'static str)
    requires
        d < 10,
    ensures
        r@ == seq![digit_char(d as nat)],
{
    proof {
        reveal_strlit("0");
        reveal_strlit("1");
        reveal_strlit("2");
        reveal_strlit("3");
        reveal_strlit("4");
        reveal_strlit("5");
        reveal_strlit("6");
        reveal_strlit("7");
        reveal_strlit("8");
        reveal_strlit("9");
    }
    if d == 0 { "0" }
    else if d == 1 { "1" }
    else if d == 2 { "2" }
    else if d == 3 { "3" }
    else if d == 4 { "4" }
    else if d == 5 { "5" }
    else if d == 6 { "6" }
    else if d == 7 { "7" }
    else if d == 8 { "8" }
    else { "9" }
}

/// `n` in decimal.
pub fn decimal(n: usize) -> (r: String)
    ensures
        r@ == decimal_spec(n as nat),
    decreases n,
{
    if n < 10 {
        digit_str(n).to_owned()
    } else {
        let mut s = decimal(n / 10);
        s.append(digit_str(n % 10));
        s
    }
}

/// Assembles a response from its status line, the body's length in bytes and
/// the body.
pub fn format_response(status_line: &str, length: usize, contents: String) -> (r: String)
    ensures
        r@ == response_spec(status_line@, length as nat, contents@),
{
    let mut response = status_line.to_owned();
    response.append("\r\nContent-Length: ");
    response.append(decimal(length).as_str());
    response.append("\r\n\r\n");
    response.append(contents.as_str());
    response
}

/// The response to `request`, given the body of the page that `route_of`
/// picks for it: the status line of that route, and the body's length in
/// UTF-8 bytes.
pub fn generate_response(request: &str, contents: String) -> (r: String)
    requires
        encode_utf8(contents@).len() <= usize::MAX,
    ensures
        r@ == response_spec(
            status_line_spec(route_spec(request@)),
            encode_utf8(contents@).len(),
            contents@,
        ),
{
    let route = route_of(request);
    let length = contents.as_str().len();
    format_response(status_line(route), length, contents)
}

} // verus!
