use exchanger::exchange_request::{generate_request, BASE_CURRENCY, TARGET_CURRENCY};
use exchanger::response::{decimal, format_response, generate_response, route_of, status_line, Route};

#[test]
fn request_lines_pick_their_route() {
    assert_eq!(route_of("GET / HTTP/1.1"), Route::Home);
    assert_eq!(route_of("GET /latest HTTP/1.1"), Route::LatestRates);
    assert_eq!(route_of("GET /other HTTP/1.1"), Route::NotFound);
    assert_eq!(route_of(""), Route::NotFound);
}

#[test]
fn status_lines() {
    assert_eq!(status_line(Route::Home), "HTTP/1.1 200 OK");
    assert_eq!(status_line(Route::LatestRates), "HTTP/1.1 200 OK");
    assert_eq!(status_line(Route::NotFound), "HTTP/1.1 404 NOT FOUND");
}

#[test]
fn decimal_notation() {
    assert_eq!(decimal(0), "0");
    assert_eq!(decimal(7), "7");
    assert_eq!(decimal(10), "10");
    assert_eq!(decimal(12345), "12345");
    assert_eq!(decimal(usize::MAX), usize::MAX.to_string());
}

#[test]
fn format_response_layout() {
    let r = format_response("HTTP/1.1 200 OK", 5, String::from("hello"));
    assert_eq!(r, "HTTP/1.1 200 OK\r\nContent-Length: 5\r\n\r\nhello");
}

#[test]
fn test_generate_response_home() {
    let mock_request = "GET / HTTP/1.1";
    let file_contents = String::from("<h1>Hello!</h1>\n");
    let length = file_contents.len();
    let expected_response =
        format!("HTTP/1.1 200 OK\r\nContent-Length: {length}\r\n\r\n{file_contents}");
    assert_eq!(expected_response, generate_response(mock_request, file_contents));
}

#[test]
fn generate_response_not_found_counts_bytes() {
    let body = String::from("héllo");
    let r = generate_response("GET /missing HTTP/1.1", body);
    assert_eq!(r, "HTTP/1.1 404 NOT FOUND\r\nContent-Length: 6\r\n\r\nhéllo");
}

#[test]
fn exchange_request_text() {
    let r = generate_request(BASE_CURRENCY, TARGET_CURRENCY, "2023-01-01", "2023-01-16");
    assert_eq!(
        r,
        "GET /timeseries?base=EUR&symbols=INR&start_date=2023-01-01&end_date=2023-01-16 HTTP/1.1\r\nHost: api.exchangerate.host\r\nConnection: close\r\n\r\n"
    );
}
