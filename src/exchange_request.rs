use vstd::prelude::*;
use vstd::string::StringExecFns;

verus! {

/// Host serving the exchange-rate time series.
pub const EXCHANGE_API_HOST: &'static str = "api.exchangerate.host";

/// Currency the rates are quoted from.
pub const BASE_CURRENCY: &'static str = "EUR";

/// Currency the rates are quoted in.
pub const TARGET_CURRENCY: &'static str = "INR";

/// Line terminator of HTTP/1.1.
pub const CRLF: &'static str = "\r\n";

/// The request for the time series of `base_currency` in `target_currency`
/// between two dates written `YYYY-MM-DD`, closing the connection after the
/// answer.
pub open spec fn request_spec(
    base_currency: Seq<char>,
    target_currency: Seq<char>,
    start_date: Seq<char>,
    end_date: Seq<char>,
) -> Seq<char> {
    "GET /timeseries?base="@ + base_currency + "&symbols="@ + target_currency + "&start_date="@
        + start_date + "&end_date="@ + end_date + " HTTP/1.1"@ + "\r\n"@ + "Host: "@
        + "api.exchangerate.host"@ + "\r\n"@ + "Connection: close"@ + "\r\n"@ + "\r\n"@
}

pub fn generate_request(
    base_currency: &str,
    target_currency: &str,
    start_date: &str,
    end_date: &str,
) -> (r: String)
    ensures
        r@ == request_spec(base_currency@, target_currency@, start_date@, end_date@),
{
    let mut request = "GET /timeseries?base=".to_owned();
    request.append(base_currency);
    request.append("&symbols=");
    request.append(target_currency);
    request.append("&start_date=");
    request.append(start_date);
    request.append("&end_date=");
    request.append(end_date);
    request.append(" HTTP/1.1");
    request.append(CRLF);
    request.append("Host: ");
    request.append(EXCHANGE_API_HOST);
    request.append(CRLF);
    request.append("Connection: close");
    request.append(CRLF);
    request.append(CRLF);
    request
}

} // verus!
