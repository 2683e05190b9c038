use vstd::prelude::*;

use crate::reply::Status;

verus! {

/// First instant, in seconds since the Unix epoch, that an HTTP date cannot
/// express: the start of the year 10000.
pub const HTTP_DATE_END: u64 = 253402300800;

/// The instant, in seconds since the Unix epoch, that an HTTP-date text denotes.
pub uninterp spec fn http_date_secs(s: Seq<char>) -> Option<u64>;

/// The HTTP-date text of an instant given in seconds since the Unix epoch.
pub uninterp spec fn http_date_text(secs: u64) -> Seq<char>;

/// Relies on `httpdate::parse_http_date`: the result depends on the text alone,
/// and an accepted date lies in the years 1970 to 9999 (`HttpDate::is_valid`).
#[verifier::external_body]
fn parse_http_date(s: &str) -> (r: Option<u64>)
    ensures
        r == http_date_secs(s@),
        r matches Some(t) ==> t < HTTP_DATE_END,
{
    httpdate::parse_http_date(s).ok().and_then(|t| t.duration_since(std::time::UNIX_EPOCH).ok()).map(
        |d| d.as_secs(),
    )
}

/// Relies on `httpdate::fmt_http_date`, which panics on instants from the year
/// 10000 on: the text depends on the instant alone.
#[verifier::external_body]
fn fmt_http_date(secs: u64) -> (r: String)
    requires
        secs < HTTP_DATE_END,
    ensures
        r@ == http_date_text(secs),
{
    httpdate::fmt_http_date(std::time::UNIX_EPOCH + std::time::Duration::from_secs(secs))
}

/// The freshness token that an `If-Modified-Since` header value gives, or the
/// failure that a malformed value causes.
pub open spec fn token_of(header: Option<Seq<char>>) -> Result<Option<u64>, Status> {
    match header {
        None => Ok(None),
        Some(h) => match http_date_secs(h) {
            Some(t) => Ok(Some(t)),
            None => Err(Status::BadRequest),
        },
    }
}

pub open spec fn header_view(header: Option<&str>) -> Option<Seq<char>> {
    match header {
        Some(h) => Some(h@),
        None => None,
    }
}

/// Reads the freshness token from an `If-Modified-Since` header value: none
/// without the header, 400 where its value is not an HTTP date.
pub fn if_changed_since(header: Option<&str>) -> (r: Result<Option<u64>, Status>)
    ensures
        r == token_of(header_view(header)),
{
    match header {
        None => Ok(None),
        Some(h) => match parse_http_date(h) {
            Some(t) => Ok(Some(t)),
            None => Err(Status::BadRequest),
        },
    }
}

/// The `Date` header value that carries a modification time, where the
/// instant can be written as an HTTP date.
pub fn http_date(secs: u64) -> (r: Option<String>)
    ensures
        secs < HTTP_DATE_END ==> (r matches Some(s) && s@ == http_date_text(secs)),
        secs >= HTTP_DATE_END ==> r is None,
{
    if secs < HTTP_DATE_END {
        Some(fmt_http_date(secs))
    } else {
        None
    }
}

} // verus!
