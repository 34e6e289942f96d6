use vstd::prelude::*;
use vstd::string::*;

verus! {

/// How long a response may be cached: three days, in seconds.
pub const EXPIRY_SECONDS: i64 = 259200;

/// The largest value of an `i64`.
pub const I64_MAX: i64 = 9223372036854775807;

/// The text that chrono writes for the instant `secs` seconds after the Unix
/// epoch, in the form `Sun, 06 Nov 1994 08:49:37 GMT`; nothing when chrono
/// cannot represent that instant.
pub uninterp spec fn chrono_http_date(secs: i64) -> Option<Seq<char>>;

/// Relies on chrono's `DateTime::<Utc>::from_timestamp`, which gives nothing
/// outside chrono's range of dates, and on its `format` with the pattern of
/// HTTP dates.
#[verifier::external_body]
fn format_http_date(secs: i64) -> (r: Option<String>)
    ensures
        match chrono_http_date(secs) {
            Some(d) => r is Some && r->Some_0@ == d,
            None => r is None,
        },
{
    chrono::DateTime::<chrono::Utc>::from_timestamp(secs, 0).map(
        |d| d.format("%a, %d %b %Y %H:%M:%S GMT").to_string(),
    )
}

/// Relies on chrono's `Utc::now` and `timestamp`: the current time in whole
/// seconds since the Unix epoch. Nothing is known of its value.
#[verifier::external_body]
pub(crate) fn now_unix_seconds() -> (r: i64) {
    chrono::Utc::now().timestamp()
}

/// The `Date` header line for the instant `now`, when it can be written.
pub open spec fn date_line(now: i64) -> Seq<char> {
    match chrono_http_date(now) {
        Some(d) => "Date: "@ + d + "\r\n"@,
        None => Seq::empty(),
    }
}

/// The `Expires` header line for a response sent at `now`: three days later,
/// when that instant can be written.
pub open spec fn expires_line(now: i64) -> Seq<char> {
    if now + EXPIRY_SECONDS <= I64_MAX {
        match chrono_http_date((now + EXPIRY_SECONDS) as i64) {
            Some(d) => "Expires: "@ + d + "\r\n"@,
            None => Seq::empty(),
        }
    } else {
        Seq::empty()
    }
}

/// The `Date` and `Expires` header lines of a response sent at `now`.
pub open spec fn date_lines_text(now: i64) -> Seq<char> {
    date_line(now) + expires_line(now)
}

/// Writes the `Date` and `Expires` header lines of a response sent at `now`.
pub fn date_lines(now: i64) -> (r: String)
    ensures
        r@ == date_lines_text(now),
{
    let mut text = String::new();
    proof {
        reveal_strlit("");
    }
    match format_http_date(now) {
        Some(d) => {
            text.append("Date: ");
            text.append(d.as_str());
            text.append("\r\n");
        },
        None => {},
    }
    if now <= I64_MAX - EXPIRY_SECONDS {
        match format_http_date(now + EXPIRY_SECONDS) {
            Some(d) => {
                text.append("Expires: ");
                text.append(d.as_str());
                text.append("\r\n");
            },
            None => {},
        }
    }
    assert(text@ =~= date_lines_text(now));
    text
}

} // verus!
