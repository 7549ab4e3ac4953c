//! The metrics query issued for a namespace.
use vstd::prelude::*;
use vstd::string::*;
use vstd::utf8::encode_utf8;

verus! {

/// Bytes that percent-encoding leaves as they are: ASCII letters, digits and `-` `.` `_` `~`.
pub open spec fn is_unreserved(b: u8) -> bool {
    (0x30 <= b <= 0x39) || (0x41 <= b <= 0x5a) || (0x61 <= b <= 0x7a) || b == 0x2d || b == 0x2e
        || b == 0x5f || b == 0x7e
}

/// The upper-case hexadecimal digit of `d`, for `d < 16`.
pub open spec fn hex_digit(d: u8) -> char {
    if d < 10 {
        (0x30 + d) as char
    } else {
        (0x41 + d - 10) as char
    }
}

/// `bytes` percent-encoded: each reserved byte becomes `%` and two hex digits.
pub open spec fn percent_encoded(bytes: Seq<u8>) -> Seq<char>
    decreases bytes.len(),
{
    if bytes.len() == 0 {
        seq![]
    } else {
        let b = bytes[0];
        let head = if is_unreserved(b) {
            seq![b as char]
        } else {
            seq!['%', hex_digit(b / 16), hex_digit(b % 16)]
        };
        head + percent_encoded(bytes.drop_first())
    }
}

/// Relies on `urlencoding::encode`: it percent-encodes every byte of the
/// UTF-8 form of `s` except ASCII alphanumerics and `-` `.` `_` `~`, with
/// upper-case hex digits.
#[verifier::external_body]
fn url_encode(s: &str) -> (r: String)
    ensures
        r@ == percent_encoded(encode_utf8(s@)),
{
    urlencoding::encode(s).into_owned()
}

/// The range-rate query over a two-minute window for `namespace`.
pub open spec fn cpu_query_text(namespace: Seq<char>) -> Seq<char> {
    "rate(container_cpu_usage_seconds_total{namespace=\""@ + namespace + "\"}[2m])"@
}

/// The URL that asks the metrics API at `endpoint` for the CPU rate of the
/// pods of `namespace`.
pub open spec fn cpu_query_url(endpoint: Seq<char>, namespace: Seq<char>) -> Seq<char> {
    endpoint + "/api/v1/query?query="@ + percent_encoded(encode_utf8(cpu_query_text(namespace)))
}

/// The query text for `namespace`.
pub fn cpu_query(namespace: &str) -> (r: String)
    ensures
        r@ == cpu_query_text(namespace@),
{
    let mut q = String::from_str("rate(container_cpu_usage_seconds_total{namespace=\"");
    q.append(namespace);
    q.append("\"}[2m])");
    q
}

/// The full query URL for `namespace` on the metrics API at `endpoint`.
pub fn query_url(endpoint: &str, namespace: &str) -> (r: String)
    ensures
        r@ == cpu_query_url(endpoint@, namespace@),
{
    let q = cpu_query(namespace);
    let encoded = url_encode(q.as_str());
    let mut url = String::from_str(endpoint);
    url.append("/api/v1/query?query=");
    url.append(encoded.as_str());
    url
}

} // verus!
