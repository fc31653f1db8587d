//! The headers that go out with every request.
//!
//! The map is `reqwest`'s own; contracts speak of what it holds.

use reqwest::header::{HeaderMap, HeaderName, HeaderValue, InvalidHeaderValue};
use vstd::pervasive::unreached;
use vstd::prelude::*;
use vstd::string::StringSliceAdditionalSpecFns;
use vstd::utf8::encode_utf8;

verus! {

/// The headers of the fixed set.
#[derive(Clone, Copy, Debug, PartialEq, Eq, Structural)]
pub enum RequestHeader {
    Connection,
    AcceptLanguage,
    Accept,
    Referer,
    UserAgent,
}

impl RequestHeader {
    /// The header's name, in lower case.
    pub open spec fn name(self) -> Seq<char> {
        match self {
            RequestHeader::Connection => "connection"@,
            RequestHeader::AcceptLanguage => "accept-language"@,
            RequestHeader::Accept => "accept"@,
            RequestHeader::Referer => "referer"@,
            RequestHeader::UserAgent => "user-agent"@,
        }
    }

    /// The value that is sent under this header.
    pub open spec fn value(self) -> Seq<char> {
        match self {
            RequestHeader::Connection => "Keep-Alive"@,
            RequestHeader::AcceptLanguage => "en-US,en;q=0.8,zh-Hans-CN;q=0.5,zh-Hans;q=0.3"@,
            RequestHeader::Accept => "text/html, application/xhtml+xml, */*"@,
            RequestHeader::Referer => "https://www.bilibili.com"@,
            RequestHeader::UserAgent => "Mozilla/5.0 (X11; Linux x86_64; rv:109.0) Gecko/20100101 Firefox/115.0"@,
        }
    }

    /// The value that is sent under this header.
    pub fn value_text(self) -> (text: &'static str)
        ensures
            text@ == self.value(),
    {
        match self {
            RequestHeader::Connection => "Keep-Alive",
            RequestHeader::AcceptLanguage => "en-US,en;q=0.8,zh-Hans-CN;q=0.5,zh-Hans;q=0.3",
            RequestHeader::Accept => "text/html, application/xhtml+xml, */*",
            RequestHeader::Referer => "https://www.bilibili.com",
            RequestHeader::UserAgent => "Mozilla/5.0 (X11; Linux x86_64; rv:109.0) Gecko/20100101 Firefox/115.0",
        }
    }

    /// Every value of the fixed set can stand in a header.
    pub proof fn lemma_value_is_acceptable(self)
        ensures
            header_text_ok(self.value()),
    {
        reveal_strlit("Keep-Alive");
        reveal_strlit("en-US,en;q=0.8,zh-Hans-CN;q=0.5,zh-Hans;q=0.3");
        reveal_strlit("text/html, application/xhtml+xml, */*");
        reveal_strlit("https://www.bilibili.com");
        reveal_strlit("Mozilla/5.0 (X11; Linux x86_64; rv:109.0) Gecko/20100101 Firefox/115.0");
    }
}

/// A character that a header value may hold: a tab, or anything from the space
/// on but the delete character.
pub open spec fn header_char_ok(c: char) -> bool {
    c == '\t' || (' ' <= c && c != '\x7f')
}

/// A text that can stand as a header value.
pub open spec fn header_text_ok(text: Seq<char>) -> bool {
    forall|i: int| 0 <= i < text.len() ==> header_char_ok(#[trigger] text[i])
}

/// `reqwest::header::HeaderMap`, the headers of a request: under each name,
/// one value or several.
#[verifier::external_type_specification]
#[verifier::external_body]
#[verifier::reject_recursive_types(T)]
pub struct ExHeaderMap<T>(reqwest::header::HeaderMap<T>);

/// `reqwest::header::HeaderValue`, the bytes of one value.
#[verifier::external_type_specification]
#[verifier::external_body]
pub struct ExHeaderValue(reqwest::header::HeaderValue);

/// `reqwest::header::HeaderName`, a header's name.
#[verifier::external_type_specification]
#[verifier::external_body]
pub struct ExHeaderName(reqwest::header::HeaderName);

/// `reqwest::header::InvalidHeaderValue`, the refusal of a text as a value.
#[verifier::external_type_specification]
#[verifier::external_body]
pub struct ExInvalidHeaderValue(reqwest::header::InvalidHeaderValue);

/// What a header map holds: under each name, the bytes of its values in order.
pub uninterp spec fn header_values(headers: HeaderMap) -> Map<Seq<char>, Seq<Seq<u8>>>;

/// The bytes of a header value.
pub uninterp spec fn header_value_bytes(value: HeaderValue) -> Seq<u8>;

/// A header name as text, which is in lower case.
pub uninterp spec fn header_name_text(name: HeaderName) -> Seq<char>;

/// The map that holds nothing.
pub open spec fn no_headers() -> Map<Seq<char>, Seq<Seq<u8>>> {
    Map::empty()
}

/// More names than this are never put into one map here; the map itself
/// takes several thousand before it refuses.
pub const MAX_HEADER_NAMES: usize = 1024;

/// `HeaderMap::new`: a map that holds nothing.
#[verifier::external_body]
fn empty_headers() -> (headers: HeaderMap)
    ensures
        header_values(headers) == no_headers(),
{
    HeaderMap::new()
}

/// `HeaderValue::from_str`: accepts a text if each of its bytes is a tab or at
/// least the space and not the delete character, which every byte of a
/// character beyond ASCII is; the value then holds the bytes of the text.
#[verifier::external_body]
fn header_value(text: &str) -> (made: Result<HeaderValue, InvalidHeaderValue>)
    ensures
        made is Ok <==> header_text_ok(text@),
        made matches Ok(value) ==> header_value_bytes(value) == text.spec_bytes(),
{
    HeaderValue::from_str(text)
}

/// The constants `CONNECTION`, `ACCEPT_LANGUAGE`, `ACCEPT`, `REFERER` and
/// `USER_AGENT` of `reqwest::header`.
#[verifier::external_body]
fn standard_name(which: RequestHeader) -> (name: HeaderName)
    ensures
        header_name_text(name) == which.name(),
{
    match which {
        RequestHeader::Connection => reqwest::header::CONNECTION,
        RequestHeader::AcceptLanguage => reqwest::header::ACCEPT_LANGUAGE,
        RequestHeader::Accept => reqwest::header::ACCEPT,
        RequestHeader::Referer => reqwest::header::REFERER,
        RequestHeader::UserAgent => reqwest::header::USER_AGENT,
    }
}

/// `HeaderMap::insert`: the value becomes the only one under its name, and
/// the other names keep theirs.
#[verifier::external_body]
fn set_header(headers: &mut HeaderMap, name: HeaderName, value: HeaderValue)
    requires
        header_values(*old(headers)).dom().finite(),
        header_values(*old(headers)).dom().len() < MAX_HEADER_NAMES,
    ensures
        header_values(*final(headers)) == header_values(*old(headers)).insert(
            header_name_text(name),
            seq![header_value_bytes(value)],
        ),
{
    headers.insert(name, value);
}

/// `headers` with the header `which` of the fixed set put in.
pub open spec fn with_header(
    headers: Map<Seq<char>, Seq<Seq<u8>>>,
    which: RequestHeader,
) -> Map<Seq<char>, Seq<Seq<u8>>> {
    headers.insert(which.name(), seq![encode_utf8(which.value())])
}

/// The fixed set: each of the five names with its one value.
pub open spec fn required_headers() -> Map<Seq<char>, Seq<Seq<u8>>> {
    with_header(
        with_header(
            with_header(
                with_header(
                    with_header(no_headers(), RequestHeader::Connection),
                    RequestHeader::AcceptLanguage,
                ),
                RequestHeader::Accept,
            ),
            RequestHeader::Referer,
        ),
        RequestHeader::UserAgent,
    )
}

/// Puts the header `which` into `headers`.
fn put(headers: &mut HeaderMap, which: RequestHeader)
    requires
        header_values(*old(headers)).dom().finite(),
        header_values(*old(headers)).dom().len() < MAX_HEADER_NAMES,
    ensures
        header_values(*final(headers)) == with_header(header_values(*old(headers)), which),
        header_values(*final(headers)).dom().finite(),
        header_values(*final(headers)).dom().len() <= header_values(*old(headers)).dom().len() + 1,
{
    match header_value(which.value_text()) {
        Ok(value) => {
            set_header(headers, standard_name(which), value);
        },
        Err(_) => {
            proof {
                which.lemma_value_is_acceptable();
            }
            unreached()
        },
    }
}

/// The headers that every request carries. Building them cannot fail: each
/// value of the fixed set is one that a header accepts.
pub fn create_custom_headers() -> (headers: HeaderMap)
    ensures
        header_values(headers) == required_headers(),
{
    let mut headers = empty_headers();
    put(&mut headers, RequestHeader::Connection);
    put(&mut headers, RequestHeader::AcceptLanguage);
    put(&mut headers, RequestHeader::Accept);
    put(&mut headers, RequestHeader::Referer);
    put(&mut headers, RequestHeader::UserAgent);
    headers
}

} // verus!
