//! What the library takes on trust from the HTTP, URL and Base64 crates:
//! declarations of their types, and contracts for the calls it makes.
use vstd::prelude::*;
use reqwest::header::{HeaderMap, HeaderValue, InvalidHeaderValue, MaxSizeReached};
use url::{ParseError, Url};

verus! {

/// http's `HeaderMap` (through reqwest), held opaque: the default headers.
#[verifier::external_type_specification]
#[verifier::external_body]
#[verifier::reject_recursive_types(T)]
pub struct ExHeaderMap<T>(reqwest::header::HeaderMap<T>);

/// http's `HeaderValue`, held opaque: one header value.
#[verifier::external_type_specification]
#[verifier::external_body]
pub struct ExHeaderValue(reqwest::header::HeaderValue);

/// http's error for bytes that a header value cannot hold.
#[verifier::external_type_specification]
#[verifier::external_body]
pub struct ExInvalidHeaderValue(reqwest::header::InvalidHeaderValue);

/// http's error for a header map that cannot grow.
#[verifier::external_type_specification]
#[verifier::external_body]
pub struct ExMaxSizeReached(reqwest::header::MaxSizeReached);

/// url's `Url`, held opaque: the base address and the joined addresses.
#[verifier::external_type_specification]
#[verifier::external_body]
pub struct ExUrl(url::Url);

/// url's error for text that is not a URL.
#[verifier::external_type_specification]
#[verifier::external_body]
pub struct ExParseError(url::ParseError);

/// reqwest's `Client`, held opaque and shared: it sends the requests.
#[verifier::external_type_specification]
#[verifier::external_body]
pub struct ExClient(reqwest::Client);

/// reqwest's `ClientBuilder`, held opaque while a client is built.
#[verifier::external_type_specification]
#[verifier::external_body]
pub struct ExClientBuilder(reqwest::ClientBuilder);

/// reqwest's error, kept as the cause when a client cannot be built.
#[verifier::external_type_specification]
#[verifier::external_body]
pub struct ExReqwestError(reqwest::Error);

/// The values that a header map holds under each (lower-case) name, in order.
pub uninterp spec fn header_fields(h: HeaderMap) -> Map<Seq<char>, Seq<Seq<u8>>>;

/// The bytes of a header value.
pub uninterp spec fn header_value_bytes(v: HeaderValue) -> Seq<u8>;

/// The standard Base64 encoding (with padding) of some bytes, as ASCII bytes.
pub uninterp spec fn base64_standard(b: Seq<u8>) -> Seq<u8>;

/// Whether some text parses as an absolute URL.
pub uninterp spec fn url_parses(s: Seq<char>) -> bool;

/// The URL that some text parses to, where it parses.
pub uninterp spec fn parsed_url(s: Seq<char>) -> Url;

/// Whether a path resolves against a base URL.
pub uninterp spec fn join_ok(base: Url, path: Seq<char>) -> bool;

/// The URL that a path resolves to against a base URL, where it resolves.
pub uninterp spec fn joined_url(base: Url, path: Seq<char>) -> Url;

/// A header map that can take another name: a map of fewer than 4096 names
/// never reaches the size limit on one insertion.
pub open spec fn has_room(fields: Map<Seq<char>, Seq<Seq<u8>>>) -> bool {
    fields.dom().finite() && fields.dom().len() < 4096
}

/// A byte that a header value may hold: a visible or extended byte, or a tab.
pub open spec fn header_value_byte(b: u8) -> bool {
    (b >= 32 && b != 127) || b == 9
}

/// Bytes that form a valid header value.
pub open spec fn valid_header_bytes(s: Seq<u8>) -> bool {
    forall|i: int| 0 <= i < s.len() ==> header_value_byte(#[trigger] s[i])
}

/// A byte of the standard Base64 alphabet, padding included.
pub open spec fn base64_byte(b: u8) -> bool {
    (65 <= b <= 90) || (97 <= b <= 122) || (48 <= b <= 57) || b == 43 || b == 47 || b == 61
}

/// A header name that can be given as a static string: lower-case letters and
/// dashes, not empty and not long.
pub open spec fn static_header_name(s: Seq<char>) -> bool {
    &&& 0 < s.len() <= 64
    &&& forall|i: int| 0 <= i < s.len() ==> (('a' <= #[trigger] s[i] && s[i] <= 'z') || s[i] == '-')
}

/// A byte that the form encoder leaves as it is.
pub open spec fn form_unreserved(b: u8) -> bool {
    (48 <= b <= 57) || (65 <= b <= 90) || (97 <= b <= 122) || b == 42 || b == 45 || b == 46
        || b == 95
}

/// An upper-case hexadecimal digit.
pub open spec fn hex_upper(d: nat) -> char {
    if d < 10 {
        ((48 + d) as u8) as char
    } else {
        ((55 + d) as u8) as char
    }
}

/// What the `application/x-www-form-urlencoded` byte serializer makes of one
/// byte: unreserved bytes stay, a space becomes `+`, the rest become `%XX`.
pub open spec fn form_encoded_byte(b: u8) -> Seq<char> {
    if form_unreserved(b) {
        seq![b as char]
    } else if b == 32 {
        seq!['+']
    } else {
        seq!['%', hex_upper((b / 16) as nat), hex_upper((b % 16) as nat)]
    }
}

/// The `application/x-www-form-urlencoded` serialization of some bytes.
pub open spec fn form_encoded(s: Seq<u8>) -> Seq<char>
    decreases s.len(),
{
    if s.len() == 0 {
        seq![]
    } else {
        form_encoded(s.drop_last()) + form_encoded_byte(s.last())
    }
}

/// Relies on http's `HeaderMap::new`: the map starts empty.
pub assume_specification[ HeaderMap::new ]() -> (r: HeaderMap)
    ensures
        header_fields(r) =~= Map::empty(),
;

/// Relies on http's `HeaderValue::from_bytes`: it accepts exactly the bytes 32 to
/// 255 but 127, and tab, and keeps them as they are.
pub assume_specification[ HeaderValue::from_bytes ](src: &[u8]) -> (r: Result<
    HeaderValue,
    InvalidHeaderValue,
>)
    ensures
        r is Ok <==> valid_header_bytes(src@),
        r matches Ok(v) ==> header_value_bytes(v) == src@,
;

/// Relies on url's `Url::parse`: whether it succeeds depends on the text alone.
pub assume_specification[ Url::parse ](input: &str) -> (r: Result<Url, ParseError>)
    ensures
        r is Ok <==> url_parses(input@),
        r matches Ok(u) ==> u == parsed_url(input@),
;

/// Relies on url's `Url::clone`, which `ApiClient`'s `Clone` calls.
pub assume_specification[ <Url as Clone>::clone ](url: &Url) -> Url;

/// Relies on url's `Url::join`, which resolves an endpoint path against the base.
pub assume_specification[ Url::join ](url: &Url, input: &str) -> (r: Result<Url, ParseError>)
    ensures
        r is Ok <==> join_ok(*url, input@),
        r matches Ok(u) ==> u == joined_url(*url, input@),
;

/// Relies on http's `HeaderMap::clone`, which the builder's `Clone` calls.
pub assume_specification<T: Clone>[ <HeaderMap<T> as Clone>::clone ](h: &HeaderMap<T>) -> HeaderMap<T>;

/// Relies on reqwest's `Client::builder`, the start of building a client.
pub assume_specification[ reqwest::Client::builder ]() -> reqwest::ClientBuilder;

/// Relies on reqwest's `ClientBuilder::default_headers`, which stages the headers
/// that every request of the client carries.
pub assume_specification[ reqwest::ClientBuilder::default_headers ](
    builder: reqwest::ClientBuilder,
    headers: HeaderMap,
) -> reqwest::ClientBuilder;

/// Relies on reqwest's `ClientBuilder::build`, which may fail (on the platform's
/// TLS or resolver set-up), so nothing is promised of it.
pub assume_specification[ reqwest::ClientBuilder::build ](builder: reqwest::ClientBuilder) -> Result<
    reqwest::Client,
    reqwest::Error,
>;

/// Relies on http's `HeaderName::from_static` and `HeaderMap::try_insert`: on
/// success the name holds just the new value and other names are untouched;
/// where the map is full nothing changes. The map only refuses an entry when
/// growing it would pass 32768 slots, which takes thousands of names.
#[verifier::external_body]
pub(crate) fn try_insert_header(
    h: &mut HeaderMap,
    name: &'static str,
    value: HeaderValue,
) -> (r: Result<Option<HeaderValue>, MaxSizeReached>)
    requires
        static_header_name(name@),
    ensures
        r is Ok ==> header_fields(*final(h)) == header_fields(*old(h)).insert(
            name@,
            seq![header_value_bytes(value)],
        ),
        r is Err ==> header_fields(*final(h)) == header_fields(*old(h)),
        has_room(header_fields(*old(h))) ==> r is Ok,
{
    h.try_insert(reqwest::header::HeaderName::from_static(name), value)
}

/// Relies on http's `HeaderMap::contains_key` with a lower-case name: whether
/// the map holds a value under that name.
#[verifier::external_body]
pub(crate) fn has_header(h: &HeaderMap, name: &'static str) -> (r: bool)
    requires
        static_header_name(name@),
    ensures
        r == header_fields(*h).contains_key(name@),
{
    h.contains_key(name)
}

/// Relies on base64's `encode` (standard alphabet, with padding): the result
/// depends on the input alone and is made of Base64 characters.
#[verifier::external_body]
pub(crate) fn encode_base64(input: &[u8]) -> (r: Vec<u8>)
    requires
        input@.len() <= usize::MAX / 2,
    ensures
        r@ == base64_standard(input@),
        forall|i: int| 0 <= i < r@.len() ==> base64_byte(#[trigger] r@[i]),
{
    base64::encode(input).into_bytes()
}

/// Relies on url's `form_urlencoded::byte_serialize`, collected into one string.
#[verifier::external_body]
pub(crate) fn form_urlencode_bytes(input: &[u8]) -> (r: String)
    ensures
        r@ == form_encoded(input@),
{
    url::form_urlencoded::byte_serialize(input).collect()
}

} // verus!
