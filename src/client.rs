//! The client value and the builder that assembles it.
use vstd::prelude::*;
use std::sync::Arc;
use reqwest::header::{HeaderMap, HeaderValue};
use url::{ParseError, Url};
use vstd::utf8::{encode_utf8, is_ascii_chars, is_ascii_chars_encode_utf8};
use crate::params::opt_view;
use crate::text::push_bytes;
use crate::transport::{
    base64_byte, base64_standard, encode_base64, header_fields, header_value_bytes,
    has_header, join_ok, joined_url, parsed_url, try_insert_header, url_parses,
    valid_header_bytes,
};

verus! {

/// The name and version that identify this library to servers.
pub const DEFAULT_USER_AGENT: &'static str = "nftscape/0.1.0";

/// The media type that every request accepts.
pub const ACCEPT_JSON: &'static str = "application/json";

/// Why a builder step failed.
#[derive(Debug)]
pub enum BuildError {
    /// The credentials are too long to be encoded.
    Encoding,
    /// The header map cannot take another entry.
    HeadersFull,
    /// The user agent holds bytes that a header value cannot hold.
    InvalidUserAgent,
    /// The base address is not an absolute URL.
    InvalidBaseUrl(ParseError),
    /// The HTTP client could not be constructed.
    Client(reqwest::Error),
}

/// An immutable handle on one API: a shared HTTP client and a base address.
#[derive(Clone, Debug)]
pub struct ApiClient {
    /// The client that executes the HTTP requests.
    client: Arc<reqwest::Client>,
    /// Base URL of the endpoints.
    base_path: Url,
}

impl ApiClient {
    /// The shared HTTP client.
    pub closed spec fn spec_client(self) -> Arc<reqwest::Client> {
        self.client
    }

    /// The base address.
    pub closed spec fn spec_base_path(self) -> Url {
        self.base_path
    }

    pub fn new(client: Arc<reqwest::Client>, base_path: Url) -> (r: Self)
        ensures
            r.spec_client() == client,
            r.spec_base_path() == base_path,
    {
        ApiClient { client, base_path }
    }

    /// Resolves an endpoint path against the base address.
    pub fn join_url(&self, path: &str) -> (r: Result<Url, ParseError>)
        ensures
            r is Ok <==> join_ok(self.spec_base_path(), path@),
            r matches Ok(u) ==> u == joined_url(self.spec_base_path(), path@),
    {
        self.base_path.join(path)
    }

    /// A builder with nothing staged.
    pub fn builder() -> (r: ApiClientBuilder)
        ensures
            r.staged_user_agent() is None,
            r.staged_client() is None,
            r.staged_headers() is None,
    {
        ApiClientBuilder::default()
    }

    pub fn base_path(&self) -> (r: &Url)
        ensures
            *r == self.spec_base_path(),
    {
        &self.base_path
    }

    pub fn client(&self) -> (r: &Arc<reqwest::Client>)
        ensures
            *r == self.spec_client(),
    {
        &self.client
    }
}

/// Stages the parts of an `ApiClient`; `build` finishes it.
#[derive(Clone, Debug)]
pub struct ApiClientBuilder {
    user_agent: Option<String>,
    client: Option<Arc<reqwest::Client>>,
    headers: Option<HeaderMap>,
}

/// The bytes `Basic ` that open a basic authorization value.
pub open spec fn basic_prefix() -> Seq<u8> {
    seq![66u8, 97u8, 115u8, 105u8, 99u8, 32u8]
}

/// The bytes `user:password` (or `user:` without a password).
pub open spec fn credentials(username: Seq<char>, password: Option<Seq<char>>) -> Seq<u8> {
    encode_utf8(username) + seq![58u8] + match password {
        Some(p) => encode_utf8(p),
        None => Seq::<u8>::empty(),
    }
}

/// The value of a basic authorization header for some credentials.
pub open spec fn basic_auth_value(username: Seq<char>, password: Option<Seq<char>>) -> Seq<u8> {
    basic_prefix() + base64_standard(credentials(username, password))
}

/// What a header map holds, counting a missing map as an empty one.
pub open spec fn staged_fields(headers: Option<HeaderMap>) -> Map<Seq<char>, Seq<Seq<u8>>> {
    match headers {
        Some(h) => header_fields(h),
        None => Map::empty(),
    }
}

/// A staged header map (or none) with room for the few names the builder sets.
pub open spec fn headers_have_room(headers: Option<HeaderMap>) -> bool {
    staged_fields(headers).dom().finite() && staged_fields(headers).dom().len() < 4000
}

/// The staged headers with the staged user agent set, or, where none is
/// staged and the map has no `user-agent` entry, the library's name and version.
pub open spec fn fields_with_agent(
    headers: Option<HeaderMap>,
    user_agent: Option<Seq<char>>,
) -> Map<Seq<char>, Seq<Seq<u8>>> {
    let base = staged_fields(headers);
    match user_agent {
        Some(ua) => base.insert("user-agent"@, seq![encode_utf8(ua)]),
        None => if base.contains_key("user-agent"@) {
            base
        } else {
            base.insert("user-agent"@, seq![encode_utf8(DEFAULT_USER_AGENT@)])
        },
    }
}

/// The headers a finished builder sends by default: the staged ones; the user
/// agent as `fields_with_agent` says; and the JSON accept type where the map
/// has no `accept` entry. Values the caller staged win over the defaults.
pub open spec fn finished_fields(
    headers: Option<HeaderMap>,
    user_agent: Option<Seq<char>>,
) -> Map<Seq<char>, Seq<Seq<u8>>> {
    let with_agent = fields_with_agent(headers, user_agent);
    if with_agent.contains_key("accept"@) {
        with_agent
    } else {
        with_agent.insert("accept"@, seq![encode_utf8(ACCEPT_JSON@)])
    }
}

/// Whether a staged user agent can be sent as a header value.
pub open spec fn user_agent_ok(user_agent: Option<Seq<char>>) -> bool {
    match user_agent {
        Some(ua) => valid_header_bytes(encode_utf8(ua)),
        None => true,
    }
}

impl Default for ApiClientBuilder {
    fn default() -> (r: Self)
        ensures
            r.staged_user_agent() is None,
            r.staged_client() is None,
            r.staged_headers() is None,
    {
        ApiClientBuilder { user_agent: None, client: None, headers: None }
    }
}

impl ApiClientBuilder {
    /// The staged user agent, as text.
    pub closed spec fn staged_user_agent(self) -> Option<Seq<char>> {
        match self.user_agent {
            Some(ua) => Some(ua@),
            None => None,
        }
    }

    /// The injected HTTP client.
    pub closed spec fn staged_client(self) -> Option<Arc<reqwest::Client>> {
        self.client
    }

    /// The staged header map.
    pub closed spec fn staged_headers(self) -> Option<HeaderMap> {
        self.headers
    }

    /// Replaces the staged header map.
    pub fn headers(self, headers: HeaderMap) -> (r: Self)
        ensures
            r.staged_headers() == Some(headers),
            r.staged_user_agent() == self.staged_user_agent(),
            r.staged_client() == self.staged_client(),
    {
        let mut this = self;
        this.headers = Some(headers);
        this
    }

    /// The staged header map, created empty where there was none.
    pub fn headers_mut(&mut self) -> (r: &mut HeaderMap)
        ensures
            staged_fields(old(self).staged_headers()) == header_fields(*r),
            old(self).staged_headers() matches Some(h) ==> *r == h,
            final(self).staged_headers() == Some(*final(r)),
            final(self).staged_user_agent() == old(self).staged_user_agent(),
            final(self).staged_client() == old(self).staged_client(),
    {
        self.headers.get_or_insert(HeaderMap::new())
    }

    /// Stages the user agent to send instead of the library's own.
    pub fn user_agent(self, user_agent: &str) -> (r: Self)
        ensures
            r.staged_user_agent() == Some(user_agent@),
            r.staged_headers() == self.staged_headers(),
            r.staged_client() == self.staged_client(),
    {
        let mut this = self;
        this.user_agent = Some(user_agent.to_owned());
        this
    }

    /// Injects a ready HTTP client, to be used as it is.
    pub fn client(self, client: Arc<reqwest::Client>) -> (r: Self)
        ensures
            r.staged_client() == Some(client),
            r.staged_headers() == self.staged_headers(),
            r.staged_user_agent() == self.staged_user_agent(),
    {
        let mut this = self;
        this.client = Some(client);
        this
    }

    /// Sets the `Authorization` header to `Basic ` and the Base64 encoding of
    /// `username:password` (of `username:` without a password).
    pub fn basic_auth(self, username: &str, password: Option<&str>) -> (r: Result<
        Self,
        BuildError,
    >)
        ensures
            ({
                let pw = opt_view(password);
                &&& credentials(username@, pw).len() > usize::MAX / 2 <==> (r is Err
                    && r->Err_0 is Encoding)
                &&& r matches Ok(b) ==> {
                    &&& b.staged_headers() matches Some(h)
                    &&& header_fields(h) == staged_fields(self.staged_headers()).insert(
                        "authorization"@,
                        seq![basic_auth_value(username@, pw)],
                    )
                    &&& b.staged_user_agent() == self.staged_user_agent()
                    &&& b.staged_client() == self.staged_client()
                }
                &&& r is Err ==> (r->Err_0 is Encoding || r->Err_0 is HeadersFull)
                &&& credentials(username@, pw).len() <= usize::MAX / 2 && headers_have_room(
                    self.staged_headers(),
                ) ==> r is Ok
            }),
    {
        let ghost pw = opt_view(password);
        let user_bytes = username.as_bytes();
        let pass_len: usize = match password {
            Some(p) => p.as_bytes().len(),
            None => 0,
        };
        if user_bytes.len() >= usize::MAX / 2 || pass_len > usize::MAX / 2 - user_bytes.len() - 1 {
            return Err(BuildError::Encoding);
        }
        let mut cred: Vec<u8> = Vec::new();
        push_bytes(&mut cred, user_bytes);
        cred.push(58u8);
        match password {
            Some(p) => push_bytes(&mut cred, p.as_bytes()),
            None => {},
        }
        assert(cred@ =~= credentials(username@, pw));
        let mut encoded = encode_base64(cred.as_slice());
        let mut value: Vec<u8> = vec![66u8, 97u8, 115u8, 105u8, 99u8, 32u8];
        assert(value@ =~= basic_prefix());
        value.append(&mut encoded);
        assert(value@ =~= basic_auth_value(username@, pw));
        assert(valid_header_bytes(value@)) by {
            assert forall|i: int| 0 <= i < value@.len() implies crate::transport::header_value_byte(
                #[trigger] value@[i],
            ) by {
                if i >= 6 {
                    assert(value@[i] == base64_standard(cred@)[i - 6]);
                    assert(base64_byte(base64_standard(cred@)[i - 6]));
                }
            }
        }
        let header = match HeaderValue::from_bytes(value.as_slice()) {
            Ok(v) => v,
            Err(_) => {
                proof { assert(false); }
                return Err(BuildError::Encoding);
            },
        };
        let mut this = self;
        proof { reveal_strlit("authorization"); }
        let inserted = try_insert_header(this.headers_mut(), "authorization", header);
        match inserted {
            Ok(_) => Ok(this),
            Err(_) => Err(BuildError::HeadersFull),
        }
    }
}

/// Printable ASCII text encodes to bytes that a header value may hold.
proof fn lemma_printable_is_header_value(s: Seq<char>)
    requires
        forall|i: int| 0 <= i < s.len() ==> ' ' <= #[trigger] s[i] && s[i] <= '~',
    ensures
        valid_header_bytes(encode_utf8(s)),
{
    assert(is_ascii_chars(s));
    is_ascii_chars_encode_utf8(s);
    assert forall|i: int| 0 <= i < encode_utf8(s).len() implies crate::transport::header_value_byte(
        #[trigger] encode_utf8(s)[i],
    ) by {
        assert(s[i] as u8 == encode_utf8(s)[i]);
    }
}

impl ApiClientBuilder {
    /// Sets the default headers on the staged map (creating it where there is
    /// none): the staged user agent, or else, where the map has none, the
    /// library's name and version; and the JSON accept type where the map has
    /// no accept entry.
    pub fn finish_headers(&mut self) -> (r: Result<(), BuildError>)
        ensures
            (r is Err && r->Err_0 is InvalidUserAgent) <==> !user_agent_ok(
                old(self).staged_user_agent(),
            ),
            r is Err ==> (r->Err_0 is InvalidUserAgent || r->Err_0 is HeadersFull),
            user_agent_ok(old(self).staged_user_agent()) && headers_have_room(
                old(self).staged_headers(),
            ) ==> r is Ok,
            r is Ok ==> {
                &&& final(self).staged_headers() matches Some(h)
                &&& header_fields(h) == finished_fields(
                    old(self).staged_headers(),
                    old(self).staged_user_agent(),
                )
            },
            final(self).staged_user_agent() == old(self).staged_user_agent(),
            final(self).staged_client() == old(self).staged_client(),
    {
        let staged_agent = match &self.user_agent {
            Some(ua) => match HeaderValue::from_bytes(ua.as_str().as_bytes()) {
                Ok(v) => Some(v),
                Err(_) => {
                    return Err(BuildError::InvalidUserAgent);
                },
            },
            None => None,
        };
        proof {
            reveal_strlit("user-agent");
            reveal_strlit("accept");
            reveal_strlit("nftscape/0.1.0");
            reveal_strlit("application/json");
            lemma_printable_is_header_value(DEFAULT_USER_AGENT@);
            lemma_printable_is_header_value(ACCEPT_JSON@);
            broadcast use vstd::set::axiom_set_insert_len, vstd::set::axiom_set_insert_finite;
        }
        let ghost start = staged_fields(self.headers);
        let headers = self.headers_mut();
        let agent = match staged_agent {
            Some(v) => Some(v),
            None => {
                if has_header(headers, "user-agent") {
                    None
                } else {
                    match HeaderValue::from_bytes(DEFAULT_USER_AGENT.as_bytes()) {
                        Ok(v) => Some(v),
                        Err(_) => {
                            proof { assert(false); }
                            None
                        },
                    }
                }
            },
        };
        match agent {
            Some(v) => {
                proof {
                    let f = header_fields(*headers);
                    assert(f.insert("user-agent"@, seq![header_value_bytes(v)]).dom()
                        == f.dom().insert("user-agent"@));
                }
                match try_insert_header(headers, "user-agent", v) {
                    Ok(_) => {},
                    Err(_) => {
                        return Err(BuildError::HeadersFull);
                    },
                }
            },
            None => {},
        }
        assert(header_fields(*headers) == fields_with_agent(
            old(self).staged_headers(),
            old(self).staged_user_agent(),
        ));
        if has_header(headers, "accept") {
            return Ok(());
        }
        let accept = match HeaderValue::from_bytes(ACCEPT_JSON.as_bytes()) {
            Ok(v) => v,
            Err(_) => {
                proof { assert(false); }
                return Err(BuildError::HeadersFull);
            },
        };
        match try_insert_header(headers, "accept", accept) {
            Ok(_) => Ok(()),
            Err(_) => Err(BuildError::HeadersFull),
        }
    }

    /// Finishes the client: parses the base address, sets the default
    /// headers, and builds an HTTP client from them unless one was injected.
    pub fn build(self, base_path: &str) -> (r: Result<ApiClient, BuildError>)
        ensures
            !url_parses(base_path@) <==> (r is Err && r->Err_0 is InvalidBaseUrl),
            (url_parses(base_path@) && !user_agent_ok(self.staged_user_agent())) <==> (r is Err
                && r->Err_0 is InvalidUserAgent),
            r is Err && r->Err_0 is Client ==> self.staged_client() is None,
            r is Ok ==> url_parses(base_path@) && user_agent_ok(self.staged_user_agent()),
            r is Ok && self.staged_client() is Some ==> r->Ok_0.spec_client()
                == self.staged_client()->Some_0,
            url_parses(base_path@) && user_agent_ok(self.staged_user_agent()) && headers_have_room(
                self.staged_headers(),
            ) && self.staged_client() is Some ==> r is Ok,
            url_parses(base_path@) && user_agent_ok(self.staged_user_agent()) && headers_have_room(
                self.staged_headers(),
            ) ==> (r is Ok || r->Err_0 is Client),
            r is Ok ==> r->Ok_0.spec_base_path() == parsed_url(base_path@),
    {
        let url = match Url::parse(base_path) {
            Ok(u) => u,
            Err(e) => {
                return Err(BuildError::InvalidBaseUrl(e));
            },
        };
        let mut this = self;
        match this.finish_headers() {
            Ok(()) => {},
            Err(e) => {
                return Err(e);
            },
        }
        let ApiClientBuilder { user_agent: _, client, headers } = this;
        let client = match client {
            Some(c) => c,
            None => {
                let defaults = match headers {
                    Some(h) => h,
                    None => HeaderMap::new(),
                };
                match reqwest::Client::builder().default_headers(defaults).build() {
                    Ok(c) => Arc::new(c),
                    Err(e) => {
                        return Err(BuildError::Client(e));
                    },
                }
            },
        };
        Ok(ApiClient::new(client, url))
    }
}

/// A staged user agent is sent in place of the library's own, whatever the
/// staged header map held under that name.
pub proof fn lemma_staged_user_agent_wins(headers: Option<HeaderMap>, user_agent: Seq<char>)
    ensures
        finished_fields(headers, Some(user_agent))["user-agent"@] == seq![encode_utf8(user_agent)],
{
    reveal_strlit("user-agent");
    reveal_strlit("accept");
    assert("user-agent"@.len() != "accept"@.len());
}

/// Where no user agent is staged and the staged map sets neither name, a
/// finished builder sends the library's name and version as its user agent,
/// and accepts JSON.
pub proof fn lemma_default_headers(headers: Option<HeaderMap>)
    requires
        !staged_fields(headers).contains_key("user-agent"@),
        !staged_fields(headers).contains_key("accept"@),
    ensures
        finished_fields(headers, None)["user-agent"@] == seq![encode_utf8("nftscape/0.1.0"@)],
        finished_fields(headers, None)["accept"@] == seq![encode_utf8("application/json"@)],
{
    reveal_strlit("user-agent");
    reveal_strlit("accept");
    assert("user-agent"@.len() != "accept"@.len());
}

/// Headers staged in the map win over the defaults: a staged `accept` entry is
/// kept, and so is a staged `user-agent` entry where no user agent is staged.
/// Every other staged name keeps its values.
pub proof fn lemma_staged_headers_win(headers: Option<HeaderMap>, name: Seq<char>)
    requires
        staged_fields(headers).contains_key(name),
        name != "user-agent"@,
    ensures
        finished_fields(headers, None)[name] == staged_fields(headers)[name],
        finished_fields(headers, None).contains_key("user-agent"@),
        staged_fields(headers).contains_key("user-agent"@) ==> finished_fields(headers, None)[
            "user-agent"@] == staged_fields(headers)["user-agent"@],
{
    reveal_strlit("user-agent");
    reveal_strlit("accept");
    assert("user-agent"@.len() != "accept"@.len());
}

} // verus!
