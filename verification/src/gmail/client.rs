use vstd::prelude::*;

verus! {

/// Address of Gmail's Atom feed of unread mail.
pub const FEED_URL: &'static str = "https://mail.google.com/mail/feed/atom";

/// `User-Agent` header sent with each feed request.
pub const USER_AGENT: &'static str = "Mozilla/5.0 (Macintosh; Intel Mac OS X 10_15_7) AppleWebKit/537.36 (KHTML, like Gecko) Chrome/120.0.0.0 Safari/537.36";

#[verifier::external_type_specification]
#[verifier::external_body]
pub struct ExHttpClient(reqwest::Client);

#[verifier::external_type_specification]
#[verifier::external_body]
pub struct ExHttpClientBuilder(reqwest::ClientBuilder);

#[verifier::external_type_specification]
#[verifier::external_body]
pub struct ExHttpProxy(reqwest::Proxy);

#[verifier::external_type_specification]
#[verifier::external_body]
pub struct ExHttpError(reqwest::Error);

/// Whether `reqwest::Proxy::all` accepts `url` as a proxy address (it parses
/// it as a URL, adding `http://` where no scheme is given).
pub uninterp spec fn proxy_address_accepted(url: Seq<char>) -> bool;

/// A `reqwest::Proxy` with the address it was made from.
pub struct HttpProxy {
    proxy: reqwest::Proxy,
    address: Ghost<Seq<char>>,
}

impl HttpProxy {
    /// The address the proxy was made from.
    pub closed spec fn address(&self) -> Seq<char> {
        self.address@
    }
}

/// A `reqwest::ClientBuilder` with the proxy address that was added to it, if
/// any. `None` means that no proxy was added by this library; reqwest then
/// follows its own defaults (the system's proxy settings).
pub struct HttpClientBuilder {
    builder: reqwest::ClientBuilder,
    added_proxy: Ghost<Option<Seq<char>>>,
}

impl HttpClientBuilder {
    /// The proxy address added to the builder, if any.
    pub closed spec fn added_proxy(&self) -> Option<Seq<char>> {
        self.added_proxy@
    }
}

/// A `reqwest::Client` with the proxy address that was added to the builder
/// it was built from, if any.
pub struct HttpClient {
    client: reqwest::Client,
    added_proxy: Ghost<Option<Seq<char>>>,
}

impl HttpClient {
    /// The proxy address added to the builder of this client, if any.
    pub closed spec fn added_proxy(&self) -> Option<Seq<char>> {
        self.added_proxy@
    }

    /// The reqwest client itself.
    pub closed spec fn reqwest_client(&self) -> reqwest::Client {
        self.client
    }
}

/// `reqwest::Client::builder`: a builder with default settings, to which no
/// proxy has been added.
#[verifier::external_body]
fn http_client_builder() -> (r: HttpClientBuilder)
    ensures
        r.added_proxy() is None,
{
    HttpClientBuilder { builder: reqwest::Client::builder(), added_proxy: Ghost(None) }
}

/// `reqwest::Proxy::all`: a proxy for all traffic, http and https alike. The
/// contract claims that whether it succeeds depends on the address alone, and
/// records the address the proxy was made from.
#[verifier::external_body]
fn proxy_for_all_traffic(url: String) -> (r: Result<HttpProxy, reqwest::Error>)
    ensures
        r is Ok <==> proxy_address_accepted(url@),
        r matches Ok(p) ==> p.address() == url@,
{
    let address = Ghost(url@);
    match reqwest::Proxy::all(url) {
        Ok(proxy) => Ok(HttpProxy { proxy, address }),
        Err(e) => Err(e),
    }
}

/// `reqwest::ClientBuilder::proxy`: appends `proxy` to the proxies that the
/// built client tries in order. Only on a builder to which no proxy was added
/// yet does the new one become the proxy that all traffic goes through, so the
/// contract asks for such a builder and records the address.
#[verifier::external_body]
fn builder_with_proxy(builder: HttpClientBuilder, proxy: HttpProxy) -> (r: HttpClientBuilder)
    requires
        builder.added_proxy() is None,
    ensures
        r.added_proxy() == Some(proxy.address()),
{
    HttpClientBuilder { builder: builder.builder.proxy(proxy.proxy), added_proxy: Ghost(Some(proxy.address@)) }
}

/// `reqwest::ClientBuilder::build`. Whether it succeeds is not stated: it can
/// fail for reasons of the machine (the TLS backend, the system configuration).
/// A built client carries the proxy that was added to its builder.
#[verifier::external_body]
fn build_http_client(builder: HttpClientBuilder) -> (r: Result<HttpClient, reqwest::Error>)
    ensures
        r matches Ok(c) ==> c.added_proxy() == builder.added_proxy(),
{
    let added_proxy = Ghost(builder.added_proxy@);
    match builder.builder.build() {
        Ok(client) => Ok(HttpClient { client, added_proxy }),
        Err(e) => Err(e),
    }
}

/// `reqwest::Client::clone`: the derived clone over reqwest's shared
/// reference; the copy is the same client, on the same connection pool.
#[verifier::external_body]
fn clone_http_client(client: &reqwest::Client) -> (r: reqwest::Client)
    ensures
        r == *client,
{
    client.clone()
}

impl Clone for HttpClient {
    fn clone(&self) -> (r: Self)
        ensures
            r == *self,
    {
        HttpClient { client: clone_http_client(&self.client), added_proxy: Ghost(self.added_proxy@) }
    }
}

/// The proxy that a client is built with for a configured proxy address: an
/// empty address means no proxy.
pub open spec fn effective_proxy(proxy_url: Option<Seq<char>>) -> Option<Seq<char>> {
    match proxy_url {
        Some(url) => if url.len() > 0 {
            Some(url)
        } else {
            None
        },
        None => None,
    }
}

/// Copies an optional string.
pub fn clone_optional_string(s: &Option<String>) -> (r: Option<String>)
    ensures
        r == *s,
        r.deep_view() == s.deep_view(),
{
    match s {
        Some(text) => Some(text.clone()),
        None => None,
    }
}

/// Why no HTTP client could be made.
#[derive(Debug)]
pub enum ClientError {
    /// The configured proxy address was refused.
    InvalidProxy(reqwest::Error),
    /// The HTTP client could not be built.
    Build(reqwest::Error),
}

/// An HTTP client for the Gmail feed, with the proxy address it was built with.
pub struct GmailClient {
    client: HttpClient,
    proxy: Option<String>,
}

impl GmailClient {
    /// The recorded proxy address is the one added to the HTTP client.
    #[verifier::type_invariant]
    spec fn proxy_recorded(self) -> bool {
        self.client.added_proxy() == self.proxy.deep_view()
    }

    /// The proxy address that was added to the HTTP client when it was built,
    /// if any.
    pub closed spec fn applied_proxy(&self) -> Option<Seq<char>> {
        self.client.added_proxy()
    }

    /// Builds a client that goes through `proxy_url` where that is a
    /// non-empty address, and adds no proxy otherwise.
    pub fn new(proxy_url: Option<String>) -> (r: Result<GmailClient, ClientError>)
        ensures
            r matches Ok(c) ==> c.applied_proxy() == effective_proxy(proxy_url.deep_view()),
            r matches Err(ClientError::InvalidProxy(_)) <==> (effective_proxy(
                proxy_url.deep_view(),
            ) matches Some(url) && !proxy_address_accepted(url)),
    {
        let mut builder = http_client_builder();
        let mut applied: Option<String> = None;
        match proxy_url {
            Some(url) => {
                if !url.as_str().is_empty() {
                    let proxy = match proxy_for_all_traffic(url.clone()) {
                        Ok(p) => p,
                        Err(e) => return Err(ClientError::InvalidProxy(e)),
                    };
                    builder = builder_with_proxy(builder, proxy);
                    applied = Some(url);
                }
            },
            None => {},
        }
        match build_http_client(builder) {
            Ok(client) => Ok(GmailClient { client, proxy: applied }),
            Err(e) => Err(ClientError::Build(e)),
        }
    }

    /// The reqwest client that this value holds: the one built by `new`.
    pub closed spec fn http_client(&self) -> reqwest::Client {
        self.client.reqwest_client()
    }

    /// The underlying HTTP client, through which the feed is requested.
    pub fn http(&self) -> (r: &reqwest::Client)
        ensures
            *r == self.http_client(),
    {
        &self.client.client
    }

    /// The proxy address the client goes through, if any.
    pub fn proxy_addr(&self) -> (r: &Option<String>)
        ensures
            r.deep_view() == self.applied_proxy(),
    {
        proof {
            use_type_invariant(self);
        }
        &self.proxy
    }
}

impl Clone for GmailClient {
    fn clone(&self) -> (r: Self)
        ensures
            r == *self,
    {
        proof {
            use_type_invariant(self);
        }
        GmailClient { client: self.client.clone(), proxy: clone_optional_string(&self.proxy) }
    }
}

} // verus!
