//! Low-level access to the OVH API: credentials, the clock offset, and the
//! signed requests that are made from them.

use vstd::prelude::*;
use vstd::string::*;

use crate::config::{credentials_from_ini, read_ini, spec_from_conf, CONF_TEXT_LIMIT};
use crate::decimal::{i64_to_string, parse_u64, signed_decimal, spec_parse_u64};
use crate::endpoint::{endpoint_base, endpoint_url, is_endpoint_base};
use crate::error::{OvhError, OvhErrorView};
use crate::request::{
    header_views, reply_view, Header, HeaderView, Method, Reply, Request, RequestView,
};
use crate::signature::{is_signature, signature, SignedFields};

verus! {

/// A resolved endpoint with the keys to use on it: what a client is made
/// from, once the offset between the two clocks is known.
///
/// The keys stay in memory. The type cannot be printed, and no error holds
/// any of them.
pub struct Credentials {
    endpoint: String,
    application_key: String,
    application_secret: String,
    consumer_key: String,
}

/// [`Credentials`] with their texts as character sequences; `endpoint` is
/// the base URL.
pub struct CredentialsView {
    pub endpoint: Seq<char>,
    pub application_key: Seq<char>,
    pub application_secret: Seq<char>,
    pub consumer_key: Seq<char>,
}

impl View for Credentials {
    type V = CredentialsView;

    closed spec fn view(&self) -> CredentialsView {
        CredentialsView {
            endpoint: self.endpoint@,
            application_key: self.application_key@,
            application_secret: self.application_secret@,
            consumer_key: self.consumer_key@,
        }
    }
}

/// A client of the API: credentials, and the offset between the local
/// clock and the server's, measured once when the client was made.
pub struct OvhClient {
    credentials: Credentials,
    time_delta: i64,
}

/// An [`OvhClient`] as a mathematical value.
pub struct ClientView {
    pub credentials: CredentialsView,
    pub time_delta: i64,
}

impl View for OvhClient {
    type V = ClientView;

    closed spec fn view(&self) -> ClientView {
        ClientView { credentials: self.credentials@, time_delta: self.time_delta }
    }
}

/// The header that every request carries: the application key, which is
/// no secret.
pub open spec fn default_headers(application_key: Seq<char>) -> Seq<HeaderView> {
    seq![HeaderView { name: "X-Ovh-Application"@, value: application_key, sensitive: false }]
}

/// The offset between the clocks, local minus remote, from the local time
/// and the text in which the server sent its own.
pub open spec fn spec_clock_offset(local_time: u64, server_time: Seq<char>) -> Result<
    i64,
    OvhErrorView,
> {
    match spec_parse_u64(server_time) {
        None => Err(OvhErrorView::ParseError),
        Some(remote) => if i64::MIN <= local_time - remote <= i64::MAX {
            Ok((local_time - remote) as i64)
        } else {
            Err(OvhErrorView::OutOfRange)
        },
    }
}

/// Computes the offset between the clocks, local minus remote.
///
/// `ParseError` where the server's text is no unsigned decimal numeral of
/// 64 bits; `OutOfRange` where the difference does not fit in an `i64`.
pub fn clock_offset(local_time: u64, server_time: &str) -> (r: Result<i64, OvhError>)
    ensures
        match r {
            Ok(offset) => spec_clock_offset(local_time, server_time@) == Ok::<i64, OvhErrorView>(
                offset,
            ),
            Err(e) => spec_clock_offset(local_time, server_time@) == Err::<i64, OvhErrorView>(e@),
        },
{
    match parse_u64(server_time) {
        None => Err(OvhError::ParseError),
        Some(remote) => {
            if local_time >= remote {
                let ahead: u64 = local_time - remote;
                if ahead > i64::MAX as u64 {
                    Err(OvhError::OutOfRange)
                } else {
                    Ok(ahead as i64)
                }
            } else {
                let behind: u64 = remote - local_time;
                if behind > 0x8000_0000_0000_0000u64 {
                    Err(OvhError::OutOfRange)
                } else if behind == 0x8000_0000_0000_0000u64 {
                    Ok(i64::MIN)
                } else {
                    Ok(-(behind as i64))
                }
            }
        },
    }
}

impl CredentialsView {
    /// The URL of a path on the endpoint.
    pub open spec fn url(self, path: Seq<char>) -> Seq<char> {
        self.endpoint + path
    }

    /// The request for a path that carries no signature.
    pub open spec fn plain_request(self, path: Seq<char>) -> RequestView {
        RequestView {
            method: Method::Get,
            url: self.url(path),
            headers: default_headers(self.application_key),
            body: Seq::empty(),
        }
    }

    /// What comes of the credentials once the server's clock was asked:
    /// a client with the offset, or the error that ends the construction.
    /// Of the server's answer the body counts, whatever the status.
    pub open spec fn synchronized(
        self,
        local_time: u64,
        reply: Result<(u16, Seq<char>), OvhErrorView>,
    ) -> Result<ClientView, OvhErrorView> {
        match reply {
            Err(e) => Err(e),
            Ok((_, server_time)) => match spec_clock_offset(local_time, server_time) {
                Err(e) => Err(e),
                Ok(offset) => Ok(ClientView { credentials: self, time_delta: offset }),
            },
        }
    }
}

impl ClientView {
    /// The time that a request made at `now` is stamped with: the local
    /// time plus the offset. `None` where the local time or the sum is
    /// beyond an `i64`.
    pub open spec fn timestamp(self, now: u64) -> Option<i64> {
        if now <= i64::MAX && now + self.time_delta <= i64::MAX {
            Some((now + self.time_delta) as i64)
        } else {
            None
        }
    }

    /// The six texts that the signature of a request is computed from.
    pub open spec fn signed_fields(
        self,
        method: Method,
        url: Seq<char>,
        body: Seq<char>,
        timestamp: i64,
    ) -> SignedFields {
        SignedFields {
            application_secret: self.credentials.application_secret,
            consumer_key: self.credentials.consumer_key,
            method: method.name(),
            url,
            body,
            timestamp: signed_decimal(timestamp as int),
        }
    }

    /// The headers of a signed request, in the order in which they are
    /// listed: the application key; then the consumer key, the timestamp
    /// and the signature, all three sensitive; then, where there is a
    /// body, its content type.
    pub open spec fn signed_headers(
        self,
        method: Method,
        url: Seq<char>,
        body: Seq<char>,
        timestamp: i64,
    ) -> Seq<HeaderView> {
        let always = seq![
            HeaderView {
                name: "X-Ovh-Application"@,
                value: self.credentials.application_key,
                sensitive: false,
            },
            HeaderView {
                name: "X-Ovh-Consumer"@,
                value: self.credentials.consumer_key,
                sensitive: true,
            },
            HeaderView {
                name: "X-Ovh-Timestamp"@,
                value: signed_decimal(timestamp as int),
                sensitive: true,
            },
            HeaderView {
                name: "X-Ovh-Signature"@,
                value: self.signed_fields(method, url, body, timestamp).signature(),
                sensitive: true,
            },
        ];
        if body.len() > 0 {
            always.push(
                HeaderView {
                    name: "Content-Type"@,
                    value: "application/json; charset=utf-8"@,
                    sensitive: false,
                },
            )
        } else {
            always
        }
    }

    /// The headers of a request for `url` that is made at `now`, or
    /// `OutOfRange` where there is no timestamp for it or its fields are too
    /// long to be signed.
    pub open spec fn headers(self, method: Method, url: Seq<char>, body: Seq<char>, now: u64)
        -> Result<Seq<HeaderView>, OvhErrorView> {
        match self.timestamp(now) {
            None => Err(OvhErrorView::OutOfRange),
            Some(timestamp) => if self.signed_fields(method, url, body, timestamp).signable() {
                Ok(self.signed_headers(method, url, body, timestamp))
            } else {
                Err(OvhErrorView::OutOfRange)
            },
        }
    }

    /// The signed request for a path on the endpoint that is made at `now`.
    pub open spec fn request(self, method: Method, path: Seq<char>, body: Seq<char>, now: u64)
        -> Result<RequestView, OvhErrorView> {
        let url = self.credentials.url(path);
        match self.headers(method, url, body, now) {
            Err(e) => Err(e),
            Ok(headers) => Ok(RequestView { method, url, headers, body }),
        }
    }
}

/// Whether a request carries, as its fourth header, a value with the shape
/// of a signature.
pub open spec fn well_signed(request: RequestView) -> bool {
    request.headers.len() >= 4 && is_signature(request.headers[3].value)
}

/// The path under which the server tells its time.
pub open spec fn time_path() -> Seq<char> {
    "/auth/time"@
}

impl Credentials {
    /// Credentials are only ever made for an endpoint of the table.
    #[verifier::type_invariant]
    spec fn resolved(self) -> bool {
        is_endpoint_base(self.endpoint@)
    }

    /// The base URL of the endpoint: one of those in the table.
    pub fn endpoint(&self) -> (url: &str)
        ensures
            url@ == self@.endpoint,
            is_endpoint_base(url@),
    {
        proof {
            use_type_invariant(self);
        }
        self.endpoint.as_str()
    }

    /// The application key.
    pub fn application_key(&self) -> (key: &str)
        ensures
            key@ == self@.application_key,
    {
        self.application_key.as_str()
    }

    fn url(&self, path: &str) -> (url: String)
        ensures
            url@ == self@.url(path@),
    {
        let mut url = self.endpoint.clone();
        url.append(path);
        url
    }

    fn default_headers(&self) -> (headers: Vec<Header>)
        ensures
            header_views(headers@) == default_headers(self@.application_key),
    {
        let mut headers: Vec<Header> = Vec::new();
        headers.push(Header::plain("X-Ovh-Application", self.application_key.as_str()));
        assert(header_views(headers@) =~= default_headers(self@.application_key));
        headers
    }

    /// A GET request without a signature.
    pub fn get_noauth(&self, path: &str) -> (request: Request)
        ensures
            request@ == self@.plain_request(path@),
    {
        Request {
            method: Method::Get,
            url: self.url(path),
            headers: self.default_headers(),
            body: String::new(),
        }
    }

    /// The request that asks the server for its time. It is the one request
    /// that is made before there is a client, and it carries no signature.
    pub fn time_request(&self) -> (request: Request)
        ensures
            request@ == self@.plain_request(time_path()),
    {
        self.get_noauth("/auth/time")
    }

    /// Makes the client, from the reply to [`Credentials::time_request`]
    /// and the local time, in seconds since the epoch, at which it came.
    ///
    /// The server's status code is not looked at: the body decides. An
    /// error in place of the reply is handed on. A body that is no unsigned
    /// decimal numeral gives `ParseError`, an offset beyond an `i64` gives
    /// `OutOfRange`. There is no client unless the offset is known.
    pub fn synchronize(self, local_time: u64, reply: Reply) -> (r: Result<OvhClient, OvhError>)
        ensures
            match r {
                Ok(client) => self@.synchronized(local_time, reply_view(reply)) == Ok::<
                    ClientView,
                    OvhErrorView,
                >(client@),
                Err(e) => self@.synchronized(local_time, reply_view(reply)) == Err::<
                    ClientView,
                    OvhErrorView,
                >(e@),
            },
    {
        match reply {
            Err(e) => Err(e),
            Ok(response) => match clock_offset(local_time, response.body.as_str()) {
                Err(e) => Err(e),
                Ok(offset) => Ok(OvhClient { credentials: self, time_delta: offset }),
            },
        }
    }
}

/// Resolves an endpoint identifier and keeps the keys with its base URL.
pub open spec fn spec_credentials(
    endpoint: Seq<char>,
    application_key: Seq<char>,
    application_secret: Seq<char>,
    consumer_key: Seq<char>,
) -> Result<CredentialsView, OvhErrorView> {
    match endpoint_base(endpoint) {
        None => Err(OvhErrorView::UnknownEndpoint),
        Some(base) => Ok(
            CredentialsView { endpoint: base, application_key, application_secret, consumer_key },
        ),
    }
}

impl OvhClient {
    /// Begins a client from scratch: resolves the endpoint identifier and
    /// keeps the keys.
    ///
    /// Fails with `UnknownEndpoint`, and only then, when the identifier is
    /// not in the table of endpoints. The client itself comes from
    /// [`Credentials::synchronize`].
    pub fn new(
        endpoint: &str,
        application_key: &str,
        application_secret: &str,
        consumer_key: &str,
    ) -> (r: Result<Credentials, OvhError>)
        ensures
            match r {
                Ok(credentials) => spec_credentials(
                    endpoint@,
                    application_key@,
                    application_secret@,
                    consumer_key@,
                ) == Ok::<CredentialsView, OvhErrorView>(credentials@),
                Err(e) => spec_credentials(
                    endpoint@,
                    application_key@,
                    application_secret@,
                    consumer_key@,
                ) == Err::<CredentialsView, OvhErrorView>(e@),
            },
    {
        match endpoint_url(endpoint) {
            None => Err(OvhError::UnknownEndpoint),
            Some(base) => Ok(
                Credentials {
                    endpoint: String::from_str(base),
                    application_key: String::from_str(application_key),
                    application_secret: String::from_str(application_secret),
                    consumer_key: String::from_str(consumer_key),
                },
            ),
        }
    }

    /// Begins a client from a configuration text: see [`crate::config`] for
    /// its format.
    ///
    /// Fails with `OutOfRange` for a text that is too long to be read, with
    /// `ParseError` for one that is no configuration, with
    /// `MissingConfigKey` for the first required key that is absent, and
    /// with `UnknownEndpoint` where all are there and the endpoint is not in
    /// the table. The client itself comes from [`Credentials::synchronize`].
    pub fn from_conf(text: &str) -> (r: Result<Credentials, OvhError>)
        ensures
            match r {
                Ok(credentials) => spec_from_conf(text@) == Ok::<CredentialsView, OvhErrorView>(
                    credentials@,
                ),
                Err(e) => spec_from_conf(text@) == Err::<CredentialsView, OvhErrorView>(e@),
            },
    {
        let length: usize = text.as_bytes().len();
        if length as u64 >= CONF_TEXT_LIMIT {
            return Err(OvhError::OutOfRange);
        }
        match read_ini(text) {
            Err(_) => Err(OvhError::ParseError),
            Ok(ini) => credentials_from_ini(&ini),
        }
    }

    /// The offset between the clocks, local minus remote, in seconds, as it
    /// was measured when the client was made. It never changes.
    pub fn time_delta(&self) -> (offset: i64)
        ensures
            offset == self@.time_delta,
    {
        self.time_delta
    }

    /// The credentials that the client was made from.
    pub fn credentials(&self) -> (credentials: &Credentials)
        ensures
            credentials@ == self@.credentials,
    {
        &self.credentials
    }

    /// The time that a request made at `now`, in seconds since the epoch,
    /// is stamped with: the local time plus the offset.
    ///
    /// Fails with `OutOfRange`, and only then, when the local time or the
    /// sum is beyond an `i64`.
    pub fn timestamp(&self, now: u64) -> (r: Result<i64, OvhError>)
        ensures
            match r {
                Ok(timestamp) => self@.timestamp(now) == Some(timestamp),
                Err(e) => self@.timestamp(now) is None && e@ == OvhErrorView::OutOfRange,
            },
    {
        if now > i64::MAX as u64 {
            return Err(OvhError::OutOfRange);
        }
        let local: i64 = now as i64;
        if self.time_delta > i64::MAX - local {
            return Err(OvhError::OutOfRange);
        }
        Ok(local + self.time_delta)
    }

    /// Signs a request with the client's secret and consumer key.
    ///
    /// Fails with `OutOfRange`, and only then, when the fields are too long
    /// to be signed.
    pub fn signature(&self, url: &str, timestamp: &str, method: &str, body: &str) -> (r: Result<
        String,
        OvhError,
    >)
        ensures
            ({
                let fields = SignedFields {
                    application_secret: self@.credentials.application_secret,
                    consumer_key: self@.credentials.consumer_key,
                    method: method@,
                    url: url@,
                    body: body@,
                    timestamp: timestamp@,
                };
                match r {
                    Ok(signature) => {
                        &&& fields.signable()
                        &&& signature@ == fields.signature()
                        &&& is_signature(signature@)
                    },
                    Err(e) => !fields.signable() && e@ == OvhErrorView::OutOfRange,
                }
            }),
    {
        signature(
            self.credentials.application_secret.as_str(),
            self.credentials.consumer_key.as_str(),
            method,
            url,
            body,
            timestamp,
        )
    }

    /// The headers of a signed request for `url` that is made at `now`, in
    /// seconds since the epoch.
    ///
    /// Fails with `OutOfRange`, and only then, when there is no timestamp
    /// for `now` or the fields are too long to be signed.
    pub fn gen_headers(&self, url: &str, method: Method, body: &str, now: u64) -> (r: Result<
        Vec<Header>,
        OvhError,
    >)
        ensures
            match r {
                Ok(headers) => {
                    &&& self@.headers(method, url@, body@, now) == Ok::<
                        Seq<HeaderView>,
                        OvhErrorView,
                    >(header_views(headers@))
                    &&& is_signature(header_views(headers@)[3].value)
                },
                Err(e) => self@.headers(method, url@, body@, now) == Err::<
                    Seq<HeaderView>,
                    OvhErrorView,
                >(e@),
            },
    {
        let timestamp = match self.timestamp(now) {
            Ok(timestamp) => timestamp,
            Err(e) => {
                return Err(e);
            },
        };
        let stamp = i64_to_string(timestamp);
        let signature = match self.signature(url, stamp.as_str(), method.as_str(), body) {
            Ok(signature) => signature,
            Err(e) => {
                return Err(e);
            },
        };
        let mut headers = self.credentials.default_headers();
        assert(header_views(headers@).len() == 1);
        assert(header_views(headers@)[0] == headers@[0]@);
        headers.push(Header::sensitive("X-Ovh-Consumer", self.credentials.consumer_key.as_str()));
        headers.push(Header::sensitive("X-Ovh-Timestamp", stamp.as_str()));
        headers.push(Header::sensitive("X-Ovh-Signature", signature.as_str()));
        if !body.is_empty() {
            headers.push(Header::plain("Content-Type", "application/json; charset=utf-8"));
        }
        proof {
            let expected = self@.signed_headers(method, url@, body@, timestamp);
            let listed = header_views(headers@);
            assert(listed.len() == expected.len());
            assert forall|i: int| 0 <= i < listed.len() implies listed[i] == expected[i] by {
                assert(listed[i] == headers@[i]@);
            }
            assert(listed =~= expected);
        }
        Ok(headers)
    }

    /// The signed request for a path on the endpoint, made at `now`, in
    /// seconds since the epoch. An empty body is no body.
    ///
    /// Fails with `OutOfRange`, and only then, when there is no timestamp
    /// for `now` or the fields are too long to be signed.
    pub fn request(&self, method: Method, path: &str, body: &str, now: u64) -> (r: Result<
        Request,
        OvhError,
    >)
        ensures
            match r {
                Ok(request) => self@.request(method, path@, body@, now) == Ok::<
                    RequestView,
                    OvhErrorView,
                >(request@) && well_signed(request@),
                Err(e) => self@.request(method, path@, body@, now) == Err::<
                    RequestView,
                    OvhErrorView,
                >(e@),
            },
    {
        let url = self.credentials.url(path);
        match self.gen_headers(url.as_str(), method, body, now) {
            Err(e) => Err(e),
            Ok(headers) => Ok(Request { method, url, headers, body: String::from_str(body) }),
        }
    }

    /// A signed GET request.
    pub fn get(&self, path: &str, now: u64) -> (r: Result<Request, OvhError>)
        ensures
            match r {
                Ok(request) => self@.request(Method::Get, path@, Seq::empty(), now) == Ok::<
                    RequestView,
                    OvhErrorView,
                >(request@) && well_signed(request@),
                Err(e) => self@.request(Method::Get, path@, Seq::empty(), now) == Err::<
                    RequestView,
                    OvhErrorView,
                >(e@),
            },
    {
        proof {
            reveal_strlit("");
            assert(""@ =~= Seq::<char>::empty());
        }
        self.request(Method::Get, path, "", now)
    }

    /// A signed DELETE request.
    pub fn delete(&self, path: &str, now: u64) -> (r: Result<Request, OvhError>)
        ensures
            match r {
                Ok(request) => self@.request(Method::Delete, path@, Seq::empty(), now) == Ok::<
                    RequestView,
                    OvhErrorView,
                >(request@) && well_signed(request@),
                Err(e) => self@.request(Method::Delete, path@, Seq::empty(), now) == Err::<
                    RequestView,
                    OvhErrorView,
                >(e@),
            },
    {
        proof {
            reveal_strlit("");
            assert(""@ =~= Seq::<char>::empty());
        }
        self.request(Method::Delete, path, "", now)
    }

    /// A signed POST request with a JSON body.
    pub fn post(&self, path: &str, body: &str, now: u64) -> (r: Result<Request, OvhError>)
        ensures
            match r {
                Ok(request) => self@.request(Method::Post, path@, body@, now) == Ok::<
                    RequestView,
                    OvhErrorView,
                >(request@) && well_signed(request@),
                Err(e) => self@.request(Method::Post, path@, body@, now) == Err::<
                    RequestView,
                    OvhErrorView,
                >(e@),
            },
    {
        self.request(Method::Post, path, body, now)
    }

    /// A signed POST request without a body.
    pub fn post_empty(&self, path: &str, now: u64) -> (r: Result<Request, OvhError>)
        ensures
            match r {
                Ok(request) => self@.request(Method::Post, path@, Seq::empty(), now) == Ok::<
                    RequestView,
                    OvhErrorView,
                >(request@) && well_signed(request@),
                Err(e) => self@.request(Method::Post, path@, Seq::empty(), now) == Err::<
                    RequestView,
                    OvhErrorView,
                >(e@),
            },
    {
        proof {
            reveal_strlit("");
            assert(""@ =~= Seq::<char>::empty());
        }
        self.request(Method::Post, path, "", now)
    }

    /// A signed PUT request with a JSON body.
    pub fn put(&self, path: &str, body: &str, now: u64) -> (r: Result<Request, OvhError>)
        ensures
            match r {
                Ok(request) => self@.request(Method::Put, path@, body@, now) == Ok::<
                    RequestView,
                    OvhErrorView,
                >(request@) && well_signed(request@),
                Err(e) => self@.request(Method::Put, path@, body@, now) == Err::<
                    RequestView,
                    OvhErrorView,
                >(e@),
            },
    {
        self.request(Method::Put, path, body, now)
    }

    /// A GET request without a signature.
    pub fn get_noauth(&self, path: &str) -> (request: Request)
        ensures
            request@ == self@.credentials.plain_request(path@),
    {
        self.credentials.get_noauth(path)
    }
}

/// The offset that was measured when a client was made stamps every later
/// request: where the server's clock read `remote` at the local time
/// `local`, a request made at `now` is stamped `now + local - remote`, and
/// has no stamp where `now` or that sum is beyond an `i64`.
pub proof fn lemma_stamp_follows_offset(
    credentials: CredentialsView,
    local: u64,
    status: u16,
    server_time: Seq<char>,
    remote: u64,
    now: u64,
)
    requires
        spec_parse_u64(server_time) == Some(remote),
        i64::MIN <= local - remote <= i64::MAX,
    ensures
        credentials.synchronized(local, Ok((status, server_time))) matches Ok(client) && {
            &&& client.credentials == credentials
            &&& client.time_delta == local - remote
            &&& client.timestamp(now) == if now <= i64::MAX && now + local - remote <= i64::MAX {
                Some((now + local - remote) as i64)
            } else {
                None
            }
        },
{
}

} // verus!
