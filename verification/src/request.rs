//! Requests as the client hands them out, and answers as it takes them
//! back: plain data, for the caller's transport to send and fill in.

use vstd::prelude::*;
use vstd::string::*;

use crate::error::{OvhError, OvhErrorView};

verus! {

/// The HTTP verbs that the API is called with.
#[derive(Debug, Clone, Copy, PartialEq, Eq, Structural)]
pub enum Method {
    Get,
    Post,
    Put,
    Delete,
}

impl Method {
    /// The verb in upper case, as it is sent and signed.
    pub open spec fn name(self) -> Seq<char> {
        match self {
            Method::Get => "GET"@,
            Method::Post => "POST"@,
            Method::Put => "PUT"@,
            Method::Delete => "DELETE"@,
        }
    }

    /// The verb in upper case, as it is sent and signed.
    pub fn as_str(&self) -> (verb: &'static str)
        ensures
            verb@ == self.name(),
    {
        match self {
            Method::Get => "GET",
            Method::Post => "POST",
            Method::Put => "PUT",
            Method::Delete => "DELETE",
        }
    }
}

/// One header line of a request. A sensitive value proves who the caller
/// is: it must not be logged. For that reason the type cannot be printed.
pub struct Header {
    pub name: String,
    pub value: String,
    pub sensitive: bool,
}

/// A [`Header`] with its texts as character sequences.
pub struct HeaderView {
    pub name: Seq<char>,
    pub value: Seq<char>,
    pub sensitive: bool,
}

impl View for Header {
    type V = HeaderView;

    open spec fn view(&self) -> HeaderView {
        HeaderView { name: self.name@, value: self.value@, sensitive: self.sensitive }
    }
}

impl Header {
    /// A header whose value may be logged.
    pub fn plain(name: &str, value: &str) -> (header: Header)
        ensures
            header@ == (HeaderView { name: name@, value: value@, sensitive: false }),
    {
        Header { name: String::from_str(name), value: String::from_str(value), sensitive: false }
    }

    /// A header whose value must not be logged.
    pub fn sensitive(name: &str, value: &str) -> (header: Header)
        ensures
            header@ == (HeaderView { name: name@, value: value@, sensitive: true }),
    {
        Header { name: String::from_str(name), value: String::from_str(value), sensitive: true }
    }
}

/// The views of a list of headers, in the list's order.
pub open spec fn header_views(headers: Seq<Header>) -> Seq<HeaderView> {
    headers.map_values(|h: Header| h@)
}

/// A request that is ready to be sent: every header it needs is in it.
pub struct Request {
    pub method: Method,
    pub url: String,
    pub headers: Vec<Header>,
    pub body: String,
}

/// A [`Request`] with its texts as character sequences.
pub struct RequestView {
    pub method: Method,
    pub url: Seq<char>,
    pub headers: Seq<HeaderView>,
    pub body: Seq<char>,
}

impl View for Request {
    type V = RequestView;

    open spec fn view(&self) -> RequestView {
        RequestView {
            method: self.method,
            url: self.url@,
            headers: header_views(self.headers@),
            body: self.body@,
        }
    }
}

/// The server's answer to a request, as it came: its status code, its
/// headers as pairs of name and value, and its body. The library reads the
/// status and the body; the headers are carried for the caller.
#[derive(Debug, PartialEq, Eq)]
pub struct HttpResponse {
    pub status: u16,
    pub headers: Vec<(String, String)>,
    pub body: String,
}

/// What became of a request: the server's answer, or the reason why there
/// is none.
pub type Reply = Result<HttpResponse, OvhError>;

/// Whether a status code reports success: 200 to 299.
pub open spec fn is_success(status: u16) -> bool {
    200 <= status <= 299
}

/// A reply as a mathematical value: the status and the body of the answer,
/// or the error.
pub open spec fn reply_view(reply: Reply) -> Result<(u16, Seq<char>), OvhErrorView> {
    match reply {
        Ok(response) => Ok((response.status, response.body@)),
        Err(e) => Err(e@),
    }
}

/// What the reply to a request says that has nothing to give back but
/// success: the error that stands in place of the reply, or `ApiError` for
/// a status that does not report success.
pub open spec fn spec_acknowledged(reply: Result<(u16, Seq<char>), OvhErrorView>) -> Result<
    (),
    OvhErrorView,
> {
    match reply {
        Err(e) => Err(e),
        Ok((status, body)) => if !is_success(status) {
            Err(OvhErrorView::ApiError(status, body))
        } else {
            Ok(())
        },
    }
}

impl HttpResponse {
    /// An answer with a status and a body, and no headers.
    pub fn new(status: u16, body: &str) -> (response: HttpResponse)
        ensures
            response.status == status,
            response.headers@.len() == 0,
            response.body@ == body@,
    {
        HttpResponse { status, headers: Vec::new(), body: String::from_str(body) }
    }

    /// Whether the status reports success.
    pub fn is_success(&self) -> (yes: bool)
        ensures
            yes == is_success(self.status),
    {
        200 <= self.status && self.status <= 299
    }

    /// Turns an answer whose status does not report success into
    /// `ApiError`, with the status and the body; any other answer is
    /// returned as it is.
    pub fn error_for_status(self) -> (r: Result<HttpResponse, OvhError>)
        ensures
            match r {
                Ok(response) => is_success(self.status) && response == self,
                Err(e) => !is_success(self.status) && e@ == OvhErrorView::ApiError(
                    self.status,
                    self.body@,
                ),
            },
    {
        if self.is_success() {
            Ok(self)
        } else {
            Err(OvhError::ApiError(self.status, self.body))
        }
    }
}

/// Reads a reply that has nothing to give back but success: the reply to a
/// deletion, to a refresh, to the creation of a redirection.
///
/// An error in place of the reply is handed on; a status that does not
/// report success gives `ApiError` with the status and the body.
pub fn acknowledged(reply: Reply) -> (r: Result<(), OvhError>)
    ensures
        match r {
            Ok(_) => spec_acknowledged(reply_view(reply)) is Ok,
            Err(e) => spec_acknowledged(reply_view(reply)) == Err::<(), OvhErrorView>(e@),
        },
{
    match reply {
        Err(e) => Err(e),
        Ok(response) => match response.error_for_status() {
            Err(e) => Err(e),
            Ok(_) => Ok(()),
        },
    }
}

} // verus!
