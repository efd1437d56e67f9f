//! High-level access to the email redirections of a domain.
//!
//! As with the DNS records, one half of every call gives the [`Request`]
//! to send and the other reads the [`Reply`]. A redirection is in force as
//! soon as it is created: nothing has to be refreshed.

use vstd::prelude::*;
use vstd::string::*;

use crate::client::OvhClient;
use crate::error::{OvhError, OvhErrorView};
use crate::json::{
    field_views, get_text, json_object, json_string, parse_object, parse_string_list, quote,
    required_text, spec_lookup, spec_parse_text_list, string_views, JsonValue, JsonValueView,
};
use crate::listing::{collect, first_failure, reversed, ListError};
use crate::request::{is_success, reply_view, Method, Reply, Request, RequestView};

verus! {

/// A single email redirection.
#[derive(Debug, PartialEq, Eq)]
pub struct OvhMailRedir {
    /// Unique identifier of the redirection.
    pub id: String,
    /// Email address to redirect from.
    pub from: String,
    /// Email address to redirect to.
    pub to: String,
}

/// An [`OvhMailRedir`] with its texts as character sequences.
pub struct MailRedirView {
    pub id: Seq<char>,
    pub from: Seq<char>,
    pub to: Seq<char>,
}

impl View for OvhMailRedir {
    type V = MailRedirView;

    open spec fn view(&self) -> MailRedirView {
        MailRedirView { id: self.id@, from: self.from@, to: self.to@ }
    }
}

impl MailRedirView {
    /// The redirection on one line: the id, a colon, and the two addresses
    /// with an arrow between them.
    pub open spec fn text(self) -> Seq<char> {
        self.id + ": "@ + self.from + " -> "@ + self.to
    }
}

/// The path of the redirections of a domain.
pub open spec fn redirections_path(domain: Seq<char>) -> Seq<char> {
    "/email/domain/"@ + domain + "/redirection"@
}

/// The path of one redirection of a domain.
pub open spec fn redirection_path(domain: Seq<char>, id: Seq<char>) -> Seq<char> {
    "/email/domain/"@ + domain + "/redirection/"@ + id
}

/// The JSON object that creates a redirection; `from` and `to` are JSON
/// string literals already.
pub open spec fn creation_body(from: Seq<char>, to: Seq<char>, local_copy: bool) -> Seq<char> {
    let local_copy = if local_copy {
        "true"@
    } else {
        "false"@
    };
    "{\"from\":"@ + from + ",\"to\":"@ + to + ",\"localCopy\":"@ + local_copy + "}"@
}

/// The JSON object that creates a redirection, from the addresses as they
/// are.
pub open spec fn spec_creation_body(from: Seq<char>, to: Seq<char>, local_copy: bool) -> Seq<char> {
    creation_body(json_string(from), json_string(to), local_copy)
}

/// The ids in the reply to a listing: the error that stands in place of
/// the reply; else `ApiError` for a status that does not report success;
/// else `ParseError` for a body that is no list of ids.
pub open spec fn spec_ids(reply: Result<(u16, Seq<char>), OvhErrorView>) -> Result<
    Seq<Seq<char>>,
    OvhErrorView,
> {
    match reply {
        Err(e) => Err(e),
        Ok((status, body)) => if !is_success(status) {
            Err(OvhErrorView::ApiError(status, body))
        } else {
            match spec_parse_text_list(body) {
                None => Err(OvhErrorView::ParseError),
                Some(ids) => Ok(ids),
            }
        },
    }
}

/// The redirection that the fields of a JSON object describe: `id`,
/// `from` and `to` have to be there, each a string. Other fields are not
/// looked at. `None` where a field is not as it has to be.
pub open spec fn spec_from_fields(fields: Seq<(Seq<char>, JsonValueView)>) -> Option<
    MailRedirView,
> {
    let id = required_text(spec_lookup(fields, "id"@));
    let from = required_text(spec_lookup(fields, "from"@));
    let to = required_text(spec_lookup(fields, "to"@));
    if id is Some && from is Some && to is Some {
        Some(MailRedirView { id: id->0, from: from->0, to: to->0 })
    } else {
        None
    }
}

/// The redirection in a reply: the error that stands in place of the
/// reply; else `ApiError` for a status that does not report success; else
/// `ParseError` for a body that is no JSON object or describes no
/// redirection; else the redirection.
pub open spec fn spec_received(reply: Result<(u16, Seq<char>), OvhErrorView>) -> Result<
    MailRedirView,
    OvhErrorView,
> {
    match reply {
        Err(e) => Err(e),
        Ok((status, body)) => if !is_success(status) {
            Err(OvhErrorView::ApiError(status, body))
        } else {
            match json_object(body) {
                None => Err(OvhErrorView::ParseError),
                Some(fields) => match spec_from_fields(fields) {
                    None => Err(OvhErrorView::ParseError),
                    Some(redirection) => Ok(redirection),
                },
            }
        },
    }
}

/// What became of the fetch at position `i` of a fan-out: what the reply
/// at that position reads as, and `NetworkError` where there is no reply at
/// that position.
pub open spec fn spec_fetched(replies: Seq<Reply>, i: int) -> Result<MailRedirView, OvhErrorView> {
    if 0 <= i < replies.len() {
        spec_received(reply_view(replies[i]))
    } else {
        Err(OvhErrorView::NetworkError)
    }
}

/// A redirection that may be absent, as a mathematical value.
pub open spec fn redirection_view(redirection: Option<OvhMailRedir>) -> Option<MailRedirView> {
    match redirection {
        Some(redirection) => Some(redirection@),
        None => None,
    }
}

impl Clone for OvhMailRedir {
    fn clone(&self) -> (copy: Self)
        ensures
            copy@ == self@,
    {
        OvhMailRedir { id: self.id.clone(), from: self.from.clone(), to: self.to.clone() }
    }
}

impl OvhMailRedir {
    /// The redirection on one line, as it is shown to a reader.
    pub fn to_text(&self) -> (text: String)
        ensures
            text@ == self@.text(),
    {
        let mut text = self.id.clone();
        text.append(": ");
        text.append(self.from.as_str());
        text.append(" -> ");
        text.append(self.to.as_str());
        text
    }

    /// The request that retrieves a redirection from its id.
    ///
    /// Fails as [`OvhClient::request`] does.
    pub fn get_redir(client: &OvhClient, domain: &str, id: &str, now: u64) -> (r: Result<
        Request,
        OvhError,
    >)
        ensures
            match r {
                Ok(request) => client@.request(
                    Method::Get,
                    redirection_path(domain@, id@),
                    Seq::empty(),
                    now,
                ) == Ok::<RequestView, OvhErrorView>(request@),
                Err(e) => client@.request(
                    Method::Get,
                    redirection_path(domain@, id@),
                    Seq::empty(),
                    now,
                ) == Err::<RequestView, OvhErrorView>(e@),
            },
    {
        let mut path = String::from_str("/email/domain/");
        path.append(domain);
        path.append("/redirection/");
        path.append(id);
        client.get(path.as_str(), now)
    }

    /// Begins the listing of the redirections of a domain: the request for
    /// their ids.
    ///
    /// The listing goes on with [`OvhMailRedir::ids`] on the reply, then
    /// with one request per id from [`OvhMailRedir::get_all`], all sent at
    /// once, and ends with [`OvhMailRedir::gathered`] on their replies:
    /// every redirection in the order of the ids, or the first failure with
    /// its id. No redirection whose fetch failed is left out in silence.
    ///
    /// Fails as [`OvhClient::request`] does.
    pub fn list(client: &OvhClient, domain: &str, now: u64) -> (r: Result<Request, OvhError>)
        ensures
            match r {
                Ok(request) => client@.request(
                    Method::Get,
                    redirections_path(domain@),
                    Seq::empty(),
                    now,
                ) == Ok::<RequestView, OvhErrorView>(request@),
                Err(e) => client@.request(
                    Method::Get,
                    redirections_path(domain@),
                    Seq::empty(),
                    now,
                ) == Err::<RequestView, OvhErrorView>(e@),
            },
    {
        let mut path = String::from_str("/email/domain/");
        path.append(domain);
        path.append("/redirection");
        client.get(path.as_str(), now)
    }

    /// Reads the ids out of the reply to a listing, in the server's order.
    ///
    /// An error in place of the reply is handed on. A status that does not
    /// report success gives `ApiError`, a body that is no list of ids
    /// `ParseError`.
    pub fn ids(reply: Reply) -> (r: Result<Vec<String>, OvhError>)
        ensures
            match r {
                Ok(ids) => spec_ids(reply_view(reply)) == Ok::<Seq<Seq<char>>, OvhErrorView>(
                    string_views(ids@),
                ),
                Err(e) => spec_ids(reply_view(reply)) == Err::<Seq<Seq<char>>, OvhErrorView>(e@),
            },
    {
        match reply {
            Err(e) => Err(e),
            Ok(response) => match response.error_for_status() {
                Err(e) => Err(e),
                Ok(response) => parse_string_list(response.body.as_str()),
            },
        }
    }

    /// One request per id, in the order of the ids: the fan-out of a
    /// listing.
    ///
    /// Fails, as [`OvhClient::request`] does, where one of the requests
    /// cannot be made: then with the error of the first such id.
    pub fn get_all(client: &OvhClient, domain: &str, ids: &Vec<String>, now: u64) -> (r: Result<
        Vec<Request>,
        OvhError,
    >)
        ensures
            match r {
                Ok(requests) => {
                    &&& requests@.len() == ids@.len()
                    &&& forall|i: int|
                        0 <= i < ids@.len() ==> client@.request(
                            Method::Get,
                            redirection_path(domain@, (#[trigger] ids@[i])@),
                            Seq::empty(),
                            now,
                        ) == Ok::<RequestView, OvhErrorView>(requests@[i]@)
                },
                Err(e) => exists|k: int|
                    {
                        &&& 0 <= k < ids@.len()
                        &&& client@.request(
                            Method::Get,
                            redirection_path(domain@, (#[trigger] ids@[k])@),
                            Seq::empty(),
                            now,
                        ) == Err::<RequestView, OvhErrorView>(e@)
                        &&& forall|i: int|
                            0 <= i < k ==> client@.request(
                                Method::Get,
                                redirection_path(domain@, (#[trigger] ids@[i])@),
                                Seq::empty(),
                                now,
                            ) is Ok
                    },
            },
    {
        let mut requests: Vec<Request> = Vec::new();
        let mut i: usize = 0;
        while i < ids.len()
            invariant
                i <= ids@.len(),
                requests@.len() == i,
                forall|j: int|
                    0 <= j < i ==> client@.request(
                        Method::Get,
                        redirection_path(domain@, (#[trigger] ids@[j])@),
                        Seq::empty(),
                        now,
                    ) == Ok::<RequestView, OvhErrorView>(requests@[j]@),
            decreases ids@.len() - i,
        {
            match Self::get_redir(client, domain, ids[i].as_str(), now) {
                Err(e) => {
                    return Err(e);
                },
                Ok(request) => {
                    requests.push(request);
                },
            }
            i += 1;
        }
        Ok(requests)
    }

    /// Makes a redirection of the fields of a JSON object, as the server
    /// sent them: see [`spec_from_fields`] for what has to be there.
    pub fn from_fields(fields: &Vec<(String, JsonValue)>) -> (redirection: Option<OvhMailRedir>)
        ensures
            redirection_view(redirection) == spec_from_fields(field_views(fields@)),
    {
        let id = match get_text(fields, "id") {
            Some(id) => id,
            None => {
                return None;
            },
        };
        let from = match get_text(fields, "from") {
            Some(from) => from,
            None => {
                return None;
            },
        };
        let to = match get_text(fields, "to") {
            Some(to) => to,
            None => {
                return None;
            },
        };
        Some(OvhMailRedir { id, from, to })
    }

    /// Reads a redirection out of the reply that holds it.
    ///
    /// An error in place of the reply is handed on. A status that does not
    /// report success gives `ApiError`, a body that is no JSON object or
    /// describes no redirection `ParseError`.
    pub fn received(reply: Reply) -> (r: Result<OvhMailRedir, OvhError>)
        ensures
            match r {
                Ok(redirection) => spec_received(reply_view(reply)) == Ok::<
                    MailRedirView,
                    OvhErrorView,
                >(redirection@),
                Err(e) => spec_received(reply_view(reply)) == Err::<MailRedirView, OvhErrorView>(
                    e@,
                ),
            },
    {
        match reply {
            Err(e) => Err(e),
            Ok(response) => match response.error_for_status() {
                Err(e) => Err(e),
                Ok(response) => match parse_object(response.body.as_str()) {
                    Err(e) => Err(e),
                    Ok(fields) => match Self::from_fields(&fields) {
                        None => Err(OvhError::ParseError),
                        Some(redirection) => Ok(redirection),
                    },
                },
            },
        }
    }

    /// Ends a listing: takes the ids and the replies to the requests of
    /// [`OvhMailRedir::get_all`], a reply at the position of its id.
    ///
    /// Where every fetch succeeded the result holds the redirection of
    /// every id, as many as there were ids and in their order. Where one
    /// failed, the result is the error of the first fetch that failed, with
    /// its id: no redirection is left out in silence. An id without a reply
    /// counts as a fetch that failed with `NetworkError`.
    pub fn gathered(ids: Vec<String>, replies: Vec<Reply>) -> (r: Result<
        Vec<OvhMailRedir>,
        ListError<String>,
    >)
        ensures
            match r {
                Ok(redirections) => {
                    &&& redirections@.len() == ids@.len()
                    &&& forall|i: int|
                        0 <= i < ids@.len() ==> spec_fetched(replies@, i) == Ok::<
                            MailRedirView,
                            OvhErrorView,
                        >((#[trigger] redirections@[i])@)
                },
                Err(e) => exists|k: int|
                    {
                        &&& 0 <= k < ids@.len()
                        &&& e.id == #[trigger] ids@[k]
                        &&& spec_fetched(replies@, k) == Err::<MailRedirView, OvhErrorView>(
                            e.error@,
                        )
                        &&& forall|i: int| 0 <= i < k ==> spec_fetched(replies@, i) is Ok
                    },
            },
    {
        let ghost all = replies@;
        let ghost names = ids@;
        let mut rest = reversed(replies);
        let mut later = reversed(ids);
        let mut fetched: Vec<(String, Result<OvhMailRedir, OvhError>)> = Vec::new();
        while later.len() > 0
            invariant
                fetched@.len() + later@.len() == names.len(),
                rest@.len() == if fetched@.len() <= all.len() {
                    all.len() - fetched@.len()
                } else {
                    0
                },
                forall|j: int| 0 <= j < rest@.len() ==> #[trigger] rest@[j] == all[all.len() - 1 - j],
                forall|j: int|
                    0 <= j < later@.len() ==> #[trigger] later@[j] == names[names.len() - 1 - j],
                forall|j: int|
                    0 <= j < fetched@.len() ==> {
                        &&& (#[trigger] fetched@[j]).0 == names[j]
                        &&& match fetched@[j].1 {
                            Ok(redirection) => spec_fetched(all, j) == Ok::<
                                MailRedirView,
                                OvhErrorView,
                            >(redirection@),
                            Err(e) => spec_fetched(all, j) == Err::<MailRedirView, OvhErrorView>(
                                e@,
                            ),
                        }
                    },
            decreases later@.len(),
        {
            let outcome = match rest.pop() {
                Some(reply) => Self::received(reply),
                None => Err(OvhError::NetworkError),
            };
            match later.pop() {
                Some(id) => {
                    fetched.push((id, outcome));
                },
                None => {},
            }
        }
        let ghost outcomes = fetched@;
        match collect(fetched) {
            Ok(redirections) => {
                assert forall|i: int| 0 <= i < names.len() implies spec_fetched(all, i) == Ok::<
                    MailRedirView,
                    OvhErrorView,
                >((#[trigger] redirections@[i])@) by {
                    assert(outcomes[i].1 is Ok);
                }
                Ok(redirections)
            },
            Err(e) => {
                proof {
                    let k = choose|k: int|
                        first_failure(outcomes, k) && e.id == (#[trigger] outcomes[k]).0
                            && e.error == outcomes[k].1->Err_0;
                    assert(e.id == names[k]);
                    assert forall|i: int| 0 <= i < k implies spec_fetched(all, i) is Ok by {
                        assert(outcomes[i].1 is Ok);
                    }
                }
                Err(e)
            },
        }
    }

    /// Frames the JSON object that creates a redirection; `from` and `to`
    /// are JSON string literals already.
    pub fn creation_body(from: &str, to: &str, local_copy: bool) -> (body: String)
        ensures
            body@ == creation_body(from@, to@, local_copy),
    {
        let mut body = String::from_str("{\"from\":");
        body.append(from);
        body.append(",\"to\":");
        body.append(to);
        body.append(",\"localCopy\":");
        if local_copy {
            body.append("true");
        } else {
            body.append("false");
        }
        body.append("}");
        body
    }

    /// The request that creates a redirection from one address to another;
    /// with `local_copy` the redirected messages are kept as well. The reply
    /// is read with [`crate::request::acknowledged`].
    ///
    /// Fails as [`OvhClient::request`] does, and only then.
    pub fn create(c: &OvhClient, domain: &str, from: &str, to: &str, local_copy: bool, now: u64)
        -> (r: Result<Request, OvhError>)
        ensures
            ({
                let body = spec_creation_body(from@, to@, local_copy);
                match r {
                    Ok(request) => c@.request(Method::Post, redirections_path(domain@), body, now)
                        == Ok::<RequestView, OvhErrorView>(request@),
                    Err(e) => c@.request(Method::Post, redirections_path(domain@), body, now)
                        == Err::<RequestView, OvhErrorView>(e@),
                }
            }),
    {
        let from = match quote(from) {
            Ok(literal) => literal,
            Err(e) => {
                return Err(e);
            },
        };
        let to = match quote(to) {
            Ok(literal) => literal,
            Err(e) => {
                return Err(e);
            },
        };
        let body = Self::creation_body(from.as_str(), to.as_str(), local_copy);
        let mut path = String::from_str("/email/domain/");
        path.append(domain);
        path.append("/redirection");
        c.post(path.as_str(), body.as_str(), now)
    }

    /// The request that deletes a redirection. The reply is read with
    /// [`crate::request::acknowledged`].
    ///
    /// Fails as [`OvhClient::request`] does.
    pub fn delete(c: &OvhClient, domain: &str, id: &str, now: u64) -> (r: Result<
        Request,
        OvhError,
    >)
        ensures
            match r {
                Ok(request) => c@.request(
                    Method::Delete,
                    redirection_path(domain@, id@),
                    Seq::empty(),
                    now,
                ) == Ok::<RequestView, OvhErrorView>(request@),
                Err(e) => c@.request(
                    Method::Delete,
                    redirection_path(domain@, id@),
                    Seq::empty(),
                    now,
                ) == Err::<RequestView, OvhErrorView>(e@),
            },
    {
        let mut path = String::from_str("/email/domain/");
        path.append(domain);
        path.append("/redirection/");
        path.append(id);
        c.delete(path.as_str(), now)
    }
}

} // verus!
