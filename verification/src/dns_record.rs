//! High-level access to the DNS records of a zone.
//!
//! Every call is made in two halves. One gives the [`Request`] to send;
//! the other reads the [`Reply`] that came back. Between the two stands
//! the caller's transport.

use vstd::prelude::*;
use vstd::string::*;

use crate::client::OvhClient;
use crate::decimal::{decimal, push_decimal, push_signed_decimal, signed_decimal};
use crate::error::{OvhError, OvhErrorView};
use crate::json::{
    field_views, get_optional_i32, get_optional_text, get_text, get_u64, json_object, json_string,
    optional_i32, optional_text, parse_object, parse_u64_list, quote, required_text,
    required_u64, spec_lookup, spec_parse_u64_list, JsonValue, JsonValueView,
};
use crate::listing::{collect, first_failure, reversed, ListError};
use crate::request::{
    acknowledged, is_success, reply_view, spec_acknowledged, Method, Reply, Request, RequestView,
};
use crate::text::str_eq;

verus! {

/// The types of DNS records that the API knows.
#[derive(Debug, Clone, Copy, PartialEq, Eq, Structural)]
pub enum DnsRecordType {
    A,
    AAAA,
    CAA,
    CNAME,
    DKIM,
    DMARC,
    DNAME,
    LOC,
    MX,
    NAPTR,
    NS,
    PTR,
    SPF,
    SRV,
    SSHFP,
    TLSA,
    TXT,
}

impl DnsRecordType {
    /// The name of the type as the API writes it.
    pub open spec fn name(self) -> Seq<char> {
        match self {
            DnsRecordType::A => "A"@,
            DnsRecordType::AAAA => "AAAA"@,
            DnsRecordType::CAA => "CAA"@,
            DnsRecordType::CNAME => "CNAME"@,
            DnsRecordType::DKIM => "DKIM"@,
            DnsRecordType::DMARC => "DMARC"@,
            DnsRecordType::DNAME => "DNAME"@,
            DnsRecordType::LOC => "LOC"@,
            DnsRecordType::MX => "MX"@,
            DnsRecordType::NAPTR => "NAPTR"@,
            DnsRecordType::NS => "NS"@,
            DnsRecordType::PTR => "PTR"@,
            DnsRecordType::SPF => "SPF"@,
            DnsRecordType::SRV => "SRV"@,
            DnsRecordType::SSHFP => "SSHFP"@,
            DnsRecordType::TLSA => "TLSA"@,
            DnsRecordType::TXT => "TXT"@,
        }
    }

    /// The type that the API writes under a name; `None` for a name that
    /// is no type's. Names are taken as they are written, in upper case.
    pub open spec fn named(name: Seq<char>) -> Option<DnsRecordType> {
        if name == "A"@ {
            Some(DnsRecordType::A)
        } else if name == "AAAA"@ {
            Some(DnsRecordType::AAAA)
        } else if name == "CAA"@ {
            Some(DnsRecordType::CAA)
        } else if name == "CNAME"@ {
            Some(DnsRecordType::CNAME)
        } else if name == "DKIM"@ {
            Some(DnsRecordType::DKIM)
        } else if name == "DMARC"@ {
            Some(DnsRecordType::DMARC)
        } else if name == "DNAME"@ {
            Some(DnsRecordType::DNAME)
        } else if name == "LOC"@ {
            Some(DnsRecordType::LOC)
        } else if name == "MX"@ {
            Some(DnsRecordType::MX)
        } else if name == "NAPTR"@ {
            Some(DnsRecordType::NAPTR)
        } else if name == "NS"@ {
            Some(DnsRecordType::NS)
        } else if name == "PTR"@ {
            Some(DnsRecordType::PTR)
        } else if name == "SPF"@ {
            Some(DnsRecordType::SPF)
        } else if name == "SRV"@ {
            Some(DnsRecordType::SRV)
        } else if name == "SSHFP"@ {
            Some(DnsRecordType::SSHFP)
        } else if name == "TLSA"@ {
            Some(DnsRecordType::TLSA)
        } else if name == "TXT"@ {
            Some(DnsRecordType::TXT)
        } else {
            None
        }
    }

    /// The type that the API writes under a name.
    pub fn from_name(name: &str) -> (record_type: Option<DnsRecordType>)
        ensures
            record_type == DnsRecordType::named(name@),
    {
        if str_eq(name, "A") {
            Some(DnsRecordType::A)
        } else if str_eq(name, "AAAA") {
            Some(DnsRecordType::AAAA)
        } else if str_eq(name, "CAA") {
            Some(DnsRecordType::CAA)
        } else if str_eq(name, "CNAME") {
            Some(DnsRecordType::CNAME)
        } else if str_eq(name, "DKIM") {
            Some(DnsRecordType::DKIM)
        } else if str_eq(name, "DMARC") {
            Some(DnsRecordType::DMARC)
        } else if str_eq(name, "DNAME") {
            Some(DnsRecordType::DNAME)
        } else if str_eq(name, "LOC") {
            Some(DnsRecordType::LOC)
        } else if str_eq(name, "MX") {
            Some(DnsRecordType::MX)
        } else if str_eq(name, "NAPTR") {
            Some(DnsRecordType::NAPTR)
        } else if str_eq(name, "NS") {
            Some(DnsRecordType::NS)
        } else if str_eq(name, "PTR") {
            Some(DnsRecordType::PTR)
        } else if str_eq(name, "SPF") {
            Some(DnsRecordType::SPF)
        } else if str_eq(name, "SRV") {
            Some(DnsRecordType::SRV)
        } else if str_eq(name, "SSHFP") {
            Some(DnsRecordType::SSHFP)
        } else if str_eq(name, "TLSA") {
            Some(DnsRecordType::TLSA)
        } else if str_eq(name, "TXT") {
            Some(DnsRecordType::TXT)
        } else {
            None
        }
    }

    /// The name of the type as the API writes it.
    pub fn as_str(&self) -> (name: &'static str)
        ensures
            name@ == self.name(),
    {
        match self {
            DnsRecordType::A => "A",
            DnsRecordType::AAAA => "AAAA",
            DnsRecordType::CAA => "CAA",
            DnsRecordType::CNAME => "CNAME",
            DnsRecordType::DKIM => "DKIM",
            DnsRecordType::DMARC => "DMARC",
            DnsRecordType::DNAME => "DNAME",
            DnsRecordType::LOC => "LOC",
            DnsRecordType::MX => "MX",
            DnsRecordType::NAPTR => "NAPTR",
            DnsRecordType::NS => "NS",
            DnsRecordType::PTR => "PTR",
            DnsRecordType::SPF => "SPF",
            DnsRecordType::SRV => "SRV",
            DnsRecordType::SSHFP => "SSHFP",
            DnsRecordType::TLSA => "TLSA",
            DnsRecordType::TXT => "TXT",
        }
    }
}

/// A single DNS record.
#[derive(Debug, PartialEq, Eq)]
pub struct OvhDnsRecord {
    /// Unique identifier of the DNS record, such as `1234567`.
    pub id: u64,
    /// The internal name of the zone, such as `example.com`.
    pub zone: String,
    /// Resource record type, such as `A`.
    pub record_type: DnsRecordType,
    /// Resource record subdomain, such as `www`.
    pub subdomain: Option<String>,
    /// Resource record target, such as `93.184.216.34`.
    pub target: String,
    /// Resource record TTL in seconds.
    pub ttl: Option<i32>,
}

/// An [`OvhDnsRecord`] with its texts as character sequences.
pub struct DnsRecordView {
    pub id: u64,
    pub zone: Seq<char>,
    pub record_type: DnsRecordType,
    pub subdomain: Option<Seq<char>>,
    pub target: Seq<char>,
    pub ttl: Option<i32>,
}

/// The text of a string that may be absent.
pub open spec fn text_of(s: Option<String>) -> Option<Seq<char>> {
    match s {
        Some(s) => Some(s@),
        None => None,
    }
}

impl View for OvhDnsRecord {
    type V = DnsRecordView;

    open spec fn view(&self) -> DnsRecordView {
        DnsRecordView {
            id: self.id,
            zone: self.zone@,
            record_type: self.record_type,
            subdomain: text_of(self.subdomain),
            target: self.target@,
            ttl: self.ttl,
        }
    }
}

impl DnsRecordView {
    /// The fully qualified domain name: the subdomain, where there is one,
    /// and the zone, each followed by a dot.
    pub open spec fn fqn(self) -> Seq<char> {
        match self.subdomain {
            Some(subdomain) => subdomain + "."@ + self.zone + "."@,
            None => self.zone + "."@,
        }
    }

    /// Whether the record is free of the server's marks for "unset": an
    /// empty subdomain and a TTL of zero.
    pub open spec fn is_normal(self) -> bool {
        self.subdomain != Some(Seq::<char>::empty()) && self.ttl != Some(0i32)
    }

    /// The record with the server's marks for "unset" taken out: an empty
    /// subdomain and a TTL of zero become absent, and nothing else changes.
    pub open spec fn normalized(self) -> DnsRecordView {
        DnsRecordView {
            subdomain: if self.subdomain == Some(Seq::<char>::empty()) {
                None
            } else {
                self.subdomain
            },
            ttl: if self.ttl == Some(0i32) {
                None
            } else {
                self.ttl
            },
            ..self
        }
    }

    /// The record on one line: the id in brackets, the fully qualified
    /// name, the TTL with 0 for an absent one, the type and the target.
    pub open spec fn text(self) -> Seq<char> {
        let ttl: int = match self.ttl {
            Some(ttl) => ttl as int,
            None => 0,
        };
        "[id: "@ + decimal(self.id as nat) + "] "@ + self.fqn() + " "@ + signed_decimal(ttl) + " "@
            + self.record_type.name() + " "@ + self.target
    }
}

/// The path of one record of a zone.
pub open spec fn record_path(zone: Seq<char>, id: u64) -> Seq<char> {
    "/domain/zone/"@ + zone + "/record/"@ + decimal(id as nat)
}

/// The path of the records of a zone.
pub open spec fn records_path(zone: Seq<char>) -> Seq<char> {
    "/domain/zone/"@ + zone + "/record"@
}

/// The path under which a zone is refreshed.
pub open spec fn refresh_path(zone: Seq<char>) -> Seq<char> {
    "/domain/zone/"@ + zone + "/refresh"@
}

/// The query that narrows a listing to a record type, a subdomain, or
/// both; empty where neither is asked for. The subdomain is written as it
/// is given.
pub open spec fn filter_query(record_type: Option<DnsRecordType>, subdomain: Option<Seq<char>>)
    -> Seq<char> {
    match (record_type, subdomain) {
        (None, None) => Seq::<char>::empty(),
        (Some(record_type), None) => "?fieldType="@ + record_type.name(),
        (None, Some(subdomain)) => "?subDomain="@ + subdomain,
        (Some(record_type), Some(subdomain)) => "?fieldType="@ + record_type.name()
            + "&subDomain="@ + subdomain,
    }
}

/// The path, query included, under which the ids of a zone's records are
/// listed.
pub open spec fn list_path(
    zone: Seq<char>,
    record_type: Option<DnsRecordType>,
    subdomain: Option<Seq<char>>,
) -> Seq<char> {
    records_path(zone) + filter_query(record_type, subdomain)
}

/// The text of a string slice that may be absent.
pub open spec fn slice_text(s: Option<&str>) -> Option<Seq<char>> {
    match s {
        Some(s) => Some(s@),
        None => None,
    }
}

/// The JSON object that creates a record, from the fields that a caller
/// may set; `subdomain` and `target` are JSON string literals already. An
/// absent subdomain or TTL is written as `null`.
pub open spec fn creation_body(
    record_type: DnsRecordType,
    subdomain: Option<Seq<char>>,
    target: Seq<char>,
    ttl: Option<i32>,
) -> Seq<char> {
    let subdomain = match subdomain {
        Some(literal) => literal,
        None => "null"@,
    };
    let ttl = match ttl {
        Some(ttl) => signed_decimal(ttl as int),
        None => "null"@,
    };
    "{\"fieldType\":\""@ + record_type.name() + "\",\"subDomain\":"@ + subdomain + ",\"target\":"@
        + target + ",\"ttl\":"@ + ttl + "}"@
}

/// The JSON object that creates a record, from the fields as they are.
pub open spec fn spec_creation_body(
    record_type: DnsRecordType,
    subdomain: Option<Seq<char>>,
    target: Seq<char>,
    ttl: Option<i32>,
) -> Seq<char> {
    let subdomain = match subdomain {
        Some(subdomain) => Some(json_string(subdomain)),
        None => None,
    };
    creation_body(record_type, subdomain, json_string(target), ttl)
}

/// The ids in the reply to a listing: the error that stands in place of
/// the reply; else `ApiError` for a status that does not report success;
/// else `ParseError` for a body that is no list of ids.
pub open spec fn spec_ids(reply: Result<(u16, Seq<char>), OvhErrorView>) -> Result<
    Seq<u64>,
    OvhErrorView,
> {
    match reply {
        Err(e) => Err(e),
        Ok((status, body)) => if !is_success(status) {
            Err(OvhErrorView::ApiError(status, body))
        } else {
            match spec_parse_u64_list(body) {
                None => Err(OvhErrorView::ParseError),
                Some(ids) => Ok(ids),
            }
        },
    }
}

/// The record type in a field: the type of the name that a string holds.
pub open spec fn required_type(value: Option<JsonValueView>) -> Option<DnsRecordType> {
    match required_text(value) {
        Some(name) => DnsRecordType::named(name),
        None => None,
    }
}

/// The record that the fields of a JSON object describe, as the server
/// sent it. `id`, `zone`, `fieldType` and `target` have to be there, a
/// number, a string, the name of a record type and a string; `subDomain`
/// and `ttl` may be missing or `null`, and are a string and a number of 32
/// bits else. Other fields are not looked at. `None` where a field is not
/// as it has to be.
pub open spec fn spec_from_fields(fields: Seq<(Seq<char>, JsonValueView)>) -> Option<
    DnsRecordView,
> {
    let id = required_u64(spec_lookup(fields, "id"@));
    let zone = required_text(spec_lookup(fields, "zone"@));
    let record_type = required_type(spec_lookup(fields, "fieldType"@));
    let subdomain = optional_text(spec_lookup(fields, "subDomain"@));
    let target = required_text(spec_lookup(fields, "target"@));
    let ttl = optional_i32(spec_lookup(fields, "ttl"@));
    if id is Some && zone is Some && record_type is Some && subdomain is Some && target is Some
        && ttl is Some {
        Some(
            DnsRecordView {
                id: id->0,
                zone: zone->0,
                record_type: record_type->0,
                subdomain: subdomain->0,
                target: target->0,
                ttl: ttl->0,
            },
        )
    } else {
        None
    }
}

/// The record in a reply: the error that stands in place of the reply;
/// else `ApiError` for a status that does not report success; else
/// `ParseError` for a body that is no JSON object or describes no record;
/// else the record, normalized.
pub open spec fn spec_received(reply: Result<(u16, Seq<char>), OvhErrorView>) -> Result<
    DnsRecordView,
    OvhErrorView,
> {
    match reply {
        Err(e) => Err(e),
        Ok((status, body)) => if !is_success(status) {
            Err(OvhErrorView::ApiError(status, body))
        } else {
            match json_object(body) {
                None => Err(OvhErrorView::ParseError),
                Some(fields) => match spec_from_fields(fields) {
                    None => Err(OvhErrorView::ParseError),
                    Some(record) => Ok(record.normalized()),
                },
            }
        },
    }
}

/// What became of the fetch at position `i` of a fan-out: what the reply
/// at that position reads as, and `NetworkError` where there is no reply at
/// that position.
pub open spec fn spec_fetched(replies: Seq<Reply>, i: int) -> Result<DnsRecordView, OvhErrorView> {
    if 0 <= i < replies.len() {
        spec_received(reply_view(replies[i]))
    } else {
        Err(OvhErrorView::NetworkError)
    }
}

/// A record that may be absent, as a mathematical value.
pub open spec fn record_view(record: Option<OvhDnsRecord>) -> Option<DnsRecordView> {
    match record {
        Some(record) => Some(record@),
        None => None,
    }
}

/// Why a creation did not end well, and how far it got.
///
/// A record is created by one call and made live by a second one, the
/// refresh of its zone. Where the first succeeded and the second did not,
/// the record exists on the server and `created` holds it: the caller can
/// refresh the zone again, or delete the record. Where `created` is `None`
/// the first call failed and there is no record.
#[derive(Debug, PartialEq, Eq)]
pub struct CreateError {
    pub error: OvhError,
    pub created: Option<OvhDnsRecord>,
}

impl Clone for OvhDnsRecord {
    fn clone(&self) -> (copy: Self)
        ensures
            copy@ == self@,
    {
        OvhDnsRecord {
            id: self.id,
            zone: self.zone.clone(),
            record_type: self.record_type,
            subdomain: match &self.subdomain {
                Some(subdomain) => Some(subdomain.clone()),
                None => None,
            },
            target: self.target.clone(),
            ttl: self.ttl,
        }
    }
}

impl OvhDnsRecord {
    /// Retrieves the fully qualified domain name (subdomain + zone).
    pub fn fqn(&self) -> (name: String)
        ensures
            name@ == self@.fqn(),
    {
        match &self.subdomain {
            Some(subdomain) => {
                let mut name = subdomain.clone();
                name.append(".");
                name.append(self.zone.as_str());
                name.append(".");
                name
            },
            None => {
                let mut name = self.zone.clone();
                name.append(".");
                name
            },
        }
    }

    /// Takes the server's marks for "unset" out of a record: an empty
    /// subdomain and a TTL of zero become absent. Nothing else changes.
    pub fn normalize(self) -> (record: Self)
        ensures
            record@ == self@.normalized(),
            record@.is_normal(),
    {
        let mut record = self;
        let unset = match &record.subdomain {
            Some(subdomain) => subdomain.as_str().is_empty(),
            None => false,
        };
        if unset {
            assert(record.subdomain->Some_0@ =~= Seq::<char>::empty());
            record.subdomain = None;
        }
        let zero = match record.ttl {
            Some(ttl) => ttl == 0,
            None => false,
        };
        if zero {
            record.ttl = None;
        }
        record
    }

    /// The record on one line, as it is shown to a reader.
    pub fn to_text(&self) -> (text: String)
        ensures
            text@ == self@.text(),
    {
        let mut text = String::from_str("[id: ");
        push_decimal(&mut text, self.id);
        text.append("] ");
        let name = self.fqn();
        text.append(name.as_str());
        text.append(" ");
        let ttl: i32 = match self.ttl {
            Some(ttl) => ttl,
            None => 0,
        };
        push_signed_decimal(&mut text, ttl as i64);
        text.append(" ");
        text.append(self.record_type.as_str());
        text.append(" ");
        text.append(self.target.as_str());
        text
    }

    fn records_path(zone: &str) -> (path: String)
        ensures
            path@ == records_path(zone@),
    {
        let mut path = String::from_str("/domain/zone/");
        path.append(zone);
        path.append("/record");
        path
    }

    fn record_path(zone: &str, id: u64) -> (path: String)
        ensures
            path@ == record_path(zone@, id),
    {
        let mut path = String::from_str("/domain/zone/");
        path.append(zone);
        path.append("/record/");
        push_decimal(&mut path, id);
        path
    }

    /// The request that retrieves a record from its id.
    ///
    /// Fails as [`OvhClient::request`] does.
    pub fn get(client: &OvhClient, zone_name: &str, id: u64, now: u64) -> (r: Result<
        Request,
        OvhError,
    >)
        ensures
            match r {
                Ok(request) => client@.request(
                    Method::Get,
                    record_path(zone_name@, id),
                    Seq::empty(),
                    now,
                ) == Ok::<RequestView, OvhErrorView>(request@),
                Err(e) => client@.request(
                    Method::Get,
                    record_path(zone_name@, id),
                    Seq::empty(),
                    now,
                ) == Err::<RequestView, OvhErrorView>(e@),
            },
    {
        let path = Self::record_path(zone_name, id);
        client.get(path.as_str(), now)
    }

    /// The request that lists the ids of all records of a zone.
    ///
    /// Fails as [`OvhClient::request`] does.
    pub fn list_ids(client: &OvhClient, zone: &str, now: u64) -> (r: Result<Request, OvhError>)
        ensures
            match r {
                Ok(request) => client@.request(
                    Method::Get,
                    list_path(zone@, None, None),
                    Seq::empty(),
                    now,
                ) == Ok::<RequestView, OvhErrorView>(request@),
                Err(e) => client@.request(
                    Method::Get,
                    list_path(zone@, None, None),
                    Seq::empty(),
                    now,
                ) == Err::<RequestView, OvhErrorView>(e@),
            },
    {
        Self::list_ids_filtered(client, zone, None, None, now)
    }

    /// The request that lists the ids of the records of a zone that have
    /// the given type, if any, and the given subdomain, if any. The server
    /// decides the order in which they come.
    ///
    /// Fails as [`OvhClient::request`] does.
    pub fn list_ids_filtered(
        client: &OvhClient,
        zone: &str,
        record_type: Option<DnsRecordType>,
        subdomain: Option<&str>,
        now: u64,
    ) -> (r: Result<Request, OvhError>)
        ensures
            match r {
                Ok(request) => client@.request(
                    Method::Get,
                    list_path(zone@, record_type, slice_text(subdomain)),
                    Seq::empty(),
                    now,
                ) == Ok::<RequestView, OvhErrorView>(request@),
                Err(e) => client@.request(
                    Method::Get,
                    list_path(zone@, record_type, slice_text(subdomain)),
                    Seq::empty(),
                    now,
                ) == Err::<RequestView, OvhErrorView>(e@),
            },
    {
        let mut path = Self::records_path(zone);
        let mut first = true;
        match record_type {
            Some(record_type) => {
                path.append("?fieldType=");
                path.append(record_type.as_str());
                first = false;
            },
            None => {},
        }
        match subdomain {
            Some(subdomain) => {
                if first {
                    path.append("?subDomain=");
                } else {
                    path.append("&subDomain=");
                }
                path.append(subdomain);
            },
            None => {},
        }
        assert(path@ =~= list_path(zone@, record_type, slice_text(subdomain)));
        client.get(path.as_str(), now)
    }

    /// Begins the listing of all records of a zone: the request for their
    /// ids, which is that of [`OvhDnsRecord::list_ids`]. See
    /// [`OvhDnsRecord::list_filtered`] for how the listing goes on.
    pub fn list(client: &OvhClient, zone: &str, now: u64) -> (r: Result<Request, OvhError>)
        ensures
            match r {
                Ok(request) => client@.request(
                    Method::Get,
                    list_path(zone@, None, None),
                    Seq::empty(),
                    now,
                ) == Ok::<RequestView, OvhErrorView>(request@),
                Err(e) => client@.request(
                    Method::Get,
                    list_path(zone@, None, None),
                    Seq::empty(),
                    now,
                ) == Err::<RequestView, OvhErrorView>(e@),
            },
    {
        Self::list_filtered(client, zone, None, None, now)
    }

    /// Begins the listing of the records of a zone that have the given
    /// type, if any, and the given subdomain, if any: the request for their
    /// ids, which is that of [`OvhDnsRecord::list_ids_filtered`].
    ///
    /// The listing goes on with [`OvhDnsRecord::ids`] on the reply, then
    /// with one request per id from [`OvhDnsRecord::get_all`], all sent
    /// at once, and ends with [`OvhDnsRecord::gathered`] on their replies:
    /// every record in the order of the ids, or the first failure with its
    /// id.
    pub fn list_filtered(
        client: &OvhClient,
        zone: &str,
        record_type: Option<DnsRecordType>,
        subdomain: Option<&str>,
        now: u64,
    ) -> (r: Result<Request, OvhError>)
        ensures
            match r {
                Ok(request) => client@.request(
                    Method::Get,
                    list_path(zone@, record_type, slice_text(subdomain)),
                    Seq::empty(),
                    now,
                ) == Ok::<RequestView, OvhErrorView>(request@),
                Err(e) => client@.request(
                    Method::Get,
                    list_path(zone@, record_type, slice_text(subdomain)),
                    Seq::empty(),
                    now,
                ) == Err::<RequestView, OvhErrorView>(e@),
            },
    {
        Self::list_ids_filtered(client, zone, record_type, subdomain, now)
    }

    /// Reads the ids out of the reply to a listing, in the server's order.
    ///
    /// An error in place of the reply is handed on. A status that does not
    /// report success gives `ApiError`, a body that is no list of ids
    /// `ParseError`.
    pub fn ids(reply: Reply) -> (r: Result<Vec<u64>, OvhError>)
        ensures
            match r {
                Ok(ids) => spec_ids(reply_view(reply)) == Ok::<Seq<u64>, OvhErrorView>(ids@),
                Err(e) => spec_ids(reply_view(reply)) == Err::<Seq<u64>, OvhErrorView>(e@),
            },
    {
        match reply {
            Err(e) => Err(e),
            Ok(response) => match response.error_for_status() {
                Err(e) => Err(e),
                Ok(response) => parse_u64_list(response.body.as_str()),
            },
        }
    }

    /// One request per id, in the order of the ids: the fan-out of a
    /// listing.
    ///
    /// Fails, as [`OvhClient::request`] does, where one of the requests
    /// cannot be made: then with the error of the first such id.
    pub fn get_all(client: &OvhClient, zone: &str, ids: &Vec<u64>, now: u64) -> (r: Result<
        Vec<Request>,
        OvhError,
    >)
        ensures
            match r {
                Ok(requests) => {
                    &&& requests@.len() == ids@.len()
                    &&& forall|i: int|
                        0 <= i < ids@.len() ==> client@.request(
                            Method::Get,
                            record_path(zone@, #[trigger] ids@[i]),
                            Seq::empty(),
                            now,
                        ) == Ok::<RequestView, OvhErrorView>(requests@[i]@)
                },
                Err(e) => exists|k: int|
                    {
                        &&& 0 <= k < ids@.len()
                        &&& client@.request(
                            Method::Get,
                            record_path(zone@, #[trigger] ids@[k]),
                            Seq::empty(),
                            now,
                        ) == Err::<RequestView, OvhErrorView>(e@)
                        &&& forall|i: int|
                            0 <= i < k ==> client@.request(
                                Method::Get,
                                record_path(zone@, #[trigger] ids@[i]),
                                Seq::empty(),
                                now,
                            ) is Ok
                    },
            },
    {
        let mut requests: Vec<Request> = Vec::new();
        let mut i: usize = 0;
        while i < ids.len()
            invariant
                i <= ids@.len(),
                requests@.len() == i,
                forall|j: int|
                    0 <= j < i ==> client@.request(
                        Method::Get,
                        record_path(zone@, #[trigger] ids@[j]),
                        Seq::empty(),
                        now,
                    ) == Ok::<RequestView, OvhErrorView>(requests@[j]@),
            decreases ids@.len() - i,
        {
            match Self::get(client, zone, ids[i], now) {
                Err(e) => {
                    return Err(e);
                },
                Ok(request) => {
                    requests.push(request);
                },
            }
            i += 1;
        }
        Ok(requests)
    }

    /// Makes a record of the fields of a JSON object, as the server sent
    /// them: see [`spec_from_fields`] for what has to be there. The record
    /// is not normalized.
    pub fn from_fields(fields: &Vec<(String, JsonValue)>) -> (record: Option<OvhDnsRecord>)
        ensures
            record_view(record) == spec_from_fields(field_views(fields@)),
    {
        let id = match get_u64(fields, "id") {
            Some(id) => id,
            None => {
                return None;
            },
        };
        let zone = match get_text(fields, "zone") {
            Some(zone) => zone,
            None => {
                return None;
            },
        };
        let record_type = match get_text(fields, "fieldType") {
            Some(name) => match DnsRecordType::from_name(name.as_str()) {
                Some(record_type) => record_type,
                None => {
                    return None;
                },
            },
            None => {
                return None;
            },
        };
        let subdomain = match get_optional_text(fields, "subDomain") {
            Some(subdomain) => subdomain,
            None => {
                return None;
            },
        };
        let target = match get_text(fields, "target") {
            Some(target) => target,
            None => {
                return None;
            },
        };
        let ttl = match get_optional_i32(fields, "ttl") {
            Some(ttl) => ttl,
            None => {
                return None;
            },
        };
        Some(OvhDnsRecord { id, zone, record_type, subdomain, target, ttl })
    }

    /// Reads a record out of the reply that holds it, and normalizes it.
    ///
    /// An error in place of the reply is handed on. A status that does not
    /// report success gives `ApiError`, a body that is no JSON object or
    /// describes no record `ParseError`.
    pub fn received(reply: Reply) -> (r: Result<OvhDnsRecord, OvhError>)
        ensures
            match r {
                Ok(record) => spec_received(reply_view(reply)) == Ok::<
                    DnsRecordView,
                    OvhErrorView,
                >(record@) && record@.is_normal(),
                Err(e) => spec_received(reply_view(reply)) == Err::<DnsRecordView, OvhErrorView>(
                    e@,
                ),
            },
    {
        match reply {
            Err(e) => Err(e),
            Ok(response) => match response.error_for_status() {
                Err(e) => Err(e),
                Ok(response) => match parse_object(response.body.as_str()) {
                    Err(e) => Err(e),
                    Ok(fields) => match Self::from_fields(&fields) {
                        None => Err(OvhError::ParseError),
                        Some(record) => Ok(record.normalize()),
                    },
                },
            },
        }
    }

    /// Ends a listing: takes the ids and the replies to the requests of
    /// [`OvhDnsRecord::get_all`], a reply at the position of its id.
    ///
    /// Where every fetch succeeded the result holds the record of every
    /// id, normalized, as many as there were ids and in their order. Where
    /// one failed, the result is the error of the first fetch that failed,
    /// with its id: no record is left out in silence. An id without a reply
    /// counts as a fetch that failed with `NetworkError`.
    pub fn gathered(ids: Vec<u64>, replies: Vec<Reply>) -> (r: Result<
        Vec<OvhDnsRecord>,
        ListError<u64>,
    >)
        ensures
            match r {
                Ok(records) => {
                    &&& records@.len() == ids@.len()
                    &&& forall|i: int|
                        0 <= i < ids@.len() ==> spec_fetched(replies@, i) == Ok::<
                            DnsRecordView,
                            OvhErrorView,
                        >((#[trigger] records@[i])@)
                },
                Err(e) => exists|k: int|
                    {
                        &&& 0 <= k < ids@.len()
                        &&& e.id == #[trigger] ids@[k]
                        &&& spec_fetched(replies@, k) == Err::<DnsRecordView, OvhErrorView>(
                            e.error@,
                        )
                        &&& forall|i: int| 0 <= i < k ==> spec_fetched(replies@, i) is Ok
                    },
            },
    {
        let ghost all = replies@;
        let mut rest = reversed(replies);
        let mut fetched: Vec<(u64, Result<OvhDnsRecord, OvhError>)> = Vec::new();
        let mut i: usize = 0;
        while i < ids.len()
            invariant
                i <= ids@.len(),
                fetched@.len() == i,
                rest@.len() == if i <= all.len() {
                    all.len() - i
                } else {
                    0
                },
                forall|j: int| 0 <= j < rest@.len() ==> #[trigger] rest@[j] == all[all.len() - 1 - j],
                forall|j: int|
                    0 <= j < i ==> {
                        &&& (#[trigger] fetched@[j]).0 == ids@[j]
                        &&& match fetched@[j].1 {
                            Ok(record) => spec_fetched(all, j) == Ok::<DnsRecordView, OvhErrorView>(
                                record@,
                            ),
                            Err(e) => spec_fetched(all, j) == Err::<DnsRecordView, OvhErrorView>(
                                e@,
                            ),
                        }
                    },
            decreases ids@.len() - i,
        {
            let outcome = match rest.pop() {
                Some(reply) => Self::received(reply),
                None => Err(OvhError::NetworkError),
            };
            fetched.push((ids[i], outcome));
            i += 1;
        }
        let ghost outcomes = fetched@;
        match collect(fetched) {
            Ok(records) => {
                assert forall|i: int| 0 <= i < ids@.len() implies spec_fetched(all, i) == Ok::<
                    DnsRecordView,
                    OvhErrorView,
                >((#[trigger] records@[i])@) by {
                    assert(outcomes[i].1 is Ok);
                }
                Ok(records)
            },
            Err(e) => {
                proof {
                    let k = choose|k: int|
                        first_failure(outcomes, k) && e.id == (#[trigger] outcomes[k]).0
                            && e.error == outcomes[k].1->Err_0;
                    assert(e.id == ids@[k]);
                    assert forall|i: int| 0 <= i < k implies spec_fetched(all, i) is Ok by {
                        assert(outcomes[i].1 is Ok);
                    }
                }
                Err(e)
            },
        }
    }

    /// Frames the JSON object that creates a record; `subdomain` and
    /// `target` are JSON string literals already.
    pub fn creation_body(
        record_type: DnsRecordType,
        subdomain: Option<&str>,
        target: &str,
        ttl: Option<i32>,
    ) -> (body: String)
        ensures
            body@ == creation_body(record_type, slice_text(subdomain), target@, ttl),
    {
        let mut body = String::from_str("{\"fieldType\":\"");
        body.append(record_type.as_str());
        body.append("\",\"subDomain\":");
        match subdomain {
            Some(literal) => body.append(literal),
            None => body.append("null"),
        }
        body.append(",\"target\":");
        body.append(target);
        body.append(",\"ttl\":");
        match ttl {
            Some(ttl) => push_signed_decimal(&mut body, ttl as i64),
            None => body.append("null"),
        }
        body.append("}");
        body
    }

    /// The request that creates a record in a zone, from the fields that a
    /// caller may set; the server gives the id. The change is live once
    /// the zone was refreshed: see [`OvhDnsRecord::follow_up`] and
    /// [`OvhDnsRecord::committed`].
    ///
    /// Fails as [`OvhClient::request`] does, and only then.
    pub fn create(
        c: &OvhClient,
        subdomain: Option<&str>,
        zone: &str,
        record_type: DnsRecordType,
        ttl: Option<i32>,
        target: &str,
        now: u64,
    ) -> (r: Result<Request, OvhError>)
        ensures
            ({
                let body = spec_creation_body(record_type, slice_text(subdomain), target@, ttl);
                match r {
                    Ok(request) => c@.request(Method::Post, records_path(zone@), body, now) == Ok::<
                        RequestView,
                        OvhErrorView,
                    >(request@),
                    Err(e) => c@.request(Method::Post, records_path(zone@), body, now) == Err::<
                        RequestView,
                        OvhErrorView,
                    >(e@),
                }
            }),
    {
        let target = match quote(target) {
            Ok(literal) => literal,
            Err(e) => {
                return Err(e);
            },
        };
        let body = match subdomain {
            None => Self::creation_body(record_type, None, target.as_str(), ttl),
            Some(subdomain) => match quote(subdomain) {
                Ok(literal) => Self::creation_body(
                    record_type,
                    Some(literal.as_str()),
                    target.as_str(),
                    ttl,
                ),
                Err(e) => {
                    return Err(e);
                },
            },
        };
        let path = Self::records_path(zone);
        c.post(path.as_str(), body.as_str(), now)
    }

    /// The request that deletes a record. The change is live once the zone
    /// was refreshed: see [`OvhDnsRecord::follow_up`]. Both replies are
    /// read with [`acknowledged`].
    ///
    /// Fails as [`OvhClient::request`] does.
    pub fn delete(c: &OvhClient, zone: &str, id: u64, now: u64) -> (r: Result<Request, OvhError>)
        ensures
            match r {
                Ok(request) => c@.request(
                    Method::Delete,
                    record_path(zone@, id),
                    Seq::empty(),
                    now,
                ) == Ok::<RequestView, OvhErrorView>(request@),
                Err(e) => c@.request(Method::Delete, record_path(zone@, id), Seq::empty(), now)
                    == Err::<RequestView, OvhErrorView>(e@),
            },
    {
        let path = Self::record_path(zone, id);
        c.delete(path.as_str(), now)
    }

    /// The request that refreshes a zone, which makes the changes to its
    /// records live: a POST without a body. One refresh serves any number
    /// of creations and deletions before it.
    ///
    /// Fails as [`OvhClient::request`] does.
    pub fn refresh_zone(c: &OvhClient, zone: &str, now: u64) -> (r: Result<Request, OvhError>)
        ensures
            match r {
                Ok(request) => c@.request(
                    Method::Post,
                    refresh_path(zone@),
                    Seq::empty(),
                    now,
                ) == Ok::<RequestView, OvhErrorView>(request@),
                Err(e) => c@.request(Method::Post, refresh_path(zone@), Seq::empty(), now) == Err::<
                    RequestView,
                    OvhErrorView,
                >(e@),
            },
    {
        let mut path = String::from_str("/domain/zone/");
        path.append(zone);
        path.append("/refresh");
        c.post_empty(path.as_str(), now)
    }

    /// What follows a creation or a deletion that went well: with
    /// `apply_change` the request that refreshes the zone, which is that of
    /// [`OvhDnsRecord::refresh_zone`], or the reason why it cannot be made;
    /// without it nothing.
    pub fn follow_up(c: &OvhClient, zone: &str, apply_change: bool, now: u64) -> (next: Option<
        Result<Request, OvhError>,
    >)
        ensures
            !apply_change ==> next is None,
            apply_change ==> next is Some && match next->Some_0 {
                Ok(request) => c@.request(
                    Method::Post,
                    refresh_path(zone@),
                    Seq::empty(),
                    now,
                ) == Ok::<RequestView, OvhErrorView>(request@),
                Err(e) => c@.request(Method::Post, refresh_path(zone@), Seq::empty(), now) == Err::<
                    RequestView,
                    OvhErrorView,
                >(e@),
            },
    {
        if apply_change {
            Some(Self::refresh_zone(c, zone, now))
        } else {
            None
        }
    }

    /// Reads the reply to a creation: the record that was created,
    /// normalized, or the error of [`OvhDnsRecord::received`] with the note
    /// that there is no record.
    pub fn created(reply: Reply) -> (r: Result<OvhDnsRecord, CreateError>)
        ensures
            match r {
                Ok(record) => spec_received(reply_view(reply)) == Ok::<
                    DnsRecordView,
                    OvhErrorView,
                >(record@) && record@.is_normal(),
                Err(e) => spec_received(reply_view(reply)) == Err::<DnsRecordView, OvhErrorView>(
                    e.error@,
                ) && e.created is None,
            },
    {
        match Self::received(reply) {
            Ok(record) => Ok(record),
            Err(error) => Err(Self::not_created(error)),
        }
    }

    /// Ends a creation: takes the record that was created and the reply to
    /// the refresh of its zone.
    ///
    /// Where the refresh failed, for whatever reason, the error says so
    /// and holds the record in `created`: it exists, and is not live.
    pub fn committed(record: OvhDnsRecord, refresh: Reply) -> (r: Result<OvhDnsRecord, CreateError>)
        ensures
            match r {
                Ok(live) => spec_acknowledged(reply_view(refresh)) is Ok && live == record,
                Err(e) => spec_acknowledged(reply_view(refresh)) == Err::<(), OvhErrorView>(
                    e.error@,
                ) && e.created == Some(record),
            },
    {
        match acknowledged(refresh) {
            Ok(_) => Ok(record),
            Err(error) => Err(CreateError { error, created: Some(record) }),
        }
    }

    /// The error of a creation whose first call failed: there is no record.
    pub fn not_created(error: OvhError) -> (e: CreateError)
        ensures
            e.error == error,
            e.created is None,
    {
        CreateError { error, created: None }
    }
}

/// Every record type is found again under its name, and under no other.
pub proof fn lemma_type_names(record_type: DnsRecordType, name: Seq<char>)
    ensures
        DnsRecordType::named(record_type.name()) == Some(record_type),
        DnsRecordType::named(name) == Some(record_type) <==> name == record_type.name(),
{
    reveal_strlit("A");
    reveal_strlit("AAAA");
    reveal_strlit("CAA");
    reveal_strlit("CNAME");
    reveal_strlit("DKIM");
    reveal_strlit("DMARC");
    reveal_strlit("DNAME");
    reveal_strlit("LOC");
    reveal_strlit("MX");
    reveal_strlit("NAPTR");
    reveal_strlit("NS");
    reveal_strlit("PTR");
    reveal_strlit("SPF");
    reveal_strlit("SRV");
    reveal_strlit("SSHFP");
    reveal_strlit("TLSA");
    reveal_strlit("TXT");
    assert("A"@.len() == 1);
    assert("A"@[0] == 'A');
    assert("AAAA"@.len() == 4);
    assert("AAAA"@[0] == 'A');
    assert("AAAA"@[1] == 'A');
    assert("CAA"@.len() == 3);
    assert("CAA"@[0] == 'C');
    assert("CAA"@[1] == 'A');
    assert("CNAME"@.len() == 5);
    assert("CNAME"@[0] == 'C');
    assert("CNAME"@[1] == 'N');
    assert("DKIM"@.len() == 4);
    assert("DKIM"@[0] == 'D');
    assert("DKIM"@[1] == 'K');
    assert("DMARC"@.len() == 5);
    assert("DMARC"@[0] == 'D');
    assert("DMARC"@[1] == 'M');
    assert("DNAME"@.len() == 5);
    assert("DNAME"@[0] == 'D');
    assert("DNAME"@[1] == 'N');
    assert("LOC"@.len() == 3);
    assert("LOC"@[0] == 'L');
    assert("LOC"@[1] == 'O');
    assert("MX"@.len() == 2);
    assert("MX"@[0] == 'M');
    assert("MX"@[1] == 'X');
    assert("NAPTR"@.len() == 5);
    assert("NAPTR"@[0] == 'N');
    assert("NAPTR"@[1] == 'A');
    assert("NS"@.len() == 2);
    assert("NS"@[0] == 'N');
    assert("NS"@[1] == 'S');
    assert("PTR"@.len() == 3);
    assert("PTR"@[0] == 'P');
    assert("PTR"@[1] == 'T');
    assert("SPF"@.len() == 3);
    assert("SPF"@[0] == 'S');
    assert("SPF"@[1] == 'P');
    assert("SRV"@.len() == 3);
    assert("SRV"@[0] == 'S');
    assert("SRV"@[1] == 'R');
    assert("SSHFP"@.len() == 5);
    assert("SSHFP"@[0] == 'S');
    assert("SSHFP"@[1] == 'S');
    assert("TLSA"@.len() == 4);
    assert("TLSA"@[0] == 'T');
    assert("TLSA"@[1] == 'L');
    assert("TXT"@.len() == 3);
    assert("TXT"@[0] == 'T');
    assert("TXT"@[1] == 'X');
}

/// Normalizing a record twice is normalizing it once, and what comes out
/// holds neither of the server's marks for "unset".
pub proof fn lemma_normalize_idempotent(record: DnsRecordView)
    ensures
        record.normalized().is_normal(),
        record.normalized().normalized() == record.normalized(),
{
}

/// Normalizing touches the server's marks for "unset" and nothing else: a
/// subdomain that is not empty and a TTL that is not zero pass through
/// unchanged, as do the id, the zone, the type and the target.
pub proof fn lemma_normalize_keeps_values(record: DnsRecordView)
    ensures
        record.normalized().id == record.id,
        record.normalized().zone == record.zone,
        record.normalized().record_type == record.record_type,
        record.normalized().target == record.target,
        record.subdomain == Some(Seq::<char>::empty()) ==> record.normalized().subdomain is None,
        record.subdomain != Some(Seq::<char>::empty()) ==> record.normalized().subdomain
            == record.subdomain,
        record.ttl == Some(0i32) ==> record.normalized().ttl is None,
        record.ttl != Some(0i32) ==> record.normalized().ttl == record.ttl,
        record.is_normal() ==> record.normalized() == record,
{
}

} // verus!
