//! Credentials from a configuration text in the format of `ovh.conf`:
//!
//! ```ini
//! [default]
//! endpoint=ovh-eu
//!
//! [ovh-eu]
//! application_key=my_app_key
//! application_secret=my_application_secret
//! consumer_key=my_consumer_key
//! ```
//!
//! The text is read by the `configparser` crate; which keys are asked for,
//! in which order, and what their absence means is decided here.

use configparser::ini::Ini;
use vstd::prelude::*;
use vstd::string::*;
use vstd::utf8::*;

use crate::client::{spec_credentials, Credentials, CredentialsView, OvhClient};
use crate::error::{OvhError, OvhErrorView};
use crate::text::lemma_utf8_length;

verus! {

/// The number of bytes from which on a text is not read as a configuration:
/// the parser counts the lines of its input in 32 bits, and a text has no
/// more lines than bytes.
pub const CONF_TEXT_LIMIT: u64 = 0x7fff_fffe;

/// Whether a text is short enough to be read as a configuration.
pub open spec fn readable(text: Seq<char>) -> bool {
    encode_utf8(text).len() < CONF_TEXT_LIMIT
}

/// The configuration type of the `configparser` crate, carried as it is.
#[verifier::external_type_specification]
#[verifier::external_body]
pub struct ExIni(Ini);

/// What a configuration holds: the value under a section and a key, for
/// each section and key, written as `Ini::get` takes them, under which
/// `Ini::get` finds a value.
pub uninterp spec fn ini_entries(ini: Ini) -> Map<(Seq<char>, Seq<char>), Seq<char>>;

/// What a configuration text holds once `configparser` has read it with
/// its default settings, in the sense of [`ini_entries`]; `None` for a text
/// that it rejects.
pub uninterp spec fn conf_entries(text: Seq<char>) -> Option<Map<(Seq<char>, Seq<char>), Seq<char>>>;

/// Reads a text into a fresh configuration: `Ini::new`, then `Ini::read` on
/// it. Trusted: that whether the text is accepted, and what the
/// configuration then answers to `Ini::get`, depend on the text alone. The
/// bound keeps the parser's count of lines within 32 bits.
#[verifier::external_body]
pub(crate) fn read_ini(text: &str) -> (r: Result<Ini, String>)
    requires
        text.spec_bytes().len() < CONF_TEXT_LIMIT,
    ensures
        match r {
            Ok(ini) => conf_entries(text@) == Some(ini_entries(ini)),
            Err(_) => conf_entries(text@) is None,
        },
{
    let mut ini = Ini::new();
    match ini.read(text.to_owned()) {
        Ok(_) => Ok(ini),
        Err(why) => Err(why),
    }
}

/// Looks a key up in a section: `Ini::get`. Trusted: that the answer is the
/// entry of [`ini_entries`] under this section and key, and `None` where
/// there is no such entry.
#[verifier::external_body]
fn ini_get(ini: &Ini, section: &str, key: &str) -> (value: Option<String>)
    ensures
        match value {
            Some(v) => ini_entries(*ini).contains_key((section@, key@)) && ini_entries(
                *ini,
            )[(section@, key@)] == v@,
            None => !ini_entries(*ini).contains_key((section@, key@)),
        },
{
    ini.get(section, key)
}

/// The value of a key that has to be there.
pub open spec fn spec_required(
    entries: Map<(Seq<char>, Seq<char>), Seq<char>>,
    section: Seq<char>,
    key: Seq<char>,
) -> Result<Seq<char>, OvhErrorView> {
    if entries.contains_key((section, key)) {
        Ok(entries[(section, key)])
    } else {
        Err(OvhErrorView::MissingConfigKey(key))
    }
}

/// The credentials that the entries of a configuration describe.
///
/// The section `default` names the endpoint under the key `endpoint`; the
/// section of that name holds `application_key`, `application_secret` and
/// `consumer_key`. The keys are asked for in this order and the first that
/// is absent is the one reported; only then is the endpoint resolved.
pub open spec fn spec_credentials_from(entries: Map<(Seq<char>, Seq<char>), Seq<char>>) -> Result<
    CredentialsView,
    OvhErrorView,
> {
    match spec_required(entries, "default"@, "endpoint"@) {
        Err(e) => Err(e),
        Ok(endpoint) => match spec_required(entries, endpoint, "application_key"@) {
            Err(e) => Err(e),
            Ok(application_key) => match spec_required(entries, endpoint, "application_secret"@) {
                Err(e) => Err(e),
                Ok(application_secret) => match spec_required(entries, endpoint, "consumer_key"@) {
                    Err(e) => Err(e),
                    Ok(consumer_key) => spec_credentials(
                        endpoint,
                        application_key,
                        application_secret,
                        consumer_key,
                    ),
                },
            },
        },
    }
}

/// The credentials that a configuration text describes; `OutOfRange` for a
/// text that is too long to be read, `ParseError` for one that is no
/// configuration.
pub open spec fn spec_from_conf(text: Seq<char>) -> Result<CredentialsView, OvhErrorView> {
    if !readable(text) {
        Err(OvhErrorView::OutOfRange)
    } else {
        match conf_entries(text) {
            None => Err(OvhErrorView::ParseError),
            Some(entries) => spec_credentials_from(entries),
        }
    }
}

/// A text can be read as a configuration whenever it has fewer characters
/// than a quarter of the limit in bytes.
pub proof fn lemma_short_text_readable(text: Seq<char>)
    requires
        4 * text.len() < CONF_TEXT_LIMIT,
    ensures
        readable(text),
{
    lemma_utf8_length(text);
}

/// The value of a key that has to be there: `MissingConfigKey` with the
/// key's name where it is not.
pub fn required(ini: &Ini, section: &str, key: &str) -> (r: Result<String, OvhError>)
    ensures
        match r {
            Ok(value) => spec_required(ini_entries(*ini), section@, key@) == Ok::<
                Seq<char>,
                OvhErrorView,
            >(value@),
            Err(e) => spec_required(ini_entries(*ini), section@, key@) == Err::<
                Seq<char>,
                OvhErrorView,
            >(e@),
        },
{
    match ini_get(ini, section, key) {
        Some(value) => Ok(value),
        None => Err(OvhError::MissingConfigKey(String::from_str(key))),
    }
}

/// Takes the credentials out of a configuration that was read already.
///
/// Fails with `MissingConfigKey` for the first required key that is
/// absent, and with `UnknownEndpoint` where all are there and the endpoint
/// is not in the table.
pub fn credentials_from_ini(ini: &Ini) -> (r: Result<Credentials, OvhError>)
    ensures
        match r {
            Ok(credentials) => spec_credentials_from(ini_entries(*ini)) == Ok::<
                CredentialsView,
                OvhErrorView,
            >(credentials@),
            Err(e) => spec_credentials_from(ini_entries(*ini)) == Err::<
                CredentialsView,
                OvhErrorView,
            >(e@),
        },
{
    let endpoint = match required(ini, "default", "endpoint") {
        Ok(value) => value,
        Err(e) => {
            return Err(e);
        },
    };
    let application_key = match required(ini, endpoint.as_str(), "application_key") {
        Ok(value) => value,
        Err(e) => {
            return Err(e);
        },
    };
    let application_secret = match required(ini, endpoint.as_str(), "application_secret") {
        Ok(value) => value,
        Err(e) => {
            return Err(e);
        },
    };
    let consumer_key = match required(ini, endpoint.as_str(), "consumer_key") {
        Ok(value) => value,
        Err(e) => {
            return Err(e);
        },
    };
    OvhClient::new(
        endpoint.as_str(),
        application_key.as_str(),
        application_secret.as_str(),
        consumer_key.as_str(),
    )
}

} // verus!
