//! The fixed table of endpoint identifiers and the base URLs behind them.

use vstd::prelude::*;
use vstd::string::*;

use crate::text::str_eq;

verus! {

/// The base URL of an endpoint identifier; `None` for an identifier that is
/// not in the table.
pub open spec fn endpoint_base(id: Seq<char>) -> Option<Seq<char>> {
    if id == "ovh-eu"@ {
        Some("https://eu.api.ovh.com/1.0"@)
    } else if id == "ovh-us"@ {
        Some("https://api.us.ovhcloud.com/1.0"@)
    } else if id == "ovh-ca"@ {
        Some("https://ca.api.ovh.com/1.0"@)
    } else if id == "kimsufi-eu"@ {
        Some("https://eu.api.kimsufi.com/1.0"@)
    } else if id == "kimsufi-ca"@ {
        Some("https://ca.api.kimsufi.com/1.0"@)
    } else if id == "soyoustart-eu"@ {
        Some("https://eu.api.soyoustart.com/1.0"@)
    } else if id == "soyoustart-ca"@ {
        Some("https://ca.api.soyoustart.com/1.0"@)
    } else {
        None
    }
}

/// Whether a URL is the base URL of one of the endpoints in the table.
pub open spec fn is_endpoint_base(url: Seq<char>) -> bool {
    exists|id: Seq<char>| endpoint_base(id) == Some(url)
}

/// Looks an endpoint identifier up in the table. The identifier is taken as
/// it is written: no other spelling of it is known, and none is guessed.
pub fn endpoint_url(id: &str) -> (url: Option<&'static str>)
    ensures
        match url {
            Some(base) => endpoint_base(id@) == Some(base@),
            None => endpoint_base(id@) is None,
        },
{
    if str_eq(id, "ovh-eu") {
        Some("https://eu.api.ovh.com/1.0")
    } else if str_eq(id, "ovh-us") {
        Some("https://api.us.ovhcloud.com/1.0")
    } else if str_eq(id, "ovh-ca") {
        Some("https://ca.api.ovh.com/1.0")
    } else if str_eq(id, "kimsufi-eu") {
        Some("https://eu.api.kimsufi.com/1.0")
    } else if str_eq(id, "kimsufi-ca") {
        Some("https://ca.api.kimsufi.com/1.0")
    } else if str_eq(id, "soyoustart-eu") {
        Some("https://eu.api.soyoustart.com/1.0")
    } else if str_eq(id, "soyoustart-ca") {
        Some("https://ca.api.soyoustart.com/1.0")
    } else {
        None
    }
}

} // verus!
