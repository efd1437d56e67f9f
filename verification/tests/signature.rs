use ovh::error::OvhError;
use ovh::signature::{signature, signing_message, tag_digest};

const SECRET: &str = "my_app_secret";
const CONSUMER: &str = "my_consumer_key";
const URL: &str = "https://eu.api.ovh.com/1.0/me";

#[test]
fn signing_message_joins_the_fields_with_plus() {
    assert_eq!(
        signing_message(SECRET, CONSUMER, "GET", URL, "", "1015"),
        "my_app_secret+my_consumer_key+GET+https://eu.api.ovh.com/1.0/me++1015"
    );
    assert_eq!(signing_message("", "", "", "", "", ""), "+++++");
    assert_eq!(signing_message("a", "b", "c", "d", "e", "f"), "a+b+c+d+e+f");
}

#[test]
fn tag_digest_puts_the_tag_in_front() {
    assert_eq!(tag_digest("abc"), "$1$abc");
    assert_eq!(tag_digest(""), "$1$");
}

#[test]
fn signature_of_the_documented_example() {
    let s = signature(
        "EXEgWIz07P0HYwtQDs7cNIqCiQaWSuHF",
        "MtSwSrPpNjqfVSmJhLbPyr2i45lSwPU1",
        "GET",
        "https://eu.api.ovh.com/1.0/domains/",
        "",
        "1366560945",
    );
    assert_eq!(s, Ok(String::from("$1$d3705e8afb27a0d2970a322b96550abfc67bb798")));
}

#[test]
fn signature_of_a_known_tuple() {
    assert_eq!(
        signature(SECRET, CONSUMER, "GET", URL, "", "1015"),
        Ok(String::from("$1$b1e2aed17f04c1769abc5657b60a18e81b45904b"))
    );
}

#[test]
fn signature_is_deterministic() {
    let first = signature(SECRET, CONSUMER, "GET", URL, "", "1015");
    let second = signature(SECRET, CONSUMER, "GET", URL, "", "1015");
    assert_eq!(first, second);
    assert!(first.is_ok());
}

#[test]
fn signature_has_tag_and_forty_hex_digits() {
    let s = signature(SECRET, CONSUMER, "POST", URL, "{\"a\":1}", "1").unwrap();
    assert_eq!(s.len(), 43);
    assert!(s.starts_with("$1$"));
    assert!(s[3..].chars().all(|c| c.is_ascii_digit() || ('a'..='f').contains(&c)));
}

#[test]
fn signature_changes_with_each_field() {
    let base = signature(SECRET, CONSUMER, "GET", URL, "", "1015").unwrap();
    let changed = [
        (
            signature("other_app_secret", CONSUMER, "GET", URL, "", "1015"),
            "$1$f7887d9981ed89697d9e12a0c810e4cb89df9179",
        ),
        (
            signature(SECRET, "other_consumer_key", "GET", URL, "", "1015"),
            "$1$f4e87bec0398159afcde33f366f1118a1e716444",
        ),
        (
            signature(SECRET, CONSUMER, "POST", URL, "", "1015"),
            "$1$09819607ed1ab8c64198b5956684b2fa8bbac980",
        ),
        (
            signature(SECRET, CONSUMER, "GET", "https://eu.api.ovh.com/1.0/you", "", "1015"),
            "$1$ae38f49b5858b8e08dfee8bd552b0b5358c56871",
        ),
        (
            signature(SECRET, CONSUMER, "GET", URL, "{}", "1015"),
            "$1$0a8479bca08508ef75b56c7e14475c06afaca2b5",
        ),
        (
            signature(SECRET, CONSUMER, "GET", URL, "", "1016"),
            "$1$dff6b65d70a47a4e3ead4b6b58d416cf0acf4aee",
        ),
    ];
    for (got, expected) in changed {
        let got: Result<String, OvhError> = got;
        let got = got.unwrap();
        assert_eq!(got, expected);
        assert_ne!(got, base);
    }
}

#[test]
fn signature_digests_the_utf8_bytes() {
    assert_eq!(
        signing_message("h\u{e9}llo", "w\u{f6}rld", "", "", "", ""),
        "h\u{e9}llo+w\u{f6}rld++++"
    );
    assert_eq!(
        signature("h\u{e9}llo", "w\u{f6}rld", "", "", "", ""),
        Ok(String::from("$1$87706b6cce3500017e49c9743a5d342074698d89"))
    );
}
