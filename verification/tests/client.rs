use ovh::client::{clock_offset, Credentials, OvhClient};
use ovh::error::OvhError;
use ovh::request::{Header, HttpResponse, Method, Request};

fn credentials() -> Credentials {
    OvhClient::new("ovh-eu", "my_app_key", "my_app_secret", "my_consumer_key").unwrap()
}

fn answer(status: u16, body: &str) -> Result<HttpResponse, OvhError> {
    Ok(HttpResponse::new(status, body))
}

fn client_with(local_time: u64, server_time: &str) -> OvhClient {
    credentials().synchronize(local_time, answer(200, server_time)).unwrap()
}

fn header<'a>(request: &'a Request, name: &str) -> Option<&'a Header> {
    request.headers.iter().find(|h| h.name == name)
}

#[test]
fn new_resolves_a_known_endpoint() {
    let c = credentials();
    assert_eq!(c.endpoint(), "https://eu.api.ovh.com/1.0");
    assert_eq!(c.application_key(), "my_app_key");
    let c = OvhClient::new("soyoustart-ca", "k", "s", "c").unwrap();
    assert_eq!(c.endpoint(), "https://ca.api.soyoustart.com/1.0");
}

#[test]
fn unknown_endpoint_fails_construction() {
    let r = OvhClient::new("not-a-real-endpoint", "ak", "as", "ck");
    assert_eq!(r.err(), Some(OvhError::UnknownEndpoint));
    let r = OvhClient::new("wrong-endpoint", "my_app_key", "my_app_secret", "my_consumer_key");
    assert_eq!(r.err(), Some(OvhError::UnknownEndpoint));
    let r = OvhClient::new("", "ak", "as", "ck");
    assert_eq!(r.err(), Some(OvhError::UnknownEndpoint));
}

#[test]
fn time_request_is_an_unsigned_get() {
    let request = credentials().time_request();
    assert_eq!(request.method, Method::Get);
    assert_eq!(request.url, "https://eu.api.ovh.com/1.0/auth/time");
    assert_eq!(request.body, "");
    assert_eq!(request.headers.len(), 1);
    assert_eq!(request.headers[0].name, "X-Ovh-Application");
    assert_eq!(request.headers[0].value, "my_app_key");
    assert!(!request.headers[0].sensitive);
}

#[test]
fn clock_offset_is_local_minus_remote() {
    assert_eq!(clock_offset(1005, "1000"), Ok(5));
    assert_eq!(clock_offset(1000, "1000"), Ok(0));
    assert_eq!(clock_offset(1000, "1005"), Ok(-5));
    assert_eq!(clock_offset(0, "0"), Ok(0));
    assert_eq!(clock_offset(i64::MAX as u64, "0"), Ok(i64::MAX));
    assert_eq!(clock_offset(0, "9223372036854775808"), Ok(i64::MIN));
    assert_eq!(clock_offset(u64::MAX, "18446744073709551615"), Ok(0));
}

#[test]
fn clock_offset_rejects_what_is_no_timestamp() {
    assert_eq!(clock_offset(1005, ""), Err(OvhError::ParseError));
    assert_eq!(clock_offset(1005, "soon"), Err(OvhError::ParseError));
    assert_eq!(clock_offset(1005, "1000\n"), Err(OvhError::ParseError));
    assert_eq!(clock_offset(1005, "-1000"), Err(OvhError::ParseError));
    assert_eq!(clock_offset(1005, "1000.5"), Err(OvhError::ParseError));
    assert_eq!(clock_offset(1005, "{\"time\":1000}"), Err(OvhError::ParseError));
    assert_eq!(clock_offset(1005, "18446744073709551616"), Err(OvhError::ParseError));
}

#[test]
fn clock_offset_rejects_what_no_i64_holds() {
    assert_eq!(clock_offset(i64::MAX as u64 + 1, "0"), Err(OvhError::OutOfRange));
    assert_eq!(clock_offset(u64::MAX, "0"), Err(OvhError::OutOfRange));
    assert_eq!(clock_offset(0, "9223372036854775809"), Err(OvhError::OutOfRange));
    assert_eq!(clock_offset(0, "18446744073709551615"), Err(OvhError::OutOfRange));
}

#[test]
fn skew_is_recorded_and_stamps_later_requests() {
    let client = client_with(1005, "1000");
    assert_eq!(client.time_delta(), 5);
    let request = client.get("/me", 1010).unwrap();
    let stamp = header(&request, "X-Ovh-Timestamp").unwrap();
    assert_eq!(stamp.value, "1015");
    assert!(stamp.sensitive);
    // The offset is not measured again: a later request uses the same one.
    let later = client.get("/me", 2000).unwrap();
    assert_eq!(header(&later, "X-Ovh-Timestamp").unwrap().value, "2005");
    assert_eq!(client.time_delta(), 5);
}

#[test]
fn skew_may_be_negative() {
    let client = client_with(1000, "1005");
    assert_eq!(client.time_delta(), -5);
    assert_eq!(client.timestamp(1010), Ok(1005));
    let client = client_with(0, "100");
    assert_eq!(client.timestamp(10), Ok(-90));
    let request = client.get("/me", 10).unwrap();
    assert_eq!(header(&request, "X-Ovh-Timestamp").unwrap().value, "-90");
}

#[test]
fn synchronize_hands_a_failed_request_on() {
    let r = credentials().synchronize(1005, Err(OvhError::NetworkError));
    assert_eq!(r.err(), Some(OvhError::NetworkError));
}

#[test]
fn synchronize_fails_on_a_body_that_is_no_timestamp() {
    let r = credentials().synchronize(1005, answer(200, "not a number"));
    assert_eq!(r.err(), Some(OvhError::ParseError));
    let r = credentials().synchronize(1005, answer(500, "Internal Server Error"));
    assert_eq!(r.err(), Some(OvhError::ParseError));
    let r = credentials().synchronize(u64::MAX, answer(200, "0"));
    assert_eq!(r.err(), Some(OvhError::OutOfRange));
}

#[test]
fn synchronize_reads_the_body_whatever_the_status() {
    let client = credentials().synchronize(1005, answer(503, "1000")).unwrap();
    assert_eq!(client.time_delta(), 5);
}

#[test]
fn synchronize_keeps_the_credentials() {
    let client = client_with(1005, "1000");
    assert_eq!(client.credentials().endpoint(), "https://eu.api.ovh.com/1.0");
    assert_eq!(client.credentials().application_key(), "my_app_key");
}

#[test]
fn timestamp_adds_the_offset() {
    let client = client_with(1005, "1000");
    assert_eq!(client.timestamp(0), Ok(5));
    assert_eq!(client.timestamp(1010), Ok(1015));
    assert_eq!(client.timestamp(i64::MAX as u64 - 5), Ok(i64::MAX));
}

#[test]
fn timestamp_beyond_an_i64_is_out_of_range() {
    let client = client_with(1005, "1000");
    assert_eq!(client.timestamp(i64::MAX as u64 - 4), Err(OvhError::OutOfRange));
    assert_eq!(client.timestamp(i64::MAX as u64 + 1), Err(OvhError::OutOfRange));
    assert_eq!(client.timestamp(u64::MAX), Err(OvhError::OutOfRange));
    assert_eq!(client.get("/me", u64::MAX).err(), Some(OvhError::OutOfRange));
    let behind = client_with(1000, "1005");
    assert_eq!(behind.timestamp(i64::MAX as u64), Ok(i64::MAX - 5));
    assert_eq!(behind.timestamp(i64::MAX as u64 + 1), Err(OvhError::OutOfRange));
}

#[test]
fn signed_get_carries_the_four_headers() {
    let client = client_with(1005, "1000");
    let request = client.get("/me", 1010).unwrap();
    assert_eq!(request.method, Method::Get);
    assert_eq!(request.url, "https://eu.api.ovh.com/1.0/me");
    assert_eq!(request.body, "");
    assert_eq!(request.headers.len(), 4);
    assert_eq!(request.headers[0].name, "X-Ovh-Application");
    assert_eq!(request.headers[0].value, "my_app_key");
    assert!(!request.headers[0].sensitive);
    assert_eq!(request.headers[1].name, "X-Ovh-Consumer");
    assert_eq!(request.headers[1].value, "my_consumer_key");
    assert!(request.headers[1].sensitive);
    assert_eq!(request.headers[2].name, "X-Ovh-Timestamp");
    assert_eq!(request.headers[2].value, "1015");
    assert!(request.headers[2].sensitive);
    assert_eq!(request.headers[3].name, "X-Ovh-Signature");
    assert_eq!(request.headers[3].value, "$1$b1e2aed17f04c1769abc5657b60a18e81b45904b");
    assert!(request.headers[3].sensitive);
    assert!(header(&request, "Content-Type").is_none());
}

#[test]
fn signature_method_signs_with_the_clients_keys() {
    let client = client_with(1005, "1000");
    assert_eq!(
        client.signature("https://eu.api.ovh.com/1.0/me", "1015", "GET", ""),
        Ok(String::from("$1$b1e2aed17f04c1769abc5657b60a18e81b45904b"))
    );
    assert_eq!(
        client.signature("https://eu.api.ovh.com/1.0/me", "1015", "POST", ""),
        Ok(String::from("$1$09819607ed1ab8c64198b5956684b2fa8bbac980"))
    );
}

#[test]
fn gen_headers_adds_the_content_type_for_a_body() {
    let client = client_with(1005, "1000");
    let url = "https://eu.api.ovh.com/1.0/me";
    let headers = client.gen_headers(url, Method::Get, "{}", 1010).unwrap();
    assert_eq!(headers.len(), 5);
    assert_eq!(headers[3].name, "X-Ovh-Signature");
    assert_eq!(headers[3].value, "$1$0a8479bca08508ef75b56c7e14475c06afaca2b5");
    assert_eq!(headers[4].name, "Content-Type");
    assert_eq!(headers[4].value, "application/json; charset=utf-8");
    assert!(!headers[4].sensitive);
    let headers = client.gen_headers(url, Method::Get, "", 1010).unwrap();
    assert_eq!(headers.len(), 4);
}

#[test]
fn post_signs_the_body() {
    let client = OvhClient::new("ovh-eu", "k", "s", "c")
        .unwrap()
        .synchronize(1005, answer(200, "1000"))
        .unwrap();
    let body = "{\"fieldType\":\"A\",\"subDomain\":\"www\",\"target\":\"93.184.216.34\",\"ttl\":86400}";
    let request = client.post("/domain/zone/example.com/record", body, 1010).unwrap();
    assert_eq!(request.method, Method::Post);
    assert_eq!(request.url, "https://eu.api.ovh.com/1.0/domain/zone/example.com/record");
    assert_eq!(request.body, body);
    assert_eq!(
        header(&request, "X-Ovh-Signature").unwrap().value,
        "$1$f4efefa9c8d7661e2308fd59c07eca455e34b6ac"
    );
    assert_eq!(
        header(&request, "Content-Type").unwrap().value,
        "application/json; charset=utf-8"
    );
}

#[test]
fn post_empty_has_no_body_and_no_content_type() {
    let client = OvhClient::new("ovh-eu", "k", "s", "c")
        .unwrap()
        .synchronize(1005, answer(200, "1000"))
        .unwrap();
    let request = client.post_empty("/domain/zone/example.com/refresh", 1010).unwrap();
    assert_eq!(request.method, Method::Post);
    assert_eq!(request.body, "");
    assert_eq!(request.headers.len(), 4);
    assert_eq!(
        header(&request, "X-Ovh-Signature").unwrap().value,
        "$1$90921ee5762fb30f70beed69db3eecf43953de75"
    );
}

#[test]
fn put_and_delete_use_their_verbs() {
    let client = client_with(1005, "1000");
    let put = client.put("/me", "{}", 1010).unwrap();
    assert_eq!(put.method, Method::Put);
    assert_eq!(put.body, "{}");
    assert_eq!(put.headers.len(), 5);
    let delete = client.delete("/me", 1010).unwrap();
    assert_eq!(delete.method, Method::Delete);
    assert_eq!(delete.body, "");
    assert_eq!(delete.headers.len(), 4);
    let get = client.get("/me", 1010).unwrap();
    let sig = |r: &Request| header(r, "X-Ovh-Signature").unwrap().value.clone();
    assert_ne!(sig(&put), sig(&delete));
    assert_ne!(sig(&get), sig(&delete));
}

#[test]
fn request_is_what_the_verbs_are_made_of() {
    let client = client_with(1005, "1000");
    let direct = client.request(Method::Get, "/me", "", 1010).unwrap();
    let get = client.get("/me", 1010).unwrap();
    assert_eq!(direct.url, get.url);
    assert_eq!(direct.headers.len(), get.headers.len());
    for (a, b) in direct.headers.iter().zip(get.headers.iter()) {
        assert_eq!(a.name, b.name);
        assert_eq!(a.value, b.value);
        assert_eq!(a.sensitive, b.sensitive);
    }
}

#[test]
fn get_noauth_carries_no_signature() {
    let client = client_with(1005, "1000");
    let request = client.get_noauth("/auth/time");
    assert_eq!(request.method, Method::Get);
    assert_eq!(request.url, "https://eu.api.ovh.com/1.0/auth/time");
    assert_eq!(request.headers.len(), 1);
    assert_eq!(request.headers[0].name, "X-Ovh-Application");
    assert!(header(&request, "X-Ovh-Signature").is_none());
    assert!(header(&request, "X-Ovh-Consumer").is_none());
    assert!(header(&request, "X-Ovh-Timestamp").is_none());
}

#[test]
fn method_names_are_upper_case() {
    assert_eq!(Method::Get.as_str(), "GET");
    assert_eq!(Method::Post.as_str(), "POST");
    assert_eq!(Method::Put.as_str(), "PUT");
    assert_eq!(Method::Delete.as_str(), "DELETE");
}

#[test]
fn every_signed_request_carries_a_signature_of_43_characters() {
    let client = client_with(1005, "1000");
    let requests = [
        client.get("/me", 1010).unwrap(),
        client.delete("/me", 1010).unwrap(),
        client.post("/me", "{\"a\":1}", 1010).unwrap(),
        client.put("/me", "{}", 0).unwrap(),
        client.post_empty("/me", 1).unwrap(),
        client.request(Method::Get, "", "", 2).unwrap(),
    ];
    for request in requests.iter() {
        let value = &request.headers[3].value;
        assert_eq!(request.headers[3].name, "X-Ovh-Signature");
        assert_eq!(value.len(), 43);
        assert!(value.starts_with("$1$"));
        assert!(value[3..].bytes().all(|b| b.is_ascii_digit() || (b'a'..=b'f').contains(&b)));
    }
}
