use ovh::client::OvhClient;
use ovh::email_redir::OvhMailRedir;
use ovh::error::OvhError;
use ovh::json::JsonValue;
use ovh::listing::{collect, ListError};
use ovh::request::{HttpResponse, Method};

fn mail_client() -> OvhClient {
    let reply = Ok(HttpResponse::new(200, "1000"));
    OvhClient::new("ovh-eu", "k", "s", "c").unwrap().synchronize(1005, reply).unwrap()
}

fn reply(status: u16, body: &str) -> Result<HttpResponse, OvhError> {
    Ok(HttpResponse::new(status, body))
}

fn mail_json(id: &str) -> String {
    format!(
        "{{\"id\":\"{}\",\"from\":\"{}@example.com\",\"to\":\"admin@example.com\"}}",
        id, id
    )
}

fn redirection(id: &str) -> OvhMailRedir {
    OvhMailRedir {
        id: String::from(id),
        from: format!("{}@example.com", id),
        to: String::from("admin@example.com"),
    }
}

const MAIL_BASE: &str = "https://eu.api.ovh.com/1.0/email/domain/example.com/redirection";

#[test]
fn redirection_shows_on_one_line() {
    assert_eq!(redirection("foo").to_text(), "foo: foo@example.com -> admin@example.com");
}

#[test]
fn mail_list_asks_for_the_ids() {
    let request = OvhMailRedir::list(&mail_client(), "example.com", 1010).unwrap();
    assert_eq!(request.method, Method::Get);
    assert_eq!(request.url, MAIL_BASE);
    assert_eq!(request.body, "");
    assert_eq!(request.headers.len(), 4);
}

#[test]
fn get_redir_asks_for_one_redirection() {
    let request = OvhMailRedir::get_redir(&mail_client(), "example.com", "1234567", 1010).unwrap();
    assert_eq!(request.method, Method::Get);
    assert_eq!(request.url, format!("{}/1234567", MAIL_BASE));
}

#[test]
fn mail_ids_reads_the_servers_list() {
    assert_eq!(
        OvhMailRedir::ids(reply(200, "[\"12\",\"7\"]")),
        Ok(vec![String::from("12"), String::from("7")])
    );
    assert_eq!(
        OvhMailRedir::ids(reply(403, "denied")),
        Err(OvhError::ApiError(403, String::from("denied")))
    );
    assert_eq!(OvhMailRedir::ids(reply(200, "[12,7]")), Err(OvhError::ParseError));
    assert_eq!(OvhMailRedir::ids(Err(OvhError::NetworkError)), Err(OvhError::NetworkError));
}

#[test]
fn mail_get_all_makes_one_request_per_id_in_order() {
    let ids = vec![String::from("12"), String::from("7")];
    let requests = OvhMailRedir::get_all(&mail_client(), "example.com", &ids, 1010).unwrap();
    assert_eq!(requests.len(), 2);
    assert_eq!(requests[0].url, format!("{}/12", MAIL_BASE));
    assert_eq!(requests[1].url, format!("{}/7", MAIL_BASE));
    assert_eq!(
        OvhMailRedir::get_all(&mail_client(), "example.com", &ids, u64::MAX).err(),
        Some(OvhError::OutOfRange)
    );
}

#[test]
fn mail_received_reads_the_redirection() {
    assert_eq!(OvhMailRedir::received(reply(200, &mail_json("a"))), Ok(redirection("a")));
    let body = "{\"to\":\"t\",\"more\":1,\"from\":\"f\",\"id\":\"12\"}";
    let expected =
        OvhMailRedir { id: String::from("12"), from: String::from("f"), to: String::from("t") };
    assert_eq!(OvhMailRedir::received(reply(200, body)), Ok(expected));
}

#[test]
fn mail_received_reports_what_went_wrong() {
    assert_eq!(
        OvhMailRedir::received(reply(404, "gone")),
        Err(OvhError::ApiError(404, String::from("gone")))
    );
    for body in [
        "oops",
        "{}",
        "[]",
        "{\"id\":12,\"from\":\"f\",\"to\":\"t\"}",
        "{\"id\":\"12\",\"from\":\"f\"}",
        "{\"id\":\"12\",\"from\":null,\"to\":\"t\"}",
        "{\"id\":\"12\",\"to\":\"t\"}",
    ] {
        assert_eq!(OvhMailRedir::received(reply(200, body)), Err(OvhError::ParseError), "on {}", body);
    }
    assert_eq!(OvhMailRedir::received(Err(OvhError::NetworkError)), Err(OvhError::NetworkError));
}

#[test]
fn mail_from_fields_wants_three_strings() {
    let mut fields = vec![
        (String::from("id"), JsonValue::Text(String::from("a"))),
        (String::from("from"), JsonValue::Text(String::from("a@example.com"))),
        (String::from("to"), JsonValue::Text(String::from("admin@example.com"))),
    ];
    assert_eq!(OvhMailRedir::from_fields(&fields), Some(redirection("a")));
    fields[1].1 = JsonValue::Null;
    assert_eq!(OvhMailRedir::from_fields(&fields), None);
    fields.remove(1);
    assert_eq!(OvhMailRedir::from_fields(&fields), None);
}

#[test]
fn mail_list_drops_no_failed_fetch_in_silence() {
    let ids = OvhMailRedir::ids(reply(200, "[\"a\",\"b\",\"c\"]")).unwrap();
    let fetched: Vec<(String, Result<OvhMailRedir, OvhError>)> = ids
        .iter()
        .map(|id| (id.clone(), OvhMailRedir::received(reply(200, &mail_json(id)))))
        .collect();
    assert_eq!(collect(fetched), Ok(vec![redirection("a"), redirection("b"), redirection("c")]));
    let fetched: Vec<(String, Result<OvhMailRedir, OvhError>)> = ids
        .iter()
        .map(|id| {
            let body = if id == "b" { String::from("{\"id\":\"b\"}") } else { mail_json(id) };
            (id.clone(), OvhMailRedir::received(reply(200, &body)))
        })
        .collect();
    assert_eq!(
        collect(fetched),
        Err(ListError { id: String::from("b"), error: OvhError::ParseError })
    );
}

#[test]
fn mail_gathered_returns_every_redirection_or_the_first_failure() {
    let ids = vec![String::from("b"), String::from("a")];
    let replies = vec![reply(200, &mail_json("b")), reply(200, &mail_json("a"))];
    assert_eq!(OvhMailRedir::gathered(ids.clone(), replies), Ok(vec![redirection("b"), redirection("a")]));
    let replies = vec![reply(200, &mail_json("b")), reply(500, "down")];
    assert_eq!(
        OvhMailRedir::gathered(ids.clone(), replies),
        Err(ListError { id: String::from("a"), error: OvhError::ApiError(500, String::from("down")) })
    );
    let replies = vec![Err(OvhError::NetworkError), reply(500, "down")];
    assert_eq!(
        OvhMailRedir::gathered(ids.clone(), replies),
        Err(ListError { id: String::from("b"), error: OvhError::NetworkError })
    );
    assert_eq!(
        OvhMailRedir::gathered(ids, vec![]),
        Err(ListError { id: String::from("b"), error: OvhError::NetworkError })
    );
    assert_eq!(OvhMailRedir::gathered(vec![], vec![]), Ok(vec![]));
}

#[test]
fn mail_creation_body_frames_the_fields() {
    assert_eq!(
        OvhMailRedir::creation_body("\"a\"", "\"b\"", true),
        "{\"from\":\"a\",\"to\":\"b\",\"localCopy\":true}"
    );
    assert_eq!(
        OvhMailRedir::creation_body("\"a\"", "\"b\"", false),
        "{\"from\":\"a\",\"to\":\"b\",\"localCopy\":false}"
    );
}

#[test]
fn mail_create_posts_the_addresses() {
    let request = OvhMailRedir::create(
        &mail_client(),
        "example.com",
        "foo@example.com",
        "admin@example.com",
        false,
        1010,
    )
    .unwrap();
    assert_eq!(request.method, Method::Post);
    assert_eq!(request.url, MAIL_BASE);
    assert_eq!(
        request.body,
        "{\"from\":\"foo@example.com\",\"to\":\"admin@example.com\",\"localCopy\":false}"
    );
    assert_eq!(request.headers.len(), 5);
    let value: serde_json::Value = serde_json::from_str(&request.body).unwrap();
    assert_eq!(value.get("from").and_then(|v| v.as_str()), Some("foo@example.com"));
    assert_eq!(value.get("to").and_then(|v| v.as_str()), Some("admin@example.com"));
    assert_eq!(value.get("localCopy").and_then(|v| v.as_bool()), Some(false));
}

#[test]
fn mail_create_escapes_the_addresses() {
    let request =
        OvhMailRedir::create(&mail_client(), "example.com", "\"odd\"@example.com", "b", true, 1010)
            .unwrap();
    let value: serde_json::Value = serde_json::from_str(&request.body).unwrap();
    assert_eq!(value.get("from").and_then(|v| v.as_str()), Some("\"odd\"@example.com"));
    assert_eq!(value.get("localCopy").and_then(|v| v.as_bool()), Some(true));
}

#[test]
fn mail_delete_asks_for_one_redirection_to_go() {
    let request = OvhMailRedir::delete(&mail_client(), "example.com", "1234567", 1010).unwrap();
    assert_eq!(request.method, Method::Delete);
    assert_eq!(request.url, format!("{}/1234567", MAIL_BASE));
    assert_eq!(request.body, "");
}
